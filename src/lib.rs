//! Typed model of a direct-mail and address-verification REST API: the wire
//! codecs, closed vocabularies, money amounts, request validation, multipart
//! splitting, list-query encoding and the error taxonomy, all verified.

pub mod codec;
pub mod error;
pub mod model;
pub mod money;
pub mod query;
pub mod request;
pub mod response;
pub mod strmap;
pub mod text;
pub mod vocab;

pub use error::Error;
pub use request::API_VERSION;
