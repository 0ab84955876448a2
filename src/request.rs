//! The remaining request inputs, the endpoints of each operation, and the
//! steps taken before a request is sent.
use vstd::prelude::*;
use vstd::string::*;
use crate::codec::WireText;
use crate::error::Error;
use crate::query::opt_token;
use crate::strmap::{pairs_view, StringMap};
use crate::model::{logo_ok, bottom_ok, split_of, FileSplit, NewCheck};
use crate::vocab::{AccountType, Case};

verus! {

/// The version of the service's API that this client speaks.
pub const API_VERSION: &'static str = "2020-02-11";

/// The root of every endpoint.
pub const API_BASE: &'static str = "https://api.lob.com/v1";

/// A new saved address.
#[derive(Debug, Clone)]
pub struct NewAddress {
    pub description: Option<String>,
    pub name: Option<String>,
    pub company: Option<String>,
    pub phone: Option<String>,
    pub email: Option<String>,
    pub address_line1: String,
    pub address_line2: Option<String>,
    pub address_city: Option<String>,
    pub address_state: Option<String>,
    pub address_zip: Option<String>,
    pub address_country: Option<String>,
    pub metadata: Option<StringMap>,
}

/// A new bank account.
#[derive(Debug, Clone)]
pub struct NewBankAccount {
    pub description: Option<String>,
    pub routing_number: String,
    pub account_number: String,
    pub account_type: AccountType,
    pub signatory: String,
    pub metadata: StringMap,
}

/// Options of a US address verification.
#[derive(Debug, Clone, Copy)]
pub struct VerifyAddressOptions {
    pub case: Option<Case>,
}

impl VerifyAddressOptions {
    /// The query of a verification: `case` with its token, when given.
    pub fn to_query(&self) -> (r: Vec<(String, String)>)
        ensures
            pairs_view(r@) == opt_token("case"@, self.case),
    {
        let mut q: Vec<(String, String)> = Vec::new();
        match self.case {
            Some(c) => {
                q.push((String::from_str("case"), c.to_wire()));
                assert(pairs_view(q@) =~= opt_token("case"@, self.case));
            },
            None => {
                assert(pairs_view(q@) =~= opt_token("case"@, self.case));
            },
        }
        q
    }
}

/// A US address to verify, given in parts.
#[derive(Debug, Clone)]
pub struct AddressVerificationComponents {
    pub recipient: Option<String>,
    pub primary_line: String,
    pub secondary_line: Option<String>,
    pub urbanization: Option<String>,
    pub city: Option<String>,
    pub state: Option<String>,
    pub zip_code: Option<String>,
}

/// A US address to verify: one line of text, or parts.
#[derive(Debug, Clone)]
pub enum AddressVerificationInput {
    Flat(String),
    Components(AddressVerificationComponents),
}

/// What can be verified as a US address.
pub trait VerifyAddress: Sized {
    fn into_input(self) -> AddressVerificationInput;
}

impl VerifyAddress for AddressVerificationComponents {
    fn into_input(self) -> (r: AddressVerificationInput)
        ensures
            r == AddressVerificationInput::Components(self),
    {
        AddressVerificationInput::Components(self)
    }
}

impl VerifyAddress for String {
    fn into_input(self) -> (r: AddressVerificationInput)
        ensures
            r == AddressVerificationInput::Flat(self),
    {
        AddressVerificationInput::Flat(self)
    }
}

/// An international address to verify.
#[derive(Debug, Clone)]
pub struct InternationalVerificationInput {
    pub recipient: Option<String>,
    pub primary_line: String,
    pub secondary_line: Option<String>,
    pub city: Option<String>,
    pub state: Option<String>,
    pub postal_code: Option<String>,
    /// A two-letter ISO 3166 country code, other than the US and its territories.
    pub country: String,
}

/// Options of an address autocompletion.
#[derive(Debug, Clone)]
pub struct AutocompleteAddressOptions {
    pub city: Option<String>,
    pub state: Option<String>,
    /// The client's IP address, as text, to sort suggestions near it.
    pub geo_ip_sort: Option<String>,
    /// Only suggest valid addresses (needs the service's permission).
    pub only_valid_addresses: Option<bool>,
}

impl Default for AutocompleteAddressOptions {
    fn default() -> (r: AutocompleteAddressOptions)
        ensures
            r.city is None,
            r.state is None,
            r.geo_ip_sort is None,
            r.only_valid_addresses is None,
    {
        AutocompleteAddressOptions { city: None, state: None, geo_ip_sort: None, only_valid_addresses: None }
    }
}

/// The body of an autocompletion: the IP itself never goes here, only
/// whether sorting by it was asked for.
#[derive(Debug, Clone)]
pub struct AutocompleteAddressOptionsQuery {
    pub address_prefix: String,
    pub city: Option<String>,
    pub state: Option<String>,
    pub geo_ip_sort: Option<bool>,
}

pub open spec fn text_opt_view(v: Option<String>) -> Option<Seq<char>> {
    match v {
        Some(s) => Some(s@),
        None => None,
    }
}

fn clone_opt(v: &Option<String>) -> (r: Option<String>)
    ensures
        text_opt_view(r) == text_opt_view(*v),
{
    match v {
        Some(s) => Some(s.clone()),
        None => None,
    }
}

impl AutocompleteAddressOptionsQuery {
    /// The body for `address_prefix` under the given options (none: defaults).
    pub fn new(address_prefix: String, options: &Option<AutocompleteAddressOptions>) -> (r: AutocompleteAddressOptionsQuery)
        ensures
            r.address_prefix == address_prefix,
            match options {
                None => r.city is None && r.state is None && r.geo_ip_sort is None,
                Some(o) => {
                    &&& text_opt_view(r.city) == text_opt_view(o.city)
                    &&& text_opt_view(r.state) == text_opt_view(o.state)
                    &&& r.geo_ip_sort == (if o.geo_ip_sort is Some {
                        Some(true)
                    } else {
                        None
                    })
                },
            },
    {
        match options {
            None => AutocompleteAddressOptionsQuery { address_prefix, city: None, state: None, geo_ip_sort: None },
            Some(o) => AutocompleteAddressOptionsQuery {
                address_prefix,
                city: clone_opt(&o.city),
                state: clone_opt(&o.state),
                geo_ip_sort: if o.geo_ip_sort.is_some() {
                    Some(true)
                } else {
                    None
                },
            },
        }
    }
}

/// The value of the forwarded-for header of an autocompletion: the IP to
/// sort by, when one was given.
pub fn forwarded_for(options: &Option<AutocompleteAddressOptions>) -> (r: Option<String>)
    ensures
        text_opt_view(r) == match options {
            Some(o) => text_opt_view(o.geo_ip_sort),
            None => None,
        },
{
    match options {
        Some(o) => clone_opt(&o.geo_ip_sort),
        None => None,
    }
}

/// Whether an autocompletion asks for valid addresses only.
pub fn valid_addresses_only(options: &Option<AutocompleteAddressOptions>) -> (r: bool)
    ensures
        r == (options is Some && options->Some_0.only_valid_addresses == Some(true)),
{
    match options {
        Some(o) => match o.only_valid_addresses {
            Some(b) => b,
            None => false,
        },
        None => false,
    }
}

/// A collection of the service, by its path.
#[derive(Debug, Clone, Copy, PartialEq, Eq, Structural)]
pub enum Endpoint {
    Addresses,
    Postcards,
    Letters,
    Checks,
    BankAccounts,
    UsVerifications,
    UsAutocompletions,
    UsZipLookups,
    IntlVerifications,
}

impl Endpoint {
    pub open spec fn path_spec(self) -> Seq<char> {
        match self {
            Endpoint::Addresses => "addresses"@,
            Endpoint::Postcards => "postcards"@,
            Endpoint::Letters => "letters"@,
            Endpoint::Checks => "checks"@,
            Endpoint::BankAccounts => "bank_accounts"@,
            Endpoint::UsVerifications => "us_verifications"@,
            Endpoint::UsAutocompletions => "us_autocompletions"@,
            Endpoint::UsZipLookups => "us_zip_lookups"@,
            Endpoint::IntlVerifications => "intl_verifications"@,
        }
    }

    /// The path segment of the collection.
    pub fn path(&self) -> (r: &'static str)
        ensures
            r@ == self.path_spec(),
    {
        match self {
            Endpoint::Addresses => "addresses",
            Endpoint::Postcards => "postcards",
            Endpoint::Letters => "letters",
            Endpoint::Checks => "checks",
            Endpoint::BankAccounts => "bank_accounts",
            Endpoint::UsVerifications => "us_verifications",
            Endpoint::UsAutocompletions => "us_autocompletions",
            Endpoint::UsZipLookups => "us_zip_lookups",
            Endpoint::IntlVerifications => "intl_verifications",
        }
    }

    /// The URL of the collection.
    pub fn url(&self) -> (r: String)
        ensures
            r@ == API_BASE@ + "/"@ + self.path_spec(),
    {
        let mut r = String::from_str(API_BASE);
        r.append("/");
        r.append(self.path());
        r
    }

    /// The URL of one entry of the collection.
    pub fn item_url(&self, id: &str) -> (r: String)
        ensures
            r@ == API_BASE@ + "/"@ + self.path_spec() + "/"@ + id@,
    {
        let mut r = self.url();
        r.append("/");
        r.append(id);
        r
    }
}

/// The URL that confirms the micro-deposit amounts of a bank account.
pub fn verify_bank_account_url(id: &str) -> (r: String)
    ensures
        r@ == API_BASE@ + "/"@ + Endpoint::BankAccounts.path_spec() + "/"@ + id@ + "/verify"@,
{
    let mut r = Endpoint::BankAccounts.item_url(id);
    r.append("/verify");
    r
}

/// Whether a response status is a success, whose body is the result.
pub fn is_success_status(status: u16) -> (r: bool)
    ensures
        r == (200 <= status < 300),
{
    200 <= status && status < 300
}

/// Checks a new check and splits its files, before anything is sent: a
/// request that breaks a rule never reaches the network.
pub fn prepare_check(check: &NewCheck) -> (r: Result<FileSplit, Error>)
    ensures
        r is Ok <==> logo_ok(*check) && bottom_ok(*check),
        r is Ok ==> split_of(r->Ok_0, check.file_fields()),
        r is Err ==> r->Err_0@ is BadRequest,
{
    match check.validate() {
        Err(e) => Err(e),
        Ok(()) => Ok(check.file_split()),
    }
}

} // verus!
