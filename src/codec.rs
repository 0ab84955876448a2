//! Field codecs for the wire's textual conventions: a value's token, the
//! empty string for an absent value, and `Y` / `N` / empty for a tri-state.
use vstd::prelude::*;
use vstd::string::*;
use crate::text::str_eq;

verus! {

/// A value that travels on the wire as a single string token.
pub trait WireText: Sized {
    /// The token of the value.
    spec fn wire_spec(&self) -> Seq<char>;

    /// The name of the type, for error messages.
    fn kind_label() -> &'static str;

    /// The token of the value.
    fn to_wire(&self) -> (r: String)
        ensures
            r@ == self.wire_spec(),
    ;

    /// The value whose token is `s`, if there is one.
    fn from_wire(s: &str) -> (r: Option<Self>)
        ensures
            match r {
                Some(v) => v.wire_spec() == s@,
                None => forall|v: Self| #[trigger] v.wire_spec() != s@,
            },
    ;
}

impl WireText for String {
    open spec fn wire_spec(&self) -> Seq<char> {
        self@
    }

    fn kind_label() -> &'static str {
        "string"
    }

    fn to_wire(&self) -> (r: String) {
        self.clone()
    }

    fn from_wire(s: &str) -> (r: Option<String>) {
        Some(String::from_str(s))
    }
}

/// A token that no value of the expected type has.
#[derive(Debug, Clone)]
pub struct DecodeError {
    /// The offending token.
    pub found: String,
    /// The type that was expected.
    pub expected: String,
}

impl DecodeError {
    /// A readable description: `Expected <expected>, found <found>`.
    pub fn message(&self) -> (r: String)
        ensures
            r@ == "Expected "@ + self.expected@ + ", found "@ + self.found@,
    {
        let mut m = String::from_str("Expected ");
        m.append(self.expected.as_str());
        m.append(", found ");
        m.append(self.found.as_str());
        m
    }
}

/// The wire text of an optional value: the empty string when absent.
pub open spec fn optional_wire<T: WireText>(v: Option<T>) -> Seq<char> {
    match v {
        None => Seq::empty(),
        Some(x) => x.wire_spec(),
    }
}

/// What decoding `s` as an optional value may give: absent for the empty
/// string; otherwise a value whose token is `s`, or an error naming `s` when no
/// value has that token.
pub open spec fn optional_decoded<T: WireText>(s: Seq<char>, r: Result<Option<T>, DecodeError>) -> bool {
    if s.len() == 0 {
        r is Ok && r->Ok_0 is None
    } else {
        match r {
            Ok(Some(v)) => v.wire_spec() == s,
            Ok(None) => false,
            Err(e) => e.found@ == s && forall|v: T| #[trigger] v.wire_spec() != s,
        }
    }
}

/// Encodes an optional value, writing the empty string for an absent one.
pub fn encode_optional<T: WireText>(v: &Option<T>) -> (r: String)
    ensures
        r@ == optional_wire(*v),
{
    match v {
        None => String::new(),
        Some(x) => x.to_wire(),
    }
}

/// Decodes an optional value, reading the empty string as absent.
pub fn decode_optional<T: WireText>(s: &str) -> (r: Result<Option<T>, DecodeError>)
    ensures
        optional_decoded(s@, r),
{
    if s.unicode_len() == 0 {
        return Ok(None);
    }
    match T::from_wire(s) {
        Some(v) => Ok(Some(v)),
        None => Err(DecodeError { found: String::from_str(s), expected: String::from_str(T::kind_label()) }),
    }
}

/// An absent text encodes to the empty string and decodes back to absent; a
/// present, non-empty text decodes back to itself.
pub proof fn lemma_optional_text_round_trip(v: Option<String>, r: Result<Option<String>, DecodeError>)
    requires
        v is Some ==> v->Some_0@.len() > 0,
        optional_decoded(optional_wire(v), r),
    ensures
        v is None ==> r is Ok && r->Ok_0 is None,
        v is Some ==> r is Ok && r->Ok_0 is Some && r->Ok_0->Some_0@ == v->Some_0@,
{
}

/// The wire text of a tri-state: `Y`, `N`, or empty when absent.
pub open spec fn yn_text(v: Option<bool>) -> Seq<char> {
    match v {
        Some(true) => "Y"@,
        Some(false) => "N"@,
        None => ""@,
    }
}

/// The tri-state that a wire text names, if any.
pub open spec fn yn_of(s: Seq<char>) -> Option<Option<bool>> {
    if s == "Y"@ {
        Some(Some(true))
    } else if s == "N"@ {
        Some(Some(false))
    } else if s == ""@ {
        Some(None)
    } else {
        None
    }
}

/// Encodes a tri-state as `Y`, `N` or the empty string.
pub fn encode_yn(v: Option<bool>) -> (r: &'static str)
    ensures
        r@ == yn_text(v),
{
    match v {
        Some(true) => "Y",
        Some(false) => "N",
        None => "",
    }
}

/// Decodes `Y`, `N` and the empty string; any other text is an error naming it.
pub fn decode_yn(s: &str) -> (r: Result<Option<bool>, DecodeError>)
    ensures
        match yn_of(s@) {
            Some(v) => r == Ok::<Option<bool>, DecodeError>(v),
            None => r is Err && r->Err_0.found@ == "'"@ + s@ + "'"@
                && r->Err_0.expected@ == "'Y', 'N', or ''"@,
        },
{
    if str_eq(s, "Y") {
        Ok(Some(true))
    } else if str_eq(s, "N") {
        Ok(Some(false))
    } else if str_eq(s, "") {
        Ok(None)
    } else {
        Err(DecodeError { found: yn_found(s), expected: String::from_str("'Y', 'N', or ''") })
    }
}

/// The offending text of a tri-state, in quotes.
fn yn_found(s: &str) -> (r: String)
    ensures
        r@ == "'"@ + s@ + "'"@,
{
    let mut r = String::from_str("'");
    r.append(s);
    r.append("'");
    r
}

/// Each tri-state reads back as itself, and the three texts are the only ones read.
pub proof fn lemma_yn_round_trip(v: Option<bool>)
    ensures
        yn_of(yn_text(v)) == Some(v),
        yn_of("Y"@) == Some(Some(true)),
        yn_of("N"@) == Some(Some(false)),
        yn_of(""@) == Some(None::<bool>),
{
    reveal_strlit("Y");
    reveal_strlit("N");
    reveal_strlit("");
    assert("N"@ != "Y"@) by {
        assert("N"@[0] != "Y"@[0]);
    }
    assert(""@ != "Y"@ && ""@ != "N"@) by {
        assert(""@.len() == 0);
    }
}

} // verus!
