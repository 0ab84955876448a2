//! The request-side model: what callers build, the file-bearing fields and
//! how they split into multipart parts, and the rules checked before sending.
use vstd::prelude::*;
use vstd::string::*;
use crate::error::{Error, ErrorKind};
use crate::money::CheckAmount;
use crate::strmap::StringMap;
use crate::vocab::{
    AccountType, Case, ExtraService, LetterAddressPlacement, MailType, Order, PostcardSize,
};

verus! {

/// An instant, as seconds and nanoseconds since the Unix epoch (UTC).
#[derive(Debug, Clone, Copy, PartialEq, Eq, Structural)]
pub struct Timestamp {
    pub secs: i64,
    pub nanos: u32,
}

/// The RFC 3339 text of an instant given as seconds and nanoseconds since the
/// Unix epoch, if it is one that can be represented.
pub uninterp spec fn utc_text(secs: i64, nanos: u32) -> Option<Seq<char>>;

/// Relies on chrono's `DateTime::from_timestamp` (`None` out of range) and
/// `to_rfc3339_opts(SecondsFormat::AutoSi, true)`, the form chrono's own
/// serialization writes: the text depends on the two numbers alone.
#[verifier::external_body]
fn format_utc(secs: i64, nanos: u32) -> (r: Option<String>)
    ensures
        r is Some <==> utc_text(secs, nanos) is Some,
        r is Some ==> r->Some_0@ == utc_text(secs, nanos)->Some_0,
{
    match chrono::DateTime::from_timestamp(secs, nanos) {
        Some(d) => Some(d.to_rfc3339_opts(chrono::SecondsFormat::AutoSi, true)),
        None => None,
    }
}

impl Timestamp {
    /// The RFC 3339 text of the instant (UTC, `Z`), if it can be represented.
    pub fn to_text(&self) -> (r: Option<String>)
        ensures
            r is Some <==> utc_text(self.secs, self.nanos) is Some,
            r is Some ==> r->Some_0@ == utc_text(self.secs, self.nanos)->Some_0,
    {
        format_utc(self.secs, self.nanos)
    }
}

/// A calendar day.
#[derive(Debug, Clone, Copy, PartialEq, Eq, Structural)]
pub struct CalendarDate {
    pub year: i32,
    pub month: u32,
    pub day: u32,
}

/// An address given inline in a request.
#[derive(Debug, Clone)]
pub struct SendAddressComponents {
    pub name: String,
    pub address_line1: String,
    pub address_line2: Option<String>,
    pub address_city: String,
    pub address_state: String,
    pub address_zip: String,
    pub address_country: Option<String>,
}

/// Where a piece is sent to or from: a saved address, or one given inline.
/// On the wire it is whichever branch is active, with no tag.
#[derive(Debug, Clone)]
pub enum SendAddress {
    AddressId(String),
    Components(SendAddressComponents),
}

impl From<String> for SendAddress {
    fn from(id: String) -> SendAddress {
        SendAddress::AddressId(id)
    }
}

impl vstd::std_specs::convert::FromSpecImpl<String> for SendAddress {
    open spec fn obeys_from_spec() -> bool {
        true
    }

    open spec fn from_spec(id: String) -> SendAddress {
        SendAddress::AddressId(id)
    }
}

impl From<SendAddressComponents> for SendAddress {
    fn from(c: SendAddressComponents) -> SendAddress {
        SendAddress::Components(c)
    }
}

impl vstd::std_specs::convert::FromSpecImpl<SendAddressComponents> for SendAddress {
    open spec fn obeys_from_spec() -> bool {
        true
    }

    open spec fn from_spec(c: SendAddressComponents) -> SendAddress {
        SendAddress::Components(c)
    }
}

/// The content of a file-bearing field: a saved template, a remote URL, an
/// HTML string, or the bytes of a local file with its name.
#[derive(Debug, Clone)]
pub enum FileInput {
    TemplateId(String),
    Url(String),
    Html(String),
    File { filename: String, data: Vec<u8> },
}

/// The string that a non-file input stands for in the request body.
pub open spec fn inline_of(f: FileInput) -> Option<Seq<char>> {
    match f {
        FileInput::TemplateId(s) => Some(s@),
        FileInput::Url(s) => Some(s@),
        FileInput::Html(s) => Some(s@),
        FileInput::File { .. } => None,
    }
}

impl FileInput {
    /// Whether this is the bytes of a local file.
    pub fn is_file(&self) -> (r: bool)
        ensures
            r == (*self is File),
    {
        match self {
            FileInput::File { .. } => true,
            _ => false,
        }
    }

    /// Whether an optional input is present and is the bytes of a local file.
    pub fn is_maybe_file(file: &Option<FileInput>) -> (r: bool)
        ensures
            r == (*file is Some && file->Some_0 is File),
    {
        match file {
            Some(f) => f.is_file(),
            None => false,
        }
    }

    /// Whether this is a remote URL.
    pub fn is_url(&self) -> (r: bool)
        ensures
            r == (*self is Url),
    {
        match self {
            FileInput::Url(_) => true,
            _ => false,
        }
    }

    /// The string this input stands for in the body; none for a local file.
    pub fn inline_text(&self) -> (r: Option<String>)
        ensures
            match inline_of(*self) {
                None => r is None,
                Some(s) => r is Some && r->Some_0@ == s,
            },
    {
        match self {
            FileInput::TemplateId(s) => Some(s.clone()),
            FileInput::Url(s) => Some(s.clone()),
            FileInput::Html(s) => Some(s.clone()),
            FileInput::File { .. } => None,
        }
    }
}

/// A file sent as its own multipart part, named after its field.
#[derive(Debug, Clone)]
pub struct FilePart {
    pub field: String,
    pub filename: String,
    pub data: Vec<u8>,
}

/// A file-bearing field whose value stays in the request body as a string.
#[derive(Debug, Clone)]
pub struct InlineField {
    pub field: String,
    pub value: String,
}

/// The file-bearing fields of a request, split into multipart parts and
/// body fields.
#[derive(Debug, Clone)]
pub struct FileSplit {
    pub parts: Vec<FilePart>,
    pub inline: Vec<InlineField>,
}

pub open spec fn part_view(p: FilePart) -> (Seq<char>, Seq<char>, Seq<u8>) {
    (p.field@, p.filename@, p.data@)
}

pub open spec fn inline_view(f: InlineField) -> (Seq<char>, Seq<char>) {
    (f.field@, f.value@)
}

impl FileSplit {
    pub open spec fn parts_view(&self) -> Seq<(Seq<char>, Seq<char>, Seq<u8>)> {
        self.parts@.map_values(|p: FilePart| part_view(p))
    }

    pub open spec fn inline_view(&self) -> Seq<(Seq<char>, Seq<char>)> {
        self.inline@.map_values(|f: InlineField| inline_view(f))
    }
}

/// The multipart parts of named file-bearing fields, in order: one for each
/// local file, named after its field and carrying its file name and bytes.
pub open spec fn split_parts(fs: Seq<(Seq<char>, FileInput)>) -> Seq<(Seq<char>, Seq<char>, Seq<u8>)>
    decreases fs.len(),
{
    if fs.len() == 0 {
        Seq::empty()
    } else {
        let rest = split_parts(fs.drop_last());
        match fs.last().1 {
            FileInput::File { filename, data } => rest.push((fs.last().0, filename@, data@)),
            _ => rest,
        }
    }
}

/// The body fields of named file-bearing fields, in order: each input that is
/// not a local file, with the string it stands for.
pub open spec fn split_inline(fs: Seq<(Seq<char>, FileInput)>) -> Seq<(Seq<char>, Seq<char>)>
    decreases fs.len(),
{
    if fs.len() == 0 {
        Seq::empty()
    } else {
        let rest = split_inline(fs.drop_last());
        match inline_of(fs.last().1) {
            Some(s) => rest.push((fs.last().0, s)),
            None => rest,
        }
    }
}

/// A present optional field as a one-element list, an absent one as none.
pub open spec fn optional_field(name: Seq<char>, f: Option<FileInput>) -> Seq<(Seq<char>, FileInput)> {
    match f {
        Some(x) => seq![(name, x)],
        None => Seq::empty(),
    }
}

/// Splitting a longer list of fields extends the split of the shorter one.
pub proof fn lemma_split_push(fs: Seq<(Seq<char>, FileInput)>, x: (Seq<char>, FileInput))
    ensures
        split_parts(fs.push(x)) == split_parts(fs) + split_parts(seq![x]),
        split_inline(fs.push(x)) == split_inline(fs) + split_inline(seq![x]),
{
    assert(fs.push(x).drop_last() =~= fs);
    assert(seq![x].drop_last() =~= Seq::<(Seq<char>, FileInput)>::empty());
    assert(split_parts(Seq::<(Seq<char>, FileInput)>::empty()) == Seq::<(Seq<char>, Seq<char>, Seq<u8>)>::empty());
    assert(split_inline(Seq::<(Seq<char>, FileInput)>::empty()) == Seq::<(Seq<char>, Seq<char>)>::empty());
    assert(split_parts(fs.push(x)) =~= split_parts(fs) + split_parts(seq![x]));
    assert(split_inline(fs.push(x)) =~= split_inline(fs) + split_inline(seq![x]));
}

/// Of a request with one local file and one HTML field, exactly one part is
/// sent, named after the file's field, and the HTML stays in the body.
pub proof fn lemma_file_and_html(file_field: Seq<char>, filename: String, data: Vec<u8>, html_field: Seq<char>, html: String)
    ensures
        ({
            let fs = seq![(file_field, FileInput::File { filename, data }), (html_field, FileInput::Html(html))];
            &&& split_parts(fs) == seq![(file_field, filename@, data@)]
            &&& split_inline(fs) == seq![(html_field, html@)]
        }),
{
    let a = (file_field, FileInput::File { filename, data });
    let b = (html_field, FileInput::Html(html));
    let fs = seq![a, b];
    assert(fs.drop_last() =~= seq![a]);
    assert(seq![a].drop_last() =~= Seq::<(Seq<char>, FileInput)>::empty());
    assert(split_parts(Seq::<(Seq<char>, FileInput)>::empty()) == Seq::<(Seq<char>, Seq<char>, Seq<u8>)>::empty());
    assert(split_inline(Seq::<(Seq<char>, FileInput)>::empty()) == Seq::<(Seq<char>, Seq<char>)>::empty());
    assert(split_parts(seq![a]) =~= seq![(file_field, filename@, data@)]);
    assert(split_inline(seq![a]) =~= Seq::<(Seq<char>, Seq<char>)>::empty());
    assert(split_parts(fs) =~= seq![(file_field, filename@, data@)]);
    assert(split_inline(fs) =~= seq![(html_field, html@)]);
}

impl FileSplit {
    /// An empty split.
    pub fn new() -> (r: FileSplit)
        ensures
            r.parts_view() == Seq::<(Seq<char>, Seq<char>, Seq<u8>)>::empty(),
            r.inline_view() == Seq::<(Seq<char>, Seq<char>)>::empty(),
    {
        let r = FileSplit { parts: Vec::new(), inline: Vec::new() };
        assert(r.parts_view() =~= Seq::<(Seq<char>, Seq<char>, Seq<u8>)>::empty());
        assert(r.inline_view() =~= Seq::<(Seq<char>, Seq<char>)>::empty());
        r
    }

    /// Adds the field `name` with the given input: a part for a local file,
    /// a body field for anything else.
    pub fn add(&mut self, name: &str, input: &FileInput)
        ensures
            final(self).parts_view() == old(self).parts_view() + split_parts(seq![(name@, *input)]),
            final(self).inline_view() == old(self).inline_view() + split_inline(seq![(name@, *input)]),
    {
        let ghost x = (name@, *input);
        assert(seq![x].drop_last() =~= Seq::<(Seq<char>, FileInput)>::empty());
        assert(split_parts(Seq::<(Seq<char>, FileInput)>::empty()) == Seq::<(Seq<char>, Seq<char>, Seq<u8>)>::empty());
        assert(split_inline(Seq::<(Seq<char>, FileInput)>::empty()) == Seq::<(Seq<char>, Seq<char>)>::empty());
        match input {
            FileInput::File { filename, data } => {
                let part = FilePart { field: String::from_str(name), filename: filename.clone(), data: data.clone() };
                assert(part.data@ == data@) by {
                    assert(part.data.deep_view() =~= data.deep_view());
                    assert(part.data@ =~= data@);
                }
                self.parts.push(part);
                assert(self.parts_view() =~= old(self).parts_view() + split_parts(seq![x]));
                assert(self.inline_view() =~= old(self).inline_view() + split_inline(seq![x]));
            },
            FileInput::TemplateId(s) | FileInput::Url(s) | FileInput::Html(s) => {
                self.inline.push(InlineField { field: String::from_str(name), value: s.clone() });
                assert(self.parts_view() =~= old(self).parts_view() + split_parts(seq![x]));
                assert(self.inline_view() =~= old(self).inline_view() + split_inline(seq![x]));
            },
        }
    }

    /// Adds the field `name` if it is present.
    pub fn add_optional(&mut self, name: &str, input: &Option<FileInput>)
        ensures
            final(self).parts_view() == old(self).parts_view() + split_parts(optional_field(name@, *input)),
            final(self).inline_view() == old(self).inline_view() + split_inline(optional_field(name@, *input)),
    {
        match input {
            Some(f) => self.add(name, f),
            None => {
                assert(self.parts_view() =~= old(self).parts_view() + split_parts(optional_field(name@, *input)));
                assert(self.inline_view() =~= old(self).inline_view() + split_inline(optional_field(name@, *input)));
            },
        }
    }
}

/// Whether a split holds the parts and body fields of the given fields.
pub open spec fn split_of(r: FileSplit, fs: Seq<(Seq<char>, FileInput)>) -> bool {
    r.parts_view() == split_parts(fs) && r.inline_view() == split_inline(fs)
}

/// A new postcard.
#[derive(Debug, Clone)]
pub struct NewPostcard {
    pub description: Option<String>,
    pub to: SendAddress,
    pub from: Option<SendAddress>,
    pub front: FileInput,
    pub back: FileInput,
    pub merge_variables: Option<StringMap>,
    pub size: Option<PostcardSize>,
    pub mail_type: Option<MailType>,
    pub send_date: Option<Timestamp>,
    pub metadata: Option<StringMap>,
}

impl NewPostcard {
    /// The file-bearing fields, by wire name.
    pub open spec fn file_fields(&self) -> Seq<(Seq<char>, FileInput)> {
        seq![("front"@, self.front), ("back"@, self.back)]
    }

    /// Splits `front` and `back` into multipart parts and body fields.
    pub fn file_split(&self) -> (r: FileSplit)
        ensures
            split_of(r, self.file_fields()),
    {
        let mut r = FileSplit::new();
        r.add("front", &self.front);
        r.add("back", &self.back);
        proof {
            lemma_split_push(seq![("front"@, self.front)], ("back"@, self.back));
            assert(seq![("front"@, self.front)].push(("back"@, self.back)) =~= self.file_fields());
            assert(r.parts_view() =~= split_parts(self.file_fields()));
            assert(r.inline_view() =~= split_inline(self.file_fields()));
        }
        r
    }
}

/// A new letter.
#[derive(Debug, Clone)]
pub struct NewLetter {
    pub description: Option<String>,
    pub to: SendAddress,
    pub from: SendAddress,
    pub color: bool,
    pub file: FileInput,
    pub merge_variables: Option<StringMap>,
    pub double_sided: Option<bool>,
    pub address_placement: Option<LetterAddressPlacement>,
    pub return_envelope: Option<bool>,
    pub custom_envelope: Option<String>,
    pub mail_type: Option<MailType>,
    pub extra_service: Option<ExtraService>,
    pub send_date: Option<Timestamp>,
    pub perforated_page: Option<u32>,
    pub metadata: Option<StringMap>,
}

impl NewLetter {
    /// The file-bearing fields, by wire name.
    pub open spec fn file_fields(&self) -> Seq<(Seq<char>, FileInput)> {
        seq![("file"@, self.file)]
    }

    /// Splits `file` into a multipart part or a body field.
    pub fn file_split(&self) -> (r: FileSplit)
        ensures
            split_of(r, self.file_fields()),
    {
        let mut r = FileSplit::new();
        r.add("file", &self.file);
        proof {
            assert(r.parts_view() =~= split_parts(self.file_fields()));
            assert(r.inline_view() =~= split_inline(self.file_fields()));
        }
        r
    }
}

/// A new check.
#[derive(Debug, Clone)]
pub struct NewCheck {
    pub description: Option<String>,
    pub to: SendAddress,
    pub from: SendAddress,
    pub bank_account: String,
    pub amount: CheckAmount,
    pub memo: Option<String>,
    pub check_number: Option<i32>,
    /// Must be a URL or a local file.
    pub logo: Option<FileInput>,
    /// Either `message` or `check_bottom`: exactly one of them.
    pub message: Option<String>,
    /// Either `message` or `check_bottom`: exactly one of them.
    pub check_bottom: Option<FileInput>,
    pub attachment: Option<FileInput>,
    pub mail_type: Option<MailType>,
    pub send_date: Option<CalendarDate>,
    pub metadata: Option<StringMap>,
}

/// A check's logo, when given, is a remote URL or a local file.
pub open spec fn logo_ok(c: NewCheck) -> bool {
    match c.logo {
        None => true,
        Some(l) => l is Url || l is File,
    }
}

/// A check has exactly one of `message` and `check_bottom`.
pub open spec fn bottom_ok(c: NewCheck) -> bool {
    (c.message is Some) != (c.check_bottom is Some)
}

impl NewCheck {
    /// The file-bearing fields that are present, by wire name.
    pub open spec fn file_fields(&self) -> Seq<(Seq<char>, FileInput)> {
        optional_field("logo"@, self.logo) + optional_field("check_bottom"@, self.check_bottom)
            + optional_field("attachment"@, self.attachment)
    }

    /// Checks the rules on a check's content that hold before anything is sent.
    pub fn validate(&self) -> (r: Result<(), Error>)
        ensures
            r is Ok <==> logo_ok(*self) && bottom_ok(*self),
            !logo_ok(*self) ==> r is Err && r->Err_0@ is BadRequest
                && r->Err_0@->BadRequest_0@ == "logo must be `File` or `URL`"@,
            logo_ok(*self) && !bottom_ok(*self) ==> r is Err && r->Err_0@ is BadRequest
                && r->Err_0@->BadRequest_0@ == "One, but not both, of `check_bottom` and `message` must be set"@,
    {
        if let Some(logo) = &self.logo {
            if !(logo.is_file() || logo.is_url()) {
                return Err(Error::bad_request("logo must be `File` or `URL`"));
            }
        }
        match (&self.message, &self.check_bottom) {
            (Some(_), None) | (None, Some(_)) => Ok(()),
            _ => Err(Error::bad_request("One, but not both, of `check_bottom` and `message` must be set")),
        }
    }

    /// Splits `logo`, `check_bottom` and `attachment` into multipart parts
    /// and body fields.
    pub fn file_split(&self) -> (r: FileSplit)
        ensures
            split_of(r, self.file_fields()),
    {
        let mut r = FileSplit::new();
        r.add_optional("logo", &self.logo);
        r.add_optional("check_bottom", &self.check_bottom);
        r.add_optional("attachment", &self.attachment);
        proof {
            let a = optional_field("logo"@, self.logo);
            let b = optional_field("check_bottom"@, self.check_bottom);
            let c = optional_field("attachment"@, self.attachment);
            lemma_split_append(a, b);
            lemma_split_append(a + b, c);
            assert(r.parts_view() =~= split_parts(self.file_fields()));
            assert(r.inline_view() =~= split_inline(self.file_fields()));
        }
        r
    }
}

/// Splitting two lists of fields one after the other splits their concatenation.
pub proof fn lemma_split_append(a: Seq<(Seq<char>, FileInput)>, b: Seq<(Seq<char>, FileInput)>)
    ensures
        split_parts(a + b) == split_parts(a) + split_parts(b),
        split_inline(a + b) == split_inline(a) + split_inline(b),
    decreases b.len(),
{
    if b.len() == 0 {
        assert(a + b =~= a);
        assert(split_parts(a) + split_parts(b) =~= split_parts(a));
        assert(split_inline(a) + split_inline(b) =~= split_inline(a));
    } else {
        let c = b.drop_last();
        lemma_split_append(a, c);
        assert((a + b).drop_last() =~= a + c);
        assert((a + b).last() == b.last());
        assert(split_parts(a + b) =~= split_parts(a) + split_parts(b));
        assert(split_inline(a + b) =~= split_inline(a) + split_inline(b));
    }
}

} // verus!
