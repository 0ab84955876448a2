//! Filters of list operations, encoded as query pairs with nested-bracket
//! keys: `metadata[key]=value`, `include[]=total_count`, `date_created[gt]=...`.
use vstd::prelude::*;
use vstd::string::*;
use crate::codec::WireText;
use crate::error::{signed_text, Error, ErrorKind};
use crate::model::{utc_text, Timestamp};
use crate::strmap::{pairs_view, StringMap};
use crate::text::{decimal_text, push_decimal};
use crate::vocab::{ListIncludeOptions, MailType, Order, PostcardSize};

verus! {

/// Bounds on an instant; each is sent only when present.
#[derive(Debug, Clone, Copy)]
pub struct DateFilter {
    pub gt: Option<Timestamp>,
    pub gte: Option<Timestamp>,
    pub lt: Option<Timestamp>,
    pub lte: Option<Timestamp>,
}

/// The order of a listing, by creation or by send date.
#[derive(Debug, Clone, Copy, PartialEq, Eq, Structural)]
pub enum SortBy {
    DateCreated(Order),
    SendDate(Order),
}

pub open spec fn opt_text(k: Seq<char>, v: Option<String>) -> Seq<(Seq<char>, Seq<char>)> {
    match v {
        Some(s) => seq![(k, s@)],
        None => Seq::empty(),
    }
}

pub open spec fn opt_u32(k: Seq<char>, v: Option<u32>) -> Seq<(Seq<char>, Seq<char>)> {
    match v {
        Some(n) => seq![(k, decimal_text(n as nat))],
        None => Seq::empty(),
    }
}

pub open spec fn opt_i32(k: Seq<char>, v: Option<i32>) -> Seq<(Seq<char>, Seq<char>)> {
    match v {
        Some(n) => seq![(k, signed_text(n as int))],
        None => Seq::empty(),
    }
}

pub open spec fn bool_text(b: bool) -> Seq<char> {
    if b {
        "true"@
    } else {
        "false"@
    }
}

pub open spec fn opt_bool(k: Seq<char>, v: Option<bool>) -> Seq<(Seq<char>, Seq<char>)> {
    match v {
        Some(b) => seq![(k, bool_text(b))],
        None => Seq::empty(),
    }
}

pub open spec fn opt_token<T: WireText>(k: Seq<char>, v: Option<T>) -> Seq<(Seq<char>, Seq<char>)> {
    match v {
        Some(t) => seq![(k, t.wire_spec())],
        None => Seq::empty(),
    }
}

/// One `include[]` entry per requested inclusion, in order.
pub open spec fn include_pairs(v: Seq<ListIncludeOptions>) -> Seq<(Seq<char>, Seq<char>)>
    decreases v.len(),
{
    if v.len() == 0 {
        Seq::empty()
    } else {
        include_pairs(v.drop_last()).push(("include[]"@, v.last().wire_spec()))
    }
}

pub open spec fn opt_include(v: Option<Vec<ListIncludeOptions>>) -> Seq<(Seq<char>, Seq<char>)> {
    match v {
        Some(items) => include_pairs(items@),
        None => Seq::empty(),
    }
}

/// One `metadata[key]=value` entry per metadata pair, in order.
pub open spec fn metadata_pairs(v: Seq<(Seq<char>, Seq<char>)>) -> Seq<(Seq<char>, Seq<char>)>
    decreases v.len(),
{
    if v.len() == 0 {
        Seq::empty()
    } else {
        metadata_pairs(v.drop_last()).push(("metadata["@ + v.last().0 + "]"@, v.last().1))
    }
}

pub open spec fn opt_metadata(v: Option<StringMap>) -> Seq<(Seq<char>, Seq<char>)> {
    match v {
        Some(m) => metadata_pairs(m.entries_view()),
        None => Seq::empty(),
    }
}

/// The entry of one bound of a date filter: none when the bound is absent,
/// and no query at all when the instant has no text.
pub open spec fn opt_date(k: Seq<char>, v: Option<Timestamp>) -> Option<Seq<(Seq<char>, Seq<char>)>> {
    match v {
        None => Some(Seq::empty()),
        Some(t) => match utc_text(t.secs, t.nanos) {
            Some(s) => Some(seq![(k, s)]),
            None => None,
        },
    }
}

/// The entries `k[gt]`, `k[gte]`, `k[lt]`, `k[lte]` of a date filter.
pub open spec fn date_pairs(k: Seq<char>, v: Option<DateFilter>) -> Option<Seq<(Seq<char>, Seq<char>)>> {
    match v {
        None => Some(Seq::empty()),
        Some(f) => {
            let a = opt_date(k + "[gt]"@, f.gt);
            let b = opt_date(k + "[gte]"@, f.gte);
            let c = opt_date(k + "[lt]"@, f.lt);
            let d = opt_date(k + "[lte]"@, f.lte);
            if a is Some && b is Some && c is Some && d is Some {
                Some(a->Some_0 + b->Some_0 + c->Some_0 + d->Some_0)
            } else {
                None
            }
        },
    }
}

/// The entry `sort_by[date_created]` or `sort_by[send_date]` with the order.
pub open spec fn opt_sort(v: Option<SortBy>) -> Seq<(Seq<char>, Seq<char>)> {
    match v {
        None => Seq::empty(),
        Some(SortBy::DateCreated(o)) => seq![("sort_by[date_created]"@, o.wire_spec())],
        Some(SortBy::SendDate(o)) => seq![("sort_by[send_date]"@, o.wire_spec())],
    }
}

proof fn lemma_pairs_push(s: Seq<(String, String)>, p: (String, String))
    ensures
        pairs_view(s.push(p)) == pairs_view(s).push((p.0@, p.1@)),
{
    assert(pairs_view(s.push(p)) =~= pairs_view(s).push((p.0@, p.1@)));
}

fn push_pair(q: &mut Vec<(String, String)>, k: String, v: String)
    ensures
        pairs_view(final(q)@) == pairs_view(old(q)@) + seq![(k@, v@)],
{
    proof {
        lemma_pairs_push(q@, (k, v));
    }
    q.push((k, v));
    assert(pairs_view(q@) =~= pairs_view(old(q)@) + seq![(k@, v@)]);
}

fn push_opt_text(q: &mut Vec<(String, String)>, k: &str, v: &Option<String>)
    ensures
        pairs_view(final(q)@) == pairs_view(old(q)@) + opt_text(k@, *v),
{
    match v {
        Some(s) => push_pair(q, String::from_str(k), s.clone()),
        None => assert(pairs_view(q@) =~= pairs_view(old(q)@) + opt_text(k@, *v)),
    }
}

fn push_opt_u32(q: &mut Vec<(String, String)>, k: &str, v: Option<u32>)
    ensures
        pairs_view(final(q)@) == pairs_view(old(q)@) + opt_u32(k@, v),
{
    match v {
        Some(n) => {
            let mut s = String::new();
            push_decimal(&mut s, n as u64);
            assert(s@ =~= decimal_text(n as nat));
            push_pair(q, String::from_str(k), s);
        },
        None => assert(pairs_view(q@) =~= pairs_view(old(q)@) + opt_u32(k@, v)),
    }
}

fn push_opt_i32(q: &mut Vec<(String, String)>, k: &str, v: Option<i32>)
    ensures
        pairs_view(final(q)@) == pairs_view(old(q)@) + opt_i32(k@, v),
{
    match v {
        Some(n) => {
            let mut s = String::new();
            if n < 0 {
                s.append("-");
                push_decimal(&mut s, (0 - (n as i64)) as u64);
            } else {
                push_decimal(&mut s, n as u64);
            }
            assert(s@ =~= signed_text(n as int));
            push_pair(q, String::from_str(k), s);
        },
        None => assert(pairs_view(q@) =~= pairs_view(old(q)@) + opt_i32(k@, v)),
    }
}

fn push_opt_bool(q: &mut Vec<(String, String)>, k: &str, v: Option<bool>)
    ensures
        pairs_view(final(q)@) == pairs_view(old(q)@) + opt_bool(k@, v),
{
    match v {
        Some(b) => {
            let s = if b {
                String::from_str("true")
            } else {
                String::from_str("false")
            };
            push_pair(q, String::from_str(k), s);
        },
        None => assert(pairs_view(q@) =~= pairs_view(old(q)@) + opt_bool(k@, v)),
    }
}

fn push_opt_token<T: WireText>(q: &mut Vec<(String, String)>, k: &str, v: &Option<T>)
    ensures
        pairs_view(final(q)@) == pairs_view(old(q)@) + opt_token(k@, *v),
{
    match v {
        Some(t) => push_pair(q, String::from_str(k), t.to_wire()),
        None => assert(pairs_view(q@) =~= pairs_view(old(q)@) + opt_token(k@, *v)),
    }
}

fn push_include(q: &mut Vec<(String, String)>, v: &Option<Vec<ListIncludeOptions>>)
    ensures
        pairs_view(final(q)@) == pairs_view(old(q)@) + opt_include(*v),
{
    match v {
        None => assert(pairs_view(q@) =~= pairs_view(old(q)@) + opt_include(*v)),
        Some(items) => {
            let mut i: usize = 0;
            assert(items@.take(0) =~= Seq::<ListIncludeOptions>::empty());
            assert(pairs_view(q@) =~= pairs_view(old(q)@) + include_pairs(items@.take(0)));
            while i < items.len()
                invariant
                    i <= items@.len(),
                    pairs_view(q@) == pairs_view(old(q)@) + include_pairs(items@.take(i as int)),
                decreases items@.len() - i,
            {
                let ghost before = pairs_view(q@);
                push_pair(q, String::from_str("include[]"), items[i].to_wire());
                assert(items@.take(i + 1).drop_last() =~= items@.take(i as int));
                assert(pairs_view(q@) =~= pairs_view(old(q)@) + include_pairs(items@.take(i + 1)));
                i = i + 1;
            }
            assert(items@.take(i as int) =~= items@);
        },
    }
}

fn push_metadata(q: &mut Vec<(String, String)>, v: &Option<StringMap>)
    ensures
        pairs_view(final(q)@) == pairs_view(old(q)@) + opt_metadata(*v),
{
    match v {
        None => assert(pairs_view(q@) =~= pairs_view(old(q)@) + opt_metadata(*v)),
        Some(m) => {
            let items = m.entries();
            let ghost e = pairs_view(items@);
            let mut i: usize = 0;
            assert(e.take(0) =~= Seq::<(Seq<char>, Seq<char>)>::empty());
            assert(pairs_view(q@) =~= pairs_view(old(q)@) + metadata_pairs(e.take(0)));
            while i < items.len()
                invariant
                    i <= items@.len(),
                    e == pairs_view(items@),
                    pairs_view(q@) == pairs_view(old(q)@) + metadata_pairs(e.take(i as int)),
                decreases items@.len() - i,
            {
                let mut key = String::from_str("metadata[");
                key.append(items[i].0.as_str());
                key.append("]");
                push_pair(q, key, items[i].1.clone());
                assert(e.take(i + 1).drop_last() =~= e.take(i as int));
                assert(e.take(i + 1).last() == e[i as int]);
                assert(pairs_view(q@) =~= pairs_view(old(q)@) + metadata_pairs(e.take(i + 1)));
                i = i + 1;
            }
            assert(e.take(i as int) =~= e);
        },
    }
}

fn push_opt_date(q: &mut Vec<(String, String)>, k: String, v: Option<Timestamp>) -> (ok: bool)
    ensures
        ok == opt_date(k@, v) is Some,
        ok ==> pairs_view(final(q)@) == pairs_view(old(q)@) + opt_date(k@, v)->Some_0,
{
    match v {
        None => {
            assert(pairs_view(q@) =~= pairs_view(old(q)@) + Seq::<(Seq<char>, Seq<char>)>::empty());
            true
        },
        Some(t) => match t.to_text() {
            None => false,
            Some(s) => {
                push_pair(q, k, s);
                true
            },
        },
    }
}

fn bracket_key(k: &str, sub: &str) -> (r: String)
    ensures
        r@ == k@ + "["@ + sub@ + "]"@,
{
    let mut r = String::from_str(k);
    r.append("[");
    r.append(sub);
    r.append("]");
    r
}

fn push_dates(q: &mut Vec<(String, String)>, k: &str, v: &Option<DateFilter>) -> (ok: bool)
    ensures
        ok == date_pairs(k@, *v) is Some,
        ok ==> pairs_view(final(q)@) == pairs_view(old(q)@) + date_pairs(k@, *v)->Some_0,
{
    match v {
        None => {
            assert(pairs_view(q@) =~= pairs_view(old(q)@) + Seq::<(Seq<char>, Seq<char>)>::empty());
            true
        },
        Some(f) => {
            proof {
                reveal_strlit("[gt]");
                reveal_strlit("[gte]");
                reveal_strlit("[lt]");
                reveal_strlit("[lte]");
                reveal_strlit("[");
                reveal_strlit("]");
                reveal_strlit("gt");
                reveal_strlit("gte");
                reveal_strlit("lt");
                reveal_strlit("lte");
                assert(k@ + "["@ + "gt"@ + "]"@ =~= k@ + "[gt]"@);
                assert(k@ + "["@ + "gte"@ + "]"@ =~= k@ + "[gte]"@);
                assert(k@ + "["@ + "lt"@ + "]"@ =~= k@ + "[lt]"@);
                assert(k@ + "["@ + "lte"@ + "]"@ =~= k@ + "[lte]"@);
            }
            let ghost q0 = pairs_view(q@);
            if !push_opt_date(q, bracket_key(k, "gt"), f.gt) {
                return false;
            }
            if !push_opt_date(q, bracket_key(k, "gte"), f.gte) {
                return false;
            }
            if !push_opt_date(q, bracket_key(k, "lt"), f.lt) {
                return false;
            }
            if !push_opt_date(q, bracket_key(k, "lte"), f.lte) {
                return false;
            }
            assert(pairs_view(q@) =~= q0 + date_pairs(k@, *v)->Some_0);
            true
        },
    }
}

fn push_sort(q: &mut Vec<(String, String)>, v: &Option<SortBy>)
    ensures
        pairs_view(final(q)@) == pairs_view(old(q)@) + opt_sort(*v),
{
    match v {
        None => assert(pairs_view(q@) =~= pairs_view(old(q)@) + opt_sort(*v)),
        Some(SortBy::DateCreated(o)) => push_pair(q, String::from_str("sort_by[date_created]"), o.to_wire()),
        Some(SortBy::SendDate(o)) => push_pair(q, String::from_str("sort_by[send_date]"), o.to_wire()),
    }
}

fn date_error() -> (e: Error)
    ensures
        e@ is Serialization,
{
    Error::serialization(String::from_str("a date in the filter cannot be written as RFC 3339"))
}

/// Filters and paging of a listing of addresses.
#[derive(Debug, Clone)]
pub struct ListAddressesOptions {
    /// How many results to return (the service defaults to 10, at most 100).
    pub limit: Option<u32>,
    /// A cursor for the page after an entry, as given in a response's `next_url`.
    pub after: Option<String>,
    /// A cursor for the page before an entry, as given in a response's `previous_url`.
    pub before: Option<String>,
    /// Extra data to include, such as the total count.
    pub includes: Option<Vec<ListIncludeOptions>>,
    /// Only entries with these metadata pairs.
    pub metadata: Option<StringMap>,
    /// Bounds on the creation instant.
    pub date_created: Option<DateFilter>,
}

impl ListAddressesOptions {
    /// The query pairs of the filter, in field order, absent fields left out;
    /// none when a date bound has no text.
    pub open spec fn query_spec(o: ListAddressesOptions) -> Option<Seq<(Seq<char>, Seq<char>)>> {
        match date_pairs("date_created"@, o.date_created) {
            None => None,
            Some(d0) => Some(opt_u32("limit"@, o.limit) + opt_text("after"@, o.after) + opt_text("before"@, o.before) + opt_include(o.includes) + opt_metadata(o.metadata) + d0),
        }
    }

    /// Encodes the filter as query pairs with nested-bracket keys.
    pub fn to_query(&self) -> (r: Result<Vec<(String, String)>, Error>)
        ensures
            match Self::query_spec(*self) {
                Some(p) => r is Ok && pairs_view(r->Ok_0@) == p,
                None => r is Err && r->Err_0@ is Serialization,
            },
    {
        let mut q: Vec<(String, String)> = Vec::new();
        let ghost q0 = pairs_view(q@);
        assert(q0 =~= Seq::<(Seq<char>, Seq<char>)>::empty());
        push_opt_u32(&mut q, "limit", self.limit);
        push_opt_text(&mut q, "after", &self.after);
        push_opt_text(&mut q, "before", &self.before);
        push_include(&mut q, &self.includes);
        push_metadata(&mut q, &self.metadata);
        if !push_dates(&mut q, "date_created", &self.date_created) {
            return Err(date_error());
        }
        assert(pairs_view(q@) =~= Self::query_spec(*self)->Some_0);
        Ok(q)
    }
}

impl Default for ListAddressesOptions {
    fn default() -> (r: ListAddressesOptions)
        ensures
            r.limit is None,
            r.after is None,
            r.before is None,
            r.includes is None,
            r.metadata is None,
            r.date_created is None,
    {
        ListAddressesOptions {
            limit: None,
            after: None,
            before: None,
            includes: None,
            metadata: None,
            date_created: None,
        }
    }
}

/// Filters and paging of a listing of bank accounts.
#[derive(Debug, Clone)]
pub struct ListBankAccountOptions {
    /// How many results to return (the service defaults to 10, at most 100).
    pub limit: Option<u32>,
    /// A cursor for the page after an entry, as given in a response's `next_url`.
    pub after: Option<String>,
    /// A cursor for the page before an entry, as given in a response's `previous_url`.
    pub before: Option<String>,
    /// Extra data to include, such as the total count.
    pub includes: Option<Vec<ListIncludeOptions>>,
    /// Only entries with these metadata pairs.
    pub metadata: Option<StringMap>,
    /// Bounds on the creation instant.
    pub date_created: Option<DateFilter>,
}

impl ListBankAccountOptions {
    /// The query pairs of the filter, in field order, absent fields left out;
    /// none when a date bound has no text.
    pub open spec fn query_spec(o: ListBankAccountOptions) -> Option<Seq<(Seq<char>, Seq<char>)>> {
        match date_pairs("date_created"@, o.date_created) {
            None => None,
            Some(d0) => Some(opt_u32("limit"@, o.limit) + opt_text("after"@, o.after) + opt_text("before"@, o.before) + opt_include(o.includes) + opt_metadata(o.metadata) + d0),
        }
    }

    /// Encodes the filter as query pairs with nested-bracket keys.
    pub fn to_query(&self) -> (r: Result<Vec<(String, String)>, Error>)
        ensures
            match Self::query_spec(*self) {
                Some(p) => r is Ok && pairs_view(r->Ok_0@) == p,
                None => r is Err && r->Err_0@ is Serialization,
            },
    {
        let mut q: Vec<(String, String)> = Vec::new();
        let ghost q0 = pairs_view(q@);
        assert(q0 =~= Seq::<(Seq<char>, Seq<char>)>::empty());
        push_opt_u32(&mut q, "limit", self.limit);
        push_opt_text(&mut q, "after", &self.after);
        push_opt_text(&mut q, "before", &self.before);
        push_include(&mut q, &self.includes);
        push_metadata(&mut q, &self.metadata);
        if !push_dates(&mut q, "date_created", &self.date_created) {
            return Err(date_error());
        }
        assert(pairs_view(q@) =~= Self::query_spec(*self)->Some_0);
        Ok(q)
    }
}

impl Default for ListBankAccountOptions {
    fn default() -> (r: ListBankAccountOptions)
        ensures
            r.limit is None,
            r.after is None,
            r.before is None,
            r.includes is None,
            r.metadata is None,
            r.date_created is None,
    {
        ListBankAccountOptions {
            limit: None,
            after: None,
            before: None,
            includes: None,
            metadata: None,
            date_created: None,
        }
    }
}

/// Filters, paging and order of a listing of postcards.
#[derive(Debug, Clone)]
pub struct ListPostcardOptions {
    /// How many results to return (the service defaults to 10, at most 100).
    pub limit: Option<i32>,
    /// A cursor for the page after an entry, as given in a response's `next_url`.
    pub after: Option<String>,
    /// A cursor for the page before an entry, as given in a response's `previous_url`.
    pub before: Option<String>,
    /// Extra data to include, such as the total count.
    pub includes: Option<Vec<ListIncludeOptions>>,
    /// Only entries with these metadata pairs.
    pub metadata: Option<StringMap>,
    /// Bounds on the creation instant.
    pub date_created: Option<DateFilter>,
    /// Only postcards of this size.
    pub size: Option<PostcardSize>,
    /// Only entries sent later than created (`true`) or sent at creation (`false`).
    pub scheduled: Option<bool>,
    /// Bounds on the send instant.
    pub send_date: Option<DateFilter>,
    /// Only entries of this postal class.
    pub mail_type: Option<MailType>,
    /// The order of the results.
    pub sort_by: Option<SortBy>,
}

impl ListPostcardOptions {
    /// The query pairs of the filter, in field order, absent fields left out;
    /// none when a date bound has no text.
    pub open spec fn query_spec(o: ListPostcardOptions) -> Option<Seq<(Seq<char>, Seq<char>)>> {
        match date_pairs("date_created"@, o.date_created) {
            None => None,
            Some(d0) => match date_pairs("send_date"@, o.send_date) {
            None => None,
            Some(d1) => Some(opt_i32("limit"@, o.limit) + opt_text("after"@, o.after) + opt_text("before"@, o.before) + opt_include(o.includes) + opt_metadata(o.metadata) + d0 + opt_token("size"@, o.size) + opt_bool("scheduled"@, o.scheduled) + d1 + opt_token("mail_type"@, o.mail_type) + opt_sort(o.sort_by)),
        },
        }
    }

    /// Encodes the filter as query pairs with nested-bracket keys.
    pub fn to_query(&self) -> (r: Result<Vec<(String, String)>, Error>)
        ensures
            match Self::query_spec(*self) {
                Some(p) => r is Ok && pairs_view(r->Ok_0@) == p,
                None => r is Err && r->Err_0@ is Serialization,
            },
    {
        let mut q: Vec<(String, String)> = Vec::new();
        let ghost q0 = pairs_view(q@);
        assert(q0 =~= Seq::<(Seq<char>, Seq<char>)>::empty());
        push_opt_i32(&mut q, "limit", self.limit);
        push_opt_text(&mut q, "after", &self.after);
        push_opt_text(&mut q, "before", &self.before);
        push_include(&mut q, &self.includes);
        push_metadata(&mut q, &self.metadata);
        if !push_dates(&mut q, "date_created", &self.date_created) {
            return Err(date_error());
        }
        push_opt_token(&mut q, "size", &self.size);
        push_opt_bool(&mut q, "scheduled", self.scheduled);
        if !push_dates(&mut q, "send_date", &self.send_date) {
            return Err(date_error());
        }
        push_opt_token(&mut q, "mail_type", &self.mail_type);
        push_sort(&mut q, &self.sort_by);
        assert(pairs_view(q@) =~= Self::query_spec(*self)->Some_0);
        Ok(q)
    }
}

impl Default for ListPostcardOptions {
    fn default() -> (r: ListPostcardOptions)
        ensures
            r.limit is None,
            r.after is None,
            r.before is None,
            r.includes is None,
            r.metadata is None,
            r.date_created is None,
            r.size is None,
            r.scheduled is None,
            r.send_date is None,
            r.mail_type is None,
            r.sort_by is None,
    {
        ListPostcardOptions {
            limit: None,
            after: None,
            before: None,
            includes: None,
            metadata: None,
            date_created: None,
            size: None,
            scheduled: None,
            send_date: None,
            mail_type: None,
            sort_by: None,
        }
    }
}

/// Filters, paging and order of a listing of letters.
#[derive(Debug, Clone)]
pub struct ListLetterOptions {
    /// How many results to return (the service defaults to 10, at most 100).
    pub limit: Option<i32>,
    /// A cursor for the page after an entry, as given in a response's `next_url`.
    pub after: Option<String>,
    /// A cursor for the page before an entry, as given in a response's `previous_url`.
    pub before: Option<String>,
    /// Extra data to include, such as the total count.
    pub includes: Option<Vec<ListIncludeOptions>>,
    /// Only entries with these metadata pairs.
    pub metadata: Option<StringMap>,
    /// Bounds on the creation instant.
    pub date_created: Option<DateFilter>,
    /// Only entries sent later than created (`true`) or sent at creation (`false`).
    pub scheduled: Option<bool>,
    /// Bounds on the send instant.
    pub send_date: Option<DateFilter>,
    /// Only entries of this postal class.
    pub mail_type: Option<MailType>,
    /// Only letters printed in color (or not).
    pub color: Option<bool>,
    /// The order of the results.
    pub sort_by: Option<SortBy>,
}

impl ListLetterOptions {
    /// The query pairs of the filter, in field order, absent fields left out;
    /// none when a date bound has no text.
    pub open spec fn query_spec(o: ListLetterOptions) -> Option<Seq<(Seq<char>, Seq<char>)>> {
        match date_pairs("date_created"@, o.date_created) {
            None => None,
            Some(d0) => match date_pairs("send_date"@, o.send_date) {
            None => None,
            Some(d1) => Some(opt_i32("limit"@, o.limit) + opt_text("after"@, o.after) + opt_text("before"@, o.before) + opt_include(o.includes) + opt_metadata(o.metadata) + d0 + opt_bool("scheduled"@, o.scheduled) + d1 + opt_token("mail_type"@, o.mail_type) + opt_bool("color"@, o.color) + opt_sort(o.sort_by)),
        },
        }
    }

    /// Encodes the filter as query pairs with nested-bracket keys.
    pub fn to_query(&self) -> (r: Result<Vec<(String, String)>, Error>)
        ensures
            match Self::query_spec(*self) {
                Some(p) => r is Ok && pairs_view(r->Ok_0@) == p,
                None => r is Err && r->Err_0@ is Serialization,
            },
    {
        let mut q: Vec<(String, String)> = Vec::new();
        let ghost q0 = pairs_view(q@);
        assert(q0 =~= Seq::<(Seq<char>, Seq<char>)>::empty());
        push_opt_i32(&mut q, "limit", self.limit);
        push_opt_text(&mut q, "after", &self.after);
        push_opt_text(&mut q, "before", &self.before);
        push_include(&mut q, &self.includes);
        push_metadata(&mut q, &self.metadata);
        if !push_dates(&mut q, "date_created", &self.date_created) {
            return Err(date_error());
        }
        push_opt_bool(&mut q, "scheduled", self.scheduled);
        if !push_dates(&mut q, "send_date", &self.send_date) {
            return Err(date_error());
        }
        push_opt_token(&mut q, "mail_type", &self.mail_type);
        push_opt_bool(&mut q, "color", self.color);
        push_sort(&mut q, &self.sort_by);
        assert(pairs_view(q@) =~= Self::query_spec(*self)->Some_0);
        Ok(q)
    }
}

impl Default for ListLetterOptions {
    fn default() -> (r: ListLetterOptions)
        ensures
            r.limit is None,
            r.after is None,
            r.before is None,
            r.includes is None,
            r.metadata is None,
            r.date_created is None,
            r.scheduled is None,
            r.send_date is None,
            r.mail_type is None,
            r.color is None,
            r.sort_by is None,
    {
        ListLetterOptions {
            limit: None,
            after: None,
            before: None,
            includes: None,
            metadata: None,
            date_created: None,
            scheduled: None,
            send_date: None,
            mail_type: None,
            color: None,
            sort_by: None,
        }
    }
}

/// Filters, paging and order of a listing of checks.
#[derive(Debug, Clone)]
pub struct ListCheckOptions {
    /// How many results to return (the service defaults to 10, at most 100).
    pub limit: Option<i32>,
    /// A cursor for the page after an entry, as given in a response's `next_url`.
    pub after: Option<String>,
    /// A cursor for the page before an entry, as given in a response's `previous_url`.
    pub before: Option<String>,
    /// Extra data to include, such as the total count.
    pub includes: Option<Vec<ListIncludeOptions>>,
    /// Only entries with these metadata pairs.
    pub metadata: Option<StringMap>,
    /// Only entries of this postal class.
    pub mail_type: Option<MailType>,
    /// Only entries sent later than created (`true`) or sent at creation (`false`).
    pub scheduled: Option<bool>,
    /// Bounds on the creation instant.
    pub date_created: Option<DateFilter>,
    /// Bounds on the send instant.
    pub send_date: Option<DateFilter>,
    /// The order of the results.
    pub sort_by: Option<SortBy>,
}

impl ListCheckOptions {
    /// The query pairs of the filter, in field order, absent fields left out;
    /// none when a date bound has no text.
    pub open spec fn query_spec(o: ListCheckOptions) -> Option<Seq<(Seq<char>, Seq<char>)>> {
        match date_pairs("date_created"@, o.date_created) {
            None => None,
            Some(d0) => match date_pairs("send_date"@, o.send_date) {
            None => None,
            Some(d1) => Some(opt_i32("limit"@, o.limit) + opt_text("after"@, o.after) + opt_text("before"@, o.before) + opt_include(o.includes) + opt_metadata(o.metadata) + opt_token("mail_type"@, o.mail_type) + opt_bool("scheduled"@, o.scheduled) + d0 + d1 + opt_sort(o.sort_by)),
        },
        }
    }

    /// Encodes the filter as query pairs with nested-bracket keys.
    pub fn to_query(&self) -> (r: Result<Vec<(String, String)>, Error>)
        ensures
            match Self::query_spec(*self) {
                Some(p) => r is Ok && pairs_view(r->Ok_0@) == p,
                None => r is Err && r->Err_0@ is Serialization,
            },
    {
        let mut q: Vec<(String, String)> = Vec::new();
        let ghost q0 = pairs_view(q@);
        assert(q0 =~= Seq::<(Seq<char>, Seq<char>)>::empty());
        push_opt_i32(&mut q, "limit", self.limit);
        push_opt_text(&mut q, "after", &self.after);
        push_opt_text(&mut q, "before", &self.before);
        push_include(&mut q, &self.includes);
        push_metadata(&mut q, &self.metadata);
        push_opt_token(&mut q, "mail_type", &self.mail_type);
        push_opt_bool(&mut q, "scheduled", self.scheduled);
        if !push_dates(&mut q, "date_created", &self.date_created) {
            return Err(date_error());
        }
        if !push_dates(&mut q, "send_date", &self.send_date) {
            return Err(date_error());
        }
        push_sort(&mut q, &self.sort_by);
        assert(pairs_view(q@) =~= Self::query_spec(*self)->Some_0);
        Ok(q)
    }
}

impl Default for ListCheckOptions {
    fn default() -> (r: ListCheckOptions)
        ensures
            r.limit is None,
            r.after is None,
            r.before is None,
            r.includes is None,
            r.metadata is None,
            r.mail_type is None,
            r.scheduled is None,
            r.date_created is None,
            r.send_date is None,
            r.sort_by is None,
    {
        ListCheckOptions {
            limit: None,
            after: None,
            before: None,
            includes: None,
            metadata: None,
            mail_type: None,
            scheduled: None,
            date_created: None,
            send_date: None,
            sort_by: None,
        }
    }
}

/// A listing filtered by one metadata pair and asking for the total count
/// sends `metadata[key]=value` and `include[]=total_count`, whatever the
/// other fields hold.
pub proof fn lemma_metadata_and_total_count(o: ListAddressesOptions, k: Seq<char>, v: Seq<char>)
    requires
        o.metadata is Some,
        o.metadata->Some_0.entries_view() == seq![(k, v)],
        o.includes is Some,
        o.includes->Some_0@ == seq![ListIncludeOptions::TotalCount],
        ListAddressesOptions::query_spec(o) is Some,
    ensures
        ListAddressesOptions::query_spec(o)->Some_0.contains(("metadata["@ + k + "]"@, v)),
        ListAddressesOptions::query_spec(o)->Some_0.contains(("include[]"@, "total_count"@)),
{
    let items = o.metadata->Some_0.entries_view();
    assert(items.drop_last() =~= Seq::<(Seq<char>, Seq<char>)>::empty());
    assert(metadata_pairs(Seq::<(Seq<char>, Seq<char>)>::empty()) == Seq::<(Seq<char>, Seq<char>)>::empty());
    assert(metadata_pairs(items) =~= seq![("metadata["@ + k + "]"@, v)]);
    let inc = o.includes->Some_0@;
    assert(inc.drop_last() =~= Seq::<ListIncludeOptions>::empty());
    assert(include_pairs(Seq::<ListIncludeOptions>::empty()) == Seq::<(Seq<char>, Seq<char>)>::empty());
    assert(include_pairs(inc) =~= seq![("include[]"@, "total_count"@)]);
    let head = opt_u32("limit"@, o.limit) + opt_text("after"@, o.after) + opt_text("before"@, o.before);
    let d = date_pairs("date_created"@, o.date_created)->Some_0;
    let all = ListAddressesOptions::query_spec(o)->Some_0;
    assert(all =~= head + seq![("include[]"@, "total_count"@)] + seq![("metadata["@ + k + "]"@, v)] + d);
    assert(all[head.len() as int] == ("include[]"@, "total_count"@));
    assert(all[head.len() as int + 1] == ("metadata["@ + k + "]"@, v));
}

} // verus!
