//! Check amounts: an integer count of cents with a `dollars.cents` text form.
use vstd::prelude::*;
use vstd::string::*;
use crate::text::{
    all_digits, decimal_text, decimal_value, digit_char, digit_value, lemma_decimal_text,
    lemma_digit_round, parse_u64, push_decimal, u64_of,
};

verus! {

/// The characters of `s` before its first `.`, or all of `s` when it has none.
pub open spec fn before_dot(s: Seq<char>) -> Seq<char>
    decreases s.len(),
{
    if s.len() == 0 || s[0] == '.' {
        Seq::empty()
    } else {
        seq![s[0]] + before_dot(s.drop_first())
    }
}

/// The characters of `s` after its first `.`.
pub open spec fn after_dot(s: Seq<char>) -> Seq<char> {
    s.skip(before_dot(s).len() as int + 1)
}

/// The cents that a text names: the dollars before the first `.`, and the
/// cents between it and the next `.` (zero when there is no `.`). Each part
/// reads as a `u64` does; anything else names no amount.
pub open spec fn money_of(s: Seq<char>) -> Option<nat> {
    match u64_of(before_dot(s)) {
        None => None,
        Some(d) => if !s.contains('.') {
            Some(d as nat * 100)
        } else {
            match u64_of(before_dot(after_dot(s))) {
                None => None,
                Some(c) => Some(d as nat * 100 + c as nat),
            }
        },
    }
}

/// The canonical text of an amount: the dollars in decimal, a `.`, and the
/// cents as exactly two digits.
pub open spec fn money_text(c: nat) -> Seq<char> {
    decimal_text(c / 100) + seq!['.', digit_char((c % 100) / 10), digit_char(c % 10)]
}

/// The message of a failed parse of `s`.
pub open spec fn money_error_text(s: Seq<char>) -> Seq<char> {
    "Unable to parse "@ + s + " as money"@
}

/// An amount of money as a whole number of cents.
#[derive(Debug, Clone, Copy, PartialEq, Eq, PartialOrd, Ord)]
pub struct CheckAmount(u64);

impl View for CheckAmount {
    type V = u64;

    closed spec fn view(&self) -> u64 {
        self.0
    }
}

/// The reason a text is not an amount.
#[derive(Debug, Clone)]
pub struct ParseMoneyError(String);

impl ParseMoneyError {
    /// The text of the error, naming the offending input.
    pub fn message(&self) -> (r: String)
        ensures
            r@ == self.text(),
    {
        self.0.clone()
    }

    pub closed spec fn text(&self) -> Seq<char> {
        self.0@
    }
}

impl CheckAmount {
    /// `dollars` and `cents` combined into cents.
    pub fn new(dollars: u64, cents: u64) -> (r: CheckAmount)
        requires
            dollars * 100 + cents <= u64::MAX,
        ensures
            r@ == dollars * 100 + cents,
    {
        CheckAmount(dollars * 100 + cents)
    }

    /// An amount of `cents` cents.
    pub fn cents(cents: u64) -> (r: CheckAmount)
        ensures
            r@ == cents,
    {
        CheckAmount(cents)
    }

    /// The whole dollars and the remaining cents.
    pub fn to_dollars_and_cents(&self) -> (r: (u64, u64))
        ensures
            r.0 == self@ / 100,
            r.1 == self@ % 100,
            r.0 * 100 + r.1 == self@,
    {
        (self.0 / 100, self.0 % 100)
    }

    /// The amount in cents.
    pub fn to_cents(&self) -> (r: u64)
        ensures
            r == self@,
    {
        self.0
    }

    /// The canonical text of the amount, such as `10.05`.
    pub fn to_text(&self) -> (r: String)
        ensures
            r@ == money_text(self@ as nat),
    {
        let (dollars, cents) = self.to_dollars_and_cents();
        let mut out = String::new();
        push_decimal(&mut out, dollars);
        out.append(".");
        push_decimal(&mut out, cents / 10);
        push_decimal(&mut out, cents % 10);
        proof {
            reveal_strlit(".");
            let c = self@ as nat;
            assert(decimal_text((c % 100) / 10) =~= seq![digit_char((c % 100) / 10)]);
            assert(decimal_text(c % 10) =~= seq![digit_char(c % 10)]);
            assert(cents % 10 == c % 10);
        }
        assert(out@ =~= money_text(self@ as nat));
        out
    }

    /// Reads an amount from its text: dollars, optionally a `.` and cents.
    pub fn parse(s: &str) -> (r: Result<CheckAmount, ParseMoneyError>)
        ensures
            match r {
                Ok(a) => money_of(s@) == Some(a@ as nat),
                Err(e) => e.text() == money_error_text(s@) && match money_of(s@) {
                    None => true,
                    Some(v) => v > u64::MAX,
                },
            },
    {
        let n = s.unicode_len();
        let k = first_dot(s, 0);
        proof {
            lemma_before_dot_at(s@, k as int);
        }
        let dollars = parse_u64(s.substring_char(0, k));
        match dollars {
            None => Err(money_error(s)),
            Some(d) => {
                if k == n {
                    assert(!s@.contains('.'));
                    if d > u64::MAX / 100 {
                        return Err(money_error(s));
                    }
                    return Ok(CheckAmount(d * 100));
                }
                assert(s@.contains('.')) by {
                    assert(s@[k as int] == '.');
                }
                let k2 = first_dot(s, k + 1);
                let ghost rest = after_dot(s@);
                proof {
                    assert(rest =~= s@.subrange(k + 1, n as int));
                    lemma_before_dot_at(rest, k2 - k - 1);
                    assert(rest.take(k2 - k - 1) =~= s@.subrange(k + 1, k2 as int));
                }
                let cents = parse_u64(s.substring_char(k + 1, k2));
                match cents {
                    None => Err(money_error(s)),
                    Some(c) => {
                        if d > (u64::MAX - c) / 100 {
                            assert(d * 100 + c > u64::MAX) by (nonlinear_arith)
                                requires
                                    d > (u64::MAX - c) / 100,
                            ;
                            return Err(money_error(s));
                        }
                        Ok(CheckAmount(d * 100 + c))
                    },
                }
            },
        }
    }
}

impl std::str::FromStr for CheckAmount {
    type Err = ParseMoneyError;

    fn from_str(s: &str) -> (r: Result<CheckAmount, ParseMoneyError>)
        ensures
            match r {
                Ok(a) => money_of(s@) == Some(a@ as nat),
                Err(e) => e.text() == money_error_text(s@) && match money_of(s@) {
                    None => true,
                    Some(v) => v > u64::MAX,
                },
            },
    {
        CheckAmount::parse(s)
    }
}

fn money_error(s: &str) -> (e: ParseMoneyError)
    ensures
        e.text() == money_error_text(s@),
{
    let mut m = String::from_str("Unable to parse ");
    m.append(s);
    m.append(" as money");
    ParseMoneyError(m)
}

/// The index of the first `.` at or after `from`, or the length of `s`.
fn first_dot(s: &str, from: usize) -> (k: usize)
    requires
        from <= s@.len(),
    ensures
        from <= k <= s@.len(),
        forall|j: int| from <= j < k ==> s@[j] != '.',
        k < s@.len() ==> s@[k as int] == '.',
{
    let n = s.unicode_len();
    let mut i = from;
    while i < n
        invariant
            n == s@.len(),
            from <= i <= n,
            forall|j: int| from <= j < i ==> s@[j] != '.',
        decreases n - i,
    {
        if s.get_char(i) == '.' {
            return i;
        }
        i = i + 1;
    }
    i
}

/// The part before the first `.` ends at the first `.`.
pub proof fn lemma_before_dot_at(s: Seq<char>, k: int)
    requires
        0 <= k <= s.len(),
        forall|j: int| 0 <= j < k ==> s[j] != '.',
        k < s.len() ==> s[k] == '.',
    ensures
        before_dot(s) =~= s.take(k),
    decreases s.len(),
{
    if s.len() > 0 && s[0] != '.' {
        let t = s.drop_first();
        assert forall|j: int| 0 <= j < k - 1 implies t[j] != '.' by {
            assert(t[j] == s[j + 1]);
        }
        lemma_before_dot_at(t, k - 1);
        assert(s.take(k) =~= seq![s[0]] + t.take(k - 1));
    }
}

/// Reading the canonical text of an amount gives the amount back.
pub proof fn lemma_money_round_trip(c: nat)
    requires
        c <= u64::MAX,
    ensures
        money_of(money_text(c)) == Some(c),
{
    let dollars = decimal_text(c / 100);
    let d1 = digit_char((c % 100) / 10);
    let d2 = digit_char(c % 10);
    let t = money_text(c);
    lemma_decimal_text(c / 100);
    lemma_digit_round((c % 100) / 10);
    lemma_digit_round(c % 10);
    assert forall|j: int| 0 <= j < dollars.len() implies t[j] != '.' by {
        assert(t[j] == dollars[j]);
    }
    assert(t[dollars.len() as int] == '.');
    lemma_before_dot_at(t, dollars.len() as int);
    assert(before_dot(t) =~= dollars);
    assert(t.contains('.')) by {
        assert(t[dollars.len() as int] == '.');
    }
    let cents = seq![d1, d2];
    assert(after_dot(t) =~= cents);
    lemma_before_dot_at(cents, 2);
    assert(before_dot(cents) =~= cents);
    assert(u64_of(dollars) == Some((c / 100) as u64));
    assert(cents.drop_last() =~= seq![d1]);
    assert(seq![d1].drop_last() =~= Seq::<char>::empty());
    assert(decimal_value(Seq::<char>::empty()) == 0);
    assert(decimal_value(seq![d1]) == (c % 100) / 10);
    assert(decimal_value(cents) == c % 100);
    assert(all_digits(cents)) by {
        assert forall|j: int| 0 <= j < cents.len() implies 0 <= #[trigger] digit_value(cents[j]) by {
        }
    }
    assert(u64_of(cents) == Some((c % 100) as u64));
    assert((c / 100) * 100 + c % 100 == c);
}

/// Reading the text of an amount gives the same amount back.
pub proof fn lemma_amount_text_round_trip(a: CheckAmount)
    ensures
        money_of(money_text(a@ as nat)) == Some(a@ as nat),
{
    lemma_money_round_trip(a@ as nat);
}

} // verus!
