//! JSON texts: the scalar values that the host configuration stores, and the
//! quoting of strings.

use vstd::prelude::*;

use crate::text::{all_digits, decimal, digits_value, join_text, texts};
use crate::text::{is_digit, lemma_decimal_value, signed_decimal};

verus! {

/// The white space that JSON allows around a value.
pub open spec fn is_space(c: char) -> bool {
    c == ' ' || c == '\n' || c == '\t' || c == '\r'
}

pub open spec fn skip_space(s: Seq<char>) -> Seq<char>
    decreases s.len(),
{
    if s.len() > 0 && is_space(s[0]) {
        skip_space(s.skip(1))
    } else {
        s
    }
}

pub open spec fn drop_space(s: Seq<char>) -> Seq<char>
    decreases s.len(),
{
    if s.len() > 0 && is_space(s.last()) {
        drop_space(s.drop_last())
    } else {
        s
    }
}

/// A JSON text without the white space around it.
pub open spec fn bare(s: Seq<char>) -> Seq<char> {
    drop_space(skip_space(s))
}

/// The Boolean that a JSON text stands for.
pub open spec fn json_bool(s: Seq<char>) -> Option<bool> {
    if bare(s) == "true"@ {
        Some(true)
    } else if bare(s) == "false"@ {
        Some(false)
    } else {
        None
    }
}

/// Digits of a JSON integer: no leading zero but in `0` itself.
pub open spec fn plain_digits(s: Seq<char>) -> bool {
    s.len() > 0 && all_digits(s) && (s.len() > 1 ==> s[0] != '0')
}

/// The `u64` that a JSON text stands for.
pub open spec fn json_u64(s: Seq<char>) -> Option<u64> {
    let t = bare(s);
    if plain_digits(t) && digits_value(t) <= u64::MAX {
        Some(digits_value(t) as u64)
    } else {
        None
    }
}

/// The `i32` that a JSON text stands for. A negative zero is no integer.
pub open spec fn json_i32(s: Seq<char>) -> Option<i32> {
    let t = bare(s);
    if t.len() > 0 && t[0] == '-' {
        let v = digits_value(t.skip(1)) as int;
        if plain_digits(t.skip(1)) && 0 < v <= -i32::MIN {
            Some((-v) as i32)
        } else {
            None
        }
    } else if plain_digits(t) && digits_value(t) <= i32::MAX {
        Some(digits_value(t) as i32)
    } else {
        None
    }
}

/// The string that a JSON text stands for, as `serde_json` reads it.
pub uninterp spec fn json_string(s: Seq<char>) -> Option<Seq<char>>;

/// The JSON text of a string, as `serde_json` writes it.
pub uninterp spec fn json_quote(s: Seq<char>) -> Seq<char>;

/// The JSON text of a list of strings.
pub open spec fn json_list(list: Seq<Seq<char>>) -> Seq<char> {
    seq!['['] + join_text(list.map_values(|s: Seq<char>| json_quote(s)), seq![',']) + seq![']']
}

/// `serde_json::from_str::<bool>`: `true` or `false` with JSON white space
/// around it; anything else is an error (`None` here).
#[verifier::external_body]
pub(crate) fn parse_bool(s: &str) -> (v: Option<bool>)
    ensures
        v == json_bool(s@),
{
    serde_json::from_str::<bool>(s).ok()
}

/// `serde_json::from_str::<u64>`: the digits of an integer that fits, with JSON
/// white space around them. Signs, leading zeros, fractions and exponents are
/// errors (`None` here).
#[verifier::external_body]
pub(crate) fn parse_u64(s: &str) -> (v: Option<u64>)
    ensures
        v == json_u64(s@),
{
    serde_json::from_str::<u64>(s).ok()
}

/// `serde_json::from_str::<i32>`: the digits of an integer that fits, with an
/// optional `-` before them and JSON white space around. Leading zeros, `-0`,
/// fractions and exponents are errors (`None` here).
#[verifier::external_body]
pub(crate) fn parse_i32(s: &str) -> (v: Option<i32>)
    ensures
        v == json_i32(s@),
{
    serde_json::from_str::<i32>(s).ok()
}

/// `serde_json::from_str::<String>`; an error is `None`.
#[verifier::external_body]
pub(crate) fn parse_string(s: &str) -> (v: Option<String>)
    ensures
        match v {
            Some(t) => json_string(s@) == Some(t@),
            None => json_string(s@) is None,
        },
{
    serde_json::from_str::<String>(s).ok()
}

/// `serde_json::to_string` of a string. Writing into memory does not fail, and
/// reading the text back as a string gives the string.
#[verifier::external_body]
pub(crate) fn to_string(s: &str) -> (v: Option<String>)
    ensures
        v is Some,
        v->Some_0@ == json_quote(s@),
        json_string(v->Some_0@) == Some(s@),
{
    serde_json::to_string(s).ok()
}

/// `serde_json::to_string` of a list of strings: the quoted strings between
/// brackets, with commas and no spaces. Writing into memory does not fail.
#[verifier::external_body]
pub(crate) fn list_to_string(list: &Vec<String>) -> (v: Option<String>)
    ensures
        v is Some,
        v->Some_0@ == json_list(texts(list@)),
{
    serde_json::to_string(list).ok()
}

/// The JSON text of a string.
pub fn quoted(s: &str) -> (out: String)
    ensures
        out@ == json_quote(s@),
        json_string(out@) == Some(s@),
{
    match to_string(s) {
        Some(t) => t,
        None => "\"\"".to_owned(),
    }
}

/// The decimal text of a natural number has no leading zero.
pub proof fn lemma_decimal_plain(n: nat)
    ensures
        plain_digits(decimal(n)),
        n > 0 ==> decimal(n)[0] != '0',
    decreases n,
{
    lemma_decimal_value(n);
    if n >= 10 {
        lemma_decimal_plain(n / 10);
        assert(decimal(n)[0] == decimal(n / 10)[0]);
    }
}

proof fn lemma_bare_digits(s: Seq<char>)
    requires
        s.len() > 0,
        is_digit(s[0]) || s[0] == '-',
        is_digit(s.last()),
    ensures
        bare(s) == s,
{
}

/// A number written in decimal is a JSON text of that number.
pub proof fn lemma_json_round_trip(n: i32, m: u64)
    ensures
        json_i32(signed_decimal(n as int)) == Some(n),
        json_u64(decimal(m as nat)) == Some(m),
{
    lemma_decimal_value(m as nat);
    lemma_decimal_plain(m as nat);
    lemma_bare_digits(decimal(m as nat));
    let s = signed_decimal(n as int);
    if n < 0 {
        let d = decimal((-n) as nat);
        lemma_decimal_value((-n) as nat);
        lemma_decimal_plain((-n) as nat);
        assert(s.last() == d.last());
        lemma_bare_digits(s);
        assert(s.skip(1) =~= d);
    } else {
        lemma_decimal_value(n as nat);
        lemma_decimal_plain(n as nat);
        lemma_bare_digits(s);
        assert(is_digit(s[0]));
    }
}

} // verus!
