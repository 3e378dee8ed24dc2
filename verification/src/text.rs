//! Text helpers: characters, decimal numbers, trimming and searching.
//!
//! Strings are modelled by the sequence of their characters (`s@`).

use vstd::prelude::*;
use vstd::utf8::{
    char_u32_cast, decode_first_scalar, decode_utf8, decode_utf8_encode_utf8, decode_utf8_split,
    encode_scalar, encode_utf8, encode_utf8_first_scalar, is_ascii_chars,
    is_ascii_chars_encode_utf8, is_char_boundary_iff_not_is_continuation_byte,
    is_leading_byte_width_1, pop_first_scalar, valid_utf8, valid_utf8_split,
};

verus! {

/// `String::push`: appends one character.
pub assume_specification[ String::push ](s: &mut String, c: char)
    ensures
        final(s)@ == old(s)@.push(c),
;

/// The decimal digit of a number below ten.
pub open spec fn digit(d: nat) -> char {
    if d == 0 {
        '0'
    } else if d == 1 {
        '1'
    } else if d == 2 {
        '2'
    } else if d == 3 {
        '3'
    } else if d == 4 {
        '4'
    } else if d == 5 {
        '5'
    } else if d == 6 {
        '6'
    } else if d == 7 {
        '7'
    } else if d == 8 {
        '8'
    } else {
        '9'
    }
}

/// Decimal digits of `n`, without leading zeros.
pub open spec fn decimal(n: nat) -> Seq<char>
    decreases n,
{
    if n < 10 {
        seq![digit(n)]
    } else {
        decimal(n / 10).push(digit(n % 10))
    }
}

/// `n` as two decimal digits.
pub open spec fn two_digits(n: nat) -> Seq<char> {
    seq![digit(n / 10), digit(n % 10)]
}

/// Decimal text of an integer, with a leading `-` when it is negative.
pub open spec fn signed_decimal(n: int) -> Seq<char> {
    if n < 0 {
        seq!['-'] + decimal((-n) as nat)
    } else {
        decimal(n as nat)
    }
}

fn digit_char(d: u64) -> (c: char)
    requires
        d < 10,
    ensures
        c == digit(d as nat),
{
    match d {
        0 => '0',
        1 => '1',
        2 => '2',
        3 => '3',
        4 => '4',
        5 => '5',
        6 => '6',
        7 => '7',
        8 => '8',
        _ => '9',
    }
}

/// Appends the decimal digits of `n`.
pub fn push_decimal(out: &mut String, n: u64)
    ensures
        final(out)@ == old(out)@ + decimal(n as nat),
    decreases n,
{
    if n >= 10 {
        push_decimal(out, n / 10);
        out.push(digit_char(n % 10));
        assert(out@ =~= old(out)@ + decimal(n as nat));
    } else {
        out.push(digit_char(n));
        assert(out@ =~= old(out)@ + decimal(n as nat));
    }
}

/// Appends `n` as two decimal digits.
pub fn push_two_digits(out: &mut String, n: u64)
    requires
        n < 100,
    ensures
        final(out)@ == old(out)@ + two_digits(n as nat),
{
    out.push(digit_char(n / 10));
    out.push(digit_char(n % 10));
    assert(out@ =~= old(out)@ + two_digits(n as nat));
}

/// The word for a truth value.
pub open spec fn bool_text(b: bool) -> Seq<char> {
    if b {
        "true"@
    } else {
        "false"@
    }
}

/// The word for a truth value.
pub fn bool_word(b: bool) -> (word: &'static str)
    ensures
        word@ == bool_text(b),
{
    if b {
        "true"
    } else {
        "false"
    }
}

/// Decimal text of a number.
pub fn number(n: u64) -> (out: String)
    ensures
        out@ == decimal(n as nat),
{
    let mut out = String::new();
    push_decimal(&mut out, n);
    assert(out@ =~= decimal(n as nat));
    out
}

/// Decimal text of an `i32`.
pub fn signed_text(n: i32) -> (out: String)
    ensures
        out@ == signed_decimal(n as int),
{
    let mut out = String::new();
    if n < 0 {
        out.push('-');
        let m: u64 = (-(n as i64)) as u64;
        push_decimal(&mut out, m);
    } else {
        push_decimal(&mut out, n as u64);
    }
    assert(out@ =~= signed_decimal(n as int));
    out
}

/// The characters of a string.
pub fn chars_of(s: &str) -> (out: Vec<char>)
    ensures
        out@ == s@,
{
    let mut out: Vec<char> = Vec::new();
    for c in it: s.chars()
        invariant
            out@ == it.seq().take(it.index() as int),
            it.seq() == s@,
    {
        proof {
            assert(it.seq().take(it.index() + 1) =~= it.seq().take(it.index() as int).push(c));
        }
        out.push(c);
    }
    proof {
        assert(out@ =~= s@);
    }
    out
}

/// The string made of the characters `v[from..to]`.
pub fn string_of(v: &Vec<char>, from: usize, to: usize) -> (out: String)
    requires
        from <= to <= v@.len(),
    ensures
        out@ == v@.subrange(from as int, to as int),
{
    let mut out = String::new();
    let mut i: usize = from;
    while i < to
        invariant
            from <= i <= to <= v@.len(),
            out@ == v@.subrange(from as int, i as int),
        decreases to - i,
    {
        out.push(v[i]);
        i = i + 1;
        assert(out@ =~= v@.subrange(from as int, i as int));
    }
    out
}

/// Whether two strings hold the same characters.
pub fn same_text(a: &str, b: &str) -> (same: bool)
    ensures
        same == (a@ == b@),
{
    let x = chars_of(a);
    let y = chars_of(b);
    if x.len() != y.len() {
        return false;
    }
    let mut i: usize = 0;
    while i < x.len()
        invariant
            i <= x@.len() == y@.len(),
            x@ == a@,
            y@ == b@,
            forall|j: int| 0 <= j < i ==> x@[j] == y@[j],
        decreases x@.len() - i,
    {
        if x[i] != y[i] {
            return false;
        }
        i = i + 1;
    }
    assert(a@ =~= b@);
    true
}

/// `b` placed behind `a`.
pub fn joined2(a: &str, b: &str) -> (out: String)
    ensures
        out@ == a@ + b@,
{
    let mut out = String::new();
    out.append(a);
    out.append(b);
    assert(out@ =~= a@ + b@);
    out
}

/// Three pieces in a row.
pub fn joined3(a: &str, b: &str, c: &str) -> (out: String)
    ensures
        out@ == a@ + b@ + c@,
{
    let mut out = joined2(a, b);
    out.append(c);
    out
}

/// Whether the characters of `pat` stand in `s` from position `at` on.
pub open spec fn stands_at<T>(s: Seq<T>, pat: Seq<T>, at: int) -> bool {
    0 <= at && at + pat.len() <= s.len() && s.subrange(at, at + pat.len()) == pat
}

/// Whether `pat` stands anywhere in `s`.
pub open spec fn contains_run<T>(s: Seq<T>, pat: Seq<T>) -> bool {
    exists|at: int| stands_at(s, pat, at)
}

pub(crate) fn matches_at(s: &Vec<char>, pat: &Vec<char>, at: usize) -> (found: bool)
    requires
        at + pat@.len() <= s@.len(),
    ensures
        found == stands_at(s@, pat@, at as int),
{
    let n: usize = s.len();
    let mut i: usize = 0;
    while i < pat.len()
        invariant
            i <= pat@.len(),
            at + pat@.len() <= s@.len() == n,
            forall|j: int| 0 <= j < i ==> s@[at + j] == pat@[j],
        decreases pat@.len() - i,
    {
        if s[at + i] != pat[i] {
            assert(s@.subrange(at as int, at + pat@.len())[i as int] != pat@[i as int]);
            return false;
        }
        i = i + 1;
    }
    assert(s@.subrange(at as int, at + pat@.len()) =~= pat@);
    true
}

fn bytes_match_at(s: &Vec<u8>, pat: &Vec<u8>, at: usize) -> (found: bool)
    requires
        at + pat@.len() <= s@.len(),
    ensures
        found == stands_at(s@, pat@, at as int),
{
    let n: usize = s.len();
    let mut i: usize = 0;
    while i < pat.len()
        invariant
            i <= pat@.len(),
            at + pat@.len() <= s@.len() == n,
            forall|j: int| 0 <= j < i ==> s@[at + j] == pat@[j],
        decreases pat@.len() - i,
    {
        if s[at + i] != pat[i] {
            assert(s@.subrange(at as int, at + pat@.len())[i as int] != pat@[i as int]);
            return false;
        }
        i = i + 1;
    }
    assert(s@.subrange(at as int, at + pat@.len()) =~= pat@);
    true
}

/// Whether two rows of bytes are the same.
pub fn same_bytes(a: &Vec<u8>, b: &Vec<u8>) -> (same: bool)
    ensures
        same == (a@ == b@),
{
    if a.len() != b.len() {
        return false;
    }
    let same = bytes_match_at(a, b, 0);
    assert(a@.subrange(0, a@.len() as int) =~= a@);
    same
}

/// Whether `pat` stands anywhere in `s`.
pub fn has_bytes(s: &Vec<u8>, pat: &Vec<u8>) -> (found: bool)
    ensures
        found == contains_run(s@, pat@),
{
    if pat.len() > s.len() {
        assert(forall|at: int| !stands_at(s@, pat@, at));
        return false;
    }
    let last: usize = s.len() - pat.len();
    let mut at: usize = 0;
    loop
        invariant
            last == s@.len() - pat@.len(),
            at <= last,
            forall|k: int| 0 <= k < at ==> !stands_at(s@, pat@, k),
        decreases last - at,
    {
        if bytes_match_at(s, pat, at) {
            assert(stands_at(s@, pat@, at as int));
            return true;
        }
        if at == last {
            assert forall|k: int| !stands_at(s@, pat@, k) by {}
            return false;
        }
        at = at + 1;
    }
}

proof fn lemma_encode_concat(a: Seq<char>, b: Seq<char>)
    ensures
        encode_utf8(a + b) == encode_utf8(a) + encode_utf8(b),
    decreases a.len(),
{
    if a.len() == 0 {
        assert(a + b =~= b);
    } else {
        lemma_encode_concat(a.drop_first(), b);
        assert((a + b).drop_first() =~= a.drop_first() + b);
    }
    assert(encode_utf8(a + b) =~= encode_utf8(a) + encode_utf8(b));
}

/// Bytes that begin with the encoding of ASCII characters stand for a text that
/// begins with them.
proof fn lemma_ascii_head(bytes: Seq<u8>, pat: Seq<char>)
    requires
        valid_utf8(bytes),
        is_ascii_chars(pat),
        stands_at(bytes, encode_utf8(pat), 0),
    ensures
        stands_at(decode_utf8(bytes), pat, 0),
    decreases pat.len(),
{
    let text = decode_utf8(bytes);
    is_ascii_chars_encode_utf8(pat);
    if pat.len() == 0 {
        assert(text.subrange(0, 0) =~= pat);
    } else {
        let m = encode_utf8(pat);
        let tail = pat.drop_first();
        assert(m[0] == pat[0] as u8);
        assert(bytes.subrange(0, m.len() as int)[0] == bytes[0]);
        encode_utf8_first_scalar(pat);
        assert(is_leading_byte_width_1(bytes[0]));
        assert(decode_first_scalar(bytes) == pat[0] as u32);
        char_u32_cast(pat[0], decode_first_scalar(bytes));
        let rest = pop_first_scalar(bytes);
        assert(rest =~= bytes.skip(1));
        assert(is_ascii_chars(tail));
        is_ascii_chars_encode_utf8(tail);
        assert(encode_utf8(tail) =~= m.skip(1)) by {
            assert(encode_scalar(pat[0] as u32).len() == 1);
        }
        assert(rest.subrange(0, tail.len() as int) =~= m.skip(1)) by {
            assert forall|i: int| 0 <= i < tail.len() implies rest[i] == m[i + 1] by {
                assert(bytes.subrange(0, m.len() as int)[i + 1] == bytes[i + 1]);
            }
        }
        lemma_ascii_head(rest, tail);
        let inner = decode_utf8(rest);
        assert(text =~= seq![pat[0]] + inner);
        assert(text.subrange(0, pat.len() as int) =~= pat) by {
            assert forall|i: int| 0 <= i < pat.len() implies text[i] == pat[i] by {
                if i > 0 {
                    assert(inner.subrange(0, tail.len() as int)[i - 1] == tail[i - 1]);
                }
            }
        }
    }
}

/// A run of ASCII characters stands in a text where its bytes stand in the bytes of
/// the text.
pub proof fn lemma_ascii_run(bytes: Seq<u8>, pat: Seq<char>)
    requires
        valid_utf8(bytes),
        is_ascii_chars(pat),
        pat.len() > 0,
    ensures
        contains_run(bytes, encode_utf8(pat)) <==> contains_run(decode_utf8(bytes), pat),
{
    let text = decode_utf8(bytes);
    let m = encode_utf8(pat);
    is_ascii_chars_encode_utf8(pat);
    if contains_run(bytes, m) {
        let at = choose|at: int| stands_at(bytes, m, at);
        assert(bytes.subrange(at, at + m.len())[0] == bytes[at]);
        assert(m[0] == pat[0] as u8);
        is_char_boundary_iff_not_is_continuation_byte(bytes, at);
        valid_utf8_split(bytes, at);
        decode_utf8_split(bytes, at);
        let front = decode_utf8(bytes.subrange(0, at));
        let tail = bytes.subrange(at, bytes.len() as int);
        assert(tail.subrange(0, m.len() as int) =~= bytes.subrange(at, at + m.len()));
        lemma_ascii_head(tail, pat);
        let back = decode_utf8(tail);
        assert(text == front + back);
        let n = front.len() as int;
        assert(text.subrange(n, n + pat.len()) =~= back.subrange(0, pat.len() as int));
        assert(stands_at(text, pat, n));
    }
    if contains_run(text, pat) {
        let at = choose|at: int| stands_at(text, pat, at);
        let front = text.subrange(0, at);
        let back = text.subrange(at + pat.len(), text.len() as int);
        assert(text =~= front + (pat + back));
        decode_utf8_encode_utf8(bytes);
        lemma_encode_concat(front, pat + back);
        lemma_encode_concat(pat, back);
        let n = encode_utf8(front).len() as int;
        assert(bytes == encode_utf8(front) + (m + encode_utf8(back)));
        assert(bytes.subrange(n, n + m.len()) =~= m);
        assert(stands_at(bytes, m, n));
    }
}

/// What follows `prefix` in `s`, or `None` where `s` does not begin with it.
pub open spec fn after_prefix(s: Seq<char>, prefix: Seq<char>) -> Option<Seq<char>> {
    if stands_at(s, prefix, 0) {
        Some(s.skip(prefix.len() as int))
    } else {
        None
    }
}

/// What follows `prefix` in `s`, or `None` where `s` does not begin with it.
pub fn strip_prefix(s: &str, prefix: &str) -> (rest: Option<String>)
    ensures
        match rest {
            Some(r) => after_prefix(s@, prefix@) == Some(r@),
            None => after_prefix(s@, prefix@) is None,
        },
{
    let v = chars_of(s);
    let p = chars_of(prefix);
    if p.len() <= v.len() && matches_at(&v, &p, 0) {
        let out = string_of(&v, p.len(), v.len());
        assert(out@ =~= s@.skip(prefix@.len() as int));
        Some(out)
    } else {
        None
    }
}

/// The Unicode `White_Space` characters.
pub open spec fn is_white(c: char) -> bool {
    let u = c as u32;
    ||| 0x9 <= u <= 0xd
    ||| u == 0x20
    ||| u == 0x85
    ||| u == 0xa0
    ||| u == 0x1680
    ||| 0x2000 <= u <= 0x200a
    ||| u == 0x2028
    ||| u == 0x2029
    ||| u == 0x202f
    ||| u == 0x205f
    ||| u == 0x3000
}

/// `char::is_whitespace`: whether the character has the Unicode property
/// `White_Space`, whose members `is_white` lists.
pub assume_specification[ char::is_whitespace ](c: char) -> (white: bool)
    ensures
        white == is_white(c),
;

/// `s` without its leading white space.
pub open spec fn trim_start(s: Seq<char>) -> Seq<char>
    decreases s.len(),
{
    if s.len() > 0 && is_white(s[0]) {
        trim_start(s.skip(1))
    } else {
        s
    }
}

/// `s` without its trailing white space.
pub open spec fn trim_end(s: Seq<char>) -> Seq<char>
    decreases s.len(),
{
    if s.len() > 0 && is_white(s.last()) {
        trim_end(s.drop_last())
    } else {
        s
    }
}

/// `s` without leading and trailing white space.
pub open spec fn trimmed(s: Seq<char>) -> Seq<char> {
    trim_end(trim_start(s))
}

/// `s` without leading and trailing white space.
pub fn trim(s: &str) -> (out: String)
    ensures
        out@ == trimmed(s@),
{
    let v = chars_of(s);
    let mut i: usize = 0;
    assert(v@.subrange(0, v@.len() as int) =~= v@);
    while i < v.len() && v[i].is_whitespace()
        invariant
            i <= v@.len(),
            v@ == s@,
            trim_start(v@.subrange(i as int, v@.len() as int)) == trim_start(s@),
        decreases v@.len() - i,
    {
        proof {
            let cur = v@.subrange(i as int, v@.len() as int);
            assert(cur.skip(1) =~= v@.subrange(i + 1, v@.len() as int));
        }
        i = i + 1;
    }
    let mut j: usize = v.len();
    while j > i && v[j - 1].is_whitespace()
        invariant
            i <= j <= v@.len(),
            trim_end(v@.subrange(i as int, j as int)) == trim_end(
                v@.subrange(i as int, v@.len() as int),
            ),
        decreases j,
    {
        proof {
            let cur = v@.subrange(i as int, j as int);
            assert(cur.drop_last() =~= v@.subrange(i as int, j - 1));
        }
        j = j - 1;
    }
    string_of(&v, i, j)
}

/// The pieces of `parts` with `sep` between neighbours.
pub open spec fn join_text(parts: Seq<Seq<char>>, sep: Seq<char>) -> Seq<char>
    decreases parts.len(),
{
    if parts.len() == 0 {
        seq![]
    } else if parts.len() == 1 {
        parts[0]
    } else {
        join_text(parts.drop_last(), sep) + sep + parts.last()
    }
}

/// The contents of the strings of a list.
pub open spec fn texts(list: Seq<String>) -> Seq<Seq<char>> {
    list.map_values(|s: String| s@)
}

/// The contents of an optional string.
pub open spec fn opt_text(s: Option<String>) -> Option<Seq<char>> {
    match s {
        Some(t) => Some(t@),
        None => None,
    }
}

/// The strings of `parts` with `sep` between neighbours.
pub fn join(parts: &Vec<String>, sep: &str) -> (out: String)
    ensures
        out@ == join_text(texts(parts@), sep@),
{
    let mut out = String::new();
    let mut i: usize = 0;
    assert(out@ =~= join_text(texts(parts@).take(0), sep@));
    while i < parts.len()
        invariant
            i <= parts@.len(),
            out@ == join_text(texts(parts@).take(i as int), sep@),
        decreases parts@.len() - i,
    {
        proof {
            let all = texts(parts@);
            assert(all.take(i + 1).drop_last() =~= all.take(i as int));
            assert(all.take(i + 1).last() == parts@[i as int]@);
        }
        if i > 0 {
            out.append(sep);
        }
        out.append(parts[i].as_str());
        i = i + 1;
        assert(out@ =~= join_text(texts(parts@).take(i as int), sep@));
    }
    assert(texts(parts@).take(parts@.len() as int) =~= texts(parts@));
    out
}

/// Value of a decimal digit.
pub open spec fn digit_value(c: char) -> nat {
    (c as u32 - '0' as u32) as nat
}

pub open spec fn is_digit(c: char) -> bool {
    '0' <= c <= '9'
}

/// Value of a sequence of decimal digits.
pub open spec fn digits_value(s: Seq<char>) -> nat
    decreases s.len(),
{
    if s.len() == 0 {
        0
    } else {
        digits_value(s.drop_last()) * 10 + digit_value(s.last())
    }
}

pub open spec fn all_digits(s: Seq<char>) -> bool {
    forall|i: int| 0 <= i < s.len() ==> is_digit(#[trigger] s[i])
}

/// The integer that `s` spells: an optional sign, then decimal digits only.
pub open spec fn spelled_int(s: Seq<char>) -> Option<int> {
    let sign = s.len() > 0 && (s[0] == '-' || s[0] == '+');
    let digits = if sign {
        s.skip(1)
    } else {
        s
    };
    if digits.len() > 0 && all_digits(digits) {
        if s[0] == '-' {
            Some(-(digits_value(digits) as int))
        } else {
            Some(digits_value(digits) as int)
        }
    } else {
        None
    }
}

/// The `i32` that `s` spells, if it spells one that fits.
pub open spec fn spelled_i32(s: Seq<char>) -> Option<i32> {
    match spelled_int(s) {
        Some(v) if i32::MIN <= v <= i32::MAX => Some(v as i32),
        _ => None,
    }
}

/// `str::parse::<i32>`: an optional sign followed by decimal digits only,
/// whose value fits; anything else is an error (`None` here).
#[verifier::external_body]
pub(crate) fn parse_i32(s: &str) -> (n: Option<i32>)
    ensures
        n == spelled_i32(s@),
{
    s.parse::<i32>().ok()
}

/// The `u64` that `s` spells: an optional `+`, then decimal digits only, of a value
/// that fits.
pub open spec fn spelled_u64(s: Seq<char>) -> Option<u64> {
    let digits = if s.len() > 0 && s[0] == '+' {
        s.skip(1)
    } else {
        s
    };
    if digits.len() > 0 && all_digits(digits) && digits_value(digits) <= u64::MAX {
        Some(digits_value(digits) as u64)
    } else {
        None
    }
}

/// `str::parse::<u64>`: an optional `+` followed by decimal digits only, whose value
/// fits; anything else is an error (`None` here).
#[verifier::external_body]
pub(crate) fn parse_u64(s: &str) -> (n: Option<u64>)
    ensures
        n == spelled_u64(s@),
{
    s.parse::<u64>().ok()
}

/// Reading the decimal text of a number gives the number back.
pub proof fn lemma_decimal_value(n: nat)
    ensures
        decimal(n).len() > 0,
        all_digits(decimal(n)),
        digits_value(decimal(n)) == n,
    decreases n,
{
    if n < 10 {
        assert(decimal(n).drop_last() =~= seq![]);
        assert(digits_value(seq![]) == 0);
        assert(decimal(n).last() == digit(n));
    } else {
        lemma_decimal_value(n / 10);
        assert(decimal(n).drop_last() =~= decimal(n / 10));
        assert(decimal(n).last() == digit(n % 10));
    }
}

/// An `i32` written in decimal is read back unchanged.
pub proof fn lemma_signed_round_trip(n: i32)
    ensures
        spelled_i32(signed_decimal(n as int)) == Some(n),
{
    let s = signed_decimal(n as int);
    if n < 0 {
        lemma_decimal_value((-n) as nat);
        assert(s.skip(1) =~= decimal((-n) as nat));
    } else {
        lemma_decimal_value(n as nat);
        assert(is_digit(s[0]));
    }
}

/// `String::from_utf8_lossy`: the text of `bytes`, with invalid sequences
/// replaced.
pub uninterp spec fn lossy_text(bytes: Seq<u8>) -> Seq<char>;

/// `String::from_utf8_lossy`, as an owned string. Bytes that are the UTF-8
/// encoding of a text give that text.
#[verifier::external_body]
pub(crate) fn from_utf8_lossy(bytes: &Vec<u8>) -> (out: String)
    ensures
        out@ == lossy_text(bytes@),
        valid_utf8(bytes@) ==> out@ == decode_utf8(bytes@),
{
    String::from_utf8_lossy(bytes).into_owned()
}

} // verus!
