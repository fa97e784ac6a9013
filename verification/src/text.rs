//! Text helpers: decimal and hexadecimal rendering of integers, and small
//! predicates on strings, each with the character sequence it produces or
//! inspects stated exactly.
use vstd::prelude::*;
use std::num::ParseIntError;

verus! {

/// The ASCII character of a decimal digit `d` (`0 <= d < 10`).
pub open spec fn digit_char(d: nat) -> char {
    (d + 48) as char
}

/// The ASCII character of an uppercase hexadecimal digit `d` (`0 <= d < 16`).
pub open spec fn hex_char(d: nat) -> char {
    if d < 10 {
        (d + 48) as char
    } else {
        (d + 55) as char
    }
}

/// The decimal representation of `n`, without sign or leading zeros.
pub open spec fn dec_str(n: nat) -> Seq<char>
    decreases n,
{
    if n < 10 {
        seq![digit_char(n)]
    } else {
        dec_str(n / 10).push(digit_char(n % 10))
    }
}

/// The uppercase hexadecimal representation of `n`, without prefix or leading zeros.
pub open spec fn hex_str(n: nat) -> Seq<char>
    decreases n,
{
    if n < 16 {
        seq![hex_char(n)]
    } else {
        hex_str(n / 16).push(hex_char(n % 16))
    }
}

/// `s` left-padded with `'0'` to at least `width` characters.
pub open spec fn zero_pad(s: Seq<char>, width: nat) -> Seq<char> {
    if s.len() >= width {
        s
    } else {
        Seq::new((width - s.len()) as nat, |i: int| '0') + s
    }
}

/// Whether `c` is an ASCII decimal digit.
pub open spec fn is_digit(c: char) -> bool {
    '0' <= c && c <= '9'
}

/// The value of an ASCII decimal digit.
pub open spec fn digit_value(c: char) -> nat {
    (c as int - 48) as nat
}

/// The number that a sequence of decimal digits denotes (most significant first).
pub open spec fn digits_value(s: Seq<char>) -> nat
    decreases s.len(),
{
    if s.len() == 0 {
        0
    } else {
        digits_value(s.drop_last()) * 10 + digit_value(s.last())
    }
}

/// Whether every character of `s` is a decimal digit.
pub open spec fn all_digits(s: Seq<char>) -> bool {
    forall|i: int| 0 <= i < s.len() ==> is_digit(#[trigger] s[i])
}

/// The digits part of an unsigned integer literal: `s` without one leading `'+'`.
pub open spec fn unsigned_body(s: Seq<char>) -> Seq<char> {
    if s.len() > 0 && s[0] == '+' {
        s.drop_first()
    } else {
        s
    }
}

/// The number that `s` denotes as an unsigned decimal literal (an optional
/// `'+'` followed by at least one digit and nothing else), if it is one.
pub open spec fn unsigned_literal(s: Seq<char>) -> Option<nat> {
    let body = unsigned_body(s);
    if body.len() > 0 && all_digits(body) {
        Some(digits_value(body))
    } else {
        None
    }
}

/// What `s.parse::<u64>()` accepts: an unsigned literal whose value fits in 64 bits.
pub open spec fn parse_u64_spec(s: Seq<char>) -> Option<u64> {
    match unsigned_literal(s) {
        Some(v) => if v <= u64::MAX {
            Some(v as u64)
        } else {
            None
        },
        None => None,
    }
}

/// What `s.parse::<u32>()` accepts: an unsigned literal whose value fits in 32 bits.
pub open spec fn parse_u32_spec(s: Seq<char>) -> Option<u32> {
    match unsigned_literal(s) {
        Some(v) => if v <= u32::MAX {
            Some(v as u32)
        } else {
            None
        },
        None => None,
    }
}

/// The decimal representation of `n` is a nonempty run of digits that
/// denotes `n`.
pub proof fn lemma_dec_str_digits(n: nat)
    ensures
        dec_str(n).len() > 0,
        all_digits(dec_str(n)),
        digits_value(dec_str(n)) == n,
    decreases n,
{
    let d = n % 10;
    assert(digit_char(d) as int == d + 48);
    assert(is_digit(digit_char(d)));
    assert(digit_value(digit_char(d)) == d);
    let s = dec_str(n);
    if n < 10 {
        assert(s.drop_last() =~= Seq::<char>::empty());
        assert(digits_value(s) == digits_value(s.drop_last()) * 10 + digit_value(s.last()));
    }
    if n >= 10 {
        lemma_dec_str_digits(n / 10);
        assert(s.drop_last() =~= dec_str(n / 10));
        assert(s.last() == digit_char(d));
        assert(digits_value(s) == digits_value(s.drop_last()) * 10 + digit_value(s.last()));
        assert(n == (n / 10) * 10 + d);
        assert forall|i: int| 0 <= i < s.len() implies is_digit(#[trigger] s[i]) by {
            if i < s.len() - 1 {
                assert(s[i] == dec_str(n / 10)[i]);
            }
        }
    }
}

/// Reading back the decimal representation of a `u64` gives the number:
/// `s.parse::<u64>()` of `n.to_string()` is `n`.
pub proof fn law_decimal_parse_round_trip(n: u64)
    ensures
        parse_u64_spec(dec_str(n as nat)) == Some(n),
{
    lemma_dec_str_digits(n as nat);
    let s = dec_str(n as nat);
    assert(is_digit(s[0]));
    assert(unsigned_body(s) == s);
}

/// Whether `prefix` is a prefix of `s`.
pub open spec fn has_prefix(s: Seq<char>, prefix: Seq<char>) -> bool {
    prefix.len() <= s.len() && s.subrange(0, prefix.len() as int) == prefix
}

/// Whether the character `c` occurs in `s`.
pub open spec fn has_char(s: Seq<char>, c: char) -> bool {
    exists|i: int| 0 <= i < s.len() && s[i] == c
}

/// The one-character string of a decimal digit.
fn digit_str(d: u64) -> (s: &'static str)
    requires
        d < 10,
    ensures
        s@ == seq![digit_char(d as nat)],
{
    if d == 0 {
        proof { reveal_strlit("0"); }
        "0"
    } else if d == 1 {
        proof { reveal_strlit("1"); }
        "1"
    } else if d == 2 {
        proof { reveal_strlit("2"); }
        "2"
    } else if d == 3 {
        proof { reveal_strlit("3"); }
        "3"
    } else if d == 4 {
        proof { reveal_strlit("4"); }
        "4"
    } else if d == 5 {
        proof { reveal_strlit("5"); }
        "5"
    } else if d == 6 {
        proof { reveal_strlit("6"); }
        "6"
    } else if d == 7 {
        proof { reveal_strlit("7"); }
        "7"
    } else if d == 8 {
        proof { reveal_strlit("8"); }
        "8"
    } else {
        proof { reveal_strlit("9"); }
        "9"
    }
}

/// The one-character string of an uppercase hexadecimal digit.
fn hex_digit_str(d: u64) -> (s: &'static str)
    requires
        d < 16,
    ensures
        s@ == seq![hex_char(d as nat)],
{
    if d < 10 {
        digit_str(d)
    } else if d == 10 {
        proof { reveal_strlit("A"); }
        "A"
    } else if d == 11 {
        proof { reveal_strlit("B"); }
        "B"
    } else if d == 12 {
        proof { reveal_strlit("C"); }
        "C"
    } else if d == 13 {
        proof { reveal_strlit("D"); }
        "D"
    } else if d == 14 {
        proof { reveal_strlit("E"); }
        "E"
    } else {
        proof { reveal_strlit("F"); }
        "F"
    }
}

/// Appends the decimal representation of `n` to `out`.
pub fn push_decimal(out: &mut String, n: u64)
    ensures
        final(out)@ == old(out)@ + dec_str(n as nat),
    decreases n,
{
    if n < 10 {
        out.append(digit_str(n));
    } else {
        push_decimal(out, n / 10);
        out.append(digit_str(n % 10));
        proof {
            assert(old(out)@ + dec_str((n / 10) as nat) + seq![digit_char((n % 10) as nat)]
                =~= old(out)@ + dec_str(n as nat));
        }
    }
}

/// The decimal representation of `n`, as `n.to_string()` gives it.
pub fn decimal(n: u64) -> (s: String)
    ensures
        s@ == dec_str(n as nat),
{
    let mut s = String::new();
    push_decimal(&mut s, n);
    assert(s@ =~= dec_str(n as nat));
    s
}

/// Appends the uppercase hexadecimal representation of `n` to `out`.
pub fn push_hex(out: &mut String, n: u64)
    ensures
        final(out)@ == old(out)@ + hex_str(n as nat),
    decreases n,
{
    if n < 16 {
        out.append(hex_digit_str(n));
    } else {
        push_hex(out, n / 16);
        out.append(hex_digit_str(n % 16));
        proof {
            assert(old(out)@ + hex_str((n / 16) as nat) + seq![hex_char((n % 16) as nat)]
                =~= old(out)@ + hex_str(n as nat));
        }
    }
}

/// Appends the uppercase hexadecimal representation of `n`, left-padded with
/// zeros to at least `width` digits, as `format!("{:0width$X}", n)` does.
pub fn push_hex_padded(out: &mut String, n: u64, width: u64)
    ensures
        final(out)@ == old(out)@ + zero_pad(hex_str(n as nat), width as nat),
{
    let mut hex = String::new();
    push_hex(&mut hex, n);
    assert(hex@ =~= hex_str(n as nat));
    let digits: u64 = hex.as_str().unicode_len() as u64;
    let ghost start = out@;
    let mut i: u64 = digits;
    while i < width
        invariant
            digits == hex@.len(),
            digits <= i,
            i <= width || i == digits,
            out@ == start + Seq::new((i - digits) as nat, |k: int| '0'),
        decreases width - i,
    {
        proof { reveal_strlit("0"); }
        out.append("0");
        assert(start + Seq::new((i - digits) as nat, |k: int| '0') + seq!['0']
            =~= start + Seq::new((i + 1 - digits) as nat, |k: int| '0'));
        i = i + 1;
    }
    out.append(hex.as_str());
    proof {
        if digits >= width {
            assert(i == digits);
            assert(out@ =~= start + zero_pad(hex_str(n as nat), width as nat));
        } else {
            assert(i == width);
            assert(out@ =~= start + zero_pad(hex_str(n as nat), width as nat));
        }
    }
}

/// Whether two strings hold the same characters.
pub fn str_eq(a: &str, b: &str) -> (r: bool)
    ensures
        r == (a@ == b@),
{
    let n = a.unicode_len();
    let m = b.unicode_len();
    if n != m {
        return false;
    }
    let mut i: usize = 0;
    while i < n
        invariant
            n == a@.len(),
            m == b@.len(),
            n == m,
            i <= n,
            forall|k: int| 0 <= k < i ==> a@[k] == b@[k],
        decreases n - i,
    {
        if a.get_char(i) != b.get_char(i) {
            return false;
        }
        i = i + 1;
    }
    assert(a@ =~= b@);
    true
}

/// Whether `s` begins with `prefix`.
pub fn starts_with(s: &str, prefix: &str) -> (r: bool)
    ensures
        r == has_prefix(s@, prefix@),
{
    let n = s.unicode_len();
    let m = prefix.unicode_len();
    if m > n {
        return false;
    }
    let mut i: usize = 0;
    while i < m
        invariant
            n == s@.len(),
            m == prefix@.len(),
            m <= n,
            i <= m,
            forall|k: int| 0 <= k < i ==> s@[k] == prefix@[k],
        decreases m - i,
    {
        if s.get_char(i) != prefix.get_char(i) {
            assert(s@.subrange(0, m as int)[i as int] != prefix@[i as int]);
            return false;
        }
        i = i + 1;
    }
    assert(s@.subrange(0, m as int) =~= prefix@);
    true
}

/// Whether the character `c` occurs in `s`.
pub fn contains_char(s: &str, c: char) -> (r: bool)
    ensures
        r == has_char(s@, c),
{
    let n = s.unicode_len();
    let mut i: usize = 0;
    while i < n
        invariant
            n == s@.len(),
            i <= n,
            forall|k: int| 0 <= k < i ==> s@[k] != c,
        decreases n - i,
    {
        if s.get_char(i) == c {
            return true;
        }
        i = i + 1;
    }
    false
}

/// Whether `s` ends with the character `c`.
pub fn ends_with_char(s: &str, c: char) -> (r: bool)
    ensures
        r == (s@.len() > 0 && s@.last() == c),
{
    let n = s.unicode_len();
    if n == 0 {
        false
    } else {
        s.get_char(n - 1) == c
    }
}

/// A copy of `s`.
pub fn owned(s: &str) -> (r: String)
    ensures
        r@ == s@,
{
    String::from_str(s)
}

/// The rest of `s` after `prefix` when `s` starts with `prefix`, and `None`
/// otherwise, as `str::strip_prefix` gives it.
pub(crate) fn strip_prefix<'a>(s: &'a str, prefix: &str) -> (r: Option<&'a str>)
    ensures
        r is Some <==> has_prefix(s@, prefix@),
        r matches Some(t) ==> t@ == s@.skip(prefix@.len() as int),
{
    if starts_with(s, prefix) {
        let n = s.unicode_len();
        let m = prefix.unicode_len();
        let rest = s.substring_char(m, n);
        assert(rest@ =~= s@.skip(prefix@.len() as int));
        Some(rest)
    } else {
        None
    }
}

/// std's integer parse error, carried through unchanged.
#[verifier::external_type_specification]
#[verifier::external_body]
pub struct ExParseIntError(ParseIntError);

/// `str::parse::<u64>`. Its documentation says that the text must be an optional
/// `+` followed by decimal digits only, and that anything else, or a value that does
/// not fit in a `u64`, is an error: `parse_u64_spec` states exactly that.
#[verifier::external_body]
pub(crate) fn parse_u64(s: &str) -> (r: Result<u64, ParseIntError>)
    ensures
        match r {
            Ok(v) => parse_u64_spec(s@) == Some(v),
            Err(_) => parse_u64_spec(s@) is None,
        },
{
    s.parse::<u64>()
}

/// `str::parse::<u32>`, read from its documentation as for `parse_u64`, with a
/// 32-bit range.
#[verifier::external_body]
pub(crate) fn parse_u32(s: &str) -> (r: Result<u32, ParseIntError>)
    ensures
        match r {
            Ok(v) => parse_u32_spec(s@) == Some(v),
            Err(_) => parse_u32_spec(s@) is None,
        },
{
    s.parse::<u32>()
}

/// A copy of an optional string.
pub fn clone_opt_string(o: &Option<String>) -> (r: Option<String>)
    ensures
        r == *o,
{
    match o {
        Some(s) => Some(s.clone()),
        None => None,
    }
}

/// The file extension of a CDN image with hash `hash`: animated images,
/// whose hash begins with `a_`, are GIFs; the rest are PNGs.
pub open spec fn image_ext(hash: Seq<char>) -> Seq<char> {
    if has_prefix(hash, "a_"@) {
        "gif"@
    } else {
        "png"@
    }
}

/// The file extension of a CDN image with hash `hash`.
pub fn image_ext_of(hash: &str) -> (r: &'static str)
    ensures
        r@ == image_ext(hash@),
{
    if starts_with(hash, "a_") {
        "gif"
    } else {
        "png"
    }
}

} // verus!
