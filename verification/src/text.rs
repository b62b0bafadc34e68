//! Verified text building blocks: decimal and hexadecimal rendering of
//! integers, and decimal scanning, shared by the engine's diagnostics, the
//! identifier types and the Debug State Object textual form.

use vstd::prelude::*;
use vstd::string::*;

verus! {

/// Appends one character to a string.
///
/// Relies on `String::push`: appends the given `char` to the end of the
/// string.
#[verifier::external_body]
pub fn push_char(s: &mut String, c: char)
    ensures
        final(s)@ == old(s)@.push(c),
{
    s.push(c);
}

/// The decimal digit character for a value below ten.
pub open spec fn dec_digit(d: nat) -> char
    recommends
        d < 10,
{
    if d == 0 { '0' }
    else if d == 1 { '1' }
    else if d == 2 { '2' }
    else if d == 3 { '3' }
    else if d == 4 { '4' }
    else if d == 5 { '5' }
    else if d == 6 { '6' }
    else if d == 7 { '7' }
    else if d == 8 { '8' }
    else { '9' }
}

/// The decimal rendering of a natural number, most significant digit first,
/// without leading zeros (`0` renders as `"0"`).
pub open spec fn dec_chars(n: nat) -> Seq<char>
    decreases n,
{
    if n < 10 { seq![dec_digit(n)] } else { dec_chars(n / 10).push(dec_digit(n % 10)) }
}

/// The decimal rendering of a signed value: a minus sign before the
/// rendering of the magnitude.
pub open spec fn dec_chars_int(i: int) -> Seq<char> {
    if i < 0 { seq!['-'] + dec_chars((-i) as nat) } else { dec_chars(i as nat) }
}

/// The lowercase hexadecimal digit character for a value below sixteen.
pub open spec fn hex_digit(d: nat) -> char
    recommends
        d < 16,
{
    if d < 10 { dec_digit(d) }
    else if d == 10 { 'a' }
    else if d == 11 { 'b' }
    else if d == 12 { 'c' }
    else if d == 13 { 'd' }
    else if d == 14 { 'e' }
    else { 'f' }
}

/// The lowercase hexadecimal rendering of a natural number, without leading
/// zeros (`0` renders as `"0"`).
pub open spec fn hex_chars(n: nat) -> Seq<char>
    decreases n,
{
    if n < 16 { seq![hex_digit(n)] } else { hex_chars(n / 16).push(hex_digit(n % 16)) }
}

fn dec_digit_exec(d: u64) -> (c: char)
    requires
        d < 10,
    ensures
        c == dec_digit(d as nat),
{
    if d == 0 { '0' }
    else if d == 1 { '1' }
    else if d == 2 { '2' }
    else if d == 3 { '3' }
    else if d == 4 { '4' }
    else if d == 5 { '5' }
    else if d == 6 { '6' }
    else if d == 7 { '7' }
    else if d == 8 { '8' }
    else { '9' }
}

fn hex_digit_exec(d: u64) -> (c: char)
    requires
        d < 16,
    ensures
        c == hex_digit(d as nat),
{
    if d < 10 { dec_digit_exec(d) }
    else if d == 10 { 'a' }
    else if d == 11 { 'b' }
    else if d == 12 { 'c' }
    else if d == 13 { 'd' }
    else if d == 14 { 'e' }
    else { 'f' }
}

/// Appends the decimal rendering of `n` to `s`.
pub fn push_dec_u64(s: &mut String, n: u64)
    ensures
        final(s)@ == old(s)@ + dec_chars(n as nat),
    decreases n,
{
    if n < 10 {
        push_char(s, dec_digit_exec(n));
    } else {
        push_dec_u64(s, n / 10);
        push_char(s, dec_digit_exec(n % 10));
    }
    assert(final(s)@ =~= old(s)@ + dec_chars(n as nat));
}

/// Appends the decimal rendering of a signed value to `s`.
pub fn push_dec_i64(s: &mut String, n: i64)
    ensures
        final(s)@ == old(s)@ + dec_chars_int(n as int),
{
    if n >= 0 {
        push_dec_u64(s, n as u64);
    } else {
        push_char(s, '-');
        let mag: u64 = if n == i64::MIN { 9223372036854775808u64 } else { (-n) as u64 };
        assert(mag as int == -(n as int));
        push_dec_u64(s, mag);
        assert(final(s)@ =~= old(s)@ + dec_chars_int(n as int));
    }
}

/// Appends the lowercase hexadecimal rendering of `n` to `s`.
pub fn push_hex_u64(s: &mut String, n: u64)
    ensures
        final(s)@ == old(s)@ + hex_chars(n as nat),
    decreases n,
{
    if n < 16 {
        push_char(s, hex_digit_exec(n));
    } else {
        push_hex_u64(s, n / 16);
        push_char(s, hex_digit_exec(n % 16));
    }
    assert(final(s)@ =~= old(s)@ + hex_chars(n as nat));
}

/// Whether a character is a decimal digit.
pub open spec fn is_dec_digit(c: char) -> bool {
    48 <= c as int && c as int <= 57
}

/// The numeric value of a decimal digit character.
pub open spec fn dec_val(c: char) -> nat {
    if 48 <= c as int && c as int <= 57 { (c as int - 48) as nat } else { 0 }
}

/// The value of a sequence of decimal digit characters, most significant
/// first.
pub open spec fn dec_value(s: Seq<char>) -> nat
    decreases s.len(),
{
    if s.len() == 0 { 0 } else { dec_value(s.drop_last()) * 10 + dec_val(s.last()) }
}

/// Every character of a decimal rendering is a digit.
pub proof fn lemma_dec_chars_digits(n: nat)
    ensures
        forall|k: int| 0 <= k < dec_chars(n).len() ==> is_dec_digit(#[trigger] dec_chars(n)[k]),
        dec_chars(n).len() >= 1,
    decreases n,
{
    if n < 10 {
    } else {
        lemma_dec_chars_digits(n / 10);
    }
}

/// A digit character reads back as its digit.
proof fn lemma_dec_val_digit(d: nat)
    requires
        d < 10,
    ensures
        dec_val(dec_digit(d)) == d,
{
}

/// Reading back the decimal rendering of a number yields the number.
pub proof fn lemma_dec_round_trip(n: nat)
    ensures
        dec_value(dec_chars(n)) == n,
    decreases n,
{
    if n < 10 {
        let s = dec_chars(n);
        assert(s.len() == 1);
        assert(s.drop_last() =~= Seq::<char>::empty());
        assert(s.last() == dec_digit(n));
        assert(dec_value(s.drop_last()) == 0);
        assert(dec_value(s) == dec_value(s.drop_last()) * 10 + dec_val(s.last()));
        lemma_dec_val_digit(n);
    } else {
        lemma_dec_round_trip(n / 10);
        assert(dec_chars(n).drop_last() =~= dec_chars(n / 10));
        assert(dec_chars(n).last() == dec_digit(n % 10));
        lemma_dec_val_digit(n % 10);
        vstd::arithmetic::div_mod::lemma_fundamental_div_mod(n as int, 10);
    }
}

/// The index of the first non-digit character at or after `i`, or the length
/// of the sequence if all remaining characters are digits.
pub open spec fn scan_digits(s: Seq<char>, i: int) -> int
    recommends
        0 <= i <= s.len(),
    decreases s.len() - i,
{
    if i < 0 || i >= s.len() || !is_dec_digit(s[i]) { i } else { scan_digits(s, i + 1) }
}

/// Scanning a text that continues with the rendering of `n` and then a
/// non-digit stops exactly at the end of the rendering.
pub proof fn lemma_scan_digits_of_dec(s: Seq<char>, i: int, n: nat)
    requires
        0 <= i,
        i + dec_chars(n).len() <= s.len(),
        s.subrange(i, i + dec_chars(n).len() as int) == dec_chars(n),
        i + dec_chars(n).len() == s.len() || !is_dec_digit(s[i + dec_chars(n).len()]),
    ensures
        scan_digits(s, i) == i + dec_chars(n).len(),
{
    lemma_dec_chars_digits(n);
    let m = dec_chars(n).len() as int;
    assert forall|k: int| i <= k < i + m implies is_dec_digit(#[trigger] s[k]) by {
        assert(s[k] == s.subrange(i, i + m)[k - i]);
    }
    lemma_scan_run(s, i, i + m);
}

/// If every character in `[i, j)` is a digit and `j` is the end of the text
/// or holds a non-digit, the scan from `i` stops at `j`.
proof fn lemma_scan_run(s: Seq<char>, i: int, j: int)
    requires
        0 <= i <= j <= s.len(),
        forall|k: int| i <= k < j ==> is_dec_digit(#[trigger] s[k]),
        j == s.len() || !is_dec_digit(s[j]),
    ensures
        scan_digits(s, i) == j,
    decreases j - i,
{
    if i < j {
        lemma_scan_run(s, i + 1, j);
    }
}


/// The number of bytes a character occupies in UTF-8, determined by its
/// code point alone.
pub open spec fn utf8_len(c: char) -> nat {
    if (c as int) < 0x80 {
        1
    } else if (c as int) < 0x800 {
        2
    } else if (c as int) < 0x10000 {
        3
    } else {
        4
    }
}

/// The number of bytes a character sequence occupies in UTF-8.
pub open spec fn utf8_len_seq(s: Seq<char>) -> nat
    decreases s.len(),
{
    if s.len() == 0 {
        0
    } else {
        utf8_len_seq(s.drop_last()) + utf8_len(s.last())
    }
}

/// The UTF-8 byte count of a text, clamped to the machine limit.
pub open spec fn byte_len_clamped(s: Seq<char>) -> nat {
    if utf8_len_seq(s) <= usize::MAX {
        utf8_len_seq(s)
    } else {
        usize::MAX as nat
    }
}

/// The number of bytes a character occupies in UTF-8.
pub fn utf8_len_exec(c: char) -> (r: usize)
    ensures
        r == utf8_len(c),
{
    let cv = c as u32;
    if cv < 0x80 {
        1
    } else if cv < 0x800 {
        2
    } else if cv < 0x10000 {
        3
    } else {
        4
    }
}

/// The UTF-8 byte count of a text, clamped to the machine limit.
pub fn byte_len(s: &str) -> (r: usize)
    ensures
        r == byte_len_clamped(s@),
{
    let n = s.unicode_len();
    let mut total: usize = 0;
    let mut i: usize = 0;
    proof {
        assert(s@.subrange(0, 0) =~= Seq::<char>::empty());
    }
    while i < n
        invariant
            n == s@.len(),
            0 <= i <= n,
            total as nat == byte_len_clamped(s@.subrange(0, i as int)),
            total < usize::MAX ==> total == utf8_len_seq(s@.subrange(0, i as int)),
        decreases n - i,
    {
        let c = s.get_char(i);
        let cl = utf8_len_exec(c);
        proof {
            assert(s@.subrange(0, i + 1).drop_last() =~= s@.subrange(0, i as int));
            assert(s@.subrange(0, i + 1).last() == s@[i as int]);
        }
        total = match total.checked_add(cl) {
            Some(t) => t,
            None => usize::MAX,
        };
        i += 1;
    }
    proof {
        assert(s@.subrange(0, n as int) =~= s@);
    }
    total
}

} // verus!
