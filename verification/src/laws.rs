use vstd::prelude::*;

use crate::date::{
    day_of, digit_char, digit_val, month_of, spec_format, spec_format_bytes, spec_parse, year_of,
    Date, BYTE_DASH, BYTE_ZERO,
};
use crate::error::DateError;
use vstd::arithmetic::div_mod::lemma_fundamental_div_mod_converse;
use vstd::std_specs::cmp::PartialOrdSpec;
use vstd::utf8::{encode_utf8, is_ascii_chars, is_ascii_chars_encode_utf8};

verus! {

/// Splitting a two-digit value into its decimal digits.
proof fn lemma_two_digits(v: int)
    requires
        0 <= v <= 99,
    ensures
        (v / 10) * 10 + v % 10 == v,
        0 <= v / 10 <= 9,
        0 <= v % 10 <= 9,
{
}

/// Recombining two decimal digits is inverted by division and remainder.
proof fn lemma_two_digits_inv(a: int, b: int)
    requires
        0 <= a <= 9,
        0 <= b <= 9,
    ensures
        (a * 10 + b) / 10 == a,
        (a * 10 + b) % 10 == b,
{
}

/// Splitting a four-digit value into its decimal digits.
proof fn lemma_four_digits(v: int)
    requires
        0 <= v <= 9999,
    ensures
        (v / 1000) * 1000 + ((v / 100) % 10) * 100 + ((v / 10) % 10) * 10 + v % 10 == v,
        0 <= v / 1000 <= 9,
        0 <= (v / 100) % 10 <= 9,
        0 <= (v / 10) % 10 <= 9,
        0 <= v % 10 <= 9,
{
}

/// Recombining four decimal digits is inverted by division and remainder.
proof fn lemma_four_digits_inv(a: int, b: int, c: int, d: int)
    requires
        0 <= a <= 9,
        0 <= b <= 9,
        0 <= c <= 9,
        0 <= d <= 9,
    ensures
        (a * 1000 + b * 100 + c * 10 + d) / 1000 == a,
        ((a * 1000 + b * 100 + c * 10 + d) / 100) % 10 == b,
        ((a * 1000 + b * 100 + c * 10 + d) / 10) % 10 == c,
        (a * 1000 + b * 100 + c * 10 + d) % 10 == d,
{
    let v = a * 1000 + b * 100 + c * 10 + d;
    lemma_fundamental_div_mod_converse(v, 1000, a, b * 100 + c * 10 + d);
    lemma_fundamental_div_mod_converse(v, 100, a * 10 + b, c * 10 + d);
    lemma_fundamental_div_mod_converse(v, 10, a * 100 + b * 10 + c, d);
    lemma_two_digits_inv(a, b);
    lemma_fundamental_div_mod_converse(a * 100 + b * 10 + c, 10, a * 10 + b, c);
}

/// Round trip: parsing the canonical text of any valid date gives back
/// exactly that date.
pub proof fn lemma_format_parse_roundtrip(d: Date)
    requires
        d.wf(),
    ensures
        spec_parse(spec_format_bytes(d)) == Ok::<Date, DateError>(d),
{
    let bytes = spec_format_bytes(d);
    lemma_four_digits(d.year as int);
    lemma_two_digits(d.mon as int);
    lemma_two_digits(d.day as int);
    assert(year_of(bytes) == d.year as int);
    assert(month_of(bytes) == d.mon as int);
    assert(day_of(bytes) == d.day as int);
}

/// Every successfully parsed date is well formed, and formatting it
/// regenerates exactly the first ten bytes of the input, whatever followed
/// them.
pub proof fn lemma_parse_format_canonical(bytes: Seq<u8>, d: Date)
    requires
        spec_parse(bytes) == Ok::<Date, DateError>(d),
    ensures
        d.wf(),
        spec_format_bytes(d) == bytes.subrange(0, 10),
{
    lemma_four_digits_inv(
        digit_val(bytes[0]),
        digit_val(bytes[1]),
        digit_val(bytes[2]),
        digit_val(bytes[3]),
    );
    lemma_two_digits_inv(digit_val(bytes[5]), digit_val(bytes[6]));
    lemma_two_digits_inv(digit_val(bytes[8]), digit_val(bytes[9]));
    assert(spec_format_bytes(d) =~= bytes.subrange(0, 10));
}

/// Truncation tolerance: parsing reads nothing beyond the first ten bytes,
/// so two inputs that agree on those bytes parse identically.
pub proof fn lemma_parse_prefix_only(b1: Seq<u8>, b2: Seq<u8>)
    requires
        b1.len() >= 10,
        b2.len() >= 10,
        b1.subrange(0, 10) == b2.subrange(0, 10),
    ensures
        spec_parse(b1) == spec_parse(b2),
{
    assert forall|i: int| 0 <= i < 10 implies b1[i] == b2[i] by {
        assert(b1[i] == b1.subrange(0, 10)[i]);
        assert(b2[i] == b2.subrange(0, 10)[i]);
    }
}

/// The canonical text of a valid date is pure ASCII, and its UTF-8 encoding
/// is exactly [`spec_format_bytes`]. Hence parsing the bytes of a formatted
/// string gives the date back: the round trip holds at the string level too.
pub proof fn lemma_format_ascii(d: Date)
    requires
        d.wf(),
    ensures
        is_ascii_chars(spec_format(d)),
        encode_utf8(spec_format(d)) == spec_format_bytes(d),
        spec_parse(encode_utf8(spec_format(d))) == Ok::<Date, DateError>(d),
{
    lemma_four_digits(d.year as int);
    lemma_two_digits(d.mon as int);
    lemma_two_digits(d.day as int);
    let chars = spec_format(d);
    assert forall|i: int| 0 <= i < chars.len() implies '\0' <= #[trigger] chars[i]
        <= '\u{7f}' by {
        lemma_digit_char_ascii();
    }
    assert(is_ascii_chars(chars));
    is_ascii_chars_encode_utf8(chars);
    assert forall|i: int| 0 <= i < 10 implies #[trigger] encode_utf8(chars)[i]
        == spec_format_bytes(d)[i] by {
        lemma_digit_char_ascii();
    }
    assert(encode_utf8(chars) =~= spec_format_bytes(d));
    lemma_format_parse_roundtrip(d);
}

/// Each digit character is ASCII, and its code is the digit's value offset
/// from the code of `'0'`; `'-'` has code [`BYTE_DASH`].
proof fn lemma_digit_char_ascii()
    ensures
        forall|v: int| 0 <= v <= 9 ==> '\0' <= #[trigger] digit_char(v) <= '\u{7f}',
        forall|v: int| 0 <= v <= 9 ==> (#[trigger] digit_char(v)) as u8 == BYTE_ZERO + v,
        '\0' <= '-' <= '\u{7f}',
        '-' as u8 == BYTE_DASH,
{
    assert forall|v: int| 0 <= v <= 9 implies '\0' <= #[trigger] digit_char(v) <= '\u{7f}'
        && (#[trigger] digit_char(v)) as u8 == BYTE_ZERO + v by {
        if v == 0 {
            assert('\0' <= '0' <= '\u{7f}' && '0' as u8 == 48);
        } else if v == 1 {
            assert('\0' <= '1' <= '\u{7f}' && '1' as u8 == 49);
        } else if v == 2 {
            assert('\0' <= '2' <= '\u{7f}' && '2' as u8 == 50);
        } else if v == 3 {
            assert('\0' <= '3' <= '\u{7f}' && '3' as u8 == 51);
        } else if v == 4 {
            assert('\0' <= '4' <= '\u{7f}' && '4' as u8 == 52);
        } else if v == 5 {
            assert('\0' <= '5' <= '\u{7f}' && '5' as u8 == 53);
        } else if v == 6 {
            assert('\0' <= '6' <= '\u{7f}' && '6' as u8 == 54);
        } else if v == 7 {
            assert('\0' <= '7' <= '\u{7f}' && '7' as u8 == 55);
        } else if v == 8 {
            assert('\0' <= '8' <= '\u{7f}' && '8' as u8 == 56);
        } else {
            assert('\0' <= '9' <= '\u{7f}' && '9' as u8 == 57);
        }
    }
}

/// Ordering is lexicographic over `(year, mon, day)`, year first: a date
/// compares strictly below another exactly when its field triple does.
pub proof fn lemma_ordering_lexicographic(a: Date, b: Date)
    ensures
        (a.partial_cmp_spec(&b) == Some(core::cmp::Ordering::Less)) <==> (a.year < b.year || (
        a.year == b.year && a.mon < b.mon) || (a.year == b.year && a.mon == b.mon && a.day
            < b.day)),
{
}

} // verus!
