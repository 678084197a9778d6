//! Text rendering primitives: uppercase hexadecimal and decimal numerals,
//! UTF-8 decoding of fixed-width device fields, and trailing-padding trim.
//!
//! Every renderer is specified down to the exact character sequence it
//! produces, so the report functions built on top can state their output
//! verbatim.

use vstd::prelude::*;
use vstd::string::StringExecFns;
use vstd::utf8::decode_utf8;
use vstd::utf8::is_char_boundary_iff_not_is_continuation_byte;
use vstd::utf8::is_leading_byte_width_1;
use vstd::utf8::partial_valid_utf8;
use vstd::utf8::partial_valid_utf8_extend_ascii_block;
use vstd::utf8::valid_utf8;
use vstd::utf8::valid_utf8_concat;
use vstd::utf8::valid_utf8_split;

verus! {

/// Appends one character to a string.
///
/// Relies on `String::push`: appends the given `char` to the end of the
/// `String`.
#[verifier::external_body]
pub(crate) fn push_char(s: &mut String, c: char)
    ensures
        final(s)@ == old(s)@.push(c),
{
    s.push(c);
}

/// The uppercase hexadecimal digit character for a value below 16.
pub open spec fn hex_digit(d: u8) -> char
    recommends
        d < 16,
{
    if d < 10 {
        ((48 + d) as u8) as char
    } else {
        ((55 + d) as u8) as char
    }
}

/// Uppercase hexadecimal numeral of `n`, most significant digit first,
/// without leading zeros (so `0` renders as `"0"`).
pub open spec fn hex_chars(n: nat) -> Seq<char>
    decreases n,
{
    if n < 16 {
        seq![hex_digit(n as u8)]
    } else {
        hex_chars(n / 16).push(hex_digit((n % 16) as u8))
    }
}

/// Decimal numeral of `n`, most significant digit first, without leading
/// zeros (so `0` renders as `"0"`).
pub open spec fn dec_chars(n: nat) -> Seq<char>
    decreases n,
{
    if n < 10 {
        seq![hex_digit(n as u8)]
    } else {
        dec_chars(n / 10).push(hex_digit((n % 10) as u8))
    }
}

/// Decimal numeral of a signed value: a leading `'-'` for negative values,
/// then the numeral of the magnitude.
pub open spec fn signed_dec_chars(n: int) -> Seq<char> {
    if n < 0 {
        seq!['-'] + dec_chars((-n) as nat)
    } else {
        dec_chars(n as nat)
    }
}

/// The digit character for one value below 16.
fn hex_digit_char(d: u8) -> (c: char)
    requires
        d < 16,
    ensures
        c == hex_digit(d),
{
    if d < 10 {
        (48 + d) as char
    } else {
        (55 + d) as char
    }
}

/// Renders `v` as an uppercase hexadecimal numeral without leading zeros.
pub fn hex_string(v: u32) -> (s: String)
    ensures
        s@ == hex_chars(v as nat),
    decreases v,
{
    if v < 16 {
        let mut s = String::new();
        push_char(&mut s, hex_digit_char(v as u8));
        proof {
            assert(s@ =~= hex_chars(v as nat));
        }
        s
    } else {
        let mut s = hex_string(v / 16);
        push_char(&mut s, hex_digit_char((v % 16) as u8));
        s
    }
}

/// Renders `v` as a decimal numeral without leading zeros.
pub fn dec_string_u64(v: u64) -> (s: String)
    ensures
        s@ == dec_chars(v as nat),
    decreases v,
{
    if v < 10 {
        let mut s = String::new();
        push_char(&mut s, hex_digit_char(v as u8));
        proof {
            assert(s@ =~= dec_chars(v as nat));
        }
        s
    } else {
        let mut s = dec_string_u64(v / 10);
        push_char(&mut s, hex_digit_char((v % 10) as u8));
        s
    }
}

/// Renders a signed value in decimal, sign included, exactly as wide as the
/// value requires.
pub fn dec_string_i32(v: i32) -> (s: String)
    ensures
        s@ == signed_dec_chars(v as int),
{
    if v >= 0 {
        dec_string_u64(v as u64)
    } else {
        let mut s = String::new();
        push_char(&mut s, '-');
        let magnitude: u64 = (-(v as i64)) as u64;
        let digits = dec_string_u64(magnitude);
        s.append(digits.as_str());
        proof {
            assert(s@ =~= signed_dec_chars(v as int));
        }
        s
    }
}

/// Whether a byte is fixed-width-field padding: an ASCII space or a NUL.
pub open spec fn is_padding_byte(b: u8) -> bool {
    b == 32 || b == 0
}

/// `bytes` with every trailing padding byte removed.
pub open spec fn trim_padding(bytes: Seq<u8>) -> Seq<u8>
    decreases bytes.len(),
{
    if bytes.len() == 0 {
        bytes
    } else if is_padding_byte(bytes.last()) {
        trim_padding(bytes.drop_last())
    } else {
        bytes
    }
}

/// Padding bytes are one-byte characters, so a byte sequence is valid
/// UTF-8 exactly when it is valid with its trailing padding removed: the
/// trim point falls on a character boundary.
proof fn lemma_valid_utf8_with_trailing_padding(field: Seq<u8>, n: int)
    requires
        0 <= n <= field.len(),
        forall|j: int| n <= j < field.len() ==> is_padding_byte(#[trigger] field[j]),
    ensures
        valid_utf8(field) <==> valid_utf8(field.subrange(0, n)),
{
    let prefix = field.subrange(0, n);
    let suffix = field.subrange(n, field.len() as int);
    if valid_utf8(prefix) {
        assert(suffix.subrange(0, 0) =~= Seq::<u8>::empty());
        assert(partial_valid_utf8(suffix, 0));
        assert forall|j: int| 0 <= j < suffix.len() implies #[trigger] is_leading_byte_width_1(
            suffix[j],
        ) by {
            assert(is_padding_byte(field[n + j]));
        }
        partial_valid_utf8_extend_ascii_block(suffix, 0, suffix.len() as int);
        assert(suffix.subrange(0, suffix.len() as int) =~= suffix);
        valid_utf8_concat(prefix, suffix);
        assert(prefix + suffix =~= field);
    }
    if valid_utf8(field) {
        if n == field.len() {
            assert(prefix =~= field);
        } else {
            assert(is_padding_byte(field[n]));
            is_char_boundary_iff_not_is_continuation_byte(field, n);
            valid_utf8_split(field, n);
        }
    }
}

/// Decodes a fixed-width device field: succeeds exactly when the whole
/// field is valid UTF-8, and then yields the text its bytes encode, with
/// trailing padding trimmed.
pub fn padded_field_text(field: &[u8]) -> (r: Option<String>)
    ensures
        r is Some <==> valid_utf8(field@),
        r matches Some(s) ==> s@ == decode_utf8(trim_padding(field@)),
{
    let mut n: usize = field.len();
    proof {
        assert(field@.subrange(0, n as int) =~= field@);
    }
    while n > 0 && (field[n - 1] == 32 || field[n - 1] == 0)
        invariant
            n <= field@.len(),
            forall|j: int| n <= j < field@.len() ==> is_padding_byte(#[trigger] field@[j]),
            trim_padding(field@) == trim_padding(field@.subrange(0, n as int)),
        decreases n,
    {
        proof {
            let prefix = field@.subrange(0, n as int);
            assert(prefix.last() == field@[n - 1]);
            assert(prefix.drop_last() =~= field@.subrange(0, n - 1));
        }
        n = n - 1;
    }
    proof {
        let prefix = field@.subrange(0, n as int);
        if n > 0 {
            assert(prefix.last() == field@[n - 1]);
        }
        assert(trim_padding(field@) == prefix);
    }
    let trimmed = vstd::slice::slice_subrange(field, 0, n);
    let text = utf8_text(trimmed);
    proof {
        lemma_valid_utf8_with_trailing_padding(field@, n as int);
    }
    text
}

/// Decodes a byte sequence as UTF-8 text: succeeds exactly when the bytes
/// are a valid UTF-8 encoding.
///
/// Relies on `std::str::from_utf8`: returns `Ok` exactly when the input
/// is valid UTF-8, and then yields the string those bytes encode.
#[verifier::external_body]
fn utf8_text(bytes: &[u8]) -> (r: Option<String>)
    ensures
        r is Some <==> valid_utf8(bytes@),
        r matches Some(s) ==> s@ == decode_utf8(bytes@),
{
    match std::str::from_utf8(bytes) {
        Ok(s) => Some(s.to_owned()),
        Err(_) => None,
    }
}

} // verus!
