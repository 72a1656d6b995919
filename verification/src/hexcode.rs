//! The hexadecimal layer: how bytes are spelled as digits and read back.

use vstd::prelude::*;
use vstd::utf8::*;

verus! {

/// The ASCII code of the lower-case digit that stands for `nibble`.
pub open spec fn lower_digit(nibble: int) -> u8 {
    if nibble < 10 {
        (48 + nibble) as u8
    } else {
        (87 + nibble) as u8
    }
}

/// The nibble of `bytes` that the digit at position `i` spells: the high half of
/// a byte at even positions, the low half at odd ones.
pub open spec fn nibble_at(bytes: Seq<u8>, i: int) -> int {
    if i % 2 == 0 {
        bytes[i / 2] as int / 16
    } else {
        bytes[i / 2] as int % 16
    }
}

/// `bytes` spelled in lower-case hexadecimal, two digits per byte.
pub open spec fn lower_hex(bytes: Seq<u8>) -> Seq<char> {
    Seq::new(2 * bytes.len(), |i: int| lower_digit(nibble_at(bytes, i)) as char)
}

/// Whether `code` is the ASCII code of a hexadecimal digit of either case.
pub open spec fn is_hex_digit(code: u8) -> bool {
    ||| 0x30 <= code <= 0x39
    ||| 0x41 <= code <= 0x46
    ||| 0x61 <= code <= 0x66
}

/// The number that the hexadecimal digit `code` stands for.
pub open spec fn digit_value(code: u8) -> int
    recommends
        is_hex_digit(code),
{
    if code <= 0x39 {
        code - 0x30
    } else if code <= 0x46 {
        code - 0x41 + 10
    } else {
        code - 0x61 + 10
    }
}

/// Whether `digits` spells a byte string: an even number of hexadecimal digits.
pub open spec fn is_hex(digits: Seq<u8>) -> bool {
    &&& digits.len() % 2 == 0
    &&& forall|i: int| 0 <= i < digits.len() ==> is_hex_digit(#[trigger] digits[i])
}

/// The bytes that `digits` spells.
pub open spec fn hex_value(digits: Seq<u8>) -> Seq<u8>
    recommends
        is_hex(digits),
{
    Seq::new(
        digits.len() / 2,
        |i: int| (16 * digit_value(digits[2 * i]) + digit_value(digits[2 * i + 1])) as u8,
    )
}

/// The message with which the `hex` crate turns down `digits`: what its
/// `FromHexError` displays after `hex::decode` has failed on them.
pub uninterp spec fn hex_error_text(digits: Seq<u8>) -> Seq<char>;

/// Calls `hex::encode`. Trusted: the result spells each byte of `data`, in order,
/// as two lower-case digits, the high nibble first.
#[verifier::external_body]
pub(crate) fn encode(data: &[u8]) -> (text: String)
    ensures
        text@ == lower_hex(data@),
{
    hex::encode(data)
}

/// Calls `hex::decode` and renders its error with `to_string`. Trusted: the call
/// succeeds exactly on an even number of hexadecimal digits of either case, and
/// then yields one byte per pair, the first digit being the high nibble; on any
/// other input it fails, and the message depends on the input alone.
#[verifier::external_body]
pub(crate) fn decode(digits: &[u8]) -> (outcome: Result<Vec<u8>, String>)
    ensures
        match outcome {
            Ok(bytes) => is_hex(digits@) && bytes@ == hex_value(digits@),
            Err(message) => !is_hex(digits@) && message@ == hex_error_text(digits@),
        },
{
    match hex::decode(digits) {
        Ok(bytes) => Ok(bytes),
        Err(fault) => Err(fault.to_string()),
    }
}

/// Lower-case hexadecimal text is ASCII, one byte per digit.
pub proof fn lemma_lower_hex_bytes(bytes: Seq<u8>)
    ensures
        is_ascii_chars(lower_hex(bytes)),
        encode_utf8(lower_hex(bytes)).len() == 2 * bytes.len(),
        forall|i: int|
            0 <= i < 2 * bytes.len() ==> #[trigger] encode_utf8(lower_hex(bytes))[i]
                == lower_digit(nibble_at(bytes, i)),
{
    let text = lower_hex(bytes);
    assert forall|i: int| 0 <= i < text.len() implies '\0' <= #[trigger] text[i] <= '\u{7f}' by {
        let n = nibble_at(bytes, i);
        assert(0 <= n < 16);
    }
    is_ascii_chars_encode_utf8(text);
    assert forall|i: int| 0 <= i < 2 * bytes.len() implies #[trigger] encode_utf8(text)[i]
        == lower_digit(nibble_at(bytes, i)) by {
        let n = nibble_at(bytes, i);
        assert(0 <= n < 16);
        assert(text[i] as u8 == encode_utf8(text)[i]);
    }
}

/// Spelling bytes in hexadecimal and reading the digits back gives the bytes
/// again, whatever the bytes are.
pub proof fn law_hex_round_trip(bytes: Seq<u8>)
    ensures
        is_hex(encode_utf8(lower_hex(bytes))),
        hex_value(encode_utf8(lower_hex(bytes))) == bytes,
{
    let digits = encode_utf8(lower_hex(bytes));
    lemma_lower_hex_bytes(bytes);
    assert forall|i: int| 0 <= i < digits.len() implies is_hex_digit(#[trigger] digits[i]) by {
        let n = nibble_at(bytes, i);
        assert(0 <= n < 16);
    }
    assert forall|j: int| 0 <= j < bytes.len() implies #[trigger] hex_value(digits)[j]
        == bytes[j] by {
        let hi = nibble_at(bytes, 2 * j);
        let lo = nibble_at(bytes, 2 * j + 1);
        assert(digits[2 * j] == lower_digit(hi));
        assert(digits[2 * j + 1] == lower_digit(lo));
        assert(hi == bytes[j] as int / 16);
        assert(lo == bytes[j] as int % 16);
        assert(digit_value(lower_digit(hi)) == hi);
        assert(digit_value(lower_digit(lo)) == lo);
    }
    assert(hex_value(digits) =~= bytes);
}

} // verus!
