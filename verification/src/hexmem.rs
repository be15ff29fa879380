//! Memory contents given as hexadecimal text, as the command line gives them.

use vstd::prelude::*;
use vstd::string::StringSliceAdditionalSpecFns;
use crate::codes::{PayloadType, ResultCode};
use crate::payload::{Payload, PayloadValue, MAX_WRITEMEM};
use crate::setup::setup_writemem;

verus! {

/// `hex::FromHexError`, the errors of the hexadecimal decoder: a character
/// that is no hexadecimal digit, with its place; a text with an odd number of
/// digits; and a third that only decoding into a buffer of fixed size gives.
/// It is declared with its variants and their two public fields, so that the
/// contracts can say which error comes; nothing else is claimed of it.
#[verifier::external_type_specification]
pub struct ExFromHexError(hex::FromHexError);

/// The value of a hexadecimal digit, upper or lower case.
pub open spec fn hex_digit(c: u8) -> Option<u8> {
    if 0x30 <= c <= 0x39 {
        Some((c - 0x30) as u8)
    } else if 0x41 <= c <= 0x46 {
        Some((c - 0x41 + 10) as u8)
    } else if 0x61 <= c <= 0x66 {
        Some((c - 0x61 + 10) as u8)
    } else {
        None
    }
}

/// Whether a text is an even number of hexadecimal digits.
pub open spec fn is_hex(text: Seq<u8>) -> bool {
    text.len() % 2 == 0 && forall|i: int| 0 <= i < text.len() ==> hex_digit(#[trigger] text[i]) is Some
}

/// The bytes that hexadecimal text stands for: two digits a byte, the high
/// digit first.
pub open spec fn hex_bytes(text: Seq<u8>) -> Seq<u8> {
    Seq::new(
        text.len() / 2,
        |k: int| (16 * hex_digit(text[2 * k]).unwrap() + hex_digit(text[2 * k + 1]).unwrap()) as u8,
    )
}

/// Whether `index` is the place of the first character of `text` that is no
/// hexadecimal digit.
pub open spec fn is_first_bad_digit(text: Seq<u8>, index: int) -> bool {
    &&& 0 <= index < text.len()
    &&& hex_digit(text[index]) is None
    &&& forall|j: int| 0 <= j < index ==> hex_digit(#[trigger] text[j]) is Some
}

/// Whether `e` is the error that text which is not hexadecimal is refused
/// with: `OddLength` for an odd number of characters, whatever they are, and
/// else the first character that is no digit, with its place.
pub open spec fn is_hex_error(e: hex::FromHexError, text: Seq<u8>) -> bool {
    if text.len() % 2 != 0 {
        e == hex::FromHexError::OddLength
    } else {
        e matches hex::FromHexError::InvalidHexCharacter { c, index } && is_first_bad_digit(
            text,
            index as int,
        ) && c == text[index as int] as char
    }
}

/// Calls `hex::decode`. The contract states what its source does: an odd
/// length is refused first, as `OddLength`; then the pairs of characters are
/// decoded in order, the high digit before the low one, and the first
/// character that is no digit is refused as `InvalidHexCharacter` with its
/// place; else each pair gives one byte, sixteen times the first digit plus
/// the second.
#[verifier::external_body]
fn hex_decode(text: &[u8]) -> (r: Result<Vec<u8>, hex::FromHexError>)
    ensures
        r is Ok <==> is_hex(text@),
        r matches Ok(bytes) ==> bytes@ == hex_bytes(text@),
        r matches Err(e) ==> is_hex_error(e, text@),
{
    hex::decode(text)
}

/// Makes `p` a `Writemem` request for `address` that carries the bytes that
/// the hexadecimal `digits` stand for. Text that is not hexadecimal is refused
/// with the error of the decoder, and `p` is left as it was; bytes that do
/// not fit are refused as [`setup_writemem`] refuses them.
pub fn setup_writemem_hex(p: &mut Payload, address: u16, digits: &str) -> (r: Result<
    ResultCode,
    hex::FromHexError,
>)
    ensures
        r is Ok <==> is_hex(digits.spec_bytes()),
        r matches Err(e) ==> is_hex_error(e, digits.spec_bytes()) && *final(p) == *old(p),
        r matches Ok(rc) ==> {
            let mem = hex_bytes(digits.spec_bytes());
            &&& final(p).payload_type == PayloadType::PtWritemem
            &&& rc == ResultCode::RcOk <==> mem.len() <= MAX_WRITEMEM
            &&& rc == ResultCode::RcInvalidMemLength <==> mem.len() > MAX_WRITEMEM
            &&& mem.len() <= MAX_WRITEMEM ==> final(p).wf() && final(p).zero_padding() && final(p)@
                == (PayloadValue::Writemem { address, data: mem })
            &&& mem.len() > MAX_WRITEMEM ==> final(p).data == old(p).data
        },
{
    match hex_decode(digits.as_bytes()) {
        Ok(mem) => Ok(setup_writemem(p, address, mem.as_slice())),
        Err(e) => Err(e),
    }
}

} // verus!
