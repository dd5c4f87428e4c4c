//! Identifiers as hexadecimal text.
//!
//! Every identifier that leaves or enters the index through a request or a
//! response is written as the lowercase hexadecimal form of its bytes. The
//! conversion is done by the `hex` crate; what it does is stated here over
//! sequences of characters.

use vstd::prelude::*;

verus! {

/// The sixteen digits, in order of their value.
pub open spec fn hex_digits() -> Seq<char> {
    seq!['0', '1', '2', '3', '4', '5', '6', '7', '8', '9', 'a', 'b', 'c', 'd', 'e', 'f']
}

/// The lowercase hexadecimal text of `data`: two digits for each byte, the
/// high half first.
pub open spec fn hex_text(data: Seq<u8>) -> Seq<char> {
    Seq::new(
        2 * data.len(),
        |i: int|
            if i % 2 == 0 {
                hex_digits()[data[i / 2] as int / 16]
            } else {
                hex_digits()[data[i / 2] as int % 16]
            },
    )
}

/// The value of a hexadecimal digit, in either case.
pub open spec fn hex_digit_value(c: char) -> Option<int> {
    let n = c as u32 as int;
    if 0x30 <= n <= 0x39 {
        Some(n - 0x30)
    } else if 0x61 <= n <= 0x66 {
        Some(n - 0x61 + 10)
    } else if 0x41 <= n <= 0x46 {
        Some(n - 0x41 + 10)
    } else {
        None
    }
}

/// Whether `text` is hexadecimal: an even number of digits and nothing else.
pub open spec fn is_hex_text(text: Seq<char>) -> bool {
    &&& text.len() % 2 == 0
    &&& forall|i: int| 0 <= i < text.len() ==> hex_digit_value(#[trigger] text[i]) is Some
}

/// The bytes that hexadecimal `text` spells.
pub open spec fn hex_bytes(text: Seq<char>) -> Seq<u8> {
    Seq::new(
        text.len() / 2,
        |i: int|
            (16 * hex_digit_value(text[2 * i]).unwrap() + hex_digit_value(
                text[2 * i + 1],
            ).unwrap()) as u8,
    )
}

/// `hex::FromHexError`, the reason why text was refused. It is handed on
/// unread.
#[verifier::external_type_specification]
#[verifier::external_body]
pub struct ExFromHexError(hex::FromHexError);

/// `hex::encode`: assumed to return two lowercase digits for each byte of
/// `data`, the high half of the byte first.
#[verifier::external_body]
pub(crate) fn encode(data: &[u8]) -> (text: String)
    ensures
        text@ == hex_text(data@),
{
    hex::encode(data)
}

/// `hex::decode`: assumed to succeed exactly on text made of an even number
/// of hexadecimal digits, upper or lower case, and then to return the byte
/// that each pair of digits spells.
#[verifier::external_body]
pub(crate) fn decode(text: &str) -> (res: Result<Vec<u8>, hex::FromHexError>)
    ensures
        res is Ok <==> is_hex_text(text@),
        res matches Ok(data) ==> data@ == hex_bytes(text@),
{
    hex::decode(text)
}

/// Reading back what was written gives the bytes again.
pub proof fn lemma_hex_round_trip(data: Seq<u8>)
    ensures
        is_hex_text(hex_text(data)),
        hex_bytes(hex_text(data)) == data,
{
    let text = hex_text(data);
    assert forall|n: int| 0 <= n < 16 implies hex_digit_value(#[trigger] hex_digits()[n]) == Some(
        n,
    ) by {
        assert(hex_digits()[0] == '0' && hex_digits()[1] == '1' && hex_digits()[2] == '2'
            && hex_digits()[3] == '3' && hex_digits()[4] == '4' && hex_digits()[5] == '5'
            && hex_digits()[6] == '6' && hex_digits()[7] == '7' && hex_digits()[8] == '8'
            && hex_digits()[9] == '9' && hex_digits()[10] == 'a' && hex_digits()[11] == 'b'
            && hex_digits()[12] == 'c' && hex_digits()[13] == 'd' && hex_digits()[14] == 'e'
            && hex_digits()[15] == 'f');
    }
    assert forall|i: int| 0 <= i < text.len() implies hex_digit_value(
        #[trigger] text[i],
    ) is Some by {
        let b = data[i / 2] as int;
        assert(0 <= b / 16 < 16 && 0 <= b % 16 < 16);
    }
    assert forall|i: int| 0 <= i < data.len() implies #[trigger] hex_bytes(text)[i] == data[i] by {
        let b = data[i] as int;
        assert(0 <= b / 16 < 16 && 0 <= b % 16 < 16);
        assert(text[2 * i] == hex_digits()[b / 16]);
        assert(text[2 * i + 1] == hex_digits()[b % 16]);
    }
    assert(hex_bytes(text) =~= data);
}

} // verus!
