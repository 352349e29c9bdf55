//! Hexadecimal text: a verified encoder, and the decoder of `impl-serde`.

use crate::error::{BridgeError, ErrorKind};
use vstd::prelude::*;
use vstd::string::StringExecFns;

verus! {

/// The lower-case hexadecimal digit for a value below sixteen.
pub open spec fn hex_digit(n: int) -> char {
    if n < 10 {
        (n + 48) as char
    } else {
        (n + 87) as char
    }
}

/// The lower-case hexadecimal text of a byte sequence: two digits per byte,
/// the high nibble first.
pub open spec fn hex_lower(bytes: Seq<u8>) -> Seq<char> {
    Seq::new(
        2 * bytes.len(),
        |i: int|
            if i % 2 == 0 {
                hex_digit(bytes[i / 2] as int / 16)
            } else {
                hex_digit(bytes[i / 2] as int % 16)
            },
    )
}

/// The text of a byte sequence as the chains' RPC interfaces write it: `0x`
/// and then the lower-case digits.
pub open spec fn prefixed_hex(bytes: Seq<u8>) -> Seq<char> {
    seq!['0', 'x'] + hex_lower(bytes)
}

/// Appending one byte appends its two digits.
pub proof fn lemma_hex_lower_push(bytes: Seq<u8>, b: u8)
    ensures
        hex_lower(bytes.push(b)) == hex_lower(bytes) + seq![
            hex_digit(b as int / 16),
            hex_digit(b as int % 16),
        ],
{
    let left = hex_lower(bytes.push(b));
    let right = hex_lower(bytes) + seq![hex_digit(b as int / 16), hex_digit(b as int % 16)];
    assert(left.len() == right.len());
    assert forall|i: int| 0 <= i < left.len() implies left[i] == right[i] by {
        if i < 2 * bytes.len() {
            assert(bytes.push(b)[i / 2] == bytes[i / 2]);
        } else {
            assert(i / 2 == bytes.len());
            assert(bytes.push(b)[i / 2] == b);
        }
    }
    assert(left =~= right);
}

/// The one-character text of a hexadecimal digit.
fn digit_text(n: u8) -> (text: &'static str)
    requires
        n < 16,
    ensures
        text@ == seq![hex_digit(n as int)],
{
    proof {
        reveal_strlit("0");
        reveal_strlit("1");
        reveal_strlit("2");
        reveal_strlit("3");
        reveal_strlit("4");
        reveal_strlit("5");
        reveal_strlit("6");
        reveal_strlit("7");
        reveal_strlit("8");
        reveal_strlit("9");
        reveal_strlit("a");
        reveal_strlit("b");
        reveal_strlit("c");
        reveal_strlit("d");
        reveal_strlit("e");
        reveal_strlit("f");
    }
    let text = match n {
        0 => "0",
        1 => "1",
        2 => "2",
        3 => "3",
        4 => "4",
        5 => "5",
        6 => "6",
        7 => "7",
        8 => "8",
        9 => "9",
        10 => "a",
        11 => "b",
        12 => "c",
        13 => "d",
        14 => "e",
        _ => "f",
    };
    assert(text@ =~= seq![hex_digit(n as int)]);
    text
}

/// Appends the lower-case hexadecimal digits of `bytes` to `out`.
pub fn push_hex(out: &mut String, bytes: &[u8])
    ensures
        final(out)@ == old(out)@ + hex_lower(bytes@),
{
    let mut i: usize = 0;
    assert(bytes@.take(0) =~= Seq::<u8>::empty());
    assert(hex_lower(Seq::<u8>::empty()) =~= Seq::<char>::empty());
    assert(out@ =~= old(out)@ + hex_lower(bytes@.take(0)));
    while i < bytes.len()
        invariant
            i <= bytes.len(),
            out@ == old(out)@ + hex_lower(bytes@.take(i as int)),
        decreases bytes.len() - i,
    {
        let b = bytes[i];
        out.append(digit_text(b / 16));
        out.append(digit_text(b % 16));
        proof {
            lemma_hex_lower_push(bytes@.take(i as int), b);
            assert(bytes@.take(i as int).push(b) =~= bytes@.take(i + 1));
            assert(out@ =~= old(out)@ + hex_lower(bytes@.take(i + 1)));
        }
        i = i + 1;
    }
    assert(bytes@.take(bytes.len() as int) =~= bytes@);
}

/// The lower-case hexadecimal text of `bytes`, without a prefix.
pub fn encode_hex(bytes: &[u8]) -> (text: String)
    ensures
        text@ == hex_lower(bytes@),
{
    let mut text = String::new();
    push_hex(&mut text, bytes);
    assert(text@ =~= hex_lower(bytes@));
    text
}

/// The text of `bytes` with the `0x` prefix.
pub fn encode_prefixed_hex(bytes: &[u8]) -> (text: String)
    ensures
        text@ == prefixed_hex(bytes@),
{
    proof {
        reveal_strlit("0x");
    }
    let mut text = String::new();
    text.append("0x");
    assert(text@ =~= seq!['0', 'x']);
    push_hex(&mut text, bytes);
    text
}

/// Whether `c` is a hexadecimal digit, in either case.
pub open spec fn is_hex_digit(c: char) -> bool {
    ('0' <= c <= '9') || ('a' <= c <= 'f') || ('A' <= c <= 'F')
}

/// Whether `c` is one of the blanks that the decoder passes over: space,
/// carriage return, line feed, tab.
pub open spec fn is_hex_blank(c: char) -> bool {
    c == ' ' || c == '\r' || c == '\n' || c == '\t'
}

/// The value of a hexadecimal digit.
pub open spec fn hex_digit_value(c: char) -> int {
    if '0' <= c <= '9' {
        c as int - 48
    } else if 'a' <= c <= 'f' {
        c as int - 87
    } else {
        c as int - 55
    }
}

/// The text without a leading `0x`, where it has one.
pub open spec fn without_prefix(text: Seq<char>) -> Seq<char> {
    if text.len() >= 2 && text[0] == '0' && text[1] == 'x' {
        text.skip(2)
    } else {
        text
    }
}

/// Whether every character of `digits` is a hexadecimal digit.
pub open spec fn is_hex_text(digits: Seq<char>) -> bool {
    forall|i: int| 0 <= i < digits.len() ==> is_hex_digit(#[trigger] digits[i])
}

/// Whether every character of `digits` is a hexadecimal digit or a blank.
pub open spec fn is_blanked_hex_text(digits: Seq<char>) -> bool {
    forall|i: int|
        0 <= i < digits.len() ==> is_hex_digit(#[trigger] digits[i]) || is_hex_blank(digits[i])
}

/// The bytes that a run of hexadecimal digits stands for: two digits per
/// byte, the high nibble first; an odd run is read as if it began with `0`.
pub open spec fn digits_to_bytes(digits: Seq<char>) -> Seq<u8> {
    let padded = if digits.len() % 2 == 1 {
        seq!['0'] + digits
    } else {
        digits
    };
    Seq::new(
        padded.len() / 2,
        |i: int| (16 * hex_digit_value(padded[2 * i]) + hex_digit_value(padded[2 * i + 1])) as u8,
    )
}

/// Every digit that `hex_digit` writes is a hexadecimal digit, and stands for
/// the value it was written for.
pub proof fn lemma_hex_digit_value(n: int)
    requires
        0 <= n < 16,
    ensures
        is_hex_digit(hex_digit(n)),
        hex_digit_value(hex_digit(n)) == n,
{
}

/// Decoding undoes encoding: the digits written for `bytes` are hexadecimal
/// text that stands for `bytes` again, with the `0x` prefix or without it.
pub proof fn lemma_hex_round_trip(bytes: Seq<u8>)
    ensures
        is_hex_text(hex_lower(bytes)),
        digits_to_bytes(hex_lower(bytes)) == bytes,
        without_prefix(prefixed_hex(bytes)) == hex_lower(bytes),
        without_prefix(hex_lower(bytes)) == hex_lower(bytes),
{
    let digits = hex_lower(bytes);
    assert forall|i: int| 0 <= i < digits.len() implies is_hex_digit(#[trigger] digits[i]) by {
        let b = bytes[i / 2] as int;
        lemma_hex_digit_value(b / 16);
        lemma_hex_digit_value(b % 16);
    }
    let decoded = digits_to_bytes(digits);
    assert(digits.len() % 2 == 0);
    assert(decoded.len() == bytes.len());
    assert forall|i: int| 0 <= i < bytes.len() implies decoded[i] == bytes[i] by {
        let b = bytes[i] as int;
        lemma_hex_digit_value(b / 16);
        lemma_hex_digit_value(b % 16);
        assert((2 * i) / 2 == i && (2 * i) % 2 == 0);
        assert((2 * i + 1) / 2 == i && (2 * i + 1) % 2 == 1);
        assert(digits[2 * i] == hex_digit(b / 16));
        assert(digits[2 * i + 1] == hex_digit(b % 16));
    }
    assert(decoded =~= bytes);
    assert(without_prefix(prefixed_hex(bytes)) =~= digits);
    if digits.len() >= 2 {
        lemma_hex_digit_value(bytes[0] as int % 16);
        assert(digits[1] == hex_digit(bytes[0] as int % 16));
        assert(digits[1] != 'x');
    }
}

/// Two byte sequences with the same hexadecimal text are the same.
pub proof fn lemma_hex_lower_injective(a: Seq<u8>, b: Seq<u8>)
    requires
        hex_lower(a) == hex_lower(b),
    ensures
        a == b,
{
    lemma_hex_round_trip(a);
    lemma_hex_round_trip(b);
}

/// What `impl_serde::serialize::from_hex` returns for a text: the bytes, or
/// `None` where it reports an error.
pub uninterp spec fn hex_decoding(text: Seq<char>) -> Option<Seq<u8>>;

/// The error of `impl_serde::serialize::from_hex`. Nothing is read of it.
#[verifier::external_type_specification]
#[verifier::external_body]
pub struct ExFromHexError(impl_serde::serialize::FromHexError);

/// Calls `impl_serde::serialize::from_hex`, which strips one leading `0x` and
/// reads the rest digit by digit. It is believed, not proved, that it fails
/// exactly when a character after the prefix is neither a hexadecimal digit
/// nor a blank, and that for a text free of blanks it yields
/// `digits_to_bytes` of the digits. What it yields for a text with blanks is
/// only named.
#[verifier::external_body]
pub(crate) fn from_hex(text: &str) -> (bytes: Result<Vec<u8>, impl_serde::serialize::FromHexError>)
    ensures
        match bytes {
            Ok(b) => hex_decoding(text@) == Some(b@),
            Err(_) => hex_decoding(text@) is None,
        },
        bytes is Ok <==> is_blanked_hex_text(without_prefix(text@)),
        is_hex_text(without_prefix(text@)) ==> bytes is Ok && bytes->Ok_0@ == digits_to_bytes(
            without_prefix(text@),
        ),
{
    impl_serde::serialize::from_hex(text)
}

/// The text of the error for a payload that is not hexadecimal.
pub open spec fn invalid_hex_message() -> Seq<char> {
    "invalid hex payload"@
}

/// Decodes hexadecimal text, with or without the `0x` prefix, into bytes.
///
/// Fails with `DecodeError` exactly when a character after the prefix is
/// neither a hexadecimal digit nor a blank.
pub fn decode_hex(text: &str) -> (decoded: Result<Vec<u8>, BridgeError>)
    ensures
        decoded is Ok <==> is_blanked_hex_text(without_prefix(text@)),
        match decoded {
            Ok(bytes) => hex_decoding(text@) == Some(bytes@),
            Err(_) => hex_decoding(text@) is None,
        },
        decoded matches Ok(bytes) ==> (is_hex_text(without_prefix(text@)) ==> bytes@
            == digits_to_bytes(without_prefix(text@))),
        decoded matches Err(e) ==> e.reports(ErrorKind::DecodeError, invalid_hex_message()),
{
    match from_hex(text) {
        Ok(bytes) => Ok(bytes),
        Err(_) => Err(
            BridgeError {
                kind: ErrorKind::DecodeError,
                message: String::from_str("invalid hex payload"),
            },
        ),
    }
}

} // verus!
