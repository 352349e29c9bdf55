//! Fixed-width unsigned integers in the chain's binary storage encoding:
//! little-endian, the least significant byte first.

use crate::error::{BridgeError, ErrorKind};
use crate::hex::{decode_hex, hex_decoding, invalid_hex_message};
use crate::uint256::{lemma_pow256_monotonic, pow256};
use vstd::prelude::*;

verus! {

/// The widest integer that the decoder reads, in bytes.
pub const MAX_WIDTH: usize = 16;

/// The number that `bytes` stand for, the least significant byte first.
pub open spec fn le_value(bytes: Seq<u8>) -> nat
    decreases bytes.len(),
{
    if bytes.len() == 0 {
        0
    } else {
        bytes[0] as nat + 256 * le_value(bytes.drop_first())
    }
}

/// The text of the error for a buffer with fewer bytes than the integer has.
pub open spec fn short_buffer_message() -> Seq<char> {
    "not enough bytes for the integer"@
}

/// The text of the error for a width above `MAX_WIDTH`.
pub open spec fn unsupported_width_message() -> Seq<char> {
    "integer width is not supported"@
}

/// Decodes the unsigned integer of `width` bytes at the start of `bytes`.
///
/// Fails with `DecodeError` exactly when the buffer holds fewer than `width`
/// bytes, or `width` is above `MAX_WIDTH`. Bytes after the integer are
/// ignored.
pub fn decode_fixed_width_unsigned(bytes: &[u8], width: usize) -> (decoded: Result<
    u128,
    BridgeError,
>)
    ensures
        decoded is Ok <==> width <= MAX_WIDTH && width <= bytes.len(),
        decoded matches Ok(value) ==> value == le_value(bytes@.take(width as int)) && value
            < pow256(width as nat),
        decoded matches Err(e) ==> e.reports(
            ErrorKind::DecodeError,
            if width > MAX_WIDTH {
                unsupported_width_message()
            } else {
                short_buffer_message()
            },
        ),
{
    if width > MAX_WIDTH {
        return Err(
            BridgeError {
                kind: ErrorKind::DecodeError,
                message: String::from_str("integer width is not supported"),
            },
        );
    }
    if bytes.len() < width {
        return Err(
            BridgeError {
                kind: ErrorKind::DecodeError,
                message: String::from_str("not enough bytes for the integer"),
            },
        );
    }
    let ghost taken = bytes@.take(width as int);
    let mut value: u128 = 0;
    let mut i: usize = width;
    assert(taken.subrange(width as int, width as int) =~= Seq::<u8>::empty());
    proof {
        assert(pow256(16) == 0x1_0000_0000_0000_0000_0000_0000_0000_0000) by {
            reveal_with_fuel(pow256, 17);
        }
    }
    while i > 0
        invariant
            i <= width <= 16,
            width <= bytes.len(),
            taken == bytes@.take(width as int),
            value == le_value(taken.subrange(i as int, width as int)),
            value < pow256((width - i) as nat),
            pow256(16) == 0x1_0000_0000_0000_0000_0000_0000_0000_0000,
        decreases i,
    {
        i = i - 1;
        let byte = bytes[i];
        proof {
            let tail = taken.subrange(i as int, width as int);
            assert(tail.drop_first() =~= taken.subrange(i + 1, width as int));
            assert(tail[0] == byte);
            lemma_pow256_monotonic((width - i) as nat, 16);
            assert(pow256((width - i) as nat) == 256 * pow256((width - i - 1) as nat));
        }
        value = value * 256 + byte as u128;
    }
    assert(taken.subrange(0, width as int) =~= taken);
    Ok(value)
}

/// Decodes the unsigned 64-bit integer at the start of `bytes`.
///
/// Fails with `DecodeError` exactly when the buffer holds fewer than 8 bytes.
pub fn decode_u64(bytes: &[u8]) -> (decoded: Result<u64, BridgeError>)
    ensures
        decoded is Ok <==> bytes.len() >= 8,
        decoded matches Ok(value) ==> value == le_value(bytes@.take(8)),
        decoded matches Err(e) ==> e.reports(ErrorKind::DecodeError, short_buffer_message()),
{
    match decode_fixed_width_unsigned(bytes, 8) {
        Ok(value) => {
            proof {
                assert(pow256(8) == 0x1_0000_0000_0000_0000) by {
                    reveal_with_fuel(pow256, 9);
                }
            }
            Ok(value as u64)
        },
        Err(e) => Err(e),
    }
}

/// What hexadecimal text decodes to as an unsigned integer of `width` bytes:
/// the number, or the text of the error.
pub open spec fn hex_unsigned(text: Seq<char>, width: nat) -> Result<nat, Seq<char>> {
    match hex_decoding(text) {
        None => Err(invalid_hex_message()),
        Some(bytes) => if width > MAX_WIDTH {
            Err(unsupported_width_message())
        } else if bytes.len() < width {
            Err(short_buffer_message())
        } else {
            Ok(le_value(bytes.take(width as int)))
        },
    }
}

/// Decodes the unsigned integer of `width` bytes at the start of a buffer
/// that is given as hexadecimal text, with or without the `0x` prefix.
///
/// Fails with `DecodeError` exactly when the text is not hexadecimal, the
/// buffer holds fewer than `width` bytes, or `width` is above `MAX_WIDTH`.
pub fn decode_hex_unsigned(text: &str, width: usize) -> (decoded: Result<u128, BridgeError>)
    ensures
        match decoded {
            Ok(value) => hex_unsigned(text@, width as nat) == Ok::<nat, Seq<char>>(value as nat),
            Err(e) => hex_unsigned(text@, width as nat) is Err && e.reports(
                ErrorKind::DecodeError,
                hex_unsigned(text@, width as nat)->Err_0,
            ),
        },
{
    match decode_hex(text) {
        Ok(bytes) => decode_fixed_width_unsigned(bytes.as_slice(), width),
        Err(e) => Err(e),
    }
}

} // verus!
