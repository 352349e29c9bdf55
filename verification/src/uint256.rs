//! Unsigned 256-bit integers, held as 32 big-endian bytes.

use vstd::prelude::*;

verus! {

/// 256 to the power `k`.
pub open spec fn pow256(k: nat) -> nat
    decreases k,
{
    if k == 0 {
        1
    } else {
        256 * pow256((k - 1) as nat)
    }
}

/// The number that `bytes` stand for, the most significant byte first.
pub open spec fn be_value(bytes: Seq<u8>) -> nat
    decreases bytes.len(),
{
    if bytes.len() == 0 {
        0
    } else {
        be_value(bytes.drop_last()) * 256 + bytes.last() as nat
    }
}

/// The `len` low bytes of `n`, the most significant byte first.
pub open spec fn be_encode(n: nat, len: nat) -> Seq<u8>
    decreases len,
{
    if len == 0 {
        Seq::empty()
    } else {
        be_encode(n / 256, (len - 1) as nat).push((n % 256) as u8)
    }
}

/// The decimal digit for a value below ten.
pub open spec fn decimal_digit(n: nat) -> char {
    (n + 48) as char
}

/// The decimal text of `n`, without leading zeros.
pub open spec fn decimal_digits(n: nat) -> Seq<char>
    decreases n,
{
    if n < 10 {
        seq![decimal_digit(n)]
    } else {
        decimal_digits(n / 10).push(decimal_digit(n % 10))
    }
}

/// An encoding has the length asked for.
pub proof fn lemma_be_encode_len(n: nat, len: nat)
    ensures
        be_encode(n, len).len() == len,
    decreases len,
{
    if len > 0 {
        lemma_be_encode_len(n / 256, (len - 1) as nat);
    }
}

/// The powers of 256 grow with the exponent.
pub proof fn lemma_pow256_monotonic(j: nat, k: nat)
    requires
        j <= k,
    ensures
        1 <= pow256(j) <= pow256(k),
    decreases k,
{
    if k > 0 {
        if j < k {
            lemma_pow256_monotonic(j, (k - 1) as nat);
        } else {
            lemma_pow256_monotonic((j - 1) as nat, (k - 1) as nat);
        }
    }
}

/// Encoding the number that bytes stand for, at their length, gives the bytes
/// back.
pub proof fn lemma_be_encode_of_value(bytes: Seq<u8>)
    ensures
        be_encode(be_value(bytes), bytes.len()) == bytes,
    decreases bytes.len(),
{
    if bytes.len() > 0 {
        let front = bytes.drop_last();
        let n = be_value(bytes);
        lemma_be_encode_of_value(front);
        assert(n / 256 == be_value(front));
        assert(n % 256 == bytes.last() as nat);
        assert(be_encode(n, bytes.len()) =~= bytes);
    } else {
        assert(be_encode(be_value(bytes), 0) =~= bytes);
    }
}

/// A number below 256 to the `len` is the number that its `len`-byte encoding
/// stands for.
pub proof fn lemma_be_value_of_encode(n: nat, len: nat)
    requires
        n < pow256(len),
    ensures
        be_value(be_encode(n, len)) == n,
    decreases len,
{
    if len > 0 {
        let front = be_encode(n / 256, (len - 1) as nat);
        lemma_be_value_of_encode(n / 256, (len - 1) as nat);
        assert(be_encode(n, len).drop_last() =~= front);
    }
}

/// An unsigned 256-bit integer.
#[derive(Clone, Copy, Debug, PartialEq, Eq)]
pub struct Uint256 {
    /// The 32 bytes of the number, the most significant first.
    pub be_bytes: [u8; 32],
}

impl View for Uint256 {
    type V = nat;

    open spec fn view(&self) -> nat {
        be_value(self.be_bytes@)
    }
}

/// Calls `alloy_primitives::U256::from_be_bytes` and then `to_string` on the
/// number. It is believed, not proved, that the text is the decimal writing
/// of the number that the 32 bytes stand for.
#[verifier::external_body]
fn decimal_text(be_bytes: &[u8; 32]) -> (text: String)
    ensures
        text@ == decimal_digits(be_value(be_bytes@)),
{
    alloy_primitives::U256::from_be_bytes::<32>(*be_bytes).to_string()
}

impl Uint256 {
    /// The number that 32 big-endian bytes stand for.
    pub fn from_be_bytes(be_bytes: [u8; 32]) -> (n: Uint256)
        ensures
            n.be_bytes == be_bytes,
            n@ == be_value(be_bytes@),
    {
        Uint256 { be_bytes }
    }

    /// The number `x`.
    pub fn from_u64(x: u64) -> (n: Uint256)
        ensures
            n@ == x,
            n.be_bytes@ == be_encode(x as nat, 32),
    {
        let mut be_bytes = [0u8; 32];
        let mut rest: u64 = x;
        let mut i: usize = 0;
        assert(be_encode(rest as nat, 32) + be_bytes@.subrange(32, 32) =~= be_encode(
            x as nat,
            32,
        ));
        while i < 32
            invariant
                i <= 32,
                be_encode(x as nat, 32) == be_encode(rest as nat, (32 - i) as nat)
                    + be_bytes@.subrange(32 - i, 32),
            decreases 32 - i,
        {
            let ghost before = be_bytes@;
            be_bytes[31 - i] = (rest % 256) as u8;
            proof {
                let head = be_encode((rest / 256) as nat, (31 - i) as nat);
                lemma_be_encode_len((rest / 256) as nat, (31 - i) as nat);
                assert(be_encode(rest as nat, (32 - i) as nat) == head.push((rest % 256) as u8));
                assert(be_bytes@.subrange(31 - i, 32) =~= seq![(rest % 256) as u8]
                    + before.subrange(32 - i, 32));
                assert(head.push((rest % 256) as u8) + before.subrange(32 - i, 32) =~= head
                    + be_bytes@.subrange(31 - i, 32));
            }
            rest = rest / 256;
            i = i + 1;
        }
        proof {
            assert(be_encode(rest as nat, 0) + be_bytes@.subrange(0, 32) =~= be_bytes@);
            assert(pow256(8) == 0x1_0000_0000_0000_0000) by {
                reveal_with_fuel(pow256, 9);
            }
            lemma_pow256_monotonic(8, 32);
            lemma_be_value_of_encode(x as nat, 32);
        }
        Uint256 { be_bytes }
    }

    /// The 32 bytes of the number, the most significant first.
    pub fn to_be_bytes(&self) -> (bytes: [u8; 32])
        ensures
            bytes == self.be_bytes,
            bytes@ == be_encode(self@, 32),
    {
        proof {
            lemma_be_encode_of_value(self.be_bytes@);
        }
        self.be_bytes
    }

    /// The number in decimal, without leading zeros.
    pub fn to_decimal(&self) -> (text: String)
        ensures
            text@ == decimal_digits(self@),
    {
        decimal_text(&self.be_bytes)
    }
}

} // verus!
