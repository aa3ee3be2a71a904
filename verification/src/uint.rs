//! Unsigned integers of 256 bits, kept as thirty-two big-endian bytes.

use vstd::prelude::*;
use vstd::arithmetic::div_mod::{lemma_div_denominator, lemma_fundamental_div_mod};
use vstd::arithmetic::power2::{lemma2_to64, lemma_pow2_adds, lemma_pow2_pos, pow2};
use vstd::bits::lemma_u64_shr_is_div;

verus! {

/// The number that big-endian bytes spell.
pub open spec fn be_value(bytes: Seq<u8>) -> nat
    decreases bytes.len(),
{
    if bytes.len() == 0 {
        0
    } else {
        256 * be_value(bytes.drop_last()) + bytes.last() as nat
    }
}

/// The `len` big-endian bytes of a number, its higher part dropped where it
/// needs more.
pub open spec fn be_bytes(value: nat, len: nat) -> Seq<u8>
    decreases len,
{
    if len == 0 {
        Seq::empty()
    } else {
        be_bytes(value / 256, (len - 1) as nat).push((value % 256) as u8)
    }
}

/// The widths that an unsigned integer type can be declared with.
pub open spec fn is_uint_width(bits: usize) -> bool {
    8 <= bits <= 256 && bits % 8 == 0
}

/// Bytes that are all zero spell zero, and nothing else does.
pub proof fn lemma_be_value_zero(bytes: Seq<u8>)
    ensures
        be_value(bytes) == 0 <==> (forall|i: int| 0 <= i < bytes.len() ==> bytes[i] == 0),
    decreases bytes.len(),
{
    if bytes.len() > 0 {
        let front = bytes.drop_last();
        lemma_be_value_zero(front);
        if be_value(bytes) == 0 {
            assert forall|i: int| 0 <= i < bytes.len() implies bytes[i] == 0 by {
                if i < bytes.len() - 1 {
                    assert(front[i] == bytes[i]);
                }
            }
        } else if bytes.last() == 0 {
            let i = choose|i: int| 0 <= i < front.len() && front[i] != 0;
            assert(bytes[i] == front[i]);
        }
    }
}

/// Bytes are the big-endian bytes of the number they spell.
pub proof fn lemma_be_bytes_of_value(bytes: Seq<u8>)
    ensures
        be_bytes(be_value(bytes), bytes.len()) == bytes,
    decreases bytes.len(),
{
    if bytes.len() > 0 {
        let front = bytes.drop_last();
        lemma_be_bytes_of_value(front);
        assert((256 * be_value(front) + bytes.last() as nat) / 256 == be_value(front));
        assert((256 * be_value(front) + bytes.last() as nat) % 256 == bytes.last() as nat);
        assert(front.push(bytes.last()) =~= bytes);
    } else {
        assert(be_bytes(0, 0) =~= bytes);
    }
}

/// The big-endian bytes of a number have the length asked for.
pub proof fn lemma_be_bytes_len(value: nat, len: nat)
    ensures
        be_bytes(value, len).len() == len,
    decreases len,
{
    if len > 0 {
        lemma_be_bytes_len(value / 256, (len - 1) as nat);
    }
}

/// A number below 256 is its own last byte, behind zero bytes.
pub proof fn lemma_be_bytes_small(value: nat, len: nat)
    requires
        value < 256,
        len > 0,
    ensures
        be_bytes(value, len) == Seq::new((len - 1) as nat, |i: int| 0u8).push(value as u8),
{
    lemma_be_bytes_zero((len - 1) as nat);
}

/// Zero is written with zero bytes only.
pub proof fn lemma_be_bytes_zero(len: nat)
    ensures
        be_bytes(0, len) == Seq::new(len, |i: int| 0u8),
    decreases len,
{
    if len > 0 {
        lemma_be_bytes_zero((len - 1) as nat);
    }
    assert(be_bytes(0, len) =~= Seq::new(len, |i: int| 0u8));
}

/// A number is below `2^(8 * k)` exactly when all but its last `k` bytes are
/// zero.
pub proof fn lemma_be_value_bound(bytes: Seq<u8>, k: nat)
    requires
        k <= bytes.len(),
    ensures
        be_value(bytes) < pow2(8 * k) <==> (forall|i: int|
            0 <= i < bytes.len() - k ==> bytes[i] == 0),
    decreases bytes.len(),
{
    lemma2_to64();
    if k == 0 {
        lemma_be_value_zero(bytes);
    } else {
        let front = bytes.drop_last();
        lemma_be_value_bound(front, (k - 1) as nat);
        lemma_pow2_adds(8, (8 * (k - 1)) as nat);
        assert(pow2(8 * k) == 256 * pow2((8 * (k - 1)) as nat));
        assert forall|i: int| 0 <= i < front.len() - (k - 1) implies front[i] == bytes[i] by {}
        if forall|i: int| 0 <= i < bytes.len() - k ==> bytes[i] == 0 {
            assert forall|i: int| 0 <= i < front.len() - (k - 1) implies front[i] == 0 by {
                assert(bytes[i] == 0);
            }
        }
    }
}

/// An unsigned integer below `2^256`.
#[derive(Clone, Copy, Debug, PartialEq, Eq)]
pub struct U256 {
    /// The number's bytes, the most significant first.
    pub bytes: [u8; 32],
}

impl View for U256 {
    type V = nat;

    open spec fn view(&self) -> nat {
        be_value(self.bytes@)
    }
}

impl U256 {
    /// The 256-bit integer equal to `v`.
    pub fn from_u64(v: u64) -> (r: U256)
        ensures
            r@ == v,
    {
        let mut bytes = [0u8; 32];
        let mut i: usize = 24;
        let mut left: u32 = 64;
        proof {
            lemma2_to64();
            lemma_be_value_zero(bytes@.take(24));
        }
        while i < 32
            invariant
                24 <= i <= 32,
                left == 8 * (32 - i),
                be_value(bytes@.take(i as int)) == (v as nat) / pow2(left as nat),
            decreases 32 - i,
        {
            let shift: u32 = left - 8;
            let digit: u8 = #[verifier::truncate] (((v >> shift) & 0xff) as u8);
            let ghost before = bytes@;
            bytes[i] = digit;
            proof {
                let whole = (v as nat) / pow2(shift as nat);
                lemma2_to64();
                lemma_pow2_pos(shift as nat);
                lemma_u64_shr_is_div(v, shift as u64);
                let shifted = v >> shift;
                assert(shifted & 0xff == shifted % 256) by (bit_vector);
                assert(digit == whole % 256);
                lemma_pow2_adds(shift as nat, 8);
                lemma_div_denominator(v as int, pow2(shift as nat) as int, 256);
                assert((v as nat) / pow2(left as nat) == whole / 256);
                lemma_fundamental_div_mod(whole as int, 256);
                assert(bytes@.take(i + 1).drop_last() =~= before.take(i as int));
                assert(bytes@.take(i + 1).last() == digit);
            }
            i = i + 1;
            left = shift;
        }
        proof {
            lemma2_to64();
            assert(bytes@.take(32) =~= bytes@);
            assert(pow2(0) == 1);
            assert((v as nat) / 1 == v as nat);
        }
        U256 { bytes }
    }

    /// Whether the number can be held in an unsigned integer type of `bits`
    /// bits; no number can where `bits` is no width of such a type.
    pub fn fits(&self, bits: usize) -> (r: bool)
        ensures
            r == (is_uint_width(bits) && self@ < pow2(bits as nat)),
    {
        if bits < 8 || bits > 256 || bits % 8 != 0 {
            return false;
        }
        let spare: usize = 32 - bits / 8;
        proof {
            lemma_be_value_bound(self.bytes@, (bits / 8) as nat);
            assert(8 * ((bits / 8) as nat) == bits as nat);
        }
        let mut i: usize = 0;
        while i < spare
            invariant
                i <= spare <= 32,
                spare == 32 - bits / 8,
                is_uint_width(bits),
                self@ < pow2(bits as nat) <==> (forall|k: int|
                    0 <= k < spare ==> self.bytes@[k] == 0),
                forall|k: int| 0 <= k < i ==> self.bytes@[k] == 0,
            decreases spare - i,
        {
            if self.bytes[i] != 0 {
                return false;
            }
            i = i + 1;
        }
        true
    }
}

} // verus!
