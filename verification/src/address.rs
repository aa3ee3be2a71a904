//! Ethereum addresses: twenty bytes, written as forty hex digits.

use vstd::prelude::*;
use crate::base16::{bytes_of_hex, decode, encode_lower, hex_of_bytes, is_hex};
use crate::text::chars_of;

verus! {

/// Whether `s` begins with the two characters `0x`.
pub open spec fn has_hex_prefix(s: Seq<char>) -> bool {
    s.len() >= 2 && s[0] == '0' && s[1] == 'x'
}

/// `s` without one leading `0x`, or `s` itself where it has none.
pub open spec fn strip_hex_prefix(s: Seq<char>) -> Seq<char> {
    if has_hex_prefix(s) {
        s.skip(2)
    } else {
        s
    }
}

/// Removes one leading `0x` from a hex string; a string without the prefix
/// comes back unchanged. The digits themselves are not looked at.
pub fn preprocess_address<'a>(address: &'a str) -> (r: &'a str)
    ensures
        r@ == strip_hex_prefix(address@),
{
    let n = address.unicode_len();
    if n >= 2 && address.get_char(0) == '0' && address.get_char(1) == 'x' {
        address.substring_char(2, n)
    } else {
        address
    }
}

/// Whether `s` begins with the four characters `0x0x`.
pub open spec fn has_double_prefix(s: Seq<char>) -> bool {
    s.len() >= 4 && s[0] == '0' && s[1] == 'x' && s[2] == '0' && s[3] == 'x'
}

/// Stripping the prefix a second time changes nothing, except on a text that
/// begins with `0x0x`, which loses its second prefix then.
pub proof fn lemma_strip_twice(s: Seq<char>)
    ensures
        !has_double_prefix(s) ==> strip_hex_prefix(strip_hex_prefix(s)) == strip_hex_prefix(s),
        has_double_prefix(s) ==> strip_hex_prefix(strip_hex_prefix(s)) == s.skip(4),
        has_double_prefix(s) ==> strip_hex_prefix(strip_hex_prefix(s)) != strip_hex_prefix(s),
{
    if has_double_prefix(s) {
        assert(s.skip(2).skip(2) =~= s.skip(4));
        assert(s.skip(4).len() != s.skip(2).len());
    }
}

/// An account or contract address.
#[derive(Clone, Copy, Debug, PartialEq, Eq)]
pub struct EthAddress {
    pub bytes: [u8; 20],
}

impl View for EthAddress {
    type V = Seq<u8>;

    open spec fn view(&self) -> Seq<u8> {
        self.bytes@
    }
}

impl EthAddress {
    /// Reads an address from exactly forty hex digits, of either case.
    pub fn from_hex(digits: &str) -> (r: Option<EthAddress>)
        ensures
            r is Some <==> digits@.len() == 40 && is_hex(digits@),
            r matches Some(a) ==> a@ == bytes_of_hex(digits@),
    {
        let chars = chars_of(digits);
        if chars.len() != 40 {
            return None;
        }
        match decode(chars.as_slice()) {
            None => None,
            Some(decoded) => {
                let mut bytes = [0u8; 20];
                let mut i: usize = 0;
                while i < 20
                    invariant
                        decoded@.len() == 20,
                        i <= 20,
                        forall|k: int| 0 <= k < i ==> bytes@[k] == decoded@[k],
                    decreases 20 - i,
                {
                    bytes[i] = decoded[i];
                    i = i + 1;
                }
                assert(bytes@ =~= decoded@);
                Some(EthAddress { bytes })
            },
        }
    }

    /// The address as forty lower-case hex digits, without a prefix.
    pub fn to_hex(&self) -> (r: String)
        ensures
            r@ == hex_of_bytes(self@),
    {
        encode_lower(self.bytes.as_slice())
    }

    /// Whether two addresses hold the same twenty bytes.
    pub fn same(&self, other: &EthAddress) -> (r: bool)
        ensures
            r == (self@ == other@),
    {
        let mut i: usize = 0;
        while i < 20
            invariant
                i <= 20,
                forall|k: int| 0 <= k < i ==> self.bytes@[k] == other.bytes@[k],
            decreases 20 - i,
        {
            if self.bytes[i] != other.bytes[i] {
                return false;
            }
            i = i + 1;
        }
        assert(self@ =~= other@);
        true
    }
}

} // verus!
