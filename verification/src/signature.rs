//! Recoverable signatures: 65 bytes `r`, `s`, `v`, written in hex, and the
//! check of a signature against the address that is claimed to have signed.

use std::str::FromStr;
use vstd::prelude::*;
use ethers_core::types::{Address, RecoveryMessage, Signature};
use crate::address::{strip_hex_prefix, EthAddress};
use crate::base16::{bytes_of_hex, digit_value, is_hex, is_hex_digit};
use crate::uint::{be_value, U256};

verus! {

/// A signature over a message: the numbers `r` and `s`, and the recovery id
/// `v`.
#[derive(Clone, Copy, Debug, PartialEq, Eq)]
pub struct RecoverableSignature {
    pub r: U256,
    pub s: U256,
    pub v: u64,
}

/// A signature as plain numbers.
pub struct SignatureView {
    pub r: nat,
    pub s: nat,
    pub v: u64,
}

impl View for RecoverableSignature {
    type V = SignatureView;

    open spec fn view(&self) -> SignatureView {
        SignatureView { r: self.r@, s: self.s@, v: self.v }
    }
}

impl RecoverableSignature {
    /// Whether `v` is a recovery id.
    pub fn has_recovery_id(&self) -> (r: bool)
        ensures
            r == is_recovery_id(self.v),
    {
        self.v == 0 || self.v == 1 || self.v == 27 || self.v == 28 || self.v >= 35
    }
}

/// The digits of a signature's text: what follows one leading `0x` or `0X`,
/// or the whole text where it has neither.
pub open spec fn signature_digits(text: Seq<char>) -> Seq<char> {
    if text.len() >= 2 && text[0] == '0' && (text[1] == 'x' || text[1] == 'X') {
        text.skip(2)
    } else {
        text
    }
}

/// Whether `text` writes a signature: 130 hex digits, for 65 bytes.
pub open spec fn is_signature_text(text: Seq<char>) -> bool {
    signature_digits(text).len() == 130 && is_hex(signature_digits(text))
}

/// The signature that `text` writes: 32 bytes of `r`, 32 bytes of `s`, both
/// big-endian, and one byte of `v`.
pub open spec fn signature_of_text(text: Seq<char>) -> Option<SignatureView> {
    let bytes = bytes_of_hex(signature_digits(text));
    if is_signature_text(text) {
        Some(
            SignatureView {
                r: be_value(bytes.subrange(0, 32)),
                s: be_value(bytes.subrange(32, 64)),
                v: bytes[64] as u64,
            },
        )
    } else {
        None
    }
}

/// A space, a tab, a carriage return or a line feed.
pub open spec fn is_blank(c: char) -> bool {
    c == ' ' || c == '\t' || c == '\r' || c == '\n'
}

/// The test that keeps every character but a blank.
pub open spec fn not_blank() -> spec_fn(char) -> bool {
    |c: char| !is_blank(c)
}

/// The digits of a claimed address: the text without one leading `0x` and
/// without the blanks that stand anywhere after it.
pub open spec fn claimed_digits(text: Seq<char>) -> Seq<char> {
    strip_hex_prefix(text).filter(not_blank())
}

/// The address that `text` claims: forty hex digits, of either case.
pub open spec fn address_of_text(text: Seq<char>) -> Option<Seq<u8>> {
    if claimed_digits(text).len() == 40 && is_hex(claimed_digits(text)) {
        Some(bytes_of_hex(claimed_digits(text)))
    } else {
        None
    }
}

/// Whether `v` is a recovery id: 0 or 1 as they are, 27 or 28 in the older
/// notation, or 35 and above, where the id is carried together with a chain id.
pub open spec fn is_recovery_id(v: u64) -> bool {
    v == 0 || v == 1 || v == 27 || v == 28 || v >= 35
}

/// The address of the key that signed `message`, as
/// `ethers_core::types::Signature::recover` finds it from the message's
/// UTF-8 bytes taken as data: it hashes them as a personal message, that is
/// with Keccak-256 behind the prefix `\x19Ethereum Signed Message:\n` and
/// their number in decimal, and recovers the key from that digest. `None`
/// where it recovers none.
pub uninterp spec fn recovered_signer(message: Seq<char>, r: nat, s: nat, v: u64) -> Option<
    Seq<u8>,
>;

/// Whether the signature text is a signature on `message` by the key of the
/// claimed address. Text that writes no signature or no address verifies
/// nothing, and neither does a signature whose `v` is no recovery id.
pub open spec fn verifies(address: Seq<char>, message: Seq<char>, signature: Seq<char>) -> bool {
    match (signature_of_text(signature), address_of_text(address)) {
        (Some(sig), Some(claimed)) => is_recovery_id(sig.v) && recovered_signer(
            message,
            sig.r,
            sig.s,
            sig.v,
        ) == Some(claimed),
        _ => false,
    }
}

/// Two characters that are one character, or one hex digit in two cases.
pub open spec fn same_digit(a: char, b: char) -> bool {
    a == b || (is_hex_digit(a) && is_hex_digit(b) && digit_value(a) == digit_value(b))
}

/// Two texts that differ at most in the case of their hex digits.
pub open spec fn same_up_to_case(a: Seq<char>, b: Seq<char>) -> bool {
    a.len() == b.len() && forall|i: int| 0 <= i < a.len() ==> same_digit(#[trigger] a[i], b[i])
}

/// Texts that differ in the case of hex digits keep doing so without their
/// blanks.
proof fn lemma_filter_same(a: Seq<char>, b: Seq<char>)
    requires
        same_up_to_case(a, b),
    ensures
        same_up_to_case(a.filter(not_blank()), b.filter(not_blank())),
    decreases a.len(),
{
    reveal(Seq::filter);
    if a.len() > 0 {
        let x = a.drop_last();
        let y = b.drop_last();
        assert forall|i: int| 0 <= i < x.len() implies same_digit(#[trigger] x[i], y[i]) by {
            assert(same_digit(a[i], b[i]));
        }
        lemma_filter_same(x, y);
        assert(same_digit(a[a.len() - 1], b[a.len() - 1]));
        assert(is_blank(a.last()) == is_blank(b.last()));
    }
}

/// The case in which the hex digits of a claimed address are written does
/// not change which address is claimed.
pub proof fn lemma_claimed_any_case(a: Seq<char>, b: Seq<char>)
    requires
        same_up_to_case(a, b),
    ensures
        address_of_text(a) == address_of_text(b),
{
    let x = strip_hex_prefix(a);
    let y = strip_hex_prefix(b);
    if a.len() >= 2 {
        assert(same_digit(a[0], b[0]));
        assert(same_digit(a[1], b[1]));
    }
    assert forall|i: int| 0 <= i < x.len() implies same_digit(#[trigger] x[i], y[i]) by {
        if x.len() == a.len() {
            assert(same_digit(a[i], b[i]));
        } else {
            assert(same_digit(a[i + 2], b[i + 2]));
        }
    }
    lemma_filter_same(x, y);
    let c = claimed_digits(a);
    let d = claimed_digits(b);
    assert(is_hex(c) == is_hex(d)) by {
        if is_hex(c) {
            assert forall|i: int| 0 <= i < d.len() implies is_hex_digit(#[trigger] d[i]) by {
                assert(same_digit(c[i], d[i]));
            }
        }
        if is_hex(d) {
            assert forall|i: int| 0 <= i < c.len() implies is_hex_digit(#[trigger] c[i]) by {
                assert(same_digit(c[i], d[i]));
            }
        }
    }
    if c.len() == 40 && is_hex(c) {
        assert forall|i: int| 0 <= i < 20 implies bytes_of_hex(c)[i] == bytes_of_hex(d)[i] by {
            assert(same_digit(c[2 * i], d[2 * i]));
            assert(same_digit(c[2 * i + 1], d[2 * i + 1]));
        }
        assert(bytes_of_hex(c) =~= bytes_of_hex(d));
    }
}

/// A check gives the same answer for a claimed address in any case of its
/// hex digits.
pub proof fn lemma_verifies_any_case(
    a: Seq<char>,
    b: Seq<char>,
    message: Seq<char>,
    signature: Seq<char>,
)
    requires
        same_up_to_case(a, b),
    ensures
        verifies(a, message, signature) == verifies(b, message, signature),
{
    lemma_claimed_any_case(a, b);
}

/// Text that writes no signature, be it too short, too long or not hex,
/// verifies nothing; nor does text that writes no address, a signature whose
/// `v` is no recovery id, or one from which no signer is recovered.
pub proof fn lemma_malformed_never_verifies(
    address: Seq<char>,
    message: Seq<char>,
    signature: Seq<char>,
)
    ensures
        !is_signature_text(signature) ==> !verifies(address, message, signature),
        address_of_text(address) is None ==> !verifies(address, message, signature),
        signature_of_text(signature) matches Some(sig) && !is_recovery_id(sig.v) ==> !verifies(
            address,
            message,
            signature,
        ),
        signature_of_text(signature) matches Some(sig) && recovered_signer(
            message,
            sig.r,
            sig.s,
            sig.v,
        ) is None ==> !verifies(address, message, signature),
{
}

/// Whether the recovered signer is the claimed one: the same twenty bytes.
/// Where no signer was recovered, nothing matches.
pub fn signer_matches(recovered: Option<EthAddress>, claimed: &EthAddress) -> (r: bool)
    ensures
        r == (recovered matches Some(signer) && signer@ == claimed@),
{
    match recovered {
        Some(signer) => signer.same(claimed),
        None => false,
    }
}

/// Checks that `signature` is a signature on `message` by the key whose
/// address is `eth_address`. The address may be written in either case, with
/// or without `0x`. The message is taken as it is typed: its UTF-8 bytes are
/// hashed as a personal message before the signer is recovered, so it is the
/// text that was signed, not a digest of it. Malformed text and a `v` that
/// is no recovery id are a failed check, not an error.
pub fn verify_ecdsa(eth_address: String, message: String, signature: String) -> (ok: bool)
    ensures
        ok == verifies(eth_address@, message@, signature@),
        ok ==> is_signature_text(signature@),
        ok ==> address_of_text(eth_address@) is Some,
        ok ==> is_recovery_id(signature_of_text(signature@)->Some_0.v),
{
    let parsed = match parse_signature(signature.as_str()) {
        Some(parsed) => parsed,
        None => { return false; },
    };
    let claimed = match parse_address(eth_address.as_str()) {
        Some(claimed) => claimed,
        None => { return false; },
    };
    if !parsed.has_recovery_id() {
        return false;
    }
    signer_matches(recover_signer(&parsed, message.as_str()), &claimed)
}

/// `ethers_core::types::Signature::from_str`. It takes one leading `0x` or
/// `0X` off, reads the rest as hex, wants 65 bytes, and takes the first 32
/// as `r`, the next 32 as `s`, both big-endian, and the last as `v`.
#[verifier::external_body]
fn parse_signature(text: &str) -> (r: Option<RecoverableSignature>)
    ensures
        r matches Some(sig) ==> signature_of_text(text@) == Some(sig@),
        r is None ==> signature_of_text(text@) is None,
{
    let parsed = Signature::from_str(text).ok()?;
    let mut r = [0u8; 32];
    let mut s = [0u8; 32];
    parsed.r.to_big_endian(&mut r);
    parsed.s.to_big_endian(&mut s);
    Some(RecoverableSignature { r: U256 { bytes: r }, s: U256 { bytes: s }, v: parsed.v })
}

/// `ethers_core::types::Address::from_str`. It takes one leading `0x` off,
/// passes over blanks, and wants what is left to be forty hex digits, which
/// it reads as twenty bytes.
#[verifier::external_body]
fn parse_address(text: &str) -> (r: Option<EthAddress>)
    ensures
        r matches Some(address) ==> address_of_text(text@) == Some(address@),
        r is None ==> address_of_text(text@) is None,
{
    Address::from_str(text).ok().map(|address| EthAddress { bytes: address.0 })
}

/// `ethers_core::types::Signature::recover` on the message's UTF-8 bytes as
/// `RecoveryMessage::Data`, which it hashes as a personal message before it
/// recovers. The contract gives the outcome a name and says nothing more of
/// it.
#[verifier::external_body]
fn recover_signer(sig: &RecoverableSignature, message: &str) -> (r: Option<EthAddress>)
    ensures
        r matches Some(signer) ==> recovered_signer(message@, sig.r@, sig.s@, sig.v) == Some(
            signer@,
        ),
        r is None ==> recovered_signer(message@, sig.r@, sig.s@, sig.v) is None,
{
    let r = ethers_core::types::U256::from_big_endian(&sig.r.bytes);
    let s = ethers_core::types::U256::from_big_endian(&sig.s.bytes);
    let message = RecoveryMessage::Data(message.as_bytes().to_vec());
    let signer = Signature { r, s, v: sig.v }.recover(message).ok()?;
    Some(EthAddress { bytes: signer.0 })
}

} // verus!
