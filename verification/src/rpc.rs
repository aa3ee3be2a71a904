//! The JSON-RPC envelope of an `eth_call`, and the reply to it.

use vstd::prelude::*;
use vstd::string::StringSliceAdditionalSpecFns;
use vstd::utf8::{decode_utf8, encode_utf8_decode_utf8, valid_utf8};
use crate::address::{has_hex_prefix, EthAddress};
use crate::base16::{
    bytes_of_hex, encode_lower, hex_digit, hex_of_bytes, is_hex, is_hex_digit,
    lemma_hex_round_trip,
};
use crate::error::BridgeError;
use crate::text::chars_of;

verus! {

/// The request body: JSON-RPC 2.0, method `eth_call`, the call's target and
/// data as `0x` hex text, the block tag `latest` and the id 1, with no space
/// between the parts.
pub open spec fn payload_text(to: Seq<u8>, data: Seq<u8>) -> Seq<char> {
    "{\"jsonrpc\":\"2.0\",\"method\":\"eth_call\",\"params\":[{\"to\":\"0x"@ + hex_of_bytes(to)
        + "\",\"data\":\"0x"@ + hex_of_bytes(data) + "\"},\"latest\"],\"id\":1}"@
}

/// Builds the request body of a call to the contract at `to` with the call
/// data `data`. The same arguments give the same text, character for
/// character.
pub fn eth_call_payload(to: &EthAddress, data: &[u8]) -> (r: String)
    ensures
        r@ == payload_text(to@, data@),
{
    let mut payload = String::from_str(
        "{\"jsonrpc\":\"2.0\",\"method\":\"eth_call\",\"params\":[{\"to\":\"0x",
    );
    payload.append(to.to_hex().as_str());
    payload.append("\",\"data\":\"0x");
    payload.append(encode_lower(data).as_str());
    payload.append("\"},\"latest\"],\"id\":1}");
    payload
}

/// Whether `result` is `0x` followed by the hex text of one or more 32-byte
/// words.
pub open spec fn is_word_text(result: Seq<char>) -> bool {
    &&& has_hex_prefix(result)
    &&& result.len() >= 66
    &&& (result.len() - 2) % 64 == 0
    &&& is_hex(result.skip(2))
}

/// The address that a returned word holds: its last twenty bytes, as the
/// forty hex digits that the text has for them.
pub open spec fn address_digits(result: Seq<char>) -> Seq<char>
    recommends
        is_word_text(result),
{
    result.subrange(26, 66)
}

/// The digits that are read out of a returned word are forty hex digits, and
/// they spell bytes 12 to 31 of the first word: the last twenty.
pub proof fn lemma_address_is_end_of_word(result: Seq<char>)
    requires
        is_word_text(result),
    ensures
        address_digits(result).len() == 40,
        is_hex(address_digits(result)),
        bytes_of_hex(address_digits(result)) == bytes_of_hex(result.skip(2)).subrange(12, 32),
{
    let digits = result.skip(2);
    let address = address_digits(result);
    assert forall|i: int| 0 <= i < address.len() implies is_hex_digit(#[trigger] address[i]) by {
        assert(address[i] == digits[i + 24]);
    }
    assert(bytes_of_hex(address) =~= bytes_of_hex(digits).subrange(12, 32));
}

/// A word that holds an address behind twelve bytes of padding decodes to
/// that address, whatever the twenty bytes are.
pub proof fn lemma_padded_address_decodes(padding: Seq<u8>, address: Seq<u8>)
    requires
        padding.len() == 12,
        address.len() == 20,
    ensures
        is_word_text("0x"@ + hex_of_bytes(padding + address)),
        address_digits("0x"@ + hex_of_bytes(padding + address)) == hex_of_bytes(address),
        bytes_of_hex(address_digits("0x"@ + hex_of_bytes(padding + address))) == address,
{
    reveal_strlit("0x");
    let word = padding + address;
    let result = "0x"@ + hex_of_bytes(word);
    lemma_hex_round_trip(word);
    lemma_hex_round_trip(address);
    assert(result.skip(2) =~= hex_of_bytes(word));
    assert(address_digits(result) =~= hex_of_bytes(address)) by {
        assert forall|i: int| 0 <= i < 40 implies address_digits(result)[i] == hex_of_bytes(
            address,
        )[i] by {
            assert((i + 24) / 2 == i / 2 + 12);
            assert((i + 24) % 2 == i % 2);
            assert(word[(i + 24) / 2] == address[i / 2]);
        }
    }
}

/// Reads the address out of the `result` text of a reply: the last forty
/// digits of the first word, as they stand. Fails with `MalformedJson` where
/// the text is not `0x` and whole 32-byte words in hex.
pub fn address_of_result(result: &str) -> (r: Result<String, BridgeError>)
    ensures
        is_word_text(result@) ==> r is Ok && r->Ok_0@ == address_digits(result@),
        !is_word_text(result@) ==> r == Err::<String, BridgeError>(BridgeError::MalformedJson),
{
    let chars = chars_of(result);
    let n = chars.len();
    if n < 66 || (n - 2) % 64 != 0 || chars[0] != '0' || chars[1] != 'x' {
        return Err(BridgeError::MalformedJson);
    }
    let mut i: usize = 2;
    while i < n
        invariant
            chars@ == result@,
            n == chars@.len(),
            2 <= i <= n,
            forall|k: int| 2 <= k < i ==> is_hex_digit(#[trigger] chars@[k]),
        decreases n - i,
    {
        if hex_digit(chars[i]).is_none() {
            assert(!is_hex_digit(result@.skip(2)[i - 2]));
            return Err(BridgeError::MalformedJson);
        }
        i = i + 1;
    }
    assert forall|k: int| 0 <= k < result@.skip(2).len() implies is_hex_digit(
        #[trigger] result@.skip(2)[k],
    ) by {
        assert(is_hex_digit(chars@[k + 2]));
    }
    Ok(result.substring_char(26, 66).to_owned())
}

/// The text of the member `key` where `text` is JSON for an object that has
/// that member with a string for its value, as `serde_json` reads it; `None`
/// for every other text.
pub uninterp spec fn json_string_member(text: Seq<char>, key: Seq<char>) -> Option<Seq<char>>;

/// The `result` text that a reply carries, if it is UTF-8 and JSON and has
/// one.
pub open spec fn result_of_reply(body: Seq<u8>) -> Option<Seq<char>> {
    if valid_utf8(body) {
        json_string_member(decode_utf8(body), "result"@)
    } else {
        None
    }
}

/// What a reply says the returned address is.
pub open spec fn address_of_reply(body: Seq<u8>) -> Result<Seq<char>, BridgeError> {
    match result_of_reply(body) {
        Some(result) if is_word_text(result) => Ok(address_digits(result)),
        _ => Err(BridgeError::MalformedJson),
    }
}

/// Reads the `result` text of a reply. Fails with `MalformedJson` where the
/// body is not UTF-8, not JSON, or has no `result` that is a string.
pub fn reply_result(body: &[u8]) -> (r: Result<String, BridgeError>)
    ensures
        match result_of_reply(body@) {
            Some(result) => r is Ok && r->Ok_0@ == result,
            None => r == Err::<String, BridgeError>(BridgeError::MalformedJson),
        },
{
    match utf8_text(body) {
        None => Err(BridgeError::MalformedJson),
        Some(text) => {
            proof {
                encode_utf8_decode_utf8(text@);
            }
            match string_member(text, "result") {
                None => Err(BridgeError::MalformedJson),
                Some(result) => Ok(result),
            }
        },
    }
}

/// Decodes a reply to an `eth_call` that returns one address: the last forty
/// hex digits of the first word of `result`.
pub fn decode_address_reply(body: &[u8]) -> (r: Result<String, BridgeError>)
    ensures
        match address_of_reply(body@) {
            Ok(address) => r is Ok && r->Ok_0@ == address,
            Err(e) => r == Err::<String, BridgeError>(e),
        },
{
    match reply_result(body) {
        Err(e) => Err(e),
        Ok(result) => address_of_result(result.as_str()),
    }
}

/// `std::str::from_utf8`: the text whose UTF-8 encoding `bytes` is, and
/// `None` exactly where `bytes` is no UTF-8.
#[verifier::external_body]
fn utf8_text(bytes: &[u8]) -> (r: Option<&str>)
    ensures
        r is Some <==> valid_utf8(bytes@),
        r matches Some(text) ==> text.spec_bytes() == bytes@,
{
    std::str::from_utf8(bytes).ok()
}

/// `serde_json::from_str` to a `serde_json::Value`, then `Value::get` with
/// `key` and `Value::as_str` on what it finds. The contract gives the outcome
/// a name and says nothing more of it.
#[verifier::external_body]
fn string_member(text: &str, key: &str) -> (r: Option<String>)
    ensures
        r matches Some(member) ==> json_string_member(text@, key@) == Some(member@),
        r is None ==> json_string_member(text@, key@) is None,
{
    let value: serde_json::Value = serde_json::from_str(text).ok()?;
    value.get(key)?.as_str().map(|member| member.to_owned())
}

} // verus!
