use ic_eth::address::EthAddress;
use ic_eth::error::BridgeError;
use ic_eth::rpc::{address_of_result, decode_address_reply, eth_call_payload, reply_result};

const WORD: &str = "0x000000000000000000000000deadbeefdeadbeefdeadbeefdeadbeefdeadbeef";

#[test]
fn payload_is_the_envelope_without_spaces() {
    let to = EthAddress { bytes: [0x12; 20] };
    let payload = eth_call_payload(&to, &[0x63, 0x52, 0x21, 0x1e, 0x00, 0xAB]);
    assert_eq!(
        payload,
        "{\"jsonrpc\":\"2.0\",\"method\":\"eth_call\",\"params\":[{\"to\":\
         \"0x1212121212121212121212121212121212121212\",\"data\":\"0x6352211e00ab\"},\
         \"latest\"],\"id\":1}"
    );
}

#[test]
fn payload_is_the_same_for_the_same_arguments() {
    let to = EthAddress { bytes: [0xfe; 20] };
    assert_eq!(eth_call_payload(&to, &[1, 2, 3]), eth_call_payload(&to, &[1, 2, 3]));
}

#[test]
fn payload_is_json_that_says_what_was_asked() {
    let to = EthAddress { bytes: [0xab; 20] };
    let payload = eth_call_payload(&to, &[]);
    let value: serde_json::Value = serde_json::from_str(&payload).unwrap();
    assert_eq!(value["jsonrpc"], "2.0");
    assert_eq!(value["method"], "eth_call");
    assert_eq!(value["id"], 1);
    assert_eq!(value["params"][0]["to"], "0xabababababababababababababababababababab");
    assert_eq!(value["params"][0]["data"], "0x");
    assert_eq!(value["params"][1], "latest");
}

#[test]
fn address_is_the_end_of_the_word() {
    assert_eq!(
        address_of_result(WORD),
        Ok("deadbeefdeadbeefdeadbeefdeadbeefdeadbeef".to_string())
    );
}

#[test]
fn address_keeps_the_case_of_its_digits() {
    let word = "0x000000000000000000000000AbCdEf0123456789aBcDeF0123456789AbCdEf01";
    assert_eq!(address_of_result(word), Ok("AbCdEf0123456789aBcDeF0123456789AbCdEf01".to_string()));
}

#[test]
fn padding_is_not_looked_at() {
    let word = "0xffffffffffffffffffffffff00112233445566778899aabbccddeeff01234567";
    assert_eq!(address_of_result(word), Ok("00112233445566778899aabbccddeeff01234567".to_string()));
}

#[test]
fn address_comes_from_the_first_word() {
    let two = format!("{}{}", WORD, "11".repeat(32));
    assert_eq!(
        address_of_result(&two),
        Ok("deadbeefdeadbeefdeadbeefdeadbeefdeadbeef".to_string())
    );
}

#[test]
fn result_must_be_whole_words_in_hex_with_prefix() {
    let no_prefix = &WORD[2..];
    let short = &WORD[..64];
    let long = format!("{}00", WORD);
    let not_hex = WORD.replace("dead", "dear");
    let upper_prefix = WORD.replace("0x", "0X");
    for bad in ["", "0x", no_prefix, short, &long, &not_hex, &upper_prefix] {
        assert_eq!(address_of_result(bad), Err(BridgeError::MalformedJson));
    }
}

#[test]
fn result_is_read_from_the_reply() {
    let body = format!("{{\"jsonrpc\":\"2.0\",\"id\":1,\"result\":\"{}\"}}", WORD);
    assert_eq!(reply_result(body.as_bytes()), Ok(WORD.to_string()));
}

#[test]
fn result_may_hold_escapes() {
    let body = "{\"result\":\"a\\u0062\\n\"}";
    assert_eq!(reply_result(body.as_bytes()), Ok("ab\n".to_string()));
}

#[test]
fn reply_without_a_result_is_malformed() {
    let replies: [&[u8]; 8] = [
        b"",
        b"not json",
        b"{\"jsonrpc\":\"2.0\",\"id\":1,\"error\":{\"code\":-32000,\"message\":\"reverted\"}}",
        b"{\"result\":null}",
        b"{\"result\":7}",
        b"[\"result\"]",
        b"\"result\"",
        b"{\"result\":\"0x00\"} trailing",
    ];
    for body in replies {
        assert_eq!(reply_result(body), Err(BridgeError::MalformedJson));
    }
}

#[test]
fn reply_that_is_not_utf8_is_malformed() {
    let mut body = b"{\"result\":\"".to_vec();
    body.push(0xff);
    body.extend_from_slice(b"\"}");
    assert_eq!(reply_result(&body), Err(BridgeError::MalformedJson));
    assert_eq!(decode_address_reply(&body), Err(BridgeError::MalformedJson));
}

#[test]
fn reply_decodes_to_the_address() {
    let body = format!("{{\"result\":\"{}\"}}", WORD);
    assert_eq!(
        decode_address_reply(body.as_bytes()),
        Ok("deadbeefdeadbeefdeadbeefdeadbeefdeadbeef".to_string())
    );
}

#[test]
fn reply_with_a_result_that_is_no_word_is_malformed() {
    assert_eq!(decode_address_reply(b"{\"result\":\"0x\"}"), Err(BridgeError::MalformedJson));
    assert_eq!(decode_address_reply(b"{\"result\":\"hello\"}"), Err(BridgeError::MalformedJson));
}
