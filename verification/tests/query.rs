use ic_eth::abi::{AbiFunction, AbiType, AbiValue, Mutability};
use ic_eth::error::{BridgeError, Rejection};
use ic_eth::outcall::{HttpHeader, HttpMethod, HttpResponse};
use ic_eth::uint::U256;
use ic_eth::{eth_call_request, nft_owner_from_outcome, nft_owner_request};

const CONTRACT: &str = "0x1234567890123456789012345678901234567890";

fn reply(body: &str) -> Result<HttpResponse, Rejection> {
    Ok(HttpResponse { status: 200, headers: vec![], body: body.as_bytes().to_vec() })
}

#[test]
fn owner_of_token_seven_on_sepolia() {
    let request = nft_owner_request("sepolia", CONTRACT, 7).unwrap();
    assert_eq!(request.url, "https://rpc.sepolia.org");
    assert_eq!(request.method, HttpMethod::Post);
    assert_eq!(request.max_response_bytes, Some(2048));
    assert_eq!(
        request.headers,
        vec![
            HttpHeader { name: "Content-Type".to_string(), value: "application/json".to_string() },
            HttpHeader { name: "Host".to_string(), value: "rpc.sepolia.org".to_string() },
        ]
    );
    let payload = "{\"jsonrpc\":\"2.0\",\"method\":\"eth_call\",\"params\":[{\"to\":\
        \"0x1234567890123456789012345678901234567890\",\"data\":\
        \"0x6352211e0000000000000000000000000000000000000000000000000000000000000007\"},\
        \"latest\"],\"id\":1}";
    assert_eq!(request.body, Some(payload.as_bytes().to_vec()));

    let answer = nft_owner_from_outcome(reply(
        "{\"result\":\"0x000000000000000000000000deadbeef00112233445566778899aabbccddeeff\"}",
    ));
    assert_eq!(answer, Ok("deadbeef00112233445566778899aabbccddeeff".to_string()));
}

#[test]
fn owner_request_on_mainnet() {
    let request = nft_owner_request("mainnet", CONTRACT, 0).unwrap();
    assert_eq!(request.url, "https://cloudflare-eth.com");
    assert_eq!(request.headers[1].value, "cloudflare-eth.com");
}

#[test]
fn contract_may_come_without_prefix_and_in_any_case() {
    let with = nft_owner_request("sepolia", "0xABCDEFabcdef0123456789ABCDEFabcdef012345", 1);
    let without = nft_owner_request("sepolia", "abcdefABCDEF0123456789abcdefABCDEF012345", 1);
    assert!(with.is_ok());
    assert_eq!(with, without);
}

#[test]
fn prefix_on_the_network_name_makes_it_unknown() {
    assert_eq!(nft_owner_request("0xsepolia", CONTRACT, 7), Err(BridgeError::UnknownNetwork));
    assert_eq!(nft_owner_request("0xmainnet", CONTRACT, 7), Err(BridgeError::UnknownNetwork));
}

#[test]
fn largest_token_id_is_encoded() {
    let request = nft_owner_request("sepolia", CONTRACT, usize::MAX).unwrap();
    let body = String::from_utf8(request.body.unwrap()).unwrap();
    let expected = format!("\"data\":\"0x6352211e{:064x}\"", usize::MAX);
    assert!(body.contains(&expected));
}

#[test]
fn unknown_network_gives_no_request() {
    assert_eq!(nft_owner_request("goerli", CONTRACT, 7), Err(BridgeError::UnknownNetwork));
}

#[test]
fn unknown_network_comes_before_a_bad_address() {
    assert_eq!(nft_owner_request("goerli", "nonsense", 7), Err(BridgeError::UnknownNetwork));
}

#[test]
fn malformed_contract_address_is_an_input_error() {
    for bad in ["", "0x", "0x1234", "0x123456789012345678901234567890123456789g", "0x0x1234567890123456789012345678901234567890"] {
        assert_eq!(nft_owner_request("sepolia", bad, 7), Err(BridgeError::Input));
    }
}

#[test]
fn arguments_that_do_not_fit_are_an_encoding_error() {
    let f = AbiFunction {
        name: "small".to_string(),
        inputs: vec![AbiType::Uint(8)],
        outputs: vec![],
        mutability: Mutability::View,
    };
    let args = vec![AbiValue::Uint(U256::from_u64(256))];
    assert_eq!(eth_call_request("sepolia", CONTRACT, &f, &args), Err(BridgeError::Encoding));
}

#[test]
fn input_error_comes_before_encoding_error() {
    let f = AbiFunction {
        name: "small".to_string(),
        inputs: vec![AbiType::Uint(8)],
        outputs: vec![],
        mutability: Mutability::View,
    };
    let args = vec![AbiValue::Uint(U256::from_u64(256))];
    assert_eq!(eth_call_request("sepolia", "bad", &f, &args), Err(BridgeError::Input));
}

#[test]
fn any_function_can_be_called() {
    let f = AbiFunction {
        name: "balanceOf".to_string(),
        inputs: vec![AbiType::Address],
        outputs: vec![AbiType::Uint(256)],
        mutability: Mutability::View,
    };
    let owner = ic_eth::EthAddress { bytes: [0xaa; 20] };
    let request = eth_call_request("mainnet", CONTRACT, &f, &vec![AbiValue::Address(owner)]).unwrap();
    let body = String::from_utf8(request.body.unwrap()).unwrap();
    assert!(body.contains(
        "\"data\":\"0x70a08231000000000000000000000000aaaaaaaaaaaaaaaaaaaaaaaaaaaaaaaaaaaaaaaa\""
    ));
}

#[test]
fn rejected_call_is_an_outcall_error() {
    let rejection = Rejection { code: 2, message: "timeout".to_string() };
    assert_eq!(
        nft_owner_from_outcome(Err(rejection.clone())),
        Err(BridgeError::Outcall(rejection))
    );
}

#[test]
fn reply_that_is_not_json_is_malformed() {
    assert_eq!(nft_owner_from_outcome(reply("<html></html>")), Err(BridgeError::MalformedJson));
}

#[test]
fn reply_with_an_error_member_is_malformed() {
    assert_eq!(
        nft_owner_from_outcome(reply("{\"error\":{\"code\":3,\"message\":\"execution reverted\"}}")),
        Err(BridgeError::MalformedJson)
    );
}

#[test]
fn status_is_not_looked_at() {
    let outcome = Ok(HttpResponse {
        status: 500,
        headers: vec![],
        body: b"{\"result\":\"0x0000000000000000000000000000000000000000000000000000000000000001\"}".to_vec(),
    });
    assert_eq!(
        nft_owner_from_outcome(outcome),
        Ok("0000000000000000000000000000000000000001".to_string())
    );
}
