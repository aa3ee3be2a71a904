//! A read-only contract query from end to end: the request that asks, and
//! the answer read from what the host brings back.

use vstd::prelude::*;
use vstd::arithmetic::power2::{lemma2_to64, lemma_pow2_strictly_increases};
use crate::abi::{
    args_fit, call_data, short_signature, values_of, words_of, zeros, AbiFunction, AbiType,
    AbiValue, AbiValueView,
};
use crate::address::{preprocess_address, strip_hex_prefix, EthAddress};
use crate::base16::{bytes_of_hex, is_hex};
use crate::error::{BridgeError, Rejection};
use crate::outcall::{
    endpoint_of, network_of_name, post_request, post_to, HttpRequest, HttpResponse, Network,
    RequestView, MAX_RESPONSE_BYTES,
};
use crate::rpc::{address_of_reply, decode_address_reply, eth_call_payload, payload_text};
use crate::uint::{be_bytes, lemma_be_bytes_len, lemma_be_bytes_small, U256};

verus! {

/// The request for a call of the function `name` of the contract at
/// `contract` on `network`, or why there is none. The network is looked up by
/// its name as given; a leading `0x` is ignored on the address only. The
/// network is looked up first, then the address is read, then the arguments
/// are held against the parameters.
pub open spec fn call_request(
    network: Seq<char>,
    contract: Seq<char>,
    name: Seq<char>,
    inputs: Seq<AbiType>,
    args: Seq<AbiValueView>,
) -> Result<RequestView, BridgeError> {
    let digits = strip_hex_prefix(contract);
    match network_of_name(network) {
        None => Err(BridgeError::UnknownNetwork),
        Some(known) => if !(digits.len() == 40 && is_hex(digits)) {
            Err(BridgeError::Input)
        } else if !args_fit(inputs, args) {
            Err(BridgeError::Encoding)
        } else {
            post_to(
                endpoint_of(known),
                payload_text(bytes_of_hex(digits), call_data(name, inputs, args)),
                MAX_RESPONSE_BYTES,
            )
        },
    }
}

/// The request that asks the token contract at `contract` for the owner of
/// the token `token_id`.
pub open spec fn owner_request(network: Seq<char>, contract: Seq<char>, token_id: usize) -> Result<
    RequestView,
    BridgeError,
> {
    call_request(
        network,
        contract,
        "ownerOf"@,
        seq![AbiType::Uint(256)],
        seq![AbiValueView::Uint(token_id as nat)],
    )
}

/// The call data of an owner query is the selector of `ownerOf(uint256)`
/// and the token id in 32 big-endian bytes; a token id below 256 is one byte
/// behind 31 zero bytes.
pub proof fn lemma_owner_call_data(token_id: usize)
    ensures
        call_data("ownerOf"@, seq![AbiType::Uint(256)], seq![AbiValueView::Uint(token_id as nat)])
            == short_signature("ownerOf"@, seq![AbiType::Uint(256)]) + be_bytes(
            token_id as nat,
            32,
        ),
        be_bytes(token_id as nat, 32).len() == 32,
        token_id < 256 ==> be_bytes(token_id as nat, 32) == zeros(31).push(token_id as u8),
{
    if token_id < 256 {
        lemma_be_bytes_small(token_id as nat, 32);
    }
    let args = seq![AbiValueView::Uint(token_id as nat)];
    assert(args.drop_last() =~= Seq::<AbiValueView>::empty());
    assert(words_of(args.drop_last()) =~= Seq::<u8>::empty());
    assert(words_of(args) =~= be_bytes(token_id as nat, 32));
    lemma_be_bytes_len(token_id as nat, 32);
}

/// What a query for an address ends in, given how the outbound call ended:
/// the host's rejection as it came, or what the reply's body decodes to.
pub open spec fn owner_answer(outcome: Result<HttpResponse, Rejection>) -> Result<
    Seq<char>,
    BridgeError,
> {
    match outcome {
        Err(rejection) => Err(BridgeError::Outcall(rejection)),
        Ok(response) => address_of_reply(response.body@),
    }
}

/// Builds the request for a call of `function` with `args` on the contract
/// at `contract`. Fails with `UnknownNetwork` for a name outside the endpoint
/// table, whatever the other arguments are; with `Input` where the address is
/// not forty hex digits; with `Encoding` where the arguments do not fit; with
/// `Endpoint` where the endpoint has no host. No request exists on failure.
pub fn eth_call_request(
    network: &str,
    contract: &str,
    function: &AbiFunction,
    args: &Vec<AbiValue>,
) -> (r: Result<HttpRequest, BridgeError>)
    ensures
        match call_request(network@, contract@, function.name@, function.inputs@, values_of(args@)) {
            Ok(request) => r is Ok && r->Ok_0@ == request,
            Err(e) => r == Err::<HttpRequest, BridgeError>(e),
        },
        network_of_name(network@) is None ==> r == Err::<HttpRequest, BridgeError>(
            BridgeError::UnknownNetwork,
        ),
{
    let known = match Network::from_name(network) {
        Some(known) => known,
        None => { return Err(BridgeError::UnknownNetwork); },
    };
    let to = match EthAddress::from_hex(preprocess_address(contract)) {
        Some(to) => to,
        None => { return Err(BridgeError::Input); },
    };
    let data = match function.encode_call(args) {
        Ok(data) => data,
        Err(e) => { return Err(e); },
    };
    let payload = eth_call_payload(&to, data.as_slice());
    post_request(known, payload.as_str(), MAX_RESPONSE_BYTES)
}

/// Builds the request that asks for the owner of a token. The token id is
/// passed as a `uint256`, which holds every `usize`.
pub fn nft_owner_request(network: &str, contract: &str, token_id: usize) -> (r: Result<
    HttpRequest,
    BridgeError,
>)
    ensures
        match owner_request(network@, contract@, token_id) {
            Ok(request) => r is Ok && r->Ok_0@ == request,
            Err(e) => r == Err::<HttpRequest, BridgeError>(e),
        },
        network_of_name(network@) is None ==> r == Err::<
            HttpRequest,
            BridgeError,
        >(BridgeError::UnknownNetwork),
        !(owner_request(network@, contract@, token_id) matches Err(BridgeError::Encoding)),
{
    let function = AbiFunction::owner_of();
    let mut args: Vec<AbiValue> = Vec::new();
    args.push(AbiValue::Uint(U256::from_u64(token_id as u64)));
    proof {
        lemma2_to64();
        lemma_pow2_strictly_increases(64, 256);
        assert(values_of(args@) =~= seq![AbiValueView::Uint(token_id as nat)]);
        assert(args_fit(function.inputs@, values_of(args@)));
    }
    eth_call_request(network, contract, &function, &args)
}

/// Ends a query for an address: a rejected call becomes `Outcall` with the
/// host's code and message, and a reply is decoded from its body.
pub fn nft_owner_from_outcome(outcome: Result<HttpResponse, Rejection>) -> (r: Result<
    String,
    BridgeError,
>)
    ensures
        match owner_answer(outcome) {
            Ok(address) => r is Ok && r->Ok_0@ == address,
            Err(e) => r == Err::<String, BridgeError>(e),
        },
{
    match outcome {
        Err(rejection) => Err(BridgeError::Outcall(rejection)),
        Ok(response) => decode_address_reply(response.body.as_slice()),
    }
}

} // verus!
