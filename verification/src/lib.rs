//! A bridge between a replicated execution environment and an Ethereum
//! JSON-RPC endpoint: signature checks against a claimed address, and the
//! request and reply of a read-only `ownerOf` contract query.
//!
//! Nothing here performs I/O. A query is two steps around the one outbound
//! call that the host makes: [`nft_owner_request`] builds the request, and
//! [`nft_owner_from_outcome`] reads the answer from what came back.

pub mod abi;
pub mod address;
pub mod base16;
pub mod error;
pub mod outcall;
pub mod query;
pub mod rpc;
pub mod signature;
pub mod text;
pub mod uint;

pub use crate::address::{preprocess_address, EthAddress};
pub use crate::error::{BridgeError, Rejection};
pub use crate::outcall::{transform, HttpHeader, HttpMethod, HttpRequest, HttpResponse};
pub use crate::query::{eth_call_request, nft_owner_from_outcome, nft_owner_request};
pub use crate::signature::verify_ecdsa;
