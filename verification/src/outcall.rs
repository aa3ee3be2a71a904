//! The outbound HTTP call: the endpoint of each network, the request that
//! carries a JSON-RPC body to it, and the canonical form of what comes back.

use vstd::prelude::*;
use vstd::utf8::encode_utf8;
use crate::error::BridgeError;
use crate::text::same_text;

verus! {

/// The most bytes that the reply to a query may have.
pub const MAX_RESPONSE_BYTES: u64 = 2048;

/// What the host is paid for one outbound call, whether or not it succeeds.
pub const OUTCALL_CYCLES: u128 = 5_000_000;

/// A network with a known endpoint.
#[derive(Clone, Copy, Debug, PartialEq, Eq)]
pub enum Network {
    Mainnet,
    Sepolia,
}

/// The network that a name stands for.
pub open spec fn network_of_name(name: Seq<char>) -> Option<Network> {
    if name == "mainnet"@ {
        Some(Network::Mainnet)
    } else if name == "sepolia"@ {
        Some(Network::Sepolia)
    } else {
        None
    }
}

/// The URL of a network's JSON-RPC endpoint.
pub open spec fn endpoint_of(network: Network) -> Seq<char> {
    match network {
        Network::Mainnet => "https://cloudflare-eth.com"@,
        Network::Sepolia => "https://rpc.sepolia.org"@,
    }
}

impl Network {
    /// Looks a network up by its name; a name that is not in the table gives
    /// `None`, never another network.
    pub fn from_name(name: &str) -> (r: Option<Network>)
        ensures
            r == network_of_name(name@),
    {
        if same_text(name, "mainnet") {
            Some(Network::Mainnet)
        } else if same_text(name, "sepolia") {
            Some(Network::Sepolia)
        } else {
            None
        }
    }

    /// The URL of the network's JSON-RPC endpoint.
    pub fn endpoint(&self) -> (r: &'static str)
        ensures
            r@ == endpoint_of(*self),
    {
        match self {
            Network::Mainnet => "https://cloudflare-eth.com",
            Network::Sepolia => "https://rpc.sepolia.org",
        }
    }
}

/// The request methods that the host can send.
#[derive(Clone, Copy, Debug, PartialEq, Eq)]
pub enum HttpMethod {
    Get,
    Post,
    Head,
}

/// One header of a request or a reply.
#[derive(Clone, Debug, PartialEq, Eq)]
pub struct HttpHeader {
    pub name: String,
    pub value: String,
}

/// What the host is asked to send.
#[derive(Clone, Debug, PartialEq, Eq)]
pub struct HttpRequest {
    pub url: String,
    pub max_response_bytes: Option<u64>,
    pub method: HttpMethod,
    pub headers: Vec<HttpHeader>,
    pub body: Option<Vec<u8>>,
}

/// What one replica received.
#[derive(Clone, Debug, PartialEq, Eq)]
pub struct HttpResponse {
    pub status: u64,
    pub headers: Vec<HttpHeader>,
    pub body: Vec<u8>,
}

/// A header as a pair of texts.
pub struct HeaderView {
    pub name: Seq<char>,
    pub value: Seq<char>,
}

/// A request as plain values.
pub struct RequestView {
    pub url: Seq<char>,
    pub max_response_bytes: Option<u64>,
    pub method: HttpMethod,
    pub headers: Seq<HeaderView>,
    pub body: Option<Seq<u8>>,
}

/// A reply as plain values.
pub struct ResponseView {
    pub status: u64,
    pub headers: Seq<HeaderView>,
    pub body: Seq<u8>,
}

impl View for HttpHeader {
    type V = HeaderView;

    open spec fn view(&self) -> HeaderView {
        HeaderView { name: self.name@, value: self.value@ }
    }
}

impl View for HttpRequest {
    type V = RequestView;

    open spec fn view(&self) -> RequestView {
        RequestView {
            url: self.url@,
            max_response_bytes: self.max_response_bytes,
            method: self.method,
            headers: self.headers@.map_values(|h: HttpHeader| h@),
            body: match self.body {
                Some(bytes) => Some(bytes@),
                None => None,
            },
        }
    }
}

impl View for HttpResponse {
    type V = ResponseView;

    open spec fn view(&self) -> ResponseView {
        ResponseView {
            status: self.status,
            headers: self.headers@.map_values(|h: HttpHeader| h@),
            body: self.body@,
        }
    }
}

/// The host name in a URL, as the `url` crate reads it: what `Url::host_str`
/// gives for the URL that `Url::parse` makes of the text, and `None` where the
/// text is no URL or the URL has no host.
pub uninterp spec fn url_host(url: Seq<char>) -> Option<Seq<char>>;

/// The request that posts `payload` to `url`: at most `max_response_bytes`
/// bytes are asked back, and the headers are `Content-Type:
/// application/json` and `Host` with the URL's host, in this order.
pub open spec fn post_to(url: Seq<char>, payload: Seq<char>, max_response_bytes: u64) -> Result<
    RequestView,
    BridgeError,
> {
    match url_host(url) {
        None => Err(BridgeError::Endpoint),
        Some(host) => Ok(
            RequestView {
                url,
                max_response_bytes: Some(max_response_bytes),
                method: HttpMethod::Post,
                headers: seq![
                    HeaderView { name: "Content-Type"@, value: "application/json"@ },
                    HeaderView { name: "Host"@, value: host },
                ],
                body: Some(encode_utf8(payload)),
            },
        ),
    }
}

/// Builds the one request that carries `payload` to the endpoint of
/// `network` and asks for at most `max_response_bytes` bytes back. Fails
/// with `Endpoint` where the endpoint's URL has no host.
pub fn post_request(network: Network, payload: &str, max_response_bytes: u64) -> (r: Result<
    HttpRequest,
    BridgeError,
>)
    ensures
        match post_to(endpoint_of(network), payload@, max_response_bytes) {
            Ok(request) => r is Ok && r->Ok_0@ == request,
            Err(e) => r == Err::<HttpRequest, BridgeError>(e),
        },
{
    let url = network.endpoint();
    match host_of(url) {
        None => Err(BridgeError::Endpoint),
        Some(host) => {
            let mut headers: Vec<HttpHeader> = Vec::new();
            headers.push(
                HttpHeader {
                    name: String::from_str("Content-Type"),
                    value: String::from_str("application/json"),
                },
            );
            headers.push(HttpHeader { name: String::from_str("Host"), value: host });
            let request = HttpRequest {
                url: String::from_str(url),
                max_response_bytes: Some(max_response_bytes),
                method: HttpMethod::Post,
                headers,
                body: Some(payload.as_bytes_vec()),
            };
            assert(request@.headers =~= post_to(
                endpoint_of(network),
                payload@,
                max_response_bytes,
            )->Ok_0.headers);
            Ok(request)
        },
    }
}

/// The canonical form of a reply: its status and body, and no header.
pub open spec fn canonical(raw: ResponseView) -> ResponseView {
    ResponseView { status: raw.status, headers: Seq::empty(), body: raw.body }
}

/// Brings a replica's raw reply into the form that replicas are compared
/// in. The status and the body are kept as they are and every header is
/// dropped; the result depends on nothing but `raw`.
pub fn transform(raw: HttpResponse) -> (r: HttpResponse)
    ensures
        r@ == canonical(raw@),
        r.status == raw.status,
        r.body@ == raw.body@,
        r.headers@.len() == 0,
{
    let r = HttpResponse { status: raw.status, headers: Vec::new(), body: raw.body };
    assert(r@.headers =~= Seq::<HeaderView>::empty());
    r
}

/// Replies with the same status and body have the same canonical form,
/// whatever their headers are.
pub proof fn lemma_canonical_ignores_headers(a: ResponseView, b: ResponseView)
    requires
        a.status == b.status,
        a.body == b.body,
    ensures
        canonical(a) == canonical(b),
{
}

/// A canonical reply is its own canonical form.
pub proof fn lemma_canonical_twice(raw: ResponseView)
    ensures
        canonical(canonical(raw)) == canonical(raw),
{
}

/// `url::Url::parse` on the text, then `Url::host_str` on the URL. The
/// contract gives the outcome a name and says nothing more of it.
#[verifier::external_body]
fn host_of(url: &str) -> (r: Option<String>)
    ensures
        r matches Some(host) ==> url_host(url@) == Some(host@),
        r is None ==> url_host(url@) is None,
{
    url::Url::parse(url).ok()?.host_str().map(|host| host.to_owned())
}

} // verus!
