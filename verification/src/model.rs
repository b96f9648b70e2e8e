//! The request/response model the forwarding handler decides over.
//!
//! Methods, paths and header fields are held as plain values. Bodies are not:
//! the handler never reads body bytes, it only decides which stream the
//! transport attaches, so a body is represented by its source.

use vstd::prelude::*;
use crate::wire::{header_name_parses, header_value_parses, method_parses};

verus! {

/// One header field: a name and an uninterpreted byte value. A header
/// multimap is a vector of these: names may repeat, order is kept.
#[derive(Clone, Debug, PartialEq, Eq)]
pub struct HeaderField {
    pub name: String,
    pub value: Vec<u8>,
}

impl View for HeaderField {
    type V = (Seq<char>, Seq<u8>);

    open spec fn view(&self) -> (Seq<char>, Seq<u8>) {
        (self.name@, self.value@)
    }
}

/// Where a message body comes from.
#[derive(Clone, Copy, Debug, PartialEq, Eq, Structural)]
pub enum BodySource {
    /// No body at all.
    Empty,
    /// The inbound request's body, piped through unchanged.
    Inbound,
    /// The upstream response's body, piped through unchanged.
    Upstream,
}

/// A request as received from a client: method, optional path-and-query
/// (for example `/a/b?k=v`), and the header multimap, in wire order.
#[derive(Clone, Debug, PartialEq, Eq)]
pub struct InboundRequest {
    pub method: String,
    pub path_and_query: Option<String>,
    pub headers: Vec<HeaderField>,
}

/// The request the proxy sends upstream.
#[derive(Clone, Debug, PartialEq, Eq)]
pub struct OutboundRequest {
    pub method: String,
    pub uri: String,
    pub headers: Vec<HeaderField>,
    pub body: BodySource,
}

/// A response as received from the upstream: its status and headers; its
/// body stays a stream at the transport.
#[derive(Clone, Debug, PartialEq, Eq)]
pub struct UpstreamResponse {
    pub status: u16,
    pub headers: Vec<HeaderField>,
}

/// The response handed back to the original client.
#[derive(Clone, Debug, PartialEq, Eq)]
pub struct ClientResponse {
    pub status: u16,
    pub headers: Vec<HeaderField>,
    pub body: BodySource,
}

/// The header multimap as a sequence of (name, value) pairs.
pub open spec fn headers_view(hs: Seq<HeaderField>) -> Seq<(Seq<char>, Seq<u8>)> {
    hs.map_values(|h: HeaderField| h@)
}

pub open spec fn opt_str_view(p: Option<String>) -> Option<Seq<char>> {
    match p {
        Some(s) => Some(s@),
        None => None,
    }
}

/// The outbound target: the upstream base with the inbound path-and-query
/// appended verbatim, or the base alone when the inbound request has none.
pub open spec fn outbound_uri_view(base: Seq<char>, pq: Option<Seq<char>>) -> Seq<char> {
    match pq {
        Some(p) => base + p,
        None => base,
    }
}

/// Whether hyper accepts this field's name and value on the wire.
pub open spec fn header_field_parses(h: HeaderField) -> bool {
    header_name_parses(h.name@) && header_value_parses(h.value@)
}

pub open spec fn headers_buildable(hs: Seq<HeaderField>) -> bool {
    forall|j: int| 0 <= j < hs.len() ==> #[trigger] header_field_parses(hs[j])
}

/// Whether the outbound request derived from `req` will be accepted by the
/// HTTP layer: the method and every header field parse.
pub open spec fn request_buildable(req: InboundRequest) -> bool {
    method_parses(req.method@) && headers_buildable(req.headers@)
}

} // verus!
