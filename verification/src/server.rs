//! The proxy's configuration object and the forwarding handler.
//!
//! The handler is a pure decision: from the configured upstream base and an
//! inbound request it produces either the outbound request to issue, or the
//! response to send without calling upstream; a second decision maps the
//! outcome of the upstream call to the response for the client. The transport
//! around it performs the I/O and pipes the bodies.

use vstd::prelude::*;
use vstd::string::StringExecFns;
use crate::model::{
    headers_buildable, headers_view, opt_str_view, outbound_uri_view, request_buildable,
    BodySource, ClientResponse, HeaderField, InboundRequest, OutboundRequest, UpstreamResponse,
};
use crate::wire::{check_header_name, check_header_value, check_method, check_uri, uri_parses};

verus! {

/// An IPv4 listen address: four octets and a port.
#[derive(Clone, Copy, Debug, PartialEq, Eq, Structural)]
pub struct ListenAddr {
    pub o0: u8,
    pub o1: u8,
    pub o2: u8,
    pub o3: u8,
    pub port: u16,
}

/// The proxy's immutable configuration: where it listens and the upstream
/// base every inbound path is rewritten against. The outbound HTTP client
/// itself lives with the transport glue, outside this library.
#[derive(Clone, Debug)]
pub struct ProxyClient {
    pub addr: ListenAddr,
    pub forward_addr: String,
}

impl ProxyClient {
    pub fn new(addr: ListenAddr, forward_addr: String) -> (r: ProxyClient)
        ensures
            r.addr == addr,
            r.forward_addr@ == forward_addr@,
    {
        ProxyClient { addr, forward_addr }
    }

    pub fn addr(&self) -> (r: ListenAddr)
        ensures
            r == self.addr,
    {
        self.addr
    }
}

/// What the handler asks of the transport for one inbound request.
#[derive(Clone, Debug, PartialEq, Eq)]
pub enum HandlerStep {
    /// Issue this request upstream, then feed the outcome to `respond`.
    Forward(OutboundRequest),
    /// Send this response to the client; upstream is not called.
    Respond(ClientResponse),
}

/// The outcome of the upstream call, as the transport observed it.
#[derive(Clone, Debug, PartialEq, Eq)]
pub enum UpstreamOutcome {
    /// Upstream answered: its status and headers, body left streaming.
    Reply(UpstreamResponse),
    /// The call failed: connection refused, TLS failure, timeout.
    Failed,
}

/// A response with the given status, no headers and no body.
pub open spec fn is_empty_response(c: ClientResponse, status: u16) -> bool {
    c.status == status && c.headers@.len() == 0 && c.body is Empty
}

/// The outbound request is the inbound one re-targeted: same method, the
/// rewritten URI, the same header pairs in the same order, the inbound body.
pub open spec fn forward_plan_matches(
    proxy: ProxyClient,
    req: InboundRequest,
    ob: OutboundRequest,
) -> bool {
    &&& ob.method@ == req.method@
    &&& ob.uri@ == outbound_uri_view(proxy.forward_addr@, opt_str_view(req.path_and_query))
    &&& headers_view(ob.headers@) == headers_view(req.headers@)
    &&& ob.body is Inbound
}

/// The handler's whole contract for the request leg: forward exactly the
/// buildable requests, verbatim; answer the rest with an empty 400.
pub open spec fn step_matches_handle(
    proxy: ProxyClient,
    req: InboundRequest,
    step: HandlerStep,
) -> bool {
    &&& (step is Forward <==> request_buildable(req))
    &&& (step matches HandlerStep::Forward(ob) ==> forward_plan_matches(proxy, req, ob))
    &&& (step matches HandlerStep::Respond(c) ==> is_empty_response(c, 400))
}

/// The empty `400 Bad Request` answered when the outbound request cannot be
/// built.
pub fn bad_request() -> (r: ClientResponse)
    ensures
        is_empty_response(r, 400),
{
    ClientResponse { status: 400, headers: Vec::new(), body: BodySource::Empty }
}

/// The outbound target string: the upstream base with the path-and-query
/// appended verbatim, with no normalization or escaping.
pub fn outbound_uri(base: &String, pq: &Option<String>) -> (r: String)
    ensures
        r@ == outbound_uri_view(base@, opt_str_view(*pq)),
{
    match pq {
        Some(p) => base.clone().concat(p.as_str()),
        None => base.clone(),
    }
}

/// The request leg of the forwarding handler. It decides, without touching
/// the network, what the transport is to do for one inbound request: forward
/// the re-targeted request, or answer an empty `400 Bad Request` when the
/// HTTP layer would reject a piece of it.
///
/// The configured upstream base is trusted to yield a parseable target for
/// this request; `try_handle` checks exactly that and is the entry for a
/// caller who cannot assume it.
pub fn handle(proxy: &ProxyClient, req: InboundRequest) -> (step: HandlerStep)
    requires
        uri_parses(outbound_uri_view(proxy.forward_addr@, opt_str_view(req.path_and_query))),
    ensures
        step_matches_handle(*proxy, req, step),
        step matches HandlerStep::Forward(ob) ==> ob.method == req.method && ob.headers
            == req.headers,
{
    if !check_method(req.method.as_str()) {
        return HandlerStep::Respond(bad_request());
    }
    let mut i: usize = 0;
    while i < req.headers.len()
        invariant
            0 <= i <= req.headers@.len(),
            forall|j: int| 0 <= j < i ==> #[trigger] crate::model::header_field_parses(
                req.headers@[j],
            ),
        decreases req.headers@.len() - i,
    {
        let h = &req.headers[i];
        if !check_header_name(h.name.as_str()) || !check_header_value(h.value.as_slice()) {
            proof {
                assert(!crate::model::header_field_parses(req.headers@[i as int]));
            }
            return HandlerStep::Respond(bad_request());
        }
        i += 1;
    }
    let uri = outbound_uri(&proxy.forward_addr, &req.path_and_query);
    HandlerStep::Forward(
        OutboundRequest {
            method: req.method,
            uri,
            headers: req.headers,
            body: BodySource::Inbound,
        },
    )
}

/// The forwarding handler behind a check that the outbound target parses as
/// a URI. `None` means the configured upstream base cannot target this
/// request at all: a configuration error, on which the transport fails the
/// way the operator asked it to, rather than a per-request failure.
pub fn try_handle(proxy: &ProxyClient, req: InboundRequest) -> (r: Option<HandlerStep>)
    ensures
        r is Some <==> uri_parses(
            outbound_uri_view(proxy.forward_addr@, opt_str_view(req.path_and_query)),
        ),
        r matches Some(step) ==> step_matches_handle(*proxy, req, step),
{
    let uri = outbound_uri(&proxy.forward_addr, &req.path_and_query);
    if check_uri(uri.as_str()) {
        Some(handle(proxy, req))
    } else {
        None
    }
}

/// The forwarding handler carries no state across requests: any two handler
/// outcomes for inbound requests with equal content, against the same
/// upstream base, agree in every observable part — either both forward, with
/// the same method, target and header pairs and each with the inbound body,
/// or both answer the same empty `400 Bad Request`.
pub proof fn lemma_handle_stateless(
    proxy1: ProxyClient,
    req1: InboundRequest,
    step1: HandlerStep,
    proxy2: ProxyClient,
    req2: InboundRequest,
    step2: HandlerStep,
)
    requires
        proxy1.forward_addr@ == proxy2.forward_addr@,
        req1.method@ == req2.method@,
        opt_str_view(req1.path_and_query) == opt_str_view(req2.path_and_query),
        headers_view(req1.headers@) == headers_view(req2.headers@),
        step_matches_handle(proxy1, req1, step1),
        step_matches_handle(proxy2, req2, step2),
    ensures
        step1 is Forward <==> step2 is Forward,
        step1 matches HandlerStep::Forward(o1) ==> step2 matches HandlerStep::Forward(o2)
            && o1.method@ == o2.method@ && o1.uri@ == o2.uri@ && headers_view(o1.headers@)
            == headers_view(o2.headers@) && o1.body is Inbound && o2.body is Inbound,
        step1 matches HandlerStep::Respond(c1) ==> step2 matches HandlerStep::Respond(c2)
            && is_empty_response(c1, 400) && is_empty_response(c2, 400),
{
    let h1 = req1.headers@;
    let h2 = req2.headers@;
    assert(h1.len() == h2.len()) by {
        assert(headers_view(h1).len() == h1.len());
        assert(headers_view(h2).len() == h2.len());
    }
    assert forall|j: int| 0 <= j < h1.len() implies #[trigger] crate::model::header_field_parses(
        h1[j],
    ) == crate::model::header_field_parses(h2[j]) by {
        assert(headers_view(h1)[j] == h1[j]@);
        assert(headers_view(h2)[j] == h2[j]@);
        assert(h1[j]@ == h2[j]@);
        assert(h1[j].name@ == h2[j].name@ && h1[j].value@ == h2[j].value@);
    }
    if headers_buildable(h1) {
        assert forall|j: int| 0 <= j < h2.len() implies #[trigger] crate::model::header_field_parses(
            h2[j],
        ) by {
            assert(crate::model::header_field_parses(h1[j]));
        }
    }
    if headers_buildable(h2) {
        assert forall|j: int| 0 <= j < h1.len() implies #[trigger] crate::model::header_field_parses(
            h1[j],
        ) by {
            assert(crate::model::header_field_parses(h2[j]));
        }
    }
    assert(request_buildable(req1) == request_buildable(req2));
}

/// The response leg of the forwarding handler: an upstream reply is relayed
/// verbatim — its status, its header pairs in the same order, its body — and
/// a failed upstream call becomes an empty `502 Bad Gateway`.
pub fn respond(outcome: UpstreamOutcome) -> (r: ClientResponse)
    ensures
        outcome matches UpstreamOutcome::Reply(u) ==> r.status == u.status && r.headers
            == u.headers && headers_view(r.headers@) == headers_view(u.headers@) && r.body
            is Upstream,
        outcome is Failed ==> is_empty_response(r, 502),
{
    match outcome {
        UpstreamOutcome::Reply(u) => ClientResponse {
            status: u.status,
            headers: u.headers,
            body: BodySource::Upstream,
        },
        UpstreamOutcome::Failed => ClientResponse {
            status: 502,
            headers: Vec::new(),
            body: BodySource::Empty,
        },
    }
}

} // verus!
