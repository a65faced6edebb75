//! The forwarder: resolves an endpoint name against a configuration
//! snapshot, translates the inbound request into the outbound one (base URL
//! plus sub-path, query preserved, hop-by-hop headers dropped, body
//! verbatim), picks the effective timeout, and relays the upstream outcome
//! back as a response or a structured error.

use vstd::prelude::*;
use vstd::string::StringExecFns;
use crate::config::ConfigSnapshot;
use crate::config::EndpointConfigView;
use crate::config::spec_lookup;
use crate::errors::RestError;
use crate::errors::RestErrorView;
use crate::http::Header;
use crate::http::HeaderView;
use crate::http::InboundRequest;
use crate::http::InboundRequestView;
use crate::http::Method;

verus! {

/// The outbound request derived from an inbound call: method and body
/// verbatim, the resolved URL, and the surviving headers.
pub struct ForwardRequest {
    pub method: Method,
    pub url: String,
    pub headers: Vec<Header>,
    pub body: Vec<u8>,
}

/// The mathematical value of a `ForwardRequest`.
#[verifier::ext_equal]
pub struct ForwardRequestView {
    pub method: Method,
    pub url: Seq<char>,
    pub headers: Seq<HeaderView>,
    pub body: Seq<u8>,
}

impl View for ForwardRequest {
    type V = ForwardRequestView;

    open spec fn view(&self) -> ForwardRequestView {
        ForwardRequestView {
            method: self.method,
            url: self.url@,
            headers: self.headers@.map_values(|h: Header| h@),
            body: self.body@,
        }
    }
}

/// A header meaningful only for one transport leg; such headers are not
/// relayed. Names are compared in their lower-case wire form.
pub open spec fn spec_is_hop_by_hop(n: Seq<char>) -> bool {
    ||| n == "host"@
    ||| n == "connection"@
    ||| n == "content-length"@
    ||| n == "keep-alive"@
    ||| n == "transfer-encoding"@
    ||| n == "upgrade"@
}

/// Whether the header named `n` is hop-by-hop and so excluded from relay.
pub fn is_hop_by_hop(n: &String) -> (r: bool)
    ensures
        r == spec_is_hop_by_hop(n@),
{
    n.eq(&String::from_str("host")) || n.eq(&String::from_str("connection")) || n.eq(
        &String::from_str("content-length"),
    ) || n.eq(&String::from_str("keep-alive")) || n.eq(&String::from_str("transfer-encoding"))
        || n.eq(&String::from_str("upgrade"))
}

/// The headers that survive relay: all of them, in order, except the
/// hop-by-hop ones.
pub open spec fn spec_keep_headers(s: Seq<HeaderView>) -> Seq<HeaderView>
    decreases s.len(),
{
    if s.len() == 0 {
        Seq::empty()
    } else {
        let prefix = spec_keep_headers(s.drop_last());
        if spec_is_hop_by_hop(s.last().name) {
            prefix
        } else {
            prefix.push(s.last())
        }
    }
}

/// Copies the headers that are not hop-by-hop, in order.
pub fn filter_headers(hs: &Vec<Header>) -> (r: Vec<Header>)
    ensures
        r@.map_values(|h: Header| h@) == spec_keep_headers(hs@.map_values(|h: Header| h@)),
{
    let ghost v = hs@.map_values(|h: Header| h@);
    let mut out: Vec<Header> = Vec::new();
    proof {
        assert(v.take(0) =~= Seq::<HeaderView>::empty());
        assert(out@.map_values(|h: Header| h@) =~= Seq::<HeaderView>::empty());
    }
    let n: usize = hs.len();
    let mut i: usize = 0;
    while i < n
        invariant
            i <= n,
            n == hs.len(),
            v == hs@.map_values(|h: Header| h@),
            out@.map_values(|h: Header| h@) == spec_keep_headers(v.take(i as int)),
        decreases n - i,
    {
        proof {
            assert(v.take(i as int + 1).drop_last() =~= v.take(i as int));
            assert(v.take(i as int + 1).last() == v[i as int]);
            assert(v[i as int] == hs@[i as int]@);
        }
        let ghost prev = out@.map_values(|h: Header| h@);
        if !is_hop_by_hop(&hs[i].name) {
            let h = Header { name: hs[i].name.clone(), value: hs[i].value.clone() };
            assert(h@ == v[i as int]);
            out.push(h);
            assert(out@.map_values(|h: Header| h@) =~= prev.push(v[i as int]));
        }
        i += 1;
    }
    proof {
        assert(v.take(n as int) =~= v);
    }
    out
}

/// Appends copies of `src` to `dst`, preserving order.
pub fn append_headers(dst: &mut Vec<Header>, src: &Vec<Header>)
    ensures
        final(dst)@.map_values(|h: Header| h@) == old(dst)@.map_values(|h: Header| h@)
            + src@.map_values(|h: Header| h@),
{
    let ghost v = src@.map_values(|h: Header| h@);
    let ghost base = dst@.map_values(|h: Header| h@);
    proof {
        assert(dst@.map_values(|h: Header| h@) =~= base + v.take(0));
    }
    let n: usize = src.len();
    let mut i: usize = 0;
    while i < n
        invariant
            i <= n,
            n == src.len(),
            v == src@.map_values(|h: Header| h@),
            dst@.map_values(|h: Header| h@) == base + v.take(i as int),
        decreases n - i,
    {
        proof {
            assert(v[i as int] == src@[i as int]@);
        }
        let ghost prev = dst@.map_values(|h: Header| h@);
        let h = Header { name: src[i].name.clone(), value: src[i].value.clone() };
        assert(h@ == v[i as int]);
        dst.push(h);
        proof {
            assert(dst@.map_values(|h: Header| h@) =~= prev.push(v[i as int]));
            assert(prev.push(v[i as int]) =~= base + v.take(i as int + 1));
        }
        i += 1;
    }
    proof {
        assert(v.take(n as int) =~= v);
    }
}

/// Copies body bytes verbatim.
pub fn copy_bytes(b: &Vec<u8>) -> (r: Vec<u8>)
    ensures
        r@ == b@,
{
    let mut out: Vec<u8> = Vec::new();
    let n: usize = b.len();
    let mut i: usize = 0;
    while i < n
        invariant
            i <= n,
            n == b.len(),
            out@ == b@.take(i as int),
        decreases n - i,
    {
        out.push(b[i]);
        proof {
            assert(b@.take(i as int).push(b@[i as int]) =~= b@.take(i as int + 1));
        }
        i += 1;
    }
    proof {
        assert(b@.take(n as int) =~= b@);
    }
    out
}

/// The URL an outbound call goes to: target base, a path separator, the
/// sub-path, and the query string when one was given.
pub open spec fn spec_forward_url(target: Seq<char>, sub_path: Seq<char>, query: Seq<char>) -> Seq<
    char,
> {
    let base = target + "/"@ + sub_path;
    if query.len() > 0 {
        base + "?"@ + query
    } else {
        base
    }
}

/// Builds the outbound URL from the target base, sub-path and query.
pub fn build_url(target: &String, sub_path: &String, query: &String) -> (r: String)
    ensures
        r@ == spec_forward_url(target@, sub_path@, query@),
{
    let mut url = target.clone();
    url.append("/");
    url.append(sub_path.as_str());
    if !query.as_str().is_empty() {
        url.append("?");
        url.append(query.as_str());
    }
    url
}

/// The whole outbound request an endpoint's configuration assigns to an
/// inbound call: method and body verbatim, resolved URL, inbound headers
/// minus the hop-by-hop ones followed by the endpoint's fixed headers.
pub open spec fn spec_forward_request(
    cfg: EndpointConfigView,
    sub_path: Seq<char>,
    inbound: InboundRequestView,
) -> ForwardRequestView {
    ForwardRequestView {
        method: inbound.method,
        url: spec_forward_url(cfg.target, sub_path, inbound.query),
        headers: spec_keep_headers(inbound.headers) + cfg.headers,
        body: inbound.body,
    }
}

/// The timeout an outbound call runs under: the endpoint's override when
/// it has one, else the process default.
pub open spec fn spec_effective_timeout(cfg: EndpointConfigView, default_ms: u64) -> u64 {
    match cfg.timeout_ms {
        Some(t) => t,
        None => default_ms,
    }
}

/// Returns the timeout for a call to this endpoint, in milliseconds.
pub fn effective_timeout(timeout_ms: &Option<u64>, default_ms: u64) -> (r: u64)
    ensures
        r == match *timeout_ms {
            Some(t) => t,
            None => default_ms,
        },
{
    match timeout_ms {
        Some(t) => *t,
        None => default_ms,
    }
}

/// Builds the outbound request an endpoint's configuration assigns to the
/// inbound call.
pub fn build_forward_request(
    cfg: &crate::config::EndpointConfig,
    sub_path: &String,
    inbound: &InboundRequest,
) -> (r: ForwardRequest)
    ensures
        r@ == spec_forward_request(cfg@, sub_path@, inbound@),
{
    let mut headers = filter_headers(&inbound.headers);
    append_headers(&mut headers, &cfg.headers);
    let r = ForwardRequest {
        method: inbound.method,
        url: build_url(&cfg.target, sub_path, &inbound.query),
        headers,
        body: copy_bytes(&inbound.body),
    };
    proof {
        assert(r@ =~= spec_forward_request(cfg@, sub_path@, inbound@));
    }
    r
}

/// Resolves `name` in the given snapshot and plans the outbound call: the
/// translated request and its timeout. An absent name is the forwarder's
/// `UnknownEndpoint` failure; nothing else fails.
pub fn forward(
    snapshot: &ConfigSnapshot,
    name: &String,
    sub_path: &String,
    inbound: &InboundRequest,
    default_timeout_ms: u64,
) -> (r: Result<(ForwardRequest, u64), RestError>)
    ensures
        match spec_lookup(snapshot@.endpoints, name@) {
            Some(cfg) => r matches Ok(p) && p.0@ == spec_forward_request(cfg, sub_path@, inbound@)
                && p.1 == spec_effective_timeout(cfg, default_timeout_ms),
            None => r matches Err(e) && e@ == (RestErrorView::UnknownEndpoint { name: name@ }),
        },
{
    match snapshot.lookup(name) {
        Some(cfg) => {
            let request = build_forward_request(cfg, sub_path, inbound);
            let timeout = effective_timeout(&cfg.timeout_ms, default_timeout_ms);
            Ok((request, timeout))
        },
        None => Err(RestError::UnknownEndpoint { name: name.clone() }),
    }
}

/// How an attempted outbound call ended: a response from the upstream, no
/// way to reach it, or no answer within the timeout.
pub enum UpstreamOutcome {
    Response { status: u16, headers: Vec<Header>, body: Vec<u8> },
    Unreachable,
    TimedOut,
}

/// The mathematical value of an `UpstreamOutcome`.
pub enum UpstreamOutcomeView {
    Response { status: u16, headers: Seq<HeaderView>, body: Seq<u8> },
    Unreachable,
    TimedOut,
}

impl View for UpstreamOutcome {
    type V = UpstreamOutcomeView;

    open spec fn view(&self) -> UpstreamOutcomeView {
        match self {
            UpstreamOutcome::Response { status, headers, body } => UpstreamOutcomeView::Response {
                status: *status,
                headers: headers@.map_values(|h: Header| h@),
                body: body@,
            },
            UpstreamOutcome::Unreachable => UpstreamOutcomeView::Unreachable,
            UpstreamOutcome::TimedOut => UpstreamOutcomeView::TimedOut,
        }
    }
}

/// What is relayed back to the inbound caller: status and body unchanged,
/// headers minus the hop-by-hop ones.
pub struct RelayResponse {
    pub status: u16,
    pub headers: Vec<Header>,
    pub body: Vec<u8>,
}

/// The mathematical value of a `RelayResponse`.
#[verifier::ext_equal]
pub struct RelayResponseView {
    pub status: u16,
    pub headers: Seq<HeaderView>,
    pub body: Seq<u8>,
}

impl View for RelayResponse {
    type V = RelayResponseView;

    open spec fn view(&self) -> RelayResponseView {
        RelayResponseView {
            status: self.status,
            headers: self.headers@.map_values(|h: Header| h@),
            body: self.body@,
        }
    }
}

/// Maps the outcome of the outbound call back to the inbound caller: a
/// response is passed through with status and body unchanged and hop-by-hop
/// headers dropped; an unreachable upstream and a timeout become the two
/// upstream errors. The call is single-attempt: nothing is retried.
pub fn relay_outcome(outcome: UpstreamOutcome) -> (r: Result<RelayResponse, RestError>)
    ensures
        match outcome@ {
            UpstreamOutcomeView::Response { status, headers, body } => r matches Ok(resp)
                && resp@.status == status && resp@.headers == spec_keep_headers(headers)
                && resp@.body == body,
            UpstreamOutcomeView::Unreachable => r matches Err(e) && e@
                == RestErrorView::UpstreamUnreachable,
            UpstreamOutcomeView::TimedOut => r matches Err(e) && e@ == RestErrorView::UpstreamTimeout,
        },
{
    match outcome {
        UpstreamOutcome::Response { status, headers, body } => {
            let kept = filter_headers(&headers);
            Ok(RelayResponse { status, headers: kept, body })
        },
        UpstreamOutcome::Unreachable => Err(RestError::UpstreamUnreachable),
        UpstreamOutcome::TimedOut => Err(RestError::UpstreamTimeout),
    }
}

} // verus!
