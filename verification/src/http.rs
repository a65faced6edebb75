//! The plain-value model of the HTTP messages the gateway reads and writes:
//! methods, headers, and the inbound-request shape the forwarder consumes.

use vstd::prelude::*;

verus! {

/// The request method, carried through to the outbound call unchanged.
#[derive(Clone, Copy, PartialEq, Eq, Structural, Debug)]
pub enum Method {
    Get,
    Head,
    Post,
    Put,
    Delete,
    Options,
    Trace,
    Patch,
}

/// One HTTP header, name and value. Names are kept in their lower-case
/// wire form.
pub struct Header {
    pub name: String,
    pub value: String,
}

/// The mathematical value of a `Header`.
pub struct HeaderView {
    pub name: Seq<char>,
    pub value: Seq<char>,
}

impl View for Header {
    type V = HeaderView;

    open spec fn view(&self) -> HeaderView {
        HeaderView { name: self.name@, value: self.value@ }
    }
}

impl Clone for Header {
    /// A copy with the same name and value.
    fn clone(&self) -> (r: Header)
        ensures
            r@ == self@,
    {
        Header { name: self.name.clone(), value: self.value.clone() }
    }
}

/// Copies a header list, preserving names, values and order.
pub fn clone_headers(hs: &Vec<Header>) -> (r: Vec<Header>)
    ensures
        r@.map_values(|h: Header| h@) == hs@.map_values(|h: Header| h@),
{
    let ghost v = hs@.map_values(|h: Header| h@);
    let mut out: Vec<Header> = Vec::new();
    proof {
        assert(out@.map_values(|h: Header| h@) =~= v.take(0));
    }
    let n: usize = hs.len();
    let mut i: usize = 0;
    while i < n
        invariant
            i <= n,
            n == hs.len(),
            v == hs@.map_values(|h: Header| h@),
            out@.map_values(|h: Header| h@) == v.take(i as int),
        decreases n - i,
    {
        let ghost prev = out@.map_values(|h: Header| h@);
        assert(v[i as int] == hs@[i as int]@);
        out.push(hs[i].clone());
        proof {
            assert(out@.map_values(|h: Header| h@) =~= prev.push(v[i as int]));
            assert(prev.push(v[i as int]) =~= v.take(i as int + 1));
        }
        i += 1;
    }
    proof {
        assert(v.take(n as int) =~= v);
    }
    out
}

/// The parts of an inbound request that the forwarder reads: method,
/// headers, body bytes and the query string (empty when absent).
pub struct InboundRequest {
    pub method: Method,
    pub headers: Vec<Header>,
    pub body: Vec<u8>,
    pub query: String,
}

/// The mathematical value of an `InboundRequest`.
pub struct InboundRequestView {
    pub method: Method,
    pub headers: Seq<HeaderView>,
    pub body: Seq<u8>,
    pub query: Seq<char>,
}

impl View for InboundRequest {
    type V = InboundRequestView;

    open spec fn view(&self) -> InboundRequestView {
        InboundRequestView {
            method: self.method,
            headers: self.headers@.map_values(|h: Header| h@),
            body: self.body@,
            query: self.query@,
        }
    }
}

} // verus!
