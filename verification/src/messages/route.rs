//! Prefix tuples: the form in which an UPDATE names routes.
//!
//! ```text
//! +---------------------------+
//! |   Length (1 octet)        |
//! +---------------------------+
//! |   Prefix (variable)       |
//! +---------------------------+
//! ```
//!
//! The length counts the bits of the prefix; a length of zero matches every
//! address. The prefix takes as few octets as hold that many bits.
use vstd::prelude::*;

use super::error::Error;
use super::error::ErrorKind;
use super::wire::copy_range;
use super::wire::write_octets;

verus! {

/// Bits in an IPv4 address, and so the longest prefix there is.
pub const MAX_PREFIX_BITS: u8 = 32;

/// Octets that hold a prefix of `length` bits.
pub open spec fn prefix_octets(length: u8) -> int {
    (length + 7) / 8
}

/// One prefix tuple.
#[derive(Debug, Clone, PartialEq, Eq)]
pub struct Route {
    /// Bits in the prefix.
    pub length: u8,
    /// The octets of the prefix, with whatever bits pad the last of them.
    pub prefix: Vec<u8>,
}

/// A prefix tuple as a mathematical value.
pub struct RouteView {
    pub length: u8,
    pub prefix: Seq<u8>,
}

impl View for Route {
    type V = RouteView;

    open spec fn view(&self) -> RouteView {
        RouteView { length: self.length, prefix: self.prefix@ }
    }
}

impl RouteView {
    /// The prefix has at most thirty-two bits and exactly the octets that
    /// hold them.
    pub open spec fn wf(self) -> bool {
        &&& self.length <= 32
        &&& self.prefix.len() == prefix_octets(self.length)
    }

    /// The tuple on the wire.
    pub open spec fn bytes(self) -> Seq<u8> {
        seq![self.length] + self.prefix
    }
}

/// The values of a vector of tuples.
pub open spec fn route_views(routes: Seq<Route>) -> Seq<RouteView> {
    Seq::new(routes.len(), |i: int| routes[i]@)
}

/// Every tuple of the list is well formed.
pub open spec fn routes_wf(routes: Seq<RouteView>) -> bool {
    forall|i: int| 0 <= i < routes.len() ==> (#[trigger] routes[i]).wf()
}

/// The tuples of a list on the wire, one behind the other.
pub open spec fn routes_bytes(routes: Seq<RouteView>) -> Seq<u8>
    decreases routes.len(),
{
    if routes.len() == 0 {
        Seq::empty()
    } else {
        routes[0].bytes() + routes_bytes(routes.skip(1))
    }
}

/// What decoding the tuple at the start of `s` gives. No octet behind those
/// that the length implies is looked at.
pub open spec fn spec_decode_route(s: Seq<u8>) -> Result<RouteView, ErrorKind> {
    if s.len() == 0 {
        Err(ErrorKind::TruncatedRouteList)
    } else if s[0] > 32 {
        Err(ErrorKind::InvalidPrefixLength)
    } else if s.len() < 1 + prefix_octets(s[0]) {
        Err(ErrorKind::TruncatedRouteList)
    } else {
        Ok(RouteView { length: s[0], prefix: s.subrange(1, 1 + prefix_octets(s[0])) })
    }
}

/// What decoding `s` as a list of tuples gives: the tuples in order where they
/// fill `s` to its last octet, else the error of the first tuple that fails.
pub open spec fn spec_decode_routes(s: Seq<u8>) -> Result<Seq<RouteView>, ErrorKind>
    decreases s.len(),
{
    if s.len() == 0 {
        Ok(Seq::empty())
    } else {
        match spec_decode_route(s) {
            Err(e) => Err(e),
            Ok(first) => match spec_decode_routes(s.skip(1 + first.prefix.len() as int)) {
                Err(e) => Err(e),
                Ok(rest) => Ok(seq![first] + rest),
            },
        }
    }
}

/// The tuples already decoded, followed by what the rest of the input gives.
pub open spec fn routes_then(
    done: Seq<RouteView>,
    rest: Result<Seq<RouteView>, ErrorKind>,
) -> Result<Seq<RouteView>, ErrorKind> {
    match rest {
        Ok(more) => Ok(done + more),
        Err(e) => Err(e),
    }
}

/// Octets that hold a prefix of `length` bits.
pub fn octets_for(length: u8) -> (n: usize)
    ensures
        n == prefix_octets(length),
{
    (length as usize + 7) / 8
}

/// Decodes the tuple that starts at `at` and must end by `end`.
pub(crate) fn decode_route_at(input: &[u8], at: usize, end: usize) -> (r: Result<Route, Error>)
    requires
        at <= end <= input@.len(),
    ensures
        match r {
            Ok(route) => spec_decode_route(input@.subrange(at as int, end as int)) == Ok::<
                RouteView,
                ErrorKind,
            >(route@) && route@.wf(),
            Err(e) => spec_decode_route(input@.subrange(at as int, end as int)) == Err::<
                RouteView,
                ErrorKind,
            >(e.kind),
        },
{
    let ghost window = input@.subrange(at as int, end as int);
    if at >= end {
        return Err(Error::new(ErrorKind::TruncatedRouteList));
    }
    let length: u8 = input[at];
    if length > MAX_PREFIX_BITS {
        return Err(Error::new(ErrorKind::InvalidPrefixLength));
    }
    let n: usize = octets_for(length);
    if end - at - 1 < n {
        return Err(Error::new(ErrorKind::TruncatedRouteList));
    }
    let prefix = copy_range(input, at + 1, at + 1 + n);
    assert(prefix@ =~= window.subrange(1, 1 + n));
    Ok(Route { length: length, prefix: prefix })
}

/// Decodes the octets from `start` up to `end` as a list of tuples.
pub(crate) fn decode_routes(input: &[u8], start: usize, end: usize) -> (r: Result<
    Vec<Route>,
    Error,
>)
    requires
        start <= end <= input@.len(),
    ensures
        match r {
            Ok(routes) => spec_decode_routes(input@.subrange(start as int, end as int)) == Ok::<
                Seq<RouteView>,
                ErrorKind,
            >(route_views(routes@)) && routes_wf(route_views(routes@)),
            Err(e) => spec_decode_routes(input@.subrange(start as int, end as int)) == Err::<
                Seq<RouteView>,
                ErrorKind,
            >(e.kind),
        },
{
    let ghost whole = input@.subrange(start as int, end as int);
    let mut routes: Vec<Route> = Vec::new();
    let mut pos: usize = start;
    while pos < end
        invariant
            start <= pos <= end <= input@.len(),
            whole == input@.subrange(start as int, end as int),
            routes_wf(route_views(routes@)),
            spec_decode_routes(whole) == routes_then(
                route_views(routes@),
                spec_decode_routes(input@.subrange(pos as int, end as int)),
            ),
        decreases end - pos,
    {
        let ghost window = input@.subrange(pos as int, end as int);
        let ghost done = route_views(routes@);
        match decode_route_at(input, pos, end) {
            Err(e) => {
                return Err(e);
            },
            Ok(route) => {
                let n: usize = route.prefix.len();
                let ghost first = route@;
                let ghost tail = input@.subrange(pos + 1 + n, end as int);
                proof {
                    assert(window.skip(1 + first.prefix.len() as int) =~= tail);
                    assert(route_views(routes@.push(route)) =~= done.push(first));
                    if spec_decode_routes(tail) is Ok {
                        let rest = spec_decode_routes(tail)->Ok_0;
                        assert(done + (seq![first] + rest) =~= done.push(first) + rest);
                    }
                }
                pos = pos + 1 + n;
                routes.push(route);
            },
        }
    }
    Ok(routes)
}

impl Route {
    /// Decodes the tuple at the start of `input`.
    pub fn from_bytes(input: &[u8]) -> (r: Result<Route, Error>)
        ensures
            match r {
                Ok(route) => spec_decode_route(input@) == Ok::<RouteView, ErrorKind>(route@)
                    && route@.wf(),
                Err(e) => spec_decode_route(input@) == Err::<RouteView, ErrorKind>(e.kind),
            },
    {
        assert(input@.subrange(0, input@.len() as int) =~= input@);
        decode_route_at(input, 0, input.len())
    }

    /// Whether the tuple is well formed.
    pub fn is_wf(&self) -> (b: bool)
        ensures
            b == self@.wf(),
    {
        self.length <= MAX_PREFIX_BITS && self.prefix.len() == octets_for(self.length)
    }

    /// Appends the tuple to `out`. A tuple that is not well formed is refused
    /// and `out` stays as it was.
    pub fn write_bytes(&self, out: &mut Vec<u8>) -> (r: Result<(), Error>)
        ensures
            match r {
                Ok(_) => self@.wf() && final(out)@ == old(out)@ + self@.bytes(),
                Err(e) => !self@.wf() && e.kind == ErrorKind::InvalidPrefixLength && final(out)@
                    == old(out)@,
            },
    {
        if !self.is_wf() {
            return Err(Error::new(ErrorKind::InvalidPrefixLength));
        }
        out.push(self.length);
        write_octets(out, self.prefix.as_slice());
        Ok(())
    }
}

/// The octets of two lists, one behind the other, are the octets of the
/// joined list.
pub proof fn routes_bytes_of_joined(a: Seq<RouteView>, b: Seq<RouteView>)
    ensures
        routes_bytes(a + b) == routes_bytes(a) + routes_bytes(b),
    decreases a.len(),
{
    if a.len() > 0 {
        routes_bytes_of_joined(a.skip(1), b);
        assert((a + b).skip(1) =~= a.skip(1) + b);
    }
}

/// A well-formed tuple decodes to itself, whatever follows it.
pub proof fn route_decodes_to_itself(route: RouteView, rest: Seq<u8>)
    requires
        route.wf(),
    ensures
        spec_decode_route(route.bytes() + rest) == Ok::<RouteView, ErrorKind>(route),
{
    let s = route.bytes() + rest;
    assert(s.subrange(1, 1 + prefix_octets(route.length)) =~= route.prefix);
}

/// Where a list decodes, its tuples are well formed and spell the input out
/// octet for octet: the list is used up to its end, and no octet beyond.
pub proof fn decoded_routes_fill_the_input(s: Seq<u8>)
    requires
        spec_decode_routes(s) is Ok,
    ensures
        routes_wf(spec_decode_routes(s)->Ok_0),
        routes_bytes(spec_decode_routes(s)->Ok_0) == s,
    decreases s.len(),
{
    if s.len() > 0 {
        let first = spec_decode_route(s)->Ok_0;
        let tail = s.skip(1 + first.prefix.len() as int);
        decoded_routes_fill_the_input(tail);
        let rest = spec_decode_routes(tail)->Ok_0;
        let all = seq![first] + rest;
        assert(all.skip(1) =~= rest);
    }
}

/// A list of well-formed tuples, written out, decodes to itself.
pub proof fn routes_decode_to_themselves(routes: Seq<RouteView>)
    requires
        routes_wf(routes),
    ensures
        spec_decode_routes(routes_bytes(routes)) == Ok::<Seq<RouteView>, ErrorKind>(routes),
    decreases routes.len(),
{
    if routes.len() == 0 {
        assert(routes =~= Seq::empty());
    } else {
        let first = routes[0];
        let rest = routes.skip(1);
        routes_decode_to_themselves(rest);
        route_decodes_to_itself(first, routes_bytes(rest));
        let s = routes_bytes(routes);
        assert(s.skip(1 + first.prefix.len() as int) =~= routes_bytes(rest));
        assert(seq![first] + rest =~= routes);
    }
}

/// A tuple that would run across the end of its list fails the decoding with
/// `TruncatedRouteList`: behind any well-formed tuples, octets that start a
/// tuple of valid length and end before its prefix is complete.
pub proof fn route_across_the_end_is_truncation(routes: Seq<RouteView>, partial: Seq<u8>)
    requires
        routes_wf(routes),
        partial.len() > 0,
        partial[0] <= 32,
        partial.len() < 1 + prefix_octets(partial[0]),
    ensures
        spec_decode_routes(routes_bytes(routes) + partial) == Err::<Seq<RouteView>, ErrorKind>(
            ErrorKind::TruncatedRouteList,
        ),
    decreases routes.len(),
{
    if routes.len() > 0 {
        let first = routes[0];
        let rest = routes.skip(1);
        route_across_the_end_is_truncation(rest, partial);
        let s = routes_bytes(routes) + partial;
        route_decodes_to_itself(first, routes_bytes(rest) + partial);
        assert(s.skip(1 + first.prefix.len() as int) =~= routes_bytes(rest) + partial);
    }
}

} // verus!
