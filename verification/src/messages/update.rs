//! The UPDATE message, which withdraws routes and announces new ones.
//!
//! ```text
//! +-----------------------------------------------------+
//! |   Withdrawn Routes Length (2 octets)                |
//! +-----------------------------------------------------+
//! |   Withdrawn Routes (variable)                       |
//! +-----------------------------------------------------+
//! |   Total Path Attribute Length (2 octets)            |
//! +-----------------------------------------------------+
//! |   Path Attributes (variable)                        |
//! +-----------------------------------------------------+
//! |   Network Layer Reachability Information (variable) |
//! +-----------------------------------------------------+
//! ```
//!
//! Both lengths count octets, not entries. Each list is decoded inside the
//! octets that its length sets apart, and must fill them to the last.
use vstd::prelude::*;

use super::error::Error;
use super::error::ErrorKind;
use super::header::spec_marker;
use super::header::Header;
use super::header::HeaderView;
use super::header::MessageType;
use super::header::MAX_BODY_LEN;
use super::route::decode_routes;
use super::route::decoded_routes_fill_the_input;
use super::route::prefix_octets;
use super::route::route_across_the_end_is_truncation;
use super::route::route_views;
use super::route::routes_bytes;
use super::route::routes_bytes_of_joined;
use super::route::routes_decode_to_themselves;
use super::route::routes_wf;
use super::route::spec_decode_routes;
use super::route::Route;
use super::route::RouteView;
use super::wire::be16;
use super::wire::copy_range;
use super::wire::lemma_be16_of_octets;
use super::wire::lemma_octets_of_be16;
use super::wire::read_u16;
use super::wire::u16_octets;
use super::wire::write_octets;
use super::wire::write_u16;

verus! {

/// The flag bit that gives an attribute a length field of two octets.
pub const EXTENDED_LENGTH: u8 = 0x10;

/// Whether the flags give the attribute a length field of two octets.
pub open spec fn extended_length(flags: u8) -> bool {
    (flags & 0x10) != 0
}

/// One path attribute: a record of flags, type and value. What the value
/// means is not this library's business; it is carried as it came.
#[derive(Debug, Clone, PartialEq, Eq)]
pub struct PathAttributes {
    pub flags: u8,
    pub type_code: u8,
    pub value: Vec<u8>,
}

/// A path attribute as a mathematical value.
pub struct PathAttributesView {
    pub flags: u8,
    pub type_code: u8,
    pub value: Seq<u8>,
}

impl View for PathAttributes {
    type V = PathAttributesView;

    open spec fn view(&self) -> PathAttributesView {
        PathAttributesView { flags: self.flags, type_code: self.type_code, value: self.value@ }
    }
}

impl PathAttributesView {
    /// Octets before the value: flags, type, and a length of one or two octets.
    pub open spec fn header_len(self) -> int {
        if extended_length(self.flags) {
            4
        } else {
            3
        }
    }

    /// The value is no longer than the length field can say.
    pub open spec fn wf(self) -> bool {
        if extended_length(self.flags) {
            self.value.len() <= 65535
        } else {
            self.value.len() <= 255
        }
    }

    /// The record on the wire.
    pub open spec fn bytes(self) -> Seq<u8> {
        if extended_length(self.flags) {
            seq![self.flags, self.type_code] + u16_octets(self.value.len() as u16) + self.value
        } else {
            seq![self.flags, self.type_code, self.value.len() as u8] + self.value
        }
    }
}

/// The values of a vector of attributes.
pub open spec fn attribute_views(attributes: Seq<PathAttributes>) -> Seq<PathAttributesView> {
    Seq::new(attributes.len(), |i: int| attributes[i]@)
}

/// Every attribute of the list is well formed.
pub open spec fn attributes_wf(attributes: Seq<PathAttributesView>) -> bool {
    forall|i: int| 0 <= i < attributes.len() ==> (#[trigger] attributes[i]).wf()
}

/// The attributes of a list on the wire, one behind the other.
pub open spec fn attributes_bytes(attributes: Seq<PathAttributesView>) -> Seq<u8>
    decreases attributes.len(),
{
    if attributes.len() == 0 {
        Seq::empty()
    } else {
        attributes[0].bytes() + attributes_bytes(attributes.skip(1))
    }
}

/// What decoding the attribute at the start of `s` gives. Only the framing is
/// judged: the record must lie within `s`.
pub open spec fn spec_decode_attribute(s: Seq<u8>) -> Result<PathAttributesView, ErrorKind> {
    if s.len() < 3 {
        Err(ErrorKind::IncompleteRead)
    } else if extended_length(s[0]) {
        if s.len() < 4 {
            Err(ErrorKind::IncompleteRead)
        } else if s.len() < 4 + be16(s[2], s[3]) {
            Err(ErrorKind::IncompleteRead)
        } else {
            Ok(
                PathAttributesView {
                    flags: s[0],
                    type_code: s[1],
                    value: s.subrange(4, 4 + be16(s[2], s[3])),
                },
            )
        }
    } else {
        if s.len() < 3 + s[2] {
            Err(ErrorKind::IncompleteRead)
        } else {
            Ok(PathAttributesView { flags: s[0], type_code: s[1], value: s.subrange(3, 3 + s[2]) })
        }
    }
}

/// What decoding `s` as a list of attributes gives: the attributes in order
/// where they fill `s` to its last octet, else the error of the first record
/// that fails.
pub open spec fn spec_decode_attributes(s: Seq<u8>) -> Result<Seq<PathAttributesView>, ErrorKind>
    decreases s.len(),
{
    if s.len() == 0 {
        Ok(Seq::empty())
    } else {
        match spec_decode_attribute(s) {
            Err(e) => Err(e),
            Ok(first) => match spec_decode_attributes(
                s.skip(first.header_len() + first.value.len()),
            ) {
                Err(e) => Err(e),
                Ok(rest) => Ok(seq![first] + rest),
            },
        }
    }
}

/// The attributes already decoded, followed by what the rest of the input
/// gives.
pub open spec fn attributes_then(
    done: Seq<PathAttributesView>,
    rest: Result<Seq<PathAttributesView>, ErrorKind>,
) -> Result<Seq<PathAttributesView>, ErrorKind> {
    match rest {
        Ok(more) => Ok(done + more),
        Err(e) => Err(e),
    }
}

/// Whether the flags give the attribute a length field of two octets.
pub fn has_extended_length(flags: u8) -> (b: bool)
    ensures
        b == extended_length(flags),
{
    (flags & 0x10) != 0
}

/// Decodes the attribute that starts at `at` and must end by `end`.
pub(crate) fn decode_attribute_at(input: &[u8], at: usize, end: usize) -> (r: Result<
    PathAttributes,
    Error,
>)
    requires
        at <= end <= input@.len(),
    ensures
        match r {
            Ok(attribute) => spec_decode_attribute(input@.subrange(at as int, end as int)) == Ok::<
                PathAttributesView,
                ErrorKind,
            >(attribute@) && attribute@.wf() && at + attribute@.header_len()
                + attribute@.value.len() <= end,
            Err(e) => spec_decode_attribute(input@.subrange(at as int, end as int)) == Err::<
                PathAttributesView,
                ErrorKind,
            >(e.kind),
        },
{
    let ghost window = input@.subrange(at as int, end as int);
    if end - at < 3 {
        return Err(Error::new(ErrorKind::IncompleteRead));
    }
    let flags: u8 = input[at];
    let type_code: u8 = input[at + 1];
    let header_len: usize;
    let value_len: usize;
    if has_extended_length(flags) {
        if end - at < 4 {
            return Err(Error::new(ErrorKind::IncompleteRead));
        }
        header_len = 4;
        value_len = read_u16(input, at + 2) as usize;
    } else {
        header_len = 3;
        value_len = input[at + 2] as usize;
    }
    if end - at - header_len < value_len {
        return Err(Error::new(ErrorKind::IncompleteRead));
    }
    let value = copy_range(input, at + header_len, at + header_len + value_len);
    assert(value@ =~= window.subrange(header_len as int, header_len + value_len));
    Ok(PathAttributes { flags: flags, type_code: type_code, value: value })
}

/// Decodes the octets from `start` up to `end` as a list of attributes.
pub(crate) fn decode_attributes(input: &[u8], start: usize, end: usize) -> (r: Result<
    Vec<PathAttributes>,
    Error,
>)
    requires
        start <= end <= input@.len(),
    ensures
        match r {
            Ok(attributes) => spec_decode_attributes(input@.subrange(start as int, end as int))
                == Ok::<Seq<PathAttributesView>, ErrorKind>(attribute_views(attributes@))
                && attributes_wf(attribute_views(attributes@)),
            Err(e) => spec_decode_attributes(input@.subrange(start as int, end as int)) == Err::<
                Seq<PathAttributesView>,
                ErrorKind,
            >(e.kind),
        },
{
    let ghost whole = input@.subrange(start as int, end as int);
    let mut attributes: Vec<PathAttributes> = Vec::new();
    let mut pos: usize = start;
    while pos < end
        invariant
            start <= pos <= end <= input@.len(),
            whole == input@.subrange(start as int, end as int),
            attributes_wf(attribute_views(attributes@)),
            spec_decode_attributes(whole) == attributes_then(
                attribute_views(attributes@),
                spec_decode_attributes(input@.subrange(pos as int, end as int)),
            ),
        decreases end - pos,
    {
        let ghost window = input@.subrange(pos as int, end as int);
        let ghost done = attribute_views(attributes@);
        match decode_attribute_at(input, pos, end) {
            Err(e) => {
                return Err(e);
            },
            Ok(attribute) => {
                let header_len: usize = if has_extended_length(attribute.flags) {
                    4
                } else {
                    3
                };
                let n: usize = header_len + attribute.value.len();
                let ghost first = attribute@;
                let ghost tail = input@.subrange(pos + n, end as int);
                proof {
                    assert(window.skip(first.header_len() + first.value.len()) =~= tail);
                    assert(attribute_views(attributes@.push(attribute)) =~= done.push(first));
                    if spec_decode_attributes(tail) is Ok {
                        let rest = spec_decode_attributes(tail)->Ok_0;
                        assert(done + (seq![first] + rest) =~= done.push(first) + rest);
                    }
                }
                pos = pos + n;
                attributes.push(attribute);
            },
        }
    }
    Ok(attributes)
}

impl PathAttributes {
    /// Decodes the attribute at the start of `input`.
    pub fn from_bytes(input: &[u8]) -> (r: Result<PathAttributes, Error>)
        ensures
            match r {
                Ok(attribute) => spec_decode_attribute(input@) == Ok::<
                    PathAttributesView,
                    ErrorKind,
                >(attribute@) && attribute@.wf(),
                Err(e) => spec_decode_attribute(input@) == Err::<PathAttributesView, ErrorKind>(
                    e.kind,
                ),
            },
    {
        assert(input@.subrange(0, input@.len() as int) =~= input@);
        decode_attribute_at(input, 0, input.len())
    }

    /// Whether the value is no longer than the length field can say.
    pub fn is_wf(&self) -> (b: bool)
        ensures
            b == self@.wf(),
    {
        if has_extended_length(self.flags) {
            self.value.len() <= 65535
        } else {
            self.value.len() <= 255
        }
    }

    /// Appends the record to `out`. A record whose value is longer than its
    /// length field can say is refused and `out` stays as it was.
    pub fn write_bytes(&self, out: &mut Vec<u8>) -> (r: Result<(), Error>)
        ensures
            match r {
                Ok(_) => self@.wf() && final(out)@ == old(out)@ + self@.bytes(),
                Err(e) => !self@.wf() && e.kind == ErrorKind::FrameTooLong && final(out)@ == old(
                    out,
                )@,
            },
    {
        if !self.is_wf() {
            return Err(Error::new(ErrorKind::FrameTooLong));
        }
        out.push(self.flags);
        out.push(self.type_code);
        if has_extended_length(self.flags) {
            write_u16(out, self.value.len() as u16);
        } else {
            out.push(self.value.len() as u8);
        }
        write_octets(out, self.value.as_slice());
        Ok(())
    }
}

/// The body of an UPDATE message.
#[derive(Debug, Clone, PartialEq, Eq)]
pub struct Update {
    /// Routes taken out of service.
    pub withdrawn_routes: Vec<Route>,
    /// The attributes of the routes announced.
    pub path_attributes: Vec<PathAttributes>,
    /// Routes announced.
    pub nlri: Vec<Route>,
}

/// An UPDATE body as a mathematical value.
pub struct UpdateView {
    pub withdrawn_routes: Seq<RouteView>,
    pub path_attributes: Seq<PathAttributesView>,
    pub nlri: Seq<RouteView>,
}

impl View for Update {
    type V = UpdateView;

    open spec fn view(&self) -> UpdateView {
        UpdateView {
            withdrawn_routes: route_views(self.withdrawn_routes@),
            path_attributes: attribute_views(self.path_attributes@),
            nlri: route_views(self.nlri@),
        }
    }
}

impl UpdateView {
    /// The body on the wire: the length of the withdrawn routes and the
    /// routes, the length of the attributes and the attributes, then the
    /// routes announced, with nothing in between.
    pub open spec fn body(self) -> Seq<u8> {
        u16_octets(routes_bytes(self.withdrawn_routes).len() as u16) + routes_bytes(
            self.withdrawn_routes,
        ) + u16_octets(attributes_bytes(self.path_attributes).len() as u16) + attributes_bytes(
            self.path_attributes,
        ) + routes_bytes(self.nlri)
    }

    /// The whole message, header and body.
    pub open spec fn message(self) -> Seq<u8> {
        (HeaderView {
            marker: spec_marker(),
            length: (19 + self.body().len()) as u16,
            message_type: MessageType::Update,
        }).bytes() + self.body()
    }

    /// Every route, withdrawn or announced, is well formed.
    pub open spec fn routes_valid(self) -> bool {
        routes_wf(self.withdrawn_routes) && routes_wf(self.nlri)
    }

    /// Every attribute is well formed and the message stays within 4096
    /// octets.
    pub open spec fn fits(self) -> bool {
        attributes_wf(self.path_attributes) && 19 + self.body().len() <= 4096
    }
}

/// What decoding an UPDATE body from `s` gives. The steps come in the order of
/// the fields, each inside the octets that the length before it sets apart, and
/// the first that fails gives the error.
pub open spec fn spec_decode_update(s: Seq<u8>) -> Result<UpdateView, ErrorKind> {
    if s.len() < 2 {
        Err(ErrorKind::IncompleteRead)
    } else {
        let w = be16(s[0], s[1]) as int;
        if s.len() < 2 + w {
            Err(ErrorKind::TruncatedRouteList)
        } else {
            match spec_decode_routes(s.subrange(2, 2 + w)) {
                Err(e) => Err(e),
                Ok(withdrawn_routes) => if s.len() < 2 + w + 2 {
                    Err(ErrorKind::IncompleteRead)
                } else {
                    let a = be16(s[2 + w], s[2 + w + 1]) as int;
                    if s.len() < 2 + w + 2 + a {
                        Err(ErrorKind::IncompleteRead)
                    } else {
                        match spec_decode_attributes(s.subrange(2 + w + 2, 2 + w + 2 + a)) {
                            Err(e) => Err(e),
                            Ok(path_attributes) => match spec_decode_routes(
                                s.subrange(2 + w + 2 + a, s.len() as int),
                            ) {
                                Err(e) => Err(e),
                                Ok(nlri) => Ok(
                                    UpdateView { withdrawn_routes, path_attributes, nlri },
                                ),
                            },
                        }
                    }
                },
            }
        }
    }
}

/// Writes a list of tuples out into a vector of its own.
pub(crate) fn encode_routes(routes: &Vec<Route>) -> (r: Result<Vec<u8>, Error>)
    ensures
        match r {
            Ok(bytes) => routes_wf(route_views(routes@)) && bytes@ == routes_bytes(
                route_views(routes@),
            ),
            Err(e) => !routes_wf(route_views(routes@)) && e.kind == ErrorKind::InvalidPrefixLength,
        },
{
    let ghost views = route_views(routes@);
    let mut bytes: Vec<u8> = Vec::new();
    let mut i: usize = 0;
    while i < routes.len()
        invariant
            i <= routes@.len(),
            views == route_views(routes@),
            routes_wf(views.subrange(0, i as int)),
            bytes@ == routes_bytes(views.subrange(0, i as int)),
        decreases routes@.len() - i,
    {
        let ghost before = views.subrange(0, i as int);
        let ghost one = seq![views[i as int]];
        match routes[i].write_bytes(&mut bytes) {
            Err(e) => {
                return Err(e);
            },
            Ok(_) => {},
        }
        proof {
            assert(routes_bytes(one.skip(1)) =~= Seq::<u8>::empty());
            routes_bytes_of_joined(before, one);
            assert(views.subrange(0, i + 1) =~= before + one);
        }
        i += 1;
    }
    assert(views.subrange(0, i as int) =~= views);
    Ok(bytes)
}

/// The octets of two lists, one behind the other, are the octets of the
/// joined list.
pub proof fn attributes_bytes_of_joined(a: Seq<PathAttributesView>, b: Seq<PathAttributesView>)
    ensures
        attributes_bytes(a + b) == attributes_bytes(a) + attributes_bytes(b),
    decreases a.len(),
{
    if a.len() > 0 {
        attributes_bytes_of_joined(a.skip(1), b);
        assert((a + b).skip(1) =~= a.skip(1) + b);
    }
}

/// Writes a list of attributes out into a vector of its own.
pub(crate) fn encode_attributes(attributes: &Vec<PathAttributes>) -> (r: Result<Vec<u8>, Error>)
    ensures
        match r {
            Ok(bytes) => attributes_wf(attribute_views(attributes@)) && bytes@ == attributes_bytes(
                attribute_views(attributes@),
            ),
            Err(e) => !attributes_wf(attribute_views(attributes@)) && e.kind
                == ErrorKind::FrameTooLong,
        },
{
    let ghost views = attribute_views(attributes@);
    let mut bytes: Vec<u8> = Vec::new();
    let mut i: usize = 0;
    while i < attributes.len()
        invariant
            i <= attributes@.len(),
            views == attribute_views(attributes@),
            attributes_wf(views.subrange(0, i as int)),
            bytes@ == attributes_bytes(views.subrange(0, i as int)),
        decreases attributes@.len() - i,
    {
        let ghost before = views.subrange(0, i as int);
        let ghost one = seq![views[i as int]];
        match attributes[i].write_bytes(&mut bytes) {
            Err(e) => {
                return Err(e);
            },
            Ok(_) => {},
        }
        proof {
            assert(attributes_bytes(one.skip(1)) =~= Seq::<u8>::empty());
            attributes_bytes_of_joined(before, one);
            assert(views.subrange(0, i + 1) =~= before + one);
        }
        i += 1;
    }
    assert(views.subrange(0, i as int) =~= views);
    Ok(bytes)
}

impl Update {
    /// Decodes the body of an UPDATE message.
    pub fn from_bytes(input: &[u8]) -> (r: Result<Update, Error>)
        ensures
            match r {
                Ok(u) => spec_decode_update(input@) == Ok::<UpdateView, ErrorKind>(u@)
                    && u@.routes_valid() && attributes_wf(u@.path_attributes),
                Err(e) => spec_decode_update(input@) == Err::<UpdateView, ErrorKind>(e.kind),
            },
    {
        let len: usize = input.len();
        if len < 2 {
            return Err(Error::new(ErrorKind::IncompleteRead));
        }
        let w: usize = read_u16(input, 0) as usize;
        if len - 2 < w {
            return Err(Error::new(ErrorKind::TruncatedRouteList));
        }
        let withdrawn_routes = match decode_routes(input, 2, 2 + w) {
            Err(e) => {
                return Err(e);
            },
            Ok(routes) => routes,
        };
        let at: usize = 2 + w;
        if len - at < 2 {
            return Err(Error::new(ErrorKind::IncompleteRead));
        }
        let a: usize = read_u16(input, at) as usize;
        if len - at - 2 < a {
            return Err(Error::new(ErrorKind::IncompleteRead));
        }
        let path_attributes = match decode_attributes(input, at + 2, at + 2 + a) {
            Err(e) => {
                return Err(e);
            },
            Ok(attributes) => attributes,
        };
        let nlri = match decode_routes(input, at + 2 + a, len) {
            Err(e) => {
                return Err(e);
            },
            Ok(routes) => routes,
        };
        Ok(
            Update {
                withdrawn_routes: withdrawn_routes,
                path_attributes: path_attributes,
                nlri: nlri,
            },
        )
    }

    /// Appends the body of this UPDATE to `out`. An UPDATE with a route that
    /// is not well formed is refused with `InvalidPrefixLength`; one whose
    /// routes are in order but which has an attribute that is not well formed,
    /// or which would not fit a message, with `FrameTooLong`. Where it is
    /// refused, `out` stays as it was.
    pub fn write_body(&self, out: &mut Vec<u8>) -> (r: Result<(), Error>)
        ensures
            match r {
                Ok(_) => self@.routes_valid() && self@.fits() && final(out)@ == old(out)@
                    + self@.body(),
                Err(e) => final(out)@ == old(out)@ && if !self@.routes_valid() {
                    e.kind == ErrorKind::InvalidPrefixLength
                } else {
                    !self@.fits() && e.kind == ErrorKind::FrameTooLong
                },
            },
    {
        let withdrawn = match encode_routes(&self.withdrawn_routes) {
            Err(e) => {
                return Err(e);
            },
            Ok(bytes) => bytes,
        };
        let nlri = match encode_routes(&self.nlri) {
            Err(e) => {
                return Err(e);
            },
            Ok(bytes) => bytes,
        };
        let attributes = match encode_attributes(&self.path_attributes) {
            Err(e) => {
                return Err(e);
            },
            Ok(bytes) => bytes,
        };
        if withdrawn.len() > MAX_BODY_LEN || attributes.len() > MAX_BODY_LEN || nlri.len()
            > MAX_BODY_LEN {
            return Err(Error::new(ErrorKind::FrameTooLong));
        }
        if 4 + withdrawn.len() + attributes.len() + nlri.len() > MAX_BODY_LEN {
            return Err(Error::new(ErrorKind::FrameTooLong));
        }
        write_u16(out, withdrawn.len() as u16);
        write_octets(out, withdrawn.as_slice());
        write_u16(out, attributes.len() as u16);
        write_octets(out, attributes.as_slice());
        write_octets(out, nlri.as_slice());
        Ok(())
    }

    /// Appends the whole UPDATE message, header and body, to `out`. It is
    /// refused as `write_body` refuses it, and `out` then stays as it was.
    pub fn write_bytes(&self, out: &mut Vec<u8>) -> (r: Result<(), Error>)
        ensures
            match r {
                Ok(_) => self@.routes_valid() && self@.fits() && final(out)@ == old(out)@
                    + self@.message(),
                Err(e) => final(out)@ == old(out)@ && if !self@.routes_valid() {
                    e.kind == ErrorKind::InvalidPrefixLength
                } else {
                    !self@.fits() && e.kind == ErrorKind::FrameTooLong
                },
            },
    {
        let mut body: Vec<u8> = Vec::new();
        match self.write_body(&mut body) {
            Err(e) => {
                return Err(e);
            },
            Ok(_) => {},
        }
        let header = Header::new(MessageType::Update, (19 + body.len()) as u16);
        header.write_bytes(out);
        write_octets(out, body.as_slice());
        Ok(())
    }
}

impl Default for Update {
    /// An UPDATE that withdraws and announces nothing.
    fn default() -> (u: Update)
        ensures
            u@ == (UpdateView {
                withdrawn_routes: Seq::empty(),
                path_attributes: Seq::empty(),
                nlri: Seq::empty(),
            }),
    {
        let u = Update {
            withdrawn_routes: Vec::with_capacity(0),
            path_attributes: Vec::with_capacity(0),
            nlri: Vec::with_capacity(0),
        };
        assert(u@.withdrawn_routes =~= Seq::empty());
        assert(u@.path_attributes =~= Seq::empty());
        assert(u@.nlri =~= Seq::empty());
        u
    }
}

/// Where an UPDATE body decodes, the withdrawn routes are well formed and
/// spell out the octets that their length set apart, all of them and no octet
/// more.
pub proof fn withdrawn_routes_fill_their_length(s: Seq<u8>)
    requires
        spec_decode_update(s) is Ok,
    ensures
        s.len() >= 2 + be16(s[0], s[1]),
        routes_wf(spec_decode_update(s)->Ok_0.withdrawn_routes),
        routes_bytes(spec_decode_update(s)->Ok_0.withdrawn_routes) == s.subrange(
            2,
            2 + be16(s[0], s[1]),
        ),
{
    decoded_routes_fill_the_input(s.subrange(2, 2 + be16(s[0], s[1])));
}

/// A withdrawn route that would run across the end of the octets that the
/// length set apart fails the decoding with `TruncatedRouteList`, whatever
/// follows those octets.
pub proof fn withdrawn_route_across_the_length_is_truncation(
    s: Seq<u8>,
    routes: Seq<RouteView>,
    partial: Seq<u8>,
)
    requires
        s.len() >= 2,
        s.len() >= 2 + be16(s[0], s[1]),
        s.subrange(2, 2 + be16(s[0], s[1])) == routes_bytes(routes) + partial,
        routes_wf(routes),
        partial.len() > 0,
        partial[0] <= 32,
        partial.len() < 1 + prefix_octets(partial[0]),
    ensures
        spec_decode_update(s) == Err::<UpdateView, ErrorKind>(ErrorKind::TruncatedRouteList),
{
    route_across_the_end_is_truncation(routes, partial);
}

/// A well-formed attribute decodes to itself, whatever follows it.
pub proof fn attribute_decodes_to_itself(attribute: PathAttributesView, rest: Seq<u8>)
    requires
        attribute.wf(),
    ensures
        attribute.bytes().len() == attribute.header_len() + attribute.value.len(),
        spec_decode_attribute(attribute.bytes() + rest) == Ok::<PathAttributesView, ErrorKind>(
            attribute,
        ),
{
    let s = attribute.bytes() + rest;
    let n = attribute.value.len() as int;
    if extended_length(attribute.flags) {
        lemma_be16_of_octets(n as u16);
        assert(s.subrange(4, 4 + n) =~= attribute.value);
    } else {
        assert(s.subrange(3, 3 + n) =~= attribute.value);
    }
}

/// A list of well-formed attributes, written out, decodes to itself.
pub proof fn attributes_decode_to_themselves(attributes: Seq<PathAttributesView>)
    requires
        attributes_wf(attributes),
    ensures
        spec_decode_attributes(attributes_bytes(attributes)) == Ok::<
            Seq<PathAttributesView>,
            ErrorKind,
        >(attributes),
    decreases attributes.len(),
{
    if attributes.len() == 0 {
        assert(attributes =~= Seq::empty());
    } else {
        let first = attributes[0];
        let rest = attributes.skip(1);
        attributes_decode_to_themselves(rest);
        attribute_decodes_to_itself(first, attributes_bytes(rest));
        let s = attributes_bytes(attributes);
        assert(s.skip(first.header_len() + first.value.len()) =~= attributes_bytes(rest));
        assert(seq![first] + rest =~= attributes);
    }
}

/// Where a list of attributes decodes, the attributes are well formed and
/// spell the input out octet for octet.
pub proof fn decoded_attributes_fill_the_input(s: Seq<u8>)
    requires
        spec_decode_attributes(s) is Ok,
    ensures
        attributes_wf(spec_decode_attributes(s)->Ok_0),
        attributes_bytes(spec_decode_attributes(s)->Ok_0) == s,
    decreases s.len(),
{
    if s.len() > 0 {
        let first = spec_decode_attribute(s)->Ok_0;
        let tail = s.skip(first.header_len() + first.value.len());
        decoded_attributes_fill_the_input(tail);
        let rest = spec_decode_attributes(tail)->Ok_0;
        let all = seq![first] + rest;
        assert(all.skip(1) =~= rest);
        if extended_length(first.flags) {
            lemma_octets_of_be16(s[2], s[3]);
        }
    }
}

/// The encoded body of an UPDATE whose routes and attributes are well formed
/// and which fits a message decodes to the UPDATE.
pub proof fn update_body_decodes_to_itself(u: UpdateView)
    requires
        u.routes_valid(),
        u.fits(),
    ensures
        spec_decode_update(u.body()) == Ok::<UpdateView, ErrorKind>(u),
{
    let wb = routes_bytes(u.withdrawn_routes);
    let ab = attributes_bytes(u.path_attributes);
    let nb = routes_bytes(u.nlri);
    let w = wb.len() as int;
    let a = ab.len() as int;
    let s = u.body();
    lemma_be16_of_octets(w as u16);
    lemma_be16_of_octets(a as u16);
    assert(s.subrange(2, 2 + w) =~= wb);
    assert(s.subrange(2 + w + 2, 2 + w + 2 + a) =~= ab);
    assert(s.subrange(2 + w + 2 + a, s.len() as int) =~= nb);
    routes_decode_to_themselves(u.withdrawn_routes);
    attributes_decode_to_themselves(u.path_attributes);
    routes_decode_to_themselves(u.nlri);
}

/// Where an UPDATE body decodes, the UPDATE is in order and its encoding is
/// the input, octet for octet: every octet of the body was accounted for.
pub proof fn decoded_update_spells_the_input(s: Seq<u8>)
    requires
        spec_decode_update(s) is Ok,
    ensures
        spec_decode_update(s)->Ok_0.routes_valid(),
        attributes_wf(spec_decode_update(s)->Ok_0.path_attributes),
        spec_decode_update(s)->Ok_0.body() == s,
{
    let w = be16(s[0], s[1]) as int;
    let a = be16(s[2 + w], s[2 + w + 1]) as int;
    decoded_routes_fill_the_input(s.subrange(2, 2 + w));
    decoded_attributes_fill_the_input(s.subrange(2 + w + 2, 2 + w + 2 + a));
    decoded_routes_fill_the_input(s.subrange(2 + w + 2 + a, s.len() as int));
    lemma_octets_of_be16(s[0], s[1]);
    lemma_octets_of_be16(s[2 + w], s[2 + w + 1]);
}

} // verus!
