//! The fixed header that starts every message.
//!
//! ```text
//! 0                   1                   2                   3
//! 0 1 2 3 4 5 6 7 8 9 0 1 2 3 4 5 6 7 8 9 0 1 2 3 4 5 6 7 8 9 0 1
//! +-+-+-+-+-+-+-+-+-+-+-+-+-+-+-+-+-+-+-+-+-+-+-+-+-+-+-+-+-+-+-+-+
//! |                                                               |
//! +                                                               +
//! |                                                               |
//! +                                                               +
//! |                           Marker                              |
//! +                                                               +
//! |                                                               |
//! +-+-+-+-+-+-+-+-+-+-+-+-+-+-+-+-+-+-+-+-+-+-+-+-+-+-+-+-+-+-+-+-+
//! |          Length               |      Type     |
//! +-+-+-+-+-+-+-+-+-+-+-+-+-+-+-+-+-+-+-+-+-+-+-+-+
//! ```
use vstd::prelude::*;

use super::error::Error;
use super::error::ErrorKind;
use super::wire::be16;
use super::wire::lemma_be16_of_octets;
use super::wire::lemma_octets_of_be16;
use super::wire::read_u16;
use super::wire::u16_octets;
use super::wire::write_u16;

verus! {

/// Octets in the marker.
pub const MARKER_LEN: usize = 16;

/// Octets in a header: marker, length and type.
pub const HEADER_LEN: usize = 19;

/// The most octets a message may have, header included.
pub const MAX_MESSAGE_LEN: usize = 4096;

/// The most octets the body of a message may have.
pub const MAX_BODY_LEN: usize = 4077;

/// The type of a message, sent as one octet.
#[derive(Debug, Clone, Copy, PartialEq, Eq, Structural)]
pub enum MessageType {
    Open,
    Update,
    Notification,
    KeepAlive,
}

impl MessageType {
    /// The octet that stands for this type on the wire.
    pub open spec fn spec_code(self) -> u8 {
        match self {
            MessageType::Open => 1,
            MessageType::Update => 2,
            MessageType::Notification => 3,
            MessageType::KeepAlive => 4,
        }
    }

    /// The type that an octet stands for, if any.
    pub open spec fn spec_from_code(code: u8) -> Option<MessageType> {
        if code == 1 {
            Some(MessageType::Open)
        } else if code == 2 {
            Some(MessageType::Update)
        } else if code == 3 {
            Some(MessageType::Notification)
        } else if code == 4 {
            Some(MessageType::KeepAlive)
        } else {
            None
        }
    }

    pub fn code(self) -> (c: u8)
        ensures
            c == self.spec_code(),
    {
        match self {
            MessageType::Open => 1,
            MessageType::Update => 2,
            MessageType::Notification => 3,
            MessageType::KeepAlive => 4,
        }
    }

    pub fn from_code(code: u8) -> (t: Option<MessageType>)
        ensures
            t == MessageType::spec_from_code(code),
    {
        if code == 1 {
            Some(MessageType::Open)
        } else if code == 2 {
            Some(MessageType::Update)
        } else if code == 3 {
            Some(MessageType::Notification)
        } else if code == 4 {
            Some(MessageType::KeepAlive)
        } else {
            None
        }
    }
}

/// The header of a message.
#[derive(Debug, Clone, Copy)]
pub struct Header {
    /// Sixteen octets, all bits set in a well-formed header.
    pub marker: [u8; 16],
    /// Octets in the whole message, the header's nineteen included.
    pub length: u16,
    pub message_type: MessageType,
}

/// A header as a mathematical value.
pub struct HeaderView {
    pub marker: Seq<u8>,
    pub length: u16,
    pub message_type: MessageType,
}

impl View for Header {
    type V = HeaderView;

    open spec fn view(&self) -> HeaderView {
        HeaderView { marker: self.marker@, length: self.length, message_type: self.message_type }
    }
}

/// The marker of every well-formed header: sixteen octets of `0xFF`.
pub open spec fn spec_marker() -> Seq<u8> {
    Seq::new(16, |i: int| 0xFFu8)
}

impl HeaderView {
    /// The marker has all bits set and the length lies between 19 and 4096.
    pub open spec fn wf(self) -> bool {
        &&& self.marker == spec_marker()
        &&& 19 <= self.length <= 4096
    }

    /// The nineteen octets of the header on the wire.
    pub open spec fn bytes(self) -> Seq<u8> {
        self.marker + u16_octets(self.length) + seq![self.message_type.spec_code()]
    }

    /// Octets of the body that the length leaves behind the header; none
    /// where the length is below the nineteen octets of the header.
    pub open spec fn body_len(self) -> int {
        if self.length >= 19 {
            self.length - 19
        } else {
            0
        }
    }
}

/// One of the marker octets that `s` holds is not `0xFF`.
pub open spec fn marker_violated(s: Seq<u8>) -> bool {
    exists|i: int| 0 <= i < 16 && i < s.len() && #[trigger] s[i] != 0xFF
}

/// What decoding a header from `s` gives. Each field is judged as soon as its
/// octets are there: a wrong marker octet is reported even where the input ends
/// early, and a length out of range even where the type octet is missing.
pub open spec fn spec_decode_header(s: Seq<u8>) -> Result<HeaderView, ErrorKind> {
    if marker_violated(s) {
        Err(ErrorKind::MalformedMarker)
    } else if s.len() < 18 {
        Err(ErrorKind::IncompleteRead)
    } else if be16(s[16], s[17]) < 19 {
        Err(ErrorKind::FrameTooShort)
    } else if be16(s[16], s[17]) > 4096 {
        Err(ErrorKind::FrameTooLong)
    } else if s.len() < 19 {
        Err(ErrorKind::IncompleteRead)
    } else {
        match MessageType::spec_from_code(s[18]) {
            None => Err(ErrorKind::UnknownMessageType),
            Some(t) => Ok(
                HeaderView { marker: spec_marker(), length: be16(s[16], s[17]), message_type: t },
            ),
        }
    }
}

impl Header {
    /// A header with an all-ones marker and the fields given. The length is
    /// taken as it is, whether or not a well-formed header can have it.
    pub fn new(message_type: MessageType, length: u16) -> (h: Header)
        ensures
            h@ == (HeaderView { marker: spec_marker(), length, message_type }),
            h@.wf() <==> 19 <= length <= 4096,
    {
        let h = Header { marker: [u8::MAX; 16], length: length, message_type: message_type };
        assert(h.marker@ =~= spec_marker());
        h
    }

    /// Decodes the header at the start of `input`.
    pub fn from_bytes(input: &[u8]) -> (r: Result<Header, Error>)
        ensures
            match r {
                Ok(h) => spec_decode_header(input@) == Ok::<HeaderView, ErrorKind>(h@) && h@.wf(),
                Err(e) => spec_decode_header(input@) == Err::<HeaderView, ErrorKind>(e.kind),
            },
    {
        let n: usize = if input.len() < MARKER_LEN {
            input.len()
        } else {
            MARKER_LEN
        };
        let mut i: usize = 0;
        while i < n
            invariant
                i <= n,
                n <= 16,
                n <= input@.len(),
                n == 16 || n == input@.len(),
                forall|j: int| 0 <= j < i ==> input@[j] == 0xFF,
            decreases n - i,
        {
            if input[i] != 0xFF {
                return Err(Error::new(ErrorKind::MalformedMarker));
            }
            i += 1;
        }
        if input.len() < 18 {
            return Err(Error::new(ErrorKind::IncompleteRead));
        }
        let length: u16 = read_u16(input, MARKER_LEN);
        if length < 19 {
            return Err(Error::new(ErrorKind::FrameTooShort));
        }
        if length > 4096 {
            return Err(Error::new(ErrorKind::FrameTooLong));
        }
        if input.len() < HEADER_LEN {
            return Err(Error::new(ErrorKind::IncompleteRead));
        }
        match MessageType::from_code(input[18]) {
            None => Err(Error::new(ErrorKind::UnknownMessageType)),
            Some(t) => Ok(Header::new(t, length)),
        }
    }

    /// Octets of the body that follows this header.
    pub fn body_len(&self) -> (n: usize)
        ensures
            n == self@.body_len(),
    {
        if self.length >= 19 {
            (self.length - 19) as usize
        } else {
            0
        }
    }

    /// Appends the nineteen octets of this header to `out`.
    pub fn write_bytes(&self, out: &mut Vec<u8>)
        ensures
            final(out)@ == old(out)@ + self@.bytes(),
    {
        let mut i: usize = 0;
        while i < MARKER_LEN
            invariant
                i <= 16,
                out@ == old(out)@ + self.marker@.subrange(0, i as int),
            decreases 16 - i,
        {
            out.push(self.marker[i]);
            i += 1;
        }
        write_u16(out, self.length);
        out.push(self.message_type.code());
    }

    /// The header of a message of the given type whose body has `body_len`
    /// octets, as it goes on the wire.
    pub fn encode(message_type: MessageType, body_len: usize) -> (r: Result<Vec<u8>, Error>)
        ensures
            match r {
                Ok(bytes) => body_len <= 4077 && bytes@.len() == 19 && bytes@ == (HeaderView {
                    marker: spec_marker(),
                    length: (19 + body_len) as u16,
                    message_type,
                }).bytes(),
                Err(e) => body_len > 4077 && e.kind == ErrorKind::FrameTooLong,
            },
    {
        if body_len > MAX_BODY_LEN {
            return Err(Error::new(ErrorKind::FrameTooLong));
        }
        let h = Header::new(message_type, (HEADER_LEN + body_len) as u16);
        let mut out: Vec<u8> = Vec::new();
        h.write_bytes(&mut out);
        Ok(out)
    }
}

/// A marker octet that is not `0xFF` fails the decoding with
/// `MalformedMarker`, whatever the rest of the input holds and however short
/// the input is.
pub proof fn wrong_marker_is_malformed(s: Seq<u8>, i: int)
    requires
        0 <= i < 16,
        i < s.len(),
        s[i] != 0xFF,
    ensures
        spec_decode_header(s) == Err::<HeaderView, ErrorKind>(ErrorKind::MalformedMarker),
{
}

/// Behind a right marker, a declared length below 19 fails the decoding with
/// `FrameTooShort` and one above 4096 with `FrameTooLong`, whether or not the
/// type octet is there.
pub proof fn length_out_of_range_is_framing_error(s: Seq<u8>)
    requires
        !marker_violated(s),
        s.len() >= 18,
        be16(s[16], s[17]) < 19 || be16(s[16], s[17]) > 4096,
    ensures
        be16(s[16], s[17]) < 19 ==> spec_decode_header(s) == Err::<HeaderView, ErrorKind>(
            ErrorKind::FrameTooShort,
        ),
        be16(s[16], s[17]) > 4096 ==> spec_decode_header(s) == Err::<HeaderView, ErrorKind>(
            ErrorKind::FrameTooLong,
        ),
{
}

/// Decoding the octets of a well-formed header gives the header back,
/// whatever follows them.
pub proof fn header_decodes_to_itself(h: HeaderView, rest: Seq<u8>)
    requires
        h.wf(),
    ensures
        h.bytes().len() == 19,
        spec_decode_header(h.bytes() + rest) == Ok::<HeaderView, ErrorKind>(h),
{
    lemma_be16_of_octets(h.length);
}

/// Where a header decodes, it is well formed and its octets are the first
/// nineteen of the input.
pub proof fn decoded_header_spells_the_input(s: Seq<u8>)
    requires
        spec_decode_header(s) is Ok,
    ensures
        s.len() >= 19,
        spec_decode_header(s)->Ok_0.wf(),
        spec_decode_header(s)->Ok_0.bytes() == s.subrange(0, 19),
{
    lemma_octets_of_be16(s[16], s[17]);
}

} // verus!
