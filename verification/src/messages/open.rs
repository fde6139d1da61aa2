//! The OPEN message, with which a speaker introduces itself.
//!
//! ```text
//! 0                   1                   2                   3
//! 0 1 2 3 4 5 6 7 8 9 0 1 2 3 4 5 6 7 8 9 0 1 2 3 4 5 6 7 8 9 0 1
//! +-+-+-+-+-+-+-+-+
//! |    Version    |
//! +-+-+-+-+-+-+-+-+-+-+-+-+-+-+-+-+
//! |     My Autonomous System      |
//! +-+-+-+-+-+-+-+-+-+-+-+-+-+-+-+-+
//! |           Hold Time           |
//! +-+-+-+-+-+-+-+-+-+-+-+-+-+-+-+-+-+-+-+-+-+-+-+-+-+-+-+-+-+-+-+-+
//! |                         BGP Identifier                        |
//! +-+-+-+-+-+-+-+-+-+-+-+-+-+-+-+-+-+-+-+-+-+-+-+-+-+-+-+-+-+-+-+-+
//! | Opt Parm Len  |
//! +-+-+-+-+-+-+-+-+-+-+-+-+-+-+-+-+-+-+-+-+-+-+-+-+-+-+-+-+-+-+-+-+
//! |                                                               |
//! |             Optional Parameters (variable)                    |
//! |                                                               |
//! +-+-+-+-+-+-+-+-+-+-+-+-+-+-+-+-+-+-+-+-+-+-+-+-+-+-+-+-+-+-+-+-+
//! ```
use vstd::prelude::*;

use super::error::Error;
use super::error::ErrorKind;
use super::header::spec_marker;
use super::header::Header;
use super::header::HeaderView;
use super::header::MessageType;
use super::wire::be16;
use super::wire::be32;
use super::wire::lemma_be16_of_octets;
use super::wire::lemma_be32_of_octets;
use super::wire::read_u16;
use super::wire::read_u32;
use super::wire::u16_octets;
use super::wire::u32_octets;
use super::wire::write_octets;
use super::wire::write_u16;
use super::wire::write_u32;
use super::ASN;

verus! {

/// Octets of an OPEN body before the optional parameters.
pub const OPEN_FIXED_LEN: usize = 10;

/// The protocol version this library speaks.
pub const VERSION: u8 = 4;

/// The body of an OPEN message.
#[derive(Debug, Clone, PartialEq, Eq)]
pub struct Open {
    pub version: u8,
    /// The sender's autonomous system.
    pub asn: ASN,
    /// Seconds the sender proposes for the Hold timer.
    pub hold_time: u16,
    /// The sender's identifier.
    pub bgp_id: u32,
    /// The optional parameters as raw octets. `None` and an empty vector both
    /// mean that there are none.
    pub optional_parameters: Option<Vec<u8>>,
}

/// An OPEN body as a mathematical value.
pub struct OpenView {
    pub version: u8,
    pub asn: u16,
    pub hold_time: u16,
    pub bgp_id: u32,
    pub optional_parameters: Seq<u8>,
}

impl View for Open {
    type V = OpenView;

    open spec fn view(&self) -> OpenView {
        OpenView {
            version: self.version,
            asn: self.asn,
            hold_time: self.hold_time,
            bgp_id: self.bgp_id,
            optional_parameters: match self.optional_parameters {
                None => Seq::empty(),
                Some(p) => p@,
            },
        }
    }
}

impl OpenView {
    /// The ten octets of the fixed fields, the last of them the zero length of
    /// the optional parameters.
    pub open spec fn body(self) -> Seq<u8> {
        seq![self.version] + u16_octets(self.asn) + u16_octets(self.hold_time) + u32_octets(
            self.bgp_id,
        ) + seq![0u8]
    }

    /// The whole message of an OPEN without optional parameters: the header
    /// for a body of ten octets, then the body.
    pub open spec fn message(self) -> Seq<u8> {
        (HeaderView { marker: spec_marker(), length: 29, message_type: MessageType::Open }).bytes()
            + self.body()
    }

    /// A session can be opened on this OPEN: it speaks version 4, proposes a
    /// hold time of zero or of at least three seconds, and has no optional
    /// parameters.
    pub open spec fn acceptable(self) -> bool {
        &&& self.version == 4
        &&& (self.hold_time == 0 || self.hold_time >= 3)
        &&& self.optional_parameters.len() == 0
    }
}

/// What decoding an OPEN body from `s` gives. Octets behind the tenth are not
/// looked at.
pub open spec fn spec_decode_open(s: Seq<u8>) -> Result<OpenView, ErrorKind> {
    if s.len() < 10 {
        Err(ErrorKind::IncompleteRead)
    } else if s[9] != 0 {
        Err(ErrorKind::UnsupportedOptionalParameters)
    } else {
        Ok(
            OpenView {
                version: s[0],
                asn: be16(s[1], s[2]),
                hold_time: be16(s[3], s[4]),
                bgp_id: be32(s[5], s[6], s[7], s[8]),
                optional_parameters: Seq::empty(),
            },
        )
    }
}

impl Open {
    /// Decodes the body of an OPEN message.
    pub fn from_bytes(input: &[u8]) -> (r: Result<Open, Error>)
        ensures
            match r {
                Ok(o) => spec_decode_open(input@) == Ok::<OpenView, ErrorKind>(o@)
                    && o.optional_parameters is None,
                Err(e) => spec_decode_open(input@) == Err::<OpenView, ErrorKind>(e.kind),
            },
    {
        if input.len() < OPEN_FIXED_LEN {
            return Err(Error::new(ErrorKind::IncompleteRead));
        }
        let version: u8 = input[0];
        let asn: u16 = read_u16(input, 1);
        let hold_time: u16 = read_u16(input, 3);
        let bgp_id: u32 = read_u32(input, 5);
        let opt_parm_len: u8 = input[9];
        if opt_parm_len != 0 {
            return Err(Error::new(ErrorKind::UnsupportedOptionalParameters));
        }
        Ok(
            Open {
                version: version,
                asn: asn,
                hold_time: hold_time,
                bgp_id: bgp_id,
                optional_parameters: None,
            },
        )
    }

    /// Bits in the fixed fields of an OPEN body.
    pub fn size(&self) -> (bits: u16)
        ensures
            bits == 8 * OPEN_FIXED_LEN,
    {
        let version_size: u16 = 8;
        let asn_size: u16 = 16;
        let hold_time_size: u16 = 16;
        let bgp_id_size: u16 = 32;
        let opt_parm_len_size: u16 = 8;
        version_size + asn_size + hold_time_size + bgp_id_size + opt_parm_len_size
    }

    /// Octets of optional parameters that this OPEN holds.
    pub fn opt_parm_len(&self) -> (n: usize)
        ensures
            n == self@.optional_parameters.len(),
    {
        match &self.optional_parameters {
            None => 0,
            Some(p) => p.len(),
        }
    }

    /// Whether a session can be opened on this OPEN.
    pub fn is_acceptable(&self) -> (b: bool)
        ensures
            b == self@.acceptable(),
    {
        self.version == VERSION && (self.hold_time == 0 || self.hold_time >= 3)
            && self.opt_parm_len() == 0
    }

    /// Appends the body of this OPEN to `out`. Optional parameters are not
    /// supported: an OPEN that holds any is refused and `out` stays as it was.
    pub fn write_body(&self, out: &mut Vec<u8>) -> (r: Result<(), Error>)
        ensures
            match r {
                Ok(_) => self@.optional_parameters.len() == 0 && final(out)@ == old(out)@
                    + self@.body(),
                Err(e) => self@.optional_parameters.len() > 0 && e.kind
                    == ErrorKind::UnsupportedOptionalParameters && final(out)@ == old(out)@,
            },
    {
        if self.opt_parm_len() != 0 {
            return Err(Error::new(ErrorKind::UnsupportedOptionalParameters));
        }
        out.push(self.version);
        write_u16(out, self.asn);
        write_u16(out, self.hold_time);
        write_u32(out, self.bgp_id);
        out.push(0);
        Ok(())
    }

    /// Appends the whole OPEN message, header and body, to `out`. Optional
    /// parameters are not supported: an OPEN that holds any is refused and
    /// `out` stays as it was.
    pub fn write_bytes(&self, out: &mut Vec<u8>) -> (r: Result<(), Error>)
        ensures
            match r {
                Ok(_) => self@.optional_parameters.len() == 0 && final(out)@ == old(out)@
                    + self@.message(),
                Err(e) => self@.optional_parameters.len() > 0 && e.kind
                    == ErrorKind::UnsupportedOptionalParameters && final(out)@ == old(out)@,
            },
    {
        let mut body: Vec<u8> = Vec::new();
        match self.write_body(&mut body) {
            Err(e) => {
                return Err(e);
            },
            Ok(_) => {},
        }
        match Header::encode(MessageType::Open, body.len()) {
            Err(e) => Err(e),
            Ok(header) => {
                write_octets(out, header.as_slice());
                write_octets(out, body.as_slice());
                Ok(())
            },
        }
    }
}

impl Default for Open {
    /// Version 4, a hold time of sixty seconds, and nothing else set.
    fn default() -> (o: Open)
        ensures
            o@ == (OpenView {
                version: 4,
                asn: 0,
                hold_time: 60,
                bgp_id: 0,
                optional_parameters: Seq::empty(),
            }),
            o.optional_parameters is None,
    {
        Open { version: 4, asn: 0, hold_time: 60, bgp_id: 0, optional_parameters: None }
    }
}

/// Decoding the encoded body of an OPEN without optional parameters gives the
/// OPEN back, whatever follows the body.
pub proof fn open_body_decodes_to_itself(o: OpenView, rest: Seq<u8>)
    requires
        o.optional_parameters.len() == 0,
    ensures
        o.body().len() == 10,
        spec_decode_open(o.body() + rest) == Ok::<OpenView, ErrorKind>(o),
{
    lemma_be16_of_octets(o.asn);
    lemma_be16_of_octets(o.hold_time);
    lemma_be32_of_octets(o.bgp_id);
    assert(o.optional_parameters =~= Seq::empty());
}

} // verus!
