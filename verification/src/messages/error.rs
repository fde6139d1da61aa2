use vstd::prelude::*;

verus! {

/// The ways in which the codec and the session registry can refuse an input.
#[derive(Clone, Copy, Debug, PartialEq, Eq, Structural)]
pub enum ErrorKind {
    /// One of the sixteen marker octets of a header is not `0xFF`.
    MalformedMarker,
    /// A header declares a total length below the nineteen octets of the header itself.
    FrameTooShort,
    /// A header declares, or a message would need, more than 4096 octets.
    FrameTooLong,
    /// The type octet of a header names none of the four message types.
    UnknownMessageType,
    /// The input ends before a field or a declared length is satisfied.
    IncompleteRead,
    /// An OPEN carries optional parameters, which are not supported.
    UnsupportedOptionalParameters,
    /// A list of prefix tuples ends in the middle of a tuple.
    TruncatedRouteList,
    /// A prefix is longer than the thirty-two bits of an IPv4 address.
    InvalidPrefixLength,
    /// A session for the peer is already registered.
    DuplicateSession,
}

/// An error of this library. It is a plain value: no error ends the process.
#[derive(Clone, Copy, Debug, PartialEq, Eq, Structural)]
pub struct Error {
    pub kind: ErrorKind,
}

impl ErrorKind {
    /// What the error says to a reader.
    pub open spec fn spec_message(self) -> Seq<char> {
        match self {
            ErrorKind::MalformedMarker => "invalid marker in header"@,
            ErrorKind::FrameTooShort => "message length below 19 octets"@,
            ErrorKind::FrameTooLong => "message length above 4096 octets"@,
            ErrorKind::UnknownMessageType => "unknown message type"@,
            ErrorKind::IncompleteRead => "input ends before the declared length"@,
            ErrorKind::UnsupportedOptionalParameters => "optional parameters are not supported"@,
            ErrorKind::TruncatedRouteList => "route list ends inside a prefix"@,
            ErrorKind::InvalidPrefixLength => "prefix longer than 32 bits"@,
            ErrorKind::DuplicateSession => "peer already has a session"@,
        }
    }
}

impl Error {
    pub fn new(kind: ErrorKind) -> (e: Error)
        ensures
            e.kind == kind,
    {
        Error { kind }
    }

    /// What the error says to a reader.
    pub fn message(&self) -> (text: String)
        ensures
            text@ == self.kind.spec_message(),
    {
        match self.kind {
            ErrorKind::MalformedMarker => "invalid marker in header".to_owned(),
            ErrorKind::FrameTooShort => "message length below 19 octets".to_owned(),
            ErrorKind::FrameTooLong => "message length above 4096 octets".to_owned(),
            ErrorKind::UnknownMessageType => "unknown message type".to_owned(),
            ErrorKind::IncompleteRead => "input ends before the declared length".to_owned(),
            ErrorKind::UnsupportedOptionalParameters => {
                "optional parameters are not supported".to_owned()
            },
            ErrorKind::TruncatedRouteList => "route list ends inside a prefix".to_owned(),
            ErrorKind::InvalidPrefixLength => "prefix longer than 32 bits".to_owned(),
            ErrorKind::DuplicateSession => "peer already has a session".to_owned(),
        }
    }
}

} // verus!
