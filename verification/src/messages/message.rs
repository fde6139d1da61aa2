//! Whole messages: a header, and the body that the header's type selects.
use vstd::prelude::*;
use vstd::slice::slice_subrange;

use super::error::Error;
use super::error::ErrorKind;
use super::header::header_decodes_to_itself;
use super::header::spec_decode_header;
use super::header::spec_marker;
use super::header::Header;
use super::header::HeaderView;
use super::header::MessageType;
use super::header::HEADER_LEN;
use super::open::open_body_decodes_to_itself;
use super::open::spec_decode_open;
use super::open::Open;
use super::open::OpenView;
use super::update::spec_decode_update;
use super::update::update_body_decodes_to_itself;
use super::update::Update;
use super::update::UpdateView;
use super::wire::copy_range;
use super::wire::write_octets;

verus! {

/// A decoded message.
#[derive(Debug, Clone, PartialEq, Eq)]
pub enum Message {
    Open(Open),
    Update(Update),
    /// The body of a NOTIFICATION, as it came.
    Notification(Vec<u8>),
    KeepAlive,
}

/// A message as a mathematical value.
pub enum MessageView {
    Open(OpenView),
    Update(UpdateView),
    Notification(Seq<u8>),
    KeepAlive,
}

impl View for Message {
    type V = MessageView;

    open spec fn view(&self) -> MessageView {
        match self {
            Message::Open(o) => MessageView::Open(o@),
            Message::Update(u) => MessageView::Update(u@),
            Message::Notification(body) => MessageView::Notification(body@),
            Message::KeepAlive => MessageView::KeepAlive,
        }
    }
}

impl MessageView {
    /// The type that the header of this message names.
    pub open spec fn message_type(self) -> MessageType {
        match self {
            MessageView::Open(_) => MessageType::Open,
            MessageView::Update(_) => MessageType::Update,
            MessageView::Notification(_) => MessageType::Notification,
            MessageView::KeepAlive => MessageType::KeepAlive,
        }
    }

    /// The body of this message on the wire.
    pub open spec fn body(self) -> Seq<u8> {
        match self {
            MessageView::Open(o) => o.body(),
            MessageView::Update(u) => u.body(),
            MessageView::Notification(body) => body,
            MessageView::KeepAlive => Seq::empty(),
        }
    }

    /// The whole message on the wire, header and body.
    pub open spec fn bytes(self) -> Seq<u8> {
        (HeaderView {
            marker: spec_marker(),
            length: (19 + self.body().len()) as u16,
            message_type: self.message_type(),
        }).bytes() + self.body()
    }

    /// What keeps this message from being encoded, if anything does.
    pub open spec fn refusal(self) -> Option<ErrorKind> {
        match self {
            MessageView::Open(o) => if o.optional_parameters.len() > 0 {
                Some(ErrorKind::UnsupportedOptionalParameters)
            } else {
                None
            },
            MessageView::Update(u) => if !u.routes_valid() {
                Some(ErrorKind::InvalidPrefixLength)
            } else if !u.fits() {
                Some(ErrorKind::FrameTooLong)
            } else {
                None
            },
            MessageView::Notification(body) => if body.len() > 4077 {
                Some(ErrorKind::FrameTooLong)
            } else {
                None
            },
            MessageView::KeepAlive => None,
        }
    }
}

/// What decoding `body` as the body of a message of type `message_type`
/// gives. The body of a NOTIFICATION is kept as it is; that of a KEEPALIVE
/// says nothing and is not looked at.
pub open spec fn spec_decode_body(message_type: MessageType, body: Seq<u8>) -> Result<
    MessageView,
    ErrorKind,
> {
    match message_type {
        MessageType::Open => match spec_decode_open(body) {
            Ok(o) => Ok(MessageView::Open(o)),
            Err(e) => Err(e),
        },
        MessageType::Update => match spec_decode_update(body) {
            Ok(u) => Ok(MessageView::Update(u)),
            Err(e) => Err(e),
        },
        MessageType::Notification => Ok(MessageView::Notification(body)),
        MessageType::KeepAlive => Ok(MessageView::KeepAlive),
    }
}

/// What decoding the message at the start of `s` gives: the header first, then,
/// only where all the octets that the header declares are there, the body.
pub open spec fn spec_decode_message(s: Seq<u8>) -> Result<MessageView, ErrorKind> {
    match spec_decode_header(s) {
        Err(e) => Err(e),
        Ok(h) => if s.len() < h.length {
            Err(ErrorKind::IncompleteRead)
        } else {
            spec_decode_body(h.message_type, s.subrange(19, h.length as int))
        },
    }
}

impl Message {
    /// Decodes `body` as the body of a message of type `message_type`.
    pub fn decode_body(message_type: MessageType, body: &[u8]) -> (r: Result<Message, Error>)
        ensures
            match r {
                Ok(m) => spec_decode_body(message_type, body@) == Ok::<MessageView, ErrorKind>(m@),
                Err(e) => spec_decode_body(message_type, body@) == Err::<MessageView, ErrorKind>(
                    e.kind,
                ),
            },
    {
        match message_type {
            MessageType::Open => match Open::from_bytes(body) {
                Ok(o) => Ok(Message::Open(o)),
                Err(e) => Err(e),
            },
            MessageType::Update => match Update::from_bytes(body) {
                Ok(u) => Ok(Message::Update(u)),
                Err(e) => Err(e),
            },
            MessageType::Notification => {
                let kept = copy_range(body, 0, body.len());
                assert(kept@ =~= body@);
                Ok(Message::Notification(kept))
            },
            MessageType::KeepAlive => Ok(Message::KeepAlive),
        }
    }

    /// Decodes the message at the start of `input`. Octets behind the length
    /// that the header declares are not looked at.
    pub fn from_bytes(input: &[u8]) -> (r: Result<Message, Error>)
        ensures
            match r {
                Ok(m) => spec_decode_message(input@) == Ok::<MessageView, ErrorKind>(m@),
                Err(e) => spec_decode_message(input@) == Err::<MessageView, ErrorKind>(e.kind),
            },
    {
        let header = match Header::from_bytes(input) {
            Err(e) => {
                return Err(e);
            },
            Ok(h) => h,
        };
        let length: usize = header.length as usize;
        if input.len() < length {
            return Err(Error::new(ErrorKind::IncompleteRead));
        }
        Message::decode_body(header.message_type, slice_subrange(input, HEADER_LEN, length))
    }

    /// The type that the header of this message names.
    pub fn message_type(&self) -> (t: MessageType)
        ensures
            t == self@.message_type(),
    {
        match self {
            Message::Open(_) => MessageType::Open,
            Message::Update(_) => MessageType::Update,
            Message::Notification(_) => MessageType::Notification,
            Message::KeepAlive => MessageType::KeepAlive,
        }
    }

    /// Appends the whole message, header and body, to `out`. Where the message
    /// cannot be encoded, the reason is returned and `out` stays as it was.
    pub fn write_bytes(&self, out: &mut Vec<u8>) -> (r: Result<(), Error>)
        ensures
            match r {
                Ok(_) => self@.refusal() is None && final(out)@ == old(out)@ + self@.bytes(),
                Err(e) => self@.refusal() == Some(e.kind) && final(out)@ == old(out)@,
            },
    {
        match self {
            Message::Open(o) => {
                let r = o.write_bytes(out);
                proof {
                    if r is Ok {
                        open_body_decodes_to_itself(o@, Seq::empty());
                    }
                }
                r
            },
            Message::Update(u) => u.write_bytes(out),
            Message::Notification(body) => {
                match Header::encode(MessageType::Notification, body.len()) {
                    Err(e) => Err(e),
                    Ok(header) => {
                        write_octets(out, header.as_slice());
                        write_octets(out, body.as_slice());
                        Ok(())
                    },
                }
            },
            Message::KeepAlive => {
                let header = Header::new(MessageType::KeepAlive, 19);
                header.write_bytes(out);
                Ok(())
            },
        }
    }
}

/// Where the header at the start of the input is in order and declares more
/// octets than the input has, decoding the message fails with
/// `IncompleteRead`.
pub proof fn message_cut_short_is_incomplete_read(s: Seq<u8>)
    requires
        spec_decode_header(s) is Ok,
        s.len() < spec_decode_header(s)->Ok_0.length,
    ensures
        spec_decode_message(s) == Err::<MessageView, ErrorKind>(ErrorKind::IncompleteRead),
{
}

/// An OPEN without optional parameters, encoded as a whole message, decodes
/// to itself, whatever follows the message.
pub proof fn open_message_decodes_to_itself(o: OpenView, rest: Seq<u8>)
    requires
        o.optional_parameters.len() == 0,
    ensures
        MessageView::Open(o).bytes() == o.message(),
        spec_decode_message(o.message() + rest) == Ok::<MessageView, ErrorKind>(
            MessageView::Open(o),
        ),
{
    let h = HeaderView { marker: spec_marker(), length: 29, message_type: MessageType::Open };
    open_body_decodes_to_itself(o, Seq::empty());
    header_decodes_to_itself(h, o.body() + rest);
}

/// A well-formed header in front of as many octets as it declares decodes to
/// itself, and the body it sets apart is those octets, whatever follows them.
pub proof fn framed_body_is_set_apart(h: HeaderView, body: Seq<u8>, rest: Seq<u8>)
    requires
        h.wf(),
        h.length == 19 + body.len(),
    ensures
        spec_decode_header(h.bytes() + body + rest) == Ok::<HeaderView, ErrorKind>(h),
        (h.bytes() + body + rest).len() >= h.length,
        (h.bytes() + body + rest).subrange(19, h.length as int) == body,
{
    header_decodes_to_itself(h, body + rest);
}

/// Every message that can be encoded decodes, from its own octets, to itself,
/// whatever follows the message.
pub proof fn message_decodes_to_itself(m: MessageView, rest: Seq<u8>)
    requires
        m.refusal() is None,
    ensures
        spec_decode_message(m.bytes() + rest) == Ok::<MessageView, ErrorKind>(m),
{
    let body = m.body();
    let h = HeaderView {
        marker: spec_marker(),
        length: (19 + body.len()) as u16,
        message_type: m.message_type(),
    };
    assert(spec_decode_body(m.message_type(), body) == Ok::<MessageView, ErrorKind>(m)
        && body.len() <= 4077) by {
        match m {
            MessageView::Open(o) => {
                open_body_decodes_to_itself(o, Seq::empty());
            },
            MessageView::Update(u) => {
                update_body_decodes_to_itself(u);
            },
            MessageView::Notification(_) => {},
            MessageView::KeepAlive => {},
        }
    }
    framed_body_is_set_apart(h, body, rest);
}

} // verus!
