//! The message envelope: maps a message-type code, supplied out-of-band by
//! the transport layer, to a message-body decoder, and wraps the body in a
//! tagged union over the supported protocol surface. An unrecognized type
//! code is surfaced as an explicit error, never silently dropped.

use vstd::prelude::*;

use crate::error::{DecodeError, ErrorCause};
use crate::link::{
    spec_link_message_bytes, spec_link_message_canonical, spec_link_message_wf,
    spec_parse_link_message, spec_view_link_message, LinkMessage, LinkMessageV,
};

verus! {

/// Message type: report or create a link.
pub const RTM_NEWLINK: u16 = 16;

/// Message type: delete a link.
pub const RTM_DELLINK: u16 = 17;

/// Message type: query a link.
pub const RTM_GETLINK: u16 = 18;

/// Message type: modify a link.
pub const RTM_SETLINK: u16 = 19;

/// A whole protocol message: one case per supported message-type code,
/// owning its body exclusively.
#[derive(Debug, PartialEq, Eq)]
pub enum RouteNetlinkMessage {
    NewLink(LinkMessage),
    DelLink(LinkMessage),
    GetLink(LinkMessage),
    SetLink(LinkMessage),
}

/// The mathematical form of a protocol message.
pub ghost enum RouteNetlinkMessageV {
    NewLink(LinkMessageV),
    DelLink(LinkMessageV),
    GetLink(LinkMessageV),
    SetLink(LinkMessageV),
}

/// The mathematical form of a protocol message value.
pub open spec fn spec_view_route_message(m: RouteNetlinkMessage) -> RouteNetlinkMessageV {
    match m {
        RouteNetlinkMessage::NewLink(b) => RouteNetlinkMessageV::NewLink(spec_view_link_message(b)),
        RouteNetlinkMessage::DelLink(b) => RouteNetlinkMessageV::DelLink(spec_view_link_message(b)),
        RouteNetlinkMessage::GetLink(b) => RouteNetlinkMessageV::GetLink(spec_view_link_message(b)),
        RouteNetlinkMessage::SetLink(b) => RouteNetlinkMessageV::SetLink(spec_view_link_message(b)),
    }
}

impl View for RouteNetlinkMessage {
    type V = RouteNetlinkMessageV;

    open spec fn view(&self) -> RouteNetlinkMessageV {
        spec_view_route_message(*self)
    }
}

/// The message-type code an envelope value encodes under.
pub open spec fn spec_route_message_type(m: RouteNetlinkMessageV) -> u16 {
    match m {
        RouteNetlinkMessageV::NewLink(_) => RTM_NEWLINK,
        RouteNetlinkMessageV::DelLink(_) => RTM_DELLINK,
        RouteNetlinkMessageV::GetLink(_) => RTM_GETLINK,
        RouteNetlinkMessageV::SetLink(_) => RTM_SETLINK,
    }
}

/// The body a protocol message owns.
pub open spec fn spec_route_message_body(m: RouteNetlinkMessageV) -> LinkMessageV {
    match m {
        RouteNetlinkMessageV::NewLink(b) => b,
        RouteNetlinkMessageV::DelLink(b) => b,
        RouteNetlinkMessageV::GetLink(b) => b,
        RouteNetlinkMessageV::SetLink(b) => b,
    }
}

/// The wire bytes of a protocol message's body.
pub open spec fn spec_route_message_bytes(m: RouteNetlinkMessageV) -> Seq<u8> {
    spec_link_message_bytes(spec_route_message_body(m))
}

/// An envelope whose body is well formed.
pub open spec fn spec_route_message_wf(m: RouteNetlinkMessageV) -> bool {
    spec_link_message_wf(spec_route_message_body(m))
}

/// An envelope the decoder can produce.
pub open spec fn spec_route_message_canonical(m: RouteNetlinkMessageV) -> bool {
    spec_link_message_canonical(spec_route_message_body(m))
}

/// Whether a message-type code maps to a supported body decoder.
pub open spec fn spec_route_message_type_supported(message_type: u16) -> bool {
    ||| message_type == RTM_NEWLINK
    ||| message_type == RTM_DELLINK
    ||| message_type == RTM_GETLINK
    ||| message_type == RTM_SETLINK
}

/// The envelope a body buffer decodes to under a message-type code; an
/// unsupported code decodes to nothing.
pub open spec fn spec_parse_route_message(message_type: u16, b: Seq<u8>) -> Option<
    RouteNetlinkMessageV,
> {
    if !spec_route_message_type_supported(message_type) {
        None
    } else {
        match spec_parse_link_message(b) {
            None => None,
            Some(body) => Some(
                if message_type == RTM_NEWLINK {
                    RouteNetlinkMessageV::NewLink(body)
                } else if message_type == RTM_DELLINK {
                    RouteNetlinkMessageV::DelLink(body)
                } else if message_type == RTM_GETLINK {
                    RouteNetlinkMessageV::GetLink(body)
                } else {
                    RouteNetlinkMessageV::SetLink(body)
                },
            ),
        }
    }
}

/// A view over bytes positioned at a candidate protocol message body.
pub struct RouteNetlinkMessageBuffer<'a> {
    data: &'a [u8],
}

impl<'a> View for RouteNetlinkMessageBuffer<'a> {
    type V = Seq<u8>;

    closed spec fn view(&self) -> Seq<u8> {
        self.data@
    }
}

impl<'a> RouteNetlinkMessageBuffer<'a> {
    /// Wraps bytes without validating them.
    pub fn new(data: &'a [u8]) -> (r: RouteNetlinkMessageBuffer<'a>)
        ensures
            r@ == data@,
    {
        RouteNetlinkMessageBuffer { data }
    }
}

impl RouteNetlinkMessage {
    /// Decodes a protocol message from its body bytes and the message-type
    /// code the transport supplied, per [`spec_parse_route_message`]: the
    /// mapping from code to body decoder is total over the supported
    /// surface, and an unrecognized code is an explicit error.
    pub fn parse_with_param<'a>(buf: &RouteNetlinkMessageBuffer<'a>, message_type: u16) -> (r:
        Result<RouteNetlinkMessage, DecodeError>)
        ensures
            match r {
                Ok(m) => spec_parse_route_message(message_type, buf@) == Some(m@),
                Err(_) => spec_parse_route_message(message_type, buf@) is None,
            },
            !spec_route_message_type_supported(message_type) ==> (r matches Err(e) && e.cause
                == (ErrorCause::UnknownMessageType { message_type })),
    {
        if message_type == RTM_NEWLINK || message_type == RTM_DELLINK || message_type == RTM_GETLINK
            || message_type == RTM_SETLINK {
            let body = match LinkMessage::parse_bytes(buf.data) {
                Ok(body) => body,
                Err(e) => {
                    return Err(e);
                },
            };
            if message_type == RTM_NEWLINK {
                Ok(RouteNetlinkMessage::NewLink(body))
            } else if message_type == RTM_DELLINK {
                Ok(RouteNetlinkMessage::DelLink(body))
            } else if message_type == RTM_GETLINK {
                Ok(RouteNetlinkMessage::GetLink(body))
            } else {
                Ok(RouteNetlinkMessage::SetLink(body))
            }
        } else {
            Err(DecodeError::new(ErrorCause::UnknownMessageType { message_type }))
        }
    }

    /// The message-type code this envelope encodes under, per
    /// [`spec_route_message_type`].
    pub fn message_type(&self) -> (r: u16)
        ensures
            r == spec_route_message_type(self@),
    {
        match self {
            RouteNetlinkMessage::NewLink(_) => RTM_NEWLINK,
            RouteNetlinkMessage::DelLink(_) => RTM_DELLINK,
            RouteNetlinkMessage::GetLink(_) => RTM_GETLINK,
            RouteNetlinkMessage::SetLink(_) => RTM_SETLINK,
        }
    }

    /// The byte length of the encoded body.
    pub fn buffer_len(&self) -> (r: usize)
        requires
            spec_route_message_wf(self@),
            spec_route_message_bytes(self@).len() <= usize::MAX,
        ensures
            r == spec_route_message_bytes(self@).len(),
    {
        match self {
            RouteNetlinkMessage::NewLink(b) => b.buffer_len(),
            RouteNetlinkMessage::DelLink(b) => b.buffer_len(),
            RouteNetlinkMessage::GetLink(b) => b.buffer_len(),
            RouteNetlinkMessage::SetLink(b) => b.buffer_len(),
        }
    }

    /// Writes the encoded body into the front of a pre-sized buffer,
    /// leaving bytes beyond it unchanged.
    pub fn emit(&self, buffer: &mut Vec<u8>)
        requires
            spec_route_message_wf(self@),
            spec_route_message_bytes(self@).len() <= old(buffer)@.len(),
        ensures
            final(buffer)@ =~= spec_route_message_bytes(self@) + old(buffer)@.skip(
                spec_route_message_bytes(self@).len() as int,
            ),
    {
        match self {
            RouteNetlinkMessage::NewLink(b) => b.emit(buffer),
            RouteNetlinkMessage::DelLink(b) => b.emit(buffer),
            RouteNetlinkMessage::GetLink(b) => b.emit(buffer),
            RouteNetlinkMessage::SetLink(b) => b.emit(buffer),
        }
    }
}

} // verus!
