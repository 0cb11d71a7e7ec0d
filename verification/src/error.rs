//! The decode failure value: a structured cause plus a chain of context
//! frames naming the structures that were being decoded when the failure
//! arose, innermost first.

use vstd::prelude::*;

verus! {

/// What went wrong at the point of failure.
#[derive(Debug, PartialEq, Eq, Clone, Copy)]
pub enum ErrorCause {
    /// A fixed-size structure needed more bytes than the buffer holds.
    BufferTooShort { required: usize, actual: usize },
    /// An attribute record's length field is below the header size or runs
    /// past the end of its parent buffer.
    InvalidAttributeLength { offset: usize, length: u16 },
    /// A known attribute kind's payload does not have the byte length its
    /// shape requires.
    InvalidValueLength { kind: u16, expected: usize, actual: usize },
    /// A string-valued attribute's payload is not valid UTF-8.
    InvalidString { kind: u16 },
    /// The message-type code maps to no supported message body.
    UnknownMessageType { message_type: u16 },
}

/// One step of the decoding path that led to the failure.
#[derive(Debug, PartialEq, Eq, Clone, Copy)]
pub enum ErrorFrame {
    /// While decoding the fixed link-message header.
    LinkHeader,
    /// While decoding the attribute sequence of a link message.
    LinkAttributes,
    /// While decoding the attribute with the given kind code.
    Attribute { kind: u16 },
    /// While decoding the nested link-info attribute sequence.
    LinkInfoValue,
    /// While decoding kind-specific vxcan link-info data.
    VxcanInfoValue,
    /// While decoding an embedded peer link message.
    PeerLinkMessage,
    /// While decoding the list of per-VF information blocks.
    VfInfoListValue,
    /// While decoding one VF's nested attribute sequence.
    VfInfoValue,
    /// While decoding a VF VLAN list.
    VfVlanListValue,
    /// While decoding a VF statistics block.
    VfStatsValue,
}

/// A decode failure: the cause, and the chain of structures being decoded
/// when it arose, innermost first.
#[derive(Debug, PartialEq, Eq, Clone)]
pub struct DecodeError {
    pub cause: ErrorCause,
    pub frames: Vec<ErrorFrame>,
}

impl DecodeError {
    /// A failure with an empty context chain.
    pub fn new(cause: ErrorCause) -> (r: DecodeError)
        ensures
            r.cause == cause,
            r.frames@.len() == 0,
    {
        DecodeError { cause, frames: Vec::new() }
    }

    /// The same failure with one more context frame appended.
    pub fn context(self, frame: ErrorFrame) -> (r: DecodeError)
        ensures
            r.cause == self.cause,
            r.frames@ == self.frames@.push(frame),
    {
        let DecodeError { cause, mut frames } = self;
        frames.push(frame);
        DecodeError { cause, frames }
    }

    /// A human-readable account of the failure: the cause, then the chain
    /// of structures that were being decoded, innermost first.
    pub fn describe(&self) -> String {
        let mut s = String::new();
        match self.cause {
            ErrorCause::BufferTooShort { required, actual } => {
                s.append("buffer too short: ");
                s.append(required.to_string().as_str());
                s.append(" bytes required, ");
                s.append(actual.to_string().as_str());
                s.append(" available");
            },
            ErrorCause::InvalidAttributeLength { offset, length } => {
                s.append("invalid attribute length ");
                s.append(length.to_string().as_str());
                s.append(" at offset ");
                s.append(offset.to_string().as_str());
            },
            ErrorCause::InvalidValueLength { kind, expected, actual } => {
                s.append("attribute kind ");
                s.append(kind.to_string().as_str());
                s.append(" expects a ");
                s.append(expected.to_string().as_str());
                s.append("-byte value, got ");
                s.append(actual.to_string().as_str());
                s.append(" bytes");
            },
            ErrorCause::InvalidString { kind } => {
                s.append("attribute kind ");
                s.append(kind.to_string().as_str());
                s.append(" holds a string that is not valid UTF-8");
            },
            ErrorCause::UnknownMessageType { message_type } => {
                s.append("unsupported message type ");
                s.append(message_type.to_string().as_str());
            },
        }
        let n = self.frames.len();
        let mut i: usize = 0;
        while i < n
            invariant
                i <= n,
                n == self.frames@.len(),
            decreases n - i,
        {
            s.append(", while decoding ");
            match self.frames[i] {
                ErrorFrame::LinkHeader => s.append("the link message header"),
                ErrorFrame::LinkAttributes => s.append("the link message attributes"),
                ErrorFrame::Attribute { kind } => {
                    s.append("the attribute with kind ");
                    s.append(kind.to_string().as_str());
                },
                ErrorFrame::LinkInfoValue => s.append("the nested link info"),
                ErrorFrame::VxcanInfoValue => s.append("the vxcan link info"),
                ErrorFrame::PeerLinkMessage => s.append("the embedded peer link message"),
                ErrorFrame::VfInfoListValue => s.append("the VF info list"),
                ErrorFrame::VfInfoValue => s.append("a VF info block"),
                ErrorFrame::VfVlanListValue => s.append("a VF VLAN list"),
                ErrorFrame::VfStatsValue => s.append("a VF statistics block"),
            }
            i = i + 1;
        }
        s
    }
}

} // verus!
