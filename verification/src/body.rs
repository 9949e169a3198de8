//! The body of a packet: nothing, opaque command bytes, or a payload.
//!
//! Which of the three a buffer holds is read off the buffer itself: an empty
//! buffer is the empty body, a first byte equal to the payload tag announces a
//! payload sub-frame, and anything else is a command.

use vstd::prelude::*;
use vstd::slice::slice_to_vec;
use crate::error::FormatError;
use crate::payload::PTCPPayload;
use crate::payload::PayloadView;
use crate::payload::lemma_payload_round_trip;
use crate::payload::PAYLOAD_TAG;

verus! {

/// The shortest body that is not empty.
pub const MIN_BODY_LEN: usize = 4;

/// The command bytes that acknowledge a message.
pub open spec fn ack_signature() -> Seq<u8> {
    seq![0x00u8, 0x03u8, 0x01u8, 0x00u8]
}

/// What a packet carries behind its header.
#[derive(Clone, PartialEq, Eq)]
pub enum PTCPBody {
    Command(Vec<u8>),
    Payload(PTCPPayload),
    Empty,
}

/// The mathematical value of a [`PTCPBody`].
pub enum BodyView {
    Command(Seq<u8>),
    Payload(PayloadView),
    Empty,
}

impl View for PTCPBody {
    type V = BodyView;

    open spec fn view(&self) -> BodyView {
        match self {
            PTCPBody::Command(c) => BodyView::Command(c@),
            PTCPBody::Payload(p) => BodyView::Payload(p@),
            PTCPBody::Empty => BodyView::Empty,
        }
    }
}

impl BodyView {
    /// The bytes that stand for this body on the wire.
    pub open spec fn to_bytes(self) -> Seq<u8> {
        match self {
            BodyView::Command(c) => c,
            BodyView::Payload(p) => p.to_bytes(),
            BodyView::Empty => Seq::empty(),
        }
    }

    /// The body that `bytes` stand for, or the first rule that they break.
    pub open spec fn from_bytes(bytes: Seq<u8>) -> Result<BodyView, FormatError> {
        if bytes.len() == 0 {
            Ok(BodyView::Empty)
        } else if bytes.len() < 4 {
            Err(FormatError::InvalidBody)
        } else if bytes[0] == 0x10 {
            match PayloadView::from_bytes(bytes) {
                Ok(p) => Ok(BodyView::Payload(p)),
                Err(e) => Err(e),
            }
        } else {
            Ok(BodyView::Command(bytes))
        }
    }

    /// The bodies that a decoder can hand out: a command of at least four
    /// bytes that does not start with the payload tag, a payload whose data
    /// length fits the 16-bit length field, or the empty body.
    pub open spec fn representable(self) -> bool {
        match self {
            BodyView::Command(c) => c.len() >= 4 && c[0] != 0x10,
            BodyView::Payload(p) => p.data.len() < 0x1_0000,
            BodyView::Empty => true,
        }
    }

    /// True of exactly one body: the command that is the ack signature.
    pub open spec fn is_ack(self) -> bool {
        match self {
            BodyView::Command(c) => c == ack_signature(),
            _ => false,
        }
    }

    /// True where sending this body takes one of the session's message
    /// slots: every body does but the empty one and the ack.
    pub open spec fn takes_slot(self) -> bool {
        !(self is Empty) && !self.is_ack()
    }

    /// The number of bytes that this body adds to a session's byte counters:
    /// the length of a command, the data length of a payload plus its
    /// 12-byte header, nothing for the empty body.
    pub open spec fn contribution(self) -> nat {
        match self {
            BodyView::Command(c) => c.len(),
            BodyView::Payload(p) => p.data.len() + 12,
            BodyView::Empty => 0,
        }
    }
}

/// A body comes back from its own encoding exactly when it is
/// representable.  A command of fewer than four bytes encodes to a buffer
/// that is empty or rejected, one that starts with the payload tag is read as
/// a payload, and a payload of 65536 data bytes or more breaks the length
/// field.
pub proof fn lemma_body_round_trip(b: BodyView)
    ensures
        BodyView::from_bytes(b.to_bytes()) == Ok::<BodyView, FormatError>(b)
            <==> b.representable(),
{
    match b {
        BodyView::Command(c) => {},
        BodyView::Payload(p) => {
            lemma_payload_round_trip(p);
            let bytes = p.to_bytes();
            assert(bytes.len() >= 12);
            if p.data.len() < 0x1_0000 {
                assert(bytes[0] == 0x10);
            }
        },
        BodyView::Empty => {},
    }
}

impl PTCPBody {
    /// Decodes a body.
    ///
    /// An empty buffer is the empty body.  Any other buffer needs at least
    /// four bytes; it is a payload sub-frame if it starts with the payload
    /// tag, and is kept unchanged as a command otherwise.
    pub fn parse(data: &[u8]) -> (res: Result<PTCPBody, FormatError>)
        ensures
            match res {
                Ok(b) => BodyView::from_bytes(data@) == Ok::<BodyView, FormatError>(b@),
                Err(e) => BodyView::from_bytes(data@) == Err::<BodyView, FormatError>(e),
            },
    {
        if data.len() == 0 {
            return Ok(PTCPBody::Empty);
        }
        if data.len() < MIN_BODY_LEN {
            return Err(FormatError::InvalidBody);
        }
        if data[0] == PAYLOAD_TAG {
            match PTCPPayload::parse(data) {
                Ok(p) => Ok(PTCPBody::Payload(p)),
                Err(e) => Err(e),
            }
        } else {
            Ok(PTCPBody::Command(slice_to_vec(data)))
        }
    }

    /// Tells whether this body is the command made of the ack signature.
    pub fn is_ack(&self) -> (ack: bool)
        ensures
            ack == self@.is_ack(),
    {
        match self {
            PTCPBody::Command(c) => {
                let ack: bool = c.len() == 4 && c[0] == 0x00 && c[1] == 0x03 && c[2] == 0x01
                    && c[3] == 0x00;
                proof {
                    if ack {
                        assert(c@ =~= ack_signature());
                    } else if c@ == ack_signature() {
                        assert(ack_signature().len() == 4);
                        assert(ack_signature()[0] == 0x00 && ack_signature()[1] == 0x03);
                        assert(ack_signature()[2] == 0x01 && ack_signature()[3] == 0x00);
                    }
                }
                ack
            },
            _ => false,
        }
    }

    /// Encodes the body: a command as it is, a payload as its sub-frame, the
    /// empty body as no bytes at all.
    pub fn serialize(&self) -> (out: Vec<u8>)
        ensures
            out@ == self@.to_bytes(),
    {
        match self {
            PTCPBody::Command(c) => slice_to_vec(c.as_slice()),
            PTCPBody::Payload(p) => p.serialize(),
            PTCPBody::Empty => Vec::new(),
        }
    }
}

} // verus!
