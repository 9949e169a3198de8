//! The ways in which a buffer can fail to be a well-formed frame.

use vstd::prelude::*;

verus! {

/// Why a buffer was rejected by one of the decoders.
///
/// Decoding never aborts: every violated rule of the wire format is reported
/// to the caller as one of these kinds.
#[derive(Debug, Clone, Copy, PartialEq, Eq)]
pub enum FormatError {
    /// The buffer is shorter than the 24-byte packet header.
    InvalidPacket,
    /// The first four bytes are not the protocol magic.
    InvalidMagic,
    /// The body is not empty, yet shorter than four bytes.
    InvalidBody,
    /// The buffer is shorter than the 12-byte payload header.
    InvalidPayload,
    /// The top byte of the payload header is not the payload tag.
    InvalidHeader,
    /// The padding field of the payload header is not zero.
    InvalidPadding,
    /// The length field differs from the number of data bytes that follow.
    InvalidLength,
}

impl FormatError {
    /// The words that name each kind of error.
    pub open spec fn message_text(self) -> Seq<char> {
        match self {
            FormatError::InvalidPacket => "Invalid packet"@,
            FormatError::InvalidMagic => "Invalid magic"@,
            FormatError::InvalidBody => "Invalid body"@,
            FormatError::InvalidPayload => "Invalid payload"@,
            FormatError::InvalidHeader => "Invalid header"@,
            FormatError::InvalidPadding => "Invalid padding"@,
            FormatError::InvalidLength => "Invalid length"@,
        }
    }

    /// A short text for the error, fit for a log line.
    pub fn message(&self) -> (text: &'static str)
        ensures
            text@ == self.message_text(),
    {
        match self {
            FormatError::InvalidPacket => "Invalid packet",
            FormatError::InvalidMagic => "Invalid magic",
            FormatError::InvalidBody => "Invalid body",
            FormatError::InvalidPayload => "Invalid payload",
            FormatError::InvalidHeader => "Invalid header",
            FormatError::InvalidPadding => "Invalid padding",
            FormatError::InvalidLength => "Invalid length",
        }
    }
}

} // verus!
