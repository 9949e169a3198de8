//! The payload sub-frame: a realm identifier and opaque data.
//!
//! ```text
//! offset  size    field
//! 0       4       header = tag 0x10 in the top byte, length in the low bits
//! 4       4       realm
//! 8       4       padding, zero
//! 12      length  data
//! ```

use vstd::prelude::*;
use vstd::slice::slice_subrange;
use vstd::slice::slice_to_vec;
use crate::error::FormatError;
use crate::wire::lemma_u32_at_bytes;
use crate::wire::read_u32;
use crate::wire::u32_at;
use crate::wire::u32_bytes;
use crate::wire::write_bytes;
use crate::wire::write_u32;

verus! {

/// The first byte of every payload sub-frame.
pub const PAYLOAD_TAG: u8 = 0x10;

/// The number of bytes in front of a payload's data.
pub const PAYLOAD_HEADER_LEN: usize = 12;

/// A realm identifier together with the data sent on that realm.
#[derive(Clone, PartialEq, Eq)]
pub struct PTCPPayload {
    pub realm: u32,
    pub data: Vec<u8>,
}

/// The mathematical value of a [`PTCPPayload`].
pub struct PayloadView {
    pub realm: u32,
    pub data: Seq<u8>,
}

impl View for PTCPPayload {
    type V = PayloadView;

    open spec fn view(&self) -> PayloadView {
        PayloadView { realm: self.realm, data: self.data@ }
    }
}

impl PayloadView {
    /// The header word written in front of `len` data bytes: the tag in the
    /// top byte, combined with the length as it is, not cut to 16 bits.
    pub open spec fn header(len: nat) -> u32 {
        0x1000_0000u32 | (len as u32)
    }

    /// The length that a decoder reads out of a header word: its low 16 bits.
    pub open spec fn length_field(header: u32) -> u32 {
        header & 0xFFFF
    }

    /// The bytes that stand for this payload on the wire.
    pub open spec fn to_bytes(self) -> Seq<u8> {
        u32_bytes(Self::header(self.data.len())) + u32_bytes(self.realm) + u32_bytes(0)
            + self.data
    }

    /// The payload that `bytes` stand for, or the first rule that they break.
    pub open spec fn from_bytes(bytes: Seq<u8>) -> Result<PayloadView, FormatError> {
        if bytes.len() < 12 {
            Err(FormatError::InvalidPayload)
        } else if bytes[0] != 0x10 {
            Err(FormatError::InvalidHeader)
        } else if u32_at(bytes, 8) != 0 {
            Err(FormatError::InvalidPadding)
        } else if Self::length_field(u32_at(bytes, 0)) != bytes.len() - 12 {
            Err(FormatError::InvalidLength)
        } else {
            Ok(PayloadView { realm: u32_at(bytes, 4), data: bytes.subrange(12, bytes.len() as int) })
        }
    }
}

/// A length below 2^28 stands in the header word unchanged, beside the tag,
/// and the length field holds its low 16 bits.
pub proof fn lemma_header_holds_length(len: nat)
    requires
        len < 0x1000_0000,
    ensures
        PayloadView::header(len) == 0x1000_0000 + len,
        PayloadView::length_field(PayloadView::header(len)) == len % 0x1_0000,
{
    let l: u32 = len as u32;
    assert((0x1000_0000u32 | l) == 0x1000_0000 + l && (0x1000_0000u32 | l) & 0xFFFF == l
        % 0x1_0000) by (bit_vector)
        requires
            l < 0x1000_0000,
    ;
}

/// The layout of an encoded payload: twelve header bytes that hold the
/// header word, the realm and a padding of zero, then the data.
pub proof fn lemma_encoded_payload(p: PayloadView)
    ensures
        p.to_bytes().len() == 12 + p.data.len(),
        p.to_bytes()[0] == u32_bytes(PayloadView::header(p.data.len()))[0],
        u32_at(p.to_bytes(), 0) == PayloadView::header(p.data.len()),
        u32_at(p.to_bytes(), 4) == p.realm,
        u32_at(p.to_bytes(), 8) == 0,
        p.to_bytes().subrange(12, p.to_bytes().len() as int) == p.data,
{
    let bytes = p.to_bytes();
    let header = u32_bytes(PayloadView::header(p.data.len()));
    let realm = u32_bytes(p.realm);
    let padding = u32_bytes(0);
    assert(bytes =~= Seq::<u8>::empty() + header + (realm + padding + p.data));
    lemma_u32_at_bytes(Seq::empty(), PayloadView::header(p.data.len()), realm + padding + p.data);
    assert(bytes =~= header + realm + (padding + p.data));
    lemma_u32_at_bytes(header, p.realm, padding + p.data);
    assert(bytes =~= (header + realm) + padding + p.data);
    lemma_u32_at_bytes(header + realm, 0, p.data);
    assert(bytes.subrange(12, bytes.len() as int) =~= p.data);
}

/// A payload comes back from its own encoding exactly when its data is
/// shorter than 65536 bytes: the decoder reads the length from the low 16
/// bits of the header, and the encoder writes the length as it is.
pub proof fn lemma_payload_round_trip(p: PayloadView)
    ensures
        PayloadView::from_bytes(p.to_bytes()) == Ok::<PayloadView, FormatError>(p)
            <==> p.data.len() < 0x1_0000,
{
    lemma_encoded_payload(p);
    let bytes = p.to_bytes();
    let len: u32 = p.data.len() as u32;
    let header: u32 = PayloadView::header(p.data.len());
    if p.data.len() < 0x1_0000 {
        assert(header / 0x100_0000 == 0x10 && header & 0xFFFF == len) by (bit_vector)
            requires
                header == 0x1000_0000u32 | len,
                len < 0x1_0000,
        ;
        let back = PayloadView::from_bytes(bytes)->Ok_0;
        assert(back.data =~= p.data);
    } else {
        assert(header & 0xFFFF < 0x1_0000) by (bit_vector);
    }
}

impl PTCPPayload {
    /// Decodes a payload sub-frame.
    ///
    /// The buffer must hold the 12-byte header and exactly as many data bytes
    /// as the low 16 bits of the header announce.
    pub fn parse(data: &[u8]) -> (res: Result<PTCPPayload, FormatError>)
        ensures
            match res {
                Ok(p) => PayloadView::from_bytes(data@) == Ok::<PayloadView, FormatError>(p@),
                Err(e) => PayloadView::from_bytes(data@) == Err::<PayloadView, FormatError>(e),
            },
    {
        if data.len() < PAYLOAD_HEADER_LEN {
            return Err(FormatError::InvalidPayload);
        }
        if data[0] != PAYLOAD_TAG {
            return Err(FormatError::InvalidHeader);
        }
        let header: u32 = read_u32(data, 0);
        let length: u32 = header & 0xFFFF;
        let realm: u32 = read_u32(data, 4);
        let padding: u32 = read_u32(data, 8);
        if padding != 0 {
            return Err(FormatError::InvalidPadding);
        }
        assert(length <= 0xFFFF) by (bit_vector)
            requires
                length == header & 0xFFFF,
        ;
        if length as usize != data.len() - PAYLOAD_HEADER_LEN {
            return Err(FormatError::InvalidLength);
        }
        let rest: Vec<u8> = slice_to_vec(slice_subrange(data, PAYLOAD_HEADER_LEN, data.len()));
        Ok(PTCPPayload { realm, data: rest })
    }

    /// Encodes the payload: header, realm, zero padding, data.
    ///
    /// The length goes into the header as it is, while [`Self::parse`] reads
    /// the low 16 bits only: a payload of 65536 data bytes or more yields a
    /// frame that [`Self::parse`] rejects.
    pub fn serialize(&self) -> (out: Vec<u8>)
        ensures
            out@ == self@.to_bytes(),
    {
        let length: u32 = #[verifier::truncate] (self.data.len() as u32);
        let header: u32 = 0x1000_0000u32 | length;
        let mut buf: Vec<u8> = Vec::new();
        write_u32(&mut buf, header);
        write_u32(&mut buf, self.realm);
        write_u32(&mut buf, 0);
        write_bytes(&mut buf, self.data.as_slice());
        buf
    }
}

} // verus!
