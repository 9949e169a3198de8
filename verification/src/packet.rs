//! The packet frame: magic, five counters, body.
//!
//! ```text
//! offset  size  field
//! 0       4     magic, ASCII "PTCP"
//! 4       4     sent
//! 8       4     recv
//! 12      4     pid
//! 16      4     lmid
//! 20      4     rmid
//! 24      *     body
//! ```

use vstd::prelude::*;
use vstd::slice::slice_subrange;
use crate::body::BodyView;
use crate::body::lemma_body_round_trip;
use crate::body::PTCPBody;
use crate::error::FormatError;
use crate::wire::lemma_u32_at_bytes;
use crate::wire::read_u32;
use crate::wire::u32_at;
use crate::wire::u32_bytes;
use crate::wire::write_bytes;
use crate::wire::write_u32;

verus! {

/// The number of bytes in front of a packet's body.
pub const PACKET_HEADER_LEN: usize = 24;

/// One framed datagram.
#[derive(Clone, PartialEq, Eq)]
pub struct PTCPPacket {
    /// Bytes the sender had sent before this packet.
    pub sent: u32,
    /// Bytes the sender had received before this packet.
    pub recv: u32,
    /// Credit hint derived from the sender's outstanding messages.
    pub pid: u32,
    /// The sender's own message id.
    pub lmid: u32,
    /// The last message id that the sender has seen from its peer.
    pub rmid: u32,
    pub body: PTCPBody,
}

/// The mathematical value of a [`PTCPPacket`].
pub struct PacketView {
    pub sent: u32,
    pub recv: u32,
    pub pid: u32,
    pub lmid: u32,
    pub rmid: u32,
    pub body: BodyView,
}

impl View for PTCPPacket {
    type V = PacketView;

    open spec fn view(&self) -> PacketView {
        PacketView {
            sent: self.sent,
            recv: self.recv,
            pid: self.pid,
            lmid: self.lmid,
            rmid: self.rmid,
            body: self.body@,
        }
    }
}

/// The four bytes that open every packet: ASCII "PTCP".
pub open spec fn magic() -> Seq<u8> {
    seq![0x50u8, 0x54u8, 0x43u8, 0x50u8]
}

impl PacketView {
    /// The bytes that stand for this packet on the wire.
    pub open spec fn to_bytes(self) -> Seq<u8> {
        magic() + u32_bytes(self.sent) + u32_bytes(self.recv) + u32_bytes(self.pid) + u32_bytes(
            self.lmid,
        ) + u32_bytes(self.rmid) + self.body.to_bytes()
    }

    /// The packet that `bytes` stand for, or the first rule that they break.
    pub open spec fn from_bytes(bytes: Seq<u8>) -> Result<PacketView, FormatError> {
        if bytes.len() < 24 {
            Err(FormatError::InvalidPacket)
        } else if bytes.subrange(0, 4) != magic() {
            Err(FormatError::InvalidMagic)
        } else {
            match BodyView::from_bytes(bytes.subrange(24, bytes.len() as int)) {
                Ok(body) => Ok(
                    PacketView {
                        sent: u32_at(bytes, 4),
                        recv: u32_at(bytes, 8),
                        pid: u32_at(bytes, 12),
                        lmid: u32_at(bytes, 16),
                        rmid: u32_at(bytes, 20),
                        body,
                    },
                ),
                Err(e) => Err(e),
            }
        }
    }
}

/// The layout of an encoded packet: the magic, the five counters at their
/// offsets, then the encoded body.
pub proof fn lemma_encoded_packet(p: PacketView)
    ensures
        p.to_bytes().len() == 24 + p.body.to_bytes().len(),
        p.to_bytes().subrange(0, 4) == magic(),
        u32_at(p.to_bytes(), 4) == p.sent,
        u32_at(p.to_bytes(), 8) == p.recv,
        u32_at(p.to_bytes(), 12) == p.pid,
        u32_at(p.to_bytes(), 16) == p.lmid,
        u32_at(p.to_bytes(), 20) == p.rmid,
        p.to_bytes().subrange(24, p.to_bytes().len() as int) == p.body.to_bytes(),
{
    let bytes = p.to_bytes();
    let sent = u32_bytes(p.sent);
    let recv = u32_bytes(p.recv);
    let pid = u32_bytes(p.pid);
    let lmid = u32_bytes(p.lmid);
    let rmid = u32_bytes(p.rmid);
    let body = p.body.to_bytes();
    assert(bytes.subrange(0, 4) =~= magic());
    assert(bytes =~= magic() + sent + (recv + pid + lmid + rmid + body));
    lemma_u32_at_bytes(magic(), p.sent, recv + pid + lmid + rmid + body);
    assert(bytes =~= (magic() + sent) + recv + (pid + lmid + rmid + body));
    lemma_u32_at_bytes(magic() + sent, p.recv, pid + lmid + rmid + body);
    assert(bytes =~= (magic() + sent + recv) + pid + (lmid + rmid + body));
    lemma_u32_at_bytes(magic() + sent + recv, p.pid, lmid + rmid + body);
    assert(bytes =~= (magic() + sent + recv + pid) + lmid + (rmid + body));
    lemma_u32_at_bytes(magic() + sent + recv + pid, p.lmid, rmid + body);
    assert(bytes =~= (magic() + sent + recv + pid + lmid) + rmid + body);
    lemma_u32_at_bytes(magic() + sent + recv + pid + lmid, p.rmid, body);
    assert(bytes.subrange(24, bytes.len() as int) =~= body);
}

/// A packet comes back from its own encoding exactly when its body does.
/// The five counters always survive.
pub proof fn lemma_packet_round_trip(p: PacketView)
    ensures
        PacketView::from_bytes(p.to_bytes()) == Ok::<PacketView, FormatError>(p)
            <==> p.body.representable(),
{
    lemma_encoded_packet(p);
    lemma_body_round_trip(p.body);
}

impl PTCPPacket {
    /// Decodes a whole datagram.
    ///
    /// A buffer of fewer than 24 bytes and a buffer that does not start with
    /// the magic are rejected whatever else they hold; after that the five
    /// counters always decode, and the rest is decoded as the body.
    pub fn parse(data: &[u8]) -> (res: Result<PTCPPacket, FormatError>)
        ensures
            match res {
                Ok(p) => PacketView::from_bytes(data@) == Ok::<PacketView, FormatError>(p@),
                Err(e) => PacketView::from_bytes(data@) == Err::<PacketView, FormatError>(e),
            },
            data@.len() < 24 ==> res == Err::<PTCPPacket, FormatError>(FormatError::InvalidPacket),
            data@.len() >= 24 && data@.subrange(0, 4) != magic() ==> res == Err::<
                PTCPPacket,
                FormatError,
            >(FormatError::InvalidMagic),
    {
        if data.len() < PACKET_HEADER_LEN {
            return Err(FormatError::InvalidPacket);
        }
        if data[0] != 0x50 || data[1] != 0x54 || data[2] != 0x43 || data[3] != 0x50 {
            assert(data@.subrange(0, 4) != magic()) by {
                if data@.subrange(0, 4) == magic() {
                    assert(data@.subrange(0, 4)[0] == magic()[0]);
                    assert(data@.subrange(0, 4)[1] == magic()[1]);
                    assert(data@.subrange(0, 4)[2] == magic()[2]);
                    assert(data@.subrange(0, 4)[3] == magic()[3]);
                }
            }
            return Err(FormatError::InvalidMagic);
        }
        assert(data@.subrange(0, 4) =~= magic());
        let sent: u32 = read_u32(data, 4);
        let recv: u32 = read_u32(data, 8);
        let pid: u32 = read_u32(data, 12);
        let lmid: u32 = read_u32(data, 16);
        let rmid: u32 = read_u32(data, 20);
        match PTCPBody::parse(slice_subrange(data, PACKET_HEADER_LEN, data.len())) {
            Ok(body) => Ok(PTCPPacket { sent, recv, pid, lmid, rmid, body }),
            Err(e) => Err(e),
        }
    }

    /// Encodes the packet: magic, the five counters in big-endian order, body.
    pub fn serialize(&self) -> (out: Vec<u8>)
        ensures
            out@ == self@.to_bytes(),
    {
        let mut buf: Vec<u8> = Vec::new();
        buf.push(0x50);
        buf.push(0x54);
        buf.push(0x43);
        buf.push(0x50);
        assert(buf@ =~= magic());
        write_u32(&mut buf, self.sent);
        write_u32(&mut buf, self.recv);
        write_u32(&mut buf, self.pid);
        write_u32(&mut buf, self.lmid);
        write_u32(&mut buf, self.rmid);
        let body: Vec<u8> = self.body.serialize();
        write_bytes(&mut buf, body.as_slice());
        buf
    }
}

} // verus!
