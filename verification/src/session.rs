//! The per-endpoint session: five counters that stamp outgoing packets and
//! follow incoming ones.
//!
//! The counters are 32-bit numbers that go onto the wire as they are, so they
//! count modulo 2^32: a session never refuses to send or to receive.

use vstd::prelude::*;
use crate::body::ack_signature;
use crate::body::BodyView;
use crate::body::PTCPBody;
use crate::packet::PTCPPacket;
use crate::packet::PacketView;

verus! {

/// The `pid` of a packet that carries an ack.
pub const ACK_PID: u32 = 0x0002_FFFF;

/// The `pid` of the first packet of a session; each message that takes a
/// slot lowers the next `pid` by one.
pub const PID_BASE: u32 = 0x0000_FFFF;

/// The 32-bit number that `n` is on the wire: `n` modulo 2^32.
pub open spec fn wrap(n: int) -> u32 {
    (n % 0x1_0000_0000) as u32
}

/// The five counters of a session at one moment.
#[derive(Debug, Clone, Copy, PartialEq, Eq)]
pub struct SessionState {
    /// Bytes sent so far.
    pub sent: u32,
    /// Bytes received so far.
    pub recv: u32,
    /// Messages sent that took a slot.
    pub count: u32,
    /// The id of the next message to send.
    pub id: u32,
    /// The id of the last message received.
    pub rmid: u32,
}

impl SessionState {
    /// The state of a session that has neither sent nor received.
    pub open spec fn fresh() -> SessionState {
        SessionState { sent: 0, recv: 0, count: 0, id: 0, rmid: 0 }
    }

    /// The `pid` that a packet with this body gets: the fixed ack value for
    /// an ack, else the base lowered by the number of slots taken.
    pub open spec fn pid_for(self, body: BodyView) -> u32 {
        if body.is_ack() {
            0x0002_FFFF
        } else {
            wrap(0xFFFF - self.count)
        }
    }

    /// The packet that leaves when `body` is sent in this state: it carries
    /// the counters as they were before the send.
    pub open spec fn outgoing(self, body: BodyView) -> PacketView {
        PacketView {
            sent: self.sent,
            recv: self.recv,
            pid: self.pid_for(body),
            lmid: self.id,
            rmid: self.rmid,
            body,
        }
    }

    /// The state after `body` was sent in this state.
    pub open spec fn after_send(self, body: BodyView) -> SessionState {
        SessionState {
            sent: wrap(self.sent + body.contribution()),
            recv: self.recv,
            count: if body.takes_slot() {
                wrap(self.count + 1)
            } else {
                self.count
            },
            id: wrap(self.id + 1),
            rmid: self.rmid,
        }
    }

    /// The state after `packet` was received in this state.
    pub open spec fn after_recv(self, packet: PacketView) -> SessionState {
        SessionState {
            sent: self.sent,
            recv: wrap(self.recv + packet.body.contribution()),
            count: self.count,
            id: self.id,
            rmid: packet.lmid,
        }
    }
}

/// An ack leaves with the fixed ack `pid` and takes no slot, whatever the
/// state of the session.
pub proof fn lemma_ack_takes_no_slot(s: SessionState)
    ensures
        s.outgoing(BodyView::Command(ack_signature())).pid == 0x0002_FFFF,
        s.after_send(BodyView::Command(ack_signature())).count == s.count,
{
}

/// Below the 32-bit limits a session counts in plain numbers.  Sending adds
/// the body's contribution to `sent`, one to `id`, and one to `count` for a
/// body that takes a slot; with at most 65535 slots taken, the `pid` of a
/// packet that is no ack is the base less the slots taken.
pub proof fn lemma_send_counts(s: SessionState, body: BodyView)
    ensures
        s.sent + body.contribution() <= u32::MAX ==> s.after_send(body).sent == s.sent
            + body.contribution(),
        s.id < u32::MAX ==> s.after_send(body).id == s.id + 1,
        s.count < u32::MAX && body.takes_slot() ==> s.after_send(body).count == s.count + 1,
        !body.takes_slot() ==> s.after_send(body).count == s.count,
        s.count <= 0xFFFF && !body.is_ack() ==> s.outgoing(body).pid == 0xFFFF - s.count,
        s.after_send(body).recv == s.recv,
        s.after_send(body).rmid == s.rmid,
{
}

/// Receiving adds the contribution of the packet's body to `recv`, in plain
/// numbers below the 32-bit limit, and takes over the packet's `lmid`.
/// Nothing else changes.
pub proof fn lemma_recv_counts(s: SessionState, packet: PacketView)
    ensures
        s.recv + packet.body.contribution() <= u32::MAX ==> s.after_recv(packet).recv == s.recv
            + packet.body.contribution(),
        s.after_recv(packet).rmid == packet.lmid,
        s.after_recv(packet).sent == s.sent,
        s.after_recv(packet).count == s.count,
        s.after_recv(packet).id == s.id,
{
}

/// The state of one endpoint of a conversation.
///
/// A session is owned by one caller and changes only through
/// [`PTCPSession::send`] and [`PTCPSession::recv`].
pub struct PTCPSession {
    sent: u32,
    recv: u32,
    count: u32,
    id: u32,
    rmid: u32,
}

impl View for PTCPSession {
    type V = SessionState;

    closed spec fn view(&self) -> SessionState {
        SessionState {
            sent: self.sent,
            recv: self.recv,
            count: self.count,
            id: self.id,
            rmid: self.rmid,
        }
    }
}

/// The contribution of `body` to a byte counter, modulo 2^32.
fn contribution(body: &PTCPBody) -> (n: u32)
    ensures
        n == wrap(body@.contribution() as int),
{
    let bytes: u64 = match body {
        PTCPBody::Command(c) => c.len() as u64 % 0x1_0000_0000,
        PTCPBody::Payload(p) => (p.data.len() as u64 % 0x1_0000_0000 + 12) % 0x1_0000_0000,
        PTCPBody::Empty => 0,
    };
    bytes as u32
}

impl PTCPSession {
    /// A session that has neither sent nor received: all counters are zero.
    pub fn new() -> (session: PTCPSession)
        ensures
            session@ == SessionState::fresh(),
    {
        PTCPSession { sent: 0, recv: 0, count: 0, id: 0, rmid: 0 }
    }

    /// The counters as they stand.
    pub fn state(&self) -> (state: SessionState)
        ensures
            state == self@,
    {
        SessionState {
            sent: self.sent,
            recv: self.recv,
            count: self.count,
            id: self.id,
            rmid: self.rmid,
        }
    }

    /// Wraps `body` into the next outgoing packet.
    ///
    /// The packet carries the counters as they were before the call.  The
    /// call then adds the body's contribution to `sent`, raises `id` by one,
    /// and raises `count` by one unless the body is empty or an ack.
    pub fn send(&mut self, body: PTCPBody) -> (packet: PTCPPacket)
        ensures
            packet@ == old(self)@.outgoing(body@),
            packet.body == body,
            final(self)@ == old(self)@.after_send(body@),
    {
        let ack: bool = body.is_ack();
        let takes_slot: bool = match body {
            PTCPBody::Empty => false,
            _ => !ack,
        };
        let sent: u32 = self.sent;
        let recv: u32 = self.recv;
        let pid: u32 = if ack {
            ACK_PID
        } else {
            PID_BASE.wrapping_sub(self.count)
        };
        let lmid: u32 = self.id;
        let rmid: u32 = self.rmid;

        self.sent = self.sent.wrapping_add(contribution(&body));
        self.id = self.id.wrapping_add(1);
        if takes_slot {
            self.count = self.count.wrapping_add(1);
        }
        PTCPPacket { sent, recv, pid, lmid, rmid, body }
    }

    /// Takes note of an incoming packet and hands it back unchanged.
    ///
    /// The call adds the body's contribution to `recv` and remembers the
    /// packet's `lmid` as the last remote message id.
    pub fn recv(&mut self, packet: PTCPPacket) -> (same: PTCPPacket)
        ensures
            same == packet,
            final(self)@ == old(self)@.after_recv(packet@),
    {
        self.recv = self.recv.wrapping_add(contribution(&packet.body));
        self.rmid = packet.lmid;
        packet
    }
}

} // verus!
