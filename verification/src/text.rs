//! Diagnostic text for payloads, bodies and packets.
//!
//! The text is meant for traces and logs.  Numbers of bytes and byte counters
//! are written in decimal, identifiers as `0x` and eight hexadecimal digits,
//! and bytes as two hexadecimal digits each, separated by single spaces.

use vstd::prelude::*;
use vstd::string::StrSliceExecFns;
use vstd::string::StringExecFns;
use crate::body::BodyView;
use crate::body::PTCPBody;
use crate::packet::PTCPPacket;
use crate::packet::PacketView;
use crate::payload::PTCPPayload;
use crate::payload::PayloadView;
use crate::wire::u32_bytes;

verus! {

/// The number of data bytes of a payload that its text shows.
pub const SHOWN_DATA_LEN: usize = 16;

/// The character for the digit `n`, for `n` below 16.
pub open spec fn digit(n: int) -> char
    recommends
        0 <= n < 16,
{
    "0123456789abcdef"@[n]
}

/// The decimal numeral of `n`, without leading zeros.
pub open spec fn decimal(n: nat) -> Seq<char>
    decreases n,
{
    if n < 10 {
        seq![digit(n as int)]
    } else {
        decimal(n / 10).push(digit((n % 10) as int))
    }
}

/// The two hexadecimal digits of `b`.
pub open spec fn hex_byte(b: u8) -> Seq<char> {
    seq![digit(b as int / 16), digit(b as int % 16)]
}

/// `0x` and the eight hexadecimal digits of `x`.
pub open spec fn hex_word(x: u32) -> Seq<char> {
    "0x"@ + hex_byte(u32_bytes(x)[0]) + hex_byte(u32_bytes(x)[1]) + hex_byte(u32_bytes(x)[2])
        + hex_byte(u32_bytes(x)[3])
}

/// The hexadecimal digits of each byte, with one space between two bytes.
pub open spec fn hex_list(bytes: Seq<u8>) -> Seq<char>
    decreases bytes.len(),
{
    if bytes.len() == 0 {
        Seq::empty()
    } else if bytes.len() == 1 {
        hex_byte(bytes[0])
    } else {
        hex_list(bytes.drop_last()) + " "@ + hex_byte(bytes.last())
    }
}

impl PayloadView {
    /// The data bytes that the text shows: the first 16, or all if fewer.
    pub open spec fn shown_data(self) -> Seq<u8> {
        if self.data.len() > 16 {
            self.data.take(16)
        } else {
            self.data
        }
    }

    /// The text of a payload: its data length, its realm, and the shown
    /// data, followed by ` ...` where data was left out.
    pub open spec fn text(self) -> Seq<char> {
        "length: "@ + decimal(self.data.len()) + ", realm: "@ + hex_word(self.realm)
            + ", data: ["@ + hex_list(self.shown_data()) + (if self.data.len() > 16 {
            " ..."@
        } else {
            Seq::empty()
        }) + "]"@
    }
}

impl BodyView {
    /// The text of a body: all bytes of a command, the text of a payload, or
    /// the word `Empty`.
    pub open spec fn text(self) -> Seq<char> {
        match self {
            BodyView::Command(c) => "Command(["@ + hex_list(c) + "])"@,
            BodyView::Payload(p) => p.text(),
            BodyView::Empty => "Empty"@,
        }
    }
}

impl PacketView {
    /// The text of a packet: the five counters by name, then the body.
    pub open spec fn text(self) -> Seq<char> {
        "PTCPPacket { sent: "@ + decimal(self.sent as nat) + ", recv: "@ + decimal(
            self.recv as nat,
        ) + ", pid: "@ + hex_word(self.pid) + ", lmid: "@ + hex_word(self.lmid) + ", rmid: "@
            + hex_word(self.rmid) + ", body: "@ + self.body.text() + " }"@
    }
}

/// Appends the character of the digit `n`.
fn push_digit(out: &mut String, n: u8)
    requires
        n < 16,
    ensures
        final(out)@ == old(out)@.push(digit(n as int)),
{
    let digits: &str = "0123456789abcdef";
    proof {
        reveal_strlit("0123456789abcdef");
    }
    let at: usize = n as usize;
    let one: &str = digits.substring_ascii(at, at + 1);
    out.append(one);
    assert(out@ =~= old(out)@.push(digit(n as int)));
}

/// Appends the decimal numeral of `n`.
fn push_decimal(out: &mut String, n: u64)
    ensures
        final(out)@ == old(out)@ + decimal(n as nat),
    decreases n,
{
    if n >= 10 {
        push_decimal(out, n / 10);
    }
    push_digit(out, (n % 10) as u8);
    assert(out@ =~= old(out)@ + decimal(n as nat));
}

/// Appends the two hexadecimal digits of `b`.
fn push_hex_byte(out: &mut String, b: u8)
    ensures
        final(out)@ == old(out)@ + hex_byte(b),
{
    push_digit(out, b / 16);
    push_digit(out, b % 16);
    assert(out@ =~= old(out)@ + hex_byte(b));
}

/// Appends `0x` and the eight hexadecimal digits of `x`.
fn push_hex_word(out: &mut String, x: u32)
    ensures
        final(out)@ == old(out)@ + hex_word(x),
{
    out.append("0x");
    push_hex_byte(out, (x / 0x100_0000) as u8);
    push_hex_byte(out, (x / 0x1_0000 % 0x100) as u8);
    push_hex_byte(out, (x / 0x100 % 0x100) as u8);
    push_hex_byte(out, (x % 0x100) as u8);
    assert(out@ =~= old(out)@ + hex_word(x));
}

/// Appends the hexadecimal digits of the first `n` bytes of `bytes`, with
/// one space between two bytes.
fn push_hex_list(out: &mut String, bytes: &Vec<u8>, n: usize)
    requires
        n <= bytes@.len(),
    ensures
        final(out)@ == old(out)@ + hex_list(bytes@.take(n as int)),
{
    let mut i: usize = 0;
    assert(out@ =~= old(out)@ + hex_list(bytes@.take(0)));
    while i < n
        invariant
            i <= n <= bytes@.len(),
            out@ == old(out)@ + hex_list(bytes@.take(i as int)),
        decreases n - i,
    {
        let ghost before = out@;
        if i > 0 {
            out.append(" ");
        }
        push_hex_byte(out, bytes[i]);
        proof {
            let shorter = bytes@.take(i as int);
            let longer = bytes@.take(i + 1);
            assert(longer.drop_last() =~= shorter);
            assert(longer.last() == bytes@[i as int]);
            assert(out@ =~= old(out)@ + hex_list(longer));
        }
        i = i + 1;
    }
}

impl PTCPPayload {
    /// The diagnostic text of this payload.
    pub fn describe(&self) -> (text: String)
        ensures
            text@ == self@.text(),
    {
        let mut out: String = String::from_str("length: ");
        push_decimal(&mut out, self.data.len() as u64);
        out.append(", realm: ");
        push_hex_word(&mut out, self.realm);
        out.append(", data: [");
        if self.data.len() > SHOWN_DATA_LEN {
            push_hex_list(&mut out, &self.data, SHOWN_DATA_LEN);
            out.append(" ...");
        } else {
            push_hex_list(&mut out, &self.data, self.data.len());
            assert(self.data@.take(self.data@.len() as int) =~= self.data@);
            assert(out@ =~= out@ + Seq::<char>::empty());
        }
        out.append("]");
        out
    }
}

impl PTCPBody {
    /// The diagnostic text of this body.
    pub fn describe(&self) -> (text: String)
        ensures
            text@ == self@.text(),
    {
        match self {
            PTCPBody::Command(c) => {
                let mut out: String = String::from_str("Command([");
                push_hex_list(&mut out, c, c.len());
                assert(c@.take(c@.len() as int) =~= c@);
                out.append("])");
                out
            },
            PTCPBody::Payload(p) => p.describe(),
            PTCPBody::Empty => String::from_str("Empty"),
        }
    }
}

impl PTCPPacket {
    /// The diagnostic text of this packet.
    pub fn describe(&self) -> (text: String)
        ensures
            text@ == self@.text(),
    {
        let mut out: String = String::from_str("PTCPPacket { sent: ");
        push_decimal(&mut out, self.sent as u64);
        out.append(", recv: ");
        push_decimal(&mut out, self.recv as u64);
        out.append(", pid: ");
        push_hex_word(&mut out, self.pid);
        out.append(", lmid: ");
        push_hex_word(&mut out, self.lmid);
        out.append(", rmid: ");
        push_hex_word(&mut out, self.rmid);
        out.append(", body: ");
        let body: String = self.body.describe();
        out.append(body.as_str());
        out.append(" }");
        out
    }
}

} // verus!
