//! Events that a conversation hands to the application above it.

use vstd::prelude::*;

verus! {

/// Something that happened on a realm.
///
/// The codec and the session of this crate neither produce nor consume
/// events; the type is the vocabulary of the layer that drives them.
#[derive(Debug, Clone, PartialEq, Eq)]
pub enum PTCPEvent {
    /// The realm was opened.
    Connect(u32),
    /// The realm was closed.
    Disconnect(u32),
    /// Data arrived on the realm.
    Data(u32, Vec<u8>),
}

} // verus!
