//! Packets received from a live stream connection and waiting to be handed
//! to the transcoder.
use vstd::prelude::*;

verus! {

/// `std::time::Instant` is carried through as an opaque arrival time.
#[verifier::external_type_specification]
#[verifier::external_body]
pub struct ExInstant(std::time::Instant);

/// The backlog of one connection.
#[derive(Default)]
pub struct Packets {
    pub packets: Vec<Packet>,
    pub closed: bool,
}

/// One received message and when it arrived.
pub struct Packet {
    pub buffer: Vec<u8>,
    pub received: std::time::Instant,
}

} // verus!
