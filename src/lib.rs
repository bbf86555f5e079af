//! A live-tailing upload buffer: one producer fills a fixed-capacity ring,
//! one drain empties it to durable storage, and any number of tail readers
//! replay the same bytes without consuming them, falling back to durable
//! storage for bytes that wraparound already evicted.
use vstd::prelude::*;

pub mod buffer;
pub mod fallback;
pub mod laws;
pub mod media;
pub mod orchestrator;
pub mod path;
pub mod queue;
pub mod ring;
pub mod shared;
pub mod syscall;

pub use buffer::{AllocationError, RingBuffer};
pub use fallback::{LiveBody, LiveRead};
pub use media::{media_type, MediaType};
pub use orchestrator::{Phase, Ring, SourceRead, Step};
pub use path::{relative_file_path, PathError};
pub use queue::{queue, Queue};
pub use ring::{DrainPoll, Overrun, RingReader, RingState, TailRead};
pub use shared::{Packet, Packets};
pub use syscall::CloneArgs;

verus! {

/// The capacity of the buffer of each upload: 512 KiB.
pub const RING_SIZE: usize = 524288;

} // verus!
