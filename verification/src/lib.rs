//! Splits a borrowed byte buffer into frames small enough for a size-limited
//! channel, and tracks the send/receive/retry lifecycle of each frame.
//!
//! [`Chunk`] owns the boundary arithmetic: it maps a chunk index to the byte
//! range of that chunk's data, produces chunks one at a time through an
//! internal cursor, and encodes the envelope header (topic byte followed by
//! the payload length, little-endian). [`ChunkStatus`] is the per-transfer
//! state machine with a bounded retry counter.

use vstd::prelude::*;

mod chunker;
mod codec;
mod status;

pub use chunker::Chunk;
pub use codec::le8;
pub use status::ChunkError;
pub use status::ChunkSessionStatus;
pub use status::ChunkStatus;

verus! {

/// Byte width of the length field carried in the header and in every
/// follow-up frame's size prefix.
pub const META_SIZE: usize = 8;

/// Byte width of the envelope header: the topic byte plus the length field.
pub const HEADER_SIZE: usize = 9;

} // verus!
