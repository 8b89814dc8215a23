//! Per-chunk transfer state machine: which chunk is in flight, whether it was
//! last sent or acknowledged, and how often the send was retried.

use vstd::prelude::*;

verus! {

/// The last recorded event of a chunk transfer.
#[derive(Clone, Copy, Debug, PartialEq, Eq, Structural)]
pub enum ChunkSessionStatus {
    Sended,
    Received,
}

/// The recoverable failures of this crate.
#[derive(Clone, Copy, Debug, PartialEq, Eq, Structural)]
pub enum ChunkError {
    /// A buffer handed to [`crate::Chunk::meta`] is shorter than the length
    /// field it should begin with.
    InvalidMetaSize,
    /// The retry counter is already at its maximum and cannot grow.
    OverflowRetryCounter,
}

/// Tracks one chunk transfer: the chunk index in flight, the phase of its
/// session, and a retry counter that never wraps.
#[derive(Debug)]
pub struct ChunkStatus {
    /// Index of the chunk this transfer is about; `None` before the first send.
    pub number: Option<usize>,
    /// Phase of the transfer; `None` before the first send.
    pub session: Option<ChunkSessionStatus>,
    /// How often the current send was retried; reset on every transition.
    pub retry: u8,
}

impl ChunkStatus {
    /// The state that records chunk `number` as sent and not yet retried.
    pub open spec fn sent(number: usize) -> ChunkStatus {
        ChunkStatus {
            number: Some(number),
            session: Some(ChunkSessionStatus::Sended),
            retry: 0,
        }
    }

    /// The state that records chunk `number` as acknowledged.
    pub open spec fn received(number: usize) -> ChunkStatus {
        ChunkStatus {
            number: Some(number),
            session: Some(ChunkSessionStatus::Received),
            retry: 0,
        }
    }

    /// Whether acknowledging chunk `number` is legitimate in this state: it
    /// must be the chunk in flight. Anything else is a caller error.
    pub open spec fn may_receive(self, number: usize) -> bool {
        self.number == Some(number)
    }

    /// A fresh status: nothing sent yet, no retries.
    pub fn new() -> (s: ChunkStatus)
        ensures
            s.number is None,
            s.session is None,
            s.retry == 0,
    {
        ChunkStatus { number: None, session: None, retry: 0 }
    }

    /// Records that chunk `number` is being sent (or sent again from
    /// scratch): any prior state is overwritten and the retry count restarts.
    pub fn to_send(&mut self, number: usize)
        ensures
            *final(self) == ChunkStatus::sent(number),
    {
        self.number = Some(number);
        self.session = Some(ChunkSessionStatus::Sended);
        self.retry = 0;
    }

    /// Records the acknowledgement of chunk `number`. Acknowledging a chunk
    /// other than the one in flight is a caller error, ruled out by the
    /// precondition.
    pub fn to_received(&mut self, number: usize)
        requires
            old(self).may_receive(number),
        ensures
            *final(self) == ChunkStatus::received(number),
    {
        self.session = Some(ChunkSessionStatus::Received);
        self.retry = 0;
    }

    /// Counts one more retry of the current send and returns the new count.
    /// Fails without changing anything once the counter would overflow.
    pub fn increase_retry(&mut self) -> (r: Result<u8, ChunkError>)
        ensures
            old(self).retry < u8::MAX ==> {
                &&& final(self).retry == old(self).retry + 1
                &&& r == Ok::<u8, ChunkError>(final(self).retry)
            },
            old(self).retry == u8::MAX ==> {
                &&& *final(self) == *old(self)
                &&& r == Err::<u8, ChunkError>(ChunkError::OverflowRetryCounter)
            },
            final(self).number == old(self).number,
            final(self).session == old(self).session,
    {
        if self.retry == u8::MAX {
            return Err(ChunkError::OverflowRetryCounter);
        }
        self.retry = self.retry + 1;
        Ok(self.retry)
    }

    /// The lifecycle of one chunk transfer. Recording a send of chunk
    /// `number` tracks exactly that chunk as sent, with the retry count back
    /// at zero; from that state only `number` itself may be acknowledged —
    /// any other index is a contract violation — and the acknowledgement
    /// records the same chunk as received, again with no retries.
    pub proof fn lemma_transfer_lifecycle(number: usize, other: usize)
        ensures
            ChunkStatus::sent(number).number == Some(number),
            ChunkStatus::sent(number).session == Some(ChunkSessionStatus::Sended),
            ChunkStatus::sent(number).retry == 0,
            ChunkStatus::sent(number).may_receive(other) <==> other == number,
            ChunkStatus::received(number).number == Some(number),
            ChunkStatus::received(number).session == Some(ChunkSessionStatus::Received),
            ChunkStatus::received(number).retry == 0,
    {
    }
}

} // verus!
