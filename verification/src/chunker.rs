//! The chunker: boundary arithmetic over a borrowed payload, the envelope
//! header, and sequential chunk production.

use vstd::prelude::*;

use crate::codec::le8;
use crate::codec::le8_decode;
use crate::codec::le8_encode;
use crate::status::ChunkError;
use crate::status::ChunkStatus;
use vstd::math::min;
use crate::HEADER_SIZE;
use crate::META_SIZE;

verus! {

broadcast use vstd::slice::axiom_spec_len;

/// A read-only view over a payload that yields it in chunks: each wire frame
/// holds at most `max_chunk_size` bytes, of which the first frame gives up
/// [`HEADER_SIZE`] bytes to the envelope header and every later frame gives
/// up [`META_SIZE`] bytes to a running size prefix.
pub struct Chunk<'a> {
    /// Index of the next chunk that sequential production will yield.
    pub counter: usize,
    /// Single-byte tag of the payload's logical channel.
    pub topic: u8,
    /// The payload; borrowed, never copied or changed.
    pub data: &'a [u8],
    /// Largest size of a complete wire frame, header or prefix included.
    pub max_chunk_size: usize,
    /// Byte width of the length field; always [`META_SIZE`].
    pub meta_size: usize,
    /// Transfer state for the chunk currently in flight.
    pub status: ChunkStatus,
}

impl<'a> Chunk<'a> {
    /// The configuration under which every frame has room for its overhead:
    /// the frame size covers the size prefix and the one-time header.
    pub open spec fn wf(self) -> bool {
        &&& self.meta_size == META_SIZE
        &&& self.max_chunk_size >= META_SIZE + HEADER_SIZE
    }

    /// Payload bytes that fit in one frame after the running size prefix.
    pub open spec fn capacity(self) -> int {
        self.max_chunk_size - META_SIZE
    }

    /// Byte offset where the data of chunk `c` begins: chunk 0 starts at the
    /// front, and each later chunk starts where the previous frame's data
    /// ended, the first frame having also carried the header.
    pub open spec fn spec_pointer(self, c: int) -> int {
        if c <= 0 {
            0
        } else {
            c * self.capacity() - HEADER_SIZE
        }
    }

    /// True when chunk `c` starts past the end of the payload, so production
    /// is over at `c`.
    pub open spec fn exhausted_at(self, c: int) -> bool {
        self.spec_pointer(c) > self.data@.len()
    }

    /// The index that an optional explicit index resolves to: itself, or the
    /// cursor when absent.
    pub open spec fn resolve(self, counter: Option<usize>) -> int {
        match counter {
            Some(c) => c as int,
            None => self.counter as int,
        }
    }

    /// The data of chunk `c`: from its start offset up to the start of the
    /// next chunk, clamped to the end of the payload; empty past the end.
    pub open spec fn chunk_data(self, c: int) -> Seq<u8> {
        if self.exhausted_at(c) {
            Seq::empty()
        } else {
            self.data@.subrange(
                self.spec_pointer(c),
                min(self.spec_pointer(c + 1), self.data@.len() as int),
            )
        }
    }

    /// A chunker over `data` with its cursor at the front and a fresh
    /// transfer status. Nothing is validated here: chunk production asks for
    /// [`Chunk::wf`], which holds as soon as `max_chunk_size` covers the
    /// frame overhead.
    pub fn new(max_chunk_size: usize, topic: u8, data: &'a [u8]) -> (c: Chunk<'a>)
        ensures
            max_chunk_size >= META_SIZE + HEADER_SIZE ==> c.wf(),
            c.counter == 0,
            c.topic == topic,
            c.data == data,
            c.max_chunk_size == max_chunk_size,
            c.meta_size == META_SIZE,
            c.status.number is None,
            c.status.session is None,
            c.status.retry == 0,
    {
        Chunk {
            counter: 0,
            data,
            topic,
            max_chunk_size,
            meta_size: META_SIZE,
            status: ChunkStatus::new(),
        }
    }

    /// The index of the next chunk that sequential production will yield.
    pub fn counter(&self) -> (c: usize)
        ensures
            c == self.counter,
    {
        self.counter
    }

    /// The envelope sent once ahead of the chunks: the topic byte, then the
    /// payload length as a little-endian [`META_SIZE`]-byte integer.
    pub fn header(&self) -> (h: [u8; 9])
        ensures
            h@.len() == HEADER_SIZE,
            h@[0] == self.topic,
            le8(h@.subrange(1, HEADER_SIZE as int)) == self.data@.len(),
    {
        let len_bytes = le8_encode(self.data.len() as u64);
        let mut h: [u8; 9] = [0; 9];
        h[0] = self.topic;
        h[1] = len_bytes[0];
        h[2] = len_bytes[1];
        h[3] = len_bytes[2];
        h[4] = len_bytes[3];
        h[5] = len_bytes[4];
        h[6] = len_bytes[5];
        h[7] = len_bytes[6];
        h[8] = len_bytes[7];
        proof {
            assert(h@.subrange(1, HEADER_SIZE as int) =~= len_bytes@);
        }
        h
    }

    /// Reads the length field at the front of a received buffer: the first
    /// [`META_SIZE`] bytes as a little-endian integer. Fails exactly when the
    /// buffer is shorter than that.
    pub fn meta(resp: &[u8]) -> (r: Result<u64, ChunkError>)
        ensures
            r is Err <==> resp@.len() < META_SIZE,
            r matches Err(e) ==> e == ChunkError::InvalidMetaSize,
            r matches Ok(v) ==> v == le8(resp@),
    {
        if resp.len() < META_SIZE {
            return Err(ChunkError::InvalidMetaSize);
        }
        Ok(le8_decode(resp))
    }

    /// Moves the cursor one chunk forward.
    fn inc_counter(&mut self)
        requires
            old(self).counter < usize::MAX,
        ensures
            *final(self) == (Chunk { counter: (old(self).counter + 1) as usize, ..*old(self) }),
    {
        self.counter = self.counter + 1;
    }

    /// Start offset of chunk `counter` within the payload, when it fits the
    /// machine's word; past `usize::MAX` the chunk surely lies past the end
    /// of any payload.
    fn get_pointer(&self, counter: usize) -> (p: Option<usize>)
        requires
            self.wf(),
        ensures
            p matches Some(v) ==> v == self.spec_pointer(counter as int),
            p is None ==> self.spec_pointer(counter as int) > usize::MAX,
    {
        if counter == 0 {
            return Some(0);
        }
        let cap = self.max_chunk_size - self.meta_size;
        proof {
            assert(counter * cap <= 0xffff_ffff_ffff_ffff * 0xffff_ffff_ffff_ffff
                && counter * cap >= cap) by (nonlinear_arith)
                requires
                    1 <= counter <= 0xffff_ffff_ffff_ffff,
                    9 <= cap <= 0xffff_ffff_ffff_ffff,
            ;
        }
        let prod: u128 = (counter as u128) * (cap as u128);
        let offset: u128 = prod - (HEADER_SIZE as u128);
        if offset > (usize::MAX as u128) {
            None
        } else {
            Some(offset as usize)
        }
    }

    /// Start offset of the chunk at an explicit index, or at the cursor.
    fn start(&self, counter: Option<usize>) -> (p: Option<usize>)
        requires
            self.wf(),
        ensures
            p matches Some(v) ==> v == self.spec_pointer(self.resolve(counter)),
            p is None ==> self.spec_pointer(self.resolve(counter)) > usize::MAX,
    {
        let counter = match counter {
            Some(c) => c,
            None => self.counter,
        };
        self.get_pointer(counter)
    }

    /// End offset (exclusive, unclamped) of the chunk at an explicit index,
    /// or at the cursor.
    fn end(&self, counter: Option<usize>) -> (p: Option<usize>)
        requires
            self.wf(),
            self.resolve(counter) < usize::MAX,
        ensures
            p matches Some(v) ==> v == self.spec_pointer(self.resolve(counter) + 1),
            p is None ==> self.spec_pointer(self.resolve(counter) + 1) > usize::MAX,
    {
        let counter = match counter {
            Some(c) => c,
            None => self.counter,
        };
        self.get_pointer(counter + 1)
    }

    /// The chunk at an explicit index, or at the cursor when none is given:
    /// the chunk's data paired with the index it resolved to. Returns `None`
    /// exactly when that chunk would start past the end of the payload; the
    /// final chunk may be shorter than the rest. Never touches the cursor.
    pub fn chunk(&self, counter: Option<usize>) -> (r: Option<(&'a [u8], usize)>)
        requires
            self.wf(),
        ensures
            r is None <==> self.exhausted_at(self.resolve(counter)),
            r matches Some((d, c)) ==> c == self.resolve(counter) && d@ == self.chunk_data(
                self.resolve(counter),
            ),
    {
        let start = match self.start(counter) {
            Some(s) => s,
            None => {
                proof {
                    assert(self.data@.len() == vstd::slice::spec_slice_len(self.data));
                }
                return None;
            },
        };
        if start > self.data.len() {
            return None;
        }
        let c = match counter {
            Some(c) => c,
            None => self.counter,
        };
        proof {
            self.lemma_pointer_in_payload_bounds_index(c as int);
        }
        let end = match self.end(counter) {
            Some(e) => {
                if e > self.data.len() {
                    self.data.len()
                } else {
                    e
                }
            },
            None => self.data.len(),
        };
        proof {
            self.lemma_pointer_monotonic(c as int, c + 1);
        }
        Some((&self.data[start..end], c))
    }

    /// Yields the chunk at the cursor and moves the cursor one forward; once
    /// the payload is exhausted, yields `None` and leaves the cursor alone.
    pub fn next(&mut self) -> (r: Option<(&'a [u8], usize)>)
        requires
            old(self).wf(),
        ensures
            final(self).topic == old(self).topic,
            final(self).data == old(self).data,
            final(self).max_chunk_size == old(self).max_chunk_size,
            final(self).meta_size == old(self).meta_size,
            final(self).status == old(self).status,
            old(self).exhausted_at(old(self).counter as int) ==> r is None && *final(self) == *old(
                self,
            ),
            !old(self).exhausted_at(old(self).counter as int) ==> {
                &&& r matches Some((d, c)) && c == old(self).counter && d@ == old(self).chunk_data(
                    old(self).counter as int,
                )
                &&& final(self).counter == old(self).counter + 1
            },
    {
        match self.chunk(None) {
            Some(chunk) => {
                proof {
                    self.lemma_pointer_in_payload_bounds_index(self.counter as int);
                }
                self.inc_counter();
                Some(chunk)
            },
            None => None,
        }
    }

    /// An index whose chunk starts within the payload is small: the payload
    /// paid for at least one byte per chunk before it (and the word holds
    /// one more index).
    proof fn lemma_pointer_in_payload_bounds_index(self, c: int)
        requires
            self.wf(),
            0 <= c,
            self.spec_pointer(c) <= self.data@.len(),
        ensures
            c < usize::MAX,
    {
        assert(self.data@.len() == vstd::slice::spec_slice_len(self.data));
        if c >= 1 {
            assert(c * self.capacity() >= c * 9) by (nonlinear_arith)
                requires
                    c >= 1,
                    self.capacity() >= 9,
            ;
        }
    }

    /// The data of chunks `0 .. n`, concatenated in production order.
    pub open spec fn concat_upto(self, n: int) -> Seq<u8>
        decreases n,
    {
        if n <= 0 {
            Seq::empty()
        } else {
            self.concat_upto(n - 1) + self.chunk_data(n - 1)
        }
    }

    /// What the first `n` chunks cover: the payload up to chunk `n`'s start
    /// offset, clamped to the payload's end.
    proof fn lemma_concat_upto_take(self, n: int)
        requires
            self.wf(),
            n >= 0,
        ensures
            self.concat_upto(n) == self.data@.take(
                min(self.spec_pointer(n), self.data@.len() as int),
            ),
        decreases n,
    {
        let len = self.data@.len() as int;
        if n == 0 {
            assert(self.concat_upto(0) =~= self.data@.take(0));
        } else {
            self.lemma_concat_upto_take(n - 1);
            self.lemma_pointer_monotonic(0, n - 1);
            self.lemma_pointer_monotonic(n - 1, n);
            let b = min(self.spec_pointer(n), len);
            if self.exhausted_at(n - 1) {
                assert(self.concat_upto(n) =~= self.data@.take(len));
            } else {
                assert(self.concat_upto(n) =~= self.data@.take(b));
            }
        }
    }

    /// The chunks rebuild the payload: concatenating every chunk's data, in
    /// production order, gives back exactly the original bytes. `n` is any
    /// index at or past the point where production stops.
    pub proof fn lemma_chunks_reconstruct(self, n: int)
        requires
            self.wf(),
            n >= 0,
            self.spec_pointer(n) >= self.data@.len(),
        ensures
            self.concat_upto(n) == self.data@,
    {
        self.lemma_concat_upto_take(n);
        assert(self.data@.take(self.data@.len() as int) =~= self.data@);
    }

    /// Sequential production always stops: every index from two past the
    /// payload length on starts past the end of the payload.
    pub proof fn lemma_production_terminates(self, c: int)
        requires
            self.wf(),
            c >= self.data@.len() + 2,
        ensures
            self.exhausted_at(c),
    {
        assert(c * self.capacity() >= c * 9) by (nonlinear_arith)
            requires
                c >= 1,
                self.capacity() >= 9,
        ;
    }

    /// Production yields at most `payload.len()` chunks when the payload is
    /// long enough that each chunk pays for more than the frame overhead:
    /// every index from `payload.len()` on then starts past the end. (For a
    /// one-byte payload in frames of the minimum size, a second, empty chunk
    /// is still produced, so the bound asks for more than [`HEADER_SIZE`]
    /// payload bytes beyond one per chunk.)
    pub proof fn lemma_sequential_production_bound(self, c: int)
        requires
            self.wf(),
            self.data@.len() * (self.capacity() - 1) > HEADER_SIZE,
            c >= self.data@.len(),
        ensures
            self.exhausted_at(c),
    {
        let len = self.data@.len() as int;
        assert(len >= 1) by (nonlinear_arith)
            requires
                len * (self.capacity() - 1) > 0,
                len >= 0,
        ;
        assert(len * self.capacity() == len * (self.capacity() - 1) + len) by (nonlinear_arith);
        self.lemma_pointer_monotonic(len, c);
    }

    /// How long each chunk's data is: the first chunk fills what the header
    /// leaves free of the frame, and every later chunk that starts within
    /// the payload fills the per-prefix capacity, the final one taking
    /// whatever remains.
    pub proof fn lemma_chunk_lengths(self, c: int)
        requires
            self.wf(),
            c >= 0,
            !self.exhausted_at(c),
        ensures
            c == 0 ==> self.chunk_data(0).len() == min(
                self.max_chunk_size - META_SIZE - HEADER_SIZE,
                self.data@.len() as int,
            ),
            c >= 1 ==> self.chunk_data(c).len() == min(
                self.max_chunk_size - META_SIZE,
                self.data@.len() - self.spec_pointer(c),
            ),
    {
        self.lemma_pointer_monotonic(0, c);
        self.lemma_pointer_monotonic(c, c + 1);
        assert((c + 1) * self.capacity() == c * self.capacity() + self.capacity())
            by (nonlinear_arith);
    }

    /// Chunk start offsets never move backwards as the index grows.
    pub proof fn lemma_pointer_monotonic(self, c1: int, c2: int)
        requires
            self.wf(),
            c1 <= c2,
        ensures
            self.spec_pointer(c1) <= self.spec_pointer(c2),
    {
        if c1 >= 1 {
            assert(c1 * self.capacity() <= c2 * self.capacity()) by (nonlinear_arith)
                requires
                    1 <= c1 <= c2,
                    self.capacity() >= 0,
            ;
        } else if c2 >= 1 {
            assert(c2 * self.capacity() >= self.capacity()) by (nonlinear_arith)
                requires
                    c2 >= 1,
                    self.capacity() >= 0,
            ;
        }
    }
}

} // verus!
