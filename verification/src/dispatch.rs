//! Fixed-size chunking of audio blocks: the dispatcher's schedule for one
//! host callback.
//!
//! A block is accepted only when a whole number of chunks covers it; a
//! truncated final chunk would shift every later block, so a misaligned
//! count is refused before any frame is touched.

use vstd::prelude::*;
use vstd::arithmetic::div_mod::{lemma_fundamental_div_mod, lemma_mod_bound};
use vstd::arithmetic::mul::lemma_mul_inequality;

verus! {

/// Number of frames the processor consumes per invocation.
pub const CHUNK_FRAMES: usize = 32;

/// Why a block was refused.
#[derive(Clone, Copy, PartialEq, Eq, Structural, Debug)]
pub enum BlockError {
    /// The frame count is not a whole number of chunks.
    MisalignedBlock,
}

/// The chunk a frame belongs to.
pub open spec fn chunk_of_frame(frame: int) -> int {
    frame / (CHUNK_FRAMES as int)
}

/// Frame `frame` lies in chunk `chunk`.
pub open spec fn frame_in_chunk(frame: int, chunk: int) -> bool {
    chunk * CHUNK_FRAMES <= frame < chunk * CHUNK_FRAMES + CHUNK_FRAMES
}

/// Frame range of one chunk.
#[derive(Clone, Copy, PartialEq, Eq, Structural, Debug)]
pub struct ChunkBounds {
    /// Which chunk of the block this is.
    pub index: usize,
    /// First frame of the chunk.
    pub start: usize,
    /// One past the last frame of the chunk.
    pub end: usize,
}

/// Walks one audio block chunk by chunk: each step hands out the frame range
/// of the next chunk, exactly the block's chunk count steps in all — so the
/// processor is invoked exactly once per chunk.
#[derive(Clone, Copy, PartialEq, Eq, Structural, Debug)]
pub struct BlockSession {
    /// Frames in the whole block.
    pub frame_count: usize,
    /// Chunks the block divides into.
    pub chunks_total: usize,
    /// Chunks handed out so far.
    pub chunks_done: usize,
}

impl BlockSession {
    /// The whole block is a whole number of chunks, and the walk never goes
    /// past it.
    pub open spec fn wf(self) -> bool {
        &&& self.frame_count == self.chunks_total * CHUNK_FRAMES
        &&& self.chunks_done <= self.chunks_total
    }

    /// Hand out the next chunk's frame range, or `None` once every chunk of
    /// the block has been handed out.
    pub fn next_chunk(&mut self) -> (r: Option<ChunkBounds>)
        requires
            old(self).wf(),
        ensures
            final(self).wf(),
            final(self).frame_count == old(self).frame_count,
            final(self).chunks_total == old(self).chunks_total,
            old(self).chunks_done < old(self).chunks_total ==> {
                &&& r matches Some(c)
                &&& c.index == old(self).chunks_done
                &&& c.start == c.index * CHUNK_FRAMES
                &&& c.end == c.start + CHUNK_FRAMES
                &&& c.end <= old(self).frame_count
                &&& final(self).chunks_done == old(self).chunks_done + 1
            },
            old(self).chunks_done >= old(self).chunks_total ==> r is None && *final(self) == *old(
                self,
            ),
    {
        if self.chunks_done < self.chunks_total {
            proof {
                lemma_mul_inequality(self.chunks_done + 1, self.chunks_total as int,
                    CHUNK_FRAMES as int);
            }
            let start = self.chunks_done * CHUNK_FRAMES;
            let c = ChunkBounds { index: self.chunks_done, start, end: start + CHUNK_FRAMES };
            self.chunks_done = self.chunks_done + 1;
            Some(c)
        } else {
            None
        }
    }

    /// How many chunks are still owed.
    pub fn chunks_left(&self) -> (r: usize)
        requires
            self.wf(),
        ensures
            r == self.chunks_total - self.chunks_done,
    {
        self.chunks_total - self.chunks_done
    }
}

/// Accept one audio block: a whole number of chunks is owed back, any other
/// frame count is refused outright before any frame is touched.
pub fn begin_block(frame_count: usize) -> (r: Result<BlockSession, BlockError>)
    ensures
        (frame_count % CHUNK_FRAMES == 0) <==> r is Ok,
        r matches Ok(s) ==> {
            &&& s.wf()
            &&& s.frame_count == frame_count
            &&& s.chunks_total == frame_count / CHUNK_FRAMES
            &&& s.chunks_done == 0
        },
        r matches Err(e) ==> e == BlockError::MisalignedBlock,
{
    if frame_count % CHUNK_FRAMES == 0 {
        let chunks_total = frame_count / CHUNK_FRAMES;
        proof {
            lemma_fundamental_div_mod(frame_count as int, CHUNK_FRAMES as int);
        }
        Ok(BlockSession { frame_count, chunks_total, chunks_done: 0 })
    } else {
        Err(BlockError::MisalignedBlock)
    }
}

/// Exact partition: in a block of `k` whole chunks every frame lies in
/// exactly one chunk — the one `chunk_of_frame` names, which is among the
/// `k` chunks handed out.
pub proof fn lemma_exact_partition(k: int, frame: int)
    requires
        0 <= frame < k * CHUNK_FRAMES,
    ensures
        0 <= chunk_of_frame(frame) < k,
        frame_in_chunk(frame, chunk_of_frame(frame)),
        forall|c: int| frame_in_chunk(frame, c) <==> c == chunk_of_frame(frame),
{
    lemma_fundamental_div_mod(frame, CHUNK_FRAMES as int);
    lemma_mod_bound(frame, CHUNK_FRAMES as int);
}

} // verus!
