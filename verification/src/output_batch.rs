//! Coalescing of shell and logcat output: chunks that arrive close together
//! are joined into one event, up to a fixed number of chunks per event.
use vstd::prelude::*;

verus! {

/// Most chunks joined into one output event.
pub const MAX_OUTPUT_BATCH_CHUNKS: usize = 8;

/// The output of one event being assembled from consecutive chunks.
#[derive(Debug)]
pub struct OutputBatch {
    bytes: Vec<u8>,
    chunks: usize,
}

impl OutputBatch {
    /// The bytes joined so far, in arrival order.
    pub closed spec fn bytes_spec(&self) -> Seq<u8> {
        self.bytes@
    }

    /// How many chunks were joined so far.
    pub closed spec fn chunks_spec(&self) -> nat {
        self.chunks as nat
    }

    /// A batch holds between one and [`MAX_OUTPUT_BATCH_CHUNKS`] chunks.
    pub closed spec fn wf(&self) -> bool {
        1 <= self.chunks <= MAX_OUTPUT_BATCH_CHUNKS
    }

    /// A batch that starts with the chunk that opened it.
    pub fn new(first: Vec<u8>) -> (batch: Self)
        ensures
            batch.wf(),
            batch.bytes_spec() == first@,
            batch.chunks_spec() == 1,
    {
        OutputBatch { bytes: first, chunks: 1 }
    }

    /// Whether another chunk may still join this batch.
    pub fn wants_more(&self) -> (more: bool)
        requires
            self.wf(),
        ensures
            more == (self.chunks_spec() < MAX_OUTPUT_BATCH_CHUNKS),
    {
        self.chunks < MAX_OUTPUT_BATCH_CHUNKS
    }

    /// Joins the next chunk after the bytes so far.
    pub fn push(&mut self, chunk: &[u8])
        requires
            old(self).wf(),
            old(self).chunks_spec() < MAX_OUTPUT_BATCH_CHUNKS,
        ensures
            final(self).wf(),
            final(self).bytes_spec() == old(self).bytes_spec() + chunk@,
            final(self).chunks_spec() == old(self).chunks_spec() + 1,
    {
        let mut i: usize = 0;
        let ghost start = self.bytes@;
        while i < chunk.len()
            invariant
                i <= chunk@.len(),
                self.bytes@ == start + chunk@.take(i as int),
                self.chunks == old(self).chunks,
                1 <= self.chunks < MAX_OUTPUT_BATCH_CHUNKS,
            decreases chunk@.len() - i,
        {
            self.bytes.push(chunk[i]);
            i = i + 1;
            assert(self.bytes@ =~= start + chunk@.take(i as int));
        }
        assert(chunk@.take(chunk@.len() as int) =~= chunk@);
        self.chunks = self.chunks + 1;
    }

    /// The joined bytes.
    pub fn into_bytes(self) -> (bytes: Vec<u8>)
        ensures
            bytes@ == self.bytes_spec(),
    {
        self.bytes
    }
}

} // verus!
