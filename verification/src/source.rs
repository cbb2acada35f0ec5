//! Positioned reads on a compressed source, and a source held in memory.

use vstd::prelude::*;

verus! {

/// A compressed source that is read at a position of the caller's choice.
/// Each call stands for one read that has been driven to completion.
pub trait AsyncCompressedSource {
    /// Whether this source serves a read at `pos` into a buffer of `len`
    /// bytes. A caller may ask for such reads only. Unless a source says
    /// otherwise, it serves every read.
    open spec fn serves(&self, pos: u64, len: nat) -> bool {
        true
    }

    /// Reads at `pos` into `buffer` and returns how many bytes were written.
    fn read_at(&mut self, pos: u64, buffer: &mut [u8]) -> (count: usize)
        requires
            old(self).serves(pos, old(buffer)@.len()),
        ensures
            final(buffer)@.len() == old(buffer)@.len(),
    ;
}

/// A source that holds one block of bytes and hands out the whole block on
/// every read, wherever the read is positioned.
pub struct TestCompressedSource {
    inner: Vec<u8>,
}

impl TestCompressedSource {
    /// The block that the source holds.
    pub closed spec fn block(&self) -> Seq<u8> {
        self.inner@
    }

    /// The length of the block, which is the length of buffer that a read on
    /// this source takes.
    pub fn len(&self) -> (len: usize)
        ensures
            len == self.block().len(),
    {
        self.inner.len()
    }

    /// A source that holds `inner`.
    pub fn new(inner: Vec<u8>) -> (source: Self)
        ensures
            source.block() == inner@,
    {
        TestCompressedSource { inner }
    }
}

impl AsyncCompressedSource for TestCompressedSource {
    /// The buffer has to have the length of the block.
    open spec fn serves(&self, pos: u64, len: nat) -> bool {
        len == self.block().len()
    }

    /// Copies the block into `buffer` and returns its length. The source
    /// stays as it is.
    fn read_at(&mut self, pos: u64, buffer: &mut [u8]) -> (count: usize)
        ensures
            final(buffer)@ == old(self).block(),
            count == old(self).block().len(),
            final(self).block() == old(self).block(),
    {
        let len = buffer.len();
        let mut i: usize = 0;
        while i < len
            invariant
                i <= len,
                len == buffer@.len(),
                len == self.inner@.len(),
                self.inner@ == old(self).inner@,
                buffer@.take(i as int) == self.inner@.take(i as int),
            decreases len - i,
        {
            buffer[i] = self.inner[i];
            i += 1;
        }
        proof {
            assert(buffer@.take(len as int) == buffer@);
            assert(self.inner@.take(len as int) == self.inner@);
        }
        len
    }
}

} // verus!
