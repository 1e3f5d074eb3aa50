//! A program asset held fully in memory, read through a forward-only
//! cursor.
//!
//! Reading hands out the next `min(remaining, destination length)` bytes
//! and advances the cursor by that count; a read that could hand out no
//! byte at all is an error, never a silent no-op, so the loader always
//! sees the end of the asset. Seeking is a capability this reader does not
//! have: it fails with its own distinct error instead of misbehaving.

use vstd::prelude::*;

verus! {

/// Why an asset operation failed: the cursor had no byte left to hand out
/// (or the destination could take none), or the caller asked for a seek,
/// which this reader does not support.
#[derive(Clone, Copy, PartialEq, Eq, Structural, Debug)]
pub enum FileAssetError {
    ReadExhausted,
    SeekNotSupported,
}

/// A position a seek could name. Kept only to give the unsupported
/// operation its natural signature.
#[derive(Clone, Copy, PartialEq, Eq, Structural, Debug)]
pub enum SeekFrom {
    Start(usize),
    End(isize),
    Current(isize),
}

/// An immutable byte blob with a forward-only read cursor.
pub struct FileAsset {
    /// The asset's bytes; never modified after construction.
    pub data: Vec<u8>,
    /// Read cursor: how many bytes were already handed out.
    pub position: usize,
}

impl FileAsset {
    /// The cursor never passes the end of the data.
    pub open spec fn wf(&self) -> bool {
        self.position <= self.data@.len()
    }

    /// Bytes not yet handed out.
    pub open spec fn remaining(&self) -> int {
        self.data@.len() - self.position
    }

    /// Wraps a byte blob with the cursor at its start.
    pub fn new(data: Vec<u8>) -> (r: Self)
        ensures
            r.wf(),
            r.data@ == data@,
            r.position == 0,
    {
        FileAsset { data, position: 0 }
    }

    /// Reads the next `min(remaining, buf.len())` bytes into the front of
    /// `buf`, advances the cursor by that count and returns it. Fails with
    /// `ReadExhausted` exactly when that count would be zero — no byte
    /// left, or no room in `buf` — and then changes nothing.
    pub fn read(&mut self, buf: &mut Vec<u8>) -> (r: Result<usize, FileAssetError>)
        requires
            old(self).wf(),
        ensures
            final(self).wf(),
            final(self).data@ == old(self).data@,
            final(buf)@.len() == old(buf)@.len(),
            final(self).position >= old(self).position,
            ({
                let k = if old(self).remaining() < old(buf)@.len() {
                    old(self).remaining()
                } else {
                    old(buf)@.len() as int
                };
                if k == 0 {
                    &&& r == Err::<usize, FileAssetError>(FileAssetError::ReadExhausted)
                    &&& final(self).position == old(self).position
                    &&& final(buf)@ == old(buf)@
                } else {
                    &&& r == Ok::<usize, FileAssetError>(k as usize)
                    &&& final(self).position == old(self).position + k
                    &&& forall|j: int| 0 <= j < k ==> final(buf)@[j] == old(self).data@[old(
                        self,
                    ).position + j]
                    &&& forall|j: int| k <= j < old(buf)@.len() ==> final(buf)@[j] == old(buf)@[j]
                    &&& final(buf)@.subrange(0, k) == old(self).data@.subrange(
                        old(self).position as int,
                        old(self).position + k,
                    )
                }
            }),
    {
        let available = self.data.len() - self.position;
        let to_read = if available < buf.len() {
            available
        } else {
            buf.len()
        };
        if to_read == 0 {
            return Err(FileAssetError::ReadExhausted);
        }
        let total = self.data.len();
        let mut i: usize = 0;
        while i < to_read
            invariant
                i <= to_read,
                total == self.data@.len(),
                self.data@ == old(self).data@,
                self.position == old(self).position,
                to_read <= self.data@.len() - self.position,
                to_read <= old(buf)@.len(),
                buf@.len() == old(buf)@.len(),
                forall|j: int| 0 <= j < i ==> buf@[j] == self.data@[self.position + j],
                forall|j: int| i <= j < buf@.len() ==> buf@[j] == old(buf)@[j],
            decreases to_read - i,
        {
            let byte = self.data[self.position + i];
            buf.set(i, byte);
            i += 1;
        }
        self.position = self.position + to_read;
        proof {
            assert(buf@.subrange(0, to_read as int) =~= old(self).data@.subrange(
                old(self).position as int,
                old(self).position + to_read,
            ));
            assert(buf@.subrange(to_read as int, buf@.len() as int) =~= old(buf)@.subrange(
                to_read as int,
                old(buf)@.len() as int,
            ));
        }
        Ok(to_read)
    }

    /// Seeking is not implemented for this reader: every call fails with
    /// `SeekNotSupported` and leaves the reader untouched.
    pub fn seek(&mut self, _pos: SeekFrom) -> (r: Result<usize, FileAssetError>)
        ensures
            r == Err::<usize, FileAssetError>(FileAssetError::SeekNotSupported),
            *final(self) == *old(self),
    {
        Err(FileAssetError::SeekNotSupported)
    }
}

/// Law: the chunks two consecutive reads hand out concatenate to one
/// contiguous chunk of the asset. Since every successful read hands out
/// `data[position .. position + k]` and moves the cursor to exactly
/// `position + k`, the bytes of any run of successful reads starting at
/// the beginning concatenate, chunk after chunk, to a prefix of the data —
/// and to all of it once the cursor reaches the end.
pub proof fn lemma_read_chunks_concatenate(data: Seq<u8>, a: int, b: int, c: int)
    requires
        0 <= a <= b <= c <= data.len(),
    ensures
        data.subrange(a, b) + data.subrange(b, c) == data.subrange(a, c),
{
    assert(data.subrange(a, b) + data.subrange(b, c) =~= data.subrange(a, c));
}

} // verus!
