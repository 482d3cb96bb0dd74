//! A sequential byte writer over a borrowed region.

use vstd::prelude::*;

verus! {

/// Writes bytes one after another into a byte region, starting at a fixed
/// offset and keeping count of how many bytes have been written.  Writes
/// that would fall outside the region are refused, so the region never
/// grows and nothing before the start offset is ever touched.
pub struct StringWriter {
    /// The offset in the region at which the first byte is written.
    pub start: usize,
    /// How many bytes have been written so far.
    pub length: usize,
}

impl StringWriter {
    /// The offset one past the last written byte.
    pub open spec fn end(self) -> int {
        self.start + self.length
    }

    /// How many more bytes fit between the write position and the region's end.
    pub open spec fn space_left(self, region_len: int) -> int {
        if self.end() <= region_len {
            region_len - self.end()
        } else {
            0
        }
    }

    /// A fresh writer that will write at `start`.
    pub fn new(start: usize) -> (r: StringWriter)
        ensures
            r.start == start,
            r.length == 0,
    {
        StringWriter { start, length: 0 }
    }

    /// Write one byte at the current position, if it lies inside the region.
    pub fn write_byte(&mut self, region: &mut Vec<u8>, value: u8) -> (ok: bool)
        ensures
            final(self).start == old(self).start,
            final(region)@.len() == old(region)@.len(),
            ok == (old(self).end() < old(region)@.len()),
            ok ==> final(self).length == old(self).length + 1
                && final(region)@ == old(region)@.update(old(self).end(), value),
            !ok ==> final(self).length == old(self).length
                && final(region)@ == old(region)@,
    {
        if self.start < region.len() && self.length < region.len() - self.start {
            let at: usize = self.start + self.length;
            region[at] = value;
            self.length = self.length + 1;
            true
        } else {
            false
        }
    }

    /// Write as much of `data` as fits, in order, and say how much that was.
    pub fn write_bytes(&mut self, region: &mut Vec<u8>, data: &[u8]) -> (n: usize)
        ensures
            final(self).start == old(self).start,
            final(self).length == old(self).length + n,
            final(region)@.len() == old(region)@.len(),
            n == if data@.len() <= old(self).space_left(old(region)@.len() as int) {
                data@.len() as int
            } else {
                old(self).space_left(old(region)@.len() as int)
            },
            forall|i: int|
                0 <= i < n ==> final(region)@[old(self).end() + i] == data@[i],
            forall|i: int|
                0 <= i < old(region)@.len() && !(old(self).end() <= i < old(self).end() + n)
                    ==> final(region)@[i] == old(region)@[i],
    {
        let ghost pre = *self;
        let ghost pre_region = region@;
        let space_from_start: usize = if self.start <= region.len() {
            region.len() - self.start
        } else {
            0
        };
        let space: usize = if self.length <= space_from_start {
            space_from_start - self.length
        } else {
            0
        };
        let n: usize = if data.len() <= space {
            data.len()
        } else {
            space
        };
        assert(space == pre.space_left(pre_region.len() as int));
        let mut i: usize = 0;
        while i < n
            invariant
                i <= n,
                n <= data@.len(),
                n <= pre.space_left(pre_region.len() as int),
                pre_region.len() <= usize::MAX,
                self.start == pre.start,
                self.length == pre.length + i,
                region@.len() == pre_region.len(),
                forall|j: int| 0 <= j < i ==> region@[pre.end() + j] == data@[j],
                forall|j: int|
                    0 <= j < pre_region.len() && !(pre.end() <= j < pre.end() + i)
                        ==> region@[j] == pre_region[j],
            decreases n - i,
        {
            let at: usize = self.start + self.length;
            region[at] = data[i];
            self.length = self.length + 1;
            i = i + 1;
        }
        n
    }
}

} // verus!
