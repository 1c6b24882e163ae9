use vstd::prelude::*;

use crate::error::VectorError;

verus! {

/// Width of one element in bytes: regions hold double-precision elements.
pub const ELEMENT_BYTES: usize = 8;

/// One allocation record: where the region starts in the memory space,
/// how many elements it holds, and whether it is still live.
struct BufferEntry {
    offset: usize,
    size: usize,
    live: bool,
}

/// A size-validated allocator of host-visible buffer regions.
///
/// Regions live in one linear memory space that only grows, as a host
/// boundary's memory does; freeing retires a region from the live set and
/// never hands its handle out again, so a double free or a free with the
/// wrong size is reported instead of corrupting memory. Element values are
/// carried as double-precision bit patterns.
pub struct MemoryUtils {
    arena: Vec<u64>,
    table: Vec<BufferEntry>,
}

impl MemoryUtils {
    /// The allocation table describes disjoint regions of the memory
    /// space, in address order, and the whole space has a byte count.
    pub closed spec fn wf(&self) -> bool {
        &&& forall|t: int|
            0 <= t < self.table@.len() ==> #[trigger] self.table@[t].offset + self.table@[t].size
                <= self.arena@.len()
        &&& forall|t1: int, t2: int|
            0 <= t1 < t2 < self.table@.len() ==> #[trigger] self.table@[t1].offset
                + self.table@[t1].size <= #[trigger] self.table@[t2].offset
        &&& self.arena@.len() * ELEMENT_BYTES <= usize::MAX
    }

    /// The handle names a region that was allocated and not yet freed.
    pub closed spec fn is_live(&self, handle: usize) -> bool {
        handle < self.table@.len() && self.table@[handle as int].live
    }

    /// Element count the region named by `handle` was allocated with.
    pub closed spec fn size_of(&self, handle: usize) -> nat {
        self.table@[handle as int].size as nat
    }

    /// Contents of the region named by `handle`, as bit patterns.
    pub closed spec fn contents(&self, handle: usize) -> Seq<u64> {
        self.arena@.subrange(
            self.table@[handle as int].offset as int,
            self.table@[handle as int].offset + self.table@[handle as int].size,
        )
    }

    /// Bytes in the whole memory space.
    pub closed spec fn memory_bytes(&self) -> nat {
        self.arena@.len() * ELEMENT_BYTES as nat
    }

    /// Every region of `pre` is still live in `post` with the same size
    /// and contents, no region appeared or vanished, and the memory space
    /// kept its size.
    pub open spec fn buffers_unchanged(pre: Self, post: Self) -> bool {
        &&& forall|h: usize| #[trigger] post.is_live(h) <==> pre.is_live(h)
        &&& forall|h: usize|
            #[trigger] pre.is_live(h) ==> post.contents(h) == pre.contents(h) && post.size_of(h)
                == pre.size_of(h)
        &&& post.memory_bytes() == pre.memory_bytes()
    }

    /// An allocator with an empty memory space and no live regions.
    pub fn new() -> (m: Self)
        ensures
            m.wf(),
            forall|h: usize| !m.is_live(h),
            m.memory_bytes() == 0,
    {
        MemoryUtils { arena: Vec::new(), table: Vec::new() }
    }

    /// Reserves a zero-initialized region of `size` double-precision
    /// elements and returns its handle. Succeeds exactly when the grown
    /// memory space still has a byte count; every other region keeps its
    /// size and contents, and the new handle was never live before.
    #[verifier::loop_isolation(false)]
    pub fn allocate_float64_array(&mut self, size: usize) -> (r: Result<usize, VectorError>)
        requires
            old(self).wf(),
        ensures
            final(self).wf(),
            r is Ok <==> old(self).memory_bytes() + size * ELEMENT_BYTES <= usize::MAX,
            match r {
                Ok(handle) => {
                    &&& !old(self).is_live(handle)
                    &&& final(self).is_live(handle)
                    &&& final(self).size_of(handle) == size
                    &&& final(self).contents(handle) == Seq::new(size as nat, |i: int| 0u64)
                    &&& forall|h: usize|
                        h != handle ==> (#[trigger] final(self).is_live(h) <==> old(self).is_live(h))
                    &&& forall|h: usize|
                        h != handle && #[trigger] old(self).is_live(h) ==> final(self).contents(h)
                            == old(self).contents(h) && final(self).size_of(h) == old(self).size_of(h)
                    &&& final(self).memory_bytes() == old(self).memory_bytes() + size
                        * ELEMENT_BYTES
                },
                Err(e) => {
                    &&& e == VectorError::CapacityExceeded
                    &&& Self::buffers_unchanged(*old(self), *final(self))
                },
            },
    {
        if size > usize::MAX / ELEMENT_BYTES - self.arena.len() {
            return Err(VectorError::CapacityExceeded);
        }
        let offset: usize = self.arena.len();
        let mut j: usize = 0;
        while j < size
            invariant
                j <= size,
                self.arena@.len() == offset + j,
                forall|x: int| 0 <= x < offset ==> self.arena@[x] == old(self).arena@[x],
                forall|x: int| offset <= x < offset + j ==> self.arena@[x] == 0u64,
                self.table@ == old(self).table@,
            decreases size - j,
        {
            self.arena.push(0);
            j = j + 1;
        }
        let handle: usize = self.table.len();
        self.table.push(BufferEntry { offset, size, live: true });
        proof {
            assert(final(self).contents(handle) =~= Seq::new(size as nat, |i: int| 0u64));
            assert forall|h: usize| h != handle && #[trigger] old(self).is_live(h) implies final(self).contents(h) == old(self).contents(h) && final(self).size_of(h) == old(self).size_of(h) by {
                assert(final(self).contents(h) =~= old(self).contents(h));
            };
        }
        Ok(handle)
    }

    /// Releases the region named by `handle`. Succeeds exactly when the
    /// handle is live and `size` is the element count it was allocated
    /// with; the handle is then retired for good. Every other region, and
    /// the size of the memory space, stay as they were.
    pub fn free_float64_array(&mut self, handle: usize, size: usize) -> (r: Result<
        (),
        VectorError,
    >)
        requires
            old(self).wf(),
        ensures
            final(self).wf(),
            r is Ok <==> (old(self).is_live(handle) && old(self).size_of(handle) == size),
            r is Err ==> r == Err::<(), VectorError>(VectorError::BufferMismatch)
                && Self::buffers_unchanged(*old(self), *final(self)),
            r is Ok ==> {
                &&& !final(self).is_live(handle)
                &&& forall|h: usize|
                    h != handle ==> (#[trigger] final(self).is_live(h) <==> old(self).is_live(h))
                &&& forall|h: usize|
                    h != handle && #[trigger] old(self).is_live(h) ==> final(self).contents(h)
                        == old(self).contents(h) && final(self).size_of(h) == old(self).size_of(h)
                &&& final(self).memory_bytes() == old(self).memory_bytes()
            },
    {
        if handle >= self.table.len() {
            return Err(VectorError::BufferMismatch);
        }
        let live = self.table[handle].live;
        let entry_size = self.table[handle].size;
        if !live || entry_size != size {
            return Err(VectorError::BufferMismatch);
        }
        let offset = self.table[handle].offset;
        self.table[handle] = BufferEntry { offset, size: entry_size, live: false };
        proof {
            assert forall|h: usize| h != handle && #[trigger] old(self).is_live(h) implies final(self).contents(h) == old(self).contents(h) && final(self).size_of(h) == old(self).size_of(h) by {
                assert(final(self).contents(h) =~= old(self).contents(h));
            };
        }
        Ok(())
    }

    /// Reports the byte count of the whole memory space. Informational
    /// only: freed regions stay addressable, so the count never shrinks.
    pub fn get_memory_size(&self) -> (bytes: usize)
        requires
            self.wf(),
        ensures
            bytes == self.memory_bytes(),
    {
        self.arena.len() * ELEMENT_BYTES
    }

    /// Writes one element, given as a double-precision bit pattern, into
    /// a live region. Succeeds exactly when the handle is live and the
    /// index is inside the region; no other region changes.
    pub fn write_element(&mut self, handle: usize, index: usize, bits: u64) -> (r: Result<
        (),
        VectorError,
    >)
        requires
            old(self).wf(),
        ensures
            final(self).wf(),
            r is Ok <==> (old(self).is_live(handle) && index < old(self).size_of(handle)),
            r is Err ==> r == Err::<(), VectorError>(VectorError::BufferMismatch)
                && Self::buffers_unchanged(*old(self), *final(self)),
            r is Ok ==> {
                &&& final(self).contents(handle) == old(self).contents(handle).update(
                    index as int,
                    bits,
                )
                &&& forall|h: usize| #[trigger] final(self).is_live(h) <==> old(self).is_live(h)
                &&& forall|h: usize|
                    h != handle && #[trigger] old(self).is_live(h) ==> final(self).contents(h)
                        == old(self).contents(h)
                &&& forall|h: usize| final(self).size_of(h) == old(self).size_of(h)
                &&& final(self).memory_bytes() == old(self).memory_bytes()
            },
    {
        if handle >= self.table.len() {
            return Err(VectorError::BufferMismatch);
        }
        if !self.table[handle].live || index >= self.table[handle].size {
            return Err(VectorError::BufferMismatch);
        }
        let offset = self.table[handle].offset;
        self.arena[offset + index] = bits;
        proof {
            assert(final(self).contents(handle) =~= old(self).contents(handle).update(
                index as int,
                bits,
            ));
            assert forall|h: usize| h != handle && #[trigger] old(self).is_live(h) implies final(self).contents(h) == old(self).contents(h) by {
                if h < handle {
                    assert(self.table@[h as int].offset + self.table@[h as int].size
                        <= self.table@[handle as int].offset);
                } else {
                    assert(self.table@[handle as int].offset + self.table@[handle as int].size
                        <= self.table@[h as int].offset);
                }
                assert(final(self).contents(h) =~= old(self).contents(h));
            };
        }
        Ok(())
    }

    /// Reads one element of a live region as a double-precision bit
    /// pattern. Succeeds exactly when the handle is live and the index is
    /// inside the region.
    pub fn read_element(&self, handle: usize, index: usize) -> (r: Result<u64, VectorError>)
        requires
            self.wf(),
        ensures
            r is Ok <==> (self.is_live(handle) && index < self.size_of(handle)),
            match r {
                Ok(bits) => bits == self.contents(handle)[index as int],
                Err(e) => e == VectorError::BufferMismatch,
            },
    {
        if handle >= self.table.len() {
            return Err(VectorError::BufferMismatch);
        }
        if !self.table[handle].live || index >= self.table[handle].size {
            return Err(VectorError::BufferMismatch);
        }
        let offset = self.table[handle].offset;
        Ok(self.arena[offset + index])
    }
}

} // verus!
