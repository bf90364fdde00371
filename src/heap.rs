//! The boot heap: alignment helpers and a bump allocator that never frees.

use vstd::prelude::*;

verus! {

/// `align` is a power of two.
pub open spec fn is_pow2(align: usize) -> bool {
    align != 0 && align & (align - 1) as usize == 0
}

/// Tests whether `align` is a power of two.
pub fn is_power_of_two(align: usize) -> (r: bool)
    ensures
        r == is_pow2(align),
{
    align != 0 && align & (align - 1) == 0
}

/// Align downwards: the greatest multiple of `align` that is not above
/// `addr`. An alignment of zero leaves the address as it is.
pub fn align_down(addr: usize, align: usize) -> (r: usize)
    requires
        is_pow2(align) || align == 0,
    ensures
        align == 0 ==> r == addr,
        align != 0 ==> r == addr & !((align - 1) as usize),
        align != 0 ==> r & ((align - 1) as usize) == 0 && addr - r <= align - 1,
        r <= addr,
{
    if align == 0 {
        addr
    } else {
        let m = align - 1;
        assert(addr & !m <= addr && (addr & !m) & m == 0 && addr - (addr & !m) <= m) by (bit_vector);
        addr & !m
    }
}

/// Align upwards: the smallest multiple of `align` that is not below `addr`.
pub fn align_up(addr: usize, align: usize) -> (r: usize)
    requires
        is_pow2(align),
        addr + align - 1 <= usize::MAX,
    ensures
        r == (addr + (align - 1)) as usize & !((align - 1) as usize),
        r >= addr,
        r & ((align - 1) as usize) == 0,
        r - addr <= align - 1,
{
    let x = addr + (align - 1);
    let m = align - 1;
    assert(align & m == 0usize ==> (x & !m) >= x - m) by (bit_vector)
        requires
            x >= m,
    ;
    align_down(x, align)
}

/// A simple allocator that hands out memory linearly and ignores frees.
pub struct BumpAllocator {
    pub heap_start: usize,
    pub heap_end: usize,
    pub next: usize,
}

impl BumpAllocator {
    /// The invariant: the next free address lies within the heap.
    pub open spec fn wf(&self) -> bool {
        self.heap_start <= self.next <= self.heap_end
    }

    /// An allocator over no memory, to be set up by `init`.
    pub fn empty() -> (r: BumpAllocator)
        ensures
            r.heap_start == 0,
            r.heap_end == 0,
            r.next == 0,
            r.wf(),
    {
        BumpAllocator { heap_start: 0, heap_end: 0, next: 0 }
    }

    /// Makes the allocator serve `heap_size` bytes from `heap_start`.
    pub fn init(&mut self, heap_start: usize, heap_size: usize)
        requires
            heap_start + heap_size <= usize::MAX,
        ensures
            final(self).heap_start == heap_start,
            final(self).heap_end == heap_start + heap_size,
            final(self).next == heap_start,
            final(self).wf(),
    {
        self.heap_start = heap_start;
        self.heap_end = heap_start + heap_size;
        self.next = heap_start;
    }

    /// Start of the block that an allocation of `size` bytes aligned to
    /// `align` would take.
    pub open spec fn alloc_start(&self, align: usize) -> usize {
        (self.next + (align - 1)) as usize & !((align - 1) as usize)
    }

    /// Allocates `size` bytes aligned to `align`. Returns the block's address,
    /// or 0 when the heap cannot hold it, in which case nothing changes.
    pub fn allocate(&mut self, size: usize, align: usize) -> (r: usize)
        requires
            old(self).wf(),
            is_pow2(align),
            old(self).next + align - 1 <= usize::MAX,
        ensures
            final(self).wf(),
            final(self).heap_start == old(self).heap_start,
            final(self).heap_end == old(self).heap_end,
            old(self).alloc_start(align) + size <= old(self).heap_end ==> {
                &&& r == old(self).alloc_start(align)
                &&& final(self).next == r + size
            },
            old(self).alloc_start(align) + size > old(self).heap_end ==> {
                &&& r == 0
                &&& final(self).next == old(self).next
            },
    {
        let start = align_up(self.next, align);
        if size <= self.heap_end && start <= self.heap_end - size {
            self.next = start + size;
            start
        } else {
            0
        }
    }
}

} // verus!
