//! Address-space translation for a fixed-map MIPS-style platform, cache
//! maintenance planning, and the arena allocator that backs surfaces.
//!
//! Addresses are modeled as plain 32-bit values.  The platform maps physical
//! memory twice into the virtual address space: a cached window at
//! `0x8000_0000` and an uncached window at `0xA000_0000`, so translation
//! between the views is pure bit manipulation.

use vstd::prelude::*;

verus! {

/// A physical memory address.
pub type PhysAddr = u32;

/// Strips the segment bits from a virtual address, leaving the physical
/// address it maps.
pub fn physical_addr(addr: u32) -> (r: PhysAddr)
    ensures
        r == (addr & 0x1FFF_FFFF),
{
    addr & 0x1FFF_FFFFu32
}

/// The cached virtual mapping of a physical address.
pub fn virtual_cached_addr(addr: PhysAddr) -> (r: u32)
    ensures
        r == (addr | 0x8000_0000),
{
    addr | 0x8000_0000u32
}

/// The uncached virtual mapping of a physical address.
pub fn virtual_uncached_addr(addr: PhysAddr) -> (r: u32)
    ensures
        r == (addr | 0xA000_0000),
{
    addr | 0xA000_0000u32
}

/// Moves a cached virtual address into the uncached window by setting the
/// segment-select bit.
pub fn uncached_addr(addr: u32) -> (r: u32)
    ensures
        r == (addr | 0x2000_0000),
{
    addr | 0x2000_0000u32
}

/// Moves an uncached virtual address back into the cached window by clearing
/// the segment-select bit.
pub fn cached_addr(addr: u32) -> (r: u32)
    ensures
        r == (addr & 0xDFFF_FFFF),
{
    addr & 0xDFFF_FFFFu32
}

/// On an address whose segment-select bit is clear, entering the uncached
/// window is a plain addition, so it preserves alignment to any power of two
/// that divides the window offset.
pub proof fn lemma_uncached_is_offset(addr: u32)
    requires
        addr & 0x2000_0000 == 0,
    ensures
        (addr | 0x2000_0000) == addr + 0x2000_0000,
{
    assert(addr & 0x2000_0000 == 0 ==> (addr | 0x2000_0000) == addr + 0x2000_0000)
        by (bit_vector);
}

/// Cache-op code: invalidate an instruction-cache line by index.
pub const INDEX_INVALIDATE_I: u8 = 0;

/// Cache-op code: write back and invalidate a data-cache line by index.
pub const INDEX_WRITEBACK_INVALIDATE_D: u8 = 1;

/// Cache-op code: invalidate a data-cache line on hit.
pub const HIT_INVALIDATE_D: u8 = 17;

/// Cache-op code: write back and invalidate a data-cache line on hit.
pub const HIT_WRITEBACK_INVALIDATE_D: u8 = 21;

/// Cache-op code: write back an instruction-cache line on hit.
pub const HIT_WRITEBACK_I: u8 = 24;

/// Cache-op code: write back a data-cache line on hit.
pub const HIT_WRITEBACK_D: u8 = 25;

/// A planned run of one cache operation: either over the whole cache by
/// index, or over the listed line addresses.  Carrying the plan out is a
/// privileged hardware instruction; computing it is pure address arithmetic.
pub struct CachePlan {
    /// The cache-op code to run.
    pub op: u8,
    /// When set, the whole data cache is written back and invalidated by
    /// index instead of touching the listed lines.
    pub flush_all: bool,
    /// The line addresses to run the op on, in ascending order.
    pub lines: Vec<u32>,
}

/// The first address of the cache line holding `addr`, for a line size of
/// 16 or 32 bytes.
pub open spec fn line_start_spec(addr: u32, line: u32) -> u32 {
    if line == 16 {
        addr & 0xFFFF_FFF0
    } else {
        addr & 0xFFFF_FFE0
    }
}

/// The listed lines begin at `start` and step by `line` until they have
/// covered everything below `end`.
pub open spec fn lines_ok(lines: Seq<u32>, start: int, line: int, end: int) -> bool {
    &&& lines.len() == (end - start + line - 1) / line
    &&& forall|i: int| 0 <= i < lines.len() ==> lines[i] == start + line * i
}

/// Plans one cache op over every line that overlaps `size` bytes at `addr`.
fn line_plan(op: u8, addr: u32, size: u32, line: u32) -> (p: CachePlan)
    requires
        line == 16 || line == 32,
        addr + size + line <= u32::MAX,
    ensures
        p.op == op,
        !p.flush_all,
        lines_ok(p.lines@, line_start_spec(addr, line) as int, line as int, addr + size),
{
    let start = if line == 16 {
        addr & 0xFFFF_FFF0u32
    } else {
        addr & 0xFFFF_FFE0u32
    };
    proof {
        assert((addr & 0xFFFF_FFF0) <= addr && addr - (addr & 0xFFFF_FFF0) < 16 && (addr
            & 0xFFFF_FFE0) <= addr && addr - (addr & 0xFFFF_FFE0) < 32) by (bit_vector);
    }
    let end = addr + size;
    let mut lines: Vec<u32> = Vec::new();
    let mut ptr = start;
    while ptr < end
        invariant
            line == 16 || line == 32,
            start <= ptr,
            ptr < end + line,
            end + line <= u32::MAX,
            lines@.len() * line == ptr - start,
            forall|j: int| 0 <= j < lines@.len() ==> lines@[j] == start + line * j,
        decreases end + line - ptr,
    {
        lines.push(ptr);
        proof {
            let n = lines@.len() - 1;
            assert(lines@[n] == start + line * n);
            assert((n + 1) * line == n * line + line) by (nonlinear_arith);
        }
        ptr = ptr + line;
    }
    proof {
        let li = line as int;
        let e = end - start;
        let k = lines@.len() as int;
        assert(k == (e + li - 1) / li) by (nonlinear_arith)
            requires
                li == 16 || li == 32,
                k * li >= e,
                k * li < e + li,
                0 <= e,
                0 <= k,
        ;
    }
    CachePlan { op, flush_all: false, lines }
}

/// Plans one data-cache op over `size` bytes at `addr`: past a threshold of
/// half a cache of lines it is cheaper to flush the whole cache by index.
fn data_cache_loop(op: u8, addr: u32, size: u32) -> (p: CachePlan)
    requires
        addr + size + 16 <= u32::MAX,
    ensures
        p.op == op,
        p.flush_all == (size >= 8192),
        size < 8192 ==> lines_ok(p.lines@, line_start_spec(addr, 16) as int, 16, addr + size),
{
    if size >= 512 * 16 {
        CachePlan { op, flush_all: true, lines: Vec::new() }
    } else {
        line_plan(op, addr, size, 16)
    }
}

/// Plans invalidation of the data-cache lines holding `size` bytes at
/// `addr`, dropping any dirty contents.
pub fn data_cache_hit_invalidate(addr: u32, size: u32) -> (p: CachePlan)
    requires
        addr + size + 16 <= u32::MAX,
    ensures
        p.op == HIT_INVALIDATE_D,
        p.flush_all == (size >= 8192),
        size < 8192 ==> lines_ok(p.lines@, line_start_spec(addr, 16) as int, 16, addr + size),
{
    data_cache_loop(HIT_INVALIDATE_D, addr, size)
}

/// Plans write-back of the data-cache lines holding `size` bytes at `addr`,
/// making memory visible to hardware that bypasses the cache.
pub fn data_cache_hit_writeback(addr: u32, size: u32) -> (p: CachePlan)
    requires
        addr + size + 16 <= u32::MAX,
    ensures
        p.op == HIT_WRITEBACK_D,
        p.flush_all == (size >= 8192),
        size < 8192 ==> lines_ok(p.lines@, line_start_spec(addr, 16) as int, 16, addr + size),
{
    data_cache_loop(HIT_WRITEBACK_D, addr, size)
}

/// Plans write-back and invalidation of the data-cache lines holding `size`
/// bytes at `addr`.
pub fn data_cache_hit_writeback_invalidate(addr: u32, size: u32) -> (p: CachePlan)
    requires
        addr + size + 16 <= u32::MAX,
    ensures
        p.op == HIT_WRITEBACK_INVALIDATE_D,
        p.flush_all == (size >= 8192),
        size < 8192 ==> lines_ok(p.lines@, line_start_spec(addr, 16) as int, 16, addr + size),
{
    data_cache_loop(HIT_WRITEBACK_INVALIDATE_D, addr, size)
}

/// Plans write-back and invalidation by index of the data-cache lines whose
/// indices the addresses of `size` bytes at `addr` map to.
pub fn data_cache_index_writeback_invalidate(addr: u32, size: u32) -> (p: CachePlan)
    requires
        addr + size + 16 <= u32::MAX,
    ensures
        p.op == INDEX_WRITEBACK_INVALIDATE_D,
        p.flush_all == (size >= 8192),
        size < 8192 ==> lines_ok(p.lines@, line_start_spec(addr, 16) as int, 16, addr + size),
{
    data_cache_loop(INDEX_WRITEBACK_INVALIDATE_D, addr, size)
}

/// Plans write-back and invalidation of the entire data cache by index: 512
/// lines of 16 bytes.
pub fn data_cache_writeback_invalidate_all() -> (p: CachePlan)
    ensures
        p.op == INDEX_WRITEBACK_INVALIDATE_D,
        !p.flush_all,
        lines_ok(p.lines@, 0, 16, 8192int),
{
    proof {
        assert(0u32 & 0xFFFF_FFF0 == 0) by (bit_vector);
    }
    line_plan(INDEX_WRITEBACK_INVALIDATE_D, 0, 512 * 16, 16)
}

/// Plans write-back of the instruction-cache lines holding `size` bytes at
/// `addr`.
pub fn inst_cache_hit_writeback(addr: u32, size: u32) -> (p: CachePlan)
    requires
        addr + size + 32 <= u32::MAX,
    ensures
        p.op == HIT_WRITEBACK_I,
        !p.flush_all,
        lines_ok(p.lines@, line_start_spec(addr, 32) as int, 32, addr + size),
{
    line_plan(HIT_WRITEBACK_I, addr, size, 32)
}

/// Plans invalidation of the entire instruction cache by index: 512 lines
/// of 32 bytes.
pub fn inst_cache_invalidate_all() -> (p: CachePlan)
    ensures
        p.op == INDEX_INVALIDATE_I,
        !p.flush_all,
        lines_ok(p.lines@, 0, 32, 16384int),
{
    proof {
        assert(0u32 & 0xFFFF_FFE0 == 0) by (bit_vector);
    }
    line_plan(INDEX_INVALIDATE_I, 0, 512 * 32, 32)
}

/// Rounds `n` up to the next multiple of `align`.
pub open spec fn align_up_spec(n: int, align: int) -> int {
    ((n + align - 1) / align) * align
}

/// One outstanding allocation of the arena: where the bump position stood
/// before it, the address handed out, and the layout it was made with.
#[derive(Clone, Copy, PartialEq, Eq, Structural, Debug)]
pub struct Block {
    /// The bump position before this allocation; released blocks roll the
    /// arena back to it.
    pub prev_next: u32,
    /// The address handed out.
    pub addr: u32,
    /// The size in bytes the block was requested with.
    pub size: u32,
    /// The alignment in bytes the block was requested with.
    pub align: u32,
}

/// The sum of the sizes of a stack of blocks.
pub open spec fn sum_sizes(s: Seq<Block>) -> int
    decreases s.len(),
{
    if s.len() == 0 {
        0
    } else {
        sum_sizes(s.drop_last()) + s.last().size
    }
}

/// The stack of outstanding blocks is consistent with a bump position
/// `next`: the top block ends exactly at `next`, begins at or after the bump
/// position it saved, and the rest of the stack is consistent with that
/// saved position; an empty stack means `next` sits at `base`.
pub open spec fn wf_stack(s: Seq<Block>, base: int, next: int) -> bool
    decreases s.len(),
{
    if s.len() == 0 {
        next == base
    } else {
        let b = s.last();
        &&& b.prev_next <= b.addr
        &&& b.addr + b.size == next
        &&& wf_stack(s.drop_last(), base, b.prev_next as int)
    }
}

proof fn lemma_sum_sizes_nonneg(s: Seq<Block>)
    ensures
        sum_sizes(s) >= 0,
    decreases s.len(),
{
    if s.len() > 0 {
        lemma_sum_sizes_nonneg(s.drop_last());
    }
}

proof fn lemma_stack_bounds(s: Seq<Block>, base: int, next: int)
    requires
        wf_stack(s, base, next),
    ensures
        base <= next,
        sum_sizes(s) <= next - base,
    decreases s.len(),
{
    if s.len() > 0 {
        lemma_stack_bounds(s.drop_last(), base, s.last().prev_next as int);
    }
}

/// The memory arena provider: a stack arena over the cached window of the
/// address space.  Allocation bumps an aligned cursor; blocks are released
/// in reverse order of allocation, each release rolling the cursor back to
/// where it stood before the matching allocation.
pub struct SystemAlloc {
    base: u32,
    capacity: u32,
    next: u32,
    in_use: u32,
    blocks: Vec<Block>,
}

impl SystemAlloc {
    /// The first address the arena may hand out.
    pub closed spec fn base_spec(self) -> u32 {
        self.base
    }

    /// The number of bytes the arena manages.
    pub closed spec fn capacity_spec(self) -> u32 {
        self.capacity
    }

    /// The current bump position: all addresses below it and at or above
    /// `base` have been handed out at some point.
    pub closed spec fn next_spec(self) -> u32 {
        self.next
    }

    /// The number of bytes currently allocated.
    pub closed spec fn in_use_spec(self) -> u32 {
        self.in_use
    }

    /// The outstanding allocations, oldest first.
    pub closed spec fn blocks_spec(self) -> Seq<Block> {
        self.blocks@
    }

    /// The number of bytes not currently allocated.
    pub open spec fn free_spec(self) -> int {
        self.capacity_spec() - self.in_use_spec()
    }

    /// The arena serves a region of the cached window, its bump cursor sits
    /// inside the region, the allocated-byte counter matches the outstanding
    /// blocks, and the block stack is consistent with the cursor.
    pub closed spec fn wf(self) -> bool {
        &&& 0x8000_0000 <= self.base
        &&& self.base + self.capacity < 0xA000_0000
        &&& self.base <= self.next <= self.base + self.capacity
        &&& self.in_use == sum_sizes(self.blocks@)
        &&& wf_stack(self.blocks@, self.base as int, self.next as int)
    }

    /// Creates an arena over `capacity` bytes of the cached window starting
    /// at `base`.
    pub fn new(base: u32, capacity: u32) -> (r: Self)
        requires
            0x8000_0000 <= base,
            base + capacity < 0xA000_0000,
        ensures
            r.wf(),
            r.base_spec() == base,
            r.capacity_spec() == capacity,
            r.next_spec() == base,
            r.in_use_spec() == 0,
            r.blocks_spec() == Seq::<Block>::empty(),
    {
        let r = SystemAlloc { base, capacity, next: base, in_use: 0, blocks: Vec::new() };
        proof {
            assert(r.blocks@ =~= Seq::<Block>::empty());
        }
        r
    }

    /// How many bytes are currently free.
    pub fn free_bytes(&self) -> (r: u32)
        requires
            self.wf(),
        ensures
            r == self.free_spec(),
    {
        proof {
            lemma_stack_bounds(self.blocks@, self.base as int, self.next as int);
        }
        self.capacity - self.in_use
    }

    /// Hands out `size` bytes at a multiple of `align`, or nothing when the
    /// aligned request does not fit in what is left of the region.  The
    /// address handed out always has the cached-window form: it lies in
    /// `0x8000_0000..0xA000_0000`, so its uncached-select bit is clear.
    pub fn allocate(&mut self, size: u32, align: u32) -> (r: Option<u32>)
        requires
            old(self).wf(),
            1 <= align <= 0x0010_0000,
        ensures
            final(self).wf(),
            final(self).base_spec() == old(self).base_spec(),
            final(self).capacity_spec() == old(self).capacity_spec(),
            (r is Some) <==> align_up_spec(old(self).next_spec() as int, align as int) + size
                <= old(self).base_spec() + old(self).capacity_spec(),
            r is None ==> *final(self) == *old(self),
            r matches Some(a) ==> ({
                &&& a as int == align_up_spec(old(self).next_spec() as int, align as int)
                &&& a % align == 0
                &&& a & 0x2000_0000 == 0
                &&& 0x8000_0000 <= a
                &&& a + size < 0xA000_0000
                &&& old(self).base_spec() <= a
                &&& a + size <= old(self).base_spec() + old(self).capacity_spec()
                &&& final(self).next_spec() == a + size
                &&& final(self).in_use_spec() == old(self).in_use_spec() + size
                &&& final(self).free_spec() == old(self).free_spec() - size
                &&& final(self).blocks_spec().len() == old(self).blocks_spec().len() + 1
                &&& final(self).blocks_spec().drop_last() == old(self).blocks_spec()
                &&& final(self).blocks_spec().last() == (Block {
                    prev_next: old(self).next_spec(),
                    addr: a,
                    size,
                    align,
                })
            }),
    {
        let n64 = self.next as u64;
        let al64 = align as u64;
        let k = (n64 + al64 - 1) / al64;
        proof {
            let ki = k as int;
            let ai = al64 as int;
            let ni = n64 as int;
            vstd::arithmetic::div_mod::lemma_fundamental_div_mod(ni + ai - 1, ai);
            vstd::arithmetic::div_mod::lemma_mod_bound(ni + ai - 1, ai);
            vstd::arithmetic::div_mod::lemma_mod_multiples_basic(ki, ai);
            assert(ki * ai == ai * ki) by (nonlinear_arith);
        }
        let aligned = k * al64;
        let end64 = (self.base as u64) + (self.capacity as u64);
        if aligned + (size as u64) <= end64 {
            let a = aligned as u32;
            proof {
                lemma_stack_bounds(self.blocks@, self.base as int, self.next as int);
                assert(0x8000_0000 <= a < 0xA000_0000 ==> a & 0x2000_0000 == 0) by (bit_vector);
            }
            let b = Block { prev_next: self.next, addr: a, size, align };
            self.blocks.push(b);
            self.next = a + size;
            self.in_use = self.in_use + size;
            proof {
                assert(self.blocks@.drop_last() =~= old(self).blocks@);
            }
            Some(a)
        } else {
            None
        }
    }

    /// Takes back the most recent outstanding block; the caller must name
    /// the address and the layout it was allocated with, and the arena rolls
    /// its cursor back to where it stood before that allocation.
    pub fn deallocate(&mut self, addr: u32, size: u32, align: u32)
        requires
            old(self).wf(),
            old(self).blocks_spec().len() > 0,
            old(self).blocks_spec().last().addr == addr,
            old(self).blocks_spec().last().size == size,
            old(self).blocks_spec().last().align == align,
        ensures
            final(self).wf(),
            final(self).base_spec() == old(self).base_spec(),
            final(self).capacity_spec() == old(self).capacity_spec(),
            final(self).blocks_spec() == old(self).blocks_spec().drop_last(),
            final(self).next_spec() == old(self).blocks_spec().last().prev_next,
            final(self).in_use_spec() == old(self).in_use_spec() - size,
            final(self).free_spec() == old(self).free_spec() + size,
    {
        proof {
            lemma_sum_sizes_nonneg(self.blocks@.drop_last());
            lemma_stack_bounds(
                self.blocks@.drop_last(),
                self.base as int,
                self.blocks@.last().prev_next as int,
            );
        }
        let b = self.blocks.pop().unwrap();
        self.next = b.prev_next;
        self.in_use = self.in_use - b.size;
    }
}

} // verus!
