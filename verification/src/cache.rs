//! Data-cache maintenance by virtual address.
//!
//! Cleaning or invalidating a range walks it one cache line at a time (the
//! `dc civac` / `dc ivac` instructions) and then issues a full-system
//! barrier (`dsb sy`). The instructions themselves are issued by the caller;
//! this module computes, and proves correct, which line addresses they are
//! applied to and in which order.

use vstd::prelude::*;

verus! {

/// Size in bytes of one data-cache line.
pub const CACHE_LINE_SIZE: u64 = 64;

/// Size in bytes of one level-1 cache line, the stride of the walk.
pub const L1_CACHE_BYTES: u64 = 64;

/// The maintenance applied to each line of a range.
#[derive(Debug, Clone, Copy, PartialEq, Eq, Structural)]
pub enum DcacheOp {
    /// Clean and invalidate (`dc civac`): write dirty data back, then drop the line.
    CleanInvalidate,
    /// Invalidate (`dc ivac`): drop the line without writing it back.
    Invalidate,
}

/// One step of a maintenance walk.
#[derive(Debug, Clone, Copy, PartialEq, Eq, Structural)]
pub enum CacheAction {
    /// Apply the operation to the cache line that starts at the address.
    Line(DcacheOp, u64),
    /// Wait for all earlier maintenance to complete (`dsb sy`).
    Barrier,
}

/// The start of the cache line holding address `a`.
pub open spec fn line_floor(a: int) -> int {
    a - a % 64
}

/// The first cache-line boundary at or above `a`.
pub open spec fn line_ceil(a: int) -> int {
    line_floor(a + 63)
}

/// The line addresses `first, first + 64, ...` strictly below `bound`.
pub open spec fn lines_from(first: int, bound: int) -> Seq<u64> {
    Seq::new(
        if bound > first { ((bound - first + 63) / 64) as nat } else { 0 },
        |k: int| (first + 64 * k) as u64,
    )
}

/// The cache lines that maintenance of `[start, end)` touches: from the line
/// holding `start` up to, not including, the first line boundary at or above `end`.
pub open spec fn cache_lines(start: u64, end: u64) -> Seq<u64> {
    lines_from(line_floor(start as int), line_ceil(end as int))
}

/// Applies `op` to each line of `lines`, in order.
pub open spec fn line_actions(op: DcacheOp, lines: Seq<u64>) -> Seq<CacheAction> {
    lines.map_values(|l: u64| CacheAction::Line(op, l))
}

/// The whole walk over `[start, end)`: every line in ascending order, then
/// one barrier.
pub open spec fn dcache_plan(op: DcacheOp, start: u64, end: u64) -> Seq<CacheAction> {
    line_actions(op, cache_lines(start, end)).push(CacheAction::Barrier)
}

proof fn lemma_line_arith(start: int, end: int)
    requires
        0 <= start,
        0 <= end,
    ensures
        line_floor(start) % 64 == 0,
        line_ceil(end) % 64 == 0,
        line_floor(start) <= start < line_floor(start) + 64,
        end <= line_ceil(end) < end + 64,
        line_ceil(end) > line_floor(start) ==> (line_ceil(end) - line_floor(start) + 63) / 64 * 64
            == line_ceil(end) - line_floor(start),
{
    let f = line_floor(start);
    let c = line_ceil(end);
    assert(f % 64 == 0 && f <= start < f + 64) by (nonlinear_arith)
        requires
            f == start - start % 64,
            0 <= start,
    ;
    assert(c % 64 == 0 && end <= c < end + 64) by (nonlinear_arith)
        requires
            c == (end + 63) - (end + 63) % 64,
            0 <= end,
    ;
    if c > f {
        assert((c - f + 63) / 64 * 64 == c - f) by (nonlinear_arith)
            requires
                c % 64 == 0,
                f % 64 == 0,
                c > f,
        ;
    }
}

/// Every line of the walk over `[start, end)` is a whole, line-aligned cache
/// line; the lines are consecutive and ascending, starting at the line that
/// holds `start` and ending below the first line boundary at or above `end`.
pub proof fn lemma_cache_lines_bounds(start: u64, end: u64)
    ensures
        forall|k: int|
            0 <= k < cache_lines(start, end).len() ==> {
                &&& #[trigger] cache_lines(start, end)[k] == line_floor(start as int) + 64 * k
                &&& cache_lines(start, end)[k] % 64 == 0
                &&& line_floor(start as int) <= cache_lines(start, end)[k]
                &&& cache_lines(start, end)[k] + 64 <= line_ceil(end as int)
            },
{
    lemma_line_arith(start as int, end as int);
    let f = line_floor(start as int);
    let c = line_ceil(end as int);
    let lines = cache_lines(start, end);
    assert forall|k: int| 0 <= k < lines.len() implies {
        &&& #[trigger] lines[k] == f + 64 * k
        &&& lines[k] % 64 == 0
        &&& f <= lines[k]
        &&& lines[k] + 64 <= c
    } by {
        assert(c > f);
        assert(f + 64 * k + 64 <= c && (f + 64 * k) % 64 == 0) by (nonlinear_arith)
            requires
                0 <= k < (c - f + 63) / 64,
                (c - f + 63) / 64 * 64 == c - f,
                f % 64 == 0,
        ;
        assert(c <= u64::MAX + 1);
    }
}

/// The walk over `[start, end)` covers the range: every address in it lies
/// in one of the walked lines.
pub proof fn lemma_cache_lines_cover(start: u64, end: u64, a: int)
    requires
        start <= a < end,
    ensures
        exists|k: int|
            0 <= k < cache_lines(start, end).len() && #[trigger] cache_lines(start, end)[k] <= a
                < cache_lines(start, end)[k] + 64,
{
    lemma_line_arith(start as int, end as int);
    lemma_line_arith(a, a);
    lemma_cache_lines_bounds(start, end);
    let f = line_floor(start as int);
    let c = line_ceil(end as int);
    let fa = line_floor(a);
    assert(f <= fa) by (nonlinear_arith)
        requires
            f % 64 == 0,
            fa % 64 == 0,
            f <= start <= a,
            fa <= a < fa + 64,
    ;
    let k = (fa - f) / 64;
    assert(0 <= k < (c - f + 63) / 64 && fa == f + 64 * k) by (nonlinear_arith)
        requires
            f % 64 == 0,
            fa % 64 == 0,
            f <= fa,
            fa <= a < end <= c,
            c % 64 == 0,
            (c - f + 63) / 64 * 64 == c - f,
            k == (fa - f) / 64,
    ;
    assert(cache_lines(start, end)[k] <= a < cache_lines(start, end)[k] + 64);
}

/// The walk touches no line it need not: when the range is not empty, every
/// walked line holds some address of `[start, end)`, the first line holds
/// `start` and the last line holds `end - 1`.
pub proof fn lemma_cache_lines_tight(start: u64, end: u64)
    requires
        start < end,
    ensures
        cache_lines(start, end).len() > 0,
        forall|k: int|
            0 <= k < cache_lines(start, end).len() ==> start < #[trigger] cache_lines(start, end)[k]
                + 64 && cache_lines(start, end)[k] < end,
        cache_lines(start, end)[0] <= start < cache_lines(start, end)[0] + 64,
        cache_lines(start, end).last() <= end - 1 < cache_lines(start, end).last() + 64,
{
    lemma_line_arith(start as int, end as int);
    lemma_cache_lines_bounds(start, end);
    lemma_cache_lines_cover(start, end, start as int);
    lemma_cache_lines_cover(start, end, end - 1);
    let lines = cache_lines(start, end);
    assert(lines.len() > 0);
    let f = line_floor(start as int);
    let c = line_ceil(end as int);
    assert(lines[0] == f);
    let n = lines.len() - 1;
    assert(lines[n] == f + 64 * n);
    assert(lines[n] + 64 == c) by (nonlinear_arith)
        requires
            lines[n] == f + 64 * n,
            n == (c - f + 63) / 64 - 1,
            (c - f + 63) / 64 * 64 == c - f,
    ;
}

/// The walk applies the operation to each of its lines in ascending order
/// and ends with exactly one barrier, after every line.
pub proof fn lemma_dcache_plan_shape(op: DcacheOp, start: u64, end: u64)
    ensures
        dcache_plan(op, start, end).len() == cache_lines(start, end).len() + 1,
        dcache_plan(op, start, end).last() == CacheAction::Barrier,
        forall|k: int|
            0 <= k < cache_lines(start, end).len() ==> #[trigger] dcache_plan(op, start, end)[k]
                == CacheAction::Line(op, cache_lines(start, end)[k]),
{
}

/// A maintenance walk in progress: hands out the actions of a plan one at a time.
pub struct DcacheMaintenance {
    op: DcacheOp,
    next: u64,
    end: u64,
    barrier_pending: bool,
}

impl View for DcacheMaintenance {
    type V = Seq<CacheAction>;

    /// The actions that are still to be performed, in order.
    closed spec fn view(&self) -> Seq<CacheAction> {
        line_actions(self.op, lines_from(self.next as int, self.end as int)) + if self.barrier_pending {
            seq![CacheAction::Barrier]
        } else {
            Seq::<CacheAction>::empty()
        }
    }
}

proof fn lemma_mask_is_floor(x: u64)
    ensures
        x & !63u64 == x - x % 64,
{
    assert(x & !63u64 == x - x % 64) by (bit_vector);
}

impl DcacheMaintenance {
    /// Internal consistency: both cursors are line-aligned, and the barrier
    /// is only handed out after all lines.
    pub closed spec fn wf(&self) -> bool {
        &&& self.next % 64 == 0
        &&& self.end % 64 == 0
        &&& !self.barrier_pending ==> self.next >= self.end
    }

    /// The operation applied to each line of this walk.
    pub closed spec fn op(&self) -> DcacheOp {
        self.op
    }

    /// Starts the walk of `op` over `[start, end)`.
    fn new(op: DcacheOp, start: u64, end: u64) -> (m: Self)
        requires
            end + 63 <= u64::MAX,
        ensures
            m.wf(),
            m.op() == op,
            m@ == dcache_plan(op, start, end),
    {
        let last = (end + (CACHE_LINE_SIZE - 1)) & !(CACHE_LINE_SIZE - 1);
        let first = start & !(L1_CACHE_BYTES - 1);
        proof {
            lemma_mask_is_floor((end + 63) as u64);
            lemma_mask_is_floor(start);
        }
        let m = DcacheMaintenance { op, next: first, end: last, barrier_pending: true };
        assert(m@ =~= dcache_plan(op, start, end));
        m
    }

    /// Hands out the next action of the walk, or `None` once it is complete.
    pub fn next_action(&mut self) -> (a: Option<CacheAction>)
        requires
            old(self).wf(),
        ensures
            final(self).wf(),
            final(self).op() == old(self).op(),
            old(self)@.len() == 0 ==> a is None && final(self)@ == old(self)@,
            old(self)@.len() > 0 ==> a == Some(old(self)@[0]) && final(self)@ == old(
                self,
            )@.drop_first(),
    {
        let ghost lines = lines_from(self.next as int, self.end as int);
        if self.next < self.end {
            let line = self.next;
            self.next = self.next + L1_CACHE_BYTES;
            proof {
                assert(lines_from(self.next as int, self.end as int) =~= lines.drop_first());
                assert(line_actions(self.op, lines.drop_first()) =~= line_actions(
                    self.op,
                    lines,
                ).drop_first());
                assert(self@ =~= old(self)@.drop_first());
            }
            Some(CacheAction::Line(self.op, line))
        } else if self.barrier_pending {
            self.barrier_pending = false;
            proof {
                assert(lines.len() == 0);
                assert(self@ =~= old(self)@.drop_first());
            }
            Some(CacheAction::Barrier)
        } else {
            proof {
                assert(lines.len() == 0);
                assert(old(self)@ =~= Seq::<CacheAction>::empty());
            }
            None
        }
    }
}

/// Clean and invalidate the data cache over `[start, end)` by virtual address.
pub fn flush_dcache_range(start: u64, end: u64) -> (m: DcacheMaintenance)
    requires
        end + 63 <= u64::MAX,
    ensures
        m.wf(),
        m.op() == DcacheOp::CleanInvalidate,
        m@ == dcache_plan(DcacheOp::CleanInvalidate, start, end),
{
    DcacheMaintenance::new(DcacheOp::CleanInvalidate, start, end)
}

/// Invalidate the data cache over `[start, end)` by virtual address.
pub fn invalidate_dcache_range(start: u64, end: u64) -> (m: DcacheMaintenance)
    requires
        end + 63 <= u64::MAX,
    ensures
        m.wf(),
        m.op() == DcacheOp::Invalidate,
        m@ == dcache_plan(DcacheOp::Invalidate, start, end),
{
    DcacheMaintenance::new(DcacheOp::Invalidate, start, end)
}

/// Clean and invalidate the `size` bytes of data cache starting at `addr`.
pub fn flush_cache(addr: u64, size: u64) -> (m: DcacheMaintenance)
    requires
        addr + size + 63 <= u64::MAX,
    ensures
        m.wf(),
        m.op() == DcacheOp::CleanInvalidate,
        m@ == dcache_plan(DcacheOp::CleanInvalidate, addr, (addr + size) as u64),
{
    flush_dcache_range(addr, addr + size)
}

/// Invalidate the `size` bytes of data cache starting at `addr`.
pub fn invalidate_dcache(addr: u64, size: u64) -> (m: DcacheMaintenance)
    requires
        addr + size + 63 <= u64::MAX,
    ensures
        m.wf(),
        m.op() == DcacheOp::Invalidate,
        m@ == dcache_plan(DcacheOp::Invalidate, addr, (addr + size) as u64),
{
    invalidate_dcache_range(addr, addr + size)
}

} // verus!
