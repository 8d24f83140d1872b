//! The physmap allocator: covers a guest physical frame range with populate
//! requests, preferring the largest aligned superpage level and falling back
//! to smaller levels on misalignment or partial fulfillment.
//!
//! The hypercall transport is asynchronous I/O and lives outside this crate.
//! The per-step decisions are the verified functions here: `plan_level` says
//! what batch (if any) a level may issue at a cursor position, and
//! `populate_guest_memory` runs the whole fallback loop against a
//! [`ScriptedHypervisor`], a deterministic stand-in that answers each batch
//! with a scripted grant. An outside driver repeats exactly these decisions,
//! handing each real hypercall answer back in.

use vstd::prelude::*;
use vstd::arithmetic::div_mod::lemma_fundamental_div_mod;
use vstd::arithmetic::div_mod::lemma_mod_bound;
use vstd::arithmetic::mul::lemma_mul_inequality;
use vstd::arithmetic::mul::lemma_mul_is_commutative;
use vstd::arithmetic::mul::lemma_mul_is_distributive_add_other_way;
use crate::error::PlatformError;
use crate::geometry::PFN_4K_SHIFT;
use crate::geometry::PFN_2M_SHIFT;
use crate::geometry::PFN_1G_SHIFT;
use crate::geometry::PFN_512G_SHIFT;
use crate::geometry::PFN_LIMIT;
use crate::geometry::is_level_shift;
use crate::geometry::level_pages;
use crate::geometry::min64;
use crate::geometry::spec_align_up;
use crate::geometry::spec_level_pages;
use crate::geometry::spec_next_level_pages;

verus! {

/// Largest frame count a single populate round asks for (1 GiB worth of
/// 4 KiB frames): the loop re-plans from the largest level after each round.
pub const MAX_BATCH_FRAMES: u64 = 1024 * 1024;

/// End of the range a single attempt at `shift` may cover, starting at
/// `base`: the requested end, clamped to the next-coarser-level boundary
/// when `base` does not itself sit on such a boundary. The clamp keeps each
/// batch inside one coarser-level region, so a later retry at a fresh cursor
/// can use the coarser level again.
pub open spec fn spec_attempt_end(shift: u64, base: u64, nr: u64) -> int {
    let next = spec_next_level_pages(shift) as int;
    let end = base + nr;
    if base as int % next != 0 && end > spec_align_up(base as int, next) {
        spec_align_up(base as int, next)
    } else {
        end
    }
}

/// Number of extents an attempt at `shift` would request.
pub open spec fn spec_attempt_count(shift: u64, base: u64, nr: u64) -> int {
    (spec_attempt_end(shift, base, nr) - base) / spec_level_pages(shift) as int
}

/// Whether an attempt at `shift` issues a batch at all: the degenerate top
/// level never does, a misaligned base is rejected, and the clamped range
/// must hold at least one extent.
pub open spec fn spec_plan_is_batch(shift: u64, base: u64, nr: u64) -> bool {
    &&& shift != PFN_512G_SHIFT
    &&& base as int % spec_level_pages(shift) as int == 0
    &&& spec_attempt_count(shift, base, nr) >= 1
}

/// What one level attempt decides: skip (an alignment or capacity rejection,
/// a try-smaller signal, never an error) or a batch of extent base frames to
/// submit in one populate request.
pub enum LevelPlan {
    Skip,
    Batch { extents: Vec<u64> },
}

/// Plan a single-level attempt: reject the degenerate top level and
/// misaligned bases, clamp at the next-coarser-level boundary, and lay out
/// one extent base frame per `2^shift` frames.
pub fn plan_level(shift: u64, base_pfn: u64, nr_pfns: u64) -> (r: LevelPlan)
    requires
        is_level_shift(shift),
        base_pfn + nr_pfns <= PFN_LIMIT,
    ensures
        (r is Batch) == spec_plan_is_batch(shift, base_pfn, nr_pfns),
        r matches LevelPlan::Batch { extents } ==> ({
            &&& extents@.len() == spec_attempt_count(shift, base_pfn, nr_pfns)
            &&& forall|k: int|
                0 <= k < extents@.len() ==> extents@[k] == base_pfn + k * spec_level_pages(shift)
            &&& base_pfn + extents@.len() * spec_level_pages(shift) <= spec_attempt_end(
                shift,
                base_pfn,
                nr_pfns,
            )
        }),
{
    if shift == PFN_512G_SHIFT {
        return LevelPlan::Skip;
    }
    let pages = level_pages(shift);
    if base_pfn % pages != 0 {
        return LevelPlan::Skip;
    }
    let next: u64 = pages * 0x200;
    assert(next == spec_next_level_pages(shift));
    let mut end_pfn: u64 = base_pfn + nr_pfns;
    if base_pfn % next != 0 {
        proof {
            lemma_fundamental_div_mod(base_pfn as int, next as int);
            lemma_mod_bound(base_pfn as int, next as int);
            lemma_mul_is_commutative(next as int, base_pfn as int / next as int);
        }
        let boundary: u64 = (base_pfn / next) * next + next;
        assert(boundary == spec_align_up(base_pfn as int, next as int));
        if end_pfn > boundary {
            end_pfn = boundary;
        }
    }
    assert(end_pfn == spec_attempt_end(shift, base_pfn, nr_pfns));
    let count: u64 = (end_pfn - base_pfn) / pages;
    proof {
        lemma_fundamental_div_mod((end_pfn - base_pfn) as int, pages as int);
    }
    assert(count == spec_attempt_count(shift, base_pfn, nr_pfns));
    assert(count * pages <= end_pfn - base_pfn);
    if count == 0 {
        return LevelPlan::Skip;
    }
    let mut extents: Vec<u64> = Vec::new();
    let mut cur: u64 = base_pfn;
    let mut i: u64 = 0;
    while i < count
        invariant
            0 <= i <= count,
            pages == spec_level_pages(shift),
            pages >= 1,
            count * pages <= end_pfn - base_pfn,
            base_pfn <= end_pfn <= PFN_LIMIT,
            cur == base_pfn + i * pages,
            extents@.len() == i,
            forall|k: int| 0 <= k < i ==> extents@[k] == base_pfn + k * pages,
        decreases count - i,
    {
        extents.push(cur);
        proof {
            lemma_mul_is_distributive_add_other_way(pages as int, i as int, 1);
            lemma_mul_inequality(i as int + 1, count as int, pages as int);
        }
        cur = cur + pages;
        i = i + 1;
    }
    LevelPlan::Batch { extents }
}

/// A deterministic stand-in for the hypervisor's populate decisions. Entry
/// `k` of `responses` caps how many extents the `k`-th issued batch call is
/// granted; past the end of the script every request is granted in full.
pub struct ScriptedHypervisor {
    pub responses: Vec<u64>,
    pub next: usize,
}

impl ScriptedHypervisor {
    pub open spec fn wf(self) -> bool {
        self.next <= self.responses@.len()
    }

    /// How many extents the next batch call would be granted.
    pub open spec fn spec_grant(self, requested: u64) -> u64 {
        if self.next < self.responses@.len() {
            min64(self.responses@[self.next as int], requested)
        } else {
            requested
        }
    }

    /// A script positioned at its first entry.
    pub fn new(responses: Vec<u64>) -> (r: Self)
        ensures
            r.responses == responses,
            r.next == 0,
            r.wf(),
    {
        ScriptedHypervisor { responses, next: 0 }
    }

    /// Answer one batch call of `requested` extents: grant at most the
    /// scripted cap, and in full once the script is exhausted.
    pub fn grant(&mut self, requested: u64) -> (r: u64)
        requires
            old(self).wf(),
        ensures
            r == old(self).spec_grant(requested),
            r <= requested,
            final(self).responses == old(self).responses,
            final(self).wf(),
            old(self).next < old(self).responses@.len() ==> final(self).next == old(self).next
                + 1,
            old(self).next >= old(self).responses@.len() ==> *final(self) == *old(self),
            r < requested ==> (old(self).next < old(self).responses@.len() && old(
                self,
            ).responses@[old(self).next as int] == r),
    {
        if self.next < self.responses.len() {
            let resp = self.responses[self.next];
            self.next = self.next + 1;
            if resp < requested {
                resp
            } else {
                requested
            }
        } else {
            requested
        }
    }
}

/// Outcome of one level attempt. The two zero-coverage cases are distinct
/// on purpose: a level that is not applicable is a request-shape signal
/// (fall to a smaller level and think nothing of it), while a granted batch
/// of zero frames means the hypervisor had nothing to give at that level.
#[derive(Clone, Copy, Debug, PartialEq, Eq)]
pub enum LevelCoverage {
    /// The level issued no batch here: degenerate top level, misaligned
    /// base, or no full extent fits before the clamped end.
    NotApplicable,
    /// A batch was issued; the hypervisor granted this many frames (zero:
    /// it had no memory to give at this level).
    Granted { frames: u64 },
}

/// One level attempt at a cursor position: plan the level, and if it issues
/// a batch, submit it and report the granted coverage in frames. Zero
/// coverage is a try-smaller signal, never an error.
pub fn populate_one_size(shift: u64, base_pfn: u64, remaining: u64, hv: &mut ScriptedHypervisor) -> (r: LevelCoverage)
    requires
        is_level_shift(shift),
        base_pfn + remaining <= PFN_LIMIT,
        old(hv).wf(),
    ensures
        final(hv).wf(),
        final(hv).responses == old(hv).responses,
        (r is NotApplicable) == !spec_plan_is_batch(shift, base_pfn, remaining),
        r is NotApplicable ==> *final(hv) == *old(hv),
        r matches LevelCoverage::Granted { frames } ==> ({
            let count = spec_attempt_count(shift, base_pfn, remaining) as u64;
            &&& frames == old(hv).spec_grant(count) * spec_level_pages(shift)
            &&& frames <= remaining
            &&& base_pfn + frames <= spec_attempt_end(shift, base_pfn, remaining)
            &&& (frames == 0 ==> (old(hv).next < old(hv).responses@.len() && old(
                hv,
            ).responses@[old(hv).next as int] == 0))
            &&& (old(hv).next < old(hv).responses@.len() ==> final(hv).next == old(hv).next + 1)
            &&& (old(hv).next >= old(hv).responses@.len() ==> final(hv).next == old(hv).next)
        }),
{
    let plan = plan_level(shift, base_pfn, remaining);
    match plan {
        LevelPlan::Skip => LevelCoverage::NotApplicable,
        LevelPlan::Batch { extents } => {
            let count: u64 = extents.len() as u64;
            let pages = level_pages(shift);
            let granted = hv.grant(count);
            proof {
                lemma_mul_inequality(granted as int, count as int, pages as int);
            }
            LevelCoverage::Granted { frames: granted * pages }
        },
    }
}

/// One issued batch, as recorded by `populate_guest_memory`: the level it
/// used, the first frame it covered, and how many frames the hypervisor
/// actually granted.
#[derive(Clone, Copy, Debug, PartialEq, Eq, Structural)]
pub struct BatchRecord {
    pub shift: u64,
    pub start_pfn: u64,
    pub frames: u64,
}

/// Total frames covered by the first `i` records of a trace.
pub open spec fn frames_before(t: Seq<BatchRecord>, i: int) -> int
    decreases i,
{
    if i <= 0 {
        0
    } else {
        frames_before(t, i - 1) + t[i - 1].frames
    }
}

/// A trace partitions `[base, base + nr)`: every batch is non-empty, starts
/// exactly where the previous coverage ended, uses a real non-top level, and
/// the batches together cover exactly `nr` frames.
pub open spec fn covers_exactly(t: Seq<BatchRecord>, base: u64, nr: u64) -> bool {
    &&& forall|i: int|
        0 <= i < t.len() ==> {
            &&& (#[trigger] t[i]).frames >= 1
            &&& t[i].start_pfn == base + frames_before(t, i)
            &&& is_level_shift(t[i].shift)
            &&& t[i].shift != PFN_512G_SHIFT
        }
    &&& frames_before(t, t.len() as int) == nr
}

/// `frames_before` reads only the first `i` records, so it agrees between
/// any two traces that share that prefix.
proof fn lemma_frames_before_prefix(t1: Seq<BatchRecord>, t2: Seq<BatchRecord>, i: int)
    requires
        0 <= i <= t1.len(),
        i <= t2.len(),
        forall|k: int| 0 <= k < i ==> t1[k] == t2[k],
    ensures
        frames_before(t1, i) == frames_before(t2, i),
    decreases i,
{
    if i > 0 {
        lemma_frames_before_prefix(t1, t2, i - 1);
    }
}

/// Coverage never shrinks along a trace.
proof fn lemma_frames_before_monotone(t: Seq<BatchRecord>, i: int, j: int)
    requires
        0 <= i <= j,
    ensures
        frames_before(t, i) <= frames_before(t, j),
    decreases j - i,
{
    if i < j {
        lemma_frames_before_monotone(t, i, j - 1);
    }
}

/// How many extents a script grants to a batch call of `requested` extents
/// at script position `idx`: the scripted cap, or everything past the end.
pub open spec fn spec_script_grant(resp: Seq<u64>, idx: int, requested: u64) -> u64 {
    if 0 <= idx < resp.len() {
        min64(resp[idx], requested)
    } else {
        requested
    }
}

/// One level attempt at cursor `cur` with `allocsz` frames remaining, read
/// off the script: the frames covered and the script position afterwards.
/// A level that issues no batch consumes nothing.
pub open spec fn spec_attempt(shift: u64, cur: u64, allocsz: u64, resp: Seq<u64>, idx: int) -> (
    u64,
    int,
) {
    if spec_plan_is_batch(shift, cur, allocsz) {
        let count = spec_attempt_count(shift, cur, allocsz) as u64;
        let granted = spec_script_grant(resp, idx, count);
        (
            (granted * spec_level_pages(shift)) as u64,
            if idx < resp.len() {
                idx + 1
            } else {
                idx
            },
        )
    } else {
        (0, idx)
    }
}

/// One whole fallback round at cursor `cur`: the levels in descending
/// order (the top level is guarded out and attempts nothing), stopping at
/// the first nonzero coverage. Yields the frames covered, the level that
/// covered them, and the script position after the round; zero frames
/// means even the native level was granted nothing.
pub open spec fn spec_round(cur: u64, allocsz: u64, resp: Seq<u64>, idx: int) -> (u64, u64, int) {
    let a1g = spec_attempt(PFN_1G_SHIFT, cur, allocsz, resp, idx);
    if a1g.0 > 0 {
        (a1g.0, PFN_1G_SHIFT, a1g.1)
    } else {
        let a2m = spec_attempt(PFN_2M_SHIFT, cur, allocsz, resp, a1g.1);
        if a2m.0 > 0 {
            (a2m.0, PFN_2M_SHIFT, a2m.1)
        } else {
            let a4k = spec_attempt(PFN_4K_SHIFT, cur, allocsz, resp, a2m.1);
            (a4k.0, PFN_4K_SHIFT, a4k.1)
        }
    }
}

/// The whole population run, read off the script: starting `pfn` frames
/// into the range at script position `idx`, the exact trace of batches,
/// the final script position, and whether the range was fully covered
/// (`false`: a round covered nothing, the fatal exhaustion case). The run
/// is deterministic, so this pins `populate_guest_memory` completely.
pub open spec fn spec_replay(base: u64, nr: u64, resp: Seq<u64>, pfn: u64, idx: int) -> (
    Seq<BatchRecord>,
    int,
    bool,
)
    decreases nr - pfn,
{
    if pfn >= nr {
        (Seq::empty(), idx, true)
    } else {
        let allocsz = min64((nr - pfn) as u64, MAX_BATCH_FRAMES);
        let round = spec_round((base + pfn) as u64, allocsz, resp, idx);
        if round.0 == 0 {
            (Seq::empty(), round.2, false)
        } else if pfn + round.0 < nr {
            let rec = BatchRecord {
                shift: round.1,
                start_pfn: (base + pfn) as u64,
                frames: round.0,
            };
            let rest = spec_replay(base, nr, resp, (pfn + round.0) as u64, round.2);
            (seq![rec] + rest.0, rest.1, rest.2)
        } else {
            let rec = BatchRecord {
                shift: round.1,
                start_pfn: (base + pfn) as u64,
                frames: round.0,
            };
            (seq![rec], round.2, true)
        }
    }
}

/// Cover `[base_pfn, base_pfn + nr_pfns)` completely: at each cursor
/// position try the largest level first and fall back on zero coverage;
/// advance by exactly what the hypervisor granted and restart from the
/// largest level. Fails fatally only when even the native page-size level
/// yields zero coverage, after which no further batch is issued.
pub fn populate_guest_memory(base_pfn: u64, nr_pfns: u64, hv: &mut ScriptedHypervisor) -> (r:
    Result<Vec<BatchRecord>, PlatformError>)
    requires
        base_pfn + nr_pfns <= PFN_LIMIT,
        old(hv).wf(),
    ensures
        final(hv).wf(),
        final(hv).responses == old(hv).responses,
        old(hv).next <= final(hv).next,
        r matches Ok(trace) ==> ({
            &&& covers_exactly(trace@, base_pfn, nr_pfns)
            &&& forall|i: int, j: int|
                0 <= i < j < trace@.len() ==> (#[trigger] trace@[i]).start_pfn + trace@[i].frames
                    <= (#[trigger] trace@[j]).start_pfn
            &&& forall|i: int|
                0 <= i < trace@.len() ==> base_pfn <= (#[trigger] trace@[i]).start_pfn
                    && trace@[i].start_pfn + trace@[i].frames <= base_pfn + nr_pfns
        }),
        r matches Err(e) ==> e == PlatformError::PopulatePhysmapFailed,
        r is Err ==> (final(hv).next >= 1 && final(hv).responses@[final(hv).next - 1] == 0),
        r is Err ==> exists|k: int|
            old(hv).next <= k < old(hv).responses@.len() && old(hv).responses@[k] == 0,
        (forall|k: int|
            0 <= k < old(hv).responses@.len() ==> old(hv).responses@[k] >= 1) ==> r is Ok,
        ({
            let rr = spec_replay(base_pfn, nr_pfns, old(hv).responses@, 0, old(hv).next as int);
            &&& (r is Ok) == rr.2
            &&& final(hv).next == rr.1
            &&& (r matches Ok(trace) ==> trace@ == rr.0)
        }),
{
    let mut trace: Vec<BatchRecord> = Vec::new();
    let mut pfn: u64 = 0;
    proof {
        let rr = spec_replay(base_pfn, nr_pfns, old(hv).responses@, 0, old(hv).next as int);
        assert(Seq::<BatchRecord>::empty() + rr.0 =~= rr.0);
    }
    while pfn < nr_pfns
        invariant
            pfn <= nr_pfns,
            base_pfn + nr_pfns <= PFN_LIMIT,
            hv.wf(),
            hv.responses == old(hv).responses,
            old(hv).next <= hv.next,
            frames_before(trace@, trace@.len() as int) == pfn,
            forall|i: int|
                0 <= i < trace@.len() ==> {
                    &&& (#[trigger] trace@[i]).frames >= 1
                    &&& trace@[i].start_pfn == base_pfn + frames_before(trace@, i)
                    &&& is_level_shift(trace@[i].shift)
                    &&& trace@[i].shift != PFN_512G_SHIFT
                },
            ({
                let rr = spec_replay(base_pfn, nr_pfns, old(hv).responses@, 0, old(hv).next as int);
                let rc = spec_replay(base_pfn, nr_pfns, old(hv).responses@, pfn, hv.next as int);
                &&& rr.0 == trace@ + rc.0
                &&& rr.1 == rc.1
                &&& rr.2 == rc.2
            }),
        decreases nr_pfns - pfn,
    {
        let ghost resp = old(hv).responses@;
        let ghost idx_head = hv.next as int;
        let remaining: u64 = nr_pfns - pfn;
        let allocsz: u64 = round_batch_cap(remaining);
        let cur: u64 = base_pfn + pfn;
        // Largest level first; the top level is a degenerate guard and never
        // issues, each smaller level is tried only on zero coverage above it.
        let mut covered: u64 = 0;
        let mut used_shift: u64 = PFN_512G_SHIFT;
        if let LevelCoverage::Granted { frames } = populate_one_size(
            PFN_512G_SHIFT,
            cur,
            allocsz,
            hv,
        ) {
            covered = frames;
        }
        if covered == 0 {
            if let LevelCoverage::Granted { frames } = populate_one_size(
                PFN_1G_SHIFT,
                cur,
                allocsz,
                hv,
            ) {
                covered = frames;
                used_shift = PFN_1G_SHIFT;
            }
        }
        if covered == 0 {
            if let LevelCoverage::Granted { frames } = populate_one_size(
                PFN_2M_SHIFT,
                cur,
                allocsz,
                hv,
            ) {
                covered = frames;
                used_shift = PFN_2M_SHIFT;
            }
        }
        if covered == 0 {
            // The native level always applies while frames remain: any base
            // is aligned to it and at least one extent fits.
            assert(spec_plan_is_batch(PFN_4K_SHIFT, cur, allocsz));
            match populate_one_size(PFN_4K_SHIFT, cur, allocsz, hv) {
                LevelCoverage::NotApplicable => {
                    return Err(PlatformError::PopulatePhysmapFailed);
                },
                LevelCoverage::Granted { frames } => {
                    if frames == 0 {
                        // Granted nothing even at the native page size: the
                        // hypervisor has no memory to give, and there is no
                        // smaller fallback; the run stops at this script
                        // position, right after the zero grant.
                        proof {
                            let round = spec_round(cur, allocsz, resp, idx_head);
                            assert(round.0 == 0);
                            assert(round.2 == hv.next as int);
                            let rc = spec_replay(
                                base_pfn,
                                nr_pfns,
                                resp,
                                pfn,
                                idx_head,
                            );
                            assert(rc.0 =~= Seq::<BatchRecord>::empty());
                        }
                        return Err(PlatformError::PopulatePhysmapFailed);
                    }
                    covered = frames;
                    used_shift = PFN_4K_SHIFT;
                },
            }
        }
        let rec = BatchRecord { shift: used_shift, start_pfn: cur, frames: covered };
        let ghost t_old = trace@;
        trace.push(rec);
        proof {
            assert forall|i: int|
                0 <= i < trace@.len() implies {
                &&& (#[trigger] trace@[i]).frames >= 1
                &&& trace@[i].start_pfn == base_pfn + frames_before(trace@, i)
                &&& is_level_shift(trace@[i].shift)
                &&& trace@[i].shift != PFN_512G_SHIFT
            } by {
                lemma_frames_before_prefix(t_old, trace@, i);
            }
            lemma_frames_before_prefix(t_old, trace@, t_old.len() as int);
            // one replay step matches what this round did
            let round = spec_round(cur, allocsz, resp, idx_head);
            assert(round.0 == covered);
            assert(round.1 == used_shift);
            assert(round.2 == hv.next as int);
            let rc_new = spec_replay(
                base_pfn,
                nr_pfns,
                resp,
                (pfn + covered) as u64,
                hv.next as int,
            );
            assert(t_old.push(rec) =~= t_old + seq![rec]);
            assert(seq![rec] + Seq::<BatchRecord>::empty() =~= seq![rec]);
            assert(t_old + (seq![rec] + rc_new.0) =~= (t_old + seq![rec]) + rc_new.0);
            assert((t_old + seq![rec]) + Seq::<BatchRecord>::empty() =~= t_old + seq![rec]);
        }
        pfn = pfn + covered;
    }
    proof {
        lemma_populate_trace_partition(trace@, base_pfn, nr_pfns);
        assert(trace@ + Seq::<BatchRecord>::empty() =~= trace@);
    }
    Ok(trace)
}

/// The order in which the fallback loop tries the levels at each cursor
/// position: largest superpage first, native page size last.
pub fn fallback_shifts() -> (r: Vec<u64>)
    ensures
        r@.len() == 4,
        r@[0] == PFN_512G_SHIFT,
        r@[1] == PFN_1G_SHIFT,
        r@[2] == PFN_2M_SHIFT,
        r@[3] == PFN_4K_SHIFT,
        forall|i: int| 0 <= i < r@.len() ==> is_level_shift(#[trigger] r@[i]),
{
    let mut v: Vec<u64> = Vec::new();
    v.push(PFN_512G_SHIFT);
    v.push(PFN_1G_SHIFT);
    v.push(PFN_2M_SHIFT);
    v.push(PFN_4K_SHIFT);
    v
}

/// Frames one population round may ask for when `remaining` frames are
/// still uncovered: the batch cap, or everything if less remains.
pub fn round_batch_cap(remaining: u64) -> (r: u64)
    ensures
        r == min64(remaining, MAX_BATCH_FRAMES),
{
    if remaining < MAX_BATCH_FRAMES {
        remaining
    } else {
        MAX_BATCH_FRAMES
    }
}

/// Advance the population cursor by one round's coverage. Zero coverage
/// after the whole fallback chain means even the native level was granted
/// nothing: the dedicated fatal exhaustion error, with no further round.
pub fn next_cursor(pfn: u64, nr_pfns: u64, covered: u64) -> (r: Result<u64, PlatformError>)
    requires
        pfn <= nr_pfns,
        covered <= nr_pfns - pfn,
    ensures
        covered == 0 ==> (r matches Err(e) && e == PlatformError::PopulatePhysmapFailed),
        covered > 0 ==> (r matches Ok(p) && p == pfn + covered),
{
    if covered == 0 {
        Err(PlatformError::PopulatePhysmapFailed)
    } else {
        Ok(pfn + covered)
    }
}

/// Frames covered by a batch of `granted` extents at the given level:
/// exactly `granted` extents' worth of frames.
pub fn covered_frames(shift: u64, granted: u64) -> (r: u64)
    requires
        is_level_shift(shift),
        granted * spec_level_pages(shift) <= u64::MAX,
    ensures
        r == granted * spec_level_pages(shift),
{
    let pages = level_pages(shift);
    granted * pages
}

/// A successful populate trace is a partition of the requested range: no
/// frame is covered twice (earlier batches end before later ones begin) and
/// every batch stays inside `[base, base + nr)`; with `covers_exactly`'s sum
/// clause the batches together cover exactly `nr` frames.
pub proof fn lemma_populate_trace_partition(t: Seq<BatchRecord>, base: u64, nr: u64)
    requires
        covers_exactly(t, base, nr),
    ensures
        forall|i: int, j: int|
            0 <= i < j < t.len() ==> (#[trigger] t[i]).start_pfn + t[i].frames <= (
            #[trigger] t[j]).start_pfn,
        forall|i: int|
            0 <= i < t.len() ==> base <= (#[trigger] t[i]).start_pfn && t[i].start_pfn
                + t[i].frames <= base + nr,
{
    assert forall|i: int, j: int|
        0 <= i < j < t.len() implies (#[trigger] t[i]).start_pfn + t[i].frames <= (
    #[trigger] t[j]).start_pfn by {
        assert(frames_before(t, i + 1) == frames_before(t, i) + t[i].frames);
        lemma_frames_before_monotone(t, i + 1, j);
    }
    assert forall|i: int|
        0 <= i < t.len() implies base <= (#[trigger] t[i]).start_pfn && t[i].start_pfn
        + t[i].frames <= base + nr by {
        lemma_frames_before_monotone(t, 0, i);
        assert(frames_before(t, i + 1) == frames_before(t, i) + t[i].frames);
        lemma_frames_before_monotone(t, i + 1, t.len() as int);
    }
}

/// When the base frame does not sit on a boundary of the next-coarser
/// level, an attempt at this level never crosses that boundary: its end is
/// clamped to `align_up(base, next_level_pages)`.
pub proof fn lemma_attempt_below_next_boundary(shift: u64, base: u64, nr: u64)
    requires
        is_level_shift(shift),
        base as int % spec_next_level_pages(shift) as int != 0,
    ensures
        spec_attempt_end(shift, base, nr) <= spec_align_up(
            base as int,
            spec_next_level_pages(shift) as int,
        ),
{
}

/// A base frame misaligned to a level makes that level's attempt return
/// zero coverage (it issues no batch), so control falls to the next smaller
/// level.
pub proof fn lemma_misaligned_level_skips(shift: u64, base: u64, nr: u64)
    requires
        is_level_shift(shift),
        base as int % spec_level_pages(shift) as int != 0,
    ensures
        !spec_plan_is_batch(shift, base, nr),
{
}

} // verus!
