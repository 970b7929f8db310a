//! The proportional disk bar: each segment gets cells in proportion to its size,
//! at least one each when they all fit, with leftover cells going to the largest
//! remainders.

use vstd::prelude::*;
use crate::disk_layout::{DiskLayoutModel, DiskLayoutSegment, DiskRegionKind};

verus! {

/// The bar width actually drawn: between 8 and 96 cells.
pub open spec fn spec_bar_width(width: usize) -> nat {
    if width < 8 {
        8
    } else if width > 96 {
        96
    } else {
        width as nat
    }
}

/// Total sectors of the first `m` segments.
pub open spec fn spec_weight(segs: Seq<DiskLayoutSegment>, m: int) -> nat
    decreases m,
{
    if m <= 0 {
        0
    } else {
        spec_weight(segs, m - 1) + (segs[m - 1].sector_count as nat)
    }
}

/// The divisor of the proportional split: the total size, at least one.
pub open spec fn spec_divisor(segs: Seq<DiskLayoutSegment>) -> nat {
    let w = spec_weight(segs, segs.len() as int);
    if w == 0 {
        1
    } else {
        w
    }
}

/// One guaranteed cell per segment when every segment fits in the bar.
pub open spec fn spec_baseline(segs: Seq<DiskLayoutSegment>, width: nat) -> nat {
    if segs.len() <= width {
        1
    } else {
        0
    }
}

/// Cells left to share out in proportion after the guaranteed ones.
pub open spec fn spec_remaining(segs: Seq<DiskLayoutSegment>, width: nat) -> nat {
    (width - spec_baseline(segs, width) * segs.len()) as nat
}

pub open spec fn spec_scaled(segs: Seq<DiskLayoutSegment>, width: nat, i: int) -> nat {
    (segs[i].sector_count as nat) * spec_remaining(segs, width)
}

/// Cells segment `i` gets before leftovers are handed out.
pub open spec fn spec_base(segs: Seq<DiskLayoutSegment>, width: nat, i: int) -> nat {
    spec_baseline(segs, width) + spec_scaled(segs, width, i) / spec_divisor(segs)
}

/// The remainders that decide who gets the leftover cells.
pub open spec fn spec_rems(segs: Seq<DiskLayoutSegment>, width: nat) -> Seq<nat> {
    Seq::new(segs.len(), |i: int| spec_scaled(segs, width, i) % spec_divisor(segs))
}

pub open spec fn spec_assigned(segs: Seq<DiskLayoutSegment>, width: nat, m: int) -> nat
    decreases m,
{
    if m <= 0 {
        0
    } else {
        spec_assigned(segs, width, m - 1) + spec_base(segs, width, m - 1)
    }
}

/// Leftover cells after every segment got its base share.
pub open spec fn spec_extra(segs: Seq<DiskLayoutSegment>, width: nat) -> nat {
    let a = spec_assigned(segs, width, segs.len() as int);
    if a >= width {
        0
    } else {
        (width - a) as nat
    }
}

/// `j` comes before `i` in leftover order: larger remainder first, then lower index.
pub open spec fn spec_prec(rems: Seq<nat>, j: int, i: int) -> bool {
    rems[j] > rems[i] || (rems[j] == rems[i] && j < i)
}

/// How many of the first `m` segments come before `i` in leftover order.
pub open spec fn spec_count_prec(rems: Seq<nat>, i: int, m: int) -> nat
    decreases m,
{
    if m <= 0 {
        0
    } else {
        spec_count_prec(rems, i, m - 1) + if spec_prec(rems, m - 1, i) {
            1nat
        } else {
            0nat
        }
    }
}

/// Position of segment `i` in leftover order.
pub open spec fn spec_rank(rems: Seq<nat>, i: int) -> nat {
    spec_count_prec(rems, i, rems.len() as int)
}

/// Cells segment `i` gets: its base share, plus one leftover cell if it ranks
/// among the first `extra` in leftover order.
pub open spec fn spec_alloc(segs: Seq<DiskLayoutSegment>, width: nat, i: int) -> nat {
    spec_base(segs, width, i) + if spec_rank(spec_rems(segs, width), i) < spec_extra(segs, width) {
        1nat
    } else {
        0nat
    }
}

/// The cells of the first `m` segments, each repeated by its allocation.
pub open spec fn spec_expand(segs: Seq<DiskLayoutSegment>, width: nat, m: int) -> Seq<DiskRegionKind>
    decreases m,
{
    if m <= 0 {
        Seq::empty()
    } else {
        spec_expand(segs, width, m - 1) + Seq::new(spec_alloc(segs, width, m - 1), |k: int| segs[m - 1].kind)
    }
}

/// The bar: the segments' cells, cut or padded with free cells to the bar width.
pub open spec fn spec_bar(segs: Seq<DiskLayoutSegment>, width: usize) -> Seq<DiskRegionKind> {
    let w = spec_bar_width(width);
    if segs.len() == 0 {
        Seq::new(w, |k: int| DiskRegionKind::Free)
    } else {
        let e = spec_expand(segs, w, segs.len() as int);
        if e.len() >= w {
            e.take(w as int)
        } else {
            e + Seq::new((w - e.len()) as nat, |k: int| DiskRegionKind::Free)
        }
    }
}

// ----- counting lemmas -----

proof fn lemma_weight_bounds(segs: Seq<DiskLayoutSegment>, m: int)
    requires
        0 <= m <= segs.len(),
    ensures
        spec_weight(segs, m) <= m * (u64::MAX as int),
        forall|i: int| 0 <= i < m ==> (#[trigger] segs[i]).sector_count <= spec_weight(segs, m),
    decreases m,
{
    if m > 0 {
        lemma_weight_bounds(segs, m - 1);
    }
}

proof fn lemma_count_prec_mono(rems: Seq<nat>, j: int, i: int, m: int)
    requires
        0 <= m <= rems.len(),
        forall|k: int| 0 <= k < m && spec_prec(rems, k, j) ==> spec_prec(rems, k, i),
    ensures
        spec_count_prec(rems, j, m) <= spec_count_prec(rems, i, m),
        (0 <= j < m && spec_prec(rems, j, i)) ==> spec_count_prec(rems, j, m) + 1 <= spec_count_prec(rems, i, m),
    decreases m,
{
    if m > 0 {
        lemma_count_prec_mono(rems, j, i, m - 1);
    }
}

proof fn lemma_rank_distinct(rems: Seq<nat>, i: int, j: int)
    requires
        0 <= i < rems.len(),
        0 <= j < rems.len(),
        i != j,
    ensures
        spec_rank(rems, i) != spec_rank(rems, j),
{
    let n = rems.len() as int;
    if spec_prec(rems, j, i) {
        assert forall|k: int| 0 <= k < n && spec_prec(rems, k, j) implies spec_prec(rems, k, i) by {}
        lemma_count_prec_mono(rems, j, i, n);
    } else {
        assert(spec_prec(rems, i, j));
        assert forall|k: int| 0 <= k < n && spec_prec(rems, k, i) implies spec_prec(rems, k, j) by {}
        lemma_count_prec_mono(rems, i, j, n);
    }
}

pub open spec fn spec_count_rank_eq(rems: Seq<nat>, t: nat, m: int) -> nat
    decreases m,
{
    if m <= 0 {
        0
    } else {
        spec_count_rank_eq(rems, t, m - 1) + if spec_rank(rems, m - 1) == t {
            1nat
        } else {
            0nat
        }
    }
}

/// How many of the first `m` segments rank below `e`.
pub open spec fn spec_count_rank_below(rems: Seq<nat>, e: nat, m: int) -> nat
    decreases m,
{
    if m <= 0 {
        0
    } else {
        spec_count_rank_below(rems, e, m - 1) + if spec_rank(rems, m - 1) < e {
            1nat
        } else {
            0nat
        }
    }
}

proof fn lemma_count_rank_eq_witness(rems: Seq<nat>, t: nat, m: int)
    requires
        0 <= m <= rems.len(),
        spec_count_rank_eq(rems, t, m) > 0,
    ensures
        exists|i: int| 0 <= i < m && spec_rank(rems, i) == t,
    decreases m,
{
    if spec_rank(rems, m - 1) != t {
        lemma_count_rank_eq_witness(rems, t, m - 1);
    }
}

proof fn lemma_count_rank_eq_le_one(rems: Seq<nat>, t: nat, m: int)
    requires
        0 <= m <= rems.len(),
    ensures
        spec_count_rank_eq(rems, t, m) <= 1,
    decreases m,
{
    if m > 0 {
        lemma_count_rank_eq_le_one(rems, t, m - 1);
        if spec_rank(rems, m - 1) == t && spec_count_rank_eq(rems, t, m - 1) > 0 {
            lemma_count_rank_eq_witness(rems, t, m - 1);
            let i = choose|i: int| 0 <= i < m - 1 && spec_rank(rems, i) == t;
            lemma_rank_distinct(rems, i, m - 1);
        }
    }
}

proof fn lemma_count_rank_below_step(rems: Seq<nat>, e: nat, m: int)
    requires
        0 <= m <= rems.len(),
    ensures
        spec_count_rank_below(rems, e + 1, m) == spec_count_rank_below(rems, e, m)
            + spec_count_rank_eq(rems, e, m),
    decreases m,
{
    if m > 0 {
        lemma_count_rank_below_step(rems, e, m - 1);
    }
}

/// At most `e` segments rank below `e`: leftover cells go to distinct segments.
proof fn lemma_count_rank_below_bound(rems: Seq<nat>, e: nat)
    ensures
        spec_count_rank_below(rems, e, rems.len() as int) <= e,
    decreases e,
{
    let n = rems.len() as int;
    if e == 0 {
        lemma_count_rank_below_zero(rems, n);
    } else {
        lemma_count_rank_below_bound(rems, (e - 1) as nat);
        lemma_count_rank_below_step(rems, (e - 1) as nat, n);
        lemma_count_rank_eq_le_one(rems, (e - 1) as nat, n);
    }
}

proof fn lemma_count_rank_below_zero(rems: Seq<nat>, m: int)
    ensures
        spec_count_rank_below(rems, 0, m) == 0,
    decreases m,
{
    if m > 0 {
        lemma_count_rank_below_zero(rems, m - 1);
    }
}

/// The proportional shares never exceed the cells there are to share.
proof fn lemma_assigned_bound(segs: Seq<DiskLayoutSegment>, width: nat, m: int)
    requires
        0 <= m <= segs.len(),
    ensures
        spec_assigned(segs, width, m) * spec_divisor(segs) <= spec_baseline(segs, width) * m
            * spec_divisor(segs) + spec_weight(segs, m) * spec_remaining(segs, width),
    decreases m,
{
    if m > 0 {
        lemma_assigned_bound(segs, width, m - 1);
        let d = spec_divisor(segs);
        let s = spec_scaled(segs, width, m - 1);
        let b = spec_baseline(segs, width);
        assert((s / d) * d <= s) by (nonlinear_arith)
            requires
                d > 0,
        ;
        let am = spec_assigned(segs, width, m);
        let am1 = spec_assigned(segs, width, m - 1);
        let q = s / d;
        assert(am == am1 + b + q);
        assert(am * d == am1 * d + b * d + q * d) by (nonlinear_arith)
            requires
                am == am1 + b + q,
        ;
        assert(b * m * d == b * (m - 1) * d + b * d) by (nonlinear_arith);
        let r = spec_remaining(segs, width);
        let wm = spec_weight(segs, m);
        let wm1 = spec_weight(segs, m - 1);
        assert(wm * r == wm1 * r + s) by (nonlinear_arith)
            requires
                wm == wm1 + segs[m - 1].sector_count,
                s == segs[m - 1].sector_count * r,
        ;
        assert(am * d <= b * m * d + wm * r) by (nonlinear_arith)
            requires
                am * d == am1 * d + b * d + q * d,
                q * d <= s,
                am1 * d <= b * (m - 1) * d + wm1 * r,
                wm * r == wm1 * r + s,
        ;
    } else {
        let d = spec_divisor(segs);
        let b = spec_baseline(segs, width);
        let r = spec_remaining(segs, width);
        assert(spec_assigned(segs, width, m) == 0);
        assert(spec_weight(segs, m) == 0);
        assert(0 * d <= b * 0 * d + 0 * r) by (nonlinear_arith);
    }
}

proof fn lemma_assigned_le_width(segs: Seq<DiskLayoutSegment>, width: nat)
    requires
        segs.len() > 0,
        width >= 8,
    ensures
        spec_assigned(segs, width, segs.len() as int) <= width,
{
    let n = segs.len() as int;
    let d = spec_divisor(segs);
    let a = spec_assigned(segs, width, n);
    let b = spec_baseline(segs, width);
    let r = spec_remaining(segs, width);
    lemma_assigned_bound(segs, width, n);
    assert(spec_weight(segs, n) <= d);
    assert(spec_weight(segs, n) * r <= d * r) by (nonlinear_arith)
        requires
            spec_weight(segs, n) <= d,
    ;
    assert(b * n + r == width);
    assert(a <= width) by (nonlinear_arith)
        requires
            a * d <= b * n * d + spec_weight(segs, n) * r,
            spec_weight(segs, n) * r <= d * r,
            b * n + r == width,
            d > 0,
    ;
}

pub open spec fn spec_alloc_sum(segs: Seq<DiskLayoutSegment>, width: nat, m: int) -> nat
    decreases m,
{
    if m <= 0 {
        0
    } else {
        spec_alloc_sum(segs, width, m - 1) + spec_alloc(segs, width, m - 1)
    }
}

proof fn lemma_alloc_sum_split(segs: Seq<DiskLayoutSegment>, width: nat, m: int)
    requires
        0 <= m <= segs.len(),
    ensures
        spec_alloc_sum(segs, width, m) == spec_assigned(segs, width, m) + spec_count_rank_below(
            spec_rems(segs, width),
            spec_extra(segs, width),
            m,
        ),
        spec_expand(segs, width, m).len() == spec_alloc_sum(segs, width, m),
    decreases m,
{
    if m > 0 {
        lemma_alloc_sum_split(segs, width, m - 1);
    }
}

/// With every segment given at least one cell, nothing is cut off the bar.
proof fn lemma_expand_fits(segs: Seq<DiskLayoutSegment>, width: nat)
    requires
        segs.len() > 0,
        width >= 8,
    ensures
        spec_expand(segs, width, segs.len() as int).len() <= width,
{
    let n = segs.len() as int;
    lemma_alloc_sum_split(segs, width, n);
    lemma_assigned_le_width(segs, width);
    lemma_count_rank_below_bound(spec_rems(segs, width), spec_extra(segs, width));
    assert(spec_rems(segs, width).len() == n);
}

/// Each segment's cells form a run starting where the previous segment's end.
proof fn lemma_expand_run(segs: Seq<DiskLayoutSegment>, width: nat, m: int, i: int)
    requires
        0 <= i < m <= segs.len(),
    ensures
        spec_alloc_sum(segs, width, i) + spec_alloc(segs, width, i) <= spec_expand(segs, width, m).len(),
        forall|k: int|
            spec_alloc_sum(segs, width, i) <= k < spec_alloc_sum(segs, width, i) + spec_alloc(segs, width, i)
                ==> #[trigger] spec_expand(segs, width, m)[k] == segs[i].kind,
    decreases m,
{
    lemma_alloc_sum_split(segs, width, m);
    lemma_alloc_sum_split(segs, width, m - 1);
    if i < m - 1 {
        lemma_expand_run(segs, width, m - 1, i);
    }
}

/// When every segment fits in the bar, each gets at least one cell, so even a
/// tiny region stays visible.
pub proof fn lemma_every_segment_visible(model: DiskLayoutModel, width: usize, i: int)
    requires
        0 <= i < model.segments@.len(),
        model.segments@.len() <= spec_bar_width(width),
    ensures
        exists|k: int| 0 <= k < spec_bar(model.segments@, width).len() && spec_bar(model.segments@, width)[k] == model.segments@[i].kind,
{
    let segs = model.segments@;
    let w = spec_bar_width(width);
    let n = segs.len() as int;
    lemma_expand_fits(segs, w);
    lemma_expand_run(segs, w, n, i);
    let k = spec_alloc_sum(segs, w, i) as int;
    assert(spec_alloc(segs, w, i) >= 1);
    let e = spec_expand(segs, w, n);
    assert(spec_bar(segs, width)[k] == e[k]);
}

// ----- the bar -----

impl DiskLayoutModel {
    /// The bar of `width` cells (clamped to 8..=96).
    pub fn bar(&self, width: usize) -> (r: Vec<DiskRegionKind>)
        ensures
            r@ == spec_bar(self.segments@, width),
            r@.len() == spec_bar_width(width),
    {
        let w: usize = if width < 8 {
            8
        } else if width > 96 {
            96
        } else {
            width
        };
        let segs = &self.segments;
        let n = segs.len();
        if n == 0 {
            let mut cells: Vec<DiskRegionKind> = Vec::new();
            while cells.len() < w
                invariant
                    cells@.len() <= w,
                    forall|k: int| 0 <= k < cells@.len() ==> cells@[k] == DiskRegionKind::Free,
                decreases w - cells@.len(),
            {
                cells.push(DiskRegionKind::Free);
            }
            assert(cells@ =~= spec_bar(segs@, width));
            return cells;
        }
        let ghost sw = spec_bar_width(width);
        assert(w == sw);
        let baseline: usize = if n <= w {
            1
        } else {
            0
        };
        let remaining: usize = if n <= w {
            w - n
        } else {
            w
        };
        // total weight
        let mut total: u128 = 0;
        let mut i: usize = 0;
        while i < n
            invariant
                i <= n,
                n == segs@.len(),
                total == spec_weight(segs@, i as int),
            decreases n - i,
        {
            proof {
                lemma_weight_bounds(segs@, i + 1);
                assert((i + 1) * (u64::MAX as int) <= u128::MAX) by (nonlinear_arith)
                    requires
                        i < n,
                        n <= usize::MAX,
                ;
            }
            total = total + segs[i].sector_count as u128;
            i = i + 1;
        }
        let divisor: u128 = if total == 0 {
            1
        } else {
            total
        };
        assert(divisor == spec_divisor(segs@));
        assert(baseline == spec_baseline(segs@, sw));
        assert(baseline * n == if n <= w {
            n as int
        } else {
            0
        }) by (nonlinear_arith)
            requires
                baseline == if n <= w {
                    1usize
                } else {
                    0usize
                },
        ;
        assert(remaining == spec_remaining(segs@, sw));
        // base shares and remainders
        let mut bases: Vec<usize> = Vec::new();
        let mut rems: Vec<u128> = Vec::new();
        let mut assigned: usize = 0;
        let mut i: usize = 0;
        proof {
            lemma_weight_bounds(segs@, n as int);
            lemma_assigned_le_width(segs@, sw);
        }
        while i < n
            invariant
                i <= n,
                n == segs@.len(),
                n > 0,
                w == sw,
                sw >= 8,
                divisor == spec_divisor(segs@),
                baseline == spec_baseline(segs@, sw),
                remaining == spec_remaining(segs@, sw),
                remaining <= 96,
                forall|k: int| 0 <= k < n ==> (#[trigger] segs@[k]).sector_count <= spec_weight(segs@, n as int),
                spec_weight(segs@, n as int) <= divisor,
                spec_assigned(segs@, sw, n as int) <= sw,
                bases@.len() == i,
                rems@.len() == i,
                forall|k: int| 0 <= k < i ==> #[trigger] bases@[k] == spec_base(segs@, sw, k),
                forall|k: int| 0 <= k < i ==> #[trigger] bases@[k] <= 97,
                forall|k: int| 0 <= k < i ==> #[trigger] rems@[k] == spec_rems(segs@, sw)[k],
                assigned == spec_assigned(segs@, sw, i as int),
            decreases n - i,
        {
            let c = segs[i].sector_count as u128;
            proof {
                assert(c * remaining <= c * 96) by (nonlinear_arith)
                    requires
                        remaining <= 96,
                ;
                assert(c * 96 <= u128::MAX) by (nonlinear_arith)
                    requires
                        c <= u64::MAX,
                ;
                assert((c as int) * (remaining as int) / (divisor as int) <= remaining as int) by (nonlinear_arith)
                    requires
                        c <= divisor,
                        divisor > 0,
                ;
                lemma_assigned_mono(segs@, sw, i as int + 1, n as int);
            }
            let scaled: u128 = c * remaining as u128;
            let base: usize = baseline + (scaled / divisor) as usize;
            bases.push(base);
            rems.push(scaled % divisor);
            assigned = assigned + base;
            i = i + 1;
        }
        let extra: usize = if assigned >= w {
            0
        } else {
            w - assigned
        };
        assert(extra == spec_extra(segs@, sw));
        // leftover cells: to the `extra` best-ranked remainders
        let ghost rs = spec_rems(segs@, sw);
        assert(rems@.len() == rs.len());
        let mut cells: Vec<DiskRegionKind> = Vec::new();
        let mut i: usize = 0;
        proof {
            lemma_expand_fits(segs@, sw);
        }
        while i < n
            invariant
                i <= n,
                n == segs@.len(),
                rs == spec_rems(segs@, sw),
                rs.len() == n,
                w == sw,
                extra == spec_extra(segs@, sw),
                bases@.len() == n,
                rems@.len() == n,
                forall|k: int| 0 <= k < n ==> #[trigger] bases@[k] == spec_base(segs@, sw, k),
                forall|k: int| 0 <= k < n ==> #[trigger] bases@[k] <= 97,
                forall|k: int| 0 <= k < n ==> #[trigger] rems@[k] == rs[k],
                spec_expand(segs@, sw, n as int).len() <= sw,
                cells@ == spec_expand(segs@, sw, i as int),
            decreases n - i,
        {
            // rank of segment i in leftover order
            let mut rank: usize = 0;
            let mut j: usize = 0;
            while j < n
                invariant
                    j <= n,
                    i < n,
                    n == rs.len(),
                    rems@.len() == n,
                    forall|k: int| 0 <= k < n ==> #[trigger] rems@[k] == rs[k],
                    rank == spec_count_prec(rs, i as int, j as int),
                    rank <= j,
                decreases n - j,
            {
                if rems[j] > rems[i] || (rems[j] == rems[i] && j < i) {
                    rank = rank + 1;
                }
                j = j + 1;
            }
            let count: usize = bases[i] + if rank < extra {
                1
            } else {
                0
            };
            proof {
                assert(count == spec_alloc(segs@, sw, i as int));
                lemma_alloc_sum_split(segs@, sw, n as int);
                lemma_alloc_sum_mono(segs@, sw, i as int + 1, n as int);
                lemma_alloc_sum_split(segs@, sw, i as int + 1);
            }
            let kind = segs[i].kind;
            let ghost before = cells@;
            let mut c: usize = 0;
            while c < count
                invariant
                    c <= count,
                    cells@ == before + Seq::new(c as nat, |k: int| kind),
                    before.len() + count <= sw,
                decreases count - c,
            {
                cells.push(kind);
                c = c + 1;
                proof {
                    assert(cells@ =~= before + Seq::new(c as nat, |k: int| kind));
                }
            }
            proof {
                assert(cells@ =~= spec_expand(segs@, sw, i as int + 1));
            }
            i = i + 1;
        }
        let ghost e = cells@;
        while cells.len() < w
            invariant
                e.len() <= cells@.len() <= w,
                cells@.subrange(0, e.len() as int) == e,
                forall|k: int| e.len() <= k < cells@.len() ==> cells@[k] == DiskRegionKind::Free,
            decreases w - cells@.len(),
        {
            cells.push(DiskRegionKind::Free);
            proof {
                assert(cells@.subrange(0, e.len() as int) =~= e);
            }
        }
        proof {
            if e.len() >= sw {
                assert(cells@ =~= e.take(sw as int));
            } else {
                assert(cells@ =~= e + Seq::new((sw - e.len()) as nat, |k: int| DiskRegionKind::Free));
            }
        }
        cells
    }
}

proof fn lemma_assigned_mono(segs: Seq<DiskLayoutSegment>, width: nat, a: int, b: int)
    requires
        0 <= a <= b,
    ensures
        spec_assigned(segs, width, a) <= spec_assigned(segs, width, b),
    decreases b - a,
{
    if a < b {
        lemma_assigned_mono(segs, width, a, b - 1);
    }
}

proof fn lemma_alloc_sum_mono(segs: Seq<DiskLayoutSegment>, width: nat, a: int, b: int)
    requires
        0 <= a <= b,
    ensures
        spec_alloc_sum(segs, width, a) <= spec_alloc_sum(segs, width, b),
    decreases b - a,
{
    if a < b {
        lemma_alloc_sum_mono(segs, width, a, b - 1);
    }
}

// ----- runs of the bar -----

/// The cells a list of runs stands for, each run `(kind, n)` being `n` cells of `kind`.
pub open spec fn spec_runs_cells(runs: Seq<(DiskRegionKind, usize)>) -> Seq<DiskRegionKind>
    decreases runs.len(),
{
    if runs.len() == 0 {
        Seq::empty()
    } else {
        spec_runs_cells(runs.drop_last()) + Seq::new(runs.last().1 as nat, |_i: int| runs.last().0)
    }
}

/// Neighbouring runs `k` and `k + 1` have different kinds.
pub open spec fn spec_runs_split(runs: Seq<(DiskRegionKind, usize)>, k: int) -> bool {
    runs[k].0 != runs[k + 1].0
}

impl DiskLayoutModel {
    /// The bar of `width` cells as maximal runs of one kind, left to right.
    pub fn bar_runs(&self, width: usize) -> (r: Vec<(DiskRegionKind, usize)>)
        ensures
            spec_runs_cells(r@) == spec_bar(self.segments@, width),
            forall|k: int| 0 <= k < r@.len() ==> #[trigger] r@[k].1 >= 1,
            forall|k: int| 0 <= k < r@.len() - 1 ==> #[trigger] spec_runs_split(r@, k),
    {
        let bar = self.bar(width);
        let mut runs: Vec<(DiskRegionKind, usize)> = Vec::new();
        let mut start: usize = 0;
        while start < bar.len()
            invariant
                start <= bar@.len(),
                spec_runs_cells(runs@) == bar@.take(start as int),
                forall|k: int| 0 <= k < runs@.len() ==> #[trigger] runs@[k].1 >= 1,
                forall|k: int| 0 <= k < runs@.len() - 1 ==> #[trigger] spec_runs_split(runs@, k),
                runs@.len() > 0 ==> start > 0 && runs@.last().0 == bar@[start - 1],
                runs@.len() > 0 && start < bar@.len() ==> bar@[start as int] != runs@.last().0,
            decreases bar@.len() - start,
        {
            let kind = bar[start];
            let mut end = start + 1;
            while end < bar.len() && bar[end] == kind
                invariant
                    start < end <= bar@.len(),
                    kind == bar@[start as int],
                    forall|j: int| start <= j < end ==> bar@[j] == kind,
                decreases bar@.len() - end,
            {
                end = end + 1;
            }
            let ghost before = runs@;
            runs.push((kind, end - start));
            proof {
                assert(runs@.drop_last() == before);
                assert(bar@.take(end as int) =~= bar@.take(start as int) + Seq::new(
                    (end - start) as nat,
                    |_i: int| kind,
                ));
                assert forall|k: int| 0 <= k < runs@.len() - 1 implies #[trigger] spec_runs_split(runs@, k) by {
                    if k < before.len() - 1 {
                        assert(spec_runs_split(before, k));
                    } else {
                        assert(runs@[k] == before.last());
                    }
                }
            }
            start = end;
        }
        assert(bar@.take(bar@.len() as int) =~= bar@);
        runs
    }
}

} // verus!
