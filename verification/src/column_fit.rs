//! Fitting table columns into a terminal width: which columns are shown at a horizontal
//! scroll position, and how wide each one is drawn.
//!
//! Pinned columns always come first in the budget (dropping the least important of them,
//! never the first column, when even their minimum widths do not fit); scrollable columns
//! are then added from the scroll position while their minimum widths still fit. Widths
//! start at each column's minimum, shrink (least important first) when the minimums
//! overflow, grow toward each column's preferred width (most important first), and any
//! space left is dealt out round by round, `weight` cells per column per round, up to
//! each column's maximum.

use vstd::prelude::*;
use crate::table_layout::{
    spec_scrollable_count, AdaptiveColumnSpec, AdaptiveTableLayout, TableViewport, VisibleColumn,
};

verus! {

/// Minimum width of a column, never below one cell.
pub open spec fn spec_minw(c: AdaptiveColumnSpec) -> int {
    if c.min_width >= 1 {
        c.min_width as int
    } else {
        1
    }
}

/// Indices of the pinned (or, with `pinned` false, scrollable) columns, in order.
pub open spec fn spec_column_indices(specs: Seq<AdaptiveColumnSpec>, pinned: bool) -> Seq<usize>
    decreases specs.len(),
{
    if specs.len() == 0 {
        Seq::empty()
    } else {
        let prev = spec_column_indices(specs.drop_last(), pinned);
        if specs.last().pinned == pinned {
            prev.push((specs.len() - 1) as usize)
        } else {
            prev
        }
    }
}

/// Sum of the minimum widths of the selected columns.
pub open spec fn spec_sum_minw(specs: Seq<AdaptiveColumnSpec>, sel: Seq<usize>) -> int
    decreases sel.len(),
{
    if sel.len() == 0 {
        0
    } else {
        spec_sum_minw(specs, sel.drop_last()) + spec_minw(specs[sel.last() as int])
    }
}

/// Cells the selected columns need at their minimum widths, one cell between columns.
pub open spec fn spec_min_sum(specs: Seq<AdaptiveColumnSpec>, sel: Seq<usize>) -> int {
    spec_sum_minw(specs, sel) + if sel.len() >= 1 {
        sel.len() - 1
    } else {
        0
    }
}

/// Among the first `k` selected columns other than column 0, the first position whose
/// priority is lowest.
pub open spec fn spec_removal(specs: Seq<AdaptiveColumnSpec>, sel: Seq<usize>, k: int) -> Option<int>
    decreases k,
{
    if k <= 0 {
        None
    } else {
        let best = spec_removal(specs, sel, k - 1);
        if sel[k - 1] == 0 {
            best
        } else {
            match best {
                None => Some(k - 1),
                Some(p) => if specs[sel[k - 1] as int].priority < specs[sel[p] as int].priority {
                    Some(k - 1)
                } else {
                    Some(p)
                },
            }
        }
    }
}

/// The pinned selection after dropping its least important columns (never column 0,
/// never the last one left) until the minimum widths fit.
pub open spec fn spec_trimmed(specs: Seq<AdaptiveColumnSpec>, sel: Seq<usize>, width: int) -> Seq<usize>
    decreases sel.len(),
{
    if spec_min_sum(specs, sel) > width && sel.len() > 1 {
        let p0 = match spec_removal(specs, sel, sel.len() as int) {
            Some(p) => p,
            None => sel.len() - 1,
        };
        let p = if 0 <= p0 < sel.len() {
            p0
        } else {
            sel.len() - 1
        };
        spec_trimmed(specs, sel.remove(p), width)
    } else {
        sel
    }
}

/// The selection after adding scrollable columns `scroll[k..]` while their minimum
/// widths still fit (the first one is taken even when it does not fit an empty
/// selection).
pub open spec fn spec_added(
    specs: Seq<AdaptiveColumnSpec>,
    sel: Seq<usize>,
    scroll: Seq<usize>,
    k: int,
    width: int,
) -> Seq<usize>
    decreases scroll.len() - k,
{
    if k < 0 || k >= scroll.len() {
        sel
    } else {
        let cand = sel.push(scroll[k]);
        if spec_min_sum(specs, cand) <= width {
            spec_added(specs, cand, scroll, k + 1, width)
        } else if sel.len() == 0 {
            cand
        } else {
            sel
        }
    }
}

/// The column indices below `n` that occur in `sel`, ascending.
pub open spec fn spec_in_order(sel: Seq<usize>, n: int) -> Seq<usize>
    decreases n,
{
    if n <= 0 {
        Seq::empty()
    } else {
        let prev = spec_in_order(sel, n - 1);
        if sel.contains((n - 1) as usize) {
            prev.push((n - 1) as usize)
        } else {
            prev
        }
    }
}

/// Position `q` is served before position `k`: by priority (highest first when `desc`,
/// lowest first otherwise), ties in column order.
pub open spec fn spec_ahead(prios: Seq<u8>, desc: bool, q: int, k: int) -> bool {
    if desc {
        prios[q] > prios[k] || (prios[q] == prios[k] && q < k)
    } else {
        prios[q] < prios[k] || (prios[q] == prios[k] && q < k)
    }
}

/// What the positions among the first `m` that are served before `k` could take.
pub open spec fn spec_ahead_sum(caps: Seq<u64>, prios: Seq<u8>, desc: bool, k: int, m: int) -> int
    decreases m,
{
    if m <= 0 {
        0
    } else {
        spec_ahead_sum(caps, prios, desc, k, m - 1) + if spec_ahead(prios, desc, m - 1, k) {
            caps[m - 1] as int
        } else {
            0
        }
    }
}

/// The share of position `k` when `budget` cells are dealt out in serving order, each
/// position taking up to its cap: what is left after the positions before it.
pub open spec fn spec_share(caps: Seq<u64>, budget: int, prios: Seq<u8>, desc: bool, k: int) -> int {
    let left = budget - spec_ahead_sum(caps, prios, desc, k, caps.len() as int);
    if left <= 0 {
        0
    } else if caps[k] as int <= left {
        caps[k] as int
    } else {
        left
    }
}

pub open spec fn spec_shares(caps: Seq<u64>, budget: int, prios: Seq<u8>, desc: bool) -> Seq<u64> {
    Seq::new(caps.len(), |k: int| spec_share(caps, budget, prios, desc, k) as u64)
}

/// Sum of the first `m` values.
pub open spec fn spec_total(s: Seq<u64>, m: int) -> int
    decreases m,
{
    if m <= 0 {
        0
    } else {
        spec_total(s, m - 1) + s[m - 1] as int
    }
}

pub open spec fn spec_sum(s: Seq<u64>) -> int {
    spec_total(s, s.len() as int)
}

/// The width a shown column is grown toward: its preferred width or its widest content,
/// whichever is larger, but at most its maximum (or minimum, if that is larger).
pub open spec fn spec_preferred(c: AdaptiveColumnSpec, content: int) -> int {
    let want = if content > c.preferred_width {
        content
    } else {
        c.preferred_width as int
    };
    let cap = if c.max_width >= c.min_width {
        c.max_width as int
    } else {
        c.min_width as int
    };
    if want <= cap {
        want
    } else {
        cap
    }
}

/// Content width of column `i`, zero when unknown.
pub open spec fn spec_content_at(cw: Seq<usize>, i: int) -> int {
    if 0 <= i < cw.len() {
        cw[i] as int
    } else {
        0
    }
}

/// One round of sharing out `left` cells: each column in priority order may take up to
/// `weight` (at least one) more cells, but not past its maximum width.
pub open spec fn spec_round_caps(specs: Seq<AdaptiveColumnSpec>, cols: Seq<usize>, w: Seq<u64>) -> Seq<u64> {
    Seq::new(
        cols.len(),
        |k: int|
            {
                let c = specs[cols[k] as int];
                let wt: int = if c.weight >= 1 {
                    c.weight as int
                } else {
                    1
                };
                let room: int = c.max_width - w[k];
                (if room <= 0 {
                    0
                } else if wt <= room {
                    wt
                } else {
                    room
                }) as u64
            },
    )
}

pub open spec fn spec_plus(a: Seq<u64>, b: Seq<u64>) -> Seq<u64> {
    Seq::new(a.len(), |k: int| (a[k] + b[k]) as u64)
}

/// Rounds of sharing out the cells left, until none are left or no column can grow.
pub open spec fn spec_rounds(
    specs: Seq<AdaptiveColumnSpec>,
    cols: Seq<usize>,
    prios: Seq<u8>,
    w: Seq<u64>,
    left: int,
) -> Seq<u64>
    decreases left,
{
    if left <= 0 {
        w
    } else {
        let adds = spec_shares(spec_round_caps(specs, cols, w), left, prios, true);
        let s = spec_sum(adds);
        if s <= 0 {
            w
        } else {
            proof {
                lemma_shares_within(spec_round_caps(specs, cols, w), left, prios, true);
            }
            spec_rounds(specs, cols, prios, spec_plus(w, adds), left - s)
        }
    }
}

/// The shown columns: the pinned columns that fit, then scrollable columns from the
/// scroll position, in column order.
pub open spec fn spec_shown(specs: Seq<AdaptiveColumnSpec>, width: int, scroll: usize) -> Seq<usize> {
    let scrollable = spec_column_indices(specs, false);
    let offset: int = if scroll as int <= scrollable.len() - 1 {
        scroll as int
    } else if scrollable.len() >= 1 {
        scrollable.len() - 1
    } else {
        0
    };
    let trimmed = spec_trimmed(specs, spec_column_indices(specs, true), width);
    let chosen = spec_added(specs, trimmed, scrollable, offset, width);
    let chosen = if chosen.len() == 0 {
        seq![0usize]
    } else {
        chosen
    };
    spec_in_order(chosen, specs.len() as int)
}

/// The scroll position shown: `scroll`, at most the last scrollable column.
pub open spec fn spec_first_scrollable(specs: Seq<AdaptiveColumnSpec>, width: u16, scroll: usize) -> usize {
    if specs.len() == 0 || width == 0 {
        0
    } else {
        let n = spec_scrollable_count(specs);
        if scroll as int <= n - 1 {
            scroll
        } else if n >= 1 {
            (n - 1) as usize
        } else {
            0
        }
    }
}

/// Priorities of the shown columns, by position.
pub open spec fn spec_prios(specs: Seq<AdaptiveColumnSpec>, cols: Seq<usize>) -> Seq<u8> {
    Seq::new(cols.len(), |k: int| specs[cols[k] as int].priority)
}

/// Minimum widths of the shown columns, by position.
pub open spec fn spec_min_widths(specs: Seq<AdaptiveColumnSpec>, cols: Seq<usize>) -> Seq<u64> {
    Seq::new(cols.len(), |k: int| spec_minw(specs[cols[k] as int]) as u64)
}

/// Cells each width can give up, keeping one.
pub open spec fn spec_slack(w: Seq<u64>) -> Seq<u64> {
    Seq::new(w.len(), |k: int| (w[k] - 1) as u64)
}

pub open spec fn spec_minus(a: Seq<u64>, b: Seq<u64>) -> Seq<u64> {
    Seq::new(a.len(), |k: int| (a[k] - b[k]) as u64)
}

/// Cells each shown column still needs to reach its preferred width.
pub open spec fn spec_need(
    specs: Seq<AdaptiveColumnSpec>,
    cols: Seq<usize>,
    cw: Seq<usize>,
    w: Seq<u64>,
) -> Seq<u64> {
    Seq::new(
        cols.len(),
        |k: int|
            {
                let p = spec_preferred(specs[cols[k] as int], spec_content_at(cw, cols[k] as int));
                (if p > w[k] {
                    p - w[k]
                } else {
                    0
                }) as u64
            },
    )
}

/// The cells available to the shown columns: the width less one cell between columns.
pub open spec fn spec_usable(width: int, m: int) -> int {
    let spacing: int = if m >= 1 {
        m - 1
    } else {
        0
    };
    if width - spacing >= 0 {
        width - spacing
    } else {
        0
    }
}

/// Widths after the minimums were cut down (least important first) to fit.
pub open spec fn spec_fitted_minimums(specs: Seq<AdaptiveColumnSpec>, cols: Seq<usize>, width: int) -> Seq<u64> {
    let usable = spec_usable(width, cols.len() as int);
    let w0 = spec_min_widths(specs, cols);
    if spec_sum(w0) > usable {
        spec_minus(w0, spec_shares(spec_slack(w0), spec_sum(w0) - usable, spec_prios(specs, cols), false))
    } else {
        w0
    }
}

/// Final widths of the shown columns `cols`.
pub open spec fn spec_widths(
    specs: Seq<AdaptiveColumnSpec>,
    cols: Seq<usize>,
    width: int,
    cw: Seq<usize>,
) -> Seq<u64> {
    let usable = spec_usable(width, cols.len() as int);
    let prios = spec_prios(specs, cols);
    let w1 = spec_fitted_minimums(specs, cols, width);
    let r0 = if usable - spec_sum(w1) >= 0 {
        usable - spec_sum(w1)
    } else {
        0
    };
    let grow = spec_shares(spec_need(specs, cols, cw, w1), r0, prios, true);
    spec_rounds(specs, cols, prios, spec_plus(w1, grow), r0 - spec_sum(grow))
}

/// The laid-out columns for a table `width` cells wide scrolled to `scroll`.
pub open spec fn spec_layout_columns(
    specs: Seq<AdaptiveColumnSpec>,
    width: u16,
    cw: Seq<usize>,
    scroll: usize,
) -> Seq<VisibleColumn> {
    if specs.len() == 0 || width == 0 {
        Seq::empty()
    } else {
        let cols = spec_shown(specs, width as int, scroll);
        let w = spec_widths(specs, cols, width as int, cw);
        Seq::new(
            cols.len(),
            |k: int|
                VisibleColumn {
                    index: cols[k],
                    width: (if w[k] <= 65535 {
                        w[k]
                    } else {
                        65535
                    }) as u16,
                    truncate_policy: specs[cols[k] as int].truncate_policy,
                },
        )
    }
}


fn minw(c: &AdaptiveColumnSpec) -> (r: u64)
    ensures
        r == spec_minw(*c),
        1 <= r <= 65535,
{
    if c.min_width >= 1 {
        c.min_width as u64
    } else {
        1
    }
}

/// Indices of the pinned (or scrollable) columns, in order.
fn column_indices(specs: &[AdaptiveColumnSpec], pinned: bool) -> (r: Vec<usize>)
    ensures
        r@ == spec_column_indices(specs@, pinned),
        forall|k: int| 0 <= k < r@.len() ==> #[trigger] r@[k] < specs@.len(),
{
    let mut r: Vec<usize> = Vec::new();
    let mut i: usize = 0;
    while i < specs.len()
        invariant
            i <= specs@.len(),
            r@ == spec_column_indices(specs@.take(i as int), pinned),
            forall|k: int| 0 <= k < r@.len() ==> #[trigger] r@[k] < i,
        decreases specs@.len() - i,
    {
        proof {
            assert(specs@.take(i + 1).drop_last() =~= specs@.take(i as int));
        }
        if specs[i].pinned == pinned {
            r.push(i);
        }
        i = i + 1;
    }
    assert(specs@.take(specs@.len() as int) =~= specs@);
    r
}

proof fn lemma_sum_minw_bound(specs: Seq<AdaptiveColumnSpec>, sel: Seq<usize>)
    ensures
        sel.len() <= spec_sum_minw(specs, sel) <= 65535 * sel.len(),
    decreases sel.len(),
{
    if sel.len() > 0 {
        lemma_sum_minw_bound(specs, sel.drop_last());
    }
}

/// Cells the selected columns need at their minimum widths.
fn min_sum(specs: &[AdaptiveColumnSpec], sel: &Vec<usize>) -> (r: u128)
    requires
        forall|k: int| 0 <= k < sel@.len() ==> #[trigger] sel@[k] < specs@.len(),
    ensures
        r == spec_min_sum(specs@, sel@),
{
    let mut total: u128 = 0;
    let mut i: usize = 0;
    while i < sel.len()
        invariant
            i <= sel@.len(),
            forall|k: int| 0 <= k < sel@.len() ==> #[trigger] sel@[k] < specs@.len(),
            total == spec_sum_minw(specs@, sel@.take(i as int)),
            total <= 65535 * i,
        decreases sel@.len() - i,
    {
        proof {
            assert(sel@.take(i + 1).drop_last() =~= sel@.take(i as int));
        }
        total = total + minw(&specs[sel[i]]) as u128;
        i = i + 1;
    }
    assert(sel@.take(sel@.len() as int) =~= sel@);
    if sel.len() >= 1 {
        total + (sel.len() - 1) as u128
    } else {
        total
    }
}

/// The position the pinned selection drops next.
fn removal_pos(specs: &[AdaptiveColumnSpec], sel: &Vec<usize>) -> (r: Option<usize>)
    requires
        forall|k: int| 0 <= k < sel@.len() ==> #[trigger] sel@[k] < specs@.len(),
    ensures
        match spec_removal(specs@, sel@, sel@.len() as int) {
            Some(p) => r == Some(p as usize) && 0 <= p < sel@.len(),
            None => r is None,
        },
{
    let mut best: Option<usize> = None;
    let mut i: usize = 0;
    while i < sel.len()
        invariant
            i <= sel@.len(),
            forall|k: int| 0 <= k < sel@.len() ==> #[trigger] sel@[k] < specs@.len(),
            match spec_removal(specs@, sel@, i as int) {
                Some(p) => best == Some(p as usize) && 0 <= p < i,
                None => best is None,
            },
        decreases sel@.len() - i,
    {
        if sel[i] != 0 {
            best = match best {
                None => Some(i),
                Some(p) => {
                    if specs[sel[i]].priority < specs[sel[p]].priority {
                        Some(i)
                    } else {
                        Some(p)
                    }
                },
            };
        }
        i = i + 1;
    }
    best
}

/// Whether `v` occurs in `sel`.
fn contains_index(sel: &Vec<usize>, v: usize) -> (r: bool)
    ensures
        r == sel@.contains(v),
{
    let mut i: usize = 0;
    while i < sel.len()
        invariant
            i <= sel@.len(),
            forall|k: int| 0 <= k < i ==> sel@[k] != v,
        decreases sel@.len() - i,
    {
        if sel[i] == v {
            assert(sel@[i as int] == v);
            return true;
        }
        i = i + 1;
    }
    false
}

/// The indices below `n` that occur in `sel`, ascending.
fn in_order(sel: &Vec<usize>, n: usize) -> (r: Vec<usize>)
    ensures
        r@ == spec_in_order(sel@, n as int),
        forall|k: int| 0 <= k < r@.len() ==> #[trigger] r@[k] < n,
        r@.len() <= n,
{
    let mut r: Vec<usize> = Vec::new();
    let mut i: usize = 0;
    while i < n
        invariant
            i <= n,
            r@ == spec_in_order(sel@, i as int),
            forall|k: int| 0 <= k < r@.len() ==> #[trigger] r@[k] < i,
            r@.len() <= i,
        decreases n - i,
    {
        if contains_index(sel, i) {
            r.push(i);
        }
        i = i + 1;
    }
    r
}

fn ahead(prios: &Vec<u8>, desc: bool, q: usize, k: usize) -> (r: bool)
    requires
        q < prios@.len(),
        k < prios@.len(),
    ensures
        r == spec_ahead(prios@, desc, q as int, k as int),
{
    if desc {
        prios[q] > prios[k] || (prios[q] == prios[k] && q < k)
    } else {
        prios[q] < prios[k] || (prios[q] == prios[k] && q < k)
    }
}

/// Each position's share of `budget`, dealt out in serving order up to each cap.
fn shares(caps: &Vec<u64>, budget: u128, prios: &Vec<u8>, desc: bool) -> (r: Vec<u64>)
    requires
        caps@.len() == prios@.len(),
        forall|k: int| 0 <= k < caps@.len() ==> #[trigger] caps@[k] <= 65535,
    ensures
        r@ == spec_shares(caps@, budget as int, prios@, desc),
        forall|k: int| 0 <= k < r@.len() ==> #[trigger] r@[k] <= caps@[k],
{
    let mut r: Vec<u64> = Vec::new();
    let mut k: usize = 0;
    while k < caps.len()
        invariant
            k <= caps@.len(),
            caps@.len() == prios@.len(),
            forall|j: int| 0 <= j < caps@.len() ==> #[trigger] caps@[j] <= 65535,
            r@.len() == k,
            forall|j: int| 0 <= j < k ==> #[trigger] r@[j] == spec_share(caps@, budget as int, prios@, desc, j) as u64,
            forall|j: int| 0 <= j < k ==> #[trigger] r@[j] <= caps@[j],
        decreases caps@.len() - k,
    {
        let mut before: u128 = 0;
        let mut q: usize = 0;
        while q < caps.len()
            invariant
                q <= caps@.len(),
                k < caps@.len(),
                caps@.len() == prios@.len(),
                forall|j: int| 0 <= j < caps@.len() ==> #[trigger] caps@[j] <= 65535,
                before == spec_ahead_sum(caps@, prios@, desc, k as int, q as int),
                before <= 65535 * q,
            decreases caps@.len() - q,
        {
            if ahead(prios, desc, q, k) {
                before = before + caps[q] as u128;
            }
            q = q + 1;
        }
        let share: u64 = if budget <= before {
            0
        } else if (caps[k] as u128) <= budget - before {
            caps[k]
        } else {
            (budget - before) as u64
        };
        r.push(share);
        k = k + 1;
    }
    assert(r@ =~= spec_shares(caps@, budget as int, prios@, desc));
    r
}

fn sum_u64(s: &Vec<u64>) -> (r: u128)
    requires
        forall|k: int| 0 <= k < s@.len() ==> #[trigger] s@[k] <= 65535,
    ensures
        r == spec_sum(s@),
        r <= 65535 * s@.len(),
{
    let mut total: u128 = 0;
    let mut i: usize = 0;
    while i < s.len()
        invariant
            i <= s@.len(),
            forall|k: int| 0 <= k < s@.len() ==> #[trigger] s@[k] <= 65535,
            total == spec_total(s@, i as int),
            total <= 65535 * i,
        decreases s@.len() - i,
    {
        total = total + s[i] as u128;
        i = i + 1;
    }
    total
}

/// Which columns are shown, in column order.
fn shown_columns(specs: &[AdaptiveColumnSpec], width: u16, scroll: usize) -> (r: Vec<usize>)
    requires
        specs@.len() > 0,
    ensures
        r@ == spec_shown(specs@, width as int, scroll),
        forall|k: int| 0 <= k < r@.len() ==> #[trigger] r@[k] < specs@.len(),
        r@.len() <= specs@.len(),
{
    let ghost w = width as int;
    let scrollable = column_indices(specs, false);
    let offset: usize = if scrollable.len() == 0 {
        0
    } else if scroll <= scrollable.len() - 1 {
        scroll
    } else {
        scrollable.len() - 1
    };
    let mut selected = column_indices(specs, true);
    let ghost pinned = selected@;
    while selected.len() > 1 && min_sum(specs, &selected) > width as u128
        invariant
            w == width as int,
            forall|k: int| 0 <= k < selected@.len() ==> #[trigger] selected@[k] < specs@.len(),
            spec_trimmed(specs@, selected@, w) == spec_trimmed(specs@, pinned, w),
        decreases selected@.len(),
    {
        let p = match removal_pos(specs, &selected) {
            Some(p) => p,
            None => selected.len() - 1,
        };
        let ghost before = selected@;
        selected.remove(p);
        proof {
            assert(spec_min_sum(specs@, before) > w && before.len() > 1);
            assert forall|k: int| 0 <= k < selected@.len() implies #[trigger] selected@[k] < specs@.len() by {
                if k < p {
                    assert(selected@[k] == before[k]);
                } else {
                    assert(selected@[k] == before[k + 1]);
                }
            }
        }
    }
    let ghost trimmed = selected@;
    assert(trimmed == spec_trimmed(specs@, pinned, w));
    let ghost target = spec_added(specs@, trimmed, scrollable@, offset as int, w);
    let mut k = offset;
    let mut done = false;
    while k < scrollable.len() && !done
        invariant
            w == width as int,
            offset <= k <= scrollable@.len(),
            forall|j: int| 0 <= j < scrollable@.len() ==> #[trigger] scrollable@[j] < specs@.len(),
            forall|j: int| 0 <= j < selected@.len() ==> #[trigger] selected@[j] < specs@.len(),
            target == spec_added(specs@, trimmed, scrollable@, offset as int, w),
            !done ==> spec_added(specs@, selected@, scrollable@, k as int, w) == target,
            done ==> selected@ == target,
        decreases scrollable@.len() - k,
    {
        let ghost before = selected@;
        let was_empty = selected.len() == 0;
        selected.push(scrollable[k]);
        let fits = min_sum(specs, &selected) <= width as u128;
        if fits {
            k = k + 1;
        } else if was_empty {
            done = true;
            k = scrollable.len();
        } else {
            selected.pop();
            assert(selected@ =~= before);
            done = true;
            k = scrollable.len();
        }
    }
    if selected.len() == 0 {
        selected.push(0);
        assert(selected@ =~= seq![0usize]);
    }
    in_order(&selected, specs.len())
}

/// Among the first `m` positions with a positive share, the one served last.
pub open spec fn spec_last_served(s: Seq<u64>, prios: Seq<u8>, desc: bool, m: int) -> Option<int>
    decreases m,
{
    if m <= 0 {
        None
    } else {
        let prev = spec_last_served(s, prios, desc, m - 1);
        if s[m - 1] > 0 {
            match prev {
                None => Some(m - 1),
                Some(p) => if spec_ahead(prios, desc, p, m - 1) {
                    Some(m - 1)
                } else {
                    Some(p)
                },
            }
        } else {
            prev
        }
    }
}

/// Serving order is a strict total order on positions.
proof fn lemma_ahead_order(prios: Seq<u8>, desc: bool, a: int, b: int, c: int)
    ensures
        !spec_ahead(prios, desc, a, a),
        a != b ==> (spec_ahead(prios, desc, a, b) || spec_ahead(prios, desc, b, a)),
        !(spec_ahead(prios, desc, a, b) && spec_ahead(prios, desc, b, a)),
        spec_ahead(prios, desc, a, b) && spec_ahead(prios, desc, b, c) ==> spec_ahead(
            prios,
            desc,
            a,
            c,
        ),
{
}

proof fn lemma_last_served(s: Seq<u64>, prios: Seq<u8>, desc: bool, m: int)
    requires
        0 <= m <= s.len(),
    ensures
        match spec_last_served(s, prios, desc, m) {
            None => forall|k: int| 0 <= k < m ==> s[k] == 0,
            Some(z) => 0 <= z < m && s[z] > 0 && forall|k: int|
                0 <= k < m && s[k] > 0 ==> k == z || spec_ahead(prios, desc, k, z),
        },
    decreases m,
{
    if m > 0 {
        lemma_last_served(s, prios, desc, m - 1);
        let prev = spec_last_served(s, prios, desc, m - 1);
        if s[m - 1] > 0 {
            if let Some(p) = prev {
                if spec_ahead(prios, desc, p, m - 1) {
                    assert forall|k: int| 0 <= k < m && s[k] > 0 implies k == m - 1 || spec_ahead(
                        prios,
                        desc,
                        k,
                        m - 1,
                    ) by {
                        lemma_ahead_order(prios, desc, k, p, m - 1);
                    }
                } else {
                    lemma_ahead_order(prios, desc, m - 1, p, m - 1);
                }
            }
        }
    }
}

proof fn lemma_total_zero(s: Seq<u64>, m: int)
    requires
        0 <= m <= s.len(),
        forall|k: int| 0 <= k < m ==> s[k] == 0,
    ensures
        spec_total(s, m) == 0,
    decreases m,
{
    if m > 0 {
        lemma_total_zero(s, m - 1);
    }
}

proof fn lemma_total_bound(s: Seq<u64>, caps: Seq<u64>, prios: Seq<u8>, desc: bool, z: int, m: int)
    requires
        0 <= m <= s.len(),
        s.len() == caps.len(),
        0 <= z < s.len(),
        forall|k: int|
            0 <= k < m ==> s[k] as int <= (if spec_ahead(prios, desc, k, z) {
                caps[k] as int
            } else {
                0
            }) + (if k == z {
                s[z] as int
            } else {
                0
            }),
    ensures
        spec_total(s, m) <= spec_ahead_sum(caps, prios, desc, z, m) + (if z < m {
            s[z] as int
        } else {
            0
        }),
    decreases m,
{
    if m > 0 {
        lemma_total_bound(s, caps, prios, desc, z, m - 1);
    }
}

/// Dealing out a budget never hands out more than the budget.
pub proof fn lemma_shares_within(caps: Seq<u64>, budget: int, prios: Seq<u8>, desc: bool)
    requires
        budget >= 0,
    ensures
        spec_sum(spec_shares(caps, budget, prios, desc)) <= budget,
{
    let s = spec_shares(caps, budget, prios, desc);
    let m = caps.len() as int;
    lemma_last_served(s, prios, desc, m);
    match spec_last_served(s, prios, desc, m) {
        None => {
            lemma_total_zero(s, m);
        },
        Some(z) => {
            assert forall|k: int| 0 <= k < m implies s[k] as int <= (if spec_ahead(
                prios,
                desc,
                k,
                z,
            ) {
                caps[k] as int
            } else {
                0
            }) + (if k == z {
                s[z] as int
            } else {
                0
            }) by {
                lemma_ahead_order(prios, desc, k, z, k);
            }
            lemma_total_bound(s, caps, prios, desc, z, m);
        },
    }
}

fn preferred(c: &AdaptiveColumnSpec, content: usize) -> (r: u64)
    ensures
        r == spec_preferred(*c, content as int),
        r <= 65535,
{
    let want: u64 = if content as u128 > c.preferred_width as u128 {
        if content as u128 > 65535 {
            65535
        } else {
            content as u64
        }
    } else {
        c.preferred_width as u64
    };
    let cap: u64 = if c.max_width >= c.min_width {
        c.max_width as u64
    } else {
        c.min_width as u64
    };
    if want <= cap {
        want
    } else {
        cap
    }
}

/// Final widths of the shown columns `cols` in a table `width` cells wide.
fn fit_widths(specs: &[AdaptiveColumnSpec], cols: &Vec<usize>, width: u16, cw: &[usize]) -> (r: Vec<u64>)
    requires
        forall|k: int| 0 <= k < cols@.len() ==> #[trigger] cols@[k] < specs@.len(),
    ensures
        r@ == spec_widths(specs@, cols@, width as int, cw@),
        r@.len() == cols@.len(),
        forall|k: int| 0 <= k < r@.len() ==> #[trigger] r@[k] <= 65535,
{
    let m = cols.len();
    let spacing: u128 = if m >= 1 {
        (m - 1) as u128
    } else {
        0
    };
    let usable: u128 = if width as u128 >= spacing {
        width as u128 - spacing
    } else {
        0
    };
    let mut prios: Vec<u8> = Vec::new();
    let mut w0: Vec<u64> = Vec::new();
    let mut i: usize = 0;
    while i < m
        invariant
            i <= m == cols@.len(),
            forall|k: int| 0 <= k < cols@.len() ==> #[trigger] cols@[k] < specs@.len(),
            prios@.len() == i,
            w0@.len() == i,
            forall|k: int| 0 <= k < i ==> #[trigger] prios@[k] == specs@[cols@[k] as int].priority,
            forall|k: int| 0 <= k < i ==> #[trigger] w0@[k] == spec_minw(specs@[cols@[k] as int]),
            forall|k: int| 0 <= k < i ==> #[trigger] w0@[k] >= 1 && w0@[k] <= 65535,
        decreases m - i,
    {
        prios.push(specs[cols[i]].priority);
        w0.push(minw(&specs[cols[i]]));
        i = i + 1;
    }
    assert(prios@ =~= spec_prios(specs@, cols@));
    assert(w0@ =~= spec_min_widths(specs@, cols@));
    assert(usable == spec_usable(width as int, cols@.len() as int));
    let sum0 = sum_u64(&w0);
    let w1: Vec<u64> = if sum0 > usable {
        let mut caps: Vec<u64> = Vec::new();
        let mut j: usize = 0;
        while j < m
            invariant
                j <= m == cols@.len() == w0@.len(),
                caps@.len() == j,
                forall|k: int| 0 <= k < m ==> #[trigger] w0@[k] >= 1 && w0@[k] <= 65535,
                forall|k: int| 0 <= k < j ==> #[trigger] caps@[k] == w0@[k] - 1,
            decreases m - j,
        {
            caps.push(w0[j] - 1);
            j = j + 1;
        }
        assert(caps@ =~= spec_slack(w0@));
        let cut = shares(&caps, sum0 - usable, &prios, false);
        let mut out: Vec<u64> = Vec::new();
        let mut j: usize = 0;
        while j < m
            invariant
                j <= m == cols@.len() == w0@.len() == cut@.len() == caps@.len(),
                out@.len() == j,
                forall|k: int| 0 <= k < m ==> #[trigger] w0@[k] >= 1 && w0@[k] <= 65535,
                forall|k: int| 0 <= k < m ==> #[trigger] caps@[k] == w0@[k] - 1,
                forall|k: int| 0 <= k < m ==> #[trigger] cut@[k] <= caps@[k],
                forall|k: int| 0 <= k < j ==> #[trigger] out@[k] == w0@[k] - cut@[k],
            decreases m - j,
        {
            out.push(w0[j] - cut[j]);
            j = j + 1;
        }
        assert(out@ =~= spec_minus(w0@, cut@));
        out
    } else {
        w0
    };
    let sum1 = sum_u64(&w1);
    let r0: u128 = if usable >= sum1 {
        usable - sum1
    } else {
        0
    };
    let mut need: Vec<u64> = Vec::new();
    let mut j: usize = 0;
    while j < m
        invariant
            j <= m == cols@.len() == w1@.len(),
            forall|k: int| 0 <= k < cols@.len() ==> #[trigger] cols@[k] < specs@.len(),
            forall|k: int| 0 <= k < m ==> #[trigger] w1@[k] <= 65535,
            need@.len() == j,
            forall|k: int|
                0 <= k < j ==> #[trigger] need@[k] == ({
                    let p = spec_preferred(
                        specs@[cols@[k] as int],
                        spec_content_at(cw@, cols@[k] as int),
                    );
                    if p > w1@[k] {
                        p - w1@[k]
                    } else {
                        0
                    }
                }),
            forall|k: int| 0 <= k < j ==> #[trigger] need@[k] <= 65535,
        decreases m - j,
    {
        let idx = cols[j];
        let content: usize = if idx < cw.len() {
            cw[idx]
        } else {
            0
        };
        let p = preferred(&specs[idx], content);
        need.push(
            if p > w1[j] {
                p - w1[j]
            } else {
                0
            },
        );
        j = j + 1;
    }
    assert(w1@ == spec_fitted_minimums(specs@, cols@, width as int));
    assert(need@ =~= spec_need(specs@, cols@, cw@, w1@));
    let grow = shares(&need, r0, &prios, true);
    let sum_grow = sum_u64(&grow);
    proof {
        lemma_shares_within(need@, r0 as int, prios@, true);
    }
    let mut w: Vec<u64> = Vec::new();
    let mut j: usize = 0;
    while j < m
        invariant
            j <= m == cols@.len() == w1@.len() == grow@.len() == need@.len(),
            forall|k: int| 0 <= k < cols@.len() ==> #[trigger] cols@[k] < specs@.len(),
            forall|k: int| 0 <= k < m ==> #[trigger] w1@[k] <= 65535,
            forall|k: int| 0 <= k < m ==> #[trigger] grow@[k] <= need@[k],
            forall|k: int|
                0 <= k < m ==> #[trigger] need@[k] == ({
                    let p = spec_preferred(
                        specs@[cols@[k] as int],
                        spec_content_at(cw@, cols@[k] as int),
                    );
                    if p > w1@[k] {
                        p - w1@[k]
                    } else {
                        0
                    }
                }),
            w@.len() == j,
            forall|k: int| 0 <= k < j ==> #[trigger] w@[k] == w1@[k] + grow@[k],
            forall|k: int| 0 <= k < j ==> #[trigger] w@[k] <= 65535,
        decreases m - j,
    {
        proof {
            let c = specs@[cols@[j as int] as int];
            let p = spec_preferred(c, spec_content_at(cw@, cols@[j as int] as int));
            assert(p <= 65535);
        }
        w.push(w1[j] + grow[j]);
        j = j + 1;
    }
    assert(w@ =~= spec_plus(w1@, grow@));
    let mut left: u128 = r0 - sum_grow;
    let ghost target = spec_rounds(specs@, cols@, prios@, w@, left as int);
    while left > 0
        invariant
            m == cols@.len() == w@.len() == prios@.len(),
            forall|k: int| 0 <= k < cols@.len() ==> #[trigger] cols@[k] < specs@.len(),
            forall|k: int| 0 <= k < m ==> #[trigger] w@[k] <= 65535,
            spec_rounds(specs@, cols@, prios@, w@, left as int) == target,
        decreases left,
    {
        let mut caps: Vec<u64> = Vec::new();
        let mut j: usize = 0;
        while j < m
            invariant
                j <= m == cols@.len() == w@.len(),
                forall|k: int| 0 <= k < cols@.len() ==> #[trigger] cols@[k] < specs@.len(),
                forall|k: int| 0 <= k < m ==> #[trigger] w@[k] <= 65535,
                caps@.len() == j,
                forall|k: int| 0 <= k < j ==> #[trigger] caps@[k] == spec_round_caps(specs@, cols@, w@)[k],
                forall|k: int| 0 <= k < j ==> w@[k] + #[trigger] caps@[k] <= 65535,
            decreases m - j,
        {
            let c = &specs[cols[j]];
            let wt: u64 = if c.weight >= 1 {
                c.weight as u64
            } else {
                1
            };
            let cap: u64 = if (c.max_width as u64) <= w[j] {
                0
            } else if wt <= c.max_width as u64 - w[j] {
                wt
            } else {
                c.max_width as u64 - w[j]
            };
            caps.push(cap);
            j = j + 1;
        }
        assert(caps@ =~= spec_round_caps(specs@, cols@, w@));
        let adds = shares(&caps, left, &prios, true);
        let total = sum_u64(&adds);
        proof {
            lemma_shares_within(caps@, left as int, prios@, true);
        }
        if total == 0 {
            left = 0;
        } else {
            let mut next: Vec<u64> = Vec::new();
            let mut j: usize = 0;
            while j < m
                invariant
                    j <= m == w@.len() == adds@.len() == caps@.len(),
                    forall|k: int| 0 <= k < m ==> w@[k] + #[trigger] caps@[k] <= 65535,
                    forall|k: int| 0 <= k < m ==> #[trigger] adds@[k] <= caps@[k],
                    next@.len() == j,
                    forall|k: int| 0 <= k < j ==> #[trigger] next@[k] == w@[k] + adds@[k],
                    forall|k: int| 0 <= k < j ==> #[trigger] next@[k] <= 65535,
                decreases m - j,
            {
                next.push(w[j] + adds[j]);
                j = j + 1;
            }
            assert(next@ =~= spec_plus(w@, adds@));
            w = next;
            left = left - total;
        }
    }
    w
}

impl AdaptiveTableLayout {
    /// Lay the table out `width` cells wide at horizontal scroll position `scroll`, given
    /// the widest content of each column.
    pub fn layout(&self, width: u16, content_widths: &[usize], scroll: usize) -> (r: TableViewport)
        ensures
            r.columns@ == spec_layout_columns(self.spec_specs(), width, content_widths@, scroll),
            r.first_scrollable_column == spec_first_scrollable(self.spec_specs(), width, scroll),
            r.scrollable_columns == spec_scrollable_count(self.spec_specs()),
    {
        let specs = self.specs();
        if specs.len() == 0 || width == 0 {
            return TableViewport {
                columns: Vec::new(),
                first_scrollable_column: 0,
                scrollable_columns: self.scrollable_count(),
            };
        }
        let cols = shown_columns(specs, width, scroll);
        let widths = fit_widths(specs, &cols, width, content_widths);
        let mut columns: Vec<VisibleColumn> = Vec::new();
        let mut k: usize = 0;
        while k < cols.len()
            invariant
                k <= cols@.len() == widths@.len(),
                forall|j: int| 0 <= j < cols@.len() ==> #[trigger] cols@[j] < specs@.len(),
                columns@.len() == k,
                forall|j: int|
                    0 <= j < k ==> #[trigger] columns@[j] == (VisibleColumn {
                        index: cols@[j],
                        width: (if widths@[j] <= 65535 {
                            widths@[j]
                        } else {
                            65535
                        }) as u16,
                        truncate_policy: specs@[cols@[j] as int].truncate_policy,
                    }),
            decreases cols@.len() - k,
        {
            let w: u16 = if widths[k] <= 65535 {
                widths[k] as u16
            } else {
                65535
            };
            columns.push(
                VisibleColumn {
                    index: cols[k],
                    width: w,
                    truncate_policy: specs[cols[k]].truncate_policy,
                },
            );
            k = k + 1;
        }
        let scrollable = column_indices(specs, false);
        proof {
            lemma_scrollable_indices(specs@);
        }
        assert(columns@ =~= spec_layout_columns(self.spec_specs(), width, content_widths@, scroll));
        TableViewport {
            columns,
            first_scrollable_column: if scrollable.len() == 0 {
                0
            } else if scroll <= scrollable.len() - 1 {
                scroll
            } else {
                scrollable.len() - 1
            },
            scrollable_columns: scrollable.len(),
        }
    }
}

proof fn lemma_scrollable_indices(specs: Seq<AdaptiveColumnSpec>)
    ensures
        spec_column_indices(specs, false).len() == spec_scrollable_count(specs),
    decreases specs.len(),
{
    if specs.len() > 0 {
        lemma_scrollable_indices(specs.drop_last());
    }
}

/// Among the first `m` positions whose share falls short of its cap, the one served
/// first.
pub open spec fn spec_first_short(s: Seq<u64>, caps: Seq<u64>, prios: Seq<u8>, desc: bool, m: int) -> Option<int>
    decreases m,
{
    if m <= 0 {
        None
    } else {
        let prev = spec_first_short(s, caps, prios, desc, m - 1);
        if s[m - 1] < caps[m - 1] {
            match prev {
                None => Some(m - 1),
                Some(p) => if spec_ahead(prios, desc, m - 1, p) {
                    Some(m - 1)
                } else {
                    Some(p)
                },
            }
        } else {
            prev
        }
    }
}

proof fn lemma_first_short(s: Seq<u64>, caps: Seq<u64>, prios: Seq<u8>, desc: bool, m: int)
    requires
        0 <= m <= s.len(),
        s.len() == caps.len(),
    ensures
        match spec_first_short(s, caps, prios, desc, m) {
            None => forall|k: int| 0 <= k < m ==> s[k] >= caps[k],
            Some(z) => 0 <= z < m && s[z] < caps[z] && forall|k: int|
                0 <= k < m && s[k] < caps[k] ==> k == z || spec_ahead(prios, desc, z, k),
        },
    decreases m,
{
    if m > 0 {
        lemma_first_short(s, caps, prios, desc, m - 1);
        let prev = spec_first_short(s, caps, prios, desc, m - 1);
        if s[m - 1] < caps[m - 1] {
            if let Some(p) = prev {
                if spec_ahead(prios, desc, m - 1, p) {
                    assert forall|k: int| 0 <= k < m && s[k] < caps[k] implies k == m - 1 || spec_ahead(
                        prios,
                        desc,
                        m - 1,
                        k,
                    ) by {
                        lemma_ahead_order(prios, desc, m - 1, p, k);
                    }
                } else {
                    lemma_ahead_order(prios, desc, p, m - 1, p);
                }
            }
        }
    }
}

proof fn lemma_total_at_least(s: Seq<u64>, caps: Seq<u64>, prios: Seq<u8>, desc: bool, z: int, m: int)
    requires
        0 <= m <= s.len(),
        s.len() == caps.len(),
        0 <= z < s.len(),
        forall|k: int|
            0 <= k < m ==> s[k] as int >= (if spec_ahead(prios, desc, k, z) {
                caps[k] as int
            } else {
                0
            }) + (if k == z {
                s[z] as int
            } else {
                0
            }),
    ensures
        spec_total(s, m) >= spec_ahead_sum(caps, prios, desc, z, m) + (if z < m {
            s[z] as int
        } else {
            0
        }),
    decreases m,
{
    if m > 0 {
        lemma_total_at_least(s, caps, prios, desc, z, m - 1);
    }
}

proof fn lemma_total_ge(a: Seq<u64>, b: Seq<u64>, m: int)
    requires
        0 <= m <= a.len(),
        a.len() == b.len(),
        forall|k: int| 0 <= k < m ==> a[k] >= b[k],
    ensures
        spec_total(a, m) >= spec_total(b, m),
    decreases m,
{
    if m > 0 {
        lemma_total_ge(a, b, m - 1);
    }
}

/// Dealing out a budget hands out all of it, or everything the caps allow.
pub proof fn lemma_shares_cover(caps: Seq<u64>, budget: int, prios: Seq<u8>, desc: bool)
    requires
        budget >= 0,
    ensures
        spec_sum(spec_shares(caps, budget, prios, desc)) >= if budget <= spec_sum(caps) {
            budget
        } else {
            spec_sum(caps)
        },
{
    let s = spec_shares(caps, budget, prios, desc);
    let m = caps.len() as int;
    lemma_first_short(s, caps, prios, desc, m);
    match spec_first_short(s, caps, prios, desc, m) {
        None => {
            lemma_total_ge(s, caps, m);
        },
        Some(z) => {
            assert forall|k: int| 0 <= k < m implies s[k] as int >= (if spec_ahead(
                prios,
                desc,
                k,
                z,
            ) {
                caps[k] as int
            } else {
                0
            }) + (if k == z {
                s[z] as int
            } else {
                0
            }) by {
                lemma_ahead_order(prios, desc, k, z, k);
            }
            lemma_total_at_least(s, caps, prios, desc, z, m);
        },
    }
}

proof fn lemma_total_plus(a: Seq<u64>, b: Seq<u64>, m: int)
    requires
        0 <= m <= a.len(),
        a.len() == b.len(),
    ensures
        spec_total(spec_plus(a, b), m) == spec_total(a, m) + spec_total(b, m) || exists|k: int|
            0 <= k < m && a[k] + b[k] > u64::MAX,
    decreases m,
{
    if m > 0 {
        lemma_total_plus(a, b, m - 1);
    }
}

proof fn lemma_total_minus(a: Seq<u64>, b: Seq<u64>, m: int)
    requires
        0 <= m <= a.len(),
        a.len() == b.len(),
        forall|k: int| 0 <= k < a.len() ==> b[k] <= a[k],
    ensures
        spec_total(spec_minus(a, b), m) == spec_total(a, m) - spec_total(b, m),
    decreases m,
{
    if m > 0 {
        lemma_total_minus(a, b, m - 1);
    }
}

proof fn lemma_total_slack(w: Seq<u64>, m: int)
    requires
        0 <= m <= w.len(),
        forall|k: int| 0 <= k < w.len() ==> w[k] >= 1,
    ensures
        spec_total(spec_slack(w), m) == spec_total(w, m) - m,
    decreases m,
{
    if m > 0 {
        lemma_total_slack(w, m - 1);
    }
}

proof fn lemma_share_bounds(caps: Seq<u64>, budget: int, prios: Seq<u8>, desc: bool)
    ensures
        forall|k: int|
            0 <= k < caps.len() ==> #[trigger] spec_shares(caps, budget, prios, desc)[k] <= caps[k],
{
}

/// Later rounds only widen columns, and never hand out more than is left.
proof fn lemma_rounds(
    specs: Seq<AdaptiveColumnSpec>,
    cols: Seq<usize>,
    prios: Seq<u8>,
    w: Seq<u64>,
    left: int,
)
    requires
        w.len() == cols.len(),
        forall|k: int| 0 <= k < w.len() ==> w[k] <= 65535,
        left >= 0,
    ensures
        spec_rounds(specs, cols, prios, w, left).len() == w.len(),
        forall|k: int| 0 <= k < w.len() ==> #[trigger] spec_rounds(specs, cols, prios, w, left)[k] >= w[k],
        forall|k: int| 0 <= k < w.len() ==> #[trigger] spec_rounds(specs, cols, prios, w, left)[k] <= 65535,
        spec_sum(spec_rounds(specs, cols, prios, w, left)) <= spec_sum(w) + left,
    decreases left,
{
    if left > 0 {
        let caps = spec_round_caps(specs, cols, w);
        let adds = spec_shares(caps, left, prios, true);
        let s = spec_sum(adds);
        if s > 0 {
            lemma_shares_within(caps, left, prios, true);
            lemma_share_bounds(caps, left, prios, true);
            let next = spec_plus(w, adds);
            assert forall|k: int| 0 <= k < w.len() implies next[k] <= 65535 && next[k] == w[k] + adds[k] by {
                assert(adds[k] <= caps[k]);
            }
            lemma_total_plus(w, adds, w.len() as int);
            lemma_rounds(specs, cols, prios, next, left - s);
        }
    }
}

/// Every shown column is at least one cell wide, and when each shown column can have a
/// cell of its own (with one cell between columns), the widths and the gaps between
/// columns together fit the table width.
pub proof fn lemma_widths_fit(
    specs: Seq<AdaptiveColumnSpec>,
    cols: Seq<usize>,
    width: int,
    cw: Seq<usize>,
)
    requires
        forall|k: int| 0 <= k < cols.len() ==> #[trigger] cols[k] < specs.len(),
        width >= 0,
    ensures
        spec_widths(specs, cols, width, cw).len() == cols.len(),
        forall|k: int| 0 <= k < cols.len() ==> #[trigger] spec_widths(specs, cols, width, cw)[k] >= 1,
        forall|k: int| 0 <= k < cols.len() ==> #[trigger] spec_widths(specs, cols, width, cw)[k] <= 65535,
        cols.len() >= 1 && 2 * cols.len() - 1 <= width ==> spec_sum(spec_widths(specs, cols, width, cw))
            + (cols.len() - 1) <= width,
{
    let m = cols.len() as int;
    let usable = spec_usable(width, m);
    let prios = spec_prios(specs, cols);
    let w0 = spec_min_widths(specs, cols);
    let w1 = spec_fitted_minimums(specs, cols, width);
    assert forall|k: int| 0 <= k < m implies 1 <= #[trigger] w0[k] <= 65535 by {}
    if spec_sum(w0) > usable {
        let slack = spec_slack(w0);
        let cut = spec_shares(slack, spec_sum(w0) - usable, prios, false);
        lemma_share_bounds(slack, spec_sum(w0) - usable, prios, false);
        assert forall|k: int| 0 <= k < m implies cut[k] <= w0[k] by {
            assert(cut[k] <= slack[k]);
        }
        lemma_total_minus(w0, cut, m);
        lemma_total_slack(w0, m);
        lemma_shares_cover(slack, spec_sum(w0) - usable, prios, false);
        assert forall|k: int| 0 <= k < m implies 1 <= #[trigger] w1[k] <= 65535 by {
            assert(cut[k] <= slack[k]);
        }
    }
    assert forall|k: int| 0 <= k < m implies 1 <= #[trigger] w1[k] <= 65535 by {}
    let r0 = if usable - spec_sum(w1) >= 0 {
        usable - spec_sum(w1)
    } else {
        0
    };
    let need = spec_need(specs, cols, cw, w1);
    let grow = spec_shares(need, r0, prios, true);
    lemma_shares_within(need, r0, prios, true);
    lemma_share_bounds(need, r0, prios, true);
    let w2 = spec_plus(w1, grow);
    assert forall|k: int| 0 <= k < m implies #[trigger] w2[k] == w1[k] + grow[k] && w2[k] <= 65535 by {
        assert(grow[k] <= need[k]);
        let p = spec_preferred(specs[cols[k] as int], spec_content_at(cw, cols[k] as int));
        assert(p <= 65535);
    }
    lemma_total_plus(w1, grow, m);
    lemma_rounds(specs, cols, prios, w2, r0 - spec_sum(grow));
}

/// Total width of laid-out columns.
pub open spec fn spec_columns_width(columns: Seq<VisibleColumn>) -> int
    decreases columns.len(),
{
    if columns.len() == 0 {
        0
    } else {
        spec_columns_width(columns.drop_last()) + columns.last().width as int
    }
}

proof fn lemma_in_order(sel: Seq<usize>, n: int)
    requires
        n <= usize::MAX,
    ensures
        forall|a: int, b: int|
            0 <= a < b < spec_in_order(sel, n).len() ==> #[trigger] spec_in_order(sel, n)[a]
                < #[trigger] spec_in_order(sel, n)[b],
        forall|k: int| 0 <= k < spec_in_order(sel, n).len() ==> #[trigger] spec_in_order(sel, n)[k] < n,
        forall|k: int| 0 <= k < spec_in_order(sel, n).len() ==> sel.contains(#[trigger] spec_in_order(sel, n)[k]),
    decreases n,
{
    if n > 0 {
        lemma_in_order(sel, n - 1);
        let prev = spec_in_order(sel, n - 1);
        let cur = spec_in_order(sel, n);
        if sel.contains((n - 1) as usize) {
            assert forall|a: int, b: int| 0 <= a < b < cur.len() implies #[trigger] cur[a] < #[trigger] cur[b] by {
                assert(cur[a] == prev[a]);
                assert(prev[a] < n - 1);
                if b < cur.len() - 1 {
                    assert(cur[b] == prev[b]);
                    assert(prev[a] < prev[b]);
                } else {
                    assert(cur[b] == n - 1);
                }
            }
            assert forall|k: int| 0 <= k < cur.len() implies #[trigger] cur[k] < n && sel.contains(cur[k]) by {
                if k < cur.len() - 1 {
                    assert(cur[k] == prev[k]);
                }
            }
        }
    }
}

proof fn lemma_indices_below(specs: Seq<AdaptiveColumnSpec>, pinned: bool)
    ensures
        forall|k: int| 0 <= k < spec_column_indices(specs, pinned).len() ==> #[trigger] spec_column_indices(specs, pinned)[k] < specs.len(),
    decreases specs.len(),
{
    if specs.len() > 0 {
        lemma_indices_below(specs.drop_last(), pinned);
        let prev = spec_column_indices(specs.drop_last(), pinned);
        let cur = spec_column_indices(specs, pinned);
        assert forall|k: int| 0 <= k < cur.len() implies #[trigger] cur[k] < specs.len() by {
            if k < prev.len() {
                assert(cur[k] == prev[k]);
            }
        }
    }
}

proof fn lemma_trimmed_below(specs: Seq<AdaptiveColumnSpec>, sel: Seq<usize>, width: int, n: int)
    requires
        forall|k: int| 0 <= k < sel.len() ==> #[trigger] sel[k] < n,
    ensures
        forall|k: int| 0 <= k < spec_trimmed(specs, sel, width).len() ==> #[trigger] spec_trimmed(specs, sel, width)[k] < n,
    decreases sel.len(),
{
    if spec_min_sum(specs, sel) > width && sel.len() > 1 {
        let p0 = match spec_removal(specs, sel, sel.len() as int) {
            Some(p) => p,
            None => sel.len() - 1,
        };
        let p = if 0 <= p0 < sel.len() {
            p0
        } else {
            sel.len() - 1
        };
        let rest = sel.remove(p);
        assert forall|k: int| 0 <= k < rest.len() implies #[trigger] rest[k] < n by {
            if k < p {
                assert(rest[k] == sel[k]);
            } else {
                assert(rest[k] == sel[k + 1]);
            }
        }
        lemma_trimmed_below(specs, rest, width, n);
        assert(spec_trimmed(specs, sel, width) == spec_trimmed(specs, rest, width));
    } else {
        assert(spec_trimmed(specs, sel, width) == sel);
    }
}

proof fn lemma_added_below(
    specs: Seq<AdaptiveColumnSpec>,
    sel: Seq<usize>,
    scroll: Seq<usize>,
    k: int,
    width: int,
    n: int,
)
    requires
        forall|j: int| 0 <= j < sel.len() ==> #[trigger] sel[j] < n,
        forall|j: int| 0 <= j < scroll.len() ==> #[trigger] scroll[j] < n,
    ensures
        forall|j: int| 0 <= j < spec_added(specs, sel, scroll, k, width).len() ==> #[trigger] spec_added(specs, sel, scroll, k, width)[j] < n,
    decreases scroll.len() - k,
{
    if 0 <= k < scroll.len() {
        let cand = sel.push(scroll[k]);
        assert forall|j: int| 0 <= j < cand.len() implies #[trigger] cand[j] < n by {
            if j < sel.len() {
                assert(cand[j] == sel[j]);
            }
        }
        if spec_min_sum(specs, cand) <= width {
            lemma_added_below(specs, cand, scroll, k + 1, width, n);
            assert(spec_added(specs, sel, scroll, k, width) == spec_added(specs, cand, scroll, k + 1, width));
        } else if sel.len() == 0 {
            assert(spec_added(specs, sel, scroll, k, width) == cand);
        } else {
            assert(spec_added(specs, sel, scroll, k, width) == sel);
        }
    } else {
        assert(spec_added(specs, sel, scroll, k, width) == sel);
    }
}

proof fn lemma_columns_width(columns: Seq<VisibleColumn>, w: Seq<u64>, m: int)
    requires
        0 <= m <= columns.len(),
        columns.len() == w.len(),
        forall|k: int| 0 <= k < columns.len() ==> #[trigger] columns[k].width as int == w[k] as int,
    ensures
        spec_columns_width(columns.take(m)) == spec_total(w, m),
    decreases m,
{
    if m > 0 {
        lemma_columns_width(columns, w, m - 1);
        assert(columns.take(m).drop_last() =~= columns.take(m - 1));
    }
}

/// A laid-out table shows its columns in column order, each at least one cell wide;
/// whenever every shown column can have a cell of its own, the columns and the one-cell
/// gaps between them fit the table width.
pub proof fn lemma_layout_fits(layout: AdaptiveTableLayout, width: u16, cw: Seq<usize>, scroll: usize)
    ensures
        ({
            let specs = layout.spec_specs();
            let columns = spec_layout_columns(specs, width, cw, scroll);
            &&& forall|a: int, b: int|
                0 <= a < b < columns.len() ==> #[trigger] columns[a].index < #[trigger] columns[b].index
            &&& forall|k: int| 0 <= k < columns.len() ==> #[trigger] columns[k].index < specs.len()
            &&& forall|k: int| 0 <= k < columns.len() ==> #[trigger] columns[k].width >= 1
            &&& (specs.len() > 0 && width > 0) ==> columns.len() >= 1
            &&& (columns.len() >= 1 && 2 * columns.len() - 1 <= width) ==> spec_columns_width(columns)
                + (columns.len() - 1) <= width
        }),
{
    let specs = layout.spec_specs();
    layout.lemma_specs_len();
    if specs.len() > 0 && width > 0 {
        let scrollable = spec_column_indices(specs, false);
        let offset: int = if scroll as int <= scrollable.len() - 1 {
            scroll as int
        } else if scrollable.len() >= 1 {
            scrollable.len() - 1
        } else {
            0
        };
        let trimmed = spec_trimmed(specs, spec_column_indices(specs, true), width as int);
        let chosen0 = spec_added(specs, trimmed, scrollable, offset, width as int);
        let chosen = if chosen0.len() == 0 {
            seq![0usize]
        } else {
            chosen0
        };
        let cols = spec_shown(specs, width as int, scroll);
        let n = specs.len() as int;
        lemma_indices_below(specs, true);
        lemma_indices_below(specs, false);
        lemma_trimmed_below(specs, spec_column_indices(specs, true), width as int, n);
        lemma_added_below(specs, trimmed, scrollable, offset, width as int, n);
        assert(chosen[0] < n);
        lemma_in_order(chosen, n);
        lemma_shown_nonempty(chosen, n);
        lemma_widths_fit(specs, cols, width as int, cw);
        let w = spec_widths(specs, cols, width as int, cw);
        let columns = spec_layout_columns(specs, width, cw, scroll);
        lemma_columns_width(columns, w, columns.len() as int);
        assert(columns.take(columns.len() as int) =~= columns);
    }
}

/// A selection holding some index below `n` keeps it when put in column order.
proof fn lemma_shown_nonempty(sel: Seq<usize>, n: int)
    requires
        n <= usize::MAX,
        exists|k: int| 0 <= k < sel.len() && sel[k] < n,
    ensures
        spec_in_order(sel, n).len() >= 1,
    decreases n,
{
    let k = choose|k: int| 0 <= k < sel.len() && sel[k] < n;
    if n > 0 {
        if sel.contains((n - 1) as usize) {
        } else {
            assert(sel[k] < n - 1);
            lemma_shown_nonempty(sel, n - 1);
        }
    }
}

} // verus!
