//! Loading sectors on demand: merging a loaded sector into the workspace and
//! keeping at most a few on-demand sectors cached, oldest evicted first.

use vstd::prelude::*;
use crate::inspect::{
    AdvancedInspectState, InspectSectorItem, PreviewLoadState, SectorInspectorState,
    spec_distinct_u64, spec_inspect_only, spec_items_sorted, spec_preview_keys,
};
use crate::sector::{preview_find, preview_insert, preview_remove, spec_preview_get, spec_preview_map};
use crate::state::AppState;

verus! {

/// How many sectors loaded on demand (past the metadata area) stay cached.
pub const ON_DEMAND_CACHE_LIMIT: usize = 5;

/// Keeps entries other than `lba`.
pub open spec fn spec_not_lba(lba: u64) -> spec_fn(u64) -> bool {
    |x: u64| x != lba
}

/// Keeps items at LBAs other than `lba`.
pub open spec fn spec_item_not_lba(lba: u64) -> spec_fn(InspectSectorItem) -> bool {
    |it: InspectSectorItem| it.lba != lba
}

/// Keeps items whose LBA is not in `ev`.
pub open spec fn spec_item_not_in(ev: Set<u64>) -> spec_fn(InspectSectorItem) -> bool {
    |it: InspectSectorItem| !ev.contains(it.lba)
}

proof fn lemma_filter_twice<A>(s: Seq<A>, p: spec_fn(A) -> bool, q: spec_fn(A) -> bool)
    ensures
        s.filter(p).filter(q) == s.filter(|x: A| p(x) && q(x)),
    decreases s.len(),
{
    reveal(Seq::filter);
    if s.len() > 0 {
        lemma_filter_twice(s.drop_last(), p, q);
        let r = s.drop_last().filter(p);
        if p(s.last()) {
            assert(r.push(s.last()).drop_last() =~= r);
        }
    }
}

proof fn lemma_filter_sorted(s: Seq<InspectSectorItem>, p: spec_fn(InspectSectorItem) -> bool)
    requires
        spec_items_sorted(s),
    ensures
        spec_items_sorted(s.filter(p)),
        forall|i: int| 0 <= i < s.filter(p).len() ==> exists|j: int| 0 <= j < s.len() && s[j] == #[trigger] s.filter(p)[i],
    decreases s.len(),
{
    reveal(Seq::filter);
    if s.len() > 0 {
        let t = s.drop_last();
        assert(spec_items_sorted(t));
        lemma_filter_sorted(t, p);
        let r = t.filter(p);
        assert forall|i: int| 0 <= i < s.filter(p).len() implies exists|j: int| 0 <= j < s.len() && s[j] == #[trigger] s.filter(p)[i] by {
            if i < r.len() {
                let j = choose|j: int| 0 <= j < t.len() && t[j] == r[i];
                assert(s[j] == s.filter(p)[i]);
            } else {
                assert(s[s.len() - 1] == s.filter(p)[i]);
            }
        }
        if p(s.last()) {
            let f = r.push(s.last());
            assert forall|a: int, b: int| 0 <= a < b < f.len() implies (#[trigger] f[a]).lba < (#[trigger] f[b]).lba by {
                if b < r.len() {
                    assert(f[a] == r[a] && f[b] == r[b]);
                } else {
                    let j = choose|j: int| 0 <= j < t.len() && t[j] == r[a];
                    assert(s[j] == t[j]);
                    assert(s[j].lba < s[s.len() - 1].lba);
                }
            }
        }
    }
}

/// Drop every item at `lba`, keeping the others in order.
fn retain_items_without(items: &mut Vec<InspectSectorItem>, lba: u64)
    ensures
        final(items)@ == old(items)@.filter(spec_item_not_lba(lba)),
{
    let ghost orig = items@;
    let ghost pred = spec_item_not_lba(lba);
    let mut i: usize = 0;
    let ghost mut j: int = 0;
    proof {
        reveal(Seq::filter);
        assert(orig.take(0).filter(pred) =~= Seq::<InspectSectorItem>::empty());
    }
    while i < items.len()
        invariant
            0 <= j <= orig.len(),
            i <= items@.len(),
            pred == spec_item_not_lba(lba),
            items@.take(i as int) == orig.take(j).filter(pred),
            items@.skip(i as int) == orig.skip(j),
        decreases items@.len() - i,
    {
        proof {
            assert(orig.skip(j).len() == items@.skip(i as int).len());
            assert(items@.skip(i as int)[0] == orig.skip(j)[0]);
            assert(orig.take(j + 1) =~= orig.take(j).push(orig[j]));
            orig.take(j).lemma_filter_push(orig[j], pred);
        }
        if items[i].lba == lba {
            let ghost before = items@;
            items.remove(i);
            proof {
                assert(items@.take(i as int) =~= before.take(i as int));
                assert(items@.skip(i as int) =~= before.skip(i as int + 1));
                assert(orig.skip(j + 1) =~= orig.skip(j).skip(1));
                j = j + 1;
            }
        } else {
            proof {
                assert(items@.take(i + 1) =~= items@.take(i as int).push(items@[i as int]));
                assert(items@.skip(i + 1) =~= items@.skip(i as int).skip(1));
                assert(orig.skip(j + 1) =~= orig.skip(j).skip(1));
                j = j + 1;
            }
            i = i + 1;
        }
    }
    proof {
        assert(items@.skip(i as int).len() == 0);
        assert(orig.skip(j).len() == 0);
        assert(orig.take(j) =~= orig);
        assert(items@.take(i as int) =~= items@);
    }
}

/// Drop every occurrence of `lba` from the cache order.
fn retain_order_without(order: &mut Vec<u64>, lba: u64)
    ensures
        final(order)@ == old(order)@.filter(spec_not_lba(lba)),
{
    let ghost orig = order@;
    let ghost pred = spec_not_lba(lba);
    let mut i: usize = 0;
    let ghost mut j: int = 0;
    proof {
        reveal(Seq::filter);
        assert(orig.take(0).filter(pred) =~= Seq::<u64>::empty());
    }
    while i < order.len()
        invariant
            0 <= j <= orig.len(),
            i <= order@.len(),
            pred == spec_not_lba(lba),
            order@.take(i as int) == orig.take(j).filter(pred),
            order@.skip(i as int) == orig.skip(j),
        decreases order@.len() - i,
    {
        proof {
            assert(orig.skip(j).len() == order@.skip(i as int).len());
            assert(order@.skip(i as int)[0] == orig.skip(j)[0]);
            assert(orig.take(j + 1) =~= orig.take(j).push(orig[j]));
            orig.take(j).lemma_filter_push(orig[j], pred);
        }
        if order[i] == lba {
            let ghost before = order@;
            order.remove(i);
            proof {
                assert(order@.take(i as int) =~= before.take(i as int));
                assert(order@.skip(i as int) =~= before.skip(i as int + 1));
                assert(orig.skip(j + 1) =~= orig.skip(j).skip(1));
                j = j + 1;
            }
        } else {
            proof {
                assert(order@.take(i + 1) =~= order@.take(i as int).push(order@[i as int]));
                assert(order@.skip(i + 1) =~= order@.skip(i as int).skip(1));
                assert(orig.skip(j + 1) =~= orig.skip(j).skip(1));
                j = j + 1;
            }
            i = i + 1;
        }
    }
    proof {
        assert(order@.skip(i as int).len() == 0);
        assert(orig.skip(j).len() == 0);
        assert(orig.take(j) =~= orig);
        assert(order@.take(i as int) =~= order@);
    }
}

/// The LBAs among the first `m` entries of `order`, other than `keep`.
pub open spec fn spec_evicted_set(order: Seq<u64>, m: int, keep: Option<u64>) -> Set<u64> {
    Set::new(|x: u64| exists|i: int| 0 <= i < m && order[i] == x && keep != Some(x))
}

pub open spec fn spec_keep_pos(order: Seq<u64>, keep: Option<u64>) -> int {
    choose|i: int| 0 <= i < order.len() && Some(order[i]) == keep
}

/// Whether eviction reaches the kept sector, which then moves to the back.
pub open spec fn spec_keep_reached(order: Seq<u64>, keep: Option<u64>) -> bool {
    &&& order.len() > ON_DEMAND_CACHE_LIMIT
    &&& exists|i: int| 0 <= i < order.len() && Some(order[i]) == keep
    &&& spec_keep_pos(order, keep) < order.len() - ON_DEMAND_CACHE_LIMIT
}

/// How many entries of `order` eviction pops from the front.
pub open spec fn spec_popped(order: Seq<u64>, keep: Option<u64>) -> int {
    if order.len() <= ON_DEMAND_CACHE_LIMIT {
        0
    } else if spec_keep_reached(order, keep) {
        order.len() - ON_DEMAND_CACHE_LIMIT + 1
    } else {
        order.len() - ON_DEMAND_CACHE_LIMIT
    }
}

/// The sectors that eviction removes from the cache.
pub open spec fn spec_evicted(order: Seq<u64>, keep: Option<u64>) -> Set<u64> {
    spec_evicted_set(order, spec_popped(order, keep), keep)
}

/// The cache order after eviction: the newest entries, with the kept sector moved
/// to the back if eviction reached it.
pub open spec fn spec_cache_after(order: Seq<u64>, keep: Option<u64>) -> Seq<u64> {
    if spec_keep_reached(order, keep) {
        order.skip(spec_popped(order, keep)).push(keep->Some_0)
    } else {
        order.skip(spec_popped(order, keep))
    }
}

proof fn lemma_keep_pos(order: Seq<u64>, keep: Option<u64>, p: int)
    requires
        spec_distinct_u64(order),
        0 <= p < order.len(),
        Some(order[p]) == keep,
    ensures
        spec_keep_pos(order, keep) == p,
{
    let q = spec_keep_pos(order, keep);
    if q < p {
        assert(order[q] != order[p]);
    } else if p < q {
        assert(order[p] != order[q]);
    }
}

/// Evict from the front of `order` until at most the cache limit remains; the
/// entry `keep` (the sector on screen) is moved to the back instead of evicted.
fn evict_cache(
    order: &mut Vec<u64>,
    items: &mut Vec<InspectSectorItem>,
    preview: &mut Vec<(u64, PreviewLoadState)>,
    keep: Option<u64>,
)
    requires
        spec_distinct_u64(old(order)@),
        spec_distinct_u64(spec_preview_keys(old(preview)@)),
        spec_items_sorted(old(items)@),
    ensures
        spec_distinct_u64(final(order)@),
        spec_distinct_u64(spec_preview_keys(final(preview)@)),
        spec_items_sorted(final(items)@),
        final(order)@ == spec_cache_after(old(order)@, keep),
        final(items)@ == old(items)@.filter(spec_item_not_in(spec_evicted(old(order)@, keep))),
        spec_preview_map(final(preview)@) == spec_preview_map(old(preview)@).remove_keys(
            spec_evicted(old(order)@, keep),
        ),
{
    let ghost o = order@;
    let ghost n = o.len();
    let ghost orig_items = items@;
    let ghost orig_map = spec_preview_map(preview@);
    let ghost mut m: int = 0;
    let ghost mut rotated = false;
    let ghost mut p: int = 0;
    proof {
        reveal(Seq::filter);
        assert(spec_evicted_set(o, 0, keep) =~= Set::<u64>::empty());
        lemma_filter_true(orig_items, spec_evicted_set(o, 0, keep));
        assert(orig_map.remove_keys(spec_evicted_set(o, 0, keep)) =~= orig_map);
    }
    while order.len() > ON_DEMAND_CACHE_LIMIT
        invariant
            0 <= m <= n,
            n == o.len(),
            n <= ON_DEMAND_CACHE_LIMIT ==> m == 0 && !rotated,
            !rotated ==> order@ == o.skip(m) && (forall|i: int| 0 <= i < m ==> Some(o[i]) != keep),
            rotated ==> 0 <= p < m && p < n - ON_DEMAND_CACHE_LIMIT && Some(o[p]) == keep
                && order@ == o.skip(m).push(o[p]),
            order@.len() >= ON_DEMAND_CACHE_LIMIT || m == 0,
            spec_distinct_u64(o),
            spec_distinct_u64(order@),
            spec_distinct_u64(spec_preview_keys(preview@)),
            spec_items_sorted(orig_items),
            spec_items_sorted(items@),
            items@ == orig_items.filter(spec_item_not_in(spec_evicted_set(o, m, keep))),
            spec_preview_map(preview@) == orig_map.remove_keys(spec_evicted_set(o, m, keep)),
        decreases 2 * order@.len() - (if rotated {
            1int
        } else {
            0int
        }),
    {
        let ghost before = order@;
        let front = order.remove(0);
        proof {
            assert(order@ =~= before.skip(1));
            assert(front == o[m]);
            if rotated {
                assert(o[m] != o[p]);
            }
        }
        let is_keep = match keep {
            Some(k) => k == front,
            None => false,
        };
        if is_keep {
            order.push(front);
            proof {
                assert(!rotated);
                assert(spec_evicted_set(o, m + 1, keep) =~= spec_evicted_set(o, m, keep));
                p = m;
                m = m + 1;
                rotated = true;
                assert(order@ =~= o.skip(m).push(o[p]));
                assert forall|a: int, b: int| 0 <= a < b < order@.len() implies order@[a] != order@[b] by {
                    if b == order@.len() - 1 {
                        assert(order@[a] == o[m + a]);
                    } else {
                        assert(order@[a] == o[m + a] && order@[b] == o[m + b]);
                    }
                }
            }
        } else {
            let ghost items_before = items@;
            let ghost preview_before = preview@;
            retain_items_without(items, front);
            preview_remove(preview, front);
            proof {
                let ev = spec_evicted_set(o, m, keep);
                let ev2 = spec_evicted_set(o, m + 1, keep);
                assert(ev2 =~= ev.insert(front));
                let p1 = spec_item_not_in(ev);
                let q1 = spec_item_not_lba(front);
                let p2 = spec_item_not_in(ev2);
                lemma_filter_twice(orig_items, p1, q1);
                assert((|it: InspectSectorItem| p1(it) && q1(it)) =~= p2);
                assert(orig_map.remove_keys(ev).remove(front) =~= orig_map.remove_keys(ev2));
                lemma_filter_sorted(items_before, spec_item_not_lba(front));
                m = m + 1;
                if rotated {
                    assert(order@ =~= o.skip(m).push(o[p]));
                    assert forall|a: int, b: int| 0 <= a < b < order@.len() implies order@[a] != order@[b] by {
                        if b == order@.len() - 1 {
                            assert(order@[a] == o[m + a]);
                        } else {
                            assert(order@[a] == o[m + a] && order@[b] == o[m + b]);
                        }
                    }
                } else {
                    assert(order@ =~= o.skip(m));
                }
            }
        }
    }
    proof {
        let k = n - ON_DEMAND_CACHE_LIMIT;
        if n > ON_DEMAND_CACHE_LIMIT {
            if rotated {
                lemma_keep_pos(o, keep, p);
                assert(spec_keep_reached(o, keep));
                assert(m == k + 1);
            } else {
                assert(m == k);
                if exists|i: int| 0 <= i < o.len() && Some(o[i]) == keep {
                    let q = choose|i: int| 0 <= i < o.len() && Some(o[i]) == keep;
                    lemma_keep_pos(o, keep, q);
                    assert(q >= m);
                }
                assert(!spec_keep_reached(o, keep));
            }
        } else {
            assert(!spec_keep_reached(o, keep));
            assert(o.skip(0) =~= o);
        }
        assert(spec_popped(o, keep) == m);
    }
}

proof fn lemma_filter_true(s: Seq<InspectSectorItem>, ev: Set<u64>)
    requires
        ev =~= Set::<u64>::empty(),
    ensures
        s.filter(spec_item_not_in(ev)) == s,
    decreases s.len(),
{
    reveal(Seq::filter);
    if s.len() > 0 {
        lemma_filter_true(s.drop_last(), ev);
        assert(s.drop_last().push(s.last()) =~= s);
    }
}

proof fn lemma_filter_distinct(s: Seq<u64>, p: spec_fn(u64) -> bool)
    requires
        spec_distinct_u64(s),
    ensures
        spec_distinct_u64(s.filter(p)),
        forall|i: int| 0 <= i < s.filter(p).len() ==> p(#[trigger] s.filter(p)[i]),
        forall|i: int| 0 <= i < s.filter(p).len() ==> exists|j: int| 0 <= j < s.len() && s[j] == #[trigger] s.filter(p)[i],
    decreases s.len(),
{
    reveal(Seq::filter);
    if s.len() > 0 {
        let t = s.drop_last();
        lemma_filter_distinct(t, p);
        let r = t.filter(p);
        assert forall|i: int| 0 <= i < s.filter(p).len() implies exists|j: int| 0 <= j < s.len() && s[j] == #[trigger] s.filter(p)[i] by {
            if i < r.len() {
                let j = choose|j: int| 0 <= j < t.len() && t[j] == r[i];
                assert(s[j] == s.filter(p)[i]);
            } else {
                assert(s[s.len() - 1] == s.filter(p)[i]);
            }
        }
        assert forall|i: int| 0 <= i < s.filter(p).len() implies p(#[trigger] s.filter(p)[i]) by {
            if i < r.len() {
                assert(s.filter(p)[i] == r[i]);
            }
        }
        if p(s.last()) {
            let f = r.push(s.last());
            assert forall|a: int, b: int| 0 <= a < b < f.len() implies f[a] != f[b] by {
                if b < r.len() {
                    assert(f[a] == r[a] && f[b] == r[b]);
                } else {
                    let j = choose|j: int| 0 <= j < t.len() && t[j] == r[a];
                    assert(s[j] == t[j]);
                    assert(s[j] != s[s.len() - 1]);
                }
            }
        }
    }
}

/// The cache order after `lba` was (re)loaded: any earlier entry of it removed, and
/// it appended as the newest.
pub open spec fn spec_cache_touch(order: Seq<u64>, lba: u64) -> Seq<u64> {
    order.filter(spec_not_lba(lba)).push(lba)
}

pub open spec fn spec_item_pos(items: Seq<InspectSectorItem>, lba: u64) -> int {
    choose|i: int| 0 <= i < items.len() && (#[trigger] items[i]).lba == lba
}

/// Where an item at `lba` belongs among items sorted by LBA, none of them at `lba`.
pub open spec fn spec_insert_index(items: Seq<InspectSectorItem>, lba: u64) -> int {
    choose|k: int| #[trigger] spec_splits_at(items, lba, k)
}

/// Items before `k` lie below `lba`, items from `k` on lie above it.
pub open spec fn spec_splits_at(items: Seq<InspectSectorItem>, lba: u64, k: int) -> bool {
    &&& 0 <= k <= items.len()
    &&& forall|j: int| 0 <= j < k ==> (#[trigger] items[j]).lba < lba
    &&& forall|j: int| k <= j < items.len() ==> (#[trigger] items[j]).lba > lba
}

/// The workspace items with a loaded sector merged in: an item already at its LBA
/// is replaced (keeping the old metadata text when the new item has none); otherwise
/// the item is inserted in LBA order.
pub open spec fn spec_merge_item(items: Seq<InspectSectorItem>, it: InspectSectorItem) -> Seq<InspectSectorItem> {
    if exists|i: int| 0 <= i < items.len() && (#[trigger] items[i]).lba == it.lba {
        let i = spec_item_pos(items, it.lba);
        items.update(
            i,
            InspectSectorItem {
                meta_text: if it.meta_text is None {
                    items[i].meta_text
                } else {
                    it.meta_text
                },
                ..it
            },
        )
    } else {
        items.insert(spec_insert_index(items, it.lba), it)
    }
}

fn merge_item(items: &mut Vec<InspectSectorItem>, item: InspectSectorItem)
    requires
        spec_items_sorted(old(items)@),
    ensures
        spec_items_sorted(final(items)@),
        final(items)@ == spec_merge_item(old(items)@, item),
{
    let ghost orig = items@;
    match crate::sector::find_item(items, item.lba) {
        Some(i) => {
            proof {
                let q = spec_item_pos(orig, item.lba);
                if q < i {
                    assert(orig[q].lba < orig[i as int].lba);
                } else if i < q {
                    assert(orig[i as int].lba < orig[q].lba);
                }
            }
            let mut item = item;
            if item.meta_text.is_none() {
                item.meta_text = crate::state::copy_opt_string(&items[i].meta_text);
            }
            items.set(i, item);
            proof {
                assert(items@ =~= spec_merge_item(orig, item));
            }
        },
        None => {
            let mut k: usize = 0;
            while k < items.len() && items[k].lba < item.lba
                invariant
                    k <= items@.len(),
                    items@ == orig,
                    forall|j: int| 0 <= j < k ==> (#[trigger] items@[j]).lba < item.lba,
                decreases items@.len() - k,
            {
                k = k + 1;
            }
            proof {
                assert forall|j: int| k <= j < orig.len() implies (#[trigger] orig[j]).lba > item.lba by {
                    assert(orig[j].lba != item.lba);
                    if j > k {
                        assert(orig[k as int].lba < orig[j].lba);
                    }
                }
                assert(spec_splits_at(orig, item.lba, k as int));
                let q = spec_insert_index(orig, item.lba);
                if q < k {
                    assert(orig[q].lba > item.lba);
                } else if k < q {
                    assert(orig[k as int].lba < item.lba);
                }
            }
            items.insert(k, item);
            proof {
                assert(items@ =~= spec_merge_item(orig, item));
                assert forall|a: int, b: int| 0 <= a < b < items@.len() implies (#[trigger] items@[a]).lba < (#[trigger] items@[b]).lba by {
                    if b < k {
                    } else if b == k {
                    } else if a < k {
                        assert(items@[b] == orig[b - 1]);
                    } else if a == k {
                        assert(items@[b] == orig[b - 1]);
                    } else {
                        assert(items@[a] == orig[a - 1] && items@[b] == orig[b - 1]);
                    }
                }
            }
        },
    }
}

/// Attempts carried into a failed load: those of the load under way, else one.
pub open spec fn spec_failed_attempts(st: Option<PreviewLoadState>) -> u32 {
    match st {
        Some(PreviewLoadState::Pending { attempts }) => attempts,
        Some(PreviewLoadState::Failed { attempts, .. }) => attempts,
        _ => 1,
    }
}

/// What finishing the load of sector `lba` with `result` does to the Inspect state.
pub open spec fn spec_sector_finished(
    a: AdvancedInspectState,
    b: AdvancedInspectState,
    lba: u64,
    result: Result<InspectSectorItem, String>,
    metadata_sectors: u64,
) -> bool {
    match result {
        Ok(item) => {
            let touched = a.result is Some && lba >= metadata_sectors;
            let order1 = spec_cache_touch(a.sector_cache_order@, lba);
            let keep = match a.sector {
                Some(s) => Some(s.lba),
                None => None,
            };
            let ev = if touched {
                spec_evicted(order1, keep)
            } else {
                Set::<u64>::empty()
            };
            &&& b == (AdvancedInspectState {
                preview_load: b.preview_load,
                result: b.result,
                sector_cache_order: b.sector_cache_order,
                tree_revision: b.tree_revision,
                sector: b.sector,
                ..a
            })
            &&& spec_preview_map(b.preview_load@) == spec_preview_map(a.preview_load@).insert(
                lba,
                PreviewLoadState::Ready,
            ).remove_keys(ev)
            &&& match a.result {
                None => b.result is None && b.tree_revision == a.tree_revision && b.sector_cache_order
                    == a.sector_cache_order,
                Some(w) => {
                    &&& b.result matches Some(w2) && w2.total_sectors == w.total_sectors
                        && w2.items@ == spec_merge_item(w.items@, item).filter(spec_item_not_in(ev))
                    &&& b.tree_revision == (if a.tree_revision == u64::MAX {
                        0
                    } else {
                        (a.tree_revision + 1) as u64
                    })
                    &&& b.sector_cache_order@ == if lba >= metadata_sectors {
                        spec_cache_after(order1, keep)
                    } else {
                        a.sector_cache_order@
                    }
                },
            }
            &&& b.sector == match a.sector {
                Some(sec) => if sec.lba == lba {
                    Some(
                        SectorInspectorState {
                            pending: false,
                            error: if a.result is Some {
                                item.decode_error
                            } else {
                                None
                            },
                            ..sec
                        },
                    )
                } else {
                    a.sector
                },
                None => None,
            }
        },
        Err(message) => {
            &&& b == (AdvancedInspectState { preview_load: b.preview_load, sector: b.sector, ..a })
            &&& spec_preview_map(b.preview_load@) == spec_preview_map(a.preview_load@).insert(
                lba,
                PreviewLoadState::Failed {
                    message,
                    attempts: spec_failed_attempts(spec_preview_get(a, lba)),
                },
            )
            &&& b.sector == match a.sector {
                Some(sec) => if sec.lba == lba {
                    Some(SectorInspectorState { pending: false, error: Some(message), ..sec })
                } else {
                    a.sector
                },
                None => None,
            }
        },
    }
}

fn sector_finish_in(
    state: &mut AdvancedInspectState,
    lba: u64,
    result: Result<InspectSectorItem, String>,
    metadata_sectors: u64,
)
    requires
        old(state).wf(),
        result matches Ok(item) ==> item.lba == lba,
    ensures
        final(state).wf(),
        spec_sector_finished(*old(state), *final(state), lba, result, metadata_sectors),
{
    let ghost a = *state;
    let keep = match &state.sector {
        Some(s) => Some(s.lba),
        None => None,
    };
    match result {
        Ok(item) => {
            preview_insert(&mut state.preview_load, lba, PreviewLoadState::Ready);
            let has_result = state.result.is_some();
            let error = if has_result {
                crate::state::copy_opt_string(&item.decode_error)
            } else {
                None
            };
            let mut taken = state.result.take();
            if let Some(workspace) = &mut taken {
                merge_item(&mut workspace.items, item);
                if lba >= metadata_sectors {
                    let ghost order0 = state.sector_cache_order@;
                    assert(order0 == a.sector_cache_order@);
                    retain_order_without(&mut state.sector_cache_order, lba);

                    proof {
                        lemma_filter_distinct(order0, spec_not_lba(lba));
                    }
                    state.sector_cache_order.push(lba);
                    proof {
                        let f = order0.filter(spec_not_lba(lba));
                        assert(state.sector_cache_order@ == f.push(lba));
                        assert forall|i: int, j: int| 0 <= i < j < state.sector_cache_order@.len() implies state.sector_cache_order@[i] != state.sector_cache_order@[j] by {
                            if j == f.len() {
                                assert(spec_not_lba(lba)(f[i]));
                            } else {
                                assert(state.sector_cache_order@[i] == f[i]);
                            }
                        }
                    }
                    let ghost order1 = state.sector_cache_order@;
                    let ghost merged = workspace.items@;
                    assert(order1 =~= spec_cache_touch(a.sector_cache_order@, lba));
                    assert(keep == match a.sector {
                        Some(s) => Some(s.lba),
                        None => None,
                    });
                    evict_cache(&mut state.sector_cache_order, &mut workspace.items, &mut state.preview_load, keep);

                } else {
                    proof {
                        lemma_filter_true(workspace.items@, Set::<u64>::empty());
                        assert(spec_preview_map(state.preview_load@).remove_keys(Set::<u64>::empty()) =~= spec_preview_map(state.preview_load@));
                    }
                }
                state.tree_revision = state.tree_revision.wrapping_add(1);
            } else {
                proof {
                    assert(spec_preview_map(state.preview_load@).remove_keys(Set::<u64>::empty()) =~= spec_preview_map(state.preview_load@));
                }
            }
            state.result = taken;
            if let Some(sector) = &mut state.sector {
                if sector.lba == lba {
                    sector.pending = false;
                    sector.error = error;
                }
            }
            proof {
                let touched = a.result is Some && lba >= metadata_sectors;
                let order1 = spec_cache_touch(a.sector_cache_order@, lba);
                let ev = if touched {
                    spec_evicted(order1, keep)
                } else {
                    Set::<u64>::empty()
                };
                assert(spec_preview_map(state.preview_load@) == spec_preview_map(a.preview_load@).insert(
                    lba,
                    PreviewLoadState::Ready,
                ).remove_keys(ev));
                assert(*state == (AdvancedInspectState {
                    preview_load: state.preview_load,
                    result: state.result,
                    sector_cache_order: state.sector_cache_order,
                    tree_revision: state.tree_revision,
                    sector: state.sector,
                    ..a
                }));
            }
        },
        Err(message) => {
            let attempts: u32 = match preview_find(&state.preview_load, lba) {
                Some(i) => match &state.preview_load[i].1 {
                    PreviewLoadState::Pending { attempts } => *attempts,
                    PreviewLoadState::Failed { attempts, .. } => *attempts,
                    _ => 1,
                },
                None => 1,
            };
            preview_insert(
                &mut state.preview_load,
                lba,
                PreviewLoadState::Failed { message: message.clone(), attempts },
            );
            if let Some(sector) = &mut state.sector {
                if sector.lba == lba {
                    sector.pending = false;
                    sector.error = Some(message);
                }
            }
        },
    }
}

impl AppState {
    /// Take the result of loading sector `lba`: merge it into the workspace and the
    /// on-demand cache (only sectors from `metadata_sectors` on count against the
    /// cache limit), or record the failure; update the sector inspector if it shows
    /// that sector.
    pub fn advanced_inspect_sector_finish(
        &mut self,
        lba: u64,
        result: Result<InspectSectorItem, String>,
        metadata_sectors: u64,
    )
        requires
            old(self).wf(),
            result matches Ok(item) ==> item.lba == lba,
        ensures
            final(self).wf(),
            spec_inspect_only(*old(self), *final(self)),
            old(self).advanced_inspect is None ==> *final(self) == *old(self),
            old(self).advanced_inspect matches Some(a) ==> spec_sector_finished(
                a,
                final(self).advanced_inspect->Some_0,
                lba,
                result,
                metadata_sectors,
            ),
    {
        let mut taken = self.advanced_inspect.take();
        if let Some(state) = &mut taken {
            sector_finish_in(state, lba, result, metadata_sectors);
        }
        self.advanced_inspect = taken;
    }
}

} // verus!
