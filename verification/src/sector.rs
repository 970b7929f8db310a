//! The sector inspector: cursor movement, preview and decode loading, the bounded
//! cache of on-demand sectors, and yanking values into the register.

use vstd::prelude::*;
use crate::inspect::{
    AdvancedInspectSource, AdvancedInspectState, AdvancedInspectPanel, InspectField,
    InspectSectorItem, PreviewLoadState, SectorInspectMode, SectorInspectorState,
    spec_distinct_u64, spec_hex_char, spec_hex_text, spec_inspect_only, spec_items_sorted,
    spec_pane_panel, spec_preview_keys, inspect_hex, SECTOR,
};
use crate::state::{AppState, spec_frame_wf};
use crate::text::{concat, string_push};

verus! {

/// Last byte index inside a sector.
pub const SECTOR_LAST: usize = 511;

pub open spec fn spec_field_contains(f: InspectField, abs: int) -> bool {
    f.range_start <= abs && abs < f.range_end_exclusive
}

/// Two fields with the same label, value, range and raw bytes.
pub open spec fn spec_field_same(a: InspectField, b: InspectField) -> bool {
    &&& a.label@ == b.label@
    &&& a.value@ == b.value@
    &&& a.range_start == b.range_start
    &&& a.range_end_exclusive == b.range_end_exclusive
    &&& a.raw@ == b.raw@
}

pub fn copy_bytes(v: &Vec<u8>) -> (r: Vec<u8>)
    ensures
        r@ == v@,
{
    let mut out: Vec<u8> = Vec::new();
    let mut i: usize = 0;
    while i < v.len()
        invariant
            i <= v.len(),
            out@ == v@.take(i as int),
        decreases v.len() - i,
    {
        out.push(v[i]);
        i = i + 1;
        assert(out@ =~= v@.take(i as int));
    }
    assert(v@.take(v.len() as int) =~= v@);
    out
}

impl InspectField {
    /// A copy with the same label, value, range and bytes.
    pub fn copy(&self) -> (r: Self)
        ensures
            spec_field_same(r, *self),
    {
        InspectField {
            label: self.label.clone(),
            value: self.value.clone(),
            range_start: self.range_start,
            range_end_exclusive: self.range_end_exclusive,
            raw: copy_bytes(&self.raw),
        }
    }
}

impl PreviewLoadState {
    /// An equal copy.
    pub fn copy(&self) -> (r: Self)
        ensures
            r == *self,
    {
        match self {
            PreviewLoadState::Idle => PreviewLoadState::Idle,
            PreviewLoadState::Pending { attempts } => PreviewLoadState::Pending { attempts: *attempts },
            PreviewLoadState::Ready => PreviewLoadState::Ready,
            PreviewLoadState::Failed { message, attempts } => PreviewLoadState::Failed {
                message: message.clone(),
                attempts: *attempts,
            },
        }
    }
}

// ----- preview states, keyed by LBA -----

pub open spec fn spec_preview_has(v: Seq<(u64, PreviewLoadState)>, lba: u64) -> bool {
    exists|i: int| 0 <= i < v.len() && (#[trigger] v[i]).0 == lba
}

pub open spec fn spec_preview_index(v: Seq<(u64, PreviewLoadState)>, lba: u64) -> int {
    choose|i: int| 0 <= i < v.len() && (#[trigger] v[i]).0 == lba
}

/// The preview states as a map from LBA.
pub open spec fn spec_preview_map(v: Seq<(u64, PreviewLoadState)>) -> Map<u64, PreviewLoadState> {
    Map::new(|k: u64| spec_preview_has(v, k), |k: u64| v[spec_preview_index(v, k)].1)
}

proof fn lemma_preview_index_unique(v: Seq<(u64, PreviewLoadState)>, lba: u64, i: int)
    requires
        spec_distinct_u64(spec_preview_keys(v)),
        0 <= i < v.len(),
        v[i].0 == lba,
    ensures
        spec_preview_has(v, lba),
        spec_preview_index(v, lba) == i,
{
    let j = spec_preview_index(v, lba);
    assert(spec_preview_keys(v)[i] == v[i].0);
    assert(spec_preview_keys(v)[j] == v[j].0);
    if i < j {
        assert(spec_preview_keys(v)[i] != spec_preview_keys(v)[j]);
    } else if j < i {
        assert(spec_preview_keys(v)[j] != spec_preview_keys(v)[i]);
    }
}

pub fn preview_find(v: &Vec<(u64, PreviewLoadState)>, lba: u64) -> (r: Option<usize>)
    requires
        spec_distinct_u64(spec_preview_keys(v@)),
    ensures
        r matches Some(i) ==> i < v@.len() && v@[i as int].0 == lba && spec_preview_has(v@, lba)
            && spec_preview_index(v@, lba) == i,
        r is None <==> !spec_preview_has(v@, lba),
{
    let mut i: usize = 0;
    while i < v.len()
        invariant
            i <= v.len(),
            spec_distinct_u64(spec_preview_keys(v@)),
            forall|j: int| 0 <= j < i ==> (#[trigger] v@[j]).0 != lba,
        decreases v.len() - i,
    {
        if v[i].0 == lba {
            proof {
                lemma_preview_index_unique(v@, lba, i as int);
            }
            return Some(i);
        }
        i = i + 1;
    }
    None
}

/// Set the preview state of `lba`, replacing any earlier one.
pub fn preview_insert(v: &mut Vec<(u64, PreviewLoadState)>, lba: u64, st: PreviewLoadState)
    requires
        spec_distinct_u64(spec_preview_keys(old(v)@)),
    ensures
        spec_distinct_u64(spec_preview_keys(final(v)@)),
        spec_preview_map(final(v)@) == spec_preview_map(old(v)@).insert(lba, st),
{
    let found = preview_find(v, lba);
    let ghost before = v@;
    match found {
        Some(i) => {
            v.set(i, (lba, st));
        },
        None => {
            v.push((lba, st));
        },
    }
    proof {
        let after = v@;
        assert(spec_preview_keys(after) =~= match found {
            Some(i) => spec_preview_keys(before),
            None => spec_preview_keys(before).push(lba),
        });
        assert forall|k: u64| #[trigger] spec_preview_has(after, k) <==> (spec_preview_has(before, k) || k == lba) by {
            if spec_preview_has(before, k) {
                let j = spec_preview_index(before, k);
                assert(after[j].0 == k);
            }
            if spec_preview_has(after, k) {
                let j = spec_preview_index(after, k);
                if j < before.len() && k != lba {
                    assert(before[j].0 == k);
                }
            }
            if k == lba {
                match found {
                    Some(i) => assert(after[i as int].0 == k),
                    None => assert(after[before.len() as int].0 == k),
                }
            }
        }
        assert forall|k: u64| #[trigger] spec_preview_has(after, k) implies after[spec_preview_index(
            after,
            k,
        )].1 == spec_preview_map(before).insert(lba, st)[k] by {
            let j = spec_preview_index(after, k);
            lemma_preview_index_unique(after, k, j);
            if k == lba {
                match found {
                    Some(i) => {
                        lemma_preview_index_unique(after, k, i as int);
                    },
                    None => {
                        lemma_preview_index_unique(after, k, before.len() as int);
                    },
                }
            } else {
                assert(before[j].0 == k);
                lemma_preview_index_unique(before, k, j);
            }
        }
        assert(spec_preview_map(after) =~= spec_preview_map(before).insert(lba, st));
    }
}

/// Forget the preview state of `lba`.
pub fn preview_remove(v: &mut Vec<(u64, PreviewLoadState)>, lba: u64)
    requires
        spec_distinct_u64(spec_preview_keys(old(v)@)),
    ensures
        spec_distinct_u64(spec_preview_keys(final(v)@)),
        spec_preview_map(final(v)@) == spec_preview_map(old(v)@).remove(lba),
{
    let found = preview_find(v, lba);
    let ghost before = v@;
    if let Some(i) = found {
        v.remove(i);
        proof {
            let after = v@;
            assert(spec_preview_keys(after) =~= spec_preview_keys(before).remove(i as int));
            assert forall|k: u64| #[trigger] spec_preview_has(after, k) <==> (spec_preview_has(before, k) && k != lba) by {
                if spec_preview_has(before, k) && k != lba {
                    let j = spec_preview_index(before, k);
                    if j < i {
                        assert(after[j].0 == k);
                    } else {
                        assert(j != i);
                        assert(after[j - 1].0 == k);
                    }
                }
                if spec_preview_has(after, k) {
                    let j = spec_preview_index(after, k);
                    if j < i {
                        assert(before[j].0 == k);
                        if k == lba {
                            lemma_preview_index_unique(before, k, j);
                        }
                    } else {
                        assert(before[j + 1].0 == k);
                        if k == lba {
                            lemma_preview_index_unique(before, k, j + 1);
                        }
                    }
                }
            }
            assert forall|k: u64| #[trigger] spec_preview_has(after, k) implies after[spec_preview_index(
                after,
                k,
            )].1 == spec_preview_map(before)[k] by {
                let j = spec_preview_index(after, k);
                if j < i {
                    lemma_preview_index_unique(before, k, j);
                } else {
                    lemma_preview_index_unique(before, k, j + 1);
                }
            }
            assert(spec_preview_map(after) =~= spec_preview_map(before).remove(lba));
        }
    } else {
        assert(spec_preview_map(v@) =~= spec_preview_map(before).remove(lba));
    }
}

// ----- sector items -----

pub open spec fn spec_item_ready(it: InspectSectorItem) -> bool {
    it.decoded is Some || it.decode_error is Some
}

/// Some item at `lba` has been decoded or failed to decode.
pub open spec fn spec_has_ready(items: Seq<InspectSectorItem>, lba: u64) -> bool {
    exists|i: int| 0 <= i < items.len() && (#[trigger] items[i]).lba == lba && spec_item_ready(items[i])
}

fn any_ready(items: &Vec<InspectSectorItem>, lba: u64) -> (r: bool)
    ensures
        r == spec_has_ready(items@, lba),
{
    let mut i: usize = 0;
    while i < items.len()
        invariant
            i <= items.len(),
            forall|j: int| 0 <= j < i ==> !((#[trigger] items@[j]).lba == lba && spec_item_ready(items@[j])),
        decreases items.len() - i,
    {
        let it = &items[i];
        if it.lba == lba && (it.decoded.is_some() || it.decode_error.is_some()) {
            return true;
        }
        i = i + 1;
    }
    false
}

/// Index of the first item at `lba`.
pub fn find_item(items: &Vec<InspectSectorItem>, lba: u64) -> (r: Option<usize>)
    ensures
        r matches Some(i) ==> i < items@.len() && items@[i as int].lba == lba && forall|j: int|
            0 <= j < i ==> (#[trigger] items@[j]).lba != lba,
        r is None ==> forall|j: int| 0 <= j < items@.len() ==> (#[trigger] items@[j]).lba != lba,
{
    let mut i: usize = 0;
    while i < items.len()
        invariant
            i <= items.len(),
            forall|j: int| 0 <= j < i ==> (#[trigger] items@[j]).lba != lba,
        decreases items.len() - i,
    {
        if items[i].lba == lba {
            return Some(i);
        }
        i = i + 1;
    }
    None
}

/// Index of the first field whose byte range holds `abs`.
fn find_field(fields: &Vec<InspectField>, abs: u64) -> (r: Option<usize>)
    ensures
        r matches Some(i) ==> i < fields@.len() && spec_field_contains(fields@[i as int], abs as int)
            && forall|j: int| 0 <= j < i ==> !spec_field_contains(#[trigger] fields@[j], abs as int),
        r is None ==> forall|j: int|
            0 <= j < fields@.len() ==> !spec_field_contains(#[trigger] fields@[j], abs as int),
{
    let mut i: usize = 0;
    while i < fields.len()
        invariant
            i <= fields.len(),
            forall|j: int| 0 <= j < i ==> !spec_field_contains(#[trigger] fields@[j], abs as int),
        decreases fields.len() - i,
    {
        if fields[i].range_start <= abs && abs < fields[i].range_end_exclusive {
            return Some(i);
        }
        i = i + 1;
    }
    None
}

// ----- the sector inspector on AppState -----

pub open spec fn spec_sector_of(s: AppState) -> Option<SectorInspectorState> {
    match s.advanced_inspect {
        Some(a) => a.sector,
        None => None,
    }
}

/// `new` is `old` with its sector inspector closed and the tree position saved when it
/// opened restored.
pub open spec fn spec_sector_closed(old: AppState, new: AppState) -> bool {
    ({
        let a = old.advanced_inspect->Some_0;
        let b = new.advanced_inspect->Some_0;
        let frames = old.navigation.spec_frames();
        &&& new == (AppState {
            advanced_inspect: new.advanced_inspect,
            navigation: new.navigation,
            ..old
        })
        &&& new.advanced_inspect is Some
        &&& frames.len() == 0 ==> b == (AdvancedInspectState { sector: None, ..a })
            && new.navigation.spec_frames() == frames
        &&& frames.len() > 0 ==> ({
            let f = frames.last();
            let panel = match f.panel {
                Some(p) => p,
                None => AdvancedInspectPanel::Tree,
            };
            &&& new.navigation.spec_frames() == frames.drop_last()
            &&& b == (AdvancedInspectState {
                sector: None,
                tree_selected: f.tree_selection,
                pane_focus: b.pane_focus,
                panel: b.panel,
                ..a
            })
            &&& (f.pane_focus is None ==> b.pane_focus == a.pane_focus && b.panel == panel)
            &&& (f.pane_focus matches Some(pf) ==> b.pane_focus == pf && b.panel == match spec_pane_panel(pf.spec_focused()) {
                Some(p) => p,
                None => panel,
            })
        })
    })
}

/// `s` with its sector inspector replaced by `sec`.
pub open spec fn spec_with_sector(s: AppState, sec: SectorInspectorState) -> AppState {
    AppState {
        advanced_inspect: Some(
            AdvancedInspectState { sector: Some(sec), ..s.advanced_inspect->Some_0 },
        ),
        ..s
    }
}

/// The cursor moved to `cursor` (clamped into the sector), dropping the pinned field.
pub open spec fn spec_cursor_set(sec: SectorInspectorState, cursor: int) -> SectorInspectorState {
    SectorInspectorState {
        cursor: (if cursor < SECTOR_LAST {
            cursor
        } else {
            SECTOR_LAST as int
        }) as usize,
        pinned_field: None,
        field_expanded: false,
        ..sec
    }
}

/// The absolute byte offset under the cursor.
pub open spec fn spec_cursor_abs(sec: SectorInspectorState) -> int {
    sec.lba * (SECTOR as int) + sec.cursor
}

/// The field under the cursor: the pinned field if it still covers the cursor, else
/// the first decoded field of the sector that does.
pub open spec fn spec_active_field(a: AdvancedInspectState) -> Option<InspectField> {
    match a.sector {
        None => None,
        Some(sec) => {
            let abs = spec_cursor_abs(sec);
            if abs > u64::MAX {
                None
            } else if sec.pinned_field matches Some(f) && spec_field_contains(f, abs) {
                sec.pinned_field
            } else {
                match a.result {
                    None => None,
                    Some(w) => {
                        if exists|i: int| 0 <= i < w.items@.len() && (#[trigger] w.items@[i]).lba == sec.lba {
                            let i = choose|i: int| 0 <= i < w.items@.len() && (#[trigger] w.items@[i]).lba == sec.lba;
                            let fields = w.items@[i].fields@;
                            if exists|k: int| 0 <= k < fields.len() && spec_field_contains(#[trigger] fields[k], abs) {
                                let k = choose|k: int|
                                    0 <= k < fields.len() && spec_field_contains(#[trigger] fields[k], abs) && forall|j: int|
                                        0 <= j < k ==> !spec_field_contains(#[trigger] fields[j], abs);
                                Some(fields[k])
                            } else {
                                None
                            }
                        } else {
                            None
                        }
                    },
                }
            }
        },
    }
}

impl AppState {
    pub fn advanced_inspect_sector(&self) -> (r: Option<&SectorInspectorState>)
        ensures
            spec_sector_of(*self) is None ==> r is None,
            spec_sector_of(*self) matches Some(s) ==> (r matches Some(x) && *x == s),
    {
        match &self.advanced_inspect {
            Some(a) => match &a.sector {
                Some(s) => Some(s),
                None => None,
            },
            None => None,
        }
    }

    /// Move the cursor to `cursor` (at most the last byte) and unpin the field.
    pub fn advanced_inspect_sector_set_cursor(&mut self, cursor: usize)
        requires
            old(self).wf(),
        ensures
            final(self).wf(),
            spec_sector_of(*old(self)) is None ==> *final(self) == *old(self),
            spec_sector_of(*old(self)) matches Some(sec) ==> *final(self) == spec_with_sector(
                *old(self),
                spec_cursor_set(sec, cursor as int),
            ),
    {
        if let Some(state) = &mut self.advanced_inspect {
            if let Some(sector) = &mut state.sector {
                sector.cursor = if cursor < SECTOR_LAST {
                    cursor
                } else {
                    SECTOR_LAST
                };
                sector.pinned_field = None;
                sector.field_expanded = false;
            }
        }
    }

    /// Move the cursor to the first byte of its 16-byte row.
    pub fn advanced_inspect_sector_row_start(&mut self)
        requires
            old(self).wf(),
        ensures
            final(self).wf(),
            spec_sector_of(*old(self)) is None ==> *final(self) == *old(self),
            spec_sector_of(*old(self)) matches Some(sec) ==> *final(self) == spec_with_sector(
                *old(self),
                spec_cursor_set(sec, (sec.cursor / 16) * 16),
            ),
    {
        let cursor = match self.advanced_inspect_sector() {
            Some(s) => s.cursor,
            None => return ,
        };
        self.advanced_inspect_sector_set_cursor((cursor / 16) * 16);
    }

    /// Move the cursor to the last byte of its 16-byte row.
    pub fn advanced_inspect_sector_row_end(&mut self)
        requires
            old(self).wf(),
        ensures
            final(self).wf(),
            spec_sector_of(*old(self)) is None ==> *final(self) == *old(self),
            spec_sector_of(*old(self)) matches Some(sec) ==> *final(self) == spec_with_sector(
                *old(self),
                spec_cursor_set(sec, (sec.cursor / 16) * 16 + 15),
            ),
    {
        let cursor = match self.advanced_inspect_sector() {
            Some(s) => s.cursor,
            None => return ,
        };
        let row = cursor / 16;
        let end = if row < 32 {
            row * 16 + 15
        } else {
            SECTOR_LAST
        };
        self.advanced_inspect_sector_set_cursor(end);
    }

    pub fn advanced_inspect_sector_top(&mut self)
        requires
            old(self).wf(),
        ensures
            final(self).wf(),
            spec_sector_of(*old(self)) is None ==> *final(self) == *old(self),
            spec_sector_of(*old(self)) matches Some(sec) ==> *final(self) == spec_with_sector(
                *old(self),
                spec_cursor_set(sec, 0),
            ),
    {
        self.advanced_inspect_sector_set_cursor(0);
    }

    pub fn advanced_inspect_sector_bottom(&mut self)
        requires
            old(self).wf(),
        ensures
            final(self).wf(),
            spec_sector_of(*old(self)) is None ==> *final(self) == *old(self),
            spec_sector_of(*old(self)) matches Some(sec) ==> *final(self) == spec_with_sector(
                *old(self),
                spec_cursor_set(sec, SECTOR_LAST as int),
            ),
    {
        self.advanced_inspect_sector_set_cursor(SECTOR_LAST);
    }

    /// Move the cursor by `delta` bytes, stopping at either end of the sector.
    pub fn advanced_inspect_sector_move_cursor(&mut self, delta: isize)
        requires
            old(self).wf(),
        ensures
            final(self).wf(),
            spec_sector_of(*old(self)) is None ==> *final(self) == *old(self),
            spec_sector_of(*old(self)) matches Some(sec) ==> *final(self) == spec_with_sector(
                *old(self),
                spec_cursor_set(
                    sec,
                    if sec.cursor + delta < 0 {
                        0
                    } else {
                        sec.cursor + delta
                    },
                ),
            ),
    {
        if let Some(state) = &mut self.advanced_inspect {
            if let Some(sector) = &mut state.sector {
                let m = crate::pane::unsigned_magnitude(delta);
                sector.cursor = if delta < 0 {
                    if sector.cursor >= m {
                        sector.cursor - m
                    } else {
                        0
                    }
                } else if m >= SECTOR_LAST || sector.cursor >= SECTOR_LAST - m {
                    SECTOR_LAST
                } else {
                    sector.cursor + m
                };
                sector.pinned_field = None;
                sector.field_expanded = false;
            }
        }
    }

    /// Move half a sector (128 bytes) up or down.
    pub fn advanced_inspect_sector_half_page(&mut self, up: bool)
        requires
            old(self).wf(),
        ensures
            final(self).wf(),
            spec_sector_of(*old(self)) is None ==> *final(self) == *old(self),
            spec_sector_of(*old(self)) matches Some(sec) ==> *final(self) == spec_with_sector(
                *old(self),
                spec_cursor_set(
                    sec,
                    if up {
                        if sec.cursor < 128 {
                            0
                        } else {
                            sec.cursor - 128
                        }
                    } else {
                        sec.cursor + 128
                    },
                ),
            ),
    {
        self.advanced_inspect_sector_move_cursor(
            if up {
                -128
            } else {
                128
            },
        );
    }

    /// Move a whole screen of the sector (256 bytes) up or down.
    pub fn advanced_inspect_sector_page(&mut self, up: bool)
        requires
            old(self).wf(),
        ensures
            final(self).wf(),
            spec_sector_of(*old(self)) is None ==> *final(self) == *old(self),
            spec_sector_of(*old(self)) matches Some(sec) ==> *final(self) == spec_with_sector(
                *old(self),
                spec_cursor_set(
                    sec,
                    if up {
                        if sec.cursor < 256 {
                            0
                        } else {
                            sec.cursor - 256
                        }
                    } else {
                        sec.cursor + 256
                    },
                ),
            ),
    {
        self.advanced_inspect_sector_move_cursor(
            if up {
                -256
            } else {
                256
            },
        );
    }

    pub fn advanced_inspect_sector_set_mode(&mut self, mode: SectorInspectMode)
        requires
            old(self).wf(),
        ensures
            final(self).wf(),
            spec_sector_of(*old(self)) is None ==> *final(self) == *old(self),
            spec_sector_of(*old(self)) matches Some(sec) ==> *final(self) == spec_with_sector(
                *old(self),
                SectorInspectorState { mode, ..sec },
            ),
    {
        if let Some(state) = &mut self.advanced_inspect {
            if let Some(sector) = &mut state.sector {
                sector.mode = mode;
            }
        }
    }

    /// Raw, then Decode, then Mixed, then Raw again.
    pub fn advanced_inspect_sector_cycle_mode(&mut self)
        requires
            old(self).wf(),
        ensures
            final(self).wf(),
            spec_sector_of(*old(self)) is None ==> *final(self) == *old(self),
            spec_sector_of(*old(self)) matches Some(sec) ==> *final(self) == spec_with_sector(
                *old(self),
                SectorInspectorState {
                    mode: match sec.mode {
                        SectorInspectMode::Raw => SectorInspectMode::Decode,
                        SectorInspectMode::Decode => SectorInspectMode::Mixed,
                        SectorInspectMode::Mixed => SectorInspectMode::Raw,
                    },
                    ..sec
                },
            ),
    {
        if let Some(state) = &mut self.advanced_inspect {
            if let Some(sector) = &mut state.sector {
                sector.mode = match sector.mode {
                    SectorInspectMode::Raw => SectorInspectMode::Decode,
                    SectorInspectMode::Decode => SectorInspectMode::Mixed,
                    SectorInspectMode::Mixed => SectorInspectMode::Raw,
                };
            }
        }
    }

    pub fn advanced_inspect_sector_toggle_field(&mut self)
        requires
            old(self).wf(),
        ensures
            final(self).wf(),
            spec_sector_of(*old(self)) is None ==> *final(self) == *old(self),
            spec_sector_of(*old(self)) matches Some(sec) ==> *final(self) == spec_with_sector(
                *old(self),
                SectorInspectorState { field_expanded: !sec.field_expanded, ..sec },
            ),
    {
        if let Some(state) = &mut self.advanced_inspect {
            if let Some(sector) = &mut state.sector {
                sector.field_expanded = !sector.field_expanded;
            }
        }
    }

    pub fn advanced_inspect_yank_register(&self) -> (r: Option<&str>)
        ensures
            (self.advanced_inspect matches Some(a) && a.yank_register is Some) ==> (r matches Some(x)
                && x@ == self.advanced_inspect->Some_0.yank_register->Some_0@),
            !(self.advanced_inspect matches Some(a) && a.yank_register is Some) ==> r is None,
    {
        match &self.advanced_inspect {
            Some(a) => match &a.yank_register {
                Some(s) => Some(s.as_str()),
                None => None,
            },
            None => None,
        }
    }
}

/// The preview state of `lba`: the recorded one, else idle.
pub open spec fn spec_preview_state(s: AppState, lba: u64) -> PreviewLoadState {
    match s.advanced_inspect {
        Some(a) => if spec_preview_map(a.preview_load@).contains_key(lba) {
            spec_preview_map(a.preview_load@)[lba]
        } else {
            PreviewLoadState::Idle
        },
        None => PreviewLoadState::Idle,
    }
}

/// Attempts counted for a new load of a sector whose preview state is `st`.
pub open spec fn spec_next_attempts(st: Option<PreviewLoadState>) -> u32 {
    match st {
        Some(PreviewLoadState::Pending { attempts }) => if attempts == u32::MAX {
            attempts
        } else {
            (attempts + 1) as u32
        },
        Some(PreviewLoadState::Failed { attempts, .. }) => if attempts == u32::MAX {
            attempts
        } else {
            (attempts + 1) as u32
        },
        _ => 1,
    }
}

pub open spec fn spec_preview_get(a: AdvancedInspectState, lba: u64) -> Option<PreviewLoadState> {
    if spec_preview_map(a.preview_load@).contains_key(lba) {
        Some(spec_preview_map(a.preview_load@)[lba])
    } else {
        None
    }
}

/// The byte under the cursor, when the sector's bytes are loaded.
pub open spec fn spec_cursor_byte(a: AdvancedInspectState) -> Option<u8> {
    match (a.sector, a.result) {
        (Some(sec), Some(w)) => if exists|i: int| 0 <= i < w.items@.len() && (#[trigger] w.items@[i]).lba == sec.lba {
            let i = choose|i: int| 0 <= i < w.items@.len() && (#[trigger] w.items@[i]).lba == sec.lba;
            if sec.cursor < w.items@[i].raw@.len() {
                Some(w.items@[i].raw@[sec.cursor as int])
            } else {
                None
            }
        } else {
            None
        },
        _ => None,
    }
}

/// What a yank copies: the active field's bytes in hex (`raw_range`) or its
/// `label = value` line, else the byte under the cursor as `0xNN`.
pub open spec fn spec_yank_text(a: AdvancedInspectState, raw_range: bool) -> Option<Seq<char>> {
    match spec_active_field(a) {
        Some(f) => Some(
            if raw_range {
                spec_hex_text(f.raw@)
            } else {
                f.label@ + " = "@ + f.value@
            },
        ),
        None => match spec_cursor_byte(a) {
            Some(b) => Some(
                "0x"@ + seq![spec_hex_char((b / 16) as nat), spec_hex_char((b % 16) as nat)],
            ),
            None => None,
        },
    }
}

proof fn lemma_first_item_unique(items: Seq<InspectSectorItem>, lba: u64, i: int)
    requires
        spec_items_sorted(items),
        0 <= i < items.len(),
        items[i].lba == lba,
    ensures
        forall|j: int| 0 <= j < items.len() && (#[trigger] items[j]).lba == lba ==> j == i,
{
    assert forall|j: int| 0 <= j < items.len() && (#[trigger] items[j]).lba == lba implies j == i by {
        if j < i {
            assert(items[j].lba < items[i].lba);
        } else if i < j {
            assert(items[i].lba < items[j].lba);
        }
    }
}

fn hex_digit(d: u8) -> (c: char)
    requires
        d < 16,
    ensures
        c == spec_hex_char(d as nat),
{
    if d < 10 {
        ((48 + d) as u8) as char
    } else {
        ((55 + d) as u8) as char
    }
}

/// Result of moving the sector inspector `delta` sectors from `lba` on a disk of
/// `total` sectors, stopping at either end.
pub open spec fn spec_shift_target(lba: u64, delta: i64, total: u64) -> u64 {
    if delta < 0 {
        if lba + delta < 0 {
            0
        } else {
            (lba + delta) as u64
        }
    } else if lba + delta < total - 1 {
        (lba + delta) as u64
    } else {
        (total - 1) as u64
    }
}

/// The sector inspector after moving to `next`: a pinned field that still overlaps
/// the new sector keeps the cursor on its first byte there, else it is dropped.
pub open spec fn spec_shifted_sector(sec: SectorInspectorState, next: u64, ready: bool) -> SectorInspectorState {
    let start = if next * 512 > u64::MAX {
        u64::MAX as int
    } else {
        next * 512
    };
    let end = if start + 512 > u64::MAX {
        u64::MAX as int
    } else {
        start + 512
    };
    let base = SectorInspectorState {
        lba: next,
        error: None,
        field_expanded: false,
        pending: !ready,
        ..sec
    };
    match sec.pinned_field {
        Some(f) => if f.range_start < end && f.range_end_exclusive > start {
            SectorInspectorState {
                cursor: ((if f.range_start < start {
                    start
                } else {
                    f.range_start as int
                }) - start) as usize,
                ..base
            }
        } else {
            SectorInspectorState { pinned_field: None, ..base }
        },
        None => base,
    }
}

fn i64_magnitude(d: i64) -> (r: u64)
    requires
        d < 0,
    ensures
        r == -d,
{
    let wide: i128 = d as i128;
    let m: i128 = -wide;
    m as u64
}

impl AppState {
    pub fn advanced_inspect_preview_state(&self, lba: u64) -> (r: PreviewLoadState)
        requires
            self.wf(),
        ensures
            r == spec_preview_state(*self, lba),
    {
        match &self.advanced_inspect {
            Some(a) => match preview_find(&a.preview_load, lba) {
                Some(i) => a.preview_load[i].1.copy(),
                None => PreviewLoadState::Idle,
            },
            None => PreviewLoadState::Idle,
        }
    }

    /// Record that a preview load of `lba` is under way, counting the attempt.
    pub fn advanced_inspect_mark_preview_pending(&mut self, lba: u64)
        requires
            old(self).wf(),
        ensures
            final(self).wf(),
            spec_inspect_only(*old(self), *final(self)),
            old(self).advanced_inspect matches Some(a) ==> ({
                let b = final(self).advanced_inspect->Some_0;
                &&& b == (AdvancedInspectState { preview_load: b.preview_load, ..a })
                &&& spec_preview_map(b.preview_load@) == spec_preview_map(a.preview_load@).insert(
                    lba,
                    PreviewLoadState::Pending { attempts: spec_next_attempts(spec_preview_get(a, lba)) },
                )
            }),
    {
        if let Some(advanced) = &mut self.advanced_inspect {
            let attempts: u32 = match preview_find(&advanced.preview_load, lba) {
                Some(i) => match &advanced.preview_load[i].1 {
                    PreviewLoadState::Pending { attempts } => attempts.saturating_add(1),
                    PreviewLoadState::Failed { attempts, .. } => attempts.saturating_add(1),
                    _ => 1,
                },
                None => 1,
            };
            preview_insert(&mut advanced.preview_load, lba, PreviewLoadState::Pending { attempts });
        }
    }

    /// The sector the inspector still has to decode, when it is neither pending nor
    /// failed and no decode of it is loaded.
    pub fn advanced_inspect_decode_request(&self) -> (r: Option<(AdvancedInspectSource, u64)>)
        ensures
            r == match self.advanced_inspect {
                Some(a) => match (a.sector, a.result) {
                    (Some(sec), Some(w)) => if !sec.pending && sec.error is None && !spec_has_ready(
                        w.items@,
                        sec.lba,
                    ) {
                        Some((a.source, sec.lba))
                    } else {
                        None
                    },
                    _ => None,
                },
                None => None,
            },
    {
        let advanced = match &self.advanced_inspect {
            Some(a) => a,
            None => return None,
        };
        let sector = match &advanced.sector {
            Some(s) => s,
            None => return None,
        };
        if sector.pending || sector.error.is_some() {
            return None;
        }
        let workspace = match &advanced.result {
            Some(w) => w,
            None => return None,
        };
        if any_ready(&workspace.items, sector.lba) {
            None
        } else {
            Some((advanced.source.copy(), sector.lba))
        }
    }

    /// Mark the inspector's decode of `lba` pending or settled; a new pending load
    /// clears the previous error.
    pub fn advanced_inspect_mark_decode_pending(&mut self, lba: u64, pending: bool)
        requires
            old(self).wf(),
        ensures
            final(self).wf(),
            !(spec_sector_of(*old(self)) matches Some(sec) && sec.lba == lba) ==> *final(self)
                == *old(self),
            spec_sector_of(*old(self)) matches Some(sec) ==> (sec.lba == lba ==> *final(self)
                == spec_with_sector(
                *old(self),
                SectorInspectorState {
                    pending,
                    error: if pending {
                        None
                    } else {
                        sec.error
                    },
                    ..sec
                },
            )),
    {
        if let Some(advanced) = &mut self.advanced_inspect {
            if let Some(sector) = &mut advanced.sector {
                if sector.lba == lba {
                    sector.pending = pending;
                    if pending {
                        sector.error = None;
                    }
                }
            }
        }
    }

    /// The loaded item of the sector the inspector shows.
    pub fn advanced_inspect_sector_item(&self) -> (r: Option<&InspectSectorItem>)
        requires
            self.wf(),
        ensures
            r is Some <== (self.advanced_inspect matches Some(a) && a.sector matches Some(sec)
                && a.result matches Some(w) && exists|i: int|
                0 <= i < w.items@.len() && (#[trigger] w.items@[i]).lba == sec.lba),
            r matches Some(x) ==> ({
                let a = self.advanced_inspect->Some_0;
                let w = a.result->Some_0;
                &&& self.advanced_inspect is Some
                &&& a.sector is Some
                &&& a.result is Some
                &&& x.lba == a.sector->Some_0.lba
                &&& exists|i: int| 0 <= i < w.items@.len() && w.items@[i] == *x
            }),
    {
        let state = match &self.advanced_inspect {
            Some(a) => a,
            None => return None,
        };
        let sector = match &state.sector {
            Some(s) => s,
            None => return None,
        };
        let workspace = match &state.result {
            Some(w) => w,
            None => return None,
        };
        match find_item(&workspace.items, sector.lba) {
            Some(i) => Some(&workspace.items[i]),
            None => None,
        }
    }

    /// The field under the sector cursor.
    pub fn advanced_inspect_sector_active_field(&self) -> (r: Option<InspectField>)
        requires
            self.wf(),
        ensures
            self.advanced_inspect is None ==> r is None,
            self.advanced_inspect matches Some(a) ==> (r is None <==> spec_active_field(a) is None),
            r matches Some(x) ==> spec_field_same(
                x,
                spec_active_field(self.advanced_inspect->Some_0)->Some_0,
            ),
    {
        let state = match &self.advanced_inspect {
            Some(a) => a,
            None => return None,
        };
        let sector = match &state.sector {
            Some(s) => s,
            None => return None,
        };
        let base = match sector.lba.checked_mul(512) {
            Some(b) => b,
            None => return None,
        };
        let absolute = match base.checked_add(sector.cursor as u64) {
            Some(v) => v,
            None => return None,
        };
        assert(absolute == spec_cursor_abs(*sector));
        if let Some(field) = &sector.pinned_field {
            if absolute >= field.range_start && absolute < field.range_end_exclusive {
                return Some(field.copy());
            }
        }
        let workspace = match &state.result {
            Some(w) => w,
            None => return None,
        };
        let index = match find_item(&workspace.items, sector.lba) {
            Some(i) => i,
            None => return None,
        };
        proof {
            lemma_first_item_unique(workspace.items@, sector.lba, index as int);
        }
        let item = &workspace.items[index];
        match find_field(&item.fields, absolute) {
            Some(k) => {
                proof {
                    let fields = item.fields@;
                    let ghost kk = choose|k: int|
                        0 <= k < fields.len() && spec_field_contains(#[trigger] fields[k], absolute as int) && forall|j: int|
                            0 <= j < k ==> !spec_field_contains(#[trigger] fields[j], absolute as int);
                    assert(0 <= k < fields.len() && spec_field_contains(fields[k as int], absolute as int));
                    if kk < k {
                        assert(!spec_field_contains(fields[kk], absolute as int));
                    } else if k < kk {
                        assert(!spec_field_contains(fields[k as int], absolute as int));
                    }
                }
                Some(item.fields[k].copy())
            },
            None => None,
        }
    }

    /// Copy the active field (its bytes in hex, or `label = value`), else the byte
    /// under the cursor, into the yank register; `None` when there is nothing to copy.
    pub fn advanced_inspect_sector_yank(&mut self, raw_range: bool) -> (r: Option<String>)
        requires
            old(self).wf(),
        ensures
            final(self).wf(),
            spec_inspect_only(*old(self), *final(self)),
            old(self).advanced_inspect is None ==> r is None && *final(self) == *old(self),
            old(self).advanced_inspect matches Some(a) ==> ({
                let text = spec_yank_text(a, raw_range);
                &&& (r is None <==> text is None)
                &&& (r is None ==> *final(self) == *old(self))
                &&& (r matches Some(x) ==> x@ == text->Some_0 && final(self).advanced_inspect == Some(
                    AdvancedInspectState { yank_register: Some(x), ..a },
                ))
            }),
    {
        let field = self.advanced_inspect_sector_active_field();
        let value = match field {
            Some(f) => {
                if raw_range {
                    inspect_hex(f.raw.as_slice())
                } else {
                    let head = concat(f.label.as_str(), " = ");
                    concat(head.as_str(), f.value.as_str())
                }
            },
            None => {
                let cursor = match self.advanced_inspect_sector() {
                    Some(s) => s.cursor,
                    None => return None,
                };
                let item = match self.advanced_inspect_sector_item() {
                    Some(item) => item,
                    None => return None,
                };
                proof {
                    let a = self.advanced_inspect->Some_0;
                    assert(a.wf());
                    let w = a.result->Some_0;
                    let sec = a.sector->Some_0;
                    let j = choose|j: int| 0 <= j < w.items@.len() && w.items@[j] == *item;
                    assert(w.items@[j].lba == sec.lba);
                    lemma_first_item_unique(w.items@, sec.lba, j);
                    let i = choose|i: int| 0 <= i < w.items@.len() && (#[trigger] w.items@[i]).lba == sec.lba;
                    assert(i == j);
                }
                if cursor >= item.raw.len() {
                    return None;
                }
                let byte = item.raw[cursor];
                let mut text = String::from_str("0x");
                string_push(&mut text, hex_digit(byte / 16));
                string_push(&mut text, hex_digit(byte % 16));
                proof {
                    reveal_strlit("0x");
                    assert(text@ =~= "0x"@ + seq![spec_hex_char((byte / 16) as nat), spec_hex_char((byte % 16) as nat)]);
                }
                text
            },
        };
        if let Some(state) = &mut self.advanced_inspect {
            state.yank_register = Some(value.clone());
        }
        Some(value)
    }

    /// Move the sector inspector `delta` sectors, staying on the disk; returns the
    /// sector to load when its decode is not loaded yet.
    pub fn advanced_inspect_shift_sector(&mut self, delta: i64) -> (r: Option<(AdvancedInspectSource, u64)>)
        requires
            old(self).wf(),
        ensures
            final(self).wf(),
            ({
                let moved = old(self).advanced_inspect matches Some(a) && a.sector matches Some(sec)
                    && a.result matches Some(w) && w.total_sectors > 0 && spec_shift_target(
                    sec.lba,
                    delta,
                    w.total_sectors,
                ) != sec.lba;
                &&& !moved ==> r is None && *final(self) == *old(self)
                &&& moved ==> ({
                    let a = old(self).advanced_inspect->Some_0;
                    let sec = a.sector->Some_0;
                    let w = a.result->Some_0;
                    let next = spec_shift_target(sec.lba, delta, w.total_sectors);
                    let ready = spec_has_ready(w.items@, next);
                    &&& *final(self) == spec_with_sector(*old(self), spec_shifted_sector(sec, next, ready))
                    &&& r == if ready {
                        None
                    } else {
                        Some((a.source, next))
                    }
                })
            }),
    {
        let state = match &mut self.advanced_inspect {
            Some(a) => a,
            None => return None,
        };
        let total = match &state.result {
            Some(w) => w.total_sectors,
            None => return None,
        };
        let sector = match &mut state.sector {
            Some(s) => s,
            None => return None,
        };
        if total == 0 {
            return None;
        }
        let next = if delta < 0 {
            let m = i64_magnitude(delta);
            if sector.lba >= m {
                sector.lba - m
            } else {
                0
            }
        } else {
            let d = delta as u64;
            if d >= total - 1 || sector.lba >= total - 1 - d {
                total - 1
            } else {
                sector.lba + d
            }
        };
        if next == sector.lba {
            return None;
        }
        sector.lba = next;
        sector.error = None;
        sector.field_expanded = false;
        let mut drop_pin = false;
        if let Some(field) = &sector.pinned_field {
            let sector_start = if next > 36028797018963967 {
                proof {
                    assert(next * 512 > u64::MAX) by (nonlinear_arith)
                        requires
                            next > 36028797018963967u64,
                    ;
                }
                u64::MAX
            } else {
                proof {
                    assert(next * 512 <= u64::MAX) by (nonlinear_arith)
                        requires
                            next <= 36028797018963967u64,
                    ;
                }
                next * 512
            };
            let sector_end = sector_start.saturating_add(512);
            if field.range_start < sector_end && field.range_end_exclusive > sector_start {
                let first = if field.range_start < sector_start {
                    sector_start
                } else {
                    field.range_start
                };
                sector.cursor = (first - sector_start) as usize;
            } else {
                drop_pin = true;
            }
        }
        if drop_pin {
            sector.pinned_field = None;
        }
        let ready = match &state.result {
            Some(w) => any_ready(&w.items, next),
            None => false,
        };
        sector.pending = !ready;
        if ready {
            None
        } else {
            Some((state.source.copy(), next))
        }
    }

    /// Close the sector inspector and return to the tree position saved when it
    /// opened; false when no sector inspector was open.
    pub fn advanced_inspect_close_sector(&mut self) -> (r: bool)
        requires
            old(self).wf(),
        ensures
            final(self).wf(),
            r == (spec_sector_of(*old(self)) is Some),
            !r ==> *final(self) == *old(self),
            r ==> spec_sector_closed(*old(self), *final(self)),
    {
        let mut taken = self.advanced_inspect.take();
        let had_sector = match &mut taken {
            Some(state) => state.sector.take().is_some(),
            None => false,
        };
        if had_sector {
            if let Some(frame) = self.pop_navigation_frame() {
                if let Some(state) = &mut taken {
                    state.panel = match frame.panel {
                        Some(p) => p,
                        None => AdvancedInspectPanel::Tree,
                    };
                    state.tree_selected = frame.tree_selection;
                    if let Some(pane_focus) = frame.pane_focus {
                        state.pane_focus = pane_focus;
                        if let Some(panel) = AdvancedInspectPanel::from_pane_id(state.pane_focus.focused()) {
                            state.panel = panel;
                        }
                    }
                }
            }
        }
        self.advanced_inspect = taken;
        had_sector
    }
}

} // verus!
