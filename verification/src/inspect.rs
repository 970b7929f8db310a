//! Advanced Inspect browser state: panels, prompts, preview loading and the sector inspector.

use vstd::prelude::*;
use crate::pane::{PaneFocus, PaneId, PaneViewport, VerticalViewport, spec_default_viewport};

verus! {

#[derive(Debug, Clone)]
pub enum AdvancedInspectSource {
    Disk(u32),
    Backup(String),
}

#[derive(Debug, Clone, Copy, PartialEq, Eq, Structural)]
pub enum AdvancedInspectStage {
    Running,
    Browser,
}

#[derive(Debug, Clone, Copy, PartialEq, Eq, Structural)]
pub enum AdvancedInspectPanel {
    DiskLayout,
    Tree,
    Overview,
    Detail,
}

#[derive(Debug, Clone, Copy, PartialEq, Eq, Structural)]
pub enum SectorInspectMode {
    Raw,
    Decode,
    Mixed,
}

#[derive(Debug, Clone, Copy, PartialEq, Eq, Structural)]
pub enum AdvancedInspectJumpUnit {
    Lba,
    ByteOffset,
}

#[derive(Debug, Clone)]
pub enum AdvancedInspectPrompt {
    Jump { unit: AdvancedInspectJumpUnit, input: String },
    Search { input: String },
}

/// A decoded field of a sector, with its absolute byte range.
#[derive(Debug, Clone)]
pub struct InspectField {
    pub label: String,
    pub value: String,
    pub range_start: u64,
    pub range_end_exclusive: u64,
    pub raw: Vec<u8>,
}

/// One sector read by Inspect: its raw bytes and decoded fields, the decoded bytes
/// when decoding produced output, the decoder's error if it failed, and the metadata
/// text.
#[derive(Debug, Clone)]
pub struct InspectSectorItem {
    pub lba: u64,
    pub raw: Vec<u8>,
    pub fields: Vec<InspectField>,
    pub decoded: Option<Vec<u8>>,
    pub decode_error: Option<String>,
    pub meta_text: Option<String>,
}

/// The result of an Inspect run: the disk size in sectors and the sectors read so far.
#[derive(Debug, Clone)]
pub struct InspectWorkspace {
    pub total_sectors: u64,
    pub items: Vec<InspectSectorItem>,
}

/// Sector items are kept in ascending LBA order, one per LBA.
pub open spec fn spec_items_sorted(items: Seq<InspectSectorItem>) -> bool {
    forall|i: int, j: int| 0 <= i < j < items.len() ==> (#[trigger] items[i]).lba < (#[trigger] items[j]).lba
}

/// Whether some item of `s` is for sector `lba`.
pub open spec fn spec_has_lba(s: Seq<InspectSectorItem>, lba: u64) -> bool
    decreases s.len(),
{
    if s.len() == 0 {
        false
    } else {
        s.last().lba == lba || spec_has_lba(s.drop_last(), lba)
    }
}

/// How many items of `s` are for sectors before `lba`.
pub open spec fn spec_below(s: Seq<InspectSectorItem>, lba: u64) -> nat
    decreases s.len(),
{
    if s.len() == 0 {
        0
    } else {
        spec_below(s.drop_last(), lba) + if s.last().lba < lba { 1nat } else { 0nat }
    }
}

/// `x` added to the ordered items `s` at its place, unless its sector is already there.
pub open spec fn spec_insert_item(s: Seq<InspectSectorItem>, x: InspectSectorItem) -> Seq<InspectSectorItem> {
    if spec_has_lba(s, x.lba) {
        s
    } else {
        s.insert(spec_below(s, x.lba) as int, x)
    }
}

/// The items in ascending sector order, keeping the first item of each sector.
pub open spec fn spec_normal_form(items: Seq<InspectSectorItem>) -> Seq<InspectSectorItem>
    decreases items.len(),
{
    if items.len() == 0 {
        Seq::empty()
    } else {
        spec_insert_item(spec_normal_form(items.drop_last()), items.last())
    }
}

/// In ordered items, a scan that stops at `k`, the first item not before `lba`, has
/// counted the items before it, and finds `lba` exactly when item `k` is for it.
proof fn lemma_scan_position(s: Seq<InspectSectorItem>, lba: u64, k: int)
    requires
        spec_items_sorted(s),
        0 <= k <= s.len(),
        forall|m: int| 0 <= m < k ==> (#[trigger] s[m]).lba < lba,
        k < s.len() ==> s[k].lba >= lba,
    ensures
        spec_below(s, lba) == k,
        spec_has_lba(s, lba) == (k < s.len() && s[k].lba == lba),
    decreases s.len(),
{
    if s.len() > 0 {
        let d = s.drop_last();
        assert(spec_items_sorted(d));
        let last = s.len() - 1;
        if k == s.len() {
            assert(s[last].lba < lba);
            lemma_scan_position(d, lba, k - 1);
        } else {
            assert(s[last].lba >= lba) by {
                if last > k {
                    assert(s[k].lba < s[last].lba);
                }
            }
            if k < last {
                assert(s[last].lba > lba) by {
                    assert(s[k].lba < s[last].lba);
                }
                lemma_scan_position(d, lba, k);
                assert(d[k] == s[k]);
            } else {
                lemma_scan_position(d, lba, k);
            }
        }
    }
}

proof fn lemma_insert_sorted(s: Seq<InspectSectorItem>, x: InspectSectorItem, k: int)
    requires
        spec_items_sorted(s),
        0 <= k <= s.len(),
        forall|m: int| 0 <= m < k ==> (#[trigger] s[m]).lba < x.lba,
        forall|m: int| k <= m < s.len() ==> (#[trigger] s[m]).lba > x.lba,
    ensures
        spec_items_sorted(s.insert(k, x)),
{
    let n = s.insert(k, x);
    assert forall|a: int, b: int| 0 <= a < b < n.len() implies (#[trigger] n[a]).lba < (
    #[trigger] n[b]).lba by {
        if b < k {
            assert(n[a] == s[a] && n[b] == s[b]);
        } else if b == k {
            assert(n[a] == s[a]);
        } else if a < k {
            assert(n[a] == s[a] && n[b] == s[b - 1]);
        } else if a == k {
            assert(n[b] == s[b - 1]);
        } else {
            assert(n[a] == s[a - 1] && n[b] == s[b - 1]);
        }
    }
}

/// The normal form of ordered items is the items themselves.
pub proof fn lemma_sorted_items_are_normal(items: Seq<InspectSectorItem>)
    requires
        spec_items_sorted(items),
    ensures
        spec_normal_form(items) == items,
    decreases items.len(),
{
    if items.len() > 0 {
        let d = items.drop_last();
        assert(spec_items_sorted(d));
        lemma_sorted_items_are_normal(d);
        let x = items.last();
        assert forall|m: int| 0 <= m < d.len() implies (#[trigger] d[m]).lba < x.lba by {
            assert(d[m] == items[m]);
        }
        lemma_scan_position(d, x.lba, d.len() as int);
        assert(d.insert(d.len() as int, x) =~= items);
    }
}

/// The normal form is in ascending sector order, one item per sector.
pub proof fn lemma_normal_form_sorted(items: Seq<InspectSectorItem>)
    ensures
        spec_items_sorted(spec_normal_form(items)),
    decreases items.len(),
{
    if items.len() > 0 {
        lemma_normal_form_sorted(items.drop_last());
        let s = spec_normal_form(items.drop_last());
        let x = items.last();
        if !spec_has_lba(s, x.lba) {
            let k = choose_scan(s, x.lba);
            lemma_scan_position(s, x.lba, k);
            assert forall|m: int| k <= m < s.len() implies (#[trigger] s[m]).lba > x.lba by {
                if m > k {
                    assert(s[k].lba < s[m].lba);
                }
            }
            lemma_insert_sorted(s, x, k);
        }
    }
}

/// Where a scan for `lba` stops in `s`: the first item not before it.
proof fn choose_scan(s: Seq<InspectSectorItem>, lba: u64) -> (k: int)
    requires
        spec_items_sorted(s),
    ensures
        0 <= k <= s.len(),
        forall|m: int| 0 <= m < k ==> (#[trigger] s[m]).lba < lba,
        k < s.len() ==> s[k].lba >= lba,
    decreases s.len(),
{
    if s.len() == 0 {
        0
    } else if s[0].lba >= lba {
        0
    } else {
        let rest = s.drop_first();
        assert(spec_items_sorted(rest)) by {
            assert forall|a: int, b: int| 0 <= a < b < rest.len() implies (#[trigger] rest[a]).lba
                < (#[trigger] rest[b]).lba by {
                assert(rest[a] == s[a + 1] && rest[b] == s[b + 1]);
            }
        }
        let k = choose_scan(rest, lba);
        assert forall|m: int| 0 <= m < k + 1 implies (#[trigger] s[m]).lba < lba by {
            if m > 0 {
                assert(s[m] == rest[m - 1]);
            }
        }
        if k + 1 < s.len() {
            assert(s[k + 1] == rest[k]);
        }
        k + 1
    }
}

fn insert_normalized(out: &mut Vec<InspectSectorItem>, x: InspectSectorItem)
    requires
        spec_items_sorted(old(out)@),
    ensures
        final(out)@ == spec_insert_item(old(out)@, x),
        spec_items_sorted(final(out)@),
{
    let lba = x.lba;
    let mut k: usize = 0;
    while k < out.len() && out[k].lba < lba
        invariant
            k <= out@.len(),
            forall|m: int| 0 <= m < k ==> (#[trigger] out@[m]).lba < lba,
        decreases out.len() - k,
    {
        k = k + 1;
    }
    proof {
        lemma_scan_position(out@, lba, k as int);
    }
    if k < out.len() && out[k].lba == lba {
    } else {
        proof {
            let o = out@;
            assert forall|m: int| k <= m < o.len() implies (#[trigger] o[m]).lba > lba by {
                if m > k {
                    assert(o[k as int].lba < o[m].lba);
                }
            }
            lemma_insert_sorted(o, x, k as int);
        }
        out.insert(k, x);
    }
}

/// Put inspection items in ascending sector order, keeping the first item of each
/// sector; items already in that order come back unchanged.
pub fn normalize_items(items: Vec<InspectSectorItem>) -> (r: Vec<InspectSectorItem>)
    ensures
        r@ == spec_normal_form(items@),
        spec_items_sorted(r@),
{
    let ghost orig = items@;
    let mut rest = items;
    let mut out: Vec<InspectSectorItem> = Vec::new();
    let ghost mut t: int = 0;
    assert(orig.subrange(0, 0) =~= Seq::<InspectSectorItem>::empty());
    while rest.len() > 0
        invariant
            0 <= t <= orig.len(),
            rest@ == orig.subrange(t, orig.len() as int),
            out@ == spec_normal_form(orig.subrange(0, t)),
            spec_items_sorted(out@),
        decreases rest.len(),
    {
        let x = rest.remove(0);
        assert(x == orig[t]);
        let ghost next = orig.subrange(0, t + 1);
        assert(next.drop_last() =~= orig.subrange(0, t));
        assert(next.last() == x);
        insert_normalized(&mut out, x);
        proof {
            t = t + 1;
        }
        assert(rest@ =~= orig.subrange(t, orig.len() as int));
    }
    assert(orig.subrange(0, t) =~= orig);
    out
}

/// Whether the items are in ascending LBA order, one per LBA.
pub fn inspect_items_sorted(items: &[InspectSectorItem]) -> (r: bool)
    ensures
        r == spec_items_sorted(items@),
{
    if items.len() == 0 {
        return true;
    }
    let mut k: usize = 1;
    while k < items.len()
        invariant
            1 <= k <= items@.len(),
            forall|i: int, j: int|
                0 <= i < j < k ==> (#[trigger] items@[i]).lba < (#[trigger] items@[j]).lba,
        decreases items.len() - k,
    {
        if items[k - 1].lba >= items[k].lba {
            assert(!spec_items_sorted(items@)) by {
                assert(items@[k - 1].lba >= items@[k as int].lba);
            }
            return false;
        }
        assert forall|i: int, j: int| 0 <= i < j < k + 1 implies (#[trigger] items@[i]).lba
            < (#[trigger] items@[j]).lba by {
            if j == k && i < k - 1 {
                assert(items@[i].lba < items@[k - 1].lba);
            }
        }
        k = k + 1;
    }
    true
}

#[derive(Debug, Clone)]
pub struct SectorInspectorState {
    pub lba: u64,
    pub mode: SectorInspectMode,
    pub cursor: usize,
    pub pending: bool,
    pub error: Option<String>,
    pub field_expanded: bool,
    pub pinned_field: Option<InspectField>,
}

#[derive(Debug, Clone)]
pub enum PreviewLoadState {
    Idle,
    Pending { attempts: u32 },
    Ready,
    Failed { message: String, attempts: u32 },
}

#[derive(Debug, Clone)]
pub struct AdvancedInspectState {
    pub source: AdvancedInspectSource,
    pub stage: AdvancedInspectStage,
    pub result: Option<InspectWorkspace>,
    pub tree_selected: usize,
    pub panel: AdvancedInspectPanel,
    pub pane_focus: PaneFocus,
    pub sector: Option<SectorInspectorState>,
    pub sector_cache_order: Vec<u64>,
    pub preview_load: Vec<(u64, PreviewLoadState)>,
    pub tree_revision: u64,
    pub yank_register: Option<String>,
    pub prompt: Option<AdvancedInspectPrompt>,
    pub message: Option<String>,
}

/// A metadata-mode Inspect run (no export directory, strict decoding): the sectors to
/// read and the device identity the disk must still carry.
#[derive(Debug, Clone)]
pub struct InspectMetaRequest {
    pub lbas: Vec<u64>,
    pub device_id_override: Option<String>,
}

/// The device identity recorded for the scanned disk `disk`, if it is listed.
pub open spec fn spec_device_id_of(devices: Seq<crate::state::DeviceRow>, disk: u32) -> Option<String> {
    match crate::state::spec_disk_position(devices, disk) {
        Some(p) => devices[p as int].device_id,
        None => None,
    }
}

pub open spec fn spec_distinct_u64(v: Seq<u64>) -> bool {
    forall|i: int, j: int| 0 <= i < j < v.len() ==> v[i] != v[j]
}

pub open spec fn spec_preview_keys(v: Seq<(u64, PreviewLoadState)>) -> Seq<u64> {
    v.map_values(|e: (u64, PreviewLoadState)| e.0)
}

impl AdvancedInspectState {
    /// Pane focus is well formed, cached sectors are distinct, preview states are
    /// keyed by distinct LBAs, the workspace lists its sectors in LBA order, and the
    /// sector cursor stays inside the sector.
    pub open spec fn wf(&self) -> bool {
        &&& self.pane_focus.wf()
        &&& spec_distinct_u64(self.sector_cache_order@)
        &&& spec_distinct_u64(spec_preview_keys(self.preview_load@))
        &&& (self.result matches Some(w) ==> spec_items_sorted(w.items@))
        &&& (self.sector matches Some(s) ==> s.cursor < 512)
    }
}

} // verus!

use crate::navigation::{NavigationFrame, NavigationLocation, spec_location_of};
use crate::pane::{spec_inspect_order, spec_spatial_inspect, spec_position_or_zero, spec_is_inspect};
use crate::state::{AppState, InputMode, spec_msg, spec_clamp_selection};
use crate::text::{
    chars_of, concat, spec_decimal, spec_trim, string_pop, string_push, trim_chars, u64_decimal,
};

verus! {

/// Bytes per sector.
pub const SECTOR: usize = 512;

pub open spec fn spec_source_label(s: AdvancedInspectSource) -> Seq<char> {
    match s {
        AdvancedInspectSource::Disk(d) => "物理盘 disk"@ + spec_decimal(d as nat),
        AdvancedInspectSource::Backup(p) => "备份 "@ + p@,
    }
}

impl AdvancedInspectSource {
    pub fn label(&self) -> (r: String)
        ensures
            r@ == spec_source_label(*self),
    {
        match self {
            AdvancedInspectSource::Disk(disk) => {
                let d = u64_decimal(*disk as u64);
                concat("物理盘 disk", d.as_str())
            },
            AdvancedInspectSource::Backup(path) => concat("备份 ", path.as_str()),
        }
    }

    /// An equal copy of this source.
    pub fn copy(&self) -> (r: Self)
        ensures
            r == *self,
    {
        match self {
            AdvancedInspectSource::Disk(d) => AdvancedInspectSource::Disk(*d),
            AdvancedInspectSource::Backup(p) => AdvancedInspectSource::Backup(p.clone()),
        }
    }
}

pub open spec fn spec_panel_pane(p: AdvancedInspectPanel) -> PaneId {
    match p {
        AdvancedInspectPanel::DiskLayout => PaneId::InspectDiskLayout,
        AdvancedInspectPanel::Tree => PaneId::InspectTree,
        AdvancedInspectPanel::Overview => PaneId::InspectOverview,
        AdvancedInspectPanel::Detail => PaneId::InspectDetail,
    }
}

pub open spec fn spec_pane_panel(p: PaneId) -> Option<AdvancedInspectPanel> {
    match p {
        PaneId::InspectDiskLayout => Some(AdvancedInspectPanel::DiskLayout),
        PaneId::InspectTree => Some(AdvancedInspectPanel::Tree),
        PaneId::InspectOverview => Some(AdvancedInspectPanel::Overview),
        PaneId::InspectDetail => Some(AdvancedInspectPanel::Detail),
        _ => None,
    }
}

impl AdvancedInspectPanel {
    pub fn pane_id(self) -> (r: PaneId)
        ensures
            r == spec_panel_pane(self),
    {
        match self {
            AdvancedInspectPanel::DiskLayout => PaneId::InspectDiskLayout,
            AdvancedInspectPanel::Tree => PaneId::InspectTree,
            AdvancedInspectPanel::Overview => PaneId::InspectOverview,
            AdvancedInspectPanel::Detail => PaneId::InspectDetail,
        }
    }

    pub fn from_pane_id(pane: PaneId) -> (r: Option<Self>)
        ensures
            r == spec_pane_panel(pane),
    {
        match pane {
            PaneId::InspectDiskLayout => Some(AdvancedInspectPanel::DiskLayout),
            PaneId::InspectTree => Some(AdvancedInspectPanel::Tree),
            PaneId::InspectOverview => Some(AdvancedInspectPanel::Overview),
            PaneId::InspectDetail => Some(AdvancedInspectPanel::Detail),
            _ => None,
        }
    }
}

/// Panels and Inspect panes correspond one to one.
pub proof fn lemma_panel_pane_round_trip(p: AdvancedInspectPanel, q: PaneId)
    ensures
        spec_pane_panel(spec_panel_pane(p)) == Some(p),
        spec_pane_panel(q) matches Some(x) ==> spec_panel_pane(x) == q,
        spec_pane_panel(q) is Some <==> spec_is_inspect(q),
{
}

impl SectorInspectMode {
    pub fn label(self) -> (r: &'static str)
        ensures
            r@ == match self {
                SectorInspectMode::Raw => "Raw"@,
                SectorInspectMode::Decode => "Decode"@,
                SectorInspectMode::Mixed => "Mixed"@,
            },
    {
        match self {
            SectorInspectMode::Raw => "Raw",
            SectorInspectMode::Decode => "Decode",
            SectorInspectMode::Mixed => "Mixed",
        }
    }
}

impl AdvancedInspectJumpUnit {
    pub fn label(self) -> (r: &'static str)
        ensures
            r@ == match self {
                AdvancedInspectJumpUnit::Lba => "LBA"@,
                AdvancedInspectJumpUnit::ByteOffset => "byte offset"@,
            },
    {
        match self {
            AdvancedInspectJumpUnit::Lba => "LBA",
            AdvancedInspectJumpUnit::ByteOffset => "byte offset",
        }
    }
}

pub open spec fn spec_is_hex_digit(c: char) -> bool {
    ('0' <= c && c <= '9') || ('a' <= c && c <= 'f') || ('A' <= c && c <= 'F')
}

pub open spec fn spec_hex_digit_value(c: char) -> nat {
    if '0' <= c && c <= '9' {
        (c as u32 - 48) as nat
    } else if 'a' <= c && c <= 'f' {
        (c as u32 - 87) as nat
    } else {
        (c as u32 - 55) as nat
    }
}

/// Value of a run of digits in base `radix` (10 or 16).
pub open spec fn spec_radix_value(s: Seq<char>, radix: nat) -> nat
    decreases s.len(),
{
    if s.len() == 0 {
        0
    } else {
        spec_radix_value(s.drop_last(), radix) * radix + spec_hex_digit_value(s.last())
    }
}

pub open spec fn spec_all_hex(s: Seq<char>) -> bool {
    forall|i: int| 0 <= i < s.len() ==> spec_is_hex_digit(#[trigger] s[i])
}

pub open spec fn spec_all_dec(s: Seq<char>) -> bool {
    forall|i: int| 0 <= i < s.len() ==> '0' <= #[trigger] s[i] && s[i] <= '9'
}

proof fn lemma_radix_mono(s: Seq<char>, i: int, radix: nat)
    requires
        0 <= i <= s.len(),
        radix >= 1,
    ensures
        spec_radix_value(s.take(i), radix) <= spec_radix_value(s, radix),
    decreases s.len() - i,
{
    if i < s.len() {
        lemma_radix_mono(s, i + 1, radix);
        assert(s.take(i + 1).drop_last() =~= s.take(i));
        let a = spec_radix_value(s.take(i), radix);
        assert(a * radix >= a) by (nonlinear_arith)
            requires
                radix >= 1,
        ;
    } else {
        assert(s.take(i) =~= s);
    }
}

/// Parse a run of digits (already checked) in base 10 or 16, failing on overflow.
fn parse_radix_u64(v: &Vec<char>, radix: u64) -> (r: Option<u64>)
    requires
        radix == 10 || radix == 16,
        radix == 16 ==> spec_all_hex(v@),
        radix == 10 ==> spec_all_dec(v@),
    ensures
        spec_radix_value(v@, radix as nat) <= u64::MAX ==> r == Some(
            spec_radix_value(v@, radix as nat) as u64,
        ),
        spec_radix_value(v@, radix as nat) > u64::MAX ==> r is None,
{
    let mut value: u64 = 0;
    let mut i: usize = 0;
    while i < v.len()
        invariant
            i <= v.len(),
            radix == 10 || radix == 16,
            radix == 16 ==> spec_all_hex(v@),
            radix == 10 ==> spec_all_dec(v@),
            value == spec_radix_value(v@.take(i as int), radix as nat),
        decreases v.len() - i,
    {
        let c = v[i];
        let d: u64 = if '0' <= c && c <= '9' {
            (c as u32 - 48) as u64
        } else if 'a' <= c && c <= 'f' {
            (c as u32 - 87) as u64
        } else {
            (c as u32 - 55) as u64
        };
        proof {
            assert(v@.take(i + 1).drop_last() =~= v@.take(i as int));
        }
        let ghost full = spec_radix_value(v@.take(i + 1), radix as nat);
        assert(full == value * radix + d);
        let next = match value.checked_mul(radix) {
            Some(m) => m.checked_add(d),
            None => None,
        };
        match next {
            Some(n) => {
                value = n;
            },
            None => {
                proof {
                    lemma_radix_mono(v@, i + 1, radix as nat);
                }
                return None;
            },
        }
        i = i + 1;
    }
    assert(v@.take(v.len() as int) =~= v@);
    Some(value)
}

pub open spec fn spec_has_hex_prefix(t: Seq<char>) -> bool {
    t.len() >= 2 && t[0] == '0' && (t[1] == 'x' || t[1] == 'X')
}

/// What a Jump input means: a decimal integer or a `0x`-prefixed hexadecimal one.
pub open spec fn spec_jump_number(input: Seq<char>) -> Result<u64, Seq<char>> {
    let t = spec_trim(input);
    if t.len() == 0 {
        Err("Jump 输入不能为空"@)
    } else if spec_has_hex_prefix(t) {
        let hex = t.skip(2);
        if hex.len() == 0 || !spec_all_hex(hex) {
            Err("十六进制 Jump 必须使用 0x 前缀并只包含 0-9/A-F"@)
        } else if spec_radix_value(hex, 16) > u64::MAX {
            Err("Jump 数值超出 u64 范围"@)
        } else {
            Ok(spec_radix_value(hex, 16) as u64)
        }
    } else if !spec_all_dec(t) {
        Err("Jump 必须是十进制整数或 0x 前缀十六进制整数"@)
    } else if spec_radix_value(t, 10) > u64::MAX {
        Err("Jump 数值超出 u64 范围"@)
    } else {
        Ok(spec_radix_value(t, 10) as u64)
    }
}

fn all_hex(v: &Vec<char>) -> (r: bool)
    ensures
        r == spec_all_hex(v@),
{
    let mut i: usize = 0;
    while i < v.len()
        invariant
            i <= v.len(),
            forall|k: int| 0 <= k < i ==> spec_is_hex_digit(#[trigger] v@[k]),
        decreases v.len() - i,
    {
        let c = v[i];
        if !(('0' <= c && c <= '9') || ('a' <= c && c <= 'f') || ('A' <= c && c <= 'F')) {
            assert(!spec_is_hex_digit(v@[i as int]));
            return false;
        }
        i = i + 1;
    }
    true
}

fn all_dec(v: &Vec<char>) -> (r: bool)
    ensures
        r == spec_all_dec(v@),
{
    let mut i: usize = 0;
    while i < v.len()
        invariant
            i <= v.len(),
            forall|k: int| 0 <= k < i ==> '0' <= #[trigger] v@[k] && v@[k] <= '9',
        decreases v.len() - i,
    {
        let c = v[i];
        if !('0' <= c && c <= '9') {
            return false;
        }
        i = i + 1;
    }
    true
}

/// Parse the number typed into the Jump prompt.
pub fn parse_inspect_jump_number(input: &str) -> (r: Result<u64, String>)
    ensures
        match spec_jump_number(input@) {
            Ok(v) => r == Ok::<u64, String>(v),
            Err(m) => r matches Err(e) && e@ == m,
        },
{
    let raw = chars_of(input);
    let t = trim_chars(&raw);
    if t.len() == 0 {
        return Err(String::from_str("Jump 输入不能为空"));
    }
    if t.len() >= 2 && t[0] == '0' && (t[1] == 'x' || t[1] == 'X') {
        let mut hex: Vec<char> = Vec::new();
        let mut i: usize = 2;
        while i < t.len()
            invariant
                2 <= i <= t.len(),
                hex@ == t@.subrange(2, i as int),
            decreases t.len() - i,
        {
            hex.push(t[i]);
            i = i + 1;
            assert(hex@ =~= t@.subrange(2, i as int));
        }
        assert(hex@ =~= t@.skip(2));
        if hex.len() == 0 || !all_hex(&hex) {
            return Err(String::from_str("十六进制 Jump 必须使用 0x 前缀并只包含 0-9/A-F"));
        }
        return match parse_radix_u64(&hex, 16) {
            Some(v) => Ok(v),
            None => Err(String::from_str("Jump 数值超出 u64 范围")),
        };
    }
    if !all_dec(&t) {
        return Err(String::from_str("Jump 必须是十进制整数或 0x 前缀十六进制整数"));
    }
    match parse_radix_u64(&t, 10) {
        Some(v) => Ok(v),
        None => Err(String::from_str("Jump 数值超出 u64 范围")),
    }
}

/// The cumulative `/`-joined ids of a node path: `a`, `a/b`, `a/b/c`, ...
pub open spec fn spec_row_path(node_path: Seq<Seq<char>>) -> Seq<Seq<char>>
    decreases node_path.len(),
{
    if node_path.len() == 0 {
        Seq::empty()
    } else {
        let prev = spec_row_path(node_path.drop_last());
        let before = if prev.len() == 0 { Seq::<char>::empty() } else { prev.last() };
        let current = if before.len() == 0 {
            node_path.last()
        } else {
            before + "/"@ + node_path.last()
        };
        prev.push(current)
    }
}

pub open spec fn spec_views(v: Seq<String>) -> Seq<Seq<char>> {
    v.map_values(|s: String| s@)
}

/// Row ids of every ancestor along a node path.
pub fn inspect_row_path(node_path: &[String]) -> (r: Vec<String>)
    ensures
        spec_views(r@) == spec_row_path(spec_views(node_path@)),
{
    let mut rows: Vec<String> = Vec::new();
    let mut current = String::new();
    let mut i: usize = 0;
    while i < node_path.len()
        invariant
            i <= node_path.len(),
            spec_views(rows@) == spec_row_path(spec_views(node_path@.take(i as int))),
            i == 0 ==> current@.len() == 0,
            i > 0 ==> current@ == spec_views(rows@).last(),
            rows@.len() == i,
        decreases node_path.len() - i,
    {
        proof {
            assert(spec_views(node_path@.take(i + 1)).drop_last() =~= spec_views(
                node_path@.take(i as int),
            ));
            assert(spec_views(node_path@.take(i + 1)).last() == node_path@[i as int]@);
        }
        let ghost cur_before = current@;
        proof {
            reveal_strlit("/");
        }
        if current.as_str().unicode_len() == 0 {
            current.append(node_path[i].as_str());
        } else {
            string_push(&mut current, '/');
            current.append(node_path[i].as_str());
        }
        let ghost before = rows@;
        rows.push(current.clone());
        proof {
            assert(rows@.drop_last() =~= before);
            assert(spec_views(rows@) =~= spec_views(before).push(current@));
            let np = spec_views(node_path@.take(i + 1));
            assert(np.last() == node_path@[i as int]@);
            if cur_before.len() == 0 {
                assert(current@ =~= np.last());
            } else {
                assert(current@ =~= cur_before + "/"@ + np.last());
            }
        }
        i = i + 1;
    }
    assert(node_path@.take(node_path.len() as int) =~= node_path@);
    rows
}

pub open spec fn spec_hex_char(d: nat) -> char {
    if d < 10 {
        (48 + d) as char
    } else {
        (55 + d) as char
    }
}

/// `"AB CD ..."`: each byte as two upper-case hex digits, separated by spaces.
pub open spec fn spec_hex_text(bytes: Seq<u8>) -> Seq<char>
    decreases bytes.len(),
{
    if bytes.len() == 0 {
        Seq::empty()
    } else {
        let b = bytes.last();
        let pair = seq![spec_hex_char((b / 16) as nat), spec_hex_char((b % 16) as nat)];
        if bytes.len() == 1 {
            pair
        } else {
            spec_hex_text(bytes.drop_last()) + " "@ + pair
        }
    }
}

fn hex_char(d: u8) -> (c: char)
    requires
        d < 16,
    ensures
        c == spec_hex_char(d as nat),
{
    if d < 10 {
        ((48 + d) as u8) as char
    } else {
        ((55 + d) as u8) as char
    }
}

pub fn inspect_hex(bytes: &[u8]) -> (r: String)
    ensures
        r@ == spec_hex_text(bytes@),
{
    let mut out = String::new();
    let mut i: usize = 0;
    while i < bytes.len()
        invariant
            i <= bytes.len(),
            out@ == spec_hex_text(bytes@.take(i as int)),
        decreases bytes.len() - i,
    {
        proof {
            assert(bytes@.take(i + 1).drop_last() =~= bytes@.take(i as int));
        }
        if i > 0 {
            out.append(" ");
        }
        let b = bytes[i];
        string_push(&mut out, hex_char(b / 16));
        string_push(&mut out, hex_char(b % 16));
        i = i + 1;
        proof {
            if i == 1 {
                assert(out@ =~= spec_hex_text(bytes@.take(1)));
            }
        }
    }
    assert(bytes@.take(bytes.len() as int) =~= bytes@);
    out
}

pub open spec fn spec_viewport_or_default(f: PaneFocus, p: PaneId) -> PaneViewport {
    if f.spec_has(p) {
        f.spec_viewport(p)
    } else {
        spec_default_viewport()
    }
}

/// `new` is `old` with the overview scrolled to the top and the detail pane scrolled
/// to the top with its first row selected; focus and every other pane are untouched.
pub open spec fn spec_context_reset(old: PaneFocus, new: PaneFocus) -> bool {
    &&& new.wf()
    &&& new.spec_focused() == old.spec_focused()
    &&& forall|p: PaneId|
        new.spec_has(p) <==> (old.spec_has(p) || p == PaneId::InspectOverview || p
            == PaneId::InspectDetail)
    &&& forall|p: PaneId|
        p != PaneId::InspectOverview && p != PaneId::InspectDetail ==> #[trigger] new.spec_viewport(p)
            == old.spec_viewport(p)
    &&& new.spec_viewport(PaneId::InspectOverview) == (PaneViewport {
        scroll_y: VerticalViewport { offset: 0 },
        ..spec_viewport_or_default(old, PaneId::InspectOverview)
    })
    &&& new.spec_viewport(PaneId::InspectDetail) == (PaneViewport {
        scroll_y: VerticalViewport { offset: 0 },
        selected: Some(0usize),
        ..spec_viewport_or_default(old, PaneId::InspectDetail)
    })
}

/// The tree row a move by `delta` from row `n` lands on among `count` rows: up stops
/// at the first row, down at the last.
pub open spec fn spec_tree_target(n: int, delta: int, count: int) -> int {
    if delta < 0 {
        if n + delta < 0 {
            0
        } else {
            n + delta
        }
    } else if n + delta > count - 1 {
        count - 1
    } else {
        n + delta
    }
}

/// `new` is `old` with the browser's tree selection moved to `target`, the selected
/// context reset and no sector open; with no target, or outside the browser, nothing
/// changes.
pub open spec fn spec_tree_moved(old: AppState, new: AppState, target: Option<int>) -> bool {
    match (target, old.advanced_inspect) {
        (Some(t), Some(a)) => if a.stage == AdvancedInspectStage::Browser {
            new == (AppState { advanced_inspect: new.advanced_inspect, ..old }) && (
            new.advanced_inspect matches Some(b) && b == (AdvancedInspectState {
                tree_selected: t as usize,
                pane_focus: b.pane_focus,
                sector: None,
                ..a
            }) && spec_context_reset(a.pane_focus, b.pane_focus))
        } else {
            new == old
        },
        _ => new == old,
    }
}

/// Selecting a new tree row scrolls the overview and detail panes to the top and
/// selects the first detail row.
pub fn reset_inspect_selected_context(state: &mut AdvancedInspectState)
    requires
        old(state).wf(),
    ensures
        final(state).wf(),
        *final(state) == (AdvancedInspectState { pane_focus: final(state).pane_focus, ..*old(state) }),
        spec_context_reset(old(state).pane_focus, final(state).pane_focus),
{
    let v = state.pane_focus.viewport_mut(PaneId::InspectOverview);
    v.scroll_y.top();
    let d = state.pane_focus.viewport_mut(PaneId::InspectDetail);
    d.scroll_y.top();
    d.selected = Some(0);
}

/// `new` is `old` focused on `pane`, registering it at its default viewport if needed.
pub open spec fn spec_focused_on(old: PaneFocus, new: PaneFocus, pane: PaneId) -> bool {
    &&& new.wf()
    &&& new.spec_focused() == pane
    &&& forall|p: PaneId| new.spec_has(p) <==> (old.spec_has(p) || p == pane)
    &&& forall|p: PaneId| #[trigger] old.spec_has(p) ==> new.spec_viewport(p) == old.spec_viewport(p)
    &&& !old.spec_has(pane) ==> new.spec_viewport(pane) == spec_default_viewport()
}

/// The characters typed into a prompt.
pub open spec fn spec_prompt_input(p: AdvancedInspectPrompt) -> Seq<char> {
    match p {
        AdvancedInspectPrompt::Jump { input, .. } => input@,
        AdvancedInspectPrompt::Search { input } => input@,
    }
}

/// `new` is the prompt `old` (same kind and unit) with its input replaced by `text`.
pub open spec fn spec_prompt_edited(
    old: Option<AdvancedInspectPrompt>,
    new: Option<AdvancedInspectPrompt>,
    text: Seq<char>,
) -> bool {
    match (old, new) {
        (None, None) => true,
        (
            Some(AdvancedInspectPrompt::Jump { unit: u1, .. }),
            Some(AdvancedInspectPrompt::Jump { unit: u2, input }),
        ) => u1 == u2 && input@ == text,
        (Some(AdvancedInspectPrompt::Search { .. }), Some(AdvancedInspectPrompt::Search { input })) => input@
            == text,
        _ => false,
    }
}

/// Only the Inspect state changed, and it is present exactly when it was before.
pub open spec fn spec_inspect_only(old: AppState, new: AppState) -> bool {
    &&& new == (AppState { advanced_inspect: new.advanced_inspect, ..old })
    &&& (old.advanced_inspect is Some <==> new.advanced_inspect is Some)
}

/// `new` is `old` with the Inspect prompt (if any) dismissed.
pub open spec fn spec_prompt_cancelled(old: AppState, new: AppState) -> bool {
    &&& spec_inspect_only(old, new)
    &&& old.advanced_inspect matches Some(a) ==> new.advanced_inspect == Some(
        AdvancedInspectState { prompt: None, ..a },
    )
}

/// `new` is `old` after leaving the Inspect browser: nothing changes while no browser is
/// open or its run is still going; otherwise the browser closes and the selection saved
/// when it opened comes back, clamped to the current list.
pub open spec fn spec_inspect_closed(old: AppState, new: AppState) -> bool {
    &&& !(old.advanced_inspect matches Some(a) && a.stage != AdvancedInspectStage::Running)
        ==> new == old
    &&& (old.advanced_inspect matches Some(a) && a.stage != AdvancedInspectStage::Running)
        ==> ({
        let frames = old.navigation.spec_frames();
        &&& new == (AppState {
            advanced_inspect: None,
            navigation: new.navigation,
            selected: new.selected,
            ..old
        })
        &&& frames.len() == 0 ==> new.selected == old.selected && new.navigation.spec_frames()
            == frames
        &&& frames.len() > 0 ==> new.selected == spec_clamp_selection(
            frames.last().selection,
            old.item_count,
        ) && new.navigation.spec_frames() == frames.drop_last()
    })
}

pub open spec fn spec_in_browser(s: AppState) -> bool {
    s.advanced_inspect matches Some(a) && a.stage == AdvancedInspectStage::Browser
}

/// The panel that shows pane `p`, or `panel` when `p` is not an Inspect pane.
pub open spec fn spec_panel_for(p: PaneId, panel: AdvancedInspectPanel) -> AdvancedInspectPanel {
    match spec_pane_panel(p) {
        Some(x) => x,
        None => panel,
    }
}

impl AppState {
    pub fn advanced_inspect(&self) -> (r: Option<&AdvancedInspectState>)
        ensures
            self.advanced_inspect is None ==> r is None,
            self.advanced_inspect matches Some(a) ==> (r matches Some(x) && *x == a),
    {
        match &self.advanced_inspect {
            Some(a) => Some(a),
            None => None,
        }
    }

    pub fn advanced_inspect_focused_pane(&self) -> (r: Option<PaneId>)
        ensures
            self.advanced_inspect is None ==> r is None,
            self.advanced_inspect matches Some(a) ==> r == Some(a.pane_focus.spec_focused()),
    {
        match &self.advanced_inspect {
            Some(a) => Some(a.pane_focus.focused()),
            None => None,
        }
    }

    /// Focus an Inspect pane (and its panel) while browsing; anything else is ignored.
    pub fn advanced_inspect_focus_pane(&mut self, pane: PaneId)
        requires
            old(self).wf(),
        ensures
            final(self).wf(),
            spec_inspect_only(*old(self), *final(self)),
            !(spec_in_browser(*old(self)) && spec_is_inspect(pane)) ==> *final(self) == *old(self),
            (spec_in_browser(*old(self)) && spec_is_inspect(pane)) ==> ({
                let a = old(self).advanced_inspect->Some_0;
                let b = final(self).advanced_inspect->Some_0;
                &&& b == (AdvancedInspectState {
                    pane_focus: b.pane_focus,
                    panel: spec_pane_panel(pane)->Some_0,
                    ..a
                })
                &&& spec_focused_on(a.pane_focus, b.pane_focus, pane)
            }),
    {
        let panel = match AdvancedInspectPanel::from_pane_id(pane) {
            Some(p) => p,
            None => return ,
        };
        if let Some(state) = &mut self.advanced_inspect {
            if state.stage == AdvancedInspectStage::Browser {
                state.pane_focus.focus(pane);
                state.panel = panel;
            }
        }
    }

    /// Move focus between Inspect panes by direction while browsing.
    pub fn advanced_inspect_spatial_focus(&mut self, dx: i8, dy: i8)
        requires
            old(self).wf(),
        ensures
            final(self).wf(),
            spec_inspect_only(*old(self), *final(self)),
            !spec_in_browser(*old(self)) ==> *final(self) == *old(self),
            spec_in_browser(*old(self)) ==> ({
                let a = old(self).advanced_inspect->Some_0;
                let b = final(self).advanced_inspect->Some_0;
                let next = spec_spatial_inspect(a.pane_focus.spec_focused(), dx, dy);
                &&& b == (AdvancedInspectState {
                    pane_focus: b.pane_focus,
                    panel: spec_panel_for(b.pane_focus.spec_focused(), a.panel),
                    ..a
                })
                &&& (next is None ==> b.pane_focus == a.pane_focus)
                &&& (next matches Some(n) ==> b.pane_focus.spec_focused() == n)
            }),
    {
        if let Some(state) = &mut self.advanced_inspect {
            if state.stage == AdvancedInspectStage::Browser {
                state.pane_focus.spatial_inspect(dx, dy);
                if let Some(panel) = AdvancedInspectPanel::from_pane_id(state.pane_focus.focused()) {
                    state.panel = panel;
                }
            }
        }
    }

    /// Cycle focus through the Inspect panes while browsing.
    pub fn advanced_inspect_shift_panel(&mut self, reverse: bool)
        requires
            old(self).wf(),
        ensures
            final(self).wf(),
            spec_inspect_only(*old(self), *final(self)),
            !spec_in_browser(*old(self)) ==> *final(self) == *old(self),
            spec_in_browser(*old(self)) ==> ({
                let a = old(self).advanced_inspect->Some_0;
                let b = final(self).advanced_inspect->Some_0;
                let order = spec_inspect_order();
                let index = spec_position_or_zero(order, a.pane_focus.spec_focused());
                let next = if reverse {
                    if index == 0 {
                        order.len() - 1
                    } else {
                        index - 1
                    }
                } else {
                    (index + 1) % (order.len() as int)
                };
                &&& b.pane_focus.spec_focused() == order[next]
                &&& b == (AdvancedInspectState {
                    pane_focus: b.pane_focus,
                    panel: spec_pane_panel(order[next])->Some_0,
                    ..a
                })
            }),
    {
        if let Some(state) = &mut self.advanced_inspect {
            if state.stage == AdvancedInspectStage::Browser {
                let order = PaneId::inspect_order();
                state.pane_focus.cycle(order.as_slice(), reverse);
                if let Some(panel) = AdvancedInspectPanel::from_pane_id(state.pane_focus.focused()) {
                    state.panel = panel;
                }
            }
        }
    }
}

/// The prompt that `begin_jump` / `begin_search` open: an empty Jump prompt in LBA
/// units, or an empty Search prompt.
pub open spec fn spec_fresh_prompt(p: Option<AdvancedInspectPrompt>, jump: bool) -> bool {
    if jump {
        p matches Some(AdvancedInspectPrompt::Jump { unit, input }) && unit
            == AdvancedInspectJumpUnit::Lba && input@.len() == 0
    } else {
        p matches Some(AdvancedInspectPrompt::Search { input }) && input@.len() == 0
    }
}

/// What opening a prompt does to a browsing state: the sector inspector closes, the
/// tree gets focus, the prompt opens empty and the message clears.
pub open spec fn spec_prompt_opened(a: AdvancedInspectState, b: AdvancedInspectState, jump: bool) -> bool {
    &&& b == (AdvancedInspectState {
        sector: None,
        panel: AdvancedInspectPanel::Tree,
        pane_focus: b.pane_focus,
        prompt: b.prompt,
        message: None,
        ..a
    })
    &&& spec_focused_on(a.pane_focus, b.pane_focus, PaneId::InspectTree)
    &&& spec_fresh_prompt(b.prompt, jump)
}

impl AppState {
    /// Open the Inspect browser on `source`, unless a critical operation is running.
    pub fn begin_advanced_inspect(&mut self, source: AdvancedInspectSource) -> (r: bool)
        requires
            old(self).wf(),
        ensures
            final(self).wf(),
            r == !old(self).critical_operation,
            !r ==> *final(self) == (AppState {
                notice: final(self).notice,
                notice_at: final(self).notice_at,
                ..*old(self)
            }) && spec_msg(final(self).notice, "关键操作仍在执行，完成前不能启动全盘检查。"@),
            r ==> ({
                let a = final(self).advanced_inspect->Some_0;
                &&& *final(self) == (AppState {
                    navigation: final(self).navigation,
                    advanced_inspect: final(self).advanced_inspect,
                    input_mode: InputMode::Normal,
                    ..*old(self)
                })
                &&& final(self).navigation.spec_frames().drop_last()
                    == old(self).navigation.spec_frames()
                &&& final(self).navigation.spec_frames().len() == old(self).navigation.spec_frames().len() + 1
                &&& final(self).navigation.spec_frames().last().location == spec_location_of(
                    old(self).workspace,
                )
                &&& final(self).navigation.spec_frames().last().selection == old(self).selected
                &&& final(self).advanced_inspect is Some
                &&& a.source == source
                &&& a.stage == AdvancedInspectStage::Running
                &&& a.result is None
                &&& a.tree_selected == 0
                &&& a.panel == AdvancedInspectPanel::DiskLayout
                &&& a.pane_focus.spec_focused() == PaneId::InspectDiskLayout
                &&& (forall|p: PaneId| a.pane_focus.spec_has(p) <==> spec_is_inspect(p))
                &&& a.sector is None
                &&& a.sector_cache_order@.len() == 0
                &&& a.preview_load@.len() == 0
                &&& a.tree_revision == 0
                &&& a.yank_register is None
                &&& a.prompt is None
                &&& spec_msg(a.message, "正在后台读取协议上下文并建立全盘结构树…"@)
            }),
    {
        if self.critical_operation {
            self.set_notice(String::from_str("关键操作仍在执行，完成前不能启动全盘检查。"));
            return false;
        }
        let location = NavigationLocation::from_workspace(self.workspace);
        self.push_navigation_frame(location);
        let pane_focus = PaneFocus::inspect();
        self.advanced_inspect = Some(
            AdvancedInspectState {
                source,
                stage: AdvancedInspectStage::Running,
                result: None,
                tree_selected: 0,
                panel: AdvancedInspectPanel::DiskLayout,
                pane_focus,
                sector: None,
                sector_cache_order: Vec::new(),
                preview_load: Vec::new(),
                tree_revision: 0,
                yank_register: None,
                prompt: None,
                message: Some(String::from_str("正在后台读取协议上下文并建立全盘结构树…")),
            },
        );
        self.input_mode = InputMode::Normal;
        true
    }

    /// Take the result of the background Inspect run and start browsing it; its items
/// are kept in ascending sector order, the first item of each sector.
    pub fn advanced_inspect_finish(&mut self, result: Result<InspectWorkspace, String>)
        requires
            old(self).wf(),
        ensures
            final(self).wf(),
            spec_advanced_inspect_finished(*old(self), *final(self), result),
    {
        let mut taken = self.advanced_inspect.take();
        if let Some(state) = &mut taken {
            state.stage = AdvancedInspectStage::Browser;
            state.tree_selected = 0;
            reset_inspect_selected_context(state);
            state.sector = None;
            state.sector_cache_order = Vec::new();
            state.preview_load = Vec::new();
            state.tree_revision = state.tree_revision.wrapping_add(1);
            state.prompt = None;
            match result {
                Ok(workspace) => {
                    let items = normalize_items(workspace.items);
                    state.result = Some(InspectWorkspace { total_sectors: workspace.total_sectors, items });
                    state.message = None;
                },
                Err(message) => {
                    state.result = None;
                    state.message = Some(message);
                },
            }
        }
        self.advanced_inspect = taken;
    }

    /// Move the tree selection by `delta` over the browser's `row_count` tree rows: up
    /// stops at the first row, down at the last. The newly selected row starts with its
    /// overview and detail scrolled to the top and no sector open. Outside the browser,
    /// or without rows, nothing changes.
    pub fn advanced_inspect_move_tree(&mut self, delta: isize, row_count: usize)
        requires
            old(self).wf(),
            old(self).advanced_inspect matches Some(a) ==> (delta >= 0 ==> a.tree_selected + delta
                <= usize::MAX),
        ensures
            final(self).wf(),
            spec_tree_moved(*old(self), *final(self), if row_count == 0 {
                None
            } else {
                Some(
                    match old(self).advanced_inspect {
                        Some(a) => spec_tree_target(a.tree_selected as int, delta as int, row_count as int),
                        None => 0,
                    },
                )
            }),
    {
        if row_count == 0 {
            return;
        }
        let mut taken = self.advanced_inspect.take();
        if let Some(state) = &mut taken {
            if state.stage == AdvancedInspectStage::Browser {
                let n = state.tree_selected;
                state.tree_selected = if delta < 0 {
                    let back: u128 = (0i128 - (delta as i128)) as u128;
                    if (n as u128) <= back {
                        0
                    } else {
                        (n as u128 - back) as usize
                    }
                } else {
                    let step: usize = delta as usize;
                    if n + step > row_count - 1 {
                        row_count - 1
                    } else {
                        n + step
                    }
                };
                reset_inspect_selected_context(state);
                state.sector = None;
            }
        }
        self.advanced_inspect = taken;
    }

    /// Select the first tree row (see `advanced_inspect_move_tree`).
    pub fn advanced_inspect_tree_top(&mut self)
        requires
            old(self).wf(),
        ensures
            final(self).wf(),
            spec_tree_moved(*old(self), *final(self), Some(0)),
    {
        let mut taken = self.advanced_inspect.take();
        if let Some(state) = &mut taken {
            if state.stage == AdvancedInspectStage::Browser {
                state.tree_selected = 0;
                reset_inspect_selected_context(state);
                state.sector = None;
            }
        }
        self.advanced_inspect = taken;
    }

    /// Select the last of the browser's `row_count` tree rows (the first when there are
    /// none; see `advanced_inspect_move_tree`).
    pub fn advanced_inspect_tree_bottom(&mut self, row_count: usize)
        requires
            old(self).wf(),
        ensures
            final(self).wf(),
            spec_tree_moved(*old(self), *final(self), Some(if row_count == 0 { 0 } else { row_count - 1 })),
    {
        let last: usize = if row_count == 0 {
            0
        } else {
            row_count - 1
        };
        let mut taken = self.advanced_inspect.take();
        if let Some(state) = &mut taken {
            if state.stage == AdvancedInspectStage::Browser {
                state.tree_selected = last;
                reset_inspect_selected_context(state);
                state.sector = None;
            }
        }
        self.advanced_inspect = taken;
    }

    pub fn advanced_inspect_prompt(&self) -> (r: Option<&AdvancedInspectPrompt>)
        ensures
            self.advanced_inspect matches Some(a) ==> (a.prompt matches Some(p) ==> (r matches Some(
                x,
            ) && *x == p)),
            !(self.advanced_inspect matches Some(a) && a.prompt is Some) ==> r is None,
    {
        match &self.advanced_inspect {
            Some(a) => match &a.prompt {
                Some(p) => Some(p),
                None => None,
            },
            None => None,
        }
    }

    /// Open an empty Jump prompt (LBA units) over the tree while browsing.
    pub fn advanced_inspect_begin_jump(&mut self)
        requires
            old(self).wf(),
        ensures
            final(self).wf(),
            spec_inspect_only(*old(self), *final(self)),
            !spec_in_browser(*old(self)) ==> *final(self) == *old(self),
            spec_in_browser(*old(self)) ==> spec_prompt_opened(
                old(self).advanced_inspect->Some_0,
                final(self).advanced_inspect->Some_0,
                true,
            ),
    {
        if let Some(state) = &mut self.advanced_inspect {
            if state.stage == AdvancedInspectStage::Browser {
                state.sector = None;
                state.panel = AdvancedInspectPanel::Tree;
                state.pane_focus.focus(PaneId::InspectTree);
                state.prompt = Some(
                    AdvancedInspectPrompt::Jump {
                        unit: AdvancedInspectJumpUnit::Lba,
                        input: String::new(),
                    },
                );
                state.message = None;
            }
        }
    }

    /// Open an empty Search prompt over the tree while browsing.
    pub fn advanced_inspect_begin_search(&mut self)
        requires
            old(self).wf(),
        ensures
            final(self).wf(),
            spec_inspect_only(*old(self), *final(self)),
            !spec_in_browser(*old(self)) ==> *final(self) == *old(self),
            spec_in_browser(*old(self)) ==> spec_prompt_opened(
                old(self).advanced_inspect->Some_0,
                final(self).advanced_inspect->Some_0,
                false,
            ),
    {
        if let Some(state) = &mut self.advanced_inspect {
            if state.stage == AdvancedInspectStage::Browser {
                state.sector = None;
                state.panel = AdvancedInspectPanel::Tree;
                state.pane_focus.focus(PaneId::InspectTree);
                state.prompt = Some(AdvancedInspectPrompt::Search { input: String::new() });
                state.message = None;
            }
        }
    }

    pub fn advanced_inspect_cancel_prompt(&mut self)
        requires
            old(self).wf(),
        ensures
            final(self).wf(),
            spec_prompt_cancelled(*old(self), *final(self)),
    {
        if let Some(state) = &mut self.advanced_inspect {
            state.prompt = None;
        }
    }

    /// Type a character into the open prompt.
    pub fn advanced_inspect_prompt_push(&mut self, ch: char)
        requires
            old(self).wf(),
        ensures
            final(self).wf(),
            spec_inspect_only(*old(self), *final(self)),
            old(self).advanced_inspect matches Some(a) ==> ({
                let b = final(self).advanced_inspect->Some_0;
                &&& b == (AdvancedInspectState { prompt: b.prompt, ..a })
                &&& spec_prompt_edited(
                    a.prompt,
                    b.prompt,
                    match a.prompt {
                        Some(p) => spec_prompt_input(p).push(ch),
                        None => Seq::empty(),
                    },
                )
            }),
    {
        if let Some(state) = &mut self.advanced_inspect {
            match &mut state.prompt {
                Some(AdvancedInspectPrompt::Jump { input, .. }) => string_push(input, ch),
                Some(AdvancedInspectPrompt::Search { input }) => string_push(input, ch),
                None => {},
            }
        }
    }

    /// Delete the last character of the open prompt's input.
    pub fn advanced_inspect_prompt_backspace(&mut self)
        requires
            old(self).wf(),
        ensures
            final(self).wf(),
            spec_inspect_only(*old(self), *final(self)),
            old(self).advanced_inspect matches Some(a) ==> ({
                let b = final(self).advanced_inspect->Some_0;
                &&& b == (AdvancedInspectState { prompt: b.prompt, ..a })
                &&& spec_prompt_edited(
                    a.prompt,
                    b.prompt,
                    match a.prompt {
                        Some(p) => if spec_prompt_input(p).len() == 0 {
                            spec_prompt_input(p)
                        } else {
                            spec_prompt_input(p).drop_last()
                        },
                        None => Seq::empty(),
                    },
                )
            }),
    {
        if let Some(state) = &mut self.advanced_inspect {
            match &mut state.prompt {
                Some(AdvancedInspectPrompt::Jump { input, .. }) => {
                    string_pop(input);
                },
                Some(AdvancedInspectPrompt::Search { input }) => {
                    string_pop(input);
                },
                None => {},
            }
        }
    }

    /// Switch an open Jump prompt between LBA and byte-offset units.
    pub fn advanced_inspect_toggle_jump_unit(&mut self)
        requires
            old(self).wf(),
        ensures
            final(self).wf(),
            spec_inspect_only(*old(self), *final(self)),
            old(self).advanced_inspect matches Some(a) ==> ({
                let b = final(self).advanced_inspect->Some_0;
                &&& b == (AdvancedInspectState { prompt: b.prompt, ..a })
                &&& match (a.prompt, b.prompt) {
                    (
                        Some(AdvancedInspectPrompt::Jump { unit: u1, input: i1 }),
                        Some(AdvancedInspectPrompt::Jump { unit: u2, input: i2 }),
                    ) => i2@ == i1@ && u2 != u1,
                    (Some(AdvancedInspectPrompt::Jump { .. }), _) => false,
                    (x, y) => x == y,
                }
            }),
    {
        if let Some(state) = &mut self.advanced_inspect {
            if let Some(AdvancedInspectPrompt::Jump { unit, .. }) = &mut state.prompt {
                *unit = match *unit {
                    AdvancedInspectJumpUnit::Lba => AdvancedInspectJumpUnit::ByteOffset,
                    AdvancedInspectJumpUnit::ByteOffset => AdvancedInspectJumpUnit::Lba,
                };
            }
        }
    }

    /// Leave the Inspect browser (not while its run is still going) and restore the
    /// selection saved when it opened, clamped to the current list.
    pub fn close_advanced_inspect(&mut self)
        requires
            old(self).wf(),
        ensures
            final(self).wf(),
            spec_inspect_closed(*old(self), *final(self)),
    {
        let closable = match &self.advanced_inspect {
            Some(a) => a.stage != AdvancedInspectStage::Running,
            None => false,
        };
        if closable {
            self.advanced_inspect = None;
            if let Some(frame) = self.pop_navigation_frame() {
                let last = if self.item_count == 0 {
                    0
                } else {
                    self.item_count - 1
                };
                self.selected = if frame.selection < last {
                    frame.selection
                } else {
                    last
                };
            }
        }
    }
}

impl AppState {
    /// The request that starts the open Inspect run: the first `metadata_sectors`
    /// sectors, and for a disk the device identity from its scan row.
    pub fn advanced_inspect_request(&self, metadata_sectors: u64) -> (r: Result<
        (AdvancedInspectSource, InspectMetaRequest),
        String,
    >)
        requires
            metadata_sectors <= usize::MAX,
        ensures
            self.advanced_inspect is None ==> (r matches Err(e) && e@ == "全盘检查未打开"@),
            self.advanced_inspect matches Some(a) ==> (r matches Ok((source, request)) && source
                == a.source && request.lbas@ == Seq::new(metadata_sectors as nat, |i: int| i as u64)
                && request.device_id_override == match a.source {
                AdvancedInspectSource::Disk(d) => spec_device_id_of(self.devices@, d),
                AdvancedInspectSource::Backup(_) => None,
            }),
    {
        let state = match &self.advanced_inspect {
            Some(a) => a,
            None => return Err(String::from_str("全盘检查未打开")),
        };
        let device_id_override = match &state.source {
            AdvancedInspectSource::Disk(disk) => match crate::state::disk_position(&self.devices, *disk) {
                Some(p) => crate::state::copy_opt_string(&self.devices[p].device_id),
                None => None,
            },
            AdvancedInspectSource::Backup(_) => None,
        };
        let mut lbas: Vec<u64> = Vec::new();
        let mut i: u64 = 0;
        while i < metadata_sectors
            invariant
                i <= metadata_sectors,
                lbas@ == Seq::new(i as nat, |k: int| k as u64),
            decreases metadata_sectors - i,
        {
            lbas.push(i);
            i = i + 1;
            assert(lbas@ =~= Seq::new(i as nat, |k: int| k as u64));
        }
        Ok((state.source.copy(), InspectMetaRequest { lbas, device_id_override }))
    }
}

/// `new` is `old` after an advanced-inspect task reported `result`.
pub open spec fn spec_advanced_inspect_finished(old: AppState, new: AppState, result: Result<InspectWorkspace, String>) -> bool {
    &&& spec_inspect_only(old, new)
    &&& old.advanced_inspect is None ==> new == old
    &&& old.advanced_inspect matches Some(a) ==> ({
        let b = new.advanced_inspect->Some_0;
        &&& b == (AdvancedInspectState {
            stage: AdvancedInspectStage::Browser,
            tree_selected: 0,
            pane_focus: b.pane_focus,
            sector: None,
            sector_cache_order: b.sector_cache_order,
            preview_load: b.preview_load,
            tree_revision: (if a.tree_revision == u64::MAX {
                0
            } else {
                (a.tree_revision + 1) as u64
            }),
            prompt: None,
            result: b.result,
            message: b.message,
            ..a
        })
        &&& spec_context_reset(a.pane_focus, b.pane_focus)
        &&& b.sector_cache_order@.len() == 0
        &&& b.preview_load@.len() == 0
        &&& (result matches Ok(w) ==> (b.result matches Some(kept) && kept.total_sectors
            == w.total_sectors && kept.items@ == spec_normal_form(w.items@)) && b.message is None)
        &&& (result matches Err(m) ==> b.result is None && b.message == Some(m))
    })
}

} // verus!
