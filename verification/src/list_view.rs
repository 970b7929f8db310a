//! The text of the device and backup list panels: the panel title with its row count,
//! the notice shown in place of an empty table, and the backup search box.

use vstd::prelude::*;
use crate::backups::spec_path_views;
use crate::device_view::{spec_cell_views, spec_or_dash};
use crate::state::{spec_msg, AppState, BackupItem, InputMode, Workspace};
use crate::text::{spec_decimal, u128_decimal, u64_decimal};

verus! {

#[derive(Debug, Clone, Copy, PartialEq, Eq, Structural)]
pub enum ListKind {
    Devices,
    Backups,
}

/// A list panel's title, and the lines shown instead of the table when no row is
/// visible (the first line is the heading).
pub struct ListPanel {
    pub title: String,
    pub empty_lines: Option<Vec<String>>,
}

/// How the search box is drawn: while typing, while a submitted filter is in force,
/// or idle.
#[derive(Debug, Clone, Copy, PartialEq, Eq, Structural)]
pub enum SearchTone {
    Typing,
    Filtered,
    Idle,
}

pub struct SearchBox {
    pub title: String,
    pub text: String,
    pub tone: SearchTone,
}

pub open spec fn spec_visible_count(s: AppState, kind: ListKind) -> nat {
    let own = match kind {
        ListKind::Devices => Workspace::Devices,
        ListKind::Backups => Workspace::Backups,
    };
    if s.workspace == own && s.spec_filter_active() {
        s.search_matches@.len()
    } else {
        match kind {
            ListKind::Devices => s.devices@.len(),
            ListKind::Backups => s.backups@.len(),
        }
    }
}

pub open spec fn spec_total_count(s: AppState, kind: ListKind) -> nat {
    match kind {
        ListKind::Devices => s.devices@.len(),
        ListKind::Backups => s.backups@.len(),
    }
}

/// The row count in a list title: "shown/total" while a filter is active, else the total.
pub open spec fn spec_count_label(s: AppState, kind: ListKind) -> Seq<char> {
    if s.spec_filter_active() {
        spec_decimal(spec_visible_count(s, kind)) + "/"@ + spec_decimal(spec_total_count(s, kind))
    } else {
        spec_decimal(spec_total_count(s, kind))
    }
}

pub open spec fn spec_list_title(s: AppState, kind: ListKind) -> Seq<char> {
    let (name, pending) = match kind {
        ListKind::Devices => ("设备列表 ("@, s.device_scan_pending),
        ListKind::Backups => ("备份列表 ("@, s.backup_scan_pending),
    };
    name + spec_count_label(s, kind) + (if pending { ")"@ + " · 扫描中…"@ } else { ")"@ })
}

/// What an empty list says: no match for the filter, or nothing found yet.
pub open spec fn spec_empty_lines(s: AppState, kind: ListKind) -> Seq<Seq<char>> {
    match kind {
        ListKind::Devices => if s.spec_filter_active() {
            seq![
                "没有匹配记录"@,
                ""@,
                "当前搜索条件没有匹配任何设备。"@,
                "继续输入可实时更新；清空搜索词后恢复全部设备。"@,
                ""@,
                "Tab / Shift-Tab 切换设备与备份标签。"@,
            ]
        } else {
            seq![
                "暂无设备数据"@,
                ""@,
                "未检测到符合条件的存储设备。"@,
                "按 r 刷新设备；插入 U 盘后可再次扫描。"@,
                ""@,
                "Tab / Shift-Tab 切换设备与备份标签。"@,
            ]
        },
        ListKind::Backups => if s.spec_filter_active() {
            seq![
                "没有匹配记录"@,
                ""@,
                "当前搜索条件没有匹配任何备份。"@,
                "继续输入可实时更新；清空搜索词后恢复全部备份。"@,
            ]
        } else {
            seq![
                "暂无备份记录"@,
                ""@,
                "先在“设备”页面选择目标 U 盘，然后按 b 创建只读备份。"@,
                "备份创建完成后，这里会自动刷新。"@,
            ]
        },
    }
}

pub open spec fn spec_string_views(v: Seq<String>) -> Seq<Seq<char>> {
    Seq::new(v.len(), |i: int| v[i]@)
}

fn strings(items: &[&str]) -> (r: Vec<String>)
    ensures
        spec_string_views(r@) == Seq::new(items@.len(), |i: int| items@[i]@),
{
    let mut out: Vec<String> = Vec::new();
    let mut i: usize = 0;
    while i < items.len()
        invariant
            i <= items@.len(),
            out@.len() == i,
            spec_string_views(out@) =~= Seq::new(i as nat, |k: int| items@[k]@),
        decreases items.len() - i,
    {
        let ghost before = out@;
        let item = String::from_str(items[i]);
        out.push(item);
        assert(spec_string_views(out@) =~= Seq::new((i + 1) as nat, |k: int| items@[k]@)) by {
            assert(out@[i as int]@ == items@[i as int]@);
            assert forall|k: int| 0 <= k < i + 1 implies spec_string_views(out@)[k] == items@[k]@ by {
                if k < i {
                    assert(out@[k] == before[k]);
                    assert(spec_string_views(before)[k] == items@[k]@);
                }
            }
        }
        i = i + 1;
    }
    out
}

fn decimal(n: usize) -> (r: String)
    ensures
        r@ == spec_decimal(n as nat),
{
    u64_decimal(n as u64)
}

/// A backup's health: a size that does not match, or whether its integrity check
/// passed.
pub open spec fn spec_backup_health(b: BackupItem) -> Seq<char> {
    if !b.size_ok {
        "大小异常"@
    } else if b.integrity_verified {
        "EDPB ✓"@
    } else {
        "EDPB ✗"@
    }
}

/// The cells of a backup table row: the selection tick, number, time, disk kind,
/// user, department and health.
pub open spec fn spec_backup_cells(selected: bool, b: BackupItem) -> Seq<Seq<char>> {
    seq![
        if selected { "✓"@ } else { ""@ },
        spec_decimal(b.index as nat),
        b.display_time@,
        b.kind_short_name@,
        spec_or_dash(b.user),
        spec_or_dash(b.dept),
        spec_backup_health(b),
    ]
}

pub fn backup_health_text(b: &BackupItem) -> (r: &'static str)
    ensures
        r@ == spec_backup_health(*b),
{
    if !b.size_ok {
        "大小异常"
    } else if b.integrity_verified {
        "EDPB ✓"
    } else {
        "EDPB ✗"
    }
}

fn or_dash_text(o: &Option<String>) -> (r: String)
    ensures
        r@ == spec_or_dash(*o),
{
    match o {
        Some(s) => s.clone(),
        None => String::from_str("—"),
    }
}

impl AppState {
    /// The title and empty-table text of the device or backup list panel.
    pub fn list_panel(&self, kind: ListKind) -> (r: ListPanel)
        ensures
            r.title@ == spec_list_title(*self, kind),
            spec_visible_count(*self, kind) == 0 ==> (r.empty_lines matches Some(lines)
                && spec_string_views(lines@) == spec_empty_lines(*self, kind)),
            spec_visible_count(*self, kind) > 0 ==> r.empty_lines is None,
    {
        let (visible, total, pending) = match kind {
            ListKind::Devices => (self.visible_device_count(), self.devices.len(), self.device_scan_pending),
            ListKind::Backups => (self.visible_backup_count(), self.backups.len(), self.backup_scan_pending),
        };
        let filtered = self.workspace_filter_active();
        let mut title = match kind {
            ListKind::Devices => String::from_str("设备列表 ("),
            ListKind::Backups => String::from_str("备份列表 ("),
        };
        if filtered {
            let v = decimal(visible);
            title.append(v.as_str());
            title.append("/");
        }
        let t = decimal(total);
        title.append(t.as_str());
        if pending {
            title.append(")");
            title.append(" · 扫描中…");
        } else {
            title.append(")");
        }
        let empty_lines = if visible == 0 {
            let lines = match kind {
                ListKind::Devices => if filtered {
                    strings(&["没有匹配记录", "", "当前搜索条件没有匹配任何设备。",
                        "继续输入可实时更新；清空搜索词后恢复全部设备。", "",
                        "Tab / Shift-Tab 切换设备与备份标签。"])
                } else {
                    strings(&["暂无设备数据", "", "未检测到符合条件的存储设备。",
                        "按 r 刷新设备；插入 U 盘后可再次扫描。", "",
                        "Tab / Shift-Tab 切换设备与备份标签。"])
                },
                ListKind::Backups => if filtered {
                    strings(&["没有匹配记录", "", "当前搜索条件没有匹配任何备份。",
                        "继续输入可实时更新；清空搜索词后恢复全部备份。"])
                } else {
                    strings(&["暂无备份记录", "",
                        "先在“设备”页面选择目标 U 盘，然后按 b 创建只读备份。",
                        "备份创建完成后，这里会自动刷新。"])
                },
            };
            assert(spec_string_views(lines@) =~= spec_empty_lines(*self, kind));
            Some(lines)
        } else {
            None
        };
        ListPanel { title, empty_lines }
    }

    /// The cells of `b` in the backup table; the tick shows whether it is selected for
    /// batch deletion.
    pub fn backup_row_cells(&self, b: &BackupItem) -> (r: Vec<String>)
        ensures
            spec_cell_views(r@) == spec_backup_cells(
                spec_path_views(self.backup_selection@).contains(b.path@),
                *b,
            ),
    {
        let selected = self.backup_is_selected(b.path.as_str());
        let mut cells: Vec<String> = Vec::new();
        cells.push(if selected { String::from_str("✓") } else { String::from_str("") });
        cells.push(u128_decimal(b.index as u128));
        cells.push(b.display_time.clone());
        cells.push(b.kind_short_name.clone());
        cells.push(or_dash_text(&b.user));
        cells.push(or_dash_text(&b.dept));
        cells.push(String::from_str(backup_health_text(b)));
        assert(spec_cell_views(cells@) =~= spec_backup_cells(
            spec_path_views(self.backup_selection@).contains(b.path@),
            *b,
        ));
        cells
    }

    /// The backup list's search box: the query being typed with a cursor, the result
    /// line of a submitted search, or the prompt.
    pub fn backup_search_box(&self) -> (r: SearchBox)
        ensures
            self.input_mode == InputMode::Search ==> r.tone == SearchTone::Typing
                && r.title@ == "搜索 · 实时过滤"@ && r.text@ == "/"@ + self.input_buffer@ + "▌"@,
            self.input_mode != InputMode::Search ==> r.title@ == "搜索"@ && r.tone == (
            if self.spec_filter_active() {
                SearchTone::Filtered
            } else {
                SearchTone::Idle
            }) && (if self.search_query@.len() > 0 {
                r.text@ == "/"@ + self.search_query@ + "  "@ + spec_decimal(
                    self.search_matches@.len(),
                ) + " 条结果"@
            } else {
                r.text@ == "/ 搜索姓名、部门、onlyid"@
            }),
    {
        if self.input_mode == InputMode::Search {
            let mut text = String::from_str("/");
            text.append(self.input_buffer.as_str());
            text.append("▌");
            return SearchBox { title: String::from_str("搜索 · 实时过滤"), text, tone: SearchTone::Typing };
        }
        let tone = if self.workspace_filter_active() {
            SearchTone::Filtered
        } else {
            SearchTone::Idle
        };
        let text = match self.search_status() {
            Some(status) => status,
            None => String::from_str("/ 搜索姓名、部门、onlyid"),
        };
        proof {
            if self.search_query@.len() > 0 {
                assert(spec_msg(
                    Some(text),
                    "/"@ + self.search_query@ + "  "@ + spec_decimal(self.search_matches@.len())
                        + " 条结果"@,
                ));
            }
        }
        SearchBox { title: String::from_str("搜索"), text, tone }
    }
}

} // verus!
