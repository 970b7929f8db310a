//! The status line at the foot of the frame: what the keys do right now. A critical
//! operation explains that exit is deferred; otherwise the open flow, input mode or
//! workspace decides.
//!
//! Two hints rest on the Inspect browser and the Provision form, whose models are
//! not part of this crate, so they come in as arguments: the Inspect escape hint and
//! search position, and whether the selected form field is editable and switches
//! capacity units.

use vstd::prelude::*;
use crate::backups::{BackupBatchDeleteStage, BackupPruneStage};
use crate::inspect::AdvancedInspectStage;
use crate::provision::ProvisionStage;
use crate::state::{AppState, InputMode, WizardStage, Workspace};
use crate::table_layout::{
    layout_for, spec_layout_specs, spec_scrollable_count, spec_table_slot, TableKind,
};
use crate::text::{spec_decimal, u128_decimal};

verus! {

/// "column/columns" of a table's horizontal scroll.
pub open spec fn spec_scroll_position(s: AppState, kind: TableKind) -> Seq<char> {
    spec_decimal((s.horizontal_scroll@[spec_table_slot(kind)].spec_offset() + 1) as nat) + "/"@
        + spec_decimal(spec_scrollable_count(spec_layout_specs(kind)))
}

pub open spec fn spec_wizard_stage_line(stage: WizardStage) -> Seq<char> {
    match stage {
        WizardStage::Confirm => "输入 YES  ·  Backspace 删除  ·  Enter 执行  ·  Esc 返回"@,
        WizardStage::Running => "q / Ctrl-C 延迟退出"@,
        WizardStage::Result => "Enter / Esc 关闭"@,
    }
}

pub open spec fn spec_delete_stage_line(stage: WizardStage) -> Seq<char> {
    match stage {
        WizardStage::Confirm => "输入 YES · Backspace 删除 · Enter 删除 · Esc 取消"@,
        WizardStage::Running => "q / Ctrl-C 延迟退出"@,
        WizardStage::Result => "Enter / Esc 关闭"@,
    }
}

pub open spec fn spec_batch_stage_line(stage: BackupBatchDeleteStage) -> Seq<char> {
    match stage {
        BackupBatchDeleteStage::Planning => "正在生成删除计划…"@,
        BackupBatchDeleteStage::Review => "Enter 确认 · Esc 取消"@,
        BackupBatchDeleteStage::Confirm => "输入 YES · Backspace 删除 · Enter 执行 · Esc 返回"@,
        BackupBatchDeleteStage::Running => "q / Ctrl-C 延迟退出"@,
        BackupBatchDeleteStage::Result => "Enter / Esc 关闭"@,
    }
}

pub open spec fn spec_prune_stage_line(stage: BackupPruneStage) -> Seq<char> {
    match stage {
        BackupPruneStage::Input => "输入保留份数 · Backspace 删除 · Enter 预览 · Esc 取消"@,
        BackupPruneStage::Planning => "正在生成清理计划…"@,
        BackupPruneStage::Review => "Enter 确认 · Esc 取消"@,
        BackupPruneStage::Confirm => "输入 YES · Backspace 删除 · Enter 执行 · Esc 返回"@,
        BackupPruneStage::Running => "q / Ctrl-C 延迟退出"@,
        BackupPruneStage::Result => "Enter / Esc 关闭"@,
    }
}

pub open spec fn spec_inspect_line(
    stage: AdvancedInspectStage,
    escape: Seq<char>,
    search: Option<(Seq<char>, usize, usize)>,
) -> Seq<char> {
    match stage {
        AdvancedInspectStage::Running => "全盘检查后台只读建立结构树…"@,
        AdvancedInspectStage::Browser => match search {
            Some((query, index, total)) =>
                "Inspect：Tab/Shift-Tab Pane · Ctrl-w h/j/k/l focus · j/k 当前 Pane · Enter Sector Inspector · "@
                + escape + " · q 退出 · 当前 "@ + spec_decimal(index as nat) + "/"@ + spec_decimal(
                total as nat) + ": "@ + query,
            None =>
                "Inspect：Tab/Shift-Tab Pane · Ctrl-w h/j/k/l focus · j/k 当前 Pane · Ctrl-u/d/PgUp/PgDn 滚动 · gg/G 首尾 · Enter Sector Inspector · "@
                + escape + " · q 退出"@,
        },
    }
}

pub open spec fn spec_provision_line(s: AppState, field_editable: bool, unit_toggle: bool) -> Seq<char> {
    match s.provision.stage {
        ProvisionStage::SelectDisk => "制盘选盘：j/k 选择 · h/l 横向滚动 · "@ + spec_scroll_position(
            s,
            TableKind::ProvisionDevices,
        ) + " 列 · Enter 固定目标 · Esc 返回设备页"@,
        ProvisionStage::BackupPrompt => "制盘前保存：j/k 选择 · Enter 确认 · Esc 返回设备"@,
        ProvisionStage::BackupSaving => "正在保存当前盘…"@,
        ProvisionStage::Menu => "j/k 选择方案 · h/l 横向滚动 · "@ + spec_scroll_position(
            s,
            TableKind::ProvisionMenu,
        ) + " 列 · Enter 打开 · Esc 返回 · q 退出"@,
        ProvisionStage::Form => if s.input_mode == InputMode::Insert {
            "INSERT · ←/→ 光标 · Home/End 首尾 · 输入/Backspace 编辑 · Enter/Esc 完成编辑"@
        } else if field_editable {
            "NORMAL · j/k 字段 · i 编辑"@ + (if unit_toggle {
                " · Space 单位 · f 填满"@
            } else {
                ""@
            }) + " · Enter 生成计划 · Esc 返回"@
        } else {
            "NORMAL · j/k 字段 · i 编辑 · h/l 或 Space 切换 · Enter 生成计划 · Esc 返回"@
        },
        ProvisionStage::Planning => "正在生成只读计划…"@,
        ProvisionStage::Review => "Enter 最终确认  ·  e 导出镜像  ·  Esc 返回修改"@,
        ProvisionStage::ExportPath => "输入导出路径  ·  Enter 导出  ·  Esc 返回计划"@,
        ProvisionStage::Exporting => "镜像正在后台导出…"@,
        ProvisionStage::Confirm => "输入 YES + Enter 执行  ·  Esc 返回计划"@,
        ProvisionStage::Running => "安全事务执行中；Esc 不退出，q / Ctrl-C 的退出请求延迟到安全检查点"@,
        ProvisionStage::Result => "Enter / Esc 返回制盘中心"@,
    }
}

pub open spec fn spec_workspace_line(s: AppState, field_editable: bool, unit_toggle: bool) -> Seq<char> {
    match s.workspace {
        Workspace::Devices => if s.spec_selected_device() is Some {
            "Tab/Shift-Tab 标签 · j/k 移动 · h/l 横向滚动 · "@ + spec_scroll_position(s, TableKind::Devices)
                + " 列 · Enter 制盘 · i Inspect · b 新建备份 · Esc 当前标签 · q 退出"@
        } else {
            "Tab/Shift-Tab 标签 · r 刷新 · Esc 当前标签 · q 退出"@
        },
        Workspace::Backups => if s.spec_selected_backup() is Some {
            "Tab/Shift-Tab 标签 · j/k 移动 · h/l 横向滚动 · "@ + spec_scroll_position(s, TableKind::Backups)
                + " 列 · Space 勾选 · Enter/i Inspect · b 新建 · v 校验 · R 恢复 · d 删除 · Esc 当前标签 · q 退出"@
        } else {
            "Tab/Shift-Tab 标签 · b 新建 · r 刷新 · Esc 当前标签 · q 退出"@
        },
        Workspace::Provision => spec_provision_line(s, field_editable, unit_toggle),
    }
}

/// The status line for state `s`, given the Inspect escape hint and search position
/// and the Provision form's selected-field facts.
pub open spec fn spec_status_line(
    s: AppState,
    escape: Seq<char>,
    search: Option<(Seq<char>, usize, usize)>,
    field_editable: bool,
    unit_toggle: bool,
) -> Seq<char> {
    if s.critical_operation && s.backup_delete is Some {
        "备份删除正在执行：Esc 不退出；q / Ctrl-C 将延迟到安全检查点"@
    } else if s.critical_operation && s.backup_batch_delete is Some {
        "批量备份删除正在执行：Esc 不退出；q / Ctrl-C 将延迟到安全检查点"@
    } else if s.critical_operation && s.backup_prune is Some {
        "备份清理正在执行：Esc 不退出；q / Ctrl-C 将延迟到安全检查点"@
    } else if s.critical_operation {
        "关键写盘阶段：Esc 不退出；q / Ctrl-C 将延迟到安全检查点"@
    } else if s.advanced_inspect is Some {
        spec_inspect_line(s.advanced_inspect->Some_0.stage, escape, search)
    } else if s.input_mode == InputMode::Search {
        "/"@ + s.input_buffer@ + "  ·  输入即过滤  ·  Enter 确认  ·  Esc 取消编辑"@
    } else if s.input_mode == InputMode::Command {
        ":"@ + s.input_buffer@ + "  ·  Enter 执行  ·  Backspace 删除  ·  Esc 取消"@
    } else if s.input_mode == InputMode::Help {
        "Esc 返回  ·  q 退出"@
    } else if s.wizard is Some {
        spec_wizard_stage_line(s.wizard->Some_0.stage)
    } else if s.backup_delete is Some {
        spec_delete_stage_line(s.backup_delete->Some_0.stage)
    } else if s.backup_batch_delete is Some {
        spec_batch_stage_line(s.backup_batch_delete->Some_0.stage)
    } else if s.backup_prune is Some {
        spec_prune_stage_line(s.backup_prune->Some_0.stage)
    } else {
        spec_workspace_line(s, field_editable, unit_toggle)
    }
}

fn text(s: &str) -> (r: String)
    ensures
        r@ == s@,
{
    String::from_str(s)
}

impl AppState {
    fn scroll_position(&self, kind: TableKind) -> (r: String)
        requires
            self.horizontal_scroll@.len() == 5,
        ensures
            r@ == spec_scroll_position(*self, kind),
    {
        let offset = self.table_scroll_offset(kind);
        let count = layout_for(kind).scrollable_count();
        let mut out = u128_decimal(offset as u128 + 1);
        out.append("/");
        let c = u128_decimal(count as u128);
        out.append(c.as_str());
        out
    }

    /// The status line. `inspect_escape` and `inspect_search` (query, match number,
    /// match count) describe the Inspect browser; `field_editable` and `unit_toggle`
    /// the selected Provision form field.
    pub fn status_line(
        &self,
        inspect_escape: &str,
        inspect_search: Option<(&str, usize, usize)>,
        field_editable: bool,
        unit_toggle: bool,
    ) -> (r: String)
        requires
            self.wf(),
        ensures
            r@ == spec_status_line(
                *self,
                inspect_escape@,
                match inspect_search {
                    Some((q, i, t)) => Some((q@, i, t)),
                    None => None,
                },
                field_editable,
                unit_toggle,
            ),
    {
        if self.critical_operation && self.backup_delete.is_some() {
            return text("备份删除正在执行：Esc 不退出；q / Ctrl-C 将延迟到安全检查点");
        }
        if self.critical_operation && self.backup_batch_delete.is_some() {
            return text("批量备份删除正在执行：Esc 不退出；q / Ctrl-C 将延迟到安全检查点");
        }
        if self.critical_operation && self.backup_prune.is_some() {
            return text("备份清理正在执行：Esc 不退出；q / Ctrl-C 将延迟到安全检查点");
        }
        if self.critical_operation {
            return text("关键写盘阶段：Esc 不退出；q / Ctrl-C 将延迟到安全检查点");
        }
        if let Some(advanced) = &self.advanced_inspect {
            return match advanced.stage {
                AdvancedInspectStage::Running => text("全盘检查后台只读建立结构树…"),
                AdvancedInspectStage::Browser => match inspect_search {
                    Some((query, index, total)) => {
                        let mut out = text(
                            "Inspect：Tab/Shift-Tab Pane · Ctrl-w h/j/k/l focus · j/k 当前 Pane · Enter Sector Inspector · ",
                        );
                        out.append(inspect_escape);
                        out.append(" · q 退出 · 当前 ");
                        let a = u128_decimal(index as u128);
                        out.append(a.as_str());
                        out.append("/");
                        let b = u128_decimal(total as u128);
                        out.append(b.as_str());
                        out.append(": ");
                        out.append(query);
                        out
                    },
                    None => {
                        let mut out = text(
                            "Inspect：Tab/Shift-Tab Pane · Ctrl-w h/j/k/l focus · j/k 当前 Pane · Ctrl-u/d/PgUp/PgDn 滚动 · gg/G 首尾 · Enter Sector Inspector · ",
                        );
                        out.append(inspect_escape);
                        out.append(" · q 退出");
                        out
                    },
                },
            };
        }
        if self.input_mode == InputMode::Search {
            let mut out = text("/");
            out.append(self.input_buffer.as_str());
            out.append("  ·  输入即过滤  ·  Enter 确认  ·  Esc 取消编辑");
            return out;
        }
        if self.input_mode == InputMode::Command {
            let mut out = text(":");
            out.append(self.input_buffer.as_str());
            out.append("  ·  Enter 执行  ·  Backspace 删除  ·  Esc 取消");
            return out;
        }
        if self.input_mode == InputMode::Help {
            return text("Esc 返回  ·  q 退出");
        }
        if let Some(wizard) = &self.wizard {
            return match wizard.stage {
                WizardStage::Confirm => text("输入 YES  ·  Backspace 删除  ·  Enter 执行  ·  Esc 返回"),
                WizardStage::Running => text("q / Ctrl-C 延迟退出"),
                WizardStage::Result => text("Enter / Esc 关闭"),
            };
        }
        if let Some(delete) = &self.backup_delete {
            return match delete.stage {
                WizardStage::Confirm => text("输入 YES · Backspace 删除 · Enter 删除 · Esc 取消"),
                WizardStage::Running => text("q / Ctrl-C 延迟退出"),
                WizardStage::Result => text("Enter / Esc 关闭"),
            };
        }
        if let Some(batch) = &self.backup_batch_delete {
            return match batch.stage {
                BackupBatchDeleteStage::Planning => text("正在生成删除计划…"),
                BackupBatchDeleteStage::Review => text("Enter 确认 · Esc 取消"),
                BackupBatchDeleteStage::Confirm => text("输入 YES · Backspace 删除 · Enter 执行 · Esc 返回"),
                BackupBatchDeleteStage::Running => text("q / Ctrl-C 延迟退出"),
                BackupBatchDeleteStage::Result => text("Enter / Esc 关闭"),
            };
        }
        if let Some(prune) = &self.backup_prune {
            return match prune.stage {
                BackupPruneStage::Input => text("输入保留份数 · Backspace 删除 · Enter 预览 · Esc 取消"),
                BackupPruneStage::Planning => text("正在生成清理计划…"),
                BackupPruneStage::Review => text("Enter 确认 · Esc 取消"),
                BackupPruneStage::Confirm => text("输入 YES · Backspace 删除 · Enter 执行 · Esc 返回"),
                BackupPruneStage::Running => text("q / Ctrl-C 延迟退出"),
                BackupPruneStage::Result => text("Enter / Esc 关闭"),
            };
        }
        self.workspace_status_line(field_editable, unit_toggle)
    }

    fn workspace_status_line(&self, field_editable: bool, unit_toggle: bool) -> (r: String)
        requires
            self.wf(),
        ensures
            r@ == spec_workspace_line(*self, field_editable, unit_toggle),
    {
        match self.workspace {
            Workspace::Devices => if self.selected_device().is_some() {
                let mut out = text("Tab/Shift-Tab 标签 · j/k 移动 · h/l 横向滚动 · ");
                let p = self.scroll_position(TableKind::Devices);
                out.append(p.as_str());
                out.append(" 列 · Enter 制盘 · i Inspect · b 新建备份 · Esc 当前标签 · q 退出");
                out
            } else {
                text("Tab/Shift-Tab 标签 · r 刷新 · Esc 当前标签 · q 退出")
            },
            Workspace::Backups => if self.selected_backup().is_some() {
                let mut out = text("Tab/Shift-Tab 标签 · j/k 移动 · h/l 横向滚动 · ");
                let p = self.scroll_position(TableKind::Backups);
                out.append(p.as_str());
                out.append(
                    " 列 · Space 勾选 · Enter/i Inspect · b 新建 · v 校验 · R 恢复 · d 删除 · Esc 当前标签 · q 退出",
                );
                out
            } else {
                text("Tab/Shift-Tab 标签 · b 新建 · r 刷新 · Esc 当前标签 · q 退出")
            },
            Workspace::Provision => self.provision_status_line(field_editable, unit_toggle),
        }
    }

    fn provision_status_line(&self, field_editable: bool, unit_toggle: bool) -> (r: String)
        requires
            self.wf(),
        ensures
            r@ == spec_provision_line(*self, field_editable, unit_toggle),
    {
        match self.provision.stage {
            ProvisionStage::SelectDisk => {
                let mut out = text("制盘选盘：j/k 选择 · h/l 横向滚动 · ");
                let p = self.scroll_position(TableKind::ProvisionDevices);
                out.append(p.as_str());
                out.append(" 列 · Enter 固定目标 · Esc 返回设备页");
                out
            },
            ProvisionStage::BackupPrompt => text("制盘前保存：j/k 选择 · Enter 确认 · Esc 返回设备"),
            ProvisionStage::BackupSaving => text("正在保存当前盘…"),
            ProvisionStage::Menu => {
                let mut out = text("j/k 选择方案 · h/l 横向滚动 · ");
                let p = self.scroll_position(TableKind::ProvisionMenu);
                out.append(p.as_str());
                out.append(" 列 · Enter 打开 · Esc 返回 · q 退出");
                out
            },
            ProvisionStage::Form => if self.input_mode == InputMode::Insert {
                text("INSERT · ←/→ 光标 · Home/End 首尾 · 输入/Backspace 编辑 · Enter/Esc 完成编辑")
            } else if field_editable {
                let mut out = text("NORMAL · j/k 字段 · i 编辑");
                if unit_toggle {
                    out.append(" · Space 单位 · f 填满");
                } else {
                    out.append("");
                }
                out.append(" · Enter 生成计划 · Esc 返回");
                out
            } else {
                text("NORMAL · j/k 字段 · i 编辑 · h/l 或 Space 切换 · Enter 生成计划 · Esc 返回")
            },
            ProvisionStage::Planning => text("正在生成只读计划…"),
            ProvisionStage::Review => text("Enter 最终确认  ·  e 导出镜像  ·  Esc 返回修改"),
            ProvisionStage::ExportPath => text("输入导出路径  ·  Enter 导出  ·  Esc 返回计划"),
            ProvisionStage::Exporting => text("镜像正在后台导出…"),
            ProvisionStage::Confirm => text("输入 YES + Enter 执行  ·  Esc 返回计划"),
            ProvisionStage::Running => text("安全事务执行中；Esc 不退出，q / Ctrl-C 的退出请求延迟到安全检查点"),
            ProvisionStage::Result => text("Enter / Esc 返回制盘中心"),
        }
    }
}

} // verus!
