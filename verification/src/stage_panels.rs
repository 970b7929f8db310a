//! The text panels of the Provision stages that show progress, the export path, the
//! final confirmation and the result, and of the advanced inspection while it loads
//! or after it failed.

use vstd::prelude::*;
use crate::inspect::AdvancedInspectStage;
use crate::provision::ProvisionStage;
use crate::state::AppState;
use crate::text::{chars_of, contains_run, spec_contains_run};

verus! {

#[derive(Debug, Clone, Copy, PartialEq, Eq, Structural)]
pub enum PanelTone {
    Secondary,
    Danger,
    Warning,
    Success,
}

/// A panel: title, a heading in its tone, the lines below it, and whether they are
/// centred.
pub struct StagePanel {
    pub title: String,
    pub heading: String,
    pub tone: PanelTone,
    pub lines: Vec<String>,
    pub centered: bool,
}

pub type PanelView = (Seq<char>, Seq<char>, PanelTone, Seq<Seq<char>>, bool);

pub open spec fn spec_panel_view(p: StagePanel) -> PanelView {
    (p.title@, p.heading@, p.tone, Seq::new(p.lines@.len(), |i: int| p.lines@[i]@), p.centered)
}

pub open spec fn spec_or(o: Option<String>, fallback: Seq<char>) -> Seq<char> {
    match o {
        Some(s) => s@,
        None => fallback,
    }
}

/// The panel of the open Provision stage, for the stages drawn as text.
pub open spec fn spec_provision_panel(s: AppState) -> Option<PanelView> {
    let p = s.provision;
    match p.stage {
        ProvisionStage::Planning => Some((
            "只读规划"@,
            "◈  正在生成精确计划"@,
            PanelTone::Secondary,
            seq![
                ""@,
                spec_or(p.message, "正在只读检查目标盘…"@),
                "此阶段不写盘；正在计算 LCE、分区边界与协议元数据。"@,
            ],
            true,
        )),
        ProvisionStage::ExportPath => Some((
            "镜像导出"@,
            "导出目标绑定制盘镜像"@,
            PanelTone::Secondary,
            seq![
                ""@,
                "镜像包含目标盘硬件身份和原始 LBA3，不应写入另一块不同 U 盘。"@,
                "输出路径  "@ + p.export_path@,
                ""@,
                "直接输入编辑路径 · Backspace 删除 · Enter 开始导出 · Esc 返回"@,
            ],
            false,
        )),
        ProvisionStage::Exporting => Some((
            "镜像导出"@,
            "◈ 正在导出稀疏制盘镜像"@,
            PanelTone::Secondary,
            seq![""@, spec_or(p.message, "正在写入镜像并执行 fsync…"@), "导出完成前保持当前计划不变。"@],
            true,
        )),
        ProvisionStage::Confirm => Some((
            "最终确认"@,
            "破坏性写盘最终确认"@,
            PanelTone::Danger,
            seq![
                ""@,
                "请重新核对目标盘和计划。此操作会修改真实物理介质。"@,
                "精确输入 YES 后按 Enter： "@ + p.confirmation@,
                ""@,
                "Esc 返回计划页，不会写盘。"@,
            ],
            false,
        )),
        ProvisionStage::Running => Some((
            "事务执行"@,
            "◆  安全事务执行中"@,
            PanelTone::Warning,
            seq![
                ""@,
                spec_or(p.message, "正在执行事务写盘…"@),
                ""@,
                "q / Esc / Ctrl-C 不会中断介质事务；退出请求只会在安全检查点生效。"@,
            ],
            true,
        )),
        ProvisionStage::Result => Some((
            "结果"@,
            "制盘流程已到达安全结束点"@,
            if spec_contains_run(spec_or(p.message, ""@), "格式化：✗"@) {
                PanelTone::Warning
            } else {
                PanelTone::Success
            },
            seq![""@, spec_or(p.message, "操作结束"@), ""@, "Enter / Esc 返回制盘中心"@],
            true,
        )),
        _ => None,
    }
}

/// The panel of the advanced inspection while it loads, or after it failed.
pub open spec fn spec_inspect_panel(s: AppState) -> Option<PanelView> {
    match s.advanced_inspect {
        Some(a) => match a.stage {
            AdvancedInspectStage::Running => Some((
                "Inspect · 全盘浏览"@,
                "◈ 正在建立全盘结构树"@,
                PanelTone::Secondary,
                seq![""@, spec_or(a.message, "正在读取协议上下文并识别磁盘区域…"@), "只读任务不会修改物理盘。"@],
                true,
            )),
            AdvancedInspectStage::Browser => if a.sector is None && a.result is None {
                Some((
                    "Inspect · 全盘浏览"@,
                    "全盘结构加载失败"@,
                    PanelTone::Danger,
                    seq![""@, spec_or(a.message, "未取得 Inspect workspace"@), ""@, "Esc 关闭"@],
                    false,
                ))
            } else {
                None
            },
        },
        None => None,
    }
}

fn text(s: &str) -> (r: String)
    ensures
        r@ == s@,
{
    String::from_str(s)
}

fn or_text(o: &Option<String>, fallback: &str) -> (r: String)
    ensures
        r@ == spec_or(*o, fallback@),
{
    match o {
        Some(s) => s.clone(),
        None => text(fallback),
    }
}

fn joined(a: &str, b: &str) -> (r: String)
    ensures
        r@ == a@ + b@,
{
    let mut s = text(a);
    s.append(b);
    s
}

fn panel(title: &str, heading: &str, tone: PanelTone, lines: Vec<String>, centered: bool) -> (r: StagePanel)
    ensures
        r.title@ == title@,
        r.heading@ == heading@,
        r.tone == tone,
        r.lines@ == lines@,
        r.centered == centered,
{
    StagePanel { title: text(title), heading: text(heading), tone, lines, centered }
}

impl AppState {
    /// The panel of the open Provision stage, for the stages drawn as text.
    pub fn provision_panel(&self) -> (r: Option<StagePanel>)
        ensures
            match spec_provision_panel(*self) {
                Some(v) => r matches Some(p) && spec_panel_view(p) == v,
                None => r is None,
            },
    {
        let p = &self.provision;
        let out = match p.stage {
            ProvisionStage::Planning => {
                let lines = vec![text(""), or_text(&p.message, "正在只读检查目标盘…"), text("此阶段不写盘；正在计算 LCE、分区边界与协议元数据。")];
                panel("只读规划", "◈  正在生成精确计划", PanelTone::Secondary, lines, true)
            },
            ProvisionStage::ExportPath => {
                let lines = vec![
                    text(""),
                    text("镜像包含目标盘硬件身份和原始 LBA3，不应写入另一块不同 U 盘。"),
                    joined("输出路径  ", p.export_path.as_str()),
                    text(""),
                    text("直接输入编辑路径 · Backspace 删除 · Enter 开始导出 · Esc 返回"),
                ];
                panel("镜像导出", "导出目标绑定制盘镜像", PanelTone::Secondary, lines, false)
            },
            ProvisionStage::Exporting => {
                let lines = vec![text(""), or_text(&p.message, "正在写入镜像并执行 fsync…"), text("导出完成前保持当前计划不变。")];
                panel("镜像导出", "◈ 正在导出稀疏制盘镜像", PanelTone::Secondary, lines, true)
            },
            ProvisionStage::Confirm => {
                let lines = vec![
                    text(""),
                    text("请重新核对目标盘和计划。此操作会修改真实物理介质。"),
                    joined("精确输入 YES 后按 Enter： ", p.confirmation.as_str()),
                    text(""),
                    text("Esc 返回计划页，不会写盘。"),
                ];
                panel("最终确认", "破坏性写盘最终确认", PanelTone::Danger, lines, false)
            },
            ProvisionStage::Running => {
                let lines = vec![
                    text(""),
                    or_text(&p.message, "正在执行事务写盘…"),
                    text(""),
                    text("q / Esc / Ctrl-C 不会中断介质事务；退出请求只会在安全检查点生效。"),
                ];
                panel("事务执行", "◆  安全事务执行中", PanelTone::Warning, lines, true)
            },
            ProvisionStage::Result => {
                let message = or_text(&p.message, "");
                let hay = chars_of(message.as_str());
                let needle = chars_of("格式化：✗");
                let tone = if contains_run(&hay, &needle) { PanelTone::Warning } else { PanelTone::Success };
                let lines = vec![text(""), or_text(&p.message, "操作结束"), text(""), text("Enter / Esc 返回制盘中心")];
                panel("结果", "制盘流程已到达安全结束点", tone, lines, true)
            },
            _ => return None,
        };
        assert(spec_panel_view(out) =~= spec_provision_panel(*self)->0);
        Some(out)
    }

    /// The panel of the advanced inspection while it loads, or after it failed; the
    /// browser and the sector inspector have their own.
    pub fn advanced_inspect_panel(&self) -> (r: Option<StagePanel>)
        ensures
            match spec_inspect_panel(*self) {
                Some(v) => r matches Some(p) && spec_panel_view(p) == v,
                None => r is None,
            },
    {
        let a = match &self.advanced_inspect {
            Some(a) => a,
            None => return None,
        };
        let out = match a.stage {
            AdvancedInspectStage::Running => {
                let lines = vec![text(""), or_text(&a.message, "正在读取协议上下文并识别磁盘区域…"), text("只读任务不会修改物理盘。")];
                panel("Inspect · 全盘浏览", "◈ 正在建立全盘结构树", PanelTone::Secondary, lines, true)
            },
            AdvancedInspectStage::Browser => {
                if a.sector.is_some() || a.result.is_some() {
                    return None;
                }
                let lines = vec![text(""), or_text(&a.message, "未取得 Inspect workspace"), text(""), text("Esc 关闭")];
                panel("Inspect · 全盘浏览", "全盘结构加载失败", PanelTone::Danger, lines, false)
            },
        };
        assert(spec_panel_view(out) =~= spec_inspect_panel(*self)->0);
        Some(out)
    }
}

} // verus!
