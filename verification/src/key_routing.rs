//! What a key does while a flow is open: the stages of Provision, the batch-delete,
//! prune and single-delete confirmations, the write wizard's YES, and the search and
//! command lines. A key no flow takes is left for the keymap.

use vstd::prelude::*;
use crate::backups::{
    spec_batch_confirm_begun, spec_batch_confirmation_backspaced, spec_batch_confirmation_pushed,
    spec_batch_delete_closed, spec_batch_taken, spec_delete_confirmation_backspaced,
    spec_delete_confirmation_pushed, spec_delete_submitted, spec_prune_backspaced, spec_prune_closed,
    spec_prune_confirm_begun, spec_prune_confirmation_pushed, spec_prune_digit_pushed,
    spec_prune_plan_started, spec_prune_taken, BackupBatchDeleteStage, BackupPruneStage,
    BackupPruneState,
};
use crate::command::{parse_command, spec_command_outcome, PaletteAction};
use crate::dispatch::{lemma_commands_never_write, spec_dispatched, spec_writes_disk, TaskRequest};
use crate::event_loop::spec_notice_shown;
use crate::inspect::AdvancedInspectStage;
use crate::keymap::{KeyCode, KeyInput};
use crate::navigate::spec_navigated;
use crate::provision::{
    spec_export_backspaced, spec_export_cancelled, spec_export_char_pushed, spec_export_taken,
    spec_provision_confirm_begun, spec_provision_confirmation_backspaced,
    spec_provision_confirmation_pushed, spec_provision_export_begun,
    spec_provision_reset, spec_provision_taken, ProvisionStage,
};
use crate::state::{
    spec_input_backspaced, spec_input_cancelled, spec_provision_disk_selected, spec_input_char_pushed, spec_input_taken,
    spec_search_submitted, spec_wizard_confirmation_backspaced, spec_wizard_confirmation_pushed,
    spec_wizard_submitted, AppState, InputMode, NavCommand, StateEffect, WizardStage, Workspace,
    WriteIntent, WriteKind,
};
use crate::text::spec_is_ascii_digit;

verus! {

/// What became of a key: whether a flow took it, the effect on the loop, the
/// background work to start, and a confirmed write that must restart elevated.
pub struct KeyOutcome {
    pub consumed: bool,
    pub effect: StateEffect,
    pub requests: Vec<TaskRequest>,
    pub elevate: Option<WriteIntent>,
}

/// A typed character: a character key without Control.
pub open spec fn spec_typed(key: KeyInput) -> Option<char> {
    match key.code {
        KeyCode::Char(ch) => if key.ctrl { None } else { Some(ch) },
        _ => None,
    }
}

pub open spec fn spec_is_up(key: KeyInput) -> bool {
    key.code == KeyCode::Up || key.code == KeyCode::BackTab
}

pub open spec fn spec_is_down(key: KeyInput) -> bool {
    key.code == KeyCode::Down || key.code == KeyCode::Tab
}

/// A key that only changes the state: consumed, no effect, no work.
pub open spec fn spec_quiet(out: KeyOutcome, consumed: bool) -> bool {
    &&& out.consumed == consumed
    &&& out.effect == StateEffect::NoEffect
    &&& out.requests@.len() == 0
    &&& out.elevate is None
}

/// A consumed key whose only work is `requests`.
pub open spec fn spec_requests(out: KeyOutcome, requests: Seq<TaskRequest>) -> bool {
    &&& out.consumed
    &&& out.effect == StateEffect::NoEffect
    &&& out.requests@ == requests
    &&& out.elevate is None
}

pub open spec fn spec_navigated_any(old: AppState, new: AppState, command: NavCommand, h: usize) -> bool {
    exists|e: StateEffect| #[trigger] spec_navigated(old, new, command, h, e)
}

/// Esc while background work runs only says to wait.
pub open spec fn spec_wait_notice(old: AppState, new: AppState, key: KeyInput, message: Seq<char>) -> bool {
    if key.code == KeyCode::Esc {
        spec_notice_shown(old, new, message)
    } else {
        new == old
    }
}

/// Whether the open Provision stage takes `key`.
pub open spec fn spec_provision_takes(stage: ProvisionStage, key: KeyInput) -> bool {
    match stage {
        ProvisionStage::SelectDisk | ProvisionStage::BackupPrompt | ProvisionStage::BackupSaving
        | ProvisionStage::Planning | ProvisionStage::Review | ProvisionStage::ExportPath
        | ProvisionStage::Exporting | ProvisionStage::Confirm => true,
        ProvisionStage::Result => key.code == KeyCode::Enter || key.code == KeyCode::Esc,
        _ => false,
    }
}

pub open spec fn spec_provision_key(old: AppState, key: KeyInput, new: AppState, out: KeyOutcome) -> bool {
    match old.provision.stage {
        ProvisionStage::SelectDisk => spec_quiet(out, true) && if spec_is_up(key) {
            spec_navigated_any(old, new, NavCommand::Up, 2)
        } else if spec_is_down(key) {
            spec_navigated_any(old, new, NavCommand::Down, 2)
        } else if key.code == KeyCode::Enter {
            exists|mid: AppState, r: Option<u32>|
                #[trigger] spec_provision_disk_selected(old, mid, r) && if r is None {
                    spec_notice_shown(mid, new, "请选择可读取的 USB 整盘目标。"@)
                } else {
                    new == mid
                }
        } else if key.code == KeyCode::Esc {
            spec_navigated_any(old, new, NavCommand::WorkspaceDevices, 1)
        } else {
            new == old
        },
        ProvisionStage::BackupPrompt => spec_quiet(out, true) && if spec_is_up(key) {
            spec_navigated_any(old, new, NavCommand::Up, 2)
        } else if spec_is_down(key) {
            spec_navigated_any(old, new, NavCommand::Down, 2)
        } else if key.code == KeyCode::Esc {
            spec_navigated_any(old, new, NavCommand::WorkspaceDevices, 1)
        } else {
            new == old
        },
        ProvisionStage::BackupSaving => spec_quiet(out, true) && spec_wait_notice(
            old,
            new,
            key,
            "正在保存当前盘，请等待完成。"@,
        ),
        ProvisionStage::Planning => spec_quiet(out, true) && spec_wait_notice(
            old,
            new,
            key,
            "制盘计划正在后台生成，请等待完成。"@,
        ),
        ProvisionStage::Review => spec_quiet(out, true) && if key.code == KeyCode::Enter {
            spec_provision_confirm_begun(old, new)
        } else if key.code == KeyCode::Char('E') {
            spec_provision_export_begun(old, new)
        } else if key.code == KeyCode::Esc {
            spec_navigated_any(old, new, NavCommand::Escape, 1)
        } else {
            new == old
        },
        ProvisionStage::ExportPath => if key.code == KeyCode::Enter {
            exists|r: Option<(crate::provision::ProvisionPrepared, String)>|
                #[trigger] spec_export_taken(old, new, r) && spec_requests(
                    out,
                    match r {
                        Some((plan, path)) => seq![TaskRequest::ProvisionExport(plan, path)],
                        None => Seq::empty(),
                    },
                )
        } else {
            spec_quiet(out, true) && if key.code == KeyCode::Backspace {
                spec_export_backspaced(old, new)
            } else if key.code == KeyCode::Esc {
                spec_export_cancelled(old, new)
            } else if spec_typed(key) is Some {
                spec_export_char_pushed(old, new, spec_typed(key)->0)
            } else {
                new == old
            }
        },
        ProvisionStage::Exporting => spec_quiet(out, true) && spec_wait_notice(
            old,
            new,
            key,
            "镜像正在后台导出，请等待完成。"@,
        ),
        ProvisionStage::Confirm => if key.code == KeyCode::Enter {
            exists|r: Option<crate::provision::ProvisionPrepared>|
                #[trigger] spec_provision_taken(old, new, r) && spec_requests(
                    out,
                    match r {
                        Some(plan) => seq![TaskRequest::ProvisionWrite(plan)],
                        None => Seq::empty(),
                    },
                )
        } else {
            spec_quiet(out, true) && if spec_typed(key) is Some {
                spec_provision_confirmation_pushed(old, new, spec_typed(key)->0)
            } else if key.code == KeyCode::Backspace {
                spec_provision_confirmation_backspaced(old, new)
            } else if key.code == KeyCode::Esc {
                spec_navigated_any(old, new, NavCommand::Escape, 1)
            } else {
                new == old
            }
        },
        _ => spec_quiet(out, true) && spec_provision_reset(old, new),
    }
}

pub open spec fn spec_batch_takes(stage: BackupBatchDeleteStage, key: KeyInput) -> bool {
    match stage {
        BackupBatchDeleteStage::Running => false,
        BackupBatchDeleteStage::Result => key.code == KeyCode::Enter || key.code == KeyCode::Esc,
        _ => true,
    }
}

pub open spec fn spec_batch_key(
    old: AppState,
    stage: BackupBatchDeleteStage,
    key: KeyInput,
    new: AppState,
    out: KeyOutcome,
) -> bool {
    match stage {
        BackupBatchDeleteStage::Planning => spec_quiet(out, true) && spec_wait_notice(
            old,
            new,
            key,
            "批量删除计划正在后台生成，请等待完成。"@,
        ),
        BackupBatchDeleteStage::Review => spec_quiet(out, true) && if key.code == KeyCode::Enter {
            spec_batch_confirm_begun(old, new)
        } else if key.code == KeyCode::Esc {
            spec_batch_delete_closed(old, new)
        } else {
            new == old
        },
        BackupBatchDeleteStage::Confirm => if key.code == KeyCode::Enter {
            exists|r: Option<crate::backups::DeletePlan>|
                #[trigger] spec_batch_taken(old, new, r) && spec_requests(
                    out,
                    match r {
                        Some(plan) => seq![TaskRequest::BatchDeleteExecute(plan)],
                        None => Seq::empty(),
                    },
                )
        } else {
            spec_quiet(out, true) && if spec_typed(key) is Some {
                spec_batch_confirmation_pushed(old, new, spec_typed(key)->0)
            } else if key.code == KeyCode::Backspace {
                spec_batch_confirmation_backspaced(old, new)
            } else if key.code == KeyCode::Esc {
                spec_batch_delete_closed(old, new)
            } else {
                new == old
            }
        },
        _ => spec_quiet(out, true) && spec_batch_delete_closed(old, new),
    }
}

pub open spec fn spec_prune_takes(stage: BackupPruneStage, key: KeyInput) -> bool {
    match stage {
        BackupPruneStage::Running => false,
        BackupPruneStage::Result => key.code == KeyCode::Enter || key.code == KeyCode::Esc,
        _ => true,
    }
}

/// `s` with the prune wizard's message set to `m`.
pub open spec fn spec_prune_message(s: AppState, m: String) -> AppState {
    AppState {
        backup_prune: match s.backup_prune {
            Some(p) => Some(BackupPruneState { message: Some(m), ..p }),
            None => None,
        },
        ..s
    }
}

pub open spec fn spec_prune_key(
    old: AppState,
    stage: BackupPruneStage,
    key: KeyInput,
    new: AppState,
    out: KeyOutcome,
) -> bool {
    match stage {
        BackupPruneStage::Input => if key.code == KeyCode::Enter {
            exists|mid: AppState, r: Result<usize, String>|
                #[trigger] spec_prune_plan_started(old, mid, r) && match r {
                    Ok(keep) => new == mid && spec_requests(out, seq![TaskRequest::PrunePlan(keep)]),
                    Err(m) => new == spec_prune_message(mid, m) && spec_quiet(out, true),
                }
        } else {
            spec_quiet(out, true) && match key.code {
                KeyCode::Char(ch) => if spec_is_ascii_digit(ch) {
                    spec_prune_digit_pushed(old, new, ch)
                } else {
                    new == old
                },
                KeyCode::Backspace => spec_prune_backspaced(old, new),
                KeyCode::Esc => spec_prune_closed(old, new),
                _ => new == old,
            }
        },
        BackupPruneStage::Planning => spec_quiet(out, true) && spec_wait_notice(
            old,
            new,
            key,
            "清理计划正在后台生成，请等待完成。"@,
        ),
        BackupPruneStage::Review => spec_quiet(out, true) && if key.code == KeyCode::Enter {
            spec_prune_confirm_begun(old, new)
        } else if key.code == KeyCode::Esc {
            spec_prune_closed(old, new)
        } else {
            new == old
        },
        BackupPruneStage::Confirm => if key.code == KeyCode::Enter {
            exists|r: Option<crate::backups::BackupPrunePrepared>|
                #[trigger] spec_prune_taken(old, new, r) && spec_requests(
                    out,
                    match r {
                        Some(plan) => seq![TaskRequest::PruneExecute(plan)],
                        None => Seq::empty(),
                    },
                )
        } else {
            spec_quiet(out, true) && if spec_typed(key) is Some {
                spec_prune_confirmation_pushed(old, new, spec_typed(key)->0)
            } else if key.code == KeyCode::Backspace {
                spec_prune_backspaced(old, new)
            } else if key.code == KeyCode::Esc {
                spec_prune_closed(old, new)
            } else {
                new == old
            }
        },
        _ => spec_quiet(out, true) && spec_prune_closed(old, new),
    }
}

/// The keys a YES confirmation takes.
pub open spec fn spec_confirmation_key(key: KeyInput) -> bool {
    spec_typed(key) is Some || key.code == KeyCode::Backspace || key.code == KeyCode::Enter
        || key.code == KeyCode::Esc
}

pub open spec fn spec_delete_key(old: AppState, key: KeyInput, new: AppState, out: KeyOutcome) -> bool {
    if spec_typed(key) is Some {
        spec_quiet(out, true) && spec_delete_confirmation_pushed(old, new, spec_typed(key)->0)
    } else if key.code == KeyCode::Backspace {
        spec_quiet(out, true) && spec_delete_confirmation_backspaced(old, new)
    } else if key.code == KeyCode::Enter {
        exists|r: Option<(String, String)>|
            #[trigger] spec_delete_submitted(old, new, r) && spec_requests(
                out,
                match r {
                    Some((path, digest)) => seq![TaskRequest::BackupDelete(path, digest)],
                    None => Seq::empty(),
                },
            )
    } else {
        spec_quiet(out, true) && spec_navigated_any(old, new, NavCommand::Escape, 1)
    }
}

/// The work a confirmed write starts: a backup creation or another write, unless the
/// process is not elevated, in which case it restarts elevated with the intent.
pub open spec fn spec_confirmed_write(out: KeyOutcome, intent: WriteIntent, elevated: bool) -> bool {
    &&& out.consumed
    &&& out.effect == StateEffect::NoEffect
    &&& if !elevated {
        out.elevate == Some(intent) && out.requests@.len() == 0
    } else {
        &&& out.elevate is None
        &&& out.requests@ == if intent.kind == WriteKind::BackupCreate || intent.kind
            == WriteKind::BackupCreateDeep {
            seq![TaskRequest::BackupCreate(intent)]
        } else {
            seq![TaskRequest::Write(intent)]
        }
    }
}

pub open spec fn spec_wizard_key(
    old: AppState,
    key: KeyInput,
    elevated: bool,
    new: AppState,
    out: KeyOutcome,
) -> bool {
    if spec_typed(key) is Some {
        spec_quiet(out, true) && spec_wizard_confirmation_pushed(old, new, spec_typed(key)->0)
    } else if key.code == KeyCode::Backspace {
        spec_quiet(out, true) && spec_wizard_confirmation_backspaced(old, new)
    } else if key.code == KeyCode::Enter {
        exists|r: Option<WriteIntent>|
            #[trigger] spec_wizard_submitted(old, new, r) && match r {
                Some(intent) => spec_confirmed_write(out, intent, elevated),
                None => spec_quiet(out, true),
            }
    } else {
        spec_quiet(out, true) && spec_navigated_any(old, new, NavCommand::Escape, 1)
    }
}

/// The palette action's navigation command; Apply has none here.
pub open spec fn spec_palette_command(a: PaletteAction) -> Option<NavCommand> {
    match a {
        PaletteAction::Devices => Some(NavCommand::WorkspaceDevices),
        PaletteAction::Backups => Some(NavCommand::WorkspaceBackups),
        PaletteAction::Provision => Some(NavCommand::WorkspaceProvision),
        PaletteAction::OfflineConvert => Some(NavCommand::WorkspaceProvision),
        PaletteAction::Inspect => Some(NavCommand::OpenInspect),
        PaletteAction::Apply => None,
        PaletteAction::Restore => Some(NavCommand::BeginRestore),
        PaletteAction::BackupCreate => Some(NavCommand::BeginBackupCreate),
        PaletteAction::BackupCreateDeep => Some(NavCommand::BeginBackupCreateDeep),
        PaletteAction::BackupVerify => Some(NavCommand::VerifyBackup),
        PaletteAction::BackupDelete => Some(NavCommand::BeginBackupDelete),
        PaletteAction::BackupPrune => Some(NavCommand::BeginBackupPrune),
        PaletteAction::Refresh => Some(NavCommand::Refresh),
        PaletteAction::Help => Some(NavCommand::Help),
        PaletteAction::Quit => Some(NavCommand::Quit),
    }
}

/// Enter on the command line: the line is taken and closed, then run.
pub open spec fn spec_command_entered(old: AppState, h: usize, new: AppState, out: KeyOutcome) -> bool {
    exists|taken: AppState, closed: AppState, line: String|
        #[trigger] spec_input_taken(old, taken, line) && #[trigger] spec_input_cancelled(taken, closed)
            && out.consumed && out.elevate is None && match spec_command_outcome(line@) {
            Ok(action) => match spec_palette_command(action) {
                Some(command) => spec_dispatched(closed, new, command, h, out.effect, out.requests@),
                None => new == closed && spec_quiet(out, true),
            },
            Err(message) => spec_notice_shown(closed, new, message) && spec_quiet(out, true),
        }
}

pub open spec fn spec_line_key(old: AppState, key: KeyInput, h: usize, new: AppState, out: KeyOutcome) -> bool {
    if spec_typed(key) is Some {
        spec_quiet(out, true) && spec_input_char_pushed(old, new, spec_typed(key)->0)
    } else if key.code == KeyCode::Backspace {
        spec_quiet(out, true) && spec_input_backspaced(old, new)
    } else if key.code == KeyCode::Esc {
        spec_quiet(out, true) && spec_navigated_any(old, new, NavCommand::Escape, 1)
    } else if old.input_mode == InputMode::Search {
        spec_quiet(out, true) && exists|r: usize| #[trigger] spec_search_submitted(old, new, r)
    } else {
        spec_command_entered(old, h, new, out)
    }
}

/// The result of `key` in state `old`, with a body `h` rows high and `elevated`
/// telling whether the process may write to disks.
pub open spec fn spec_key_step(
    old: AppState,
    key: KeyInput,
    h: usize,
    elevated: bool,
    new: AppState,
    out: KeyOutcome,
) -> bool {
    if key.release {
        new == old && spec_quiet(out, true)
    } else if old.advanced_inspect matches Some(a) && a.stage == AdvancedInspectStage::Running {
        spec_quiet(out, true) && spec_wait_notice(old, new, key, "高级检查正在后台读取，请等待完成。"@)
    } else if old.workspace == Workspace::Provision && spec_provision_takes(old.provision.stage, key) {
        spec_provision_key(old, key, new, out)
    } else if old.backup_batch_delete matches Some(b) && spec_batch_takes(b.stage, key) {
        spec_batch_key(old, old.backup_batch_delete->0.stage, key, new, out)
    } else if old.backup_prune matches Some(p) && spec_prune_takes(p.stage, key) {
        spec_prune_key(old, old.backup_prune->0.stage, key, new, out)
    } else if old.backup_delete matches Some(d) && d.stage == WizardStage::Confirm
        && spec_confirmation_key(key) {
        spec_delete_key(old, key, new, out)
    } else if old.wizard matches Some(w) && w.stage == WizardStage::Confirm && spec_confirmation_key(
        key,
    ) {
        spec_wizard_key(old, key, elevated, new, out)
    } else if (old.input_mode == InputMode::Search || old.input_mode == InputMode::Command)
        && spec_confirmation_key(key) {
        spec_line_key(old, key, h, new, out)
    } else {
        new == old && spec_quiet(out, false)
    }
}

/// A confirmed write starts on the disk only when the process is elevated; otherwise
/// the key asks for an elevated restart carrying the intent, and no key other than
/// the write wizard's confirmation or the Provision confirmation starts a write.
pub proof fn lemma_writes_need_elevation(
    old: AppState,
    key: KeyInput,
    h: usize,
    new: AppState,
    out: KeyOutcome,
)
    requires
        spec_key_step(old, key, h, false, new, out),
        !(old.workspace == Workspace::Provision && old.provision.stage == ProvisionStage::Confirm),
    ensures
        forall|i: int| 0 <= i < out.requests@.len() ==> !spec_writes_disk(#[trigger] out.requests@[i]),
{
    if !key.release && !(old.advanced_inspect matches Some(a) && a.stage == AdvancedInspectStage::Running)
        && !(old.workspace == Workspace::Provision && spec_provision_takes(old.provision.stage, key))
        && !(old.backup_batch_delete matches Some(b) && spec_batch_takes(b.stage, key))
        && !(old.backup_prune matches Some(p) && spec_prune_takes(p.stage, key))
        && !(old.backup_delete matches Some(d) && d.stage == WizardStage::Confirm && spec_confirmation_key(key))
        && !(old.wizard matches Some(w) && w.stage == WizardStage::Confirm && spec_confirmation_key(key))
        && (old.input_mode == InputMode::Command) && spec_confirmation_key(key)
        && spec_typed(key) is None && key.code != KeyCode::Backspace && key.code != KeyCode::Esc {
        let (taken, closed, line) = choose|taken: AppState, closed: AppState, line: String|
            #[trigger] spec_input_taken(old, taken, line) && #[trigger] spec_input_cancelled(taken, closed)
                && out.consumed && out.elevate is None && match spec_command_outcome(line@) {
                Ok(action) => match spec_palette_command(action) {
                    Some(command) => spec_dispatched(closed, new, command, h, out.effect, out.requests@),
                    None => new == closed && spec_quiet(out, true),
                },
                Err(message) => spec_notice_shown(closed, new, message) && spec_quiet(out, true),
            };
        match spec_command_outcome(line@) {
            Ok(action) => match spec_palette_command(action) {
                Some(command) => lemma_commands_never_write(closed, new, command, h, out.effect, out.requests@),
                None => {},
            },
            Err(_) => {},
        }
    }
}

fn typed(key: KeyInput) -> (r: Option<char>)
    ensures
        r == spec_typed(key),
{
    match key.code {
        KeyCode::Char(ch) => if key.ctrl { None } else { Some(ch) },
        _ => None,
    }
}

fn is_up(key: KeyInput) -> (r: bool)
    ensures
        r == spec_is_up(key),
{
    key.code == KeyCode::Up || key.code == KeyCode::BackTab
}

fn is_down(key: KeyInput) -> (r: bool)
    ensures
        r == spec_is_down(key),
{
    key.code == KeyCode::Down || key.code == KeyCode::Tab
}

fn quiet(consumed: bool) -> (r: KeyOutcome)
    ensures
        spec_quiet(r, consumed),
{
    KeyOutcome { consumed, effect: StateEffect::NoEffect, requests: Vec::new(), elevate: None }
}

fn with_request(request: Option<TaskRequest>) -> (r: KeyOutcome)
    ensures
        spec_requests(
            r,
            match request {
                Some(t) => seq![t],
                None => Seq::empty(),
            },
        ),
{
    let mut requests: Vec<TaskRequest> = Vec::new();
    match request {
        Some(t) => {
            requests.push(t);
        },
        None => {},
    }
    KeyOutcome { consumed: true, effect: StateEffect::NoEffect, requests, elevate: None }
}

fn palette_command(a: PaletteAction) -> (r: Option<NavCommand>)
    ensures
        r == spec_palette_command(a),
{
    match a {
        PaletteAction::Devices => Some(NavCommand::WorkspaceDevices),
        PaletteAction::Backups => Some(NavCommand::WorkspaceBackups),
        PaletteAction::Provision => Some(NavCommand::WorkspaceProvision),
        PaletteAction::OfflineConvert => Some(NavCommand::WorkspaceProvision),
        PaletteAction::Inspect => Some(NavCommand::OpenInspect),
        PaletteAction::Apply => None,
        PaletteAction::Restore => Some(NavCommand::BeginRestore),
        PaletteAction::BackupCreate => Some(NavCommand::BeginBackupCreate),
        PaletteAction::BackupCreateDeep => Some(NavCommand::BeginBackupCreateDeep),
        PaletteAction::BackupVerify => Some(NavCommand::VerifyBackup),
        PaletteAction::BackupDelete => Some(NavCommand::BeginBackupDelete),
        PaletteAction::BackupPrune => Some(NavCommand::BeginBackupPrune),
        PaletteAction::Refresh => Some(NavCommand::Refresh),
        PaletteAction::Help => Some(NavCommand::Help),
        PaletteAction::Quit => Some(NavCommand::Quit),
    }
}

impl AppState {
    fn wait_notice(&mut self, key: KeyInput, message: &str)
        ensures
            spec_wait_notice(*old(self), *final(self), key, message@),
    {
        if key.code == KeyCode::Esc {
            self.set_notice(String::from_str(message));
        }
    }

    fn go(&mut self, command: NavCommand, h: usize)
        requires
            old(self).wf(),
        ensures
            final(self).wf(),
            spec_navigated_any(*old(self), *final(self), command, h),
    {
        let ghost start = *self;
        let e = self.navigate(command, h);
        assert(spec_navigated(start, *self, command, h, e));
    }

    fn provision_key(&mut self, key: KeyInput) -> (r: KeyOutcome)
        requires
            old(self).wf(),
            old(self).workspace == Workspace::Provision,
            spec_provision_takes(old(self).provision.stage, key),
        ensures
            final(self).wf(),
            spec_provision_key(*old(self), key, *final(self), r),
    {
        let ghost start = *self;
        match self.provision.stage {
            ProvisionStage::SelectDisk => {
                if is_up(key) {
                    self.go(NavCommand::Up, 2);
                } else if is_down(key) {
                    self.go(NavCommand::Down, 2);
                } else if key.code == KeyCode::Enter {
                    let r = self.provision_select_disk();
                    let ghost mid = *self;
                    assert(spec_provision_disk_selected(start, mid, r));
                    if r.is_none() {
                        self.set_notice(String::from_str("请选择可读取的 USB 整盘目标。"));
                    }
                } else if key.code == KeyCode::Esc {
                    self.go(NavCommand::WorkspaceDevices, 1);
                }
                quiet(true)
            },
            ProvisionStage::BackupPrompt => {
                if is_up(key) {
                    self.go(NavCommand::Up, 2);
                } else if is_down(key) {
                    self.go(NavCommand::Down, 2);
                } else if key.code == KeyCode::Esc {
                    self.go(NavCommand::WorkspaceDevices, 1);
                }
                quiet(true)
            },
            ProvisionStage::BackupSaving => {
                self.wait_notice(key, "正在保存当前盘，请等待完成。");
                quiet(true)
            },
            ProvisionStage::Planning => {
                self.wait_notice(key, "制盘计划正在后台生成，请等待完成。");
                quiet(true)
            },
            ProvisionStage::Review => {
                if key.code == KeyCode::Enter {
                    self.provision_begin_confirm();
                } else if key.code == KeyCode::Char('E') {
                    self.provision_begin_export();
                } else if key.code == KeyCode::Esc {
                    self.go(NavCommand::Escape, 1);
                }
                quiet(true)
            },
            ProvisionStage::ExportPath => {
                if key.code == KeyCode::Enter {
                    let r = self.provision_take_export();
                    let ghost gr = r;
                    let out = match r {
                        Some((plan, path)) => with_request(Some(TaskRequest::ProvisionExport(plan, path))),
                        None => with_request(None),
                    };
                    assert(spec_export_taken(start, *self, gr));
                    out
                } else {
                    if key.code == KeyCode::Backspace {
                        self.provision_export_backspace();
                    } else if key.code == KeyCode::Esc {
                        self.provision_cancel_export();
                    } else if let Some(ch) = typed(key) {
                        self.provision_export_push_char(ch);
                    }
                    quiet(true)
                }
            },
            ProvisionStage::Exporting => {
                self.wait_notice(key, "镜像正在后台导出，请等待完成。");
                quiet(true)
            },
            ProvisionStage::Confirm => {
                if key.code == KeyCode::Enter {
                    let r = self.provision_take_for_write();
                    let ghost gr = r;
                    let out = match r {
                        Some(plan) => with_request(Some(TaskRequest::ProvisionWrite(plan))),
                        None => with_request(None),
                    };
                    assert(spec_provision_taken(start, *self, gr));
                    out
                } else {
                    if let Some(ch) = typed(key) {
                        self.provision_push_confirmation(ch);
                    } else if key.code == KeyCode::Backspace {
                        self.provision_backspace_confirmation();
                    } else if key.code == KeyCode::Esc {
                        self.go(NavCommand::Escape, 1);
                    }
                    quiet(true)
                }
            },
            _ => {
                self.provision_reset();
                quiet(true)
            },
        }
    }

    fn batch_key(&mut self, stage: BackupBatchDeleteStage, key: KeyInput) -> (r: KeyOutcome)
        requires
            old(self).wf(),
            spec_batch_takes(stage, key),
        ensures
            final(self).wf(),
            spec_batch_key(*old(self), stage, key, *final(self), r),
    {
        let ghost start = *self;
        match stage {
            BackupBatchDeleteStage::Planning => {
                self.wait_notice(key, "批量删除计划正在后台生成，请等待完成。");
                quiet(true)
            },
            BackupBatchDeleteStage::Review => {
                if key.code == KeyCode::Enter {
                    self.backup_batch_delete_begin_confirm();
                } else if key.code == KeyCode::Esc {
                    self.close_backup_batch_delete();
                }
                quiet(true)
            },
            BackupBatchDeleteStage::Confirm => {
                if key.code == KeyCode::Enter {
                    let r = self.backup_batch_delete_take_for_execute();
                    let ghost gr = r;
                    let out = match r {
                        Some(plan) => with_request(Some(TaskRequest::BatchDeleteExecute(plan))),
                        None => with_request(None),
                    };
                    assert(spec_batch_taken(start, *self, gr));
                    out
                } else {
                    if let Some(ch) = typed(key) {
                        self.backup_batch_delete_push_confirmation(ch);
                    } else if key.code == KeyCode::Backspace {
                        self.backup_batch_delete_backspace();
                    } else if key.code == KeyCode::Esc {
                        self.close_backup_batch_delete();
                    }
                    quiet(true)
                }
            },
            _ => {
                self.close_backup_batch_delete();
                quiet(true)
            },
        }
    }

    fn prune_key(&mut self, stage: BackupPruneStage, key: KeyInput) -> (r: KeyOutcome)
        requires
            old(self).wf(),
            spec_prune_takes(stage, key),
        ensures
            final(self).wf(),
            spec_prune_key(*old(self), stage, key, *final(self), r),
    {
        let ghost start = *self;
        match stage {
            BackupPruneStage::Input => {
                if key.code == KeyCode::Enter {
                    let r = self.backup_prune_start_plan();
                    let ghost mid = *self;
                    let ghost gr = r;
                    assert(spec_prune_plan_started(start, mid, gr));
                    match r {
                        Ok(keep) => with_request(Some(TaskRequest::PrunePlan(keep))),
                        Err(m) => {
                            match &mut self.backup_prune {
                                Some(p) => {
                                    p.message = Some(m);
                                },
                                None => {},
                            }
                            quiet(true)
                        },
                    }
                } else {
                    match key.code {
                        KeyCode::Char(ch) => {
                            if '0' <= ch && ch <= '9' {
                                self.backup_prune_push_digit(ch);
                            }
                        },
                        KeyCode::Backspace => {
                            self.backup_prune_backspace();
                        },
                        KeyCode::Esc => {
                            self.close_backup_prune();
                        },
                        _ => {},
                    }
                    quiet(true)
                }
            },
            BackupPruneStage::Planning => {
                self.wait_notice(key, "清理计划正在后台生成，请等待完成。");
                quiet(true)
            },
            BackupPruneStage::Review => {
                if key.code == KeyCode::Enter {
                    self.backup_prune_begin_confirm();
                } else if key.code == KeyCode::Esc {
                    self.close_backup_prune();
                }
                quiet(true)
            },
            BackupPruneStage::Confirm => {
                if key.code == KeyCode::Enter {
                    let r = self.backup_prune_take_for_execute();
                    let ghost gr = r;
                    let out = match r {
                        Some(plan) => with_request(Some(TaskRequest::PruneExecute(plan))),
                        None => with_request(None),
                    };
                    assert(spec_prune_taken(start, *self, gr));
                    out
                } else {
                    if let Some(ch) = typed(key) {
                        self.backup_prune_push_confirmation(ch);
                    } else if key.code == KeyCode::Backspace {
                        self.backup_prune_backspace();
                    } else if key.code == KeyCode::Esc {
                        self.close_backup_prune();
                    }
                    quiet(true)
                }
            },
            _ => {
                self.close_backup_prune();
                quiet(true)
            },
        }
    }

    fn delete_key(&mut self, key: KeyInput) -> (r: KeyOutcome)
        requires
            old(self).wf(),
            spec_confirmation_key(key),
        ensures
            final(self).wf(),
            spec_delete_key(*old(self), key, *final(self), r),
    {
        let ghost start = *self;
        if let Some(ch) = typed(key) {
            self.push_backup_delete_confirmation(ch);
            quiet(true)
        } else if key.code == KeyCode::Backspace {
            self.backspace_backup_delete_confirmation();
            quiet(true)
        } else if key.code == KeyCode::Enter {
            let r = self.submit_backup_delete_confirmation();
            let ghost gr = r;
            let out = match r {
                Some((path, digest)) => with_request(Some(TaskRequest::BackupDelete(path, digest))),
                None => with_request(None),
            };
            assert(spec_delete_submitted(start, *self, gr));
            out
        } else {
            self.go(NavCommand::Escape, 1);
            quiet(true)
        }
    }

    fn wizard_key(&mut self, key: KeyInput, elevated: bool) -> (r: KeyOutcome)
        requires
            old(self).wf(),
            spec_confirmation_key(key),
        ensures
            final(self).wf(),
            spec_wizard_key(*old(self), key, elevated, *final(self), r),
    {
        let ghost start = *self;
        if let Some(ch) = typed(key) {
            self.push_wizard_confirmation(ch);
            quiet(true)
        } else if key.code == KeyCode::Backspace {
            self.backspace_wizard_confirmation();
            quiet(true)
        } else if key.code == KeyCode::Enter {
            let r = self.submit_wizard_confirmation();
            let ghost gr = r;
            assert(spec_wizard_submitted(start, *self, gr));
            match r {
                Some(intent) => {
                    if !elevated {
                        KeyOutcome {
                            consumed: true,
                            effect: StateEffect::NoEffect,
                            requests: Vec::new(),
                            elevate: Some(intent),
                        }
                    } else {
                        let request = match intent.kind {
                            WriteKind::BackupCreate | WriteKind::BackupCreateDeep => TaskRequest::BackupCreate(
                                intent,
                            ),
                            _ => TaskRequest::Write(intent),
                        };
                        with_request(Some(request))
                    }
                },
                None => quiet(true),
            }
        } else {
            self.go(NavCommand::Escape, 1);
            quiet(true)
        }
    }

    fn line_key(&mut self, key: KeyInput, h: usize) -> (r: KeyOutcome)
        requires
            old(self).wf(),
            old(self).input_mode == InputMode::Search || old(self).input_mode == InputMode::Command,
            spec_confirmation_key(key),
        ensures
            final(self).wf(),
            spec_line_key(*old(self), key, h, *final(self), r),
    {
        let ghost start = *self;
        if let Some(ch) = typed(key) {
            self.push_input_char(ch);
            quiet(true)
        } else if key.code == KeyCode::Backspace {
            self.backspace_input();
            quiet(true)
        } else if key.code == KeyCode::Esc {
            self.go(NavCommand::Escape, 1);
            quiet(true)
        } else if self.input_mode == InputMode::Search {
            let r = self.submit_search();
            assert(spec_search_submitted(start, *self, r));
            quiet(true)
        } else {
            let line = self.take_input();
            let ghost taken = *self;
            let ghost gline = line;
            assert(spec_input_taken(start, taken, gline));
            self.cancel_input();
            let ghost closed = *self;
            assert(spec_input_cancelled(taken, closed));
            match parse_command(line.as_str()) {
                Ok(action) => {
                    assert(spec_command_outcome(gline@) == Ok::<PaletteAction, Seq<char>>(action));
                    match palette_command(action) {
                        Some(command) => {
                            let (effect, requests) = self.dispatch_nav_command(command, h);
                            KeyOutcome { consumed: true, effect, requests, elevate: None }
                        },
                        None => quiet(true),
                    }
                },
                Err(message) => {
                    assert(spec_command_outcome(gline@) == Err::<PaletteAction, Seq<char>>(message@));
                    self.set_notice(message);
                    quiet(true)
                },
            }
        }
    }

    /// Route `key` to the open flow, with a body `viewport_height` rows high;
    /// `elevated` tells whether the process may write to disks. A key no flow takes
    /// comes back unconsumed, for the keymap.
    pub fn on_key(&mut self, key: KeyInput, viewport_height: usize, elevated: bool) -> (r: KeyOutcome)
        requires
            old(self).wf(),
        ensures
            final(self).wf(),
            spec_key_step(*old(self), key, viewport_height, elevated, *final(self), r),
    {
        if key.release {
            return quiet(true);
        }
        let running_inspect = match &self.advanced_inspect {
            Some(a) => a.stage == AdvancedInspectStage::Running,
            None => false,
        };
        if running_inspect {
            self.wait_notice(key, "高级检查正在后台读取，请等待完成。");
            return quiet(true);
        }
        if self.workspace == Workspace::Provision {
            let takes = match self.provision.stage {
                ProvisionStage::SelectDisk | ProvisionStage::BackupPrompt
                | ProvisionStage::BackupSaving | ProvisionStage::Planning | ProvisionStage::Review
                | ProvisionStage::ExportPath | ProvisionStage::Exporting | ProvisionStage::Confirm => true,
                ProvisionStage::Result => key.code == KeyCode::Enter || key.code == KeyCode::Esc,
                _ => false,
            };
            if takes {
                return self.provision_key(key);
            }
        }
        let batch_stage = match &self.backup_batch_delete {
            Some(b) => Some(b.stage),
            None => None,
        };
        if let Some(stage) = batch_stage {
            let takes = match stage {
                BackupBatchDeleteStage::Running => false,
                BackupBatchDeleteStage::Result => key.code == KeyCode::Enter || key.code == KeyCode::Esc,
                _ => true,
            };
            if takes {
                return self.batch_key(stage, key);
            }
        }
        let prune_stage = match &self.backup_prune {
            Some(p) => Some(p.stage),
            None => None,
        };
        if let Some(stage) = prune_stage {
            let takes = match stage {
                BackupPruneStage::Running => false,
                BackupPruneStage::Result => key.code == KeyCode::Enter || key.code == KeyCode::Esc,
                _ => true,
            };
            if takes {
                return self.prune_key(stage, key);
            }
        }
        let confirmation = typed(key).is_some() || key.code == KeyCode::Backspace || key.code
            == KeyCode::Enter || key.code == KeyCode::Esc;
        let deleting = match &self.backup_delete {
            Some(d) => d.stage == WizardStage::Confirm,
            None => false,
        };
        if deleting && confirmation {
            return self.delete_key(key);
        }
        let confirming = match &self.wizard {
            Some(w) => w.stage == WizardStage::Confirm,
            None => false,
        };
        if confirming && confirmation {
            return self.wizard_key(key, elevated);
        }
        if (self.input_mode == InputMode::Search || self.input_mode == InputMode::Command)
            && confirmation {
            return self.line_key(key, viewport_height);
        }
        quiet(false)
    }
}

} // verus!
