//! The decisions of the terminal event loop, as a step from state and event to next
//! state and actions: which task results reach the state, which of them start a fresh
//! scan, and when the loop may end. The caller owns the clock, the task threads and
//! the terminal; it performs the actions and hands back what happened.

use vstd::prelude::*;
use crate::backups::{
    spec_backup_delete_finished, spec_batch_execute_finished, spec_batch_plan_finished,
    spec_prune_execute_finished, spec_prune_plan_finished, BackupPrunePrepared, DeletePlan,
};
use crate::inspect::{spec_advanced_inspect_finished, InspectWorkspace};
use crate::provision::{
    spec_provision_export_finished, spec_provision_plan_finished, spec_provision_write_finished,
    ProvisionPrepared, ProvisionState,
};
use crate::dispatch::TaskRequest;
use crate::refresh::{spec_backups_replaced, spec_devices_replaced};
use crate::state::{
    spec_msg, spec_write_finished, spec_write_progress_set, AppState, BackupItem, DeviceRow, StateEffect,
    WriteIntent, WriteKind,
};

verus! {

/// Something that happened outside the state: a clock tick, a task's result, or the end
/// of one round of draining the task results.
pub enum LoopEvent {
    /// The animation interval has passed.
    Tick,
    Devices(Vec<DeviceRow>),
    Backups(Vec<BackupItem>),
    DeviceScanFailed(String),
    BackupScanFailed(String),
    WriteProgress(String),
    WriteFinished(Result<(), String>),
    /// A backup check ended; the name is the checked file's name.
    BackupVerified(String, Result<(), String>),
    BackupDeleteFinished(Result<(), String>),
    BatchDeletePlanned(Result<DeletePlan, String>),
    BatchDeleteFinished(Result<usize, String>),
    PrunePlanned(Result<BackupPrunePrepared, String>),
    PruneFinished(Result<usize, String>),
    ProvisionPlanned(Result<ProvisionPrepared, String>),
    ProvisionProgress(String),
    ProvisionWritten(Result<String, String>),
    ProvisionExported(Result<String, String>),
    AdvancedInspectFinished(Result<InspectWorkspace, String>),
    /// The basic inspection of a disk or backup answered: it is ready, or failed for
    /// the reason given.
    InspectFinished(Result<(), String>),
    /// Every pending task result of this round has been handed in.
    UpdatesDrained,
}

/// What the caller is asked to do next.
#[derive(Debug, Clone, Copy, PartialEq, Eq, Structural)]
pub enum LoopAction {
    RequestDeviceScan,
    RequestBackupScan,
    Exit,
}

/// `s` with the scan flags raised that a fresh device and/or backup scan sets.
pub open spec fn spec_rescan(s: AppState, devices: bool, backups: bool) -> AppState {
    AppState {
        device_scan_pending: if devices { true } else { s.device_scan_pending },
        backup_scan_pending: if backups { true } else { s.backup_scan_pending },
        ..s
    }
}

/// The scan requests, device scan first.
pub open spec fn spec_rescan_actions(devices: bool, backups: bool) -> Seq<LoopAction> {
    (if devices { seq![LoopAction::RequestDeviceScan] } else { Seq::empty() }) + (if backups {
        seq![LoopAction::RequestBackupScan]
    } else {
        Seq::empty()
    })
}

/// `new` is `old` with `message` shown as the notice and nothing else changed.
pub open spec fn spec_notice_shown(old: AppState, new: AppState, message: Seq<char>) -> bool {
    &&& new == (AppState { notice: new.notice, notice_at: new.notice_at, ..old })
    &&& spec_msg(new.notice, message)
    &&& new.notice_at is Some
}

/// Whether a finished write was a backup, whose success refreshes the backup list.
pub open spec fn spec_write_refreshes(old: AppState, result: Result<(), String>) -> bool {
    &&& result is Ok
    &&& old.wizard matches Some(w)
    &&& (w.kind == WriteKind::BackupCreate || w.kind == WriteKind::BackupCreateDeep)
}

/// The loop's step: `new` and `actions` are the state and the requests after `event`
/// arrives in state `old`.
pub open spec fn spec_on_event(
    old: AppState,
    event: LoopEvent,
    new: AppState,
    actions: Seq<LoopAction>,
) -> bool {
    match event {
        LoopEvent::Tick => new == (AppState {
            animation_frame: if old.animation_frame == u64::MAX {
                0
            } else {
                (old.animation_frame + 1) as u64
            },
            ..old
        }) && actions.len() == 0,
        LoopEvent::Devices(rows) => spec_devices_replaced(old, new, rows@) && actions.len() == 0,
        LoopEvent::Backups(rows) => spec_backups_replaced(old, new, rows@) && actions.len() == 0,
        LoopEvent::DeviceScanFailed(m) => spec_notice_shown(
            AppState { device_scan_pending: false, ..old },
            new,
            m@,
        ) && actions.len() == 0,
        LoopEvent::BackupScanFailed(m) => spec_notice_shown(
            AppState { backup_scan_pending: false, ..old },
            new,
            m@,
        ) && actions.len() == 0,
        LoopEvent::WriteProgress(e) => spec_write_progress_set(old, new, e) && actions.len() == 0,
        LoopEvent::WriteFinished(result) => {
            let refresh = spec_write_refreshes(old, result);
            &&& exists|mid: AppState|
                #[trigger] spec_write_finished(old, mid, result) && new == spec_rescan(mid, false, refresh)
            &&& actions == spec_rescan_actions(false, refresh)
        },
        LoopEvent::BackupVerified(name, result) => {
            &&& match result {
                Ok(_) => spec_notice_shown(
                    old,
                    new,
                    "备份 "@ + name@ + " 校验通过：大小与 SHA-256 正常。"@,
                ),
                Err(m) => spec_notice_shown(old, new, m@),
            }
            &&& actions.len() == 0
        },
        LoopEvent::BackupDeleteFinished(result) => {
            &&& exists|mid: AppState|
                #[trigger] spec_backup_delete_finished(old, mid, result) && new == spec_rescan(mid, false, result is Ok)
            &&& actions == spec_rescan_actions(false, result is Ok)
        },
        LoopEvent::BatchDeletePlanned(result) => spec_batch_plan_finished(old, new, result)
            && actions.len() == 0,
        LoopEvent::BatchDeleteFinished(result) => {
            &&& exists|mid: AppState|
                #[trigger] spec_batch_execute_finished(old, mid, result) && new == spec_rescan(mid, false, result is Ok)
            &&& actions == spec_rescan_actions(false, result is Ok)
        },
        LoopEvent::PrunePlanned(result) => spec_prune_plan_finished(old, new, result)
            && actions.len() == 0,
        LoopEvent::PruneFinished(result) => {
            &&& exists|mid: AppState|
                #[trigger] spec_prune_execute_finished(old, mid, result) && new == spec_rescan(mid, false, result is Ok)
            &&& actions == spec_rescan_actions(false, result is Ok)
        },
        LoopEvent::ProvisionPlanned(result) => spec_provision_plan_finished(old, new, result)
            && actions.len() == 0,
        LoopEvent::ProvisionProgress(m) => new == (AppState {
            provision: ProvisionState { message: Some(m), ..old.provision },
            ..old
        }) && actions.len() == 0,
        LoopEvent::ProvisionWritten(result) => {
            &&& exists|mid: AppState|
                #[trigger] spec_provision_write_finished(old, mid, result) && new == spec_rescan(mid, result is Ok, result is Ok)
            &&& actions == spec_rescan_actions(result is Ok, result is Ok)
        },
        LoopEvent::ProvisionExported(result) => spec_provision_export_finished(old, new, result)
            && actions.len() == 0,
        LoopEvent::AdvancedInspectFinished(result) => spec_advanced_inspect_finished(
            old,
            new,
            result,
        ) && actions.len() == 0,
        LoopEvent::InspectFinished(result) => {
            &&& actions.len() == 0
            &&& match result {
                Ok(_) => new == (AppState { inspect_pending: false, ..old }),
                Err(m) => spec_notice_shown(AppState { inspect_pending: false, ..old }, new, m@),
            }
        },
        LoopEvent::UpdatesDrained => if !old.critical_operation && old.exit_pending {
            new == (AppState { exit_pending: false, ..old }) && actions == seq![LoopAction::Exit]
        } else {
            new == old && actions.len() == 0
        },
    }
}

/// The loop ends only at a round's end and never while a critical operation runs:
/// an exit request is answered after the task results are drained, once the
/// operation that deferred it is over.
pub proof fn lemma_exit_only_after_critical_work(
    old: AppState,
    event: LoopEvent,
    new: AppState,
    actions: Seq<LoopAction>,
)
    requires
        spec_on_event(old, event, new, actions),
        actions.contains(LoopAction::Exit),
    ensures
        event is UpdatesDrained,
        !old.critical_operation,
        old.exit_pending,
        !new.exit_pending,
{
    if !(event is UpdatesDrained) {
        assert forall|d: bool, b: bool, k: int|
            0 <= k < spec_rescan_actions(d, b).len() implies #[trigger] spec_rescan_actions(d, b)[k]
            != LoopAction::Exit by {
        }
    }
}

/// A task that failed never starts a rescan.
pub proof fn lemma_failure_starts_no_scan(
    old: AppState,
    event: LoopEvent,
    new: AppState,
    actions: Seq<LoopAction>,
)
    requires
        spec_on_event(old, event, new, actions),
        match event {
            LoopEvent::WriteFinished(r) => r is Err,
            LoopEvent::BackupDeleteFinished(r) => r is Err,
            LoopEvent::BatchDeleteFinished(r) => r is Err,
            LoopEvent::PruneFinished(r) => r is Err,
            LoopEvent::ProvisionWritten(r) => r is Err,
            _ => false,
        },
    ensures
        actions.len() == 0,
{
    assert(spec_rescan_actions(false, false) =~= Seq::<LoopAction>::empty());
}

/// `new` and `actions` are a session's opening state and requests: a resumed write
/// intent opens its confirmation wizard, and both lists are scanned.
pub open spec fn spec_session_started(
    old: AppState,
    resume: Option<WriteIntent>,
    new: AppState,
    actions: Seq<LoopAction>,
) -> bool {
    &&& actions == spec_rescan_actions(true, true)
    &&& match resume {
        None => new == spec_rescan(old, true, true),
        Some(intent) => exists|mid: AppState|
            #[trigger] spec_wizard_opened(old, mid, intent) && new == spec_rescan(mid, true, true),
    }
}

/// `new` is `old` after the write wizard was asked to open for `intent`.
pub open spec fn spec_wizard_opened(old: AppState, new: AppState, intent: WriteIntent) -> bool {
    &&& old.critical_operation ==> new == (AppState {
        notice: new.notice,
        notice_at: new.notice_at,
        ..old
    }) && spec_msg(new.notice, "关键操作仍在执行，完成前不能启动其他任务。"@)
    &&& !old.critical_operation ==> new == (AppState {
        input_mode: crate::state::InputMode::Confirm,
        wizard: new.wizard,
        ..old
    }) && (new.wizard matches Some(w) && w.stage == crate::state::WizardStage::Confirm && w.kind
        == intent.kind && w.disk == intent.disk && w.backup == intent.backup
        && w.expected_identity is None && w.confirmation@.len() == 0 && w.message is None
        && w.progress is None)
}

/// What a task that could not be started reports, as the task itself would have
/// reported a failure: the flow waiting on it learns why. Scans, inspections and
/// backup checks always start, so they report nothing here.
pub open spec fn spec_refused_request_event(request: TaskRequest, message: String) -> Option<LoopEvent> {
    match request {
        TaskRequest::BatchDeletePlan(_) => Some(LoopEvent::BatchDeletePlanned(Err(message))),
        TaskRequest::BatchDeleteExecute(_) => Some(LoopEvent::BatchDeleteFinished(Err(message))),
        TaskRequest::PrunePlan(_) => Some(LoopEvent::PrunePlanned(Err(message))),
        TaskRequest::PruneExecute(_) => Some(LoopEvent::PruneFinished(Err(message))),
        TaskRequest::BackupDelete(_, _) => Some(LoopEvent::BackupDeleteFinished(Err(message))),
        TaskRequest::BackupCreate(_) => Some(LoopEvent::WriteFinished(Err(message))),
        TaskRequest::Write(_) => Some(LoopEvent::WriteFinished(Err(message))),
        TaskRequest::ProvisionExport(_, _) => Some(LoopEvent::ProvisionExported(Err(message))),
        TaskRequest::ProvisionWrite(_) => Some(LoopEvent::ProvisionWritten(Err(message))),
        _ => None,
    }
}

/// The event a task that could not be started reports; hand it to `on_event`.
pub fn refused_request_event(request: &TaskRequest, message: String) -> (r: Option<LoopEvent>)
    ensures
        r == spec_refused_request_event(*request, message),
{
    match request {
        TaskRequest::BatchDeletePlan(_) => Some(LoopEvent::BatchDeletePlanned(Err(message))),
        TaskRequest::BatchDeleteExecute(_) => Some(LoopEvent::BatchDeleteFinished(Err(message))),
        TaskRequest::PrunePlan(_) => Some(LoopEvent::PrunePlanned(Err(message))),
        TaskRequest::PruneExecute(_) => Some(LoopEvent::PruneFinished(Err(message))),
        TaskRequest::BackupDelete(_, _) => Some(LoopEvent::BackupDeleteFinished(Err(message))),
        TaskRequest::BackupCreate(_) => Some(LoopEvent::WriteFinished(Err(message))),
        TaskRequest::Write(_) => Some(LoopEvent::WriteFinished(Err(message))),
        TaskRequest::ProvisionExport(_, _) => Some(LoopEvent::ProvisionExported(Err(message))),
        TaskRequest::ProvisionWrite(_) => Some(LoopEvent::ProvisionWritten(Err(message))),
        _ => None,
    }
}

fn push_rescans(actions: &mut Vec<LoopAction>, devices: bool, backups: bool)
    ensures
        final(actions)@ == old(actions)@ + spec_rescan_actions(devices, backups),
{
    if devices {
        actions.push(LoopAction::RequestDeviceScan);
    }
    if backups {
        actions.push(LoopAction::RequestBackupScan);
    }
    assert(final(actions)@ =~= old(actions)@ + spec_rescan_actions(devices, backups));
}

impl AppState {
    fn mark_rescans(&mut self, devices: bool, backups: bool)
        ensures
            *final(self) == spec_rescan(*old(self), devices, backups),
    {
        if devices {
            self.set_device_scan_pending(true);
        }
        if backups {
            self.set_backup_scan_pending(true);
        }
    }

    /// Open a session: a resumed write intent goes straight to its confirmation wizard,
    /// and the device and backup lists are scanned.
    pub fn start_session(&mut self, resume: Option<WriteIntent>) -> (r: Vec<LoopAction>)
        requires
            old(self).wf(),
        ensures
            final(self).wf(),
            spec_session_started(*old(self), resume, *final(self), r@),
    {
        let ghost start = *self;
        match resume {
            Some(intent) => {
                let ghost gi = intent;
                self.begin_write_wizard(intent.kind, intent.disk, intent.backup);
                let ghost mid = *self;
                assert(spec_wizard_opened(start, mid, gi));
                self.mark_rescans(true, true);
            },
            None => {
                self.mark_rescans(true, true);
            },
        }
        let mut actions: Vec<LoopAction> = Vec::new();
        push_rescans(&mut actions, true, true);
        actions
    }

    /// Take one event into the state and say what the caller must do next.
    #[verifier::rlimit(40)]
    pub fn on_event(&mut self, event: LoopEvent) -> (r: Vec<LoopAction>)
        requires
            old(self).wf(),
        ensures
            final(self).wf(),
            spec_on_event(*old(self), event, *final(self), r@),
    {
        let ghost start = *self;
        let mut actions: Vec<LoopAction> = Vec::new();
        match event {
            LoopEvent::Tick => {
                self.advance_animation();
            },
            LoopEvent::Devices(rows) => {
                self.replace_devices(rows);
            },
            LoopEvent::Backups(rows) => {
                self.replace_backups(rows);
            },
            LoopEvent::DeviceScanFailed(m) => {
                self.set_device_scan_pending(false);
                self.set_notice(m);
            },
            LoopEvent::BackupScanFailed(m) => {
                self.set_backup_scan_pending(false);
                self.set_notice(m);
            },
            LoopEvent::WriteProgress(e) => {
                self.set_write_progress(e);
            },
            LoopEvent::WriteFinished(result) => {
                let refresh = result.is_ok() && match &self.wizard {
                    Some(w) => match w.kind {
                        WriteKind::BackupCreate | WriteKind::BackupCreateDeep => true,
                        _ => false,
                    },
                    None => false,
                };
                let ghost gr = result;
                self.finish_write(result);
                let ghost mid = *self;
                assert(spec_write_finished(start, mid, gr));
                self.mark_rescans(false, refresh);
                push_rescans(&mut actions, false, refresh);
            },
            LoopEvent::BackupVerified(name, result) => {
                match result {
                    Ok(_) => {
                        let mut m = String::from_str("备份 ");
                        m.append(name.as_str());
                        m.append(" 校验通过：大小与 SHA-256 正常。");
                        self.set_notice(m);
                    },
                    Err(m) => {
                        self.set_notice(m);
                    },
                }
            },
            LoopEvent::BackupDeleteFinished(result) => {
                let ok = result.is_ok();
                let ghost gr = result;
                self.finish_backup_delete(result);
                let ghost mid = *self;
                assert(spec_backup_delete_finished(start, mid, gr));
                self.mark_rescans(false, ok);
                push_rescans(&mut actions, false, ok);
            },
            LoopEvent::BatchDeletePlanned(result) => {
                self.backup_batch_delete_finish_plan(result);
            },
            LoopEvent::BatchDeleteFinished(result) => {
                let ok = result.is_ok();
                let ghost gr = result;
                self.backup_batch_delete_finish_execute(result);
                let ghost mid = *self;
                assert(spec_batch_execute_finished(start, mid, gr));
                self.mark_rescans(false, ok);
                push_rescans(&mut actions, false, ok);
            },
            LoopEvent::PrunePlanned(result) => {
                self.backup_prune_finish_plan(result);
            },
            LoopEvent::PruneFinished(result) => {
                let ok = result.is_ok();
                let ghost gr = result;
                self.backup_prune_finish_execute(result);
                let ghost mid = *self;
                assert(spec_prune_execute_finished(start, mid, gr));
                self.mark_rescans(false, ok);
                push_rescans(&mut actions, false, ok);
            },
            LoopEvent::ProvisionPlanned(result) => {
                self.provision_finish_plan(result);
            },
            LoopEvent::ProvisionProgress(m) => {
                self.provision.message = Some(m);
            },
            LoopEvent::ProvisionWritten(result) => {
                let ok = result.is_ok();
                let ghost gr = result;
                self.provision_finish_write(result);
                let ghost mid = *self;
                assert(spec_provision_write_finished(start, mid, gr));
                self.mark_rescans(ok, ok);
                push_rescans(&mut actions, ok, ok);
            },
            LoopEvent::ProvisionExported(result) => {
                self.provision_finish_export(result);
            },
            LoopEvent::AdvancedInspectFinished(result) => {
                self.advanced_inspect_finish(result);
            },
            LoopEvent::InspectFinished(result) => {
                self.inspect_pending = false;
                if let Err(m) = result {
                    self.set_notice(m);
                }
            },
            LoopEvent::UpdatesDrained => {
                match self.take_deferred_exit() {
                    StateEffect::ExitRequested => {
                        actions.push(LoopAction::Exit);
                    },
                    _ => {},
                }
            },
        }
        actions
    }
}

} // verus!
