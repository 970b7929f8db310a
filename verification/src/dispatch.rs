//! Carrying out a navigation command: the commands that start background work say
//! which task to request, the ones that open a flow check that its target is
//! selected, and everything else is plain navigation.

use vstd::prelude::*;
use crate::backups::{
    BackupPrunePrepared, DeletePlan, spec_backup_delete_begun, spec_backup_toggled, spec_batch_delete_begun, spec_prune_begun,
};
use crate::event_loop::{spec_notice_shown, spec_rescan};
use crate::navigate::spec_navigated;
use crate::provision::ProvisionPrepared;
use crate::state::{
    copy_opt_string, spec_write_wizard_begun, AppState, ExpectedIdentity, NavCommand,
    StateEffect, Workspace, WriteIntent, WriteKind,
};

verus! {

/// Background work a command or key asks for.
#[derive(Debug, Clone)]
pub enum TaskRequest {
    DeviceScan,
    BackupScan,
    InspectDisk(u32),
    InspectBackup(String),
    VerifyBackup(String),
    /// Plan the deletion of these (path, digest) targets.
    BatchDeletePlan(Vec<(String, String)>),
    /// Delete the backups of a confirmed plan.
    BatchDeleteExecute(DeletePlan),
    /// Plan a prune that keeps this many backups.
    PrunePlan(usize),
    PruneExecute(BackupPrunePrepared),
    /// Delete the backup at this path, whose content has this SHA-256.
    BackupDelete(String, String),
    /// Create a backup of a disk.
    BackupCreate(WriteIntent),
    /// Any other confirmed write.
    Write(WriteIntent),
    /// Export a provisioning plan as an image at this path.
    ProvisionExport(ProvisionPrepared, String),
    ProvisionWrite(ProvisionPrepared),
}

pub open spec fn spec_identity_of(onlyid: Option<String>, device_id: Option<String>) -> Option<ExpectedIdentity> {
    Some(ExpectedIdentity { onlyid, device_id })
}

/// A write wizard of `kind` for the selected device, or `missing` as the notice.
pub open spec fn spec_device_wizard(
    old: AppState,
    new: AppState,
    kind: WriteKind,
    backup: Option<String>,
    missing: Seq<char>,
) -> bool {
    match old.spec_selected_device() {
        Some(row) => spec_write_wizard_begun(
            old,
            new,
            kind,
            row.disk,
            backup,
            spec_identity_of(row.onlyid, row.device_id),
            true,
        ),
        None => spec_notice_shown(old, new, missing),
    }
}

/// The state on the backup tab: `old` itself there, else after switching to it.
pub open spec fn spec_on_backup_tab(old: AppState, mid: AppState, h: usize) -> bool {
    if old.workspace == Workspace::Backups {
        mid == old
    } else {
        exists|e: StateEffect| #[trigger] spec_navigated(old, mid, NavCommand::WorkspaceBackups, h, e)
    }
}

/// The result of `command` in state `old` with a viewport `h` rows high: the next
/// state, the effect on the loop, and the background work requested.
pub open spec fn spec_dispatched(
    old: AppState,
    new: AppState,
    command: NavCommand,
    h: usize,
    effect: StateEffect,
    requests: Seq<TaskRequest>,
) -> bool {
    if old.critical_operation {
        spec_navigated(old, new, command, h, effect) && requests.len() == 0
    } else {
        match command {
            NavCommand::Refresh => {
                &&& effect == StateEffect::NoEffect
                &&& if old.workspace == Workspace::Backups {
                    new == spec_rescan(old, false, true) && requests == seq![TaskRequest::BackupScan]
                } else {
                    new == spec_rescan(old, true, false) && requests == seq![TaskRequest::DeviceScan]
                }
            },
            NavCommand::OpenInspect => {
                &&& effect == StateEffect::NoEffect
                &&& requests == if old.workspace == Workspace::Backups {
                    match old.spec_selected_backup() {
                        Some(b) => seq![TaskRequest::InspectBackup(b.path)],
                        None => Seq::empty(),
                    }
                } else {
                    match old.spec_selected_device() {
                        Some(row) => seq![TaskRequest::InspectDisk(row.disk)],
                        None => Seq::empty(),
                    }
                }
                &&& new == if requests.len() > 0 { AppState { inspect_pending: true, ..old } } else { old }
            },
            NavCommand::BeginRestore => {
                &&& effect == StateEffect::NoEffect
                &&& requests.len() == 0
                &&& match (old.spec_selected_device(), old.spec_selected_backup()) {
                    (Some(row), Some(b)) => spec_write_wizard_begun(
                        old,
                        new,
                        WriteKind::Restore,
                        row.disk,
                        Some(b.path),
                        spec_identity_of(row.onlyid, row.device_id),
                        true,
                    ),
                    _ => spec_notice_shown(
                        old,
                        new,
                        "恢复需要先在设备页选定目标 U 盘，再进入备份页选择备份。"@,
                    ),
                }
            },
            NavCommand::BeginBackupCreate => {
                &&& effect == StateEffect::NoEffect
                &&& requests.len() == 0
                &&& spec_device_wizard(old, new, WriteKind::BackupCreate, None, "创建备份需要先在设备页选定 U 盘。"@)
            },
            NavCommand::BeginBackupCreateDeep => {
                &&& effect == StateEffect::NoEffect
                &&& requests.len() == 0
                &&& spec_device_wizard(old, new, WriteKind::BackupCreateDeep, None, "深度备份需要先在设备页选定 U 盘。"@)
            },
            NavCommand::VerifyBackup => {
                &&& effect == StateEffect::NoEffect
                &&& match old.spec_selected_backup() {
                    Some(b) => spec_notice_shown(old, new, "正在后台校验当前备份…"@)
                        && requests == seq![TaskRequest::VerifyBackup(b.path)],
                    None => spec_notice_shown(old, new, "当前没有可校验的备份。"@) && requests.len() == 0,
                }
            },
            NavCommand::BeginBackupDelete => {
                &&& effect == StateEffect::NoEffect
                &&& requests.len() == 0
                &&& match old.spec_selected_backup() {
                    Some(b) => match b.content_sha256 {
                        Some(digest) => spec_backup_delete_begun(old, new, b.path, digest, true),
                        None => spec_notice_shown(old, new, "当前备份缺少可固定的内容摘要，拒绝删除。"@),
                    },
                    None => spec_notice_shown(old, new, "当前备份缺少可固定的内容摘要，拒绝删除。"@),
                }
            },
            NavCommand::ToggleBackupSelection => {
                &&& effect == StateEffect::NoEffect
                &&& requests.len() == 0
                &&& if old.workspace == Workspace::Backups {
                    spec_backup_toggled(old, new)
                } else {
                    spec_notice_shown(old, new, "批量选择只在备份页可用。"@)
                }
            },
            NavCommand::BeginBackupBatchDelete => {
                &&& effect == StateEffect::NoEffect
                &&& exists|mid: AppState, t: Option<Vec<(String, String)>>|
                    #[trigger] spec_on_backup_tab(old, mid, h) && #[trigger] spec_batch_delete_begun(mid, new, t)
                    && requests == match t {
                        Some(v) => seq![TaskRequest::BatchDeletePlan(v)],
                        None => Seq::empty(),
                    }
            },
            NavCommand::BeginBackupPrune => {
                &&& effect == StateEffect::NoEffect
                &&& requests.len() == 0
                &&& exists|mid: AppState, opened: AppState, r: bool|
                    #[trigger] spec_on_backup_tab(old, mid, h) && #[trigger] spec_prune_begun(mid, opened, r)
                    && if r {
                        new == opened
                    } else {
                        spec_notice_shown(opened, new, "已有关键操作或清理向导正在执行。"@)
                    }
            },
            _ => spec_navigated(old, new, command, h, effect) && requests.len() == 0,
        }
    }
}

/// While a critical operation runs, no command starts background work, switches the
/// workspace or ends the operation, and quitting is deferred rather than done.
pub proof fn lemma_critical_dispatch_starts_nothing(
    old: AppState,
    new: AppState,
    command: NavCommand,
    h: usize,
    effect: StateEffect,
    requests: Seq<TaskRequest>,
)
    requires
        old.critical_operation,
        spec_dispatched(old, new, command, h, effect, requests),
    ensures
        requests.len() == 0,
        new.workspace == old.workspace,
        new.critical_operation,
        effect != StateEffect::ExitRequested,
        command == NavCommand::Quit ==> effect == StateEffect::ExitDeferred && new.exit_pending,
{
}

/// Whether a request writes to a disk.
pub open spec fn spec_writes_disk(r: TaskRequest) -> bool {
    r is BackupCreate || r is Write || r is ProvisionWrite
}

/// No navigation command writes to a disk; only a confirmed wizard does.
pub proof fn lemma_commands_never_write(
    old: AppState,
    new: AppState,
    command: NavCommand,
    h: usize,
    effect: StateEffect,
    requests: Seq<TaskRequest>,
)
    requires
        spec_dispatched(old, new, command, h, effect, requests),
    ensures
        forall|i: int| 0 <= i < requests.len() ==> !spec_writes_disk(#[trigger] requests[i]),
{
    if !old.critical_operation && command == NavCommand::BeginBackupBatchDelete {
        let (mid, t) = choose|mid: AppState, t: Option<Vec<(String, String)>>|
            #[trigger] spec_on_backup_tab(old, mid, h) && #[trigger] spec_batch_delete_begun(mid, new, t)
            && requests == match t {
                Some(v) => seq![TaskRequest::BatchDeletePlan(v)],
                None => Seq::<TaskRequest>::empty(),
            };
    }
}

impl AppState {
    fn notice_text(&mut self, message: &str)
        ensures
            spec_notice_shown(*old(self), *final(self), message@),
    {
        self.set_notice(String::from_str(message));
    }

    fn open_device_wizard(&mut self, kind: WriteKind, backup: Option<String>, missing: &str)
        requires
            !old(self).critical_operation,
        ensures
            spec_device_wizard(*old(self), *final(self), kind, backup, missing@),
    {
        match self.selected_device() {
            Some(row) => {
                let disk = row.disk;
                let identity = ExpectedIdentity {
                    onlyid: copy_opt_string(&row.onlyid),
                    device_id: copy_opt_string(&row.device_id),
                };
                self.begin_write_wizard_for_identity(kind, disk, backup, Some(identity));
            },
            None => {
                self.notice_text(missing);
            },
        }
    }

    /// Carry out `command` with a viewport `viewport_height` rows high; returns its
    /// effect on the loop and the background work to request.
    pub fn dispatch_nav_command(&mut self, command: NavCommand, viewport_height: usize) -> (r: (
        StateEffect,
        Vec<TaskRequest>,
    ))
        requires
            old(self).wf(),
        ensures
            final(self).wf(),
            spec_dispatched(*old(self), *final(self), command, viewport_height, r.0, r.1@),
    {
        let mut requests: Vec<TaskRequest> = Vec::new();
        if self.critical_operation {
            let effect = self.navigate(command, viewport_height);
            return (effect, requests);
        }
        let ghost start = *self;
        match command {
            NavCommand::Refresh => {
                if self.workspace == Workspace::Backups {
                    self.set_backup_scan_pending(true);
                    requests.push(TaskRequest::BackupScan);
                } else {
                    self.set_device_scan_pending(true);
                    requests.push(TaskRequest::DeviceScan);
                }
                assert(requests@.len() == 1);
            },
            NavCommand::OpenInspect => {
                if self.workspace == Workspace::Backups {
                    if let Some(path) = self.selected_backup_path() {
                        requests.push(TaskRequest::InspectBackup(path));
                        self.inspect_pending = true;
                    }
                } else {
                    if let Some(disk) = self.selected_device_disk() {
                        requests.push(TaskRequest::InspectDisk(disk));
                        self.inspect_pending = true;
                    }
                }
            },
            NavCommand::BeginRestore => {
                let backup = self.selected_backup_path();
                match (self.selected_device(), backup) {
                    (Some(row), Some(path)) => {
                        let disk = row.disk;
                        let identity = ExpectedIdentity {
                            onlyid: copy_opt_string(&row.onlyid),
                            device_id: copy_opt_string(&row.device_id),
                        };
                        self.begin_write_wizard_for_identity(
                            WriteKind::Restore,
                            disk,
                            Some(path),
                            Some(identity),
                        );
                    },
                    _ => {
                        self.notice_text("恢复需要先在设备页选定目标 U 盘，再进入备份页选择备份。");
                    },
                }
            },
            NavCommand::BeginBackupCreate => {
                self.open_device_wizard(WriteKind::BackupCreate, None, "创建备份需要先在设备页选定 U 盘。");
            },
            NavCommand::BeginBackupCreateDeep => {
                self.open_device_wizard(WriteKind::BackupCreateDeep, None, "深度备份需要先在设备页选定 U 盘。");
            },
            NavCommand::VerifyBackup => {
                match self.selected_backup_path() {
                    Some(path) => {
                        self.notice_text("正在后台校验当前备份…");
                        requests.push(TaskRequest::VerifyBackup(path));
                    },
                    None => {
                        self.notice_text("当前没有可校验的备份。");
                    },
                }
            },
            NavCommand::BeginBackupDelete => {
                match self.selected_backup_delete_target() {
                    Some((path, digest)) => {
                        self.begin_backup_delete(path, digest);
                    },
                    None => {
                        self.notice_text("当前备份缺少可固定的内容摘要，拒绝删除。");
                    },
                }
            },
            NavCommand::ToggleBackupSelection => {
                if self.workspace == Workspace::Backups {
                    self.toggle_selected_backup();
                } else {
                    self.notice_text("批量选择只在备份页可用。");
                }
            },
            NavCommand::BeginBackupBatchDelete => {
                if self.workspace != Workspace::Backups {
                    let e = self.navigate(NavCommand::WorkspaceBackups, viewport_height);
                    assert(spec_navigated(start, *self, NavCommand::WorkspaceBackups, viewport_height, e));
                }
                let ghost mid = *self;
                assert(spec_on_backup_tab(start, mid, viewport_height));
                let targets = self.begin_backup_batch_delete();
                let ghost gt = targets;
                assert(spec_batch_delete_begun(mid, *self, gt));
                if let Some(v) = targets {
                    requests.push(TaskRequest::BatchDeletePlan(v));
                }
                assert(requests@ == match gt {
                    Some(v) => seq![TaskRequest::BatchDeletePlan(v)],
                    None => Seq::<TaskRequest>::empty(),
                });
            },
            NavCommand::BeginBackupPrune => {
                if self.workspace != Workspace::Backups {
                    let e = self.navigate(NavCommand::WorkspaceBackups, viewport_height);
                    assert(spec_navigated(start, *self, NavCommand::WorkspaceBackups, viewport_height, e));
                }
                let ghost mid = *self;
                assert(spec_on_backup_tab(start, mid, viewport_height));
                let opened = self.begin_backup_prune();
                let ghost after = *self;
                assert(spec_prune_begun(mid, after, opened));
                if !opened {
                    self.notice_text("已有关键操作或清理向导正在执行。");
                }
            },
            _ => {
                let effect = self.navigate(command, viewport_height);
                return (effect, requests);
            },
        }
        (StateEffect::NoEffect, requests)
    }
}

} // verus!
