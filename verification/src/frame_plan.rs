//! What the top-level frame shows: the activity core's mode and caption, the input
//! mode badge, the selected workspace tab, whether an overlay takes the body (and so
//! leaves room for the animation panel), and which panel fills the body.

use vstd::prelude::*;
use crate::animation::CoreMode;
use crate::provision::ProvisionStage;
use crate::state::{AppState, InputMode, Workspace};

verus! {

/// The panel that fills the frame's body, in the order the frame looks for them.
#[derive(Debug, Clone, Copy, PartialEq, Eq, Structural)]
pub enum BodyPanel {
    AdvancedInspect,
    BackupCreateChoice,
    BackupDelete,
    BackupBatchDelete,
    BackupPrune,
    WriteWizard,
    CommandPalette,
    Help,
    Devices,
    Backups,
    Provision,
}

pub struct FramePlan {
    pub core_mode: CoreMode,
    pub core_activity: String,
    pub mode_label: String,
    pub tab_index: usize,
    pub overlay_active: bool,
    pub body: BodyPanel,
}

/// The activity core: guarding a critical write, busy with an inspection, a scan or
/// a user flow, or idle.
pub open spec fn spec_core(s: AppState) -> (CoreMode, Seq<char>) {
    if s.critical_operation {
        (CoreMode::Guard, "SAFE TRANSACTION"@)
    } else if s.advanced_inspect is Some {
        (CoreMode::Busy, "全盘检查"@)
    } else if (match s.workspace {
        Workspace::Devices => s.device_scan_pending,
        Workspace::Backups => s.backup_scan_pending,
        Workspace::Provision => false,
    }) {
        (CoreMode::Busy, "BACKGROUND SCAN"@)
    } else if s.wizard is Some || (s.workspace == Workspace::Provision && s.provision.stage
        != ProvisionStage::Menu) {
        (CoreMode::Busy, "USER FLOW"@)
    } else {
        (CoreMode::Stable, "INTERACTIVE"@)
    }
}

pub open spec fn spec_mode_label(m: InputMode) -> Seq<char> {
    match m {
        InputMode::Normal => "NORMAL"@,
        InputMode::Insert => "INSERT"@,
        InputMode::Search => "SEARCH"@,
        InputMode::Command => "COMMAND"@,
        InputMode::Confirm => "CONFIRM"@,
        InputMode::Help => "HELP"@,
    }
}

pub open spec fn spec_overlay_active(s: AppState) -> bool {
    s.advanced_inspect is Some || s.backup_delete is Some || s.backup_batch_delete is Some
        || s.backup_create_choice is Some || s.backup_prune is Some || s.wizard is Some
        || s.input_mode == InputMode::Command || s.input_mode == InputMode::Help
}

pub open spec fn spec_body(s: AppState) -> BodyPanel {
    if s.advanced_inspect is Some {
        BodyPanel::AdvancedInspect
    } else if s.backup_create_choice is Some {
        BodyPanel::BackupCreateChoice
    } else if s.backup_delete is Some {
        BodyPanel::BackupDelete
    } else if s.backup_batch_delete is Some {
        BodyPanel::BackupBatchDelete
    } else if s.backup_prune is Some {
        BodyPanel::BackupPrune
    } else if s.wizard is Some {
        BodyPanel::WriteWizard
    } else if s.input_mode == InputMode::Command {
        BodyPanel::CommandPalette
    } else if s.input_mode == InputMode::Help {
        BodyPanel::Help
    } else {
        match s.workspace {
            Workspace::Devices => BodyPanel::Devices,
            Workspace::Backups => BodyPanel::Backups,
            Workspace::Provision => BodyPanel::Provision,
        }
    }
}

impl AppState {
    /// The frame's plan for the current state.
    pub fn frame_plan(&self) -> (r: FramePlan)
        ensures
            r.core_mode == spec_core(*self).0,
            r.core_activity@ == spec_core(*self).1,
            r.mode_label@ == spec_mode_label(self.input_mode),
            r.tab_index == (if self.workspace == Workspace::Backups { 1usize } else { 0usize }),
            r.overlay_active == spec_overlay_active(*self),
            r.body == spec_body(*self),
    {
        let (core_mode, core_activity) = if self.critical_operation {
            (CoreMode::Guard, "SAFE TRANSACTION")
        } else if self.advanced_inspect.is_some() {
            (CoreMode::Busy, "全盘检查")
        } else if self.active_scan_pending() {
            (CoreMode::Busy, "BACKGROUND SCAN")
        } else if self.wizard.is_some() || (self.workspace == Workspace::Provision
            && self.provision.stage != ProvisionStage::Menu) {
            (CoreMode::Busy, "USER FLOW")
        } else {
            (CoreMode::Stable, "INTERACTIVE")
        };
        let mode_label = match self.input_mode {
            InputMode::Normal => "NORMAL",
            InputMode::Insert => "INSERT",
            InputMode::Search => "SEARCH",
            InputMode::Command => "COMMAND",
            InputMode::Confirm => "CONFIRM",
            InputMode::Help => "HELP",
        };
        let tab_index: usize = match self.workspace {
            Workspace::Devices | Workspace::Provision => 0,
            Workspace::Backups => 1,
        };
        let overlay_active = self.advanced_inspect.is_some() || self.backup_delete.is_some()
            || self.backup_batch_delete.is_some() || self.backup_create_choice.is_some()
            || self.backup_prune.is_some() || self.wizard.is_some()
            || self.input_mode == InputMode::Command || self.input_mode == InputMode::Help;
        let body = if self.advanced_inspect.is_some() {
            BodyPanel::AdvancedInspect
        } else if self.backup_create_choice.is_some() {
            BodyPanel::BackupCreateChoice
        } else if self.backup_delete.is_some() {
            BodyPanel::BackupDelete
        } else if self.backup_batch_delete.is_some() {
            BodyPanel::BackupBatchDelete
        } else if self.backup_prune.is_some() {
            BodyPanel::BackupPrune
        } else if self.wizard.is_some() {
            BodyPanel::WriteWizard
        } else if self.input_mode == InputMode::Command {
            BodyPanel::CommandPalette
        } else if self.input_mode == InputMode::Help {
            BodyPanel::Help
        } else {
            match self.workspace {
                Workspace::Devices => BodyPanel::Devices,
                Workspace::Backups => BodyPanel::Backups,
                Workspace::Provision => BodyPanel::Provision,
            }
        };
        FramePlan {
            core_mode,
            core_activity: String::from_str(core_activity),
            mode_label: String::from_str(mode_label),
            tab_index,
            overlay_active,
            body,
        }
    }
}

} // verus!
