//! The workspace state machine. It performs no I/O, so navigation, search and
//! cancellation semantics are checked without a terminal.

use vstd::prelude::*;
use crate::backups::{
    BackupBatchDeleteState, BackupCreateChoiceState, BackupDeleteState, BackupPruneState,
};
use crate::inspect::{AdvancedInspectStage, AdvancedInspectState};
use crate::navigation::{NavigationFrame, NavigationLocation, NavigationStack};
use crate::pane::{PaneFocus, PaneId, PaneViewport, spec_default_viewport, spec_is_inspect};
use crate::provision::{ProvisionKind, ProvisionStage, ProvisionState, PROVISION_KIND_COUNT};
use crate::table_layout::{
    HorizontalScrollState, TableKind, layout_for, spec_last_scroll, spec_layout_specs,
    spec_table_slot,
};
use crate::text::{
    ascii_lower_chars, chars_of, concat, contains_run, is_control, spec_ascii_lower,
    spec_contains_run, spec_decimal, spec_is_control, spec_trim, string_from_chars, string_pop,
    string_push, trim_chars, u64_decimal,
};

verus! {

#[verifier::external_type_specification]
#[verifier::external_body]
pub struct ExInstant(std::time::Instant);

/// The current instant (`Instant::now`); nothing is known of its value.
#[verifier::external_body]
fn instant_now() -> std::time::Instant {
    std::time::Instant::now()
}

/// Time passed since `at` (`Instant::elapsed`); depends on the clock.
#[verifier::external_body]
fn instant_elapsed(at: &std::time::Instant) -> std::time::Duration {
    at.elapsed()
}

/// Whole milliseconds of a duration (`Duration::as_millis`); nothing is known of its value.
#[verifier::external_body]
fn duration_millis(d: std::time::Duration) -> u128 {
    d.as_millis()
}

#[derive(Debug, Clone, Copy, PartialEq, Eq, Structural)]
pub enum WriteKind {
    Apply,
    Restore,
    BackupCreate,
    BackupCreateDeep,
}

#[derive(Debug, Clone, Copy, PartialEq, Eq, Structural)]
pub enum WizardStage {
    Confirm,
    Running,
    Result,
}

#[derive(Debug, Clone)]
pub struct ExpectedIdentity {
    pub onlyid: Option<String>,
    pub device_id: Option<String>,
}

#[derive(Debug, Clone)]
pub struct WriteIntent {
    pub kind: WriteKind,
    pub disk: u32,
    pub backup: Option<String>,
    pub expected_identity: Option<ExpectedIdentity>,
}

#[derive(Debug, Clone)]
pub struct WizardState {
    pub stage: WizardStage,
    pub kind: WriteKind,
    pub disk: u32,
    pub backup: Option<String>,
    pub expected_identity: Option<ExpectedIdentity>,
    pub confirmation: String,
    pub message: Option<String>,
    pub progress: Option<String>,
}

#[derive(Debug, Clone, Copy, PartialEq, Eq, Structural)]
pub enum Workspace {
    Devices,
    Backups,
    Provision,
}

#[derive(Debug, Clone, Copy, PartialEq, Eq, Structural)]
pub enum InputMode {
    Normal,
    Insert,
    Search,
    Command,
    Confirm,
    Help,
}

#[derive(Debug, Clone, Copy, PartialEq, Eq, Structural)]
pub enum NavCommand {
    Up,
    Down,
    Top,
    Bottom,
    HalfPageDown,
    HalfPageUp,
    Search,
    NextMatch,
    PreviousMatch,
    CommandPalette,
    Escape,
    Quit,
    Help,
    Refresh,
    BeginRestore,
    BeginBackupCreate,
    BeginBackupCreateDeep,
    BeginBackupDelete,
    ToggleBackupSelection,
    BeginBackupBatchDelete,
    BeginBackupPrune,
    VerifyBackup,
    OpenInspect,
    NextWorkspace,
    PreviousWorkspace,
    WorkspaceDevices,
    WorkspaceBackups,
    WorkspaceProvision,
}

#[derive(Debug, Clone, Copy, PartialEq, Eq, Structural)]
pub enum StateEffect {
    NoEffect,
    ExitRequested,
    ExitDeferred,
}

/// A scanned physical disk, with the identity text the workspace searches, its USB
/// vendor and product ids, and the user and department recorded on it.
#[derive(Debug, Clone)]
pub struct DeviceRow {
    pub disk: u32,
    pub size: u64,
    pub proto: String,
    pub denied: bool,
    pub probe_error: Option<String>,
    pub onlyid: Option<String>,
    pub device_id: Option<String>,
    pub identity_text: String,
    pub kind_name: String,
    pub vid: String,
    pub pid: String,
    pub user: Option<String>,
    pub dept: Option<String>,
}

/// A backup file found in the backup directory.
#[derive(Debug, Clone)]
pub struct BackupItem {
    pub path: String,
    pub file_name: String,
    pub display_time: String,
    pub content_sha256: Option<String>,
    pub identity_text: String,
    pub kind_name: String,
    /// The backup's number in the listing.
    pub index: usize,
    pub kind_short_name: String,
    pub user: Option<String>,
    pub dept: Option<String>,
    /// Whether the file has the size its header promises.
    pub size_ok: bool,
    /// Whether the file's recorded integrity check passed.
    pub integrity_verified: bool,
}

/// Text a device row is searched by.
pub open spec fn spec_device_text(row: DeviceRow) -> Seq<char> {
    "disk"@ + spec_decimal(row.disk as nat) + " "@ + row.identity_text@ + " "@ + row.proto@ + " "@
        + row.kind_name@
}

/// Text a backup row is searched by.
pub open spec fn spec_backup_text(row: BackupItem) -> Seq<char> {
    row.file_name@ + " "@ + row.display_time@ + " "@ + row.identity_text@ + " "@ + row.kind_name@
}

pub open spec fn spec_device_matches(row: DeviceRow, query: Seq<char>) -> bool {
    spec_contains_run(spec_ascii_lower(spec_device_text(row)), query)
}

pub open spec fn spec_backup_matches(row: BackupItem, query: Seq<char>) -> bool {
    spec_contains_run(spec_ascii_lower(spec_backup_text(row)), query)
}

/// A disk that can be provisioned: a readable USB disk.
pub open spec fn spec_usable(row: DeviceRow) -> bool {
    row.proto@ == "USB"@ && !row.denied && row.probe_error is None
}

/// Positions of the devices matching `query`, in order.
pub open spec fn spec_device_hits(rows: Seq<DeviceRow>, query: Seq<char>) -> Seq<usize>
    decreases rows.len(),
{
    if rows.len() == 0 {
        Seq::empty()
    } else {
        let prev = spec_device_hits(rows.drop_last(), query);
        if spec_device_matches(rows.last(), query) {
            prev.push((rows.len() - 1) as usize)
        } else {
            prev
        }
    }
}

/// Positions of the backups matching `query`, in order.
pub open spec fn spec_backup_hits(rows: Seq<BackupItem>, query: Seq<char>) -> Seq<usize>
    decreases rows.len(),
{
    if rows.len() == 0 {
        Seq::empty()
    } else {
        let prev = spec_backup_hits(rows.drop_last(), query);
        if spec_backup_matches(rows.last(), query) {
            prev.push((rows.len() - 1) as usize)
        } else {
            prev
        }
    }
}

/// Positions of the provisionable devices, in order.
pub open spec fn spec_usable_positions(rows: Seq<DeviceRow>) -> Seq<usize>
    decreases rows.len(),
{
    if rows.len() == 0 {
        Seq::empty()
    } else {
        let prev = spec_usable_positions(rows.drop_last());
        if spec_usable(rows.last()) {
            prev.push((rows.len() - 1) as usize)
        } else {
            prev
        }
    }
}

/// The first position holding `disk`, if any.
pub open spec fn spec_disk_position(rows: Seq<DeviceRow>, disk: u32) -> Option<usize>
    decreases rows.len(),
{
    if rows.len() == 0 {
        None
    } else {
        match spec_disk_position(rows.drop_last(), disk) {
            Some(p) => Some(p),
            None => if rows.last().disk == disk {
                Some((rows.len() - 1) as usize)
            } else {
                None
            },
        }
    }
}

/// The first position holding a backup at `path`, if any.
pub open spec fn spec_path_position(rows: Seq<BackupItem>, path: Seq<char>) -> Option<usize>
    decreases rows.len(),
{
    if rows.len() == 0 {
        None
    } else {
        match spec_path_position(rows.drop_last(), path) {
            Some(p) => Some(p),
            None => if rows.last().path@ == path {
                Some((rows.len() - 1) as usize)
            } else {
                None
            },
        }
    }
}

/// The first position whose value is `v`, if any.
pub open spec fn spec_value_position(s: Seq<usize>, v: usize) -> Option<usize>
    decreases s.len(),
{
    if s.len() == 0 {
        None
    } else {
        match spec_value_position(s.drop_last(), v) {
            Some(p) => Some(p),
            None => if s.last() == v {
                Some((s.len() - 1) as usize)
            } else {
                None
            },
        }
    }
}

/// `o` holds a string whose characters are `s`.
pub open spec fn spec_msg(o: Option<String>, s: Seq<char>) -> bool {
    match o {
        Some(x) => x@ == s,
        None => false,
    }
}

/// Matches for raw query text `q_raw` in workspace `ws`.
pub open spec fn spec_hits_for(
    ws: Workspace,
    devices: Seq<DeviceRow>,
    backups: Seq<BackupItem>,
    q_raw: Seq<char>,
) -> Seq<usize> {
    let q = spec_ascii_lower(q_raw);
    if q.len() == 0 {
        Seq::empty()
    } else {
        match ws {
            Workspace::Devices => spec_device_hits(devices, q),
            Workspace::Backups => spec_backup_hits(backups, q),
            Workspace::Provision => Seq::empty(),
        }
    }
}

/// Item count of workspace `ws` under raw query text `q_raw`.
pub open spec fn spec_count_for(
    ws: Workspace,
    devices: Seq<DeviceRow>,
    backups: Seq<BackupItem>,
    q_raw: Seq<char>,
) -> nat {
    if q_raw.len() == 0 {
        match ws {
            Workspace::Devices => devices.len(),
            Workspace::Backups => backups.len(),
            Workspace::Provision => PROVISION_KIND_COUNT as nat,
        }
    } else {
        spec_hits_for(ws, devices, backups, q_raw).len()
    }
}

/// `new` is `old` with the filter rebuilt for raw query `q_raw` and the selection reset.
pub open spec fn spec_refiltered(old: AppState, new: AppState, q_raw: Seq<char>) -> bool {
    &&& new.search_matches@ == spec_hits_for(old.workspace, old.devices@, old.backups@, q_raw)
    &&& new.item_count == spec_count_for(old.workspace, old.devices@, old.backups@, q_raw)
    &&& new.selected == 0
    &&& new.search_cursor == 0
}

/// `new` is `old` after leaving the input line; a cancelled search also drops its live
/// filter.
pub open spec fn spec_input_cancelled(old: AppState, new: AppState) -> bool {
    &&& new.input_buffer@.len() == 0
    &&& new.input_mode == InputMode::Normal
    &&& old.input_mode != InputMode::Search ==> new == (AppState {
        input_buffer: new.input_buffer,
        input_mode: InputMode::Normal,
        ..old
    })
    &&& old.input_mode == InputMode::Search ==> spec_refiltered(old, new, old.search_query@)
        && new == (AppState {
        selected: new.selected,
        item_count: new.item_count,
        search_matches: new.search_matches,
        search_cursor: new.search_cursor,
        input_buffer: new.input_buffer,
        input_mode: InputMode::Normal,
        ..old
    })
}

/// `new` is `old` after stepping to the next (or, with `reverse`, the previous) row of
/// the active filter, wrapping around; nothing happens without a filter or matches.
pub open spec fn spec_search_cycled(old: AppState, new: AppState, reverse: bool) -> bool {
    &&& (old.search_matches@.len() == 0 || !old.spec_filter_active()) ==> new == old
    &&& (old.search_matches@.len() > 0 && old.spec_filter_active()) ==> {
        let next = if reverse {
            if old.selected == 0 {
                if old.item_count >= 1 {
                    old.item_count - 1
                } else {
                    0
                }
            } else {
                old.selected - 1
            }
        } else {
            (old.selected + 1) % (if old.item_count >= 1 {
                old.item_count as int
            } else {
                1
            })
        };
        &&& new.search_cursor == next
        &&& new.selected == if next < old.search_matches@.len() {
            spec_clamp_selection(next as usize, old.item_count) as int
        } else {
            next
        }
        &&& new == (AppState { selected: new.selected, search_cursor: new.search_cursor, ..old })
    }
}

/// Selection after the list length became `count`: kept, but never past the last item.
pub open spec fn spec_clamp_selection(selected: usize, count: usize) -> usize {
    if count == 0 {
        0
    } else if selected <= count - 1 {
        selected
    } else {
        (count - 1) as usize
    }
}

/// No two entries name the same path.
pub open spec fn spec_distinct_paths(v: Seq<String>) -> bool {
    forall|i: int, j: int| 0 <= i < j < v.len() ==> (#[trigger] v[i])@ != (#[trigger] v[j])@
}

pub open spec fn spec_frame_wf(f: NavigationFrame) -> bool {
    match f.pane_focus {
        Some(p) => p.wf(),
        None => true,
    }
}

pub struct AppState {
    pub workspace: Workspace,
    pub devices: Vec<DeviceRow>,
    pub backups: Vec<BackupItem>,
    pub device_scan_pending: bool,
    pub backup_scan_pending: bool,
    /// A basic inspection of the selected disk or backup was requested and has not
    /// answered yet.
    pub inspect_pending: bool,
    pub selected: usize,
    pub item_count: usize,
    pub input_mode: InputMode,
    pub critical_operation: bool,
    pub exit_pending: bool,
    pub wizard: Option<WizardState>,
    pub backup_delete: Option<BackupDeleteState>,
    pub backup_batch_delete: Option<BackupBatchDeleteState>,
    pub backup_selection: Vec<String>,
    pub backup_create_choice: Option<BackupCreateChoiceState>,
    pub backup_prune: Option<BackupPruneState>,
    pub provision: ProvisionState,
    pub pinned_disk: Option<u32>,
    pub advanced_inspect: Option<AdvancedInspectState>,
    pub navigation: NavigationStack,
    pub horizontal_scroll: Vec<HorizontalScrollState>,
    pub notice: Option<String>,
    pub notice_at: Option<std::time::Instant>,
    pub input_buffer: String,
    pub search_query: String,
    pub search_matches: Vec<usize>,
    pub search_cursor: usize,
    pub animation_frame: u64,
}

impl AppState {
    /// The state's standing invariant: the selection is inside the list and every
    /// pane focus is well formed.
    pub open spec fn wf(&self) -> bool {
        &&& self.selected == 0 || self.selected < self.item_count
        &&& self.provision.wf()
        &&& (self.advanced_inspect matches Some(a) ==> a.wf())
        &&& self.horizontal_scroll@.len() == 5
        &&& spec_distinct_paths(self.backup_selection@)
        &&& forall|i: int|
            0 <= i < self.navigation.spec_frames().len() ==> spec_frame_wf(
                #[trigger] self.navigation.spec_frames()[i],
            )
    }

    /// The query in effect: the text being typed while searching, else the submitted query.
    pub open spec fn spec_active_query(&self) -> Seq<char> {
        if self.input_mode == InputMode::Search {
            spec_trim(self.input_buffer@)
        } else {
            self.search_query@
        }
    }

    pub open spec fn spec_filter_active(&self) -> bool {
        self.spec_active_query().len() > 0
    }





    pub fn new() -> (r: Self)
        ensures
            r.wf(),
            r.workspace == Workspace::Devices,
            r.devices@.len() == 0,
            r.backups@.len() == 0,
            r.selected == 0,
            r.item_count == 0,
            r.input_mode == InputMode::Normal,
            !r.critical_operation,
            !r.exit_pending,
            r.wizard is None,
            r.backup_delete is None,
            r.backup_batch_delete is None,
            r.backup_selection@.len() == 0,
            r.backup_create_choice is None,
            r.backup_prune is None,
            r.provision.stage == ProvisionStage::Menu,
            r.provision.target_disk is None,
            r.pinned_disk is None,
            r.advanced_inspect is None,
            r.navigation.spec_frames().len() == 0,
            forall|i: int| 0 <= i < 5 ==> (#[trigger] r.horizontal_scroll@[i]).spec_offset() == 0,
            r.notice is None,
            r.notice_at is None,
            !r.device_scan_pending,
            !r.backup_scan_pending,
            !r.inspect_pending,
            r.search_cursor == 0,
            r.input_buffer@.len() == 0,
            r.search_query@.len() == 0,
            r.search_matches@.len() == 0,
            r.animation_frame == 0,
    {
        let mut horizontal_scroll: Vec<HorizontalScrollState> = Vec::new();
        let mut i: usize = 0;
        while i < 5
            invariant
                i <= 5,
                horizontal_scroll@.len() == i,
                forall|j: int| 0 <= j < i ==> (#[trigger] horizontal_scroll@[j]).spec_offset() == 0,
            decreases 5 - i,
        {
            horizontal_scroll.push(HorizontalScrollState::new());
            i = i + 1;
        }
        AppState {
            workspace: Workspace::Devices,
            devices: Vec::new(),
            backups: Vec::new(),
            device_scan_pending: false,
            backup_scan_pending: false,
            inspect_pending: false,
            selected: 0,
            item_count: 0,
            input_mode: InputMode::Normal,
            critical_operation: false,
            exit_pending: false,
            wizard: None,
            backup_delete: None,
            backup_batch_delete: None,
            backup_selection: Vec::new(),
            backup_create_choice: None,
            backup_prune: None,
            provision: ProvisionState::default(),
            pinned_disk: None,
            advanced_inspect: None,
            navigation: NavigationStack::new(),
            horizontal_scroll,
            notice: None,
            notice_at: None,
            input_buffer: String::new(),
            search_query: String::new(),
            search_matches: Vec::new(),
            search_cursor: 0,
            animation_frame: 0,
        }
    }

    pub fn animation_frame(&self) -> (r: u64)
        ensures
            r == self.animation_frame,
    {
        self.animation_frame
    }

    pub fn advance_animation(&mut self)
        ensures
            *final(self) == (AppState {
                animation_frame: if old(self).animation_frame == u64::MAX {
                    0
                } else {
                    (old(self).animation_frame + 1) as u64
                },
                ..*old(self)
            }),
    {
        self.animation_frame = self.animation_frame.wrapping_add(1);
    }

    pub fn input_buffer(&self) -> (r: &str)
        ensures
            r@ == self.input_buffer@,
    {
        self.input_buffer.as_str()
    }

    pub fn selected(&self) -> (r: usize)
        ensures
            r == self.selected,
    {
        self.selected
    }

    pub fn item_count(&self) -> (r: usize)
        ensures
            r == self.item_count,
    {
        self.item_count
    }

    pub fn input_mode(&self) -> (r: InputMode)
        ensures
            r == self.input_mode,
    {
        self.input_mode
    }

    pub fn is_critical_operation(&self) -> (r: bool)
        ensures
            r == self.critical_operation,
    {
        self.critical_operation
    }

    pub fn exit_pending(&self) -> (r: bool)
        ensures
            r == self.exit_pending,
    {
        self.exit_pending
    }

    pub fn workspace(&self) -> (r: Workspace)
        ensures
            r == self.workspace,
    {
        self.workspace
    }

    pub fn provision(&self) -> (r: &ProvisionState)
        ensures
            *r == self.provision,
    {
        &self.provision
    }

    pub fn navigation(&self) -> (r: &NavigationStack)
        ensures
            *r == self.navigation,
    {
        &self.navigation
    }

    pub fn devices(&self) -> (r: &[DeviceRow])
        ensures
            r@ == self.devices@,
    {
        self.devices.as_slice()
    }

    pub fn backups(&self) -> (r: &[BackupItem])
        ensures
            r@ == self.backups@,
    {
        self.backups.as_slice()
    }

    pub fn device_scan_pending(&self) -> (r: bool)
        ensures
            r == self.device_scan_pending,
    {
        self.device_scan_pending
    }

    pub fn backup_scan_pending(&self) -> (r: bool)
        ensures
            r == self.backup_scan_pending,
    {
        self.backup_scan_pending
    }

    pub fn inspect_pending(&self) -> (r: bool)
        ensures
            r == self.inspect_pending,
    {
        self.inspect_pending
    }

    /// Whether the scan feeding the current workspace is still running.
    pub fn active_scan_pending(&self) -> (r: bool)
        ensures
            r == match self.workspace {
                Workspace::Devices => self.device_scan_pending,
                Workspace::Backups => self.backup_scan_pending,
                Workspace::Provision => false,
            },
    {
        match self.workspace {
            Workspace::Devices => self.device_scan_pending,
            Workspace::Backups => self.backup_scan_pending,
            Workspace::Provision => false,
        }
    }

    pub fn set_device_scan_pending(&mut self, pending: bool)
        ensures
            *final(self) == (AppState { device_scan_pending: pending, ..*old(self) }),
    {
        self.device_scan_pending = pending;
    }

    pub fn set_backup_scan_pending(&mut self, pending: bool)
        ensures
            *final(self) == (AppState { backup_scan_pending: pending, ..*old(self) }),
    {
        self.backup_scan_pending = pending;
    }

    pub fn set_critical_operation(&mut self, critical: bool)
        ensures
            *final(self) == (AppState { critical_operation: critical, ..*old(self) }),
    {
        self.critical_operation = critical;
    }

    /// Set the list length, pulling the selection back inside it.
    pub fn set_item_count(&mut self, item_count: usize)
        ensures
            *final(self) == (AppState {
                item_count,
                selected: spec_clamp_selection(old(self).selected, item_count),
                ..*old(self)
            }),
            final(self).selected == 0 || final(self).selected < item_count,
    {
        self.item_count = item_count;
        if item_count == 0 {
            self.selected = 0;
        } else if self.selected > item_count - 1 {
            self.selected = item_count - 1;
        }
    }

    /// The notice as it stands `elapsed_ms` milliseconds after it was set: shown while
    /// fewer than four seconds have passed.
    pub open spec fn spec_notice_after(&self, elapsed_ms: u128) -> Option<Seq<char>> {
        match (self.notice_at, self.notice) {
            (Some(_), Some(n)) => if elapsed_ms < 4000 {
                Some(n@)
            } else {
                None
            },
            _ => None,
        }
    }

    /// The notice, given the milliseconds since it was set.
    pub fn notice_after_millis(&self, elapsed_ms: u128) -> (r: Option<&str>)
        ensures
            match self.spec_notice_after(elapsed_ms) {
                Some(t) => r matches Some(m) && m@ == t,
                None => r is None,
            },
    {
        match (&self.notice_at, &self.notice) {
            (Some(_), Some(message)) => {
                if elapsed_ms < 4000 {
                    Some(message.as_str())
                } else {
                    None
                }
            },
            _ => None,
        }
    }

    /// The notice, while it is fresh (shown for four seconds after it was set); how
    /// much time has passed is read from the clock.
    pub fn notice(&self) -> (r: Option<&str>)
        ensures
            exists|ms: u128|
                match #[trigger] self.spec_notice_after(ms) {
                    Some(t) => r matches Some(m) && m@ == t,
                    None => r is None,
                },
            r matches Some(m) ==> self.notice matches Some(n) && m@ == n@,
            (self.notice is None || self.notice_at is None) ==> r is None,
    {
        match &self.notice_at {
            Some(at) => {
                let ms = duration_millis(instant_elapsed(at));
                let r = self.notice_after_millis(ms);
                assert(match self.spec_notice_after(ms) {
                    Some(t) => r matches Some(m) && m@ == t,
                    None => r is None,
                });
                r
            },
            None => {
                let r = self.notice_after_millis(0);
                assert(match self.spec_notice_after(0) {
                    Some(t) => r matches Some(m) && m@ == t,
                    None => r is None,
                });
                r
            },
        }
    }

    pub fn set_notice(&mut self, message: String)
        ensures
            *final(self) == (AppState {
                notice: Some(message),
                notice_at: final(self).notice_at,
                ..*old(self)
            }),
            final(self).notice_at is Some,
    {
        self.notice = Some(message);
        self.notice_at = Some(instant_now());
    }

    pub fn clear_notice(&mut self)
        ensures
            *final(self) == (AppState { notice: None, notice_at: None, ..*old(self) }),
    {
        self.notice = None;
        self.notice_at = None;
    }

    pub fn take_deferred_exit(&mut self) -> (r: StateEffect)
        ensures
            (!old(self).critical_operation && old(self).exit_pending) ==> r
                == StateEffect::ExitRequested && *final(self) == (AppState {
                exit_pending: false,
                ..*old(self)
            }),
            !(!old(self).critical_operation && old(self).exit_pending) ==> r == StateEffect::NoEffect
                && *final(self) == *old(self),
    {
        if !self.critical_operation && self.exit_pending {
            self.exit_pending = false;
            StateEffect::ExitRequested
        } else {
            StateEffect::NoEffect
        }
    }

    /// The one command policy while a critical operation owns the slot: quitting is
    /// deferred, everything else is refused with a notice.
    pub fn guard_critical_command(&mut self, command: NavCommand) -> (r: Option<StateEffect>)
        ensures
            !old(self).critical_operation ==> r is None && *final(self) == *old(self),
            old(self).critical_operation && command == NavCommand::Quit ==> r == Some(
                StateEffect::ExitDeferred,
            ) && *final(self) == (AppState { exit_pending: true, ..*old(self) }),
            old(self).critical_operation && command == NavCommand::Escape ==> r == Some(
                StateEffect::NoEffect,
            ) && spec_msg(
                final(self).notice,
                "关键操作仍在执行，当前不能返回；操作完成后再按 Esc 返回。"@,
            ),
            old(self).critical_operation && command != NavCommand::Quit && command
                != NavCommand::Escape ==> r == Some(StateEffect::NoEffect) && spec_msg(
                final(self).notice,
                "关键操作仍在执行，完成前不能切换页面或启动其他任务。"@,
            ),
            old(self).critical_operation && command != NavCommand::Quit ==> *final(self) == (
            AppState { notice: final(self).notice, notice_at: final(self).notice_at, ..*old(self) }),
    {
        if !self.critical_operation {
            return None;
        }
        if command == NavCommand::Quit {
            self.exit_pending = true;
            Some(StateEffect::ExitDeferred)
        } else if command == NavCommand::Escape {
            self.set_notice(
                String::from_str("关键操作仍在执行，当前不能返回；操作完成后再按 Esc 返回。"),
            );
            Some(StateEffect::NoEffect)
        } else {
            self.set_notice(String::from_str("关键操作仍在执行，完成前不能切换页面或启动其他任务。"));
            Some(StateEffect::NoEffect)
        }
    }
}

fn device_search_text(row: &DeviceRow) -> (r: Vec<char>)
    ensures
        r@ == spec_ascii_lower(spec_device_text(*row)),
{
    let mut t = String::from_str("disk");
    let d = u64_decimal(row.disk as u64);
    t.append(d.as_str());
    t.append(" ");
    t.append(row.identity_text.as_str());
    t.append(" ");
    t.append(row.proto.as_str());
    t.append(" ");
    t.append(row.kind_name.as_str());
    let v = chars_of(t.as_str());
    ascii_lower_chars(&v)
}

fn backup_search_text(row: &BackupItem) -> (r: Vec<char>)
    ensures
        r@ == spec_ascii_lower(spec_backup_text(*row)),
{
    let mut t = row.file_name.clone();
    t.append(" ");
    t.append(row.display_time.as_str());
    t.append(" ");
    t.append(row.identity_text.as_str());
    t.append(" ");
    t.append(row.kind_name.as_str());
    let v = chars_of(t.as_str());
    ascii_lower_chars(&v)
}

/// Matches of the lowered query `q` among `rows`, by position.
fn device_hits(rows: &Vec<DeviceRow>, q: &Vec<char>) -> (r: Vec<usize>)
    ensures
        r@ == spec_device_hits(rows@, q@),
{
    let mut r: Vec<usize> = Vec::new();
    let mut i: usize = 0;
    while i < rows.len()
        invariant
            i <= rows.len(),
            r@ == spec_device_hits(rows@.take(i as int), q@),
        decreases rows.len() - i,
    {
        let text = device_search_text(&rows[i]);
        proof {
            assert(rows@.take(i + 1).drop_last() =~= rows@.take(i as int));
            assert(rows@.take(i + 1).last() == rows@[i as int]);
        }
        if contains_run(&text, q) {
            r.push(i);
        }
        i = i + 1;
    }
    assert(rows@.take(rows.len() as int) =~= rows@);
    r
}

fn backup_hits(rows: &Vec<BackupItem>, q: &Vec<char>) -> (r: Vec<usize>)
    ensures
        r@ == spec_backup_hits(rows@, q@),
{
    let mut r: Vec<usize> = Vec::new();
    let mut i: usize = 0;
    while i < rows.len()
        invariant
            i <= rows.len(),
            r@ == spec_backup_hits(rows@.take(i as int), q@),
        decreases rows.len() - i,
    {
        let text = backup_search_text(&rows[i]);
        proof {
            assert(rows@.take(i + 1).drop_last() =~= rows@.take(i as int));
            assert(rows@.take(i + 1).last() == rows@[i as int]);
        }
        if contains_run(&text, q) {
            r.push(i);
        }
        i = i + 1;
    }
    assert(rows@.take(rows.len() as int) =~= rows@);
    r
}

impl AppState {
    fn active_search_query(&self) -> (r: Vec<char>)
        ensures
            r@ == self.spec_active_query(),
    {
        if self.input_mode == InputMode::Search {
            let v = chars_of(self.input_buffer.as_str());
            trim_chars(&v)
        } else {
            chars_of(self.search_query.as_str())
        }
    }

    fn clear_search_matches(&mut self)
        ensures
            *final(self) == (AppState {
                search_matches: final(self).search_matches,
                search_cursor: 0,
                ..*old(self)
            }),
            final(self).search_matches@.len() == 0,
    {
        self.search_matches = Vec::new();
        self.search_cursor = 0;
    }

    /// Recompute the filter for the active query; the selection returns to the top.
    pub(crate) fn rebuild_workspace_filter(&mut self)
        ensures
            spec_refiltered(*old(self), *final(self), old(self).spec_active_query()),
            *final(self) == (AppState {
                selected: final(self).selected,
                item_count: final(self).item_count,
                search_matches: final(self).search_matches,
                search_cursor: final(self).search_cursor,
                ..*old(self)
            }),
    {
        let raw = self.active_search_query();
        let query = ascii_lower_chars(&raw);
        self.clear_search_matches();
        if query.len() == 0 {
            let count = match self.workspace {
                Workspace::Devices => self.devices.len(),
                Workspace::Backups => self.backups.len(),
                Workspace::Provision => PROVISION_KIND_COUNT,
            };
            self.selected = 0;
            self.set_item_count(count);
            assert(raw@.len() == 0);
            assert(self.search_matches@ =~= spec_hits_for(
                old(self).workspace,
                old(self).devices@,
                old(self).backups@,
                raw@,
            ));
            return;
        }
        let hits = match self.workspace {
            Workspace::Devices => device_hits(&self.devices, &query),
            Workspace::Backups => backup_hits(&self.backups, &query),
            Workspace::Provision => Vec::new(),
        };
        let n = hits.len();
        self.search_matches = hits;
        self.selected = 0;
        self.set_item_count(n);
    }

    /// Type a character into the search or command line (at most 256 characters,
    /// no control characters); typing a search re-filters the list.
    pub fn push_input_char(&mut self, ch: char)
        ensures
            spec_input_char_pushed(*old(self), *final(self), ch),
    {
        if (self.input_mode == InputMode::Search || self.input_mode == InputMode::Command)
            && self.input_buffer.as_str().unicode_len() < 256 && !is_control(ch) {
            string_push(&mut self.input_buffer, ch);
            if self.input_mode == InputMode::Search {
                self.rebuild_workspace_filter();
            }
        }
    }

    /// Delete the last character of the search or command line.
    pub fn backspace_input(&mut self)
        ensures
            spec_input_backspaced(*old(self), *final(self)),
    {
        if self.input_mode == InputMode::Search || self.input_mode == InputMode::Command {
            let _ = string_pop(&mut self.input_buffer);
            if self.input_mode == InputMode::Search {
                self.rebuild_workspace_filter();
            }
        }
    }

    /// Hand out the input line, leaving it empty.
    pub fn take_input(&mut self) -> (r: String)
        ensures
            spec_input_taken(*old(self), *final(self), r),
    {
        let mut taken = String::new();
        std::mem::swap(&mut taken, &mut self.input_buffer);
        taken
    }

    /// Leave the input line; a cancelled search also drops its live filter.
    pub fn cancel_input(&mut self)
        ensures
            spec_input_cancelled(*old(self), *final(self)),
    {
        let was_search = self.input_mode == InputMode::Search;
        self.input_buffer = String::new();
        self.input_mode = InputMode::Normal;
        if was_search {
            self.rebuild_workspace_filter();
        }
    }

    /// Commit the typed search as the workspace filter; returns the number of matches.
    pub fn submit_search(&mut self) -> (r: usize)
        ensures
            spec_search_submitted(*old(self), *final(self), r),
    {
        let raw = chars_of(self.input_buffer.as_str());
        let trimmed = trim_chars(&raw);
        let lowered = ascii_lower_chars(&trimmed);
        self.search_query = string_from_chars(lowered.as_slice());
        self.input_buffer = String::new();
        self.input_mode = InputMode::Normal;
        self.rebuild_workspace_filter();
        self.search_matches.len()
    }

    fn activate_search_match(&mut self, match_index: usize)
        ensures
            match_index >= old(self).search_matches@.len() ==> *final(self) == *old(self),
            match_index < old(self).search_matches@.len() ==> *final(self) == (AppState {
                selected: spec_clamp_selection(match_index, old(self).item_count),
                ..*old(self)
            }),
    {
        if match_index >= self.search_matches.len() {
            return;
        }
        let last = self.item_count.saturating_sub(1);
        self.selected = if match_index <= last {
            match_index
        } else {
            last
        };
    }

    /// Step to the next (or previous) match of the active filter, wrapping around.
    pub(crate) fn cycle_search(&mut self, reverse: bool)
        requires
            old(self).wf(),
        ensures
            final(self).wf(),
            spec_search_cycled(*old(self), *final(self), reverse),
    {
        if self.search_matches.len() == 0 || self.active_search_query().len() == 0 {
            return;
        }
        self.selected = if reverse {
            if self.selected == 0 {
                self.item_count.saturating_sub(1)
            } else {
                self.selected - 1
            }
        } else {
            let m = if self.item_count >= 1 {
                self.item_count
            } else {
                1
            };
            (self.selected + 1) % m
        };
        self.search_cursor = self.selected;
        self.activate_search_match(self.search_cursor);
    }

    /// `"/query  N 条结果"` while a search is committed.
    pub fn search_status(&self) -> (r: Option<String>)
        ensures
            self.search_query@.len() == 0 ==> r is None,
            self.search_query@.len() > 0 ==> spec_msg(
                r,
                "/"@ + self.search_query@ + "  "@ + spec_decimal(self.search_matches@.len())
                    + " 条结果"@,
            ),
    {
        if self.search_query.as_str().unicode_len() == 0 {
            return None;
        }
        let mut s = String::from_str("/");
        s.append(self.search_query.as_str());
        s.append("  ");
        let n = u64_decimal(self.search_matches.len() as u64);
        s.append(n.as_str());
        s.append(" 条结果");
        Some(s)
    }

    pub fn workspace_filter_active(&self) -> (r: bool)
        ensures
            r == self.spec_filter_active(),
    {
        self.active_search_query().len() > 0
    }
}

/// `r` refers to the value `s` holds, or both are empty.
pub open spec fn spec_opt_ref<T>(r: Option<&T>, s: Option<T>) -> bool {
    match r {
        Some(x) => s == Some(*x),
        None => s is None,
    }
}

/// Number of rows of the Provision workspace in stage `stage`.
pub open spec fn spec_provision_count(stage: ProvisionStage, devices: Seq<DeviceRow>) -> nat {
    match stage {
        ProvisionStage::SelectDisk => spec_usable_positions(devices).len(),
        ProvisionStage::BackupPrompt | ProvisionStage::BackupSaving => 2,
        ProvisionStage::Menu => PROVISION_KIND_COUNT as nat,
        _ => 0,
    }
}

pub(crate) fn disk_position(rows: &Vec<DeviceRow>, disk: u32) -> (r: Option<usize>)
    ensures
        r == spec_disk_position(rows@, disk),
        r matches Some(p) ==> p < rows@.len() && rows@[p as int].disk == disk,
{
    let mut i: usize = 0;
    let mut found: Option<usize> = None;
    while i < rows.len()
        invariant
            i <= rows.len(),
            found == spec_disk_position(rows@.take(i as int), disk),
            found matches Some(p) ==> p < i && rows@[p as int].disk == disk,
        decreases rows.len() - i,
    {
        proof {
            assert(rows@.take(i + 1).drop_last() =~= rows@.take(i as int));
        }
        if found.is_none() && rows[i].disk == disk {
            found = Some(i);
        }
        i = i + 1;
    }
    assert(rows@.take(rows.len() as int) =~= rows@);
    found
}

pub(crate) fn path_position(rows: &Vec<BackupItem>, path: &str) -> (r: Option<usize>)
    ensures
        r == spec_path_position(rows@, path@),
        r matches Some(p) ==> p < rows@.len() && rows@[p as int].path@ == path@,
{
    let mut i: usize = 0;
    let mut found: Option<usize> = None;
    while i < rows.len()
        invariant
            i <= rows.len(),
            found == spec_path_position(rows@.take(i as int), path@),
            found matches Some(p) ==> p < i && rows@[p as int].path@ == path@,
        decreases rows.len() - i,
    {
        proof {
            assert(rows@.take(i + 1).drop_last() =~= rows@.take(i as int));
        }
        if found.is_none() && crate::text::str_eq(rows[i].path.as_str(), path) {
            found = Some(i);
        }
        i = i + 1;
    }
    assert(rows@.take(rows.len() as int) =~= rows@);
    found
}

pub(crate) fn value_position(s: &Vec<usize>, v: usize) -> (r: Option<usize>)
    ensures
        r == spec_value_position(s@, v),
        r matches Some(p) ==> p < s@.len(),
{
    let mut i: usize = 0;
    let mut found: Option<usize> = None;
    while i < s.len()
        invariant
            i <= s.len(),
            found == spec_value_position(s@.take(i as int), v),
            found matches Some(p) ==> p < i,
        decreases s.len() - i,
    {
        proof {
            assert(s@.take(i + 1).drop_last() =~= s@.take(i as int));
        }
        if found.is_none() && s[i] == v {
            found = Some(i);
        }
        i = i + 1;
    }
    assert(s@.take(s.len() as int) =~= s@);
    found
}

fn usable(row: &DeviceRow) -> (r: bool)
    ensures
        r == spec_usable(*row),
{
    crate::text::str_eq(row.proto.as_str(), "USB") && !row.denied && row.probe_error.is_none()
}

/// Number of provisionable devices among `rows`.
pub fn usable_count(rows: &Vec<DeviceRow>) -> (r: usize)
    ensures
        r == spec_usable_positions(rows@).len(),
{
    usable_positions(rows).len()
}

fn usable_positions(rows: &Vec<DeviceRow>) -> (r: Vec<usize>)
    ensures
        r@ == spec_usable_positions(rows@),
        forall|k: int| 0 <= k < r@.len() ==> (#[trigger] r@[k]) < rows@.len(),
{
    let mut r: Vec<usize> = Vec::new();
    let mut i: usize = 0;
    while i < rows.len()
        invariant
            i <= rows.len(),
            r@ == spec_usable_positions(rows@.take(i as int)),
            forall|k: int| 0 <= k < r@.len() ==> (#[trigger] r@[k]) < i,
        decreases rows.len() - i,
    {
        proof {
            assert(rows@.take(i + 1).drop_last() =~= rows@.take(i as int));
        }
        if usable(&rows[i]) {
            r.push(i);
        }
        i = i + 1;
    }
    assert(rows@.take(rows.len() as int) =~= rows@);
    r
}

impl AppState {
    /// Source position of the device shown at visible `position`.
    pub open spec fn spec_device_source(&self, position: usize) -> Option<usize> {
        let index = if self.workspace == Workspace::Devices && self.spec_filter_active() {
            if position < self.search_matches@.len() {
                Some(self.search_matches@[position as int])
            } else {
                None
            }
        } else {
            Some(position)
        };
        match index {
            Some(i) => if i < self.devices@.len() {
                Some(i)
            } else {
                None
            },
            None => None,
        }
    }

    /// Source position of the backup shown at visible `position`.
    pub open spec fn spec_backup_source(&self, position: usize) -> Option<usize> {
        let index = if self.workspace == Workspace::Backups && self.spec_filter_active() {
            if position < self.search_matches@.len() {
                Some(self.search_matches@[position as int])
            } else {
                None
            }
        } else {
            Some(position)
        };
        match index {
            Some(i) => if i < self.backups@.len() {
                Some(i)
            } else {
                None
            },
            None => None,
        }
    }

    /// The device the current view points at.
    pub open spec fn spec_selected_device(&self) -> Option<DeviceRow> {
        match self.workspace {
            Workspace::Devices => match self.spec_device_source(self.selected) {
                Some(i) => Some(self.devices@[i as int]),
                None => None,
            },
            _ => match self.pinned_disk {
                Some(d) => match spec_disk_position(self.devices@, d) {
                    Some(i) => Some(self.devices@[i as int]),
                    None => None,
                },
                None => None,
            },
        }
    }

    /// The backup selected in the Backups workspace.
    pub open spec fn spec_selected_backup(&self) -> Option<BackupItem> {
        if self.workspace != Workspace::Backups {
            None
        } else {
            match self.spec_backup_source(self.selected) {
                Some(i) => Some(self.backups@[i as int]),
                None => None,
            }
        }
    }

    fn visible_index(&self, position: usize, ws: Workspace) -> (r: Option<usize>)
        ensures
            r == (if self.workspace == ws && self.spec_filter_active() {
                if position < self.search_matches@.len() {
                    Some(self.search_matches@[position as int])
                } else {
                    None
                }
            } else {
                Some(position)
            }),
    {
        if self.workspace == ws && self.workspace_filter_active() {
            if position < self.search_matches.len() {
                Some(self.search_matches[position])
            } else {
                None
            }
        } else {
            Some(position)
        }
    }

    pub fn device_source_index_at_visible(&self, position: usize) -> (r: Option<usize>)
        ensures
            r == self.spec_device_source(position),
    {
        match self.visible_index(position, Workspace::Devices) {
            Some(i) => if i < self.devices.len() {
                Some(i)
            } else {
                None
            },
            None => None,
        }
    }

    pub fn backup_source_index_at_visible(&self, position: usize) -> (r: Option<usize>)
        ensures
            r == self.spec_backup_source(position),
    {
        match self.visible_index(position, Workspace::Backups) {
            Some(i) => if i < self.backups.len() {
                Some(i)
            } else {
                None
            },
            None => None,
        }
    }

    pub fn device_at_visible(&self, position: usize) -> (r: Option<&DeviceRow>)
        ensures
            spec_opt_ref(
                r,
                match self.spec_device_source(position) {
                    Some(i) => Some(self.devices@[i as int]),
                    None => None,
                },
            ),
    {
        match self.device_source_index_at_visible(position) {
            Some(i) => Some(&self.devices[i]),
            None => None,
        }
    }

    pub fn backup_at_visible(&self, position: usize) -> (r: Option<&BackupItem>)
        ensures
            spec_opt_ref(
                r,
                match self.spec_backup_source(position) {
                    Some(i) => Some(self.backups@[i as int]),
                    None => None,
                },
            ),
    {
        match self.backup_source_index_at_visible(position) {
            Some(i) => Some(&self.backups[i]),
            None => None,
        }
    }

    /// Source positions of the devices in display order.
    pub fn visible_device_indices(&self) -> (r: Vec<usize>)
        ensures
            (self.workspace == Workspace::Devices && self.spec_filter_active()) ==> r@
                == self.search_matches@,
            !(self.workspace == Workspace::Devices && self.spec_filter_active()) ==> r@
                == Seq::new(self.devices@.len(), |i: int| i as usize),
    {
        if self.workspace == Workspace::Devices && self.workspace_filter_active() {
            self.search_matches.clone()
        } else {
            range_vec(self.devices.len())
        }
    }

    pub fn visible_device_count(&self) -> (r: usize)
        ensures
            (self.workspace == Workspace::Devices && self.spec_filter_active()) ==> r
                == self.search_matches@.len(),
            !(self.workspace == Workspace::Devices && self.spec_filter_active()) ==> r
                == self.devices@.len(),
    {
        if self.workspace == Workspace::Devices && self.workspace_filter_active() {
            self.search_matches.len()
        } else {
            self.devices.len()
        }
    }

    /// Source positions of the backups in display order.
    pub fn visible_backup_indices(&self) -> (r: Vec<usize>)
        ensures
            (self.workspace == Workspace::Backups && self.spec_filter_active()) ==> r@
                == self.search_matches@,
            !(self.workspace == Workspace::Backups && self.spec_filter_active()) ==> r@
                == Seq::new(self.backups@.len(), |i: int| i as usize),
    {
        if self.workspace == Workspace::Backups && self.workspace_filter_active() {
            self.search_matches.clone()
        } else {
            range_vec(self.backups.len())
        }
    }

    pub fn visible_backup_count(&self) -> (r: usize)
        ensures
            (self.workspace == Workspace::Backups && self.spec_filter_active()) ==> r
                == self.search_matches@.len(),
            !(self.workspace == Workspace::Backups && self.spec_filter_active()) ==> r
                == self.backups@.len(),
    {
        if self.workspace == Workspace::Backups && self.workspace_filter_active() {
            self.search_matches.len()
        } else {
            self.backups.len()
        }
    }

    pub fn selected_device(&self) -> (r: Option<&DeviceRow>)
        ensures
            spec_opt_ref(r, self.spec_selected_device()),
    {
        match self.workspace {
            Workspace::Devices => self.device_at_visible(self.selected),
            _ => match self.pinned_disk {
                Some(d) => match disk_position(&self.devices, d) {
                    Some(i) => Some(&self.devices[i]),
                    None => None,
                },
                None => None,
            },
        }
    }

    pub fn selected_device_disk(&self) -> (r: Option<u32>)
        ensures
            r == match self.spec_selected_device() {
                Some(row) => Some(row.disk),
                None => None,
            },
    {
        match self.selected_device() {
            Some(row) => Some(row.disk),
            None => None,
        }
    }

    pub fn selected_backup(&self) -> (r: Option<&BackupItem>)
        ensures
            spec_opt_ref(r, self.spec_selected_backup()),
    {
        if self.workspace != Workspace::Backups {
            return None;
        }
        self.backup_at_visible(self.selected)
    }

    pub fn selected_backup_path(&self) -> (r: Option<String>)
        ensures
            match self.spec_selected_backup() {
                Some(row) => r == Some(row.path),
                None => r is None,
            },
    {
        match self.selected_backup() {
            Some(row) => Some(row.path.clone()),
            None => None,
        }
    }

    /// The selected backup's path and its fixed content digest; backups without a
    /// digest cannot be deleted.
    pub fn selected_backup_delete_target(&self) -> (r: Option<(String, String)>)
        ensures
            match self.spec_selected_backup() {
                Some(row) => match row.content_sha256 {
                    Some(h) => r == Some((row.path, h)),
                    None => r is None,
                },
                None => r is None,
            },
    {
        let row = match self.selected_backup() {
            Some(row) => row,
            None => return None,
        };
        match &row.content_sha256 {
            Some(h) => Some((row.path.clone(), h.clone())),
            None => None,
        }
    }

    /// The `index`-th provisionable device (readable USB disks only).
    pub fn provision_device_at(&self, index: usize) -> (r: Option<&DeviceRow>)
        ensures
            spec_opt_ref(
                r,
                if index < spec_usable_positions(self.devices@).len() {
                    Some(self.devices@[spec_usable_positions(self.devices@)[index as int] as int])
                } else {
                    None
                },
            ),
    {
        let positions = usable_positions(&self.devices);
        if index < positions.len() {
            Some(&self.devices[positions[index]])
        } else {
            None
        }
    }

    pub(crate) fn provision_selectable_count(&self) -> (r: usize)
        ensures
            r == spec_usable_positions(self.devices@).len(),
    {
        usable_positions(&self.devices).len()
    }
}

/// `0, 1, ..., n - 1`.
fn range_vec(n: usize) -> (r: Vec<usize>)
    ensures
        r@ == Seq::new(n as nat, |i: int| i as usize),
{
    let mut r: Vec<usize> = Vec::new();
    let mut i: usize = 0;
    while i < n
        invariant
            i <= n,
            r@ == Seq::new(i as nat, |k: int| k as usize),
        decreases n - i,
    {
        r.push(i);
        i = i + 1;
        assert(r@ =~= Seq::new(i as nat, |k: int| k as usize));
    }
    r
}

/// Number of UTF-8 bytes of a text (`str::len`).
pub open spec fn spec_byte_len(s: Seq<char>) -> usize {
    vstd::utf8::encode_utf8(s).len() as usize
}

/// An equal copy of an optional string.
pub fn copy_opt_string(o: &Option<String>) -> (r: Option<String>)
    ensures
        r == *o,
{
    match o {
        Some(s) => Some(s.clone()),
        None => None,
    }
}

impl ExpectedIdentity {
    /// An equal copy of this identity.
    pub fn copy(&self) -> (r: ExpectedIdentity)
        ensures
            r == *self,
    {
        ExpectedIdentity {
            onlyid: copy_opt_string(&self.onlyid),
            device_id: copy_opt_string(&self.device_id),
        }
    }
}

fn copy_opt_identity(o: &Option<ExpectedIdentity>) -> (r: Option<ExpectedIdentity>)
    ensures
        r == *o,
{
    match o {
        Some(i) => Some(i.copy()),
        None => None,
    }
}

impl AppState {
    pub fn wizard(&self) -> (r: Option<&WizardState>)
        ensures
            spec_opt_ref(r, self.wizard),
    {
        self.wizard.as_ref()
    }

    pub fn begin_write_wizard(&mut self, kind: WriteKind, disk: u32, backup: Option<String>) -> (r:
        bool)
        ensures
            old(self).critical_operation ==> !r && *final(self) == (AppState {
                notice: final(self).notice,
                notice_at: final(self).notice_at,
                ..*old(self)
            }) && spec_msg(final(self).notice, "关键操作仍在执行，完成前不能启动其他任务。"@),
            !old(self).critical_operation ==> r && *final(self) == (AppState {
                input_mode: InputMode::Confirm,
                wizard: final(self).wizard,
                ..*old(self)
            }) && (final(self).wizard matches Some(w) && w.stage == WizardStage::Confirm && w.kind
                == kind && w.disk == disk && w.backup == backup && w.expected_identity is None
                && w.confirmation@.len() == 0 && w.message is None && w.progress is None),
    {
        self.begin_write_wizard_for_identity(kind, disk, backup, None)
    }

    /// Open the YES-confirmation wizard for a destructive write, unless a critical
    /// operation is running.
    pub fn begin_write_wizard_for_identity(
        &mut self,
        kind: WriteKind,
        disk: u32,
        backup: Option<String>,
        expected_identity: Option<ExpectedIdentity>,
    ) -> (r: bool)
        ensures
            spec_write_wizard_begun(*old(self), *final(self), kind, disk, backup, expected_identity, r),
    {
        if self.critical_operation {
            self.set_notice(String::from_str("关键操作仍在执行，完成前不能启动其他任务。"));
            return false;
        }
        self.input_mode = InputMode::Confirm;
        self.wizard = Some(
            WizardState {
                stage: WizardStage::Confirm,
                kind,
                disk,
                backup,
                expected_identity,
                confirmation: String::new(),
                message: None,
                progress: None,
            },
        );
        true
    }

    /// Type into the wizard's confirmation (while confirming, up to 16 bytes).
    pub fn push_wizard_confirmation(&mut self, ch: char)
        ensures
            spec_wizard_confirmation_pushed(*old(self), *final(self), ch),
    {
        match self.wizard.take() {
            Some(mut w) => {
                if w.stage == WizardStage::Confirm && w.confirmation.as_str().len() < 16 {
                    string_push(&mut w.confirmation, ch);
                    w.message = None;
                }
                self.wizard = Some(w);
            },
            None => {},
        }
    }

    pub fn backspace_wizard_confirmation(&mut self)
        ensures
            spec_wizard_confirmation_backspaced(*old(self), *final(self)),
    {
        match self.wizard.take() {
            Some(mut w) => {
                if w.stage == WizardStage::Confirm {
                    let _ = string_pop(&mut w.confirmation);
                    w.message = None;
                }
                self.wizard = Some(w);
            },
            None => {},
        }
    }

    pub fn clear_wizard_confirmation(&mut self)
        ensures
            match old(self).wizard {
                Some(w) => {
                    &&& *final(self) == (AppState { wizard: final(self).wizard, ..*old(self) })
                    &&& final(self).wizard matches Some(fw)
                    &&& fw.confirmation@.len() == 0
                    &&& fw == (WizardState {
                        confirmation: fw.confirmation,
                        message: None,
                        ..w
                    })
                },
                None => *final(self) == *old(self),
            },
    {
        match self.wizard.take() {
            Some(mut w) => {
                w.confirmation = String::new();
                w.message = None;
                self.wizard = Some(w);
            },
            None => {},
        }
    }

    /// Accept the wizard only on an exact `YES`: the write intent is handed out and the
    /// state enters the critical, uninterruptible phase.
    pub fn submit_wizard_confirmation(&mut self) -> (r: Option<WriteIntent>)
        ensures
            spec_wizard_submitted(*old(self), *final(self), r),
    {
        let mut w = match self.wizard.take() {
            Some(w) => w,
            None => return None,
        };
        if w.stage != WizardStage::Confirm {
            self.wizard = Some(w);
            return None;
        }
        if !crate::text::str_eq(w.confirmation.as_str(), "YES") {
            w.message = Some(String::from_str("必须精确输入 YES 才会进入写盘阶段"));
            self.wizard = Some(w);
            return None;
        }
        let intent = WriteIntent {
            kind: w.kind,
            disk: w.disk,
            backup: copy_opt_string(&w.backup),
            expected_identity: copy_opt_identity(&w.expected_identity),
        };
        w.stage = WizardStage::Running;
        w.message = Some(String::from_str("关键写盘阶段进行中，不可中断"));
        self.wizard = Some(w);
        self.input_mode = InputMode::Normal;
        self.critical_operation = true;
        Some(intent)
    }

    /// Record the latest progress event of a running write.
    pub fn set_write_progress(&mut self, event: String)
        ensures
            spec_write_progress_set(*old(self), *final(self), event),
    {
        match self.wizard.take() {
            Some(mut w) => {
                if w.stage == WizardStage::Running {
                    w.progress = Some(event);
                }
                self.wizard = Some(w);
            },
            None => {},
        }
    }

    /// Leave the critical phase and show the outcome of the write.
    pub fn finish_write(&mut self, result: Result<(), String>)
        ensures
            spec_write_finished(*old(self), *final(self), result),
    {
        self.critical_operation = false;
        match self.wizard.take() {
            Some(mut w) => {
                w.stage = WizardStage::Result;
                w.progress = None;
                w.message = Some(
                    match result {
                        Ok(()) => {
                            if w.kind == WriteKind::BackupCreate || w.kind
                                == WriteKind::BackupCreateDeep {
                                String::from_str("备份创建完成；备份列表已刷新")
                            } else {
                                String::from_str("操作完成，安全链全部通过")
                            }
                        },
                        Err(message) => message,
                    },
                );
                self.wizard = Some(w);
            },
            None => {},
        }
    }
}

/// Whether `disk` is among `rows`.
pub open spec fn spec_has_disk(rows: Seq<DeviceRow>, disk: u32) -> bool {
    spec_disk_position(rows, disk) is Some
}

/// Paths of `sel` that still name a backup with a fixed digest, in order.
pub open spec fn spec_retain_selectable(sel: Seq<String>, rows: Seq<BackupItem>) -> Seq<String>
    decreases sel.len(),
{
    if sel.len() == 0 {
        Seq::empty()
    } else {
        let prev = spec_retain_selectable(sel.drop_last(), rows);
        if spec_selectable_path(rows, sel.last()@) {
            prev.push(sel.last())
        } else {
            prev
        }
    }
}

/// Some backup at `path` carries a content digest.
pub open spec fn spec_selectable_path(rows: Seq<BackupItem>, path: Seq<char>) -> bool {
    exists|i: int| 0 <= i < rows.len() && (#[trigger] rows[i]).path@ == path && rows[i].content_sha256 is Some
}

pub(crate) fn selectable_path(rows: &Vec<BackupItem>, path: &String) -> (r: bool)
    ensures
        r == spec_selectable_path(rows@, path@),
{
    let mut i: usize = 0;
    while i < rows.len()
        invariant
            i <= rows.len(),
            forall|k: int|
                0 <= k < i ==> !((#[trigger] rows@[k]).path@ == path@ && rows@[k].content_sha256 is Some),
        decreases rows.len() - i,
    {
        if rows[i].content_sha256.is_some() && crate::text::str_eq(rows[i].path.as_str(), path.as_str()) {
            return true;
        }
        i = i + 1;
    }
    false
}

impl AppState {
    /// The disk pinned after leaving the current workspace for `ws`.
    pub open spec fn spec_switch_pinned(&self, ws: Workspace) -> Option<u32> {
        let p1 = if self.workspace == Workspace::Devices && ws == Workspace::Backups {
            match self.spec_selected_device() {
                Some(row) => Some(row.disk),
                None => None,
            }
        } else {
            self.pinned_disk
        };
        if ws == Workspace::Provision {
            self.provision.target_disk
        } else {
            p1
        }
    }

    /// Provision state after switching to `ws`.
    pub open spec fn spec_switch_provision(&self, ws: Workspace) -> ProvisionState {
        if ws == Workspace::Provision && self.provision.target_disk is None {
            ProvisionState { stage: ProvisionStage::SelectDisk, message: None, ..self.provision }
        } else {
            self.provision
        }
    }

    /// Row count of workspace `ws` right after switching to it.
    pub open spec fn spec_switch_count(&self, ws: Workspace) -> nat {
        match ws {
            Workspace::Devices => self.devices@.len(),
            Workspace::Backups => self.backups@.len(),
            Workspace::Provision => spec_provision_count(
                self.spec_switch_provision(ws).stage,
                self.devices@,
            ),
        }
    }

    /// Selection right after switching to `ws`, before it is clamped to the row count.
    pub open spec fn spec_switch_selected(&self, ws: Workspace) -> usize {
        if ws == Workspace::Devices {
            match self.provision.target_disk {
                Some(d) => match spec_disk_position(self.devices@, d) {
                    Some(p) => p,
                    None => 0,
                },
                None => 0,
            }
        } else {
            0
        }
    }

    /// `new` is `self` after switching to workspace `ws`.
    pub open spec fn spec_switched(&self, ws: Workspace, new: AppState) -> bool {
        if self.workspace == ws {
            new == *self
        } else {
            &&& new.workspace == ws
            &&& new.pinned_disk == self.spec_switch_pinned(ws)
            &&& new.provision == self.spec_switch_provision(ws)
            &&& new.search_matches@.len() == 0
            &&& new.search_cursor == 0
            &&& new.search_query@.len() == 0
            &&& new.input_buffer@.len() == 0
            &&& new.input_mode == (if self.input_mode == InputMode::Search {
                InputMode::Normal
            } else {
                self.input_mode
            })
            &&& new.item_count == self.spec_switch_count(ws)
            &&& new.selected == spec_clamp_selection(
                self.spec_switch_selected(ws),
                new.item_count,
            )
            &&& new == (AppState {
                workspace: new.workspace,
                pinned_disk: new.pinned_disk,
                provision: new.provision,
                search_matches: new.search_matches,
                search_cursor: new.search_cursor,
                search_query: new.search_query,
                input_buffer: new.input_buffer,
                input_mode: new.input_mode,
                item_count: new.item_count,
                selected: new.selected,
                ..*self
            })
        }
    }

    pub(crate) fn switch_workspace(&mut self, workspace: Workspace)
        requires
            old(self).wf(),
        ensures
            final(self).wf(),
            old(self).spec_switched(workspace, *final(self)),
    {
        if self.workspace == workspace {
            return;
        }
        if self.workspace == Workspace::Devices && workspace == Workspace::Backups {
            self.pinned_disk = self.selected_device_disk();
        }
        if workspace == Workspace::Provision {
            match self.provision.target_disk {
                Some(disk) => {
                    self.pinned_disk = Some(disk);
                },
                None => {
                    self.pinned_disk = None;
                    self.provision.stage = ProvisionStage::SelectDisk;
                    self.provision.message = None;
                },
            }
        }
        self.clear_search_matches();
        self.search_query = String::new();
        self.input_buffer = String::new();
        if self.input_mode == InputMode::Search {
            self.input_mode = InputMode::Normal;
        }
        self.workspace = workspace;
        self.selected = 0;
        if workspace == Workspace::Devices {
            if let Some(disk) = self.provision.target_disk {
                self.selected = match disk_position(&self.devices, disk) {
                    Some(p) => p,
                    None => 0,
                };
            }
        }
        let count = match workspace {
            Workspace::Devices => self.devices.len(),
            Workspace::Backups => self.backups.len(),
            Workspace::Provision => match self.provision.stage {
                ProvisionStage::SelectDisk => self.provision_selectable_count(),
                ProvisionStage::BackupPrompt | ProvisionStage::BackupSaving => 2,
                ProvisionStage::Menu => PROVISION_KIND_COUNT,
                _ => 0,
            },
        };
        self.set_item_count(count);
    }

    /// In the Provision disk list, pin the selected usable disk as the target and move
    /// on to the backup prompt.
    pub fn provision_select_disk(&mut self) -> (r: Option<u32>)
        requires
            old(self).wf(),
        ensures
            final(self).wf(),
            spec_provision_disk_selected(*old(self), *final(self), r),
    {
        if self.workspace != Workspace::Provision || self.provision.stage
            != ProvisionStage::SelectDisk {
            return None;
        }
        let disk = match self.provision_device_at(self.selected) {
            Some(row) => row.disk,
            None => return None,
        };
        self.pinned_disk = Some(disk);
        self.provision.target_disk = Some(disk);
        self.provision.stage = ProvisionStage::BackupPrompt;
        self.provision.message = None;
        self.selected = 0;
        self.set_item_count(2);
        Some(disk)
    }

    /// From the device list, start provisioning the selected readable USB disk.
    pub fn begin_provision_for_selected_device(&mut self) -> (r: Result<u32, String>)
        requires
            old(self).wf(),
        ensures
            final(self).wf(),
            old(self).workspace != Workspace::Devices ==> (r matches Err(e) && e@
                == "请先在设备页选择目标 USB 盘。"@) && *final(self) == *old(self),
            old(self).workspace == Workspace::Devices && old(self).spec_selected_device() is None
                ==> (r matches Err(e) && e@ == "请先选择目标 USB 盘。"@) && *final(self) == *old(self),
            old(self).workspace == Workspace::Devices && (old(self).spec_selected_device() matches Some(
                row,
            ) && !spec_usable(row)) ==> (r matches Err(e) && e@
                == "制盘需要可读取的 USB 整盘目标。"@) && *final(self) == *old(self),
            old(self).workspace == Workspace::Devices && (old(self).spec_selected_device() matches Some(
                row,
            ) && spec_usable(row)) ==> {
                let disk = old(self).spec_selected_device()->0.disk;
                &&& r == Ok::<u32, String>(disk)
                &&& final(self).workspace == Workspace::Provision
                &&& final(self).pinned_disk == Some(disk)
                &&& final(self).provision.target_disk == Some(disk)
                &&& final(self).provision.stage == ProvisionStage::BackupPrompt
                &&& final(self).provision.message is None
                &&& final(self).selected == 0
                &&& final(self).item_count == 2
                &&& final(self).navigation.spec_frames().len() == old(self).navigation.spec_frames().len() + 1
                &&& final(self).navigation.spec_frames().last().location
                    == NavigationLocation::Devices
            },
    {
        if self.workspace != Workspace::Devices {
            return Err(String::from_str("请先在设备页选择目标 USB 盘。"));
        }
        let disk = match self.selected_device() {
            Some(row) => {
                if !usable(row) {
                    return Err(String::from_str("制盘需要可读取的 USB 整盘目标。"));
                }
                row.disk
            },
            None => return Err(String::from_str("请先选择目标 USB 盘。")),
        };
        self.push_navigation_frame(NavigationLocation::Devices);
        self.provision.target_disk = Some(disk);
        self.switch_workspace(Workspace::Provision);
        self.pinned_disk = Some(disk);
        self.provision.stage = ProvisionStage::BackupPrompt;
        self.provision.message = None;
        self.selected = 0;
        self.set_item_count(2);
        Ok(disk)
    }

    pub fn table_scroll_offset(&self, kind: TableKind) -> (r: usize)
        requires
            self.horizontal_scroll@.len() == 5,
        ensures
            r == self.horizontal_scroll@[spec_table_slot(kind)].spec_offset(),
    {
        self.horizontal_scroll[kind.slot()].offset()
    }

    /// Scroll a table one column left (`reverse`) or right; reports whether it moved.
    pub fn scroll_table(&mut self, kind: TableKind, reverse: bool) -> (r: bool)
        requires
            old(self).horizontal_scroll@.len() == 5,
        ensures
            final(self).horizontal_scroll@.len() == 5,
            *final(self) == (AppState {
                horizontal_scroll: final(self).horizontal_scroll,
                ..*old(self)
            }),
            forall|i: int|
                0 <= i < 5 && i != spec_table_slot(kind) ==> #[trigger] final(self).horizontal_scroll@[i] == old(self).horizontal_scroll@[i],
            ({
                let before = old(self).horizontal_scroll@[spec_table_slot(kind)].spec_offset();
                let after = final(self).horizontal_scroll@[spec_table_slot(kind)].spec_offset();
                let last: int = if crate::table_layout::spec_scrollable_count(
                    spec_layout_specs(kind),
                ) >= 1 {
                    crate::table_layout::spec_scrollable_count(spec_layout_specs(kind)) - 1
                } else {
                    0
                };
                &&& reverse ==> after == (if before > 0 {
                    before - 1
                } else {
                    0
                }) && r == (before > 0)
                &&& !reverse ==> after == (if before + 1 <= last {
                    before + 1
                } else {
                    last
                }) && r == (after != before)
            }),
    {
        let layout = layout_for(kind);
        let slot = kind.slot();
        let mut scroll = self.horizontal_scroll[slot];
        let changed = if reverse {
            scroll.left()
        } else {
            scroll.right(&layout)
        };
        self.horizontal_scroll.set(slot, scroll);
        changed
    }

    /// Viewport of a registered pane of the open Inspect or Provision workspace.
    pub fn pane_viewport(&self, pane: PaneId) -> (r: &PaneViewport)
        requires
            self.wf(),
            spec_is_inspect(pane) ==> (self.advanced_inspect matches Some(a)
                && a.pane_focus.spec_has(pane)),
            !spec_is_inspect(pane) ==> self.provision.pane_focus.spec_has(pane),
        ensures
            spec_is_inspect(pane) ==> *r == self.advanced_inspect->0.pane_focus.spec_viewport(
                pane,
            ),
            !spec_is_inspect(pane) ==> *r == self.provision.pane_focus.spec_viewport(pane),
    {
        if pane.is_inspect() {
            match &self.advanced_inspect {
                Some(a) => a.pane_focus.viewport(pane),
                None => self.provision.pane_focus.viewport(pane),
            }
        } else {
            self.provision.pane_focus.viewport(pane)
        }
    }

    /// The viewport of a pane of the open Inspect or Provision workspace, for in-place
    /// changes; a pane not yet registered is registered with a default viewport first.
    pub fn pane_viewport_mut(&mut self, pane: PaneId) -> (r: &mut PaneViewport)
        requires
            old(self).wf(),
            spec_is_inspect(pane) ==> old(self).advanced_inspect is Some,
        ensures
            final(self).wf(),
            spec_is_inspect(pane) ==> ({
                let a = old(self).advanced_inspect->Some_0;
                let b = final(self).advanced_inspect->Some_0;
                &&& *final(self) == (AppState { advanced_inspect: final(self).advanced_inspect, ..*old(self) })
                &&& final(self).advanced_inspect is Some
                &&& b == (AdvancedInspectState { pane_focus: b.pane_focus, ..a })
                &&& *r == (if a.pane_focus.spec_has(pane) {
                    a.pane_focus.spec_viewport(pane)
                } else {
                    spec_default_viewport()
                })
                &&& b.pane_focus.spec_focused() == a.pane_focus.spec_focused()
                &&& forall|p: PaneId| b.pane_focus.spec_has(p) <==> (a.pane_focus.spec_has(p) || p == pane)
                &&& b.pane_focus.spec_viewport(pane) == *final(r)
                &&& forall|p: PaneId| p != pane ==> #[trigger] b.pane_focus.spec_viewport(p) == a.pane_focus.spec_viewport(p)
            }),
            !spec_is_inspect(pane) ==> ({
                let a = old(self).provision;
                let b = final(self).provision;
                &&& *final(self) == (AppState { provision: b, ..*old(self) })
                &&& b == (ProvisionState { pane_focus: b.pane_focus, ..a })
                &&& *r == (if a.pane_focus.spec_has(pane) {
                    a.pane_focus.spec_viewport(pane)
                } else {
                    spec_default_viewport()
                })
                &&& b.pane_focus.spec_focused() == a.pane_focus.spec_focused()
                &&& forall|p: PaneId| b.pane_focus.spec_has(p) <==> (a.pane_focus.spec_has(p) || p == pane)
                &&& b.pane_focus.spec_viewport(pane) == *final(r)
                &&& forall|p: PaneId| p != pane ==> #[trigger] b.pane_focus.spec_viewport(p) == a.pane_focus.spec_viewport(p)
            }),
    {
        if pane.is_inspect() {
            match &mut self.advanced_inspect {
                Some(a) => a.pane_focus.viewport_mut(pane),
                None => self.provision.pane_focus.viewport_mut(pane),
            }
        } else {
            self.provision.pane_focus.viewport_mut(pane)
        }
    }

    /// Save where we are so a later Escape can come back here.
    pub fn push_navigation_frame(&mut self, location: NavigationLocation)
        requires
            old(self).wf(),
        ensures
            final(self).wf(),
            *final(self) == (AppState { navigation: final(self).navigation, ..*old(self) }),
            final(self).navigation.spec_frames().drop_last() == old(self).navigation.spec_frames(),
            final(self).navigation.spec_frames().len() == old(self).navigation.spec_frames().len()
                + 1,
            ({
                let f = final(self).navigation.spec_frames().last();
                &&& f.location == location
                &&& f.selection == old(self).selected
                &&& f.item_count == old(self).item_count
                &&& f.panel is None
                &&& f.tree_selection == 0
                &&& f.table_scroll == match location {
                    NavigationLocation::Devices => Some(
                        (
                            TableKind::Devices,
                            old(self).horizontal_scroll@[0].spec_offset(),
                        ),
                    ),
                    NavigationLocation::Backups => Some(
                        (
                            TableKind::Backups,
                            old(self).horizontal_scroll@[1].spec_offset(),
                        ),
                    ),
                    NavigationLocation::Provision => Some(
                        (
                            TableKind::ProvisionDevices,
                            old(self).horizontal_scroll@[2].spec_offset(),
                        ),
                    ),
                    _ => None,
                }
                &&& (location == NavigationLocation::Devices || location
                    == NavigationLocation::Backups) ==> f.pane_focus is None
                &&& location == NavigationLocation::Provision ==> (f.pane_focus matches Some(p)
                    && p.spec_focused() == old(self).provision.pane_focus.spec_focused())
            }),
    {
        let table_kind = match location {
            NavigationLocation::Devices => Some(TableKind::Devices),
            NavigationLocation::Backups => Some(TableKind::Backups),
            NavigationLocation::Provision => Some(TableKind::ProvisionDevices),
            _ => None,
        };
        let table_scroll = match table_kind {
            Some(kind) => Some((kind, self.table_scroll_offset(kind))),
            None => None,
        };
        let pane_focus = match location {
            NavigationLocation::Provision => Some(self.provision.pane_focus.duplicate()),
            NavigationLocation::Inspect | NavigationLocation::SectorInspector => match &self.advanced_inspect {
                Some(a) => Some(a.pane_focus.duplicate()),
                None => None,
            },
            _ => None,
        };
        let frame = NavigationFrame {
            location,
            selection: self.selected,
            item_count: self.item_count,
            panel: None,
            tree_selection: 0,
            pane_focus,
            table_scroll,
        };
        self.navigation.push(frame);
        proof {
            assert(self.navigation.spec_frames().drop_last() =~= old(self).navigation.spec_frames());
            assert forall|i: int|
                0 <= i < self.navigation.spec_frames().len() implies spec_frame_wf(
                #[trigger] self.navigation.spec_frames()[i],
            ) by {
                if i < old(self).navigation.spec_frames().len() {
                    assert(self.navigation.spec_frames()[i] == old(self).navigation.spec_frames()[i]);
                }
            }
        }
    }

    pub fn pop_navigation_frame(&mut self) -> (r: Option<NavigationFrame>)
        requires
            old(self).wf(),
        ensures
            final(self).wf(),
            *final(self) == (AppState { navigation: final(self).navigation, ..*old(self) }),
            old(self).navigation.spec_frames().len() == 0 ==> r is None
                && *final(self) == *old(self),
            old(self).navigation.spec_frames().len() > 0 ==> r == Some(
                old(self).navigation.spec_frames().last(),
            ) && final(self).navigation.spec_frames() == old(self).navigation.spec_frames().drop_last(),
            r matches Some(f) ==> spec_frame_wf(f),
    {
        let r = self.navigation.pop();
        proof {
            assert forall|i: int|
                0 <= i < self.navigation.spec_frames().len() implies spec_frame_wf(
                #[trigger] self.navigation.spec_frames()[i],
            ) by {
                assert(self.navigation.spec_frames()[i] == old(self).navigation.spec_frames()[i]);
            }
            if old(self).navigation.spec_frames().len() > 0 {
                let n = old(self).navigation.spec_frames().len() - 1;
                assert(spec_frame_wf(old(self).navigation.spec_frames()[n]));
            }
        }
        r
    }
}

impl Default for AppState {
    /// A fresh state, as `AppState::new` makes it.
    fn default() -> (r: Self)
        ensures
            r.wf(),
            r.workspace == Workspace::Devices,
            r.devices@.len() == 0,
            r.backups@.len() == 0,
            r.selected == 0,
            r.item_count == 0,
            !r.critical_operation,
            r.navigation.spec_frames().len() == 0,
    {
        AppState::new()
    }
}

/// `new` is `old` after a write task reported `result`.
pub open spec fn spec_write_finished(old: AppState, new: AppState, result: Result<(), String>) -> bool {
    &&& !new.critical_operation
    &&& match old.wizard {
        Some(w) => {
            &&& new == (AppState {
                wizard: new.wizard,
                critical_operation: false,
                ..old
            })
            &&& new.wizard matches Some(fw)
            &&& fw == (WizardState {
                stage: WizardStage::Result,
                progress: None,
                message: fw.message,
                ..w
            })
            &&& match result {
                Ok(_) => if w.kind == WriteKind::BackupCreate || w.kind
                    == WriteKind::BackupCreateDeep {
                    spec_msg(fw.message, "备份创建完成；备份列表已刷新"@)
                } else {
                    spec_msg(fw.message, "操作完成，安全链全部通过"@)
                },
                Err(m) => fw.message == Some(m),
            }
        },
        None => new == (AppState { critical_operation: false, ..old }),
    }
}

/// `new` is `old` after a write task reported progress `event`.
pub open spec fn spec_write_progress_set(old: AppState, new: AppState, event: String) -> bool {
    &&& match old.wizard {
        Some(w) => if w.stage == WizardStage::Running {
            new == (AppState {
                wizard: Some(WizardState { progress: Some(event), ..w }),
                ..old
            })
        } else {
            new == old
        },
        None => new == old,
    }
}

/// `new` is `old` after the write wizard was asked to open; `r` says whether it opened.
pub open spec fn spec_write_wizard_begun(old: AppState, new: AppState, kind: WriteKind, disk: u32, backup: Option<String>, expected_identity: Option<ExpectedIdentity>, r: bool) -> bool {
    &&& old.critical_operation ==> !r && new == (AppState {
        notice: new.notice,
        notice_at: new.notice_at,
        ..old
    }) && spec_msg(new.notice, "关键操作仍在执行，完成前不能启动其他任务。"@)
    &&& !old.critical_operation ==> r && new == (AppState {
        input_mode: InputMode::Confirm,
        wizard: new.wizard,
        ..old
    }) && (new.wizard matches Some(w) && w.stage == WizardStage::Confirm && w.kind
        == kind && w.disk == disk && w.backup == backup && w.expected_identity
        == expected_identity && w.confirmation@.len() == 0 && w.message is None
        && w.progress is None)
}

/// `new` is `old` after `ch` was typed into the write confirmation.
pub open spec fn spec_wizard_confirmation_pushed(old: AppState, new: AppState, ch: char) -> bool {
    &&& match old.wizard {
        Some(w) => if w.stage == WizardStage::Confirm && spec_byte_len(w.confirmation@)
            < 16 {
            &&& new == (AppState { wizard: new.wizard, ..old })
            &&& new.wizard matches Some(fw)
            &&& fw.confirmation@ == w.confirmation@.push(ch)
            &&& fw == (WizardState {
                confirmation: fw.confirmation,
                message: None,
                ..w
            })
        } else {
            new == old
        },
        None => new == old,
    }
}

/// `new` is `old` after Backspace in the write confirmation.
pub open spec fn spec_wizard_confirmation_backspaced(old: AppState, new: AppState) -> bool {
    &&& match old.wizard {
        Some(w) => if w.stage == WizardStage::Confirm {
            &&& new == (AppState { wizard: new.wizard, ..old })
            &&& new.wizard matches Some(fw)
            &&& fw.confirmation@ == (if w.confirmation@.len() > 0 {
                w.confirmation@.drop_last()
            } else {
                w.confirmation@
            })
            &&& fw == (WizardState {
                confirmation: fw.confirmation,
                message: None,
                ..w
            })
        } else {
            new == old
        },
        None => new == old,
    }
}

/// `new` is `old` after Enter on the write confirmation; `r` is the confirmed intent.
pub open spec fn spec_wizard_submitted(old: AppState, new: AppState, r: Option<WriteIntent>) -> bool {
    &&& match old.wizard {
        Some(w) => if w.stage != WizardStage::Confirm {
            r is None && new == old
        } else if w.confirmation@ != "YES"@ {
            &&& r is None
            &&& new == (AppState { wizard: new.wizard, ..old })
            &&& new.wizard matches Some(fw)
            &&& fw == (WizardState { message: fw.message, ..w })
            &&& spec_msg(fw.message, "必须精确输入 YES 才会进入写盘阶段"@)
        } else {
            &&& r matches Some(intent)
            &&& intent.kind == w.kind && intent.disk == w.disk && intent.backup
                == w.backup && intent.expected_identity == w.expected_identity
            &&& new == (AppState {
                wizard: new.wizard,
                input_mode: InputMode::Normal,
                critical_operation: true,
                ..old
            })
            &&& new.wizard matches Some(fw)
            &&& fw == (WizardState {
                stage: WizardStage::Running,
                message: fw.message,
                ..w
            })
            &&& spec_msg(fw.message, "关键写盘阶段进行中，不可中断"@)
        },
        None => r is None && new == old,
    }
}

/// `new` is `old` after Enter in the Provision disk list; `r` is the disk fixed as target.
pub open spec fn spec_provision_disk_selected(old: AppState, new: AppState, r: Option<u32>) -> bool {
    &&& (old.workspace != Workspace::Provision || old.provision.stage
        != ProvisionStage::SelectDisk || old.selected >= spec_usable_positions(
        old.devices@,
    ).len()) ==> r is None && new == old
    &&& (old.workspace == Workspace::Provision && old.provision.stage
        == ProvisionStage::SelectDisk && old.selected < spec_usable_positions(
        old.devices@,
    ).len()) ==> {
        let disk = old.devices@[spec_usable_positions(
            old.devices@,
        )[old.selected as int] as int].disk;
        &&& r == Some(disk)
        &&& new == (AppState {
            pinned_disk: Some(disk),
            provision: ProvisionState {
                target_disk: Some(disk),
                stage: ProvisionStage::BackupPrompt,
                message: None,
                ..old.provision
            },
            selected: 0,
            item_count: 2,
            ..old
        })
    }
}

/// `new` is `old` after `ch` was typed into the search or command line.
pub open spec fn spec_input_char_pushed(old: AppState, new: AppState, ch: char) -> bool {
    &&& !((old.input_mode == InputMode::Search || old.input_mode
        == InputMode::Command) && old.input_buffer@.len() < 256 && !spec_is_control(
        ch,
    )) ==> new == old
    &&& ((old.input_mode == InputMode::Search || old.input_mode
        == InputMode::Command) && old.input_buffer@.len() < 256 && !spec_is_control(
        ch,
    )) ==> new.input_buffer@ == old.input_buffer@.push(ch)
    &&& old.input_mode == InputMode::Command ==> new == (AppState {
        input_buffer: new.input_buffer,
        ..old
    })
    &&& (old.input_mode == InputMode::Search && old.input_buffer@.len() < 256
        && !spec_is_control(ch)) ==> spec_refiltered(
        old,
        new,
        spec_trim(old.input_buffer@.push(ch)),
    ) && new == (AppState {
        selected: new.selected,
        item_count: new.item_count,
        search_matches: new.search_matches,
        search_cursor: new.search_cursor,
        input_buffer: new.input_buffer,
        ..old
    })
}

/// `new` is `old` after Backspace in the search or command line.
pub open spec fn spec_input_backspaced(old: AppState, new: AppState) -> bool {
    &&& !(old.input_mode == InputMode::Search || old.input_mode
        == InputMode::Command) ==> new == old
    &&& (old.input_mode == InputMode::Search || old.input_mode
        == InputMode::Command) ==> new.input_buffer@ == (if old.input_buffer@.len() > 0 {
        old.input_buffer@.drop_last()
    } else {
        old.input_buffer@
    })
    &&& old.input_mode == InputMode::Command ==> new == (AppState {
        input_buffer: new.input_buffer,
        ..old
    })
    &&& old.input_mode == InputMode::Search ==> spec_refiltered(
        old,
        new,
        spec_trim(new.input_buffer@),
    ) && new == (AppState {
        selected: new.selected,
        item_count: new.item_count,
        search_matches: new.search_matches,
        search_cursor: new.search_cursor,
        input_buffer: new.input_buffer,
        ..old
    })
}

/// `new` is `old` after the search was submitted; `r` is the number of matches.
pub open spec fn spec_search_submitted(old: AppState, new: AppState, r: usize) -> bool {
    &&& new.search_query@ == spec_ascii_lower(spec_trim(old.input_buffer@))
    &&& new.input_buffer@.len() == 0
    &&& new.input_mode == InputMode::Normal
    &&& spec_refiltered(old, new, new.search_query@)
    &&& r == new.search_matches@.len()
    &&& new == (AppState {
        selected: new.selected,
        item_count: new.item_count,
        search_matches: new.search_matches,
        search_cursor: new.search_cursor,
        input_buffer: new.input_buffer,
        search_query: new.search_query,
        input_mode: InputMode::Normal,
        ..old
    })
}

/// `new` is `old` after the typed line was taken; `r` is that line.
pub open spec fn spec_input_taken(old: AppState, new: AppState, r: String) -> bool {
    &&& r == old.input_buffer
    &&& new.input_buffer@.len() == 0
    &&& new == (AppState { input_buffer: new.input_buffer, ..old })
}

} // verus!
