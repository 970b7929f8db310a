//! The workspace commands: moving the selection, switching workspaces, and what
//! Escape backs out of in each situation.

use vstd::prelude::*;
use crate::inspect::{spec_inspect_closed, spec_prompt_cancelled, AdvancedInspectStage};
use crate::navigation::{NavigationFrame, NavigationLocation};
use crate::provision::{
    spec_export_cancelled, spec_provision_reset, ProvisionStage, ProvisionState,
};
use crate::sector::{spec_sector_closed, spec_sector_of};
use crate::state::{
    spec_clamp_selection, spec_frame_wf, spec_input_cancelled, spec_msg, spec_search_cycled,
    AppState, InputMode, NavCommand, StateEffect, Workspace,
};
use crate::table_layout::{
    layout_for, spec_layout_specs, spec_scrollable_count, spec_table_slot, TableKind,
};

verus! {

/// Last horizontal scroll position of a table kind.
pub open spec fn spec_kind_last_scroll(kind: TableKind) -> int {
    if spec_scrollable_count(spec_layout_specs(kind)) >= 1 {
        spec_scrollable_count(spec_layout_specs(kind)) - 1
    } else {
        0
    }
}

/// `new` is `old` with a notice reading `msg` and nothing else changed.
pub open spec fn spec_noticed(old: AppState, new: AppState, msg: Seq<char>) -> bool {
    &&& new == (AppState { notice: new.notice, notice_at: new.notice_at, ..old })
    &&& spec_msg(new.notice, msg)
}

/// The workspace a saved location returns to, if it is one.
pub open spec fn spec_frame_workspace(l: NavigationLocation) -> Option<Workspace> {
    match l {
        NavigationLocation::Devices => Some(Workspace::Devices),
        NavigationLocation::Backups => Some(Workspace::Backups),
        NavigationLocation::Provision => Some(Workspace::Provision),
        _ => None,
    }
}

/// `new` is `old` after returning to the most recent saved workspace frame: the frame is
/// popped, its workspace is entered, its selection comes back clamped to the list, its
/// Provision pane focus and its table scroll position are restored. With no frame the
/// device list is entered; a frame of an Inspect location is only popped.
pub open spec fn spec_frame_restored(old: AppState, new: AppState) -> bool {
    let frames = old.navigation.spec_frames();
    if frames.len() == 0 {
        old.spec_switched(Workspace::Devices, new)
    } else {
        let f = frames.last();
        let popped = AppState { navigation: new.navigation, ..old };
        &&& new.navigation.spec_frames() == frames.drop_last()
        &&& match spec_frame_workspace(f.location) {
            None => new == popped,
            Some(ws) => {
                let stays = old.workspace == ws;
                let switched = AppState {
                    selected: if stays {
                        old.selected
                    } else {
                        spec_clamp_selection(popped.spec_switch_selected(ws), new.item_count)
                    },
                    provision: if stays {
                        old.provision
                    } else {
                        popped.spec_switch_provision(ws)
                    },
                    horizontal_scroll: old.horizontal_scroll,
                    ..new
                };
                &&& popped.spec_switched(ws, switched)
                &&& new.selected == spec_clamp_selection(f.selection, new.item_count)
                &&& new.provision == (match f.pane_focus {
                    Some(pf) if ws == Workspace::Provision => ProvisionState {
                        pane_focus: pf,
                        ..switched.provision
                    },
                    _ => switched.provision,
                })
                &&& new.horizontal_scroll@.len() == 5
                &&& match f.table_scroll {
                    None => new.horizontal_scroll == old.horizontal_scroll,
                    Some((kind, offset)) => {
                        &&& forall|i: int|
                            0 <= i < 5 && i != spec_table_slot(kind)
                                ==> #[trigger] new.horizontal_scroll@[i]
                                == old.horizontal_scroll@[i]
                        &&& new.horizontal_scroll@[spec_table_slot(kind)].spec_offset() == (
                        if offset <= spec_kind_last_scroll(kind) {
                            offset as int
                        } else {
                            spec_kind_last_scroll(kind)
                        })
                    },
                }
            },
        }
    }
}

/// What Escape does when no critical operation runs: in Inspect it waits for a run,
/// dismisses a prompt, closes the sector inspector or leaves the browser; in Provision it
/// steps back one stage (refusing while background work runs); otherwise it closes an
/// open wizard or delete dialog, or leaves the input line.
pub open spec fn spec_escaped(old: AppState, new: AppState) -> bool {
    if old.advanced_inspect is Some {
        let a = old.advanced_inspect->Some_0;
        if a.stage == AdvancedInspectStage::Running {
            spec_noticed(old, new, "全盘检查正在后台读取结构，请等待完成。"@)
        } else if a.prompt is Some {
            spec_prompt_cancelled(old, new)
        } else if spec_sector_of(old) is Some {
            spec_sector_closed(old, new)
        } else {
            spec_inspect_closed(old, new)
        }
    } else if old.workspace == Workspace::Provision {
        match old.provision.stage {
            ProvisionStage::SelectDisk | ProvisionStage::BackupPrompt => spec_frame_restored(
                old,
                new,
            ),
            ProvisionStage::Menu => new == (AppState {
                provision: ProvisionState {
                    stage: ProvisionStage::BackupPrompt,
                    message: None,
                    ..old.provision
                },
                selected: 0,
                item_count: 2,
                ..old
            }),
            ProvisionStage::Running => spec_noticed(old, new, "制盘安全事务正在执行，当前不能返回。"@),
            ProvisionStage::Confirm => {
                &&& new == (AppState {
                    provision: ProvisionState {
                        stage: ProvisionStage::Review,
                        confirmation: new.provision.confirmation,
                        ..old.provision
                    },
                    ..old
                })
                &&& new.provision.confirmation@.len() == 0
            },
            ProvisionStage::Review => new == (AppState {
                provision: ProvisionState { stage: ProvisionStage::Form, ..old.provision },
                ..old
            }),
            ProvisionStage::ExportPath => spec_export_cancelled(old, new),
            ProvisionStage::Exporting => spec_noticed(old, new, "镜像正在后台导出，请等待完成。"@),
            ProvisionStage::Form | ProvisionStage::Result => spec_provision_reset(old, new),
            ProvisionStage::Planning => spec_noticed(old, new, "制盘计划正在后台生成，请等待完成。"@),
            ProvisionStage::BackupSaving => spec_noticed(old, new, "正在保存当前盘，请等待完成。"@),
        }
    } else if old.wizard is Some {
        new == (AppState { wizard: None, input_mode: InputMode::Normal, ..old })
    } else if old.backup_delete is Some {
        new == (AppState { backup_delete: None, input_mode: InputMode::Normal, ..old })
    } else if old.input_mode != InputMode::Normal {
        spec_input_cancelled(old, new)
    } else {
        new == old
    }
}

/// The workspace the Tab keys move to.
pub open spec fn spec_tab_target(ws: Workspace, next: bool) -> Workspace {
    match ws {
        Workspace::Devices => Workspace::Backups,
        Workspace::Backups => Workspace::Devices,
        Workspace::Provision => if next {
            Workspace::Devices
        } else {
            Workspace::Backups
        },
    }
}

/// Rows a half-page jump moves: half the viewport, at least one.
pub open spec fn spec_half_page(viewport_height: usize) -> int {
    if viewport_height / 2 >= 1 {
        (viewport_height / 2) as int
    } else {
        1
    }
}

/// `new` and the effect `r` after `command` with a list viewport of `h` rows.
pub open spec fn spec_navigated(
    old: AppState,
    new: AppState,
    command: NavCommand,
    h: usize,
    r: StateEffect,
) -> bool {
    if old.critical_operation {
        if command == NavCommand::Quit {
            r == StateEffect::ExitDeferred && new == (AppState { exit_pending: true, ..old })
        } else if command == NavCommand::Escape {
            r == StateEffect::NoEffect && spec_noticed(
                old,
                new,
                "关键操作仍在执行，当前不能返回；操作完成后再按 Esc 返回。"@,
            )
        } else {
            r == StateEffect::NoEffect && spec_noticed(
                old,
                new,
                "关键操作仍在执行，完成前不能切换页面或启动其他任务。"@,
            )
        }
    } else if command == NavCommand::Quit {
        r == StateEffect::ExitRequested && new == old
    } else {
        &&& r == StateEffect::NoEffect
        &&& match command {
            NavCommand::Escape => spec_escaped(old, new),
            NavCommand::NextMatch => spec_search_cycled(old, new, false),
            NavCommand::PreviousMatch => spec_search_cycled(old, new, true),
            NavCommand::NextWorkspace => old.spec_switched(
                spec_tab_target(old.workspace, true),
                new,
            ),
            NavCommand::PreviousWorkspace => old.spec_switched(
                spec_tab_target(old.workspace, false),
                new,
            ),
            NavCommand::WorkspaceDevices => old.spec_switched(Workspace::Devices, new),
            NavCommand::WorkspaceBackups => old.spec_switched(Workspace::Backups, new),
            NavCommand::WorkspaceProvision => old.spec_switched(Workspace::Provision, new),
            NavCommand::Up => new == (AppState {
                selected: if old.selected >= 1 {
                    (old.selected - 1) as usize
                } else {
                    0
                },
                ..old
            }),
            NavCommand::Down => new == (AppState {
                selected: if old.item_count == 0 {
                    old.selected
                } else {
                    spec_clamp_selection((old.selected + 1) as usize, old.item_count)
                },
                ..old
            }),
            NavCommand::Top => new == (AppState { selected: 0, ..old }),
            NavCommand::Bottom => new == (AppState {
                selected: if old.item_count >= 1 {
                    (old.item_count - 1) as usize
                } else {
                    0
                },
                ..old
            }),
            NavCommand::HalfPageDown => new == (AppState {
                selected: if old.item_count == 0 {
                    old.selected
                } else if old.selected + spec_half_page(h) <= old.item_count - 1 {
                    (old.selected + spec_half_page(h)) as usize
                } else {
                    (old.item_count - 1) as usize
                },
                ..old
            }),
            NavCommand::HalfPageUp => new == (AppState {
                selected: if old.selected >= spec_half_page(h) {
                    (old.selected - spec_half_page(h)) as usize
                } else {
                    0
                },
                ..old
            }),
            NavCommand::Search => {
                &&& new == (AppState {
                    input_buffer: new.input_buffer,
                    input_mode: InputMode::Search,
                    ..old
                })
                &&& new.input_buffer@ == old.search_query@
            },
            NavCommand::CommandPalette => {
                &&& new == (AppState {
                    input_buffer: new.input_buffer,
                    input_mode: InputMode::Command,
                    ..old
                })
                &&& new.input_buffer@.len() == 0
            },
            NavCommand::Help => new == (AppState { input_mode: InputMode::Help, ..old }),
            _ => new == old,
        }
    }
}

impl AppState {
    /// Set the scroll position of one table, kept within its scrollable columns.
    fn set_table_scroll(&mut self, kind: TableKind, offset: usize)
        requires
            old(self).horizontal_scroll@.len() == 5,
        ensures
            *final(self) == (AppState { horizontal_scroll: final(self).horizontal_scroll, ..*old(self) }),
            final(self).horizontal_scroll@.len() == 5,
            forall|i: int|
                0 <= i < 5 && i != spec_table_slot(kind) ==> #[trigger] final(self).horizontal_scroll@[i]
                    == old(self).horizontal_scroll@[i],
            final(self).horizontal_scroll@[spec_table_slot(kind)].spec_offset() == (if offset
                <= spec_kind_last_scroll(kind) {
                offset as int
            } else {
                spec_kind_last_scroll(kind)
            }),
    {
        let layout = layout_for(kind);
        let slot = kind.slot();
        let mut scroll = self.horizontal_scroll[slot];
        scroll.set_offset(offset, &layout);
        self.horizontal_scroll.set(slot, scroll);
    }

    /// Return to the most recent saved workspace frame (or the device list).
    #[verifier::rlimit(40)]
    pub fn restore_workspace_frame(&mut self)
        requires
            old(self).wf(),
        ensures
            final(self).wf(),
            spec_frame_restored(*old(self), *final(self)),
    {
        let popped = self.pop_navigation_frame();
        match popped {
            None => {
                self.switch_workspace(Workspace::Devices);
            },
            Some(frame) => {
                let workspace = match frame.location {
                    NavigationLocation::Devices => Workspace::Devices,
                    NavigationLocation::Backups => Workspace::Backups,
                    NavigationLocation::Provision => Workspace::Provision,
                    _ => {
                        return;
                    },
                };
                let ghost after_pop = *self;
                self.switch_workspace(workspace);
                let ghost after_switch = *self;
                let last = if self.item_count == 0 {
                    0
                } else {
                    self.item_count - 1
                };
                self.selected = if frame.selection < last {
                    frame.selection
                } else {
                    last
                };
                if workspace == Workspace::Provision {
                    if let Some(pane_focus) = frame.pane_focus {
                        self.provision.pane_focus = pane_focus;
                    }
                }
                if let Some((kind, offset)) = frame.table_scroll {
                    self.set_table_scroll(kind, offset);
                }
            },
        }
    }

    /// Apply a navigation command; `viewport_height` is the height of the list in rows.
    pub fn navigate(&mut self, command: NavCommand, viewport_height: usize) -> (r: StateEffect)
        requires
            old(self).wf(),
        ensures
            final(self).wf(),
            spec_navigated(*old(self), *final(self), command, viewport_height, r),
    {
        if let Some(effect) = self.guard_critical_command(command) {
            return effect;
        }
        if command == NavCommand::Escape {
            self.navigate_escape();
            return StateEffect::NoEffect;
        }
        if command == NavCommand::Quit {
            return StateEffect::ExitRequested;
        }
        if command == NavCommand::NextMatch {
            self.cycle_search(false);
            return StateEffect::NoEffect;
        }
        if command == NavCommand::PreviousMatch {
            self.cycle_search(true);
            return StateEffect::NoEffect;
        }
        match command {
            NavCommand::NextWorkspace | NavCommand::PreviousWorkspace => {
                let target = match self.workspace {
                    Workspace::Devices => Workspace::Backups,
                    Workspace::Backups => Workspace::Devices,
                    Workspace::Provision => if command == NavCommand::NextWorkspace {
                        Workspace::Devices
                    } else {
                        Workspace::Backups
                    },
                };
                self.switch_workspace(target);
            },
            NavCommand::WorkspaceDevices => self.switch_workspace(Workspace::Devices),
            NavCommand::WorkspaceBackups => self.switch_workspace(Workspace::Backups),
            NavCommand::WorkspaceProvision => self.switch_workspace(Workspace::Provision),
            NavCommand::Up => {
                self.selected = self.selected.saturating_sub(1);
            },
            NavCommand::Down => {
                if self.item_count > 0 {
                    let next = self.selected.saturating_add(1);
                    self.selected = if next <= self.item_count - 1 {
                        next
                    } else {
                        self.item_count - 1
                    };
                }
            },
            NavCommand::Top => {
                self.selected = 0;
            },
            NavCommand::Bottom => {
                self.selected = self.item_count.saturating_sub(1);
            },
            NavCommand::HalfPageDown => {
                if self.item_count > 0 {
                    let half = viewport_height / 2;
                    let delta = if half >= 1 {
                        half
                    } else {
                        1
                    };
                    let moved = self.selected.saturating_add(delta);
                    self.selected = if moved <= self.item_count - 1 {
                        moved
                    } else {
                        self.item_count - 1
                    };
                }
            },
            NavCommand::HalfPageUp => {
                let half = viewport_height / 2;
                let delta = if half >= 1 {
                    half
                } else {
                    1
                };
                self.selected = self.selected.saturating_sub(delta);
            },
            NavCommand::Search => {
                self.input_buffer = self.search_query.clone();
                self.input_mode = InputMode::Search;
            },
            NavCommand::CommandPalette => {
                self.input_buffer = String::new();
                self.input_mode = InputMode::Command;
            },
            NavCommand::Help => {
                self.input_mode = InputMode::Help;
            },
            _ => {},
        }
        StateEffect::NoEffect
    }

    /// Escape when no critical operation runs.
    fn navigate_escape(&mut self)
        requires
            old(self).wf(),
        ensures
            final(self).wf(),
            spec_escaped(*old(self), *final(self)),
    {
        let inspect_state = match &self.advanced_inspect {
            Some(a) => Some((a.stage == AdvancedInspectStage::Running, a.prompt.is_some())),
            None => None,
        };
        if let Some((running, prompting)) = inspect_state {
            if running {
                self.set_notice(String::from_str("全盘检查正在后台读取结构，请等待完成。"));
            } else if prompting {
                self.advanced_inspect_cancel_prompt();
            } else if !self.advanced_inspect_close_sector() {
                self.close_advanced_inspect();
            }
            return;
        }
        if self.workspace == Workspace::Provision {
            match self.provision.stage {
                ProvisionStage::SelectDisk | ProvisionStage::BackupPrompt => {
                    self.restore_workspace_frame();
                },
                ProvisionStage::Menu => {
                    self.provision.stage = ProvisionStage::BackupPrompt;
                    self.provision.message = None;
                    self.selected = 0;
                    self.set_item_count(2);
                },
                ProvisionStage::Running => {
                    self.set_notice(String::from_str("制盘安全事务正在执行，当前不能返回。"));
                },
                ProvisionStage::Confirm => {
                    self.provision.stage = ProvisionStage::Review;
                    self.provision.confirmation = String::new();
                },
                ProvisionStage::Review => {
                    self.provision.stage = ProvisionStage::Form;
                },
                ProvisionStage::ExportPath => self.provision_cancel_export(),
                ProvisionStage::Exporting => {
                    self.set_notice(String::from_str("镜像正在后台导出，请等待完成。"));
                },
                ProvisionStage::Form | ProvisionStage::Result => {
                    self.provision_reset();
                },
                ProvisionStage::Planning => {
                    self.set_notice(String::from_str("制盘计划正在后台生成，请等待完成。"));
                },
                ProvisionStage::BackupSaving => {
                    self.set_notice(String::from_str("正在保存当前盘，请等待完成。"));
                },
            }
            return;
        }
        if self.wizard.is_some() {
            self.wizard = None;
            self.input_mode = InputMode::Normal;
            return;
        }
        if self.backup_delete.is_some() {
            self.backup_delete = None;
            self.input_mode = InputMode::Normal;
            return;
        }
        if self.input_mode != InputMode::Normal {
            self.cancel_input();
        }
    }
}

/// Returning to a saved frame enters its workspace, brings back its selection (clamped to
/// the list as it is now) and pops exactly that frame.
pub proof fn lemma_return_to_frame(old: AppState, new: AppState)
    requires
        spec_frame_restored(old, new),
        old.navigation.spec_frames().len() > 0,
        spec_frame_workspace(old.navigation.spec_frames().last().location) is Some,
    ensures
        new.workspace == spec_frame_workspace(old.navigation.spec_frames().last().location)->Some_0,
        new.selected == spec_clamp_selection(
            old.navigation.spec_frames().last().selection,
            new.item_count,
        ),
        new.navigation.spec_frames() == old.navigation.spec_frames().drop_last(),
{
}

/// Saving the current workspace and returning to it straight away leaves the workspace,
/// the selection and the saved frames as they were.
pub proof fn lemma_save_then_return(s0: AppState, s1: AppState, s2: AppState, frame: NavigationFrame)
    requires
        s0.wf(),
        s1 == (AppState { navigation: s1.navigation, ..s0 }),
        s1.navigation.spec_frames() == s0.navigation.spec_frames().push(frame),
        frame.location == crate::navigation::spec_location_of(s0.workspace),
        frame.selection == s0.selected,
        spec_frame_restored(s1, s2),
    ensures
        s2.workspace == s0.workspace,
        s2.selected == s0.selected,
        s2.navigation.spec_frames() == s0.navigation.spec_frames(),
{
    assert(s1.navigation.spec_frames().last() == frame);
    assert(s1.navigation.spec_frames().drop_last() =~= s0.navigation.spec_frames());
}

/// While a critical operation runs, no navigation command changes anything but the
/// notice and the deferred-exit flag, and none asks to exit at once: the workspace, the
/// selection, the wizards, the data and the input line stay put.
pub proof fn lemma_critical_navigation_blocked(
    before: AppState,
    after: AppState,
    command: NavCommand,
    viewport_height: usize,
    r: StateEffect,
)
    requires
        before.critical_operation,
        spec_navigated(before, after, command, viewport_height, r),
    ensures
        after == (AppState {
            notice: after.notice,
            notice_at: after.notice_at,
            exit_pending: after.exit_pending,
            ..before
        }),
        r != StateEffect::ExitRequested,
        after.exit_pending != before.exit_pending ==> command == NavCommand::Quit,
{
}

} // verus!
