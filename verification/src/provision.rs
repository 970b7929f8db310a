//! Provisioning workflow state: stages, confirmation, export path and pane focus.

use vstd::prelude::*;
use crate::pane::PaneFocus;

verus! {

#[derive(Debug, Clone, Copy, PartialEq, Eq, Structural)]
pub enum ProvisionKind {
    Mode0,
    Mode1,
    Mode2,
    Mode3,
    Plain,
}

/// Number of provisioning kinds offered by the menu.
pub const PROVISION_KIND_COUNT: usize = 5;

pub open spec fn spec_kind_at(i: int) -> ProvisionKind {
    if i == 0 {
        ProvisionKind::Mode0
    } else if i == 1 {
        ProvisionKind::Mode1
    } else if i == 2 {
        ProvisionKind::Mode2
    } else if i == 3 {
        ProvisionKind::Mode3
    } else {
        ProvisionKind::Plain
    }
}

pub open spec fn spec_kind_mode(k: ProvisionKind) -> Option<u8> {
    match k {
        ProvisionKind::Mode0 => Some(0),
        ProvisionKind::Mode1 => Some(1),
        ProvisionKind::Mode2 => Some(2),
        ProvisionKind::Mode3 => Some(3),
        ProvisionKind::Plain => None,
    }
}

impl ProvisionKind {
    /// The menu entry at `index` (indices past the end select the last entry).
    pub fn at(index: usize) -> (r: Self)
        ensures
            r == spec_kind_at(index as int),
    {
        if index == 0 {
            ProvisionKind::Mode0
        } else if index == 1 {
            ProvisionKind::Mode1
        } else if index == 2 {
            ProvisionKind::Mode2
        } else if index == 3 {
            ProvisionKind::Mode3
        } else {
            ProvisionKind::Plain
        }
    }

    pub fn mode(self) -> (r: Option<u8>)
        ensures
            r == spec_kind_mode(self),
    {
        match self {
            ProvisionKind::Mode0 => Some(0),
            ProvisionKind::Mode1 => Some(1),
            ProvisionKind::Mode2 => Some(2),
            ProvisionKind::Mode3 => Some(3),
            ProvisionKind::Plain => None,
        }
    }
}

#[derive(Debug, Clone, Copy, PartialEq, Eq, Structural)]
pub enum ProvisionBarKind {
    Free,
    Unknown,
    Plain,
    Boot,
    Share,
    Encrypt,
    Compatibility,
}

#[derive(Debug, Clone, Copy, PartialEq, Eq, Structural)]
pub enum ProvisionStage {
    SelectDisk,
    BackupPrompt,
    BackupSaving,
    Menu,
    Form,
    Planning,
    Review,
    ExportPath,
    Exporting,
    Confirm,
    Running,
    Result,
}

/// A prepared, read-only checked provisioning plan, carried until it is executed.
#[derive(Debug, Clone)]
pub struct ProvisionPrepared {
    pub kind: ProvisionKind,
    pub summary: Vec<String>,
}

#[derive(Debug, Clone)]
pub struct ProvisionState {
    pub stage: ProvisionStage,
    pub kind: ProvisionKind,
    pub menu_selected: usize,
    pub field_selected: usize,
    pub field_cursor: usize,
    pub prepared: Option<ProvisionPrepared>,
    pub confirmation: String,
    pub export_path: String,
    pub message: Option<String>,
    pub pane_focus: PaneFocus,
    pub target_disk: Option<u32>,
}

impl ProvisionState {
    pub open spec fn wf(&self) -> bool {
        self.pane_focus.wf()
    }

    /// The state a fresh Provision workspace starts in.
    pub fn default() -> (r: Self)
        ensures
            r.wf(),
            r.stage == ProvisionStage::Menu,
            r.kind == ProvisionKind::Mode0,
            r.menu_selected == 0,
            r.field_selected == 0,
            r.field_cursor == 0,
            r.prepared is None,
            r.confirmation@.len() == 0,
            r.export_path@.len() == 0,
            r.message is None,
            r.target_disk is None,
            r.pane_focus.spec_focused() == crate::pane::PaneId::ProvisionParameters,
    {
        ProvisionState {
            stage: ProvisionStage::Menu,
            kind: ProvisionKind::Mode0,
            menu_selected: 0,
            field_selected: 0,
            field_cursor: 0,
            prepared: None,
            confirmation: String::new(),
            export_path: String::new(),
            message: None,
            pane_focus: PaneFocus::provision_form(),
            target_disk: None,
        }
    }
}

} // verus!

use crate::pane::{PaneId, spec_provision_form_order, spec_provision_review_order, spec_is_inspect};
use crate::state::{
    AppState, InputMode, Workspace, spec_byte_len, spec_msg, spec_provision_count,
    spec_usable_positions,
};
use crate::text::{
    chars_of, is_control, spec_decimal, spec_is_control, spec_trim, str_eq, string_from_chars,
    string_pop, string_push, trim_chars, u64_decimal,
};

verus! {

fn copy_strings(v: &Vec<String>) -> (r: Vec<String>)
    ensures
        r@ == v@,
{
    let mut r: Vec<String> = Vec::new();
    let mut i: usize = 0;
    while i < v.len()
        invariant
            i <= v.len(),
            r@ == v@.take(i as int),
        decreases v.len() - i,
    {
        r.push(v[i].clone());
        i = i + 1;
        assert(r@ =~= v@.take(i as int));
    }
    assert(r@ =~= v@);
    r
}

impl ProvisionPrepared {
    /// An equal copy of this plan.
    pub fn copy(&self) -> (r: Self)
        ensures
            r.kind == self.kind,
            r.summary@ == self.summary@,
    {
        ProvisionPrepared { kind: self.kind, summary: copy_strings(&self.summary) }
    }
}

/// Default image file name offered for exporting a plan of `kind`.
pub open spec fn spec_default_export_path(kind: ProvisionKind) -> Seq<char> {
    match spec_kind_mode(kind) {
        Some(m) => "./edp-mode"@ + spec_decimal(m as nat) + ".img"@,
        None => "./edp-plain.img"@,
    }
}

/// `new` is `old` started over: a fresh Provision state that keeps the menu choice and
/// the target disk, back at the menu (or the disk list when no disk is chosen).
pub open spec fn spec_provision_reset(old: AppState, new: AppState) -> bool {
    &&& new.input_mode == InputMode::Normal
    &&& ({
        let sel: usize = if old.provision.menu_selected <= 4 {
            old.provision.menu_selected
        } else {
            4
        };
        let p = new.provision;
        &&& p.menu_selected == sel
        &&& p.kind == spec_kind_at(sel as int)
        &&& p.target_disk == old.provision.target_disk
        &&& p.field_selected == 0 && p.field_cursor == 0 && p.prepared is None
        &&& p.confirmation@.len() == 0 && p.export_path@.len() == 0 && p.message is None
        &&& p.pane_focus.spec_focused() == PaneId::ProvisionParameters
        &&& new.pinned_disk == old.provision.target_disk
        &&& old.workspace != Workspace::Provision ==> p.stage == ProvisionStage::Menu
            && new.selected == old.selected && new.item_count == old.item_count
        &&& (old.workspace == Workspace::Provision && old.provision.target_disk is Some) ==> p.stage == ProvisionStage::Menu
            && new.item_count == PROVISION_KIND_COUNT && new.selected
            == sel
        &&& (old.workspace == Workspace::Provision && old.provision.target_disk is None) ==> p.stage == ProvisionStage::SelectDisk
            && new.item_count == spec_usable_positions(old.devices@).len()
            && new.selected == 0
        &&& new == (AppState {
            input_mode: InputMode::Normal,
            provision: p,
            pinned_disk: new.pinned_disk,
            selected: new.selected,
            item_count: new.item_count,
            ..old
        })
    })
}

/// `new` is `old` with the export path prompt (if open) dismissed, back at the review.
pub open spec fn spec_export_cancelled(old: AppState, new: AppState) -> bool {
    &&& old.provision.stage == ProvisionStage::ExportPath ==> new == (AppState {
        provision: ProvisionState { stage: ProvisionStage::Review, message: None, ..old.provision },
        input_mode: InputMode::Normal,
        ..old
    })
    &&& old.provision.stage != ProvisionStage::ExportPath ==> new == old
}

impl AppState {
    pub fn provision_mut(&mut self) -> (r: &mut ProvisionState)
        ensures
            *r == old(self).provision,
            *final(self) == (AppState { provision: *final(r), ..*old(self) }),
    {
        &mut self.provision
    }

    pub fn provision_end_insert(&mut self)
        ensures
            old(self).input_mode == InputMode::Insert ==> *final(self) == (AppState {
                input_mode: InputMode::Normal,
                ..*old(self)
            }),
            old(self).input_mode != InputMode::Insert ==> *final(self) == *old(self),
    {
        if self.input_mode == InputMode::Insert {
            self.input_mode = InputMode::Normal;
        }
    }

    /// Start over: a fresh Provision state that keeps the menu choice and target disk.
    pub fn provision_reset(&mut self)
        requires
            old(self).wf(),
        ensures
            final(self).wf(),
            spec_provision_reset(*old(self), *final(self)),
    {
        self.input_mode = InputMode::Normal;
        let selected = if self.provision.menu_selected <= 4 {
            self.provision.menu_selected
        } else {
            4
        };
        let target_disk = self.provision.target_disk;
        self.provision = ProvisionState::default();
        self.provision.menu_selected = selected;
        self.provision.kind = ProvisionKind::at(selected);
        self.provision.target_disk = target_disk;
        self.pinned_disk = target_disk;
        if self.workspace == Workspace::Provision {
            if target_disk.is_some() {
                self.provision.stage = ProvisionStage::Menu;
                self.set_item_count(PROVISION_KIND_COUNT);
                self.selected = selected;
            } else {
                self.provision.stage = ProvisionStage::SelectDisk;
                let n = crate::state::usable_count(&self.devices);
                self.set_item_count(n);
                self.selected = 0;
            }
        }
    }

    /// From review, ask for the image export path, prefilled with the default name.
    pub fn provision_begin_export(&mut self)
        ensures
            spec_provision_export_begun(*old(self), *final(self)),
    {
        if self.provision.stage != ProvisionStage::Review || self.provision.prepared.is_none() {
            return;
        }
        self.provision.export_path = match self.provision.kind.mode() {
            Some(mode) => {
                let mut p = String::from_str("./edp-mode");
                let d = u64_decimal(mode as u64);
                p.append(d.as_str());
                p.append(".img");
                p
            },
            None => String::from_str("./edp-plain.img"),
        };
        self.provision.stage = ProvisionStage::ExportPath;
        self.input_mode = InputMode::Insert;
        self.provision.message = None;
    }

    /// Type into the export path (no control characters, at most 512 characters).
    pub fn provision_export_push_char(&mut self, ch: char)
        ensures
            spec_export_char_pushed(*old(self), *final(self), ch),
    {
        if self.provision.stage == ProvisionStage::ExportPath && !is_control(ch)
            && self.provision.export_path.as_str().unicode_len() < 512 {
            string_push(&mut self.provision.export_path, ch);
            self.provision.message = None;
        }
    }

    pub fn provision_export_backspace(&mut self)
        ensures
            spec_export_backspaced(*old(self), *final(self)),
    {
        if self.provision.stage == ProvisionStage::ExportPath {
            let _ = string_pop(&mut self.provision.export_path);
            self.provision.message = None;
        }
    }

    /// Hand out the plan and the trimmed export path, and start exporting.
    pub fn provision_take_export(&mut self) -> (r: Option<(ProvisionPrepared, String)>)
        ensures
            spec_export_taken(*old(self), *final(self), r),
    {
        if self.provision.stage != ProvisionStage::ExportPath {
            return None;
        }
        let raw = chars_of(self.provision.export_path.as_str());
        let trimmed = trim_chars(&raw);
        if trimmed.len() == 0 {
            self.provision.message = Some(String::from_str("镜像导出路径不能为空"));
            return None;
        }
        let prepared = match &self.provision.prepared {
            Some(p) => p.copy(),
            None => return None,
        };
        let path = string_from_chars(trimmed.as_slice());
        self.provision.stage = ProvisionStage::Exporting;
        let mut m = String::from_str("正在后台导出 ");
        m.append(path.as_str());
        m.append("…");
        self.provision.message = Some(m);
        Some((prepared, path))
    }

    /// Back to review with the export outcome.
    pub fn provision_finish_export(&mut self, result: Result<String, String>)
        ensures
            spec_provision_export_finished(*old(self), *final(self), result),
    {
        self.provision.stage = ProvisionStage::Review;
        self.input_mode = InputMode::Normal;
        self.provision.message = Some(
            match result {
                Ok(path) => {
                    let mut m = String::from_str("镜像导出完成：");
                    m.append(path.as_str());
                    m
                },
                Err(message) => message,
            },
        );
    }

    pub fn provision_cancel_export(&mut self)
        ensures
            spec_export_cancelled(*old(self), *final(self)),
    {
        if self.provision.stage == ProvisionStage::ExportPath {
            self.provision.stage = ProvisionStage::Review;
            self.provision.message = None;
            self.input_mode = InputMode::Normal;
        }
    }

    /// With a prepared plan, ask for the YES confirmation of the destructive write.
    pub fn provision_begin_confirm(&mut self)
        ensures
            spec_provision_confirm_begun(*old(self), *final(self)),
    {
        if self.provision.prepared.is_some() {
            self.provision.stage = ProvisionStage::Confirm;
            self.input_mode = InputMode::Confirm;
            self.provision.confirmation = String::new();
            self.provision.message = None;
        }
    }

    pub fn provision_push_confirmation(&mut self, ch: char)
        ensures
            spec_provision_confirmation_pushed(*old(self), *final(self), ch),
    {
        if self.provision.stage == ProvisionStage::Confirm && self.provision.confirmation.as_str().len()
            < 16 {
            string_push(&mut self.provision.confirmation, ch);
            self.provision.message = None;
        }
    }

    pub fn provision_backspace_confirmation(&mut self)
        ensures
            spec_provision_confirmation_backspaced(*old(self), *final(self)),
    {
        if self.provision.stage == ProvisionStage::Confirm {
            let _ = string_pop(&mut self.provision.confirmation);
            self.provision.message = None;
        }
    }

    /// On an exact YES, hand out the plan and enter the critical write phase.
    pub fn provision_take_for_write(&mut self) -> (r: Option<ProvisionPrepared>)
        ensures
            spec_provision_taken(*old(self), *final(self), r),
    {
        if self.provision.stage != ProvisionStage::Confirm {
            return None;
        }
        if !str_eq(self.provision.confirmation.as_str(), "YES") {
            self.provision.message = Some(String::from_str("必须精确输入 YES 才会执行破坏性写盘"));
            return None;
        }
        let prepared = match self.provision.prepared.take() {
            Some(p) => p,
            None => return None,
        };
        self.provision.stage = ProvisionStage::Running;
        self.input_mode = InputMode::Normal;
        self.provision.message = Some(
            String::from_str("事务写盘进行中；退出请求会延迟到安全检查点"),
        );
        self.critical_operation = true;
        Some(prepared)
    }

    /// Leave the critical phase and show the outcome of the write.
    pub fn provision_finish_write(&mut self, result: Result<String, String>)
        ensures
            spec_provision_write_finished(*old(self), *final(self), result),
    {
        self.critical_operation = false;
        self.provision.stage = ProvisionStage::Result;
        self.input_mode = InputMode::Normal;
        self.provision.message = Some(
            match result {
                Ok(message) => message,
                Err(message) => message,
            },
        );
    }

    /// The plan is being built in the background.
    pub fn provision_set_planning(&mut self)
        ensures
            spec_msg(final(self).provision.message, "正在只读检查目标并生成精确制盘计划…"@),
            *final(self) == (AppState {
                provision: ProvisionState {
                    stage: ProvisionStage::Planning,
                    message: final(self).provision.message,
                    ..old(self).provision
                },
                input_mode: InputMode::Normal,
                ..*old(self)
            }),
    {
        self.provision.stage = ProvisionStage::Planning;
        self.input_mode = InputMode::Normal;
        self.provision.message = Some(String::from_str("正在只读检查目标并生成精确制盘计划…"));
    }

    /// Record the background plan: review it, or go back to the form with the error.
    pub fn provision_finish_plan(&mut self, result: Result<ProvisionPrepared, String>)
        requires
            old(self).wf(),
                ensures
            final(self).wf(),
            spec_provision_plan_finished(*old(self), *final(self), result),
    {
        match result {
            Ok(prepared) => {
                self.provision.prepared = Some(prepared);
                self.provision.stage = ProvisionStage::Review;
                self.provision.pane_focus = PaneFocus::provision_review();
                self.provision.message = None;
            },
            Err(message) => {
                self.provision.stage = ProvisionStage::Form;
                self.provision.message = Some(message);
            },
        }
    }

    pub fn provision_focused_pane(&self) -> (r: PaneId)
        ensures
            r == self.provision.pane_focus.spec_focused(),
    {
        self.provision.pane_focus.focused()
    }

    /// Focus a Provision pane (Inspect panes are ignored).
    pub fn provision_focus_pane(&mut self, pane: PaneId)
        requires
            old(self).wf(),
        ensures
            final(self).wf(),
            spec_is_inspect(pane) ==> *final(self) == *old(self),
            !spec_is_inspect(pane) ==> final(self).provision.pane_focus.spec_focused() == pane
                && *final(self) == (AppState {
                provision: ProvisionState {
                    pane_focus: final(self).provision.pane_focus,
                    ..old(self).provision
                },
                ..*old(self)
            }),
    {
        if pane.is_provision() {
            self.provision.pane_focus.focus(pane);
        }
    }

    /// Cycle focus through the review panes while reviewing, else the form panes.
    pub fn provision_shift_pane(&mut self, reverse: bool)
        requires
            old(self).wf(),
        ensures
            final(self).wf(),
            *final(self) == (AppState {
                provision: ProvisionState {
                    pane_focus: final(self).provision.pane_focus,
                    ..old(self).provision
                },
                ..*old(self)
            }),
            ({
                let order = if old(self).provision.stage == ProvisionStage::Review {
                    spec_provision_review_order()
                } else {
                    spec_provision_form_order()
                };
                let index = crate::pane::spec_position_or_zero(
                    order,
                    old(self).provision.pane_focus.spec_focused(),
                );
                let next = if reverse {
                    if index == 0 {
                        order.len() - 1
                    } else {
                        index - 1
                    }
                } else {
                    (index + 1) % (order.len() as int)
                };
                final(self).provision.pane_focus.spec_focused() == order[next]
            }),
    {
        let order = if self.provision.stage == ProvisionStage::Review {
            PaneId::provision_review_order()
        } else {
            PaneId::provision_form_order()
        };
        self.provision.pane_focus.cycle(order.as_slice(), reverse);
    }

    /// Move focus by direction among the review panes while reviewing, else the form panes.
    pub fn provision_spatial_focus(&mut self, dx: i8, dy: i8)
        requires
            old(self).wf(),
        ensures
            final(self).wf(),
            *final(self) == (AppState {
                provision: ProvisionState {
                    pane_focus: final(self).provision.pane_focus,
                    ..old(self).provision
                },
                ..*old(self)
            }),
            old(self).provision.stage == ProvisionStage::Review ==> (
            crate::pane::spec_spatial_review(old(self).provision.pane_focus.spec_focused(), dx, dy) matches Some(
                n,
            ) ==> final(self).provision.pane_focus.spec_focused() == n),
            old(self).provision.stage == ProvisionStage::Review && crate::pane::spec_spatial_review(
                old(self).provision.pane_focus.spec_focused(),
                dx,
                dy,
            ) is None ==> final(self).provision.pane_focus == old(self).provision.pane_focus,
    {
        if self.provision.stage == ProvisionStage::Review {
            self.provision.pane_focus.spatial_provision_review(dx, dy);
        } else {
            self.provision.pane_focus.spatial_provision_form(dx, dy);
        }
    }
}

/// `new` is `old` after a provision planning task reported `result`.
pub open spec fn spec_provision_plan_finished(old: AppState, new: AppState, result: Result<ProvisionPrepared, String>) -> bool {
    &&& match result {
        Ok(prepared) => new == (AppState {
            provision: ProvisionState {
                prepared: Some(prepared),
                stage: ProvisionStage::Review,
                pane_focus: new.provision.pane_focus,
                message: None,
                ..old.provision
            },
            ..old
        }) && new.provision.pane_focus.spec_focused()
            == PaneId::ProvisionSummary,
        Err(m) => new == (AppState {
            provision: ProvisionState {
                stage: ProvisionStage::Form,
                message: Some(m),
                ..old.provision
            },
            ..old
        }),
    }
}

/// `new` is `old` after a provision write task reported `result`.
pub open spec fn spec_provision_write_finished(old: AppState, new: AppState, result: Result<String, String>) -> bool {
    &&& new == (AppState {
        provision: ProvisionState {
            stage: ProvisionStage::Result,
            message: Some(
                match result {
                    Ok(m) => m,
                    Err(m) => m,
                },
            ),
            ..old.provision
        },
        input_mode: InputMode::Normal,
        critical_operation: false,
        ..old
    })
}

/// `new` is `old` after an image export task reported `result`.
pub open spec fn spec_provision_export_finished(old: AppState, new: AppState, result: Result<String, String>) -> bool {
    &&& new == (AppState {
        provision: ProvisionState {
            stage: ProvisionStage::Review,
            message: new.provision.message,
            ..old.provision
        },
        input_mode: InputMode::Normal,
        ..old
    })
    &&& match result {
        Ok(path) => spec_msg(new.provision.message, "镜像导出完成："@ + path@),
        Err(m) => new.provision.message == Some(m),
    }
}

/// `new` is `old` after Enter on the export path; `r` is the plan and path to export.
pub open spec fn spec_export_taken(old: AppState, new: AppState, r: Option<(ProvisionPrepared, String)>) -> bool {
    &&& old.provision.stage != ProvisionStage::ExportPath ==> r is None && new
        == old
    &&& (old.provision.stage == ProvisionStage::ExportPath && spec_trim(
        old.provision.export_path@,
    ).len() == 0) ==> r is None && spec_msg(
        new.provision.message,
        "镜像导出路径不能为空"@,
    ) && new == (AppState {
        provision: ProvisionState {
            message: new.provision.message,
            ..old.provision
        },
        ..old
    })
    &&& (old.provision.stage == ProvisionStage::ExportPath && spec_trim(
        old.provision.export_path@,
    ).len() > 0 && old.provision.prepared is None) ==> r is None && new
        == old
    &&& (old.provision.stage == ProvisionStage::ExportPath && spec_trim(
        old.provision.export_path@,
    ).len() > 0 && old.provision.prepared is Some) ==> (r matches Some((plan, path))
        && plan.kind == old.provision.prepared->0.kind && plan.summary@ == old.provision.prepared->0.summary@ && path@ == spec_trim(
        old.provision.export_path@,
    )) && spec_msg(
        new.provision.message,
        "正在后台导出 "@ + spec_trim(old.provision.export_path@) + "…"@,
    ) && new == (AppState {
        provision: ProvisionState {
            stage: ProvisionStage::Exporting,
            message: new.provision.message,
            ..old.provision
        },
        ..old
    })
}

/// `new` is `old` after Backspace in the export path.
pub open spec fn spec_export_backspaced(old: AppState, new: AppState) -> bool {
    &&& old.provision.stage == ProvisionStage::ExportPath ==> new.provision.export_path@ == (if old.provision.export_path@.len() > 0 {
        old.provision.export_path@.drop_last()
    } else {
        old.provision.export_path@
    }) && new == (AppState {
        provision: ProvisionState {
            export_path: new.provision.export_path,
            message: None,
            ..old.provision
        },
        ..old
    })
    &&& old.provision.stage != ProvisionStage::ExportPath ==> new == old
}

/// `new` is `old` after `ch` was typed into the export path.
pub open spec fn spec_export_char_pushed(old: AppState, new: AppState, ch: char) -> bool {
    &&& (old.provision.stage == ProvisionStage::ExportPath && !spec_is_control(ch) && old.provision.export_path@.len() < 512) ==> new.provision.export_path@ == old.provision.export_path@.push(ch) && new == (AppState {
        provision: ProvisionState {
            export_path: new.provision.export_path,
            message: None,
            ..old.provision
        },
        ..old
    })
    &&& !(old.provision.stage == ProvisionStage::ExportPath && !spec_is_control(ch) && old.provision.export_path@.len() < 512) ==> new == old
}

/// `new` is `old` after `ch` was typed into the provisioning confirmation.
pub open spec fn spec_provision_confirmation_pushed(old: AppState, new: AppState, ch: char) -> bool {
    &&& (old.provision.stage == ProvisionStage::Confirm && spec_byte_len(
        old.provision.confirmation@,
    ) < 16) ==> new.provision.confirmation@ == old.provision.confirmation@.push(ch) && new == (AppState {
        provision: ProvisionState {
            confirmation: new.provision.confirmation,
            message: None,
            ..old.provision
        },
        ..old
    })
    &&& !(old.provision.stage == ProvisionStage::Confirm && spec_byte_len(
        old.provision.confirmation@,
    ) < 16) ==> new == old
}

/// `new` is `old` after Backspace in the provisioning confirmation.
pub open spec fn spec_provision_confirmation_backspaced(old: AppState, new: AppState) -> bool {
    &&& old.provision.stage == ProvisionStage::Confirm ==> new.provision.confirmation@ == (if old.provision.confirmation@.len() > 0 {
        old.provision.confirmation@.drop_last()
    } else {
        old.provision.confirmation@
    }) && new == (AppState {
        provision: ProvisionState {
            confirmation: new.provision.confirmation,
            message: None,
            ..old.provision
        },
        ..old
    })
    &&& old.provision.stage != ProvisionStage::Confirm ==> new == old
}

/// `new` is `old` after Enter on the provisioning confirmation; `r` is the plan to write.
pub open spec fn spec_provision_taken(old: AppState, new: AppState, r: Option<ProvisionPrepared>) -> bool {
    &&& old.provision.stage != ProvisionStage::Confirm ==> r is None && new
        == old
    &&& (old.provision.stage == ProvisionStage::Confirm && old.provision.confirmation@
        != "YES"@) ==> r is None && spec_msg(
        new.provision.message,
        "必须精确输入 YES 才会执行破坏性写盘"@,
    ) && new == (AppState {
        provision: ProvisionState {
            message: new.provision.message,
            ..old.provision
        },
        ..old
    })
    &&& (old.provision.stage == ProvisionStage::Confirm && old.provision.confirmation@
        == "YES"@ && old.provision.prepared is None) ==> r is None && new
        == old
    &&& (old.provision.stage == ProvisionStage::Confirm && old.provision.confirmation@
        == "YES"@ && old.provision.prepared is Some) ==> r == old.provision.prepared && spec_msg(
        new.provision.message,
        "事务写盘进行中；退出请求会延迟到安全检查点"@,
    ) && new == (AppState {
        provision: ProvisionState {
            prepared: None,
            stage: ProvisionStage::Running,
            message: new.provision.message,
            ..old.provision
        },
        input_mode: InputMode::Normal,
        critical_operation: true,
        ..old
    })
}

/// `new` is `old` after Enter on the plan review.
pub open spec fn spec_provision_confirm_begun(old: AppState, new: AppState) -> bool {
    &&& old.provision.prepared is None ==> new == old
    &&& old.provision.prepared is Some ==> new.provision.confirmation@.len() == 0
        && new == (AppState {
        provision: ProvisionState {
            stage: ProvisionStage::Confirm,
            confirmation: new.provision.confirmation,
            message: None,
            ..old.provision
        },
        input_mode: InputMode::Confirm,
        ..old
    })
}

/// `new` is `old` after E on the plan review.
pub open spec fn spec_provision_export_begun(old: AppState, new: AppState) -> bool {
    &&& (old.provision.stage != ProvisionStage::Review || old.provision.prepared is None)
        ==> new == old
    &&& (old.provision.stage == ProvisionStage::Review && old.provision.prepared is Some)
        ==> new.provision.export_path@ == spec_default_export_path(
        old.provision.kind,
    ) && new == (AppState {
        provision: ProvisionState {
            export_path: new.provision.export_path,
            stage: ProvisionStage::ExportPath,
            message: None,
            ..old.provision
        },
        input_mode: InputMode::Insert,
        ..old
    })
}

} // verus!
