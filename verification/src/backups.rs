//! Backup workspace flows: create choice, single delete, batch delete and pruning.

use vstd::prelude::*;
use crate::state::WizardStage;

verus! {

#[derive(Debug, Clone, Copy, PartialEq, Eq, Structural)]
pub enum BackupCreateChoice {
    Metadata,
    Deep,
}

#[derive(Debug, Clone, Copy, PartialEq, Eq, Structural)]
pub struct BackupCreateChoiceState {
    pub selected: usize,
}

impl BackupCreateChoiceState {
    pub open spec fn spec_choice(self) -> BackupCreateChoice {
        if self.selected == 0 {
            BackupCreateChoice::Metadata
        } else {
            BackupCreateChoice::Deep
        }
    }

    pub fn choice(self) -> (r: BackupCreateChoice)
        ensures
            r == self.spec_choice(),
    {
        if self.selected == 0 {
            BackupCreateChoice::Metadata
        } else {
            BackupCreateChoice::Deep
        }
    }
}

#[derive(Debug, Clone)]
pub struct BackupDeleteState {
    pub stage: WizardStage,
    pub path: String,
    pub expected_sha256: String,
    pub confirmation: String,
    pub message: Option<String>,
}

#[derive(Debug, Clone, Copy, PartialEq, Eq, Structural)]
pub enum BackupBatchDeleteStage {
    Planning,
    Review,
    Confirm,
    Running,
    Result,
}

/// A fixed list of backups to delete, each with the content digest it must still have.
#[derive(Debug, Clone)]
pub struct DeletePlan {
    pub targets: Vec<(String, String)>,
}

#[derive(Debug, Clone)]
pub struct BackupBatchDeleteState {
    pub stage: BackupBatchDeleteStage,
    pub prepared: Option<DeletePlan>,
    pub confirmation: String,
    pub message: Option<String>,
}

#[derive(Debug, Clone, Copy, PartialEq, Eq, Structural)]
pub enum BackupPruneStage {
    Input,
    Planning,
    Review,
    Confirm,
    Running,
    Result,
}

#[derive(Debug, Clone)]
pub struct BackupPrunePrepared {
    pub plan: DeletePlan,
    pub keep: usize,
    pub originals: usize,
    pub retained_snapshots: usize,
}

#[derive(Debug, Clone)]
pub struct BackupPruneState {
    pub stage: BackupPruneStage,
    pub keep_input: String,
    pub prepared: Option<BackupPrunePrepared>,
    pub confirmation: String,
    pub message: Option<String>,
}

} // verus!

use crate::state::{
    AppState, BackupItem, InputMode, spec_byte_len, spec_distinct_paths, spec_msg,
};
use crate::text::{
    concat, parse_usize, spec_decimal, spec_is_ascii_digit, spec_parse_usize, str_eq,
    string_pop, string_push, u64_decimal,
};

verus! {

/// Paths of `v`, as character sequences.
pub open spec fn spec_path_views(v: Seq<String>) -> Seq<Seq<char>> {
    v.map_values(|s: String| s@)
}

/// `v` without the entries naming `path`.
pub open spec fn spec_without_path(v: Seq<String>, path: Seq<char>) -> Seq<String>
    decreases v.len(),
{
    if v.len() == 0 {
        Seq::empty()
    } else {
        let prev = spec_without_path(v.drop_last(), path);
        if v.last()@ == path {
            prev
        } else {
            prev.push(v.last())
        }
    }
}

/// Batch-delete targets: selected backups that have a digest, in list order.
pub open spec fn spec_batch_targets(rows: Seq<BackupItem>, sel: Seq<String>) -> Seq<(String, String)>
    decreases rows.len(),
{
    if rows.len() == 0 {
        Seq::empty()
    } else {
        let prev = spec_batch_targets(rows.drop_last(), sel);
        let row = rows.last();
        if spec_path_views(sel).contains(row.path@) && row.content_sha256 is Some {
            prev.push((row.path, row.content_sha256->0))
        } else {
            prev
        }
    }
}

proof fn lemma_without_path(v: Seq<String>, path: Seq<char>)
    requires
        spec_distinct_paths(v),
    ensures
        spec_distinct_paths(spec_without_path(v, path)),
        !spec_path_views(spec_without_path(v, path)).contains(path),
        forall|q: Seq<char>|
            q != path ==> (spec_path_views(spec_without_path(v, path)).contains(q)
                <==> spec_path_views(v).contains(q)),
    decreases v.len(),
{
    if v.len() > 0 {
        let pv = v.drop_last();
        assert(spec_distinct_paths(pv)) by {
            assert forall|i: int, j: int| 0 <= i < j < pv.len() implies (#[trigger] pv[i])@
                != (#[trigger] pv[j])@ by {
                assert(pv[i] == v[i] && pv[j] == v[j]);
            }
        }
        lemma_without_path(pv, path);
        let prev = spec_without_path(pv, path);
        assert(spec_path_views(v) =~= spec_path_views(pv).push(v.last()@));
        if v.last()@ != path {
            let r = prev.push(v.last());
            assert(spec_path_views(r) =~= spec_path_views(prev).push(v.last()@));
            assert(!spec_path_views(pv).contains(v.last()@)) by {
                if spec_path_views(pv).contains(v.last()@) {
                    let k = choose|k: int| 0 <= k < spec_path_views(pv).len() && spec_path_views(pv)[k] == v.last()@;
                    assert(v[k]@ == v[v.len() - 1]@);
                }
            }
            assert(!spec_path_views(prev).contains(v.last()@));
            assert forall|i: int, j: int| 0 <= i < j < r.len() implies (#[trigger] r[i])@
                != (#[trigger] r[j])@ by {
                if j == r.len() - 1 {
                    assert(spec_path_views(prev)[i] == r[i]@);
                }
            }
            assert forall|q: Seq<char>| q != path implies (spec_path_views(r).contains(q)
                <==> spec_path_views(v).contains(q)) by {
                if q == v.last()@ {
                    assert(spec_path_views(r)[r.len() - 1] == q);
                    assert(spec_path_views(v)[v.len() - 1] == q);
                } else {
                    if spec_path_views(r).contains(q) {
                        let k = choose|k: int| 0 <= k < spec_path_views(r).len() && spec_path_views(r)[k] == q;
                        assert(k < prev.len());
                        assert(spec_path_views(prev)[k] == q);
                        assert(spec_path_views(prev).contains(q));
                        assert(spec_path_views(pv).contains(q));
                        let k2 = choose|k2: int| 0 <= k2 < spec_path_views(pv).len() && spec_path_views(pv)[k2] == q;
                        assert(spec_path_views(v)[k2] == q);
                    }
                    if spec_path_views(v).contains(q) {
                        let k = choose|k: int| 0 <= k < spec_path_views(v).len() && spec_path_views(v)[k] == q;
                        assert(k < pv.len());
                        assert(spec_path_views(pv)[k] == q);
                        assert(spec_path_views(pv).contains(q));
                        assert(spec_path_views(prev).contains(q));
                        let k2 = choose|k2: int| 0 <= k2 < spec_path_views(prev).len() && spec_path_views(prev)[k2] == q;
                        assert(spec_path_views(r)[k2] == q);
                    }
                }
            }
        } else {
            assert forall|q: Seq<char>| q != path implies (spec_path_views(prev).contains(q)
                <==> spec_path_views(v).contains(q)) by {
                if spec_path_views(v).contains(q) {
                    let k = choose|k: int| 0 <= k < spec_path_views(v).len() && spec_path_views(v)[k] == q;
                    assert(k < pv.len());
                    assert(spec_path_views(pv)[k] == q);
                }
                if spec_path_views(pv).contains(q) {
                    let k = choose|k: int| 0 <= k < spec_path_views(pv).len() && spec_path_views(pv)[k] == q;
                    assert(spec_path_views(v)[k] == q);
                }
            }
        }
    }
}

fn selection_contains(sel: &Vec<String>, path: &str) -> (r: bool)
    ensures
        r == spec_path_views(sel@).contains(path@),
{
    let mut i: usize = 0;
    while i < sel.len()
        invariant
            i <= sel.len(),
            forall|k: int| 0 <= k < i ==> (#[trigger] sel@[k])@ != path@,
        decreases sel.len() - i,
    {
        if str_eq(sel[i].as_str(), path) {
            assert(spec_path_views(sel@)[i as int] == path@);
            return true;
        }
        i = i + 1;
    }
    proof {
        if spec_path_views(sel@).contains(path@) {
            let k = choose|k: int| 0 <= k < spec_path_views(sel@).len() && spec_path_views(sel@)[k] == path@;
            assert(sel@[k]@ == path@);
        }
    }
    false
}

fn selection_without(sel: &Vec<String>, path: &str) -> (r: Vec<String>)
    ensures
        r@ == spec_without_path(sel@, path@),
{
    let mut r: Vec<String> = Vec::new();
    let mut i: usize = 0;
    while i < sel.len()
        invariant
            i <= sel.len(),
            r@ == spec_without_path(sel@.take(i as int), path@),
        decreases sel.len() - i,
    {
        proof {
            assert(sel@.take(i + 1).drop_last() =~= sel@.take(i as int));
        }
        if !str_eq(sel[i].as_str(), path) {
            r.push(sel[i].clone());
        }
        i = i + 1;
    }
    assert(sel@.take(sel.len() as int) =~= sel@);
    r
}

impl AppState {
    pub fn backup_create_choice(&self) -> (r: Option<BackupCreateChoiceState>)
        ensures
            r == self.backup_create_choice,
    {
        self.backup_create_choice
    }

    /// Open the metadata/deep backup chooser for the disk pinned from the device list.
    pub fn begin_backup_create_choice(&mut self) -> (r: bool)
        ensures
            (old(self).critical_operation || old(self).wizard is Some) ==> !r && *final(self) == (
            AppState { notice: final(self).notice, notice_at: final(self).notice_at, ..*old(self) })
                && spec_msg(final(self).notice, "已有关键操作或向导正在执行。"@),
            !(old(self).critical_operation || old(self).wizard is Some) && old(self).spec_selected_device() is None ==> !r && *final(self) == (AppState {
                notice: final(self).notice,
                notice_at: final(self).notice_at,
                ..*old(self)
            }) && spec_msg(
                final(self).notice,
                "创建备份需要先在设备页选定目标 U 盘，再进入备份页。"@,
            ),
            !(old(self).critical_operation || old(self).wizard is Some) && old(self).spec_selected_device() is Some ==> r && *final(self) == (AppState {
                backup_create_choice: Some(BackupCreateChoiceState { selected: 0 }),
                input_mode: InputMode::Normal,
                ..*old(self)
            }),
    {
        if self.critical_operation || self.wizard.is_some() {
            self.set_notice(String::from_str("已有关键操作或向导正在执行。"));
            return false;
        }
        if self.selected_device().is_none() {
            self.set_notice(
                String::from_str("创建备份需要先在设备页选定目标 U 盘，再进入备份页。"),
            );
            return false;
        }
        self.backup_create_choice = Some(BackupCreateChoiceState { selected: 0 });
        self.input_mode = InputMode::Normal;
        true
    }

    /// Move within the two backup choices.
    pub fn move_backup_create_choice(&mut self, delta: isize)
        ensures
            match old(self).backup_create_choice {
                Some(c) => *final(self) == (AppState {
                    backup_create_choice: Some(
                        BackupCreateChoiceState {
                            selected: (if delta < 0 {
                                crate::pane::spec_sat_sub(c.selected, -delta)
                            } else {
                                crate::pane::spec_min(
                                    crate::pane::spec_sat_add(c.selected, delta as int),
                                    1,
                                )
                            }) as usize,
                        },
                    ),
                    ..*old(self)
                }),
                None => *final(self) == *old(self),
            },
    {
        match self.backup_create_choice {
            Some(c) => {
                let selected = if delta < 0 {
                    c.selected.saturating_sub(crate::pane::unsigned_magnitude(delta))
                } else {
                    let up = c.selected.saturating_add(delta as usize);
                    if up <= 1 {
                        up
                    } else {
                        1
                    }
                };
                self.backup_create_choice = Some(BackupCreateChoiceState { selected });
            },
            None => {},
        }
    }

    pub fn take_backup_create_choice(&mut self) -> (r: Option<BackupCreateChoice>)
        ensures
            *final(self) == (AppState { backup_create_choice: None, ..*old(self) }),
            r == match old(self).backup_create_choice {
                Some(c) => Some(c.spec_choice()),
                None => None,
            },
    {
        match self.backup_create_choice.take() {
            Some(c) => Some(c.choice()),
            None => None,
        }
    }

    pub fn cancel_backup_create_choice(&mut self)
        ensures
            *final(self) == (AppState { backup_create_choice: None, ..*old(self) }),
    {
        self.backup_create_choice = None;
    }

    pub fn backup_delete(&self) -> (r: Option<&BackupDeleteState>)
        ensures
            crate::state::spec_opt_ref(r, self.backup_delete),
    {
        self.backup_delete.as_ref()
    }

    pub fn backup_batch_delete(&self) -> (r: Option<&BackupBatchDeleteState>)
        ensures
            crate::state::spec_opt_ref(r, self.backup_batch_delete),
    {
        self.backup_batch_delete.as_ref()
    }

    pub fn backup_selection_count(&self) -> (r: usize)
        ensures
            r == self.backup_selection@.len(),
    {
        self.backup_selection.len()
    }

    pub fn backup_is_selected(&self, path: &str) -> (r: bool)
        ensures
            r == spec_path_views(self.backup_selection@).contains(path@),
    {
        selection_contains(&self.backup_selection, path)
    }

    /// Tick or untick the selected backup for batch deletion (only backups with a digest).
    pub fn toggle_selected_backup(&mut self)
        requires
            old(self).wf(),
        ensures
            final(self).wf(),
            spec_backup_toggled(*old(self), *final(self)),
    {
        let target = self.selected_backup_delete_target();
        let (path, _sha) = match target {
            Some(t) => t,
            None => {
                self.set_notice(
                    String::from_str("当前备份缺少固定 SHA-256，不能加入批量删除选择。"),
                );
                return;
            },
        };
        if selection_contains(&self.backup_selection, path.as_str()) {
            proof {
                lemma_without_path(self.backup_selection@, path@);
            }
            self.backup_selection = selection_without(&self.backup_selection, path.as_str());
        } else {
            proof {
                let v = self.backup_selection@;
                let r = v.push(path);
                assert forall|i: int, j: int| 0 <= i < j < r.len() implies (#[trigger] r[i])@
                    != (#[trigger] r[j])@ by {
                    if j == r.len() - 1 {
                        assert(spec_path_views(v)[i] == r[i]@);
                    }
                }
            }
            self.backup_selection.push(path);
        }
        let mut msg = String::from_str("批量删除已勾选 ");
        let n = u64_decimal(self.backup_selection.len() as u64);
        msg.append(n.as_str());
        msg.append(" 份备份；空格继续选择，d 进入统一删除流程。");
        self.set_notice(msg);
    }

    /// The ticked backups that still have a digest, in list order, as (path, digest).
    pub fn selected_backup_batch_targets(&self) -> (r: Vec<(String, String)>)
        ensures
            r@ == spec_batch_targets(self.backups@, self.backup_selection@),
    {
        let mut r: Vec<(String, String)> = Vec::new();
        let mut i: usize = 0;
        while i < self.backups.len()
            invariant
                i <= self.backups.len(),
                r@ == spec_batch_targets(self.backups@.take(i as int), self.backup_selection@),
            decreases self.backups.len() - i,
        {
            proof {
                assert(self.backups@.take(i + 1).drop_last() =~= self.backups@.take(i as int));
            }
            let row = &self.backups[i];
            if selection_contains(&self.backup_selection, row.path.as_str()) {
                match &row.content_sha256 {
                    Some(h) => {
                        r.push((row.path.clone(), h.clone()));
                    },
                    None => {},
                }
            }
            i = i + 1;
        }
        assert(self.backups@.take(self.backups.len() as int) =~= self.backups@);
        r
    }

    /// Start a batch deletion of the ticked backups; its plan is built in the background.
    pub fn begin_backup_batch_delete(&mut self) -> (r: Option<Vec<(String, String)>>)
        ensures
            spec_batch_delete_begun(*old(self), *final(self), r),
    {
        if self.critical_operation || self.backup_batch_delete.is_some() {
            self.set_notice(String::from_str("已有关键操作或批量删除向导正在执行。"));
            return None;
        }
        let targets = self.selected_backup_batch_targets();
        if targets.len() == 0 {
            self.set_notice(String::from_str("先在备份页按空格勾选至少一份备份。"));
            return None;
        }
        self.input_mode = InputMode::Normal;
        self.backup_batch_delete = Some(
            BackupBatchDeleteState {
                stage: BackupBatchDeleteStage::Planning,
                prepared: None,
                confirmation: String::new(),
                message: Some(
                    String::from_str("正在新鲜扫描并逐项复核 SHA-256，生成固定删除计划…"),
                ),
            },
        );
        Some(targets)
    }

    /// Record the background batch-delete plan: an empty or failed plan ends the flow.
    pub fn backup_batch_delete_finish_plan(&mut self, result: Result<DeletePlan, String>)
        ensures
            spec_batch_plan_finished(*old(self), *final(self), result),
    {
        let mut b = match self.backup_batch_delete.take() {
            Some(b) => b,
            None => return,
        };
        match result {
            Ok(plan) => {
                if plan.targets.len() == 0 {
                    b.stage = BackupBatchDeleteStage::Result;
                    b.message = Some(String::from_str("批量删除计划为空，没有可删除目标。"));
                } else {
                    b.prepared = Some(plan);
                    b.stage = BackupBatchDeleteStage::Review;
                    b.message = None;
                }
            },
            Err(message) => {
                b.stage = BackupBatchDeleteStage::Result;
                b.message = Some(message);
            },
        }
        self.backup_batch_delete = Some(b);
    }

    /// From review, ask for the YES confirmation.
    pub fn backup_batch_delete_begin_confirm(&mut self)
        ensures
            spec_batch_confirm_begun(*old(self), *final(self)),
    {
        match self.backup_batch_delete.take() {
            Some(mut b) => {
                if b.stage == BackupBatchDeleteStage::Review {
                    b.stage = BackupBatchDeleteStage::Confirm;
                    b.confirmation = String::new();
                    b.message = None;
                    self.input_mode = InputMode::Confirm;
                }
                self.backup_batch_delete = Some(b);
            },
            None => {},
        }
    }

    pub fn backup_batch_delete_push_confirmation(&mut self, ch: char)
        ensures
            spec_batch_confirmation_pushed(*old(self), *final(self), ch),
    {
        match self.backup_batch_delete.take() {
            Some(mut b) => {
                if b.stage == BackupBatchDeleteStage::Confirm && b.confirmation.as_str().len()
                    < 16 {
                    string_push(&mut b.confirmation, ch);
                    b.message = None;
                }
                self.backup_batch_delete = Some(b);
            },
            None => {},
        }
    }

    pub fn backup_batch_delete_backspace(&mut self)
        ensures
            spec_batch_confirmation_backspaced(*old(self), *final(self)),
    {
        match self.backup_batch_delete.take() {
            Some(mut b) => {
                if b.stage == BackupBatchDeleteStage::Confirm {
                    let _ = string_pop(&mut b.confirmation);
                    b.message = None;
                }
                self.backup_batch_delete = Some(b);
            },
            None => {},
        }
    }

    /// On an exact YES, hand out the fixed plan and enter the critical phase.
    pub fn backup_batch_delete_take_for_execute(&mut self) -> (r: Option<DeletePlan>)
        ensures
            spec_batch_taken(*old(self), *final(self), r),
    {
        let mut b = match self.backup_batch_delete.take() {
            Some(b) => b,
            None => return None,
        };
        if b.stage != BackupBatchDeleteStage::Confirm {
            self.backup_batch_delete = Some(b);
            return None;
        }
        if !str_eq(b.confirmation.as_str(), "YES") {
            b.message = Some(String::from_str("必须精确输入 YES 才会批量删除备份。"));
            self.backup_batch_delete = Some(b);
            return None;
        }
        let plan = match b.prepared.take() {
            Some(p) => p,
            None => {
                self.backup_batch_delete = Some(b);
                return None;
            },
        };
        b.stage = BackupBatchDeleteStage::Running;
        b.message = Some(String::from_str("正在按固定计划逐条复核并删除…"));
        self.backup_batch_delete = Some(b);
        self.input_mode = InputMode::Normal;
        self.critical_operation = true;
        Some(plan)
    }

    /// Leave the critical phase; a successful batch clears the selection.
    pub fn backup_batch_delete_finish_execute(&mut self, result: Result<usize, String>)
        requires
            old(self).wf(),
                ensures
            final(self).wf(),
            spec_batch_execute_finished(*old(self), *final(self), result),
    {
        self.critical_operation = false;
        let success = result.is_ok();
        match self.backup_batch_delete.take() {
            Some(mut b) => {
                b.stage = BackupBatchDeleteStage::Result;
                b.message = Some(
                    match result {
                        Ok(count) => {
                            let mut m = String::from_str("批量删除完成：已安全删除 ");
                            let n = u64_decimal(count as u64);
                            m.append(n.as_str());
                            m.append(" 份备份。");
                            m
                        },
                        Err(message) => message,
                    },
                );
                self.backup_batch_delete = Some(b);
            },
            None => {},
        }
        if success {
            self.backup_selection = Vec::new();
        }
    }

    /// Close the batch-delete flow unless it is running.
    pub fn close_backup_batch_delete(&mut self)
        ensures
            spec_batch_delete_closed(*old(self), *final(self)),
    {
        if !self.critical_operation {
            self.backup_batch_delete = None;
            self.input_mode = InputMode::Normal;
        }
    }
}


impl AppState {
    pub fn backup_prune(&self) -> (r: Option<&BackupPruneState>)
        ensures
            crate::state::spec_opt_ref(r, self.backup_prune),
    {
        self.backup_prune.as_ref()
    }

    /// The open prune wizard, for in-place changes.
    pub fn backup_prune_mut(&mut self) -> (r: Option<&mut BackupPruneState>)
        ensures
            old(self).backup_prune is None ==> r is None && *final(self) == *old(self),
            old(self).backup_prune is Some ==> (r matches Some(p) && *p == old(self).backup_prune->0
                && *final(self) == (AppState { backup_prune: Some(*final(p)), ..*old(self) })),
    {
        match &mut self.backup_prune {
            Some(p) => Some(p),
            None => None,
        }
    }

    /// Open the prune wizard with the default of keeping 3 backups.
    pub fn begin_backup_prune(&mut self) -> (r: bool)
        ensures
            spec_prune_begun(*old(self), *final(self), r),
    {
        if self.critical_operation || self.backup_prune.is_some() {
            return false;
        }
        self.input_mode = InputMode::Insert;
        self.backup_prune = Some(
            BackupPruneState {
                stage: BackupPruneStage::Input,
                keep_input: String::from_str("3"),
                prepared: None,
                confirmation: String::new(),
                message: None,
            },
        );
        true
    }

    /// Type a digit of the number of backups to keep (at most 6 bytes).
    pub fn backup_prune_push_digit(&mut self, ch: char)
        ensures
            spec_prune_digit_pushed(*old(self), *final(self), ch),
    {
        match self.backup_prune.take() {
            Some(mut p) => {
                if p.stage == BackupPruneStage::Input && '0' <= ch && ch <= '9'
                    && p.keep_input.as_str().len() < 6 {
                    string_push(&mut p.keep_input, ch);
                    p.message = None;
                }
                self.backup_prune = Some(p);
            },
            None => {},
        }
    }

    /// Delete a character of the keep count, or of the confirmation while confirming.
    pub fn backup_prune_backspace(&mut self)
        ensures
            spec_prune_backspaced(*old(self), *final(self)),
    {
        match self.backup_prune.take() {
            Some(mut p) => {
                if p.stage == BackupPruneStage::Input {
                    let _ = string_pop(&mut p.keep_input);
                    p.message = None;
                } else if p.stage == BackupPruneStage::Confirm {
                    let _ = string_pop(&mut p.confirmation);
                    p.message = None;
                }
                self.backup_prune = Some(p);
            },
            None => {},
        }
    }

    /// Validate the keep count and start planning; the count must be a positive integer.
    pub fn backup_prune_start_plan(&mut self) -> (r: Result<usize, String>)
        ensures
            spec_prune_plan_started(*old(self), *final(self), r),
    {
        let mut p = match self.backup_prune.take() {
            Some(p) => p,
            None => return Err(String::from_str("清理向导未打开")),
        };
        let keep = match parse_usize(p.keep_input.as_str()) {
            Some(k) => {
                if k > 0 {
                    k
                } else {
                    self.backup_prune = Some(p);
                    return Err(String::from_str("保留份数必须为大于 0 的整数"));
                }
            },
            None => {
                self.backup_prune = Some(p);
                return Err(String::from_str("保留份数必须为大于 0 的整数"));
            },
        };
        p.stage = BackupPruneStage::Planning;
        p.message = Some(String::from_str("正在后台扫描备份并生成固定清理计划…"));
        self.backup_prune = Some(p);
        self.input_mode = InputMode::Normal;
        Ok(keep)
    }

    /// Record the background prune plan: nothing to prune ends the flow, a failure
    /// returns to the keep-count input.
    pub fn backup_prune_finish_plan(&mut self, result: Result<BackupPrunePrepared, String>)
        ensures
            spec_prune_plan_finished(*old(self), *final(self), result),
    {
        let mut p = match self.backup_prune.take() {
            Some(p) => p,
            None => return,
        };
        match result {
            Ok(prepared) => {
                if prepared.plan.targets.len() == 0 {
                    p.prepared = Some(prepared);
                    p.stage = BackupPruneStage::Result;
                    p.message = Some(String::from_str("无需清理：当前备份已经满足保留策略。"));
                } else {
                    p.prepared = Some(prepared);
                    p.stage = BackupPruneStage::Review;
                    p.message = None;
                }
                self.input_mode = InputMode::Normal;
            },
            Err(message) => {
                p.stage = BackupPruneStage::Input;
                p.message = Some(message);
                self.input_mode = InputMode::Insert;
            },
        }
        self.backup_prune = Some(p);
    }

    pub fn backup_prune_begin_confirm(&mut self)
        ensures
            spec_prune_confirm_begun(*old(self), *final(self)),
    {
        match self.backup_prune.take() {
            Some(mut p) => {
                if p.stage == BackupPruneStage::Review {
                    p.stage = BackupPruneStage::Confirm;
                    p.confirmation = String::new();
                    p.message = None;
                    self.input_mode = InputMode::Confirm;
                }
                self.backup_prune = Some(p);
            },
            None => {},
        }
    }

    pub fn backup_prune_push_confirmation(&mut self, ch: char)
        ensures
            spec_prune_confirmation_pushed(*old(self), *final(self), ch),
    {
        match self.backup_prune.take() {
            Some(mut p) => {
                if p.stage == BackupPruneStage::Confirm && p.confirmation.as_str().len() < 16 {
                    string_push(&mut p.confirmation, ch);
                    p.message = None;
                }
                self.backup_prune = Some(p);
            },
            None => {},
        }
    }

    /// On an exact YES, hand out the prepared prune plan and enter the critical phase.
    pub fn backup_prune_take_for_execute(&mut self) -> (r: Option<BackupPrunePrepared>)
        ensures
            spec_prune_taken(*old(self), *final(self), r),
    {
        let mut p = match self.backup_prune.take() {
            Some(p) => p,
            None => return None,
        };
        if p.stage != BackupPruneStage::Confirm {
            self.backup_prune = Some(p);
            return None;
        }
        if !str_eq(p.confirmation.as_str(), "YES") {
            p.message = Some(String::from_str("必须精确输入 YES 才会删除备份"));
            self.backup_prune = Some(p);
            return None;
        }
        let prepared = match p.prepared.take() {
            Some(x) => x,
            None => {
                self.backup_prune = Some(p);
                return None;
            },
        };
        p.stage = BackupPruneStage::Running;
        p.message = Some(String::from_str("正在逐条复核摘要并清理固定候选…"));
        self.backup_prune = Some(p);
        self.input_mode = InputMode::Normal;
        self.critical_operation = true;
        Some(prepared)
    }

    pub fn backup_prune_finish_execute(&mut self, result: Result<usize, String>)
        ensures
            spec_prune_execute_finished(*old(self), *final(self), result),
    {
        self.critical_operation = false;
        match self.backup_prune.take() {
            Some(mut p) => {
                p.stage = BackupPruneStage::Result;
                p.message = Some(
                    match result {
                        Ok(count) => {
                            let mut m = String::from_str("清理完成：已安全删除 ");
                            let n = u64_decimal(count as u64);
                            m.append(n.as_str());
                            m.append(" 份旧备份。");
                            m
                        },
                        Err(message) => message,
                    },
                );
                self.backup_prune = Some(p);
            },
            None => {},
        }
    }

    pub fn close_backup_prune(&mut self)
        ensures
            spec_prune_closed(*old(self), *final(self)),
    {
        if !self.critical_operation {
            self.backup_prune = None;
            self.input_mode = InputMode::Normal;
        }
    }

    /// Open the YES-confirmation for deleting one backup with a fixed digest.
    pub fn begin_backup_delete(&mut self, path: String, expected_sha256: String) -> (r: bool)
        ensures
            spec_backup_delete_begun(*old(self), *final(self), path, expected_sha256, r),
    {
        if self.critical_operation {
            self.set_notice(String::from_str("关键操作仍在执行，完成前不能启动其他任务。"));
            return false;
        }
        self.input_mode = InputMode::Confirm;
        self.backup_delete = Some(
            BackupDeleteState {
                stage: WizardStage::Confirm,
                path,
                expected_sha256,
                confirmation: String::new(),
                message: None,
            },
        );
        true
    }

    pub fn push_backup_delete_confirmation(&mut self, ch: char)
        ensures
            spec_delete_confirmation_pushed(*old(self), *final(self), ch),
    {
        match self.backup_delete.take() {
            Some(mut d) => {
                if d.stage == WizardStage::Confirm && d.confirmation.as_str().len() < 16 {
                    string_push(&mut d.confirmation, ch);
                    d.message = None;
                }
                self.backup_delete = Some(d);
            },
            None => {},
        }
    }

    pub fn backspace_backup_delete_confirmation(&mut self)
        ensures
            spec_delete_confirmation_backspaced(*old(self), *final(self)),
    {
        match self.backup_delete.take() {
            Some(mut d) => {
                if d.stage == WizardStage::Confirm {
                    let _ = string_pop(&mut d.confirmation);
                    d.message = None;
                }
                self.backup_delete = Some(d);
            },
            None => {},
        }
    }

    /// On an exact YES, hand out (path, digest) and enter the critical phase.
    pub fn submit_backup_delete_confirmation(&mut self) -> (r: Option<(String, String)>)
        ensures
            spec_delete_submitted(*old(self), *final(self), r),
    {
        let mut d = match self.backup_delete.take() {
            Some(d) => d,
            None => return None,
        };
        if d.stage != WizardStage::Confirm {
            self.backup_delete = Some(d);
            return None;
        }
        if !str_eq(d.confirmation.as_str(), "YES") {
            d.message = Some(String::from_str("必须精确输入 YES 才会删除备份"));
            self.backup_delete = Some(d);
            return None;
        }
        d.stage = WizardStage::Running;
        d.message = Some(String::from_str("正在复核文件内容并删除备份…"));
        let out = (d.path.clone(), d.expected_sha256.clone());
        self.backup_delete = Some(d);
        self.input_mode = InputMode::Normal;
        self.critical_operation = true;
        Some(out)
    }

    pub fn finish_backup_delete(&mut self, result: Result<(), String>)
        ensures
            spec_backup_delete_finished(*old(self), *final(self), result),
    {
        self.critical_operation = false;
        match self.backup_delete.take() {
            Some(mut d) => {
                d.stage = WizardStage::Result;
                d.message = Some(
                    match result {
                        Ok(()) => String::from_str("备份已删除；列表已刷新"),
                        Err(message) => message,
                    },
                );
                self.backup_delete = Some(d);
            },
            None => {},
        }
    }
}

/// The batch selection after ticking or unticking `path`: removed when present, added
/// at the end otherwise.
pub open spec fn spec_toggle_selection(sel: Seq<String>, path: String) -> Seq<String> {
    if spec_path_views(sel).contains(path@) {
        spec_without_path(sel, path@)
    } else {
        sel.push(path)
    }
}

/// Toggling a backup flips whether its path is selected and leaves every other path as
/// it was; toggling it twice gives back the same selected paths.
pub proof fn lemma_toggle_twice_restores(sel: Seq<String>, path: String)
    requires
        spec_distinct_paths(sel),
    ensures
        spec_path_views(spec_toggle_selection(sel, path)).contains(path@) != spec_path_views(sel).contains(path@),
        forall|q: Seq<char>| q != path@ ==> (spec_path_views(spec_toggle_selection(sel, path)).contains(q)
            <==> spec_path_views(sel).contains(q)),
        forall|q: Seq<char>|
            spec_path_views(spec_toggle_selection(spec_toggle_selection(sel, path), path)).contains(q)
                <==> spec_path_views(sel).contains(q),
{
    let once = spec_toggle_selection(sel, path);
    lemma_toggle_step(sel, path);
    lemma_toggle_step(once, path);
}

/// The selected backup row can be ticked for batch deletion: it exists and has a digest.
pub open spec fn spec_toggle_applies(s: AppState) -> bool {
    s.spec_selected_backup() matches Some(row) && row.content_sha256 is Some
}

/// Pressing the batch-selection key twice on the same backup row gives back the selected
/// paths from before: one press flips whether that backup is selected and leaves the
/// others alone, the second flips it back. Where the row has no digest, neither press
/// touches the selection.
pub proof fn lemma_toggle_call_twice_restores(s0: AppState, s1: AppState, s2: AppState)
    requires
        s0.wf(),
        spec_backup_toggled(s0, s1),
        spec_backup_toggled(s1, s2),
    ensures
        forall|q: Seq<char>|
            spec_path_views(s2.backup_selection@).contains(q) <==> spec_path_views(
                s0.backup_selection@,
            ).contains(q),
        s1.spec_selected_backup() == s0.spec_selected_backup(),
        spec_toggle_applies(s0) ==> spec_path_views(s1.backup_selection@).contains(
            s0.spec_selected_backup()->0.path@,
        ) != spec_path_views(s0.backup_selection@).contains(s0.spec_selected_backup()->0.path@),
        spec_toggle_applies(s0) ==> forall|q: Seq<char>|
            q != s0.spec_selected_backup()->0.path@ ==> (spec_path_views(
                s1.backup_selection@,
            ).contains(q) <==> spec_path_views(s0.backup_selection@).contains(q)),
        !spec_toggle_applies(s0) ==> s2.backup_selection == s0.backup_selection,
{
    assert(s1.spec_selected_backup() == s0.spec_selected_backup());
    if spec_toggle_applies(s0) {
        lemma_toggle_twice_restores(s0.backup_selection@, s0.spec_selected_backup()->0.path);
    }
}

proof fn lemma_toggle_step(sel: Seq<String>, path: String)
    requires
        spec_distinct_paths(sel),
    ensures
        spec_distinct_paths(spec_toggle_selection(sel, path)),
        spec_path_views(spec_toggle_selection(sel, path)).contains(path@) != spec_path_views(sel).contains(path@),
        forall|q: Seq<char>| q != path@ ==> (spec_path_views(spec_toggle_selection(sel, path)).contains(q)
            <==> spec_path_views(sel).contains(q)),
{
    if spec_path_views(sel).contains(path@) {
        lemma_without_path(sel, path@);
    } else {
        let r = sel.push(path);
        assert(spec_path_views(r) =~= spec_path_views(sel).push(path@));
        assert(spec_path_views(r)[sel.len() as int] == path@);
        assert forall|i: int, j: int| 0 <= i < j < r.len() implies (#[trigger] r[i])@ != (#[trigger] r[j])@ by {
            if j == r.len() - 1 {
                assert(spec_path_views(sel)[i] == r[i]@);
            } else {
                assert(r[i] == sel[i] && r[j] == sel[j]);
            }
        }
        assert forall|q: Seq<char>| q != path@ implies (spec_path_views(r).contains(q)
            <==> spec_path_views(sel).contains(q)) by {
            if spec_path_views(r).contains(q) {
                let k = choose|k: int| 0 <= k < spec_path_views(r).len() && spec_path_views(r)[k] == q;
                assert(k < sel.len());
                assert(spec_path_views(sel)[k] == q);
            }
            if spec_path_views(sel).contains(q) {
                let k = choose|k: int| 0 <= k < spec_path_views(sel).len() && spec_path_views(sel)[k] == q;
                assert(spec_path_views(r)[k] == q);
            }
        }
    }
}

/// `new` is `old` after a single-backup delete task reported `result`.
pub open spec fn spec_backup_delete_finished(old: AppState, new: AppState, result: Result<(), String>) -> bool {
    &&& !new.critical_operation
    &&& new == (AppState {
        critical_operation: false,
        backup_delete: new.backup_delete,
        ..old
    })
    &&& match old.backup_delete {
        None => new.backup_delete is None,
        Some(d) => new.backup_delete matches Some(fd) && fd == (BackupDeleteState {
            stage: WizardStage::Result,
            message: fd.message,
            ..d
        }) && match result {
            Ok(_) => spec_msg(fd.message, "备份已删除；列表已刷新"@),
            Err(m) => fd.message == Some(m),
        },
    }
}

/// `new` is `old` after a batch-delete planning task reported `result`.
pub open spec fn spec_batch_plan_finished(old: AppState, new: AppState, result: Result<DeletePlan, String>) -> bool {
    &&& match old.backup_batch_delete {
        None => new == old,
        Some(b) => {
            &&& new == (AppState {
                backup_batch_delete: new.backup_batch_delete,
                ..old
            })
            &&& new.backup_batch_delete matches Some(fb)
            &&& match result {
                Ok(plan) => if plan.targets@.len() == 0 {
                    fb == (BackupBatchDeleteState {
                        stage: BackupBatchDeleteStage::Result,
                        message: fb.message,
                        ..b
                    }) && spec_msg(fb.message, "批量删除计划为空，没有可删除目标。"@)
                } else {
                    fb == (BackupBatchDeleteState {
                        prepared: Some(plan),
                        stage: BackupBatchDeleteStage::Review,
                        message: None,
                        ..b
                    })
                },
                Err(m) => fb == (BackupBatchDeleteState {
                    stage: BackupBatchDeleteStage::Result,
                    message: Some(m),
                    ..b
                }),
            }
        },
    }
}

/// `new` is `old` after a batch-delete task reported `result`.
pub open spec fn spec_batch_execute_finished(old: AppState, new: AppState, result: Result<usize, String>) -> bool {
    &&& !new.critical_operation
    &&& result is Ok ==> new.backup_selection@.len() == 0
    &&& result is Err ==> new.backup_selection == old.backup_selection
    &&& new == (AppState {
        critical_operation: false,
        backup_batch_delete: new.backup_batch_delete,
        backup_selection: new.backup_selection,
        ..old
    })
    &&& match old.backup_batch_delete {
        None => new.backup_batch_delete is None,
        Some(b) => new.backup_batch_delete matches Some(fb) && fb == (
        BackupBatchDeleteState {
            stage: BackupBatchDeleteStage::Result,
            message: fb.message,
            ..b
        }) && match result {
            Ok(count) => spec_msg(
                fb.message,
                "批量删除完成：已安全删除 "@ + spec_decimal(count as nat) + " 份备份。"@,
            ),
            Err(m) => fb.message == Some(m),
        },
    }
}

/// `new` is `old` after a prune planning task reported `result`.
pub open spec fn spec_prune_plan_finished(old: AppState, new: AppState, result: Result<BackupPrunePrepared, String>) -> bool {
    &&& match old.backup_prune {
        None => new == old,
        Some(p) => new.backup_prune matches Some(fp) && match result {
            Ok(prepared) => if prepared.plan.targets@.len() == 0 {
                fp == (BackupPruneState {
                    prepared: Some(prepared),
                    stage: BackupPruneStage::Result,
                    message: fp.message,
                    ..p
                }) && spec_msg(fp.message, "无需清理：当前备份已经满足保留策略。"@)
                    && new == (AppState {
                    backup_prune: new.backup_prune,
                    input_mode: InputMode::Normal,
                    ..old
                })
            } else {
                fp == (BackupPruneState {
                    prepared: Some(prepared),
                    stage: BackupPruneStage::Review,
                    message: None,
                    ..p
                }) && new == (AppState {
                    backup_prune: new.backup_prune,
                    input_mode: InputMode::Normal,
                    ..old
                })
            },
            Err(m) => fp == (BackupPruneState {
                stage: BackupPruneStage::Input,
                message: Some(m),
                ..p
            }) && new == (AppState {
                backup_prune: new.backup_prune,
                input_mode: InputMode::Insert,
                ..old
            }),
        },
    }
}

/// `new` is `old` after a prune task reported `result`.
pub open spec fn spec_prune_execute_finished(old: AppState, new: AppState, result: Result<usize, String>) -> bool {
    &&& !new.critical_operation
    &&& new == (AppState {
        critical_operation: false,
        backup_prune: new.backup_prune,
        ..old
    })
    &&& match old.backup_prune {
        None => new.backup_prune is None,
        Some(p) => new.backup_prune matches Some(fp) && fp == (BackupPruneState {
            stage: BackupPruneStage::Result,
            message: fp.message,
            ..p
        }) && match result {
            Ok(count) => spec_msg(
                fp.message,
                "清理完成：已安全删除 "@ + spec_decimal(count as nat) + " 份旧备份。"@,
            ),
            Err(m) => fp.message == Some(m),
        },
    }
}

/// `new` is `old` after the single-backup delete confirmation was asked to open; `r` says whether it opened.
pub open spec fn spec_backup_delete_begun(old: AppState, new: AppState, path: String, expected_sha256: String, r: bool) -> bool {
    &&& old.critical_operation ==> !r && new == (AppState {
        notice: new.notice,
        notice_at: new.notice_at,
        ..old
    }) && spec_msg(new.notice, "关键操作仍在执行，完成前不能启动其他任务。"@)
    &&& !old.critical_operation ==> r && new == (AppState {
        input_mode: InputMode::Confirm,
        backup_delete: new.backup_delete,
        ..old
    }) && (new.backup_delete matches Some(d) && d.stage
        == crate::state::WizardStage::Confirm && d.path == path && d.expected_sha256
        == expected_sha256 && d.confirmation@.len() == 0 && d.message is None)
}

/// `new` is `old` after the selected backup was ticked or unticked for batch deletion.
pub open spec fn spec_backup_toggled(old: AppState, new: AppState) -> bool {
    &&& old.spec_selected_backup() is None || old.spec_selected_backup()->0.content_sha256 is None ==> new == (AppState {
        notice: new.notice,
        notice_at: new.notice_at,
        ..old
    }) && spec_msg(
        new.notice,
        "当前备份缺少固定 SHA-256，不能加入批量删除选择。"@,
    )
    &&& (old.spec_selected_backup() matches Some(row) && row.content_sha256 is Some)
        ==> {
        let path = old.spec_selected_backup()->0.path;
        &&& new.backup_selection@ == spec_toggle_selection(old.backup_selection@, path)
        &&& new == (AppState {
            backup_selection: new.backup_selection,
            notice: new.notice,
            notice_at: new.notice_at,
            ..old
        })
        &&& spec_msg(
            new.notice,
            "批量删除已勾选 "@ + spec_decimal(new.backup_selection@.len())
                + " 份备份；空格继续选择，d 进入统一删除流程。"@,
        )
    }
}

/// `new` is `old` after a batch deletion was asked to start; `r` holds its targets when it started.
pub open spec fn spec_batch_delete_begun(old: AppState, new: AppState, r: Option<Vec<(String, String)>>) -> bool {
    &&& (old.critical_operation || old.backup_batch_delete is Some) ==> r is None
        && new == (AppState {
        notice: new.notice,
        notice_at: new.notice_at,
        ..old
    }) && spec_msg(new.notice, "已有关键操作或批量删除向导正在执行。"@)
    &&& !(old.critical_operation || old.backup_batch_delete is Some) && spec_batch_targets(
        old.backups@,
        old.backup_selection@,
    ).len() == 0 ==> r is None && new == (AppState {
        notice: new.notice,
        notice_at: new.notice_at,
        ..old
    }) && spec_msg(new.notice, "先在备份页按空格勾选至少一份备份。"@)
    &&& !(old.critical_operation || old.backup_batch_delete is Some) && spec_batch_targets(
        old.backups@,
        old.backup_selection@,
    ).len() > 0 ==> (r matches Some(t) && t@ == spec_batch_targets(
        old.backups@,
        old.backup_selection@,
    )) && new == (AppState {
        input_mode: InputMode::Normal,
        backup_batch_delete: new.backup_batch_delete,
        ..old
    }) && (new.backup_batch_delete matches Some(b) && b.stage
        == BackupBatchDeleteStage::Planning && b.prepared is None && b.confirmation@.len()
        == 0 && spec_msg(
        b.message,
        "正在新鲜扫描并逐项复核 SHA-256，生成固定删除计划…"@,
    ))
}

/// `new` is `old` after the prune wizard was asked to open; `r` says whether it opened.
pub open spec fn spec_prune_begun(old: AppState, new: AppState, r: bool) -> bool {
    &&& (old.critical_operation || old.backup_prune is Some) ==> !r && new
        == old
    &&& !(old.critical_operation || old.backup_prune is Some) ==> r && new
        == (AppState {
        input_mode: InputMode::Insert,
        backup_prune: new.backup_prune,
        ..old
    }) && (new.backup_prune matches Some(p) && p.stage == BackupPruneStage::Input
        && p.keep_input@ == "3"@ && p.prepared is None && p.confirmation@.len() == 0
        && p.message is None)
}

/// `new` is `old` after Enter on the batch-delete plan review.
pub open spec fn spec_batch_confirm_begun(old: AppState, new: AppState) -> bool {
    &&& match old.backup_batch_delete {
        Some(b) => if b.stage == BackupBatchDeleteStage::Review {
            &&& new == (AppState {
                backup_batch_delete: new.backup_batch_delete,
                input_mode: InputMode::Confirm,
                ..old
            })
            &&& new.backup_batch_delete matches Some(fb)
            &&& fb.confirmation@.len() == 0
            &&& fb == (BackupBatchDeleteState {
                stage: BackupBatchDeleteStage::Confirm,
                confirmation: fb.confirmation,
                message: None,
                ..b
            })
        } else {
            new == old
        },
        None => new == old,
    }
}

/// `new` is `old` after the batch-delete wizard was asked to close.
pub open spec fn spec_batch_delete_closed(old: AppState, new: AppState) -> bool {
    &&& old.critical_operation ==> new == old
    &&& !old.critical_operation ==> new == (AppState {
        backup_batch_delete: None,
        input_mode: InputMode::Normal,
        ..old
    })
}

/// `new` is `old` after `ch` was typed into the batch-delete confirmation.
pub open spec fn spec_batch_confirmation_pushed(old: AppState, new: AppState, ch: char) -> bool {
    &&& match old.backup_batch_delete {
        Some(b) => if b.stage == BackupBatchDeleteStage::Confirm && spec_byte_len(
            b.confirmation@,
        ) < 16 {
            &&& new == (AppState {
                backup_batch_delete: new.backup_batch_delete,
                ..old
            })
            &&& new.backup_batch_delete matches Some(fb)
            &&& fb.confirmation@ == b.confirmation@.push(ch)
            &&& fb == (BackupBatchDeleteState {
                confirmation: fb.confirmation,
                message: None,
                ..b
            })
        } else {
            new == old
        },
        None => new == old,
    }
}

/// `new` is `old` after Backspace in the batch-delete confirmation.
pub open spec fn spec_batch_confirmation_backspaced(old: AppState, new: AppState) -> bool {
    &&& match old.backup_batch_delete {
        Some(b) => if b.stage == BackupBatchDeleteStage::Confirm {
            &&& new == (AppState {
                backup_batch_delete: new.backup_batch_delete,
                ..old
            })
            &&& new.backup_batch_delete matches Some(fb)
            &&& fb.confirmation@ == (if b.confirmation@.len() > 0 {
                b.confirmation@.drop_last()
            } else {
                b.confirmation@
            })
            &&& fb == (BackupBatchDeleteState {
                confirmation: fb.confirmation,
                message: None,
                ..b
            })
        } else {
            new == old
        },
        None => new == old,
    }
}

/// `new` is `old` after the confirmed batch-delete plan was taken for execution; `r` is that plan.
pub open spec fn spec_batch_taken(old: AppState, new: AppState, r: Option<DeletePlan>) -> bool {
    &&& match old.backup_batch_delete {
        None => r is None && new == old,
        Some(b) => if b.stage != BackupBatchDeleteStage::Confirm {
            r is None && new == old
        } else if b.confirmation@ != "YES"@ {
            &&& r is None
            &&& new == (AppState {
                backup_batch_delete: new.backup_batch_delete,
                ..old
            })
            &&& new.backup_batch_delete matches Some(fb)
            &&& fb == (BackupBatchDeleteState { message: fb.message, ..b })
            &&& spec_msg(fb.message, "必须精确输入 YES 才会批量删除备份。"@)
        } else if b.prepared is None {
            r is None && new == old
        } else {
            &&& r == b.prepared
            &&& new == (AppState {
                backup_batch_delete: new.backup_batch_delete,
                input_mode: InputMode::Normal,
                critical_operation: true,
                ..old
            })
            &&& new.backup_batch_delete matches Some(fb)
            &&& fb == (BackupBatchDeleteState {
                prepared: None,
                stage: BackupBatchDeleteStage::Running,
                message: fb.message,
                ..b
            })
            &&& spec_msg(fb.message, "正在按固定计划逐条复核并删除…"@)
        },
    }
}

/// `new` is `old` after `ch` was typed into the prune keep count.
pub open spec fn spec_prune_digit_pushed(old: AppState, new: AppState, ch: char) -> bool {
    &&& match old.backup_prune {
        Some(p) => if p.stage == BackupPruneStage::Input && spec_is_ascii_digit(ch)
            && spec_byte_len(p.keep_input@) < 6 {
            &&& new == (AppState { backup_prune: new.backup_prune, ..old })
            &&& new.backup_prune matches Some(fp)
            &&& fp.keep_input@ == p.keep_input@.push(ch)
            &&& fp == (BackupPruneState { keep_input: fp.keep_input, message: None, ..p })
        } else {
            new == old
        },
        None => new == old,
    }
}

/// `new` is `old` after Backspace in the prune wizard.
pub open spec fn spec_prune_backspaced(old: AppState, new: AppState) -> bool {
    &&& match old.backup_prune {
        Some(p) => if p.stage == BackupPruneStage::Input {
            &&& new == (AppState { backup_prune: new.backup_prune, ..old })
            &&& new.backup_prune matches Some(fp)
            &&& fp.keep_input@ == (if p.keep_input@.len() > 0 {
                p.keep_input@.drop_last()
            } else {
                p.keep_input@
            })
            &&& fp == (BackupPruneState { keep_input: fp.keep_input, message: None, ..p })
        } else if p.stage == BackupPruneStage::Confirm {
            &&& new == (AppState { backup_prune: new.backup_prune, ..old })
            &&& new.backup_prune matches Some(fp)
            &&& fp.confirmation@ == (if p.confirmation@.len() > 0 {
                p.confirmation@.drop_last()
            } else {
                p.confirmation@
            })
            &&& fp == (BackupPruneState {
                confirmation: fp.confirmation,
                message: None,
                ..p
            })
        } else {
            new == old
        },
        None => new == old,
    }
}

/// `new` is `old` after Enter on the prune keep count; `r` is the count or the problem with it.
pub open spec fn spec_prune_plan_started(old: AppState, new: AppState, r: Result<usize, String>) -> bool {
    &&& old.backup_prune is None ==> (r matches Err(e) && e@ == "清理向导未打开"@)
        && new == old
    &&& (old.backup_prune matches Some(p) && !(spec_parse_usize(p.keep_input@) matches Some(
        k,
    ) && k > 0)) ==> (r matches Err(e) && e@ == "保留份数必须为大于 0 的整数"@)
        && new == old
    &&& (old.backup_prune matches Some(p) && spec_parse_usize(p.keep_input@) matches Some(
        k,
    ) && k > 0) ==> r == Ok::<usize, String>(spec_parse_usize(
        old.backup_prune->0.keep_input@,
    )->0) && new == (AppState {
        backup_prune: new.backup_prune,
        input_mode: InputMode::Normal,
        ..old
    }) && (new.backup_prune matches Some(fp) && fp == (BackupPruneState {
        stage: BackupPruneStage::Planning,
        message: fp.message,
        ..old.backup_prune->0
    }) && spec_msg(fp.message, "正在后台扫描备份并生成固定清理计划…"@))
}

/// `new` is `old` after the prune wizard was asked to close.
pub open spec fn spec_prune_closed(old: AppState, new: AppState) -> bool {
    &&& old.critical_operation ==> new == old
    &&& !old.critical_operation ==> new == (AppState {
        backup_prune: None,
        input_mode: InputMode::Normal,
        ..old
    })
}

/// `new` is `old` after Enter on the prune plan review.
pub open spec fn spec_prune_confirm_begun(old: AppState, new: AppState) -> bool {
    &&& match old.backup_prune {
        Some(p) => if p.stage == BackupPruneStage::Review {
            &&& new == (AppState {
                backup_prune: new.backup_prune,
                input_mode: InputMode::Confirm,
                ..old
            })
            &&& new.backup_prune matches Some(fp)
            &&& fp.confirmation@.len() == 0
            &&& fp == (BackupPruneState {
                stage: BackupPruneStage::Confirm,
                confirmation: fp.confirmation,
                message: None,
                ..p
            })
        } else {
            new == old
        },
        None => new == old,
    }
}

/// `new` is `old` after `ch` was typed into the prune confirmation.
pub open spec fn spec_prune_confirmation_pushed(old: AppState, new: AppState, ch: char) -> bool {
    &&& match old.backup_prune {
        Some(p) => if p.stage == BackupPruneStage::Confirm && spec_byte_len(p.confirmation@)
            < 16 {
            &&& new == (AppState { backup_prune: new.backup_prune, ..old })
            &&& new.backup_prune matches Some(fp)
            &&& fp.confirmation@ == p.confirmation@.push(ch)
            &&& fp == (BackupPruneState {
                confirmation: fp.confirmation,
                message: None,
                ..p
            })
        } else {
            new == old
        },
        None => new == old,
    }
}

/// `new` is `old` after the confirmed prune plan was taken for execution; `r` is that plan.
pub open spec fn spec_prune_taken(old: AppState, new: AppState, r: Option<BackupPrunePrepared>) -> bool {
    &&& match old.backup_prune {
        None => r is None && new == old,
        Some(p) => if p.stage != BackupPruneStage::Confirm {
            r is None && new == old
        } else if p.confirmation@ != "YES"@ {
            &&& r is None
            &&& new == (AppState { backup_prune: new.backup_prune, ..old })
            &&& new.backup_prune matches Some(fp)
            &&& fp == (BackupPruneState { message: fp.message, ..p })
            &&& spec_msg(fp.message, "必须精确输入 YES 才会删除备份"@)
        } else if p.prepared is None {
            r is None && new == old
        } else {
            &&& r == p.prepared
            &&& new == (AppState {
                backup_prune: new.backup_prune,
                input_mode: InputMode::Normal,
                critical_operation: true,
                ..old
            })
            &&& new.backup_prune matches Some(fp)
            &&& fp == (BackupPruneState {
                prepared: None,
                stage: BackupPruneStage::Running,
                message: fp.message,
                ..p
            })
            &&& spec_msg(fp.message, "正在逐条复核摘要并清理固定候选…"@)
        },
    }
}

/// `new` is `old` after `ch` was typed into the delete confirmation.
pub open spec fn spec_delete_confirmation_pushed(old: AppState, new: AppState, ch: char) -> bool {
    &&& match old.backup_delete {
        Some(d) => if d.stage == WizardStage::Confirm && spec_byte_len(d.confirmation@) < 16 {
            &&& new == (AppState { backup_delete: new.backup_delete, ..old })
            &&& new.backup_delete matches Some(fd)
            &&& fd.confirmation@ == d.confirmation@.push(ch)
            &&& fd == (BackupDeleteState {
                confirmation: fd.confirmation,
                message: None,
                ..d
            })
        } else {
            new == old
        },
        None => new == old,
    }
}

/// `new` is `old` after Backspace in the delete confirmation.
pub open spec fn spec_delete_confirmation_backspaced(old: AppState, new: AppState) -> bool {
    &&& match old.backup_delete {
        Some(d) => if d.stage == WizardStage::Confirm {
            &&& new == (AppState { backup_delete: new.backup_delete, ..old })
            &&& new.backup_delete matches Some(fd)
            &&& fd.confirmation@ == (if d.confirmation@.len() > 0 {
                d.confirmation@.drop_last()
            } else {
                d.confirmation@
            })
            &&& fd == (BackupDeleteState {
                confirmation: fd.confirmation,
                message: None,
                ..d
            })
        } else {
            new == old
        },
        None => new == old,
    }
}

/// `new` is `old` after Enter on the delete confirmation; `r` is the confirmed target.
pub open spec fn spec_delete_submitted(old: AppState, new: AppState, r: Option<(String, String)>) -> bool {
    &&& match old.backup_delete {
        None => r is None && new == old,
        Some(d) => if d.stage != WizardStage::Confirm {
            r is None && new == old
        } else if d.confirmation@ != "YES"@ {
            &&& r is None
            &&& new == (AppState { backup_delete: new.backup_delete, ..old })
            &&& new.backup_delete matches Some(fd)
            &&& fd == (BackupDeleteState { message: fd.message, ..d })
            &&& spec_msg(fd.message, "必须精确输入 YES 才会删除备份"@)
        } else {
            &&& r == Some((d.path, d.expected_sha256))
            &&& new == (AppState {
                backup_delete: new.backup_delete,
                input_mode: InputMode::Normal,
                critical_operation: true,
                ..old
            })
            &&& new.backup_delete matches Some(fd)
            &&& fd == (BackupDeleteState {
                stage: WizardStage::Running,
                message: fd.message,
                ..d
            })
            &&& spec_msg(fd.message, "正在复核文件内容并删除备份…"@)
        },
    }
}

} // verus!
