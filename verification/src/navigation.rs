//! Return targets and selection snapshots for nested workspaces.

use vstd::prelude::*;
use crate::inspect::AdvancedInspectPanel;
use crate::pane::PaneFocus;
use crate::state::Workspace;
use crate::table_layout::TableKind;
use crate::text::concat;

verus! {

#[derive(Debug, Clone, Copy, PartialEq, Eq, Structural)]
pub enum NavigationLocation {
    Devices,
    Backups,
    Provision,
    Inspect,
    SectorInspector,
}

pub open spec fn spec_location_label(l: NavigationLocation) -> Seq<char> {
    match l {
        NavigationLocation::Devices => "设备列表"@,
        NavigationLocation::Backups => "备份列表"@,
        NavigationLocation::Provision => "制盘"@,
        NavigationLocation::Inspect => "Inspect"@,
        NavigationLocation::SectorInspector => "Sector Inspector"@,
    }
}

pub open spec fn spec_location_of(w: Workspace) -> NavigationLocation {
    match w {
        Workspace::Devices => NavigationLocation::Devices,
        Workspace::Backups => NavigationLocation::Backups,
        Workspace::Provision => NavigationLocation::Provision,
    }
}

impl NavigationLocation {
    pub fn label(self) -> (r: &'static str)
        ensures
            r@ == spec_location_label(self),
    {
        match self {
            NavigationLocation::Devices => "设备列表",
            NavigationLocation::Backups => "备份列表",
            NavigationLocation::Provision => "制盘",
            NavigationLocation::Inspect => "Inspect",
            NavigationLocation::SectorInspector => "Sector Inspector",
        }
    }

    pub fn from_workspace(workspace: Workspace) -> (r: Self)
        ensures
            r == spec_location_of(workspace),
    {
        match workspace {
            Workspace::Devices => NavigationLocation::Devices,
            Workspace::Backups => NavigationLocation::Backups,
            Workspace::Provision => NavigationLocation::Provision,
        }
    }
}

/// What to restore when returning to a location.
#[derive(Debug, Clone)]
pub struct NavigationFrame {
    pub location: NavigationLocation,
    pub selection: usize,
    pub item_count: usize,
    pub panel: Option<AdvancedInspectPanel>,
    pub tree_selection: usize,
    pub pane_focus: Option<PaneFocus>,
    pub table_scroll: Option<(TableKind, usize)>,
}

/// Stack of frames to return to, most recent last.
#[derive(Debug, Default, Clone)]
pub struct NavigationStack {
    frames: Vec<NavigationFrame>,
}

impl NavigationStack {
    pub closed spec fn spec_frames(&self) -> Seq<NavigationFrame> {
        self.frames@
    }

    pub fn new() -> (r: Self)
        ensures
            r.spec_frames().len() == 0,
    {
        NavigationStack { frames: Vec::new() }
    }

    pub fn push(&mut self, frame: NavigationFrame)
        ensures
            final(self).spec_frames() == old(self).spec_frames().push(frame),
    {
        self.frames.push(frame);
    }

    pub fn pop(&mut self) -> (r: Option<NavigationFrame>)
        ensures
            old(self).spec_frames().len() == 0 ==> r is None && *final(self) == *old(self),
            old(self).spec_frames().len() > 0 ==> r == Some(old(self).spec_frames().last())
                && final(self).spec_frames() == old(self).spec_frames().drop_last(),
    {
        if self.frames.len() == 0 {
            None
        } else {
            self.frames.pop()
        }
    }

    pub fn back_target(&self) -> (r: Option<NavigationLocation>)
        ensures
            self.spec_frames().len() == 0 ==> r is None,
            self.spec_frames().len() > 0 ==> r == Some(self.spec_frames().last().location),
    {
        if self.frames.len() == 0 {
            None
        } else {
            Some(self.frames[self.frames.len() - 1].location)
        }
    }

    pub fn depth(&self) -> (r: usize)
        ensures
            r == self.spec_frames().len(),
    {
        self.frames.len()
    }
}

/// A pushed frame is what the next pop hands back, leaving the stack as it was.
pub proof fn lemma_push_then_pop(before: Seq<NavigationFrame>, frame: NavigationFrame)
    ensures
        before.push(frame).last() == frame,
        before.push(frame).drop_last() == before,
{
    assert(before.push(frame).drop_last() =~= before);
}

#[derive(Debug, Clone)]
pub struct BreadcrumbModel {
    pub path: Vec<String>,
    pub back_target: Option<NavigationLocation>,
}

/// The path segments joined by `" > "`.
pub open spec fn spec_join_path(parts: Seq<Seq<char>>) -> Seq<char>
    decreases parts.len(),
{
    if parts.len() == 0 {
        Seq::empty()
    } else if parts.len() == 1 {
        parts[0]
    } else {
        spec_join_path(parts.drop_last()) + " > "@ + parts.last()
    }
}

pub open spec fn spec_path_views(path: Seq<String>) -> Seq<Seq<char>> {
    path.map_values(|s: String| s@)
}

impl BreadcrumbModel {
    pub fn display(&self) -> (r: String)
        ensures
            r@ == spec_join_path(spec_path_views(self.path@)),
    {
        let mut out = String::new();
        let mut i: usize = 0;
        while i < self.path.len()
            invariant
                i <= self.path.len(),
                out@ == spec_join_path(spec_path_views(self.path@.take(i as int))),
            decreases self.path.len() - i,
        {
            proof {
                let prev = spec_path_views(self.path@.take(i as int));
                let next = spec_path_views(self.path@.take(i + 1));
                assert(next.drop_last() =~= prev);
                assert(next.last() == self.path@[i as int]@);
            }
            if i > 0 {
                out.append(" > ");
            }
            out.append(self.path[i].as_str());
            i = i + 1;
            proof {
                if i == 1 {
                    assert(spec_path_views(self.path@.take(1)).len() == 1);
                    assert(out@ =~= spec_join_path(spec_path_views(self.path@.take(1))));
                }
            }
        }
        assert(self.path@.take(self.path.len() as int) =~= self.path@);
        out
    }

    pub fn escape_hint(&self) -> (r: String)
        ensures
            self.back_target matches Some(t) ==> r@ == "Esc 返回："@ + spec_location_label(t),
            self.back_target is None ==> r@ == "Esc 返回：当前页"@,
    {
        match self.back_target {
            Some(target) => concat("Esc 返回：", target.label()),
            None => String::from_str("Esc 返回：当前页"),
        }
    }
}

} // verus!
