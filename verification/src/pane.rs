//! Focused-pane state and vertical viewport primitives for multi-pane workspaces.

use vstd::prelude::*;

verus! {

#[derive(Debug, Clone, Copy, PartialEq, Eq, Structural)]
pub enum PaneId {
    InspectDiskLayout,
    InspectTree,
    InspectOverview,
    InspectDetail,
    ProvisionParameters,
    ProvisionDiskLayout,
    ProvisionSummary,
    ProvisionChanges,
}

/// Number of distinct panes.
pub const PANE_COUNT: usize = 8;

pub open spec fn spec_pane_slot(p: PaneId) -> int {
    match p {
        PaneId::InspectDiskLayout => 0,
        PaneId::InspectTree => 1,
        PaneId::InspectOverview => 2,
        PaneId::InspectDetail => 3,
        PaneId::ProvisionParameters => 4,
        PaneId::ProvisionDiskLayout => 5,
        PaneId::ProvisionSummary => 6,
        PaneId::ProvisionChanges => 7,
    }
}

pub open spec fn spec_is_inspect(p: PaneId) -> bool {
    p is InspectDiskLayout || p is InspectTree || p is InspectOverview || p is InspectDetail
}

pub open spec fn spec_inspect_order() -> Seq<PaneId> {
    seq![
        PaneId::InspectDiskLayout,
        PaneId::InspectTree,
        PaneId::InspectOverview,
        PaneId::InspectDetail,
    ]
}

pub open spec fn spec_provision_form_order() -> Seq<PaneId> {
    seq![PaneId::ProvisionParameters, PaneId::ProvisionDiskLayout]
}

pub open spec fn spec_provision_review_order() -> Seq<PaneId> {
    seq![PaneId::ProvisionSummary, PaneId::ProvisionDiskLayout, PaneId::ProvisionChanges]
}

impl PaneId {
    pub fn slot(self) -> (r: usize)
        ensures
            r == spec_pane_slot(self),
            r < PANE_COUNT,
    {
        match self {
            PaneId::InspectDiskLayout => 0,
            PaneId::InspectTree => 1,
            PaneId::InspectOverview => 2,
            PaneId::InspectDetail => 3,
            PaneId::ProvisionParameters => 4,
            PaneId::ProvisionDiskLayout => 5,
            PaneId::ProvisionSummary => 6,
            PaneId::ProvisionChanges => 7,
        }
    }

    pub fn is_inspect(self) -> (r: bool)
        ensures
            r == spec_is_inspect(self),
    {
        match self {
            PaneId::InspectDiskLayout | PaneId::InspectTree | PaneId::InspectOverview
            | PaneId::InspectDetail => true,
            _ => false,
        }
    }

    pub fn is_provision(self) -> (r: bool)
        ensures
            r == !spec_is_inspect(self),
    {
        !self.is_inspect()
    }

    /// The four Inspect panes in cycling order.
    pub fn inspect_order() -> (r: Vec<PaneId>)
        ensures
            r@ == spec_inspect_order(),
    {
        let r = vec![
            PaneId::InspectDiskLayout,
            PaneId::InspectTree,
            PaneId::InspectOverview,
            PaneId::InspectDetail,
        ];
        assert(r@ =~= spec_inspect_order());
        r
    }

    /// The Provision form panes in cycling order.
    pub fn provision_form_order() -> (r: Vec<PaneId>)
        ensures
            r@ == spec_provision_form_order(),
    {
        let r = vec![PaneId::ProvisionParameters, PaneId::ProvisionDiskLayout];
        assert(r@ =~= spec_provision_form_order());
        r
    }

    /// The Provision review panes in cycling order.
    pub fn provision_review_order() -> (r: Vec<PaneId>)
        ensures
            r@ == spec_provision_review_order(),
    {
        let r = vec![
            PaneId::ProvisionSummary,
            PaneId::ProvisionDiskLayout,
            PaneId::ProvisionChanges,
        ];
        assert(r@ =~= spec_provision_review_order());
        r
    }
}

pub proof fn lemma_pane_slot_injective(a: PaneId, b: PaneId)
    ensures
        spec_pane_slot(a) == spec_pane_slot(b) <==> a == b,
        0 <= spec_pane_slot(a) < 8,
{
}

#[derive(Debug, Clone, Copy, Default, PartialEq, Eq, Structural)]
pub struct VerticalViewport {
    pub offset: usize,
}

/// Largest offset at which the last screen of content is still full.
pub open spec fn spec_max_offset(content_len: usize, visible_len: usize) -> int {
    let page: int = if visible_len >= 1 { visible_len as int } else { 1 };
    if content_len >= page {
        content_len - page
    } else {
        0
    }
}

pub open spec fn spec_sat_add(a: usize, b: int) -> int {
    if a + b > usize::MAX {
        usize::MAX as int
    } else {
        a + b
    }
}

pub open spec fn spec_sat_sub(a: usize, b: int) -> int {
    if a >= b {
        a - b
    } else {
        0
    }
}

pub open spec fn spec_min(a: int, b: int) -> int {
    if a <= b {
        a
    } else {
        b
    }
}

pub open spec fn spec_half_page(visible_len: usize) -> int {
    if visible_len / 2 >= 1 {
        (visible_len / 2) as int
    } else {
        1
    }
}

pub open spec fn spec_page(visible_len: usize) -> int {
    if visible_len >= 1 {
        visible_len as int
    } else {
        1
    }
}

fn max_offset(content_len: usize, visible_len: usize) -> (r: usize)
    ensures
        r == spec_max_offset(content_len, visible_len),
{
    let page = if visible_len >= 1 {
        visible_len
    } else {
        1
    };
    content_len.saturating_sub(page)
}

/// Magnitude of a signed delta, as an unsigned count.
pub fn unsigned_magnitude(delta: isize) -> (r: usize)
    ensures
        r == if delta < 0 {
            -delta
        } else {
            delta as int
        },
{
    if delta < 0 {
        let wide: i128 = delta as i128;
        let m: i128 = -wide;
        m as usize
    } else {
        delta as usize
    }
}

impl VerticalViewport {
    pub fn line_up(&mut self)
        ensures
            final(self).offset == spec_sat_sub(old(self).offset, 1),
    {
        self.offset = self.offset.saturating_sub(1);
    }

    pub fn line_down(&mut self, content_len: usize, visible_len: usize)
        ensures
            final(self).offset == spec_min(
                spec_sat_add(old(self).offset, 1),
                spec_max_offset(content_len, visible_len),
            ),
    {
        self.offset = self.offset.saturating_add(1);
        self.clamp(content_len, visible_len);
    }

    pub fn move_lines(&mut self, delta: isize, content_len: usize, visible_len: usize)
        ensures
            final(self).offset == spec_min(
                if delta < 0 {
                    spec_sat_sub(old(self).offset, -delta)
                } else {
                    spec_sat_add(old(self).offset, delta as int)
                },
                spec_max_offset(content_len, visible_len),
            ),
    {
        if delta < 0 {
            self.offset = self.offset.saturating_sub(unsigned_magnitude(delta));
        } else {
            self.offset = self.offset.saturating_add(delta as usize);
        }
        self.clamp(content_len, visible_len);
    }

    pub fn half_page_up(&mut self, visible_len: usize)
        ensures
            final(self).offset == spec_sat_sub(old(self).offset, spec_half_page(visible_len)),
    {
        let half = if visible_len / 2 >= 1 {
            visible_len / 2
        } else {
            1
        };
        self.offset = self.offset.saturating_sub(half);
    }

    pub fn half_page_down(&mut self, content_len: usize, visible_len: usize)
        ensures
            final(self).offset == spec_min(
                spec_sat_add(old(self).offset, spec_half_page(visible_len)),
                spec_max_offset(content_len, visible_len),
            ),
    {
        let half = if visible_len / 2 >= 1 {
            visible_len / 2
        } else {
            1
        };
        self.offset = self.offset.saturating_add(half);
        self.clamp(content_len, visible_len);
    }

    pub fn page_up(&mut self, visible_len: usize)
        ensures
            final(self).offset == spec_sat_sub(old(self).offset, spec_page(visible_len)),
    {
        let page = if visible_len >= 1 {
            visible_len
        } else {
            1
        };
        self.offset = self.offset.saturating_sub(page);
    }

    pub fn page_down(&mut self, content_len: usize, visible_len: usize)
        ensures
            final(self).offset == spec_min(
                spec_sat_add(old(self).offset, spec_page(visible_len)),
                spec_max_offset(content_len, visible_len),
            ),
    {
        let page = if visible_len >= 1 {
            visible_len
        } else {
            1
        };
        self.offset = self.offset.saturating_add(page);
        self.clamp(content_len, visible_len);
    }

    pub fn top(&mut self)
        ensures
            final(self).offset == 0,
    {
        self.offset = 0;
    }

    pub fn bottom(&mut self, content_len: usize, visible_len: usize)
        ensures
            final(self).offset == spec_max_offset(content_len, visible_len),
    {
        self.offset = max_offset(content_len, visible_len);
    }

    pub fn clamp(&mut self, content_len: usize, visible_len: usize)
        ensures
            final(self).offset == spec_min(
                old(self).offset as int,
                spec_max_offset(content_len, visible_len),
            ),
    {
        let limit = max_offset(content_len, visible_len);
        if self.offset > limit {
            self.offset = limit;
        }
    }
}

/// Moving down and then back up never leaves the viewport below where it started,
/// and every downward motion stays within the content's last full page.
pub proof fn lemma_downward_moves_stay_in_content(
    offset: usize,
    step: int,
    content_len: usize,
    visible_len: usize,
)
    requires
        step >= 0,
    ensures
        spec_min(spec_sat_add(offset, step), spec_max_offset(content_len, visible_len))
            <= spec_max_offset(content_len, visible_len),
        spec_min(spec_sat_add(offset, step), spec_max_offset(content_len, visible_len)) >= 0,
{
}

/// Half a page is half the visible rows, rounded down, and at least one row: a
/// half-page move down goes that far and stops at the last full page; a half-page
/// move up goes that far and stops at the top. With two or more rows visible it moves
/// strictly less than a full page, and two half pages make at most one. A full page
/// is all the visible rows (at least one), and the lowest offset is the one whose page
/// ends with the last line.
pub proof fn lemma_half_page_moves(offset: usize, content_len: usize, visible_len: usize)
    ensures
        visible_len >= 2 ==> spec_half_page(visible_len) == visible_len / 2,
        visible_len < 2 ==> spec_half_page(visible_len) == 1,
        visible_len >= 2 ==> 2 * spec_half_page(visible_len) <= visible_len < 2 * spec_half_page(
            visible_len,
        ) + 2,
        visible_len >= 2 ==> spec_half_page(visible_len) < spec_page(visible_len),
        ({
            let step: int = if visible_len >= 2 { (visible_len / 2) as int } else { 1 };
            let limit = spec_max_offset(content_len, visible_len);
            &&& offset + step <= usize::MAX ==> spec_min(
                spec_sat_add(offset, spec_half_page(visible_len)),
                limit,
            ) == (if offset + step <= limit { offset + step } else { limit })
            &&& spec_sat_sub(offset, spec_half_page(visible_len)) == (if offset >= step {
                offset - step
            } else {
                0
            })
        }),
        ({
            let page: int = if visible_len >= 1 { visible_len as int } else { 1 };
            let limit = spec_max_offset(content_len, visible_len);
            &&& offset + page <= usize::MAX ==> spec_min(
                spec_sat_add(offset, spec_page(visible_len)),
                limit,
            ) == (if offset + page <= limit { offset + page } else { limit })
            &&& spec_sat_sub(offset, spec_page(visible_len)) == (if offset >= page {
                offset - page
            } else {
                0
            })
            &&& limit == (if content_len >= page { content_len - page } else { 0 })
        }),
{
}

#[derive(Debug, Clone, Copy, Default, PartialEq, Eq, Structural)]
pub struct PaneViewport {
    pub scroll_y: VerticalViewport,
    pub scroll_x: usize,
    pub selected: Option<usize>,
}

pub open spec fn spec_default_viewport() -> PaneViewport {
    PaneViewport { scroll_y: VerticalViewport { offset: 0 }, scroll_x: 0, selected: None }
}

pub fn default_viewport() -> (r: PaneViewport)
    ensures
        r == spec_default_viewport(),
{
    PaneViewport { scroll_y: VerticalViewport { offset: 0 }, scroll_x: 0, selected: None }
}

/// Which pane has focus, and the scroll state of every registered pane.
#[derive(Debug, Clone)]
pub struct PaneFocus {
    focused: PaneId,
    registered: Vec<bool>,
    viewports: Vec<PaneViewport>,
}

impl PaneFocus {
    pub closed spec fn wf(&self) -> bool {
        &&& self.registered@.len() == PANE_COUNT
        &&& self.viewports@.len() == PANE_COUNT
        &&& self.registered@[spec_pane_slot(self.focused)]
    }

    pub closed spec fn spec_focused(&self) -> PaneId {
        self.focused
    }

    pub closed spec fn spec_has(&self, p: PaneId) -> bool {
        self.registered@[spec_pane_slot(p)]
    }

    pub closed spec fn spec_viewport(&self, p: PaneId) -> PaneViewport {
        self.viewports@[spec_pane_slot(p)]
    }

    /// A focus over the given panes (plus the focused one), all at their default viewport.
    pub fn new(focused: PaneId, panes: &[PaneId]) -> (r: Self)
        ensures
            r.wf(),
            r.spec_focused() == focused,
            forall|p: PaneId| r.spec_has(p) <==> (p == focused || panes@.contains(p)),
            forall|p: PaneId| #[trigger] r.spec_has(p) ==> r.spec_viewport(p) == spec_default_viewport(),
    {
        let mut registered: Vec<bool> = vec![false, false, false, false, false, false, false, false];
        let mut viewports: Vec<PaneViewport> = Vec::new();
        let mut k: usize = 0;
        while k < PANE_COUNT
            invariant
                k <= PANE_COUNT,
                viewports@.len() == k,
                forall|j: int| 0 <= j < k ==> viewports@[j] == spec_default_viewport(),
            decreases PANE_COUNT - k,
        {
            viewports.push(default_viewport());
            k = k + 1;
        }
        let mut i: usize = 0;
        while i < panes.len()
            invariant
                i <= panes.len(),
                registered@.len() == PANE_COUNT,
                viewports@.len() == PANE_COUNT,
                forall|j: int| 0 <= j < PANE_COUNT ==> viewports@[j] == spec_default_viewport(),
                forall|p: PaneId|
                    registered@[spec_pane_slot(p)] <==> panes@.take(i as int).contains(p),
            decreases panes.len() - i,
        {
            let slot = panes[i].slot();
            registered.set(slot, true);
            proof {
                assert forall|p: PaneId|
                    registered@[spec_pane_slot(p)] <==> panes@.take(i + 1).contains(p) by {
                    lemma_pane_slot_injective(p, panes@[i as int]);
                    let t0 = panes@.take(i as int);
                    let t1 = panes@.take(i + 1);
                    assert(t1 =~= t0.push(panes@[i as int]));
                    if t1.contains(p) {
                        let k = choose|k: int| 0 <= k < t1.len() && t1[k] == p;
                        if k < i {
                            assert(t0[k] == p);
                        }
                    }
                    if t0.contains(p) {
                        let k = choose|k: int| 0 <= k < t0.len() && t0[k] == p;
                        assert(t1[k] == p);
                    }
                    if panes@[i as int] == p {
                        assert(t1[i as int] == p);
                    }
                }
            }
            i = i + 1;
        }
        assert(panes@.take(panes.len() as int) =~= panes@);
        let fslot = focused.slot();
        registered.set(fslot, true);
        let r = PaneFocus { focused, registered, viewports };
        proof {
            assert forall|p: PaneId| r.spec_has(p) <==> (p == focused || panes@.contains(p)) by {
                lemma_pane_slot_injective(p, focused);
            }
        }
        r
    }

    pub fn inspect() -> (r: Self)
        ensures
            r.wf(),
            r.spec_focused() == PaneId::InspectDiskLayout,
            forall|p: PaneId| r.spec_has(p) <==> spec_is_inspect(p),
            forall|p: PaneId| #[trigger] r.spec_has(p) ==> r.spec_viewport(p) == spec_default_viewport(),
    {
        let order = PaneId::inspect_order();
        let r = Self::new(PaneId::InspectDiskLayout, order.as_slice());
        assert forall|p: PaneId| r.spec_has(p) <==> spec_is_inspect(p) by {
            if spec_is_inspect(p) {
                assert(spec_inspect_order()[spec_pane_slot(p)] == p);
            } else {
                assert(!spec_inspect_order().contains(p));
            }
        }
        r
    }

    pub fn provision_form() -> (r: Self)
        ensures
            r.wf(),
            r.spec_focused() == PaneId::ProvisionParameters,
            forall|p: PaneId|
                r.spec_has(p) <==> (p == PaneId::ProvisionParameters || p
                    == PaneId::ProvisionDiskLayout),
            forall|p: PaneId| #[trigger] r.spec_has(p) ==> r.spec_viewport(p) == spec_default_viewport(),
    {
        let order = PaneId::provision_form_order();
        let r = Self::new(PaneId::ProvisionParameters, order.as_slice());
        assert forall|p: PaneId|
            r.spec_has(p) <==> (p == PaneId::ProvisionParameters || p
                == PaneId::ProvisionDiskLayout) by {
            if p == PaneId::ProvisionDiskLayout {
                assert(spec_provision_form_order()[1] == p);
            }
        }
        r
    }

    pub fn provision_review() -> (r: Self)
        ensures
            r.wf(),
            r.spec_focused() == PaneId::ProvisionSummary,
            forall|p: PaneId|
                r.spec_has(p) <==> (p == PaneId::ProvisionSummary || p
                    == PaneId::ProvisionDiskLayout || p == PaneId::ProvisionChanges),
            forall|p: PaneId| #[trigger] r.spec_has(p) ==> r.spec_viewport(p) == spec_default_viewport(),
    {
        let order = PaneId::provision_review_order();
        let r = Self::new(PaneId::ProvisionSummary, order.as_slice());
        assert forall|p: PaneId|
            r.spec_has(p) <==> (p == PaneId::ProvisionSummary || p == PaneId::ProvisionDiskLayout
                || p == PaneId::ProvisionChanges) by {
            if p == PaneId::ProvisionDiskLayout {
                assert(spec_provision_review_order()[1] == p);
            }
            if p == PaneId::ProvisionChanges {
                assert(spec_provision_review_order()[2] == p);
            }
        }
        r
    }

    /// An identical, independent copy of this focus.
    pub fn duplicate(&self) -> (r: Self)
        ensures
            r.wf() == self.wf(),
            r.spec_focused() == self.spec_focused(),
            forall|p: PaneId|
                #[trigger] r.spec_has(p) == self.spec_has(p) && r.spec_viewport(p)
                    == self.spec_viewport(p),
    {
        let mut registered: Vec<bool> = Vec::new();
        let mut viewports: Vec<PaneViewport> = Vec::new();
        let mut i: usize = 0;
        while i < self.registered.len()
            invariant
                i <= self.registered.len(),
                registered@ == self.registered@.take(i as int),
            decreases self.registered.len() - i,
        {
            registered.push(self.registered[i]);
            i = i + 1;
            assert(registered@ =~= self.registered@.take(i as int));
        }
        let mut j: usize = 0;
        while j < self.viewports.len()
            invariant
                j <= self.viewports.len(),
                viewports@ == self.viewports@.take(j as int),
            decreases self.viewports.len() - j,
        {
            viewports.push(self.viewports[j]);
            j = j + 1;
            assert(viewports@ =~= self.viewports@.take(j as int));
        }
        assert(registered@ =~= self.registered@);
        assert(viewports@ =~= self.viewports@);
        PaneFocus { focused: self.focused, registered, viewports }
    }

    pub fn focused(&self) -> (r: PaneId)
        ensures
            r == self.spec_focused(),
    {
        self.focused
    }

    /// Focus a pane, registering it with a default viewport if it is new.
    pub fn focus(&mut self, pane: PaneId)
        requires
            old(self).wf(),
        ensures
            final(self).wf(),
            final(self).spec_focused() == pane,
            forall|p: PaneId| final(self).spec_has(p) <==> (old(self).spec_has(p) || p == pane),
            forall|p: PaneId|
                #[trigger] final(self).spec_viewport(p) == if p == pane && !old(self).spec_has(
                    pane,
                ) {
                    spec_default_viewport()
                } else {
                    old(self).spec_viewport(p)
                },
    {
        let slot = pane.slot();
        if !self.registered[slot] {
            self.registered.set(slot, true);
            self.viewports.set(slot, default_viewport());
        }
        self.focused = pane;
        proof {
            assert forall|p: PaneId|
                final(self).spec_has(p) <==> (old(self).spec_has(p) || p == pane) by {
                lemma_pane_slot_injective(p, pane);
            }
            assert forall|p: PaneId|
                #[trigger] final(self).spec_viewport(p) == if p == pane && !old(self).spec_has(pane) {
                    spec_default_viewport()
                } else {
                    old(self).spec_viewport(p)
                } by {
                lemma_pane_slot_injective(p, pane);
            }
        }
    }

    /// The viewport of a registered pane (an unregistered pane has none).
    pub fn viewport(&self, pane: PaneId) -> (r: &PaneViewport)
        requires
            self.wf(),
            self.spec_has(pane),
        ensures
            *r == self.spec_viewport(pane),
    {
        let slot = pane.slot();
        &self.viewports[slot]
    }

    /// The viewport of a pane, registering it first if needed, for in-place changes.
    pub fn viewport_mut(&mut self, pane: PaneId) -> (r: &mut PaneViewport)
        requires
            old(self).wf(),
        ensures
            *r == (if old(self).spec_has(pane) {
                old(self).spec_viewport(pane)
            } else {
                spec_default_viewport()
            }),
            final(self).wf(),
            final(self).spec_focused() == old(self).spec_focused(),
            forall|p: PaneId| final(self).spec_has(p) <==> (old(self).spec_has(p) || p == pane),
            final(self).spec_viewport(pane) == *final(r),
            forall|p: PaneId|
                p != pane ==> #[trigger] final(self).spec_viewport(p) == old(self).spec_viewport(p),
    {
        let slot = pane.slot();
        if !self.registered[slot] {
            self.registered.set(slot, true);
            self.viewports.set(slot, default_viewport());
        }
        proof {
            assert forall|p: PaneId|
                self.registered@[spec_pane_slot(p)] <==> (old(self).spec_has(p) || p == pane) by {
                lemma_pane_slot_injective(p, pane);
            }
            assert forall|p: PaneId|
                p != pane implies self.viewports@[spec_pane_slot(p)] == old(self).spec_viewport(p) by {
                lemma_pane_slot_injective(p, pane);
            }
        }
        &mut self.viewports[slot]
    }

    /// Move focus one step through `order`, wrapping around at either end.
    pub fn cycle(&mut self, order: &[PaneId], reverse: bool)
        requires
            old(self).wf(),
        ensures
            final(self).wf(),
            order@.len() == 0 ==> *final(self) == *old(self),
            order@.len() > 0 ==> {
                let index = spec_position_or_zero(order@, old(self).spec_focused());
                let next = if reverse {
                    if index == 0 {
                        order@.len() - 1
                    } else {
                        index - 1
                    }
                } else {
                    (index + 1) % (order@.len() as int)
                };
                final(self).spec_focused() == order@[next]
            },
            forall|p: PaneId|
                final(self).spec_has(p) <==> (old(self).spec_has(p) || p
                    == final(self).spec_focused()),
            forall|p: PaneId|
                #[trigger] old(self).spec_has(p) ==> final(self).spec_viewport(p) == old(self).spec_viewport(p),
    {
        if order.len() == 0 {
            return;
        }
        let index = position_or_zero(order, self.focused);
        let next = if reverse {
            if index == 0 {
                order.len() - 1
            } else {
                index - 1
            }
        } else {
            (index + 1) % order.len()
        };
        self.focus(order[next]);
    }

    /// Move focus between the Inspect panes by direction.
    pub fn spatial_inspect(&mut self, dx: i8, dy: i8)
        requires
            old(self).wf(),
        ensures
            final(self).wf(),
            spec_spatial_inspect(old(self).spec_focused(), dx, dy) is None ==> *final(self)
                == *old(self),
            spec_spatial_inspect(old(self).spec_focused(), dx, dy) matches Some(n)
                ==> final(self).spec_focused() == n,
            forall|p: PaneId|
                #[trigger] old(self).spec_has(p) ==> final(self).spec_has(p)
                    && final(self).spec_viewport(p) == old(self).spec_viewport(p),
    {
        let sx = signum(dx);
        let sy = signum(dy);
        let next = match self.focused {
            PaneId::InspectDiskLayout => if sy == 1 {
                Some(PaneId::InspectTree)
            } else {
                None
            },
            PaneId::InspectTree => if sy == -1 {
                Some(PaneId::InspectDiskLayout)
            } else if sx == 1 {
                Some(PaneId::InspectOverview)
            } else {
                None
            },
            PaneId::InspectOverview => if sy == -1 {
                Some(PaneId::InspectDiskLayout)
            } else if sx == -1 {
                Some(PaneId::InspectTree)
            } else if sx == 1 {
                Some(PaneId::InspectDetail)
            } else {
                None
            },
            PaneId::InspectDetail => if sy == -1 {
                Some(PaneId::InspectDiskLayout)
            } else if sx == -1 {
                Some(PaneId::InspectOverview)
            } else {
                None
            },
            _ => None,
        };
        if let Some(next) = next {
            self.focus(next);
        }
    }

    /// Move focus between the two Provision form panes horizontally.
    pub fn spatial_provision_form(&mut self, dx: i8, dy: i8)
        requires
            old(self).wf(),
        ensures
            final(self).wf(),
            (old(self).spec_focused() == PaneId::ProvisionParameters && dx > 0)
                ==> final(self).spec_focused() == PaneId::ProvisionDiskLayout,
            (old(self).spec_focused() == PaneId::ProvisionDiskLayout && dx < 0)
                ==> final(self).spec_focused() == PaneId::ProvisionParameters,
            !((old(self).spec_focused() == PaneId::ProvisionParameters && dx > 0) || (old(self).spec_focused() == PaneId::ProvisionDiskLayout && dx < 0)) ==> *final(self) == *old(self),
            forall|p: PaneId|
                #[trigger] old(self).spec_has(p) ==> final(self).spec_has(p)
                    && final(self).spec_viewport(p) == old(self).spec_viewport(p),
    {
        let sx = signum(dx);
        match self.focused {
            PaneId::ProvisionParameters => {
                if sx == 1 {
                    self.focus(PaneId::ProvisionDiskLayout);
                }
            },
            PaneId::ProvisionDiskLayout => {
                if sx == -1 {
                    self.focus(PaneId::ProvisionParameters);
                }
            },
            _ => {},
        }
    }

    /// Move focus between the three Provision review panes by direction.
    pub fn spatial_provision_review(&mut self, dx: i8, dy: i8)
        requires
            old(self).wf(),
        ensures
            final(self).wf(),
            spec_spatial_review(old(self).spec_focused(), dx, dy) is None ==> *final(self)
                == *old(self),
            spec_spatial_review(old(self).spec_focused(), dx, dy) matches Some(n)
                ==> final(self).spec_focused() == n,
            forall|p: PaneId|
                #[trigger] old(self).spec_has(p) ==> final(self).spec_has(p)
                    && final(self).spec_viewport(p) == old(self).spec_viewport(p),
    {
        let sx = signum(dx);
        let sy = signum(dy);
        let next = match self.focused {
            PaneId::ProvisionSummary => if sx == 1 || sy == 1 {
                Some(PaneId::ProvisionDiskLayout)
            } else {
                None
            },
            PaneId::ProvisionDiskLayout => if sx == -1 || sy == -1 {
                Some(PaneId::ProvisionSummary)
            } else if sx == 1 || sy == 1 {
                Some(PaneId::ProvisionChanges)
            } else {
                None
            },
            PaneId::ProvisionChanges => if sx == -1 || sy == -1 {
                Some(PaneId::ProvisionDiskLayout)
            } else {
                None
            },
            _ => None,
        };
        if let Some(next) = next {
            self.focus(next);
        }
    }
}

pub open spec fn spec_signum(v: i8) -> int {
    if v > 0 {
        1
    } else if v < 0 {
        -1
    } else {
        0
    }
}

fn signum(v: i8) -> (r: i8)
    ensures
        r == spec_signum(v),
{
    if v > 0 {
        1
    } else if v < 0 {
        -1
    } else {
        0
    }
}

/// The Inspect pane reached from `focused` by a move in direction `(dx, dy)`.
pub open spec fn spec_spatial_inspect(focused: PaneId, dx: i8, dy: i8) -> Option<PaneId> {
    let sx = spec_signum(dx);
    let sy = spec_signum(dy);
    match focused {
        PaneId::InspectDiskLayout => if sy == 1 {
            Some(PaneId::InspectTree)
        } else {
            None
        },
        PaneId::InspectTree => if sy == -1 {
            Some(PaneId::InspectDiskLayout)
        } else if sx == 1 {
            Some(PaneId::InspectOverview)
        } else {
            None
        },
        PaneId::InspectOverview => if sy == -1 {
            Some(PaneId::InspectDiskLayout)
        } else if sx == -1 {
            Some(PaneId::InspectTree)
        } else if sx == 1 {
            Some(PaneId::InspectDetail)
        } else {
            None
        },
        PaneId::InspectDetail => if sy == -1 {
            Some(PaneId::InspectDiskLayout)
        } else if sx == -1 {
            Some(PaneId::InspectOverview)
        } else {
            None
        },
        _ => None,
    }
}

/// The review pane reached from `focused` by a move in direction `(dx, dy)`.
pub open spec fn spec_spatial_review(focused: PaneId, dx: i8, dy: i8) -> Option<PaneId> {
    let sx = spec_signum(dx);
    let sy = spec_signum(dy);
    match focused {
        PaneId::ProvisionSummary => if sx == 1 || sy == 1 {
            Some(PaneId::ProvisionDiskLayout)
        } else {
            None
        },
        PaneId::ProvisionDiskLayout => if sx == -1 || sy == -1 {
            Some(PaneId::ProvisionSummary)
        } else if sx == 1 || sy == 1 {
            Some(PaneId::ProvisionChanges)
        } else {
            None
        },
        PaneId::ProvisionChanges => if sx == -1 || sy == -1 {
            Some(PaneId::ProvisionDiskLayout)
        } else {
            None
        },
        _ => None,
    }
}

/// Index of the first occurrence of `p` in `s`, or 0 when absent.
pub open spec fn spec_position_or_zero(s: Seq<PaneId>, p: PaneId) -> int {
    if s.contains(p) {
        choose|i: int|
            0 <= i < s.len() && s[i] == p && forall|j: int| 0 <= j < i ==> s[j] != p
    } else {
        0
    }
}

fn position_or_zero(s: &[PaneId], p: PaneId) -> (r: usize)
    requires
        s@.len() > 0,
    ensures
        r == spec_position_or_zero(s@, p),
        r < s@.len(),
{
    let mut i: usize = 0;
    while i < s.len()
        invariant
            i <= s.len(),
            forall|j: int| 0 <= j < i ==> s@[j] != p,
        decreases s.len() - i,
    {
        if s[i] == p {
            proof {
                assert(s@.contains(p));
                let c = choose|k: int|
                    0 <= k < s@.len() && s@[k] == p && forall|j: int| 0 <= j < k ==> s@[j] != p;
                assert(0 <= i < s@.len() && s@[i as int] == p && forall|j: int|
                    0 <= j < i ==> s@[j] != p);
                if c < i {
                } else if c > i {
                }
            }
            return i;
        }
        i = i + 1;
    }
    proof {
        if s@.contains(p) {
            let k = choose|k: int| 0 <= k < s@.len() && s@[k] == p;
            assert(s@[k] == p);
        }
    }
    0
}

} // verus!
