//! Cell-width aware column allocation and horizontal viewport for tables.

use vstd::prelude::*;

verus! {

#[derive(Debug, Clone, Copy, PartialEq, Eq, Structural)]
pub enum TruncatePolicy {
    Clip,
    Ellipsis,
}

#[derive(Debug, Clone, Copy, PartialEq, Eq, Structural)]
pub enum TableKind {
    Devices,
    Backups,
    ProvisionDevices,
    ProvisionMenu,
    InspectFields,
}

pub open spec fn spec_table_slot(k: TableKind) -> int {
    match k {
        TableKind::Devices => 0,
        TableKind::Backups => 1,
        TableKind::ProvisionDevices => 2,
        TableKind::ProvisionMenu => 3,
        TableKind::InspectFields => 4,
    }
}

impl TableKind {
    pub fn slot(self) -> (r: usize)
        ensures
            r == spec_table_slot(self),
            r < 5,
    {
        match self {
            TableKind::Devices => 0,
            TableKind::Backups => 1,
            TableKind::ProvisionDevices => 2,
            TableKind::ProvisionMenu => 3,
            TableKind::InspectFields => 4,
        }
    }
}

pub proof fn lemma_table_slot_injective(a: TableKind, b: TableKind)
    ensures
        spec_table_slot(a) == spec_table_slot(b) <==> a == b,
        0 <= spec_table_slot(a) < 5,
{
}

#[derive(Debug, Clone, Copy, PartialEq, Eq, Structural)]
pub enum ColumnId {
    Device,
    Selected,
    Index,
    Time,
    Capacity,
    VidPid,
    Model,
    Onlyid,
    User,
    Dept,
    ProvisionKind,
    Bus,
    State,
    Health,
}

#[derive(Debug, Clone, Copy, PartialEq, Eq, Structural)]
pub struct AdaptiveColumnSpec {
    pub min_width: u16,
    pub preferred_width: u16,
    pub max_width: u16,
    pub priority: u8,
    pub weight: u16,
    pub truncate_policy: TruncatePolicy,
    pub pinned: bool,
}

#[derive(Debug, Clone, Copy, PartialEq, Eq)]
pub struct TableColumnSpec {
    pub id: ColumnId,
    pub heading: &'static str,
    pub layout: AdaptiveColumnSpec,
}

pub open spec fn spec_column(
    min: u16,
    preferred: u16,
    max: u16,
    priority: u8,
    weight: u16,
    pinned: bool,
) -> AdaptiveColumnSpec {
    AdaptiveColumnSpec {
        min_width: min,
        preferred_width: preferred,
        max_width: max,
        priority,
        weight,
        truncate_policy: TruncatePolicy::Ellipsis,
        pinned,
    }
}

fn column(min: u16, preferred: u16, max: u16, priority: u8, weight: u16, pinned: bool) -> (r:
    AdaptiveColumnSpec)
    ensures
        r == spec_column(min, preferred, max, priority, weight, pinned),
{
    AdaptiveColumnSpec {
        min_width: min,
        preferred_width: preferred,
        max_width: max,
        priority,
        weight,
        truncate_policy: TruncatePolicy::Ellipsis,
        pinned,
    }
}

fn table_column(id: ColumnId, heading: &'static str, layout: AdaptiveColumnSpec) -> (r:
    TableColumnSpec)
    ensures
        r.id == id,
        r.heading == heading,
        r.layout == layout,
{
    TableColumnSpec { id, heading, layout }
}

pub open spec fn spec_identity_ids() -> Seq<ColumnId> {
    seq![
        ColumnId::Capacity,
        ColumnId::VidPid,
        ColumnId::Model,
        ColumnId::Onlyid,
        ColumnId::User,
        ColumnId::Dept,
        ColumnId::ProvisionKind,
    ]
}

pub open spec fn spec_identity_layouts() -> Seq<AdaptiveColumnSpec> {
    seq![
        spec_column(8, 9, 12, 80, 1, false),
        spec_column(9, 9, 12, 75, 1, false),
        spec_column(10, 17, 28, 50, 2, false),
        spec_column(8, 12, 20, 70, 1, false),
        spec_column(6, 10, 20, 45, 1, false),
        spec_column(8, 16, 40, 20, 3, false),
        spec_column(12, 20, 26, 95, 1, true),
    ]
}

/// The seven identity columns shared by the device and backup tables.
pub fn identity_column_specs() -> (r: Vec<TableColumnSpec>)
    ensures
        r@.len() == 7,
        forall|i: int|
            0 <= i < 7 ==> #[trigger] r@[i].id == spec_identity_ids()[i] && r@[i].layout
                == spec_identity_layouts()[i],
        r@[0].heading@ == "容量"@,
        r@[1].heading@ == "VID:PID"@,
        r@[2].heading@ == "型号"@,
        r@[3].heading@ == "onlyid"@,
        r@[4].heading@ == "姓名"@,
        r@[5].heading@ == "部门"@,
        r@[6].heading@ == "盘型"@,
{
    let r = vec![
        table_column(ColumnId::Capacity, "容量", column(8, 9, 12, 80, 1, false)),
        table_column(ColumnId::VidPid, "VID:PID", column(9, 9, 12, 75, 1, false)),
        table_column(ColumnId::Model, "型号", column(10, 17, 28, 50, 2, false)),
        table_column(ColumnId::Onlyid, "onlyid", column(8, 12, 20, 70, 1, false)),
        table_column(ColumnId::User, "姓名", column(6, 10, 20, 45, 1, false)),
        table_column(ColumnId::Dept, "部门", column(8, 16, 40, 20, 3, false)),
        table_column(ColumnId::ProvisionKind, "盘型", column(12, 20, 26, 95, 1, true)),
    ];
    r
}

pub open spec fn spec_schema_ids(kind: TableKind) -> Option<Seq<ColumnId>> {
    match kind {
        TableKind::Devices => Some(
            seq![ColumnId::Device] + spec_identity_ids() + seq![ColumnId::Bus, ColumnId::State],
        ),
        TableKind::Backups => Some(
            seq![ColumnId::Selected, ColumnId::Index, ColumnId::Time] + spec_identity_ids() + seq![
                ColumnId::Health,
            ],
        ),
        _ => None,
    }
}

pub open spec fn spec_schema_layouts(kind: TableKind) -> Option<Seq<AdaptiveColumnSpec>> {
    match kind {
        TableKind::Devices => Some(
            seq![spec_column(7, 9, 12, 100, 1, true)] + spec_identity_layouts() + seq![
                spec_column(4, 5, 7, 30, 1, false),
                spec_column(12, 18, 30, 98, 1, true),
            ],
        ),
        TableKind::Backups => Some(
            seq![
                spec_column(3, 3, 4, 99, 1, true),
                spec_column(3, 4, 6, 90, 1, true),
                spec_column(12, 17, 20, 25, 1, false),
            ] + spec_identity_layouts() + seq![spec_column(8, 11, 15, 85, 1, false)],
        ),
        _ => None,
    }
}

/// Column schema of the workspace tables; other tables have none.
pub fn table_column_schema(kind: TableKind) -> (r: Option<Vec<TableColumnSpec>>)
    ensures
        spec_schema_ids(kind) is None <==> r is None,
        r matches Some(cols) ==> cols@.len() == spec_schema_ids(kind)->0.len() && forall|i: int|
            0 <= i < cols@.len() ==> #[trigger] cols@[i].id == spec_schema_ids(kind)->0[i]
                && cols@[i].layout == spec_schema_layouts(kind)->0[i],
{
    let identity = identity_column_specs();
    match kind {
        TableKind::Devices => {
            let mut columns = vec![
                table_column(ColumnId::Device, "设备", column(7, 9, 12, 100, 1, true)),
            ];
            let mut i: usize = 0;
            while i < 7
                invariant
                    identity@.len() == 7,
                    forall|j: int|
                        0 <= j < 7 ==> #[trigger] identity@[j].id == spec_identity_ids()[j]
                            && identity@[j].layout == spec_identity_layouts()[j],
                    i <= 7,
                    columns@.len() == 1 + i,
                    columns@[0].id == ColumnId::Device,
                    columns@[0].layout == spec_column(7, 9, 12, 100, 1, true),
                    forall|j: int|
                        1 <= j < 1 + i ==> #[trigger] columns@[j].id == spec_identity_ids()[j - 1]
                            && columns@[j].layout == spec_identity_layouts()[j - 1],
                decreases 7 - i,
            {
                columns.push(identity[i]);
                i = i + 1;
            }
            columns.push(table_column(ColumnId::Bus, "总线", column(4, 5, 7, 30, 1, false)));
            columns.push(table_column(ColumnId::State, "状态", column(12, 18, 30, 98, 1, true)));
            let ghost ids = spec_schema_ids(kind)->0;
            let ghost lays = spec_schema_layouts(kind)->0;
            assert forall|j: int| 0 <= j < columns@.len() implies #[trigger] columns@[j].id
                == ids[j] && columns@[j].layout == lays[j] by {
                if 1 <= j < 8 {
                    assert(ids[j] == spec_identity_ids()[j - 1]);
                    assert(lays[j] == spec_identity_layouts()[j - 1]);
                }
            }
            Some(columns)
        },
        TableKind::Backups => {
            let mut columns = vec![
                table_column(ColumnId::Selected, "选", column(3, 3, 4, 99, 1, true)),
                table_column(ColumnId::Index, "#", column(3, 4, 6, 90, 1, true)),
                table_column(ColumnId::Time, "时间", column(12, 17, 20, 25, 1, false)),
            ];
            let mut i: usize = 0;
            while i < 7
                invariant
                    identity@.len() == 7,
                    forall|j: int|
                        0 <= j < 7 ==> #[trigger] identity@[j].id == spec_identity_ids()[j]
                            && identity@[j].layout == spec_identity_layouts()[j],
                    i <= 7,
                    columns@.len() == 3 + i,
                    columns@[0].id == ColumnId::Selected,
                    columns@[0].layout == spec_column(3, 3, 4, 99, 1, true),
                    columns@[1].id == ColumnId::Index,
                    columns@[1].layout == spec_column(3, 4, 6, 90, 1, true),
                    columns@[2].id == ColumnId::Time,
                    columns@[2].layout == spec_column(12, 17, 20, 25, 1, false),
                    forall|j: int|
                        3 <= j < 3 + i ==> #[trigger] columns@[j].id == spec_identity_ids()[j - 3]
                            && columns@[j].layout == spec_identity_layouts()[j - 3],
                decreases 7 - i,
            {
                columns.push(identity[i]);
                i = i + 1;
            }
            columns.push(table_column(ColumnId::Health, "健康", column(8, 11, 15, 85, 1, false)));
            let ghost ids = spec_schema_ids(kind)->0;
            let ghost lays = spec_schema_layouts(kind)->0;
            assert forall|j: int| 0 <= j < columns@.len() implies #[trigger] columns@[j].id
                == ids[j] && columns@[j].layout == lays[j] by {
                if 3 <= j < 10 {
                    assert(ids[j] == spec_identity_ids()[j - 3]);
                    assert(lays[j] == spec_identity_layouts()[j - 3]);
                }
            }
            Some(columns)
        },
        _ => None,
    }
}

pub open spec fn spec_layout_specs(kind: TableKind) -> Seq<AdaptiveColumnSpec> {
    match kind {
        TableKind::Devices | TableKind::Backups => spec_schema_layouts(kind)->0,
        TableKind::ProvisionDevices => seq![
            spec_column(7, 9, 12, 100, 1, true),
            spec_column(8, 12, 14, 80, 1, false),
            spec_column(9, 13, 20, 50, 1, false),
            spec_column(12, 18, 25, 95, 1, true),
            spec_column(8, 15, 24, 35, 1, false),
        ],
        TableKind::ProvisionMenu => seq![
            spec_column(3, 4, 5, 100, 1, true),
            spec_column(12, 24, 36, 90, 1, false),
            spec_column(16, 35, 80, 30, 3, false),
        ],
        TableKind::InspectFields => seq![
            spec_column(7, 7, 12, 100, 1, true),
            spec_column(3, 4, 8, 95, 1, true),
            spec_column(8, 14, 28, 35, 1, false),
            spec_column(10, 24, 48, 90, 2, true),
            spec_column(10, 26, 64, 85, 3, false),
            spec_column(9, 24, 72, 40, 2, false),
            spec_column(9, 24, 72, 30, 2, false),
            spec_column(9, 24, 72, 25, 2, false),
            spec_column(8, 12, 18, 25, 1, false),
            spec_column(8, 12, 18, 70, 1, false),
            spec_column(10, 24, 40, 20, 1, false),
        ],
    }
}

/// The column layout rules of a table kind.
pub fn layout_for(kind: TableKind) -> (r: AdaptiveTableLayout)
    ensures
        r.spec_specs() == spec_layout_specs(kind),
{
    let specs: Vec<AdaptiveColumnSpec> = match kind {
        TableKind::Devices | TableKind::Backups => {
            let cols = table_column_schema(kind);
            assert(spec_schema_ids(kind) is Some);
            assert(cols is Some);
            let cols = cols.unwrap();
            assert(cols@.len() == spec_schema_layouts(kind)->0.len());
            assert forall|j: int| 0 <= j < cols@.len() implies #[trigger] cols@[j].layout
                == spec_schema_layouts(kind)->0[j] by {
                assert(cols@[j].id == spec_schema_ids(kind)->0[j]);
            }
            let mut specs: Vec<AdaptiveColumnSpec> = Vec::new();
            let mut i: usize = 0;
            while i < cols.len()
                invariant
                    i <= cols@.len(),
                    cols@.len() == spec_schema_layouts(kind)->0.len(),
                    forall|j: int|
                        0 <= j < cols@.len() ==> #[trigger] cols@[j].layout == spec_schema_layouts(
                            kind,
                        )->0[j],
                    specs@ == spec_schema_layouts(kind)->0.take(i as int),
                decreases cols.len() - i,
            {
                specs.push(cols[i].layout);
                i = i + 1;
                assert(specs@ =~= spec_schema_layouts(kind)->0.take(i as int));
            }
            assert(specs@ =~= spec_schema_layouts(kind)->0);
            specs
        },
        TableKind::ProvisionDevices => vec![
            column(7, 9, 12, 100, 1, true),
            column(8, 12, 14, 80, 1, false),
            column(9, 13, 20, 50, 1, false),
            column(12, 18, 25, 95, 1, true),
            column(8, 15, 24, 35, 1, false),
        ],
        TableKind::ProvisionMenu => vec![
            column(3, 4, 5, 100, 1, true),
            column(12, 24, 36, 90, 1, false),
            column(16, 35, 80, 30, 3, false),
        ],
        TableKind::InspectFields => vec![
            column(7, 7, 12, 100, 1, true),
            column(3, 4, 8, 95, 1, true),
            column(8, 14, 28, 35, 1, false),
            column(10, 24, 48, 90, 2, true),
            column(10, 26, 64, 85, 3, false),
            column(9, 24, 72, 40, 2, false),
            column(9, 24, 72, 30, 2, false),
            column(9, 24, 72, 25, 2, false),
            column(8, 12, 18, 25, 1, false),
            column(8, 12, 18, 70, 1, false),
            column(10, 24, 40, 20, 1, false),
        ],
    };
    proof {
        let s = spec_layout_specs(kind);
        assert(specs@ =~= s);
    }
    AdaptiveTableLayout::new(specs)
}

/// Number of columns that are not pinned.
pub open spec fn spec_scrollable_count(specs: Seq<AdaptiveColumnSpec>) -> nat
    decreases specs.len(),
{
    if specs.len() == 0 {
        0
    } else {
        spec_scrollable_count(specs.drop_last()) + if specs.last().pinned {
            0nat
        } else {
            1nat
        }
    }
}

proof fn lemma_scrollable_count_bound(specs: Seq<AdaptiveColumnSpec>)
    ensures
        spec_scrollable_count(specs) <= specs.len(),
    decreases specs.len(),
{
    if specs.len() > 0 {
        lemma_scrollable_count_bound(specs.drop_last());
    }
}

#[derive(Debug, Clone)]
pub struct AdaptiveTableLayout {
    specs: Vec<AdaptiveColumnSpec>,
}

impl AdaptiveTableLayout {
    pub closed spec fn spec_specs(&self) -> Seq<AdaptiveColumnSpec> {
        self.specs@
    }

    /// A layout holds at most `usize::MAX` columns.
    pub proof fn lemma_specs_len(&self)
        ensures
            self.spec_specs().len() <= usize::MAX,
    {
        broadcast use vstd::std_specs::vec::group_vec_axioms;

        assert(self.specs@.len() == self.specs.len());
    }

    pub fn new(specs: Vec<AdaptiveColumnSpec>) -> (r: Self)
        ensures
            r.spec_specs() == specs@,
    {
        AdaptiveTableLayout { specs }
    }

    pub fn specs(&self) -> (r: &[AdaptiveColumnSpec])
        ensures
            r@ == self.spec_specs(),
    {
        self.specs.as_slice()
    }

    pub fn scrollable_count(&self) -> (r: usize)
        ensures
            r == spec_scrollable_count(self.spec_specs()),
    {
        let mut n: usize = 0;
        let mut i: usize = 0;
        while i < self.specs.len()
            invariant
                i <= self.specs.len(),
                n == spec_scrollable_count(self.specs@.take(i as int)),
                n <= i,
            decreases self.specs.len() - i,
        {
            assert(self.specs@.take(i + 1).drop_last() =~= self.specs@.take(i as int));
            if !self.specs[i].pinned {
                n = n + 1;
            }
            i = i + 1;
        }
        assert(self.specs@.take(self.specs.len() as int) =~= self.specs@);
        n
    }
}

/// Horizontal scroll position over the non-pinned columns of a table.
#[derive(Debug, Default, Clone, Copy, PartialEq, Eq, Structural)]
pub struct HorizontalScrollState {
    offset: usize,
}

pub open spec fn spec_last_scroll(layout: &AdaptiveTableLayout) -> int {
    if spec_scrollable_count(layout.spec_specs()) >= 1 {
        spec_scrollable_count(layout.spec_specs()) - 1
    } else {
        0
    }
}

impl HorizontalScrollState {
    pub closed spec fn spec_offset(self) -> usize {
        self.offset
    }

    pub fn new() -> (r: Self)
        ensures
            r.spec_offset() == 0,
    {
        HorizontalScrollState { offset: 0 }
    }

    pub fn offset(self) -> (r: usize)
        ensures
            r == self.spec_offset(),
    {
        self.offset
    }

    pub fn set_offset(&mut self, offset: usize, layout: &AdaptiveTableLayout)
        ensures
            final(self).spec_offset() == if offset <= spec_last_scroll(layout) {
                offset as int
            } else {
                spec_last_scroll(layout)
            },
    {
        let last = layout.scrollable_count().saturating_sub(1);
        self.offset = if offset <= last {
            offset
        } else {
            last
        };
    }

    /// Scroll one column right; reports whether the position changed.
    pub fn right(&mut self, layout: &AdaptiveTableLayout) -> (r: bool)
        ensures
            final(self).spec_offset() == if old(self).spec_offset() + 1 <= spec_last_scroll(
                layout,
            ) {
                old(self).spec_offset() + 1
            } else {
                spec_last_scroll(layout)
            },
            r == (final(self).spec_offset() != old(self).spec_offset()),
    {
        let last = layout.scrollable_count().saturating_sub(1);
        let bumped = self.offset.saturating_add(1);
        let next = if bumped <= last {
            bumped
        } else {
            last
        };
        let changed = next != self.offset;
        self.offset = next;
        changed
    }

    /// Scroll one column left; reports whether the position changed.
    pub fn left(&mut self) -> (r: bool)
        ensures
            final(self).spec_offset() == if old(self).spec_offset() > 0 {
                old(self).spec_offset() - 1
            } else {
                0
            },
            r == (old(self).spec_offset() > 0),
    {
        let changed = self.offset > 0;
        self.offset = self.offset.saturating_sub(1);
        changed
    }
}


/// One column as laid out: which column, how wide, how it truncates.
#[derive(Debug, Clone, Copy, PartialEq, Eq, Structural)]
pub struct VisibleColumn {
    pub index: usize,
    pub width: u16,
    pub truncate_policy: TruncatePolicy,
}

/// The columns shown at the current horizontal scroll position.
#[derive(Debug, Clone)]
pub struct TableViewport {
    pub columns: Vec<VisibleColumn>,
    pub first_scrollable_column: usize,
    pub scrollable_columns: usize,
}

pub open spec fn spec_position_label(v: TableViewport) -> Seq<char> {
    if v.scrollable_columns == 0 {
        "1/1 列"@
    } else {
        crate::text::spec_decimal((v.first_scrollable_column + 1) as nat) + "/"@
            + crate::text::spec_decimal(v.scrollable_columns as nat) + " 列"@
    }
}

/// Positions of the shown columns whose index falls inside `len` values, in order.
pub open spec fn spec_projected(columns: Seq<VisibleColumn>, len: nat) -> Seq<int>
    decreases columns.len(),
{
    if columns.len() == 0 {
        Seq::empty()
    } else {
        let rest = spec_projected(columns.drop_last(), len);
        if columns.last().index < len {
            rest.push(columns.last().index as int)
        } else {
            rest
        }
    }
}

impl TableViewport {
    /// `current/total 列` over the scrollable columns (`1/1 列` when none scroll).
    pub fn position_label(&self) -> (r: String)
        ensures
            r@ == spec_position_label(*self),
    {
        if self.scrollable_columns == 0 {
            String::from_str("1/1 列")
        } else {
            let a = crate::text::u128_decimal(self.first_scrollable_column as u128 + 1);
            let b = crate::text::u128_decimal(self.scrollable_columns as u128);
            let s = crate::text::concat(a.as_str(), "/");
            let s = crate::text::concat(s.as_str(), b.as_str());
            let r = crate::text::concat(s.as_str(), " 列");
            proof {
                assert(r@ =~= spec_position_label(*self));
            }
            r
        }
    }

    /// The values of the shown columns, in column order (columns past the end of
    /// `values` are skipped).
    pub fn project<T: Clone>(&self, values: &[T]) -> (r: Vec<T>)
        ensures
            r@.len() == spec_projected(self.columns@, values@.len()).len(),
            forall|k: int|
                0 <= k < r@.len() ==> cloned(
                    values@[spec_projected(self.columns@, values@.len())[k]],
                    #[trigger] r@[k],
                ),
    {
        let mut out: Vec<T> = Vec::new();
        let mut i: usize = 0;
        while i < self.columns.len()
            invariant
                i <= self.columns@.len(),
                out@.len() == spec_projected(self.columns@.take(i as int), values@.len()).len(),
                forall|k: int| 0 <= k < spec_projected(self.columns@.take(i as int), values@.len()).len()
                    ==> 0 <= #[trigger] spec_projected(self.columns@.take(i as int), values@.len())[k] < values@.len(),
                forall|k: int|
                    0 <= k < out@.len() ==> cloned(
                        values@[spec_projected(self.columns@.take(i as int), values@.len())[k]],
                        #[trigger] out@[k],
                    ),
            decreases self.columns@.len() - i,
        {
            proof {
                assert(self.columns@.take(i + 1).drop_last() =~= self.columns@.take(i as int));
            }
            let index = self.columns[i].index;
            if index < values.len() {
                out.push(values[index].clone());
            }
            i = i + 1;
        }
        proof {
            assert(self.columns@.take(self.columns@.len() as int) =~= self.columns@);
        }
        out
    }
}

/// Rows of a table ready to draw, with the widest cell of each column.
#[derive(Debug, Clone)]
pub struct TableViewData {
    pub generation: u64,
    pub rows: Vec<Vec<String>>,
    pub content_widths: Vec<usize>,
}

/// Widest of the heading of column `i` and its cells in the first `m` rows.
pub open spec fn spec_content_width(
    columns: Seq<TableColumnSpec>,
    rows: Seq<Vec<String>>,
    i: int,
    m: int,
) -> nat
    decreases m,
{
    if m <= 0 {
        crate::cells::spec_display_width(columns[i].heading@)
    } else {
        let prev = spec_content_width(columns, rows, i, m - 1);
        let w = crate::cells::spec_display_width(rows[m - 1]@[i]@);
        if w > prev {
            w
        } else {
            prev
        }
    }
}

impl TableViewData {
    /// Rows with one cell per column; each column's width is its widest cell or heading.
    pub fn from_rows(generation: u64, columns: &[TableColumnSpec], rows: Vec<Vec<String>>) -> (r: Self)
        requires
            forall|k: int| 0 <= k < rows@.len() ==> (#[trigger] rows@[k])@.len() == columns@.len(),
        ensures
            r.generation == generation,
            r.rows@ == rows@,
            r.content_widths@.len() == columns@.len(),
            forall|i: int|
                0 <= i < columns@.len() ==> #[trigger] r.content_widths@[i] as nat == spec_content_width(
                    columns@,
                    rows@,
                    i,
                    rows@.len() as int,
                ),
    {
        let mut widths: Vec<usize> = Vec::new();
        let mut i: usize = 0;
        while i < columns.len()
            invariant
                i <= columns@.len(),
                widths@.len() == i,
                forall|j: int| 0 <= j < i ==> #[trigger] widths@[j] as nat == spec_content_width(columns@, rows@, j, 0),
            decreases columns@.len() - i,
        {
            widths.push(crate::cells::display_width(columns[i].heading));
            i = i + 1;
        }
        let mut m: usize = 0;
        while m < rows.len()
            invariant
                m <= rows@.len(),
                widths@.len() == columns@.len(),
                forall|k: int| 0 <= k < rows@.len() ==> (#[trigger] rows@[k])@.len() == columns@.len(),
                forall|j: int|
                    0 <= j < columns@.len() ==> #[trigger] widths@[j] as nat == spec_content_width(
                        columns@,
                        rows@,
                        j,
                        m as int,
                    ),
            decreases rows@.len() - m,
        {
            let row = &rows[m];
            let mut j: usize = 0;
            while j < columns.len()
                invariant
                    j <= columns@.len(),
                    m < rows@.len(),
                    *row == rows@[m as int],
                    row@.len() == columns@.len(),
                    widths@.len() == columns@.len(),
                    forall|k: int|
                        0 <= k < j ==> #[trigger] widths@[k] as nat == spec_content_width(
                            columns@,
                            rows@,
                            k,
                            m + 1,
                        ),
                    forall|k: int|
                        j <= k < columns@.len() ==> #[trigger] widths@[k] as nat == spec_content_width(
                            columns@,
                            rows@,
                            k,
                            m as int,
                        ),
                decreases columns@.len() - j,
            {
                let w = crate::cells::display_width(row[j].as_str());
                if w > widths[j] {
                    widths.set(j, w);
                }
                j = j + 1;
            }
            m = m + 1;
        }
        TableViewData { generation, rows, content_widths: widths }
    }
}
} // verus!
