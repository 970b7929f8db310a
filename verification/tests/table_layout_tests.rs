use edp_tui::table_layout::{
    AdaptiveColumnSpec, AdaptiveTableLayout, TruncatePolicy, VisibleColumn,
};

fn col(min: u16, preferred: u16, max: u16, priority: u8, weight: u16, pinned: bool) -> AdaptiveColumnSpec {
    AdaptiveColumnSpec {
        min_width: min,
        preferred_width: preferred,
        max_width: max,
        priority,
        weight,
        truncate_policy: TruncatePolicy::Ellipsis,
        pinned,
    }
}

fn shown(columns: &[VisibleColumn]) -> Vec<(usize, u16)> {
    columns.iter().map(|c| (c.index, c.width)).collect()
}

fn three() -> AdaptiveTableLayout {
    AdaptiveTableLayout::new(vec![
        col(3, 5, 8, 100, 1, true),
        col(4, 6, 10, 50, 1, false),
        col(4, 6, 10, 40, 2, false),
    ])
}

#[test]
fn wide_tables_grow_columns_to_preferred_then_share_the_rest() {
    let view = three().layout(20, &[0, 0, 0], 0);
    assert_eq!(shown(&view.columns), vec![(0, 6), (1, 6), (2, 6)]);
    assert_eq!(view.first_scrollable_column, 0);
    assert_eq!(view.scrollable_columns, 2);
}

#[test]
fn narrow_tables_show_only_the_scrollable_columns_that_fit() {
    let view = three().layout(10, &[0, 0, 0], 0);
    assert_eq!(shown(&view.columns), vec![(0, 5), (1, 4)]);
    let scrolled = three().layout(10, &[0, 0, 0], 1);
    assert_eq!(shown(&scrolled.columns), vec![(0, 5), (2, 4)]);
    assert_eq!(scrolled.first_scrollable_column, 1);
    let past_end = three().layout(10, &[0, 0, 0], 9);
    assert_eq!(past_end.first_scrollable_column, 1);
    let tiny = three().layout(6, &[0, 0, 0], 0);
    assert_eq!(shown(&tiny.columns), vec![(0, 6)]);
}

#[test]
fn content_widths_raise_the_preferred_width_up_to_the_maximum() {
    let view = three().layout(20, &[7, 0, 30], 0);
    // Pinned column grows to its content (7), the last column to its maximum share.
    assert_eq!(shown(&view.columns), vec![(0, 7), (1, 6), (2, 5)]);
}

#[test]
fn pinned_columns_are_dropped_least_important_first_but_never_the_first() {
    let layout = AdaptiveTableLayout::new(vec![
        col(5, 5, 5, 100, 1, true),
        col(5, 5, 5, 10, 1, true),
        col(5, 5, 5, 20, 1, true),
        col(2, 2, 2, 50, 1, false),
    ]);
    let view = layout.layout(9, &[], 0);
    assert_eq!(shown(&view.columns), vec![(0, 5), (3, 2)]);
    assert_eq!(view.scrollable_columns, 1);
}

#[test]
fn minimum_widths_shrink_when_they_overflow() {
    let layout = AdaptiveTableLayout::new(vec![col(10, 12, 14, 1, 1, true)]);
    let view = layout.layout(4, &[], 0);
    assert_eq!(shown(&view.columns), vec![(0, 4)]);
}

#[test]
fn empty_width_or_schema_lays_out_nothing() {
    let view = three().layout(0, &[], 3);
    assert!(view.columns.is_empty());
    assert_eq!(view.first_scrollable_column, 0);
    assert_eq!(view.scrollable_columns, 2);
    let none = AdaptiveTableLayout::new(Vec::new()).layout(80, &[], 0);
    assert!(none.columns.is_empty());
    assert_eq!(none.scrollable_columns, 0);
}
