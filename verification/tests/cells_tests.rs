use edp_tui::cells::{
    display_width, fit_display_width, hard_wrap_value, input_value_window, truncate_cell, visible_window,
    wrapped_field_parts,
};
use edp_tui::table_layout::TruncatePolicy;

#[test]
fn hard_wrap_breaks_unspaced_values_by_terminal_display_width() {
    assert_eq!(hard_wrap_value("abcdefghijkl", 5), vec!["abcde", "fghij", "kl"]);
    assert_eq!(hard_wrap_value("江苏省电力", 6), vec!["江苏省", "电力"]);
}

#[test]
fn wrapped_field_keeps_the_first_value_chunk_on_the_label_line() {
    let lines = wrapped_field_parts("文件  ", "abcdefghijkl", 10);
    assert_eq!(lines.len(), 3);
    assert_eq!(lines[0].0, "文件  ");
    assert_eq!(lines[0].1, "abcd");
    assert_eq!(lines[1].1, "efgh");
    assert_eq!(lines[2].1, "ijkl");
    assert_eq!(lines[1].0, "      ");
}

#[test]
fn active_input_window_does_not_pad_selected_background_to_cell_width() {
    assert_eq!(input_value_window("abc", 3, 12, false), "abc│");
    assert_eq!(input_value_window("secret", 6, 12, true), "••••••│");
    assert_eq!(input_value_window("1486288249", 10, 12, false), "1486288249│");
    assert_eq!(display_width(&input_value_window("1486288249", 10, 10, false)), 10);
}

#[test]
fn large_tables_only_build_the_rows_visible_in_the_viewport() {
    let window = visible_window(50_000, 100_000, 24);
    assert!(window.contains(&50_000));
    assert_eq!(window.len(), 21);
}

#[test]
fn input_window_scrolls_with_markers() {
    assert_eq!(input_value_window("abcdefgh", 4, 6, false), "‹cd│e›");
    assert_eq!(input_value_window("abc", 0, 1, false), "│");
    assert_eq!(input_value_window("abc", 9, 0, false), "");
}

#[test]
fn display_width_counts_wide_characters() {
    assert_eq!(display_width("江苏"), 4);
    assert_eq!(display_width(""), 0);
    assert_eq!(hard_wrap_value("", 3), vec![""]);
    assert_eq!(hard_wrap_value("ab", 0), vec!["a", "b"]);
}

#[test]
fn truncate_cell_keeps_graphemes_whole() {
    assert_eq!(truncate_cell("abcdef", 10, TruncatePolicy::Ellipsis), "abcdef");
    assert_eq!(truncate_cell("abcdef", 4, TruncatePolicy::Ellipsis), "abc…");
    assert_eq!(truncate_cell("abcdef", 4, TruncatePolicy::Clip), "abcd");
    assert_eq!(truncate_cell("abcdef", 0, TruncatePolicy::Clip), "");
    assert_eq!(truncate_cell("e\u{301}e\u{301}e\u{301}", 2, TruncatePolicy::Clip), "e\u{301}e\u{301}");
    assert_eq!(truncate_cell("江苏省", 5, TruncatePolicy::Ellipsis), "江苏…");
}

#[test]
fn fit_display_width_pads_or_cuts() {
    assert_eq!(fit_display_width("ab", 4), "ab  ");
    assert_eq!(fit_display_width("abcdef", 4), "abc…");
    assert_eq!(fit_display_width("江苏省", 4), "江… ");
    assert_eq!(fit_display_width("abc", 1), "│");
    assert_eq!(fit_display_width("abc", 0), "");
}

#[test]
fn visible_window_clamps_at_the_ends() {
    assert_eq!(visible_window(0, 5, 24), 0..5);
    assert_eq!(visible_window(99, 100, 13), 90..100);
    assert_eq!(visible_window(3, 100, 2), 3..4);
}
