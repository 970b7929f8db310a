use edp_tui::list_view::{ListKind, SearchTone};
use edp_tui::state::{AppState, BackupItem, NavCommand};

fn backup(path: &str) -> BackupItem {
    BackupItem {
        path: path.to_string(),
        file_name: path.to_string(),
        display_time: "2024-01-01 00:00".to_string(),
        content_sha256: None,
        identity_text: String::new(),
        kind_name: "备份".to_string(),
        index: 1,
        kind_short_name: "备份".to_string(),
        user: None,
        dept: None,
        size_ok: true,
        integrity_verified: true,
    }
}

#[test]
fn empty_device_list_explains_itself() {
    let state = AppState::new();
    let panel = state.list_panel(ListKind::Devices);
    assert_eq!(panel.title, "设备列表 (0)");
    let lines = panel.empty_lines.expect("empty notice");
    assert_eq!(lines.len(), 6);
    assert_eq!(lines[0], "暂无设备数据");
    assert_eq!(lines[3], "按 r 刷新设备；插入 U 盘后可再次扫描。");
    assert_eq!(lines[5], "Tab / Shift-Tab 切换设备与备份标签。");
}

#[test]
fn scanning_lists_say_so_in_the_title() {
    let mut state = AppState::new();
    let _ = state.start_session(None);
    assert_eq!(state.list_panel(ListKind::Devices).title, "设备列表 (0) · 扫描中…");
    assert_eq!(state.list_panel(ListKind::Backups).title, "备份列表 (0) · 扫描中…");
}

#[test]
fn backup_list_counts_rows_and_drops_the_empty_notice() {
    let mut state = AppState::new();
    state.replace_backups(vec![backup("/b/one.edpb"), backup("/b/two.edpb")]);
    let panel = state.list_panel(ListKind::Backups);
    assert_eq!(panel.title, "备份列表 (2)");
    assert!(panel.empty_lines.is_none());
    let empty = AppState::new().list_panel(ListKind::Backups).empty_lines.unwrap();
    assert_eq!(empty.len(), 4);
    assert_eq!(empty[0], "暂无备份记录");
}

#[test]
fn filtered_list_shows_shown_over_total() {
    let mut state = AppState::new();
    state.replace_backups(vec![backup("/b/one.edpb"), backup("/b/two.edpb")]);
    state.navigate(NavCommand::NextWorkspace, 10);
    state.navigate(NavCommand::Search, 10);
    state.push_input_char('z');
    let panel = state.list_panel(ListKind::Backups);
    assert_eq!(panel.title, "备份列表 (0/2)");
    assert_eq!(panel.empty_lines.unwrap()[0], "没有匹配记录");
    let search = state.backup_search_box();
    assert_eq!(search.text, "/z▌");
    assert_eq!(search.title, "搜索 · 实时过滤");
    assert_eq!(search.tone, SearchTone::Typing);
}

#[test]
fn idle_search_box_prompts() {
    let state = AppState::new();
    let search = state.backup_search_box();
    assert_eq!(search.text, "/ 搜索姓名、部门、onlyid");
    assert_eq!(search.title, "搜索");
    assert_eq!(search.tone, SearchTone::Idle);
}

#[test]
fn backup_rows_show_tick_number_identity_and_health() {
    let mut state = AppState::new();
    let mut item = backup("/b/one.edpb");
    item.content_sha256 = Some("ab".to_string());
    item.index = 7;
    item.user = Some("李四".to_string());
    state.replace_backups(vec![item.clone()]);
    assert_eq!(
        state.backup_row_cells(&item),
        vec!["", "7", "2024-01-01 00:00", "备份", "李四", "—", "EDPB ✓"]
    );
    state.navigate(NavCommand::WorkspaceBackups, 10);
    let _ = state.dispatch_nav_command(NavCommand::ToggleBackupSelection, 10);
    assert_eq!(state.backup_row_cells(&item)[0], "✓");
    item.size_ok = false;
    assert_eq!(edp_tui::list_view::backup_health_text(&item), "大小异常");
    item.size_ok = true;
    item.integrity_verified = false;
    assert_eq!(edp_tui::list_view::backup_health_text(&item), "EDPB ✗");
}
