use edp_tui::capacity::resolve_quick_sectors;
use edp_tui::command::{parse_command, PaletteAction};
use edp_tui::event_loop::LoopEvent;
use edp_tui::keymap::{nav_command_for, TuiAction};
use edp_tui::capacity::QuickCapacityUnit;
use edp_tui::state::{AppState, BackupItem, DeviceRow, NavCommand};

fn device(disk: u32) -> DeviceRow {
    DeviceRow {
        disk,
        size: 1 << 30,
        proto: "USB".to_string(),
        denied: false,
        probe_error: None,
        onlyid: Some(format!("ID{disk}")),
        device_id: None,
        identity_text: format!("盘{disk}"),
        kind_name: "普通盘".to_string(),
        vid: "0951".to_string(),
        pid: "1666".to_string(),
        user: None,
        dept: None,
    }
}

fn backup(path: &str, sha: Option<&str>) -> BackupItem {
    BackupItem {
        path: path.to_string(),
        file_name: path.to_string(),
        display_time: "2024-01-01 00:00".to_string(),
        content_sha256: sha.map(|s| s.to_string()),
        identity_text: String::new(),
        kind_name: "备份".to_string(),
        index: 1,
        kind_short_name: "备份".to_string(),
        user: None,
        dept: None,
        size_ok: true,
        integrity_verified: true,
    }
}

#[test]
fn palette_lines_with_one_word_name_one_action() {
    assert_eq!(parse_command("  :QUIT  "), parse_command("quit"));
    assert_eq!(parse_command("::  Backups "), Ok(PaletteAction::Backups));
    assert_eq!(parse_command(" : "), Err("命令不能为空".to_string()));
    assert_eq!(parse_command(":nope"), Err("未知 TUI 命令: :nope".to_string()));
}

#[test]
fn edited_quick_capacity_ignores_the_exact_field() {
    let a = resolve_quick_sectors("1.000", "999", QuickCapacityUnit::MiB, true, "启动区");
    let b = resolve_quick_sectors("1.000", "5", QuickCapacityUnit::MiB, true, "启动区");
    assert_eq!(a, Ok(2048));
    assert_eq!(a, b);
    let untouched = resolve_quick_sectors("1.000", "2049", QuickCapacityUnit::MiB, false, "启动区");
    assert_eq!(untouched, Ok(2049));
}

#[test]
fn ticking_a_backup_twice_restores_the_selection() {
    let mut state = AppState::new();
    state.replace_backups(vec![backup("/b/one.edpb", Some("ab")), backup("/b/two.edpb", Some("cd"))]);
    state.navigate(NavCommand::WorkspaceBackups, 10);
    state.toggle_selected_backup();
    assert!(state.backup_is_selected("/b/one.edpb"));
    assert!(!state.backup_is_selected("/b/two.edpb"));
    state.toggle_selected_backup();
    assert!(!state.backup_is_selected("/b/one.edpb"));
    assert!(!state.backup_is_selected("/b/two.edpb"));
}

#[test]
fn a_backup_without_digest_is_never_ticked() {
    let mut state = AppState::new();
    state.replace_backups(vec![backup("/b/one.edpb", None)]);
    state.navigate(NavCommand::WorkspaceBackups, 10);
    state.toggle_selected_backup();
    assert!(!state.backup_is_selected("/b/one.edpb"));
    assert_eq!(
        state.notice_after_millis(0),
        Some("当前备份缺少固定 SHA-256，不能加入批量删除选择。")
    );
}

#[test]
fn finished_inspection_clears_the_pending_flag() {
    let mut state = AppState::new();
    state.replace_devices(vec![device(3)]);
    let _ = state.dispatch_nav_command(NavCommand::OpenInspect, 10);
    assert!(state.inspect_pending());
    let actions = state.on_event(LoopEvent::InspectFinished(Err("读取失败".to_string())));
    assert!(actions.is_empty());
    assert!(!state.inspect_pending());
    assert_eq!(state.notice_after_millis(0), Some("读取失败"));
    let _ = state.dispatch_nav_command(NavCommand::OpenInspect, 10);
    assert!(state.inspect_pending());
    let _ = state.on_event(LoopEvent::InspectFinished(Ok(())));
    assert!(!state.inspect_pending());
}

#[test]
fn keymap_actions_name_their_workspace_commands() {
    assert_eq!(nav_command_for(TuiAction::MoveDown), Some(NavCommand::Down));
    assert_eq!(nav_command_for(TuiAction::Back), Some(NavCommand::Escape));
    assert_eq!(nav_command_for(TuiAction::Command), Some(NavCommand::CommandPalette));
    assert_eq!(nav_command_for(TuiAction::Toggle), Some(NavCommand::ToggleBackupSelection));
    assert_eq!(nav_command_for(TuiAction::WorkspaceNext), Some(NavCommand::NextWorkspace));
    assert_eq!(nav_command_for(TuiAction::Text('x')), None);
}
