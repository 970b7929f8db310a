use edp_tui::dispatch::TaskRequest;
use edp_tui::event_loop::{refused_request_event, LoopEvent};
use edp_tui::inspect::{normalize_items, InspectSectorItem};
use edp_tui::keymap::{KeyCode, KeyInput};
use edp_tui::state::{AppState, InputMode, NavCommand, StateEffect, Workspace, WriteKind};

fn key(code: KeyCode) -> KeyInput {
    KeyInput { code, ctrl: false, release: false }
}

fn typed(state: &mut AppState, text: &str) {
    for ch in text.chars() {
        let out = state.on_key(key(KeyCode::Char(ch)), 10, true);
        assert!(out.consumed);
    }
}

#[test]
fn fresh_state_has_nothing_pending() {
    let state = AppState::new();
    assert!(!state.device_scan_pending());
    assert!(!state.backup_scan_pending());
    assert!(!state.inspect_pending());
    assert_eq!(state.notice_after_millis(0), None);
}

#[test]
fn keys_without_an_open_flow_go_to_the_keymap() {
    let mut state = AppState::new();
    let out = state.on_key(key(KeyCode::Char('j')), 10, true);
    assert!(!out.consumed);
    assert!(out.requests.is_empty());
    let release = KeyInput { code: KeyCode::Char('j'), ctrl: false, release: true };
    assert!(state.on_key(release, 10, true).consumed);
}

#[test]
fn confirmed_restore_restarts_elevated_when_not_elevated() {
    let mut state = AppState::new();
    assert!(state.begin_write_wizard(WriteKind::Restore, 2, Some("b.edpb".to_string())));
    typed(&mut state, "YES");
    let out = state.on_key(key(KeyCode::Enter), 10, false);
    assert!(out.consumed);
    assert!(out.requests.is_empty());
    let intent = out.elevate.expect("elevation");
    assert_eq!(intent.kind, WriteKind::Restore);
    assert_eq!(intent.disk, 2);
}

#[test]
fn confirmed_backup_starts_the_backup_task_when_elevated() {
    let mut state = AppState::new();
    assert!(state.begin_write_wizard(WriteKind::BackupCreate, 4, None));
    typed(&mut state, "YES");
    let out = state.on_key(key(KeyCode::Enter), 10, true);
    assert!(out.elevate.is_none());
    assert_eq!(out.requests.len(), 1);
    assert!(matches!(&out.requests[0], TaskRequest::BackupCreate(i) if i.disk == 4));
    assert!(state.is_critical_operation());
}

#[test]
fn wrong_confirmation_starts_nothing() {
    let mut state = AppState::new();
    assert!(state.begin_write_wizard(WriteKind::Restore, 2, Some("b".to_string())));
    typed(&mut state, "yes");
    let out = state.on_key(key(KeyCode::Enter), 10, true);
    assert!(out.requests.is_empty());
    assert!(out.elevate.is_none());
    assert!(!state.is_critical_operation());
}

#[test]
fn command_line_runs_palette_actions() {
    let mut state = AppState::new();
    state.navigate(NavCommand::CommandPalette, 10);
    assert_eq!(state.input_mode(), InputMode::Command);
    typed(&mut state, "backups");
    let out = state.on_key(key(KeyCode::Enter), 10, true);
    assert!(out.consumed);
    assert_eq!(state.workspace(), Workspace::Backups);
    assert_eq!(state.input_mode(), InputMode::Normal);

    state.navigate(NavCommand::CommandPalette, 10);
    typed(&mut state, "xyz");
    let _ = state.on_key(key(KeyCode::Enter), 10, true);
    assert_eq!(state.notice_after_millis(0), Some("未知 TUI 命令: xyz"));

    state.navigate(NavCommand::CommandPalette, 10);
    typed(&mut state, "quit");
    let out = state.on_key(key(KeyCode::Enter), 10, true);
    assert_eq!(out.effect, StateEffect::ExitRequested);
}

#[test]
fn prune_keep_count_plans_in_the_background() {
    let mut state = AppState::new();
    let _ = state.dispatch_nav_command(NavCommand::BeginBackupPrune, 10);
    let out = state.on_key(key(KeyCode::Char('x')), 10, true);
    assert!(out.consumed);
    let out = state.on_key(key(KeyCode::Enter), 10, true);
    assert_eq!(format!("{:?}", out.requests), format!("{:?}", vec![TaskRequest::PrunePlan(3)]));
    let out = state.on_key(key(KeyCode::Esc), 10, true);
    assert!(out.consumed);
    assert!(state.backup_prune().is_some());
    assert_eq!(state.notice_after_millis(0), Some("清理计划正在后台生成，请等待完成。"));
}

#[test]
fn a_refused_task_reports_as_its_flow_expects() {
    let event = refused_request_event(&TaskRequest::BackupDelete("p".to_string(), "h".to_string()), "busy".to_string());
    assert!(matches!(event, Some(LoopEvent::BackupDeleteFinished(Err(ref m))) if m == "busy"));
    assert!(refused_request_event(&TaskRequest::DeviceScan, "x".to_string()).is_none());
}

fn item(lba: u64, tag: &str) -> InspectSectorItem {
    InspectSectorItem {
        lba,
        raw: vec![0u8; 4],
        fields: Vec::new(),
        decoded: Some(vec![1u8; 4]),
        decode_error: None,
        meta_text: Some(tag.to_string()),
    }
}

#[test]
fn inspection_items_are_put_in_sector_order() {
    let items = normalize_items(vec![item(5, "a"), item(1, "b"), item(5, "c"), item(3, "d")]);
    let lbas: Vec<u64> = items.iter().map(|i| i.lba).collect();
    assert_eq!(lbas, vec![1, 3, 5]);
    assert_eq!(items[2].meta_text.as_deref(), Some("a"));
    let sorted = normalize_items(vec![item(0, "x"), item(2, "y")]);
    assert_eq!(sorted.iter().map(|i| i.lba).collect::<Vec<_>>(), vec![0, 2]);
}
