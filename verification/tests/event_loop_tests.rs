use edp_tui::event_loop::{LoopAction, LoopEvent};
use edp_tui::state::{AppState, NavCommand, WizardStage, WriteIntent, WriteKind};

#[test]
fn session_start_scans_both_lists() {
    let mut state = AppState::new();
    let actions = state.start_session(None);
    assert_eq!(actions, vec![LoopAction::RequestDeviceScan, LoopAction::RequestBackupScan]);
    assert!(state.device_scan_pending());
    assert!(state.backup_scan_pending());
    assert!(state.wizard().is_none());
}

#[test]
fn session_start_with_resume_intent_opens_wizard() {
    let mut state = AppState::new();
    let intent = WriteIntent {
        kind: WriteKind::Restore,
        disk: 3,
        backup: Some("/b/edp.edpb".to_string()),
        expected_identity: None,
    };
    let actions = state.start_session(Some(intent));
    assert_eq!(actions, vec![LoopAction::RequestDeviceScan, LoopAction::RequestBackupScan]);
    let wizard = state.wizard().expect("wizard open");
    assert_eq!(wizard.kind, WriteKind::Restore);
    assert_eq!(wizard.disk, 3);
    assert_eq!(wizard.stage, WizardStage::Confirm);
    assert_eq!(wizard.backup.as_deref(), Some("/b/edp.edpb"));
}

#[test]
fn tick_advances_animation_only() {
    let mut state = AppState::new();
    let actions = state.on_event(LoopEvent::Tick);
    assert!(actions.is_empty());
    assert_eq!(state.animation_frame(), 1);
}

#[test]
fn failed_device_scan_clears_pending_and_shows_message() {
    let mut state = AppState::new();
    let _ = state.start_session(None);
    let actions = state.on_event(LoopEvent::DeviceScanFailed("扫描失败".to_string()));
    assert!(actions.is_empty());
    assert!(!state.device_scan_pending());
    assert!(state.backup_scan_pending());
    assert_eq!(state.notice_after_millis(0), Some("扫描失败"));
}

#[test]
fn verified_backup_notice_names_the_file() {
    let mut state = AppState::new();
    let actions = state.on_event(LoopEvent::BackupVerified("a.edpb".to_string(), Ok(())));
    assert!(actions.is_empty());
    assert_eq!(
        state.notice_after_millis(0),
        Some("备份 a.edpb 校验通过：大小与 SHA-256 正常。")
    );
    let _ = state.on_event(LoopEvent::BackupVerified("a.edpb".to_string(), Err("坏了".to_string())));
    assert_eq!(state.notice_after_millis(0), Some("坏了"));
}

#[test]
fn successful_backup_creation_rescans_backups() {
    let mut state = AppState::new();
    assert!(state.begin_write_wizard(WriteKind::BackupCreate, 2, None));
    let actions = state.on_event(LoopEvent::WriteFinished(Ok(())));
    assert_eq!(actions, vec![LoopAction::RequestBackupScan]);
    assert!(state.backup_scan_pending());
    assert!(!state.device_scan_pending());
    assert_eq!(state.wizard().map(|w| w.stage), Some(WizardStage::Result));
}

#[test]
fn failed_backup_creation_does_not_rescan() {
    let mut state = AppState::new();
    assert!(state.begin_write_wizard(WriteKind::BackupCreate, 2, None));
    let actions = state.on_event(LoopEvent::WriteFinished(Err("写入失败".to_string())));
    assert!(actions.is_empty());
    assert!(!state.backup_scan_pending());
}

#[test]
fn finished_restore_does_not_rescan() {
    let mut state = AppState::new();
    assert!(state.begin_write_wizard(WriteKind::Restore, 2, Some("x".to_string())));
    let actions = state.on_event(LoopEvent::WriteFinished(Ok(())));
    assert!(actions.is_empty());
}

#[test]
fn successful_backup_delete_rescans_backups() {
    let mut state = AppState::new();
    let actions = state.on_event(LoopEvent::BackupDeleteFinished(Ok(())));
    assert_eq!(actions, vec![LoopAction::RequestBackupScan]);
    assert!(state.backup_scan_pending());
}

#[test]
fn successful_provision_write_rescans_both_lists() {
    let mut state = AppState::new();
    let actions = state.on_event(LoopEvent::ProvisionWritten(Ok("完成".to_string())));
    assert_eq!(actions, vec![LoopAction::RequestDeviceScan, LoopAction::RequestBackupScan]);
    assert!(state.device_scan_pending());
    assert!(state.backup_scan_pending());
    assert_eq!(state.provision().message.as_deref(), Some("完成"));
}

#[test]
fn drained_updates_without_exit_request_keep_running() {
    let mut state = AppState::new();
    let actions = state.on_event(LoopEvent::UpdatesDrained);
    assert!(actions.is_empty());
}

#[test]
fn deferred_exit_fires_once_the_critical_operation_ends() {
    let mut state = AppState::new();
    state.set_critical_operation(true);
    let _ = state.guard_critical_command(NavCommand::Quit);
    assert!(state.on_event(LoopEvent::UpdatesDrained).is_empty());
    assert!(state.exit_pending());
    state.set_critical_operation(false);
    assert_eq!(state.on_event(LoopEvent::UpdatesDrained), vec![LoopAction::Exit]);
    assert!(!state.exit_pending());
}
