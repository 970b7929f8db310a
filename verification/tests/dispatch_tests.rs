use edp_tui::dispatch::TaskRequest;
use edp_tui::state::{AppState, BackupItem, DeviceRow, NavCommand, StateEffect, Workspace, WriteKind};

fn device(disk: u32) -> DeviceRow {
    DeviceRow {
        disk,
        size: 1 << 30,
        proto: "USB".to_string(),
        denied: false,
        probe_error: None,
        onlyid: Some(format!("ID{disk}")),
        device_id: None,
        identity_text: format!("盘{disk}"),
        kind_name: "普通盘".to_string(),
        vid: "0951".to_string(),
        pid: "1666".to_string(),
        user: None,
        dept: None,
    }
}

fn backup(path: &str) -> BackupItem {
    BackupItem {
        path: path.to_string(),
        file_name: path.to_string(),
        display_time: "2024-01-01 00:00".to_string(),
        content_sha256: Some("ab".to_string()),
        identity_text: String::new(),
        kind_name: "备份".to_string(),
        index: 1,
        kind_short_name: "备份".to_string(),
        user: None,
        dept: None,
        size_ok: true,
        integrity_verified: true,
    }
}

#[test]
fn refresh_scans_the_current_list() {
    let mut state = AppState::new();
    let (effect, requests) = state.dispatch_nav_command(NavCommand::Refresh, 10);
    assert_eq!(effect, StateEffect::NoEffect);
    assert_eq!(format!("{requests:?}"), format!("{:?}", vec![TaskRequest::DeviceScan]));
    assert!(state.device_scan_pending());
    state.navigate(NavCommand::NextWorkspace, 10);
    let (_, requests) = state.dispatch_nav_command(NavCommand::Refresh, 10);
    assert_eq!(format!("{requests:?}"), format!("{:?}", vec![TaskRequest::BackupScan]));
    assert!(state.backup_scan_pending());
}

#[test]
fn verify_needs_a_selected_backup() {
    let mut state = AppState::new();
    let (_, requests) = state.dispatch_nav_command(NavCommand::VerifyBackup, 10);
    assert!(requests.is_empty());
    assert_eq!(state.notice_after_millis(0), Some("当前没有可校验的备份。"));
    state.replace_backups(vec![backup("/b/one.edpb")]);
    state.navigate(NavCommand::WorkspaceBackups, 10);
    let (_, requests) = state.dispatch_nav_command(NavCommand::VerifyBackup, 10);
    assert_eq!(format!("{requests:?}"), format!("{:?}", vec![TaskRequest::VerifyBackup("/b/one.edpb".to_string())]));
    assert_eq!(state.notice_after_millis(0), Some("正在后台校验当前备份…"));
}

#[test]
fn backup_creation_needs_a_selected_device() {
    let mut state = AppState::new();
    let _ = state.dispatch_nav_command(NavCommand::BeginBackupCreate, 10);
    assert!(state.wizard().is_none());
    assert_eq!(state.notice_after_millis(0), Some("创建备份需要先在设备页选定 U 盘。"));
    state.replace_devices(vec![device(5)]);
    let (_, requests) = state.dispatch_nav_command(NavCommand::BeginBackupCreateDeep, 10);
    assert!(requests.is_empty());
    let wizard = state.wizard().expect("wizard");
    assert_eq!(wizard.kind, WriteKind::BackupCreateDeep);
    assert_eq!(wizard.disk, 5);
    assert_eq!(wizard.expected_identity.as_ref().unwrap().onlyid.as_deref(), Some("ID5"));
}

#[test]
fn inspect_requests_the_selected_disk() {
    let mut state = AppState::new();
    state.replace_devices(vec![device(3)]);
    let (_, requests) = state.dispatch_nav_command(NavCommand::OpenInspect, 10);
    assert_eq!(format!("{requests:?}"), format!("{:?}", vec![TaskRequest::InspectDisk(3)]));
}

#[test]
fn critical_operation_refuses_background_work() {
    let mut state = AppState::new();
    state.set_critical_operation(true);
    let (effect, requests) = state.dispatch_nav_command(NavCommand::Refresh, 10);
    assert_eq!(effect, StateEffect::NoEffect);
    assert!(requests.is_empty());
    assert!(!state.device_scan_pending());
    assert_eq!(
        state.notice_after_millis(0),
        Some("关键操作仍在执行，完成前不能切换页面或启动其他任务。")
    );
    let (effect, _) = state.dispatch_nav_command(NavCommand::Quit, 10);
    assert_eq!(effect, StateEffect::ExitDeferred);
}

#[test]
fn prune_switches_to_the_backup_tab() {
    let mut state = AppState::new();
    let (_, requests) = state.dispatch_nav_command(NavCommand::BeginBackupPrune, 10);
    assert!(requests.is_empty());
    assert_eq!(state.workspace(), Workspace::Backups);
    assert!(state.backup_prune().is_some());
}

#[test]
fn batch_delete_plans_the_ticked_backups() {
    let mut state = AppState::new();
    state.replace_backups(vec![backup("/b/one.edpb"), backup("/b/two.edpb")]);
    let (_, requests) = state.dispatch_nav_command(NavCommand::ToggleBackupSelection, 10);
    assert!(requests.is_empty());
    assert_eq!(state.notice_after_millis(0), Some("批量选择只在备份页可用。"));
    state.navigate(NavCommand::WorkspaceBackups, 10);
    let _ = state.dispatch_nav_command(NavCommand::ToggleBackupSelection, 10);
    let (_, requests) = state.dispatch_nav_command(NavCommand::BeginBackupBatchDelete, 10);
    assert_eq!(format!("{requests:?}"), format!("{:?}", vec![TaskRequest::BatchDeletePlan(vec![("/b/one.edpb".to_string(), "ab".to_string())])]));
}
