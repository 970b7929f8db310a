use edp_tui::inspect::AdvancedInspectSource;
use edp_tui::navigation::NavigationLocation;
use edp_tui::pane::PaneId;
use edp_tui::provision::ProvisionStage;
use edp_tui::state::{AppState, BackupItem, DeviceRow, InputMode, NavCommand, StateEffect, Workspace};

fn device(disk: u32, proto: &str) -> DeviceRow {
    DeviceRow {
        disk,
        size: 1 << 30,
        proto: proto.to_string(),
        denied: false,
        probe_error: None,
        onlyid: None,
        device_id: None,
        identity_text: format!("盘{disk}"),
        kind_name: "普通盘".to_string(),
        vid: "0951".to_string(),
        pid: "1666".to_string(),
        user: None,
        dept: None,
    }
}

fn backup(path: &str, digest: bool) -> BackupItem {
    BackupItem {
        path: path.to_string(),
        file_name: path.to_string(),
        display_time: "2024-01-01 00:00".to_string(),
        content_sha256: if digest { Some("ab".to_string()) } else { None },
        identity_text: String::new(),
        kind_name: "备份".to_string(),
        index: 1,
        kind_short_name: "备份".to_string(),
        user: None,
        dept: None,
        size_ok: true,
        integrity_verified: true,
    }
}

fn with_devices() -> AppState {
    let mut state = AppState::new();
    state.replace_devices(vec![device(1, "USB"), device(4, "SATA"), device(7, "USB")]);
    state
}

#[test]
fn list_motion_stays_inside_the_list() {
    let mut state = with_devices();
    assert_eq!(state.item_count(), 3);
    assert_eq!(state.navigate(NavCommand::Down, 10), StateEffect::NoEffect);
    assert_eq!(state.selected(), 1);
    state.navigate(NavCommand::Bottom, 10);
    assert_eq!(state.selected(), 2);
    state.navigate(NavCommand::Down, 10);
    assert_eq!(state.selected(), 2);
    state.navigate(NavCommand::HalfPageUp, 10);
    assert_eq!(state.selected(), 0);
    state.navigate(NavCommand::HalfPageDown, 4);
    assert_eq!(state.selected(), 2);
    state.navigate(NavCommand::Up, 4);
    assert_eq!(state.selected(), 1);
    state.navigate(NavCommand::Top, 4);
    assert_eq!(state.selected(), 0);
    state.navigate(NavCommand::HalfPageDown, 1);
    assert_eq!(state.selected(), 1);
}

#[test]
fn quit_and_tab_switching() {
    let mut state = with_devices();
    assert_eq!(state.navigate(NavCommand::Quit, 10), StateEffect::ExitRequested);
    state.navigate(NavCommand::NextWorkspace, 10);
    assert_eq!(state.workspace(), Workspace::Backups);
    state.navigate(NavCommand::PreviousWorkspace, 10);
    assert_eq!(state.workspace(), Workspace::Devices);
    state.navigate(NavCommand::WorkspaceProvision, 10);
    assert_eq!(state.workspace(), Workspace::Provision);
    assert_eq!(state.provision().stage, ProvisionStage::SelectDisk);
    assert_eq!(state.item_count(), 2);
    state.navigate(NavCommand::PreviousWorkspace, 10);
    assert_eq!(state.workspace(), Workspace::Backups);
}

#[test]
fn search_palette_and_help_open_their_input_modes() {
    let mut state = with_devices();
    state.navigate(NavCommand::Search, 10);
    assert_eq!(state.input_mode(), InputMode::Search);
    state.push_input_char('7');
    assert_eq!(state.item_count(), 1);
    state.navigate(NavCommand::Escape, 10);
    assert_eq!(state.input_mode(), InputMode::Normal);
    assert_eq!(state.item_count(), 3);
    state.navigate(NavCommand::CommandPalette, 10);
    assert_eq!(state.input_mode(), InputMode::Command);
    state.navigate(NavCommand::Help, 10);
    assert_eq!(state.input_mode(), InputMode::Help);
}

#[test]
fn critical_operations_defer_quit_and_refuse_other_commands() {
    let mut state = with_devices();
    state.set_critical_operation(true);
    assert_eq!(state.navigate(NavCommand::Down, 10), StateEffect::NoEffect);
    assert_eq!(state.selected(), 0);
    assert_eq!(state.navigate(NavCommand::Quit, 10), StateEffect::ExitDeferred);
    assert!(state.exit_pending());
    state.set_critical_operation(false);
    assert_eq!(state.take_deferred_exit(), StateEffect::ExitRequested);
}

#[test]
fn escape_from_the_provision_disk_list_returns_to_the_saved_frame() {
    let mut state = with_devices();
    state.navigate(NavCommand::Down, 10);
    state.navigate(NavCommand::Down, 10);
    state.push_navigation_frame(NavigationLocation::Devices);
    state.navigate(NavCommand::WorkspaceProvision, 10);
    assert_eq!(state.workspace(), Workspace::Provision);
    state.navigate(NavCommand::Escape, 10);
    assert_eq!(state.workspace(), Workspace::Devices);
    assert_eq!(state.selected(), 2);
    assert_eq!(state.navigation().depth(), 0);
    state.navigate(NavCommand::WorkspaceProvision, 10);
    state.navigate(NavCommand::Escape, 10);
    assert_eq!(state.workspace(), Workspace::Devices);
    assert_eq!(state.selected(), 0);
}

#[test]
fn a_rescan_keeps_the_selected_device_and_drops_vanished_targets() {
    let mut state = with_devices();
    state.navigate(NavCommand::Bottom, 10);
    assert_eq!(state.selected_device_disk(), Some(7));
    state.replace_devices(vec![device(7, "USB"), device(1, "USB")]);
    assert_eq!(state.selected(), 0);
    assert_eq!(state.selected_device_disk(), Some(7));
    state.replace_devices(vec![device(1, "USB")]);
    assert_eq!(state.selected(), 0);
    assert_eq!(state.item_count(), 1);
    assert!(!state.device_scan_pending());
}

#[test]
fn a_backup_rescan_keeps_only_selectable_batch_entries() {
    let mut state = AppState::new();
    state.navigate(NavCommand::WorkspaceBackups, 10);
    state.replace_backups(vec![backup("a.bin", true), backup("b.bin", true), backup("c.bin", false)]);
    assert_eq!(state.item_count(), 3);
    state.toggle_selected_backup();
    state.navigate(NavCommand::Down, 10);
    state.toggle_selected_backup();
    assert_eq!(state.backup_selection.len(), 2);
    state.replace_backups(vec![backup("b.bin", true), backup("a.bin", false)]);
    assert_eq!(state.backup_selection, vec!["b.bin".to_string()]);
    assert_eq!(state.selected(), 0);
    assert_eq!(state.selected_backup_path(), Some("b.bin".to_string()));
}

#[test]
fn inspect_requests_name_the_metadata_sectors_and_the_device_identity() {
    let mut state = AppState::new();
    assert_eq!(state.advanced_inspect_request(4).err(), Some("全盘检查未打开".to_string()));
    let mut row = device(3, "USB");
    row.device_id = Some("DEV-3".to_string());
    state.replace_devices(vec![device(1, "USB"), row]);
    assert!(state.begin_advanced_inspect(AdvancedInspectSource::Disk(3)));
    let (source, request) = state.advanced_inspect_request(4).unwrap();
    assert!(matches!(source, AdvancedInspectSource::Disk(3)));
    assert_eq!(request.lbas, vec![0, 1, 2, 3]);
    assert_eq!(request.device_id_override, Some("DEV-3".to_string()));
}

#[test]
fn pane_viewports_can_be_changed_in_place() {
    let mut state = AppState::new();
    state.pane_viewport_mut(PaneId::ProvisionParameters).scroll_x = 5;
    assert_eq!(state.pane_viewport(PaneId::ProvisionParameters).scroll_x, 5);
}

#[test]
fn the_open_prune_wizard_can_be_edited_in_place() {
    let mut state = AppState::new();
    assert!(state.backup_prune_mut().is_none());
    assert!(state.begin_backup_prune());
    state.backup_prune_mut().unwrap().message = Some("note".to_string());
    assert_eq!(state.backup_prune().unwrap().message, Some("note".to_string()));
}

#[test]
fn a_default_state_is_an_empty_device_list() {
    let state = AppState::default();
    assert_eq!(state.workspace(), Workspace::Devices);
    assert_eq!(state.item_count(), 0);
    assert_eq!(state.navigation().depth(), 0);
}

#[test]
fn notices_show_for_four_seconds() {
    let mut state = AppState::new();
    assert_eq!(state.notice_after_millis(0), None);
    state.set_notice("保存完成".to_string());
    assert_eq!(state.notice_after_millis(10), Some("保存完成"));
    assert_eq!(state.notice_after_millis(3_999), Some("保存完成"));
    assert_eq!(state.notice_after_millis(4_000), None);
    assert_eq!(state.notice(), Some("保存完成"));
}
