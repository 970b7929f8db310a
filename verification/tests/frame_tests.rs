use edp_tui::animation::CoreMode;
use edp_tui::frame_plan::BodyPanel;
use edp_tui::state::{AppState, DeviceRow, NavCommand, WriteKind};
use edp_tui::table_layout::{layout_for, TableKind};

fn device(disk: u32) -> DeviceRow {
    DeviceRow {
        disk,
        size: 1 << 30,
        proto: "USB".to_string(),
        denied: false,
        probe_error: None,
        onlyid: None,
        device_id: None,
        identity_text: format!("盘{disk}"),
        kind_name: "普通盘".to_string(),
        vid: "0951".to_string(),
        pid: "1666".to_string(),
        user: None,
        dept: None,
    }
}

#[test]
fn idle_frame_is_interactive_on_the_device_tab() {
    let state = AppState::new();
    let plan = state.frame_plan();
    assert_eq!(plan.core_mode, CoreMode::Stable);
    assert_eq!(plan.core_activity, "INTERACTIVE");
    assert_eq!(plan.mode_label, "NORMAL");
    assert_eq!(plan.tab_index, 0);
    assert!(!plan.overlay_active);
    assert_eq!(plan.body, BodyPanel::Devices);
}

#[test]
fn scanning_and_critical_states_change_the_core() {
    let mut state = AppState::new();
    let _ = state.start_session(None);
    let plan = state.frame_plan();
    assert_eq!(plan.core_mode, CoreMode::Busy);
    assert_eq!(plan.core_activity, "BACKGROUND SCAN");
    state.set_critical_operation(true);
    let plan = state.frame_plan();
    assert_eq!(plan.core_mode, CoreMode::Guard);
    assert_eq!(plan.core_activity, "SAFE TRANSACTION");
}

#[test]
fn wizard_takes_the_body_as_an_overlay() {
    let mut state = AppState::new();
    assert!(state.begin_write_wizard(WriteKind::Restore, 1, Some("b".to_string())));
    let plan = state.frame_plan();
    assert_eq!(plan.core_activity, "USER FLOW");
    assert_eq!(plan.mode_label, "CONFIRM");
    assert!(plan.overlay_active);
    assert_eq!(plan.body, BodyPanel::WriteWizard);
    assert_eq!(
        state.status_line("", None, false, false),
        "输入 YES  ·  Backspace 删除  ·  Enter 执行  ·  Esc 返回"
    );
}

#[test]
fn backup_tab_selects_the_second_tab() {
    let mut state = AppState::new();
    state.navigate(NavCommand::NextWorkspace, 10);
    let plan = state.frame_plan();
    assert_eq!(plan.tab_index, 1);
    assert_eq!(plan.body, BodyPanel::Backups);
    assert_eq!(
        state.status_line("", None, false, false),
        "Tab/Shift-Tab 标签 · b 新建 · r 刷新 · Esc 当前标签 · q 退出"
    );
}

#[test]
fn device_status_line_shows_the_column_position() {
    let mut state = AppState::new();
    assert_eq!(
        state.status_line("", None, false, false),
        "Tab/Shift-Tab 标签 · r 刷新 · Esc 当前标签 · q 退出"
    );
    state.replace_devices(vec![device(1), device(2)]);
    let count = layout_for(TableKind::Devices).scrollable_count();
    assert_eq!(
        state.status_line("", None, false, false),
        format!(
            "Tab/Shift-Tab 标签 · j/k 移动 · h/l 横向滚动 · 1/{count} 列 · Enter 制盘 · i Inspect · b 新建备份 · Esc 当前标签 · q 退出"
        )
    );
}

#[test]
fn critical_status_line_explains_the_deferred_exit() {
    let mut state = AppState::new();
    state.set_critical_operation(true);
    assert_eq!(
        state.status_line("", None, false, false),
        "关键写盘阶段：Esc 不退出；q / Ctrl-C 将延迟到安全检查点"
    );
}

#[test]
fn search_and_help_status_lines() {
    let mut state = AppState::new();
    state.navigate(NavCommand::Search, 10);
    state.push_input_char('a');
    assert_eq!(
        state.status_line("", None, false, false),
        "/a  ·  输入即过滤  ·  Enter 确认  ·  Esc 取消编辑"
    );
    assert_eq!(state.frame_plan().mode_label, "SEARCH");
    let mut help = AppState::new();
    help.navigate(NavCommand::Help, 10);
    assert_eq!(help.status_line("", None, false, false), "Esc 返回  ·  q 退出");
    assert_eq!(help.frame_plan().body, BodyPanel::Help);
}
