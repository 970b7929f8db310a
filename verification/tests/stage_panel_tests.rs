use edp_tui::inspect::AdvancedInspectSource;
use edp_tui::provision::ProvisionStage;
use edp_tui::stage_panels::PanelTone;
use edp_tui::state::AppState;

#[test]
fn provision_menu_has_no_text_panel() {
    assert!(AppState::new().provision_panel().is_none());
}

#[test]
fn confirm_panel_echoes_the_typed_confirmation() {
    let mut state = AppState::new();
    state.provision_mut().stage = ProvisionStage::Confirm;
    state.provision_mut().confirmation = "YE".to_string();
    let panel = state.provision_panel().expect("panel");
    assert_eq!(panel.title, "最终确认");
    assert_eq!(panel.tone, PanelTone::Danger);
    assert_eq!(panel.lines[2], "精确输入 YES 后按 Enter： YE");
    assert!(!panel.centered);
}

#[test]
fn result_panel_warns_on_a_formatting_failure() {
    let mut state = AppState::new();
    state.provision_mut().stage = ProvisionStage::Result;
    state.provision_mut().message = Some("写盘：✓\n格式化：✗".to_string());
    let panel = state.provision_panel().unwrap();
    assert_eq!(panel.tone, PanelTone::Warning);
    assert_eq!(panel.lines[1], "写盘：✓\n格式化：✗");
    state.provision_mut().message = None;
    let panel = state.provision_panel().unwrap();
    assert_eq!(panel.tone, PanelTone::Success);
    assert_eq!(panel.lines[1], "操作结束");
}

#[test]
fn planning_panel_shows_the_default_progress() {
    let mut state = AppState::new();
    state.provision_mut().stage = ProvisionStage::Planning;
    let panel = state.provision_panel().unwrap();
    assert_eq!(panel.heading, "◈  正在生成精确计划");
    assert_eq!(panel.lines[1], "正在只读检查目标盘…");
}

#[test]
fn inspection_panels_while_loading_and_after_failure() {
    let mut state = AppState::new();
    assert!(state.begin_advanced_inspect(AdvancedInspectSource::Disk(1)));
    let loading = state.advanced_inspect_panel().expect("loading");
    assert_eq!(loading.heading, "◈ 正在建立全盘结构树");
    state.advanced_inspect_finish(Err("读盘失败".to_string()));
    let failed = state.advanced_inspect_panel().expect("failed");
    assert_eq!(failed.heading, "全盘结构加载失败");
    assert_eq!(failed.lines[1], "读盘失败");
    assert_eq!(failed.tone, PanelTone::Danger);
}
