use edp_tui::command::{parse_command, PaletteAction};

#[test]
fn palette_exposes_provision_deep_backup_and_prune() {
    assert_eq!(parse_command(":provision").unwrap(), PaletteAction::Provision);
    assert_eq!(parse_command("deep-backup").unwrap(), PaletteAction::BackupCreateDeep);
    assert_eq!(parse_command("prune").unwrap(), PaletteAction::BackupPrune);
    assert_eq!(parse_command("offline-convert").unwrap(), PaletteAction::OfflineConvert);
    assert_eq!(parse_command("list").unwrap(), PaletteAction::Devices);
    assert_eq!(parse_command("info").unwrap(), PaletteAction::Devices);
    assert_eq!(parse_command("convert").unwrap(), PaletteAction::OfflineConvert);
}

#[test]
fn palette_trims_colons_and_case() {
    assert_eq!(parse_command("  :: QUIT ").unwrap(), PaletteAction::Quit);
    assert_eq!(parse_command(": Help").unwrap(), PaletteAction::Help);
}

#[test]
fn palette_rejects_empty_and_unknown_commands() {
    assert_eq!(parse_command("  :  ").unwrap_err(), "命令不能为空");
    assert_eq!(parse_command("launch").unwrap_err(), "未知 TUI 命令: launch");
}
