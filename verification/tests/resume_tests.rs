use edp_tui::resume::{parse_resume_args, resume_argv, startup_elevation_argv};
use edp_tui::state::{ExpectedIdentity, WriteIntent, WriteKind};

fn args(v: &[&str]) -> Vec<String> {
    v.iter().map(|s| s.to_string()).collect()
}

#[test]
fn bare_tui_route_becomes_explicit_across_the_elevation_boundary() {
    assert_eq!(startup_elevation_argv(&[], false), Some(vec!["tui".to_string()]));
    assert_eq!(startup_elevation_argv(&["tui".to_string()], false), Some(vec!["tui".to_string()]));
    assert_eq!(startup_elevation_argv(&[], true), None);
}

#[test]
fn resume_flags_round_trip_a_restore() {
    let intent = WriteIntent {
        kind: WriteKind::Restore,
        disk: 3,
        backup: Some("/b/one.edpb".to_string()),
        expected_identity: Some(ExpectedIdentity { onlyid: Some("ID1".to_string()), device_id: None }),
    };
    let argv = resume_argv(&intent, "disk3");
    assert_eq!(
        argv,
        args(&["tui", "--_resume-kind", "restore", "--_resume-disk", "disk3", "--_resume-backup", "/b/one.edpb", "--_resume-onlyid", "ID1"])
    );
    let parsed = parse_resume_args(&argv, "--_elevated").unwrap().unwrap();
    assert_eq!(parsed.kind, WriteKind::Restore);
    assert_eq!(parsed.disk_selector, "disk3");
    assert_eq!(parsed.backup.as_deref(), Some("/b/one.edpb"));
    let id = parsed.expected_identity.unwrap();
    assert_eq!(id.onlyid.as_deref(), Some("ID1"));
    assert_eq!(id.device_id, None);
}

#[test]
fn resume_parsing_fails_closed() {
    assert!(parse_resume_args(&args(&["tui"]), "--_elevated").unwrap().is_none());
    assert!(parse_resume_args(&args(&["tui", "--_elevated"]), "--_elevated").unwrap().is_none());
    assert_eq!(
        parse_resume_args(&args(&["--_resume-kind"]), "--_elevated").unwrap_err(),
        "错误: --_resume-kind 缺少参数值"
    );
    assert_eq!(
        parse_resume_args(&args(&["--_resume-kind", "apply", "--_resume-kind", "apply"]), "--_elevated").unwrap_err(),
        "错误: --_resume-kind 重复指定"
    );
    assert_eq!(
        parse_resume_args(&args(&["--_resume-kind", "erase"]), "--_elevated").unwrap_err(),
        "错误: 非法 TUI resume kind: erase"
    );
    assert_eq!(
        parse_resume_args(&args(&["tui", "--verbose"]), "--_elevated").unwrap_err(),
        "错误: tui 不认识内部 resume 参数 --verbose"
    );
    assert_eq!(
        parse_resume_args(&args(&["--_resume-disk", "d"]), "--_elevated").unwrap_err(),
        "错误: 缺少 --_resume-kind"
    );
    assert_eq!(
        parse_resume_args(&args(&["--_resume-kind", "apply"]), "--_elevated").unwrap_err(),
        "错误: 缺少 --_resume-disk"
    );
    assert_eq!(
        parse_resume_args(&args(&["--_resume-kind", "apply", "--_resume-disk", "d", "--_resume-backup", "p"]), "--_elevated")
            .unwrap_err(),
        "错误: 非 Restore resume 不允许携带备份路径"
    );
    assert_eq!(
        parse_resume_args(&args(&["--_resume-kind", "restore", "--_resume-disk", "d"]), "--_elevated").unwrap_err(),
        "错误: restore resume 缺少 --_resume-backup"
    );
}

#[test]
fn resume_flags_round_trip_a_deep_backup_with_device_id() {
    let intent = WriteIntent {
        kind: WriteKind::BackupCreateDeep,
        disk: 7,
        backup: None,
        expected_identity: Some(ExpectedIdentity { onlyid: None, device_id: Some("DEV".to_string()) }),
    };
    let argv = resume_argv(&intent, "disk7");
    let parsed = parse_resume_args(&argv, "--_elevated").unwrap().unwrap();
    assert_eq!(parsed.kind, WriteKind::BackupCreateDeep);
    assert_eq!(parsed.disk_selector, "disk7");
    assert_eq!(parsed.backup, None);
    let id = parsed.expected_identity.unwrap();
    assert_eq!(id.onlyid, None);
    assert_eq!(id.device_id.as_deref(), Some("DEV"));
}
