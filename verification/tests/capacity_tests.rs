use edp_tui::capacity::{
    CapacityField, CapacityInputMode,
    format_sector_unit_3, parse_gib_to_sectors, parse_mib_to_sectors, parse_u64,
    resolve_quick_sectors, ProvisionInputPolicy, QuickCapacityUnit, SECTORS_PER_GIB,
    SECTORS_PER_MIB,
};

#[test]
fn sector_counts_show_three_rounded_decimals() {
    assert_eq!(format_sector_unit_3(1_048_576, SECTORS_PER_MIB), "512.000");
    assert_eq!(format_sector_unit_3(3, SECTORS_PER_MIB), "0.001");
    assert_eq!(format_sector_unit_3(1, SECTORS_PER_MIB), "0.000");
    assert_eq!(format_sector_unit_3(3_145_728, SECTORS_PER_GIB), "1.500");
    assert_eq!(format_sector_unit_3(0, SECTORS_PER_GIB), "0.000");
}

#[test]
fn decimal_capacities_round_to_the_nearest_sector() {
    assert_eq!(parse_mib_to_sectors("1.5", "启动区"), Ok(3072));
    assert_eq!(parse_mib_to_sectors("  512 ", "启动区"), Ok(1_048_576));
    assert_eq!(parse_mib_to_sectors("0.00025", "L"), Ok(1));
    assert_eq!(parse_mib_to_sectors("0.0001", "L"), Ok(0));
    assert_eq!(parse_gib_to_sectors("2", "L"), Ok(4_194_304));
    assert_eq!(parse_mib_to_sectors("1.", "L"), Ok(2048));
}

#[test]
fn capacity_errors_name_the_field_and_the_unit() {
    assert_eq!(parse_mib_to_sectors("   ", "L"), Err("L MiB 不能为空".to_string()));
    assert_eq!(
        parse_mib_to_sectors("1.2.3", "L"),
        Err("L MiB 必须是正数，最多 21 位小数".to_string())
    );
    assert_eq!(
        parse_mib_to_sectors(".5", "L"),
        Err("L MiB 必须是正数，最多 21 位小数".to_string())
    );
    assert_eq!(
        parse_mib_to_sectors("1.0000000000000000000001", "L"),
        Err("L MiB 必须是正数，最多 21 位小数".to_string())
    );
    assert_eq!(parse_gib_to_sectors("0.000", "L"), Err("L GiB 必须大于 0".to_string()));
    assert_eq!(
        parse_gib_to_sectors("99999999999999999999", "L"),
        Err("L GiB 容量溢出".to_string())
    );
    assert_eq!(
        parse_mib_to_sectors("1111111111111111111111111111111111111111", "L"),
        Err("L MiB 数值无效".to_string())
    );
}

#[test]
fn whole_numbers_parse_like_the_standard_library() {
    assert_eq!(parse_u64("42"), Some(42));
    assert_eq!(parse_u64("+7"), Some(7));
    assert_eq!(parse_u64("18446744073709551615"), Some(u64::MAX));
    assert_eq!(parse_u64("18446744073709551616"), None);
    assert_eq!(parse_u64("+"), None);
    assert_eq!(parse_u64(""), None);
    assert_eq!(parse_u64(" 1"), None);
    assert_eq!(parse_u64("-1"), None);
}

#[test]
fn quick_capacity_keeps_the_exact_count_while_it_is_shown_unchanged() {
    assert_eq!(
        resolve_quick_sectors("512.000", "1048577", QuickCapacityUnit::MiB, false, "L"),
        Ok(1_048_577)
    );
    assert_eq!(
        resolve_quick_sectors("512.000", "1048577", QuickCapacityUnit::MiB, true, "L"),
        Ok(1_048_576)
    );
    assert_eq!(
        resolve_quick_sectors("512", "1048577", QuickCapacityUnit::MiB, false, "L"),
        Ok(1_048_576)
    );
    assert_eq!(
        resolve_quick_sectors("1.000", "2097153", QuickCapacityUnit::GiB, false, "L"),
        Ok(2_097_153)
    );
    assert_eq!(
        resolve_quick_sectors("", "abc", QuickCapacityUnit::GiB, false, "L"),
        Err("L GiB 不能为空".to_string())
    );
}

#[test]
fn input_policies_accept_only_their_characters() {
    assert!(ProvisionInputPolicy::DecimalCapacity.accepts("1.5"));
    assert!(ProvisionInputPolicy::DecimalCapacity.accepts(""));
    assert!(!ProvisionInputPolicy::DecimalCapacity.accepts("1.2.3"));
    assert!(!ProvisionInputPolicy::DecimalCapacity.accepts("1a"));
    assert!(ProvisionInputPolicy::UnsignedInteger.accepts(""));
    assert!(ProvisionInputPolicy::UnsignedInteger.accepts("0123"));
    assert!(!ProvisionInputPolicy::UnsignedInteger.accepts("+1"));
    assert!(ProvisionInputPolicy::U8.accepts("255"));
    assert!(!ProvisionInputPolicy::U8.accepts("256"));
    assert!(!ProvisionInputPolicy::U8.accepts(""));
    assert!(!ProvisionInputPolicy::U8.accepts("+1"));
    assert!(ProvisionInputPolicy::OnlyId.accepts("-"));
    assert!(ProvisionInputPolicy::OnlyId.accepts("-2147483648"));
    assert!(!ProvisionInputPolicy::OnlyId.accepts("-2147483649"));
    assert!(ProvisionInputPolicy::OnlyId.accepts("4294967295"));
    assert!(!ProvisionInputPolicy::OnlyId.accepts("4294967296"));
    assert!(ProvisionInputPolicy::OnlyId.accepts("+5"));
    assert!(!ProvisionInputPolicy::OnlyId.accepts(""));
    assert!(!ProvisionInputPolicy::OnlyId.accepts("--1"));
    assert!(ProvisionInputPolicy::Text.accepts("交换区 A"));
    assert!(!ProvisionInputPolicy::Text.accepts("a\tb"));
    assert_eq!(
        ProvisionInputPolicy::U8.rejection_message(),
        "该字段仅允许 0–255"
    );
    assert_eq!(
        ProvisionInputPolicy::DecimalCapacity.rejection_message(),
        "容量只允许输入数字和一个小数点"
    );
}


fn exact(text: &str) -> CapacityField {
    CapacityField {
        input_mode: CapacityInputMode::Exact,
        quick_unit: QuickCapacityUnit::MiB,
        quick: String::new(),
        exact: text.to_string(),
        edited: false,
    }
}

#[test]
fn plain_partition_capacity_cycles_through_units_keeping_the_count() {
    let mut f = exact(" 1048577 ");
    assert_eq!(f.resolve_sectors("P1 容量"), Ok(1_048_577));
    assert_eq!(f.cycle_unit(), Ok(()));
    assert_eq!(f.input_mode, CapacityInputMode::Quick);
    assert_eq!(f.quick_unit, QuickCapacityUnit::MiB);
    assert_eq!(f.quick, "512.000");
    assert_eq!(f.exact, "1048577");
    assert_eq!(f.cycle_unit(), Ok(()));
    assert_eq!(f.quick_unit, QuickCapacityUnit::GiB);
    assert_eq!(f.quick, "0.500");
    assert_eq!(f.cycle_unit(), Ok(()));
    assert_eq!(f.input_mode, CapacityInputMode::Exact);
    assert_eq!(f.resolve_sectors("P1 容量"), Ok(1_048_577));
    let mut zero = exact("0");
    assert_eq!(
        zero.cycle_unit(),
        Err("普通分区容量 sector 必须是大于 0 的整数".to_string())
    );
    assert_eq!(zero.exact, "0");
}

#[test]
fn provision_capacity_toggle_and_hand_edits() {
    let mut f = exact("4096");
    assert_eq!(f.toggle_input(), Ok(()));
    assert_eq!(f.quick, "2.000");
    f.mark_quick_edit();
    assert!(f.edited);
    f.quick = "3".to_string();
    assert_eq!(f.toggle_input(), Ok(()));
    assert_eq!(f.exact, "6144");
    assert_eq!(f.quick, "0.003");
    assert!(!f.edited);
    assert_eq!(f.toggle_input(), Ok(()));
    assert_eq!(f.input_mode, CapacityInputMode::Exact);
    assert_eq!(f.exact, "6144");
    let mut bad = exact("12a");
    assert_eq!(bad.toggle_input(), Err("请先输入有效的 sector 数".to_string()));
    f.set_sectors(2048);
    assert_eq!(f.exact, "2048");
    assert_eq!(f.quick, "0.001");
}
