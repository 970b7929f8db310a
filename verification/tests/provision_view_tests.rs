use edp_tui::provision::ProvisionKind;
use edp_tui::provision_fields::{PartitionFormatTarget, PartitionRole};
use edp_tui::provision_view::{
    CapacityInputMode, FormatTargetView, OfficialFormView, PartitionCapacityView,
    PlainPartitionView, QuickCapacityUnit, SourcePasswordKnowledge,
};
use edp_tui::state::AppState;

fn s(v: &str) -> String {
    v.to_string()
}

fn capacity(mode: CapacityInputMode, size: &str, sectors: &str, start: &str) -> PartitionCapacityView {
    PartitionCapacityView {
        input_mode: mode,
        quick_unit: QuickCapacityUnit::MiB,
        quick_size: s(size),
        sectors: s(sectors),
        start_lba: s(start),
    }
}

fn form(targets: Vec<FormatTargetView>) -> OfficialFormView {
    OfficialFormView {
        label_id: s("L1"),
        user: s("张三"),
        dept: s("研发"),
        label: s("SAFE"),
        share_source_knowledge: SourcePasswordKnowledge::DefaultVerified,
        share_source_password: s("old"),
        share_target_password: s("new"),
        share_opaque: true,
        encrypt_source_knowledge: SourcePasswordKnowledge::Unknown,
        encrypt_source_password: s(""),
        encrypt_target_password: s("enc"),
        encrypt_opaque: false,
        boot: capacity(CapacityInputMode::Quick, "32", "65536", "2048"),
        share: capacity(CapacityInputMode::Exact, "64", "131072", "67584"),
        encrypt: capacity(CapacityInputMode::Quick, "128", "262144", "198656"),
        format_targets: targets,
        format_boot: false,
        format_share: true,
        format_encrypt: false,
        volume_label: s("BOOT"),
        share_label: s("SHARE"),
        encrypt_label: s("SECRET"),
        force_change_password: true,
        cancel_password_complexity_check: false,
        max_share_password_errors: s("5"),
        max_encrypt_password_errors: s("6"),
    }
}

fn state_for(kind: ProvisionKind) -> AppState {
    let mut state = AppState::new();
    state.provision_mut().kind = kind;
    state
}

fn row(label: &str, value: &str, secret: bool) -> (String, String, bool) {
    (s(label), s(value), secret)
}

#[test]
fn plain_partition_fields_are_numbered_from_one() {
    let state = state_for(ProvisionKind::Plain);
    let parts = vec![PlainPartitionView {
        start_lba: s("2048"),
        input_mode: CapacityInputMode::Quick,
        quick_unit: QuickCapacityUnit::GiB,
        quick_capacity: s("8"),
        sector_count: s("16777216"),
        filesystem_name: s("exFAT"),
        volume_label: s("DATA"),
    }];
    let fields = state.provision_visible_fields(&parts, &form(vec![]));
    assert_eq!(
        fields,
        vec![
            row("P1 起点 LBA", "2048", false),
            row("P1 容量 (GiB)", "8", false),
            row("P1 文件系统", "exFAT", false),
            row("P1 卷标", "DATA", false),
        ]
    );
}

#[test]
fn combined_layout_names_the_share_domain_and_hides_opaque_targets() {
    let state = state_for(ProvisionKind::Mode1);
    let fields = state.provision_visible_fields(&[], &form(vec![]));
    // identity 4, two password domains 4, share and encrypt sizes 4, policy 4
    assert_eq!(fields.len(), 16);
    assert_eq!(fields[0], row("标签标识", "L1", false));
    assert_eq!(fields[4], row("二合一区来源密码（可空） ✓ 默认已验证", "old", true));
    assert_eq!(fields[5], row("二合一区目标密码", "— PreserveOpaque 禁用", true));
    assert_eq!(fields[6], row("保密区来源密码（可空） ⚠ Unknown", "", true));
    assert_eq!(fields[7], row("保密区目标密码", "enc", true));
    assert_eq!(fields[8], row("交换区容量 (sector)", "131072", false));
    assert_eq!(fields[9], row("交换区起点 LBA", "67584", false));
    assert_eq!(fields[10], row("保密区容量 (MiB)", "128", false));
    assert_eq!(fields[12], row("初始化密码强制修改", "☑ 是", false));
    assert_eq!(fields[13], row("取消密码复杂性验证", "☐ 否", false));
    assert_eq!(fields[15], row("保密区密码最大错误次数", "6", false));
}

#[test]
fn formatting_targets_list_switch_filesystem_and_label() {
    let state = state_for(ProvisionKind::Mode0);
    let targets = vec![
        FormatTargetView {
            role: PartitionRole::Boot,
            role_label: s("启动区"),
            format_capable: false,
            filesystem_name: s("FAT32"),
        },
        FormatTargetView {
            role: PartitionRole::Share,
            role_label: s("交换区"),
            format_capable: true,
            filesystem_name: s("exFAT"),
        },
    ];
    let fields = state.provision_visible_fields(&[], &form(targets));
    // identity 4, domains 4, three partitions 6, formatting 1 + 3, policy 4
    assert_eq!(fields.len(), 22);
    assert_eq!(fields[8], row("启动区容量 (MiB)", "32", false));
    assert_eq!(fields[14], row("启动区", "固定，不格式化", false));
    assert_eq!(fields[15], row("交换区格式化", "☑ 是", false));
    assert_eq!(fields[16], row("交换区文件系统", "exFAT", false));
    assert_eq!(fields[17], row("交换区卷标", "SHARE", false));
}

#[test]
fn visible_fields_line_up_with_the_field_list() {
    let state = state_for(ProvisionKind::Mode3);
    let f = form(vec![]);
    let visible = state.provision_visible_fields(&[], &f);
    let descriptors: Vec<_> = state.provision_field_descriptors(0, f.share_opaque, f.encrypt_opaque, &[] as &[PartitionFormatTarget]);
    assert_eq!(visible.len(), descriptors.len());
    for (field, descriptor) in visible.iter().zip(descriptors.iter()) {
        assert_eq!(field.2, descriptor.capabilities.secret);
    }
}
