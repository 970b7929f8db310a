use edp_tui::provision::ProvisionKind;
use edp_tui::provision_fields::{
    KeyDomainRole, PartitionFormatTarget, PartitionRole, PlainProvisionFieldKind,
    ProvisionFieldId, ProvisionFieldSection,
};
use edp_tui::state::AppState;

fn state_for(kind: ProvisionKind) -> AppState {
    let mut state = AppState::new();
    state.provision_mut().kind = kind;
    state
}

#[test]
fn plain_layout_lists_four_fields_per_partition() {
    let state = state_for(ProvisionKind::Plain);
    let fields = state.provision_field_descriptors(2, false, false, &[]);
    assert_eq!(fields.len(), 8);
    assert_eq!(
        fields[5].id,
        ProvisionFieldId::Plain { partition: 1, kind: PlainProvisionFieldKind::Capacity }
    );
    assert_eq!(fields[5].section, ProvisionFieldSection::PlainPartition(1));
    assert!(fields[5].capabilities.fill_capacity);
    assert!(fields[5].capabilities.toggle);
    assert!(!fields[6].capabilities.editable);
    assert!(fields[7].capabilities.editable);
    assert!(state.provision_field_descriptors(0, false, false, &[]).is_empty());
}

#[test]
fn default_three_partition_layout_lists_every_section() {
    let state = state_for(ProvisionKind::Mode0);
    let template = [
        PartitionFormatTarget { role: PartitionRole::Boot, format_capable: false },
        PartitionFormatTarget { role: PartitionRole::Share, format_capable: true },
        PartitionFormatTarget { role: PartitionRole::Encrypt, format_capable: true },
    ];
    let fields = state.provision_field_descriptors(0, false, true, &template);
    // identity 4, two password domains 4, three partitions 6, formatting 1 + 3 + 3, policy 4
    assert_eq!(fields.len(), 25);
    assert_eq!(fields[0].id, ProvisionFieldId::LabelId);
    assert_eq!(fields[4].id, ProvisionFieldId::SourcePassword(KeyDomainRole::Share));
    assert!(fields[4].capabilities.verify_source_password);
    assert!(fields[5].capabilities.editable);
    assert_eq!(fields[7].id, ProvisionFieldId::TargetPassword(KeyDomainRole::Encrypt));
    assert!(!fields[7].capabilities.editable);
    assert!(fields[7].capabilities.secret);
    assert_eq!(fields[8].id, ProvisionFieldId::Capacity(PartitionRole::Boot));
    assert_eq!(fields[10].id, ProvisionFieldId::Capacity(PartitionRole::Share));
    assert_eq!(fields[12].id, ProvisionFieldId::Capacity(PartitionRole::Encrypt));
    assert_eq!(fields[14].id, ProvisionFieldId::FormatEnabled(PartitionRole::Boot));
    assert!(!fields[14].capabilities.toggle);
    assert_eq!(fields[15].id, ProvisionFieldId::FormatEnabled(PartitionRole::Share));
    assert_eq!(fields[16].id, ProvisionFieldId::Filesystem(PartitionRole::Share));
    assert_eq!(fields[17].id, ProvisionFieldId::VolumeLabel(PartitionRole::Share));
    assert_eq!(fields[21].id, ProvisionFieldId::ForceChangePassword);
    assert_eq!(fields[24].id, ProvisionFieldId::MaxPasswordErrors(KeyDomainRole::Encrypt));
    assert!(fields[24].capabilities.editable);
}

#[test]
fn combined_layout_has_no_boot_or_encrypt_fields() {
    let state = state_for(ProvisionKind::Mode1);
    let fields = state.provision_field_descriptors(0, false, false, &[]);
    let ids: Vec<ProvisionFieldId> = fields.iter().map(|f| f.id).collect();
    assert!(ids.contains(&ProvisionFieldId::Capacity(PartitionRole::BootShareCombined)));
    assert!(ids.contains(&ProvisionFieldId::Capacity(PartitionRole::Encrypt)));
    assert!(!ids.contains(&ProvisionFieldId::Capacity(PartitionRole::Boot)));
    assert!(!ids.contains(&ProvisionFieldId::Capacity(PartitionRole::Share)));
    // identity 4, share 2, encrypt 2, combined 2, encrypt 2, policy 4
    assert_eq!(fields.len(), 16);
}

#[test]
fn whole_disk_encrypted_layout_has_no_share_domain() {
    let state = state_for(ProvisionKind::Mode2);
    let fields = state.provision_field_descriptors(3, false, false, &[]);
    assert_eq!(fields.len(), 4 + 2 + 2 + 4);
    assert_eq!(fields[4].id, ProvisionFieldId::SourcePassword(KeyDomainRole::Encrypt));
    let dual = state_for(ProvisionKind::Mode3).provision_field_descriptors(0, true, false, &[]);
    assert_eq!(dual.len(), 4 + 2 + 2 + 2 + 4);
    assert_eq!(dual[5].id, ProvisionFieldId::TargetPassword(KeyDomainRole::Share));
    assert!(!dual[5].capabilities.editable);
}
