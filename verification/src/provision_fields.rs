//! Which fields the provisioning form shows, in order, and what each of them allows.
//! The form's own values (how many plain partitions there are, whether a password
//! domain reuses an opaque key, and which partitions the chosen layout can format)
//! come in as arguments.

use vstd::prelude::*;
use crate::provision::ProvisionKind;
use crate::state::AppState;

verus! {

#[derive(Debug, Clone, Copy, PartialEq, Eq, Structural)]
pub enum PartitionRole {
    Boot,
    Share,
    Encrypt,
    BootShareCombined,
}

#[derive(Debug, Clone, Copy, PartialEq, Eq, Structural)]
pub enum KeyDomainRole {
    Share,
    Encrypt,
}

#[derive(Debug, Clone, Copy, PartialEq, Eq, Structural)]
pub enum PlainProvisionFieldKind {
    StartLba,
    Capacity,
    Filesystem,
    VolumeLabel,
}

#[derive(Debug, Clone, Copy, PartialEq, Eq, Structural)]
pub enum ProvisionFieldId {
    Plain { partition: usize, kind: PlainProvisionFieldKind },
    LabelId,
    User,
    Department,
    Safe6Label,
    SourcePassword(KeyDomainRole),
    TargetPassword(KeyDomainRole),
    Capacity(PartitionRole),
    StartLba(PartitionRole),
    FormatEnabled(PartitionRole),
    Filesystem(PartitionRole),
    VolumeLabel(PartitionRole),
    ForceChangePassword,
    CancelPasswordComplexityCheck,
    MaxPasswordErrors(KeyDomainRole),
}

#[derive(Debug, Clone, Copy, PartialEq, Eq, Structural)]
pub enum ProvisionFieldSection {
    Identity,
    PartitionLayout,
    PasswordDomain,
    Formatting,
    PasswordPolicy,
    PlainPartition(usize),
}

#[derive(Debug, Clone, Copy, PartialEq, Eq, Structural)]
pub struct ProvisionFieldCapabilities {
    pub editable: bool,
    pub secret: bool,
    pub toggle: bool,
    pub fill_capacity: bool,
    pub verify_source_password: bool,
}

#[derive(Debug, Clone, Copy, PartialEq, Eq, Structural)]
pub struct ProvisionFieldDescriptor {
    pub id: ProvisionFieldId,
    pub section: ProvisionFieldSection,
    pub capabilities: ProvisionFieldCapabilities,
}

/// A partition of the chosen official layout, and whether it can be formatted.
#[derive(Debug, Clone, Copy, PartialEq, Eq, Structural)]
pub struct PartitionFormatTarget {
    pub role: PartitionRole,
    pub format_capable: bool,
}

pub open spec fn spec_desc(
    id: ProvisionFieldId,
    section: ProvisionFieldSection,
    editable: bool,
    secret: bool,
    toggle: bool,
    fill_capacity: bool,
    verify_source_password: bool,
) -> ProvisionFieldDescriptor {
    ProvisionFieldDescriptor {
        id,
        section,
        capabilities: ProvisionFieldCapabilities {
            editable,
            secret,
            toggle,
            fill_capacity,
            verify_source_password,
        },
    }
}

/// Field `k` (start, capacity, filesystem, label) of plain partition `p`.
pub open spec fn spec_plain_field(p: int, k: int) -> ProvisionFieldDescriptor {
    let section = ProvisionFieldSection::PlainPartition(p as usize);
    if k == 0 {
        spec_desc(
            ProvisionFieldId::Plain { partition: p as usize, kind: PlainProvisionFieldKind::StartLba },
            section, true, false, false, false, false,
        )
    } else if k == 1 {
        spec_desc(
            ProvisionFieldId::Plain { partition: p as usize, kind: PlainProvisionFieldKind::Capacity },
            section, true, false, true, true, false,
        )
    } else if k == 2 {
        spec_desc(
            ProvisionFieldId::Plain { partition: p as usize, kind: PlainProvisionFieldKind::Filesystem },
            section, false, false, true, false, false,
        )
    } else {
        spec_desc(
            ProvisionFieldId::Plain {
                partition: p as usize,
                kind: PlainProvisionFieldKind::VolumeLabel,
            },
            section, true, false, false, false, false,
        )
    }
}

/// Four fields per plain partition, partition by partition.
pub open spec fn spec_plain_fields(partitions: nat) -> Seq<ProvisionFieldDescriptor> {
    Seq::new(4 * partitions, |i: int| spec_plain_field(i / 4, i % 4))
}

/// The source and target password of a key domain; the target is fixed when the
/// domain reuses an opaque key.
pub open spec fn spec_domain_fields(domain: KeyDomainRole, opaque: bool) -> Seq<ProvisionFieldDescriptor> {
    seq![
        spec_desc(
            ProvisionFieldId::SourcePassword(domain),
            ProvisionFieldSection::PasswordDomain,
            true, true, false, false, true,
        ),
        spec_desc(
            ProvisionFieldId::TargetPassword(domain),
            ProvisionFieldSection::PasswordDomain,
            !opaque, true, false, false, false,
        ),
    ]
}

/// Capacity (a fillable toggle) and start sector of a partition.
pub open spec fn spec_layout_fields(role: PartitionRole) -> Seq<ProvisionFieldDescriptor> {
    seq![
        spec_desc(
            ProvisionFieldId::Capacity(role),
            ProvisionFieldSection::PartitionLayout,
            true, false, true, true, false,
        ),
        spec_desc(
            ProvisionFieldId::StartLba(role),
            ProvisionFieldSection::PartitionLayout,
            true, false, false, false, false,
        ),
    ]
}

/// The format switch of a partition, and its filesystem and label when it can be
/// formatted.
pub open spec fn spec_target_fields(t: PartitionFormatTarget) -> Seq<ProvisionFieldDescriptor> {
    let enabled = spec_desc(
        ProvisionFieldId::FormatEnabled(t.role),
        ProvisionFieldSection::Formatting,
        false, false, t.format_capable, false, false,
    );
    if t.format_capable {
        seq![
            enabled,
            spec_desc(
                ProvisionFieldId::Filesystem(t.role),
                ProvisionFieldSection::Formatting,
                false, false, true, false, false,
            ),
            spec_desc(
                ProvisionFieldId::VolumeLabel(t.role),
                ProvisionFieldSection::Formatting,
                true, false, false, false, false,
            ),
        ]
    } else {
        seq![enabled]
    }
}

pub open spec fn spec_format_fields(template: Seq<PartitionFormatTarget>) -> Seq<ProvisionFieldDescriptor>
    decreases template.len(),
{
    if template.len() == 0 {
        Seq::empty()
    } else {
        spec_format_fields(template.drop_last()) + spec_target_fields(template.last())
    }
}

pub open spec fn spec_identity_fields() -> Seq<ProvisionFieldDescriptor> {
    seq![
        spec_desc(ProvisionFieldId::LabelId, ProvisionFieldSection::Identity, true, false, false, false, false),
        spec_desc(ProvisionFieldId::User, ProvisionFieldSection::Identity, true, false, false, false, false),
        spec_desc(ProvisionFieldId::Department, ProvisionFieldSection::Identity, true, false, false, false, false),
        spec_desc(ProvisionFieldId::Safe6Label, ProvisionFieldSection::Identity, true, false, false, false, false),
    ]
}

pub open spec fn spec_policy_fields() -> Seq<ProvisionFieldDescriptor> {
    seq![
        spec_desc(
            ProvisionFieldId::ForceChangePassword,
            ProvisionFieldSection::PasswordPolicy,
            false, false, true, false, false,
        ),
        spec_desc(
            ProvisionFieldId::CancelPasswordComplexityCheck,
            ProvisionFieldSection::PasswordPolicy,
            false, false, true, false, false,
        ),
        spec_desc(
            ProvisionFieldId::MaxPasswordErrors(KeyDomainRole::Share),
            ProvisionFieldSection::PasswordPolicy,
            true, false, false, false, false,
        ),
        spec_desc(
            ProvisionFieldId::MaxPasswordErrors(KeyDomainRole::Encrypt),
            ProvisionFieldSection::PasswordPolicy,
            true, false, false, false, false,
        ),
    ]
}

pub open spec fn spec_if(c: bool, s: Seq<ProvisionFieldDescriptor>) -> Seq<ProvisionFieldDescriptor> {
    if c { s } else { Seq::empty() }
}

/// The fields of official layout `mode`: identity, the share and encrypt password
/// domains the layout has, the partitions' sizes and starts, formatting, then the
/// password policy.
pub open spec fn spec_official_fields(
    mode: u8,
    share_opaque: bool,
    encrypt_opaque: bool,
    template: Seq<PartitionFormatTarget>,
) -> Seq<ProvisionFieldDescriptor> {
    let has_share = mode == 0 || mode == 1 || mode == 3;
    let has_encrypt = mode <= 2;
    spec_identity_fields()
        + spec_if(has_share, spec_domain_fields(KeyDomainRole::Share, share_opaque))
        + spec_if(has_encrypt, spec_domain_fields(KeyDomainRole::Encrypt, encrypt_opaque))
        + spec_if(mode == 0 || mode == 3, spec_layout_fields(PartitionRole::Boot))
        + spec_if(has_share, spec_layout_fields(
            if mode == 1 { PartitionRole::BootShareCombined } else { PartitionRole::Share },
        ))
        + spec_if(has_encrypt, spec_layout_fields(PartitionRole::Encrypt))
        + spec_format_fields(template)
        + spec_policy_fields()
}

pub open spec fn spec_kind_mode(kind: ProvisionKind) -> Option<u8> {
    match kind {
        ProvisionKind::Mode0 => Some(0u8),
        ProvisionKind::Mode1 => Some(1u8),
        ProvisionKind::Mode2 => Some(2u8),
        ProvisionKind::Mode3 => Some(3u8),
        ProvisionKind::Plain => None,
    }
}

/// The form's fields for provisioning `kind`.
pub open spec fn spec_field_descriptors(
    kind: ProvisionKind,
    plain_partitions: nat,
    share_opaque: bool,
    encrypt_opaque: bool,
    template: Seq<PartitionFormatTarget>,
) -> Seq<ProvisionFieldDescriptor> {
    match spec_kind_mode(kind) {
        None => spec_plain_fields(plain_partitions),
        Some(mode) => spec_official_fields(mode, share_opaque, encrypt_opaque, template),
    }
}

fn descriptor(
    id: ProvisionFieldId,
    section: ProvisionFieldSection,
    editable: bool,
    secret: bool,
    toggle: bool,
    fill_capacity: bool,
    verify_source_password: bool,
) -> (r: ProvisionFieldDescriptor)
    ensures
        r == spec_desc(id, section, editable, secret, toggle, fill_capacity, verify_source_password),
{
    ProvisionFieldDescriptor {
        id,
        section,
        capabilities: ProvisionFieldCapabilities {
            editable,
            secret,
            toggle,
            fill_capacity,
            verify_source_password,
        },
    }
}

fn push_domain_fields(fields: &mut Vec<ProvisionFieldDescriptor>, domain: KeyDomainRole, opaque: bool)
    ensures
        final(fields)@ == old(fields)@ + spec_domain_fields(domain, opaque),
{
    fields.push(descriptor(
        ProvisionFieldId::SourcePassword(domain),
        ProvisionFieldSection::PasswordDomain,
        true, true, false, false, true,
    ));
    fields.push(descriptor(
        ProvisionFieldId::TargetPassword(domain),
        ProvisionFieldSection::PasswordDomain,
        !opaque, true, false, false, false,
    ));
    assert(final(fields)@ =~= old(fields)@ + spec_domain_fields(domain, opaque));
}

fn push_layout_fields(fields: &mut Vec<ProvisionFieldDescriptor>, role: PartitionRole)
    ensures
        final(fields)@ == old(fields)@ + spec_layout_fields(role),
{
    fields.push(descriptor(
        ProvisionFieldId::Capacity(role),
        ProvisionFieldSection::PartitionLayout,
        true, false, true, true, false,
    ));
    fields.push(descriptor(
        ProvisionFieldId::StartLba(role),
        ProvisionFieldSection::PartitionLayout,
        true, false, false, false, false,
    ));
    assert(final(fields)@ =~= old(fields)@ + spec_layout_fields(role));
}

fn push_target_fields(fields: &mut Vec<ProvisionFieldDescriptor>, t: PartitionFormatTarget)
    ensures
        final(fields)@ == old(fields)@ + spec_target_fields(t),
{
    fields.push(descriptor(
        ProvisionFieldId::FormatEnabled(t.role),
        ProvisionFieldSection::Formatting,
        false, false, t.format_capable, false, false,
    ));
    if t.format_capable {
        fields.push(descriptor(
            ProvisionFieldId::Filesystem(t.role),
            ProvisionFieldSection::Formatting,
            false, false, true, false, false,
        ));
        fields.push(descriptor(
            ProvisionFieldId::VolumeLabel(t.role),
            ProvisionFieldSection::Formatting,
            true, false, false, false, false,
        ));
    }
    assert(final(fields)@ =~= old(fields)@ + spec_target_fields(t));
}

fn plain_descriptors(partitions: usize) -> (r: Vec<ProvisionFieldDescriptor>)
    ensures
        r@ == spec_plain_fields(partitions as nat),
{
    let mut fields: Vec<ProvisionFieldDescriptor> = Vec::new();
    let mut p: usize = 0;
    while p < partitions
        invariant
            p <= partitions,
            fields@ =~= spec_plain_fields(p as nat),
        decreases partitions - p,
    {
        let section = ProvisionFieldSection::PlainPartition(p);
        let ghost before = fields@;
        fields.push(descriptor(
            ProvisionFieldId::Plain { partition: p, kind: PlainProvisionFieldKind::StartLba },
            section, true, false, false, false, false,
        ));
        fields.push(descriptor(
            ProvisionFieldId::Plain { partition: p, kind: PlainProvisionFieldKind::Capacity },
            section, true, false, true, true, false,
        ));
        fields.push(descriptor(
            ProvisionFieldId::Plain { partition: p, kind: PlainProvisionFieldKind::Filesystem },
            section, false, false, true, false, false,
        ));
        fields.push(descriptor(
            ProvisionFieldId::Plain { partition: p, kind: PlainProvisionFieldKind::VolumeLabel },
            section, true, false, false, false, false,
        ));
        proof {
            let n = p as int;
            assert forall|i: int| 0 <= i < 4 * (n + 1) implies #[trigger] fields@[i]
                == spec_plain_field(i / 4, i % 4) by {
                if i < 4 * n {
                    assert(fields@[i] == before[i]);
                } else {
                    assert(i / 4 == n) by (nonlinear_arith)
                        requires 4 * n <= i < 4 * (n + 1);
                    assert(i % 4 == i - 4 * n) by (nonlinear_arith)
                        requires 4 * n <= i < 4 * (n + 1);
                }
            }
        }
        p = p + 1;
    }
    fields
}

fn format_descriptors(template: &[PartitionFormatTarget]) -> (r: Vec<ProvisionFieldDescriptor>)
    ensures
        r@ == spec_format_fields(template@),
{
    let mut fields: Vec<ProvisionFieldDescriptor> = Vec::new();
    let mut i: usize = 0;
    while i < template.len()
        invariant
            i <= template@.len(),
            fields@ == spec_format_fields(template@.subrange(0, i as int)),
        decreases template.len() - i,
    {
        let t = template[i];
        push_target_fields(&mut fields, t);
        proof {
            let next = template@.subrange(0, i + 1);
            assert(next.drop_last() =~= template@.subrange(0, i as int));
            assert(next.last() == t);
        }
        i = i + 1;
    }
    assert(template@.subrange(0, template@.len() as int) =~= template@);
    fields
}

impl AppState {
    /// The provisioning form's fields in display order, for the chosen kind: four per
    /// partition for a plain layout, else the official layout's identity, password
    /// domains, partitions, formatting and policy fields.
    pub fn provision_field_descriptors(
        &self,
        plain_partitions: usize,
        share_opaque: bool,
        encrypt_opaque: bool,
        format_template: &[PartitionFormatTarget],
    ) -> (r: Vec<ProvisionFieldDescriptor>)
        ensures
            r@ == spec_field_descriptors(
                self.provision.kind,
                plain_partitions as nat,
                share_opaque,
                encrypt_opaque,
                format_template@,
            ),
    {
        let mode: u8 = match self.provision.kind {
            ProvisionKind::Plain => {
                return plain_descriptors(plain_partitions);
            },
            ProvisionKind::Mode0 => 0,
            ProvisionKind::Mode1 => 1,
            ProvisionKind::Mode2 => 2,
            ProvisionKind::Mode3 => 3,
        };
        let mut fields: Vec<ProvisionFieldDescriptor> = Vec::new();
        fields.push(descriptor(ProvisionFieldId::LabelId, ProvisionFieldSection::Identity, true, false, false, false, false));
        fields.push(descriptor(ProvisionFieldId::User, ProvisionFieldSection::Identity, true, false, false, false, false));
        fields.push(descriptor(ProvisionFieldId::Department, ProvisionFieldSection::Identity, true, false, false, false, false));
        fields.push(descriptor(ProvisionFieldId::Safe6Label, ProvisionFieldSection::Identity, true, false, false, false, false));
        assert(fields@ =~= spec_identity_fields());
        let has_share = mode == 0 || mode == 1 || mode == 3;
        let has_encrypt = mode <= 2;
        let ghost s0 = fields@;
        if has_share {
            push_domain_fields(&mut fields, KeyDomainRole::Share, share_opaque);
        }
        assert(fields@ =~= s0 + spec_if(has_share, spec_domain_fields(KeyDomainRole::Share, share_opaque)));
        let ghost s1 = fields@;
        if has_encrypt {
            push_domain_fields(&mut fields, KeyDomainRole::Encrypt, encrypt_opaque);
        }
        assert(fields@ =~= s1 + spec_if(has_encrypt, spec_domain_fields(KeyDomainRole::Encrypt, encrypt_opaque)));
        let ghost s2 = fields@;
        if mode == 0 || mode == 3 {
            push_layout_fields(&mut fields, PartitionRole::Boot);
        }
        assert(fields@ =~= s2 + spec_if(mode == 0 || mode == 3, spec_layout_fields(PartitionRole::Boot)));
        let ghost s3 = fields@;
        if has_share {
            let role = if mode == 1 { PartitionRole::BootShareCombined } else { PartitionRole::Share };
            push_layout_fields(&mut fields, role);
        }
        assert(fields@ =~= s3 + spec_if(has_share, spec_layout_fields(
            if mode == 1 { PartitionRole::BootShareCombined } else { PartitionRole::Share },
        )));
        let ghost s4 = fields@;
        if has_encrypt {
            push_layout_fields(&mut fields, PartitionRole::Encrypt);
        }
        assert(fields@ =~= s4 + spec_if(has_encrypt, spec_layout_fields(PartitionRole::Encrypt)));
        let mut formatting = format_descriptors(format_template);
        fields.append(&mut formatting);
        fields.push(descriptor(ProvisionFieldId::ForceChangePassword, ProvisionFieldSection::PasswordPolicy, false, false, true, false, false));
        fields.push(descriptor(ProvisionFieldId::CancelPasswordComplexityCheck, ProvisionFieldSection::PasswordPolicy, false, false, true, false, false));
        fields.push(descriptor(ProvisionFieldId::MaxPasswordErrors(KeyDomainRole::Share), ProvisionFieldSection::PasswordPolicy, true, false, false, false, false));
        fields.push(descriptor(ProvisionFieldId::MaxPasswordErrors(KeyDomainRole::Encrypt), ProvisionFieldSection::PasswordPolicy, true, false, false, false, false));
        assert(fields@ =~= spec_official_fields(mode, share_opaque, encrypt_opaque, format_template@));
        fields
    }
}

} // verus!
