//! The label, shown value and secrecy of each visible Provision form field, in the
//! order of the field list. The form's values come in as a plain view of the form;
//! the names of partition roles and filesystems come with it, as the provisioning
//! layer words them.

use vstd::prelude::*;
use crate::provision::ProvisionKind;
use crate::provision_fields::{
    spec_domain_fields, spec_field_descriptors, spec_format_fields, spec_identity_fields, spec_if,
    spec_kind_mode, spec_layout_fields, spec_plain_fields, spec_policy_fields, spec_target_fields,
    KeyDomainRole, PartitionFormatTarget, PartitionRole, ProvisionFieldDescriptor,
};
use crate::state::AppState;
use crate::text::{spec_decimal, u128_decimal};

verus! {

#[derive(Debug, Clone, Copy, PartialEq, Eq, Structural)]
pub enum CapacityInputMode {
    Exact,
    Quick,
}

#[derive(Debug, Clone, Copy, PartialEq, Eq, Structural)]
pub enum QuickCapacityUnit {
    MiB,
    GiB,
}

#[derive(Debug, Clone, Copy, PartialEq, Eq, Structural)]
pub enum SourcePasswordKnowledge {
    DefaultVerified,
    UserVerified,
    Unknown,
}

/// One plain partition's inputs.
pub struct PlainPartitionView {
    pub start_lba: String,
    pub input_mode: CapacityInputMode,
    pub quick_unit: QuickCapacityUnit,
    pub quick_capacity: String,
    pub sector_count: String,
    pub filesystem_name: String,
    pub volume_label: String,
}

/// The size and start inputs of one official partition.
pub struct PartitionCapacityView {
    pub input_mode: CapacityInputMode,
    pub quick_unit: QuickCapacityUnit,
    pub quick_size: String,
    pub sectors: String,
    pub start_lba: String,
}

/// A partition the official layout may format, named as the layout names it.
pub struct FormatTargetView {
    pub role: PartitionRole,
    pub role_label: String,
    pub format_capable: bool,
    pub filesystem_name: String,
}

/// The official form's inputs.
pub struct OfficialFormView {
    pub label_id: String,
    pub user: String,
    pub dept: String,
    pub label: String,
    pub share_source_knowledge: SourcePasswordKnowledge,
    pub share_source_password: String,
    pub share_target_password: String,
    pub share_opaque: bool,
    pub encrypt_source_knowledge: SourcePasswordKnowledge,
    pub encrypt_source_password: String,
    pub encrypt_target_password: String,
    pub encrypt_opaque: bool,
    pub boot: PartitionCapacityView,
    pub share: PartitionCapacityView,
    pub encrypt: PartitionCapacityView,
    pub format_targets: Vec<FormatTargetView>,
    pub format_boot: bool,
    pub format_share: bool,
    pub format_encrypt: bool,
    pub volume_label: String,
    pub share_label: String,
    pub encrypt_label: String,
    pub force_change_password: bool,
    pub cancel_password_complexity_check: bool,
    pub max_share_password_errors: String,
    pub max_encrypt_password_errors: String,
}

pub type FieldView = (Seq<char>, Seq<char>, bool);

pub open spec fn spec_field_views(v: Seq<(String, String, bool)>) -> Seq<FieldView> {
    Seq::new(v.len(), |i: int| (v[i].0@, v[i].1@, v[i].2))
}

pub open spec fn spec_unit_word(u: QuickCapacityUnit) -> Seq<char> {
    match u {
        QuickCapacityUnit::MiB => "MiB"@,
        QuickCapacityUnit::GiB => "GiB"@,
    }
}

pub open spec fn spec_checkbox(on: bool) -> Seq<char> {
    if on { "☑ 是"@ } else { "☐ 否"@ }
}

pub open spec fn spec_knowledge_suffix(k: SourcePasswordKnowledge) -> Seq<char> {
    match k {
        SourcePasswordKnowledge::DefaultVerified => "✓ 默认已验证"@,
        SourcePasswordKnowledge::UserVerified => "✓ 用户已验证"@,
        SourcePasswordKnowledge::Unknown => "⚠ Unknown"@,
    }
}

/// The four fields of plain partition `index`.
pub open spec fn spec_plain_part_fields(index: int, p: PlainPartitionView) -> Seq<FieldView> {
    let n = spec_decimal((index + 1) as nat);
    let capacity = match p.input_mode {
        CapacityInputMode::Exact => ("P"@ + n + " 容量 (sector)"@, p.sector_count@, false),
        CapacityInputMode::Quick => (
            "P"@ + n + " 容量 ("@ + spec_unit_word(p.quick_unit) + ")"@,
            p.quick_capacity@,
            false,
        ),
    };
    seq![
        ("P"@ + n + " 起点 LBA"@, p.start_lba@, false),
        capacity,
        ("P"@ + n + " 文件系统"@, p.filesystem_name@, false),
        ("P"@ + n + " 卷标"@, p.volume_label@, false),
    ]
}

pub open spec fn spec_plain_visible(parts: Seq<PlainPartitionView>) -> Seq<FieldView>
    decreases parts.len(),
{
    if parts.len() == 0 {
        Seq::empty()
    } else {
        spec_plain_visible(parts.drop_last()) + spec_plain_part_fields(
            parts.len() - 1,
            parts.last(),
        )
    }
}

/// The size and start fields of a partition named `name`.
pub open spec fn spec_capacity_fields(name: Seq<char>, c: PartitionCapacityView) -> Seq<FieldView> {
    let size = match c.input_mode {
        CapacityInputMode::Exact => (name + "容量 (sector)"@, c.sectors@, false),
        CapacityInputMode::Quick => (
            name + "容量 ("@ + spec_unit_word(c.quick_unit) + ")"@,
            c.quick_size@,
            false,
        ),
    };
    seq![size, (name + "起点 LBA"@, c.start_lba@, false)]
}

/// The source and target password fields of a key domain named `domain`; the
/// target is disabled when the domain keeps an opaque key.
pub open spec fn spec_password_fields(
    domain: Seq<char>,
    knowledge: SourcePasswordKnowledge,
    source: Seq<char>,
    target: Seq<char>,
    opaque: bool,
) -> Seq<FieldView> {
    seq![
        (domain + "来源密码（可空） "@ + spec_knowledge_suffix(knowledge), source, true),
        (domain + "目标密码"@, if opaque { "— PreserveOpaque 禁用"@ } else { target }, true),
    ]
}

pub open spec fn spec_target_visible(f: OfficialFormView, t: FormatTargetView) -> Seq<FieldView> {
    if !t.format_capable {
        seq![(t.role_label@, "固定，不格式化"@, false)]
    } else {
        let (selected, label) = match t.role {
            PartitionRole::Boot => (f.format_boot, f.volume_label@),
            PartitionRole::Share | PartitionRole::BootShareCombined => (f.format_share, f.share_label@),
            PartitionRole::Encrypt => (f.format_encrypt, f.encrypt_label@),
        };
        seq![
            (t.role_label@ + "格式化"@, spec_checkbox(selected), false),
            (t.role_label@ + "文件系统"@, t.filesystem_name@, false),
            (t.role_label@ + "卷标"@, label, false),
        ]
    }
}

pub open spec fn spec_targets_visible(f: OfficialFormView, ts: Seq<FormatTargetView>) -> Seq<FieldView>
    decreases ts.len(),
{
    if ts.len() == 0 {
        Seq::empty()
    } else {
        spec_targets_visible(f, ts.drop_last()) + spec_target_visible(f, ts.last())
    }
}

pub open spec fn spec_opt(c: bool, s: Seq<FieldView>) -> Seq<FieldView> {
    if c { s } else { Seq::empty() }
}

pub open spec fn spec_official_visible(mode: u8, f: OfficialFormView) -> Seq<FieldView> {
    spec_identity_visible(f) + spec_domains_visible(mode, f) + spec_capacities_visible(mode, f)
        + spec_targets_visible(f, f.format_targets@) + spec_policy_visible(f)
}

/// The visible fields for provisioning `kind`.
pub open spec fn spec_visible_fields(
    kind: ProvisionKind,
    plain: Seq<PlainPartitionView>,
    official: OfficialFormView,
) -> Seq<FieldView> {
    match spec_kind_mode(kind) {
        None => spec_plain_visible(plain),
        Some(mode) => spec_official_visible(mode, official),
    }
}

/// Each visible field's secrecy is the secrecy of the field at the same place in the
/// field list.
pub open spec fn spec_secrets_match(v: Seq<FieldView>, d: Seq<ProvisionFieldDescriptor>) -> bool {
    &&& v.len() == d.len()
    &&& forall|i: int| 0 <= i < v.len() ==> (#[trigger] v[i]).2 == (#[trigger] d[i]).capabilities.secret
}

proof fn lemma_secrets_concat(
    a: Seq<FieldView>,
    b: Seq<FieldView>,
    c: Seq<ProvisionFieldDescriptor>,
    d: Seq<ProvisionFieldDescriptor>,
)
    requires
        spec_secrets_match(a, c),
        spec_secrets_match(b, d),
    ensures
        spec_secrets_match(a + b, c + d),
{
    assert forall|i: int| 0 <= i < (a + b).len() implies (#[trigger] (a + b)[i]).2 == (#[trigger] (c
        + d)[i]).capabilities.secret by {
        if i < a.len() {
            assert((a + b)[i] == a[i]);
            assert((c + d)[i] == c[i]);
        } else {
            assert((a + b)[i] == b[i - a.len()]);
            assert((c + d)[i] == d[i - c.len()]);
        }
    }
}

proof fn lemma_plain_secrets(parts: Seq<PlainPartitionView>)
    ensures
        spec_secrets_match(spec_plain_visible(parts), spec_plain_fields(parts.len())),
    decreases parts.len(),
{
    if parts.len() > 0 {
        lemma_plain_secrets(parts.drop_last());
        let n = (parts.len() - 1) as nat;
        let head = spec_plain_fields(n);
        let tail = Seq::new(4, |j: int| crate::provision_fields::spec_plain_field(n as int, j));
        assert(spec_plain_fields(parts.len()) =~= head + tail) by {
            assert forall|i: int| 0 <= i < 4 * parts.len() implies #[trigger] spec_plain_fields(
                parts.len(),
            )[i] == (head + tail)[i] by {
                if i >= 4 * n {
                    assert((i - 4 * n) == i % 4 && i / 4 == n) by (nonlinear_arith)
                        requires 4 * n <= i < 4 * (n + 1);
                }
            }
        }
        lemma_secrets_concat(
            spec_plain_visible(parts.drop_last()),
            spec_plain_part_fields(parts.len() - 1, parts.last()),
            head,
            tail,
        );
    }
}

proof fn lemma_target_secrets(f: OfficialFormView, ts: Seq<FormatTargetView>, template: Seq<PartitionFormatTarget>)
    requires
        ts.len() == template.len(),
        forall|i: int| 0 <= i < ts.len() ==> (#[trigger] ts[i]).role == (#[trigger] template[i]).role
            && ts[i].format_capable == template[i].format_capable,
    ensures
        spec_secrets_match(spec_targets_visible(f, ts), spec_format_fields(template)),
    decreases ts.len(),
{
    if ts.len() > 0 {
        let k = ts.len() - 1;
        assert(ts.last() == ts[k] && template.last() == template[k]);
        lemma_target_secrets(f, ts.drop_last(), template.drop_last());
        lemma_secrets_concat(
            spec_targets_visible(f, ts.drop_last()),
            spec_target_visible(f, ts.last()),
            spec_format_fields(template.drop_last()),
            spec_target_fields(template.last()),
        );
    }
}

pub open spec fn spec_domains_fields(mode: u8, f: OfficialFormView) -> Seq<ProvisionFieldDescriptor> {
    spec_if(mode == 0 || mode == 1 || mode == 3, spec_domain_fields(KeyDomainRole::Share, f.share_opaque))
        + spec_if(mode <= 2, spec_domain_fields(KeyDomainRole::Encrypt, f.encrypt_opaque))
}

pub open spec fn spec_layouts_fields(mode: u8) -> Seq<ProvisionFieldDescriptor> {
    spec_if(mode == 0 || mode == 3, spec_layout_fields(PartitionRole::Boot))
        + spec_if(mode == 0 || mode == 1 || mode == 3, spec_layout_fields(
            if mode == 1 { PartitionRole::BootShareCombined } else { PartitionRole::Share },
        ))
        + spec_if(mode <= 2, spec_layout_fields(PartitionRole::Encrypt))
}

proof fn lemma_domain_secrets(mode: u8, f: OfficialFormView)
    ensures
        spec_secrets_match(spec_domains_visible(mode, f), spec_domains_fields(mode, f)),
{
    let has_share = mode == 0 || mode == 1 || mode == 3;
    let share_v = spec_opt(has_share, spec_password_fields(
        if mode == 1 { "二合一区"@ } else { "交换区"@ },
        f.share_source_knowledge,
        f.share_source_password@,
        f.share_target_password@,
        f.share_opaque,
    ));
    let enc_v = spec_opt(mode <= 2, spec_password_fields(
        "保密区"@,
        f.encrypt_source_knowledge,
        f.encrypt_source_password@,
        f.encrypt_target_password@,
        f.encrypt_opaque,
    ));
    let share_d = spec_if(has_share, spec_domain_fields(KeyDomainRole::Share, f.share_opaque));
    let enc_d = spec_if(mode <= 2, spec_domain_fields(KeyDomainRole::Encrypt, f.encrypt_opaque));
    assert(spec_secrets_match(share_v, share_d));
    assert(spec_secrets_match(enc_v, enc_d));
    lemma_secrets_concat(share_v, enc_v, share_d, enc_d);
}

proof fn lemma_capacity_secrets(mode: u8, f: OfficialFormView)
    ensures
        spec_secrets_match(spec_capacities_visible(mode, f), spec_layouts_fields(mode)),
{
    let has_share = mode == 0 || mode == 1 || mode == 3;
    let boot_v = spec_opt(mode == 0 || mode == 3, spec_capacity_fields("启动区"@, f.boot));
    let share_c = spec_opt(has_share, spec_capacity_fields("交换区"@, f.share));
    let enc_c = spec_opt(mode <= 2, spec_capacity_fields("保密区"@, f.encrypt));
    let boot_l = spec_if(mode == 0 || mode == 3, spec_layout_fields(PartitionRole::Boot));
    let share_l = spec_if(has_share, spec_layout_fields(
        if mode == 1 { PartitionRole::BootShareCombined } else { PartitionRole::Share },
    ));
    let enc_l = spec_if(mode <= 2, spec_layout_fields(PartitionRole::Encrypt));
    assert(spec_secrets_match(boot_v, boot_l));
    assert(spec_secrets_match(share_c, share_l));
    assert(spec_secrets_match(enc_c, enc_l));
    lemma_secrets_concat(boot_v, share_c, boot_l, share_l);
    lemma_secrets_concat(boot_v + share_c, enc_c, boot_l + share_l, enc_l);
}

proof fn lemma_official_secrets(mode: u8, f: OfficialFormView, template: Seq<PartitionFormatTarget>)
    requires
        f.format_targets@.len() == template.len(),
        forall|i: int| 0 <= i < template.len() ==> (#[trigger] f.format_targets@[i]).role
            == (#[trigger] template[i]).role && f.format_targets@[i].format_capable
            == template[i].format_capable,
    ensures
        spec_secrets_match(
            spec_official_visible(mode, f),
            spec_identity_fields() + spec_domains_fields(mode, f) + spec_layouts_fields(mode)
                + spec_format_fields(template) + spec_policy_fields(),
        ),
{
    assert(spec_secrets_match(spec_identity_visible(f), spec_identity_fields()));
    assert(spec_secrets_match(spec_policy_visible(f), spec_policy_fields()));
    lemma_domain_secrets(mode, f);
    lemma_capacity_secrets(mode, f);
    lemma_target_secrets(f, f.format_targets@, template);
    lemma_secrets_concat(spec_identity_visible(f), spec_domains_visible(mode, f), spec_identity_fields(), spec_domains_fields(mode, f));
    let v1 = spec_identity_visible(f) + spec_domains_visible(mode, f);
    let d1 = spec_identity_fields() + spec_domains_fields(mode, f);
    lemma_secrets_concat(v1, spec_capacities_visible(mode, f), d1, spec_layouts_fields(mode));
    let v2 = v1 + spec_capacities_visible(mode, f);
    let d2 = d1 + spec_layouts_fields(mode);
    lemma_secrets_concat(v2, spec_targets_visible(f, f.format_targets@), d2, spec_format_fields(template));
    let v3 = v2 + spec_targets_visible(f, f.format_targets@);
    let d3 = d2 + spec_format_fields(template);
    lemma_secrets_concat(v3, spec_policy_visible(f), d3, spec_policy_fields());
}

/// The visible fields line up with the field list, and each is secret exactly when
/// its field is, given the same form: as many plain partitions, the same opaque-key
/// choices, and formatting targets of the same roles and formatting capability.
pub proof fn lemma_visible_fields_follow_descriptors(
    kind: ProvisionKind,
    plain: Seq<PlainPartitionView>,
    f: OfficialFormView,
    template: Seq<PartitionFormatTarget>,
)
    requires
        f.format_targets@.len() == template.len(),
        forall|i: int| 0 <= i < template.len() ==> (#[trigger] f.format_targets@[i]).role
            == (#[trigger] template[i]).role && f.format_targets@[i].format_capable
            == template[i].format_capable,
    ensures
        spec_secrets_match(
            spec_visible_fields(kind, plain, f),
            spec_field_descriptors(kind, plain.len(), f.share_opaque, f.encrypt_opaque, template),
        ),
{
    match spec_kind_mode(kind) {
        None => lemma_plain_secrets(plain),
        Some(mode) => {
            lemma_official_secrets(mode, f, template);
            assert(spec_field_descriptors(kind, plain.len(), f.share_opaque, f.encrypt_opaque, template)
                =~= spec_identity_fields() + spec_domains_fields(mode, f) + spec_layouts_fields(mode)
                + spec_format_fields(template) + spec_policy_fields());
        },
    }
}

fn copy_text(s: &String) -> (r: String)
    ensures
        r@ == s@,
{
    s.clone()
}

fn lit(s: &str) -> (r: String)
    ensures
        r@ == s@,
{
    String::from_str(s)
}

fn push_field(out: &mut Vec<(String, String, bool)>, label: String, value: String, secret: bool)
    ensures
        spec_field_views(final(out)@) == spec_field_views(old(out)@).push((label@, value@, secret)),
{
    out.push((label, value, secret));
    assert(spec_field_views(final(out)@) =~= spec_field_views(old(out)@).push((label@, value@, secret)));
}

fn checkbox(on: bool) -> (r: String)
    ensures
        r@ == spec_checkbox(on),
{
    if on { lit("☑ 是") } else { lit("☐ 否") }
}

fn unit_word(u: QuickCapacityUnit) -> (r: &'static str)
    ensures
        r@ == spec_unit_word(u),
{
    match u {
        QuickCapacityUnit::MiB => "MiB",
        QuickCapacityUnit::GiB => "GiB",
    }
}

fn knowledge_suffix(k: SourcePasswordKnowledge) -> (r: &'static str)
    ensures
        r@ == spec_knowledge_suffix(k),
{
    match k {
        SourcePasswordKnowledge::DefaultVerified => "✓ 默认已验证",
        SourcePasswordKnowledge::UserVerified => "✓ 用户已验证",
        SourcePasswordKnowledge::Unknown => "⚠ Unknown",
    }
}

fn joined3(a: &str, b: &str, c: &str) -> (r: String)
    ensures
        r@ == a@ + b@ + c@,
{
    let mut s = lit(a);
    s.append(b);
    s.append(c);
    s
}

fn joined2(a: &str, b: &str) -> (r: String)
    ensures
        r@ == a@ + b@,
{
    let mut s = lit(a);
    s.append(b);
    s
}

fn push_plain_part(out: &mut Vec<(String, String, bool)>, index: usize, p: &PlainPartitionView)
    requires
        index < usize::MAX,
    ensures
        spec_field_views(final(out)@) == spec_field_views(old(out)@) + spec_plain_part_fields(
            index as int,
            *p,
        ),
{
    let n = u128_decimal(index as u128 + 1);
    let ghost before = spec_field_views(out@);
    push_field(out, joined3("P", n.as_str(), " 起点 LBA"), copy_text(&p.start_lba), false);
    match p.input_mode {
        CapacityInputMode::Exact => {
            push_field(out, joined3("P", n.as_str(), " 容量 (sector)"), copy_text(&p.sector_count), false);
        },
        CapacityInputMode::Quick => {
            let mut label = joined3("P", n.as_str(), " 容量 (");
            label.append(unit_word(p.quick_unit));
            label.append(")");
            push_field(out, label, copy_text(&p.quick_capacity), false);
        },
    }
    push_field(out, joined3("P", n.as_str(), " 文件系统"), copy_text(&p.filesystem_name), false);
    push_field(out, joined3("P", n.as_str(), " 卷标"), copy_text(&p.volume_label), false);
    assert(spec_field_views(out@) =~= before + spec_plain_part_fields(index as int, *p));
}

fn push_capacity(out: &mut Vec<(String, String, bool)>, name: &str, c: &PartitionCapacityView)
    ensures
        spec_field_views(final(out)@) == spec_field_views(old(out)@) + spec_capacity_fields(name@, *c),
{
    let ghost before = spec_field_views(out@);
    match c.input_mode {
        CapacityInputMode::Exact => {
            push_field(out, joined2(name, "容量 (sector)"), copy_text(&c.sectors), false);
        },
        CapacityInputMode::Quick => {
            let mut label = joined3(name, "容量 (", unit_word(c.quick_unit));
            label.append(")");
            push_field(out, label, copy_text(&c.quick_size), false);
        },
    }
    push_field(out, joined2(name, "起点 LBA"), copy_text(&c.start_lba), false);
    assert(spec_field_views(out@) =~= before + spec_capacity_fields(name@, *c));
}

fn push_passwords(
    out: &mut Vec<(String, String, bool)>,
    domain: &str,
    knowledge: SourcePasswordKnowledge,
    source: &String,
    target: &String,
    opaque: bool,
)
    ensures
        spec_field_views(final(out)@) == spec_field_views(old(out)@) + spec_password_fields(
            domain@,
            knowledge,
            source@,
            target@,
            opaque,
        ),
{
    let ghost before = spec_field_views(out@);
    push_field(out, joined3(domain, "来源密码（可空） ", knowledge_suffix(knowledge)), copy_text(source), true);
    let value = if opaque { lit("— PreserveOpaque 禁用") } else { copy_text(target) };
    push_field(out, joined2(domain, "目标密码"), value, true);
    assert(spec_field_views(out@) =~= before + spec_password_fields(domain@, knowledge, source@, target@, opaque));
}

fn push_target(out: &mut Vec<(String, String, bool)>, f: &OfficialFormView, t: &FormatTargetView)
    ensures
        spec_field_views(final(out)@) == spec_field_views(old(out)@) + spec_target_visible(*f, *t),
{
    let ghost before = spec_field_views(out@);
    if !t.format_capable {
        push_field(out, copy_text(&t.role_label), lit("固定，不格式化"), false);
    } else {
        let (selected, label) = match t.role {
            PartitionRole::Boot => (f.format_boot, &f.volume_label),
            PartitionRole::Share | PartitionRole::BootShareCombined => (f.format_share, &f.share_label),
            PartitionRole::Encrypt => (f.format_encrypt, &f.encrypt_label),
        };
        push_field(out, joined2(t.role_label.as_str(), "格式化"), checkbox(selected), false);
        push_field(out, joined2(t.role_label.as_str(), "文件系统"), copy_text(&t.filesystem_name), false);
        push_field(out, joined2(t.role_label.as_str(), "卷标"), copy_text(label), false);
    }
    assert(spec_field_views(out@) =~= before + spec_target_visible(*f, *t));
}

pub open spec fn spec_identity_visible(f: OfficialFormView) -> Seq<FieldView> {
    seq![
        ("标签标识"@, f.label_id@, false),
        ("用户名"@, f.user@, false),
        ("部门"@, f.dept@, false),
        ("SAFE6 标签"@, f.label@, false),
    ]
}

pub open spec fn spec_domains_visible(mode: u8, f: OfficialFormView) -> Seq<FieldView> {
    spec_opt(mode == 0 || mode == 1 || mode == 3, spec_password_fields(
        if mode == 1 { "二合一区"@ } else { "交换区"@ },
        f.share_source_knowledge,
        f.share_source_password@,
        f.share_target_password@,
        f.share_opaque,
    )) + spec_opt(mode <= 2, spec_password_fields(
        "保密区"@,
        f.encrypt_source_knowledge,
        f.encrypt_source_password@,
        f.encrypt_target_password@,
        f.encrypt_opaque,
    ))
}

pub open spec fn spec_capacities_visible(mode: u8, f: OfficialFormView) -> Seq<FieldView> {
    spec_opt(mode == 0 || mode == 3, spec_capacity_fields("启动区"@, f.boot))
        + spec_opt(mode == 0 || mode == 1 || mode == 3, spec_capacity_fields("交换区"@, f.share))
        + spec_opt(mode <= 2, spec_capacity_fields("保密区"@, f.encrypt))
}

pub open spec fn spec_policy_visible(f: OfficialFormView) -> Seq<FieldView> {
    seq![
        ("初始化密码强制修改"@, spec_checkbox(f.force_change_password), false),
        ("取消密码复杂性验证"@, spec_checkbox(f.cancel_password_complexity_check), false),
        ("交换区密码最大错误次数"@, f.max_share_password_errors@, false),
        ("保密区密码最大错误次数"@, f.max_encrypt_password_errors@, false),
    ]
}

fn push_identity(out: &mut Vec<(String, String, bool)>, f: &OfficialFormView)
    ensures
        spec_field_views(final(out)@) == spec_field_views(old(out)@) + spec_identity_visible(*f),
{
    let ghost before = spec_field_views(out@);
    push_field(out, lit("标签标识"), copy_text(&f.label_id), false);
    push_field(out, lit("用户名"), copy_text(&f.user), false);
    push_field(out, lit("部门"), copy_text(&f.dept), false);
    push_field(out, lit("SAFE6 标签"), copy_text(&f.label), false);
    assert(spec_field_views(out@) =~= before + spec_identity_visible(*f));
}

fn push_domains(out: &mut Vec<(String, String, bool)>, mode: u8, f: &OfficialFormView)
    ensures
        spec_field_views(final(out)@) == spec_field_views(old(out)@) + spec_domains_visible(mode, *f),
{
    let ghost s0 = spec_field_views(out@);
    let has_share = mode == 0 || mode == 1 || mode == 3;
    if has_share {
        let domain = if mode == 1 { "二合一区" } else { "交换区" };
        push_passwords(out, domain, f.share_source_knowledge, &f.share_source_password, &f.share_target_password, f.share_opaque);
    }
    let ghost s1 = spec_field_views(out@);
    assert(s1 =~= s0 + spec_opt(has_share, spec_password_fields(
        if mode == 1 { "二合一区"@ } else { "交换区"@ },
        f.share_source_knowledge,
        f.share_source_password@,
        f.share_target_password@,
        f.share_opaque,
    )));
    if mode <= 2 {
        push_passwords(out, "保密区", f.encrypt_source_knowledge, &f.encrypt_source_password, &f.encrypt_target_password, f.encrypt_opaque);
    }
    assert(spec_field_views(out@) =~= s0 + spec_domains_visible(mode, *f));
}

fn push_capacities(out: &mut Vec<(String, String, bool)>, mode: u8, f: &OfficialFormView)
    ensures
        spec_field_views(final(out)@) == spec_field_views(old(out)@) + spec_capacities_visible(mode, *f),
{
    let ghost s0 = spec_field_views(out@);
    if mode == 0 || mode == 3 {
        push_capacity(out, "启动区", &f.boot);
    }
    let ghost s1 = spec_field_views(out@);
    assert(s1 =~= s0 + spec_opt(mode == 0 || mode == 3, spec_capacity_fields("启动区"@, f.boot)));
    if mode == 0 || mode == 1 || mode == 3 {
        push_capacity(out, "交换区", &f.share);
    }
    let ghost s2 = spec_field_views(out@);
    assert(s2 =~= s1 + spec_opt(mode == 0 || mode == 1 || mode == 3, spec_capacity_fields("交换区"@, f.share)));
    if mode <= 2 {
        push_capacity(out, "保密区", &f.encrypt);
    }
    assert(spec_field_views(out@) =~= s0 + spec_capacities_visible(mode, *f));
}

fn push_targets(out: &mut Vec<(String, String, bool)>, f: &OfficialFormView)
    ensures
        spec_field_views(final(out)@) == spec_field_views(old(out)@) + spec_targets_visible(*f, f.format_targets@),
{
    let ghost s0 = spec_field_views(out@);
    let mut k: usize = 0;
    while k < f.format_targets.len()
        invariant
            k <= f.format_targets@.len(),
            spec_field_views(out@) == s0 + spec_targets_visible(*f, f.format_targets@.subrange(0, k as int)),
        decreases f.format_targets.len() - k,
    {
        push_target(out, f, &f.format_targets[k]);
        proof {
            let next = f.format_targets@.subrange(0, k + 1);
            assert(next.drop_last() =~= f.format_targets@.subrange(0, k as int));
            assert(next.last() == f.format_targets@[k as int]);
            assert(spec_field_views(out@) =~= s0 + spec_targets_visible(*f, next));
        }
        k = k + 1;
    }
    assert(f.format_targets@.subrange(0, f.format_targets@.len() as int) =~= f.format_targets@);
}

fn push_policy(out: &mut Vec<(String, String, bool)>, f: &OfficialFormView)
    ensures
        spec_field_views(final(out)@) == spec_field_views(old(out)@) + spec_policy_visible(*f),
{
    let ghost before = spec_field_views(out@);
    push_field(out, lit("初始化密码强制修改"), checkbox(f.force_change_password), false);
    push_field(out, lit("取消密码复杂性验证"), checkbox(f.cancel_password_complexity_check), false);
    push_field(out, lit("交换区密码最大错误次数"), copy_text(&f.max_share_password_errors), false);
    push_field(out, lit("保密区密码最大错误次数"), copy_text(&f.max_encrypt_password_errors), false);
    assert(spec_field_views(out@) =~= before + spec_policy_visible(*f));
}

fn plain_visible(plain: &[PlainPartitionView]) -> (r: Vec<(String, String, bool)>)
    requires
        plain@.len() < usize::MAX,
    ensures
        spec_field_views(r@) == spec_plain_visible(plain@),
{
    let mut out: Vec<(String, String, bool)> = Vec::new();
    let mut i: usize = 0;
    assert(spec_field_views(out@) =~= spec_plain_visible(plain@.subrange(0, 0)));
    while i < plain.len()
        invariant
            i <= plain@.len(),
            plain@.len() < usize::MAX,
            spec_field_views(out@) == spec_plain_visible(plain@.subrange(0, i as int)),
        decreases plain.len() - i,
    {
        push_plain_part(&mut out, i, &plain[i]);
        proof {
            let next = plain@.subrange(0, i + 1);
            assert(next.drop_last() =~= plain@.subrange(0, i as int));
            assert(next.last() == plain@[i as int]);
        }
        i = i + 1;
    }
    assert(plain@.subrange(0, plain@.len() as int) =~= plain@);
    out
}

fn official_visible(mode: u8, f: &OfficialFormView) -> (r: Vec<(String, String, bool)>)
    ensures
        spec_field_views(r@) == spec_official_visible(mode, *f),
{
    let mut out: Vec<(String, String, bool)> = Vec::new();
    assert(spec_field_views(out@) =~= Seq::<FieldView>::empty());
    push_identity(&mut out, f);
    push_domains(&mut out, mode, f);
    push_capacities(&mut out, mode, f);
    push_targets(&mut out, f);
    push_policy(&mut out, f);
    assert(spec_field_views(out@) =~= spec_official_visible(mode, *f));
    out
}

impl AppState {
    /// The visible Provision form fields as (label, shown value, secret), for the
    /// chosen kind: four per plain partition, else the official form's fields.
    pub fn provision_visible_fields(
        &self,
        plain: &[PlainPartitionView],
        official: &OfficialFormView,
    ) -> (r: Vec<(String, String, bool)>)
        requires
            plain@.len() < usize::MAX,
        ensures
            spec_field_views(r@) == spec_visible_fields(self.provision.kind, plain@, *official),
    {
        match self.provision.kind {
            ProvisionKind::Plain => plain_visible(plain),
            ProvisionKind::Mode0 => official_visible(0, official),
            ProvisionKind::Mode1 => official_visible(1, official),
            ProvisionKind::Mode2 => official_visible(2, official),
            ProvisionKind::Mode3 => official_visible(3, official),
        }
    }
}

} // verus!
