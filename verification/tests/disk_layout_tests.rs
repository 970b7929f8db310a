use edp_tui::disk_layout::{DiskLayoutModel, DiskLayoutSegment, DiskRegionKind};

fn seg(label: &str, start_lba: u64, sector_count: u64, kind: DiskRegionKind) -> DiskLayoutSegment {
    DiskLayoutSegment { label: label.to_string(), start_lba, sector_count, kind }
}

#[test]
fn tiny_lce_keeps_exact_legend_and_visible_bar_cell() {
    let model = DiskLayoutModel::new(
        1_000_000,
        vec![
            DiskLayoutSegment {
                label: "未知区域".into(),
                start_lba: 0,
                sector_count: 999_994,
                kind: DiskRegionKind::Unknown,
            },
            DiskLayoutSegment {
                label: "LCE".into(),
                start_lba: 999_994,
                sector_count: 6,
                kind: DiskRegionKind::Lce,
            },
        ],
    );
    assert_eq!(model.bar(40).len(), 40);
    assert!(model.bar(40).contains(&DiskRegionKind::Lce));
    assert!(model.legend_lines()[1].contains("[999994..999999] · 6 sectors · <0.01%"));
    assert!(model.legend_lines()[0].starts_with("未知区域"));
}

#[test]
fn complete_contract_rejects_holes_overlap_and_wrong_last_sector() {
    let hole = DiskLayoutModel::new(
        10,
        vec![
            DiskLayoutSegment { label: "a".into(), start_lba: 0, sector_count: 4, kind: DiskRegionKind::Protocol },
            DiskLayoutSegment { label: "b".into(), start_lba: 5, sector_count: 5, kind: DiskRegionKind::Unknown },
        ],
    );
    assert!(hole.validate_complete().unwrap_err().contains("hole"));

    let overlap = DiskLayoutModel::new(
        10,
        vec![
            DiskLayoutSegment { label: "a".into(), start_lba: 0, sector_count: 6, kind: DiskRegionKind::Protocol },
            DiskLayoutSegment { label: "b".into(), start_lba: 5, sector_count: 5, kind: DiskRegionKind::Unknown },
        ],
    );
    assert!(overlap.validate_complete().unwrap_err().contains("overlap"));

    let short = DiskLayoutModel::new(
        10,
        vec![DiskLayoutSegment { label: "a".into(), start_lba: 0, sector_count: 9, kind: DiskRegionKind::Unknown }],
    );
    assert!(short.validate_complete().unwrap_err().contains("ends at"));
}

#[test]
fn validation_messages_name_the_first_failure() {
    let empty = DiskLayoutModel::new(0, vec![]);
    assert!(empty.validate_complete().is_ok());
    let stray = DiskLayoutModel::new(0, vec![seg("a", 0, 1, DiskRegionKind::Free)]);
    assert_eq!(stray.validate_complete().unwrap_err(), "zero-sector disk layout must not contain segments");
    let none = DiskLayoutModel::new(5, vec![]);
    assert_eq!(none.validate_complete().unwrap_err(), "non-empty disk has no layout segments");
    let late = DiskLayoutModel::new(5, vec![seg("a", 2, 3, DiskRegionKind::Free)]);
    assert_eq!(late.validate_complete().unwrap_err(), "disk layout starts at LBA2 instead of LBA0");
    let zero = DiskLayoutModel::new(5, vec![seg("a", 0, 5, DiskRegionKind::Free), seg("z", 5, 0, DiskRegionKind::Free)]);
    assert_eq!(zero.validate_complete().unwrap_err(), "z has zero sectors");
    let big = DiskLayoutModel::new(5, vec![seg("big", 0, 6, DiskRegionKind::Free)]);
    assert_eq!(big.validate_complete().unwrap_err(), "big exceeds physical disk");
    let wrap = DiskLayoutModel::new(5, vec![seg("w", 0, 5, DiskRegionKind::Free), seg("x", 5, u64::MAX, DiskRegionKind::Free)]);
    assert_eq!(wrap.validate_complete().unwrap_err(), "x LBA range overflows");
    let hole = DiskLayoutModel::new(10, vec![seg("a", 0, 4, DiskRegionKind::Free), seg("b", 5, 5, DiskRegionKind::Free)]);
    assert_eq!(hole.validate_complete().unwrap_err(), "disk layout hole [4..5)");
    let ok = DiskLayoutModel::new(10, vec![seg("b", 4, 6, DiskRegionKind::Free), seg("a", 0, 4, DiskRegionKind::Boot)]);
    assert!(ok.validate_complete().is_ok());
    assert_eq!(ok.segments[0].label, "a");
}

#[test]
fn new_sorts_by_start_keeping_equal_starts_in_order() {
    let model = DiskLayoutModel::new(
        9,
        vec![seg("c", 5, 4, DiskRegionKind::Free), seg("a1", 0, 2, DiskRegionKind::Free), seg("a2", 0, 5, DiskRegionKind::Free)],
    );
    let labels: Vec<&str> = model.segments.iter().map(|s| s.label.as_str()).collect();
    assert_eq!(labels, vec!["a1", "a2", "c"]);
}

#[test]
fn from_claims_prefers_higher_priority_and_fills_gaps() {
    let model = DiskLayoutModel::from_claims(
        100,
        vec![
            seg("boot", 10, 30, DiskRegionKind::Boot),
            seg("protocol", 0, 20, DiskRegionKind::Protocol),
            seg("tail", 90, 50, DiskRegionKind::Tail),
            seg("empty", 50, 0, DiskRegionKind::Lce),
        ],
        DiskRegionKind::Unknown,
    );
    assert!(model.validate_complete().is_ok());
    let parts: Vec<(String, u64, u64)> = model
        .segments
        .iter()
        .map(|s| (s.label.clone(), s.start_lba, s.sector_count))
        .collect();
    assert_eq!(
        parts,
        vec![
            ("protocol".to_string(), 0, 20),
            ("boot".to_string(), 20, 20),
            ("未知区域".to_string(), 40, 50),
            ("tail".to_string(), 90, 10),
        ]
    );
}

#[test]
fn from_claims_ties_go_to_the_later_claim_and_equal_neighbours_merge() {
    let model = DiskLayoutModel::from_claims(
        10,
        vec![seg("x", 0, 6, DiskRegionKind::Plain), seg("y", 3, 7, DiskRegionKind::Boot), seg("y", 0, 3, DiskRegionKind::Boot)],
        DiskRegionKind::Free,
    );
    assert_eq!(model.segments.len(), 1);
    assert_eq!(model.segments[0].label, "y");
    assert_eq!(model.segments[0].sector_count, 10);
    let empty = DiskLayoutModel::from_claims(0, vec![seg("x", 0, 1, DiskRegionKind::Plain)], DiskRegionKind::Free);
    assert!(empty.segments.is_empty());
}

#[test]
fn bar_width_is_clamped_and_proportional() {
    let model = DiskLayoutModel::new(
        100,
        vec![seg("a", 0, 50, DiskRegionKind::Boot), seg("b", 50, 50, DiskRegionKind::Plain)],
    );
    let bar = model.bar(10);
    assert_eq!(bar.len(), 10);
    assert_eq!(bar.iter().filter(|k| **k == DiskRegionKind::Boot).count(), 5);
    assert_eq!(model.bar(1).len(), 8);
    assert_eq!(model.bar(500).len(), 96);
    let empty = DiskLayoutModel::new(0, vec![]);
    assert_eq!(empty.bar(20), vec![DiskRegionKind::Free; 20]);
}

#[test]
fn legend_percentages_round_to_two_decimals() {
    let model = DiskLayoutModel::new(
        3,
        vec![seg("a", 0, 1, DiskRegionKind::Boot), seg("b", 1, 2, DiskRegionKind::Plain)],
    );
    let lines = model.legend_lines();
    assert_eq!(lines[0], "a [0..0] · 1 sectors · 33.33%");
    assert_eq!(lines[1], "b [1..2] · 2 sectors · 66.67%");
    let zero = DiskLayoutModel::new(0, vec![seg("z", 0, 0, DiskRegionKind::Free)]);
    assert_eq!(zero.legend_lines()[0], "z [无效范围] · 0 sectors · 0.00%");
}

#[test]
fn region_kinds_have_labels_priorities_and_bar_colours() {
    assert_eq!(DiskRegionKind::Lce.label(), "LCE");
    assert!(DiskRegionKind::Protocol.priority() > DiskRegionKind::Lce.priority());
    assert_eq!(DiskRegionKind::Tail.visual_kind(), edp_tui::provision::ProvisionBarKind::Compatibility);
    let s = seg("s", u64::MAX, 2, DiskRegionKind::Free);
    assert_eq!(s.end_exclusive().unwrap_err(), "s LBA range overflows");
    assert_eq!(s.closed_range(), "[无效范围]");
    let model = DiskLayoutModel::new(4, vec![seg("a", 0, 4, DiskRegionKind::Free)]);
    assert_eq!(model.pane_line_count("summary", &["x".to_string()]), 1 + 1 + 1 + 1 + 1 + 1);
    assert_eq!(model.pane_line_count("", &[]), 3);
}

#[test]
fn bar_runs_group_the_bar_into_maximal_runs() {
    let model = DiskLayoutModel::new(
        100,
        vec![
            seg("boot", 0, 50, DiskRegionKind::Boot),
            seg("share", 50, 50, DiskRegionKind::Share),
        ],
    );
    let runs = model.bar_runs(10);
    let bar = model.bar(10);
    let flattened: Vec<DiskRegionKind> =
        runs.iter().flat_map(|(kind, n)| std::iter::repeat(*kind).take(*n)).collect();
    assert_eq!(flattened, bar);
    assert_eq!(runs.len(), 2);
    assert!(runs.iter().all(|(_, n)| *n >= 1));
    assert!(runs.windows(2).all(|pair| pair[0].0 != pair[1].0));
    assert_eq!(runs.iter().map(|(_, n)| n).sum::<usize>(), 10);
}
