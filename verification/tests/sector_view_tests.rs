use edp_tui::inspect::{
    AdvancedInspectSource, InspectSectorItem, InspectWorkspace, SectorInspectMode,
    SectorInspectorState,
};
use edp_tui::sector_view::ByteTone;
use edp_tui::state::AppState;

fn open_sector(mode: SectorInspectMode, decoded: Option<Vec<u8>>) -> AppState {
    let mut state = AppState::new();
    assert!(state.begin_advanced_inspect(AdvancedInspectSource::Disk(1)));
    let raw: Vec<u8> = (0..512).map(|i| (i % 256) as u8).collect();
    let item = InspectSectorItem {
        lba: 2,
        raw,
        fields: Vec::new(),
        decoded,
        decode_error: None,
        meta_text: None,
    };
    state.advanced_inspect_finish(Ok(InspectWorkspace { total_sectors: 100, items: vec![item] }));
    state.advanced_inspect.as_mut().unwrap().sector = Some(SectorInspectorState {
        lba: 2,
        mode,
        cursor: 17,
        pending: false,
        error: None,
        field_expanded: false,
        pinned_field: None,
    });
    state
}

#[test]
fn sector_header_names_sector_mode_and_cursor() {
    let state = open_sector(SectorInspectMode::Raw, None);
    assert!(state.sector_viewable());
    let text = state.sector_inspector_text().expect("open");
    assert_eq!(text.lba, "LBA2  ");
    assert_eq!(text.mode, "Raw");
    assert_eq!(text.pending, "");
    assert_eq!(text.position, "byte +0x011 / absolute 0x411 / row 02/32");
    assert_eq!(text.decode, "decode: available/raw");
}

#[test]
fn hex_rows_show_offsets_bytes_and_ascii() {
    let state = open_sector(SectorInspectMode::Raw, None);
    let rows = state.sector_inspector_text().unwrap().rows.expect("rows");
    assert_eq!(rows.len(), 32);
    assert_eq!(rows[1].offset, "+0x010  ");
    assert_eq!(rows[1].absolute, "0x000000000410  ");
    assert_eq!(rows[1].bytes[1], ("11 ".to_string(), ByteTone::Cursor));
    assert_eq!(rows[0].bytes[0], ("00 ".to_string(), ByteTone::Plain));
    assert_eq!(rows[4].ascii, " |@ABCDEFGHIJKLMNO|");
    assert_eq!(rows[31].offset, "+0x1F0  ");
}

#[test]
fn mixed_mode_marks_bytes_changed_by_decoding() {
    let mut decoded: Vec<u8> = (0..512).map(|i| (i % 256) as u8).collect();
    decoded[3] = 0xAA;
    let state = open_sector(SectorInspectMode::Mixed, Some(decoded));
    let rows = state.sector_inspector_text().unwrap().rows.unwrap();
    assert_eq!(rows[0].bytes[3], ("AA ".to_string(), ByteTone::Changed));
    assert_eq!(rows[0].bytes[2].1, ByteTone::Plain);
}

#[test]
fn closed_inspector_has_no_text() {
    assert!(AppState::new().sector_inspector_text().is_none());
}
