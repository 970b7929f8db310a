use edp_tui::device_view::device_row_cells;
use edp_tui::state::DeviceRow;

fn row(proto: &str, device_id: Option<&str>) -> DeviceRow {
    DeviceRow {
        disk: 3,
        size: 1 << 30,
        proto: proto.to_string(),
        denied: false,
        probe_error: None,
        onlyid: Some("ID3".to_string()),
        device_id: device_id.map(|s| s.to_string()),
        identity_text: String::new(),
        kind_name: "普通盘".to_string(),
        vid: "0951".to_string(),
        pid: "1666".to_string(),
        user: Some("张三".to_string()),
        dept: None,
    }
}

#[test]
fn usb_row_lists_every_cell() {
    let cells = device_row_cells(&row("USB", Some("usbstor\\disk&ven_kingston&prod_datatraveler&rev_1.00")), "7.5 GB");
    assert_eq!(
        cells,
        vec!["disk3", "7.5 GB", "USB", "0951:1666", "kingston_datatraveler", "ID3", "张三", "—", "普通盘"]
    );
}

#[test]
fn vendor_or_product_alone_and_neither() {
    assert_eq!(device_row_cells(&row("USB", Some("ven_acme&x")), "1")[4], "acme");
    assert_eq!(device_row_cells(&row("USB", Some("prod_box")), "1")[4], "box");
    assert_eq!(device_row_cells(&row("USB", None), "1")[4], "—");
    assert_eq!(device_row_cells(&row("USB", Some("ven_a&ven_b&prod_c")), "1")[4], "a_c");
}

#[test]
fn state_cell_explains_unusable_disks() {
    assert_eq!(device_row_cells(&row("SATA", None), "1")[8], "非 USB / 不支持");
    let mut denied = row("USB", None);
    denied.denied = true;
    assert_eq!(device_row_cells(&denied, "1")[8], "需要管理员权限");
    let mut broken = row("USB", None);
    broken.probe_error = Some("I/O".to_string());
    assert_eq!(device_row_cells(&broken, "1")[8], "读取异常: I/O");
}
