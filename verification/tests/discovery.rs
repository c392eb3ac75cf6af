use wlink::discovery::{
    get_wlink_info, has_wlink_ids, list_wlink_devices, DebugProbeInfo, DebugProbeType, UsbDevice,
};

fn device(ids: Option<(u16, u16)>, product: Option<&str>, serial: Option<&str>) -> UsbDevice {
    UsbDevice {
        ids,
        product: product.map(|text| text.to_string()),
        serial_number: serial.map(|text| text.to_string()),
    }
}

fn probe(serial: Option<&str>) -> DebugProbeInfo {
    DebugProbeInfo {
        identifier: "WCH-Link".to_string(),
        vendor_id: 0x1a86,
        product_id: 0x8010,
        serial_number: serial.map(|text| text.to_string()),
        probe_type: DebugProbeType::WchLink,
        hid_interface: None,
    }
}

#[test]
fn ids_of_the_probes() {
    assert!(has_wlink_ids(Some((0x1a86, 0x8010))));
    assert!(!has_wlink_ids(Some((0x1a86, 0x8012))));
    assert!(!has_wlink_ids(Some((0x8010, 0x1a86))));
    assert!(!has_wlink_ids(None));
}

#[test]
fn the_product_string_tells_a_probe() {
    let serial = || Some("0001A".to_string());
    assert_eq!(get_wlink_info(Some("WCH-Link".to_string()), serial()), Some(probe(Some("0001A"))));
    assert_eq!(get_wlink_info(Some("WCH-Link".to_string()), None), Some(probe(None)));
    assert_eq!(get_wlink_info(Some("WCH-LinkE".to_string()), serial()), None);
    assert_eq!(get_wlink_info(None, serial()), None);
}

#[test]
fn probes_are_listed_in_order() {
    let ids = Some((0x1a86, 0x8010));
    let devices = vec![
        device(ids, Some("WCH-Link"), Some("first")),
        device(None, Some("WCH-Link"), None),
        device(Some((0x1a86, 0x7523)), Some("WCH-Link"), None),
        device(ids, None, Some("unread")),
        device(ids, Some("WCH_Link"), None),
        device(ids, Some("WCH-Link"), None),
    ];
    assert_eq!(list_wlink_devices(Some(devices)), vec![probe(Some("first")), probe(None)]);
}

#[test]
fn without_devices_there_are_no_probes() {
    assert_eq!(list_wlink_devices(Some(vec![])), vec![]);
    assert_eq!(list_wlink_devices(None), vec![]);
}
