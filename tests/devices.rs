use edit_mouse::device::{device_id, display_name, is_listed_mouse, is_mouse_entry, list_mouse_devices, HidRecord};
use edit_mouse::text::{text_contains, text_eq};

fn record(usage_page: u16, usage: u16, product: Option<&str>, serial: Option<&str>) -> HidRecord {
    HidRecord {
        vendor_id: 0x04f2,
        product_id: 0x0112,
        serial_number: serial.map(|s| s.to_string()),
        usage_page,
        usage,
        product_string: product.map(|s| s.to_string()),
        manufacturer_string: Some("Chicony".to_string()),
    }
}

#[test]
fn device_ids_are_hex_with_serial() {
    assert_eq!(device_id(0x04f2, 0x0112, Some("ABC")), "04f2:0112:ABC");
    assert_eq!(device_id(0x046d, 0xC077, None), "046d:c077:noserial");
    assert_eq!(device_id(0, 0xffff, Some("")), "0000:ffff:");
}

#[test]
fn display_names_fall_back() {
    assert_eq!(display_name(Some("MX Master"), Some("Logitech")), "MX Master");
    assert_eq!(display_name(None, Some("Logitech")), "Logitech");
    assert_eq!(display_name(None, None), "Unknown Mouse");
}

#[test]
fn trackpads_are_not_listed() {
    assert!(is_listed_mouse(1, 2, "USB Optical Mouse"));
    assert!(!is_listed_mouse(1, 2, "Magic TrackPad"));
    assert!(!is_listed_mouse(1, 6, "Keyboard"));
    assert!(!is_listed_mouse(0x0c, 2, "Mouse"));
    assert!(is_mouse_entry(1, 2, "Magic TrackPad"));
    assert!(!is_mouse_entry(1, 2, "magic trackpad"));
}

#[test]
fn listing_keeps_mice_in_order() {
    let recs = vec![
        record(1, 2, Some("Office Mouse"), Some("ABC")),
        record(1, 6, Some("Keyboard"), None),
        record(1, 2, Some("Apple Internal Trackpad"), None),
        record(1, 2, None, None),
    ];
    let out = list_mouse_devices(&recs);
    assert_eq!(out.len(), 2);
    assert_eq!(out[0].id, "04f2:0112:ABC");
    assert_eq!(out[0].name, "Office Mouse");
    assert_eq!(out[1].id, "04f2:0112:noserial");
    assert_eq!(out[1].name, "Chicony");
    assert!(list_mouse_devices(&Vec::new()).is_empty());
}

#[test]
fn text_helpers() {
    assert!(text_eq("Back", "Back"));
    assert!(!text_eq("Back", "Bac"));
    assert!(text_contains("apple trackpad", "trackpad"));
    assert!(text_contains("abc", ""));
    assert!(!text_contains("track", "trackpad"));
}
