use sysinfo_rs::system_info::error::InfoError;
use sysinfo_rs::system_info::smbios::{
    extract_string, format_uuid, read_bios_info, read_enclosure_info, read_system_info,
};
use sysinfo_rs::system_info::text::decimal_u8;

fn table(header: &[u8], strings: &[u8]) -> Vec<u8> {
    let mut t = header.to_vec();
    t.extend_from_slice(strings);
    t
}

fn bios_header() -> Vec<u8> {
    let mut h = vec![0u8; 0x18];
    h[1] = 0x18;
    h[0x04] = 1;
    h[0x05] = 2;
    h[0x08] = 3;
    h[0x14] = 4;
    h[0x15] = 12;
    h
}

#[test]
fn test_get_bios_info() {
    let buffer = table(&bios_header(), b"Vendor Inc.\0v2.3\0\x30\x31/02/2020\0\0");
    match read_bios_info(&buffer, false) {
        Ok(bios_info) => assert!(!bios_info.vendor.is_empty()),
        Err(e) => panic!("unexpected {:?}", e),
    }
}

#[test]
fn test_get_system_info() {
    let mut h = vec![0u8; 0x18];
    h[1] = 0x18;
    h[0x04] = 1;
    h[0x05] = 2;
    h[0x07] = 3;
    let buffer = table(&h, b"Maker\0Model\0SN42\0\0");
    match read_system_info(&buffer) {
        Ok(system_info) => assert!(!system_info.manufacturer.is_empty()),
        Err(e) => panic!("unexpected {:?}", e),
    }
}

#[test]
fn test_get_enclosure_info() {
    let mut h = vec![0u8; 0x09];
    h[1] = 0x09;
    h[0x04] = 1;
    h[0x05] = 2;
    let buffer = table(&h, b"Chassis Co\0Tower\0\0");
    match read_enclosure_info(&buffer) {
        Ok(enclosure_info) => assert!(!enclosure_info.manufacturer.is_empty()),
        Err(e) => panic!("unexpected {:?}", e),
    }
}

#[test]
fn index_zero_is_empty_string() {
    assert_eq!(extract_string(b"abc\0", 0).unwrap(), "");
    assert_eq!(extract_string(b"", 0).unwrap(), "");
}

#[test]
fn index_selects_segment() {
    let section = b"Vendor\0Ver1\0\0";
    assert_eq!(extract_string(section, 1).unwrap(), "Vendor");
    assert_eq!(extract_string(section, 2).unwrap(), "Ver1");
    assert_eq!(extract_string(section, 3).unwrap(), "");
    assert_eq!(extract_string(section, 4).unwrap(), "");
}

#[test]
fn index_beyond_segments_is_malformed() {
    let section = b"Vendor\0Ver1\0\0";
    assert_eq!(extract_string(section, 5), Err(InfoError::MalformedTable));
    assert_eq!(extract_string(b"", 2), Err(InfoError::MalformedTable));
    assert_eq!(extract_string(b"", 1).unwrap(), "");
}

#[test]
fn invalid_text_is_replaced() {
    assert_eq!(extract_string(b"A\xffB\0", 1).unwrap(), "A\u{FFFD}B");
}

#[test]
fn bios_flag_bit_scenario() {
    let mut h = vec![0u8; 0x18];
    h[1] = 0x18;
    h[0x04] = 1;
    h[0x05] = 2;
    h[0x13] = 0x08;
    let buffer = table(&h, b"Vendor\0Ver1\0\0");
    let info = read_bios_info(&buffer, false).unwrap();
    assert_eq!(info.vendor, "Vendor");
    assert_eq!(info.bios_version, "Ver1");
    assert_eq!(info.bios_release_date, "");
    assert!(info.is_virtual_machine);
    assert_eq!(info.system_bios_major_release, "0");
    assert_eq!(info.system_bios_minor_release, "0");
}

#[test]
fn bios_flag_is_or_of_bit_and_verdict() {
    let mut h = bios_header();
    h[0x13] = 0xf7;
    let buffer = table(&h, b"V\0R\0D\0\0");
    assert!(!read_bios_info(&buffer, false).unwrap().is_virtual_machine);
    assert!(read_bios_info(&buffer, true).unwrap().is_virtual_machine);
    h[0x13] = 0x08;
    let buffer = table(&h, b"V\0R\0D\0\0");
    assert!(read_bios_info(&buffer, false).unwrap().is_virtual_machine);
    assert!(read_bios_info(&buffer, true).unwrap().is_virtual_machine);
}

#[test]
fn bios_releases_are_decimal() {
    let buffer = table(&bios_header(), b"V\0R\0D\0\0");
    let info = read_bios_info(&buffer, false).unwrap();
    assert_eq!(info.system_bios_major_release, "4");
    assert_eq!(info.system_bios_minor_release, "12");
    assert_eq!(info.bios_release_date, "D");
    assert_eq!(decimal_u8(0), "0");
    assert_eq!(decimal_u8(9), "9");
    assert_eq!(decimal_u8(100), "100");
    assert_eq!(decimal_u8(255), "255");
}

#[test]
fn short_bios_buffer_is_malformed() {
    let buffer = vec![0u8, 0x10, 0, 0, 1, 2, 0, 0, 0, 0];
    assert!(matches!(read_bios_info(&buffer, true), Err(InfoError::MalformedTable)));
    assert!(matches!(read_bios_info(&[], false), Err(InfoError::MalformedTable)));
}

#[test]
fn declared_length_beyond_buffer_is_malformed() {
    let mut h = bios_header();
    h[1] = 0x40;
    assert!(matches!(read_bios_info(&h, false), Err(InfoError::MalformedTable)));
}

#[test]
fn missing_string_in_table_is_malformed() {
    let mut h = bios_header();
    h[0x04] = 9;
    let buffer = table(&h, b"V\0R\0D\0\0");
    assert!(matches!(read_bios_info(&buffer, false), Err(InfoError::MalformedTable)));
}

#[test]
fn system_uuid_scenario() {
    let mut h = vec![0u8; 0x18];
    h[1] = 0x18;
    for k in 0..16u8 {
        h[0x08 + k as usize] = k + 1;
    }
    let buffer = table(&h, b"\0\0");
    let info = read_system_info(&buffer).unwrap();
    assert_eq!(info.uuid, "01020304-0506-0708-090a-0b0c0d0e0f10");
    assert_eq!(info.manufacturer, "");
    assert_eq!(info.product_name, "");
    assert_eq!(info.serial_number, "");
}

#[test]
fn uuid_keeps_byte_order() {
    let bytes = [
        0xde, 0xad, 0xbe, 0xef, 0x00, 0xff, 0x10, 0x01, 0xa0, 0x0a, 0x12, 0x34, 0x56, 0x78, 0x9a,
        0xbc,
    ];
    let once = format_uuid(&bytes);
    assert_eq!(once, "deadbeef-00ff-1001-a00a-123456789abc");
    assert_eq!(format_uuid(&bytes), once);
}

#[test]
fn short_system_buffer_is_malformed() {
    let mut h = vec![0u8; 0x17];
    h[1] = 0x17;
    assert!(matches!(read_system_info(&h), Err(InfoError::MalformedTable)));
}

#[test]
fn enclosure_fields_are_read() {
    let mut h = vec![0u8; 0x09];
    h[1] = 0x09;
    h[0x04] = 1;
    h[0x05] = 2;
    h[0x06] = 3;
    h[0x07] = 0;
    h[0x08] = 4;
    let buffer = table(&h, b"Maker\0Rack\0v1\0TAG-7\0\0");
    let info = read_enclosure_info(&buffer).unwrap();
    assert_eq!(info.manufacturer, "Maker");
    assert_eq!(info.enclosure_type, "Rack");
    assert_eq!(info.version, "v1");
    assert_eq!(info.serial_number, "");
    assert_eq!(info.asset_tag_number, "TAG-7");
    assert!(matches!(read_enclosure_info(&h[..8]), Err(InfoError::MalformedTable)));
}
