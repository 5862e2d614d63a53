use sysinfo_rs::system_info::error::InfoError;
use sysinfo_rs::system_info::software::{
    get_cached_uname, get_uname, uname_json, SoftwareInfo, UnameFields,
};

fn fields() -> UnameFields {
    UnameFields {
        sysname: b"Linux".to_vec(),
        nodename: b"host".to_vec(),
        release: b"6.1.0".to_vec(),
        version: b"#1 SMP \"x\"".to_vec(),
        machine: b"x86_64".to_vec(),
        domainname: b"(none)".to_vec(),
    }
}

#[test]
fn test_get_uname() {
    let uname = get_uname().unwrap();
    assert!(!uname.is_empty());
}

#[test]
fn uname_json_renders_object() {
    let text = uname_json(&fields()).unwrap();
    assert_eq!(
        text,
        "{\"domainname\":\"(none)\",\"machine\":\"x86_64\",\"nodename\":\"host\",\"release\":\"6.1.0\",\"sysname\":\"Linux\",\"version\":\"#1 SMP \\\"x\\\"\"}"
    );
}

#[test]
fn uname_json_rejects_invalid_text() {
    let mut f = fields();
    f.machine = vec![0x78, 0xff];
    assert_eq!(uname_json(&f), Err(InfoError::Encoding));
}

#[test]
fn cached_uname_is_kept() {
    let mut cache = Some("cached".to_string());
    assert_eq!(get_cached_uname(&mut cache).unwrap(), "cached");
    assert_eq!(cache, Some("cached".to_string()));
    let mut empty: Option<String> = None;
    let first = get_cached_uname(&mut empty).unwrap();
    assert_eq!(empty, Some(first.clone()));
    assert_eq!(get_cached_uname(&mut empty).unwrap(), first);
}

#[test]
fn test_software_info_with_extra() {
    let mut value = serde_json::Map::new();
    value.insert("custom_field".to_string(), serde_json::Value::String("value".to_string()));
    let mut cache = None;
    let software_info = SoftwareInfo::new("NAME=Test".to_string(), &mut cache)
        .unwrap()
        .with_extra(serde_json::Value::Object(value));

    assert!(software_info.extra.is_some());
    assert_eq!(
        software_info.extra.as_ref().map(|e| &e["custom_field"]),
        Some(&serde_json::Value::String("value".to_string()))
    );
}

#[test]
fn software_info_uses_cache() {
    let mut cache = Some("{\"sysname\":\"Test\"}".to_string());
    let info = SoftwareInfo::new("Test OS 1.0".to_string(), &mut cache).unwrap();
    assert_eq!(info.os_release, "Test OS 1.0");
    assert_eq!(info.uname, "{\"sysname\":\"Test\"}");
    assert!(info.extra.is_none());
}
