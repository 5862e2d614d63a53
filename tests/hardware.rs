use sysinfo_rs::system_info::hardware::{get_mac_addresses, HardwareInfo, HardwareSources};
use sysinfo_rs::system_info::mounts::get_root_device;
use sysinfo_rs::system_info::virt::VirtEvidence;

fn evidence() -> VirtEvidence {
    VirtEvidence {
        cpuid_feature_ecx: Some(0),
        cpuid_hypervisor_signature: None,
        sys_hypervisor_type: None,
        sys_hypervisor_capabilities: None,
        cpuinfo: None,
        kernel_log: None,
        msr_output: None,
        device_tree_hypervisor: None,
        dockerenv_exists: false,
        dockerinit_exists: false,
        init_system_state: None,
    }
}

fn bios_table() -> Vec<u8> {
    let mut t = vec![0u8; 0x18];
    t[1] = 0x18;
    t[0x04] = 1;
    t[0x05] = 2;
    t[0x14] = 1;
    t.extend_from_slice(b"Test Vendor\x001.0\0\0");
    t
}

fn sources() -> HardwareSources {
    HardwareSources {
        evidence: evidence(),
        disk_serial: Some("WD-12345".to_string()),
        interface_macs: vec![None, Some([0x02, 0x42, 0xac, 0x11, 0x00, 0x02])],
        bios_table: Some(bios_table()),
        system_table: None,
        enclosure_table: Some(vec![3, 0x20, 0]),
    }
}

fn extra_value() -> serde_json::Value {
    let mut map = serde_json::Map::new();
    map.insert("custom_field".to_string(), serde_json::Value::String("value".to_string()));
    serde_json::Value::Object(map)
}

#[test]
fn test_get_root_device() {
    let mounts = "sysfs /sys sysfs rw 0 0\n/dev/nvme0n1p2 / ext4 rw,relatime 0 0\n";
    let root_device = get_root_device(mounts).unwrap();
    assert!(!root_device.is_empty());
    assert_eq!(root_device, "nvme0n1p2");
}

#[test]
fn root_device_first_match_and_prefix() {
    let mounts = "overlay / overlay rw 0 0\n/dev/sda1 / ext4 rw 0 0\n";
    assert_eq!(get_root_device(mounts).unwrap(), "overlay");
    let mounts = "  /dev/vda1\t/  xfs rw 0 0";
    assert_eq!(get_root_device(mounts).unwrap(), "vda1");
    assert_eq!(get_root_device("/dev/sda1 /boot ext4 rw 0 0\n"), None);
    assert_eq!(get_root_device(""), None);
    assert_eq!(get_root_device("\n\n/dev/sdb3 / btrfs rw 0 0\n").unwrap(), "sdb3");
}

#[test]
fn test_get_mac_addresses() {
    let mac_addresses = get_mac_addresses(&[Some([0x00, 0x1a, 0x2b, 0x3c, 0x4d, 0x5e])]);
    assert!(!mac_addresses.is_empty());
}

#[test]
fn mac_addresses_are_rendered_and_joined() {
    let macs = [
        Some([0x00, 0x1a, 0x2b, 0x3c, 0x4d, 0x5e]),
        None,
        Some([0xff, 0xff, 0xff, 0xff, 0xff, 0xff]),
    ];
    assert_eq!(get_mac_addresses(&macs), "00:1a:2b:3c:4d:5e, ff:ff:ff:ff:ff:ff");
    assert_eq!(get_mac_addresses(&[None, None]), "");
    assert_eq!(get_mac_addresses(&[]), "");
}

#[test]
fn hardware_report_assembles_sources() {
    let info = HardwareInfo::new(&sources());
    assert!(!info.cpu_is_virtual);
    assert_eq!(info.disk_serial_number, "WD-12345");
    assert_eq!(info.mac_addresses, "02:42:ac:11:00:02");
    assert_eq!(info.bios_info.vendor, "Test Vendor");
    assert_eq!(info.bios_info.bios_version, "1.0");
    assert_eq!(info.bios_info.system_bios_major_release, "1");
    assert!(!info.bios_info.is_virtual_machine);
    assert_eq!(info.system_info.uuid, "");
    assert_eq!(info.enclosure_info.manufacturer, "");
    assert!(info.extra.is_none());
}

#[test]
fn verdict_reaches_bios_record() {
    let mut src = sources();
    src.evidence.dockerenv_exists = true;
    let info = HardwareInfo::new(&src);
    assert!(info.cpu_is_virtual);
    assert!(info.bios_info.is_virtual_machine);
}

#[test]
fn missing_disk_serial_is_empty() {
    let mut src = sources();
    src.disk_serial = None;
    let info = HardwareInfo::new(&src);
    assert_eq!(info.disk_serial_number, "");
    assert_eq!(info.bios_info.vendor, "Test Vendor");
}

#[test]
fn test_hardware_info_with_extra() {
    let hardware_info = HardwareInfo::new(&sources()).with_extra(extra_value());
    assert!(hardware_info.extra.is_some());
    assert_eq!(hardware_info.extra.unwrap()["custom_field"], "value");
}
