use sysinfo_rs::system_info::virt::{
    combine_probes, determine_virtual_machine_status, get_hypervisor_name, is_hypervisor_present,
    is_running_in_docker, is_systemd_running_in_container, Probe, VirtEvidence,
};

fn quiet() -> VirtEvidence {
    VirtEvidence {
        cpuid_feature_ecx: Some(0x0000_1234),
        cpuid_hypervisor_signature: Some([0, 0, 0]),
        sys_hypervisor_type: None,
        sys_hypervisor_capabilities: None,
        cpuinfo: Some(b"processor : 0\nflags : fpu vme\n".to_vec()),
        kernel_log: Some(b"Linux version 6.1\n".to_vec()),
        msr_output: None,
        device_tree_hypervisor: None,
        dockerenv_exists: false,
        dockerinit_exists: false,
        init_system_state: Some(b"running\n".to_vec()),
    }
}

#[test]
fn no_signal_means_not_virtual() {
    assert!(!determine_virtual_machine_status(&quiet()));
}

#[test]
fn cpu_bit_alone_decides() {
    let mut ev = quiet();
    ev.cpuid_feature_ecx = Some(0x8000_0000);
    assert!(is_hypervisor_present(&ev));
    assert!(determine_virtual_machine_status(&ev));
}

#[test]
fn known_signature_alone_decides() {
    let mut ev = quiet();
    ev.cpuid_hypervisor_signature = Some([0x4B56_4D4B, 0x564D_4B56, 0x4D4B_564D]);
    assert!(determine_virtual_machine_status(&ev));
    ev.cpuid_hypervisor_signature = Some([0x1234_5678, 0x564D_4B56, 0x4D4B_564D]);
    assert!(!determine_virtual_machine_status(&ev));
}

#[test]
fn hypervisor_names() {
    assert_eq!(get_hypervisor_name([0x564D_7761, 0x7265_564D, 0x7761_7265]), Some("VMware"));
    assert_eq!(
        get_hypervisor_name([0x4D69_6372, 0x6F73_6F66, 0x7420_4876]),
        Some("Microsoft Hyper-V")
    );
    assert_eq!(get_hypervisor_name([0x4B56_4D4B, 0x564D_4B56, 0x4D4B_564D]), Some("KVM"));
    assert_eq!(get_hypervisor_name([0x5865_6E56, 0x4D4D_5865, 0x6E56_4D4D]), Some("Xen"));
    assert_eq!(get_hypervisor_name([0, 0, 0]), None);
}

#[test]
fn sys_hypervisor_type_marker() {
    let mut ev = quiet();
    ev.sys_hypervisor_type = Some(b"xen\n".to_vec());
    assert!(determine_virtual_machine_status(&ev));
    ev.sys_hypervisor_type = Some(b"kvm".to_vec());
    assert!(determine_virtual_machine_status(&ev));
    ev.sys_hypervisor_type = Some(b"none".to_vec());
    assert!(!determine_virtual_machine_status(&ev));
}

#[test]
fn unreadable_file_is_no_signal() {
    let mut ev = quiet();
    ev.sys_hypervisor_type = Some(b"xen\xff".to_vec());
    assert!(!determine_virtual_machine_status(&ev));
}

#[test]
fn kernel_log_markers() {
    let mut ev = quiet();
    ev.kernel_log = Some(b"[0.0] Hypervisor detected: KVM\n[0.1] hypervisor ok".to_vec());
    assert!(determine_virtual_machine_status(&ev));
    ev.kernel_log = Some(b"[0.0] virtualization \xff extensions".to_vec());
    assert!(determine_virtual_machine_status(&ev));
    ev.kernel_log = Some(b"[0.0] Hypervisor detected".to_vec());
    assert!(!determine_virtual_machine_status(&ev));
}

#[test]
fn cpuinfo_and_capabilities_markers() {
    let mut ev = quiet();
    ev.cpuinfo = Some(b"flags : fpu hypervisor\n".to_vec());
    assert!(determine_virtual_machine_status(&ev));
    let mut ev = quiet();
    ev.sys_hypervisor_capabilities = Some(b"kvm-arm64".to_vec());
    assert!(determine_virtual_machine_status(&ev));
}

#[test]
fn msr_and_device_tree_probes() {
    let mut ev = quiet();
    ev.msr_output = Some(b"hypervisor".to_vec());
    assert!(determine_virtual_machine_status(&ev));
    let mut ev = quiet();
    ev.device_tree_hypervisor = Some(Vec::new());
    assert!(!determine_virtual_machine_status(&ev));
    ev.device_tree_hypervisor = Some(b"x".to_vec());
    assert!(determine_virtual_machine_status(&ev));
}

#[test]
fn container_sentinels() {
    let mut ev = quiet();
    ev.dockerinit_exists = true;
    assert!(is_running_in_docker(&ev));
    assert!(!is_hypervisor_present(&ev));
    assert!(determine_virtual_machine_status(&ev));
}

#[test]
fn init_system_in_container() {
    let mut ev = quiet();
    ev.init_system_state = Some(b"degraded (running in container)\n".to_vec());
    assert!(is_systemd_running_in_container(&ev));
    assert!(determine_virtual_machine_status(&ev));
}

#[test]
fn combine_probe_outcomes() {
    assert!(!combine_probes(&[]));
    assert!(!combine_probes(&[Probe::Absent, Probe::Unknown, Probe::Absent]));
    assert!(combine_probes(&[Probe::Absent, Probe::Unknown, Probe::Present]));
    assert!(combine_probes(&[Probe::Present]));
}
