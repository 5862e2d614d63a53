//! The virtualization detector: independent, individually unreliable probes
//! whose verdict is their logical OR. The caller gathers the raw evidence
//! (CPU identification words, file contents, command outputs); every probe
//! whose source could not be read counts as unknown, which is not a signal.
use vstd::prelude::*;
use vstd::utf8::{decode_utf8, valid_utf8};

use crate::system_info::text::{
    decode_lossy, decode_strict, has_substring, lossy_text, text_contains,
};

verus! {

/// The outcome of one probe.
#[derive(Debug, Clone, Copy, PartialEq, Eq, Structural)]
pub enum Probe {
    /// The probe saw a sign of virtualization.
    Present,
    /// The probe looked and saw none.
    Absent,
    /// The probe's source could not be read.
    Unknown,
}

/// Raw evidence for the probes. `None` marks a source that could not be read
/// (or does not exist on this architecture).
#[derive(Debug, Clone)]
pub struct VirtEvidence {
    /// ECX of CPUID leaf 1.
    pub cpuid_feature_ecx: Option<u32>,
    /// EBX, ECX and EDX of CPUID leaf 0x4000_0000.
    pub cpuid_hypervisor_signature: Option<[u32; 3]>,
    /// Contents of `/sys/hypervisor/type`.
    pub sys_hypervisor_type: Option<Vec<u8>>,
    /// Contents of `/sys/hypervisor/properties/capabilities`.
    pub sys_hypervisor_capabilities: Option<Vec<u8>>,
    /// Contents of `/proc/cpuinfo`.
    pub cpuinfo: Option<Vec<u8>>,
    /// Standard output of the kernel-log command.
    pub kernel_log: Option<Vec<u8>>,
    /// Standard output of the model-specific-register read.
    pub msr_output: Option<Vec<u8>>,
    /// Standard output of reading the device-tree hypervisor node.
    pub device_tree_hypervisor: Option<Vec<u8>>,
    /// Whether `/.dockerenv` exists.
    pub dockerenv_exists: bool,
    /// Whether `/.dockerinit` exists.
    pub dockerinit_exists: bool,
    /// Standard output of the init system's state query.
    pub init_system_state: Option<Vec<u8>>,
}

/// The view of an optional byte buffer.
pub open spec fn bytes_of(b: Option<Vec<u8>>) -> Option<Seq<u8>> {
    match b {
        Some(v) => Some(v@),
        None => None,
    }
}

/// A file's text: bytes that are not valid UTF-8 make it unreadable.
pub open spec fn file_text(b: Option<Seq<u8>>) -> Option<Seq<char>> {
    match b {
        Some(bytes) => if valid_utf8(bytes) {
            Some(decode_utf8(bytes))
        } else {
            None
        },
        None => None,
    }
}

/// A command's output as text, decoded leniently.
pub open spec fn output_text(b: Option<Seq<u8>>) -> Option<Seq<char>> {
    match b {
        Some(bytes) => Some(lossy_text(bytes)),
        None => None,
    }
}

/// Present when the text contains `a` or `b`; unknown without a text.
pub open spec fn mentions_either(t: Option<Seq<char>>, a: Seq<char>, b: Seq<char>) -> Probe {
    match t {
        Some(text) => if has_substring(text, a) || has_substring(text, b) {
            Probe::Present
        } else {
            Probe::Absent
        },
        None => Probe::Unknown,
    }
}

/// Present when the text contains `a`; unknown without a text.
pub open spec fn mentions(t: Option<Seq<char>>, a: Seq<char>) -> Probe {
    mentions_either(t, a, a)
}

/// The known hypervisor whose vendor signature the three words spell.
pub open spec fn hypervisor_of(sig: [u32; 3]) -> Option<Seq<char>> {
    if sig@[0] == 0x564D7761 && sig@[1] == 0x7265564D && sig@[2] == 0x77617265 {
        Some("VMware"@)
    } else if sig@[0] == 0x4D696372 && sig@[1] == 0x6F736F66 && sig@[2] == 0x74204876 {
        Some("Microsoft Hyper-V"@)
    } else if sig@[0] == 0x4B564D4B && sig@[1] == 0x564D4B56 && sig@[2] == 0x4D4B564D {
        Some("KVM"@)
    } else if sig@[0] == 0x58656E56 && sig@[1] == 0x4D4D5865 && sig@[2] == 0x6E564D4D {
        Some("Xen"@)
    } else {
        None
    }
}

/// The hypervisor-present bit (bit 31 of ECX of CPUID leaf 1).
pub open spec fn cpu_flag_outcome(ecx: Option<u32>) -> Probe {
    match ecx {
        Some(e) => if e & 0x8000_0000 != 0 {
            Probe::Present
        } else {
            Probe::Absent
        },
        None => Probe::Unknown,
    }
}

/// A recognised hypervisor vendor signature; an unrecognised one is no signal.
pub open spec fn signature_outcome(sig: Option<[u32; 3]>) -> Probe {
    match sig {
        Some(s) => if hypervisor_of(s) is Some {
            Probe::Present
        } else {
            Probe::Absent
        },
        None => Probe::Unknown,
    }
}

/// Present when the command printed anything at all.
pub open spec fn nonempty_outcome(t: Option<Seq<char>>) -> Probe {
    match t {
        Some(text) => if text.len() > 0 {
            Probe::Present
        } else {
            Probe::Absent
        },
        None => Probe::Unknown,
    }
}

/// The outcomes of the hypervisor probes, in their fixed order.
pub open spec fn hypervisor_outcomes(ev: VirtEvidence) -> Seq<Probe> {
    seq![
        cpu_flag_outcome(ev.cpuid_feature_ecx),
        signature_outcome(ev.cpuid_hypervisor_signature),
        mentions_either(file_text(bytes_of(ev.sys_hypervisor_type)), "xen"@, "kvm"@),
        mentions(file_text(bytes_of(ev.sys_hypervisor_capabilities)), "kvm"@),
        mentions(file_text(bytes_of(ev.cpuinfo)), "hypervisor"@),
        mentions_either(output_text(bytes_of(ev.kernel_log)), "hypervisor"@, "virtualization"@),
        mentions(output_text(bytes_of(ev.msr_output)), "hypervisor"@),
        nonempty_outcome(output_text(bytes_of(ev.device_tree_hypervisor))),
    ]
}

/// A container sentinel file exists.
pub open spec fn container_outcome(ev: VirtEvidence) -> Probe {
    if ev.dockerenv_exists || ev.dockerinit_exists {
        Probe::Present
    } else {
        Probe::Absent
    }
}

/// The init system reports that it runs in a container.
pub open spec fn init_outcome(ev: VirtEvidence) -> Probe {
    mentions(output_text(bytes_of(ev.init_system_state)), "running in container"@)
}

/// The outcomes of every probe, in their fixed order.
pub open spec fn probe_outcomes(ev: VirtEvidence) -> Seq<Probe> {
    hypervisor_outcomes(ev) + seq![container_outcome(ev), init_outcome(ev)]
}

/// Some probe in the list saw a sign of virtualization.
pub open spec fn any_present(outcomes: Seq<Probe>) -> bool {
    exists|i: int| 0 <= i < outcomes.len() && outcomes[i] == Probe::Present
}

/// The detector's verdict on the evidence.
pub open spec fn vm_verdict(ev: VirtEvidence) -> bool {
    any_present(probe_outcomes(ev))
}

/// Combines probe outcomes: true exactly when one of them is `Present`;
/// `Absent` and `Unknown` alike leave the verdict false.
pub fn combine_probes(outcomes: &[Probe]) -> (r: bool)
    ensures
        r == any_present(outcomes@),
{
    let mut i: usize = 0;
    while i < outcomes.len()
        invariant
            i <= outcomes@.len(),
            forall|j: int| 0 <= j < i ==> outcomes@[j] != Probe::Present,
        decreases outcomes@.len() - i,
    {
        if outcomes[i] == Probe::Present {
            return true;
        }
        i = i + 1;
    }
    false
}

/// Names the hypervisor whose CPUID vendor signature is given, if known.
pub fn get_hypervisor_name(signature: [u32; 3]) -> (r: Option<&'static str>)
    ensures
        match r {
            Some(name) => hypervisor_of(signature) == Some(name@),
            None => hypervisor_of(signature) is None,
        },
{
    let (a, b, c) = (signature[0], signature[1], signature[2]);
    if a == 0x564D7761 && b == 0x7265564D && c == 0x77617265 {
        Some("VMware")
    } else if a == 0x4D696372 && b == 0x6F736F66 && c == 0x74204876 {
        Some("Microsoft Hyper-V")
    } else if a == 0x4B564D4B && b == 0x564D4B56 && c == 0x4D4B564D {
        Some("KVM")
    } else if a == 0x58656E56 && b == 0x4D4D5865 && c == 0x6E564D4D {
        Some("Xen")
    } else {
        None
    }
}

fn file_contents(b: &Option<Vec<u8>>) -> (r: Option<String>)
    ensures
        match r {
            Some(s) => file_text(bytes_of(*b)) == Some(s@),
            None => file_text(bytes_of(*b)) is None,
        },
{
    match b {
        Some(v) => decode_strict(v.as_slice()),
        None => None,
    }
}

fn command_output(b: &Option<Vec<u8>>) -> (r: Option<String>)
    ensures
        match r {
            Some(s) => output_text(bytes_of(*b)) == Some(s@),
            None => output_text(bytes_of(*b)) is None,
        },
{
    match b {
        Some(v) => Some(decode_lossy(v.as_slice())),
        None => None,
    }
}

fn probe_mentions_either(t: &Option<String>, a: &str, b: &str) -> (r: Probe)
    ensures
        r == mentions_either(
            match t {
                Some(s) => Some(s@),
                None => None,
            },
            a@,
            b@,
        ),
{
    match t {
        Some(s) => if text_contains(s.as_str(), a) || text_contains(s.as_str(), b) {
            Probe::Present
        } else {
            Probe::Absent
        },
        None => Probe::Unknown,
    }
}

/// Probes a file's contents for either of two markers.
fn file_probe(b: &Option<Vec<u8>>, m1: &str, m2: &str) -> (r: Probe)
    ensures
        r == mentions_either(file_text(bytes_of(*b)), m1@, m2@),
{
    probe_mentions_either(&file_contents(b), m1, m2)
}

/// Probes a command's output for either of two markers.
fn output_probe(b: &Option<Vec<u8>>, m1: &str, m2: &str) -> (r: Probe)
    ensures
        r == mentions_either(output_text(bytes_of(*b)), m1@, m2@),
{
    probe_mentions_either(&command_output(b), m1, m2)
}

/// Probes whether a command printed anything.
fn nonempty_probe(b: &Option<Vec<u8>>) -> (r: Probe)
    ensures
        r == nonempty_outcome(output_text(bytes_of(*b))),
{
    match command_output(b) {
        Some(s) => if s.as_str().is_empty() {
            Probe::Absent
        } else {
            Probe::Present
        },
        None => Probe::Unknown,
    }
}

/// The hypervisor-present bit of CPUID leaf 1.
pub fn cpu_flag_probe(ecx: Option<u32>) -> (r: Probe)
    ensures
        r == cpu_flag_outcome(ecx),
{
    match ecx {
        Some(e) => if e & 0x8000_0000 != 0 {
            Probe::Present
        } else {
            Probe::Absent
        },
        None => Probe::Unknown,
    }
}

/// The vendor signature of CPUID leaf 0x4000_0000.
pub fn signature_probe(sig: Option<[u32; 3]>) -> (r: Probe)
    ensures
        r == signature_outcome(sig),
{
    match sig {
        Some(s) => if get_hypervisor_name(s).is_some() {
            Probe::Present
        } else {
            Probe::Absent
        },
        None => Probe::Unknown,
    }
}

/// Runs the hypervisor probes on the evidence, in their fixed order.
pub fn hypervisor_probes(ev: &VirtEvidence) -> (r: Vec<Probe>)
    ensures
        r@ == hypervisor_outcomes(*ev),
{
    let p0 = cpu_flag_probe(ev.cpuid_feature_ecx);
    let p1 = signature_probe(ev.cpuid_hypervisor_signature);
    let p2 = file_probe(&ev.sys_hypervisor_type, "xen", "kvm");
    let p3 = file_probe(&ev.sys_hypervisor_capabilities, "kvm", "kvm");
    let p4 = file_probe(&ev.cpuinfo, "hypervisor", "hypervisor");
    let p5 = output_probe(&ev.kernel_log, "hypervisor", "virtualization");
    let p6 = output_probe(&ev.msr_output, "hypervisor", "hypervisor");
    let p7 = nonempty_probe(&ev.device_tree_hypervisor);
    let out = vec![p0, p1, p2, p3, p4, p5, p6, p7];
    assert(out@ =~= hypervisor_outcomes(*ev));
    out
}

/// Whether any hypervisor probe saw a sign of one.
pub fn is_hypervisor_present(ev: &VirtEvidence) -> (r: bool)
    ensures
        r == any_present(hypervisor_outcomes(*ev)),
{
    let outcomes = hypervisor_probes(ev);
    combine_probes(outcomes.as_slice())
}

/// Whether a container sentinel file exists.
pub fn is_running_in_docker(ev: &VirtEvidence) -> (r: bool)
    ensures
        r == (container_outcome(*ev) == Probe::Present),
{
    ev.dockerenv_exists || ev.dockerinit_exists
}

/// Whether the init system reports that it runs in a container.
pub fn is_systemd_running_in_container(ev: &VirtEvidence) -> (r: bool)
    ensures
        r == (init_outcome(*ev) == Probe::Present),
{
    output_probe(&ev.init_system_state, "running in container", "running in container")
        == Probe::Present
}

/// Whether the host is virtual: true exactly when one of the probes
/// finds it so.
pub fn determine_virtual_machine_status(ev: &VirtEvidence) -> (r: bool)
    ensures
        r == vm_verdict(*ev),
{
    let is_hypervisor = is_hypervisor_present(ev);
    let is_docker = is_running_in_docker(ev);
    let is_systemd_container = is_systemd_running_in_container(ev);
    proof {
        let all = probe_outcomes(*ev);
        let hyp = hypervisor_outcomes(*ev);
        assert(all.len() == 10);
        assert forall|i: int| 0 <= i < 8 implies all[i] == hyp[i] by {}
        assert(all[8] == container_outcome(*ev));
        assert(all[9] == init_outcome(*ev));
        if is_hypervisor {
            let i = choose|i: int| 0 <= i < hyp.len() && hyp[i] == Probe::Present;
            assert(all[i] == Probe::Present);
        }
        if any_present(all) {
            let i = choose|i: int| 0 <= i < all.len() && all[i] == Probe::Present;
            if i < 8 {
                assert(hyp[i] == Probe::Present);
            }
        }
    }
    is_hypervisor || is_docker || is_systemd_container
}

} // verus!
