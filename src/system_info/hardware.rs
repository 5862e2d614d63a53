//! The hardware report and the records decoded from the firmware tables.
use vstd::prelude::*;

use crate::system_info::smbios::{
    bios_record, bios_vm_flag, enclosure_record, read_bios_info, read_enclosure_info, read_system_info,
    system_record,
};
use crate::system_info::text::hex_pair;
use crate::system_info::virt::{bytes_of, determine_virtual_machine_status, vm_verdict, VirtEvidence};

verus! {

/// Firmware (SMBIOS type 0) identity.
#[derive(Debug, Clone)]
pub struct BiosInfo {
    pub vendor: String,
    pub bios_version: String,
    pub bios_release_date: String,
    pub is_virtual_machine: bool,
    pub system_bios_major_release: String,
    pub system_bios_minor_release: String,
}

/// The abstract content of a [`BiosInfo`].
pub struct BiosView {
    pub vendor: Seq<char>,
    pub bios_version: Seq<char>,
    pub bios_release_date: Seq<char>,
    pub is_virtual_machine: bool,
    pub system_bios_major_release: Seq<char>,
    pub system_bios_minor_release: Seq<char>,
}

impl View for BiosInfo {
    type V = BiosView;

    open spec fn view(&self) -> BiosView {
        BiosView {
            vendor: self.vendor@,
            bios_version: self.bios_version@,
            bios_release_date: self.bios_release_date@,
            is_virtual_machine: self.is_virtual_machine,
            system_bios_major_release: self.system_bios_major_release@,
            system_bios_minor_release: self.system_bios_minor_release@,
        }
    }
}

impl BiosView {
    /// The record of a platform that exposes no firmware table.
    pub open spec fn empty() -> BiosView {
        BiosView {
            vendor: Seq::empty(),
            bios_version: Seq::empty(),
            bios_release_date: Seq::empty(),
            is_virtual_machine: false,
            system_bios_major_release: Seq::empty(),
            system_bios_minor_release: Seq::empty(),
        }
    }
}

impl Default for BiosInfo {
    fn default() -> (r: BiosInfo)
        ensures
            r@ == BiosView::empty(),
    {
        BiosInfo {
            vendor: String::new(),
            bios_version: String::new(),
            bios_release_date: String::new(),
            is_virtual_machine: false,
            system_bios_major_release: String::new(),
            system_bios_minor_release: String::new(),
        }
    }
}

/// System (SMBIOS type 1) identity.
#[derive(Debug, Clone)]
pub struct SystemInfo {
    pub manufacturer: String,
    pub product_name: String,
    pub serial_number: String,
    pub uuid: String,
}

/// The abstract content of a [`SystemInfo`].
pub struct SystemView {
    pub manufacturer: Seq<char>,
    pub product_name: Seq<char>,
    pub serial_number: Seq<char>,
    pub uuid: Seq<char>,
}

impl View for SystemInfo {
    type V = SystemView;

    open spec fn view(&self) -> SystemView {
        SystemView {
            manufacturer: self.manufacturer@,
            product_name: self.product_name@,
            serial_number: self.serial_number@,
            uuid: self.uuid@,
        }
    }
}

impl SystemView {
    /// The record of a platform that exposes no system table.
    pub open spec fn empty() -> SystemView {
        SystemView {
            manufacturer: Seq::empty(),
            product_name: Seq::empty(),
            serial_number: Seq::empty(),
            uuid: Seq::empty(),
        }
    }
}

impl Default for SystemInfo {
    fn default() -> (r: SystemInfo)
        ensures
            r@ == SystemView::empty(),
    {
        SystemInfo {
            manufacturer: String::new(),
            product_name: String::new(),
            serial_number: String::new(),
            uuid: String::new(),
        }
    }
}

/// Chassis (SMBIOS type 3) identity.
#[derive(Debug, Clone)]
pub struct EnclosureInfo {
    pub manufacturer: String,
    pub enclosure_type: String,
    pub version: String,
    pub serial_number: String,
    pub asset_tag_number: String,
}

/// The abstract content of an [`EnclosureInfo`].
pub struct EnclosureView {
    pub manufacturer: Seq<char>,
    pub enclosure_type: Seq<char>,
    pub version: Seq<char>,
    pub serial_number: Seq<char>,
    pub asset_tag_number: Seq<char>,
}

impl View for EnclosureInfo {
    type V = EnclosureView;

    open spec fn view(&self) -> EnclosureView {
        EnclosureView {
            manufacturer: self.manufacturer@,
            enclosure_type: self.enclosure_type@,
            version: self.version@,
            serial_number: self.serial_number@,
            asset_tag_number: self.asset_tag_number@,
        }
    }
}

impl EnclosureView {
    /// The record of a platform that exposes no chassis table.
    pub open spec fn empty() -> EnclosureView {
        EnclosureView {
            manufacturer: Seq::empty(),
            enclosure_type: Seq::empty(),
            version: Seq::empty(),
            serial_number: Seq::empty(),
            asset_tag_number: Seq::empty(),
        }
    }
}

impl Default for EnclosureInfo {
    fn default() -> (r: EnclosureInfo)
        ensures
            r@ == EnclosureView::empty(),
    {
        EnclosureInfo {
            manufacturer: String::new(),
            enclosure_type: String::new(),
            version: String::new(),
            serial_number: String::new(),
            asset_tag_number: String::new(),
        }
    }
}

/// The colon-separated lowercase hexadecimal rendering of a MAC address.
pub open spec fn mac_text(m: [u8; 6]) -> Seq<char> {
    hex_pair(m@[0]) + seq![':'] + hex_pair(m@[1]) + seq![':'] + hex_pair(m@[2]) + seq![':']
        + hex_pair(m@[3]) + seq![':'] + hex_pair(m@[4]) + seq![':'] + hex_pair(m@[5])
}

/// The addresses of the interfaces that have one, in order.
pub open spec fn present_macs(macs: Seq<Option<[u8; 6]>>) -> Seq<[u8; 6]>
    decreases macs.len(),
{
    if macs.len() == 0 {
        Seq::empty()
    } else {
        match macs.last() {
            Some(m) => present_macs(macs.drop_last()).push(m),
            None => present_macs(macs.drop_last()),
        }
    }
}

/// Rendered addresses joined by `", "`.
pub open spec fn join_macs(ms: Seq<[u8; 6]>) -> Seq<char>
    decreases ms.len(),
{
    if ms.len() == 0 {
        Seq::empty()
    } else if ms.len() == 1 {
        mac_text(ms[0])
    } else {
        join_macs(ms.drop_last()) + seq![',', ' '] + mac_text(ms.last())
    }
}

/// Relies on pnet's `Display` for `MacAddr`: the six bytes as two-digit
/// lowercase hexadecimal numbers separated by colons.
#[verifier::external_body]
fn mac_to_string(m: [u8; 6]) -> (r: String)
    ensures
        r@ == mac_text(m),
{
    pnet::datalink::MacAddr::new(m[0], m[1], m[2], m[3], m[4], m[5]).to_string()
}

fn push_str(out: &mut String, piece: &String)
    ensures
        final(out)@ == old(out)@ + piece@,
{
    for c in it: piece.as_str().chars()
        invariant
            out@ == old(out)@ + it.seq().take(it.index() as int),
            it.seq() == piece@,
    {
        out.push(c);
        proof {
            assert(it.seq().take(it.index() + 1) =~= it.seq().take(it.index() as int).push(c));
        }
    }
    assert(piece@.take(piece@.len() as int) =~= piece@);
}

/// The MAC addresses of the interfaces that have one, rendered and joined
/// by `", "`, in interface order.
pub fn get_mac_addresses(interfaces: &[Option<[u8; 6]>]) -> (r: String)
    ensures
        r@ == join_macs(present_macs(interfaces@)),
{
    let mut out = String::new();
    let mut any = false;
    let mut i: usize = 0;
    while i < interfaces.len()
        invariant
            i <= interfaces@.len(),
            out@ == join_macs(present_macs(interfaces@.take(i as int))),
            any == (present_macs(interfaces@.take(i as int)).len() > 0),
        decreases interfaces@.len() - i,
    {
        let ghost prev = present_macs(interfaces@.take(i as int));
        assert(interfaces@.take(i + 1).drop_last() =~= interfaces@.take(i as int));
        match interfaces[i] {
            Some(m) => {
                if any {
                    out.push(',');
                    out.push(' ');
                }
                let text = mac_to_string(m);
                push_str(&mut out, &text);
                proof {
                    let next = prev.push(m);
                    assert(next.drop_last() =~= prev);
                    if !any {
                        assert(prev.len() == 0);
                    }
                }
                any = true;
            },
            None => {},
        }
        i = i + 1;
    }
    assert(interfaces@.take(interfaces@.len() as int) =~= interfaces@);
    out
}

/// What the host layer gathered for a hardware report.
#[derive(Debug, Clone)]
pub struct HardwareSources {
    /// Evidence for the virtualization probes.
    pub evidence: VirtEvidence,
    /// Serial of the disk that holds the root file system; `None` when the
    /// device lookup failed.
    pub disk_serial: Option<String>,
    /// Each network interface's MAC address, if it has one.
    pub interface_macs: Vec<Option<[u8; 6]>>,
    /// The raw BIOS structure (type 0), if it could be read.
    pub bios_table: Option<Vec<u8>>,
    /// The raw system structure (type 1), if it could be read.
    pub system_table: Option<Vec<u8>>,
    /// The raw enclosure structure (type 3), if it could be read.
    pub enclosure_table: Option<Vec<u8>>,
}

/// The hardware report of one host.
#[derive(Debug, Clone)]
pub struct HardwareInfo {
    pub cpu_is_virtual: bool,
    pub disk_serial_number: String,
    pub mac_addresses: String,
    pub bios_info: BiosInfo,
    pub system_info: SystemInfo,
    pub enclosure_info: EnclosureInfo,
    pub extra: Option<serde_json::Value>,
}

/// The abstract content of a [`HardwareInfo`].
pub struct HardwareView {
    pub cpu_is_virtual: bool,
    pub disk_serial_number: Seq<char>,
    pub mac_addresses: Seq<char>,
    pub bios_info: BiosView,
    pub system_info: SystemView,
    pub enclosure_info: EnclosureView,
    pub extra: Option<serde_json::Value>,
}

impl View for HardwareInfo {
    type V = HardwareView;

    open spec fn view(&self) -> HardwareView {
        HardwareView {
            cpu_is_virtual: self.cpu_is_virtual,
            disk_serial_number: self.disk_serial_number@,
            mac_addresses: self.mac_addresses@,
            bios_info: self.bios_info@,
            system_info: self.system_info@,
            enclosure_info: self.enclosure_info@,
            extra: self.extra,
        }
    }
}

/// The BIOS record of an optional table; the empty record when the table is
/// missing or malformed.
pub open spec fn bios_or_empty(t: Option<Seq<u8>>, vm_verdict: bool) -> BiosView {
    match t {
        Some(b) => match bios_record(b, vm_verdict) {
            Some(v) => v,
            None => BiosView::empty(),
        },
        None => BiosView::empty(),
    }
}

/// The system record of an optional table, or the empty record.
pub open spec fn system_or_empty(t: Option<Seq<u8>>) -> SystemView {
    match t {
        Some(b) => match system_record(b) {
            Some(v) => v,
            None => SystemView::empty(),
        },
        None => SystemView::empty(),
    }
}

/// The enclosure record of an optional table, or the empty record.
pub open spec fn enclosure_or_empty(t: Option<Seq<u8>>) -> EnclosureView {
    match t {
        Some(b) => match enclosure_record(b) {
            Some(v) => v,
            None => EnclosureView::empty(),
        },
        None => EnclosureView::empty(),
    }
}

/// The text of an optional string, empty when there is none.
pub open spec fn text_or_empty(s: Option<String>) -> Seq<char> {
    match s {
        Some(t) => t@,
        None => Seq::empty(),
    }
}

/// The hardware report that the gathered sources make: every part that
/// could not be had degrades to its empty form.
pub open spec fn hardware_report(src: HardwareSources) -> HardwareView {
    let verdict = vm_verdict(src.evidence);
    HardwareView {
        cpu_is_virtual: verdict,
        disk_serial_number: text_or_empty(src.disk_serial),
        mac_addresses: join_macs(present_macs(src.interface_macs@)),
        bios_info: bios_or_empty(bytes_of(src.bios_table), verdict),
        system_info: system_or_empty(bytes_of(src.system_table)),
        enclosure_info: enclosure_or_empty(bytes_of(src.enclosure_table)),
        extra: None,
    }
}

/// In a hardware report, the BIOS record flags a virtual machine exactly
/// when the table's own flag bit is set or the detector's verdict is true.
pub proof fn lemma_bios_flag_joins_verdict(src: HardwareSources)
    requires
        src.bios_table is Some,
        bios_record(src.bios_table->0@, vm_verdict(src.evidence)) is Some,
    ensures
        hardware_report(src).bios_info.is_virtual_machine == (bios_vm_flag(src.bios_table->0@)
            || hardware_report(src).cpu_is_virtual),
{
}

impl HardwareInfo {
    /// Assembles the hardware report from what the host layer gathered.
    pub fn new(sources: &HardwareSources) -> (r: HardwareInfo)
        ensures
            r@ == hardware_report(*sources),
    {
        let verdict = determine_virtual_machine_status(&sources.evidence);
        let disk_serial_number = match &sources.disk_serial {
            Some(s) => s.clone(),
            None => String::new(),
        };
        let mac_addresses = get_mac_addresses(sources.interface_macs.as_slice());
        let bios_info = match &sources.bios_table {
            Some(t) => match read_bios_info(t.as_slice(), verdict) {
                Ok(info) => info,
                Err(_) => BiosInfo::default(),
            },
            None => BiosInfo::default(),
        };
        let system_info = match &sources.system_table {
            Some(t) => match read_system_info(t.as_slice()) {
                Ok(info) => info,
                Err(_) => SystemInfo::default(),
            },
            None => SystemInfo::default(),
        };
        let enclosure_info = match &sources.enclosure_table {
            Some(t) => match read_enclosure_info(t.as_slice()) {
                Ok(info) => info,
                Err(_) => EnclosureInfo::default(),
            },
            None => EnclosureInfo::default(),
        };
        HardwareInfo {
            cpu_is_virtual: verdict,
            disk_serial_number,
            mac_addresses,
            bios_info,
            system_info,
            enclosure_info,
            extra: None,
        }
    }

    /// The same report, carrying `extra` as its extension payload.
    pub fn with_extra(self, extra: serde_json::Value) -> (r: HardwareInfo)
        ensures
            r == (HardwareInfo { extra: Some(extra), ..self }),
    {
        let mut this = self;
        this.extra = Some(extra);
        this
    }
}

} // verus!
