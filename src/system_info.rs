//! Gathering-independent assembly of the machine report: a hardware part,
//! a software part, and an optional extension payload.
pub mod error;
pub mod hardware;
pub mod json;
pub mod mounts;
pub mod smbios;
pub mod software;
pub mod text;
pub mod virt;

use vstd::prelude::*;

use crate::system_info::error::InfoError;
use crate::system_info::hardware::{hardware_report, HardwareInfo, HardwareSources};
use crate::system_info::software::SoftwareInfo;

verus! {

/// The report on one machine.
#[derive(Debug, Clone)]
pub struct MachineInfo {
    pub hardware: HardwareInfo,
    pub software: SoftwareInfo,
    pub extra: Option<serde_json::Value>,
}

impl MachineInfo {
    /// A builder with no part set yet.
    pub fn builder() -> (r: MachineInfoBuilder)
        ensures
            r@ == (None::<HardwareInfo>, None::<SoftwareInfo>, None::<serde_json::Value>),
    {
        MachineInfoBuilder { hardware: None, software: None, extra: None }
    }
}

/// Collects the parts of a [`MachineInfo`]; the hardware and software parts
/// are required.
pub struct MachineInfoBuilder {
    hardware: Option<HardwareInfo>,
    software: Option<SoftwareInfo>,
    extra: Option<serde_json::Value>,
}

impl View for MachineInfoBuilder {
    type V = (Option<HardwareInfo>, Option<SoftwareInfo>, Option<serde_json::Value>);

    closed spec fn view(&self) -> Self::V {
        (self.hardware, self.software, self.extra)
    }
}

impl MachineInfoBuilder {
    /// Sets the hardware part.
    pub fn hardware(self, hardware: HardwareInfo) -> (r: MachineInfoBuilder)
        ensures
            r@ == (Some(hardware), self@.1, self@.2),
    {
        let mut this = self;
        this.hardware = Some(hardware);
        this
    }

    /// Sets the software part.
    pub fn software(self, software: SoftwareInfo) -> (r: MachineInfoBuilder)
        ensures
            r@ == (self@.0, Some(software), self@.2),
    {
        let mut this = self;
        this.software = Some(software);
        this
    }

    /// Sets the extension payload.
    pub fn extra(self, extra: serde_json::Value) -> (r: MachineInfoBuilder)
        ensures
            r@ == (self@.0, self@.1, Some(extra)),
    {
        let mut this = self;
        this.extra = Some(extra);
        this
    }

    /// The report, or the first required part that is missing.
    pub fn build(self) -> (r: Result<MachineInfo, InfoError>)
        ensures
            match self@ {
                (Some(h), Some(s), x) => r == Ok::<MachineInfo, InfoError>(
                    MachineInfo { hardware: h, software: s, extra: x },
                ),
                (None, _, _) => r == Err::<MachineInfo, InfoError>(InfoError::MissingHardware),
                (Some(_), None, _) => r == Err::<MachineInfo, InfoError>(
                    InfoError::MissingSoftware,
                ),
            },
    {
        let hardware = match self.hardware {
            Some(h) => h,
            None => return Err(InfoError::MissingHardware),
        };
        let software = match self.software {
            Some(s) => s,
            None => return Err(InfoError::MissingSoftware),
        };
        Ok(MachineInfo { hardware, software, extra: self.extra })
    }
}

/// The machine report from what the host layer gathered: the hardware
/// report of `sources`, and the software report of `os_release` with the
/// kernel identity from `uname_cache`. Fails only when the kernel identity
/// is not text.
pub fn get_machine_info(
    sources: &HardwareSources,
    os_release: String,
    uname_cache: &mut Option<String>,
) -> (r: Result<MachineInfo, InfoError>)
    ensures
        match r {
            Ok(m) => {
                &&& m.hardware@ == hardware_report(*sources)
                &&& m.software.os_release@ == os_release@
                &&& *final(uname_cache) matches Some(c) && m.software.uname@ == c@
                &&& *old(uname_cache) is Some ==> *final(uname_cache) == *old(uname_cache)
                &&& m.software.extra is None
                &&& m.extra is None
            },
            Err(e) => e == InfoError::Encoding && *old(uname_cache) is None
                && *final(uname_cache) is None,
        },
{
    let hardware = HardwareInfo::new(sources);
    let software = SoftwareInfo::new(os_release, uname_cache)?;
    MachineInfo::builder().hardware(hardware).software(software).build()
}

} // verus!
