//! Hardware and software identity of the running host.
//!
//! The verified core decodes raw SMBIOS/DMI structures, combines the
//! virtualization probes into one verdict, and assembles the hardware,
//! software and machine reports from values that the caller gathered.
pub mod system_info;

pub use system_info::{get_machine_info, MachineInfo};
