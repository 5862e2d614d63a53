use vstd::prelude::*;

verus! {

/// The ways in which gathering or decoding host information can fail.
#[derive(Debug, Clone, Copy, PartialEq, Eq, Structural)]
pub enum InfoError {
    /// A source could not be read or a command could not be run.
    Io,
    /// A firmware table is too short for its type, declares a formatted
    /// section longer than itself, or refers to a missing string.
    MalformedTable,
    /// A native device-enumeration call handed back no handle.
    FfiFailure,
    /// Bytes that had to be text were not valid UTF-8.
    Encoding,
    /// A machine report was built without its hardware part.
    MissingHardware,
    /// A machine report was built without its software part.
    MissingSoftware,
}

} // verus!
