//! The software report: the OS release text and the kernel's identity.
use vstd::prelude::*;
use vstd::utf8::{decode_utf8, valid_utf8};

use crate::system_info::error::InfoError;
use crate::system_info::json::{json_object_of_strings, json_object_text, pairs_view};
use crate::system_info::text::decode_strict;

verus! {

/// The kernel's identity fields, as raw bytes.
#[derive(Debug, Clone)]
pub struct UnameFields {
    pub sysname: Vec<u8>,
    pub nodename: Vec<u8>,
    pub release: Vec<u8>,
    pub version: Vec<u8>,
    pub machine: Vec<u8>,
    pub domainname: Vec<u8>,
}

/// Every identity field is valid UTF-8.
pub open spec fn uname_is_text(f: UnameFields) -> bool {
    &&& valid_utf8(f.sysname@)
    &&& valid_utf8(f.nodename@)
    &&& valid_utf8(f.release@)
    &&& valid_utf8(f.version@)
    &&& valid_utf8(f.machine@)
    &&& valid_utf8(f.domainname@)
}

/// The named members of the kernel-identity object, in the order they are added.
pub open spec fn uname_members(f: UnameFields) -> Seq<(Seq<char>, Seq<char>)> {
    seq![
        ("sysname"@, decode_utf8(f.sysname@)),
        ("nodename"@, decode_utf8(f.nodename@)),
        ("release"@, decode_utf8(f.release@)),
        ("version"@, decode_utf8(f.version@)),
        ("machine"@, decode_utf8(f.machine@)),
        ("domainname"@, decode_utf8(f.domainname@)),
    ]
}

/// Relies on `rustix::system::uname`: the running kernel's identity. What it
/// holds depends on the machine, so nothing is stated of it.
#[verifier::external_body]
fn read_uname() -> (r: UnameFields) {
    let u = rustix::system::uname();
    UnameFields {
        sysname: u.sysname().to_bytes().to_vec(),
        nodename: u.nodename().to_bytes().to_vec(),
        release: u.release().to_bytes().to_vec(),
        version: u.version().to_bytes().to_vec(),
        machine: u.machine().to_bytes().to_vec(),
        domainname: u.domainname().to_bytes().to_vec(),
    }
}

fn member(key: &str, value: &Vec<u8>) -> (r: Option<(String, String)>)
    ensures
        r is Some <==> valid_utf8(value@),
        r matches Some(p) ==> p.0@ == key@ && p.1@ == decode_utf8(value@),
{
    match decode_strict(value.as_slice()) {
        Some(text) => Some((key.to_owned(), text)),
        None => None,
    }
}

/// The kernel identity as a JSON object of its six fields; `Encoding` when a
/// field is not valid UTF-8.
pub fn uname_json(fields: &UnameFields) -> (r: Result<String, InfoError>)
    ensures
        match r {
            Ok(s) => uname_is_text(*fields) && s@ == json_object_text(uname_members(*fields)),
            Err(e) => e == InfoError::Encoding && !uname_is_text(*fields),
        },
{
    let sysname = match member("sysname", &fields.sysname) {
        Some(p) => p,
        None => return Err(InfoError::Encoding),
    };
    let nodename = match member("nodename", &fields.nodename) {
        Some(p) => p,
        None => return Err(InfoError::Encoding),
    };
    let release = match member("release", &fields.release) {
        Some(p) => p,
        None => return Err(InfoError::Encoding),
    };
    let version = match member("version", &fields.version) {
        Some(p) => p,
        None => return Err(InfoError::Encoding),
    };
    let machine = match member("machine", &fields.machine) {
        Some(p) => p,
        None => return Err(InfoError::Encoding),
    };
    let domainname = match member("domainname", &fields.domainname) {
        Some(p) => p,
        None => return Err(InfoError::Encoding),
    };
    let entries = vec![sysname, nodename, release, version, machine, domainname];
    let text = json_object_of_strings(&entries);
    proof {
        assert(pairs_view(entries@) =~= uname_members(*fields));
    }
    Ok(text)
}

/// The running kernel's identity as JSON text; fails only with `Encoding`.
pub fn get_uname() -> (r: Result<String, InfoError>)
    ensures
        r matches Err(e) ==> e == InfoError::Encoding,
{
    let fields = read_uname();
    uname_json(&fields)
}

/// The kernel identity, computed at most once: a value already in `cache`
/// is returned as it is and the cache left alone; otherwise it is computed
/// and, on success, stored.
pub fn get_cached_uname(cache: &mut Option<String>) -> (r: Result<String, InfoError>)
    ensures
        match *old(cache) {
            Some(c) => {
                &&& *final(cache) == *old(cache)
                &&& r matches Ok(s) && s@ == c@
            },
            None => match r {
                Ok(s) => *final(cache) matches Some(c) && c@ == s@,
                Err(e) => e == InfoError::Encoding && *final(cache) is None,
            },
        },
{
    match cache {
        Some(c) => Ok(c.clone()),
        None => {
            let fresh = get_uname()?;
            let out = fresh.clone();
            *cache = Some(fresh);
            Ok(out)
        },
    }
}

/// The software report of one host.
#[derive(Debug, Clone)]
pub struct SoftwareInfo {
    pub os_release: String,
    pub uname: String,
    pub extra: Option<serde_json::Value>,
}

impl SoftwareInfo {
    /// The report for the given OS release text, with the kernel identity
    /// taken from (or first put into) `uname_cache`.
    pub fn new(os_release: String, uname_cache: &mut Option<String>) -> (r: Result<
        SoftwareInfo,
        InfoError,
    >)
        ensures
            match r {
                Ok(info) => {
                    &&& info.os_release@ == os_release@
                    &&& *final(uname_cache) matches Some(c) && info.uname@ == c@
                    &&& *old(uname_cache) is Some ==> *final(uname_cache) == *old(uname_cache)
                    &&& info.extra is None
                },
                Err(e) => e == InfoError::Encoding && *old(uname_cache) is None
                    && *final(uname_cache) is None,
            },
    {
        let uname = get_cached_uname(uname_cache)?;
        Ok(SoftwareInfo { os_release, uname, extra: None })
    }

    /// The same report, carrying `extra` as its extension payload.
    pub fn with_extra(self, extra: serde_json::Value) -> (r: SoftwareInfo)
        ensures
            r == (SoftwareInfo { extra: Some(extra), ..self }),
    {
        let mut this = self;
        this.extra = Some(extra);
        this
    }
}

} // verus!
