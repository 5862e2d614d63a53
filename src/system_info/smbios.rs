//! Decoding of single SMBIOS structures: a formatted section whose byte 1
//! gives its length, followed by a table of NUL-terminated strings that the
//! formatted fields refer to by 1-based index.
use vstd::prelude::*;

use crate::system_info::error::InfoError;
use crate::system_info::hardware::{
    BiosInfo, BiosView, EnclosureInfo, EnclosureView, SystemInfo, SystemView,
};
use crate::system_info::text::{
    decimal_text, decimal_u8, decode_lossy, hex_pair, hex_run, lemma_hex_run_layout, lossy_text,
    push_hex_run,
};

verus! {

/// Smallest buffer from which a BIOS record can be read (through byte 0x15).
pub const BIOS_MIN_LEN: usize = 0x16;

/// Smallest buffer from which a system record can be read (through byte 0x17).
pub const SYSTEM_MIN_LEN: usize = 0x18;

/// Smallest buffer from which an enclosure record can be read (through byte 0x08).
pub const ENCLOSURE_MIN_LEN: usize = 0x09;

/// The segments of `s` between NUL bytes, as `split` on NUL yields them:
/// one more segment than there are NULs, empty ones included.
pub open spec fn split_nul(s: Seq<u8>) -> Seq<Seq<u8>>
    decreases s.len(),
{
    if s.len() == 0 {
        seq![Seq::empty()]
    } else {
        let prev = split_nul(s.drop_last());
        if s.last() == 0 {
            prev.push(Seq::empty())
        } else {
            prev.update(prev.len() - 1, prev.last().push(s.last()))
        }
    }
}

/// The string that a string-table index refers to: empty for index 0, the
/// `index`-th segment (counting from 1) when there is one, none otherwise.
pub open spec fn string_ref(segments: Seq<Seq<u8>>, index: u8) -> Option<Seq<char>> {
    if index == 0 {
        Some(Seq::empty())
    } else if index - 1 < segments.len() {
        Some(lossy_text(segments[index - 1]))
    } else {
        None
    }
}

/// The buffer holds at least `min_len` bytes and its declared formatted
/// section ends within it.
pub open spec fn table_fits(table: Seq<u8>, min_len: int) -> bool {
    &&& table.len() >= min_len
    &&& table.len() >= 2
    &&& table[1] <= table.len()
}

/// The string table of a structure: the segments after the formatted section.
pub open spec fn string_segments(table: Seq<u8>) -> Seq<Seq<u8>> {
    split_nul(table.subrange(table[1] as int, table.len() as int))
}

/// The string that byte `offset` of the formatted section refers to.
pub open spec fn field_string(table: Seq<u8>, offset: int) -> Option<Seq<char>> {
    string_ref(string_segments(table), table[offset])
}

/// The canonical 8-4-4-4-12 rendering of 16 bytes, in the order given.
pub open spec fn uuid_text(b: Seq<u8>) -> Seq<char> {
    hex_run(b.subrange(0, 4)) + seq!['-'] + hex_run(b.subrange(4, 6)) + seq!['-'] + hex_run(
        b.subrange(6, 8),
    ) + seq!['-'] + hex_run(b.subrange(8, 10)) + seq!['-'] + hex_run(b.subrange(10, 16))
}

/// Where the digits of byte `k` of a UUID start in its text: two characters
/// per byte before it, and a hyphen before each of bytes 4, 6, 8 and 10.
pub open spec fn uuid_position(k: int) -> int {
    2 * k + (if k >= 4 {
        1int
    } else {
        0int
    }) + (if k >= 6 {
        1int
    } else {
        0int
    }) + (if k >= 8 {
        1int
    } else {
        0int
    }) + (if k >= 10 {
        1int
    } else {
        0int
    })
}

/// A UUID's text has 36 characters with hyphens at 8, 13, 18 and 23, and
/// each byte's two digits stand at that byte's own position: the bytes keep
/// their order, with no swap at any group boundary.
pub proof fn lemma_uuid_layout(b: Seq<u8>)
    requires
        b.len() == 16,
    ensures
        uuid_text(b).len() == 36,
        uuid_text(b)[8] == '-',
        uuid_text(b)[13] == '-',
        uuid_text(b)[18] == '-',
        uuid_text(b)[23] == '-',
        forall|k: int|
            0 <= k < 16 ==> #[trigger] uuid_text(b).subrange(uuid_position(k), uuid_position(k) + 2)
                == hex_pair(b[k]),
{
    let g0 = b.subrange(0, 4);
    let g1 = b.subrange(4, 6);
    let g2 = b.subrange(6, 8);
    let g3 = b.subrange(8, 10);
    let g4 = b.subrange(10, 16);
    lemma_hex_run_layout(g0);
    lemma_hex_run_layout(g1);
    lemma_hex_run_layout(g2);
    lemma_hex_run_layout(g3);
    lemma_hex_run_layout(g4);
    let t = uuid_text(b);
    assert forall|k: int| 0 <= k < 16 implies #[trigger] t.subrange(
        uuid_position(k),
        uuid_position(k) + 2,
    ) == hex_pair(b[k]) by {
        let p = uuid_position(k);
        if k < 4 {
            assert(t.subrange(p, p + 2) =~= hex_run(g0).subrange(2 * k, 2 * k + 2));
            assert(g0[k] == b[k]);
        } else if k < 6 {
            assert(t.subrange(p, p + 2) =~= hex_run(g1).subrange(2 * (k - 4), 2 * (k - 4) + 2));
            assert(g1[k - 4] == b[k]);
        } else if k < 8 {
            assert(t.subrange(p, p + 2) =~= hex_run(g2).subrange(2 * (k - 6), 2 * (k - 6) + 2));
            assert(g2[k - 6] == b[k]);
        } else if k < 10 {
            assert(t.subrange(p, p + 2) =~= hex_run(g3).subrange(2 * (k - 8), 2 * (k - 8) + 2));
            assert(g3[k - 8] == b[k]);
        } else {
            assert(t.subrange(p, p + 2) =~= hex_run(g4).subrange(2 * (k - 10), 2 * (k - 10) + 2));
            assert(g4[k - 10] == b[k]);
        }
    }
}

/// Bit 3 of byte 0x13 of a BIOS structure: the firmware reports a virtual machine.
pub open spec fn bios_vm_flag(table: Seq<u8>) -> bool {
    table[0x13] & 0x08 != 0
}

/// The BIOS record that a type 0 structure encodes, given the detector's verdict.
pub open spec fn bios_record(table: Seq<u8>, vm_verdict: bool) -> Option<BiosView> {
    if !table_fits(table, BIOS_MIN_LEN as int) {
        None
    } else {
        let vendor = field_string(table, 0x04);
        let version = field_string(table, 0x05);
        let date = field_string(table, 0x08);
        if vendor is Some && version is Some && date is Some {
            Some(
                BiosView {
                    vendor: vendor->0,
                    bios_version: version->0,
                    bios_release_date: date->0,
                    is_virtual_machine: bios_vm_flag(table) || vm_verdict,
                    system_bios_major_release: decimal_text(table[0x14] as nat),
                    system_bios_minor_release: decimal_text(table[0x15] as nat),
                },
            )
        } else {
            None
        }
    }
}

/// The system record that a type 1 structure encodes.
pub open spec fn system_record(table: Seq<u8>) -> Option<SystemView> {
    if !table_fits(table, SYSTEM_MIN_LEN as int) {
        None
    } else {
        let manufacturer = field_string(table, 0x04);
        let product = field_string(table, 0x05);
        let serial = field_string(table, 0x07);
        if manufacturer is Some && product is Some && serial is Some {
            Some(
                SystemView {
                    manufacturer: manufacturer->0,
                    product_name: product->0,
                    serial_number: serial->0,
                    uuid: uuid_text(table.subrange(0x08, 0x18)),
                },
            )
        } else {
            None
        }
    }
}

/// The enclosure record that a type 3 structure encodes.
pub open spec fn enclosure_record(table: Seq<u8>) -> Option<EnclosureView> {
    if !table_fits(table, ENCLOSURE_MIN_LEN as int) {
        None
    } else {
        let manufacturer = field_string(table, 0x04);
        let kind = field_string(table, 0x05);
        let version = field_string(table, 0x06);
        let serial = field_string(table, 0x07);
        let asset = field_string(table, 0x08);
        if manufacturer is Some && kind is Some && version is Some && serial is Some
            && asset is Some {
            Some(
                EnclosureView {
                    manufacturer: manufacturer->0,
                    enclosure_type: kind->0,
                    version: version->0,
                    serial_number: serial->0,
                    asset_tag_number: asset->0,
                },
            )
        } else {
            None
        }
    }
}

proof fn lemma_split_nul_nonempty(s: Seq<u8>)
    ensures
        split_nul(s).len() >= 1,
    decreases s.len(),
{
    if s.len() > 0 {
        lemma_split_nul_nonempty(s.drop_last());
    }
}

/// Splitting a prefix agrees with splitting the whole on every segment but
/// the prefix's last, which may still grow.
proof fn lemma_split_nul_prefix(s: Seq<u8>, j: int)
    requires
        0 <= j <= s.len(),
    ensures
        split_nul(s.take(j)).len() <= split_nul(s).len(),
        forall|k: int|
            0 <= k < split_nul(s.take(j)).len() - 1 ==> split_nul(s)[k] == split_nul(s.take(j))[k],
    decreases s.len(),
{
    if j == s.len() {
        assert(s.take(j) =~= s);
    } else {
        let p = s.drop_last();
        assert(p.take(j) =~= s.take(j));
        lemma_split_nul_prefix(p, j);
        lemma_split_nul_nonempty(p);
    }
}

/// The string that `index` selects from a string table: empty for 0, the
/// `index`-th NUL-delimited segment decoded leniently, or `MalformedTable`
/// when the table has fewer segments. Index 0 does not touch the table.
pub fn extract_string(unformed_section: &[u8], index: u8) -> (r: Result<String, InfoError>)
    ensures
        match r {
            Ok(s) => string_ref(split_nul(unformed_section@), index) == Some(s@),
            Err(e) => e == InfoError::MalformedTable && string_ref(
                split_nul(unformed_section@),
                index,
            ) is None,
        },
{
    if index == 0 {
        return Ok(String::new());
    }
    let ghost s = unformed_section@;
    let target: usize = (index - 1) as usize;
    let n = unformed_section.len();
    let mut seen: usize = 0;
    let mut start: usize = 0;
    let mut i: usize = 0;
    while i < n
        invariant
            n == s.len(),
            s == unformed_section@,
            target == index - 1,
            i <= n,
            start <= i,
            seen <= target,
            split_nul(s.take(i as int)).len() == seen + 1,
            split_nul(s.take(i as int)).last() == s.subrange(start as int, i as int),
        decreases n - i,
    {
        proof {
            let next = s.take(i + 1);
            assert(next.drop_last() =~= s.take(i as int));
        }
        if unformed_section[i] == 0 {
            if seen == target {
                proof {
                    lemma_split_nul_prefix(s, i + 1);
                }
                return Ok(decode_lossy(&unformed_section[start..i]));
            }
            seen = seen + 1;
            start = i + 1;
        } else {
            proof {
                assert(s.subrange(start as int, i + 1) =~= s.subrange(start as int, i as int).push(
                    s[i as int],
                ));
            }
        }
        i = i + 1;
    }
    assert(s.take(n as int) =~= s);
    if seen == target {
        Ok(decode_lossy(&unformed_section[start..n]))
    } else {
        Err(InfoError::MalformedTable)
    }
}

/// Renders 16 bytes as a canonical hyphenated UUID, byte order kept. The
/// result is a function of the bytes alone.
pub fn format_uuid(bytes: &[u8]) -> (r: String)
    requires
        bytes@.len() == 16,
    ensures
        r@ == uuid_text(bytes@),
{
    let mut out = String::new();
    push_hex_run(&mut out, bytes, 0, 4);
    out.push('-');
    push_hex_run(&mut out, bytes, 4, 6);
    out.push('-');
    push_hex_run(&mut out, bytes, 6, 8);
    out.push('-');
    push_hex_run(&mut out, bytes, 8, 10);
    out.push('-');
    push_hex_run(&mut out, bytes, 10, 16);
    assert(out@ =~= uuid_text(bytes@));
    out
}

/// Checks the length rules of a structure and returns its string table.
fn unformed_section(buffer: &[u8], min_len: usize) -> (r: Option<&[u8]>)
    ensures
        r is Some <==> table_fits(buffer@, min_len as int),
        r matches Some(u) ==> u@ == buffer@.subrange(buffer@[1] as int, buffer@.len() as int),
{
    if buffer.len() < min_len || buffer.len() < 2 {
        return None;
    }
    let length = buffer[1] as usize;
    if length > buffer.len() {
        return None;
    }
    Some(&buffer[length..buffer.len()])
}

/// Decodes a BIOS (type 0) structure. `vm_verdict` is the virtualization
/// detector's verdict, folded into `is_virtual_machine`.
pub fn read_bios_info(buffer: &[u8], vm_verdict: bool) -> (r: Result<BiosInfo, InfoError>)
    ensures
        match r {
            Ok(info) => bios_record(buffer@, vm_verdict) == Some(info@),
            Err(e) => e == InfoError::MalformedTable && bios_record(buffer@, vm_verdict) is None,
        },
        r matches Ok(info) ==> info.is_virtual_machine == (bios_vm_flag(buffer@) || vm_verdict),
{
    let section = match unformed_section(buffer, BIOS_MIN_LEN) {
        Some(u) => u,
        None => return Err(InfoError::MalformedTable),
    };
    let vendor = extract_string(section, buffer[0x04])?;
    let bios_version = extract_string(section, buffer[0x05])?;
    let bios_release_date = extract_string(section, buffer[0x08])?;
    Ok(
        BiosInfo {
            vendor,
            bios_version,
            bios_release_date,
            is_virtual_machine: buffer[0x13] & 0x08 != 0 || vm_verdict,
            system_bios_major_release: decimal_u8(buffer[0x14]),
            system_bios_minor_release: decimal_u8(buffer[0x15]),
        },
    )
}

/// Decodes a system (type 1) structure.
pub fn read_system_info(buffer: &[u8]) -> (r: Result<SystemInfo, InfoError>)
    ensures
        match r {
            Ok(info) => system_record(buffer@) == Some(info@),
            Err(e) => e == InfoError::MalformedTable && system_record(buffer@) is None,
        },
{
    let section = match unformed_section(buffer, SYSTEM_MIN_LEN) {
        Some(u) => u,
        None => return Err(InfoError::MalformedTable),
    };
    let manufacturer = extract_string(section, buffer[0x04])?;
    let product_name = extract_string(section, buffer[0x05])?;
    let serial_number = extract_string(section, buffer[0x07])?;
    let uuid = format_uuid(&buffer[0x08..0x18]);
    Ok(SystemInfo { manufacturer, product_name, serial_number, uuid })
}

/// Decodes an enclosure (type 3) structure.
pub fn read_enclosure_info(buffer: &[u8]) -> (r: Result<EnclosureInfo, InfoError>)
    ensures
        match r {
            Ok(info) => enclosure_record(buffer@) == Some(info@),
            Err(e) => e == InfoError::MalformedTable && enclosure_record(buffer@) is None,
        },
{
    let section = match unformed_section(buffer, ENCLOSURE_MIN_LEN) {
        Some(u) => u,
        None => return Err(InfoError::MalformedTable),
    };
    let manufacturer = extract_string(section, buffer[0x04])?;
    let enclosure_type = extract_string(section, buffer[0x05])?;
    let version = extract_string(section, buffer[0x06])?;
    let serial_number = extract_string(section, buffer[0x07])?;
    let asset_tag_number = extract_string(section, buffer[0x08])?;
    Ok(EnclosureInfo { manufacturer, enclosure_type, version, serial_number, asset_tag_number })
}

} // verus!
