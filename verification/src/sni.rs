//! Parser for the Server Name Indication of a TLS ClientHello.
//!
//! The transparent interception path peeks at the first bytes of a stream
//! and, when they look like a TLS record, walks the ClientHello to learn the
//! hostname the client intends to reach.  Any truncation or malformed field
//! makes the parse answer "not found"; it never fails hard and never reads
//! out of bounds.

use vstd::prelude::*;
use crate::strutil::utf8_to_string;

verus! {

/// A big-endian 16-bit quantity read from two bytes.
pub open spec fn be16(hi: u8, lo: u8) -> int {
    (hi as int) * 256 + (lo as int)
}

/// Walk the server_name entries of a server_name extension body that spans
/// `pos..end` (both within the data), returning the first entry of type
/// host_name whose bytes lie within the data.
pub open spec fn scan_names(data: Seq<u8>, pos: int, end: int) -> Option<Seq<u8>>
    decreases (if end - pos < 0 { 0int } else { end - pos }),
{
    if pos + 3 <= end && end <= data.len() && 0 <= pos {
        let name_type = data[pos];
        let name_len = be16(data[pos + 1], data[pos + 2]);
        let body = pos + 3;
        if name_type == 0 && body + name_len <= data.len() {
            Some(data.subrange(body, body + name_len))
        } else {
            scan_names(data, body + name_len, end)
        }
    } else {
        None
    }
}

/// Read a server_name extension whose body starts at `pos`: a 2-byte list
/// length followed by the name entries.
pub open spec fn read_sni_extension(data: Seq<u8>, pos: int) -> Option<Seq<u8>> {
    if pos + 2 <= data.len() && 0 <= pos {
        let list_len = be16(data[pos], data[pos + 1]);
        let list_start = pos + 2;
        if list_start + list_len <= data.len() {
            scan_names(data, list_start, list_start + list_len)
        } else {
            None
        }
    } else {
        None
    }
}

/// Walk the extensions block from `pos` up to `end` (which may exceed the
/// data), looking for the server_name extension (type 0).
pub open spec fn scan_extensions(data: Seq<u8>, pos: int, end: int) -> Option<Seq<u8>>
    decreases (if end - pos < 0 { 0int } else { end - pos }),
{
    if pos + 4 <= end && pos + 4 <= data.len() && 0 <= pos {
        let ext_type = be16(data[pos], data[pos + 1]);
        let ext_len = be16(data[pos + 2], data[pos + 3]);
        let body = pos + 4;
        if ext_type == 0 {
            read_sni_extension(data, body)
        } else {
            scan_extensions(data, body + ext_len, end)
        }
    } else {
        None
    }
}

/// The hostname bytes announced in the ClientHello's server_name extension,
/// or None when the bytes are not a TLS handshake record or any field is
/// truncated or malformed.  The walk skips version and random (fixed at 43
/// bytes from the record start), the session id, the cipher suites and the
/// compression methods, then scans the extensions.
pub open spec fn sni_bytes(data: Seq<u8>) -> Option<Seq<u8>> {
    let len = data.len() as int;
    if len < 43 {
        None
    } else if data[0] != 0x16 || data[1] != 0x03 {
        None
    } else if 43 >= len {
        None
    } else {
        let sid_len = data[43] as int;
        let cs_pos = 44 + sid_len;
        if cs_pos + 2 > len {
            None
        } else {
            let cs_len = be16(data[cs_pos], data[cs_pos + 1]);
            let comp_pos = cs_pos + 2 + cs_len;
            if comp_pos >= len {
                None
            } else {
                let comp_len = data[comp_pos] as int;
                let ext_pos = comp_pos + 1 + comp_len;
                if ext_pos + 2 > len {
                    None
                } else {
                    let ext_total = be16(data[ext_pos], data[ext_pos + 1]);
                    let first = ext_pos + 2;
                    scan_extensions(data, first, first + ext_total)
                }
            }
        }
    }
}

/// Any byte sequence shorter than the fixed ClientHello prefix yields no
/// hostname: the parser reports "not found" on every truncated input.
pub proof fn lemma_short_input_has_no_sni(data: Seq<u8>)
    requires
        data.len() < 43,
    ensures
        sni_bytes(data) is None,
{
}

/// Copy `data[from..to]` into a fresh vector.
fn copy_range(data: &[u8], from: usize, to: usize) -> (r: Vec<u8>)
    requires
        from <= to <= data@.len(),
    ensures
        r@ == data@.subrange(from as int, to as int),
{
    let mut out: Vec<u8> = Vec::new();
    let mut i: usize = from;
    while i < to
        invariant
            from <= i <= to <= data@.len(),
            out@ == data@.subrange(from as int, i as int),
        decreases to - i,
    {
        let b = data[i];
        out.push(b);
        assert(out@ =~= data@.subrange(from as int, i + 1 as int));
        i = i + 1;
    }
    out
}

/// Extract the hostname announced by a TLS ClientHello's server_name
/// extension.  Returns Some exactly when the walk finds a host_name entry
/// whose bytes are valid UTF-8, and then returns exactly those bytes decoded.
pub fn extract_sni(data: &[u8]) -> (r: Option<String>)
    ensures
        r is Some <==> (sni_bytes(data@) is Some && vstd::utf8::valid_utf8(
            sni_bytes(data@).unwrap(),
        )),
        r is Some ==> r.unwrap()@ == vstd::utf8::decode_utf8(sni_bytes(data@).unwrap()),
{
    let len = data.len();
    if len < 43 {
        return None;
    }
    if data[0] != 0x16 || data[1] != 0x03 {
        return None;
    }
    if len == 43 {
        return None;
    }
    let sid_len = data[43] as usize;
    let cs_pos = 44 + sid_len;
    if cs_pos + 2 > len {
        return None;
    }
    let cs_len = (data[cs_pos] as usize) * 256 + (data[cs_pos + 1] as usize);
    // comp_pos = cs_pos + 2 + cs_len must stay below len
    if cs_len >= len - cs_pos - 2 {
        return None;
    }
    let comp_pos = cs_pos + 2 + cs_len;
    let comp_len = data[comp_pos] as usize;
    if comp_len + 3 > len - comp_pos {
        return None;
    }
    let ext_pos = comp_pos + 1 + comp_len;
    let ext_total = (data[ext_pos] as usize) * 256 + (data[ext_pos + 1] as usize);
    let first = ext_pos + 2;
    let ghost spec_end: int = first + ext_total;
    // The extensions block may claim to extend past the data; never walk
    // beyond what is actually there.
    let walk_end = if ext_total > len - first {
        len
    } else {
        first + ext_total
    };
    assert(walk_end == (if spec_end <= len { spec_end } else { len as int }));
    let mut pos: usize = first;
    while walk_end - pos >= 4
        invariant
            first <= pos,
            pos <= walk_end,
            walk_end <= len,
            len == data@.len(),
            walk_end == (if spec_end <= len { spec_end } else { len as int }),
            sni_bytes(data@) == scan_extensions(data@, pos as int, spec_end),
        decreases walk_end - pos,
    {
        let ext_type = (data[pos] as usize) * 256 + (data[pos + 1] as usize);
        let ext_len = (data[pos + 2] as usize) * 256 + (data[pos + 3] as usize);
        let body = pos + 4;
        if ext_type == 0 {
            assert(sni_bytes(data@) == read_sni_extension(data@, body as int));
            if len - body < 2 {
                return None;
            }
            let list_len = (data[body] as usize) * 256 + (data[body + 1] as usize);
            let list_start = body + 2;
            if list_len > len - list_start {
                return None;
            }
            let list_end = list_start + list_len;
            let mut sni_pos: usize = list_start;
            while list_end - sni_pos >= 3
                invariant
                    list_start <= sni_pos,
                    sni_pos <= list_end,
                    list_end <= len,
                    len == data@.len(),
                    sni_bytes(data@) == scan_names(data@, sni_pos as int, list_end as int),
                decreases list_end - sni_pos,
            {
                let name_type = data[sni_pos];
                let name_len = (data[sni_pos + 1] as usize) * 256 + (data[sni_pos + 2] as usize);
                let name_start = sni_pos + 3;
                if name_type == 0 && name_len <= len - name_start {
                    let bytes = copy_range(data, name_start, name_start + name_len);
                    return utf8_to_string(&bytes);
                }
                if name_len > list_end - name_start {
                    assert(scan_names(data@, name_start + name_len as int, list_end as int)
                        is None);
                    return None;
                }
                sni_pos = name_start + name_len;
            }
            assert(scan_names(data@, sni_pos as int, list_end as int) is None);
            return None;
        }
        if ext_len > walk_end - body {
            assert(scan_extensions(data@, body + ext_len as int, spec_end) is None);
            return None;
        }
        pos = body + ext_len;
    }
    assert(scan_extensions(data@, pos as int, spec_end) is None);
    None
}

} // verus!
