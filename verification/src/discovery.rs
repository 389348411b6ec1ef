//! Server discovery: decoding of the discovery reply and bookkeeping of responders.
//!
//! The UDP exchange itself happens in the client; each reply's bytes and sender are handed
//! here.
use vstd::prelude::*;

verus! {

/// An ASCII decimal digit byte.
pub open spec fn is_digit_byte(b: u8) -> bool {
    48 <= b <= 57
}

/// Every byte of `s` is a decimal digit.
pub open spec fn all_digit_bytes(s: Seq<u8>) -> bool {
    forall|i: int| 0 <= i < s.len() ==> is_digit_byte(#[trigger] s[i])
}

/// The decimal value of a run of digit bytes.
pub open spec fn dec_value_bytes(s: Seq<u8>) -> nat
    decreases s.len(),
{
    if s.len() == 0 {
        0
    } else {
        dec_value_bytes(s.drop_last()) * 10 + (s.last() - 48) as nat
    }
}

/// The digits of a port text: the text after an optional leading `+`.
pub open spec fn port_digits_bytes(s: Seq<u8>) -> Seq<u8> {
    if s.len() > 0 && s[0] == 43 {
        s.drop_first()
    } else {
        s
    }
}

/// Text read as a 16-bit unsigned number the way the standard parser reads it: an optional
/// `+`, then at least one decimal digit and nothing else, with a value that fits 16 bits.
pub open spec fn spec_parse_u16_bytes(s: Seq<u8>) -> Option<u16> {
    let d = port_digits_bytes(s);
    if d.len() > 0 && all_digit_bytes(d) && dec_value_bytes(d) <= 65535 {
        Some(dec_value_bytes(d) as u16)
    } else {
        None
    }
}

/// Reads `s[from..to]` as a 16-bit number (see [`spec_parse_u16_bytes`]).
pub fn parse_u16_bytes(s: &[u8], from: usize, to: usize) -> (r: Option<u16>)
    requires
        from <= to <= s@.len(),
    ensures
        r == spec_parse_u16_bytes(s@.subrange(from as int, to as int)),
{
    let ghost whole = s@.subrange(from as int, to as int);
    let mut start = from;
    if from < to && s[from] == 43 {
        start = from + 1;
    }
    let ghost d = s@.subrange(start as int, to as int);
    assert(d =~= port_digits_bytes(whole));
    if start == to {
        return None;
    }
    let mut acc: u32 = 0;
    let mut i = start;
    while i < to
        invariant
            start <= i <= to <= s@.len(),
            d == s@.subrange(start as int, to as int),
            d == port_digits_bytes(s@.subrange(from as int, to as int)),
            forall|k: int| start <= k < i ==> is_digit_byte(#[trigger] s@[k]),
            acc as nat == if dec_value_bytes(s@.subrange(start as int, i as int)) < 65536 {
                dec_value_bytes(s@.subrange(start as int, i as int))
            } else {
                65536
            },
        decreases to - i,
    {
        let b = s[i];
        if !(48 <= b && b <= 57) {
            assert(d[i - start] == s@[i as int]);
            assert(!is_digit_byte(d[i - start]));
            assert(!all_digit_bytes(d));
            return None;
        }
        let ghost pre = s@.subrange(start as int, i as int);
        let ghost nxt = s@.subrange(start as int, i + 1);
        assert(nxt.drop_last() =~= pre);
        let v = acc * 10 + (b - 48) as u32;
        acc = if v > 65536 { 65536 } else { v };
        i = i + 1;
    }
    assert(s@.subrange(start as int, to as int) =~= d);
    assert(all_digit_bytes(d));
    if acc > 65535 {
        None
    } else {
        Some(acc as u16)
    }
}

/// The 4-byte tag `JSON`.
pub open spec fn is_json_tag(buf: Seq<u8>, pos: int) -> bool {
    buf[pos] == 74 && buf[pos + 1] == 83 && buf[pos + 2] == 79 && buf[pos + 3] == 78
}

/// Scans tag/length/value fields of a discovery reply from `pos` on: each field is a 4-byte
/// tag, a length byte and that many value bytes. The value of the first `JSON` field, read
/// as a number, is the JSON-RPC port; a field that runs past `len` ends the scan.
pub open spec fn spec_scan_json_port(buf: Seq<u8>, len: int, pos: int) -> Option<u16>
    decreases len - pos,
{
    if pos < 0 || pos + 5 > len {
        None
    } else {
        let flen = buf[pos + 4] as int;
        let start = pos + 5;
        if start + flen > len {
            None
        } else if is_json_tag(buf, pos) {
            spec_parse_u16_bytes(buf.subrange(start, start + flen))
        } else {
            spec_scan_json_port(buf, len, start + flen)
        }
    }
}

/// The JSON-RPC port announced in a discovery reply (after the leading `E` byte).
pub open spec fn spec_parse_json_port(buf: Seq<u8>, len: int) -> Option<u16> {
    spec_scan_json_port(buf, len, 1)
}

/// Decodes the JSON-RPC port from the first `len` bytes of a discovery reply.
pub fn parse_json_port(buf: &[u8], len: usize) -> (r: Option<u16>)
    requires
        len <= buf@.len(),
    ensures
        r == spec_parse_json_port(buf@, len as int),
{
    let mut pos: usize = 1;
    while pos < len && len - pos >= 5
        invariant
            len <= buf@.len(),
            1 <= pos,
            spec_scan_json_port(buf@, len as int, pos as int) == spec_parse_json_port(buf@, len as int),
        decreases len - pos,
    {
        let field_len = buf[pos + 4] as usize;
        let start = pos + 5;
        if field_len > len - start {
            return None;
        }
        if buf[pos] == 74 && buf[pos + 1] == 83 && buf[pos + 2] == 79 && buf[pos + 3] == 78 {
            return parse_u16_bytes(buf, start, start + field_len);
        }
        pos = start + field_len;
    }
    None
}

/// The port used for a server whose reply names none.
pub const DEFAULT_HTTP_PORT: u16 = 9000;

/// The port to record for a reply: the announced one, else the default.
pub fn reply_port(buf: &[u8], len: usize) -> (r: u16)
    requires
        len <= buf@.len(),
    ensures
        r == match spec_parse_json_port(buf@, len as int) {
            Some(p) => p,
            None => DEFAULT_HTTP_PORT,
        },
{
    match parse_json_port(buf, len) {
        Some(p) => p,
        None => DEFAULT_HTTP_PORT,
    }
}

/// No address occurs twice among the recorded servers.
pub open spec fn distinct_hosts(found: Seq<(String, u16)>) -> bool {
    forall|i: int, j: int| 0 <= i < j < found.len() ==> (#[trigger] found[i]).0@ != (#[trigger] found[j]).0@
}

/// Records a responding server unless its address was already recorded.
pub fn record_server(found: &mut Vec<(String, u16)>, ip: String, port: u16)
    requires
        distinct_hosts(old(found)@),
    ensures
        distinct_hosts(final(found)@),
        (exists|i: int| 0 <= i < old(found)@.len() && (#[trigger] old(found)@[i]).0@ == ip@)
            ==> final(found)@ == old(found)@,
        !(exists|i: int| 0 <= i < old(found)@.len() && (#[trigger] old(found)@[i]).0@ == ip@)
            ==> final(found)@ == old(found)@.push((ip, port)),
{
    let mut i: usize = 0;
    while i < found.len()
        invariant
            found@ == old(found)@,
            distinct_hosts(old(found)@),
            i <= found@.len(),
            forall|k: int| 0 <= k < i ==> (#[trigger] found@[k]).0@ != ip@,
        decreases found@.len() - i,
    {
        if found[i].0 == ip {
            assert(found@ == old(found)@);
            return;
        }
        i += 1;
    }
    found.push((ip, port));
}

/// A received datagram is a discovery answer: it is not empty and starts with 'E'.
pub open spec fn is_answer(buf: Seq<u8>, len: int) -> bool {
    0 < len <= buf.len() && buf[0] == 69
}

/// Takes one datagram of `len` bytes from `ip`: an answer records its sender (with the port
/// it announces, else the default) unless that address is recorded already; anything else is
/// ignored. Returns whether it was an answer.
pub fn take_reply(found: &mut Vec<(String, u16)>, buf: &[u8], len: usize, ip: String) -> (r: bool)
    requires
        distinct_hosts(old(found)@),
        len <= buf@.len(),
    ensures
        r == is_answer(buf@, len as int),
        distinct_hosts(final(found)@),
        !r ==> final(found)@ == old(found)@,
        r && (exists|i: int| 0 <= i < old(found)@.len() && (#[trigger] old(found)@[i]).0@ == ip@)
            ==> final(found)@ == old(found)@,
        r && !(exists|i: int| 0 <= i < old(found)@.len() && (#[trigger] old(found)@[i]).0@ == ip@)
            ==> final(found)@ == old(found)@.push((ip, match spec_parse_json_port(buf@, len as int) {
                Some(p) => p,
                None => DEFAULT_HTTP_PORT,
            })),
{
    if len > 0 && buf[0] == 69 {
        let port = reply_port(buf, len);
        record_server(found, ip, port);
        true
    } else {
        false
    }
}

/// The server that discovery reports: the first of those that answered, if any.
pub fn discover_lms(found: Vec<(String, u16)>) -> (r: Option<(String, u16)>)
    ensures
        r == (if found@.len() > 0 { Some(found@[0]) } else { None }),
{
    let mut found = found;
    if found.len() > 0 {
        Some(found.remove(0))
    } else {
        None
    }
}

} // verus!
