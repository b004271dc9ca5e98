//! The 128-bit vendor identifier and its canonical text grouping.

use vstd::prelude::*;
use crate::hex::{hex_padded, push_hex};

verus! {

/// The fields of an identifier, as the firmware interface defines them.
pub struct GuidFields {
    pub time_low: u32,
    pub time_mid: u16,
    pub time_hi_and_version: u16,
    pub clk_seq_hi_res: u8,
    pub clk_seq_low: u8,
    pub node: [u8; 6],
}

/// The memory image `b` of an identifier holds `f`: the first three fields
/// little-endian, the rest byte by byte.
pub open spec fn guid_layout(f: GuidFields, b: Seq<u8>) -> bool {
    &&& b.len() == 16
    &&& f.time_low as int == b[0] as int + 256 * b[1] + 65536 * b[2] + 16777216 * b[3]
    &&& f.time_mid as int == b[4] as int + 256 * b[5]
    &&& f.time_hi_and_version as int == b[6] as int + 256 * b[7]
    &&& f.clk_seq_hi_res == b[8]
    &&& f.clk_seq_low == b[9]
    &&& f.node@ == b.subrange(10, 16)
}

/// Reads the identifier whose memory image is `bytes`.
///
/// Relies on r_efi's `Guid::as_fields`, on the value that `Guid::from_bytes`
/// makes of the image (a plain reinterpretation of the 16 bytes).
#[verifier::external_body]
pub(crate) fn guid_fields(bytes: &[u8; 16]) -> (r: GuidFields)
    ensures
        guid_layout(r, bytes@),
{
    let g = r_efi::base::Guid::from_bytes(bytes);
    let (time_low, time_mid, time_hi_and_version, clk_seq_hi_res, clk_seq_low, node) =
        g.as_fields();
    GuidFields { time_low, time_mid, time_hi_and_version, clk_seq_hi_res, clk_seq_low, node: *node }
}

/// Two upper-case hex digits of a byte.
pub open spec fn byte_text(b: u8) -> Seq<u8> {
    hex_padded(b as nat, 2, true)
}

/// `XXXXXXXX-XXXX-XXXX-XXXX-XXXXXXXXXXXX`, upper case.
pub open spec fn guid_text(f: GuidFields) -> Seq<u8> {
    hex_padded(f.time_low as nat, 8, true) + seq![45u8] + hex_padded(f.time_mid as nat, 4, true)
        + seq![45u8] + hex_padded(f.time_hi_and_version as nat, 4, true) + seq![45u8]
        + byte_text(f.clk_seq_hi_res) + byte_text(f.clk_seq_low) + seq![45u8]
        + byte_text(f.node[0]) + byte_text(f.node[1]) + byte_text(f.node[2])
        + byte_text(f.node[3]) + byte_text(f.node[4]) + byte_text(f.node[5])
}

/// Appends the canonical grouping of `f`.
pub fn push_guid(out: &mut Vec<u8>, f: &GuidFields)
    ensures
        final(out)@ == old(out)@ + guid_text(*f),
{
    push_hex(out, f.time_low as u64, 8, true);
    out.push(45u8);
    push_hex(out, f.time_mid as u64, 4, true);
    out.push(45u8);
    push_hex(out, f.time_hi_and_version as u64, 4, true);
    out.push(45u8);
    push_hex(out, f.clk_seq_hi_res as u64, 2, true);
    push_hex(out, f.clk_seq_low as u64, 2, true);
    out.push(45u8);
    let mut i: usize = 0;
    while i < 6
        invariant
            i <= 6,
            out@ == old(out)@ + hex_padded(f.time_low as nat, 8, true) + seq![45u8]
                + hex_padded(f.time_mid as nat, 4, true) + seq![45u8]
                + hex_padded(f.time_hi_and_version as nat, 4, true) + seq![45u8]
                + byte_text(f.clk_seq_hi_res) + byte_text(f.clk_seq_low) + seq![45u8]
                + node_text(f.node@, i as int),
        decreases 6 - i,
    {
        push_hex(out, f.node[i] as u64, 2, true);
        i = i + 1;
    }
    assert(node_text(f.node@, 6) =~= byte_text(f.node[0]) + byte_text(f.node[1])
        + byte_text(f.node[2]) + byte_text(f.node[3]) + byte_text(f.node[4])
        + byte_text(f.node[5])) by {
        reveal_with_fuel(node_text, 7);
    }
    assert(out@ =~= old(out)@ + guid_text(*f));
}

/// The text of the first `k` bytes of `node`.
spec fn node_text(node: Seq<u8>, k: int) -> Seq<u8>
    decreases k,
{
    if k <= 0 {
        seq![]
    } else {
        node_text(node, k - 1) + byte_text(node[k - 1])
    }
}

} // verus!
