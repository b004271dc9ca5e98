//! What is logged of one intercepted call to the variable-reading service.

use vstd::prelude::*;
use crate::guid::{GuidFields, guid_fields, guid_layout, guid_text, push_guid};
use crate::hex::{hex_digits, hex_padded, push_hex};
use crate::name::{decode_name, decoded_name};

verus! {

/// One decoded call: identifier, effective size, name and status code.
pub struct CallRecord {
    pub guid: GuidFields,
    pub size: usize,
    pub name: Vec<u8>,
    pub status: usize,
}

/// The size logged for a call: zero when the caller passed no size
/// location, otherwise what the service left there.
pub open spec fn effective_size_of(size_after: Option<usize>) -> usize {
    match size_after {
        Some(v) => v,
        None => 0,
    }
}

/// The log line of a call:
/// `G: <identifier> Size=<size, 8 hex digits> <name>: 0x<status>`.
pub open spec fn call_line(guid: GuidFields, size: usize, name: Seq<u8>, status: usize) -> Seq<u8> {
    seq![71u8, 58u8, 32u8] + guid_text(guid) + seq![32u8, 83u8, 105u8, 122u8, 101u8, 61u8]
        + hex_padded(size as nat, 8, false) + seq![32u8] + name + seq![58u8, 32u8, 48u8, 120u8]
        + hex_digits(status as nat, false)
}

/// The size to log, given the content of the size location after the call
/// (`None` when the caller passed none).
pub fn effective_size(size_after: Option<usize>) -> (r: usize)
    ensures
        r == effective_size_of(size_after),
{
    match size_after {
        Some(v) => v,
        None => 0,
    }
}

impl CallRecord {
    /// Decodes the arguments of a call once the service has returned.
    pub fn decode(name_units: &[u16], guid_bytes: &[u8; 16], size_after: Option<usize>, status: usize) -> (r: CallRecord)
        ensures
            r.name@ == decoded_name(name_units@),
            guid_layout(r.guid, guid_bytes@),
            r.size == effective_size_of(size_after),
            r.status == status,
    {
        CallRecord {
            guid: guid_fields(guid_bytes),
            size: effective_size(size_after),
            name: decode_name(name_units),
            status,
        }
    }

    /// The record's log line.
    pub fn to_line(&self) -> (r: Vec<u8>)
        ensures
            r@ == call_line(self.guid, self.size, self.name@, self.status),
    {
        let mut out: Vec<u8> = Vec::new();
        out.extend_from_slice(&[71u8, 58, 32]);
        push_guid(&mut out, &self.guid);
        out.extend_from_slice(&[32u8, 83, 105, 122, 101, 61]);
        push_hex(&mut out, self.size as u64, 8, false);
        out.push(32u8);
        out.extend_from_slice(self.name.as_slice());
        out.extend_from_slice(&[58u8, 32, 48, 120]);
        push_hex(&mut out, self.status as u64, 0, false);
        assert(out@ =~= call_line(self.guid, self.size, self.name@, self.status));
        out
    }
}

/// Work done after the original service returned: hands its status back
/// unchanged, with the line to log for the call.
///
/// `size_after` is what the size location holds after the call (`None` when
/// the caller passed none); the caller's buffers are not touched.
pub fn handle_get_variable(name_units: &[u16], guid_bytes: &[u8; 16], size_after: Option<usize>, status: usize) -> (r: (usize, Vec<u8>))
    ensures
        r.0 == status,
        exists|g: GuidFields|
            guid_layout(g, guid_bytes@) && r.1@ == call_line(
                g,
                effective_size_of(size_after),
                decoded_name(name_units@),
                status,
            ),
{
    let record = CallRecord::decode(name_units, guid_bytes, size_after, status);
    let line = record.to_line();
    (status, line)
}

} // verus!
