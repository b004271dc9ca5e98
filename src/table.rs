//! A dispatch table held as its byte image, and the guarded exchange of one
//! of its entries.

use vstd::prelude::*;
use vstd::slice::slice_subrange;
use crate::bytes::{
    le_u32, le_u64, lemma_u32_round_trip, lemma_u64_round_trip, read_u32, read_u64, with_u32,
    with_u64, write_u32, write_u64,
};
use crate::status::{is_error_code, status_is_error};

verus! {

/// Offset of the header's size field (a little-endian `u32`).
pub const HEADER_SIZE_OFFSET: usize = 12;

/// Offset of the header's checksum field (a little-endian `u32`).
pub const CHECKSUM_OFFSET: usize = 16;

/// Length of the common table header; entries follow it.
pub const TABLE_HEADER_LEN: usize = 24;

/// Why an exchange was refused or could not be completed.
#[derive(Clone, Copy, Debug, PartialEq, Eq, Structural)]
pub enum HookError {
    /// The entry offset does not name eight bytes after the header.
    InvalidSlot,
    /// The entry already holds the replacement: a second install.
    AlreadyInstalled,
    /// The checksum primitive reported this error status.
    IntegrityFailure(usize),
}

/// The byte count that the header says the checksum covers.
pub open spec fn header_size_of(image: Seq<u8>) -> int {
    le_u32(image, HEADER_SIZE_OFFSET as int) as int
}

/// The stored checksum.
pub open spec fn checksum_of(image: Seq<u8>) -> u32 {
    le_u32(image, CHECKSUM_OFFSET as int)
}

/// The header is complete and the bytes it covers are all present.
pub open spec fn well_formed_image(image: Seq<u8>) -> bool {
    &&& TABLE_HEADER_LEN <= header_size_of(image) <= image.len()
}

/// `slot` names a whole entry after the header.
pub open spec fn slot_fits(image: Seq<u8>, slot: int) -> bool {
    TABLE_HEADER_LEN <= slot && slot + 8 <= image.len()
}

/// The image once the entry at `slot` holds `new_function` and the checksum
/// field is zeroed, as the checksum is computed over it.
pub open spec fn exchanged(image: Seq<u8>, slot: int, new_function: u64) -> Seq<u8> {
    with_u32(with_u64(image, slot, new_function), CHECKSUM_OFFSET as int, 0)
}

/// The bytes that the checksum covers.
pub open spec fn covered_bytes(image: Seq<u8>) -> Seq<u8> {
    image.subrange(0, header_size_of(image))
}

/// What an exchange of the entry at `slot` for `new_function` does to a
/// table image `before`, leaving `after` and returning `r`:
/// - a slot outside the image, or an entry that already holds
///   `new_function`, is refused and nothing changes;
/// - otherwise the entry is written, the checksum field zeroed, and
///   `checksum` called on the covered bytes; an error status from it is
///   returned with the table left so; under any other status the value is
///   stored as the checksum, and the former entry is returned with that status.
pub open spec fn install_outcome<F: Fn(&[u8]) -> (usize, u32)>(
    before: Seq<u8>,
    after: Seq<u8>,
    slot: int,
    new_function: u64,
    checksum: F,
    r: Result<(u64, usize), HookError>,
) -> bool {
    if !slot_fits(before, slot) {
        r == Err::<(u64, usize), HookError>(HookError::InvalidSlot) && after == before
    } else if le_u64(before, slot) == new_function {
        r == Err::<(u64, usize), HookError>(HookError::AlreadyInstalled) && after == before
    } else {
        exists|b: &[u8], st: usize, v: u32|
            {
                let x = exchanged(before, slot, new_function);
                &&& b@ == covered_bytes(x)
                &&& #[trigger] checksum.ensures((b,), (st, v))
                &&& if is_error_code(st) {
                    &&& r == Err::<(u64, usize), HookError>(HookError::IntegrityFailure(st))
                    &&& after == x
                } else {
                    &&& r == Ok::<(u64, usize), HookError>((le_u64(before, slot), st))
                    &&& after == with_u32(x, CHECKSUM_OFFSET as int, v)
                    &&& le_u64(after, slot) == new_function
                    &&& checksum_of(after) == v
                }
            }
    }
}

/// A platform table, as the bytes of its image.
pub struct ServiceTable {
    image: Vec<u8>,
}

impl View for ServiceTable {
    type V = Seq<u8>;

    closed spec fn view(&self) -> Seq<u8> {
        self.image@
    }
}

impl ServiceTable {
    /// Takes an image as a table; `None` when its header is incomplete or
    /// claims more bytes than the image holds.
    pub fn from_image(image: Vec<u8>) -> (r: Option<ServiceTable>)
        ensures
            r is Some <==> image@.len() >= TABLE_HEADER_LEN && well_formed_image(image@),
            r matches Some(t) ==> t@ == image@,
    {
        if image.len() < TABLE_HEADER_LEN {
            return None;
        }
        let size = read_u32(image.as_slice(), HEADER_SIZE_OFFSET);
        if (size as usize) < TABLE_HEADER_LEN || size as usize > image.len() {
            return None;
        }
        Some(ServiceTable { image })
    }

    /// The table's bytes.
    pub fn image(&self) -> (r: &[u8])
        ensures
            r@ == self@,
    {
        self.image.as_slice()
    }

    /// The stored checksum.
    pub fn checksum(&self) -> (r: u32)
        requires
            well_formed_image(self@),
        ensures
            r == checksum_of(self@),
    {
        read_u32(self.image.as_slice(), CHECKSUM_OFFSET)
    }

    /// The entry at `slot`, if `slot` names one.
    pub fn entry(&self, slot: usize) -> (r: Option<u64>)
        ensures
            r is Some <==> slot_fits(self@, slot as int),
            r matches Some(v) ==> v == le_u64(self@, slot as int),
    {
        if slot < TABLE_HEADER_LEN || slot > self.image.len() || self.image.len() - slot < 8 {
            return None;
        }
        Some(read_u64(self.image.as_slice(), slot))
    }

    /// Exchanges the entry at `slot` for `new_function` and repairs the
    /// header checksum; returns the entry's former value and the status of the
    /// checksum primitive.
    ///
    /// The checksum field is zeroed before `checksum` is called on the bytes
    /// that the header covers; the primitive returns a status and the value.
    /// The caller keeps every other observer of the table out until this
    /// returns.
    pub fn install<F: Fn(&[u8]) -> (usize, u32)>(&mut self, slot: usize, new_function: u64, checksum: F) -> (r: Result<(u64, usize), HookError>)
        requires
            well_formed_image(old(self)@),
            forall|b: &[u8]| checksum.requires((b,)),
        ensures
            well_formed_image(final(self)@),
            install_outcome(old(self)@, final(self)@, slot as int, new_function, checksum, r),
    {
        let ghost start = self@;
        if slot < TABLE_HEADER_LEN || slot > self.image.len() || self.image.len() - slot < 8 {
            return Err(HookError::InvalidSlot);
        }
        let original = read_u64(self.image.as_slice(), slot);
        if original == new_function {
            return Err(HookError::AlreadyInstalled);
        }
        write_u64(&mut self.image, slot, new_function);
        write_u32(&mut self.image, CHECKSUM_OFFSET, 0);
        let ghost x = self.image@;
        assert(header_size_of(x) == header_size_of(start));
        let size = read_u32(self.image.as_slice(), HEADER_SIZE_OFFSET) as usize;
        let covered = slice_subrange(self.image.as_slice(), 0, size);
        let (st, v) = checksum(covered);
        if status_is_error(st) {
            return Err(HookError::IntegrityFailure(st));
        }
        write_u32(&mut self.image, CHECKSUM_OFFSET, v);
        proof {
            lemma_u64_round_trip(start, slot as int, new_function);
            lemma_u32_round_trip(x, CHECKSUM_OFFSET as int, v);
            assert(le_u64(self@, slot as int) == le_u64(with_u64(start, slot as int, new_function), slot as int));
            assert(header_size_of(self@) == header_size_of(start));
        }
        Ok((original, st))
    }
}

} // verus!
