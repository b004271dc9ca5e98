//! Bounded decoding of a terminated wide-character variable name.

use vstd::prelude::*;

verus! {

/// Most characters of a name that are ever read.
pub const MAX_NAME_LEN: usize = 64;

/// First unit of the surrogate range, which holds no character of its own.
pub const SURROGATE_FIRST: u16 = 0xD800;

/// Last unit of the surrogate range.
pub const SURROGATE_LAST: u16 = 0xDFFF;

/// The UTF-8 encoding of one wide character. Names are UCS-2, so a unit of
/// the surrogate range stands alone and becomes U+FFFD.
pub open spec fn utf8_of_unit(c: u16) -> Seq<u8> {
    if c < 0x80 {
        seq![c as u8]
    } else if c < 0x800 {
        seq![(0xC0 + c / 64) as u8, (0x80 + c % 64) as u8]
    } else if SURROGATE_FIRST <= c <= SURROGATE_LAST {
        seq![0xEFu8, 0xBFu8, 0xBDu8]
    } else {
        seq![(0xE0 + c / 4096) as u8, (0x80 + (c / 64) % 64) as u8, (0x80 + c % 64) as u8]
    }
}

/// The UTF-8 encoding of a run of wide characters.
pub open spec fn utf8_of_units(s: Seq<u16>) -> Seq<u8>
    decreases s.len(),
{
    if s.len() == 0 {
        seq![]
    } else {
        utf8_of_unit(s[0]) + utf8_of_units(s.drop_first())
    }
}

/// The name read from `units` starting at unit `i`: the UTF-8 encoding of the
/// characters up to the first zero unit, the end of the buffer, or the cap,
/// whichever comes first.
pub open spec fn name_from(units: Seq<u16>, i: nat) -> Seq<u8>
    decreases MAX_NAME_LEN - i,
{
    if i >= MAX_NAME_LEN || i >= units.len() || units[i as int] == 0 {
        seq![]
    } else {
        utf8_of_unit(units[i as int]) + name_from(units, i + 1)
    }
}

/// The name that a buffer holds.
pub open spec fn decoded_name(units: Seq<u16>) -> Seq<u8> {
    name_from(units, 0)
}

/// Appends the UTF-8 encoding of `c`.
pub fn push_utf8_unit(out: &mut Vec<u8>, c: u16)
    ensures
        final(out)@ == old(out)@ + utf8_of_unit(c),
{
    let ghost start = out@;
    if c < 0x80 {
        out.push(c as u8);
    } else if c < 0x800 {
        out.push((0xC0 + c / 64) as u8);
        out.push((0x80 + c % 64) as u8);
    } else if SURROGATE_FIRST <= c && c <= SURROGATE_LAST {
        out.push(0xEFu8);
        out.push(0xBFu8);
        out.push(0xBDu8);
    } else {
        out.push((0xE0 + c / 4096) as u8);
        out.push((0x80 + (c / 64) % 64) as u8);
        out.push((0x80 + c % 64) as u8);
    }
    assert(out@ =~= start + utf8_of_unit(c));
}

/// Encodes the characters of `units` up to a zero unit or `MAX_NAME_LEN`
/// characters, whichever comes first; no unit past the cap is read.
pub fn decode_name(units: &[u16]) -> (r: Vec<u8>)
    ensures
        r@ == decoded_name(units@),
        r@.len() <= 3 * MAX_NAME_LEN,
{
    let mut out: Vec<u8> = Vec::new();
    let mut i: usize = 0;
    while i < MAX_NAME_LEN && i < units.len() && units[i] != 0
        invariant
            i <= MAX_NAME_LEN,
            i <= units@.len(),
            out@.len() <= 3 * i,
            out@ + name_from(units@, i as nat) == decoded_name(units@),
        decreases MAX_NAME_LEN - i,
    {
        let c: u16 = units[i];
        let ghost before = out@;
        push_utf8_unit(&mut out, c);
        proof {
            assert(name_from(units@, i as nat) == utf8_of_unit(c) + name_from(
                units@,
                (i + 1) as nat,
            ));
            assert(out@ + name_from(units@, (i + 1) as nat) =~= before + name_from(
                units@,
                i as nat,
            ));
        }
        i = i + 1;
    }
    assert(name_from(units@, i as nat) =~= seq![]);
    assert(out@ =~= out@ + name_from(units@, i as nat));
    out
}

proof fn lemma_terminated(units: Seq<u16>, k: nat, i: nat)
    requires
        k < MAX_NAME_LEN,
        k < units.len(),
        units[k as int] == 0,
        forall|j: int| 0 <= j < k ==> units[j] != 0,
        i <= k,
    ensures
        name_from(units, i) == utf8_of_units(units.subrange(i as int, k as int)),
    decreases k - i,
{
    let t = units.subrange(i as int, k as int);
    if i < k {
        lemma_terminated(units, k, i + 1);
        assert(t.drop_first() =~= units.subrange(i as int + 1, k as int));
    } else {
        assert(t.len() == 0);
    }
}

proof fn lemma_unterminated(units: Seq<u16>, i: nat)
    requires
        units.len() >= MAX_NAME_LEN,
        forall|j: int| 0 <= j < MAX_NAME_LEN ==> units[j] != 0,
        i <= MAX_NAME_LEN,
    ensures
        name_from(units, i) == utf8_of_units(units.subrange(i as int, MAX_NAME_LEN as int)),
    decreases MAX_NAME_LEN - i,
{
    let t = units.subrange(i as int, MAX_NAME_LEN as int);
    if i < MAX_NAME_LEN {
        lemma_unterminated(units, i + 1);
        assert(t.drop_first() =~= units.subrange(i as int + 1, MAX_NAME_LEN as int));
    } else {
        assert(t.len() == 0);
    }
}

proof fn lemma_prefix_only(a: Seq<u16>, b: Seq<u16>, i: nat)
    requires
        a.len() >= MAX_NAME_LEN,
        b.len() >= MAX_NAME_LEN,
        a.subrange(0, MAX_NAME_LEN as int) == b.subrange(0, MAX_NAME_LEN as int),
        i <= MAX_NAME_LEN,
    ensures
        name_from(a, i) == name_from(b, i),
    decreases MAX_NAME_LEN - i,
{
    if i < MAX_NAME_LEN {
        assert(a[i as int] == a.subrange(0, MAX_NAME_LEN as int)[i as int]);
        assert(b[i as int] == b.subrange(0, MAX_NAME_LEN as int)[i as int]);
        lemma_prefix_only(a, b, i + 1);
    }
}

/// A name whose terminator stands at offset `k` below the cap decodes to
/// exactly the UTF-8 encoding of its first `k` characters.
pub proof fn law_name_stops_at_terminator(units: Seq<u16>, k: nat)
    requires
        k < MAX_NAME_LEN,
        k < units.len(),
        units[k as int] == 0,
        forall|j: int| 0 <= j < k ==> units[j] != 0,
    ensures
        decoded_name(units) == utf8_of_units(units.subrange(0, k as int)),
{
    lemma_terminated(units, k, 0);
}

/// A buffer with no terminator among its first `MAX_NAME_LEN` units decodes
/// to exactly the UTF-8 encoding of those units.
pub proof fn law_name_capped(units: Seq<u16>)
    requires
        units.len() >= MAX_NAME_LEN,
        forall|j: int| 0 <= j < MAX_NAME_LEN ==> units[j] != 0,
    ensures
        decoded_name(units) == utf8_of_units(units.subrange(0, MAX_NAME_LEN as int)),
{
    lemma_unterminated(units, 0);
}

/// The decoded name depends on the first `MAX_NAME_LEN` units alone: what
/// lies beyond them is never read.
pub proof fn law_name_reads_within_cap(a: Seq<u16>, b: Seq<u16>)
    requires
        a.len() >= MAX_NAME_LEN,
        b.len() >= MAX_NAME_LEN,
        a.subrange(0, MAX_NAME_LEN as int) == b.subrange(0, MAX_NAME_LEN as int),
    ensures
        decoded_name(a) == decoded_name(b),
{
    lemma_prefix_only(a, b, 0);
}

} // verus!
