//! Byte-level access to the guest's linear memory.
//!
//! The guest's memory is a flat little-endian byte region; the bridge reads
//! and writes 16-bit code units and 32-bit object references in it. Every
//! access is bounds-checked: an address range outside the current memory is
//! rejected, never touched.

use vstd::prelude::*;

verus! {

/// The little-endian bytes of a 16-bit value.
pub open spec fn le_bytes_u16(x: u16) -> Seq<u8> {
    seq![(x & 0xFF) as u8, (x >> 8) as u8]
}

/// The little-endian bytes of a 32-bit value.
pub open spec fn le_bytes_u32(x: u32) -> Seq<u8> {
    seq![(x & 0xFF) as u8, ((x >> 8) & 0xFF) as u8, ((x >> 16) & 0xFF) as u8, (x >> 24) as u8]
}

/// The 16-bit value stored little-endian at an address.
pub open spec fn u16_le_at(mem: Seq<u8>, addr: int) -> u16
    recommends
        0 <= addr,
        addr + 2 <= mem.len(),
{
    (mem[addr] + mem[addr + 1] * 0x100) as u16
}

/// The 32-bit value stored little-endian at an address.
pub open spec fn u32_le_at(mem: Seq<u8>, addr: int) -> u32
    recommends
        0 <= addr,
        addr + 4 <= mem.len(),
{
    (mem[addr] + mem[addr + 1] * 0x100 + mem[addr + 2] * 0x10000 + mem[addr + 3]
        * 0x1000000) as u32
}

/// The memory with `bytes` overlaid at `addr` and everything else
/// unchanged.
pub open spec fn overlay(mem: Seq<u8>, addr: int, bytes: Seq<u8>) -> Seq<u8> {
    Seq::new(mem.len(), |k: int| if addr <= k < addr + bytes.len() {
        bytes[k - addr]
    } else {
        mem[k]
    })
}

/// The little-endian byte image of a code-unit sequence.
pub open spec fn utf16_le_bytes(units: Seq<u16>) -> Seq<u8>
    decreases units.len(),
{
    if units.len() == 0 {
        Seq::empty()
    } else {
        le_bytes_u16(units[0]) + utf16_le_bytes(units.skip(1))
    }
}

/// The byte image is two bytes per unit, each unit's little-endian bytes in
/// place.
pub proof fn lemma_utf16_le_bytes_index(units: Seq<u16>, j: int)
    requires
        0 <= j < units.len(),
    ensures
        utf16_le_bytes(units).len() == 2 * units.len(),
        utf16_le_bytes(units)[2 * j] == le_bytes_u16(units[j])[0],
        utf16_le_bytes(units)[2 * j + 1] == le_bytes_u16(units[j])[1],
    decreases units.len(),
{
    lemma_utf16_le_bytes_len(units);
    if j == 0 {
    } else {
        lemma_utf16_le_bytes_index(units.skip(1), j - 1);
        lemma_utf16_le_bytes_len(units.skip(1));
    }
}

/// The byte image of a code-unit sequence is twice as long.
pub proof fn lemma_utf16_le_bytes_len(units: Seq<u16>)
    ensures
        utf16_le_bytes(units).len() == 2 * units.len(),
    decreases units.len(),
{
    if units.len() > 0 {
        lemma_utf16_le_bytes_len(units.skip(1));
    }
}

/// Reading a 16-bit value back from its little-endian bytes gives the
/// value.
pub proof fn lemma_u16_le_round_trip(x: u16)
    ensures
        u16_le_at(le_bytes_u16(x), 0) == x,
{
    let b0 = (x & 0xFF) as u8;
    let b1 = (x >> 8) as u8;
    assert((b0 + b1 * 0x100) as u16 == x) by (bit_vector)
        requires
            b0 == (x & 0xFF) as u8 && b1 == (x >> 8) as u8,
    ;
}

/// Reading a 32-bit value back from its little-endian bytes gives the
/// value.
pub proof fn lemma_u32_le_round_trip(x: u32)
    ensures
        u32_le_at(le_bytes_u32(x), 0) == x,
{
    let b0 = (x & 0xFF) as u8;
    let b1 = ((x >> 8) & 0xFF) as u8;
    let b2 = ((x >> 16) & 0xFF) as u8;
    let b3 = (x >> 24) as u8;
    assert((b0 + b1 * 0x100 + b2 * 0x10000 + b3 * 0x1000000) as u32 == x) by (bit_vector)
        requires
            b0 == (x & 0xFF) as u8 && b1 == ((x >> 8) & 0xFF) as u8 && b2 == ((x >> 16)
                & 0xFF) as u8 && b3 == (x >> 24) as u8,
    ;
}

/// The sequence of 16-bit little-endian values stored at `addr`, `len` of
/// them.
pub open spec fn units_at(mem: Seq<u8>, addr: int, len: nat) -> Seq<u16> {
    Seq::new(len, |j: int| u16_le_at(mem, addr + 2 * j))
}

/// Reading code units back from a region that a code-unit byte image was
/// overlaid on gives exactly the written units.
pub proof fn lemma_units_at_overlay(mem: Seq<u8>, addr: int, units: Seq<u16>)
    requires
        0 <= addr,
        addr + 2 * units.len() <= mem.len(),
    ensures
        units_at(overlay(mem, addr, utf16_le_bytes(units)), addr, units.len()) =~= units,
{
    let written = overlay(mem, addr, utf16_le_bytes(units));
    lemma_utf16_le_bytes_len(units);
    assert forall|j: int| 0 <= j < units.len() implies units_at(
        written,
        addr,
        units.len(),
    )[j] == units[j] by {
        lemma_utf16_le_bytes_index(units, j);
        lemma_u16_le_round_trip(units[j]);
        assert(written[addr + 2 * j] == le_bytes_u16(units[j])[0]);
        assert(written[addr + 2 * j + 1] == le_bytes_u16(units[j])[1]);
    }
}

/// Copies a bounds-checked region of the guest's memory out as plain
/// bytes. Succeeds exactly when the whole range lies inside memory.
pub fn read_region(mem: &Vec<u8>, addr: usize, len: usize) -> (r: Option<Vec<u8>>)
    ensures
        addr + len <= mem@.len() ==> (r matches Some(bytes) && bytes@ == mem@.subrange(
            addr as int,
            addr + len,
        )),
        addr + len > mem@.len() ==> r is None,
{
    if addr > mem.len() || len > mem.len() - addr {
        return None;
    }
    let m = mem.len();
    let mut out: Vec<u8> = Vec::new();
    let mut j: usize = 0;
    while j < len
        invariant
            m == mem@.len(),
            addr + len <= m,
            0 <= j <= len,
            out@ =~= mem@.subrange(addr as int, addr + j),
        decreases len - j,
    {
        out.push(mem[addr + j]);
        proof {
            assert(out@ =~= mem@.subrange(addr as int, addr + j + 1));
        }
        j = j + 1;
    }
    Some(out)
}

/// Reads the 16-bit little-endian values stored at `addr`, `len` of them.
/// Succeeds exactly when the whole range lies inside memory.
pub fn read_u16s(mem: &Vec<u8>, addr: usize, len: usize) -> (r: Option<Vec<u16>>)
    ensures
        len <= 0x7FFFFFFF && addr + 2 * len <= mem@.len() ==> (r matches Some(units)
            && units@.len() == len && (forall|j: int|
            0 <= j < len ==> units@[j] == u16_le_at(mem@, addr + 2 * j))),
        !(len <= 0x7FFFFFFF && addr + 2 * len <= mem@.len()) ==> r is None,
{
    if len > 0x7FFFFFFF || addr > mem.len() || 2 * len > mem.len() - addr {
        return None;
    }
    let m = mem.len();
    let mut out: Vec<u16> = Vec::new();
    let mut j: usize = 0;
    while j < len
        invariant
            m == mem@.len(),
            len <= 0x7FFFFFFF,
            addr + 2 * len <= m,
            0 <= j <= len,
            out@.len() == j,
            forall|k: int| 0 <= k < j ==> out@[k] == u16_le_at(mem@, addr + 2 * k),
        decreases len - j,
    {
        let lo = mem[addr + 2 * j];
        let hi = mem[addr + 2 * j + 1];
        let unit = (lo as u16) + (hi as u16) * 0x100;
        out.push(unit);
        j = j + 1;
    }
    Some(out)
}

/// Reading a 32-bit value back from the region its little-endian bytes
/// were overlaid on gives exactly the written value.
pub proof fn lemma_u32_at_overlay(mem: Seq<u8>, addr: int, x: u32)
    requires
        0 <= addr,
        addr + 4 <= mem.len(),
    ensures
        u32_le_at(overlay(mem, addr, le_bytes_u32(x)), addr) == x,
{
    let written = overlay(mem, addr, le_bytes_u32(x));
    assert(written[addr] == le_bytes_u32(x)[0]);
    assert(written[addr + 1] == le_bytes_u32(x)[1]);
    assert(written[addr + 2] == le_bytes_u32(x)[2]);
    assert(written[addr + 3] == le_bytes_u32(x)[3]);
    lemma_u32_le_round_trip(x);
}

/// Reads the 32-bit little-endian value stored at `addr`. Succeeds exactly
/// when all four bytes lie inside memory.
pub fn read_u32_le(mem: &Vec<u8>, addr: usize) -> (r: Option<u32>)
    ensures
        addr + 4 <= mem@.len() ==> r == Some(u32_le_at(mem@, addr as int)),
        addr + 4 > mem@.len() ==> r is None,
{
    if addr > mem.len() || 4 > mem.len() - addr {
        return None;
    }
    let b0 = mem[addr] as u32;
    let b1 = mem[addr + 1] as u32;
    let b2 = mem[addr + 2] as u32;
    let b3 = mem[addr + 3] as u32;
    Some(b0 + b1 * 0x100 + b2 * 0x10000 + b3 * 0x1000000)
}

/// Writes `bytes` into memory at `addr`. Succeeds exactly when the whole
/// range lies inside memory; nothing is written otherwise.
pub fn write_region(mem: &mut Vec<u8>, addr: usize, bytes: &Vec<u8>) -> (r: bool)
    ensures
        addr + bytes@.len() <= old(mem)@.len() ==> r && final(mem)@ == overlay(
            old(mem)@,
            addr as int,
            bytes@,
        ),
        addr + bytes@.len() > old(mem)@.len() ==> !r && final(mem)@ == old(mem)@,
{
    let len = bytes.len();
    if addr > mem.len() || len > mem.len() - addr {
        return false;
    }
    let m = mem.len();
    let mut j: usize = 0;
    while j < len
        invariant
            len == bytes@.len(),
            m == mem@.len(),
            addr + len <= m,
            mem@.len() == old(mem)@.len(),
            0 <= j <= len,
            forall|k: int| 0 <= k < mem@.len() && !(addr <= k < addr + j) ==> mem@[k] == old(
                mem,
            )@[k],
            forall|k: int| addr <= k < addr + j ==> mem@[k] == bytes@[k - addr],
        decreases len - j,
    {
        mem.set(addr + j, bytes[j]);
        j = j + 1;
    }
    proof {
        assert(mem@ =~= overlay(old(mem)@, addr as int, bytes@));
    }
    true
}

} // verus!
