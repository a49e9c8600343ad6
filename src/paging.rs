//! Page Table Builder: a minimal long-mode paging structure with one huge
//! page identity-mapping guest-physical address 0.
use vstd::prelude::*;

verus! {

/// Entry bit: the entry is present.
pub const PDE64_PRESENT: u64 = 1;
/// Entry bit: the mapped region is writable.
pub const PDE64_RW: u64 = 2;
/// Entry bit: the mapped region is accessible from user mode.
pub const PDE64_USER: u64 = 4;
/// Entry bit: the entry maps a huge page instead of a next-level table.
pub const PDE64_PS: u64 = 0x80;

/// Size of one paging structure (one 4 KiB page of 512 entries).
pub const TABLE_SIZE: u64 = 0x1000;

/// Size in bytes of one page-table entry.
pub const ENTRY_SIZE: usize = 8;

/// The flags every entry of the structure carries.
pub open spec fn entry_flags() -> u64 {
    PDE64_PRESENT | PDE64_RW | PDE64_USER
}

/// The entry that points at a next-level table at `next`.
pub open spec fn table_entry(next: u64) -> u64 {
    entry_flags() | next
}

/// The entry that maps a huge page whose frame starts at `frame`.
pub open spec fn huge_page_entry(frame: u64) -> u64 {
    entry_flags() | PDE64_PS | frame
}

/// Byte `k` (little-endian) of `v`.
pub open spec fn le_byte(v: u64, k: nat) -> u8 {
    ((v >> (8 * k) as u64) & 0xff) as u8
}

/// The eight little-endian bytes of `v`.
pub open spec fn le_bytes(v: u64) -> Seq<u8> {
    Seq::new(8, |k: int| le_byte(v, k as nat))
}

/// The value of the eight little-endian bytes `b[0..8]`.
pub open spec fn le_value(b: Seq<u8>) -> u64
    recommends
        b.len() >= 8,
{
    (b[0] as u64) | ((b[1] as u64) << 8) | ((b[2] as u64) << 16) | ((b[3] as u64) << 24)
        | ((b[4] as u64) << 32) | ((b[5] as u64) << 40) | ((b[6] as u64) << 48) | ((b[7]
        as u64) << 56)
}

/// The entry stored at byte offset `off` of `mem`.
pub open spec fn entry_at(mem: Seq<u8>, off: int) -> u64 {
    le_value(mem.subrange(off, off + 8))
}

/// Guest-physical address of the top-level table (PML4) for base `b`.
pub open spec fn pml4_of(b: int) -> int {
    b
}

/// Guest-physical address of the PDPT for base `b`.
pub open spec fn pdpt_of(b: int) -> int {
    b + TABLE_SIZE
}

/// Guest-physical address of the PD for base `b`.
pub open spec fn pd_of(b: int) -> int {
    b + 2 * TABLE_SIZE
}

/// A base address at which the three tables fit, page-aligned, inside a
/// guest memory of `len` bytes mapped at guest-physical 0.
pub open spec fn valid_base(b: int, len: nat) -> bool {
    &&& b % (TABLE_SIZE as int) == 0
    &&& 0 <= b && b + 3 * TABLE_SIZE <= len
}

/// Whether `mem` holds the three entries of the structure rooted at base `b`.
pub open spec fn holds_page_tables(mem: Seq<u8>, b: int) -> bool {
    &&& entry_at(mem, pml4_of(b)) == table_entry(pdpt_of(b) as u64)
    &&& entry_at(mem, pdpt_of(b)) == table_entry(pd_of(b) as u64)
    &&& entry_at(mem, pd_of(b)) == huge_page_entry(0)
}

/// Whether byte `i` lies in one of the three entries written for base `b`.
pub open spec fn in_entry_slot(b: int, i: int) -> bool {
    ||| pml4_of(b) <= i < pml4_of(b) + 8
    ||| pdpt_of(b) <= i < pdpt_of(b) + 8
    ||| pd_of(b) <= i < pd_of(b) + 8
}

/// Reading the eight bytes of `le_bytes(v)` gives back `v`.
pub proof fn lemma_le_round_trip(v: u64)
    ensures
        le_value(le_bytes(v)) == v,
{
    let b = le_bytes(v);
    assert(b[0] == le_byte(v, 0));
    assert(b[1] == le_byte(v, 1));
    assert(b[2] == le_byte(v, 2));
    assert(b[3] == le_byte(v, 3));
    assert(b[4] == le_byte(v, 4));
    assert(b[5] == le_byte(v, 5));
    assert(b[6] == le_byte(v, 6));
    assert(b[7] == le_byte(v, 7));
    assert(((((v >> 0u64) & 0xff) as u8) as u64) | (((((v >> 8u64) & 0xff) as u8) as u64) << 8)
        | (((((v >> 16u64) & 0xff) as u8) as u64) << 16) | (((((v >> 24u64) & 0xff) as u8) as u64)
        << 24) | (((((v >> 32u64) & 0xff) as u8) as u64) << 32) | (((((v >> 40u64) & 0xff)
        as u8) as u64) << 40) | (((((v >> 48u64) & 0xff) as u8) as u64) << 48) | (((((v
        >> 56u64) & 0xff) as u8) as u64) << 56) == v) by (bit_vector);
}

/// Writes `v` as eight little-endian bytes at `off`, leaving every other
/// byte as it was.
fn write_entry(mem: &mut [u8], off: usize, v: u64)
    requires
        off + 8 <= old(mem)@.len(),
    ensures
        final(mem)@.len() == old(mem)@.len(),
        final(mem)@.subrange(off as int, off + 8) == le_bytes(v),
        forall|i: int|
            0 <= i < old(mem)@.len() && !(off <= i < off + 8) ==> final(mem)@[i] == old(mem)@[i],
{
    let n = mem.len();
    let mut k: usize = 0;
    while k < ENTRY_SIZE
        invariant
            n == mem@.len(),
            off + 8 <= mem@.len(),
            mem@.len() == old(mem)@.len(),
            0 <= k <= 8,
            forall|j: int| 0 <= j < k ==> #[trigger] mem@[off + j] == le_byte(v, j as nat),
            forall|i: int|
                0 <= i < old(mem)@.len() && !(off <= i < off + k) ==> mem@[i] == old(mem)@[i],
        decreases 8 - k,
    {
        let shift: u64 = 8 * (k as u64);
        mem[off + k] = (#[verifier::truncate] (((v >> shift) & 0xff) as u8));
        k = k + 1;
    }
    assert forall|j: int| 0 <= j < 8 implies mem@.subrange(off as int, off + 8)[j] == le_bytes(
        v,
    )[j] by {
        assert(mem@[off + j] == le_byte(v, j as nat));
    }
    assert(mem@.subrange(off as int, off + 8) =~= le_bytes(v));
}

/// Writes the three entries of the paging structure rooted at `base`: the
/// PML4 entry points at the PDPT, the PDPT entry at the PD, and the PD entry
/// maps a huge page at guest-physical 0. Returns the value to load into CR3.
///
/// The base must be page-aligned and the tables must fit in `mem`. Only the
/// first entry of each table is written; if the three tables were zero
/// before, every other slot of them stays zero, so the structure maps
/// nothing else.
pub fn write_page_tables(mem: &mut [u8], base: usize) -> (cr3: u64)
    requires
        valid_base(base as int, old(mem)@.len()),
    ensures
        cr3 == base as u64,
        final(mem)@.len() == old(mem)@.len(),
        holds_page_tables(final(mem)@, base as int),
        forall|i: int|
            0 <= i < old(mem)@.len() && !in_entry_slot(base as int, i) ==> final(mem)@[i] == old(mem)@[i],
{
    let n = mem.len();
    assert(n == mem@.len());
    let pml4: usize = base;
    let pdpt: usize = base + TABLE_SIZE as usize;
    let pd: usize = base + 2 * TABLE_SIZE as usize;
    let ghost m0 = mem@;
    write_entry(mem, pml4, PDE64_PRESENT | PDE64_RW | PDE64_USER | pdpt as u64);
    let ghost m1 = mem@;
    write_entry(mem, pdpt, PDE64_PRESENT | PDE64_RW | PDE64_USER | pd as u64);
    let ghost m2 = mem@;
    write_entry(mem, pd, PDE64_PRESENT | PDE64_RW | PDE64_USER | PDE64_PS | 0);
    proof {
        let m3 = mem@;
        assert(m3.subrange(pml4 as int, pml4 + 8) =~= m1.subrange(pml4 as int, pml4 + 8));
        assert(m3.subrange(pdpt as int, pdpt + 8) =~= m2.subrange(pdpt as int, pdpt + 8));
        lemma_le_round_trip(table_entry(pdpt as u64));
        lemma_le_round_trip(table_entry(pd as u64));
        lemma_le_round_trip(huge_page_entry(0));
    }
    pml4 as u64
}

/// Reads the entry stored at byte offset `off` of `mem`.
pub fn read_entry(mem: &[u8], off: usize) -> (v: u64)
    requires
        off + 8 <= mem@.len(),
    ensures
        v == entry_at(mem@, off as int),
{
    let ghost e = mem@.subrange(off as int, off + 8);
    assert(e[0] == mem@[off + 0] && e[1] == mem@[off + 1] && e[2] == mem@[off + 2] && e[3]
        == mem@[off + 3] && e[4] == mem@[off + 4] && e[5] == mem@[off + 5] && e[6] == mem@[off
        + 6] && e[7] == mem@[off + 7]);
    (mem[off] as u64) | ((mem[off + 1] as u64) << 8) | ((mem[off + 2] as u64) << 16) | ((mem[off
        + 3] as u64) << 24) | ((mem[off + 4] as u64) << 32) | ((mem[off + 5] as u64) << 40) | ((
    mem[off + 6] as u64) << 48) | ((mem[off + 7] as u64) << 56)
}

} // verus!
