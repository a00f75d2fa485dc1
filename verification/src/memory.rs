//! The 16-bit address space: 8 KiB of program memory, 1 KiB of work RAM,
//! 7 KiB of video RAM, and a mirror of the work RAM above them.
//!
//! The three stores are modelled as one sequence of `CELL_COUNT` cells, laid
//! out in address order. Every address resolves to exactly one cell
//! (`cell_of`); two addresses alias exactly when they resolve to the same cell.

use vstd::prelude::*;

verus! {

/// Bytes of program memory, at addresses `0x0000..=0x1FFF`.
pub const PROGRAM_SIZE: usize = 0x2000;

/// Bytes of work RAM, at addresses `0x2000..=0x23FF`.
pub const WORK_SIZE: usize = 0x400;

/// Bytes of video RAM, at addresses `0x2400..=0x3FFF`.
pub const VIDEO_SIZE: usize = 0x1C00;

/// First address of the work RAM.
pub const WORK_BASE: u16 = 0x2000;

/// First address of the video RAM.
pub const VIDEO_BASE: u16 = 0x2400;

/// First address of the mirror of the work RAM.
pub const MIRROR_BASE: u16 = 0x4000;

/// Number of distinct cells behind the 65536 addresses.
pub const CELL_COUNT: usize = 0x4000;

/// The four views that an address can fall into.
#[derive(Clone, Copy, Debug, PartialEq, Eq, Structural)]
pub enum Region {
    /// Program memory; writable only while an image is loaded.
    Program,
    /// Work RAM.
    Work,
    /// Video RAM, one bit per pixel.
    Video,
    /// Work RAM again, repeating every `WORK_SIZE` addresses.
    Mirror,
}

/// The region that `addr` belongs to.
pub open spec fn region_of(addr: u16) -> Region {
    if addr < WORK_BASE {
        Region::Program
    } else if addr < VIDEO_BASE {
        Region::Work
    } else if addr < MIRROR_BASE {
        Region::Video
    } else {
        Region::Mirror
    }
}

/// The cell that `addr` resolves to. Below the mirror an address is its own
/// cell; in the mirror it wraps onto the cells of the work RAM.
pub open spec fn cell_of(addr: u16) -> int {
    if addr < MIRROR_BASE {
        addr as int
    } else {
        WORK_BASE + (addr - MIRROR_BASE) % (WORK_SIZE as int)
    }
}

/// Whether running code may write to `addr`: everywhere but in program memory.
pub open spec fn writable(addr: u16) -> bool {
    region_of(addr) != Region::Program
}

/// The byte that a read of `addr` returns.
pub open spec fn read(cells: Seq<u8>, addr: u16) -> u8 {
    cells[cell_of(addr)]
}

/// The cells after `value` was placed at `addr`, whatever the region.
pub open spec fn store(cells: Seq<u8>, addr: u16, value: u8) -> Seq<u8> {
    cells.update(cell_of(addr), value)
}

/// The cells after running code wrote `value` to `addr`: a write to program
/// memory is dropped.
pub open spec fn write(cells: Seq<u8>, addr: u16, value: u8) -> Seq<u8> {
    if writable(addr) {
        store(cells, addr, value)
    } else {
        cells
    }
}

/// The cells after `bytes` were placed at `base`, `base + 1`, ... in that
/// order, each as by `store`.
pub open spec fn load(cells: Seq<u8>, base: u16, bytes: Seq<u8>) -> Seq<u8>
    decreases bytes.len(),
{
    if bytes.len() == 0 {
        cells
    } else {
        store(
            load(cells, base, bytes.drop_last()),
            (base + bytes.len() - 1) as u16,
            bytes.last(),
        )
    }
}

/// The little-endian word at `addr` and `addr + 1`.
pub open spec fn read_word(cells: Seq<u8>, addr: u16) -> int {
    read(cells, addr) + 256 * read(cells, (addr + 1) as u16)
}

/// The cells after running code wrote `word` to `addr` and `addr + 1`, high
/// byte first.
pub open spec fn write_word(cells: Seq<u8>, addr: u16, word: u16) -> Seq<u8> {
    write(write(cells, (addr + 1) as u16, (word / 256) as u8), addr, (word % 256) as u8)
}

/// The region that `addr` belongs to.
pub fn region(addr: u16) -> (r: Region)
    ensures
        r == region_of(addr),
{
    if addr < WORK_BASE {
        Region::Program
    } else if addr < VIDEO_BASE {
        Region::Work
    } else if addr < MIRROR_BASE {
        Region::Video
    } else {
        Region::Mirror
    }
}

/// The three backing stores of the machine.
pub struct AddressSpace {
    rom: [u8; 0x2000],
    ram: [u8; 0x400],
    vram: [u8; 0x1C00],
}

impl View for AddressSpace {
    type V = Seq<u8>;

    /// All cells in address order: program memory, work RAM, video RAM.
    closed spec fn view(&self) -> Seq<u8> {
        self.rom@ + self.ram@ + self.vram@
    }
}

impl AddressSpace {
    /// There are always `CELL_COUNT` cells.
    pub proof fn lemma_cell_count(&self)
        ensures
            self@.len() == CELL_COUNT,
    {
    }

    /// An address space with every cell zero.
    pub fn new() -> (space: Self)
        ensures
            space@ == Seq::new(CELL_COUNT as nat, |i: int| 0u8),
    {
        let space = AddressSpace { rom: [0u8; 0x2000], ram: [0u8; 0x400], vram: [0u8; 0x1C00] };
        assert(space@ =~= Seq::new(CELL_COUNT as nat, |i: int| 0u8));
        space
    }

    /// Reads the byte at `addr`. Total over the 16-bit range and free of
    /// effects.
    pub fn read_byte(&self, addr: u16) -> (value: u8)
        ensures
            value == read(self@, addr),
    {
        match region(addr) {
            Region::Program => self.rom[addr as usize],
            Region::Work => self.ram[(addr - WORK_BASE) as usize],
            Region::Video => self.vram[(addr - VIDEO_BASE) as usize],
            Region::Mirror => self.ram[((addr - MIRROR_BASE) % 0x400) as usize],
        }
    }

    /// Places `value` at `addr` in any region, program memory included.
    pub fn store_byte(&mut self, addr: u16, value: u8)
        ensures
            final(self)@ == store(old(self)@, addr, value),
    {
        match region(addr) {
            Region::Program => {
                self.rom[addr as usize] = value;
            },
            Region::Work => {
                self.ram[(addr - WORK_BASE) as usize] = value;
            },
            Region::Video => {
                self.vram[(addr - VIDEO_BASE) as usize] = value;
            },
            Region::Mirror => {
                self.ram[((addr - MIRROR_BASE) % 0x400) as usize] = value;
            },
        }
        assert(self@ =~= store(old(self)@, addr, value));
    }

    /// Writes `value` to `addr` as running code does: a write to program
    /// memory is dropped without an error.
    pub fn write_byte(&mut self, addr: u16, value: u8)
        ensures
            final(self)@ == write(old(self)@, addr, value),
    {
        if addr >= WORK_BASE {
            self.store_byte(addr, value);
        }
    }

    /// Installs an image: places `bytes` at `base`, `base + 1`, ..., in any
    /// region, program memory included. Every byte must have a 16-bit address.
    pub fn load_image(&mut self, base: u16, bytes: &[u8])
        requires
            base + bytes@.len() <= 0x1_0000,
        ensures
            final(self)@ == load(old(self)@, base, bytes@),
    {
        let ghost before = self@;
        let mut i: usize = 0;
        while i < bytes.len()
            invariant
                i <= bytes@.len(),
                base + bytes@.len() <= 0x1_0000,
                self@ == load(before, base, bytes@.take(i as int)),
            decreases bytes@.len() - i,
        {
            self.store_byte((base as usize + i) as u16, bytes[i]);
            proof {
                assert(bytes@.take(i + 1).drop_last() =~= bytes@.take(i as int));
            }
            i += 1;
        }
        proof {
            assert(bytes@.take(i as int) =~= bytes@);
        }
    }

    /// Reads the little-endian word at `addr` and `addr + 1`.
    pub fn read_word(&self, addr: u16) -> (word: u16)
        requires
            addr < 0xFFFF,
        ensures
            word == read_word(self@, addr),
    {
        let low: u8 = self.read_byte(addr);
        let high: u8 = self.read_byte(addr + 1);
        proof {
            assert(((high as u16) << 8) | (low as u16) == low + 256 * high) by (bit_vector);
        }
        ((high as u16) << 8) | (low as u16)
    }

    /// Writes `word` to `addr` and `addr + 1` as running code does, low byte
    /// at `addr`.
    pub fn write_word(&mut self, addr: u16, word: u16)
        requires
            addr < 0xFFFF,
        ensures
            final(self)@ == write_word(old(self)@, addr, word),
    {
        proof {
            assert((word >> 8) as u8 == (word / 256) as u8) by (bit_vector);
            assert((word & 0xFF) as u8 == (word % 256) as u8) by (bit_vector);
        }
        self.write_byte(addr + 1, (word >> 8) as u8);
        self.write_byte(addr, (word & 0xFF) as u8);
    }
}

/// Every address resolves to one cell, and that cell lies in the store of the
/// address's region: the mapping is total.
pub proof fn lemma_cell_of_region(addr: u16)
    ensures
        0 <= cell_of(addr) < CELL_COUNT,
        region_of(addr) == Region::Program <==> cell_of(addr) < WORK_BASE,
        region_of(addr) == Region::Video <==> cell_of(addr) >= VIDEO_BASE,
        region_of(addr) == Region::Work ==> cell_of(addr) == addr,
        region_of(addr) == Region::Mirror ==> WORK_BASE <= cell_of(addr) < VIDEO_BASE,
{
}

/// After a store, a read returns the stored byte at every address that
/// resolves to the cell stored to, and the earlier byte at every other.
pub proof fn lemma_read_after_store(cells: Seq<u8>, addr: u16, value: u8, other: u16)
    requires
        cells.len() == CELL_COUNT,
    ensures
        read(store(cells, addr, value), other) == if cell_of(other) == cell_of(addr) {
            value
        } else {
            read(cells, other)
        },
{
}

/// A byte that running code writes outside program memory is read back from
/// the same address. A write to program memory changes nothing. A store is
/// read back from every address, program memory included.
pub proof fn lemma_write_then_read(cells: Seq<u8>, addr: u16, value: u8)
    requires
        cells.len() == CELL_COUNT,
    ensures
        writable(addr) ==> read(write(cells, addr, value), addr) == value,
        !writable(addr) ==> write(cells, addr, value) == cells,
        read(store(cells, addr, value), addr) == value,
{
}

/// The mirror aliases the work RAM: the address `MIRROR_BASE + k` and the
/// address `WORK_BASE + k % WORK_SIZE` resolve to one cell, so a byte written
/// through either is read back through the other.
pub proof fn lemma_mirror_aliases_work(cells: Seq<u8>, k: nat, value: u8)
    requires
        cells.len() == CELL_COUNT,
        MIRROR_BASE + k <= 0xFFFF,
    ensures
        cell_of((MIRROR_BASE + k) as u16) == cell_of((WORK_BASE + k % (WORK_SIZE as nat)) as u16),
        read(
            write(cells, (MIRROR_BASE + k) as u16, value),
            (WORK_BASE + k % (WORK_SIZE as nat)) as u16,
        ) == value,
        read(
            write(cells, (WORK_BASE + k % (WORK_SIZE as nat)) as u16, value),
            (MIRROR_BASE + k) as u16,
        ) == value,
{
}

/// A word written by running code outside program memory is read back from
/// the same address.
pub proof fn lemma_write_word_then_read_word(cells: Seq<u8>, addr: u16, word: u16)
    requires
        cells.len() == CELL_COUNT,
        addr < 0xFFFF,
        writable(addr),
    ensures
        read_word(write_word(cells, addr, word), addr) == word,
{
}

/// A word is written one byte at a time, the high byte first. A reader that
/// comes between the two byte writes finds at every address either the byte
/// from before the word write or the byte from after it: it may see one half
/// of the new word beside one half of the old, but never a byte that was not
/// written.
pub proof fn lemma_word_write_in_two_steps(cells: Seq<u8>, addr: u16, word: u16, other: u16)
    requires
        cells.len() == CELL_COUNT,
        addr < 0xFFFF,
    ensures
        ({
            let halfway = write(cells, (addr + 1) as u16, (word / 256) as u8);
            let done = write(halfway, addr, (word % 256) as u8);
            &&& done == write_word(cells, addr, word)
            &&& read(halfway, other) == read(cells, other) || read(halfway, other) == read(
                done,
                other,
            )
        }),
{
}

/// Loading an image keeps the number of cells.
pub proof fn lemma_load_len(cells: Seq<u8>, base: u16, bytes: Seq<u8>)
    requires
        cells.len() == CELL_COUNT,
        base + bytes.len() <= 0x1_0000,
    ensures
        load(cells, base, bytes).len() == CELL_COUNT,
    decreases bytes.len(),
{
    if bytes.len() > 0 {
        lemma_load_len(cells, base, bytes.drop_last());
    }
}

/// Loading an image leaves alone every cell that none of its addresses
/// resolves to.
pub proof fn lemma_load_elsewhere(cells: Seq<u8>, base: u16, bytes: Seq<u8>, cell: int)
    requires
        cells.len() == CELL_COUNT,
        base + bytes.len() <= 0x1_0000,
        0 <= cell < CELL_COUNT,
        forall|addr: u16| base <= addr < base + bytes.len() ==> cell_of(addr) != cell,
    ensures
        load(cells, base, bytes)[cell] == cells[cell],
    decreases bytes.len(),
{
    if bytes.len() > 0 {
        let front = bytes.drop_last();
        lemma_load_len(cells, base, front);
        lemma_load_elsewhere(cells, base, front, cell);
        assert(cell_of((base + bytes.len() - 1) as u16) != cell);
    }
}

/// After an image is loaded, a read of one of its addresses returns the byte
/// that the image holds for it, unless a later byte of the image went to the
/// same cell.
pub proof fn lemma_load_then_read(cells: Seq<u8>, base: u16, bytes: Seq<u8>, addr: u16)
    requires
        cells.len() == CELL_COUNT,
        base + bytes.len() <= 0x1_0000,
        base <= addr < base + bytes.len(),
        forall|later: u16| addr < later < base + bytes.len() ==> cell_of(later) != cell_of(addr),
    ensures
        read(load(cells, base, bytes), addr) == bytes[addr - base],
    decreases bytes.len(),
{
    let front = bytes.drop_last();
    lemma_load_len(cells, base, front);
    if addr < base + bytes.len() - 1 {
        lemma_load_then_read(cells, base, front, addr);
        assert(cell_of((base + bytes.len() - 1) as u16) != cell_of(addr));
    }
}

/// An image that ends below the mirror replaces exactly the cells at its own
/// addresses.
pub proof fn lemma_load_below_mirror(cells: Seq<u8>, base: u16, bytes: Seq<u8>)
    requires
        cells.len() == CELL_COUNT,
        base + bytes.len() <= MIRROR_BASE,
    ensures
        load(cells, base, bytes) == cells.subrange(0, base as int) + bytes + cells.subrange(
            base + bytes.len(),
            CELL_COUNT as int,
        ),
    decreases bytes.len(),
{
    let spliced = cells.subrange(0, base as int) + bytes + cells.subrange(
        base + bytes.len(),
        CELL_COUNT as int,
    );
    if bytes.len() == 0 {
        assert(spliced =~= cells);
    } else {
        lemma_load_below_mirror(cells, base, bytes.drop_last());
        assert(load(cells, base, bytes) =~= spliced);
    }
}

/// Four blocks of 2048 bytes loaded at `0x0000`, `0x0800`, `0x1000` and
/// `0x1800` fill program memory exactly, in that order, and touch nothing
/// else: every address of program memory then reads the byte of the
/// concatenated blocks at its own offset.
pub proof fn lemma_four_blocks_fill_program(
    cells: Seq<u8>,
    first: Seq<u8>,
    second: Seq<u8>,
    third: Seq<u8>,
    fourth: Seq<u8>,
)
    requires
        cells.len() == CELL_COUNT,
        first.len() == 0x800,
        second.len() == 0x800,
        third.len() == 0x800,
        fourth.len() == 0x800,
    ensures
        ({
            let loaded = load(
                load(load(load(cells, 0x0000, first), 0x0800, second), 0x1000, third),
                0x1800,
                fourth,
            );
            let image = first + second + third + fourth;
            &&& loaded == image + cells.subrange(PROGRAM_SIZE as int, CELL_COUNT as int)
            &&& forall|addr: u16| addr < PROGRAM_SIZE ==> read(loaded, addr) == image[addr as int]
        }),
{
    let one = load(cells, 0x0000, first);
    let two = load(one, 0x0800, second);
    let three = load(two, 0x1000, third);
    let loaded = load(three, 0x1800, fourth);
    lemma_load_below_mirror(cells, 0x0000, first);
    lemma_load_below_mirror(one, 0x0800, second);
    lemma_load_below_mirror(two, 0x1000, third);
    lemma_load_below_mirror(three, 0x1800, fourth);
    let image = first + second + third + fourth;
    assert(loaded =~= image + cells.subrange(PROGRAM_SIZE as int, CELL_COUNT as int));
}

} // verus!
