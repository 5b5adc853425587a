//! The memory region and the bounds-checked byte bus over it.

use vstd::prelude::*;

verus! {

/// First address of the emulated address space that is backed by memory.
pub const MEM_BASE: u32 = 0x8000_0000;

/// Status of an access that the bus accepted, and of a step that retired its
/// instruction without a fault.
pub const RV_OK: u32 = 0;

/// Status of an access that the bus rejected.
pub const RV_BAD: u32 = 1;

/// Answer of the bus to an access outside the mapped range.
#[derive(Clone, Copy, PartialEq, Eq, Structural, Debug)]
pub struct Rejected;

/// Refusal to build a region that is too small for its initial image.
#[derive(Clone, Copy, PartialEq, Eq, Structural, Debug)]
pub struct ImageTooLarge;

/// Whether `addr` lies in `[MEM_BASE, MEM_BASE + size)`.
pub open spec fn mapped(size: nat, addr: u32) -> bool {
    MEM_BASE <= addr && addr - MEM_BASE < size
}

/// What a load at `addr` answers on a region that holds `mem`.
pub open spec fn loaded(mem: Seq<u8>, addr: u32) -> Result<u8, Rejected> {
    if mapped(mem.len(), addr) {
        Ok(mem[addr - MEM_BASE])
    } else {
        Err(Rejected)
    }
}

/// What a region that held `mem` holds after a store of `value` at `addr`.
pub open spec fn stored(mem: Seq<u8>, addr: u32, value: u8) -> Seq<u8> {
    if mapped(mem.len(), addr) {
        mem.update(addr - MEM_BASE, value)
    } else {
        mem
    }
}

/// The status that tells the engine how an access at `addr` to a region of
/// `size` bytes went.
pub open spec fn bus_status(size: nat, addr: u32) -> u32 {
    if mapped(size, addr) {
        RV_OK
    } else {
        RV_BAD
    }
}

/// Byte `k` (0 is the lowest) of the word `w`.
pub open spec fn word_byte(w: u32, k: int) -> u8 {
    if k == 0 {
        (w % 0x100) as u8
    } else if k == 1 {
        (w / 0x100 % 0x100) as u8
    } else if k == 2 {
        (w / 0x1_0000 % 0x100) as u8
    } else {
        (w / 0x100_0000) as u8
    }
}

/// Whether an image of `words` words fits a region of `size` bytes.
pub open spec fn image_fits(size: nat, words: nat) -> bool {
    4 * words <= size
}

/// A fresh region of `size` bytes: the image's words at its start, each as
/// four bytes with the lowest first, and zero after them.
pub open spec fn initial_memory(size: nat, image: Seq<u32>) -> Seq<u8> {
    Seq::new(
        size,
        |i: int|
            if i < 4 * image.len() {
                word_byte(image[i / 4], i % 4)
            } else {
                0u8
            },
    )
}

/// The emulated physical memory: a buffer of fixed size whose first byte has
/// the address `MEM_BASE`. A region is made with the CPU instance that owns
/// it and by nothing else, and is dropped with it.
pub struct Memory {
    bytes: Vec<u8>,
}

impl View for Memory {
    type V = Seq<u8>;

    closed spec fn view(&self) -> Seq<u8> {
        self.bytes@
    }
}

impl Memory {
    /// Allocates a region of `size` bytes that starts with `image`, if the
    /// image fits the region.
    pub(crate) fn new(size: usize, image: &Vec<u32>) -> (res: Result<Memory, ImageTooLarge>)
        ensures
            match res {
                Ok(mem) => image_fits(size as nat, image@.len()) && mem@ == initial_memory(
                    size as nat,
                    image@,
                ),
                Err(_) => !image_fits(size as nat, image@.len()),
            },
    {
        let n: usize = image.len();
        if n > size / 4 {
            return Err(ImageTooLarge);
        }
        let mut bytes: Vec<u8> = vec![0u8; size];
        let mut i: usize = 0;
        while i < n
            invariant
                n == image@.len(),
                4 * n <= size,
                bytes@.len() == size,
                i <= n,
                forall|j: int| 0 <= j < 4 * i ==> bytes@[j] == word_byte(image@[j / 4], j % 4),
                forall|j: int| 4 * i <= j < size ==> bytes@[j] == 0u8,
            decreases n - i,
        {
            let w: u32 = image[i];
            bytes[4 * i] = (w % 0x100) as u8;
            bytes[4 * i + 1] = (w / 0x100 % 0x100) as u8;
            bytes[4 * i + 2] = (w / 0x1_0000 % 0x100) as u8;
            bytes[4 * i + 3] = (w / 0x100_0000) as u8;
            i += 1;
        }
        assert(bytes@ =~= initial_memory(size as nat, image@));
        Ok(Memory { bytes })
    }

    /// Number of bytes in the region.
    pub fn size(&self) -> (n: usize)
        ensures
            n == self@.len(),
    {
        self.bytes.len()
    }

    /// Reads the byte at `addr`, or rejects an address outside the region.
    pub fn load(&self, addr: u32) -> (res: Result<u8, Rejected>)
        ensures
            res == loaded(self@, addr),
    {
        if addr >= MEM_BASE && ((addr - MEM_BASE) as usize) < self.bytes.len() {
            Ok(self.bytes[(addr - MEM_BASE) as usize])
        } else {
            Err(Rejected)
        }
    }

    /// Writes `value` at `addr` and nothing else, or rejects an address
    /// outside the region and leaves every byte as it was.
    pub fn store(&mut self, addr: u32, value: u8) -> (res: Result<(), Rejected>)
        ensures
            final(self)@ == stored(old(self)@, addr, value),
            res is Ok <==> mapped(old(self)@.len(), addr),
    {
        if addr >= MEM_BASE && ((addr - MEM_BASE) as usize) < self.bytes.len() {
            self.bytes[(addr - MEM_BASE) as usize] = value;
            Ok(())
        } else {
            Err(Rejected)
        }
    }
}

/// A byte stored at a mapped address is the byte that a load at that address
/// answers next.
pub proof fn lemma_store_then_load(mem: Seq<u8>, addr: u32, value: u8)
    requires
        MEM_BASE <= addr < MEM_BASE + mem.len(),
    ensures
        bus_status(mem.len(), addr) == RV_OK,
        bus_status(stored(mem, addr, value).len(), addr) == RV_OK,
        loaded(stored(mem, addr, value), addr) == Ok::<u8, Rejected>(value),
{
}

/// Below the base and from the region's end on, a load is rejected, and a
/// store is rejected and changes no byte.
pub proof fn lemma_outside_rejected(mem: Seq<u8>, addr: u32, value: u8)
    requires
        addr < MEM_BASE || addr >= MEM_BASE + mem.len(),
    ensures
        bus_status(mem.len(), addr) == RV_BAD,
        loaded(mem, addr) == Err::<u8, Rejected>(Rejected),
        stored(mem, addr, value) == mem,
{
}

} // verus!
