//! The CPU instance: architectural state and memory region under one owner,
//! the bus callbacks that the instruction engine is bound to, stepping, and
//! read-only inspection.

use crate::bus::{bus_status, image_fits, initial_memory, loaded, stored, ImageTooLarge, Memory};
pub use crate::bus::{RV_BAD, RV_OK};
use vstd::prelude::*;

verus! {

/// Step fault: instruction fetch from a misaligned address.
pub const RV_EIALIGN: u32 = 1;

/// Step fault: instruction fetch rejected by the bus.
pub const RV_EIFAULT: u32 = 2;

/// Step fault: illegal instruction.
pub const RV_EILL: u32 = 3;

/// Step fault: breakpoint.
pub const RV_EBP: u32 = 4;

/// Step fault: load from a misaligned address.
pub const RV_ELALIGN: u32 = 5;

/// Step fault: load rejected by the bus.
pub const RV_ELFAULT: u32 = 6;

/// Step fault: store to a misaligned address.
pub const RV_ESALIGN: u32 = 7;

/// Step fault: store rejected by the bus.
pub const RV_ESFAULT: u32 = 8;

/// Step fault: environment call.
pub const RV_EECALL: u32 = 9;

/// The control and status registers. Their meaning is the engine's; here they
/// are kept and handed out as they are.
#[derive(Clone, Copy, PartialEq, Eq, Structural, Debug)]
pub struct CSRS {
    pub mhartid: u32,
    pub mstatus: u32,
    pub mstatush: u32,
    pub mscratch: u32,
    pub mepc: u32,
    pub mcause: u32,
    pub mtval: u32,
    pub mip: u32,
    pub mtinst: u32,
    pub mtval2: u32,
    pub mtvec: u32,
    pub mie: u32,
}

/// The architectural state as the engine defines it at reset and leaves it
/// after each instruction.
#[derive(Clone, Copy, Debug)]
pub struct ArchState {
    pub r: [u32; 32],
    pub pc: u32,
    pub next_pc: u32,
    pub csrs: CSRS,
}

/// What a CPU instance is: its architectural state and the bytes of its
/// memory region.
pub struct Machine {
    pub state: ArchState,
    pub mem: Seq<u8>,
}

impl Machine {
    /// The instance that creation gives.
    pub open spec fn boot(size: nat, image: Seq<u32>, reset: ArchState) -> Machine {
        Machine { state: reset, mem: initial_memory(size, image) }
    }

    /// The instance after the engine stored `value` at `addr`.
    pub open spec fn store(self, addr: u32, value: u8) -> Machine {
        Machine { state: self.state, mem: stored(self.mem, addr, value) }
    }

    /// The instance after the engine retired an instruction and left `retired`.
    pub open spec fn retire(self, retired: ArchState) -> Machine {
        Machine { state: retired, mem: self.mem }
    }
}

/// Whether a step status reports a fault.
pub open spec fn is_fault(status: u32) -> bool {
    RV_EIALIGN <= status <= RV_EECALL
}

/// A CPU instance. It owns its memory region: the two are made together and
/// dropped together.
pub struct RV {
    r: [u32; 32],
    pc: u32,
    next_pc: u32,
    user: Memory,
    csrs: CSRS,
}

impl View for RV {
    type V = Machine;

    closed spec fn view(&self) -> Machine {
        Machine {
            state: ArchState { r: self.r, pc: self.pc, next_pc: self.next_pc, csrs: self.csrs },
            mem: self.user@,
        }
    }
}

/// Bus callback for a load: puts the byte at `addr` into `data`, or rejects
/// the address and leaves `data` as it was.
pub fn rv_load_cb(cpu: &RV, addr: u32, data: &mut u8) -> (status: u32)
    ensures
        status == bus_status(cpu@.mem.len(), addr),
        *final(data) == match loaded(cpu@.mem, addr) {
            Ok(byte) => byte,
            Err(_) => *old(data),
        },
{
    match cpu.user.load(addr) {
        Ok(byte) => {
            *data = byte;
            RV_OK
        },
        Err(_) => RV_BAD,
    }
}

/// Bus callback for a store: writes `data` at `addr` and nothing else, or
/// rejects the address and changes nothing.
pub fn rv_store_cb(cpu: &mut RV, addr: u32, data: u8) -> (status: u32)
    ensures
        status == bus_status(old(cpu)@.mem.len(), addr),
        final(cpu)@ == old(cpu)@.store(addr, data),
{
    match cpu.user.store(addr, data) {
        Ok(_) => RV_OK,
        Err(_) => RV_BAD,
    }
}

impl RV {
    /// Creates an instance with a memory region of `mem_size` bytes that
    /// starts with `program`, in the state `reset` that the engine defines.
    /// A program that does not fit the region is refused.
    pub fn new(mem_size: usize, program: Vec<u32>, reset: ArchState) -> (res: Result<
        RV,
        ImageTooLarge,
    >)
        ensures
            match res {
                Ok(cpu) => image_fits(mem_size as nat, program@.len()) && cpu@ == Machine::boot(
                    mem_size as nat,
                    program@,
                    reset,
                ),
                Err(_) => !image_fits(mem_size as nat, program@.len()),
            },
    {
        match Memory::new(mem_size, &program) {
            Ok(user) => Ok(
                RV { r: reset.r, pc: reset.pc, next_pc: reset.next_pc, user, csrs: reset.csrs },
            ),
            Err(e) => Err(e),
        }
    }

    /// Takes over the state that the engine left when it retired one
    /// instruction, and reports the engine's status. Memory is as the
    /// engine's stores left it.
    pub fn step(&mut self, retired: ArchState, status: u32) -> (code: u32)
        ensures
            code == status,
            final(self)@ == old(self)@.retire(retired),
    {
        self.r = retired.r;
        self.pc = retired.pc;
        self.next_pc = retired.next_pc;
        self.csrs = retired.csrs;
        status
    }

    /// A copy of the register file.
    pub fn get_r(&self) -> (r: [u32; 32])
        ensures
            r == self@.state.r,
    {
        self.r
    }

    /// The current program counter.
    pub fn get_pc(&self) -> (pc: u32)
        ensures
            pc == self@.state.pc,
    {
        self.pc
    }

    /// The address that the engine fetches from next.
    pub fn get_next_pc(&self) -> (next_pc: u32)
        ensures
            next_pc == self@.state.next_pc,
    {
        self.next_pc
    }

    /// A copy of the control and status registers.
    pub fn get_csrs(&self) -> (csrs: CSRS)
        ensures
            csrs == self@.state.csrs,
    {
        self.csrs
    }

    /// The memory region, to read.
    pub fn memory(&self) -> (mem: &Memory)
        ensures
            mem@ == self@.mem,
    {
        &self.user
    }
}

/// Creation gives the reset state that it was handed, and with it the reset
/// vector as the program counter; two instances made from the same inputs
/// are the same.
pub proof fn lemma_reset_deterministic(
    a: RV,
    b: RV,
    size: nat,
    image: Seq<u32>,
    reset: ArchState,
)
    requires
        a@ == Machine::boot(size, image, reset),
        b@ == Machine::boot(size, image, reset),
    ensures
        a@.state.pc == reset.pc,
        a@ == b@,
{
}

/// A copy of the state taken before a step is the state of that moment,
/// whatever the step retires; a copy taken after it is what the step retired.
pub proof fn lemma_snapshot_isolation(cpu: Machine, retired: ArchState)
    ensures
        cpu.retire(retired).state == retired,
        cpu.retire(retired).mem == cpu.mem,
{
}

/// A step is owed from every instance, one whose last step faulted too: the
/// step after a fault ends as it would have without the fault.
pub proof fn lemma_step_after_fault(
    cpu: Machine,
    faulted: ArchState,
    fault: u32,
    retired: ArchState,
)
    requires
        is_fault(fault),
    ensures
        cpu.retire(faulted).retire(retired) == cpu.retire(retired),
{
}

} // verus!
