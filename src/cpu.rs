use vstd::prelude::*;

use crate::addressing::{effective_address_of, operand_of};
use crate::ins::{decode, executed, Instruction, InstructionDecoder};
use crate::mem::{next_address, word_of, Addr, Memory, MAX_MEM};

verus! {

/// Address of the byte fetched first after a reset.
pub const RESET_VECTOR: u16 = 0xFFFC;

/// Where `BRK` moves the program counter.
pub const BREAK_VECTOR: u16 = 0xFFFE;

/// Stack pointer after a reset.
pub const RESET_SP: u8 = 0xFF;

/// Base of the stack page: the stack byte for pointer `sp` is `STACK_BASE + sp`.
pub const STACK_BASE: u16 = 0x0100;

/// A byte has its sign bit (bit 7) set.
pub open spec fn is_negative(v: u8) -> bool {
    v >= 0x80
}

/// Why a step could not be carried out. No state changes when one occurs.
#[derive(Clone, Copy, Debug, PartialEq, Eq, Structural)]
pub enum Fault {
    /// The byte at `pc` is no opcode of the supported instruction set.
    Decode { opcode: u8, pc: u16 },
    /// An instruction was asked to run in an addressing mode it does not have.
    UnsupportedAddressing { mode: Addr, pc: u16 },
}

/// What the controller does after a step that did not fault.
#[derive(Clone, Copy, Debug, PartialEq, Eq, Structural)]
pub enum Status {
    /// Fetching goes on with the next instruction.
    Running,
    /// A `BRK` was executed: the run is over until the next reset.
    Halted,
}

/// The accumulator and the two index registers.
#[derive(Clone, Copy, Debug, PartialEq, Eq, Structural)]
pub struct Registers {
    /// Accumulator.
    pub acc: u8,
    /// Index register X.
    pub x: u8,
    /// Index register Y.
    pub y: u8,
}

impl Registers {
    pub fn new() -> (r: Registers)
        ensures
            r == (Registers { acc: 0, x: 0, y: 0 }),
    {
        Registers { acc: 0, x: 0, y: 0 }
    }

    /// Zeroes all three registers.
    pub fn clear(&mut self)
        ensures
            *final(self) == (Registers { acc: 0, x: 0, y: 0 }),
    {
        self.acc = 0;
        self.x = 0;
        self.y = 0;
    }
}

/// The seven processor status flags.
#[derive(Clone, Copy, Debug, PartialEq, Eq, Structural)]
pub struct StatusFlags {
    /// Carry.
    pub c: bool,
    /// Zero.
    pub z: bool,
    /// Interrupt disable.
    pub i: bool,
    /// Decimal mode.
    pub d: bool,
    /// Break command.
    pub b: bool,
    /// Overflow.
    pub v: bool,
    /// Negative.
    pub n: bool,
}

/// All flags clear.
pub open spec fn cleared_flags() -> StatusFlags {
    StatusFlags { c: false, z: false, i: false, d: false, b: false, v: false, n: false }
}

/// `mask` when `flag` is set, else zero.
pub open spec fn bit_if(flag: bool, mask: u8) -> u8 {
    if flag {
        mask
    } else {
        0
    }
}

/// The status byte: bit 0 = C, 1 = Z, 2 = I, 3 = D, 4 = B, 5 unused (0), 6 = V, 7 = N.
pub open spec fn flags_byte(f: StatusFlags) -> u8 {
    bit_if(f.c, 0x01) | bit_if(f.z, 0x02) | bit_if(f.i, 0x04) | bit_if(f.d, 0x08) | bit_if(
        f.b,
        0x10,
    ) | bit_if(f.v, 0x40) | bit_if(f.n, 0x80)
}

/// The flags that a status byte holds; bit 5 is ignored.
pub open spec fn flags_of_byte(value: u8) -> StatusFlags {
    StatusFlags {
        c: value & 0x01 != 0,
        z: value & 0x02 != 0,
        i: value & 0x04 != 0,
        d: value & 0x08 != 0,
        b: value & 0x10 != 0,
        v: value & 0x40 != 0,
        n: value & 0x80 != 0,
    }
}

impl StatusFlags {
    /// The flags with Z and N describing the byte `v`: Z when it is zero, N
    /// when its bit 7 is set.
    pub open spec fn with_zn(self, v: u8) -> StatusFlags {
        StatusFlags { z: v == 0, n: is_negative(v), ..self }
    }

    /// The flags after `BIT` tests byte `v` against accumulator `acc`: Z when
    /// `acc & v` is zero, V from bit 6 of `v`, N from bit 7 of `v`.
    pub open spec fn bit_test(self, acc: u8, v: u8) -> StatusFlags {
        StatusFlags { z: acc & v == 0, v: v & 0x40 != 0, n: is_negative(v), ..self }
    }

    pub fn new() -> (f: StatusFlags)
        ensures
            f == cleared_flags(),
    {
        StatusFlags { c: false, z: false, i: false, d: false, b: false, v: false, n: false }
    }

    /// Clears all seven flags.
    pub fn clear(&mut self)
        ensures
            *final(self) == cleared_flags(),
    {
        *self = StatusFlags::new();
    }

    /// Sets Z and N from the byte `v`, leaving the other flags alone.
    pub fn set_zn(&mut self, v: u8)
        ensures
            *final(self) == old(self).with_zn(v),
    {
        self.z = v == 0;
        let n = v & 0x80 != 0;
        assert(n == (v >= 0x80)) by (bit_vector)
            requires
                n == (v & 0x80 != 0),
        ;
        self.n = n;
    }

    /// Packs the flags into the status byte (bit 5 is written as 0).
    pub fn to_byte(&self) -> (r: u8)
        ensures
            r == flags_byte(*self),
    {
        let c: u8 = if self.c { 0x01 } else { 0 };
        let z: u8 = if self.z { 0x02 } else { 0 };
        let i: u8 = if self.i { 0x04 } else { 0 };
        let d: u8 = if self.d { 0x08 } else { 0 };
        let b: u8 = if self.b { 0x10 } else { 0 };
        let v: u8 = if self.v { 0x40 } else { 0 };
        let n: u8 = if self.n { 0x80 } else { 0 };
        c | z | i | d | b | v | n
    }

    /// Unpacks a status byte; bit 5 is ignored.
    pub fn from_byte(value: u8) -> (r: StatusFlags)
        ensures
            r == flags_of_byte(value),
    {
        StatusFlags {
            c: value & 0x01 != 0,
            z: value & 0x02 != 0,
            i: value & 0x04 != 0,
            d: value & 0x08 != 0,
            b: value & 0x10 != 0,
            v: value & 0x40 != 0,
            n: value & 0x80 != 0,
        }
    }
}

impl From<u8> for StatusFlags {
    fn from(value: u8) -> (r: StatusFlags) {
        StatusFlags::from_byte(value)
    }
}

impl vstd::std_specs::convert::FromSpecImpl<u8> for StatusFlags {
    open spec fn obeys_from_spec() -> bool {
        true
    }

    open spec fn from_spec(v: u8) -> StatusFlags {
        flags_of_byte(v)
    }
}

impl From<StatusFlags> for u8 {
    fn from(flags: StatusFlags) -> (r: u8) {
        flags.to_byte()
    }
}

impl vstd::std_specs::convert::FromSpecImpl<StatusFlags> for u8 {
    open spec fn obeys_from_spec() -> bool {
        true
    }

    open spec fn from_spec(flags: StatusFlags) -> u8 {
        flags_byte(flags)
    }
}

/// Packing flags into the status byte and unpacking it gives the same flags.
pub proof fn lemma_flags_round_trip(f: StatusFlags)
    ensures
        flags_of_byte(flags_byte(f)) == f,
{
    let (c, z, i, d, b, v, n) = (f.c, f.z, f.i, f.d, f.b, f.v, f.n);
    let x = flags_byte(f);
    assert({
        &&& (x & 0x01 != 0 <==> c)
        &&& (x & 0x02 != 0 <==> z)
        &&& (x & 0x04 != 0 <==> i)
        &&& (x & 0x08 != 0 <==> d)
        &&& (x & 0x10 != 0 <==> b)
        &&& (x & 0x40 != 0 <==> v)
        &&& (x & 0x80 != 0 <==> n)
    }) by (bit_vector)
        requires
            x == bit_if(c, 0x01) | bit_if(z, 0x02) | bit_if(i, 0x04) | bit_if(d, 0x08) | bit_if(
                b,
                0x10,
            ) | bit_if(v, 0x40) | bit_if(n, 0x80),
    ;
}

/// Unpacking a status byte and packing it again keeps every defined bit and
/// clears the unused bit 5.
pub proof fn lemma_byte_round_trip(value: u8)
    ensures
        flags_byte(flags_of_byte(value)) == value & 0xDF,
{
    assert(bit_if(value & 0x01 != 0, 0x01) | bit_if(value & 0x02 != 0, 0x02) | bit_if(
        value & 0x04 != 0,
        0x04,
    ) | bit_if(value & 0x08 != 0, 0x08) | bit_if(value & 0x10 != 0, 0x10) | bit_if(
        value & 0x40 != 0,
        0x40,
    ) | bit_if(value & 0x80 != 0, 0x80) == value & 0xDF) by (bit_vector);
}

/// The state of the processor as a mathematical value.
pub struct CpuState {
    pub pc: u16,
    pub sp: u8,
    pub cycles: u32,
    /// The address space: 65,536 bytes.
    pub mem: Seq<u8>,
    pub reg: Registers,
    pub flags: StatusFlags,
}

/// The stack address for stack pointer `sp`.
pub open spec fn stack_addr(sp: u8) -> u16 {
    (STACK_BASE + sp) as u16
}

impl CpuState {
    /// The memory covers the whole address space.
    pub open spec fn wf(self) -> bool {
        self.mem.len() == MAX_MEM
    }

    /// The byte at `a`.
    pub open spec fn byte(self, a: u16) -> u8 {
        self.mem[a as int]
    }

    /// The little-endian word at `a`.
    pub open spec fn word(self, a: u16) -> u16 {
        word_of(self.mem, a)
    }

    /// The state with `v` stored at `a`.
    pub open spec fn store(self, a: u16, v: u8) -> CpuState {
        CpuState { mem: self.mem.update(a as int, v), ..self }
    }

    /// The state with the program counter moved on by `n` bytes (wrapping).
    pub open spec fn advance(self, n: u16) -> CpuState {
        CpuState { pc: ((self.pc + n) % 0x10000) as u16, ..self }
    }

    /// The state with the accumulator replaced.
    pub open spec fn set_acc(self, v: u8) -> CpuState {
        CpuState { reg: Registers { acc: v, ..self.reg }, ..self }
    }

    /// The state with X replaced.
    pub open spec fn set_x(self, v: u8) -> CpuState {
        CpuState { reg: Registers { x: v, ..self.reg }, ..self }
    }

    /// The state with Y replaced.
    pub open spec fn set_y(self, v: u8) -> CpuState {
        CpuState { reg: Registers { y: v, ..self.reg }, ..self }
    }

    /// The state with Z and N set from `v`.
    pub open spec fn set_zn(self, v: u8) -> CpuState {
        CpuState { flags: self.flags.with_zn(v), ..self }
    }

    /// The state after pushing `v`: written at the stack address of SP, then
    /// SP decremented (wrapping).
    pub open spec fn push(self, v: u8) -> CpuState {
        CpuState {
            mem: self.mem.update(stack_addr(self.sp) as int, v),
            sp: ((self.sp + 255) % 256) as u8,
            ..self
        }
    }

    /// SP after a pull: incremented, wrapping.
    pub open spec fn pulled_sp(self) -> u8 {
        ((self.sp + 1) % 256) as u8
    }

    /// The byte that a pull reads: the one at the incremented SP.
    pub open spec fn pulled(self) -> u8 {
        self.byte(stack_addr(self.pulled_sp()))
    }

    /// The state after a pull (the byte read is `pulled()`).
    pub open spec fn pull(self) -> CpuState {
        CpuState { sp: self.pulled_sp(), ..self }
    }

    /// The state that a reset leaves: registers and flags clear, SP at
    /// `0xFF`, PC at the reset vector, memory zero-filled.
    pub open spec fn reset_state() -> CpuState {
        CpuState {
            pc: RESET_VECTOR,
            sp: RESET_SP,
            cycles: 0,
            mem: Seq::new(MAX_MEM as nat, |_i: int| 0u8),
            reg: Registers { acc: 0, x: 0, y: 0 },
            flags: cleared_flags(),
        }
    }
}

/// One fetch-decode-execute cycle from `s`: the state after it and what the
/// controller does next. A fault leaves the state unchanged.
pub open spec fn step_spec(s: CpuState) -> (CpuState, Result<Status, Fault>) {
    let opcode = s.byte(s.pc);
    match decode(opcode) {
        None => (s, Err(Fault::Decode { opcode, pc: s.pc })),
        Some(ins) => match ins.effect(s) {
            Some(t) => (t, Ok(if ins is BRK { Status::Halted } else { Status::Running })),
            None => (s, Err(Fault::UnsupportedAddressing { mode: ins.mode(), pc: s.pc })),
        },
    }
}

/// Up to `n` cycles from `s`, stopping early at a halt or a fault.
pub open spec fn run_spec(s: CpuState, n: nat) -> (CpuState, Result<Status, Fault>)
    decreases n,
{
    if n == 0 {
        (s, Ok(Status::Running))
    } else {
        let (t, r) = step_spec(s);
        if r == Ok::<Status, Fault>(Status::Running) {
            run_spec(t, (n - 1) as nat)
        } else {
            (t, r)
        }
    }
}

/// The outcome of a run is fixed by the starting state and the step budget:
/// two runs from equal states end in equal states with equal results.
pub proof fn lemma_run_deterministic(a: CpuState, b: CpuState, n: nat)
    requires
        a == b,
    ensures
        run_spec(a, n) == run_spec(b, n),
{
}

/// `base + index` within page zero (wrapping at 8 bits).
fn zero_page_indexed(base: u8, index: u8) -> (r: u16)
    ensures
        r == ((base + index) % 0x100) as u16,
{
    base.wrapping_add(index) as u16
}

/// `base + index` over the whole address space (wrapping at 16 bits).
fn absolute_indexed(base: u16, index: u8) -> (r: u16)
    ensures
        r == ((base + index) % 0x10000) as u16,
{
    base.wrapping_add(index as u16)
}

/// The processor: registers, flags, program counter, stack pointer, and the
/// memory it owns.
#[derive(Clone)]
pub struct CPU {
    /// Program counter: the address of the next byte to fetch.
    pub pc: u16,
    /// Stack pointer, an offset into the stack page at `0x0100`.
    pub sp: u8,
    /// Cycle count; a reset clears it.
    pub cycles: u32,
    /// The address space.
    pub mem: Memory,
    /// Accumulator, X and Y.
    pub reg: Registers,
    /// Status flags.
    pub flags: StatusFlags,
}

impl View for CPU {
    type V = CpuState;

    open spec fn view(&self) -> CpuState {
        CpuState {
            pc: self.pc,
            sp: self.sp,
            cycles: self.cycles,
            mem: self.mem@,
            reg: self.reg,
            flags: self.flags,
        }
    }
}

impl CPU {
    /// A processor in the reset state.
    pub fn new() -> (cpu: CPU)
        ensures
            cpu@ == CpuState::reset_state(),
    {
        CPU {
            pc: RESET_VECTOR,
            sp: RESET_SP,
            cycles: 0,
            mem: Memory::new(),
            reg: Registers::new(),
            flags: StatusFlags::new(),
        }
    }

    /// Zeroes registers and flags, sets SP to `0xFF` and PC to the reset
    /// vector, and zero-fills memory.
    pub fn reset(&mut self)
        ensures
            final(self)@ == CpuState::reset_state(),
    {
        self.pc = RESET_VECTOR;
        self.sp = RESET_SP;
        self.cycles = 0;
        self.reg.clear();
        self.flags.clear();
        self.mem.init();
    }

    /// The view of a processor always covers the whole address space.
    pub proof fn lemma_wf(&self)
        ensures
            self@.wf(),
    {
        self.mem.lemma_len();
    }

    /// Executes one fetch-decode-execute cycle. `Ok(Status::Halted)` after a
    /// `BRK`; on a fault nothing changes.
    pub fn start(&mut self) -> (r: Result<Status, Fault>)
        ensures
            (final(self)@, r) == step_spec(old(self)@),
    {
        let opcode = self.fetch();
        match InstructionDecoder::from_byte(opcode) {
            None => Err(Fault::Decode { opcode, pc: self.pc }),
            Some(ins) => {
                let r = ins.execute(self);
                proof {
                    reveal(executed);
                }
                match r {
                    Ok(()) => {
                        if let Instruction::BRK(_) = ins {
                            Ok(Status::Halted)
                        } else {
                            Ok(Status::Running)
                        }
                    },
                    Err(e) => Err(e),
                }
            },
        }
    }

    /// Steps until a `BRK` halts the processor, a fault occurs, or
    /// `max_steps` cycles have run (then `Ok(Status::Running)`).
    pub fn run(&mut self, max_steps: u64) -> (r: Result<Status, Fault>)
        ensures
            (final(self)@, r) == run_spec(old(self)@, max_steps as nat),
    {
        let mut n = max_steps;
        while n > 0
            invariant
                run_spec(old(self)@, max_steps as nat) == run_spec(self@, n as nat),
            decreases n,
        {
            let r = self.start();
            match r {
                Ok(Status::Running) => {
                    n = n - 1;
                },
                _ => {
                    return r;
                },
            }
        }
        Ok(Status::Running)
    }

    /// The opcode byte at the program counter.
    pub fn fetch(&mut self) -> (r: u8)
        ensures
            r == old(self)@.byte(old(self).pc),
            *final(self) == *old(self),
    {
        self.read_byte(self.pc)
    }

    /// The byte at `address`.
    pub fn read_byte(&self, address: u16) -> (r: u8)
        ensures
            r == self@.byte(address),
    {
        self.mem.read_byte(address)
    }

    /// The little-endian word at `address` (wrapping at the top of memory).
    pub fn read_word(&self, address: u16) -> (r: u16)
        ensures
            r == self@.word(address),
    {
        self.mem.read_word(address)
    }

    /// Stores `data` at `address`.
    pub fn write_byte(&mut self, address: u16, data: u8)
        ensures
            final(self)@ == old(self)@.store(address, data),
    {
        self.mem.write_byte(address, data);
    }

    /// Stores `data` little-endian at `address` and the next address.
    pub fn write_word(&mut self, address: u16, data: u16)
        ensures
            final(self)@ == old(self)@.store(address, (data % 256) as u8).store(
                next_address(address),
                (data / 256) as u8,
            ),
    {
        self.mem.write_word(address, data);
    }

    /// The address in the stack page that stack pointer `addr` designates.
    pub fn stack_address(addr: u8) -> (r: u16)
        ensures
            r == stack_addr(addr),
            r == 0x0100 + addr,
    {
        STACK_BASE + addr as u16
    }

    /// Pushes `v`: writes it at the stack address, then decrements SP.
    pub fn push(&mut self, v: u8)
        ensures
            final(self)@ == old(self)@.push(v),
    {
        self.write_byte(CPU::stack_address(self.sp), v);
        self.sp = self.sp.wrapping_sub(1);
    }

    /// Pulls a byte: increments SP, then reads at the stack address.
    pub fn pull(&mut self) -> (r: u8)
        ensures
            r == old(self)@.pulled(),
            final(self)@ == old(self)@.pull(),
    {
        self.sp = self.sp.wrapping_add(1);
        self.read_byte(CPU::stack_address(self.sp))
    }

    /// Moves the program counter on by `n` bytes, wrapping at 16 bits.
    pub fn advance(&mut self, n: u16)
        ensures
            final(self)@ == old(self)@.advance(n),
    {
        self.pc = self.pc.wrapping_add(n);
    }

    /// The effective address of the operand in `mode`, for the instruction at PC.
    pub fn effective_address(&self, mode: Addr) -> (r: Option<u16>)
        ensures
            r == effective_address_of(mode, self@),
    {
        let at = self.pc.wrapping_add(1);
        match mode {
            Addr::ZeroPage => Some(self.read_byte(at) as u16),
            Addr::ZeroPageX => Some(zero_page_indexed(self.read_byte(at), self.reg.x)),
            Addr::ZeroPageY => Some(zero_page_indexed(self.read_byte(at), self.reg.y)),
            Addr::Absolute => Some(self.read_word(at)),
            Addr::AbsoluteX => Some(absolute_indexed(self.read_word(at), self.reg.x)),
            Addr::AbsoluteY => Some(absolute_indexed(self.read_word(at), self.reg.y)),
            Addr::XIndirect => {
                let ptr = zero_page_indexed(self.read_byte(at), self.reg.x);
                Some(self.read_word(ptr))
            },
            Addr::IndirectY => {
                let ptr = self.read_byte(at) as u16;
                Some(absolute_indexed(self.read_word(ptr), self.reg.y))
            },
            _ => None,
        }
    }

    /// The operand byte in `mode`: the byte after the opcode for
    /// `Immediate`, else the byte at the effective address.
    pub fn operand(&self, mode: Addr) -> (r: Option<u8>)
        ensures
            r == operand_of(mode, self@),
    {
        match mode {
            Addr::Immediate => Some(self.read_byte(self.pc.wrapping_add(1))),
            _ => match self.effective_address(mode) {
                Some(a) => Some(self.read_byte(a)),
                None => None,
            },
        }
    }
}

} // verus!
