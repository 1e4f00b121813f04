use vstd::prelude::*;

use crate::addressing::{effective_address_of, instruction_len, instruction_length, operand_of};
use crate::cpu::{is_negative, step_spec, CPU, CpuState, Fault, Status};
use crate::ins::executed;
use crate::mem::{next_address, Addr};

verus! {

/// Load Accumulator: loads a byte into the accumulator and sets Z and N from it.
#[derive(Clone, Copy, Debug, PartialEq, Eq, Structural)]
pub struct LDA(pub Addr);

impl LDA {
    /// The opcode of this instruction in its addressing mode, or `None` for
    /// a mode it does not have.
    pub open spec fn spec_code(self) -> Option<u8> {
        match self.0 {
            Addr::Immediate => Some(0xA9),
            Addr::ZeroPage => Some(0xA5),
            Addr::ZeroPageX => Some(0xB5),
            Addr::Absolute => Some(0xAD),
            Addr::AbsoluteX => Some(0xBD),
            Addr::AbsoluteY => Some(0xB9),
            Addr::XIndirect => Some(0xA1),
            Addr::IndirectY => Some(0xB1),
            _ => None,
        }
    }

    /// The state after executing this instruction from `s`, or `None` for an
    /// unsupported addressing mode.
    #[verifier::opaque]
    pub open spec fn effect(self, s: CpuState) -> Option<CpuState> {
        if self.spec_code() is Some {
            let v = operand_of(self.0, s)->0;
            Some(s.set_acc(v).set_zn(v).advance(instruction_len(self.0)))
        } else {
            None
        }
    }

    /// The opcode, or `None` where the mode is unsupported.
    pub fn opcode(&self) -> (r: Option<u8>)
        ensures
            r == self.spec_code(),
    {
        match self.0 {
            Addr::Immediate => Some(0xA9),
            Addr::ZeroPage => Some(0xA5),
            Addr::ZeroPageX => Some(0xB5),
            Addr::Absolute => Some(0xAD),
            Addr::AbsoluteX => Some(0xBD),
            Addr::AbsoluteY => Some(0xB9),
            Addr::XIndirect => Some(0xA1),
            Addr::IndirectY => Some(0xB1),
            _ => None,
        }
    }

    /// The opcode of this instruction in its addressing mode.
    pub fn code(&self) -> (r: u8)
        requires
            self.spec_code() is Some,
        ensures
            Some(r) == self.spec_code(),
    {
        self.opcode().unwrap()
    }

    /// Executes the instruction at `cpu.pc` (whose operand bytes follow it).
    pub fn execute(&self, cpu: &mut CPU) -> (r: Result<(), Fault>)
        ensures
            executed(self.effect(old(cpu)@), self.0, old(cpu)@, final(cpu)@, r),
    {
        reveal(executed);
        reveal(LDA::effect);
        if self.opcode().is_none() {
            return Err(Fault::UnsupportedAddressing { mode: self.0, pc: cpu.pc });
        }
        match cpu.operand(self.0) {
            Some(v) => {
                cpu.reg.acc = v;
                cpu.flags.set_zn(v);
                cpu.advance(instruction_length(self.0));
                Ok(())
            },
            None => Err(Fault::UnsupportedAddressing { mode: self.0, pc: cpu.pc }),
        }
    }
}

/// Load X Register: loads a byte into X and sets Z and N from it.
#[derive(Clone, Copy, Debug, PartialEq, Eq, Structural)]
pub struct LDX(pub Addr);

impl LDX {
    /// The opcode of this instruction in its addressing mode, or `None` for
    /// a mode it does not have.
    pub open spec fn spec_code(self) -> Option<u8> {
        match self.0 {
            Addr::Immediate => Some(0xA2),
            Addr::ZeroPage => Some(0xA6),
            Addr::ZeroPageY => Some(0xB6),
            Addr::Absolute => Some(0xAE),
            Addr::AbsoluteY => Some(0xBE),
            _ => None,
        }
    }

    /// The state after executing this instruction from `s`, or `None` for an
    /// unsupported addressing mode.
    #[verifier::opaque]
    pub open spec fn effect(self, s: CpuState) -> Option<CpuState> {
        if self.spec_code() is Some {
            let v = operand_of(self.0, s)->0;
            Some(s.set_x(v).set_zn(v).advance(instruction_len(self.0)))
        } else {
            None
        }
    }

    /// The opcode, or `None` where the mode is unsupported.
    pub fn opcode(&self) -> (r: Option<u8>)
        ensures
            r == self.spec_code(),
    {
        match self.0 {
            Addr::Immediate => Some(0xA2),
            Addr::ZeroPage => Some(0xA6),
            Addr::ZeroPageY => Some(0xB6),
            Addr::Absolute => Some(0xAE),
            Addr::AbsoluteY => Some(0xBE),
            _ => None,
        }
    }

    /// The opcode of this instruction in its addressing mode.
    pub fn code(&self) -> (r: u8)
        requires
            self.spec_code() is Some,
        ensures
            Some(r) == self.spec_code(),
    {
        self.opcode().unwrap()
    }

    /// Executes the instruction at `cpu.pc` (whose operand bytes follow it).
    pub fn execute(&self, cpu: &mut CPU) -> (r: Result<(), Fault>)
        ensures
            executed(self.effect(old(cpu)@), self.0, old(cpu)@, final(cpu)@, r),
    {
        reveal(executed);
        reveal(LDX::effect);
        if self.opcode().is_none() {
            return Err(Fault::UnsupportedAddressing { mode: self.0, pc: cpu.pc });
        }
        match cpu.operand(self.0) {
            Some(v) => {
                cpu.reg.x = v;
                cpu.flags.set_zn(v);
                cpu.advance(instruction_length(self.0));
                Ok(())
            },
            None => Err(Fault::UnsupportedAddressing { mode: self.0, pc: cpu.pc }),
        }
    }
}

/// Load Y Register: loads a byte into Y and sets Z and N from it.
#[derive(Clone, Copy, Debug, PartialEq, Eq, Structural)]
pub struct LDY(pub Addr);

impl LDY {
    /// The opcode of this instruction in its addressing mode, or `None` for
    /// a mode it does not have.
    pub open spec fn spec_code(self) -> Option<u8> {
        match self.0 {
            Addr::Immediate => Some(0xA0),
            Addr::ZeroPage => Some(0xA4),
            Addr::ZeroPageX => Some(0xB4),
            Addr::Absolute => Some(0xAC),
            Addr::AbsoluteX => Some(0xBC),
            _ => None,
        }
    }

    /// The state after executing this instruction from `s`, or `None` for an
    /// unsupported addressing mode.
    #[verifier::opaque]
    pub open spec fn effect(self, s: CpuState) -> Option<CpuState> {
        if self.spec_code() is Some {
            let v = operand_of(self.0, s)->0;
            Some(s.set_y(v).set_zn(v).advance(instruction_len(self.0)))
        } else {
            None
        }
    }

    /// The opcode, or `None` where the mode is unsupported.
    pub fn opcode(&self) -> (r: Option<u8>)
        ensures
            r == self.spec_code(),
    {
        match self.0 {
            Addr::Immediate => Some(0xA0),
            Addr::ZeroPage => Some(0xA4),
            Addr::ZeroPageX => Some(0xB4),
            Addr::Absolute => Some(0xAC),
            Addr::AbsoluteX => Some(0xBC),
            _ => None,
        }
    }

    /// The opcode of this instruction in its addressing mode.
    pub fn code(&self) -> (r: u8)
        requires
            self.spec_code() is Some,
        ensures
            Some(r) == self.spec_code(),
    {
        self.opcode().unwrap()
    }

    /// Executes the instruction at `cpu.pc` (whose operand bytes follow it).
    pub fn execute(&self, cpu: &mut CPU) -> (r: Result<(), Fault>)
        ensures
            executed(self.effect(old(cpu)@), self.0, old(cpu)@, final(cpu)@, r),
    {
        reveal(executed);
        reveal(LDY::effect);
        if self.opcode().is_none() {
            return Err(Fault::UnsupportedAddressing { mode: self.0, pc: cpu.pc });
        }
        match cpu.operand(self.0) {
            Some(v) => {
                cpu.reg.y = v;
                cpu.flags.set_zn(v);
                cpu.advance(instruction_length(self.0));
                Ok(())
            },
            None => Err(Fault::UnsupportedAddressing { mode: self.0, pc: cpu.pc }),
        }
    }
}

/// Store Accumulator: writes the accumulator to memory; no flag changes.
#[derive(Clone, Copy, Debug, PartialEq, Eq, Structural)]
pub struct STA(pub Addr);

impl STA {
    /// The opcode of this instruction in its addressing mode, or `None` for
    /// a mode it does not have.
    pub open spec fn spec_code(self) -> Option<u8> {
        match self.0 {
            Addr::ZeroPage => Some(0x85),
            Addr::ZeroPageX => Some(0x95),
            Addr::Absolute => Some(0x8D),
            Addr::AbsoluteX => Some(0x9D),
            Addr::AbsoluteY => Some(0x99),
            Addr::XIndirect => Some(0x81),
            Addr::IndirectY => Some(0x91),
            _ => None,
        }
    }

    /// The state after executing this instruction from `s`, or `None` for an
    /// unsupported addressing mode.
    #[verifier::opaque]
    pub open spec fn effect(self, s: CpuState) -> Option<CpuState> {
        if self.spec_code() is Some {
            let a = effective_address_of(self.0, s)->0;
            Some(s.store(a, s.reg.acc).advance(instruction_len(self.0)))
        } else {
            None
        }
    }

    /// The opcode, or `None` where the mode is unsupported.
    pub fn opcode(&self) -> (r: Option<u8>)
        ensures
            r == self.spec_code(),
    {
        match self.0 {
            Addr::ZeroPage => Some(0x85),
            Addr::ZeroPageX => Some(0x95),
            Addr::Absolute => Some(0x8D),
            Addr::AbsoluteX => Some(0x9D),
            Addr::AbsoluteY => Some(0x99),
            Addr::XIndirect => Some(0x81),
            Addr::IndirectY => Some(0x91),
            _ => None,
        }
    }

    /// The opcode of this instruction in its addressing mode.
    pub fn code(&self) -> (r: u8)
        requires
            self.spec_code() is Some,
        ensures
            Some(r) == self.spec_code(),
    {
        self.opcode().unwrap()
    }

    /// Executes the instruction at `cpu.pc` (whose operand bytes follow it).
    pub fn execute(&self, cpu: &mut CPU) -> (r: Result<(), Fault>)
        ensures
            executed(self.effect(old(cpu)@), self.0, old(cpu)@, final(cpu)@, r),
    {
        reveal(executed);
        reveal(STA::effect);
        if self.opcode().is_none() {
            return Err(Fault::UnsupportedAddressing { mode: self.0, pc: cpu.pc });
        }
        match cpu.effective_address(self.0) {
            Some(a) => {
                let v = cpu.reg.acc;
                cpu.write_byte(a, v);
                cpu.advance(instruction_length(self.0));
                Ok(())
            },
            None => Err(Fault::UnsupportedAddressing { mode: self.0, pc: cpu.pc }),
        }
    }
}

/// Store X Register: writes X to memory; no flag changes.
#[derive(Clone, Copy, Debug, PartialEq, Eq, Structural)]
pub struct STX(pub Addr);

impl STX {
    /// The opcode of this instruction in its addressing mode, or `None` for
    /// a mode it does not have.
    pub open spec fn spec_code(self) -> Option<u8> {
        match self.0 {
            Addr::ZeroPage => Some(0x86),
            Addr::ZeroPageY => Some(0x96),
            Addr::Absolute => Some(0x8E),
            _ => None,
        }
    }

    /// The state after executing this instruction from `s`, or `None` for an
    /// unsupported addressing mode.
    #[verifier::opaque]
    pub open spec fn effect(self, s: CpuState) -> Option<CpuState> {
        if self.spec_code() is Some {
            let a = effective_address_of(self.0, s)->0;
            Some(s.store(a, s.reg.x).advance(instruction_len(self.0)))
        } else {
            None
        }
    }

    /// The opcode, or `None` where the mode is unsupported.
    pub fn opcode(&self) -> (r: Option<u8>)
        ensures
            r == self.spec_code(),
    {
        match self.0 {
            Addr::ZeroPage => Some(0x86),
            Addr::ZeroPageY => Some(0x96),
            Addr::Absolute => Some(0x8E),
            _ => None,
        }
    }

    /// The opcode of this instruction in its addressing mode.
    pub fn code(&self) -> (r: u8)
        requires
            self.spec_code() is Some,
        ensures
            Some(r) == self.spec_code(),
    {
        self.opcode().unwrap()
    }

    /// Executes the instruction at `cpu.pc` (whose operand bytes follow it).
    pub fn execute(&self, cpu: &mut CPU) -> (r: Result<(), Fault>)
        ensures
            executed(self.effect(old(cpu)@), self.0, old(cpu)@, final(cpu)@, r),
    {
        reveal(executed);
        reveal(STX::effect);
        if self.opcode().is_none() {
            return Err(Fault::UnsupportedAddressing { mode: self.0, pc: cpu.pc });
        }
        match cpu.effective_address(self.0) {
            Some(a) => {
                let v = cpu.reg.x;
                cpu.write_byte(a, v);
                cpu.advance(instruction_length(self.0));
                Ok(())
            },
            None => Err(Fault::UnsupportedAddressing { mode: self.0, pc: cpu.pc }),
        }
    }
}

/// Store Y Register: writes Y to memory; no flag changes.
#[derive(Clone, Copy, Debug, PartialEq, Eq, Structural)]
pub struct STY(pub Addr);

impl STY {
    /// The opcode of this instruction in its addressing mode, or `None` for
    /// a mode it does not have.
    pub open spec fn spec_code(self) -> Option<u8> {
        match self.0 {
            Addr::ZeroPage => Some(0x84),
            Addr::ZeroPageX => Some(0x94),
            Addr::Absolute => Some(0x8C),
            _ => None,
        }
    }

    /// The state after executing this instruction from `s`, or `None` for an
    /// unsupported addressing mode.
    #[verifier::opaque]
    pub open spec fn effect(self, s: CpuState) -> Option<CpuState> {
        if self.spec_code() is Some {
            let a = effective_address_of(self.0, s)->0;
            Some(s.store(a, s.reg.y).advance(instruction_len(self.0)))
        } else {
            None
        }
    }

    /// The opcode, or `None` where the mode is unsupported.
    pub fn opcode(&self) -> (r: Option<u8>)
        ensures
            r == self.spec_code(),
    {
        match self.0 {
            Addr::ZeroPage => Some(0x84),
            Addr::ZeroPageX => Some(0x94),
            Addr::Absolute => Some(0x8C),
            _ => None,
        }
    }

    /// The opcode of this instruction in its addressing mode.
    pub fn code(&self) -> (r: u8)
        requires
            self.spec_code() is Some,
        ensures
            Some(r) == self.spec_code(),
    {
        self.opcode().unwrap()
    }

    /// Executes the instruction at `cpu.pc` (whose operand bytes follow it).
    pub fn execute(&self, cpu: &mut CPU) -> (r: Result<(), Fault>)
        ensures
            executed(self.effect(old(cpu)@), self.0, old(cpu)@, final(cpu)@, r),
    {
        reveal(executed);
        reveal(STY::effect);
        if self.opcode().is_none() {
            return Err(Fault::UnsupportedAddressing { mode: self.0, pc: cpu.pc });
        }
        match cpu.effective_address(self.0) {
            Some(a) => {
                let v = cpu.reg.y;
                cpu.write_byte(a, v);
                cpu.advance(instruction_length(self.0));
                Ok(())
            },
            None => Err(Fault::UnsupportedAddressing { mode: self.0, pc: cpu.pc }),
        }
    }
}

/// After `LDA #v` (opcode `0xA9`, then `v`) the accumulator holds `v`, Z says
/// whether `v` is zero, N is bit 7 of `v`, and the processor keeps running.
pub proof fn lemma_lda_immediate_flags(s: CpuState, v: u8)
    requires
        s.byte(s.pc) == 0xA9,
        s.byte(next_address(s.pc)) == v,
    ensures
        step_spec(s).1 == Ok::<Status, Fault>(Status::Running),
        step_spec(s).0.reg.acc == v,
        step_spec(s).0.flags.z == (v == 0),
        step_spec(s).0.flags.n == (v & 0x80 != 0),
{
    reveal(LDA::effect);
    assert(is_negative(v) == (v & 0x80 != 0)) by (bit_vector);
}

} // verus!
