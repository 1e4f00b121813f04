use vstd::prelude::*;

use crate::addressing::{instruction_len, instruction_length, operand_of};
use crate::cpu::{CPU, CpuState, Fault};
use crate::ins::executed;
use crate::mem::Addr;

verus! {

/// Logical AND of the accumulator with a byte, kept in the accumulator; sets Z and N
/// from the result.
#[derive(Clone, Copy, Debug, PartialEq, Eq, Structural)]
pub struct AND(pub Addr);

impl AND {
    /// The opcode of this instruction in its addressing mode, or `None` for
    /// a mode it does not have.
    pub open spec fn spec_code(self) -> Option<u8> {
        match self.0 {
            Addr::Immediate => Some(0x29),
            Addr::ZeroPage => Some(0x25),
            Addr::ZeroPageX => Some(0x35),
            Addr::Absolute => Some(0x2D),
            Addr::AbsoluteX => Some(0x3D),
            Addr::AbsoluteY => Some(0x39),
            Addr::XIndirect => Some(0x21),
            Addr::IndirectY => Some(0x31),
            _ => None,
        }
    }

    /// The state after executing this instruction from `s`, or `None` for an
    /// unsupported addressing mode.
    #[verifier::opaque]
    pub open spec fn effect(self, s: CpuState) -> Option<CpuState> {
        if self.spec_code() is Some {
            let v = operand_of(self.0, s)->0;
            Some(s.set_acc(s.reg.acc & v).set_zn(s.reg.acc & v).advance(instruction_len(self.0)))
        } else {
            None
        }
    }

    /// The opcode, or `None` where the mode is unsupported.
    pub fn opcode(&self) -> (r: Option<u8>)
        ensures
            r == self.spec_code(),
    {
        match self.0 {
            Addr::Immediate => Some(0x29),
            Addr::ZeroPage => Some(0x25),
            Addr::ZeroPageX => Some(0x35),
            Addr::Absolute => Some(0x2D),
            Addr::AbsoluteX => Some(0x3D),
            Addr::AbsoluteY => Some(0x39),
            Addr::XIndirect => Some(0x21),
            Addr::IndirectY => Some(0x31),
            _ => None,
        }
    }

    /// The opcode of this instruction in its addressing mode.
    pub fn code(&self) -> (r: u8)
        requires
            self.spec_code() is Some,
        ensures
            Some(r) == self.spec_code(),
    {
        self.opcode().unwrap()
    }

    /// Executes the instruction at `cpu.pc` (whose operand bytes follow it).
    pub fn execute(&self, cpu: &mut CPU) -> (r: Result<(), Fault>)
        ensures
            executed(self.effect(old(cpu)@), self.0, old(cpu)@, final(cpu)@, r),
    {
        reveal(executed);
        reveal(AND::effect);
        if self.opcode().is_none() {
            return Err(Fault::UnsupportedAddressing { mode: self.0, pc: cpu.pc });
        }
        match cpu.operand(self.0) {
            Some(v) => {
                let r = cpu.reg.acc & v;
                cpu.reg.acc = r;
                cpu.flags.set_zn(r);
                cpu.advance(instruction_length(self.0));
                Ok(())
            },
            None => Err(Fault::UnsupportedAddressing { mode: self.0, pc: cpu.pc }),
        }
    }
}

/// Exclusive OR of the accumulator with a byte, kept in the accumulator; sets Z and N
/// from the result.
#[derive(Clone, Copy, Debug, PartialEq, Eq, Structural)]
pub struct EOR(pub Addr);

impl EOR {
    /// The opcode of this instruction in its addressing mode, or `None` for
    /// a mode it does not have.
    pub open spec fn spec_code(self) -> Option<u8> {
        match self.0 {
            Addr::Immediate => Some(0x49),
            Addr::ZeroPage => Some(0x45),
            Addr::ZeroPageX => Some(0x55),
            Addr::Absolute => Some(0x4D),
            Addr::AbsoluteX => Some(0x5D),
            Addr::AbsoluteY => Some(0x59),
            Addr::XIndirect => Some(0x41),
            Addr::IndirectY => Some(0x51),
            _ => None,
        }
    }

    /// The state after executing this instruction from `s`, or `None` for an
    /// unsupported addressing mode.
    #[verifier::opaque]
    pub open spec fn effect(self, s: CpuState) -> Option<CpuState> {
        if self.spec_code() is Some {
            let v = operand_of(self.0, s)->0;
            Some(s.set_acc(s.reg.acc ^ v).set_zn(s.reg.acc ^ v).advance(instruction_len(self.0)))
        } else {
            None
        }
    }

    /// The opcode, or `None` where the mode is unsupported.
    pub fn opcode(&self) -> (r: Option<u8>)
        ensures
            r == self.spec_code(),
    {
        match self.0 {
            Addr::Immediate => Some(0x49),
            Addr::ZeroPage => Some(0x45),
            Addr::ZeroPageX => Some(0x55),
            Addr::Absolute => Some(0x4D),
            Addr::AbsoluteX => Some(0x5D),
            Addr::AbsoluteY => Some(0x59),
            Addr::XIndirect => Some(0x41),
            Addr::IndirectY => Some(0x51),
            _ => None,
        }
    }

    /// The opcode of this instruction in its addressing mode.
    pub fn code(&self) -> (r: u8)
        requires
            self.spec_code() is Some,
        ensures
            Some(r) == self.spec_code(),
    {
        self.opcode().unwrap()
    }

    /// Executes the instruction at `cpu.pc` (whose operand bytes follow it).
    pub fn execute(&self, cpu: &mut CPU) -> (r: Result<(), Fault>)
        ensures
            executed(self.effect(old(cpu)@), self.0, old(cpu)@, final(cpu)@, r),
    {
        reveal(executed);
        reveal(EOR::effect);
        if self.opcode().is_none() {
            return Err(Fault::UnsupportedAddressing { mode: self.0, pc: cpu.pc });
        }
        match cpu.operand(self.0) {
            Some(v) => {
                let r = cpu.reg.acc ^ v;
                cpu.reg.acc = r;
                cpu.flags.set_zn(r);
                cpu.advance(instruction_length(self.0));
                Ok(())
            },
            None => Err(Fault::UnsupportedAddressing { mode: self.0, pc: cpu.pc }),
        }
    }
}

/// Inclusive OR of the accumulator with a byte, kept in the accumulator; sets Z and N
/// from the result.
#[derive(Clone, Copy, Debug, PartialEq, Eq, Structural)]
pub struct ORA(pub Addr);

impl ORA {
    /// The opcode of this instruction in its addressing mode, or `None` for
    /// a mode it does not have.
    pub open spec fn spec_code(self) -> Option<u8> {
        match self.0 {
            Addr::Immediate => Some(0x09),
            Addr::ZeroPage => Some(0x05),
            Addr::ZeroPageX => Some(0x15),
            Addr::Absolute => Some(0x0D),
            Addr::AbsoluteX => Some(0x1D),
            Addr::AbsoluteY => Some(0x19),
            Addr::XIndirect => Some(0x01),
            Addr::IndirectY => Some(0x11),
            _ => None,
        }
    }

    /// The state after executing this instruction from `s`, or `None` for an
    /// unsupported addressing mode.
    #[verifier::opaque]
    pub open spec fn effect(self, s: CpuState) -> Option<CpuState> {
        if self.spec_code() is Some {
            let v = operand_of(self.0, s)->0;
            Some(s.set_acc(s.reg.acc | v).set_zn(s.reg.acc | v).advance(instruction_len(self.0)))
        } else {
            None
        }
    }

    /// The opcode, or `None` where the mode is unsupported.
    pub fn opcode(&self) -> (r: Option<u8>)
        ensures
            r == self.spec_code(),
    {
        match self.0 {
            Addr::Immediate => Some(0x09),
            Addr::ZeroPage => Some(0x05),
            Addr::ZeroPageX => Some(0x15),
            Addr::Absolute => Some(0x0D),
            Addr::AbsoluteX => Some(0x1D),
            Addr::AbsoluteY => Some(0x19),
            Addr::XIndirect => Some(0x01),
            Addr::IndirectY => Some(0x11),
            _ => None,
        }
    }

    /// The opcode of this instruction in its addressing mode.
    pub fn code(&self) -> (r: u8)
        requires
            self.spec_code() is Some,
        ensures
            Some(r) == self.spec_code(),
    {
        self.opcode().unwrap()
    }

    /// Executes the instruction at `cpu.pc` (whose operand bytes follow it).
    pub fn execute(&self, cpu: &mut CPU) -> (r: Result<(), Fault>)
        ensures
            executed(self.effect(old(cpu)@), self.0, old(cpu)@, final(cpu)@, r),
    {
        reveal(executed);
        reveal(ORA::effect);
        if self.opcode().is_none() {
            return Err(Fault::UnsupportedAddressing { mode: self.0, pc: cpu.pc });
        }
        match cpu.operand(self.0) {
            Some(v) => {
                let r = cpu.reg.acc | v;
                cpu.reg.acc = r;
                cpu.flags.set_zn(r);
                cpu.advance(instruction_length(self.0));
                Ok(())
            },
            None => Err(Fault::UnsupportedAddressing { mode: self.0, pc: cpu.pc }),
        }
    }
}

/// Bit Test: Z is set when the accumulator AND the byte is zero; V and N take bits 6
/// and 7 of the byte itself. The accumulator is unchanged.
#[derive(Clone, Copy, Debug, PartialEq, Eq, Structural)]
pub struct BIT(pub Addr);

impl BIT {
    /// The opcode of this instruction in its addressing mode, or `None` for
    /// a mode it does not have.
    pub open spec fn spec_code(self) -> Option<u8> {
        match self.0 {
            Addr::ZeroPage => Some(0x24),
            Addr::Absolute => Some(0x2C),
            _ => None,
        }
    }

    /// The state after executing this instruction from `s`, or `None` for an
    /// unsupported addressing mode.
    #[verifier::opaque]
    pub open spec fn effect(self, s: CpuState) -> Option<CpuState> {
        if self.spec_code() is Some {
            let v = operand_of(self.0, s)->0;
            let flags = s.flags.bit_test(s.reg.acc, v);
            Some(CpuState { flags, ..s }.advance(instruction_len(self.0)))
        } else {
            None
        }
    }

    /// The opcode, or `None` where the mode is unsupported.
    pub fn opcode(&self) -> (r: Option<u8>)
        ensures
            r == self.spec_code(),
    {
        match self.0 {
            Addr::ZeroPage => Some(0x24),
            Addr::Absolute => Some(0x2C),
            _ => None,
        }
    }

    /// The opcode of this instruction in its addressing mode.
    pub fn code(&self) -> (r: u8)
        requires
            self.spec_code() is Some,
        ensures
            Some(r) == self.spec_code(),
    {
        self.opcode().unwrap()
    }

    /// Executes the instruction at `cpu.pc` (whose operand bytes follow it).
    pub fn execute(&self, cpu: &mut CPU) -> (r: Result<(), Fault>)
        ensures
            executed(self.effect(old(cpu)@), self.0, old(cpu)@, final(cpu)@, r),
    {
        reveal(executed);
        reveal(BIT::effect);
        if self.opcode().is_none() {
            return Err(Fault::UnsupportedAddressing { mode: self.0, pc: cpu.pc });
        }
        match cpu.operand(self.0) {
            Some(v) => {
                cpu.flags.z = cpu.reg.acc & v == 0;
                cpu.flags.v = v & 0x40 != 0;
                cpu.flags.n = v >= 0x80;
                cpu.advance(instruction_length(self.0));
                Ok(())
            },
            None => Err(Fault::UnsupportedAddressing { mode: self.0, pc: cpu.pc }),
        }
    }
}

} // verus!
