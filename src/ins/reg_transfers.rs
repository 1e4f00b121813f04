use vstd::prelude::*;

use crate::cpu::{CPU, CpuState, Fault};
use crate::ins::executed;
use crate::mem::Addr;

verus! {

/// Transfer Accumulator to X; sets Z and N from the copied value.
#[derive(Clone, Copy, Debug, PartialEq, Eq, Structural)]
pub struct TAX(pub Addr);

impl TAX {
    /// The opcode of this instruction in its addressing mode, or `None` for
    /// a mode it does not have.
    pub open spec fn spec_code(self) -> Option<u8> {
        match self.0 {
            Addr::Implicit => Some(0xAA),
            _ => None,
        }
    }

    /// The state after executing this instruction from `s`, or `None` for an
    /// unsupported addressing mode.
    #[verifier::opaque]
    pub open spec fn effect(self, s: CpuState) -> Option<CpuState> {
        if self.spec_code() is Some {
            Some(s.set_x(s.reg.acc).set_zn(s.reg.acc).advance(1))
        } else {
            None
        }
    }

    /// The opcode, or `None` where the mode is unsupported.
    pub fn opcode(&self) -> (r: Option<u8>)
        ensures
            r == self.spec_code(),
    {
        match self.0 {
            Addr::Implicit => Some(0xAA),
            _ => None,
        }
    }

    /// The opcode of this instruction in its addressing mode.
    pub fn code(&self) -> (r: u8)
        requires
            self.spec_code() is Some,
        ensures
            Some(r) == self.spec_code(),
    {
        self.opcode().unwrap()
    }

    /// Executes the instruction at `cpu.pc` (whose operand bytes follow it).
    pub fn execute(&self, cpu: &mut CPU) -> (r: Result<(), Fault>)
        ensures
            executed(self.effect(old(cpu)@), self.0, old(cpu)@, final(cpu)@, r),
    {
        reveal(executed);
        reveal(TAX::effect);
        if self.opcode().is_none() {
            return Err(Fault::UnsupportedAddressing { mode: self.0, pc: cpu.pc });
        }
        let v = cpu.reg.acc;
        cpu.reg.x = v;
        cpu.flags.set_zn(v);
        cpu.advance(1);
        Ok(())
    }
}

/// Transfer Accumulator to Y; sets Z and N from the copied value.
#[derive(Clone, Copy, Debug, PartialEq, Eq, Structural)]
pub struct TAY(pub Addr);

impl TAY {
    /// The opcode of this instruction in its addressing mode, or `None` for
    /// a mode it does not have.
    pub open spec fn spec_code(self) -> Option<u8> {
        match self.0 {
            Addr::Implicit => Some(0xA8),
            _ => None,
        }
    }

    /// The state after executing this instruction from `s`, or `None` for an
    /// unsupported addressing mode.
    #[verifier::opaque]
    pub open spec fn effect(self, s: CpuState) -> Option<CpuState> {
        if self.spec_code() is Some {
            Some(s.set_y(s.reg.acc).set_zn(s.reg.acc).advance(1))
        } else {
            None
        }
    }

    /// The opcode, or `None` where the mode is unsupported.
    pub fn opcode(&self) -> (r: Option<u8>)
        ensures
            r == self.spec_code(),
    {
        match self.0 {
            Addr::Implicit => Some(0xA8),
            _ => None,
        }
    }

    /// The opcode of this instruction in its addressing mode.
    pub fn code(&self) -> (r: u8)
        requires
            self.spec_code() is Some,
        ensures
            Some(r) == self.spec_code(),
    {
        self.opcode().unwrap()
    }

    /// Executes the instruction at `cpu.pc` (whose operand bytes follow it).
    pub fn execute(&self, cpu: &mut CPU) -> (r: Result<(), Fault>)
        ensures
            executed(self.effect(old(cpu)@), self.0, old(cpu)@, final(cpu)@, r),
    {
        reveal(executed);
        reveal(TAY::effect);
        if self.opcode().is_none() {
            return Err(Fault::UnsupportedAddressing { mode: self.0, pc: cpu.pc });
        }
        let v = cpu.reg.acc;
        cpu.reg.y = v;
        cpu.flags.set_zn(v);
        cpu.advance(1);
        Ok(())
    }
}

/// Transfer X to Accumulator; sets Z and N from the copied value.
#[derive(Clone, Copy, Debug, PartialEq, Eq, Structural)]
pub struct TXA(pub Addr);

impl TXA {
    /// The opcode of this instruction in its addressing mode, or `None` for
    /// a mode it does not have.
    pub open spec fn spec_code(self) -> Option<u8> {
        match self.0 {
            Addr::Implicit => Some(0x8A),
            _ => None,
        }
    }

    /// The state after executing this instruction from `s`, or `None` for an
    /// unsupported addressing mode.
    #[verifier::opaque]
    pub open spec fn effect(self, s: CpuState) -> Option<CpuState> {
        if self.spec_code() is Some {
            Some(s.set_acc(s.reg.x).set_zn(s.reg.x).advance(1))
        } else {
            None
        }
    }

    /// The opcode, or `None` where the mode is unsupported.
    pub fn opcode(&self) -> (r: Option<u8>)
        ensures
            r == self.spec_code(),
    {
        match self.0 {
            Addr::Implicit => Some(0x8A),
            _ => None,
        }
    }

    /// The opcode of this instruction in its addressing mode.
    pub fn code(&self) -> (r: u8)
        requires
            self.spec_code() is Some,
        ensures
            Some(r) == self.spec_code(),
    {
        self.opcode().unwrap()
    }

    /// Executes the instruction at `cpu.pc` (whose operand bytes follow it).
    pub fn execute(&self, cpu: &mut CPU) -> (r: Result<(), Fault>)
        ensures
            executed(self.effect(old(cpu)@), self.0, old(cpu)@, final(cpu)@, r),
    {
        reveal(executed);
        reveal(TXA::effect);
        if self.opcode().is_none() {
            return Err(Fault::UnsupportedAddressing { mode: self.0, pc: cpu.pc });
        }
        let v = cpu.reg.x;
        cpu.reg.acc = v;
        cpu.flags.set_zn(v);
        cpu.advance(1);
        Ok(())
    }
}

/// Transfer Y to Accumulator; sets Z and N from the copied value.
#[derive(Clone, Copy, Debug, PartialEq, Eq, Structural)]
pub struct TYA(pub Addr);

impl TYA {
    /// The opcode of this instruction in its addressing mode, or `None` for
    /// a mode it does not have.
    pub open spec fn spec_code(self) -> Option<u8> {
        match self.0 {
            Addr::Implicit => Some(0x98),
            _ => None,
        }
    }

    /// The state after executing this instruction from `s`, or `None` for an
    /// unsupported addressing mode.
    #[verifier::opaque]
    pub open spec fn effect(self, s: CpuState) -> Option<CpuState> {
        if self.spec_code() is Some {
            Some(s.set_acc(s.reg.y).set_zn(s.reg.y).advance(1))
        } else {
            None
        }
    }

    /// The opcode, or `None` where the mode is unsupported.
    pub fn opcode(&self) -> (r: Option<u8>)
        ensures
            r == self.spec_code(),
    {
        match self.0 {
            Addr::Implicit => Some(0x98),
            _ => None,
        }
    }

    /// The opcode of this instruction in its addressing mode.
    pub fn code(&self) -> (r: u8)
        requires
            self.spec_code() is Some,
        ensures
            Some(r) == self.spec_code(),
    {
        self.opcode().unwrap()
    }

    /// Executes the instruction at `cpu.pc` (whose operand bytes follow it).
    pub fn execute(&self, cpu: &mut CPU) -> (r: Result<(), Fault>)
        ensures
            executed(self.effect(old(cpu)@), self.0, old(cpu)@, final(cpu)@, r),
    {
        reveal(executed);
        reveal(TYA::effect);
        if self.opcode().is_none() {
            return Err(Fault::UnsupportedAddressing { mode: self.0, pc: cpu.pc });
        }
        let v = cpu.reg.y;
        cpu.reg.acc = v;
        cpu.flags.set_zn(v);
        cpu.advance(1);
        Ok(())
    }
}

} // verus!
