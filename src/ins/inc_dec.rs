use vstd::prelude::*;

use crate::addressing::{effective_address_of, instruction_len, instruction_length};
use crate::cpu::{CPU, CpuState, Fault};
use crate::ins::executed;
use crate::mem::Addr;

verus! {

/// `v + 1`, wrapping from `0xFF` to `0x00`.
pub open spec fn wrapping_inc(v: u8) -> u8 {
    ((v + 1) % 256) as u8
}

/// `v - 1`, wrapping from `0x00` to `0xFF`.
pub open spec fn wrapping_dec(v: u8) -> u8 {
    ((v + 255) % 256) as u8
}

/// Increment Memory: adds one to a byte in memory, wrapping from 0xFF to 0x00; sets Z
/// and N from the result, Carry unaffected.
#[derive(Clone, Copy, Debug, PartialEq, Eq, Structural)]
pub struct INC(pub Addr);

impl INC {
    /// The opcode of this instruction in its addressing mode, or `None` for
    /// a mode it does not have.
    pub open spec fn spec_code(self) -> Option<u8> {
        match self.0 {
            Addr::ZeroPage => Some(0xE6),
            Addr::ZeroPageX => Some(0xF6),
            Addr::Absolute => Some(0xEE),
            Addr::AbsoluteX => Some(0xFE),
            _ => None,
        }
    }

    /// The state after executing this instruction from `s`, or `None` for an
    /// unsupported addressing mode.
    #[verifier::opaque]
    pub open spec fn effect(self, s: CpuState) -> Option<CpuState> {
        if self.spec_code() is Some {
            let a = effective_address_of(self.0, s)->0;
            let r = wrapping_inc(s.byte(a));
            Some(s.store(a, r).set_zn(r).advance(instruction_len(self.0)))
        } else {
            None
        }
    }

    /// The opcode, or `None` where the mode is unsupported.
    pub fn opcode(&self) -> (r: Option<u8>)
        ensures
            r == self.spec_code(),
    {
        match self.0 {
            Addr::ZeroPage => Some(0xE6),
            Addr::ZeroPageX => Some(0xF6),
            Addr::Absolute => Some(0xEE),
            Addr::AbsoluteX => Some(0xFE),
            _ => None,
        }
    }

    /// The opcode of this instruction in its addressing mode.
    pub fn code(&self) -> (r: u8)
        requires
            self.spec_code() is Some,
        ensures
            Some(r) == self.spec_code(),
    {
        self.opcode().unwrap()
    }

    /// Executes the instruction at `cpu.pc` (whose operand bytes follow it).
    pub fn execute(&self, cpu: &mut CPU) -> (r: Result<(), Fault>)
        ensures
            executed(self.effect(old(cpu)@), self.0, old(cpu)@, final(cpu)@, r),
    {
        reveal(executed);
        reveal(INC::effect);
        if self.opcode().is_none() {
            return Err(Fault::UnsupportedAddressing { mode: self.0, pc: cpu.pc });
        }
        match cpu.effective_address(self.0) {
            Some(a) => {
                let r = cpu.read_byte(a).wrapping_add(1);
                cpu.write_byte(a, r);
                cpu.flags.set_zn(r);
                cpu.advance(instruction_length(self.0));
                Ok(())
            },
            None => Err(Fault::UnsupportedAddressing { mode: self.0, pc: cpu.pc }),
        }
    }
}

/// Decrement Memory: subtracts one from a byte in memory, wrapping from 0x00 to 0xFF;
/// sets Z and N from the result, Carry unaffected.
#[derive(Clone, Copy, Debug, PartialEq, Eq, Structural)]
pub struct DEC(pub Addr);

impl DEC {
    /// The opcode of this instruction in its addressing mode, or `None` for
    /// a mode it does not have.
    pub open spec fn spec_code(self) -> Option<u8> {
        match self.0 {
            Addr::ZeroPage => Some(0xC6),
            Addr::ZeroPageX => Some(0xD6),
            Addr::Absolute => Some(0xCE),
            Addr::AbsoluteX => Some(0xDE),
            _ => None,
        }
    }

    /// The state after executing this instruction from `s`, or `None` for an
    /// unsupported addressing mode.
    #[verifier::opaque]
    pub open spec fn effect(self, s: CpuState) -> Option<CpuState> {
        if self.spec_code() is Some {
            let a = effective_address_of(self.0, s)->0;
            let r = wrapping_dec(s.byte(a));
            Some(s.store(a, r).set_zn(r).advance(instruction_len(self.0)))
        } else {
            None
        }
    }

    /// The opcode, or `None` where the mode is unsupported.
    pub fn opcode(&self) -> (r: Option<u8>)
        ensures
            r == self.spec_code(),
    {
        match self.0 {
            Addr::ZeroPage => Some(0xC6),
            Addr::ZeroPageX => Some(0xD6),
            Addr::Absolute => Some(0xCE),
            Addr::AbsoluteX => Some(0xDE),
            _ => None,
        }
    }

    /// The opcode of this instruction in its addressing mode.
    pub fn code(&self) -> (r: u8)
        requires
            self.spec_code() is Some,
        ensures
            Some(r) == self.spec_code(),
    {
        self.opcode().unwrap()
    }

    /// Executes the instruction at `cpu.pc` (whose operand bytes follow it).
    pub fn execute(&self, cpu: &mut CPU) -> (r: Result<(), Fault>)
        ensures
            executed(self.effect(old(cpu)@), self.0, old(cpu)@, final(cpu)@, r),
    {
        reveal(executed);
        reveal(DEC::effect);
        if self.opcode().is_none() {
            return Err(Fault::UnsupportedAddressing { mode: self.0, pc: cpu.pc });
        }
        match cpu.effective_address(self.0) {
            Some(a) => {
                let r = cpu.read_byte(a).wrapping_sub(1);
                cpu.write_byte(a, r);
                cpu.flags.set_zn(r);
                cpu.advance(instruction_length(self.0));
                Ok(())
            },
            None => Err(Fault::UnsupportedAddressing { mode: self.0, pc: cpu.pc }),
        }
    }
}

/// Increment X, wrapping from 0xFF to 0x00; sets Z and N from the result.
#[derive(Clone, Copy, Debug, PartialEq, Eq, Structural)]
pub struct INX(pub Addr);

impl INX {
    /// The opcode of this instruction in its addressing mode, or `None` for
    /// a mode it does not have.
    pub open spec fn spec_code(self) -> Option<u8> {
        match self.0 {
            Addr::Implicit => Some(0xE8),
            _ => None,
        }
    }

    /// The state after executing this instruction from `s`, or `None` for an
    /// unsupported addressing mode.
    #[verifier::opaque]
    pub open spec fn effect(self, s: CpuState) -> Option<CpuState> {
        if self.spec_code() is Some {
            let r = wrapping_inc(s.reg.x);
            Some(s.set_x(r).set_zn(r).advance(1))
        } else {
            None
        }
    }

    /// The opcode, or `None` where the mode is unsupported.
    pub fn opcode(&self) -> (r: Option<u8>)
        ensures
            r == self.spec_code(),
    {
        match self.0 {
            Addr::Implicit => Some(0xE8),
            _ => None,
        }
    }

    /// The opcode of this instruction in its addressing mode.
    pub fn code(&self) -> (r: u8)
        requires
            self.spec_code() is Some,
        ensures
            Some(r) == self.spec_code(),
    {
        self.opcode().unwrap()
    }

    /// Executes the instruction at `cpu.pc` (whose operand bytes follow it).
    pub fn execute(&self, cpu: &mut CPU) -> (r: Result<(), Fault>)
        ensures
            executed(self.effect(old(cpu)@), self.0, old(cpu)@, final(cpu)@, r),
    {
        reveal(executed);
        reveal(INX::effect);
        if self.opcode().is_none() {
            return Err(Fault::UnsupportedAddressing { mode: self.0, pc: cpu.pc });
        }
        let r = cpu.reg.x.wrapping_add(1);
        cpu.reg.x = r;
        cpu.flags.set_zn(r);
        cpu.advance(1);
        Ok(())
    }
}

/// Increment Y, wrapping from 0xFF to 0x00; sets Z and N from the result.
#[derive(Clone, Copy, Debug, PartialEq, Eq, Structural)]
pub struct INY(pub Addr);

impl INY {
    /// The opcode of this instruction in its addressing mode, or `None` for
    /// a mode it does not have.
    pub open spec fn spec_code(self) -> Option<u8> {
        match self.0 {
            Addr::Implicit => Some(0xC8),
            _ => None,
        }
    }

    /// The state after executing this instruction from `s`, or `None` for an
    /// unsupported addressing mode.
    #[verifier::opaque]
    pub open spec fn effect(self, s: CpuState) -> Option<CpuState> {
        if self.spec_code() is Some {
            let r = wrapping_inc(s.reg.y);
            Some(s.set_y(r).set_zn(r).advance(1))
        } else {
            None
        }
    }

    /// The opcode, or `None` where the mode is unsupported.
    pub fn opcode(&self) -> (r: Option<u8>)
        ensures
            r == self.spec_code(),
    {
        match self.0 {
            Addr::Implicit => Some(0xC8),
            _ => None,
        }
    }

    /// The opcode of this instruction in its addressing mode.
    pub fn code(&self) -> (r: u8)
        requires
            self.spec_code() is Some,
        ensures
            Some(r) == self.spec_code(),
    {
        self.opcode().unwrap()
    }

    /// Executes the instruction at `cpu.pc` (whose operand bytes follow it).
    pub fn execute(&self, cpu: &mut CPU) -> (r: Result<(), Fault>)
        ensures
            executed(self.effect(old(cpu)@), self.0, old(cpu)@, final(cpu)@, r),
    {
        reveal(executed);
        reveal(INY::effect);
        if self.opcode().is_none() {
            return Err(Fault::UnsupportedAddressing { mode: self.0, pc: cpu.pc });
        }
        let r = cpu.reg.y.wrapping_add(1);
        cpu.reg.y = r;
        cpu.flags.set_zn(r);
        cpu.advance(1);
        Ok(())
    }
}

/// Decrement X, wrapping from 0x00 to 0xFF; sets Z and N from the result.
#[derive(Clone, Copy, Debug, PartialEq, Eq, Structural)]
pub struct DEX(pub Addr);

impl DEX {
    /// The opcode of this instruction in its addressing mode, or `None` for
    /// a mode it does not have.
    pub open spec fn spec_code(self) -> Option<u8> {
        match self.0 {
            Addr::Implicit => Some(0xCA),
            _ => None,
        }
    }

    /// The state after executing this instruction from `s`, or `None` for an
    /// unsupported addressing mode.
    #[verifier::opaque]
    pub open spec fn effect(self, s: CpuState) -> Option<CpuState> {
        if self.spec_code() is Some {
            let r = wrapping_dec(s.reg.x);
            Some(s.set_x(r).set_zn(r).advance(1))
        } else {
            None
        }
    }

    /// The opcode, or `None` where the mode is unsupported.
    pub fn opcode(&self) -> (r: Option<u8>)
        ensures
            r == self.spec_code(),
    {
        match self.0 {
            Addr::Implicit => Some(0xCA),
            _ => None,
        }
    }

    /// The opcode of this instruction in its addressing mode.
    pub fn code(&self) -> (r: u8)
        requires
            self.spec_code() is Some,
        ensures
            Some(r) == self.spec_code(),
    {
        self.opcode().unwrap()
    }

    /// Executes the instruction at `cpu.pc` (whose operand bytes follow it).
    pub fn execute(&self, cpu: &mut CPU) -> (r: Result<(), Fault>)
        ensures
            executed(self.effect(old(cpu)@), self.0, old(cpu)@, final(cpu)@, r),
    {
        reveal(executed);
        reveal(DEX::effect);
        if self.opcode().is_none() {
            return Err(Fault::UnsupportedAddressing { mode: self.0, pc: cpu.pc });
        }
        let r = cpu.reg.x.wrapping_sub(1);
        cpu.reg.x = r;
        cpu.flags.set_zn(r);
        cpu.advance(1);
        Ok(())
    }
}

/// Decrement Y, wrapping from 0x00 to 0xFF; sets Z and N from the result.
#[derive(Clone, Copy, Debug, PartialEq, Eq, Structural)]
pub struct DEY(pub Addr);

impl DEY {
    /// The opcode of this instruction in its addressing mode, or `None` for
    /// a mode it does not have.
    pub open spec fn spec_code(self) -> Option<u8> {
        match self.0 {
            Addr::Implicit => Some(0x88),
            _ => None,
        }
    }

    /// The state after executing this instruction from `s`, or `None` for an
    /// unsupported addressing mode.
    #[verifier::opaque]
    pub open spec fn effect(self, s: CpuState) -> Option<CpuState> {
        if self.spec_code() is Some {
            let r = wrapping_dec(s.reg.y);
            Some(s.set_y(r).set_zn(r).advance(1))
        } else {
            None
        }
    }

    /// The opcode, or `None` where the mode is unsupported.
    pub fn opcode(&self) -> (r: Option<u8>)
        ensures
            r == self.spec_code(),
    {
        match self.0 {
            Addr::Implicit => Some(0x88),
            _ => None,
        }
    }

    /// The opcode of this instruction in its addressing mode.
    pub fn code(&self) -> (r: u8)
        requires
            self.spec_code() is Some,
        ensures
            Some(r) == self.spec_code(),
    {
        self.opcode().unwrap()
    }

    /// Executes the instruction at `cpu.pc` (whose operand bytes follow it).
    pub fn execute(&self, cpu: &mut CPU) -> (r: Result<(), Fault>)
        ensures
            executed(self.effect(old(cpu)@), self.0, old(cpu)@, final(cpu)@, r),
    {
        reveal(executed);
        reveal(DEY::effect);
        if self.opcode().is_none() {
            return Err(Fault::UnsupportedAddressing { mode: self.0, pc: cpu.pc });
        }
        let r = cpu.reg.y.wrapping_sub(1);
        cpu.reg.y = r;
        cpu.flags.set_zn(r);
        cpu.advance(1);
        Ok(())
    }
}

/// `INC` on a byte holding `0xFF` leaves `0x00` there, with Z set and N clear.
pub proof fn lemma_inc_wraps(i: INC, s: CpuState)
    requires
        s.wf(),
        i.spec_code() is Some,
        s.byte(effective_address_of(i.0, s)->0) == 0xFF,
    ensures
        ({
            let t = i.effect(s)->0;
            t.byte(effective_address_of(i.0, s)->0) == 0 && t.flags.z && !t.flags.n
        }),
{
    reveal(INC::effect);
}

/// `DEC` on a byte holding `0x00` leaves `0xFF` there, with Z clear and N set.
pub proof fn lemma_dec_wraps(i: DEC, s: CpuState)
    requires
        s.wf(),
        i.spec_code() is Some,
        s.byte(effective_address_of(i.0, s)->0) == 0,
    ensures
        ({
            let t = i.effect(s)->0;
            t.byte(effective_address_of(i.0, s)->0) == 0xFF && !t.flags.z && t.flags.n
        }),
{
    reveal(DEC::effect);
}

} // verus!
