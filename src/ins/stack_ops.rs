use vstd::prelude::*;

use crate::cpu::{
    flags_byte, flags_of_byte, lemma_flags_round_trip, CPU, CpuState, Fault, StatusFlags,
};
use crate::ins::executed;
use crate::mem::Addr;

verus! {

/// Transfer Stack Pointer to X; sets Z and N from the copied value.
#[derive(Clone, Copy, Debug, PartialEq, Eq, Structural)]
pub struct TSX(pub Addr);

impl TSX {
    /// The opcode of this instruction in its addressing mode, or `None` for
    /// a mode it does not have.
    pub open spec fn spec_code(self) -> Option<u8> {
        match self.0 {
            Addr::Implicit => Some(0xBA),
            _ => None,
        }
    }

    /// The state after executing this instruction from `s`, or `None` for an
    /// unsupported addressing mode.
    #[verifier::opaque]
    pub open spec fn effect(self, s: CpuState) -> Option<CpuState> {
        if self.spec_code() is Some {
            Some(s.set_x(s.sp).set_zn(s.sp).advance(1))
        } else {
            None
        }
    }

    /// The opcode, or `None` where the mode is unsupported.
    pub fn opcode(&self) -> (r: Option<u8>)
        ensures
            r == self.spec_code(),
    {
        match self.0 {
            Addr::Implicit => Some(0xBA),
            _ => None,
        }
    }

    /// The opcode of this instruction in its addressing mode.
    pub fn code(&self) -> (r: u8)
        requires
            self.spec_code() is Some,
        ensures
            Some(r) == self.spec_code(),
    {
        self.opcode().unwrap()
    }

    /// Executes the instruction at `cpu.pc` (whose operand bytes follow it).
    pub fn execute(&self, cpu: &mut CPU) -> (r: Result<(), Fault>)
        ensures
            executed(self.effect(old(cpu)@), self.0, old(cpu)@, final(cpu)@, r),
    {
        reveal(executed);
        reveal(TSX::effect);
        if self.opcode().is_none() {
            return Err(Fault::UnsupportedAddressing { mode: self.0, pc: cpu.pc });
        }
        let v = cpu.sp;
        cpu.reg.x = v;
        cpu.flags.set_zn(v);
        cpu.advance(1);
        Ok(())
    }
}

/// Transfer X to Stack Pointer; no flag changes.
#[derive(Clone, Copy, Debug, PartialEq, Eq, Structural)]
pub struct TXS(pub Addr);

impl TXS {
    /// The opcode of this instruction in its addressing mode, or `None` for
    /// a mode it does not have.
    pub open spec fn spec_code(self) -> Option<u8> {
        match self.0 {
            Addr::Implicit => Some(0x9A),
            _ => None,
        }
    }

    /// The state after executing this instruction from `s`, or `None` for an
    /// unsupported addressing mode.
    #[verifier::opaque]
    pub open spec fn effect(self, s: CpuState) -> Option<CpuState> {
        if self.spec_code() is Some {
            Some(CpuState { sp: s.reg.x, ..s }.advance(1))
        } else {
            None
        }
    }

    /// The opcode, or `None` where the mode is unsupported.
    pub fn opcode(&self) -> (r: Option<u8>)
        ensures
            r == self.spec_code(),
    {
        match self.0 {
            Addr::Implicit => Some(0x9A),
            _ => None,
        }
    }

    /// The opcode of this instruction in its addressing mode.
    pub fn code(&self) -> (r: u8)
        requires
            self.spec_code() is Some,
        ensures
            Some(r) == self.spec_code(),
    {
        self.opcode().unwrap()
    }

    /// Executes the instruction at `cpu.pc` (whose operand bytes follow it).
    pub fn execute(&self, cpu: &mut CPU) -> (r: Result<(), Fault>)
        ensures
            executed(self.effect(old(cpu)@), self.0, old(cpu)@, final(cpu)@, r),
    {
        reveal(executed);
        reveal(TXS::effect);
        if self.opcode().is_none() {
            return Err(Fault::UnsupportedAddressing { mode: self.0, pc: cpu.pc });
        }
        cpu.sp = cpu.reg.x;
        cpu.advance(1);
        Ok(())
    }
}

/// Push Accumulator: writes the accumulator at the stack address, then decrements SP.
#[derive(Clone, Copy, Debug, PartialEq, Eq, Structural)]
pub struct PHA(pub Addr);

impl PHA {
    /// The opcode of this instruction in its addressing mode, or `None` for
    /// a mode it does not have.
    pub open spec fn spec_code(self) -> Option<u8> {
        match self.0 {
            Addr::Implicit => Some(0x48),
            _ => None,
        }
    }

    /// The state after executing this instruction from `s`, or `None` for an
    /// unsupported addressing mode.
    #[verifier::opaque]
    pub open spec fn effect(self, s: CpuState) -> Option<CpuState> {
        if self.spec_code() is Some {
            Some(s.push(s.reg.acc).advance(1))
        } else {
            None
        }
    }

    /// The opcode, or `None` where the mode is unsupported.
    pub fn opcode(&self) -> (r: Option<u8>)
        ensures
            r == self.spec_code(),
    {
        match self.0 {
            Addr::Implicit => Some(0x48),
            _ => None,
        }
    }

    /// The opcode of this instruction in its addressing mode.
    pub fn code(&self) -> (r: u8)
        requires
            self.spec_code() is Some,
        ensures
            Some(r) == self.spec_code(),
    {
        self.opcode().unwrap()
    }

    /// Executes the instruction at `cpu.pc` (whose operand bytes follow it).
    pub fn execute(&self, cpu: &mut CPU) -> (r: Result<(), Fault>)
        ensures
            executed(self.effect(old(cpu)@), self.0, old(cpu)@, final(cpu)@, r),
    {
        reveal(executed);
        reveal(PHA::effect);
        if self.opcode().is_none() {
            return Err(Fault::UnsupportedAddressing { mode: self.0, pc: cpu.pc });
        }
        let v = cpu.reg.acc;
        cpu.push(v);
        cpu.advance(1);
        Ok(())
    }
}

/// Push Processor Status: pushes the status byte of the flags.
#[derive(Clone, Copy, Debug, PartialEq, Eq, Structural)]
pub struct PHP(pub Addr);

impl PHP {
    /// The opcode of this instruction in its addressing mode, or `None` for
    /// a mode it does not have.
    pub open spec fn spec_code(self) -> Option<u8> {
        match self.0 {
            Addr::Implicit => Some(0x08),
            _ => None,
        }
    }

    /// The state after executing this instruction from `s`, or `None` for an
    /// unsupported addressing mode.
    #[verifier::opaque]
    pub open spec fn effect(self, s: CpuState) -> Option<CpuState> {
        if self.spec_code() is Some {
            Some(s.push(flags_byte(s.flags)).advance(1))
        } else {
            None
        }
    }

    /// The opcode, or `None` where the mode is unsupported.
    pub fn opcode(&self) -> (r: Option<u8>)
        ensures
            r == self.spec_code(),
    {
        match self.0 {
            Addr::Implicit => Some(0x08),
            _ => None,
        }
    }

    /// The opcode of this instruction in its addressing mode.
    pub fn code(&self) -> (r: u8)
        requires
            self.spec_code() is Some,
        ensures
            Some(r) == self.spec_code(),
    {
        self.opcode().unwrap()
    }

    /// Executes the instruction at `cpu.pc` (whose operand bytes follow it).
    pub fn execute(&self, cpu: &mut CPU) -> (r: Result<(), Fault>)
        ensures
            executed(self.effect(old(cpu)@), self.0, old(cpu)@, final(cpu)@, r),
    {
        reveal(executed);
        reveal(PHP::effect);
        if self.opcode().is_none() {
            return Err(Fault::UnsupportedAddressing { mode: self.0, pc: cpu.pc });
        }
        let v = cpu.flags.to_byte();
        cpu.push(v);
        cpu.advance(1);
        Ok(())
    }
}

/// Pull Accumulator: increments SP, reads the stack byte into the accumulator, and sets
/// Z and N from it.
#[derive(Clone, Copy, Debug, PartialEq, Eq, Structural)]
pub struct PLA(pub Addr);

impl PLA {
    /// The opcode of this instruction in its addressing mode, or `None` for
    /// a mode it does not have.
    pub open spec fn spec_code(self) -> Option<u8> {
        match self.0 {
            Addr::Implicit => Some(0x68),
            _ => None,
        }
    }

    /// The state after executing this instruction from `s`, or `None` for an
    /// unsupported addressing mode.
    #[verifier::opaque]
    pub open spec fn effect(self, s: CpuState) -> Option<CpuState> {
        if self.spec_code() is Some {
            Some(s.pull().set_acc(s.pulled()).set_zn(s.pulled()).advance(1))
        } else {
            None
        }
    }

    /// The opcode, or `None` where the mode is unsupported.
    pub fn opcode(&self) -> (r: Option<u8>)
        ensures
            r == self.spec_code(),
    {
        match self.0 {
            Addr::Implicit => Some(0x68),
            _ => None,
        }
    }

    /// The opcode of this instruction in its addressing mode.
    pub fn code(&self) -> (r: u8)
        requires
            self.spec_code() is Some,
        ensures
            Some(r) == self.spec_code(),
    {
        self.opcode().unwrap()
    }

    /// Executes the instruction at `cpu.pc` (whose operand bytes follow it).
    pub fn execute(&self, cpu: &mut CPU) -> (r: Result<(), Fault>)
        ensures
            executed(self.effect(old(cpu)@), self.0, old(cpu)@, final(cpu)@, r),
    {
        reveal(executed);
        reveal(PLA::effect);
        if self.opcode().is_none() {
            return Err(Fault::UnsupportedAddressing { mode: self.0, pc: cpu.pc });
        }
        let v = cpu.pull();
        cpu.reg.acc = v;
        cpu.flags.set_zn(v);
        cpu.advance(1);
        Ok(())
    }
}

/// Pull Processor Status: increments SP and replaces all flags from the stack byte.
#[derive(Clone, Copy, Debug, PartialEq, Eq, Structural)]
pub struct PLP(pub Addr);

impl PLP {
    /// The opcode of this instruction in its addressing mode, or `None` for
    /// a mode it does not have.
    pub open spec fn spec_code(self) -> Option<u8> {
        match self.0 {
            Addr::Implicit => Some(0x28),
            _ => None,
        }
    }

    /// The state after executing this instruction from `s`, or `None` for an
    /// unsupported addressing mode.
    #[verifier::opaque]
    pub open spec fn effect(self, s: CpuState) -> Option<CpuState> {
        if self.spec_code() is Some {
            Some(CpuState { flags: flags_of_byte(s.pulled()), ..s.pull() }.advance(1))
        } else {
            None
        }
    }

    /// The opcode, or `None` where the mode is unsupported.
    pub fn opcode(&self) -> (r: Option<u8>)
        ensures
            r == self.spec_code(),
    {
        match self.0 {
            Addr::Implicit => Some(0x28),
            _ => None,
        }
    }

    /// The opcode of this instruction in its addressing mode.
    pub fn code(&self) -> (r: u8)
        requires
            self.spec_code() is Some,
        ensures
            Some(r) == self.spec_code(),
    {
        self.opcode().unwrap()
    }

    /// Executes the instruction at `cpu.pc` (whose operand bytes follow it).
    pub fn execute(&self, cpu: &mut CPU) -> (r: Result<(), Fault>)
        ensures
            executed(self.effect(old(cpu)@), self.0, old(cpu)@, final(cpu)@, r),
    {
        reveal(executed);
        reveal(PLP::effect);
        if self.opcode().is_none() {
            return Err(Fault::UnsupportedAddressing { mode: self.0, pc: cpu.pc });
        }
        let v = cpu.pull();
        cpu.flags = StatusFlags::from_byte(v);
        cpu.advance(1);
        Ok(())
    }
}

/// `PHA` followed by `PLA` gives the accumulator back and leaves SP where it
/// was before the push.
pub proof fn lemma_push_pull(s: CpuState)
    requires
        s.wf(),
    ensures
        ({
            let u = PLA(Addr::Implicit).effect(PHA(Addr::Implicit).effect(s)->0)->0;
            u.reg.acc == s.reg.acc && u.sp == s.sp
        }),
{
    reveal(PHA::effect);
    reveal(PLA::effect);
}

/// `PHP` followed by `PLP` gives the flags back and leaves SP where it was
/// before the push.
pub proof fn lemma_push_pull_flags(s: CpuState)
    requires
        s.wf(),
    ensures
        ({
            let u = PLP(Addr::Implicit).effect(PHP(Addr::Implicit).effect(s)->0)->0;
            u.flags == s.flags && u.sp == s.sp
        }),
{
    reveal(PHP::effect);
    reveal(PLP::effect);
    lemma_flags_round_trip(s.flags);
}

} // verus!
