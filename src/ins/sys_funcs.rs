use vstd::prelude::*;

use crate::cpu::{BREAK_VECTOR, CPU, CpuState, Fault, StatusFlags};
use crate::ins::executed;
use crate::mem::Addr;

verus! {

/// Force Break: sets the Break flag and moves PC to the vector address 0xFFFE; the
/// controller halts after it.
#[derive(Clone, Copy, Debug, PartialEq, Eq, Structural)]
pub struct BRK(pub Addr);

impl BRK {
    /// The opcode of this instruction in its addressing mode, or `None` for
    /// a mode it does not have.
    pub open spec fn spec_code(self) -> Option<u8> {
        match self.0 {
            Addr::Implicit => Some(0x00),
            _ => None,
        }
    }

    /// The state after executing this instruction from `s`, or `None` for an
    /// unsupported addressing mode.
    #[verifier::opaque]
    pub open spec fn effect(self, s: CpuState) -> Option<CpuState> {
        if self.spec_code() is Some {
            Some(CpuState { pc: BREAK_VECTOR, flags: StatusFlags { b: true, ..s.flags }, ..s })
        } else {
            None
        }
    }

    /// The opcode, or `None` where the mode is unsupported.
    pub fn opcode(&self) -> (r: Option<u8>)
        ensures
            r == self.spec_code(),
    {
        match self.0 {
            Addr::Implicit => Some(0x00),
            _ => None,
        }
    }

    /// The opcode of this instruction in its addressing mode.
    pub fn code(&self) -> (r: u8)
        requires
            self.spec_code() is Some,
        ensures
            Some(r) == self.spec_code(),
    {
        self.opcode().unwrap()
    }

    /// Executes the instruction at `cpu.pc` (whose operand bytes follow it).
    pub fn execute(&self, cpu: &mut CPU) -> (r: Result<(), Fault>)
        ensures
            executed(self.effect(old(cpu)@), self.0, old(cpu)@, final(cpu)@, r),
    {
        reveal(executed);
        reveal(BRK::effect);
        if self.opcode().is_none() {
            return Err(Fault::UnsupportedAddressing { mode: self.0, pc: cpu.pc });
        }
        cpu.pc = BREAK_VECTOR;
        cpu.flags.b = true;
        Ok(())
    }
}

} // verus!
