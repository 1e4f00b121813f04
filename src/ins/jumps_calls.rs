use vstd::prelude::*;

use crate::addressing::operand_word;
use crate::cpu::{CPU, CpuState, Fault};
use crate::ins::executed;
use crate::mem::Addr;

verus! {

/// Jump to Subroutine: PC becomes the 16-bit absolute target. No return address is
/// pushed.
#[derive(Clone, Copy, Debug, PartialEq, Eq, Structural)]
pub struct JSR(pub Addr);

impl JSR {
    /// The opcode of this instruction in its addressing mode, or `None` for
    /// a mode it does not have.
    pub open spec fn spec_code(self) -> Option<u8> {
        match self.0 {
            Addr::Absolute => Some(0x20),
            _ => None,
        }
    }

    /// The state after executing this instruction from `s`, or `None` for an
    /// unsupported addressing mode.
    #[verifier::opaque]
    pub open spec fn effect(self, s: CpuState) -> Option<CpuState> {
        if self.spec_code() is Some {
            Some(CpuState { pc: operand_word(s), ..s })
        } else {
            None
        }
    }

    /// The opcode, or `None` where the mode is unsupported.
    pub fn opcode(&self) -> (r: Option<u8>)
        ensures
            r == self.spec_code(),
    {
        match self.0 {
            Addr::Absolute => Some(0x20),
            _ => None,
        }
    }

    /// The opcode of this instruction in its addressing mode.
    pub fn code(&self) -> (r: u8)
        requires
            self.spec_code() is Some,
        ensures
            Some(r) == self.spec_code(),
    {
        self.opcode().unwrap()
    }

    /// Executes the instruction at `cpu.pc` (whose operand bytes follow it).
    pub fn execute(&self, cpu: &mut CPU) -> (r: Result<(), Fault>)
        ensures
            executed(self.effect(old(cpu)@), self.0, old(cpu)@, final(cpu)@, r),
    {
        reveal(executed);
        reveal(JSR::effect);
        if self.opcode().is_none() {
            return Err(Fault::UnsupportedAddressing { mode: self.0, pc: cpu.pc });
        }
        let target = cpu.read_word(cpu.pc.wrapping_add(1));
        cpu.pc = target;
        Ok(())
    }
}

} // verus!
