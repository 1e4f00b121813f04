//! An instruction-level emulator of the MOS 6502 processor: flat memory,
//! registers and status flags, the opcode table and an executor for each
//! supported instruction, with every step stated as a function of the state.

pub mod addressing;
pub mod cpu;
pub mod ins;
pub mod mem;
