//! An interpreter for the Hitachi SH-2 instruction set, with a disassembler
//! and the on-chip register window of the SH7604.

pub mod bus;
pub mod disasm;
pub mod ops;
pub mod sh2;
pub mod sh7604;
pub mod text;

pub use bus::Bus;
pub use disasm::Disassemble;
pub use sh2::Sh2;
pub use sh7604::Sh7604Mem;
