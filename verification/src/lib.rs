//! The computational core of an 8-bit cartridge console: a 6502-family CPU
//! interpreter, the memory bus that routes its accesses, and the register and
//! timing model of the picture-processing unit.
//!
//! Every executable function carries a contract over a mathematical model of
//! the machine state (`CpuState`, `BusState`, `PpuState`), and the laws that
//! relate several operations are stated as public proof functions.

pub mod bits;
pub mod bus;
pub mod cartridge;
pub mod cpu;
pub mod logger;
pub mod mem;
pub mod opcodes;
pub mod ppu;
pub mod program;
pub mod rom;
