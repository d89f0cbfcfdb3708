//! The core of an emulator of the Cody computer: a W65C02S processor that
//! executes one instruction per step, the bus of memories and devices it
//! transacts against, and a two-pass assembler for test programs.
//!
//! Every function comes with a contract over a mathematical model of its
//! data. The instruction set is given once, as the function
//! [`cpu::semantics::step`] from machine state to machine state, and the
//! processor is verified against it; [`cpu::laws`] and [`assembler::laws`]
//! hold what follows from the definitions.

pub mod assembler;
pub mod cpu;
pub mod device;
pub mod interrupt;
pub mod machine;
pub mod memory;
pub mod opcode;
pub mod single_step;
pub mod status;
