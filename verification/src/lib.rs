//! A CHIP-8 virtual machine core: machine state, the fetch/decode/execute
//! cycle, a 64x32 monochrome display buffer and a sixteen-key keypad.

pub mod cpu;
pub mod display;
pub mod dump;
pub mod error;
pub mod frame;
pub mod instruction;
pub mod keypad;
pub mod laws;
pub mod machine;

pub use cpu::Cpu;
pub use display::Display;
pub use error::Chip8Error;
pub use instruction::Instruction;
pub use keypad::Keypad;
