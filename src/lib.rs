//! A CHIP-8 virtual machine: instruction decoder, execution engine, memory
//! store, message bus and frame orchestrator, with the host adapter's
//! decisions and the text of disassembly listings and the program menu.

pub mod chip8;
pub mod command;
pub mod constants;
pub mod emulator;
pub mod host;
pub mod isa;
pub mod memory;
pub mod menu;
pub mod opcode;
pub mod router;
pub mod sprite;
pub mod text;
