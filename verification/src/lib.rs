//! A CHIP-8 virtual machine: memory, register file, display buffer, keypad
//! and the fetch-decode-execute engine, with every operation specified and
//! verified against a mathematical model of the machine state.
//!
//! The crate owns no window, no event source and no file handle; a host
//! program feeds it ROM bytes and key states and reads the display buffer.

pub mod chip8;
