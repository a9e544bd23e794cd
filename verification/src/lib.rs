//! Core of an emulator for an 8-bit home console built around a 6502-family
//! CPU: the instruction interpreter, the picture-processing-unit timing and
//! register state machine, and the memory buses that tie them together.
//!
//! Host concerns (file loading, video output, keyboard polling) live outside
//! this crate; everything here is specified and verified.

pub mod bus;
pub mod controller;
pub mod cpu;
pub mod cpu_memory;
pub mod cpu_laws;
pub mod cpu_model;
pub mod errors;
pub mod memory;
pub mod memory_map;
pub mod nes_rom;
pub mod ppu;
pub mod ppu_memory;
pub mod ram;
pub mod render;
pub mod sprite;
