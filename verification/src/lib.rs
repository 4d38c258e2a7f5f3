//! Emulation core for a Commodore Plus/4 home computer.
//!
//! The crate models a 6510-class CPU, a banked 64 KiB memory map with
//! I/O-mapped peripherals, the TED video/timer/interrupt chip and a scanned
//! keyboard matrix.  The host is expected to own the outer loop: it loads the
//! two 32 KiB ROM images, feeds a key matrix snapshot between steps, calls
//! `step()` until a frame's worth of cycles has accumulated, and copies the
//! frame buffer out for display.

#![allow(unused_imports)]
use vstd::prelude::*;

pub mod cpu_state;
pub mod interp;
pub mod plus4;
pub mod prg_loader;

pub use cpu_state::CpuState;
pub use plus4::Plus4;
pub use prg_loader::PrgFile;

verus! {

/// The failures the core can report.
#[derive(Clone, Copy, Debug, PartialEq, Eq, Structural)]
pub enum EmuError {
    /// ADC was executed with the decimal flag set; decimal-mode addition is
    /// not provided and emulation must stop.
    UnsupportedMode,
    /// The byte at PC is neither a documented opcode nor one of the
    /// undocumented bytes treated as a two-cycle NOP.
    UnknownOpcode,
    /// `step()` was called before any ROM images were installed.
    RomMissing,
    /// A PRG image was shorter than the two bytes of its load address.
    BadPrg,
}

} // verus!
