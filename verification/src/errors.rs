//! Error kinds raised by the emulator core.

use vstd::prelude::*;

verus! {

/// The failure modes of the emulator core.
///
/// `CartridgeInvalid`, `UndefinedOpcode`, `UnmappedWrite` and
/// `InvalidRomWrite` are fatal: callers should stop the emulation and report.
/// An unmapped *read* is recovered locally (the bus returns 0), so it never
/// surfaces as a value of this type from the core's entry points; the variant
/// exists for hosts that want to classify their own diagnostics.
#[derive(Clone, Copy, Debug, PartialEq, Eq, Structural)]
pub enum EmuError {
    /// Bad header magic or an unsupported cartridge layout.
    CartridgeInvalid,
    /// A decoded byte that is not one of the documented 151 opcodes.
    UndefinedOpcode,
    /// A write to an address range with no backing store.
    UnmappedWrite,
    /// A read from an address range with no backing store.
    UnmappedRead,
    /// A write into PRG-ROM or CHR-ROM on a ROM-backed cartridge.
    InvalidRomWrite,
}

} // verus!
