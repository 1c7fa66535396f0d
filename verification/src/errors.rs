use vstd::prelude::*;

verus! {

/// Errors reported by the emulation core.
///
/// The first two are fatal at load time and leave the cartridge untouched;
/// `AddressError` is reported per access and the machine may keep running;
/// `IllegalOpcode` is fatal at run time and carries the offending byte.
#[derive(Clone, Copy, Debug, PartialEq, Eq, Structural)]
pub enum EmuError {
    /// Malformed image header: bad unit counts, unrecognized mirroring bits,
    /// or a payload shorter than the header declares.
    FormatError,
    /// The header names a mapper this core has no implementation for.
    UnsupportedMapper,
    /// An access to the battery-backed RAM window of a cartridge that
    /// declares no such RAM.
    AddressError,
    /// The CPU fetched an opcode byte that the instruction table does not
    /// define.
    IllegalOpcode(u8),
}

} // verus!
