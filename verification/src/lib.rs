//! Emulation core for a classic 8-bit game console.
//!
//! The crate models the three hardware components and the glue between them:
//! a cartridge holding program and pattern data ([`cart`]), a CPU running a
//! fetch-decode-execute loop with cycle accounting ([`cpu`]), a
//! picture-processing unit producing one indexed-colour frame per simulated
//! frame period ([`ppu`]), and an orchestrator that owns all three and drives
//! the clock interleave ([`emu`]).

pub mod cart;
pub mod cpu;
pub mod emu;
pub mod errors;
pub mod ppu;
pub mod utils;
