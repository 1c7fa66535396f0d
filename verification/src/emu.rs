use vstd::prelude::*;

use crate::cart::Cartridge;
use crate::cpu::{CPU, InteruptType, NMI_VECTOR, RESET_VECTOR, spec_decode};
use crate::errors::EmuError;
use crate::ppu::{PPU, Stage};

verus! {

/// The orchestrator: it owns the cartridge, the CPU and the picture unit
/// outright, drives the master clock in a fixed one-to-four interleave
/// (every fourth tick to the CPU, the rest to the picture unit), forwards
/// the picture unit's vertical-blank edge to the CPU as a non-maskable
/// interrupt — a synchronous call, before the CPU's next fetch boundary —
/// and exposes the frame-ready signal and the finished frame to the host.
pub struct Emu {
    pub cart: Cartridge,
    pub cpu: CPU,
    pub ppu: PPU,
    pub cycles: u64,
}

impl Emu {
    /// A machine ready to tick: a loaded cartridge and well-formed
    /// component memories.
    pub open spec fn wf(self) -> bool {
        &&& self.cart.loaded()
        &&& self.cpu.wf()
        &&& self.ppu.wf()
    }

    /// A machine with no cartridge loaded yet: every component in its
    /// power-on state.
    pub fn new() -> (e: Emu)
        ensures
            e.cpu.wf(),
            e.ppu.wf(),
            e.cycles == 0,
            e.cart.mapper_code == 0 && e.cart.prg@.len() == 0 && e.cart.chr@.len() == 0
                && e.cart.sram@.len() == 0 && !e.cart.has_sram && !e.cart.prg_mirror,
            e.cpu.r_pc == 0 && e.cpu.r_a == 0 && e.cpu.r_x == 0 && e.cpu.r_y == 0 && e.cpu.r_sp
                == 0 && e.cpu.r_st == 0,
            e.cpu.cycles == 0 && e.cpu.skip_cycles == 0,
            !e.cpu.frame_ready && !e.cpu.pending_nmi,
            e.cpu.ram@ =~= Seq::new(0x800nat, |i: int| 0u8),
            e.ppu.stage == Stage::PreRendering,
            e.ppu.cycles == 0 && e.ppu.scanline == 0,
            e.ppu.r_ppuctrl == 0 && e.ppu.r_ppumask == 0 && e.ppu.r_ppustatus == 0,
            e.ppu.r_oamaddr == 0 && e.ppu.r_oamdata == 0 && e.ppu.r_oamdma == 0 && e.ppu.r_ppudata
                == 0,
            e.ppu.vram_addr == 0 && e.ppu.x_scroll == 0 && e.ppu.y_scroll == 0,
            e.ppu.scroll_first_write && e.ppu.even_frame && !e.ppu.vblank_edge,
            e.ppu.vram@ =~= Seq::new(0x1000nat, |i: int| 0u8),
            e.ppu.oam@ =~= Seq::new(0x100nat, |i: int| 0u8),
            e.ppu.palette@ =~= Seq::new(0x20nat, |i: int| 0u8),
            e.ppu.frame@ =~= Seq::new(61440nat, |i: int| 0u8),
    {
        Emu { cart: Cartridge::new(), cpu: CPU::new(), ppu: PPU::new(), cycles: 0 }
    }

    /// Loads a program image into the cartridge; the other components are
    /// untouched. Succeeds exactly on a well-formed image for the base
    /// mapper, and on failure the cartridge is left as it was.
    pub fn load_rom(&mut self, data: &Vec<u8>) -> (r: Result<(), EmuError>)
        ensures
            *final(self) == (Emu { cart: final(self).cart, ..*old(self) }),
            r is Ok <==> Cartridge::spec_header_ok(data@) && Cartridge::spec_mapper(data@) == 0,
            (r == Err::<(), EmuError>(EmuError::UnsupportedMapper)) <==> (Cartridge::spec_header_ok(
                data@,
            ) && Cartridge::spec_mapper(data@) != 0),
            !Cartridge::spec_header_ok(data@) ==> r == Err::<(), EmuError>(EmuError::FormatError),
            r is Err ==> final(self).cart == old(self).cart,
            r is Ok ==> {
                &&& final(self).cart.loaded()
                &&& final(self).cart.prg@.len() == Cartridge::spec_prg_len(data@)
                &&& final(self).cart.chr@.len() == Cartridge::spec_chr_len(data@)
                &&& final(self).cart.has_sram == (data@[6] & crate::cart::SRAM_FLAG != 0)
                &&& final(self).cart.mirror_type == Cartridge::spec_mirror_of(data@)
            },
    {
        self.cart.load(data)
    }

    /// Power-on initialisation: resets the CPU — loading its program
    /// counter from the reset vector through the full bus decode — and
    /// then the picture unit.
    pub fn init(&mut self) -> (r: Result<(), EmuError>)
        requires
            old(self).cart.loaded(),
            old(self).cpu.wf(),
            old(self).ppu.wf(),
        ensures
            r is Ok,
            final(self).wf(),
            final(self).cart == old(self).cart,
            final(self).cycles == old(self).cycles,
            final(self).cpu.r_pc == old(self).cpu.spec_fetch_word(old(self).cart, RESET_VECTOR),
            final(self).cpu.r_a == 0 && final(self).cpu.r_x == 0 && final(self).cpu.r_y == 0,
            final(self).cpu.r_sp == crate::cpu::STACK_START,
            final(self).cpu.r_st == crate::cpu::STATUS_START,
            final(self).cpu.cycles == 0 && final(self).cpu.skip_cycles == 0,
            final(self).cpu.ram@ == old(self).cpu.ram@,
            final(self).cpu.frame_ready == old(self).cpu.frame_ready,
            final(self).cpu.pending_nmi == old(self).cpu.pending_nmi,
            final(self).ppu.stage == Stage::PreRendering,
            final(self).ppu.cycles == 0 && final(self).ppu.scanline == 0,
            !final(self).ppu.vblank_edge,
            final(self).ppu.vram@ == old(self).ppu.vram@,
            final(self).ppu.oam@ == old(self).ppu.oam@,
            final(self).ppu.palette@ == old(self).ppu.palette@,
            final(self).ppu.frame@ == old(self).ppu.frame@,
    {
        match self.cpu.reset(&self.cart, &mut self.ppu) {
            Ok(_) => (),
            Err(e) => return Err(e),
        }
        match self.ppu.reset() {
            Ok(_) => (),
            Err(e) => return Err(e),
        }
        Ok(())
    }

    /// Advances the machine by one master-clock tick. Every fourth tick
    /// steps the CPU, the remaining ticks step the picture unit; when a
    /// picture-unit step raises the vertical-blank edge, the orchestrator
    /// delivers it to the CPU at once as a pending non-maskable interrupt
    /// and marks the frame ready for the host. A fatal CPU error
    /// (an illegal opcode) or a per-access address fault propagates out;
    /// the machine stays well formed either way.
    pub fn tick(&mut self) -> (r: Result<(), EmuError>)
        requires
            old(self).wf(),
        ensures
            final(self).wf(),
            final(self).cycles == old(self).cycles.wrapping_add(1),
            old(self).cycles % 4 != 0 ==> r is Ok && final(self).cart == old(self).cart && ({
                exists|mid: PPU|
                    {
                        &&& #[trigger] PPU::spec_step_rel(old(self).ppu, mid, old(self).cart)
                        &&& (mid.vblank_edge ==> final(self).ppu == (PPU {
                            vblank_edge: false,
                            ..mid
                        }) && final(self).cpu == (CPU {
                            pending_nmi: true,
                            frame_ready: true,
                            ..old(self).cpu
                        }))
                        &&& (!mid.vblank_edge ==> final(self).ppu == mid && final(self).cpu == old(
                            self,
                        ).cpu)
                    }
            }),
            old(self).cycles % 4 == 0 ==> {
                &&& final(self).cpu.cycles == old(self).cpu.cycles.wrapping_add(1)
                &&& final(self).cpu.frame_ready == old(self).cpu.frame_ready
                &&& final(self).cart == (Cartridge {
                    sram: final(self).cart.sram,
                    ..old(self).cart
                })
                &&& (old(self).cpu.skip_cycles > 0 ==> r is Ok && CPU::spec_idle_step(
                    old(self).cpu,
                    final(self).cpu,
                ) && final(self).ppu == old(self).ppu && final(self).cart == old(self).cart)
                &&& (old(self).cpu.skip_cycles == 0 && old(self).cpu.pending_nmi ==> r is Ok
                    && !final(self).cpu.pending_nmi && final(self).cpu.r_pc == old(
                    self,
                ).cpu.spec_fetch_word(old(self).cart, NMI_VECTOR) && final(self).cpu.r_sp == old(
                    self,
                ).cpu.r_sp.wrapping_sub(3) && final(self).cpu.ram@ == old(self).cpu.ram@.update(
                    0x100 + old(self).cpu.r_sp as int,
                    (old(self).cpu.r_pc >> 8) as u8,
                ).update(
                    0x100 + old(self).cpu.r_sp.wrapping_sub(1) as int,
                    (old(self).cpu.r_pc & 0xff) as u8,
                ).update(0x100 + old(self).cpu.r_sp.wrapping_sub(2) as int, old(self).cpu.r_st))
                &&& (old(self).cpu.skip_cycles == 0 && !old(self).cpu.pending_nmi ==> ({
                    let opb = old(self).cpu.spec_fetch(old(self).cart, old(self).cpu.r_pc);
                    let dec = spec_decode(opb);
                    &&& (dec is None ==> r == Err::<(), EmuError>(EmuError::IllegalOpcode(opb)))
                    &&& (dec is Some ==> (r is Err <==> CPU::spec_accesses_memory(dec->0)
                        && CPU::spec_sram_fault(
                        old(self).cart,
                        old(self).cpu.spec_ea(old(self).cart, dec->0.mode, old(self).cpu.r_pc),
                    )))
                    &&& (dec is Some && r is Err ==> r == Err::<(), EmuError>(
                        EmuError::AddressError,
                    ))
                    &&& (dec is Some && r is Ok ==> {
                        &&& final(self).cpu.skip_cycles == old(self).cpu.spec_op_cost(
                            old(self).cart,
                            dec->0,
                            old(self).cpu.r_pc,
                        )
                        &&& (CPU::spec_straight_line(dec->0.instr) ==> final(self).cpu.r_pc == old(
                            self,
                        ).cpu.r_pc.wrapping_add(dec->0.len as u16))
                    })
                }))
            },
    {
        if self.cycles % 4 == 0 {
            match self.cpu.step(&mut self.cart, &mut self.ppu) {
                Ok(_) => (),
                Err(e) => {
                    self.cycles = self.cycles.wrapping_add(1);
                    return Err(e);
                },
            }
        } else {
            match self.ppu.step(&self.cart) {
                Ok(_) => (),
                Err(e) => {
                    self.cycles = self.cycles.wrapping_add(1);
                    return Err(e);
                },
            }
            if self.ppu.vblank_edge {
                self.ppu.vblank_edge = false;
                self.cpu.interrupt(InteruptType::NMI);
                self.cpu.frame_ready = true;
            }
        }
        self.cycles = self.cycles.wrapping_add(1);
        Ok(())
    }

    /// Drives the master clock until a frame is ready, giving up after
    /// `fuel` ticks: returns whether a frame is now waiting for the
    /// host. A per-access address fault or a fatal CPU error propagates
    /// out; the machine stays well formed and can be driven further.
    pub fn run_until_frame(&mut self, fuel: u64) -> (r: Result<bool, EmuError>)
        requires
            old(self).wf(),
        ensures
            final(self).wf(),
            r == Ok::<bool, EmuError>(true) ==> final(self).cpu.frame_ready,
            r == Ok::<bool, EmuError>(false) ==> !final(self).cpu.frame_ready,
    {
        let mut i: u64 = 0;
        while i < fuel
            invariant
                self.wf(),
                i <= fuel,
            decreases fuel - i,
        {
            if self.is_frame_ready() {
                return Ok(true);
            }
            match self.tick() {
                Ok(_) => (),
                Err(e) => return Err(e),
            }
            i = i + 1;
        }
        Ok(self.is_frame_ready())
    }

    /// Runtime check of the machine's well-formedness, for callers
    /// outside the verified world: exactly when it returns true, every
    /// operation's precondition about the machine state holds.
    pub fn is_ready(&self) -> (r: bool)
        ensures
            r == self.wf(),
    {
        let cart_ok = self.cart.mapper_code == 0 && self.cart.prg.len() == (
        if self.cart.prg_mirror {
            0x4000
        } else {
            0x8000
        }) && self.cart.chr.len() >= 0x2000 && self.cart.chr.len() % 0x2000 == 0
            && self.cart.sram.len() == (if self.cart.has_sram {
            0x2000
        } else {
            0
        });
        let cpu_ok = self.cpu.ram.len() == 0x800;
        let ppu_mem_ok = self.ppu.vram.len() == 0x1000 && self.ppu.oam.len() == 0x100
            && self.ppu.palette.len() == 0x20 && self.ppu.frame.len() == 256 * 240
            && self.ppu.cycles <= 340;
        let ppu_stage_ok = match self.ppu.stage {
            Stage::PreRendering => self.ppu.scanline == 0,
            Stage::Rendering => self.ppu.scanline < 240,
            Stage::PostRendering => 240 <= self.ppu.scanline && self.ppu.scanline <= 260,
        };
        cart_ok && cpu_ok && ppu_mem_ok && ppu_stage_ok
    }

    /// Whether a finished frame is waiting for the host.
    pub fn is_frame_ready(&self) -> (r: bool)
        ensures
            r == self.cpu.frame_ready,
    {
        self.cpu.is_frame_ready()
    }

    /// Hands the host the finished frame and clears the frame-ready
    /// signal; the frame buffer itself is not touched.
    pub fn frame(&mut self) -> (r: &Vec<u8>)
        ensures
            r@ == old(self).ppu.frame@,
            final(self).cpu == (CPU { frame_ready: false, ..old(self).cpu }),
            final(self).ppu == old(self).ppu,
            final(self).cart == old(self).cart,
            final(self).cycles == old(self).cycles,
    {
        self.cpu.frame_ready = false;
        &self.ppu.frame
    }
}

} // verus!
