use vstd::prelude::*;

use crate::cart::{Cartridge, MirrorType};
use crate::errors::EmuError;
use crate::utils;

verus! {

/// The three stages of the picture unit's frame cycle. They repeat forever
/// in the order pre-rendering, rendering, post-rendering.
#[derive(Clone, Copy, Debug, PartialEq, Eq, Structural)]
pub enum Stage {
    PreRendering,
    Rendering,
    PostRendering,
}

/// The stage that follows a given stage in the frame cycle.
pub open spec fn spec_next_stage(s: Stage) -> Stage {
    match s {
        Stage::PreRendering => Stage::Rendering,
        Stage::Rendering => Stage::PostRendering,
        Stage::PostRendering => Stage::PreRendering,
    }
}

/// The picture-processing unit: its CPU-visible register file, its own
/// memories (nametable video memory, sprite memory, palette memory), the
/// frame buffer it renders into, and the cycle/scanline counters of its
/// stage machine.
pub struct PPU {
    pub vram: Vec<u8>,
    pub oam: Vec<u8>,
    pub palette: Vec<u8>,
    pub frame: Vec<u8>,
    pub cycles: u16,
    pub scanline: u16,
    // registers
    pub r_ppuctrl: u8,
    pub r_ppumask: u8,
    pub r_ppustatus: u8,
    pub r_oamaddr: u8,
    pub r_oamdata: u8,
    pub r_oamdma: u8,
    pub r_ppudata: u8,
    pub vram_addr: u16,
    pub x_scroll: u16,
    pub y_scroll: u16,
    pub scroll_first_write: bool,
    pub even_frame: bool,
    pub stage: Stage,
    pub vblank_edge: bool,
}

/// Pixels per frame row.
pub const FRAME_WIDTH: u16 = 256;

/// Visible scanlines per frame.
pub const FRAME_HEIGHT: u16 = 240;

/// Last cycle index of a scanline; each scanline spans cycles `0..=340`.
pub const LINE_LAST_CYCLE: u16 = 340;

/// Last scanline of the vertical-blank period; the line after it is the
/// pre-rendering line of the next frame.
pub const VBLANK_LAST_LINE: u16 = 260;

/// Vertical-blank bit of the status register.
pub const STATUS_VBLANK: u8 = 0x80;

impl PPU {
    /// Memory sizes and counter bounds every operation preserves.
    pub open spec fn wf(self) -> bool {
        &&& self.vram@.len() == 0x1000
        &&& self.oam@.len() == 0x100
        &&& self.palette@.len() == 0x20
        &&& self.frame@.len() == FRAME_WIDTH as int * FRAME_HEIGHT as int
        &&& self.cycles <= LINE_LAST_CYCLE
        &&& (self.stage is Rendering ==> self.scanline < FRAME_HEIGHT)
        &&& (self.stage is PostRendering ==> FRAME_HEIGHT <= self.scanline <= VBLANK_LAST_LINE)
        &&& (self.stage is PreRendering ==> self.scanline == 0)
    }

    /// Background rendering is switched on in the mask register.
    pub open spec fn spec_show_background(self) -> bool {
        self.r_ppumask & 0x10 != 0
    }

    /// Sprite rendering is switched on in the mask register.
    pub open spec fn spec_show_sprites(self) -> bool {
        self.r_ppumask & 0x08 != 0
    }

    /// Index into video memory for a nametable address, after remapping
    /// per the cartridge's mirroring mode: horizontally mirrored layouts
    /// pair the tables top/bottom, vertical layouts left/right, and the
    /// four-screen layout uses all 4KB directly.
    pub open spec fn spec_vram_index(mt: MirrorType, addr: u16) -> int {
        let v = ((addr - 0x2000) as u16) & 0x0fff;
        let off = v & 0x03ff;
        match mt {
            MirrorType::HORIZONTAL => ((v >> 10) >> 1) as int * 0x400 + off as int,
            MirrorType::VERTICAL => ((v >> 10) & 1) as int * 0x400 + off as int,
            MirrorType::NONE => v as int,
        }
    }

    /// Index into the 32-entry palette memory: the address is masked to 32
    /// entries, and the four sprite-background slots mirror their
    /// background counterparts.
    pub open spec fn spec_palette_index(addr: u16) -> int {
        let p = addr & 0x1f;
        if p == 0x10 || p == 0x14 || p == 0x18 || p == 0x1c {
            p as int - 0x10
        } else {
            p as int
        }
    }

    /// The byte the picture unit's own address space yields: pattern data
    /// below `0x2000`, nametable video memory below `0x3F00`, palette
    /// memory below `0x4000`, and 0 above it.
    pub open spec fn spec_ppu_read(self, cart: Cartridge, addr: u16) -> u8 {
        if addr < 0x2000 {
            cart.chr@[addr as int]
        } else if addr < 0x3f00 {
            self.vram@[Self::spec_vram_index(cart.mirror_type, addr)]
        } else if addr < 0x4000 {
            self.palette@[Self::spec_palette_index(addr)]
        } else {
            0
        }
    }

    /// A fresh unit: memories zeroed, registers cleared, counters at the
    /// start of the pre-rendering stage of an even frame.
    pub fn new() -> (p: PPU)
        ensures
            p.wf(),
            p.vram@ =~= Seq::new(0x1000nat, |i: int| 0u8),
            p.oam@ =~= Seq::new(0x100nat, |i: int| 0u8),
            p.palette@ =~= Seq::new(0x20nat, |i: int| 0u8),
            p.frame@ =~= Seq::new((FRAME_WIDTH * FRAME_HEIGHT) as nat, |i: int| 0u8),
            p.cycles == 0 && p.scanline == 0,
            p.r_ppuctrl == 0 && p.r_ppumask == 0 && p.r_ppustatus == 0,
            p.r_oamaddr == 0 && p.r_oamdata == 0 && p.r_oamdma == 0 && p.r_ppudata == 0,
            p.vram_addr == 0 && p.x_scroll == 0 && p.y_scroll == 0,
            p.scroll_first_write,
            p.even_frame,
            p.stage == Stage::PreRendering,
            !p.vblank_edge,
    {
        PPU {
            vram: vec![0u8; 0x1000],
            oam: vec![0u8; 0x100],
            palette: vec![0u8; 0x20],
            frame: vec![0u8; 256 * 240],
            cycles: 0,
            scanline: 0,
            r_ppuctrl: 0,
            r_ppumask: 0,
            r_ppustatus: 0,
            r_oamaddr: 0,
            r_oamdata: 0,
            r_oamdma: 0,
            r_ppudata: 0,
            vram_addr: 0,
            x_scroll: 0,
            y_scroll: 0,
            scroll_first_write: true,
            even_frame: true,
            stage: Stage::PreRendering,
            vblank_edge: false,
        }
    }

    /// Puts the register file and the stage machine back in their power-on
    /// state; the memories and the frame buffer keep their contents.
    pub fn reset(&mut self) -> (r: Result<(), EmuError>)
        ensures
            r is Ok,
            final(self).wf() == (old(self).vram@.len() == 0x1000 && old(self).oam@.len() == 0x100
                && old(self).palette@.len() == 0x20 && old(self).frame@.len() == FRAME_WIDTH as int
                * FRAME_HEIGHT as int),
            final(self).vram@ == old(self).vram@,
            final(self).oam@ == old(self).oam@,
            final(self).palette@ == old(self).palette@,
            final(self).frame@ == old(self).frame@,
            final(self).cycles == 0 && final(self).scanline == 0,
            final(self).r_ppuctrl == 0 && final(self).r_ppumask == 0 && final(self).r_ppustatus
                == 0,
            final(self).r_oamaddr == 0 && final(self).r_oamdata == 0 && final(self).r_oamdma == 0,
            final(self).r_ppudata == 0,
            final(self).vram_addr == 0 && final(self).x_scroll == 0 && final(self).y_scroll == 0,
            final(self).scroll_first_write,
            final(self).even_frame,
            final(self).stage == Stage::PreRendering,
            !final(self).vblank_edge,
    {
        self.cycles = 0;
        self.scanline = 0;
        self.r_ppuctrl = 0;
        self.r_ppumask = 0;
        self.r_ppustatus = 0;
        self.r_oamaddr = 0;
        self.r_oamdata = 0;
        self.r_oamdma = 0;
        self.r_ppudata = 0;
        self.vram_addr = 0;
        self.x_scroll = 0;
        self.y_scroll = 0;
        self.scroll_first_write = true;
        self.even_frame = true;
        self.stage = Stage::PreRendering;
        self.vblank_edge = false;
        Ok(())
    }

    /// Background rendering is switched on in the mask register.
    pub fn show_background(&self) -> (r: bool)
        ensures
            r == self.spec_show_background(),
    {
        utils::binaryBoolAnd(self.r_ppumask, 0x10)
    }

    /// Sprite rendering is switched on in the mask register.
    pub fn show_sprites(&self) -> (r: bool)
        ensures
            r == self.spec_show_sprites(),
    {
        utils::binaryBoolAnd(self.r_ppumask, 0x08)
    }

    /// Reads the picture unit's own address space.
    pub fn read(&self, addr: u16, cart: &Cartridge) -> (r: Result<u8, EmuError>)
        requires
            self.wf(),
            cart.mapper_code == 0 ==> cart.chr_sized(),
        ensures
            cart.mapper_code == 0 && addr < 0x4000 ==> r == Ok::<u8, EmuError>(
                self.spec_ppu_read(*cart, addr),
            ),
            addr >= 0x4000 ==> r == Err::<u8, EmuError>(EmuError::AddressError),
            cart.mapper_code != 0 && addr < 0x2000 ==> r == Err::<u8, EmuError>(
                EmuError::UnsupportedMapper,
            ),
    {
        if addr < 0x2000 {
            self.read_chr(addr, cart)
        } else if addr < 0x3f00 {
            Ok(self.read_nametable(addr, cart.get_mirror_type()))
        } else if addr < 0x4000 {
            Ok(self.read_palette(addr))
        } else {
            Err(EmuError::AddressError)
        }
    }

    /// Pattern fetch, answered by the cartridge.
    fn read_chr(&self, addr: u16, cart: &Cartridge) -> (r: Result<u8, EmuError>)
        requires
            addr < 0x2000,
            cart.mapper_code == 0 ==> cart.chr_sized(),
        ensures
            cart.mapper_code == 0 ==> r == Ok::<u8, EmuError>(cart.chr@[addr as int]),
            cart.mapper_code != 0 ==> r == Err::<u8, EmuError>(EmuError::UnsupportedMapper),
    {
        cart.read_chr(addr)
    }

    /// Nametable fetch, remapped per the mirroring mode before indexing
    /// the 4KB video memory.
    fn read_nametable(&self, addr: u16, mt: MirrorType) -> (r: u8)
        requires
            self.wf(),
            0x2000 <= addr,
        ensures
            r == self.vram@[Self::spec_vram_index(mt, addr)],
    {
        let v = (addr - 0x2000) & 0x0fff;
        let off = v & 0x03ff;
        proof {
            lemma_vram_mask_bounds((addr - 0x2000) as u16);
        }
        let idx: usize = match mt {
            MirrorType::HORIZONTAL => (((v >> 10) >> 1) as usize) * 0x400 + off as usize,
            MirrorType::VERTICAL => (((v >> 10) & 1) as usize) * 0x400 + off as usize,
            MirrorType::NONE => v as usize,
        };
        self.vram[idx]
    }

    /// Palette fetch, masked to 32 entries with the four mirrored slots.
    fn read_palette(&self, addr: u16) -> (r: u8)
        requires
            self.wf(),
        ensures
            r == self.palette@[Self::spec_palette_index(addr)],
    {
        let p = addr & 0x1f;
        proof {
            lemma_palette_mask_bound(addr);
        }
        let idx: usize = if p == 0x10 || p == 0x14 || p == 0x18 || p == 0x1c {
            (p - 0x10) as usize
        } else {
            p as usize
        };
        self.palette[idx]
    }

    /// One write of the two-write scroll latch: the first write sets the X
    /// scroll, carried into the second screen when the control register's
    /// X-nametable bit is set; the second write sets the Y scroll with a
    /// 240-pixel second screen analogously. The first-write toggle flips
    /// after each write.
    pub open spec fn spec_set_scroll(self, data: u8) -> PPU {
        if self.scroll_first_write {
            PPU {
                x_scroll: if self.r_ppuctrl & 0x01 != 0 {
                    (256 + data) as u16
                } else {
                    data as u16
                },
                scroll_first_write: false,
                ..self
            }
        } else {
            PPU {
                y_scroll: if self.r_ppuctrl & 0x02 != 0 {
                    (240 + data) as u16
                } else {
                    data as u16
                },
                scroll_first_write: true,
                ..self
            }
        }
    }

    /// Applies one write of the scroll latch protocol.
    pub fn set_scroll(&mut self, data: u8)
        ensures
            *final(self) == old(self).spec_set_scroll(data),
    {
        if self.scroll_first_write {
            self.x_scroll = if self.r_ppuctrl & 0x01 != 0 {
                256 + data as u16
            } else {
                data as u16
            };
            self.scroll_first_write = false;
        } else {
            self.y_scroll = if self.r_ppuctrl & 0x02 != 0 {
                240 + data as u16
            } else {
                data as u16
            };
            self.scroll_first_write = true;
        }
    }

    /// Relation between the unit's state before and after a write to its
    /// own address space: pattern memory is read-only and the write is
    /// discarded; a nametable write lands in video memory after mirroring;
    /// a palette write lands in its masked, mirrored slot.
    pub open spec fn spec_mem_write_rel(pre: PPU, post: PPU, mt: MirrorType, a: u16, data: u8) -> bool {
        if a < 0x2000 {
            post == pre
        } else if a < 0x3f00 {
            &&& post.vram@ == pre.vram@.update(Self::spec_vram_index(mt, a), data)
            &&& post == (PPU { vram: post.vram, ..pre })
        } else {
            &&& post.palette@ == pre.palette@.update(Self::spec_palette_index(a), data)
            &&& post == (PPU { palette: post.palette, ..pre })
        }
    }

    /// Writes the unit's own address space (already masked to 14 bits).
    fn mem_write(&mut self, a: u16, data: u8, mt: MirrorType)
        requires
            old(self).wf(),
            a < 0x4000,
        ensures
            Self::spec_mem_write_rel(*old(self), *final(self), mt, a, data),
            final(self).wf(),
    {
        if a < 0x2000 {
            // pattern data is read-only for the base mapper
        } else if a < 0x3f00 {
            let v = (a - 0x2000) & 0x0fff;
            let off = v & 0x03ff;
            proof {
                lemma_vram_mask_bounds((a - 0x2000) as u16);
            }
            let idx: usize = match mt {
                MirrorType::HORIZONTAL => (((v >> 10) >> 1) as usize) * 0x400 + off as usize,
                MirrorType::VERTICAL => (((v >> 10) & 1) as usize) * 0x400 + off as usize,
                MirrorType::NONE => v as usize,
            };
            self.vram[idx] = data;
        } else {
            let p = a & 0x1f;
            proof {
                lemma_palette_mask_bound(a);
            }
            let idx: usize = if p == 0x10 || p == 0x14 || p == 0x18 || p == 0x1c {
                (p - 0x10) as usize
            } else {
                p as usize
            };
            self.palette[idx] = data;
        }
    }

    /// The address the data port works on: the latch masked to the unit's
    /// 14-bit address space.
    pub open spec fn spec_data_addr(self) -> u16 {
        self.vram_addr & 0x3fff
    }

    /// The step the address latch takes after a data-port access: forward
    /// by 32 when the control register selects column-major strides,
    /// otherwise by 1.
    pub open spec fn spec_addr_step(self) -> u16 {
        if self.r_ppuctrl & 0x04 != 0 {
            32
        } else {
            1
        }
    }

    /// The value a read of CPU-visible register `reg` returns: the status
    /// register, the sprite byte under the sprite address register, or the
    /// byte under the address latch for the data port; the write-only
    /// registers read as 0.
    pub open spec fn spec_reg_read_val(self, cart: Cartridge, reg: u16) -> u8 {
        let sel = (reg - 0x2000) as u16;
        if sel == 2 {
            self.r_ppustatus
        } else if sel == 4 {
            self.oam@[self.r_oamaddr as int]
        } else if sel == 7 {
            self.spec_ppu_read(cart, self.spec_data_addr())
        } else {
            0
        }
    }

    /// Relation between the unit's state before and after a register
    /// read. A status read clears the vertical-blank bit and resets the
    /// two-write latch toggle; a data-port read refreshes the data latch
    /// and steps the address latch; every other read leaves the unit as it
    /// was.
    pub open spec fn spec_reg_read_rel(pre: PPU, post: PPU, cart: Cartridge, reg: u16) -> bool {
        let sel = (reg - 0x2000) as u16;
        if sel == 2 {
            post == (PPU {
                r_ppustatus: (pre.r_ppustatus & 0x7f) as u8,
                scroll_first_write: true,
                ..pre
            })
        } else if sel == 7 {
            post == (PPU {
                r_ppudata: pre.spec_ppu_read(cart, pre.spec_data_addr()),
                vram_addr: pre.vram_addr.wrapping_add(pre.spec_addr_step()),
                ..pre
            })
        } else {
            post == pre
        }
    }

    /// Reads one CPU-visible register (`0x2000..=0x2007`), with the
    /// documented side effects on the latch toggles.
    pub fn reg_read(&mut self, reg: u16, cart: &Cartridge) -> (r: u8)
        requires
            old(self).wf(),
            0x2000 <= reg < 0x2008,
            cart.mapper_code == 0,
            cart.chr_sized(),
        ensures
            r == old(self).spec_reg_read_val(*cart, reg),
            Self::spec_reg_read_rel(*old(self), *final(self), *cart, reg),
            final(self).wf(),
    {
        let sel = reg - 0x2000;
        if sel == 2 {
            let v = self.r_ppustatus;
            self.r_ppustatus = self.r_ppustatus & 0x7f;
            self.scroll_first_write = true;
            v
        } else if sel == 4 {
            self.oam[self.r_oamaddr as usize]
        } else if sel == 7 {
            let a = self.vram_addr & 0x3fff;
            proof {
                lemma_data_addr_bound(self.vram_addr);
            }
            let v = match self.read(a, cart) {
                Ok(v) => v,
                Err(_) => 0,
            };
            self.r_ppudata = v;
            self.vram_addr = self.vram_addr.wrapping_add(self.addr_step());
            v
        } else {
            0
        }
    }

    /// The data-port address step the control register currently selects.
    fn addr_step(&self) -> (r: u16)
        ensures
            r == self.spec_addr_step(),
    {
        if self.r_ppuctrl & 0x04 != 0 {
            32
        } else {
            1
        }
    }

    /// Relation between the unit's state before and after a register
    /// write: control, mask and the sprite address register are plain
    /// stores; a sprite-data write lands in sprite memory and steps the
    /// sprite address; scroll and address writes drive their two-write
    /// latches; a data-port write lands in the unit's address space and
    /// steps the address latch. The status register is read-only.
    pub open spec fn spec_reg_write_rel(
        pre: PPU,
        post: PPU,
        mt: MirrorType,
        reg: u16,
        data: u8,
    ) -> bool {
        let sel = (reg - 0x2000) as u16;
        if sel == 0 {
            post == (PPU { r_ppuctrl: data, ..pre })
        } else if sel == 1 {
            post == (PPU { r_ppumask: data, ..pre })
        } else if sel == 2 {
            post == pre
        } else if sel == 3 {
            post == (PPU { r_oamaddr: data, ..pre })
        } else if sel == 4 {
            &&& post.oam@ == pre.oam@.update(pre.r_oamaddr as int, data)
            &&& post == (PPU {
                oam: post.oam,
                r_oamaddr: pre.r_oamaddr.wrapping_add(1),
                r_oamdata: data,
                ..pre
            })
        } else if sel == 5 {
            post == pre.spec_set_scroll(data)
        } else if sel == 6 {
            post == (PPU {
                vram_addr: if pre.scroll_first_write {
                    (((data as u16) << 8) | (pre.vram_addr & 0x00ff)) as u16
                } else {
                    ((pre.vram_addr & 0xff00) | (data as u16)) as u16
                },
                scroll_first_write: !pre.scroll_first_write,
                ..pre
            })
        } else {
            exists|mid: PPU|
                {
                    &&& #[trigger] Self::spec_mem_write_rel(pre, mid, mt, pre.spec_data_addr(), data)
                    &&& post == (PPU {
                        vram_addr: pre.vram_addr.wrapping_add(pre.spec_addr_step()),
                        ..mid
                    })
                }
        }
    }

    /// Writes one CPU-visible register (`0x2000..=0x2007`), with the
    /// documented latch protocols.
    pub fn reg_write(&mut self, reg: u16, data: u8, cart: &Cartridge)
        requires
            old(self).wf(),
            0x2000 <= reg < 0x2008,
        ensures
            Self::spec_reg_write_rel(*old(self), *final(self), cart.mirror_type, reg, data),
            final(self).wf(),
    {
        let sel = reg - 0x2000;
        if sel == 0 {
            self.r_ppuctrl = data;
        } else if sel == 1 {
            self.r_ppumask = data;
        } else if sel == 2 {
            // the status register is read-only
        } else if sel == 3 {
            self.r_oamaddr = data;
        } else if sel == 4 {
            let i = self.r_oamaddr as usize;
            self.oam[i] = data;
            self.r_oamaddr = self.r_oamaddr.wrapping_add(1);
            self.r_oamdata = data;
        } else if sel == 5 {
            self.set_scroll(data);
        } else if sel == 6 {
            if self.scroll_first_write {
                self.vram_addr = ((data as u16) << 8) | (self.vram_addr & 0x00ff);
            } else {
                self.vram_addr = (self.vram_addr & 0xff00) | (data as u16);
            }
            self.scroll_first_write = !self.scroll_first_write;
        } else {
            let a = self.vram_addr & 0x3fff;
            proof {
                lemma_data_addr_bound(self.vram_addr);
            }
            self.mem_write(a, data, cart.get_mirror_type());
            let ghost mid = *self;
            self.vram_addr = self.vram_addr.wrapping_add(self.addr_step());
            proof {
                assert(Self::spec_mem_write_rel(
                    *old(self),
                    mid,
                    cart.mirror_type,
                    old(self).spec_data_addr(),
                    data,
                ));
                assert(*self == (PPU {
                    vram_addr: old(self).vram_addr.wrapping_add(old(self).spec_addr_step()),
                    ..mid
                }));
            }
        }
    }

    /// Stores the page number written to the sprite-transfer trigger
    /// register; the transfer itself is outside this core's scope.
    pub fn write_oamdma(&mut self, data: u8)
        ensures
            *final(self) == (PPU { r_oamdma: data, ..*old(self) }),
    {
        self.r_oamdma = data;
    }

    /// The pre-rendering stage hands over to rendering after its last
    /// cycle: cycle 340 normally, already at cycle 339 on odd frames when
    /// both background and sprite rendering are switched on (the timing
    /// skip of the video standard).
    pub open spec fn spec_end_prerendering(self) -> bool {
        ||| self.cycles == LINE_LAST_CYCLE
        ||| (self.cycles == 339 && !self.even_frame && self.spec_show_background()
            && self.spec_show_sprites())
    }

    /// Whether the pre-rendering stage is over.
    pub fn end_prerendering(&self) -> (r: bool)
        ensures
            r == self.spec_end_prerendering(),
    {
        if self.cycles == 340 {
            return true;
        }
        if self.cycles == 339 && !self.even_frame && self.show_background()
            && self.show_sprites() {
            return true;
        }
        false
    }

    /// Relation between the unit's state before and after one
    /// pre-rendering step: when the stage is over the unit starts
    /// rendering at cycle 1 of scanline 0, otherwise the cycle counter
    /// advances and nothing else moves.
    pub open spec fn spec_pre_rel(pre: PPU, post: PPU) -> bool {
        if pre.spec_end_prerendering() {
            post == (PPU { cycles: 1u16, scanline: 0u16, stage: Stage::Rendering, ..pre })
        } else {
            post == (PPU { cycles: (pre.cycles + 1) as u16, ..pre })
        }
    }

    /// One cycle of the pre-rendering stage.
    pub fn pre_rendering(&mut self) -> (r: Result<(), EmuError>)
        requires
            old(self).wf(),
            old(self).stage is PreRendering,
        ensures
            r is Ok,
            Self::spec_pre_rel(*old(self), *final(self)),
            final(self).wf(),
    {
        if self.end_prerendering() {
            self.cycles = 0;
            self.scanline = 0;
            self.stage = Stage::Rendering;
        }
        self.cycles = self.cycles + 1;
        Ok(())
    }

    /// Horizontal position of the background pixel the current cycle
    /// produces, after scrolling, wrapped to the 256-pixel row.
    pub open spec fn spec_bg_x(self) -> u16 {
        ((self.cycles - 1 + self.x_scroll) % 256) as u16
    }

    /// Vertical position of the background pixel the current scanline
    /// produces, after scrolling, wrapped to the 240-line screen.
    pub open spec fn spec_bg_y(self) -> u16 {
        ((self.scanline + self.y_scroll) % 240) as u16
    }

    /// Address of the low bit-plane row byte for the tile under `(x, y)`:
    /// the background pattern-table select bit of the control register,
    /// the tile row and column, and the fine row within the tile.
    pub open spec fn spec_pattern_low_addr(self, x: u16, y: u16) -> u16 {
        ((((self.r_ppuctrl & 0x10) as u16) << 4) | ((y >> 3) << 8) | ((x >> 3) << 4) | (y
            & 0x07)) as u16
    }

    /// Address of the attribute byte covering `(x, y)` in the first
    /// nametable's attribute area.
    pub open spec fn spec_attr_addr(x: u16, y: u16) -> u16 {
        (0x23c0u16 | ((y >> 5) << 3) | (x >> 5)) as u16
    }

    /// How far the 2-bit palette selector for `(x, y)` sits within its
    /// attribute byte: one quadrant of the 32-pixel attribute cell per
    /// 2-bit field.
    pub open spec fn spec_attr_shift(x: u16, y: u16) -> u8 {
        ((((y >> 4) & 1) as u8) * 4 + (((x >> 4) & 1) as u8) * 2) as u8
    }

    /// The palette index the background pipeline produces for the pixel of
    /// the current cycle and scanline: the bit pair of the two pattern
    /// planes, selected into the background region of palette memory by
    /// the attribute byte's 2-bit selector.
    pub open spec fn spec_bg_color(self, cart: Cartridge) -> u8 {
        let x = self.spec_bg_x();
        let y = self.spec_bg_y();
        let addr_lo = self.spec_pattern_low_addr(x, y);
        let addr_hi = (addr_lo | 0x0008) as u16;
        let lo = self.spec_ppu_read(cart, addr_lo);
        let hi = self.spec_ppu_read(cart, addr_hi);
        let attr = self.spec_ppu_read(cart, Self::spec_attr_addr(x, y));
        let bit = (7 - ((x & 0x07) as u8)) as u8;
        let p0 = (lo >> bit) & 1;
        let p1 = (hi >> bit) & 1;
        let pix = (p1 * 2 + p0) as u8;
        let sel = (attr >> Self::spec_attr_shift(x, y)) & 3;
        let paddr = (0x3f00u16 | ((sel as u16) << 2) | (pix as u16)) as u16;
        self.spec_ppu_read(cart, paddr)
    }

    /// Index into the frame buffer of the pixel the current cycle and
    /// scanline produce.
    pub open spec fn spec_frame_index(self) -> int {
        self.scanline as int * 256 + (self.cycles as int - 1)
    }

    /// Whether the current rendering cycle produces a pixel: cycles 1
    /// through 256 of each visible scanline do, the rest of the scanline
    /// is fetch and idle time.
    pub open spec fn spec_draws_pixel(self) -> bool {
        1 <= self.cycles <= 256 && self.scanline < FRAME_HEIGHT
    }

    /// Relation between the unit's state before and after one rendering
    /// step: a pixel cycle writes exactly one background pixel into the
    /// frame buffer; cycle 340 wraps into the next scanline; wrapping out
    /// of the last visible scanline hands over to post-rendering.
    pub open spec fn spec_render_rel(pre: PPU, post: PPU, cart: Cartridge) -> bool {
        &&& if pre.spec_draws_pixel() {
            post.frame@ == pre.frame@.update(pre.spec_frame_index(), pre.spec_bg_color(cart))
        } else {
            post.frame@ == pre.frame@
        }
        &&& if pre.cycles == LINE_LAST_CYCLE && pre.scanline == (FRAME_HEIGHT - 1) as u16 {
            post == (PPU {
                frame: post.frame,
                cycles: 0u16,
                scanline: FRAME_HEIGHT,
                stage: Stage::PostRendering,
                ..pre
            })
        } else if pre.cycles == LINE_LAST_CYCLE {
            post == (PPU {
                frame: post.frame,
                cycles: 0u16,
                scanline: (pre.scanline + 1) as u16,
                ..pre
            })
        } else {
            post == (PPU { frame: post.frame, cycles: (pre.cycles + 1) as u16, ..pre })
        }
    }

    /// One cycle of the rendering stage.
    pub fn rendering(&mut self, cart: &Cartridge) -> (r: Result<(), EmuError>)
        requires
            old(self).wf(),
            old(self).stage is Rendering,
            cart.mapper_code == 0,
            cart.chr_sized(),
        ensures
            r is Ok,
            Self::spec_render_rel(*old(self), *final(self), *cart),
            final(self).wf(),
    {
        if self.cycles >= 1 && self.cycles <= 256 {
            let x32: u32 = ((self.cycles - 1) as u32 + self.x_scroll as u32) % 256;
            let y32: u32 = (self.scanline as u32 + self.y_scroll as u32) % 240;
            let x: u16 = x32 as u16;
            let y: u16 = y32 as u16;
            proof {
                assert(x == self.spec_bg_x());
                assert(y == self.spec_bg_y());
                lemma_bg_addr_bounds(self.r_ppuctrl, x, y);
            }
            let bsel: u16 = ((self.r_ppuctrl & 0x10) as u16) << 4;
            let addr_lo: u16 = bsel | ((y >> 3) << 8) | ((x >> 3) << 4) | (y & 0x07);
            let addr_hi: u16 = addr_lo | 0x0008;
            let lo = match self.read(addr_lo, cart) {
                Ok(v) => v,
                Err(e) => return Err(e),
            };
            let hi = match self.read(addr_hi, cart) {
                Ok(v) => v,
                Err(e) => return Err(e),
            };
            let attr_addr: u16 = 0x23c0 | ((y >> 5) << 3) | (x >> 5);
            let attr = match self.read(attr_addr, cart) {
                Ok(v) => v,
                Err(e) => return Err(e),
            };
            let bit: u8 = 7 - ((x & 0x07) as u8);
            let p0: u8 = (lo >> bit) & 1;
            let p1: u8 = (hi >> bit) & 1;
            proof {
                lemma_pixel_bits(lo, hi, attr, bit, Self::spec_attr_shift(x, y));
            }
            let pix: u8 = p1 * 2 + p0;
            let shift: u8 = (((y >> 4) & 1) as u8) * 4 + (((x >> 4) & 1) as u8) * 2;
            let sel: u8 = (attr >> shift) & 3;
            proof {
                lemma_palette_addr_bound(sel, pix);
            }
            let paddr: u16 = 0x3f00 | ((sel as u16) << 2) | (pix as u16);
            let color = match self.read(paddr, cart) {
                Ok(v) => v,
                Err(e) => return Err(e),
            };
            proof {
                assert(color == old(self).spec_bg_color(*cart));
            }
            let fidx: usize = (self.scanline as usize) * 256 + ((self.cycles - 1) as usize);
            self.frame[fidx] = color;
        }
        if self.cycles == 340 {
            if self.scanline == 239 {
                self.scanline = 240;
                self.cycles = 0;
                self.stage = Stage::PostRendering;
            } else {
                self.scanline = self.scanline + 1;
                self.cycles = 0;
            }
        } else {
            self.cycles = self.cycles + 1;
        }
        Ok(())
    }

    /// Relation between the unit's state before and after one
    /// post-rendering step: the first cycle of the stage raises the
    /// vertical-blank flag and its edge signal, once per frame; the last
    /// cycle of the last blank scanline hands over to pre-rendering,
    /// clears the flag and toggles the frame parity.
    pub open spec fn spec_post_rel(pre: PPU, post: PPU) -> bool {
        let raise = pre.scanline == FRAME_HEIGHT && pre.cycles == 0;
        let st = if raise {
            (pre.r_ppustatus | STATUS_VBLANK) as u8
        } else {
            pre.r_ppustatus
        };
        let edge = raise || pre.vblank_edge;
        if pre.cycles == LINE_LAST_CYCLE && pre.scanline == VBLANK_LAST_LINE {
            post == (PPU {
                r_ppustatus: (st & 0x7f) as u8,
                vblank_edge: edge,
                cycles: 0u16,
                scanline: 0u16,
                stage: Stage::PreRendering,
                even_frame: !pre.even_frame,
                ..pre
            })
        } else if pre.cycles == LINE_LAST_CYCLE {
            post == (PPU {
                r_ppustatus: st,
                vblank_edge: edge,
                cycles: 0u16,
                scanline: (pre.scanline + 1) as u16,
                ..pre
            })
        } else {
            post == (PPU {
                r_ppustatus: st,
                vblank_edge: edge,
                cycles: (pre.cycles + 1) as u16,
                ..pre
            })
        }
    }

    /// One cycle of the post-rendering (vertical blank) stage.
    pub fn post_rendering(&mut self) -> (r: Result<(), EmuError>)
        requires
            old(self).wf(),
            old(self).stage is PostRendering,
        ensures
            r is Ok,
            Self::spec_post_rel(*old(self), *final(self)),
            final(self).wf(),
    {
        if self.scanline == 240 && self.cycles == 0 {
            self.r_ppustatus = self.r_ppustatus | STATUS_VBLANK;
            self.vblank_edge = true;
        }
        if self.cycles == 340 {
            if self.scanline == 260 {
                self.r_ppustatus = self.r_ppustatus & 0x7f;
                self.cycles = 0;
                self.scanline = 0;
                self.stage = Stage::PreRendering;
                self.even_frame = !self.even_frame;
            } else {
                self.cycles = 0;
                self.scanline = self.scanline + 1;
            }
        } else {
            self.cycles = self.cycles + 1;
        }
        Ok(())
    }

    /// Relation between the unit's state before and after one master
    /// step, dispatched on the stage.
    pub open spec fn spec_step_rel(pre: PPU, post: PPU, cart: Cartridge) -> bool {
        match pre.stage {
            Stage::PreRendering => Self::spec_pre_rel(pre, post),
            Stage::Rendering => Self::spec_render_rel(pre, post, cart),
            Stage::PostRendering => Self::spec_post_rel(pre, post),
        }
    }

    /// One master-clock step of the picture unit.
    pub fn step(&mut self, cart: &Cartridge) -> (r: Result<(), EmuError>)
        requires
            old(self).wf(),
            cart.mapper_code == 0,
            cart.chr_sized(),
        ensures
            r is Ok,
            Self::spec_step_rel(*old(self), *final(self), *cart),
            final(self).wf(),
            final(self).stage == old(self).stage || final(self).stage == spec_next_stage(
                old(self).stage,
            ),
    {
        let r = match self.stage {
            Stage::PreRendering => self.pre_rendering(),
            Stage::Rendering => self.rendering(cart),
            Stage::PostRendering => self.post_rendering(),
        };
        proof {
            lemma_stage_order(*old(self), *self, *cart);
        }
        r
    }
}

/// Stepping the picture unit moves its stage only forward along the frame
/// cycle: each stage either continues or hands over to its successor,
/// never to any other stage.
pub proof fn lemma_stage_order(pre: PPU, post: PPU, cart: Cartridge)
    requires
        PPU::spec_step_rel(pre, post, cart),
    ensures
        post.stage == pre.stage || post.stage == spec_next_stage(pre.stage),
{
}

/// The vertical-blank flag rises only at the first cycle of the
/// post-rendering stage: whenever a step turns the flag from clear to
/// set, the unit stood at cycle 0 of the first blank scanline. Since the
/// stage machine passes that point once per frame cycle, the flag is
/// raised exactly once per frame.
pub proof fn lemma_vblank_rises_only_at_blank_start(pre: PPU, post: PPU, cart: Cartridge)
    requires
        PPU::spec_step_rel(pre, post, cart),
        pre.r_ppustatus & STATUS_VBLANK == 0,
        post.r_ppustatus & STATUS_VBLANK != 0,
    ensures
        pre.stage is PostRendering,
        pre.scanline == FRAME_HEIGHT,
        pre.cycles == 0,
{
    lemma_masked_status_stays_clear(pre.r_ppustatus);
}

/// Clearing the top bit of a byte leaves it clear.
proof fn lemma_masked_status_stays_clear(s: u8)
    ensures
        (s & 0x7f) & 0x80 == 0,
{
    assert((s & 0x7f) & 0x80 == 0) by (bit_vector);
}

/// The pre-rendering stage hands over to rendering exactly at the end of
/// its 341st cycle (counter value 340), except that on odd frames with
/// both background and sprite rendering enabled it already hands over one
/// cycle earlier: it lasts 340 cycles on even frames and 339 on such odd
/// frames.
pub proof fn lemma_prerendering_duration(pre: PPU, post: PPU)
    requires
        pre.wf(),
        pre.stage is PreRendering,
        PPU::spec_pre_rel(pre, post),
    ensures
        (post.stage is Rendering) <==> (pre.cycles == 340 || (pre.cycles == 339
            && !pre.even_frame && pre.spec_show_background() && pre.spec_show_sprites())),
        !(post.stage is Rendering) ==> post.stage == pre.stage && post.cycles == pre.cycles + 1,
{
}

/// Masking an address offset to 12 bits keeps every derived nametable
/// index inside the 4KB video memory.
proof fn lemma_vram_mask_bounds(v: u16)
    ensures
        v & 0x0fff < 0x1000,
        (v & 0x0fff) & 0x03ff < 0x400,
        ((v & 0x0fff) >> 10) >> 1 < 2,
        ((v & 0x0fff) >> 10) & 1 < 2,
{
    assert(v & 0x0fff < 0x1000 && (v & 0x0fff) & 0x03ff < 0x400 && ((v & 0x0fff) >> 10) >> 1 < 2
        && ((v & 0x0fff) >> 10) & 1 < 2) by (bit_vector);
}

/// Masking to 5 bits keeps an index inside the 32-entry palette memory.
proof fn lemma_palette_mask_bound(addr: u16)
    ensures
        addr & 0x1f < 0x20,
{
    assert(addr & 0x1f < 0x20) by (bit_vector);
}

/// Masking to 14 bits keeps the data-port address inside the unit's
/// address space.
proof fn lemma_data_addr_bound(addr: u16)
    ensures
        addr & 0x3fff < 0x4000,
{
    assert(addr & 0x3fff < 0x4000) by (bit_vector);
}

/// The background fetch addresses derived from an on-screen position stay
/// in their regions: both pattern-plane addresses lie in pattern space,
/// the attribute address in nametable space, and the quadrant bits are
/// single bits.
proof fn lemma_bg_addr_bounds(c: u8, x: u16, y: u16)
    requires
        x < 256,
        y < 240,
    ensures
        ((((c & 0x10) as u16) << 4) | ((y >> 3) << 8) | ((x >> 3) << 4) | (y & 0x07)) < 0x2000,
        (((((c & 0x10) as u16) << 4) | ((y >> 3) << 8) | ((x >> 3) << 4) | (y & 0x07)) | 0x0008)
            < 0x2000,
        0x2000 <= (0x23c0u16 | ((y >> 5) << 3) | (x >> 5)) < 0x3f00,
        (y >> 4) & 1 < 2,
        (x >> 4) & 1 < 2,
        (x & 0x07) < 8,
{
    assert(((((c & 0x10) as u16) << 4) | ((y >> 3) << 8) | ((x >> 3) << 4) | (y & 0x07)) < 0x2000
        && (((((c & 0x10) as u16) << 4) | ((y >> 3) << 8) | ((x >> 3) << 4) | (y & 0x07)) | 0x0008)
        < 0x2000 && 0x2000 <= (0x23c0u16 | ((y >> 5) << 3) | (x >> 5)) < 0x3f00 && (y >> 4) & 1 < 2
        && (x >> 4) & 1 < 2 && (x & 0x07) < 8) by (bit_vector)
        requires
            x < 256,
            y < 240,
    ;
}

/// Selected pattern and attribute bits are bounded by their widths.
proof fn lemma_pixel_bits(lo: u8, hi: u8, attr: u8, bit: u8, shift: u8)
    ensures
        (lo >> bit) & 1 < 2,
        (hi >> bit) & 1 < 2,
        (attr >> shift) & 3 < 4,
{
    assert((lo >> bit) & 1 < 2 && (hi >> bit) & 1 < 2 && (attr >> shift) & 3 < 4) by (bit_vector);
}

/// A palette address assembled from a 2-bit selector and a 2-bit pixel
/// stays in palette space.
proof fn lemma_palette_addr_bound(sel: u8, pix: u8)
    requires
        sel < 4,
        pix < 4,
    ensures
        0x3f00 <= (0x3f00u16 | ((sel as u16) << 2) | (pix as u16)) < 0x4000,
{
    assert(0x3f00 <= (0x3f00u16 | ((sel as u16) << 2) | (pix as u16)) < 0x4000) by (bit_vector)
        requires
            sel < 4,
            pix < 4,
    ;
}

} // verus!
