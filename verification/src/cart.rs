use vstd::prelude::*;

use crate::errors::EmuError;
use crate::utils;

verus! {

/// How the two logical nametables are arranged in the picture unit's
/// video memory. `NONE` is the four-screen layout, which uses the whole
/// 4KB of video memory without mirroring.
#[allow(non_camel_case_types)]
#[derive(Clone, Copy, Debug, PartialEq, Eq, Structural)]
pub enum MirrorType {
    HORIZONTAL,
    VERTICAL,
    NONE,
}

/// Bit of header flag byte 6 that declares battery-backed RAM.
pub const SRAM_FLAG: u8 = 0x02;

/// Bit of header flag byte 6 that declares a 512-byte trainer block
/// standing between the header and the program image.
pub const TRAINER_FLAG: u8 = 0x04;

/// A cartridge: the program image read by the CPU, the pattern image read
/// by the picture unit, and the optional battery-backed RAM, together with
/// the address-decoding choices the header declares.
///
/// All fields but `sram` are populated once by [`Cartridge::load`] and
/// never change afterwards.
pub struct Cartridge {
    pub mapper_code: u8,
    pub prg: Vec<u8>,
    pub chr: Vec<u8>,
    pub sram: Vec<u8>,
    pub prg_mirror: bool,
    pub has_sram: bool,
    pub mirror_type: MirrorType,
}

impl Cartridge {
    /// The program image has the size its mirroring flag implies: one
    /// 16KB bank when the 32KB CPU window mirrors it, two banks otherwise.
    pub open spec fn prg_sized(self) -> bool {
        self.prg@.len() == if self.prg_mirror {
            0x4000int
        } else {
            0x8000int
        }
    }

    /// The pattern image holds a whole number of 8KB units, at least one.
    pub open spec fn chr_sized(self) -> bool {
        &&& self.chr@.len() >= 0x2000
        &&& self.chr@.len() % 0x2000 == 0
    }

    /// The battery-backed RAM fills its 8KB window exactly when declared.
    pub open spec fn sram_sized(self) -> bool {
        self.sram@.len() == if self.has_sram {
            0x2000int
        } else {
            0int
        }
    }

    /// A successfully loaded cartridge: the base mapper with images of the
    /// declared sizes.
    pub open spec fn loaded(self) -> bool {
        &&& self.mapper_code == 0
        &&& self.prg_sized()
        &&& self.chr_sized()
        &&& self.sram_sized()
    }

    /// Index into the program image for a CPU-window address: with a single
    /// mirrored bank the low 14 bits select the byte, otherwise the offset
    /// from the window base does.
    pub open spec fn spec_prg_index(self, addr: u16) -> u16 {
        if self.prg_mirror {
            ((addr - 0x8000) as u16) & 0x3fff
        } else {
            (addr - 0x8000) as u16
        }
    }

    /// The program byte the base mapper yields for a CPU-window address.
    pub open spec fn spec_prg_byte(self, addr: u16) -> u8 {
        self.prg@[self.spec_prg_index(addr) as int]
    }

    /// An empty cartridge; nothing is mapped until [`Cartridge::load`] runs.
    pub fn new() -> (c: Cartridge)
        ensures
            c.mapper_code == 0,
            c.prg@.len() == 0,
            c.chr@.len() == 0,
            c.sram@.len() == 0,
            !c.prg_mirror,
            !c.has_sram,
            c.mirror_type == MirrorType::NONE,
    {
        Cartridge {
            mapper_code: 0,
            prg: Vec::new(),
            chr: Vec::new(),
            sram: Vec::new(),
            prg_mirror: false,
            has_sram: false,
            mirror_type: MirrorType::NONE,
        }
    }

    /// Number of 16KB program units the header declares.
    pub open spec fn spec_prg_units(d: Seq<u8>) -> u8 {
        d[4]
    }

    /// Number of 8KB pattern units the header declares.
    pub open spec fn spec_chr_units(d: Seq<u8>) -> u8 {
        d[5]
    }

    /// Mapper id assembled from the two header flag nibbles.
    pub open spec fn spec_mapper(d: Seq<u8>) -> u8 {
        (d[7] & 0xf0) | ((d[6] & 0xf0) >> 4)
    }

    /// Whether a 512-byte trainer block precedes the program image.
    pub open spec fn spec_trainer(d: Seq<u8>) -> bool {
        d[6] & TRAINER_FLAG != 0
    }

    /// Offset of the program image within the file.
    pub open spec fn spec_prg_start(d: Seq<u8>) -> int {
        16 + if Self::spec_trainer(d) {
            512int
        } else {
            0int
        }
    }

    /// Length in bytes of the program image the header declares.
    pub open spec fn spec_prg_len(d: Seq<u8>) -> int {
        0x4000 * Self::spec_prg_units(d) as int
    }

    /// Length in bytes of the pattern image the header declares.
    pub open spec fn spec_chr_len(d: Seq<u8>) -> int {
        0x2000 * Self::spec_chr_units(d) as int
    }

    /// The two mirroring bits of flag byte 6: the four-screen bit overrides
    /// the horizontal/vertical bit, and the one remaining combination is
    /// not a recognized layout.
    pub open spec fn spec_mirror_bits_ok(d: Seq<u8>) -> bool {
        d[6] & 0x09 == 0 || d[6] & 0x09 == 1 || d[6] & 0x09 == 8
    }

    /// Mirroring mode the header bits select.
    pub open spec fn spec_mirror_of(d: Seq<u8>) -> MirrorType {
        if d[6] & 0x09 == 8 {
            MirrorType::NONE
        } else if d[6] & 0x09 == 1 {
            MirrorType::VERTICAL
        } else {
            MirrorType::HORIZONTAL
        }
    }

    /// A well-formed image: full header, unit counts in range, recognized
    /// mirroring bits, and a payload at least as long as the header
    /// declares. Says nothing about the mapper id.
    pub open spec fn spec_header_ok(d: Seq<u8>) -> bool {
        &&& d.len() >= 16
        &&& 1 <= Self::spec_prg_units(d) <= 2
        &&& Self::spec_chr_units(d) >= 1
        &&& Self::spec_mirror_bits_ok(d)
        &&& d.len() >= Self::spec_prg_start(d) + Self::spec_prg_len(d) + Self::spec_chr_len(d)
    }

    /// Parses a 16-byte image header and populates every field of the
    /// cartridge, atomically: on any error the cartridge is left exactly as
    /// it was. A malformed header is a `FormatError`; a well-formed header
    /// naming any mapper but the base one is an `UnsupportedMapper`.
    pub fn load(&mut self, data: &Vec<u8>) -> (r: Result<(), EmuError>)
        ensures
            r is Ok <==> Self::spec_header_ok(data@) && Self::spec_mapper(data@) == 0,
            (r == Err::<(), EmuError>(EmuError::UnsupportedMapper)) <==> (Self::spec_header_ok(
                data@,
            ) && Self::spec_mapper(data@) != 0),
            !Self::spec_header_ok(data@) ==> r == Err::<(), EmuError>(EmuError::FormatError),
            r is Err ==> *final(self) == *old(self),
            r is Ok ==> {
                &&& final(self).mapper_code == 0
                &&& final(self).prg@ == data@.subrange(
                    Self::spec_prg_start(data@),
                    Self::spec_prg_start(data@) + Self::spec_prg_len(data@),
                )
                &&& final(self).prg@.len() == Self::spec_prg_len(data@)
                &&& final(self).chr@ == data@.subrange(
                    Self::spec_prg_start(data@) + Self::spec_prg_len(data@),
                    Self::spec_prg_start(data@) + Self::spec_prg_len(data@) + Self::spec_chr_len(
                        data@,
                    ),
                )
                &&& final(self).chr@.len() == Self::spec_chr_len(data@)
                &&& final(self).prg_mirror == (Self::spec_prg_units(data@) == 1)
                &&& final(self).has_sram == (data@[6] & SRAM_FLAG != 0)
                &&& final(self).mirror_type == Self::spec_mirror_of(data@)
                &&& (forall|j: int|
                    0 <= j < final(self).sram@.len() ==> final(self).sram@[j] == 0u8)
                &&& final(self).loaded()
            },
    {
        if data.len() < 16 {
            return Err(EmuError::FormatError);
        }
        let prg_units = data[4];
        let chr_units = data[5];
        let flag6 = data[6];
        let flag7 = data[7];

        if prg_units == 0 || prg_units > 2 {
            return Err(EmuError::FormatError);
        }
        if chr_units == 0 {
            return Err(EmuError::FormatError);
        }
        let mirror_bits = flag6 & 0x09;
        let mirror_type = if mirror_bits == 8 {
            MirrorType::NONE
        } else if mirror_bits == 1 {
            MirrorType::VERTICAL
        } else if mirror_bits == 0 {
            MirrorType::HORIZONTAL
        } else {
            return Err(EmuError::FormatError);
        };
        let prg_start: usize = if utils::binaryBoolAnd(flag6, TRAINER_FLAG) {
            16 + 512
        } else {
            16
        };
        let prg_len: usize = 0x4000 * prg_units as usize;
        let chr_len: usize = 0x2000 * chr_units as usize;
        if data.len() < prg_start + prg_len + chr_len {
            return Err(EmuError::FormatError);
        }
        let mapper_code = (flag7 & 0xf0) | ((flag6 & 0xf0) >> 4);
        if mapper_code != 0 {
            return Err(EmuError::UnsupportedMapper);
        }

        let mut prg_buf: Vec<u8> = Vec::new();
        let mut i: usize = 0;
        while i < prg_len
            invariant
                i <= prg_len,
                prg_start + prg_len + chr_len <= data@.len(),
                data@.len() <= usize::MAX,
                prg_buf@.len() == i,
                forall|j: int| 0 <= j < i ==> prg_buf@[j] == data@[prg_start + j],
            decreases prg_len - i,
        {
            prg_buf.push(data[prg_start + i]);
            i = i + 1;
        }

        let chr_start: usize = prg_start + prg_len;
        let mut chr_buf: Vec<u8> = Vec::new();
        let mut i: usize = 0;
        while i < chr_len
            invariant
                i <= chr_len,
                chr_start == prg_start + prg_len,
                chr_start + chr_len <= data@.len(),
                data@.len() <= usize::MAX,
                chr_buf@.len() == i,
                forall|j: int| 0 <= j < i ==> chr_buf@[j] == data@[chr_start + j],
            decreases chr_len - i,
        {
            chr_buf.push(data[chr_start + i]);
            i = i + 1;
        }

        let has_sram = utils::binaryBoolAnd(flag6, SRAM_FLAG);
        let sram_buf: Vec<u8> = if has_sram {
            vec![0u8; 0x2000]
        } else {
            Vec::new()
        };

        proof {
            assert(prg_buf@ =~= data@.subrange(
                prg_start as int,
                prg_start + prg_len as int,
            ));
            assert(chr_buf@ =~= data@.subrange(
                chr_start as int,
                chr_start + chr_len as int,
            ));
        }

        self.mapper_code = mapper_code;
        self.prg = prg_buf;
        self.chr = chr_buf;
        self.prg_mirror = prg_units == 1;
        self.has_sram = has_sram;
        self.sram = sram_buf;
        self.mirror_type = mirror_type;
        Ok(())
    }

    /// Base-mapper read of the program window: a single bank answers
    /// through the low 14 bits of the address, a double bank directly.
    fn nrom_mapper_read_prg(&self, addr: u16) -> (r: Result<u8, EmuError>)
        requires
            0x8000 <= addr,
            self.prg_sized(),
        ensures
            r == Ok::<u8, EmuError>(self.spec_prg_byte(addr)),
    {
        if self.prg_mirror {
            let idx = (addr - 0x8000) & 0x3fff;
            proof {
                lemma_mask_3fff_bound((addr - 0x8000) as u16);
            }
            Ok(self.prg[idx as usize])
        } else {
            let idx = addr - 0x8000;
            Ok(self.prg[idx as usize])
        }
    }

    /// Base-mapper read of the pattern image: a direct index.
    fn nrom_mapper_read_chr(&self, addr: u16) -> (r: Result<u8, EmuError>)
        requires
            addr < 0x2000,
            self.chr_sized(),
        ensures
            r == Ok::<u8, EmuError>(self.chr@[addr as int]),
    {
        Ok(self.chr[addr as usize])
    }

    /// Reads a byte of the CPU program window (`0x8000..=0xFFFF`),
    /// dispatched on the mapper id.
    pub fn read_prg(&self, addr: u16) -> (r: Result<u8, EmuError>)
        requires
            0x8000 <= addr,
            self.mapper_code == 0 ==> self.prg_sized(),
        ensures
            self.mapper_code == 0 ==> r == Ok::<u8, EmuError>(self.spec_prg_byte(addr)),
            self.mapper_code != 0 ==> r == Err::<u8, EmuError>(EmuError::UnsupportedMapper),
    {
        match self.mapper_code {
            0 => self.nrom_mapper_read_prg(addr),
            _ => Err(EmuError::UnsupportedMapper),
        }
    }

    /// Reads a byte of the battery-backed RAM window
    /// (`0x6000..=0x7FFF`). Without battery-backed RAM the access is an
    /// `AddressError`.
    pub fn read_sram(&self, addr: u16) -> (r: Result<u8, EmuError>)
        requires
            0x6000 <= addr < 0x8000,
            self.sram_sized(),
        ensures
            self.has_sram ==> r == Ok::<u8, EmuError>(self.sram@[addr - 0x6000]),
            !self.has_sram ==> r == Err::<u8, EmuError>(EmuError::AddressError),
    {
        if !self.has_sram {
            return Err(EmuError::AddressError);
        }
        Ok(self.sram[(addr - 0x6000) as usize])
    }

    /// Writes a byte of the battery-backed RAM window; everything but that
    /// one RAM byte is left untouched. Without battery-backed RAM the
    /// access is an `AddressError` and nothing changes.
    pub fn write_sram(&mut self, addr: u16, data: u8) -> (r: Result<(), EmuError>)
        requires
            0x6000 <= addr < 0x8000,
            old(self).sram_sized(),
        ensures
            old(self).has_sram ==> {
                &&& r is Ok
                &&& final(self).sram@ == old(self).sram@.update(addr - 0x6000, data)
            },
            !old(self).has_sram ==> r == Err::<(), EmuError>(EmuError::AddressError)
                && *final(self) == *old(self),
            *final(self) == (Cartridge { sram: final(self).sram, ..*old(self) }),
            final(self).sram@.len() == old(self).sram@.len(),
    {
        if !self.has_sram {
            return Err(EmuError::AddressError);
        }
        self.sram[(addr - 0x6000) as usize] = data;
        Ok(())
    }

    /// Reads a byte of the pattern image (`0x0000..=0x1FFF`), dispatched on
    /// the mapper id.
    pub fn read_chr(&self, addr: u16) -> (r: Result<u8, EmuError>)
        requires
            addr < 0x2000,
            self.mapper_code == 0 ==> self.chr_sized(),
        ensures
            self.mapper_code == 0 ==> r == Ok::<u8, EmuError>(self.chr@[addr as int]),
            self.mapper_code != 0 ==> r == Err::<u8, EmuError>(EmuError::UnsupportedMapper),
    {
        match self.mapper_code {
            0 => self.nrom_mapper_read_chr(addr),
            _ => Err(EmuError::UnsupportedMapper),
        }
    }

    /// The nametable layout the header declared.
    pub fn get_mirror_type(&self) -> (r: MirrorType)
        ensures
            r == self.mirror_type,
    {
        self.mirror_type
    }
}

/// A 14-bit mask keeps a 16-bit value under the single-bank size.
proof fn lemma_mask_3fff_bound(x: u16)
    ensures
        x & 0x3fff < 0x4000,
{
    assert(x & 0x3fff < 0x4000) by (bit_vector);
}

/// With a single mirrored program bank, the upper and lower halves of the
/// 32KB CPU window answer with the same byte: for every offset `k` into a
/// bank, the window base plus `k` and the window midpoint plus `k` select
/// the same program byte.
pub proof fn lemma_prg_mirrored_window(c: Cartridge, k: u16)
    requires
        c.prg_mirror,
        c.prg_sized(),
        k < 0x4000,
    ensures
        c.spec_prg_byte((0x8000 + k) as u16) == c.spec_prg_byte((0xc000 + k) as u16),
{
    let lo = (0x8000 + k) as u16;
    let hi = (0xc000 + k) as u16;
    assert(((lo - 0x8000) as u16) & 0x3fff == ((hi - 0x8000) as u16) & 0x3fff) by (bit_vector)
        requires
            lo == (0x8000 + k) as u16,
            hi == (0xc000 + k) as u16,
            k < 0x4000,
    ;
}

} // verus!
