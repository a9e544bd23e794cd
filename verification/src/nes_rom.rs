//! Cartridge data and the iNES image parser.

use vstd::prelude::*;

use crate::errors::EmuError;

verus! {

/// How the four logical nametable pages fold onto the 2 KiB of VRAM.
#[derive(Clone, Copy, Debug, PartialEq, Eq, Structural)]
pub enum NametableMirroring {
    Vertical,
    Horizontal,
}

impl NametableMirroring {
    /// Decodes header flag bit 0.
    pub fn from_bit(value: u8) -> (r: NametableMirroring)
        requires
            value <= 1,
        ensures
            r == (if value == 0 {
                NametableMirroring::Vertical
            } else {
                NametableMirroring::Horizontal
            }),
    {
        if value == 0 {
            NametableMirroring::Vertical
        } else {
            NametableMirroring::Horizontal
        }
    }
}

/// The television system the cartridge targets.
#[derive(Clone, Copy, Debug, PartialEq, Eq, Structural)]
pub enum TvSystem {
    Ntsc,
    Pal,
}

impl TvSystem {
    /// Decodes header byte 9 bit 0.
    pub fn from_bit(value: u8) -> (r: TvSystem)
        requires
            value <= 1,
        ensures
            r == (if value == 0 {
                TvSystem::Ntsc
            } else {
                TvSystem::Pal
            }),
    {
        if value == 0 {
            TvSystem::Ntsc
        } else {
            TvSystem::Pal
        }
    }
}

/// A parsed cartridge: program ROM, character ROM, and the header facts the
/// emulator consumes. Only mapper 0 behavior (fixed mapping) is emulated.
pub struct NesRom {
    pub prg_rom: Vec<u8>,
    pub chr_rom: Vec<u8>,
    pub trainer: Option<Vec<u8>>,
    pub mapper: u8,
    pub alt_nametable: bool,
    pub nametable_mirroring: NametableMirroring,
    pub battery_backed_prg_ram: bool,
    pub prg_ram_size: u8,
    pub tv_system: TvSystem,
}

/// Whether `b` starts with the iNES magic "NES\x1A" (and is long enough to
/// hold the 16-byte header).
pub open spec fn ines_magic_ok(b: Seq<u8>) -> bool {
    b.len() >= 16 && b[0] == 0x4Eu8 && b[1] == 0x45u8 && b[2] == 0x53u8 && b[3] == 0x1Au8
}

/// Length of the trainer section: 512 bytes when header flag 6 bit 2 is set.
pub open spec fn ines_trainer_len(b: Seq<u8>) -> int {
    if (b[6] / 4) % 2 == 1 {
        512
    } else {
        0
    }
}

/// Length of the PRG-ROM section (16 KiB units in header byte 4).
pub open spec fn ines_prg_len(b: Seq<u8>) -> int {
    (b[4] as int) * 16384
}

/// Length of the CHR-ROM section (8 KiB units in header byte 5).
pub open spec fn ines_chr_len(b: Seq<u8>) -> int {
    (b[5] as int) * 8192
}

/// Whether `b` is a well-formed iNES image: good magic and enough bytes for
/// every section the header announces.
pub open spec fn ines_ok(b: Seq<u8>) -> bool {
    ines_magic_ok(b) && b.len() >= 16 + ines_trainer_len(b) + ines_prg_len(b) + ines_chr_len(b)
}

/// Copies `v[start..end]` into a fresh vector.
fn subvec(v: &Vec<u8>, start: usize, end: usize) -> (r: Vec<u8>)
    requires
        start <= end,
        end <= v@.len(),
    ensures
        r@ == v@.subrange(start as int, end as int),
{
    let mut r: Vec<u8> = Vec::new();
    let mut i: usize = start;
    while i < end
        invariant
            start <= i <= end,
            end <= v@.len(),
            r@ == v@.subrange(start as int, i as int),
        decreases end - i,
    {
        let b = v[i];
        r.push(b);
        proof {
            assert(r@ =~= v@.subrange(start as int, i + 1 as int));
        }
        i = i + 1;
    }
    r
}

impl NesRom {
    /// Parses an iNES image. Returns `CartridgeInvalid` exactly when the
    /// magic is wrong or the image is shorter than its header announces;
    /// otherwise every field is the one the header describes and the PRG and
    /// CHR sections are copied out whole.
    pub fn from_bytes(bytes: &Vec<u8>) -> (r: Result<NesRom, EmuError>)
        ensures
            r is Ok <==> ines_ok(bytes@),
            r is Err ==> r == Err::<NesRom, EmuError>(EmuError::CartridgeInvalid),
            r is Ok ==> ({
                let b = bytes@;
                let rom = r->Ok_0;
                let tl = ines_trainer_len(b);
                let pl = ines_prg_len(b);
                let cl = ines_chr_len(b);
                &&& rom.prg_rom@ == b.subrange(16 + tl, 16 + tl + pl)
                &&& rom.chr_rom@ == b.subrange(16 + tl + pl, 16 + tl + pl + cl)
                &&& rom.mapper == ((b[7] / 16) * 16 + b[6] / 16) as u8
                &&& rom.alt_nametable == ((b[6] / 8) % 2 == 1)
                &&& rom.nametable_mirroring == (if b[6] % 2 == 0 {
                    NametableMirroring::Vertical
                } else {
                    NametableMirroring::Horizontal
                })
                &&& rom.battery_backed_prg_ram == ((b[6] / 2) % 2 == 1)
                &&& rom.prg_ram_size == b[8]
                &&& rom.tv_system == (if b[9] % 2 == 0 {
                    TvSystem::Ntsc
                } else {
                    TvSystem::Pal
                })
                &&& (tl == 512 ==> (rom.trainer matches Some(t) && t@ == b.subrange(16, 528)))
                &&& (tl == 0 ==> rom.trainer is None)
            }),
    {
        if bytes.len() < 16 {
            return Err(EmuError::CartridgeInvalid);
        }
        if !(bytes[0] == 0x4E && bytes[1] == 0x45 && bytes[2] == 0x53 && bytes[3] == 0x1A) {
            return Err(EmuError::CartridgeInvalid);
        }

        let flags6 = bytes[6];
        let flags7 = bytes[7];
        let has_trainer = (flags6 / 4) % 2 == 1;

        let trainer_len: usize = if has_trainer {
            512
        } else {
            0
        };
        let prg_len: usize = bytes[4] as usize * 16384;
        let chr_len: usize = bytes[5] as usize * 8192;

        if bytes.len() < 16 + trainer_len + prg_len + chr_len {
            return Err(EmuError::CartridgeInvalid);
        }

        let trainer: Option<Vec<u8>> = if has_trainer {
            Some(subvec(bytes, 16, 528))
        } else {
            None
        };

        let prg_start: usize = 16 + trainer_len;
        let prg_rom = subvec(bytes, prg_start, prg_start + prg_len);
        let chr_start: usize = prg_start + prg_len;
        let chr_rom = subvec(bytes, chr_start, chr_start + chr_len);

        let mapper = (flags7 / 16) * 16 + flags6 / 16;
        let alt_nametable = (flags6 / 8) % 2 == 1;
        let nametable_mirroring = NametableMirroring::from_bit(flags6 % 2);
        let battery_backed_prg_ram = (flags6 / 2) % 2 == 1;
        let prg_ram_size = bytes[8];
        let tv_system = TvSystem::from_bit(bytes[9] % 2);

        Ok(
            NesRom {
                prg_rom,
                chr_rom,
                trainer,
                mapper,
                alt_nametable,
                nametable_mirroring,
                battery_backed_prg_ram,
                prg_ram_size,
                tv_system,
            },
        )
    }
}

} // verus!
