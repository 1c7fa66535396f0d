use nes_core::emu::Emu;
use nes_core::errors::EmuError;

fn rom_with_code(code: &[u8]) -> Vec<u8> {
    let mut v = vec![0u8; 16];
    v[4] = 1;
    v[5] = 1;
    for _ in 0..(0x4000 + 0x2000) {
        v.push(0);
    }
    for (i, b) in code.iter().enumerate() {
        v[16 + i] = *b;
    }
    v[16 + 0x3ffc] = 0x00; // reset vector -> 0x8000
    v[16 + 0x3ffd] = 0x80;
    v[16 + 0x3ffa] = 0x00; // interrupt vector -> 0x8000 as well
    v[16 + 0x3ffb] = 0x80;
    v
}

#[test]
fn it_works() {
    assert_eq!(2 + 2, 4);
}

#[test]
fn init_resets_cpu_through_bus() {
    let mut emu = Emu::new();
    assert!(emu.load_rom(&rom_with_code(&[])).is_ok());
    assert!(emu.init().is_ok());
    assert_eq!(emu.cpu.r_pc, 0x8000);
    assert_eq!(emu.cpu.r_sp, 0xfd);
}

#[test]
fn load_rom_reports_errors_and_stays_usable() {
    let mut emu = Emu::new();
    let mut bad = rom_with_code(&[]);
    bad[4] = 0;
    assert_eq!(emu.load_rom(&bad), Err(EmuError::FormatError));
    assert!(emu.load_rom(&rom_with_code(&[])).is_ok());
    assert!(emu.init().is_ok());
}

#[test]
fn tick_interleaves_cpu_and_picture_unit() {
    // one CPU cycle per four master-clock ticks
    let mut emu = Emu::new();
    assert!(emu.load_rom(&rom_with_code(&[0x4c, 0x00, 0x80])).is_ok());
    assert!(emu.init().is_ok());
    for _ in 0..4 {
        assert!(emu.tick().is_ok());
    }
    assert_eq!(emu.cpu.cycles, 1);
    assert_eq!(emu.ppu.cycles, 3);
    for _ in 0..4 {
        assert!(emu.tick().is_ok());
    }
    assert_eq!(emu.cpu.cycles, 2);
}

#[test]
fn frame_becomes_ready_and_take_clears_it() {
    // the program spins on an absolute jump while the picture unit
    // finishes one frame and the vertical blank marks it ready
    let mut emu = Emu::new();
    assert!(emu.load_rom(&rom_with_code(&[0x4c, 0x00, 0x80])).is_ok());
    assert!(emu.init().is_ok());
    let mut ready = false;
    for _ in 0..600_000u32 {
        assert!(emu.tick().is_ok());
        if emu.is_frame_ready() {
            ready = true;
            break;
        }
    }
    assert!(ready, "a frame became ready");
    assert!(emu.cpu.pending_nmi || emu.cpu.r_st & 0x04 != 0, "vblank was forwarded to the CPU");
    let frame = emu.frame();
    assert_eq!(frame.len(), 256 * 240);
    assert!(!emu.is_frame_ready(), "taking the frame clears the signal");
}

#[test]
fn run_until_frame_reports_readiness() {
    let mut emu = Emu::new();
    assert!(emu.load_rom(&rom_with_code(&[0x4c, 0x00, 0x80])).is_ok());
    assert!(emu.init().is_ok());
    // far too little fuel: no frame yet
    assert_eq!(emu.run_until_frame(10).unwrap(), false);
    assert!(!emu.is_frame_ready());
    // plenty of fuel: a frame arrives
    assert_eq!(emu.run_until_frame(1_000_000).unwrap(), true);
    assert!(emu.is_frame_ready());
}

#[test]
fn vblank_interrupt_reaches_cpu_at_boundary() {
    let mut emu = Emu::new();
    assert!(emu.load_rom(&rom_with_code(&[0x4c, 0x00, 0x80])).is_ok());
    assert!(emu.init().is_ok());
    for _ in 0..600_000u32 {
        assert!(emu.tick().is_ok());
        if emu.is_frame_ready() {
            break;
        }
    }
    // after the pending interrupt is serviced the status register has
    // the interrupt-disable bit set by the entry sequence
    for _ in 0..64 {
        assert!(emu.tick().is_ok());
    }
    assert!(!emu.cpu.pending_nmi);
    assert_ne!(emu.cpu.r_st & 0x04, 0);
}
