use nes_core::cart::{Cartridge, MirrorType};
use nes_core::errors::EmuError;

fn build_rom(prg: u8, chr: u8, flag6: u8, flag7: u8) -> Vec<u8> {
    let mut v = vec![0u8; 16];
    v[4] = prg;
    v[5] = chr;
    v[6] = flag6;
    v[7] = flag7;
    if flag6 & 0x04 != 0 {
        for _ in 0..512 {
            v.push(0xee);
        }
    }
    let payload = 0x4000 * prg as usize + 0x2000 * chr as usize;
    for _ in 0..payload {
        v.push(0);
    }
    v
}

#[test]
fn load_valid_header_sizes() {
    // any valid header: the images take exactly their declared sizes
    let data = build_rom(2, 3, 0x00, 0x00);
    let mut cart = Cartridge::new();
    assert!(cart.load(&data).is_ok());
    assert_eq!(cart.prg.len(), 16384 * 2);
    assert_eq!(cart.chr.len(), 8192 * 3);
}

#[test]
fn load_scenario_plain_header() {
    let data = build_rom(1, 1, 0x00, 0x00);
    let mut cart = Cartridge::new();
    assert!(cart.load(&data).is_ok());
    assert!(!cart.has_sram);
    assert_eq!(cart.get_mirror_type(), MirrorType::HORIZONTAL);
}

#[test]
fn load_scenario_battery_backed_ram() {
    let data = build_rom(1, 1, 0x02, 0x00);
    let mut cart = Cartridge::new();
    assert!(cart.load(&data).is_ok());
    assert!(cart.has_sram);
    assert!(cart.write_sram(0x6000, 0x42).is_ok());
    assert_eq!(cart.read_sram(0x6000).unwrap(), 0x42);
}

#[test]
fn load_rejects_bad_prg_counts() {
    let mut cart = Cartridge::new();
    let zero = build_rom(0, 1, 0x00, 0x00);
    assert_eq!(cart.load(&zero), Err(EmuError::FormatError));
    let three = build_rom(3, 1, 0x00, 0x00);
    assert_eq!(cart.load(&three), Err(EmuError::FormatError));
}

#[test]
fn load_rejects_zero_chr() {
    let mut cart = Cartridge::new();
    let data = build_rom(1, 0, 0x00, 0x00);
    assert_eq!(cart.load(&data), Err(EmuError::FormatError));
}

#[test]
fn load_rejects_bad_mirror_bits() {
    // four-screen bit together with the vertical bit is not a recognized layout
    let mut cart = Cartridge::new();
    let data = build_rom(1, 1, 0x09, 0x00);
    assert_eq!(cart.load(&data), Err(EmuError::FormatError));
}

#[test]
fn load_rejects_unknown_mapper() {
    let mut cart = Cartridge::new();
    let data = build_rom(1, 1, 0x00, 0x10);
    assert_eq!(cart.load(&data), Err(EmuError::UnsupportedMapper));
}

#[test]
fn load_rejects_short_payload() {
    let mut cart = Cartridge::new();
    let mut data = build_rom(1, 1, 0x00, 0x00);
    data.truncate(data.len() - 1);
    assert_eq!(cart.load(&data), Err(EmuError::FormatError));
}

#[test]
fn load_rejects_short_header() {
    let mut cart = Cartridge::new();
    let data = vec![0u8; 15];
    assert_eq!(cart.load(&data), Err(EmuError::FormatError));
}

#[test]
fn load_skips_trainer() {
    let mut data = build_rom(1, 1, 0x04, 0x00);
    data[16 + 512] = 0xab; // first program byte, after the 512-byte trainer
    let mut cart = Cartridge::new();
    assert!(cart.load(&data).is_ok());
    assert_eq!(cart.read_prg(0x8000).unwrap(), 0xab);
}

#[test]
fn load_failure_leaves_cartridge_untouched() {
    let mut data = build_rom(1, 1, 0x00, 0x00);
    data[16 + 5] = 0xcd;
    let mut cart = Cartridge::new();
    assert!(cart.load(&data).is_ok());
    let bad = build_rom(0, 1, 0x00, 0x00);
    assert_eq!(cart.load(&bad), Err(EmuError::FormatError));
    assert_eq!(cart.read_prg(0x8005).unwrap(), 0xcd);
    assert_eq!(cart.prg.len(), 16384);
}

#[test]
fn prg_window_mirrors_single_bank() {
    // one 16KB bank: both halves of the 32KB window answer alike
    let mut data = build_rom(1, 1, 0x00, 0x00);
    data[16 + 5] = 0xab;
    data[16 + 0x3fff] = 0x77;
    let mut cart = Cartridge::new();
    assert!(cart.load(&data).is_ok());
    assert_eq!(cart.read_prg(0x8005).unwrap(), 0xab);
    assert_eq!(cart.read_prg(0xc005).unwrap(), 0xab);
    assert_eq!(cart.read_prg(0xbfff).unwrap(), 0x77);
    assert_eq!(cart.read_prg(0xffff).unwrap(), 0x77);
    for k in [0u16, 1, 0x123, 0x2000, 0x3ffe] {
        assert_eq!(
            cart.read_prg(0x8000 + k).unwrap(),
            cart.read_prg(0xc000 + k).unwrap()
        );
    }
}

#[test]
fn prg_window_double_bank_is_direct() {
    let mut data = build_rom(2, 1, 0x00, 0x00);
    data[16 + 0x4005] = 0x31;
    let mut cart = Cartridge::new();
    assert!(cart.load(&data).is_ok());
    assert_eq!(cart.read_prg(0xc005).unwrap(), 0x31);
    assert_eq!(cart.read_prg(0x8005).unwrap(), 0x00);
}

#[test]
fn read_chr_is_direct() {
    let mut data = build_rom(1, 1, 0x00, 0x00);
    data[16 + 0x4000 + 7] = 0x55;
    let mut cart = Cartridge::new();
    assert!(cart.load(&data).is_ok());
    assert_eq!(cart.read_chr(7).unwrap(), 0x55);
}

#[test]
fn sram_access_without_battery_fails() {
    let data = build_rom(1, 1, 0x00, 0x00);
    let mut cart = Cartridge::new();
    assert!(cart.load(&data).is_ok());
    assert_eq!(cart.read_sram(0x6000), Err(EmuError::AddressError));
    assert_eq!(cart.write_sram(0x7fff, 1), Err(EmuError::AddressError));
}

#[test]
fn mirror_type_from_header_bits() {
    let mut cart = Cartridge::new();
    assert!(cart.load(&build_rom(1, 1, 0x01, 0x00)).is_ok());
    assert_eq!(cart.get_mirror_type(), MirrorType::VERTICAL);
    assert!(cart.load(&build_rom(1, 1, 0x08, 0x00)).is_ok());
    assert_eq!(cart.get_mirror_type(), MirrorType::NONE);
}
