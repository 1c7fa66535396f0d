use nes_core::cart::Cartridge;
use nes_core::cpu::{CPU, InteruptType};
use nes_core::errors::EmuError;
use nes_core::ppu::PPU;

fn rom_with_code(code: &[u8]) -> Vec<u8> {
    let mut v = vec![0u8; 16];
    v[4] = 1;
    v[5] = 1;
    for _ in 0..(0x4000 + 0x2000) {
        v.push(0);
    }
    for (i, b) in code.iter().enumerate() {
        v[16 + i] = *b;
    }
    // reset vector: 0x8000; interrupt vectors kept inside the bank too
    v[16 + 0x3ffc] = 0x00;
    v[16 + 0x3ffd] = 0x80;
    v
}

fn machine(code: &[u8]) -> (Cartridge, CPU, PPU) {
    let data = rom_with_code(code);
    let mut cart = Cartridge::new();
    assert!(cart.load(&data).is_ok());
    let mut cpu = CPU::new();
    let mut ppu = PPU::new();
    assert!(cpu.reset(&cart, &mut ppu).is_ok());
    (cart, cpu, ppu)
}

#[test]
fn reset_loads_pc_from_reset_vector() {
    let (_cart, cpu, _ppu) = machine(&[0xa9, 0x00]);
    assert_eq!(cpu.r_pc, 0x8000);
    assert_eq!(cpu.r_sp, 0xfd);
    assert_eq!(cpu.r_st, 0x04);
    assert_eq!(cpu.r_a, 0);
}

#[test]
fn reset_vector_outside_program_window() {
    // a vector pointing into internal RAM is honoured through the decode
    let mut data = rom_with_code(&[]);
    data[16 + 0x3ffc] = 0x34;
    data[16 + 0x3ffd] = 0x02;
    let mut cart = Cartridge::new();
    assert!(cart.load(&data).is_ok());
    let mut cpu = CPU::new();
    let mut ppu = PPU::new();
    assert!(cpu.reset(&cart, &mut ppu).is_ok());
    assert_eq!(cpu.r_pc, 0x0234);
}

#[test]
fn step_advances_pc_on_fetch_only() {
    // LDA immediate takes 2 declared cycles and is 2 bytes long: the
    // fetch step moves the program counter, the idle step does not
    let (mut cart, mut cpu, mut ppu) = machine(&[0xa9, 0x00, 0xa9, 0x80]);
    assert!(cpu.step(&mut cart, &mut ppu).is_ok());
    assert_eq!(cpu.r_pc, 0x8002);
    assert_eq!(cpu.skip_cycles, 1);
    assert!(cpu.step(&mut cart, &mut ppu).is_ok());
    assert_eq!(cpu.r_pc, 0x8002);
    assert_eq!(cpu.skip_cycles, 0);
    assert!(cpu.step(&mut cart, &mut ppu).is_ok());
    assert_eq!(cpu.r_pc, 0x8004);
    assert_eq!(cpu.cycles, 3);
}

#[test]
fn lda_immediate_sets_flags() {
    let (mut cart, mut cpu, mut ppu) = machine(&[0xa9, 0x00, 0xa9, 0x80]);
    assert!(cpu.step(&mut cart, &mut ppu).is_ok());
    assert_eq!(cpu.r_a, 0x00);
    assert_ne!(cpu.r_st & 0x02, 0, "zero flag set");
    assert_eq!(cpu.r_st & 0x80, 0, "negative flag clear");
    assert!(cpu.step(&mut cart, &mut ppu).is_ok());
    assert!(cpu.step(&mut cart, &mut ppu).is_ok());
    assert_eq!(cpu.r_a, 0x80);
    assert_ne!(cpu.r_st & 0x80, 0, "negative flag set");
    assert_eq!(cpu.r_st & 0x02, 0, "zero flag clear");
}

#[test]
fn illegal_opcode_is_fatal() {
    let (mut cart, mut cpu, mut ppu) = machine(&[0x02]);
    assert_eq!(cpu.step(&mut cart, &mut ppu), Err(EmuError::IllegalOpcode(0x02)));
}

#[test]
fn sta_zero_page_writes_ram() {
    let (mut cart, mut cpu, mut ppu) = machine(&[0xa9, 0x42, 0x85, 0x10]);
    for _ in 0..5 {
        assert!(cpu.step(&mut cart, &mut ppu).is_ok());
    }
    assert_eq!(cpu.ram[0x10], 0x42);
}

#[test]
fn lda_absolute_reads_through_bus() {
    // LDA $0010 after STA put a value there
    let (mut cart, mut cpu, mut ppu) = machine(&[0xa9, 0x42, 0x85, 0x10, 0xa9, 0x00, 0xad, 0x10, 0x00]);
    for _ in 0..(2 + 3 + 2 + 4) {
        assert!(cpu.step(&mut cart, &mut ppu).is_ok());
    }
    assert_eq!(cpu.r_a, 0x42);
}

#[test]
fn adc_carry_zero_and_overflow() {
    let mut cpu = CPU::new();
    cpu.r_a = 0xff;
    cpu.exe_adc(1);
    assert_eq!(cpu.r_a, 0x00);
    assert_ne!(cpu.r_st & 0x01, 0, "carry set");
    assert_ne!(cpu.r_st & 0x02, 0, "zero set");
    let mut cpu = CPU::new();
    cpu.r_a = 0x7f;
    cpu.exe_adc(1);
    assert_eq!(cpu.r_a, 0x80);
    assert_ne!(cpu.r_st & 0x40, 0, "overflow set");
    assert_ne!(cpu.r_st & 0x80, 0, "negative set");
}

#[test]
fn sbc_with_carry_subtracts() {
    let mut cpu = CPU::new();
    cpu.r_a = 5;
    cpu.r_st = 0x01; // no borrow
    cpu.exe_sbc(3);
    assert_eq!(cpu.r_a, 2);
    assert_ne!(cpu.r_st & 0x01, 0, "no borrow out");
}

#[test]
fn cmp_orders_values() {
    let mut cpu = CPU::new();
    cpu.r_a = 5;
    cpu.exe_cmp(5);
    assert_ne!(cpu.r_st & 0x02, 0, "equal sets zero");
    assert_ne!(cpu.r_st & 0x01, 0, "carry on greater-or-equal");
    cpu.exe_cmp(9);
    assert_eq!(cpu.r_st & 0x01, 0, "carry clear on less");
}

#[test]
fn shifts_move_bits_through_carry() {
    let mut cpu = CPU::new();
    let r = cpu.exe_asl(0x81);
    assert_eq!(r, 0x02);
    assert_ne!(cpu.r_st & 0x01, 0, "top bit into carry");
    let r = cpu.exe_ror(0x01);
    assert_eq!(r, 0x80, "carry rotates into the top bit");
    assert_ne!(cpu.r_st & 0x01, 0, "low bit into carry");
    let r = cpu.exe_lsr(0x02);
    assert_eq!(r, 0x01);
    assert_eq!(cpu.r_st & 0x01, 0, "shifted-out bit clears carry");
    cpu.exe_sec();
    let r = cpu.exe_rol(0x80);
    assert_eq!(r, 0x01, "carry rotates into the low bit");
}

#[test]
fn inc_dec_wrap_and_flag() {
    let mut cpu = CPU::new();
    assert_eq!(cpu.exe_inc(0xff), 0x00);
    assert_ne!(cpu.r_st & 0x02, 0);
    assert_eq!(cpu.exe_dec(0x00), 0xff);
    assert_ne!(cpu.r_st & 0x80, 0);
}

#[test]
fn bit_copies_operand_top_bits() {
    let mut cpu = CPU::new();
    cpu.r_a = 0x0f;
    cpu.exe_bit(0xc0);
    assert_ne!(cpu.r_st & 0x80, 0, "negative from operand");
    assert_ne!(cpu.r_st & 0x40, 0, "overflow from operand");
    assert_ne!(cpu.r_st & 0x02, 0, "zero from masked accumulator");
}

#[test]
fn stack_push_pull_round_trip() {
    let (_cart, mut cpu, _ppu) = machine(&[]);
    cpu.r_a = 0x5a;
    cpu.exe_pha();
    assert_eq!(cpu.r_sp, 0xfc);
    assert_eq!(cpu.ram[0x1fd], 0x5a);
    cpu.r_a = 0;
    cpu.exe_pla();
    assert_eq!(cpu.r_a, 0x5a);
    assert_eq!(cpu.r_sp, 0xfd);
}

#[test]
fn branch_taken_costs_extra_cycle() {
    // LDA #0 sets the zero flag, BEQ +2 is taken
    let (mut cart, mut cpu, mut ppu) = machine(&[0xa9, 0x00, 0xf0, 0x02]);
    assert!(cpu.step(&mut cart, &mut ppu).is_ok());
    assert!(cpu.step(&mut cart, &mut ppu).is_ok());
    assert!(cpu.step(&mut cart, &mut ppu).is_ok());
    assert_eq!(cpu.r_pc, 0x8006);
    assert_eq!(cpu.skip_cycles, 2, "base 2, less the fetch, plus 1 taken");
}

#[test]
fn branch_not_taken_falls_through() {
    // LDA #1 clears the zero flag, BEQ is not taken
    let (mut cart, mut cpu, mut ppu) = machine(&[0xa9, 0x01, 0xf0, 0x02]);
    for _ in 0..3 {
        assert!(cpu.step(&mut cart, &mut ppu).is_ok());
    }
    assert_eq!(cpu.r_pc, 0x8004);
    assert_eq!(cpu.skip_cycles, 1);
}

#[test]
fn branch_backwards_with_negative_offset() {
    // LDA #0 then BEQ -4 jumps back to the start
    let (mut cart, mut cpu, mut ppu) = machine(&[0xa9, 0x00, 0xf0, 0xfc]);
    for _ in 0..3 {
        assert!(cpu.step(&mut cart, &mut ppu).is_ok());
    }
    assert_eq!(cpu.r_pc, 0x8000);
}

#[test]
fn jmp_absolute_sets_pc() {
    let (mut cart, mut cpu, mut ppu) = machine(&[0x4c, 0x05, 0x80]);
    assert!(cpu.step(&mut cart, &mut ppu).is_ok());
    assert_eq!(cpu.r_pc, 0x8005);
    assert_eq!(cpu.skip_cycles, 2);
}

#[test]
fn jsr_rts_round_trip() {
    // JSR $8005 ... at $8005: RTS, back to $8003
    let (mut cart, mut cpu, mut ppu) = machine(&[0x20, 0x05, 0x80, 0xa9, 0x07, 0x60]);
    for _ in 0..6 {
        assert!(cpu.step(&mut cart, &mut ppu).is_ok());
    }
    assert_eq!(cpu.r_pc, 0x8005);
    for _ in 0..6 {
        assert!(cpu.step(&mut cart, &mut ppu).is_ok());
    }
    assert_eq!(cpu.r_pc, 0x8003);
}

#[test]
fn nmi_taken_only_at_instruction_boundary() {
    let mut data = rom_with_code(&[0xa9, 0x00]);
    data[16 + 0x3ffa] = 0x34;
    data[16 + 0x3ffb] = 0x12;
    let mut cart = Cartridge::new();
    assert!(cart.load(&data).is_ok());
    let mut cpu = CPU::new();
    let mut ppu = PPU::new();
    assert!(cpu.reset(&cart, &mut ppu).is_ok());
    assert!(cpu.step(&mut cart, &mut ppu).is_ok()); // fetch LDA, one cycle pending
    cpu.interrupt(InteruptType::NMI);
    assert!(cpu.step(&mut cart, &mut ppu).is_ok()); // idle cycle: not yet taken
    assert_eq!(cpu.r_pc, 0x8002);
    assert!(cpu.pending_nmi);
    assert!(cpu.step(&mut cart, &mut ppu).is_ok()); // boundary: entry
    assert_eq!(cpu.r_pc, 0x1234);
    assert!(!cpu.pending_nmi);
    assert_eq!(cpu.skip_cycles, 6);
    // return address and status sit on the stack
    assert_eq!(cpu.ram[0x1fd], 0x80);
    assert_eq!(cpu.ram[0x1fc], 0x02);
    assert_ne!(cpu.r_st & 0x04, 0, "interrupts disabled on entry");
}

#[test]
fn zero_page_indexed_wraps() {
    // LDX #5, then STA $FE,X stores at (0xfe + 5) & 0xff == 0x03
    let (mut cart, mut cpu, mut ppu) = machine(&[0xa2, 0x05, 0xa9, 0x77, 0x95, 0xfe]);
    for _ in 0..(2 + 2 + 4) {
        assert!(cpu.step(&mut cart, &mut ppu).is_ok());
    }
    assert_eq!(cpu.ram[0x03], 0x77);
}

#[test]
fn indirect_indexed_reads_through_zero_page() {
    // pointer at $10 -> $0040; LDY #2; LDA ($10),Y reads $0042
    let (mut cart, mut cpu, mut ppu) = machine(&[
        0xa9, 0x40, 0x85, 0x10, // LDA #$40, STA $10 (pointer low)
        0xa9, 0x00, 0x85, 0x11, // LDA #$00, STA $11 (pointer high)
        0xa9, 0x99, 0x85, 0x42, // LDA #$99, STA $42
        0xa0, 0x02, // LDY #2
        0xa9, 0x00, // LDA #0
        0xb1, 0x10, // LDA ($10),Y
    ]);
    for _ in 0..(5 + 5 + 5 + 2 + 2 + 5) {
        assert!(cpu.step(&mut cart, &mut ppu).is_ok());
    }
    assert_eq!(cpu.r_a, 0x99);
}

#[test]
fn indexed_indirect_reads_through_zero_page() {
    // LDX #4; pointer at ($0C + 4) = $10 -> $0040
    let (mut cart, mut cpu, mut ppu) = machine(&[
        0xa9, 0x40, 0x85, 0x10, // pointer low at $10
        0xa9, 0x00, 0x85, 0x11, // pointer high at $11
        0xa9, 0x77, 0x85, 0x40, // value at $40
        0xa2, 0x04, // LDX #4
        0xa1, 0x0c, // LDA ($0C,X)
    ]);
    for _ in 0..(5 + 5 + 5 + 2 + 6) {
        assert!(cpu.step(&mut cart, &mut ppu).is_ok());
    }
    assert_eq!(cpu.r_a, 0x77);
}

#[test]
fn transfers_move_registers_and_flags() {
    let mut cpu = CPU::new();
    cpu.r_a = 0x80;
    cpu.exe_tax();
    assert_eq!(cpu.r_x, 0x80);
    assert_ne!(cpu.r_st & 0x80, 0);
    cpu.exe_txs();
    assert_eq!(cpu.r_sp, 0x80);
    cpu.r_a = 0;
    cpu.exe_tsx();
    assert_eq!(cpu.r_x, 0x80);
    cpu.exe_txa();
    assert_eq!(cpu.r_a, 0x80);
    cpu.exe_tay();
    assert_eq!(cpu.r_y, 0x80);
    cpu.r_y = 0;
    cpu.exe_tya();
    assert_eq!(cpu.r_a, 0);
    assert_ne!(cpu.r_st & 0x02, 0);
}

#[test]
fn logic_operations_combine_accumulator() {
    let mut cpu = CPU::new();
    cpu.r_a = 0x0f;
    cpu.exe_ora(0xf0);
    assert_eq!(cpu.r_a, 0xff);
    cpu.exe_and(0x3c);
    assert_eq!(cpu.r_a, 0x3c);
    cpu.exe_eor(0xff);
    assert_eq!(cpu.r_a, 0xc3);
    assert_ne!(cpu.r_st & 0x80, 0);
}

#[test]
fn flag_instructions_set_and_clear_bits() {
    let mut cpu = CPU::new();
    cpu.exe_sec();
    assert_ne!(cpu.r_st & 0x01, 0);
    cpu.exe_clc();
    assert_eq!(cpu.r_st & 0x01, 0);
    cpu.exe_sed();
    assert_ne!(cpu.r_st & 0x08, 0);
    cpu.exe_cld();
    assert_eq!(cpu.r_st & 0x08, 0);
    cpu.exe_sei();
    assert_ne!(cpu.r_st & 0x04, 0);
    cpu.exe_cli();
    assert_eq!(cpu.r_st & 0x04, 0);
    cpu.r_st = 0x40;
    cpu.exe_clv();
    assert_eq!(cpu.r_st & 0x40, 0);
}

#[test]
fn php_plp_round_trip_status() {
    let (_cart, mut cpu, _ppu) = machine(&[]);
    cpu.r_st = 0x81;
    cpu.exe_php();
    assert_eq!(cpu.ram[0x1fd], 0x81 | 0x10, "pushed with the break flag shown");
    cpu.r_st = 0;
    cpu.exe_plp();
    assert_eq!(cpu.r_st, 0x91);
}

#[test]
fn brk_pushes_state_and_takes_vector() {
    let mut data = rom_with_code(&[0x00]);
    data[16 + 0x3ffe] = 0x00;
    data[16 + 0x3fff] = 0x90;
    let mut cart = Cartridge::new();
    assert!(cart.load(&data).is_ok());
    let mut cpu = CPU::new();
    let mut ppu = PPU::new();
    assert!(cpu.reset(&cart, &mut ppu).is_ok());
    assert!(cpu.step(&mut cart, &mut ppu).is_ok());
    assert_eq!(cpu.r_pc, 0x9000);
    assert_eq!(cpu.skip_cycles, 6);
    assert_eq!(cpu.ram[0x1fd], 0x80, "return address high byte");
    assert_eq!(cpu.ram[0x1fc], 0x02, "return address low byte");
    assert_ne!(cpu.ram[0x1fb] & 0x10, 0, "status pushed with break flag");
    assert_ne!(cpu.r_st & 0x04, 0, "interrupts disabled");
}

#[test]
fn rti_restores_status_and_pc() {
    let (mut cart, mut cpu, mut ppu) = machine(&[0x40]);
    // hand-build the stack frame RTI expects: status, then return address
    cpu.ram[0x1fd] = 0x80; // pc high
    cpu.ram[0x1fc] = 0x05; // pc low
    cpu.ram[0x1fb] = 0x41; // status
    cpu.r_sp = 0xfa;
    assert!(cpu.step(&mut cart, &mut ppu).is_ok());
    assert_eq!(cpu.r_pc, 0x8005);
    assert_eq!(cpu.r_st, 0x41);
}

#[test]
fn idle_steps_only_count_cycles() {
    // CLC is an implied two-cycle instruction: after the fetch step, one
    // idle step consumes the pending cycle and changes nothing else
    let (mut cart, mut cpu, mut ppu) = machine(&[0x18, 0x18]);
    assert!(cpu.step(&mut cart, &mut ppu).is_ok());
    let pc_after_fetch = cpu.r_pc;
    let st = cpu.r_st;
    assert!(cpu.step(&mut cart, &mut ppu).is_ok());
    assert_eq!(cpu.r_pc, pc_after_fetch, "idle step leaves the counter");
    assert_eq!(cpu.r_st, st);
    assert_eq!(cpu.cycles, 2);
    assert_eq!(cpu.skip_cycles, 0);
}

#[test]
fn absolute_indexed_page_cross_costs_cycle() {
    // LDY #1, LDA $80FF,Y crosses a page: 4 base + 1 penalty
    let (mut cart, mut cpu, mut ppu) = machine(&[0xa0, 0x01, 0xb9, 0xff, 0x80]);
    assert!(cpu.step(&mut cart, &mut ppu).is_ok());
    assert!(cpu.step(&mut cart, &mut ppu).is_ok());
    assert!(cpu.step(&mut cart, &mut ppu).is_ok());
    assert_eq!(cpu.skip_cycles, 4);
}
