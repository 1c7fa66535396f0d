use vstd::prelude::*;

use crate::cart::Cartridge;
use crate::errors::EmuError;
use crate::ppu::PPU;

verus! {

/// Addressing modes of the instruction set: immediate, zero page (plain
/// and indexed), indexed-indirect and indirect-indexed, absolute (plain
/// and indexed), indirect, relative and implied.
#[allow(non_camel_case_types)]
#[derive(Clone, Copy, Debug, PartialEq, Eq, Structural)]
pub enum AddressMode {
    IMM,
    ZP,
    ZPX,
    ZPY,
    IZX,
    IZY,
    ABS,
    ABX,
    ABY,
    IND,
    REL,
    IMP,
}

/// The documented mnemonics of the instruction set. Undocumented opcodes
/// are deliberately absent: fetching one is a fatal error.
#[allow(non_camel_case_types)]
#[derive(Clone, Copy, Debug, PartialEq, Eq, Structural)]
pub enum Instructions {
    ORA,
    AND,
    EOR,
    ADC,
    SBC,
    LDA,
    STA,
    LDX,
    STX,
    LDY,
    STY,
    CMP,
    CPX,
    CPY,
    DEC,
    INC,
    DEX,
    DEY,
    INX,
    INY,
    ASL,
    ROL,
    LSR,
    ROR,
    TAX,
    TXA,
    TAY,
    TYA,
    TSX,
    TXS,
    PLA,
    PHA,
    PLP,
    PHP,
    BPL,
    BMI,
    BVC,
    BVS,
    BCC,
    BCS,
    BNE,
    BEQ,
    CLC,
    SEC,
    CLD,
    SED,
    CLI,
    SEI,
    CLV,
    JSR,
    JMP,
    RTS,
    RTI,
    BIT,
    BRK,
}

/// Interrupt kinds the CPU can be asked to take.
#[derive(PartialEq, Clone, Copy, Debug, Eq, Structural)]
pub enum InteruptType {
    NMI,
}

/// One instruction descriptor of the opcode table: mnemonic, addressing
/// mode, instruction length in bytes, base cycle cost, and whether a page
/// crossing during address resolution costs one extra cycle.
#[derive(Clone, Copy, Debug, PartialEq, Eq, Structural)]
pub struct Op {
    pub instr: Instructions,
    pub mode: AddressMode,
    pub len: u8,
    pub cycles: u8,
    pub page_penalty: bool,
}

/// Negative flag bit of the status register.
pub const STATUS_N: u8 = 0x80;

/// Overflow flag bit of the status register.
pub const STATUS_V: u8 = 0x40;

/// Break flag bit of the status register.
pub const STATUS_B: u8 = 0x10;

/// Decimal-mode flag bit of the status register (decimal arithmetic is
/// not modelled).
pub const STATUS_D: u8 = 0x08;

/// Interrupt-disable flag bit of the status register.
pub const STATUS_I: u8 = 0x04;

/// Zero flag bit of the status register.
pub const STATUS_Z: u8 = 0x02;

/// Carry flag bit of the status register.
pub const STATUS_C: u8 = 0x01;

/// Address of the reset vector.
pub const RESET_VECTOR: u16 = 0xfffc;

/// Address of the non-maskable-interrupt vector.
pub const NMI_VECTOR: u16 = 0xfffa;

/// Address of the interrupt/break vector.
pub const BRK_VECTOR: u16 = 0xfffe;

/// Status register value at power-on and after reset: interrupts
/// disabled, everything else clear.
pub const STATUS_START: u8 = 0x04;

/// Stack pointer value after reset.
pub const STACK_START: u8 = 0xfd;

/// The eight conditional branch mnemonics.
pub open spec fn spec_is_branch(i: Instructions) -> bool {
    match i {
        Instructions::BPL => true,
        Instructions::BMI => true,
        Instructions::BVC => true,
        Instructions::BVS => true,
        Instructions::BCC => true,
        Instructions::BCS => true,
        Instructions::BNE => true,
        Instructions::BEQ => true,
        _ => false,
    }
}

/// The fixed mapping from opcode byte to instruction descriptor. A byte
/// with no entry is not an instruction.
pub open spec fn spec_decode(opcode: u8) -> Option<Op> {
    match opcode {
        0x00 => Some(Op { instr: Instructions::BRK, mode: AddressMode::IMP, len: 1, cycles: 7, page_penalty: false }),
        0x01 => Some(Op { instr: Instructions::ORA, mode: AddressMode::IZX, len: 2, cycles: 6, page_penalty: false }),
        0x05 => Some(Op { instr: Instructions::ORA, mode: AddressMode::ZP, len: 2, cycles: 3, page_penalty: false }),
        0x06 => Some(Op { instr: Instructions::ASL, mode: AddressMode::ZP, len: 2, cycles: 5, page_penalty: false }),
        0x08 => Some(Op { instr: Instructions::PHP, mode: AddressMode::IMP, len: 1, cycles: 3, page_penalty: false }),
        0x09 => Some(Op { instr: Instructions::ORA, mode: AddressMode::IMM, len: 2, cycles: 2, page_penalty: false }),
        0x0a => Some(Op { instr: Instructions::ASL, mode: AddressMode::IMP, len: 1, cycles: 2, page_penalty: false }),
        0x0d => Some(Op { instr: Instructions::ORA, mode: AddressMode::ABS, len: 3, cycles: 4, page_penalty: false }),
        0x0e => Some(Op { instr: Instructions::ASL, mode: AddressMode::ABS, len: 3, cycles: 6, page_penalty: false }),
        0x10 => Some(Op { instr: Instructions::BPL, mode: AddressMode::REL, len: 2, cycles: 2, page_penalty: true }),
        0x11 => Some(Op { instr: Instructions::ORA, mode: AddressMode::IZY, len: 2, cycles: 5, page_penalty: true }),
        0x15 => Some(Op { instr: Instructions::ORA, mode: AddressMode::ZPX, len: 2, cycles: 4, page_penalty: false }),
        0x16 => Some(Op { instr: Instructions::ASL, mode: AddressMode::ZPX, len: 2, cycles: 6, page_penalty: false }),
        0x18 => Some(Op { instr: Instructions::CLC, mode: AddressMode::IMP, len: 1, cycles: 2, page_penalty: false }),
        0x19 => Some(Op { instr: Instructions::ORA, mode: AddressMode::ABY, len: 3, cycles: 4, page_penalty: true }),
        0x1d => Some(Op { instr: Instructions::ORA, mode: AddressMode::ABX, len: 3, cycles: 4, page_penalty: true }),
        0x1e => Some(Op { instr: Instructions::ASL, mode: AddressMode::ABX, len: 3, cycles: 7, page_penalty: false }),
        0x20 => Some(Op { instr: Instructions::JSR, mode: AddressMode::ABS, len: 3, cycles: 6, page_penalty: false }),
        0x21 => Some(Op { instr: Instructions::AND, mode: AddressMode::IZX, len: 2, cycles: 6, page_penalty: false }),
        0x24 => Some(Op { instr: Instructions::BIT, mode: AddressMode::ZP, len: 2, cycles: 3, page_penalty: false }),
        0x25 => Some(Op { instr: Instructions::AND, mode: AddressMode::ZP, len: 2, cycles: 3, page_penalty: false }),
        0x26 => Some(Op { instr: Instructions::ROL, mode: AddressMode::ZP, len: 2, cycles: 5, page_penalty: false }),
        0x28 => Some(Op { instr: Instructions::PLP, mode: AddressMode::IMP, len: 1, cycles: 4, page_penalty: false }),
        0x29 => Some(Op { instr: Instructions::AND, mode: AddressMode::IMM, len: 2, cycles: 2, page_penalty: false }),
        0x2a => Some(Op { instr: Instructions::ROL, mode: AddressMode::IMP, len: 1, cycles: 2, page_penalty: false }),
        0x2c => Some(Op { instr: Instructions::BIT, mode: AddressMode::ABS, len: 3, cycles: 4, page_penalty: false }),
        0x2d => Some(Op { instr: Instructions::AND, mode: AddressMode::ABS, len: 3, cycles: 4, page_penalty: false }),
        0x2e => Some(Op { instr: Instructions::ROL, mode: AddressMode::ABS, len: 3, cycles: 6, page_penalty: false }),
        0x30 => Some(Op { instr: Instructions::BMI, mode: AddressMode::REL, len: 2, cycles: 2, page_penalty: false }),
        0x31 => Some(Op { instr: Instructions::AND, mode: AddressMode::IZY, len: 2, cycles: 5, page_penalty: true }),
        0x35 => Some(Op { instr: Instructions::AND, mode: AddressMode::ZPX, len: 2, cycles: 4, page_penalty: false }),
        0x36 => Some(Op { instr: Instructions::ROL, mode: AddressMode::ZPX, len: 2, cycles: 6, page_penalty: false }),
        0x38 => Some(Op { instr: Instructions::SEC, mode: AddressMode::IMP, len: 1, cycles: 2, page_penalty: false }),
        0x39 => Some(Op { instr: Instructions::AND, mode: AddressMode::ABY, len: 3, cycles: 4, page_penalty: true }),
        0x3d => Some(Op { instr: Instructions::AND, mode: AddressMode::ABX, len: 3, cycles: 4, page_penalty: true }),
        0x3e => Some(Op { instr: Instructions::ROL, mode: AddressMode::ABX, len: 3, cycles: 7, page_penalty: false }),
        0x40 => Some(Op { instr: Instructions::RTI, mode: AddressMode::IMP, len: 1, cycles: 6, page_penalty: false }),
        0x41 => Some(Op { instr: Instructions::EOR, mode: AddressMode::IZX, len: 2, cycles: 6, page_penalty: false }),
        0x45 => Some(Op { instr: Instructions::EOR, mode: AddressMode::ZP, len: 2, cycles: 3, page_penalty: false }),
        0x46 => Some(Op { instr: Instructions::LSR, mode: AddressMode::ZP, len: 2, cycles: 5, page_penalty: false }),
        0x48 => Some(Op { instr: Instructions::PHA, mode: AddressMode::IMP, len: 1, cycles: 3, page_penalty: false }),
        0x49 => Some(Op { instr: Instructions::EOR, mode: AddressMode::IMM, len: 2, cycles: 2, page_penalty: false }),
        0x4a => Some(Op { instr: Instructions::LSR, mode: AddressMode::IMP, len: 1, cycles: 2, page_penalty: false }),
        0x4c => Some(Op { instr: Instructions::JMP, mode: AddressMode::ABS, len: 3, cycles: 3, page_penalty: false }),
        0x4d => Some(Op { instr: Instructions::EOR, mode: AddressMode::ABS, len: 3, cycles: 4, page_penalty: false }),
        0x4e => Some(Op { instr: Instructions::LSR, mode: AddressMode::ABS, len: 3, cycles: 6, page_penalty: false }),
        0x50 => Some(Op { instr: Instructions::BVC, mode: AddressMode::REL, len: 2, cycles: 2, page_penalty: true }),
        0x51 => Some(Op { instr: Instructions::EOR, mode: AddressMode::IZY, len: 2, cycles: 5, page_penalty: true }),
        0x55 => Some(Op { instr: Instructions::EOR, mode: AddressMode::ZPX, len: 2, cycles: 4, page_penalty: false }),
        0x56 => Some(Op { instr: Instructions::LSR, mode: AddressMode::ZPX, len: 2, cycles: 6, page_penalty: false }),
        0x58 => Some(Op { instr: Instructions::CLI, mode: AddressMode::IMP, len: 1, cycles: 2, page_penalty: false }),
        0x59 => Some(Op { instr: Instructions::EOR, mode: AddressMode::ABY, len: 3, cycles: 4, page_penalty: true }),
        0x5d => Some(Op { instr: Instructions::EOR, mode: AddressMode::ABX, len: 3, cycles: 4, page_penalty: true }),
        0x5e => Some(Op { instr: Instructions::LSR, mode: AddressMode::ABX, len: 3, cycles: 7, page_penalty: false }),
        0x60 => Some(Op { instr: Instructions::RTS, mode: AddressMode::IMP, len: 1, cycles: 6, page_penalty: false }),
        0x61 => Some(Op { instr: Instructions::ADC, mode: AddressMode::IZX, len: 2, cycles: 6, page_penalty: false }),
        0x65 => Some(Op { instr: Instructions::ADC, mode: AddressMode::ZP, len: 2, cycles: 3, page_penalty: false }),
        0x66 => Some(Op { instr: Instructions::ROR, mode: AddressMode::ZP, len: 2, cycles: 5, page_penalty: false }),
        0x68 => Some(Op { instr: Instructions::PLA, mode: AddressMode::IMP, len: 1, cycles: 4, page_penalty: false }),
        0x69 => Some(Op { instr: Instructions::ADC, mode: AddressMode::IMM, len: 2, cycles: 2, page_penalty: false }),
        0x6a => Some(Op { instr: Instructions::ROR, mode: AddressMode::IMP, len: 1, cycles: 2, page_penalty: false }),
        0x6c => Some(Op { instr: Instructions::JMP, mode: AddressMode::IND, len: 3, cycles: 5, page_penalty: false }),
        0x6d => Some(Op { instr: Instructions::ADC, mode: AddressMode::ABS, len: 3, cycles: 4, page_penalty: false }),
        0x6e => Some(Op { instr: Instructions::ROR, mode: AddressMode::ABS, len: 3, cycles: 6, page_penalty: false }),
        0x70 => Some(Op { instr: Instructions::BVS, mode: AddressMode::REL, len: 2, cycles: 2, page_penalty: true }),
        0x71 => Some(Op { instr: Instructions::ADC, mode: AddressMode::IZY, len: 2, cycles: 5, page_penalty: true }),
        0x75 => Some(Op { instr: Instructions::ADC, mode: AddressMode::ZPX, len: 2, cycles: 4, page_penalty: false }),
        0x76 => Some(Op { instr: Instructions::ROR, mode: AddressMode::ZPX, len: 2, cycles: 6, page_penalty: false }),
        0x78 => Some(Op { instr: Instructions::SEI, mode: AddressMode::IMP, len: 1, cycles: 2, page_penalty: false }),
        0x79 => Some(Op { instr: Instructions::ADC, mode: AddressMode::ABY, len: 3, cycles: 4, page_penalty: true }),
        0x7d => Some(Op { instr: Instructions::ADC, mode: AddressMode::ABX, len: 3, cycles: 4, page_penalty: true }),
        0x7e => Some(Op { instr: Instructions::ROR, mode: AddressMode::ABX, len: 3, cycles: 7, page_penalty: false }),
        0x81 => Some(Op { instr: Instructions::STA, mode: AddressMode::IZX, len: 2, cycles: 6, page_penalty: false }),
        0x84 => Some(Op { instr: Instructions::STY, mode: AddressMode::ZP, len: 2, cycles: 3, page_penalty: false }),
        0x85 => Some(Op { instr: Instructions::STA, mode: AddressMode::ZP, len: 2, cycles: 3, page_penalty: false }),
        0x86 => Some(Op { instr: Instructions::STX, mode: AddressMode::ZP, len: 2, cycles: 3, page_penalty: false }),
        0x88 => Some(Op { instr: Instructions::DEY, mode: AddressMode::IMP, len: 1, cycles: 2, page_penalty: false }),
        0x8a => Some(Op { instr: Instructions::TXA, mode: AddressMode::IMP, len: 1, cycles: 2, page_penalty: false }),
        0x8c => Some(Op { instr: Instructions::STY, mode: AddressMode::ABS, len: 3, cycles: 4, page_penalty: false }),
        0x8d => Some(Op { instr: Instructions::STA, mode: AddressMode::ABS, len: 3, cycles: 4, page_penalty: false }),
        0x8e => Some(Op { instr: Instructions::STX, mode: AddressMode::ABS, len: 3, cycles: 4, page_penalty: false }),
        0x90 => Some(Op { instr: Instructions::BCC, mode: AddressMode::REL, len: 2, cycles: 2, page_penalty: false }),
        0x91 => Some(Op { instr: Instructions::STA, mode: AddressMode::IZY, len: 2, cycles: 6, page_penalty: true }),
        0x94 => Some(Op { instr: Instructions::STY, mode: AddressMode::ZPX, len: 2, cycles: 4, page_penalty: false }),
        0x95 => Some(Op { instr: Instructions::STA, mode: AddressMode::ZPX, len: 2, cycles: 4, page_penalty: false }),
        0x96 => Some(Op { instr: Instructions::STX, mode: AddressMode::ZPY, len: 2, cycles: 4, page_penalty: false }),
        0x98 => Some(Op { instr: Instructions::TYA, mode: AddressMode::IMP, len: 1, cycles: 2, page_penalty: false }),
        0x99 => Some(Op { instr: Instructions::STA, mode: AddressMode::ABY, len: 3, cycles: 5, page_penalty: false }),
        0x9a => Some(Op { instr: Instructions::TXS, mode: AddressMode::IMP, len: 1, cycles: 2, page_penalty: false }),
        0x9d => Some(Op { instr: Instructions::STA, mode: AddressMode::ABX, len: 3, cycles: 5, page_penalty: false }),
        0xa0 => Some(Op { instr: Instructions::LDY, mode: AddressMode::IMM, len: 2, cycles: 2, page_penalty: false }),
        0xa1 => Some(Op { instr: Instructions::LDA, mode: AddressMode::IZX, len: 2, cycles: 6, page_penalty: false }),
        0xa2 => Some(Op { instr: Instructions::LDX, mode: AddressMode::IMM, len: 2, cycles: 2, page_penalty: false }),
        0xa4 => Some(Op { instr: Instructions::LDY, mode: AddressMode::ZP, len: 2, cycles: 3, page_penalty: false }),
        0xa5 => Some(Op { instr: Instructions::LDA, mode: AddressMode::ZP, len: 2, cycles: 3, page_penalty: false }),
        0xa6 => Some(Op { instr: Instructions::LDX, mode: AddressMode::ZP, len: 2, cycles: 3, page_penalty: false }),
        0xa8 => Some(Op { instr: Instructions::TAY, mode: AddressMode::IMP, len: 1, cycles: 2, page_penalty: false }),
        0xa9 => Some(Op { instr: Instructions::LDA, mode: AddressMode::IMM, len: 2, cycles: 2, page_penalty: false }),
        0xaa => Some(Op { instr: Instructions::TAX, mode: AddressMode::IMP, len: 1, cycles: 2, page_penalty: false }),
        0xac => Some(Op { instr: Instructions::LDY, mode: AddressMode::ABS, len: 3, cycles: 4, page_penalty: false }),
        0xad => Some(Op { instr: Instructions::LDA, mode: AddressMode::ABS, len: 3, cycles: 4, page_penalty: false }),
        0xae => Some(Op { instr: Instructions::LDX, mode: AddressMode::ABS, len: 3, cycles: 4, page_penalty: false }),
        0xb0 => Some(Op { instr: Instructions::BCS, mode: AddressMode::REL, len: 2, cycles: 2, page_penalty: true }),
        0xb1 => Some(Op { instr: Instructions::LDA, mode: AddressMode::IZY, len: 2, cycles: 5, page_penalty: true }),
        0xb4 => Some(Op { instr: Instructions::LDY, mode: AddressMode::ZPX, len: 2, cycles: 4, page_penalty: false }),
        0xb5 => Some(Op { instr: Instructions::LDA, mode: AddressMode::ZPX, len: 2, cycles: 4, page_penalty: false }),
        0xb6 => Some(Op { instr: Instructions::LDX, mode: AddressMode::ZPY, len: 2, cycles: 4, page_penalty: false }),
        0xb8 => Some(Op { instr: Instructions::CLV, mode: AddressMode::IMP, len: 1, cycles: 2, page_penalty: false }),
        0xb9 => Some(Op { instr: Instructions::LDA, mode: AddressMode::ABY, len: 3, cycles: 4, page_penalty: true }),
        0xba => Some(Op { instr: Instructions::TSX, mode: AddressMode::IMP, len: 1, cycles: 2, page_penalty: false }),
        0xbc => Some(Op { instr: Instructions::LDY, mode: AddressMode::ABX, len: 3, cycles: 4, page_penalty: true }),
        0xbd => Some(Op { instr: Instructions::LDA, mode: AddressMode::ABX, len: 3, cycles: 4, page_penalty: true }),
        0xbe => Some(Op { instr: Instructions::LDX, mode: AddressMode::ABY, len: 3, cycles: 4, page_penalty: true }),
        0xc0 => Some(Op { instr: Instructions::CPY, mode: AddressMode::IMM, len: 2, cycles: 2, page_penalty: false }),
        0xc1 => Some(Op { instr: Instructions::CMP, mode: AddressMode::IZX, len: 2, cycles: 6, page_penalty: false }),
        0xc4 => Some(Op { instr: Instructions::CPY, mode: AddressMode::ZP, len: 2, cycles: 3, page_penalty: false }),
        0xc5 => Some(Op { instr: Instructions::CMP, mode: AddressMode::ZP, len: 2, cycles: 3, page_penalty: false }),
        0xc6 => Some(Op { instr: Instructions::DEC, mode: AddressMode::ZP, len: 2, cycles: 5, page_penalty: false }),
        0xc8 => Some(Op { instr: Instructions::INY, mode: AddressMode::IMP, len: 1, cycles: 2, page_penalty: false }),
        0xc9 => Some(Op { instr: Instructions::CMP, mode: AddressMode::IMM, len: 2, cycles: 2, page_penalty: false }),
        0xca => Some(Op { instr: Instructions::DEX, mode: AddressMode::IMP, len: 1, cycles: 2, page_penalty: false }),
        0xcc => Some(Op { instr: Instructions::CPY, mode: AddressMode::ABS, len: 3, cycles: 4, page_penalty: false }),
        0xcd => Some(Op { instr: Instructions::CMP, mode: AddressMode::ABS, len: 3, cycles: 4, page_penalty: false }),
        0xce => Some(Op { instr: Instructions::DEC, mode: AddressMode::ABS, len: 3, cycles: 6, page_penalty: false }),
        0xd0 => Some(Op { instr: Instructions::BNE, mode: AddressMode::REL, len: 2, cycles: 2, page_penalty: true }),
        0xd1 => Some(Op { instr: Instructions::CMP, mode: AddressMode::IZY, len: 2, cycles: 5, page_penalty: true }),
        0xd5 => Some(Op { instr: Instructions::CMP, mode: AddressMode::ZPX, len: 2, cycles: 4, page_penalty: false }),
        0xd6 => Some(Op { instr: Instructions::DEC, mode: AddressMode::ZPX, len: 2, cycles: 6, page_penalty: false }),
        0xd8 => Some(Op { instr: Instructions::CLD, mode: AddressMode::IMP, len: 1, cycles: 2, page_penalty: false }),
        0xd9 => Some(Op { instr: Instructions::CMP, mode: AddressMode::ABY, len: 3, cycles: 4, page_penalty: true }),
        0xdd => Some(Op { instr: Instructions::CMP, mode: AddressMode::ABX, len: 3, cycles: 4, page_penalty: true }),
        0xde => Some(Op { instr: Instructions::DEC, mode: AddressMode::ABX, len: 3, cycles: 7, page_penalty: false }),
        0xe0 => Some(Op { instr: Instructions::CPX, mode: AddressMode::IMM, len: 2, cycles: 2, page_penalty: false }),
        0xe1 => Some(Op { instr: Instructions::SBC, mode: AddressMode::IZX, len: 2, cycles: 6, page_penalty: false }),
        0xe4 => Some(Op { instr: Instructions::CPX, mode: AddressMode::ZP, len: 2, cycles: 3, page_penalty: false }),
        0xe5 => Some(Op { instr: Instructions::SBC, mode: AddressMode::ZP, len: 2, cycles: 3, page_penalty: false }),
        0xe6 => Some(Op { instr: Instructions::INC, mode: AddressMode::ZP, len: 2, cycles: 5, page_penalty: false }),
        0xe8 => Some(Op { instr: Instructions::INX, mode: AddressMode::IMP, len: 1, cycles: 2, page_penalty: false }),
        0xe9 => Some(Op { instr: Instructions::SBC, mode: AddressMode::IMM, len: 2, cycles: 2, page_penalty: false }),
        0xec => Some(Op { instr: Instructions::CPX, mode: AddressMode::ABS, len: 3, cycles: 4, page_penalty: false }),
        0xed => Some(Op { instr: Instructions::SBC, mode: AddressMode::ABS, len: 3, cycles: 4, page_penalty: false }),
        0xee => Some(Op { instr: Instructions::INC, mode: AddressMode::ABS, len: 3, cycles: 6, page_penalty: false }),
        0xf0 => Some(Op { instr: Instructions::BEQ, mode: AddressMode::REL, len: 2, cycles: 2, page_penalty: true }),
        0xf1 => Some(Op { instr: Instructions::SBC, mode: AddressMode::IZY, len: 2, cycles: 5, page_penalty: true }),
        0xf5 => Some(Op { instr: Instructions::SBC, mode: AddressMode::ZPX, len: 2, cycles: 4, page_penalty: false }),
        0xf6 => Some(Op { instr: Instructions::INC, mode: AddressMode::ZPX, len: 2, cycles: 6, page_penalty: false }),
        0xf8 => Some(Op { instr: Instructions::SED, mode: AddressMode::IMP, len: 1, cycles: 2, page_penalty: false }),
        0xf9 => Some(Op { instr: Instructions::SBC, mode: AddressMode::ABY, len: 3, cycles: 4, page_penalty: true }),
        0xfd => Some(Op { instr: Instructions::SBC, mode: AddressMode::ABX, len: 3, cycles: 4, page_penalty: true }),
        0xfe => Some(Op { instr: Instructions::INC, mode: AddressMode::ABX, len: 3, cycles: 7, page_penalty: false }),
        _ => None,
    }
}

/// Looks an opcode byte up in the instruction table.
pub fn decode(opcode: u8) -> (r: Option<Op>)
    ensures
        r == spec_decode(opcode),
        r is Some ==> 1 <= r->0.len <= 3 && 2 <= r->0.cycles <= 7,
        r is Some ==> ((r->0.mode is REL) <==> spec_is_branch(r->0.instr)),
{
    match opcode {
        0x00 => Some(Op { instr: Instructions::BRK, mode: AddressMode::IMP, len: 1, cycles: 7, page_penalty: false }),
        0x01 => Some(Op { instr: Instructions::ORA, mode: AddressMode::IZX, len: 2, cycles: 6, page_penalty: false }),
        0x05 => Some(Op { instr: Instructions::ORA, mode: AddressMode::ZP, len: 2, cycles: 3, page_penalty: false }),
        0x06 => Some(Op { instr: Instructions::ASL, mode: AddressMode::ZP, len: 2, cycles: 5, page_penalty: false }),
        0x08 => Some(Op { instr: Instructions::PHP, mode: AddressMode::IMP, len: 1, cycles: 3, page_penalty: false }),
        0x09 => Some(Op { instr: Instructions::ORA, mode: AddressMode::IMM, len: 2, cycles: 2, page_penalty: false }),
        0x0a => Some(Op { instr: Instructions::ASL, mode: AddressMode::IMP, len: 1, cycles: 2, page_penalty: false }),
        0x0d => Some(Op { instr: Instructions::ORA, mode: AddressMode::ABS, len: 3, cycles: 4, page_penalty: false }),
        0x0e => Some(Op { instr: Instructions::ASL, mode: AddressMode::ABS, len: 3, cycles: 6, page_penalty: false }),
        0x10 => Some(Op { instr: Instructions::BPL, mode: AddressMode::REL, len: 2, cycles: 2, page_penalty: true }),
        0x11 => Some(Op { instr: Instructions::ORA, mode: AddressMode::IZY, len: 2, cycles: 5, page_penalty: true }),
        0x15 => Some(Op { instr: Instructions::ORA, mode: AddressMode::ZPX, len: 2, cycles: 4, page_penalty: false }),
        0x16 => Some(Op { instr: Instructions::ASL, mode: AddressMode::ZPX, len: 2, cycles: 6, page_penalty: false }),
        0x18 => Some(Op { instr: Instructions::CLC, mode: AddressMode::IMP, len: 1, cycles: 2, page_penalty: false }),
        0x19 => Some(Op { instr: Instructions::ORA, mode: AddressMode::ABY, len: 3, cycles: 4, page_penalty: true }),
        0x1d => Some(Op { instr: Instructions::ORA, mode: AddressMode::ABX, len: 3, cycles: 4, page_penalty: true }),
        0x1e => Some(Op { instr: Instructions::ASL, mode: AddressMode::ABX, len: 3, cycles: 7, page_penalty: false }),
        0x20 => Some(Op { instr: Instructions::JSR, mode: AddressMode::ABS, len: 3, cycles: 6, page_penalty: false }),
        0x21 => Some(Op { instr: Instructions::AND, mode: AddressMode::IZX, len: 2, cycles: 6, page_penalty: false }),
        0x24 => Some(Op { instr: Instructions::BIT, mode: AddressMode::ZP, len: 2, cycles: 3, page_penalty: false }),
        0x25 => Some(Op { instr: Instructions::AND, mode: AddressMode::ZP, len: 2, cycles: 3, page_penalty: false }),
        0x26 => Some(Op { instr: Instructions::ROL, mode: AddressMode::ZP, len: 2, cycles: 5, page_penalty: false }),
        0x28 => Some(Op { instr: Instructions::PLP, mode: AddressMode::IMP, len: 1, cycles: 4, page_penalty: false }),
        0x29 => Some(Op { instr: Instructions::AND, mode: AddressMode::IMM, len: 2, cycles: 2, page_penalty: false }),
        0x2a => Some(Op { instr: Instructions::ROL, mode: AddressMode::IMP, len: 1, cycles: 2, page_penalty: false }),
        0x2c => Some(Op { instr: Instructions::BIT, mode: AddressMode::ABS, len: 3, cycles: 4, page_penalty: false }),
        0x2d => Some(Op { instr: Instructions::AND, mode: AddressMode::ABS, len: 3, cycles: 4, page_penalty: false }),
        0x2e => Some(Op { instr: Instructions::ROL, mode: AddressMode::ABS, len: 3, cycles: 6, page_penalty: false }),
        0x30 => Some(Op { instr: Instructions::BMI, mode: AddressMode::REL, len: 2, cycles: 2, page_penalty: false }),
        0x31 => Some(Op { instr: Instructions::AND, mode: AddressMode::IZY, len: 2, cycles: 5, page_penalty: true }),
        0x35 => Some(Op { instr: Instructions::AND, mode: AddressMode::ZPX, len: 2, cycles: 4, page_penalty: false }),
        0x36 => Some(Op { instr: Instructions::ROL, mode: AddressMode::ZPX, len: 2, cycles: 6, page_penalty: false }),
        0x38 => Some(Op { instr: Instructions::SEC, mode: AddressMode::IMP, len: 1, cycles: 2, page_penalty: false }),
        0x39 => Some(Op { instr: Instructions::AND, mode: AddressMode::ABY, len: 3, cycles: 4, page_penalty: true }),
        0x3d => Some(Op { instr: Instructions::AND, mode: AddressMode::ABX, len: 3, cycles: 4, page_penalty: true }),
        0x3e => Some(Op { instr: Instructions::ROL, mode: AddressMode::ABX, len: 3, cycles: 7, page_penalty: false }),
        0x40 => Some(Op { instr: Instructions::RTI, mode: AddressMode::IMP, len: 1, cycles: 6, page_penalty: false }),
        0x41 => Some(Op { instr: Instructions::EOR, mode: AddressMode::IZX, len: 2, cycles: 6, page_penalty: false }),
        0x45 => Some(Op { instr: Instructions::EOR, mode: AddressMode::ZP, len: 2, cycles: 3, page_penalty: false }),
        0x46 => Some(Op { instr: Instructions::LSR, mode: AddressMode::ZP, len: 2, cycles: 5, page_penalty: false }),
        0x48 => Some(Op { instr: Instructions::PHA, mode: AddressMode::IMP, len: 1, cycles: 3, page_penalty: false }),
        0x49 => Some(Op { instr: Instructions::EOR, mode: AddressMode::IMM, len: 2, cycles: 2, page_penalty: false }),
        0x4a => Some(Op { instr: Instructions::LSR, mode: AddressMode::IMP, len: 1, cycles: 2, page_penalty: false }),
        0x4c => Some(Op { instr: Instructions::JMP, mode: AddressMode::ABS, len: 3, cycles: 3, page_penalty: false }),
        0x4d => Some(Op { instr: Instructions::EOR, mode: AddressMode::ABS, len: 3, cycles: 4, page_penalty: false }),
        0x4e => Some(Op { instr: Instructions::LSR, mode: AddressMode::ABS, len: 3, cycles: 6, page_penalty: false }),
        0x50 => Some(Op { instr: Instructions::BVC, mode: AddressMode::REL, len: 2, cycles: 2, page_penalty: true }),
        0x51 => Some(Op { instr: Instructions::EOR, mode: AddressMode::IZY, len: 2, cycles: 5, page_penalty: true }),
        0x55 => Some(Op { instr: Instructions::EOR, mode: AddressMode::ZPX, len: 2, cycles: 4, page_penalty: false }),
        0x56 => Some(Op { instr: Instructions::LSR, mode: AddressMode::ZPX, len: 2, cycles: 6, page_penalty: false }),
        0x58 => Some(Op { instr: Instructions::CLI, mode: AddressMode::IMP, len: 1, cycles: 2, page_penalty: false }),
        0x59 => Some(Op { instr: Instructions::EOR, mode: AddressMode::ABY, len: 3, cycles: 4, page_penalty: true }),
        0x5d => Some(Op { instr: Instructions::EOR, mode: AddressMode::ABX, len: 3, cycles: 4, page_penalty: true }),
        0x5e => Some(Op { instr: Instructions::LSR, mode: AddressMode::ABX, len: 3, cycles: 7, page_penalty: false }),
        0x60 => Some(Op { instr: Instructions::RTS, mode: AddressMode::IMP, len: 1, cycles: 6, page_penalty: false }),
        0x61 => Some(Op { instr: Instructions::ADC, mode: AddressMode::IZX, len: 2, cycles: 6, page_penalty: false }),
        0x65 => Some(Op { instr: Instructions::ADC, mode: AddressMode::ZP, len: 2, cycles: 3, page_penalty: false }),
        0x66 => Some(Op { instr: Instructions::ROR, mode: AddressMode::ZP, len: 2, cycles: 5, page_penalty: false }),
        0x68 => Some(Op { instr: Instructions::PLA, mode: AddressMode::IMP, len: 1, cycles: 4, page_penalty: false }),
        0x69 => Some(Op { instr: Instructions::ADC, mode: AddressMode::IMM, len: 2, cycles: 2, page_penalty: false }),
        0x6a => Some(Op { instr: Instructions::ROR, mode: AddressMode::IMP, len: 1, cycles: 2, page_penalty: false }),
        0x6c => Some(Op { instr: Instructions::JMP, mode: AddressMode::IND, len: 3, cycles: 5, page_penalty: false }),
        0x6d => Some(Op { instr: Instructions::ADC, mode: AddressMode::ABS, len: 3, cycles: 4, page_penalty: false }),
        0x6e => Some(Op { instr: Instructions::ROR, mode: AddressMode::ABS, len: 3, cycles: 6, page_penalty: false }),
        0x70 => Some(Op { instr: Instructions::BVS, mode: AddressMode::REL, len: 2, cycles: 2, page_penalty: true }),
        0x71 => Some(Op { instr: Instructions::ADC, mode: AddressMode::IZY, len: 2, cycles: 5, page_penalty: true }),
        0x75 => Some(Op { instr: Instructions::ADC, mode: AddressMode::ZPX, len: 2, cycles: 4, page_penalty: false }),
        0x76 => Some(Op { instr: Instructions::ROR, mode: AddressMode::ZPX, len: 2, cycles: 6, page_penalty: false }),
        0x78 => Some(Op { instr: Instructions::SEI, mode: AddressMode::IMP, len: 1, cycles: 2, page_penalty: false }),
        0x79 => Some(Op { instr: Instructions::ADC, mode: AddressMode::ABY, len: 3, cycles: 4, page_penalty: true }),
        0x7d => Some(Op { instr: Instructions::ADC, mode: AddressMode::ABX, len: 3, cycles: 4, page_penalty: true }),
        0x7e => Some(Op { instr: Instructions::ROR, mode: AddressMode::ABX, len: 3, cycles: 7, page_penalty: false }),
        0x81 => Some(Op { instr: Instructions::STA, mode: AddressMode::IZX, len: 2, cycles: 6, page_penalty: false }),
        0x84 => Some(Op { instr: Instructions::STY, mode: AddressMode::ZP, len: 2, cycles: 3, page_penalty: false }),
        0x85 => Some(Op { instr: Instructions::STA, mode: AddressMode::ZP, len: 2, cycles: 3, page_penalty: false }),
        0x86 => Some(Op { instr: Instructions::STX, mode: AddressMode::ZP, len: 2, cycles: 3, page_penalty: false }),
        0x88 => Some(Op { instr: Instructions::DEY, mode: AddressMode::IMP, len: 1, cycles: 2, page_penalty: false }),
        0x8a => Some(Op { instr: Instructions::TXA, mode: AddressMode::IMP, len: 1, cycles: 2, page_penalty: false }),
        0x8c => Some(Op { instr: Instructions::STY, mode: AddressMode::ABS, len: 3, cycles: 4, page_penalty: false }),
        0x8d => Some(Op { instr: Instructions::STA, mode: AddressMode::ABS, len: 3, cycles: 4, page_penalty: false }),
        0x8e => Some(Op { instr: Instructions::STX, mode: AddressMode::ABS, len: 3, cycles: 4, page_penalty: false }),
        0x90 => Some(Op { instr: Instructions::BCC, mode: AddressMode::REL, len: 2, cycles: 2, page_penalty: false }),
        0x91 => Some(Op { instr: Instructions::STA, mode: AddressMode::IZY, len: 2, cycles: 6, page_penalty: true }),
        0x94 => Some(Op { instr: Instructions::STY, mode: AddressMode::ZPX, len: 2, cycles: 4, page_penalty: false }),
        0x95 => Some(Op { instr: Instructions::STA, mode: AddressMode::ZPX, len: 2, cycles: 4, page_penalty: false }),
        0x96 => Some(Op { instr: Instructions::STX, mode: AddressMode::ZPY, len: 2, cycles: 4, page_penalty: false }),
        0x98 => Some(Op { instr: Instructions::TYA, mode: AddressMode::IMP, len: 1, cycles: 2, page_penalty: false }),
        0x99 => Some(Op { instr: Instructions::STA, mode: AddressMode::ABY, len: 3, cycles: 5, page_penalty: false }),
        0x9a => Some(Op { instr: Instructions::TXS, mode: AddressMode::IMP, len: 1, cycles: 2, page_penalty: false }),
        0x9d => Some(Op { instr: Instructions::STA, mode: AddressMode::ABX, len: 3, cycles: 5, page_penalty: false }),
        0xa0 => Some(Op { instr: Instructions::LDY, mode: AddressMode::IMM, len: 2, cycles: 2, page_penalty: false }),
        0xa1 => Some(Op { instr: Instructions::LDA, mode: AddressMode::IZX, len: 2, cycles: 6, page_penalty: false }),
        0xa2 => Some(Op { instr: Instructions::LDX, mode: AddressMode::IMM, len: 2, cycles: 2, page_penalty: false }),
        0xa4 => Some(Op { instr: Instructions::LDY, mode: AddressMode::ZP, len: 2, cycles: 3, page_penalty: false }),
        0xa5 => Some(Op { instr: Instructions::LDA, mode: AddressMode::ZP, len: 2, cycles: 3, page_penalty: false }),
        0xa6 => Some(Op { instr: Instructions::LDX, mode: AddressMode::ZP, len: 2, cycles: 3, page_penalty: false }),
        0xa8 => Some(Op { instr: Instructions::TAY, mode: AddressMode::IMP, len: 1, cycles: 2, page_penalty: false }),
        0xa9 => Some(Op { instr: Instructions::LDA, mode: AddressMode::IMM, len: 2, cycles: 2, page_penalty: false }),
        0xaa => Some(Op { instr: Instructions::TAX, mode: AddressMode::IMP, len: 1, cycles: 2, page_penalty: false }),
        0xac => Some(Op { instr: Instructions::LDY, mode: AddressMode::ABS, len: 3, cycles: 4, page_penalty: false }),
        0xad => Some(Op { instr: Instructions::LDA, mode: AddressMode::ABS, len: 3, cycles: 4, page_penalty: false }),
        0xae => Some(Op { instr: Instructions::LDX, mode: AddressMode::ABS, len: 3, cycles: 4, page_penalty: false }),
        0xb0 => Some(Op { instr: Instructions::BCS, mode: AddressMode::REL, len: 2, cycles: 2, page_penalty: true }),
        0xb1 => Some(Op { instr: Instructions::LDA, mode: AddressMode::IZY, len: 2, cycles: 5, page_penalty: true }),
        0xb4 => Some(Op { instr: Instructions::LDY, mode: AddressMode::ZPX, len: 2, cycles: 4, page_penalty: false }),
        0xb5 => Some(Op { instr: Instructions::LDA, mode: AddressMode::ZPX, len: 2, cycles: 4, page_penalty: false }),
        0xb6 => Some(Op { instr: Instructions::LDX, mode: AddressMode::ZPY, len: 2, cycles: 4, page_penalty: false }),
        0xb8 => Some(Op { instr: Instructions::CLV, mode: AddressMode::IMP, len: 1, cycles: 2, page_penalty: false }),
        0xb9 => Some(Op { instr: Instructions::LDA, mode: AddressMode::ABY, len: 3, cycles: 4, page_penalty: true }),
        0xba => Some(Op { instr: Instructions::TSX, mode: AddressMode::IMP, len: 1, cycles: 2, page_penalty: false }),
        0xbc => Some(Op { instr: Instructions::LDY, mode: AddressMode::ABX, len: 3, cycles: 4, page_penalty: true }),
        0xbd => Some(Op { instr: Instructions::LDA, mode: AddressMode::ABX, len: 3, cycles: 4, page_penalty: true }),
        0xbe => Some(Op { instr: Instructions::LDX, mode: AddressMode::ABY, len: 3, cycles: 4, page_penalty: true }),
        0xc0 => Some(Op { instr: Instructions::CPY, mode: AddressMode::IMM, len: 2, cycles: 2, page_penalty: false }),
        0xc1 => Some(Op { instr: Instructions::CMP, mode: AddressMode::IZX, len: 2, cycles: 6, page_penalty: false }),
        0xc4 => Some(Op { instr: Instructions::CPY, mode: AddressMode::ZP, len: 2, cycles: 3, page_penalty: false }),
        0xc5 => Some(Op { instr: Instructions::CMP, mode: AddressMode::ZP, len: 2, cycles: 3, page_penalty: false }),
        0xc6 => Some(Op { instr: Instructions::DEC, mode: AddressMode::ZP, len: 2, cycles: 5, page_penalty: false }),
        0xc8 => Some(Op { instr: Instructions::INY, mode: AddressMode::IMP, len: 1, cycles: 2, page_penalty: false }),
        0xc9 => Some(Op { instr: Instructions::CMP, mode: AddressMode::IMM, len: 2, cycles: 2, page_penalty: false }),
        0xca => Some(Op { instr: Instructions::DEX, mode: AddressMode::IMP, len: 1, cycles: 2, page_penalty: false }),
        0xcc => Some(Op { instr: Instructions::CPY, mode: AddressMode::ABS, len: 3, cycles: 4, page_penalty: false }),
        0xcd => Some(Op { instr: Instructions::CMP, mode: AddressMode::ABS, len: 3, cycles: 4, page_penalty: false }),
        0xce => Some(Op { instr: Instructions::DEC, mode: AddressMode::ABS, len: 3, cycles: 6, page_penalty: false }),
        0xd0 => Some(Op { instr: Instructions::BNE, mode: AddressMode::REL, len: 2, cycles: 2, page_penalty: true }),
        0xd1 => Some(Op { instr: Instructions::CMP, mode: AddressMode::IZY, len: 2, cycles: 5, page_penalty: true }),
        0xd5 => Some(Op { instr: Instructions::CMP, mode: AddressMode::ZPX, len: 2, cycles: 4, page_penalty: false }),
        0xd6 => Some(Op { instr: Instructions::DEC, mode: AddressMode::ZPX, len: 2, cycles: 6, page_penalty: false }),
        0xd8 => Some(Op { instr: Instructions::CLD, mode: AddressMode::IMP, len: 1, cycles: 2, page_penalty: false }),
        0xd9 => Some(Op { instr: Instructions::CMP, mode: AddressMode::ABY, len: 3, cycles: 4, page_penalty: true }),
        0xdd => Some(Op { instr: Instructions::CMP, mode: AddressMode::ABX, len: 3, cycles: 4, page_penalty: true }),
        0xde => Some(Op { instr: Instructions::DEC, mode: AddressMode::ABX, len: 3, cycles: 7, page_penalty: false }),
        0xe0 => Some(Op { instr: Instructions::CPX, mode: AddressMode::IMM, len: 2, cycles: 2, page_penalty: false }),
        0xe1 => Some(Op { instr: Instructions::SBC, mode: AddressMode::IZX, len: 2, cycles: 6, page_penalty: false }),
        0xe4 => Some(Op { instr: Instructions::CPX, mode: AddressMode::ZP, len: 2, cycles: 3, page_penalty: false }),
        0xe5 => Some(Op { instr: Instructions::SBC, mode: AddressMode::ZP, len: 2, cycles: 3, page_penalty: false }),
        0xe6 => Some(Op { instr: Instructions::INC, mode: AddressMode::ZP, len: 2, cycles: 5, page_penalty: false }),
        0xe8 => Some(Op { instr: Instructions::INX, mode: AddressMode::IMP, len: 1, cycles: 2, page_penalty: false }),
        0xe9 => Some(Op { instr: Instructions::SBC, mode: AddressMode::IMM, len: 2, cycles: 2, page_penalty: false }),
        0xec => Some(Op { instr: Instructions::CPX, mode: AddressMode::ABS, len: 3, cycles: 4, page_penalty: false }),
        0xed => Some(Op { instr: Instructions::SBC, mode: AddressMode::ABS, len: 3, cycles: 4, page_penalty: false }),
        0xee => Some(Op { instr: Instructions::INC, mode: AddressMode::ABS, len: 3, cycles: 6, page_penalty: false }),
        0xf0 => Some(Op { instr: Instructions::BEQ, mode: AddressMode::REL, len: 2, cycles: 2, page_penalty: true }),
        0xf1 => Some(Op { instr: Instructions::SBC, mode: AddressMode::IZY, len: 2, cycles: 5, page_penalty: true }),
        0xf5 => Some(Op { instr: Instructions::SBC, mode: AddressMode::ZPX, len: 2, cycles: 4, page_penalty: false }),
        0xf6 => Some(Op { instr: Instructions::INC, mode: AddressMode::ZPX, len: 2, cycles: 6, page_penalty: false }),
        0xf8 => Some(Op { instr: Instructions::SED, mode: AddressMode::IMP, len: 1, cycles: 2, page_penalty: false }),
        0xf9 => Some(Op { instr: Instructions::SBC, mode: AddressMode::ABY, len: 3, cycles: 4, page_penalty: true }),
        0xfd => Some(Op { instr: Instructions::SBC, mode: AddressMode::ABX, len: 3, cycles: 4, page_penalty: true }),
        0xfe => Some(Op { instr: Instructions::INC, mode: AddressMode::ABX, len: 3, cycles: 7, page_penalty: false }),
        _ => None,
    }
}

/// The CPU: its register file, cycle accounting, the 2KB internal RAM,
/// and the frame-ready and pending-interrupt signals the orchestrator
/// drives.
pub struct CPU {
    pub r_pc: u16,
    pub r_a: u8,
    pub r_x: u8,
    pub r_y: u8,
    pub r_sp: u8,
    pub r_st: u8,
    pub cycles: u64,
    pub skip_cycles: u64,
    pub frame_ready: bool,
    pub pending_nmi: bool,
    pub ram: Vec<u8>,
}

impl CPU {
    /// The internal RAM is the fixed 2KB array.
    pub open spec fn wf(self) -> bool {
        self.ram@.len() == 0x800
    }

    /// A power-on CPU: registers and counters cleared, RAM zeroed.
    pub fn new() -> (c: CPU)
        ensures
            c.wf(),
            c.r_pc == 0 && c.r_a == 0 && c.r_x == 0 && c.r_y == 0 && c.r_sp == 0 && c.r_st == 0,
            c.cycles == 0 && c.skip_cycles == 0,
            !c.frame_ready,
            !c.pending_nmi,
            c.ram@ =~= Seq::new(0x800nat, |i: int| 0u8),
    {
        CPU {
            r_pc: 0,
            r_a: 0,
            r_x: 0,
            r_y: 0,
            r_sp: 0,
            r_st: 0,
            cycles: 0,
            skip_cycles: 0,
            frame_ready: false,
            pending_nmi: false,
            ram: vec![0u8; 0x800],
        }
    }

    /// Whether the orchestrator has marked a finished frame since the
    /// last time the host took one.
    pub fn is_frame_ready(&self) -> (r: bool)
        ensures
            r == self.frame_ready,
    {
        self.frame_ready
    }

    /// Records a pending interrupt; it is taken at the next instruction
    /// boundary, never in the middle of an instruction.
    pub fn interrupt(&mut self, tp: InteruptType)
        ensures
            *final(self) == (CPU { pending_nmi: true, ..*old(self) }),
    {
        match tp {
            InteruptType::NMI => {
                self.pending_nmi = true;
            },
        }
    }

    /// The byte an instruction fetch sees at a bus address: internal RAM
    /// mirrored below `0x2000`, the battery-backed RAM window, the
    /// program window, and 0 (open bus) everywhere else. Instruction
    /// fetches read code only and never trigger the register side effects
    /// a data access has.
    pub open spec fn spec_fetch(self, cart: Cartridge, addr: u16) -> u8 {
        if addr < 0x2000 {
            self.ram@[(addr & 0x07ff) as int]
        } else if addr < 0x6000 {
            0
        } else if addr < 0x8000 {
            if cart.has_sram {
                cart.sram@[addr - 0x6000]
            } else {
                0
            }
        } else {
            cart.spec_prg_byte(addr)
        }
    }

    /// The little-endian word an instruction fetch sees at a bus address.
    pub open spec fn spec_fetch_word(self, cart: Cartridge, addr: u16) -> u16 {
        (((self.spec_fetch(cart, addr.wrapping_add(1)) as u16) << 8) | (self.spec_fetch(
            cart,
            addr,
        ) as u16)) as u16
    }

    /// Fetches one code byte.
    fn fetch(&self, addr: u16, cart: &Cartridge) -> (r: u8)
        requires
            self.wf(),
            cart.loaded(),
        ensures
            r == self.spec_fetch(*cart, addr),
    {
        if addr < 0x2000 {
            proof {
                lemma_ram_mask_bound(addr);
            }
            self.ram[(addr & 0x07ff) as usize]
        } else if addr < 0x6000 {
            0
        } else if addr < 0x8000 {
            if cart.has_sram {
                match cart.read_sram(addr) {
                    Ok(v) => v,
                    Err(_) => 0,
                }
            } else {
                0
            }
        } else {
            match cart.read_prg(addr) {
                Ok(v) => v,
                Err(_) => 0,
            }
        }
    }

    /// Fetches a little-endian code word.
    fn read_address(&self, addr: u16, cart: &Cartridge) -> (r: u16)
        requires
            self.wf(),
            cart.loaded(),
        ensures
            r == self.spec_fetch_word(*cart, addr),
    {
        let lo = self.fetch(addr, cart) as u16;
        let hi = self.fetch(addr.wrapping_add(1), cart) as u16;
        (hi << 8) | lo
    }

    /// The value a data read returns at a bus address, in the strict
    /// decode priority order: internal RAM mirror, picture-unit register
    /// mirror, audio/input/transfer registers (stubs reading 0), open
    /// bus, the battery-backed RAM window, and the program window.
    pub open spec fn spec_bus_read(self, ppu: PPU, cart: Cartridge, addr: u16) -> u8 {
        if addr < 0x2000 {
            self.ram@[(addr & 0x07ff) as int]
        } else if addr < 0x4000 {
            ppu.spec_reg_read_val(cart, (addr & 0x2007) as u16)
        } else if addr < 0x4014 || addr == 0x4015 {
            0
        } else if addr == 0x4014 {
            0
        } else if addr == 0x4016 || addr == 0x4017 {
            0
        } else if addr < 0x6000 {
            0
        } else if addr < 0x8000 {
            if cart.has_sram {
                cart.sram@[addr - 0x6000]
            } else {
                0
            }
        } else {
            cart.spec_prg_byte(addr)
        }
    }

    /// A data access to the battery-backed RAM window of a cartridge
    /// without battery-backed RAM: the one per-access, non-fatal error of
    /// the bus.
    pub open spec fn spec_sram_fault(cart: Cartridge, addr: u16) -> bool {
        0x6000 <= addr < 0x8000 && !cart.has_sram
    }

    /// One data read on the bus. Reading a picture-unit register has that
    /// unit's documented read side effects; every other region leaves it
    /// untouched.
    fn read(&self, addr: u16, cart: &Cartridge, ppu: &mut PPU) -> (r: Result<u8, EmuError>)
        requires
            self.wf(),
            cart.loaded(),
            old(ppu).wf(),
        ensures
            final(ppu).wf(),
            r is Ok <==> !Self::spec_sram_fault(*cart, addr),
            r is Ok ==> r == Ok::<u8, EmuError>(self.spec_bus_read(*old(ppu), *cart, addr)),
            r is Err ==> r == Err::<u8, EmuError>(EmuError::AddressError),
            0x2000 <= addr < 0x4000 ==> PPU::spec_reg_read_rel(
                *old(ppu),
                *final(ppu),
                *cart,
                (addr & 0x2007) as u16,
            ),
            !(0x2000 <= addr < 0x4000) ==> *final(ppu) == *old(ppu),
    {
        if addr < 0x2000 {
            proof {
                lemma_ram_mask_bound(addr);
            }
            Ok(self.ram[(addr & 0x07ff) as usize])
        } else if addr < 0x4000 {
            proof {
                lemma_ppu_reg_mask_bound(addr);
            }
            Ok(ppu.reg_read(addr & 0x2007, cart))
        } else if addr < 0x4014 {
            Ok(0)
        } else if addr == 0x4015 {
            Ok(0)
        } else if addr == 0x4014 {
            Ok(0)
        } else if addr == 0x4016 {
            Ok(0)
        } else if addr == 0x4017 {
            Ok(0)
        } else if addr < 0x6000 {
            Ok(0)
        } else if addr < 0x8000 {
            cart.read_sram(addr)
        } else {
            cart.read_prg(addr)
        }
    }

    /// One data write on the bus, in the same strict decode priority
    /// order as reads: internal RAM takes the byte; a picture-unit
    /// register write follows that unit's latch protocols; the
    /// sprite-transfer trigger stores its page; audio and input registers
    /// and every unmapped region accept and discard the byte; the
    /// battery-backed RAM window stores it or reports the per-access
    /// fault; the program window is read-only and the write is discarded.
    fn write(&mut self, addr: u16, data: u8, cart: &mut Cartridge, ppu: &mut PPU) -> (r: Result<
        (),
        EmuError,
    >)
        requires
            old(self).wf(),
            old(cart).loaded(),
            old(ppu).wf(),
        ensures
            final(self).wf(),
            final(cart).loaded(),
            final(ppu).wf(),
            *final(self) == (CPU { ram: final(self).ram, ..*old(self) }),
            *final(cart) == (Cartridge { sram: final(cart).sram, ..*old(cart) }),
            final(cart).sram@.len() == old(cart).sram@.len(),
            r is Ok <==> !Self::spec_sram_fault(*old(cart), addr),
            r is Err ==> r == Err::<(), EmuError>(EmuError::AddressError) && *final(self) == *old(
                self,
            ) && *final(cart) == *old(cart) && *final(ppu) == *old(ppu),
            addr < 0x2000 ==> final(self).ram@ == old(self).ram@.update(
                (addr & 0x07ff) as int,
                data,
            ) && *final(cart) == *old(cart) && *final(ppu) == *old(ppu),
            0x2000 <= addr < 0x4000 ==> PPU::spec_reg_write_rel(
                *old(ppu),
                *final(ppu),
                old(cart).mirror_type,
                (addr & 0x2007) as u16,
                data,
            ) && *final(self) == *old(self) && *final(cart) == *old(cart),
            addr == 0x4014 ==> *final(ppu) == (PPU { r_oamdma: data, ..*old(ppu) }) && *final(self)
                == *old(self) && *final(cart) == *old(cart),
            (0x4000 <= addr < 0x6000 && addr != 0x4014) ==> *final(self) == *old(self)
                && *final(cart) == *old(cart) && *final(ppu) == *old(ppu),
            (0x6000 <= addr < 0x8000 && old(cart).has_sram) ==> final(cart).sram@ == old(
                cart,
            ).sram@.update(addr - 0x6000, data) && *final(self) == *old(self) && *final(ppu)
                == *old(ppu),
            addr >= 0x8000 ==> *final(self) == *old(self) && *final(cart) == *old(cart)
                && *final(ppu) == *old(ppu),
    {
        if addr < 0x2000 {
            proof {
                lemma_ram_mask_bound(addr);
            }
            self.ram[(addr & 0x07ff) as usize] = data;
            Ok(())
        } else if addr < 0x4000 {
            proof {
                lemma_ppu_reg_mask_bound(addr);
            }
            ppu.reg_write(addr & 0x2007, data, cart);
            Ok(())
        } else if addr == 0x4014 {
            ppu.write_oamdma(data);
            Ok(())
        } else if addr < 0x6000 {
            // audio and input registers, and the open-bus gap: the byte
            // is accepted and discarded
            Ok(())
        } else if addr < 0x8000 {
            cart.write_sram(addr, data)
        } else {
            // the program window is read-only
            Ok(())
        }
    }

    /// Pushes one byte onto the stack page.
    fn push(&mut self, v: u8)
        requires
            old(self).wf(),
        ensures
            final(self).wf(),
            final(self).ram@ == old(self).ram@.update(0x100 + old(self).r_sp as int, v),
            *final(self) == (CPU {
                ram: final(self).ram,
                r_sp: old(self).r_sp.wrapping_sub(1),
                ..*old(self)
            }),
    {
        let idx: usize = 0x100 + self.r_sp as usize;
        self.ram[idx] = v;
        self.r_sp = self.r_sp.wrapping_sub(1);
    }

    /// Pulls one byte off the stack page.
    fn pull(&mut self) -> (r: u8)
        requires
            old(self).wf(),
        ensures
            final(self).wf(),
            r == old(self).ram@[0x100 + old(self).r_sp.wrapping_add(1) as int],
            *final(self) == (CPU { r_sp: old(self).r_sp.wrapping_add(1), ..*old(self) }),
    {
        self.r_sp = self.r_sp.wrapping_add(1);
        let idx: usize = 0x100 + self.r_sp as usize;
        self.ram[idx]
    }

    /// Puts the register file in its documented reset state and loads the
    /// program counter with the little-endian word at the reset vector,
    /// read through the full memory decode (the vector resolves into
    /// cartridge program memory).
    pub fn reset(&mut self, cart: &Cartridge, ppu: &mut PPU) -> (r: Result<(), EmuError>)
        requires
            old(self).wf(),
            cart.loaded(),
            old(ppu).wf(),
        ensures
            r is Ok,
            *final(ppu) == *old(ppu),
            final(self).wf(),
            final(self).r_pc == old(self).spec_fetch_word(*cart, RESET_VECTOR),
            final(self).r_a == 0 && final(self).r_x == 0 && final(self).r_y == 0,
            final(self).r_st == STATUS_START,
            final(self).r_sp == STACK_START,
            final(self).cycles == 0 && final(self).skip_cycles == 0,
            final(self).ram@ == old(self).ram@,
            final(self).frame_ready == old(self).frame_ready,
            final(self).pending_nmi == old(self).pending_nmi,
    {
        self.r_pc = self.read_address(RESET_VECTOR, cart);
        self.r_a = 0;
        self.r_x = 0;
        self.r_y = 0;
        self.r_st = STATUS_START;
        self.r_sp = STACK_START;
        self.cycles = 0;
        self.skip_cycles = 0;
        Ok(())
    }

    /// The status register with the negative and zero flags set from a
    /// result byte, in two's-complement terms: zero when the byte is 0,
    /// negative when its top bit is set.
    pub open spec fn spec_zn(st: u8, v: u8) -> u8 {
        ((st & 0x7d) | (if v == 0 {
            STATUS_Z
        } else {
            0u8
        }) | (v & STATUS_N)) as u8
    }

    /// Sets the negative and zero flags from a result byte.
    fn set_zn(&mut self, v: u8)
        ensures
            *final(self) == (CPU { r_st: Self::spec_zn(old(self).r_st, v), ..*old(self) }),
    {
        self.r_st = (self.r_st & 0x7d) | (if v == 0 {
            STATUS_Z
        } else {
            0u8
        }) | (v & STATUS_N);
    }

    /// The 9-bit sum of an add-with-carry: accumulator plus operand plus
    /// carry flag.
    pub open spec fn spec_adc_sum(a: u8, m: u8, st: u8) -> u16 {
        (a as u16 + m as u16 + ((st & STATUS_C) as u16)) as u16
    }

    /// The accumulator after an add-with-carry: the low byte of the sum.
    pub open spec fn spec_adc_res(a: u8, m: u8, st: u8) -> u8 {
        (Self::spec_adc_sum(a, m, st) & 0xff) as u8
    }

    /// The status register after an add-with-carry: carry from the ninth
    /// bit, two's-complement overflow when both addends disagree with the
    /// result in the sign bit, then negative/zero from the result.
    pub open spec fn spec_adc_st(a: u8, m: u8, st: u8) -> u8 {
        let res = Self::spec_adc_res(a, m, st);
        let c: u8 = if Self::spec_adc_sum(a, m, st) > 0xff {
            STATUS_C
        } else {
            0u8
        };
        let v: u8 = if ((a ^ res) & (m ^ res) & 0x80) != 0 {
            STATUS_V
        } else {
            0u8
        };
        Self::spec_zn(((st & 0xbe) | c | v) as u8, res)
    }

    /// Add with carry (decimal mode is not modelled).
    pub fn exe_adc(&mut self, m: u8)
        ensures
            *final(self) == (CPU {
                r_a: Self::spec_adc_res(old(self).r_a, m, old(self).r_st),
                r_st: Self::spec_adc_st(old(self).r_a, m, old(self).r_st),
                ..*old(self)
            }),
    {
        let sum: u16 = self.r_a as u16 + m as u16 + (self.r_st & STATUS_C) as u16;
        proof {
            lemma_low_byte_bound(sum);
        }
        let res: u8 = (sum & 0xff) as u8;
        let c: u8 = if sum > 0xff {
            STATUS_C
        } else {
            0u8
        };
        let v: u8 = if ((self.r_a ^ res) & (m ^ res) & 0x80) != 0 {
            STATUS_V
        } else {
            0u8
        };
        self.r_st = (self.r_st & 0xbe) | c | v;
        self.set_zn(res);
        self.r_a = res;
    }

    /// Subtract with borrow: an add-with-carry of the operand's
    /// complement.
    pub fn exe_sbc(&mut self, m: u8)
        ensures
            *final(self) == (CPU {
                r_a: Self::spec_adc_res(old(self).r_a, (m ^ 0xff) as u8, old(self).r_st),
                r_st: Self::spec_adc_st(old(self).r_a, (m ^ 0xff) as u8, old(self).r_st),
                ..*old(self)
            }),
    {
        self.exe_adc(m ^ 0xff);
    }

    /// The status register after a compare of register byte `r` against
    /// operand `m`: carry when `r >= m`, negative/zero from the wrapped
    /// difference.
    pub open spec fn spec_cmp_st(st: u8, r: u8, m: u8) -> u8 {
        let c: u8 = if r >= m {
            STATUS_C
        } else {
            0u8
        };
        Self::spec_zn(((st & 0xfe) | c) as u8, r.wrapping_sub(m))
    }

    /// Compare the accumulator with the operand.
    pub fn exe_cmp(&mut self, m: u8)
        ensures
            *final(self) == (CPU {
                r_st: Self::spec_cmp_st(old(self).r_st, old(self).r_a, m),
                ..*old(self)
            }),
    {
        let c: u8 = if self.r_a >= m {
            STATUS_C
        } else {
            0u8
        };
        self.r_st = (self.r_st & 0xfe) | c;
        self.set_zn(self.r_a.wrapping_sub(m));
    }

    /// Compare the X index register with the operand.
    pub fn exe_cpx(&mut self, m: u8)
        ensures
            *final(self) == (CPU {
                r_st: Self::spec_cmp_st(old(self).r_st, old(self).r_x, m),
                ..*old(self)
            }),
    {
        let c: u8 = if self.r_x >= m {
            STATUS_C
        } else {
            0u8
        };
        self.r_st = (self.r_st & 0xfe) | c;
        self.set_zn(self.r_x.wrapping_sub(m));
    }

    /// Compare the Y index register with the operand.
    pub fn exe_cpy(&mut self, m: u8)
        ensures
            *final(self) == (CPU {
                r_st: Self::spec_cmp_st(old(self).r_st, old(self).r_y, m),
                ..*old(self)
            }),
    {
        let c: u8 = if self.r_y >= m {
            STATUS_C
        } else {
            0u8
        };
        self.r_st = (self.r_st & 0xfe) | c;
        self.set_zn(self.r_y.wrapping_sub(m));
    }

    /// Load the accumulator and set negative/zero from it.
    pub fn exe_lda(&mut self, m: u8)
        ensures
            *final(self) == (CPU {
                r_a: m,
                r_st: Self::spec_zn(old(self).r_st, m),
                ..*old(self)
            }),
    {
        self.r_a = m;
        self.set_zn(m);
    }

    /// Load the X index register and set negative/zero from it.
    pub fn exe_ldx(&mut self, m: u8)
        ensures
            *final(self) == (CPU {
                r_x: m,
                r_st: Self::spec_zn(old(self).r_st, m),
                ..*old(self)
            }),
    {
        self.r_x = m;
        self.set_zn(m);
    }

    /// Load the Y index register and set negative/zero from it.
    pub fn exe_ldy(&mut self, m: u8)
        ensures
            *final(self) == (CPU {
                r_y: m,
                r_st: Self::spec_zn(old(self).r_st, m),
                ..*old(self)
            }),
    {
        self.r_y = m;
        self.set_zn(m);
    }

    /// Bitwise OR into the accumulator.
    pub fn exe_ora(&mut self, m: u8)
        ensures
            *final(self) == (CPU {
                r_a: (old(self).r_a | m) as u8,
                r_st: Self::spec_zn(old(self).r_st, (old(self).r_a | m) as u8),
                ..*old(self)
            }),
    {
        self.r_a = self.r_a | m;
        self.set_zn(self.r_a);
    }

    /// Bitwise AND into the accumulator.
    pub fn exe_and(&mut self, m: u8)
        ensures
            *final(self) == (CPU {
                r_a: (old(self).r_a & m) as u8,
                r_st: Self::spec_zn(old(self).r_st, (old(self).r_a & m) as u8),
                ..*old(self)
            }),
    {
        self.r_a = self.r_a & m;
        self.set_zn(self.r_a);
    }

    /// Bitwise exclusive OR into the accumulator.
    pub fn exe_eor(&mut self, m: u8)
        ensures
            *final(self) == (CPU {
                r_a: (old(self).r_a ^ m) as u8,
                r_st: Self::spec_zn(old(self).r_st, (old(self).r_a ^ m) as u8),
                ..*old(self)
            }),
    {
        self.r_a = self.r_a ^ m;
        self.set_zn(self.r_a);
    }

    /// Bit test: zero from the masked accumulator, negative and overflow
    /// copied from the operand's two top bits.
    pub open spec fn spec_bit_st(st: u8, a: u8, m: u8) -> u8 {
        ((st & 0x3d) | (m & 0xc0) | (if (a & m) == 0 {
            STATUS_Z
        } else {
            0u8
        })) as u8
    }

    /// Bit test of the accumulator against the operand.
    pub fn exe_bit(&mut self, m: u8)
        ensures
            *final(self) == (CPU {
                r_st: Self::spec_bit_st(old(self).r_st, old(self).r_a, m),
                ..*old(self)
            }),
    {
        self.r_st = (self.r_st & 0x3d) | (m & 0xc0) | (if (self.r_a & m) == 0 {
            STATUS_Z
        } else {
            0u8
        });
    }

    /// The status register after a shift or rotate: carry from the bit
    /// shifted out, negative/zero from the result.
    pub open spec fn spec_shift_st(st: u8, c: u8, res: u8) -> u8 {
        Self::spec_zn(((st & 0xfe) | c) as u8, res)
    }

    /// Arithmetic shift left of a byte; returns the shifted byte, which
    /// the caller stores in the accumulator or back in memory.
    pub fn exe_asl(&mut self, m: u8) -> (r: u8)
        ensures
            r == (m << 1) as u8,
            *final(self) == (CPU {
                r_st: Self::spec_shift_st(old(self).r_st, ((m >> 7) & 1) as u8, (m << 1) as u8),
                ..*old(self)
            }),
    {
        let r = m << 1;
        self.r_st = (self.r_st & 0xfe) | ((m >> 7) & 1);
        self.set_zn(r);
        r
    }

    /// Logical shift right of a byte.
    pub fn exe_lsr(&mut self, m: u8) -> (r: u8)
        ensures
            r == (m >> 1) as u8,
            *final(self) == (CPU {
                r_st: Self::spec_shift_st(old(self).r_st, (m & 1) as u8, (m >> 1) as u8),
                ..*old(self)
            }),
    {
        let r = m >> 1;
        self.r_st = (self.r_st & 0xfe) | (m & 1);
        self.set_zn(r);
        r
    }

    /// Rotate left through the carry flag.
    pub fn exe_rol(&mut self, m: u8) -> (r: u8)
        ensures
            r == ((m << 1) | (old(self).r_st & STATUS_C)) as u8,
            *final(self) == (CPU {
                r_st: Self::spec_shift_st(
                    old(self).r_st,
                    ((m >> 7) & 1) as u8,
                    ((m << 1) | (old(self).r_st & STATUS_C)) as u8,
                ),
                ..*old(self)
            }),
    {
        let r = (m << 1) | (self.r_st & STATUS_C);
        self.r_st = (self.r_st & 0xfe) | ((m >> 7) & 1);
        self.set_zn(r);
        r
    }

    /// Rotate right through the carry flag.
    pub fn exe_ror(&mut self, m: u8) -> (r: u8)
        ensures
            r == ((m >> 1) | ((old(self).r_st & STATUS_C) << 7)) as u8,
            *final(self) == (CPU {
                r_st: Self::spec_shift_st(
                    old(self).r_st,
                    (m & 1) as u8,
                    ((m >> 1) | ((old(self).r_st & STATUS_C) << 7)) as u8,
                ),
                ..*old(self)
            }),
    {
        let r = (m >> 1) | ((self.r_st & STATUS_C) << 7);
        self.r_st = (self.r_st & 0xfe) | (m & 1);
        self.set_zn(r);
        r
    }

    /// Increment a byte; returns the result for the caller to store.
    pub fn exe_inc(&mut self, m: u8) -> (r: u8)
        ensures
            r == m.wrapping_add(1),
            *final(self) == (CPU {
                r_st: Self::spec_zn(old(self).r_st, m.wrapping_add(1)),
                ..*old(self)
            }),
    {
        let r = m.wrapping_add(1);
        self.set_zn(r);
        r
    }

    /// Decrement a byte; returns the result for the caller to store.
    pub fn exe_dec(&mut self, m: u8) -> (r: u8)
        ensures
            r == m.wrapping_sub(1),
            *final(self) == (CPU {
                r_st: Self::spec_zn(old(self).r_st, m.wrapping_sub(1)),
                ..*old(self)
            }),
    {
        let r = m.wrapping_sub(1);
        self.set_zn(r);
        r
    }

    /// Increment the X index register.
    pub fn exe_inx(&mut self)
        ensures
            *final(self) == (CPU {
                r_x: old(self).r_x.wrapping_add(1),
                r_st: Self::spec_zn(old(self).r_st, old(self).r_x.wrapping_add(1)),
                ..*old(self)
            }),
    {
        self.r_x = self.r_x.wrapping_add(1);
        self.set_zn(self.r_x);
    }

    /// Increment the Y index register.
    pub fn exe_iny(&mut self)
        ensures
            *final(self) == (CPU {
                r_y: old(self).r_y.wrapping_add(1),
                r_st: Self::spec_zn(old(self).r_st, old(self).r_y.wrapping_add(1)),
                ..*old(self)
            }),
    {
        self.r_y = self.r_y.wrapping_add(1);
        self.set_zn(self.r_y);
    }

    /// Decrement the X index register.
    pub fn exe_dex(&mut self)
        ensures
            *final(self) == (CPU {
                r_x: old(self).r_x.wrapping_sub(1),
                r_st: Self::spec_zn(old(self).r_st, old(self).r_x.wrapping_sub(1)),
                ..*old(self)
            }),
    {
        self.r_x = self.r_x.wrapping_sub(1);
        self.set_zn(self.r_x);
    }

    /// Decrement the Y index register.
    pub fn exe_dey(&mut self)
        ensures
            *final(self) == (CPU {
                r_y: old(self).r_y.wrapping_sub(1),
                r_st: Self::spec_zn(old(self).r_st, old(self).r_y.wrapping_sub(1)),
                ..*old(self)
            }),
    {
        self.r_y = self.r_y.wrapping_sub(1);
        self.set_zn(self.r_y);
    }

    /// Copy the accumulator into the X index register.
    pub fn exe_tax(&mut self)
        ensures
            *final(self) == (CPU {
                r_x: old(self).r_a,
                r_st: Self::spec_zn(old(self).r_st, old(self).r_a),
                ..*old(self)
            }),
    {
        self.r_x = self.r_a;
        self.set_zn(self.r_x);
    }

    /// Copy the X index register into the accumulator.
    pub fn exe_txa(&mut self)
        ensures
            *final(self) == (CPU {
                r_a: old(self).r_x,
                r_st: Self::spec_zn(old(self).r_st, old(self).r_x),
                ..*old(self)
            }),
    {
        self.r_a = self.r_x;
        self.set_zn(self.r_a);
    }

    /// Copy the accumulator into the Y index register.
    pub fn exe_tay(&mut self)
        ensures
            *final(self) == (CPU {
                r_y: old(self).r_a,
                r_st: Self::spec_zn(old(self).r_st, old(self).r_a),
                ..*old(self)
            }),
    {
        self.r_y = self.r_a;
        self.set_zn(self.r_y);
    }

    /// Copy the Y index register into the accumulator.
    pub fn exe_tya(&mut self)
        ensures
            *final(self) == (CPU {
                r_a: old(self).r_y,
                r_st: Self::spec_zn(old(self).r_st, old(self).r_y),
                ..*old(self)
            }),
    {
        self.r_a = self.r_y;
        self.set_zn(self.r_a);
    }

    /// Copy the stack pointer into the X index register.
    pub fn exe_tsx(&mut self)
        ensures
            *final(self) == (CPU {
                r_x: old(self).r_sp,
                r_st: Self::spec_zn(old(self).r_st, old(self).r_sp),
                ..*old(self)
            }),
    {
        self.r_x = self.r_sp;
        self.set_zn(self.r_x);
    }

    /// Copy the X index register into the stack pointer; no flags move.
    pub fn exe_txs(&mut self)
        ensures
            *final(self) == (CPU { r_sp: old(self).r_x, ..*old(self) }),
    {
        self.r_sp = self.r_x;
    }

    /// Clear the carry flag.
    pub fn exe_clc(&mut self)
        ensures
            *final(self) == (CPU { r_st: (old(self).r_st & 0xfe) as u8, ..*old(self) }),
    {
        self.r_st = self.r_st & 0xfe;
    }

    /// Set the carry flag.
    pub fn exe_sec(&mut self)
        ensures
            *final(self) == (CPU { r_st: (old(self).r_st | STATUS_C) as u8, ..*old(self) }),
    {
        self.r_st = self.r_st | STATUS_C;
    }

    /// Clear the decimal-mode flag.
    pub fn exe_cld(&mut self)
        ensures
            *final(self) == (CPU { r_st: (old(self).r_st & 0xf7) as u8, ..*old(self) }),
    {
        self.r_st = self.r_st & 0xf7;
    }

    /// Set the decimal-mode flag (decimal arithmetic itself is not
    /// modelled).
    pub fn exe_sed(&mut self)
        ensures
            *final(self) == (CPU { r_st: (old(self).r_st | STATUS_D) as u8, ..*old(self) }),
    {
        self.r_st = self.r_st | STATUS_D;
    }

    /// Clear the interrupt-disable flag.
    pub fn exe_cli(&mut self)
        ensures
            *final(self) == (CPU { r_st: (old(self).r_st & 0xfb) as u8, ..*old(self) }),
    {
        self.r_st = self.r_st & 0xfb;
    }

    /// Set the interrupt-disable flag.
    pub fn exe_sei(&mut self)
        ensures
            *final(self) == (CPU { r_st: (old(self).r_st | STATUS_I) as u8, ..*old(self) }),
    {
        self.r_st = self.r_st | STATUS_I;
    }

    /// Clear the overflow flag.
    pub fn exe_clv(&mut self)
        ensures
            *final(self) == (CPU { r_st: (old(self).r_st & 0xbf) as u8, ..*old(self) }),
    {
        self.r_st = self.r_st & 0xbf;
    }

    /// Push the accumulator.
    pub fn exe_pha(&mut self)
        requires
            old(self).wf(),
        ensures
            final(self).wf(),
            final(self).ram@ == old(self).ram@.update(0x100 + old(self).r_sp as int, old(self).r_a),
            *final(self) == (CPU {
                ram: final(self).ram,
                r_sp: old(self).r_sp.wrapping_sub(1),
                ..*old(self)
            }),
    {
        let v = self.r_a;
        self.push(v);
    }

    /// Pull the accumulator and set negative/zero from it.
    pub fn exe_pla(&mut self)
        requires
            old(self).wf(),
        ensures
            final(self).wf(),
            *final(self) == (CPU {
                r_a: old(self).ram@[0x100 + old(self).r_sp.wrapping_add(1) as int],
                r_st: Self::spec_zn(
                    old(self).r_st,
                    old(self).ram@[0x100 + old(self).r_sp.wrapping_add(1) as int],
                ),
                r_sp: old(self).r_sp.wrapping_add(1),
                ..*old(self)
            }),
    {
        let v = self.pull();
        self.r_a = v;
        self.set_zn(v);
    }

    /// Push the status register with the break flag shown.
    pub fn exe_php(&mut self)
        requires
            old(self).wf(),
        ensures
            final(self).wf(),
            final(self).ram@ == old(self).ram@.update(
                0x100 + old(self).r_sp as int,
                (old(self).r_st | STATUS_B) as u8,
            ),
            *final(self) == (CPU {
                ram: final(self).ram,
                r_sp: old(self).r_sp.wrapping_sub(1),
                ..*old(self)
            }),
    {
        let v = self.r_st | STATUS_B;
        self.push(v);
    }

    /// Pull the status register.
    pub fn exe_plp(&mut self)
        requires
            old(self).wf(),
        ensures
            final(self).wf(),
            *final(self) == (CPU {
                r_st: old(self).ram@[0x100 + old(self).r_sp.wrapping_add(1) as int],
                r_sp: old(self).r_sp.wrapping_add(1),
                ..*old(self)
            }),
    {
        let v = self.pull();
        self.r_st = v;
    }

    /// Whether two bus addresses sit on different 256-byte pages.
    pub open spec fn spec_page_crossed(base: u16, eff: u16) -> bool {
        base & 0xff00 != eff & 0xff00
    }

    /// The little-endian word fetched from the zero page with the
    /// zero-page wrap-around of indirect addressing.
    pub open spec fn spec_zp_word(self, cart: Cartridge, zp: u8) -> u16 {
        (((self.spec_fetch(cart, zp.wrapping_add(1) as u16) as u16) << 8) | (self.spec_fetch(
            cart,
            zp as u16,
        ) as u16)) as u16
    }

    /// The effective address an addressing mode resolves to for the
    /// instruction at `pc0`. Immediate and relative operands live right
    /// after the opcode; zero-page modes wrap within the zero page;
    /// absolute and indirect modes fetch little-endian words; implied
    /// instructions take no address.
    pub open spec fn spec_ea(self, cart: Cartridge, mode: AddressMode, pc0: u16) -> u16 {
        match mode {
            AddressMode::IMM => pc0.wrapping_add(1),
            AddressMode::REL => pc0.wrapping_add(1),
            AddressMode::ZP => self.spec_fetch(cart, pc0.wrapping_add(1)) as u16,
            AddressMode::ZPX => self.spec_fetch(cart, pc0.wrapping_add(1)).wrapping_add(
                self.r_x,
            ) as u16,
            AddressMode::ZPY => self.spec_fetch(cart, pc0.wrapping_add(1)).wrapping_add(
                self.r_y,
            ) as u16,
            AddressMode::ABS => self.spec_fetch_word(cart, pc0.wrapping_add(1)),
            AddressMode::ABX => self.spec_fetch_word(cart, pc0.wrapping_add(1)).wrapping_add(
                self.r_x as u16,
            ),
            AddressMode::ABY => self.spec_fetch_word(cart, pc0.wrapping_add(1)).wrapping_add(
                self.r_y as u16,
            ),
            AddressMode::IND => self.spec_fetch_word(
                cart,
                self.spec_fetch_word(cart, pc0.wrapping_add(1)),
            ),
            AddressMode::IZX => self.spec_zp_word(
                cart,
                self.spec_fetch(cart, pc0.wrapping_add(1)).wrapping_add(self.r_x),
            ),
            AddressMode::IZY => self.spec_zp_word(
                cart,
                self.spec_fetch(cart, pc0.wrapping_add(1)),
            ).wrapping_add(self.r_y as u16),
            AddressMode::IMP => 0,
        }
    }

    /// Whether resolving the addressing mode crossed a page boundary;
    /// only the indexed modes with a cycle penalty can.
    pub open spec fn spec_crossed(self, cart: Cartridge, mode: AddressMode, pc0: u16) -> bool {
        match mode {
            AddressMode::ABX => Self::spec_page_crossed(
                self.spec_fetch_word(cart, pc0.wrapping_add(1)),
                self.spec_ea(cart, mode, pc0),
            ),
            AddressMode::ABY => Self::spec_page_crossed(
                self.spec_fetch_word(cart, pc0.wrapping_add(1)),
                self.spec_ea(cart, mode, pc0),
            ),
            AddressMode::IZY => Self::spec_page_crossed(
                self.spec_zp_word(cart, self.spec_fetch(cart, pc0.wrapping_add(1))),
                self.spec_ea(cart, mode, pc0),
            ),
            _ => false,
        }
    }

    /// Resolves an addressing mode to its effective address and reports
    /// whether a page boundary was crossed.
    fn resolve(&self, mode: AddressMode, pc0: u16, cart: &Cartridge) -> (r: (u16, bool))
        requires
            self.wf(),
            cart.loaded(),
        ensures
            r.0 == self.spec_ea(*cart, mode, pc0),
            r.1 == self.spec_crossed(*cart, mode, pc0),
    {
        match mode {
            AddressMode::IMM => (pc0.wrapping_add(1), false),
            AddressMode::REL => (pc0.wrapping_add(1), false),
            AddressMode::ZP => (self.fetch(pc0.wrapping_add(1), cart) as u16, false),
            AddressMode::ZPX => {
                let z = self.fetch(pc0.wrapping_add(1), cart).wrapping_add(self.r_x);
                (z as u16, false)
            },
            AddressMode::ZPY => {
                let z = self.fetch(pc0.wrapping_add(1), cart).wrapping_add(self.r_y);
                (z as u16, false)
            },
            AddressMode::ABS => (self.read_address(pc0.wrapping_add(1), cart), false),
            AddressMode::ABX => {
                let base = self.read_address(pc0.wrapping_add(1), cart);
                let ea = base.wrapping_add(self.r_x as u16);
                (ea, (base & 0xff00) != (ea & 0xff00))
            },
            AddressMode::ABY => {
                let base = self.read_address(pc0.wrapping_add(1), cart);
                let ea = base.wrapping_add(self.r_y as u16);
                (ea, (base & 0xff00) != (ea & 0xff00))
            },
            AddressMode::IND => {
                let ptr = self.read_address(pc0.wrapping_add(1), cart);
                (self.read_address(ptr, cart), false)
            },
            AddressMode::IZX => {
                let z = self.fetch(pc0.wrapping_add(1), cart).wrapping_add(self.r_x);
                (self.zp_word(z, cart), false)
            },
            AddressMode::IZY => {
                let z = self.fetch(pc0.wrapping_add(1), cart);
                let base = self.zp_word(z, cart);
                let ea = base.wrapping_add(self.r_y as u16);
                (ea, (base & 0xff00) != (ea & 0xff00))
            },
            AddressMode::IMP => (0, false),
        }
    }

    /// Fetches a little-endian word from the zero page, wrapping within
    /// it.
    fn zp_word(&self, zp: u8, cart: &Cartridge) -> (r: u16)
        requires
            self.wf(),
            cart.loaded(),
        ensures
            r == self.spec_zp_word(*cart, zp),
    {
        let lo = self.fetch(zp as u16, cart) as u16;
        let hi = self.fetch(zp.wrapping_add(1) as u16, cart) as u16;
        (hi << 8) | lo
    }

    /// Instructions that never touch the program counter themselves: the
    /// fetch advances it by the instruction length and nothing else moves
    /// it. Jumps, subroutine and interrupt returns, the break
    /// instruction and the branches are the exceptions.
    pub open spec fn spec_straight_line(i: Instructions) -> bool {
        match i {
            Instructions::JMP => false,
            Instructions::JSR => false,
            Instructions::RTS => false,
            Instructions::RTI => false,
            Instructions::BRK => false,
            Instructions::BPL => false,
            Instructions::BMI => false,
            Instructions::BVC => false,
            Instructions::BVS => false,
            Instructions::BCC => false,
            Instructions::BCS => false,
            Instructions::BNE => false,
            Instructions::BEQ => false,
            _ => true,
        }
    }

    /// Instructions that read their operand from the effective address.
    pub open spec fn spec_reads_operand(i: Instructions) -> bool {
        match i {
            Instructions::LDA => true,
            Instructions::LDX => true,
            Instructions::LDY => true,
            Instructions::ORA => true,
            Instructions::AND => true,
            Instructions::EOR => true,
            Instructions::ADC => true,
            Instructions::SBC => true,
            Instructions::CMP => true,
            Instructions::CPX => true,
            Instructions::CPY => true,
            Instructions::BIT => true,
            _ => false,
        }
    }

    /// The three store instructions.
    pub open spec fn spec_is_store(i: Instructions) -> bool {
        match i {
            Instructions::STA => true,
            Instructions::STX => true,
            Instructions::STY => true,
            _ => false,
        }
    }

    /// Read-modify-write instructions: increment, decrement and the
    /// shifts when they work on memory rather than the accumulator.
    pub open spec fn spec_is_rmw(op: Op) -> bool {
        match op.instr {
            Instructions::INC => true,
            Instructions::DEC => true,
            Instructions::ASL => !(op.mode is IMP),
            Instructions::LSR => !(op.mode is IMP),
            Instructions::ROL => !(op.mode is IMP),
            Instructions::ROR => !(op.mode is IMP),
            _ => false,
        }
    }

    /// Instructions that make a data access at their effective address —
    /// the only accesses that can raise the per-access bus fault.
    pub open spec fn spec_accesses_memory(op: Op) -> bool {
        Self::spec_reads_operand(op.instr) || Self::spec_is_store(op.instr) || Self::spec_is_rmw(
            op,
        )
    }

    /// Instructions that write a data byte at their effective address.
    pub open spec fn spec_writes_memory(op: Op) -> bool {
        Self::spec_is_store(op.instr) || Self::spec_is_rmw(op)
    }

    /// The byte a read-modify-write instruction writes back, as a
    /// function of the byte it read and the status register.
    pub open spec fn spec_rmw_value(op: Op, m: u8, st: u8) -> u8 {
        match op.instr {
            Instructions::INC => m.wrapping_add(1),
            Instructions::DEC => m.wrapping_sub(1),
            Instructions::ASL => (m << 1) as u8,
            Instructions::LSR => (m >> 1) as u8,
            Instructions::ROL => ((m << 1) | (st & STATUS_C)) as u8,
            Instructions::ROR => ((m >> 1) | ((st & STATUS_C) << 7)) as u8,
            _ => 0,
        }
    }

    /// The status register a read-modify-write instruction leaves, as a
    /// function of the byte it read and the status register it started
    /// from.
    pub open spec fn spec_rmw_status(op: Op, m: u8, st: u8) -> u8 {
        match op.instr {
            Instructions::INC => Self::spec_zn(st, m.wrapping_add(1)),
            Instructions::DEC => Self::spec_zn(st, m.wrapping_sub(1)),
            Instructions::ASL => Self::spec_shift_st(st, ((m >> 7) & 1) as u8, (m << 1) as u8),
            Instructions::LSR => Self::spec_shift_st(st, (m & 1) as u8, (m >> 1) as u8),
            Instructions::ROL => Self::spec_shift_st(
                st,
                ((m >> 7) & 1) as u8,
                ((m << 1) | (st & STATUS_C)) as u8,
            ),
            Instructions::ROR => Self::spec_shift_st(
                st,
                (m & 1) as u8,
                ((m >> 1) | ((st & STATUS_C) << 7)) as u8,
            ),
            _ => st,
        }
    }

    /// The seven instructions that only set or clear one status flag.
    pub open spec fn spec_is_flag_op(i: Instructions) -> bool {
        match i {
            Instructions::CLC => true,
            Instructions::SEC => true,
            Instructions::CLD => true,
            Instructions::SED => true,
            Instructions::CLI => true,
            Instructions::SEI => true,
            Instructions::CLV => true,
            _ => false,
        }
    }

    /// The status register a flag instruction leaves.
    pub open spec fn spec_flag_status(i: Instructions, st: u8) -> u8 {
        match i {
            Instructions::CLC => (st & 0xfe) as u8,
            Instructions::SEC => (st | STATUS_C) as u8,
            Instructions::CLD => (st & 0xf7) as u8,
            Instructions::SED => (st | STATUS_D) as u8,
            Instructions::CLI => (st & 0xfb) as u8,
            Instructions::SEI => (st | STATUS_I) as u8,
            Instructions::CLV => (st & 0xbf) as u8,
            _ => st,
        }
    }

    /// Whether a branch instruction takes its branch under a status
    /// register value.
    pub open spec fn spec_branch_taken(i: Instructions, st: u8) -> bool {
        match i {
            Instructions::BPL => st & STATUS_N == 0,
            Instructions::BMI => st & STATUS_N != 0,
            Instructions::BVC => st & STATUS_V == 0,
            Instructions::BVS => st & STATUS_V != 0,
            Instructions::BCC => st & STATUS_C == 0,
            Instructions::BCS => st & STATUS_C != 0,
            Instructions::BNE => st & STATUS_Z == 0,
            Instructions::BEQ => st & STATUS_Z != 0,
            _ => false,
        }
    }

    /// The address a taken branch lands on: the program counter after the
    /// instruction, moved by the signed 8-bit offset.
    pub open spec fn spec_branch_target(pc_next: u16, off: u8) -> u16 {
        if off < 0x80 {
            pc_next.wrapping_add(off as u16)
        } else {
            pc_next.wrapping_add(off as u16).wrapping_sub(0x100)
        }
    }

    /// The pending cycles an instruction leaves behind: its base cost
    /// less the fetch cycle itself, plus one for a page crossing on the
    /// penalty instructions, and for branches one more when taken plus
    /// one when the taken branch crosses a page.
    pub open spec fn spec_op_cost(self, cart: Cartridge, op: Op, pc0: u16) -> int {
        let pc_next = pc0.wrapping_add(op.len as u16);
        if op.mode is REL {
            let off = self.spec_fetch(cart, pc0.wrapping_add(1));
            if Self::spec_branch_taken(op.instr, self.r_st) {
                op.cycles - 1 + 1 + if op.page_penalty && Self::spec_page_crossed(
                    pc_next,
                    Self::spec_branch_target(pc_next, off),
                ) {
                    1int
                } else {
                    0int
                }
            } else {
                op.cycles - 1
            }
        } else {
            op.cycles - 1 + if op.page_penalty && self.spec_crossed(cart, op.mode, pc0) {
                1int
            } else {
                0int
            }
        }
    }

    /// One idle cycle of an in-flight instruction: the cycle counter
    /// advances, the pending count falls by one, and nothing else moves
    /// — in particular the program counter and every register stay put.
    pub open spec fn spec_idle_step(pre: CPU, post: CPU) -> bool {
        &&& pre.skip_cycles > 0
        &&& post == (CPU {
            cycles: pre.cycles.wrapping_add(1),
            skip_cycles: (pre.skip_cycles - 1) as u64,
            ..pre
        })
    }

    /// Moves the program counter for one branch instruction and returns
    /// the extra cycles the branch costs: one when taken, one more when
    /// the taken branch crosses a page and the instruction carries the
    /// page penalty.
    fn do_branch(&mut self, taken: bool, off: u8, page_penalty: bool) -> (extra: u8)
        ensures
            extra as int == (if taken {
                1 + if page_penalty && Self::spec_page_crossed(
                    old(self).r_pc,
                    Self::spec_branch_target(old(self).r_pc, off),
                ) {
                    1int
                } else {
                    0int
                }
            } else {
                0int
            }),
            *final(self) == (CPU {
                r_pc: if taken {
                    Self::spec_branch_target(old(self).r_pc, off)
                } else {
                    old(self).r_pc
                },
                ..*old(self)
            }),
    {
        if taken {
            let target = if off < 0x80 {
                self.r_pc.wrapping_add(off as u16)
            } else {
                self.r_pc.wrapping_add(off as u16).wrapping_sub(0x100)
            };
            let crossed = (self.r_pc & 0xff00) != (target & 0xff00);
            self.r_pc = target;
            if page_penalty && crossed {
                2
            } else {
                1
            }
        } else {
            0
        }
    }


    /// The architectural effect of one executed instruction, relating the
    /// machine just after the fetch (`pre`: the program counter already
    /// advanced to `pc_next`, which the jump and branch clauses move
    /// again) to the machine after execution. `ea` is the resolved
    /// effective address, `m` the byte a data read at `ea` returns, and
    /// `off` the code byte at `ea` (the branch offset). Data accesses
    /// into the register window are relation-constrained by the picture
    /// unit's own protocols; everything else is pinned exactly.
    pub open spec fn spec_instr_effect(
        op: Op,
        pre: CPU,
        post: CPU,
        pre_cart: Cartridge,
        post_cart: Cartridge,
        pre_ppu: PPU,
        post_ppu: PPU,
        ea: u16,
        m: u8,
        off: u8,
        pc_next: u16,
    ) -> bool {
        &&& (!Self::spec_writes_memory(op) ==> post_cart == pre_cart)
        &&& (!Self::spec_accesses_memory(op) ==> post_ppu == pre_ppu)
        &&& (Self::spec_reads_operand(op.instr) ==> ({
            &&& (0x2000 <= ea < 0x4000 ==> PPU::spec_reg_read_rel(
                pre_ppu,
                post_ppu,
                pre_cart,
                (ea & 0x2007) as u16,
            ))
            &&& (!(0x2000 <= ea < 0x4000) ==> post_ppu == pre_ppu)
        }))
        &&& (op.instr is LDA ==> post == (CPU {
            r_pc: post.r_pc,
            cycles: post.cycles,
            skip_cycles: post.skip_cycles,
            r_a: m,
            r_st: Self::spec_zn(pre.r_st, m),
            ..pre
        }))
        &&& (op.instr is LDX ==> post == (CPU {
            r_pc: post.r_pc,
            cycles: post.cycles,
            skip_cycles: post.skip_cycles,
            r_x: m,
            r_st: Self::spec_zn(pre.r_st, m),
            ..pre
        }))
        &&& (op.instr is LDY ==> post == (CPU {
            r_pc: post.r_pc,
            cycles: post.cycles,
            skip_cycles: post.skip_cycles,
            r_y: m,
            r_st: Self::spec_zn(pre.r_st, m),
            ..pre
        }))
        &&& (op.instr is ORA ==> post == (CPU {
            r_pc: post.r_pc,
            cycles: post.cycles,
            skip_cycles: post.skip_cycles,
            r_a: (pre.r_a | m) as u8,
            r_st: Self::spec_zn(pre.r_st, (pre.r_a | m) as u8),
            ..pre
        }))
        &&& (op.instr is AND ==> post == (CPU {
            r_pc: post.r_pc,
            cycles: post.cycles,
            skip_cycles: post.skip_cycles,
            r_a: (pre.r_a & m) as u8,
            r_st: Self::spec_zn(pre.r_st, (pre.r_a & m) as u8),
            ..pre
        }))
        &&& (op.instr is EOR ==> post == (CPU {
            r_pc: post.r_pc,
            cycles: post.cycles,
            skip_cycles: post.skip_cycles,
            r_a: (pre.r_a ^ m) as u8,
            r_st: Self::spec_zn(pre.r_st, (pre.r_a ^ m) as u8),
            ..pre
        }))
        &&& (op.instr is ADC ==> post == (CPU {
            r_pc: post.r_pc,
            cycles: post.cycles,
            skip_cycles: post.skip_cycles,
            r_a: Self::spec_adc_res(pre.r_a, m, pre.r_st),
            r_st: Self::spec_adc_st(pre.r_a, m, pre.r_st),
            ..pre
        }))
        &&& (op.instr is SBC ==> post == (CPU {
            r_pc: post.r_pc,
            cycles: post.cycles,
            skip_cycles: post.skip_cycles,
            r_a: Self::spec_adc_res(pre.r_a, (m ^ 0xff) as u8, pre.r_st),
            r_st: Self::spec_adc_st(pre.r_a, (m ^ 0xff) as u8, pre.r_st),
            ..pre
        }))
        &&& (op.instr is CMP ==> post == (CPU {
            r_pc: post.r_pc,
            cycles: post.cycles,
            skip_cycles: post.skip_cycles,
            r_st: Self::spec_cmp_st(pre.r_st, pre.r_a, m),
            ..pre
        }))
        &&& (op.instr is CPX ==> post == (CPU {
            r_pc: post.r_pc,
            cycles: post.cycles,
            skip_cycles: post.skip_cycles,
            r_st: Self::spec_cmp_st(pre.r_st, pre.r_x, m),
            ..pre
        }))
        &&& (op.instr is CPY ==> post == (CPU {
            r_pc: post.r_pc,
            cycles: post.cycles,
            skip_cycles: post.skip_cycles,
            r_st: Self::spec_cmp_st(pre.r_st, pre.r_y, m),
            ..pre
        }))
        &&& (op.instr is BIT ==> post == (CPU {
            r_pc: post.r_pc,
            cycles: post.cycles,
            skip_cycles: post.skip_cycles,
            r_st: Self::spec_bit_st(pre.r_st, pre.r_a, m),
            ..pre
        }))
        &&& ((op.instr is STA || op.instr is STX || op.instr is STY) ==> ({
            let v = if op.instr is STA {
                pre.r_a
            } else if op.instr is STX {
                pre.r_x
            } else {
                pre.r_y
            };
            &&& post == (CPU {
                r_pc: post.r_pc,
                cycles: post.cycles,
                skip_cycles: post.skip_cycles,
                ram: post.ram,
                ..pre
            })
            &&& (ea < 0x2000 ==> post.ram@ == pre.ram@.update(
                (ea & 0x07ff) as int,
                v,
            ) && post_cart == pre_cart && post_ppu == pre_ppu)
            &&& (0x2000 <= ea < 0x4000 ==> post.ram@ == pre.ram@
                && post_cart == pre_cart && PPU::spec_reg_write_rel(
                pre_ppu,
                post_ppu,
                pre_cart.mirror_type,
                (ea & 0x2007) as u16,
                v,
            ))
            &&& (0x4000 <= ea < 0x6000 && ea != 0x4014 ==> post.ram@ == pre.ram@ && post_cart == pre_cart && post_ppu == pre_ppu)
            &&& (ea == 0x4014 ==> post.ram@ == pre.ram@ && post_cart
                == pre_cart && post_ppu == (PPU { r_oamdma: v, ..pre_ppu }))
            &&& (0x6000 <= ea < 0x8000 ==> post_cart.sram@ == pre_cart.sram@.update(ea - 0x6000, v) && post.ram@ == pre.ram@
                && post_ppu == pre_ppu)
            &&& (ea >= 0x8000 ==> post_cart == pre_cart && post.ram@
                == pre.ram@ && post_ppu == pre_ppu)
        }))
        &&& (Self::spec_is_rmw(op) ==> ({
            let v = Self::spec_rmw_value(op, m, pre.r_st);
            &&& post == (CPU {
                r_pc: post.r_pc,
                cycles: post.cycles,
                skip_cycles: post.skip_cycles,
                ram: post.ram,
                r_st: Self::spec_rmw_status(op, m, pre.r_st),
                ..pre
            })
            &&& (ea < 0x2000 ==> post.ram@ == pre.ram@.update(
                (ea & 0x07ff) as int,
                v,
            ) && post_cart == pre_cart && post_ppu == pre_ppu)
            &&& (0x2000 <= ea < 0x4000 ==> post.ram@ == pre.ram@
                && post_cart == pre_cart && (exists|mid: PPU|
                {
                    &&& #[trigger] PPU::spec_reg_read_rel(
                        pre_ppu,
                        mid,
                        pre_cart,
                        (ea & 0x2007) as u16,
                    )
                    &&& PPU::spec_reg_write_rel(
                        mid,
                        post_ppu,
                        pre_cart.mirror_type,
                        (ea & 0x2007) as u16,
                        v,
                    )
                }))
            &&& (ea == 0x4014 ==> post.ram@ == pre.ram@ && post_cart == pre_cart && post_ppu == (
            PPU { r_oamdma: v, ..pre_ppu }))
            &&& (0x4000 <= ea < 0x6000 && ea != 0x4014 ==> post.ram@ == pre.ram@ && post_cart == pre_cart && post_ppu == pre_ppu)
            &&& (0x6000 <= ea < 0x8000 ==> post.ram@ == pre.ram@
                && post_cart.sram@ == pre_cart.sram@.update(ea - 0x6000, v)
                && post_ppu == pre_ppu)
            &&& (ea >= 0x8000 ==> post.ram@ == pre.ram@ && post_cart
                == pre_cart && post_ppu == pre_ppu)
        }))
        &&& ((op.instr is ASL || op.instr is LSR || op.instr is ROL || op.instr is ROR)
            && op.mode is IMP ==> post == (CPU {
            r_pc: post.r_pc,
            cycles: post.cycles,
            skip_cycles: post.skip_cycles,
            r_a: Self::spec_rmw_value(op, pre.r_a, pre.r_st),
            r_st: Self::spec_rmw_status(op, pre.r_a, pre.r_st),
            ..pre
        }))
        &&& (Self::spec_straight_line(op.instr) ==> post.r_pc == pc_next)
        &&& (spec_is_branch(op.instr) ==> post.r_pc == (if Self::spec_branch_taken(
            op.instr,
            pre.r_st,
        ) {
            Self::spec_branch_target(pc_next, off)
        } else {
            pc_next
        }))
        &&& (op.instr is TAX ==> post == (CPU {
            r_pc: post.r_pc,
            cycles: post.cycles,
            skip_cycles: post.skip_cycles,
            r_x: pre.r_a,
            r_st: Self::spec_zn(pre.r_st, pre.r_a),
            ..pre
        }))
        &&& (op.instr is TXA ==> post == (CPU {
            r_pc: post.r_pc,
            cycles: post.cycles,
            skip_cycles: post.skip_cycles,
            r_a: pre.r_x,
            r_st: Self::spec_zn(pre.r_st, pre.r_x),
            ..pre
        }))
        &&& (op.instr is TAY ==> post == (CPU {
            r_pc: post.r_pc,
            cycles: post.cycles,
            skip_cycles: post.skip_cycles,
            r_y: pre.r_a,
            r_st: Self::spec_zn(pre.r_st, pre.r_a),
            ..pre
        }))
        &&& (op.instr is TYA ==> post == (CPU {
            r_pc: post.r_pc,
            cycles: post.cycles,
            skip_cycles: post.skip_cycles,
            r_a: pre.r_y,
            r_st: Self::spec_zn(pre.r_st, pre.r_y),
            ..pre
        }))
        &&& (op.instr is TSX ==> post == (CPU {
            r_pc: post.r_pc,
            cycles: post.cycles,
            skip_cycles: post.skip_cycles,
            r_x: pre.r_sp,
            r_st: Self::spec_zn(pre.r_st, pre.r_sp),
            ..pre
        }))
        &&& (op.instr is TXS ==> post == (CPU {
            r_pc: post.r_pc,
            cycles: post.cycles,
            skip_cycles: post.skip_cycles,
            r_sp: pre.r_x,
            ..pre
        }))
        &&& (op.instr is INX ==> post == (CPU {
            r_pc: post.r_pc,
            cycles: post.cycles,
            skip_cycles: post.skip_cycles,
            r_x: pre.r_x.wrapping_add(1),
            r_st: Self::spec_zn(pre.r_st, pre.r_x.wrapping_add(1)),
            ..pre
        }))
        &&& (op.instr is INY ==> post == (CPU {
            r_pc: post.r_pc,
            cycles: post.cycles,
            skip_cycles: post.skip_cycles,
            r_y: pre.r_y.wrapping_add(1),
            r_st: Self::spec_zn(pre.r_st, pre.r_y.wrapping_add(1)),
            ..pre
        }))
        &&& (op.instr is DEX ==> post == (CPU {
            r_pc: post.r_pc,
            cycles: post.cycles,
            skip_cycles: post.skip_cycles,
            r_x: pre.r_x.wrapping_sub(1),
            r_st: Self::spec_zn(pre.r_st, pre.r_x.wrapping_sub(1)),
            ..pre
        }))
        &&& (op.instr is DEY ==> post == (CPU {
            r_pc: post.r_pc,
            cycles: post.cycles,
            skip_cycles: post.skip_cycles,
            r_y: pre.r_y.wrapping_sub(1),
            r_st: Self::spec_zn(pre.r_st, pre.r_y.wrapping_sub(1)),
            ..pre
        }))
        &&& (Self::spec_is_flag_op(op.instr) ==> post == (CPU {
            r_pc: post.r_pc,
            cycles: post.cycles,
            skip_cycles: post.skip_cycles,
            r_st: Self::spec_flag_status(op.instr, pre.r_st),
            ..pre
        }))
        &&& (op.instr is PHA ==> post == (CPU {
            r_pc: post.r_pc,
            cycles: post.cycles,
            skip_cycles: post.skip_cycles,
            ram: post.ram,
            r_sp: pre.r_sp.wrapping_sub(1),
            ..pre
        }) && post.ram@ == pre.ram@.update(
            0x100 + pre.r_sp as int,
            pre.r_a,
        ))
        &&& (op.instr is PHP ==> post == (CPU {
            r_pc: post.r_pc,
            cycles: post.cycles,
            skip_cycles: post.skip_cycles,
            ram: post.ram,
            r_sp: pre.r_sp.wrapping_sub(1),
            ..pre
        }) && post.ram@ == pre.ram@.update(
            0x100 + pre.r_sp as int,
            (pre.r_st | STATUS_B) as u8,
        ))
        &&& (op.instr is PLA ==> post == (CPU {
            r_pc: post.r_pc,
            cycles: post.cycles,
            skip_cycles: post.skip_cycles,
            r_a: pre.ram@[0x100 + pre.r_sp.wrapping_add(1) as int],
            r_st: Self::spec_zn(
                pre.r_st,
                pre.ram@[0x100 + pre.r_sp.wrapping_add(1) as int],
            ),
            r_sp: pre.r_sp.wrapping_add(1),
            ..pre
        }))
        &&& (op.instr is PLP ==> post == (CPU {
            r_pc: post.r_pc,
            cycles: post.cycles,
            skip_cycles: post.skip_cycles,
            r_st: pre.ram@[0x100 + pre.r_sp.wrapping_add(1) as int],
            r_sp: pre.r_sp.wrapping_add(1),
            ..pre
        }))
        &&& (op.instr is JMP ==> post.r_pc == ea)
        &&& (op.instr is JSR ==> post.r_pc == ea)
        &&& (op.instr is BRK ==> post.r_pc == pre.spec_fetch_word(pre_cart, BRK_VECTOR))
        &&& (op.instr is RTS ==> post.r_pc == ((((pre.ram@[0x100 + pre.r_sp.wrapping_add(2) as int] as u16) << 8) | (pre.ram@[0x100 + pre.r_sp.wrapping_add(1) as int] as u16)) as u16).wrapping_add(1))
        &&& (op.instr is RTI ==> post.r_pc == ((((pre.ram@[0x100 + pre.r_sp.wrapping_add(3) as int] as u16) << 8) | (pre.ram@[0x100 + pre.r_sp.wrapping_add(2) as int] as u16)) as u16) && post.r_st == pre.ram@[0x100 + pre.r_sp.wrapping_add(1) as int])
    }

    /// One master-clock cycle. While an instruction is in flight the
    /// pending-cycle counter just falls; at an instruction boundary a
    /// pending interrupt is taken first; otherwise the opcode at the
    /// program counter is fetched, looked up in the instruction table
    /// (an absent entry is the fatal `IllegalOpcode`), its addressing
    /// mode resolved, and the instruction executed, leaving its remaining
    /// cycle cost in the pending counter.
    #[verifier::rlimit(100)]
    #[verifier::spinoff_prover]
    pub fn step(&mut self, cart: &mut Cartridge, ppu: &mut PPU) -> (r: Result<(), EmuError>)
        requires
            old(self).wf(),
            old(cart).loaded(),
            old(ppu).wf(),
        ensures
            final(self).wf(),
            final(cart).loaded(),
            final(ppu).wf(),
            *final(cart) == (Cartridge { sram: final(cart).sram, ..*old(cart) }),
            final(cart).sram@.len() == old(cart).sram@.len(),
            final(self).cycles == old(self).cycles.wrapping_add(1),
            final(self).frame_ready == old(self).frame_ready,
            old(self).skip_cycles > 0 ==> r is Ok && Self::spec_idle_step(*old(self), *final(self))
                && *final(cart) == *old(cart) && *final(ppu) == *old(ppu),
            old(self).skip_cycles == 0 && old(self).pending_nmi ==> r is Ok && {
                &&& !final(self).pending_nmi
                &&& final(self).r_pc == old(self).spec_fetch_word(*old(cart), NMI_VECTOR)
                &&& final(self).r_st == (old(self).r_st | STATUS_I) as u8
                &&& final(self).skip_cycles == 6
                &&& final(self).r_sp == old(self).r_sp.wrapping_sub(3)
                &&& final(self).ram@ == old(self).ram@.update(
                    0x100 + old(self).r_sp as int,
                    (old(self).r_pc >> 8) as u8,
                ).update(
                    0x100 + old(self).r_sp.wrapping_sub(1) as int,
                    (old(self).r_pc & 0xff) as u8,
                ).update(0x100 + old(self).r_sp.wrapping_sub(2) as int, old(self).r_st)
                &&& final(self).r_a == old(self).r_a && final(self).r_x == old(self).r_x
                    && final(self).r_y == old(self).r_y
                &&& *final(cart) == *old(cart)
                &&& *final(ppu) == *old(ppu)
            },
            old(self).skip_cycles == 0 && !old(self).pending_nmi ==> ({
                let opb = old(self).spec_fetch(*old(cart), old(self).r_pc);
                let dec = spec_decode(opb);
                &&& (dec is None ==> r == Err::<(), EmuError>(EmuError::IllegalOpcode(opb))
                    && *final(self) == (CPU {
                    cycles: old(self).cycles.wrapping_add(1),
                    ..*old(self)
                }) && *final(cart) == *old(cart) && *final(ppu) == *old(ppu))
                &&& (dec is Some && r is Ok ==> ({
                    let op = dec->0;
                    let pc_next = old(self).r_pc.wrapping_add(op.len as u16);
                    let ea = old(self).spec_ea(*old(cart), op.mode, old(self).r_pc);
                    let m = old(self).spec_bus_read(*old(ppu), *old(cart), ea);
                    &&& final(self).skip_cycles == old(self).spec_op_cost(
                        *old(cart),
                        op,
                        old(self).r_pc,
                    )
                    &&& Self::spec_instr_effect(
                        op,
                        (CPU {
                            r_pc: pc_next,
                            cycles: old(self).cycles.wrapping_add(1),
                            ..*old(self)
                        }),
                        *final(self),
                        *old(cart),
                        *final(cart),
                        *old(ppu),
                        *final(ppu),
                        ea,
                        m,
                        old(self).spec_fetch(*old(cart), ea),
                        pc_next,
                    )
                }))
                &&& (dec is Some ==> ({
                    let op = dec->0;
                    let pc_next = old(self).r_pc.wrapping_add(op.len as u16);
                    let ea = old(self).spec_ea(*old(cart), op.mode, old(self).r_pc);
                    // success is owed: the step fails exactly on the one
                    // per-access fault, a data access into the
                    // battery-backed RAM window of a cartridge without it
                    &&& (r is Err <==> Self::spec_accesses_memory(op) && Self::spec_sram_fault(
                        *old(cart),
                        ea,
                    ))
                    &&& (r is Err ==> r == Err::<(), EmuError>(EmuError::AddressError)
                        && (*final(self) == (CPU {
                        r_pc: pc_next,
                        cycles: old(self).cycles.wrapping_add(1),
                        ..*old(self)
                    })) && *final(cart) == *old(cart) && *final(ppu) == *old(ppu))
                }))
            }),
    {
        self.cycles = self.cycles.wrapping_add(1);
        if self.skip_cycles > 0 {
            self.skip_cycles = self.skip_cycles - 1;
            return Ok(());
        }
        if self.pending_nmi {
            self.pending_nmi = false;
            let pc = self.r_pc;
            proof {
                lemma_low_byte_bound(pc);
            }
            self.push((pc >> 8) as u8);
            self.push((pc & 0xff) as u8);
            let st = self.r_st;
            self.push(st);
            self.r_st = self.r_st | STATUS_I;
            self.r_pc = self.read_address(NMI_VECTOR, cart);
            self.skip_cycles = 6;
            return Ok(());
        }
        let pc0 = self.r_pc;
        let opb = self.fetch(pc0, cart);
        let op = match decode(opb) {
            Some(op) => op,
            None => {
                return Err(EmuError::IllegalOpcode(opb));
            },
        };
        let (ea, crossed) = self.resolve(op.mode, pc0, cart);
        self.r_pc = pc0.wrapping_add(op.len as u16);
        let ghost pre_exec = *self;
        proof {
            assert(pre_exec == (CPU {
                r_pc: pc0.wrapping_add(op.len as u16),
                cycles: old(self).cycles.wrapping_add(1),
                ..*old(self)
            }));
        }
        let bextra = match self.execute(op, pc0, ea, cart, ppu) {
            Ok(x) => x,
            Err(e) => return Err(e),
        };
        let pre_extra: u8 = if op.page_penalty && crossed {
            1
        } else {
            0
        };
        self.skip_cycles = (op.cycles - 1 + pre_extra + bextra) as u64;
        Ok(())
    }

    /// Executes one decoded instruction whose operand address is already
    /// resolved and whose fetch has already advanced the program counter
    /// past it; returns the extra cycles a taken branch costs. It fails
    /// exactly when the instruction makes a data access into the
    /// battery-backed RAM window of a cartridge without battery-backed
    /// RAM, and then changes nothing.
    #[verifier::rlimit(100)]
    #[verifier::spinoff_prover]
    fn execute(&mut self, op: Op, pc0: u16, ea: u16, cart: &mut Cartridge, ppu: &mut PPU) -> (r:
        Result<u8, EmuError>)
        requires
            old(self).wf(),
            old(cart).loaded(),
            old(ppu).wf(),
            ea == old(self).spec_ea(*old(cart), op.mode, pc0),
        ensures
            final(self).wf(),
            final(cart).loaded(),
            final(ppu).wf(),
            *final(cart) == (Cartridge { sram: final(cart).sram, ..*old(cart) }),
            final(cart).sram@.len() == old(cart).sram@.len(),
            final(self).cycles == old(self).cycles,
            final(self).skip_cycles == old(self).skip_cycles,
            final(self).frame_ready == old(self).frame_ready,
            final(self).pending_nmi == old(self).pending_nmi,
            r is Err <==> Self::spec_accesses_memory(op) && Self::spec_sram_fault(
                *old(cart),
                ea,
            ),
            r is Err ==> r == Err::<u8, EmuError>(EmuError::AddressError) && *final(self) == *old(
                self,
            ) && *final(cart) == *old(cart) && *final(ppu) == *old(ppu),
            r is Ok ==> ({
                let m = old(self).spec_bus_read(*old(ppu), *old(cart), ea);
                let off = old(self).spec_fetch(*old(cart), ea);
                &&& Self::spec_instr_effect(
                    op,
                    *old(self),
                    *final(self),
                    *old(cart),
                    *final(cart),
                    *old(ppu),
                    *final(ppu),
                    ea,
                    m,
                    off,
                    old(self).r_pc,
                )
                &&& r->Ok_0 <= 2
                &&& (spec_is_branch(op.instr) ==> r->Ok_0 as int == (if Self::spec_branch_taken(
                    op.instr,
                    old(self).r_st,
                ) {
                    1 + if op.page_penalty && Self::spec_page_crossed(
                        old(self).r_pc,
                        Self::spec_branch_target(old(self).r_pc, off),
                    ) {
                        1int
                    } else {
                        0int
                    }
                } else {
                    0int
                }))
                &&& (!spec_is_branch(op.instr) ==> r->Ok_0 == 0)
            }),
    {
        let mut extra: u8 = 0;
        match op.instr {
            Instructions::LDA => {
                let m = match self.read(ea, cart, ppu) {
                    Ok(v) => v,
                    Err(e) => return Err(e),
                };
                self.exe_lda(m);
            },
            Instructions::LDX => {
                let m = match self.read(ea, cart, ppu) {
                    Ok(v) => v,
                    Err(e) => return Err(e),
                };
                self.exe_ldx(m);
            },
            Instructions::LDY => {
                let m = match self.read(ea, cart, ppu) {
                    Ok(v) => v,
                    Err(e) => return Err(e),
                };
                self.exe_ldy(m);
            },
            Instructions::ORA => {
                let m = match self.read(ea, cart, ppu) {
                    Ok(v) => v,
                    Err(e) => return Err(e),
                };
                self.exe_ora(m);
            },
            Instructions::AND => {
                let m = match self.read(ea, cart, ppu) {
                    Ok(v) => v,
                    Err(e) => return Err(e),
                };
                self.exe_and(m);
            },
            Instructions::EOR => {
                let m = match self.read(ea, cart, ppu) {
                    Ok(v) => v,
                    Err(e) => return Err(e),
                };
                self.exe_eor(m);
            },
            Instructions::ADC => {
                let m = match self.read(ea, cart, ppu) {
                    Ok(v) => v,
                    Err(e) => return Err(e),
                };
                self.exe_adc(m);
            },
            Instructions::SBC => {
                let m = match self.read(ea, cart, ppu) {
                    Ok(v) => v,
                    Err(e) => return Err(e),
                };
                self.exe_sbc(m);
            },
            Instructions::CMP => {
                let m = match self.read(ea, cart, ppu) {
                    Ok(v) => v,
                    Err(e) => return Err(e),
                };
                self.exe_cmp(m);
            },
            Instructions::CPX => {
                let m = match self.read(ea, cart, ppu) {
                    Ok(v) => v,
                    Err(e) => return Err(e),
                };
                self.exe_cpx(m);
            },
            Instructions::CPY => {
                let m = match self.read(ea, cart, ppu) {
                    Ok(v) => v,
                    Err(e) => return Err(e),
                };
                self.exe_cpy(m);
            },
            Instructions::BIT => {
                let m = match self.read(ea, cart, ppu) {
                    Ok(v) => v,
                    Err(e) => return Err(e),
                };
                self.exe_bit(m);
            },
            Instructions::STA => {
                let v = self.r_a;
                match self.write(ea, v, cart, ppu) {
                    Ok(_) => (),
                    Err(e) => return Err(e),
                }
            },
            Instructions::STX => {
                let v = self.r_x;
                match self.write(ea, v, cart, ppu) {
                    Ok(_) => (),
                    Err(e) => return Err(e),
                }
            },
            Instructions::STY => {
                let v = self.r_y;
                match self.write(ea, v, cart, ppu) {
                    Ok(_) => (),
                    Err(e) => return Err(e),
                }
            },
            Instructions::INC => {
                let m = match self.read(ea, cart, ppu) {
                    Ok(v) => v,
                    Err(e) => return Err(e),
                };
                let v = self.exe_inc(m);
                match self.write(ea, v, cart, ppu) {
                    Ok(_) => (),
                    Err(e) => return Err(e),
                }
            },
            Instructions::DEC => {
                let m = match self.read(ea, cart, ppu) {
                    Ok(v) => v,
                    Err(e) => return Err(e),
                };
                let v = self.exe_dec(m);
                match self.write(ea, v, cart, ppu) {
                    Ok(_) => (),
                    Err(e) => return Err(e),
                }
            },
            Instructions::ASL => {
                if matches!(op.mode, AddressMode::IMP) {
                    let a = self.r_a;
                    let v = self.exe_asl(a);
                    self.r_a = v;
                } else {
                    let m = match self.read(ea, cart, ppu) {
                        Ok(v) => v,
                        Err(e) => return Err(e),
                    };
                    let v = self.exe_asl(m);
                    match self.write(ea, v, cart, ppu) {
                        Ok(_) => (),
                        Err(e) => return Err(e),
                    }
                }
            },
            Instructions::LSR => {
                if matches!(op.mode, AddressMode::IMP) {
                    let a = self.r_a;
                    let v = self.exe_lsr(a);
                    self.r_a = v;
                } else {
                    let m = match self.read(ea, cart, ppu) {
                        Ok(v) => v,
                        Err(e) => return Err(e),
                    };
                    let v = self.exe_lsr(m);
                    match self.write(ea, v, cart, ppu) {
                        Ok(_) => (),
                        Err(e) => return Err(e),
                    }
                }
            },
            Instructions::ROL => {
                if matches!(op.mode, AddressMode::IMP) {
                    let a = self.r_a;
                    let v = self.exe_rol(a);
                    self.r_a = v;
                } else {
                    let m = match self.read(ea, cart, ppu) {
                        Ok(v) => v,
                        Err(e) => return Err(e),
                    };
                    let v = self.exe_rol(m);
                    match self.write(ea, v, cart, ppu) {
                        Ok(_) => (),
                        Err(e) => return Err(e),
                    }
                }
            },
            Instructions::ROR => {
                if matches!(op.mode, AddressMode::IMP) {
                    let a = self.r_a;
                    let v = self.exe_ror(a);
                    self.r_a = v;
                } else {
                    let m = match self.read(ea, cart, ppu) {
                        Ok(v) => v,
                        Err(e) => return Err(e),
                    };
                    let v = self.exe_ror(m);
                    match self.write(ea, v, cart, ppu) {
                        Ok(_) => (),
                        Err(e) => return Err(e),
                    }
                }
            },
            Instructions::TAX => self.exe_tax(),
            Instructions::TXA => self.exe_txa(),
            Instructions::TAY => self.exe_tay(),
            Instructions::TYA => self.exe_tya(),
            Instructions::TSX => self.exe_tsx(),
            Instructions::TXS => self.exe_txs(),
            Instructions::INX => self.exe_inx(),
            Instructions::INY => self.exe_iny(),
            Instructions::DEX => self.exe_dex(),
            Instructions::DEY => self.exe_dey(),
            Instructions::CLC => self.exe_clc(),
            Instructions::SEC => self.exe_sec(),
            Instructions::CLD => self.exe_cld(),
            Instructions::SED => self.exe_sed(),
            Instructions::CLI => self.exe_cli(),
            Instructions::SEI => self.exe_sei(),
            Instructions::CLV => self.exe_clv(),
            Instructions::PHA => self.exe_pha(),
            Instructions::PLA => self.exe_pla(),
            Instructions::PHP => self.exe_php(),
            Instructions::PLP => self.exe_plp(),
            Instructions::BPL => {
                let off = self.fetch(ea, cart);
                let t = self.r_st & STATUS_N == 0;
                extra = self.do_branch(t, off, op.page_penalty);
            },
            Instructions::BMI => {
                let off = self.fetch(ea, cart);
                let t = self.r_st & STATUS_N != 0;
                extra = self.do_branch(t, off, op.page_penalty);
            },
            Instructions::BVC => {
                let off = self.fetch(ea, cart);
                let t = self.r_st & STATUS_V == 0;
                extra = self.do_branch(t, off, op.page_penalty);
            },
            Instructions::BVS => {
                let off = self.fetch(ea, cart);
                let t = self.r_st & STATUS_V != 0;
                extra = self.do_branch(t, off, op.page_penalty);
            },
            Instructions::BCC => {
                let off = self.fetch(ea, cart);
                let t = self.r_st & STATUS_C == 0;
                extra = self.do_branch(t, off, op.page_penalty);
            },
            Instructions::BCS => {
                let off = self.fetch(ea, cart);
                let t = self.r_st & STATUS_C != 0;
                extra = self.do_branch(t, off, op.page_penalty);
            },
            Instructions::BNE => {
                let off = self.fetch(ea, cart);
                let t = self.r_st & STATUS_Z == 0;
                extra = self.do_branch(t, off, op.page_penalty);
            },
            Instructions::BEQ => {
                let off = self.fetch(ea, cart);
                let t = self.r_st & STATUS_Z != 0;
                extra = self.do_branch(t, off, op.page_penalty);
            },
            Instructions::JMP => {
                self.r_pc = ea;
            },
            Instructions::JSR => {
                let ret = pc0.wrapping_add(2);
                proof {
                    lemma_low_byte_bound(ret);
                }
                self.push((ret >> 8) as u8);
                self.push((ret & 0xff) as u8);
                self.r_pc = ea;
            },
            Instructions::RTS => {
                let lo = self.pull() as u16;
                let hi = self.pull() as u16;
                self.r_pc = (((hi << 8) | lo)).wrapping_add(1);
            },
            Instructions::RTI => {
                let st = self.pull();
                self.r_st = st;
                let lo = self.pull() as u16;
                let hi = self.pull() as u16;
                self.r_pc = (hi << 8) | lo;
            },
            Instructions::BRK => {
                let ret = pc0.wrapping_add(2);
                proof {
                    lemma_low_byte_bound(ret);
                }
                self.push((ret >> 8) as u8);
                self.push((ret & 0xff) as u8);
                let st = self.r_st | STATUS_B;
                self.push(st);
                self.r_st = self.r_st | STATUS_I;
                self.r_pc = self.read_address(BRK_VECTOR, cart);
            },
        }
        Ok(extra)
    }


    /// Power-on initialisation: a reset.
    pub fn init(&mut self, cart: &Cartridge, ppu: &mut PPU) -> (r: Result<(), EmuError>)
        requires
            old(self).wf(),
            cart.loaded(),
            old(ppu).wf(),
        ensures
            r is Ok,
            *final(ppu) == *old(ppu),
            final(self).wf(),
            final(self).r_pc == old(self).spec_fetch_word(*cart, RESET_VECTOR),
            final(self).r_a == 0 && final(self).r_x == 0 && final(self).r_y == 0,
            final(self).r_st == STATUS_START,
            final(self).r_sp == STACK_START,
            final(self).cycles == 0 && final(self).skip_cycles == 0,
            final(self).ram@ == old(self).ram@,
    {
        self.reset(cart, ppu)
    }
}

/// While an instruction is in flight, no step moves the program counter:
/// along any run of states chained by idle cycles, every state holds the
/// program counter of the first. Together with `CPU::step`'s fetch-cycle
/// contract — which advances the counter by exactly the instruction's
/// declared length for the straight-line instructions — this pins the
/// counter over an instruction's whole declared cycle count.
pub proof fn lemma_idle_run_keeps_pc(states: Seq<CPU>)
    requires
        forall|i: int|
            #![trigger states[i]]
            0 <= i < states.len() - 1 ==> CPU::spec_idle_step(states[i], states[i + 1]),
    ensures
        forall|i: int| #![trigger states[i]] 0 <= i < states.len() ==> states[i].r_pc
            == states[0].r_pc,
    decreases states.len(),
{
    if states.len() > 1 {
        let rest = states.subrange(1, states.len() as int);
        assert forall|i: int| #![trigger rest[i]] 0 <= i < rest.len() - 1 implies
            CPU::spec_idle_step(rest[i], rest[i + 1]) by {
            assert(rest[i] == states[i + 1]);
            assert(rest[i + 1] == states[i + 2]);
        }
        lemma_idle_run_keeps_pc(rest);
        assert forall|i: int| #![trigger states[i]] 0 <= i < states.len() implies states[i].r_pc
            == states[0].r_pc by {
            if i >= 1 {
                assert(rest[i - 1] == states[i]);
                assert(rest[i - 1].r_pc == rest[0].r_pc);
                assert(CPU::spec_idle_step(states[0], states[1]));
            }
        }
    }
}

/// The low byte of a 16-bit value fits in a byte.
proof fn lemma_low_byte_bound(x: u16)
    ensures
        x & 0xff < 0x100,
{
    assert(x & 0xff < 0x100) by (bit_vector);
}

/// The low-11-bit mask keeps an internal-RAM index inside the 2KB array.
proof fn lemma_ram_mask_bound(addr: u16)
    ensures
        addr & 0x07ff < 0x800,
{
    assert(addr & 0x07ff < 0x800) by (bit_vector);
}

/// Masking a register-window address to the 8-register mirror lands in
/// `0x2000..=0x2007`.
proof fn lemma_ppu_reg_mask_bound(addr: u16)
    requires
        0x2000 <= addr < 0x4000,
    ensures
        0x2000 <= (addr & 0x2007) < 0x2008,
{
    assert(0x2000 <= (addr & 0x2007) < 0x2008) by (bit_vector)
        requires
            0x2000 <= addr < 0x4000,
    ;
}

} // verus!


