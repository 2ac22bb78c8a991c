//! Opcode metadata: addressing modes, mnemonics, and the opcode table.
//!
//! The table maps an opcode byte to its [`OpCode`] descriptor. It is a pure
//! function of the byte, defined once as the specification
//! [`spec_opcode_lookup`] and mirrored by the executable [`opcode_lookup`],
//! which is proved to agree with it on every byte. Not every byte value has
//! an entry; fetching one without an entry is a fatal decode condition.

use vstd::prelude::*;

verus! {

/// The rule by which an instruction's operand location is computed from the
/// bytes following the opcode and the current register values.
#[derive(Clone, Copy, Debug)]
pub enum AddressingModes {
    Immediate,
    ZeroPage,
    ZeroPageX,
    ZeroPageY,
    Relative,
    Absolute,
    AbsoluteX,
    AbsoluteY,
    Indirect,
    IndexedIndirect,
    IndirectIndexed,
    NoAddressingMode,
}

/// The instruction names of the 6502 mnemonic set, as a closed enumeration
/// so that dispatch over them is checked for coverage at compile time.
#[derive(Clone, Copy, Debug)]
pub enum Mnemonic {
    ADC,
    AND,
    ASL,
    BCC,
    BCS,
    BEQ,
    BIT,
    BMI,
    BNE,
    BPL,
    BRK,
    BVC,
    BVS,
    CLC,
    CLD,
    CLI,
    CLV,
    CMP,
    CPX,
    CPY,
    DEC,
    DEX,
    DEY,
    EOR,
    INC,
    INX,
    INY,
    JMP,
    JSR,
    LDA,
    LDX,
    LDY,
    LSR,
    NOP,
    ORA,
    PHA,
    PHP,
    PLA,
    PLP,
    ROL,
    ROR,
    RTI,
    RTS,
    SBC,
    SEC,
    SED,
    SEI,
    STA,
    STX,
    STY,
    TAX,
    TAY,
    TSX,
    TXA,
    TXS,
    TYA,
}

/// One instruction's metadata: its opcode byte, mnemonic, addressing mode,
/// total byte length (opcode included), and base cycle cost.
#[derive(Clone, Copy, Debug)]
pub struct OpCode {
    pub addressmode: AddressingModes,
    pub opcode: u8,
    pub opname: Mnemonic,
    pub bytes: u8,
    pub cycles: u8,
}

/// A table entry, written compactly.
pub open spec fn entry(
    opcode: u8,
    opname: Mnemonic,
    addressmode: AddressingModes,
    bytes: u8,
    cycles: u8,
) -> OpCode {
    OpCode { addressmode, opcode, opname, bytes, cycles }
}

impl OpCode {
    /// Builds one descriptor from its parts.
    pub fn new(
        opcode: u8,
        opname: Mnemonic,
        addressmode: AddressingModes,
        bytes: u8,
        cycles: u8,
    ) -> (oc: OpCode)
        ensures
            oc == entry(opcode, opname, addressmode, bytes, cycles),
    {
        OpCode { addressmode, opcode, opname, bytes, cycles }
    }
}

/// The opcode table as a specification: the descriptor of each opcode byte
/// that has an entry, `None` for every byte that has none.
pub open spec fn spec_opcode_lookup(opcode: u8) -> Option<OpCode> {
    match opcode {
        0x69 => Some(entry(0x69, Mnemonic::ADC, AddressingModes::Immediate, 2, 2)),
        0x65 => Some(entry(0x65, Mnemonic::ADC, AddressingModes::ZeroPage, 2, 3)),
        0x75 => Some(entry(0x75, Mnemonic::ADC, AddressingModes::ZeroPageX, 2, 4)),
        0x6D => Some(entry(0x6D, Mnemonic::ADC, AddressingModes::Absolute, 3, 4)),
        0x7D => Some(entry(0x7D, Mnemonic::ADC, AddressingModes::AbsoluteX, 3, 4)),
        0x79 => Some(entry(0x79, Mnemonic::ADC, AddressingModes::AbsoluteY, 3, 4)),
        0x61 => Some(entry(0x61, Mnemonic::ADC, AddressingModes::IndexedIndirect, 2, 6)),
        0x71 => Some(entry(0x71, Mnemonic::ADC, AddressingModes::IndirectIndexed, 2, 5)),
        0x29 => Some(entry(0x29, Mnemonic::AND, AddressingModes::Immediate, 2, 2)),
        0x25 => Some(entry(0x25, Mnemonic::AND, AddressingModes::ZeroPage, 2, 3)),
        0x35 => Some(entry(0x35, Mnemonic::AND, AddressingModes::ZeroPageX, 2, 4)),
        0x2D => Some(entry(0x2D, Mnemonic::AND, AddressingModes::Absolute, 3, 4)),
        0x3D => Some(entry(0x3D, Mnemonic::AND, AddressingModes::AbsoluteX, 3, 4)),
        0x39 => Some(entry(0x39, Mnemonic::AND, AddressingModes::AbsoluteY, 3, 4)),
        0x21 => Some(entry(0x21, Mnemonic::AND, AddressingModes::IndexedIndirect, 2, 6)),
        0x31 => Some(entry(0x31, Mnemonic::AND, AddressingModes::IndirectIndexed, 2, 5)),
        0x0A => Some(entry(0x0A, Mnemonic::ASL, AddressingModes::NoAddressingMode, 1, 2)),
        0x06 => Some(entry(0x06, Mnemonic::ASL, AddressingModes::ZeroPage, 2, 5)),
        0x16 => Some(entry(0x16, Mnemonic::ASL, AddressingModes::ZeroPageX, 2, 6)),
        0x0E => Some(entry(0x0E, Mnemonic::ASL, AddressingModes::Absolute, 3, 6)),
        0x1E => Some(entry(0x1E, Mnemonic::ASL, AddressingModes::AbsoluteX, 3, 7)),
        0x90 => Some(entry(0x90, Mnemonic::BCC, AddressingModes::Relative, 2, 2)),
        0xB0 => Some(entry(0xB0, Mnemonic::BCS, AddressingModes::Relative, 2, 2)),
        0xF0 => Some(entry(0xF0, Mnemonic::BEQ, AddressingModes::Relative, 2, 2)),
        0x24 => Some(entry(0x24, Mnemonic::BIT, AddressingModes::ZeroPage, 2, 3)),
        0x2C => Some(entry(0x2C, Mnemonic::BIT, AddressingModes::Absolute, 3, 4)),
        0x30 => Some(entry(0x30, Mnemonic::BMI, AddressingModes::Relative, 2, 2)),
        0xD0 => Some(entry(0xD0, Mnemonic::BNE, AddressingModes::Relative, 2, 2)),
        0x10 => Some(entry(0x10, Mnemonic::BPL, AddressingModes::Relative, 2, 2)),
        0x00 => Some(entry(0x00, Mnemonic::BRK, AddressingModes::NoAddressingMode, 1, 7)),
        0x50 => Some(entry(0x50, Mnemonic::BVC, AddressingModes::Relative, 2, 2)),
        0x70 => Some(entry(0x70, Mnemonic::BVS, AddressingModes::Relative, 2, 2)),
        0x18 => Some(entry(0x18, Mnemonic::CLC, AddressingModes::NoAddressingMode, 1, 2)),
        0xD8 => Some(entry(0xD8, Mnemonic::CLD, AddressingModes::NoAddressingMode, 1, 2)),
        0x58 => Some(entry(0x58, Mnemonic::CLI, AddressingModes::NoAddressingMode, 1, 2)),
        0xB8 => Some(entry(0xB8, Mnemonic::CLV, AddressingModes::NoAddressingMode, 1, 2)),
        0xC9 => Some(entry(0xC9, Mnemonic::CMP, AddressingModes::Immediate, 2, 2)),
        0xC5 => Some(entry(0xC5, Mnemonic::CMP, AddressingModes::ZeroPage, 2, 3)),
        0xD5 => Some(entry(0xD5, Mnemonic::CMP, AddressingModes::ZeroPageX, 2, 4)),
        0xCD => Some(entry(0xCD, Mnemonic::CMP, AddressingModes::Absolute, 3, 4)),
        0xDD => Some(entry(0xDD, Mnemonic::CMP, AddressingModes::AbsoluteX, 3, 4)),
        0xD9 => Some(entry(0xD9, Mnemonic::CMP, AddressingModes::AbsoluteY, 3, 4)),
        0xC1 => Some(entry(0xC1, Mnemonic::CMP, AddressingModes::IndexedIndirect, 2, 6)),
        0xD1 => Some(entry(0xD1, Mnemonic::CMP, AddressingModes::IndirectIndexed, 2, 5)),
        0xE0 => Some(entry(0xE0, Mnemonic::CPX, AddressingModes::Immediate, 2, 2)),
        0xE4 => Some(entry(0xE4, Mnemonic::CPX, AddressingModes::ZeroPage, 2, 3)),
        0xEC => Some(entry(0xEC, Mnemonic::CPX, AddressingModes::Absolute, 3, 4)),
        0xC0 => Some(entry(0xC0, Mnemonic::CPY, AddressingModes::Immediate, 2, 2)),
        0xC4 => Some(entry(0xC4, Mnemonic::CPY, AddressingModes::ZeroPage, 2, 3)),
        0xCC => Some(entry(0xCC, Mnemonic::CPY, AddressingModes::Absolute, 3, 4)),
        0xC6 => Some(entry(0xC6, Mnemonic::DEC, AddressingModes::ZeroPage, 2, 5)),
        0xD6 => Some(entry(0xD6, Mnemonic::DEC, AddressingModes::ZeroPageX, 2, 6)),
        0xCE => Some(entry(0xCE, Mnemonic::DEC, AddressingModes::Absolute, 3, 6)),
        0xDE => Some(entry(0xDE, Mnemonic::DEC, AddressingModes::AbsoluteX, 3, 7)),
        0xCA => Some(entry(0xCA, Mnemonic::DEX, AddressingModes::NoAddressingMode, 1, 2)),
        0x88 => Some(entry(0x88, Mnemonic::DEY, AddressingModes::NoAddressingMode, 1, 2)),
        0x49 => Some(entry(0x49, Mnemonic::EOR, AddressingModes::Immediate, 2, 2)),
        0x45 => Some(entry(0x45, Mnemonic::EOR, AddressingModes::ZeroPage, 2, 3)),
        0x55 => Some(entry(0x55, Mnemonic::EOR, AddressingModes::ZeroPageX, 2, 4)),
        0x4D => Some(entry(0x4D, Mnemonic::EOR, AddressingModes::Absolute, 3, 4)),
        0x5D => Some(entry(0x5D, Mnemonic::EOR, AddressingModes::AbsoluteX, 3, 4)),
        0x59 => Some(entry(0x59, Mnemonic::EOR, AddressingModes::AbsoluteY, 3, 4)),
        0x41 => Some(entry(0x41, Mnemonic::EOR, AddressingModes::IndexedIndirect, 2, 6)),
        0x51 => Some(entry(0x51, Mnemonic::EOR, AddressingModes::IndirectIndexed, 2, 5)),
        0xE6 => Some(entry(0xE6, Mnemonic::INC, AddressingModes::ZeroPage, 2, 5)),
        0xF6 => Some(entry(0xF6, Mnemonic::INC, AddressingModes::ZeroPageX, 2, 6)),
        0xEE => Some(entry(0xEE, Mnemonic::INC, AddressingModes::Absolute, 3, 6)),
        0xFE => Some(entry(0xFE, Mnemonic::INC, AddressingModes::AbsoluteX, 3, 7)),
        0xE8 => Some(entry(0xE8, Mnemonic::INX, AddressingModes::NoAddressingMode, 1, 2)),
        0xC8 => Some(entry(0xC8, Mnemonic::INY, AddressingModes::NoAddressingMode, 1, 2)),
        0x4C => Some(entry(0x4C, Mnemonic::JMP, AddressingModes::Absolute, 3, 3)),
        0x6C => Some(entry(0x6C, Mnemonic::JMP, AddressingModes::Indirect, 3, 5)),
        0x20 => Some(entry(0x20, Mnemonic::JSR, AddressingModes::Absolute, 3, 6)),
        0xA9 => Some(entry(0xA9, Mnemonic::LDA, AddressingModes::Immediate, 2, 2)),
        0xA5 => Some(entry(0xA5, Mnemonic::LDA, AddressingModes::ZeroPage, 2, 3)),
        0xB5 => Some(entry(0xB5, Mnemonic::LDA, AddressingModes::ZeroPageX, 2, 4)),
        0xAD => Some(entry(0xAD, Mnemonic::LDA, AddressingModes::Absolute, 3, 4)),
        0xBD => Some(entry(0xBD, Mnemonic::LDA, AddressingModes::AbsoluteX, 3, 4)),
        0xB9 => Some(entry(0xB9, Mnemonic::LDA, AddressingModes::AbsoluteY, 3, 4)),
        0xA1 => Some(entry(0xA1, Mnemonic::LDA, AddressingModes::IndexedIndirect, 2, 6)),
        0xB1 => Some(entry(0xB1, Mnemonic::LDA, AddressingModes::IndirectIndexed, 2, 5)),
        0xA2 => Some(entry(0xA2, Mnemonic::LDX, AddressingModes::Immediate, 2, 2)),
        0xA6 => Some(entry(0xA6, Mnemonic::LDX, AddressingModes::ZeroPage, 2, 3)),
        0xB6 => Some(entry(0xB6, Mnemonic::LDX, AddressingModes::ZeroPageY, 2, 4)),
        0xAE => Some(entry(0xAE, Mnemonic::LDX, AddressingModes::Absolute, 3, 4)),
        0xBE => Some(entry(0xBE, Mnemonic::LDX, AddressingModes::AbsoluteY, 3, 4)),
        0xA0 => Some(entry(0xA0, Mnemonic::LDY, AddressingModes::Immediate, 2, 2)),
        0xA4 => Some(entry(0xA4, Mnemonic::LDY, AddressingModes::ZeroPage, 2, 3)),
        0xB4 => Some(entry(0xB4, Mnemonic::LDY, AddressingModes::ZeroPageX, 2, 4)),
        0xAC => Some(entry(0xAC, Mnemonic::LDY, AddressingModes::Absolute, 3, 4)),
        0xBC => Some(entry(0xBC, Mnemonic::LDY, AddressingModes::AbsoluteX, 3, 4)),
        0x4A => Some(entry(0x4A, Mnemonic::LSR, AddressingModes::NoAddressingMode, 1, 2)),
        0x46 => Some(entry(0x46, Mnemonic::LSR, AddressingModes::ZeroPage, 2, 5)),
        0x56 => Some(entry(0x56, Mnemonic::LSR, AddressingModes::ZeroPageX, 2, 6)),
        0x4E => Some(entry(0x4E, Mnemonic::LSR, AddressingModes::Absolute, 3, 6)),
        0x5E => Some(entry(0x5E, Mnemonic::LSR, AddressingModes::AbsoluteX, 3, 7)),
        0xEA => Some(entry(0xEA, Mnemonic::NOP, AddressingModes::NoAddressingMode, 1, 2)),
        0x09 => Some(entry(0x09, Mnemonic::ORA, AddressingModes::Immediate, 2, 2)),
        0x05 => Some(entry(0x05, Mnemonic::ORA, AddressingModes::ZeroPage, 2, 3)),
        0x15 => Some(entry(0x15, Mnemonic::ORA, AddressingModes::ZeroPageX, 2, 4)),
        0x0D => Some(entry(0x0D, Mnemonic::ORA, AddressingModes::Absolute, 3, 4)),
        0x1D => Some(entry(0x1D, Mnemonic::ORA, AddressingModes::AbsoluteX, 3, 4)),
        0x19 => Some(entry(0x19, Mnemonic::ORA, AddressingModes::AbsoluteY, 3, 4)),
        0x01 => Some(entry(0x01, Mnemonic::ORA, AddressingModes::IndexedIndirect, 2, 6)),
        0x11 => Some(entry(0x11, Mnemonic::ORA, AddressingModes::IndirectIndexed, 2, 5)),
        0x48 => Some(entry(0x48, Mnemonic::PHA, AddressingModes::NoAddressingMode, 1, 3)),
        0x08 => Some(entry(0x08, Mnemonic::PHP, AddressingModes::NoAddressingMode, 1, 3)),
        0x68 => Some(entry(0x68, Mnemonic::PLA, AddressingModes::NoAddressingMode, 1, 4)),
        0x28 => Some(entry(0x28, Mnemonic::PLP, AddressingModes::NoAddressingMode, 1, 4)),
        0x2A => Some(entry(0x2A, Mnemonic::ROL, AddressingModes::NoAddressingMode, 1, 2)),
        0x26 => Some(entry(0x26, Mnemonic::ROL, AddressingModes::ZeroPage, 2, 5)),
        0x36 => Some(entry(0x36, Mnemonic::ROL, AddressingModes::ZeroPageX, 2, 6)),
        0x2E => Some(entry(0x2E, Mnemonic::ROL, AddressingModes::Absolute, 3, 6)),
        0x3E => Some(entry(0x3E, Mnemonic::ROL, AddressingModes::AbsoluteX, 3, 7)),
        0x6A => Some(entry(0x6A, Mnemonic::ROR, AddressingModes::NoAddressingMode, 1, 2)),
        0x66 => Some(entry(0x66, Mnemonic::ROR, AddressingModes::ZeroPage, 2, 5)),
        0x76 => Some(entry(0x76, Mnemonic::ROR, AddressingModes::ZeroPageX, 2, 6)),
        0x6E => Some(entry(0x6E, Mnemonic::ROR, AddressingModes::Absolute, 3, 6)),
        0x7E => Some(entry(0x7E, Mnemonic::ROR, AddressingModes::AbsoluteX, 3, 7)),
        0x40 => Some(entry(0x40, Mnemonic::RTI, AddressingModes::NoAddressingMode, 1, 6)),
        0x60 => Some(entry(0x60, Mnemonic::RTS, AddressingModes::NoAddressingMode, 1, 6)),
        0xE9 => Some(entry(0xE9, Mnemonic::SBC, AddressingModes::Immediate, 2, 2)),
        0xE5 => Some(entry(0xE5, Mnemonic::SBC, AddressingModes::ZeroPage, 2, 3)),
        0xF5 => Some(entry(0xF5, Mnemonic::SBC, AddressingModes::ZeroPageX, 2, 4)),
        0xED => Some(entry(0xED, Mnemonic::SBC, AddressingModes::Absolute, 3, 4)),
        0xFD => Some(entry(0xFD, Mnemonic::SBC, AddressingModes::AbsoluteX, 3, 4)),
        0xF9 => Some(entry(0xF9, Mnemonic::SBC, AddressingModes::AbsoluteY, 3, 4)),
        0xE1 => Some(entry(0xE1, Mnemonic::SBC, AddressingModes::IndexedIndirect, 2, 6)),
        0xF1 => Some(entry(0xF1, Mnemonic::SBC, AddressingModes::IndirectIndexed, 2, 5)),
        0x38 => Some(entry(0x38, Mnemonic::SEC, AddressingModes::NoAddressingMode, 1, 2)),
        0xF8 => Some(entry(0xF8, Mnemonic::SED, AddressingModes::NoAddressingMode, 1, 2)),
        0x78 => Some(entry(0x78, Mnemonic::SEI, AddressingModes::NoAddressingMode, 1, 2)),
        0x85 => Some(entry(0x85, Mnemonic::STA, AddressingModes::ZeroPage, 2, 3)),
        0x95 => Some(entry(0x95, Mnemonic::STA, AddressingModes::ZeroPageX, 2, 4)),
        0x8D => Some(entry(0x8D, Mnemonic::STA, AddressingModes::Absolute, 3, 4)),
        0x9D => Some(entry(0x9D, Mnemonic::STA, AddressingModes::AbsoluteX, 3, 5)),
        0x99 => Some(entry(0x99, Mnemonic::STA, AddressingModes::AbsoluteY, 3, 5)),
        0x81 => Some(entry(0x81, Mnemonic::STA, AddressingModes::IndexedIndirect, 2, 6)),
        0x91 => Some(entry(0x91, Mnemonic::STA, AddressingModes::IndirectIndexed, 2, 6)),
        0x86 => Some(entry(0x86, Mnemonic::STX, AddressingModes::ZeroPage, 2, 3)),
        0x96 => Some(entry(0x96, Mnemonic::STX, AddressingModes::ZeroPageY, 2, 4)),
        0x8E => Some(entry(0x8E, Mnemonic::STX, AddressingModes::Absolute, 3, 4)),
        0x84 => Some(entry(0x84, Mnemonic::STY, AddressingModes::ZeroPage, 2, 3)),
        0x94 => Some(entry(0x94, Mnemonic::STY, AddressingModes::ZeroPageX, 2, 4)),
        0x8C => Some(entry(0x8C, Mnemonic::STY, AddressingModes::Absolute, 3, 4)),
        0xAA => Some(entry(0xAA, Mnemonic::TAX, AddressingModes::NoAddressingMode, 1, 2)),
        0xA8 => Some(entry(0xA8, Mnemonic::TAY, AddressingModes::NoAddressingMode, 1, 2)),
        0xBA => Some(entry(0xBA, Mnemonic::TSX, AddressingModes::NoAddressingMode, 1, 2)),
        0x8A => Some(entry(0x8A, Mnemonic::TXA, AddressingModes::NoAddressingMode, 1, 2)),
        0x9A => Some(entry(0x9A, Mnemonic::TXS, AddressingModes::NoAddressingMode, 1, 2)),
        0x98 => Some(entry(0x98, Mnemonic::TYA, AddressingModes::NoAddressingMode, 1, 2)),
        _ => None,
    }
}

/// Looks an opcode byte up in the table.
pub fn opcode_lookup(opcode: u8) -> (oc: Option<OpCode>)
    ensures
        oc == spec_opcode_lookup(opcode),
{
    match opcode {
        0x69 => Some(OpCode::new(0x69, Mnemonic::ADC, AddressingModes::Immediate, 2, 2)),
        0x65 => Some(OpCode::new(0x65, Mnemonic::ADC, AddressingModes::ZeroPage, 2, 3)),
        0x75 => Some(OpCode::new(0x75, Mnemonic::ADC, AddressingModes::ZeroPageX, 2, 4)),
        0x6D => Some(OpCode::new(0x6D, Mnemonic::ADC, AddressingModes::Absolute, 3, 4)),
        0x7D => Some(OpCode::new(0x7D, Mnemonic::ADC, AddressingModes::AbsoluteX, 3, 4)),
        0x79 => Some(OpCode::new(0x79, Mnemonic::ADC, AddressingModes::AbsoluteY, 3, 4)),
        0x61 => Some(OpCode::new(0x61, Mnemonic::ADC, AddressingModes::IndexedIndirect, 2, 6)),
        0x71 => Some(OpCode::new(0x71, Mnemonic::ADC, AddressingModes::IndirectIndexed, 2, 5)),
        0x29 => Some(OpCode::new(0x29, Mnemonic::AND, AddressingModes::Immediate, 2, 2)),
        0x25 => Some(OpCode::new(0x25, Mnemonic::AND, AddressingModes::ZeroPage, 2, 3)),
        0x35 => Some(OpCode::new(0x35, Mnemonic::AND, AddressingModes::ZeroPageX, 2, 4)),
        0x2D => Some(OpCode::new(0x2D, Mnemonic::AND, AddressingModes::Absolute, 3, 4)),
        0x3D => Some(OpCode::new(0x3D, Mnemonic::AND, AddressingModes::AbsoluteX, 3, 4)),
        0x39 => Some(OpCode::new(0x39, Mnemonic::AND, AddressingModes::AbsoluteY, 3, 4)),
        0x21 => Some(OpCode::new(0x21, Mnemonic::AND, AddressingModes::IndexedIndirect, 2, 6)),
        0x31 => Some(OpCode::new(0x31, Mnemonic::AND, AddressingModes::IndirectIndexed, 2, 5)),
        0x0A => Some(OpCode::new(0x0A, Mnemonic::ASL, AddressingModes::NoAddressingMode, 1, 2)),
        0x06 => Some(OpCode::new(0x06, Mnemonic::ASL, AddressingModes::ZeroPage, 2, 5)),
        0x16 => Some(OpCode::new(0x16, Mnemonic::ASL, AddressingModes::ZeroPageX, 2, 6)),
        0x0E => Some(OpCode::new(0x0E, Mnemonic::ASL, AddressingModes::Absolute, 3, 6)),
        0x1E => Some(OpCode::new(0x1E, Mnemonic::ASL, AddressingModes::AbsoluteX, 3, 7)),
        0x90 => Some(OpCode::new(0x90, Mnemonic::BCC, AddressingModes::Relative, 2, 2)),
        0xB0 => Some(OpCode::new(0xB0, Mnemonic::BCS, AddressingModes::Relative, 2, 2)),
        0xF0 => Some(OpCode::new(0xF0, Mnemonic::BEQ, AddressingModes::Relative, 2, 2)),
        0x24 => Some(OpCode::new(0x24, Mnemonic::BIT, AddressingModes::ZeroPage, 2, 3)),
        0x2C => Some(OpCode::new(0x2C, Mnemonic::BIT, AddressingModes::Absolute, 3, 4)),
        0x30 => Some(OpCode::new(0x30, Mnemonic::BMI, AddressingModes::Relative, 2, 2)),
        0xD0 => Some(OpCode::new(0xD0, Mnemonic::BNE, AddressingModes::Relative, 2, 2)),
        0x10 => Some(OpCode::new(0x10, Mnemonic::BPL, AddressingModes::Relative, 2, 2)),
        0x00 => Some(OpCode::new(0x00, Mnemonic::BRK, AddressingModes::NoAddressingMode, 1, 7)),
        0x50 => Some(OpCode::new(0x50, Mnemonic::BVC, AddressingModes::Relative, 2, 2)),
        0x70 => Some(OpCode::new(0x70, Mnemonic::BVS, AddressingModes::Relative, 2, 2)),
        0x18 => Some(OpCode::new(0x18, Mnemonic::CLC, AddressingModes::NoAddressingMode, 1, 2)),
        0xD8 => Some(OpCode::new(0xD8, Mnemonic::CLD, AddressingModes::NoAddressingMode, 1, 2)),
        0x58 => Some(OpCode::new(0x58, Mnemonic::CLI, AddressingModes::NoAddressingMode, 1, 2)),
        0xB8 => Some(OpCode::new(0xB8, Mnemonic::CLV, AddressingModes::NoAddressingMode, 1, 2)),
        0xC9 => Some(OpCode::new(0xC9, Mnemonic::CMP, AddressingModes::Immediate, 2, 2)),
        0xC5 => Some(OpCode::new(0xC5, Mnemonic::CMP, AddressingModes::ZeroPage, 2, 3)),
        0xD5 => Some(OpCode::new(0xD5, Mnemonic::CMP, AddressingModes::ZeroPageX, 2, 4)),
        0xCD => Some(OpCode::new(0xCD, Mnemonic::CMP, AddressingModes::Absolute, 3, 4)),
        0xDD => Some(OpCode::new(0xDD, Mnemonic::CMP, AddressingModes::AbsoluteX, 3, 4)),
        0xD9 => Some(OpCode::new(0xD9, Mnemonic::CMP, AddressingModes::AbsoluteY, 3, 4)),
        0xC1 => Some(OpCode::new(0xC1, Mnemonic::CMP, AddressingModes::IndexedIndirect, 2, 6)),
        0xD1 => Some(OpCode::new(0xD1, Mnemonic::CMP, AddressingModes::IndirectIndexed, 2, 5)),
        0xE0 => Some(OpCode::new(0xE0, Mnemonic::CPX, AddressingModes::Immediate, 2, 2)),
        0xE4 => Some(OpCode::new(0xE4, Mnemonic::CPX, AddressingModes::ZeroPage, 2, 3)),
        0xEC => Some(OpCode::new(0xEC, Mnemonic::CPX, AddressingModes::Absolute, 3, 4)),
        0xC0 => Some(OpCode::new(0xC0, Mnemonic::CPY, AddressingModes::Immediate, 2, 2)),
        0xC4 => Some(OpCode::new(0xC4, Mnemonic::CPY, AddressingModes::ZeroPage, 2, 3)),
        0xCC => Some(OpCode::new(0xCC, Mnemonic::CPY, AddressingModes::Absolute, 3, 4)),
        0xC6 => Some(OpCode::new(0xC6, Mnemonic::DEC, AddressingModes::ZeroPage, 2, 5)),
        0xD6 => Some(OpCode::new(0xD6, Mnemonic::DEC, AddressingModes::ZeroPageX, 2, 6)),
        0xCE => Some(OpCode::new(0xCE, Mnemonic::DEC, AddressingModes::Absolute, 3, 6)),
        0xDE => Some(OpCode::new(0xDE, Mnemonic::DEC, AddressingModes::AbsoluteX, 3, 7)),
        0xCA => Some(OpCode::new(0xCA, Mnemonic::DEX, AddressingModes::NoAddressingMode, 1, 2)),
        0x88 => Some(OpCode::new(0x88, Mnemonic::DEY, AddressingModes::NoAddressingMode, 1, 2)),
        0x49 => Some(OpCode::new(0x49, Mnemonic::EOR, AddressingModes::Immediate, 2, 2)),
        0x45 => Some(OpCode::new(0x45, Mnemonic::EOR, AddressingModes::ZeroPage, 2, 3)),
        0x55 => Some(OpCode::new(0x55, Mnemonic::EOR, AddressingModes::ZeroPageX, 2, 4)),
        0x4D => Some(OpCode::new(0x4D, Mnemonic::EOR, AddressingModes::Absolute, 3, 4)),
        0x5D => Some(OpCode::new(0x5D, Mnemonic::EOR, AddressingModes::AbsoluteX, 3, 4)),
        0x59 => Some(OpCode::new(0x59, Mnemonic::EOR, AddressingModes::AbsoluteY, 3, 4)),
        0x41 => Some(OpCode::new(0x41, Mnemonic::EOR, AddressingModes::IndexedIndirect, 2, 6)),
        0x51 => Some(OpCode::new(0x51, Mnemonic::EOR, AddressingModes::IndirectIndexed, 2, 5)),
        0xE6 => Some(OpCode::new(0xE6, Mnemonic::INC, AddressingModes::ZeroPage, 2, 5)),
        0xF6 => Some(OpCode::new(0xF6, Mnemonic::INC, AddressingModes::ZeroPageX, 2, 6)),
        0xEE => Some(OpCode::new(0xEE, Mnemonic::INC, AddressingModes::Absolute, 3, 6)),
        0xFE => Some(OpCode::new(0xFE, Mnemonic::INC, AddressingModes::AbsoluteX, 3, 7)),
        0xE8 => Some(OpCode::new(0xE8, Mnemonic::INX, AddressingModes::NoAddressingMode, 1, 2)),
        0xC8 => Some(OpCode::new(0xC8, Mnemonic::INY, AddressingModes::NoAddressingMode, 1, 2)),
        0x4C => Some(OpCode::new(0x4C, Mnemonic::JMP, AddressingModes::Absolute, 3, 3)),
        0x6C => Some(OpCode::new(0x6C, Mnemonic::JMP, AddressingModes::Indirect, 3, 5)),
        0x20 => Some(OpCode::new(0x20, Mnemonic::JSR, AddressingModes::Absolute, 3, 6)),
        0xA9 => Some(OpCode::new(0xA9, Mnemonic::LDA, AddressingModes::Immediate, 2, 2)),
        0xA5 => Some(OpCode::new(0xA5, Mnemonic::LDA, AddressingModes::ZeroPage, 2, 3)),
        0xB5 => Some(OpCode::new(0xB5, Mnemonic::LDA, AddressingModes::ZeroPageX, 2, 4)),
        0xAD => Some(OpCode::new(0xAD, Mnemonic::LDA, AddressingModes::Absolute, 3, 4)),
        0xBD => Some(OpCode::new(0xBD, Mnemonic::LDA, AddressingModes::AbsoluteX, 3, 4)),
        0xB9 => Some(OpCode::new(0xB9, Mnemonic::LDA, AddressingModes::AbsoluteY, 3, 4)),
        0xA1 => Some(OpCode::new(0xA1, Mnemonic::LDA, AddressingModes::IndexedIndirect, 2, 6)),
        0xB1 => Some(OpCode::new(0xB1, Mnemonic::LDA, AddressingModes::IndirectIndexed, 2, 5)),
        0xA2 => Some(OpCode::new(0xA2, Mnemonic::LDX, AddressingModes::Immediate, 2, 2)),
        0xA6 => Some(OpCode::new(0xA6, Mnemonic::LDX, AddressingModes::ZeroPage, 2, 3)),
        0xB6 => Some(OpCode::new(0xB6, Mnemonic::LDX, AddressingModes::ZeroPageY, 2, 4)),
        0xAE => Some(OpCode::new(0xAE, Mnemonic::LDX, AddressingModes::Absolute, 3, 4)),
        0xBE => Some(OpCode::new(0xBE, Mnemonic::LDX, AddressingModes::AbsoluteY, 3, 4)),
        0xA0 => Some(OpCode::new(0xA0, Mnemonic::LDY, AddressingModes::Immediate, 2, 2)),
        0xA4 => Some(OpCode::new(0xA4, Mnemonic::LDY, AddressingModes::ZeroPage, 2, 3)),
        0xB4 => Some(OpCode::new(0xB4, Mnemonic::LDY, AddressingModes::ZeroPageX, 2, 4)),
        0xAC => Some(OpCode::new(0xAC, Mnemonic::LDY, AddressingModes::Absolute, 3, 4)),
        0xBC => Some(OpCode::new(0xBC, Mnemonic::LDY, AddressingModes::AbsoluteX, 3, 4)),
        0x4A => Some(OpCode::new(0x4A, Mnemonic::LSR, AddressingModes::NoAddressingMode, 1, 2)),
        0x46 => Some(OpCode::new(0x46, Mnemonic::LSR, AddressingModes::ZeroPage, 2, 5)),
        0x56 => Some(OpCode::new(0x56, Mnemonic::LSR, AddressingModes::ZeroPageX, 2, 6)),
        0x4E => Some(OpCode::new(0x4E, Mnemonic::LSR, AddressingModes::Absolute, 3, 6)),
        0x5E => Some(OpCode::new(0x5E, Mnemonic::LSR, AddressingModes::AbsoluteX, 3, 7)),
        0xEA => Some(OpCode::new(0xEA, Mnemonic::NOP, AddressingModes::NoAddressingMode, 1, 2)),
        0x09 => Some(OpCode::new(0x09, Mnemonic::ORA, AddressingModes::Immediate, 2, 2)),
        0x05 => Some(OpCode::new(0x05, Mnemonic::ORA, AddressingModes::ZeroPage, 2, 3)),
        0x15 => Some(OpCode::new(0x15, Mnemonic::ORA, AddressingModes::ZeroPageX, 2, 4)),
        0x0D => Some(OpCode::new(0x0D, Mnemonic::ORA, AddressingModes::Absolute, 3, 4)),
        0x1D => Some(OpCode::new(0x1D, Mnemonic::ORA, AddressingModes::AbsoluteX, 3, 4)),
        0x19 => Some(OpCode::new(0x19, Mnemonic::ORA, AddressingModes::AbsoluteY, 3, 4)),
        0x01 => Some(OpCode::new(0x01, Mnemonic::ORA, AddressingModes::IndexedIndirect, 2, 6)),
        0x11 => Some(OpCode::new(0x11, Mnemonic::ORA, AddressingModes::IndirectIndexed, 2, 5)),
        0x48 => Some(OpCode::new(0x48, Mnemonic::PHA, AddressingModes::NoAddressingMode, 1, 3)),
        0x08 => Some(OpCode::new(0x08, Mnemonic::PHP, AddressingModes::NoAddressingMode, 1, 3)),
        0x68 => Some(OpCode::new(0x68, Mnemonic::PLA, AddressingModes::NoAddressingMode, 1, 4)),
        0x28 => Some(OpCode::new(0x28, Mnemonic::PLP, AddressingModes::NoAddressingMode, 1, 4)),
        0x2A => Some(OpCode::new(0x2A, Mnemonic::ROL, AddressingModes::NoAddressingMode, 1, 2)),
        0x26 => Some(OpCode::new(0x26, Mnemonic::ROL, AddressingModes::ZeroPage, 2, 5)),
        0x36 => Some(OpCode::new(0x36, Mnemonic::ROL, AddressingModes::ZeroPageX, 2, 6)),
        0x2E => Some(OpCode::new(0x2E, Mnemonic::ROL, AddressingModes::Absolute, 3, 6)),
        0x3E => Some(OpCode::new(0x3E, Mnemonic::ROL, AddressingModes::AbsoluteX, 3, 7)),
        0x6A => Some(OpCode::new(0x6A, Mnemonic::ROR, AddressingModes::NoAddressingMode, 1, 2)),
        0x66 => Some(OpCode::new(0x66, Mnemonic::ROR, AddressingModes::ZeroPage, 2, 5)),
        0x76 => Some(OpCode::new(0x76, Mnemonic::ROR, AddressingModes::ZeroPageX, 2, 6)),
        0x6E => Some(OpCode::new(0x6E, Mnemonic::ROR, AddressingModes::Absolute, 3, 6)),
        0x7E => Some(OpCode::new(0x7E, Mnemonic::ROR, AddressingModes::AbsoluteX, 3, 7)),
        0x40 => Some(OpCode::new(0x40, Mnemonic::RTI, AddressingModes::NoAddressingMode, 1, 6)),
        0x60 => Some(OpCode::new(0x60, Mnemonic::RTS, AddressingModes::NoAddressingMode, 1, 6)),
        0xE9 => Some(OpCode::new(0xE9, Mnemonic::SBC, AddressingModes::Immediate, 2, 2)),
        0xE5 => Some(OpCode::new(0xE5, Mnemonic::SBC, AddressingModes::ZeroPage, 2, 3)),
        0xF5 => Some(OpCode::new(0xF5, Mnemonic::SBC, AddressingModes::ZeroPageX, 2, 4)),
        0xED => Some(OpCode::new(0xED, Mnemonic::SBC, AddressingModes::Absolute, 3, 4)),
        0xFD => Some(OpCode::new(0xFD, Mnemonic::SBC, AddressingModes::AbsoluteX, 3, 4)),
        0xF9 => Some(OpCode::new(0xF9, Mnemonic::SBC, AddressingModes::AbsoluteY, 3, 4)),
        0xE1 => Some(OpCode::new(0xE1, Mnemonic::SBC, AddressingModes::IndexedIndirect, 2, 6)),
        0xF1 => Some(OpCode::new(0xF1, Mnemonic::SBC, AddressingModes::IndirectIndexed, 2, 5)),
        0x38 => Some(OpCode::new(0x38, Mnemonic::SEC, AddressingModes::NoAddressingMode, 1, 2)),
        0xF8 => Some(OpCode::new(0xF8, Mnemonic::SED, AddressingModes::NoAddressingMode, 1, 2)),
        0x78 => Some(OpCode::new(0x78, Mnemonic::SEI, AddressingModes::NoAddressingMode, 1, 2)),
        0x85 => Some(OpCode::new(0x85, Mnemonic::STA, AddressingModes::ZeroPage, 2, 3)),
        0x95 => Some(OpCode::new(0x95, Mnemonic::STA, AddressingModes::ZeroPageX, 2, 4)),
        0x8D => Some(OpCode::new(0x8D, Mnemonic::STA, AddressingModes::Absolute, 3, 4)),
        0x9D => Some(OpCode::new(0x9D, Mnemonic::STA, AddressingModes::AbsoluteX, 3, 5)),
        0x99 => Some(OpCode::new(0x99, Mnemonic::STA, AddressingModes::AbsoluteY, 3, 5)),
        0x81 => Some(OpCode::new(0x81, Mnemonic::STA, AddressingModes::IndexedIndirect, 2, 6)),
        0x91 => Some(OpCode::new(0x91, Mnemonic::STA, AddressingModes::IndirectIndexed, 2, 6)),
        0x86 => Some(OpCode::new(0x86, Mnemonic::STX, AddressingModes::ZeroPage, 2, 3)),
        0x96 => Some(OpCode::new(0x96, Mnemonic::STX, AddressingModes::ZeroPageY, 2, 4)),
        0x8E => Some(OpCode::new(0x8E, Mnemonic::STX, AddressingModes::Absolute, 3, 4)),
        0x84 => Some(OpCode::new(0x84, Mnemonic::STY, AddressingModes::ZeroPage, 2, 3)),
        0x94 => Some(OpCode::new(0x94, Mnemonic::STY, AddressingModes::ZeroPageX, 2, 4)),
        0x8C => Some(OpCode::new(0x8C, Mnemonic::STY, AddressingModes::Absolute, 3, 4)),
        0xAA => Some(OpCode::new(0xAA, Mnemonic::TAX, AddressingModes::NoAddressingMode, 1, 2)),
        0xA8 => Some(OpCode::new(0xA8, Mnemonic::TAY, AddressingModes::NoAddressingMode, 1, 2)),
        0xBA => Some(OpCode::new(0xBA, Mnemonic::TSX, AddressingModes::NoAddressingMode, 1, 2)),
        0x8A => Some(OpCode::new(0x8A, Mnemonic::TXA, AddressingModes::NoAddressingMode, 1, 2)),
        0x9A => Some(OpCode::new(0x9A, Mnemonic::TXS, AddressingModes::NoAddressingMode, 1, 2)),
        0x98 => Some(OpCode::new(0x98, Mnemonic::TYA, AddressingModes::NoAddressingMode, 1, 2)),
        _ => None,
    }
}

/// Whether a mnemonic's handler resolves an operand address (the engine must
/// never ask the resolver for an address in `NoAddressingMode`).
pub open spec fn mnemonic_uses_operand(opname: Mnemonic) -> bool {
    opname is ADC || opname is LDA || opname is LDX || opname is LDY || opname is STA
        || opname is STX || opname is STY
}

/// Every table entry records its own opcode byte and a length of 1 to 3
/// bytes, and no mnemonic whose handler resolves an operand address is
/// paired with `NoAddressingMode`.
pub proof fn lemma_opcode_table_wf(opcode: u8)
    ensures
        match spec_opcode_lookup(opcode) {
            Some(oc) => oc.opcode == opcode && 1 <= oc.bytes <= 3 && (mnemonic_uses_operand(
                oc.opname,
            ) ==> !(oc.addressmode is NoAddressingMode)),
            None => true,
        },
{
}

} // verus!
