use vstd::prelude::*;

verus! {

/// The mnemonic of an instruction.
#[allow(non_camel_case_types)]
#[derive(Clone, Copy, PartialEq, Eq, Debug, Structural)]
pub enum Code {
    LDA,
    LDX,
    LDY,
    STA,
    STX,
    STY,
    TAX,
    TXA,
    TAY,
    TYA,
    INC,
    INX,
    INY,
    DEC,
    DEX,
    DEY,
    AND,
    EOR,
    ORA,
    BIT,
    CLC,
    CLD,
    CLI,
    CLV,
    SEC,
    SED,
    SEI,
    BCC,
    BCS,
    BEQ,
    BMI,
    BNE,
    BPL,
    BVC,
    BVS,
    ASL,
    LSR,
    ROL,
    ROR,
    TSX,
    TXS,
    PHA,
    PHP,
    PLA,
    PLP,
    JSR,
    RTS,
    CMP,
    CPX,
    CPY,
    JMP,
    ADC,
    SBC,
    RTI,
    BRK,
    NOP,
}

/// How an instruction finds its operand.
#[derive(Clone, Copy, PartialEq, Eq, Debug, Structural)]
pub enum AddressMode {
    Immediate,
    ZeroPage,
    ZeroPageX,
    ZeroPageY,
    Absolute,
    AbsoluteX,
    AbsoluteY,
    Indirect,
    IndirectX,
    IndirectY,
    Implied,
    Relative,
    Accumulator,
}

/// What decoding an opcode byte yields.
#[derive(Clone, Copy, PartialEq, Eq, Debug, Structural)]
pub struct OpDescription {
    pub code: Code,
    pub mode: AddressMode,
    /// Length of the instruction in bytes, opcode included.
    pub instruction_bytes: u8,
    /// Base cycle count.
    pub cycles: u8,
    /// Whether crossing a page while forming the address costs one more cycle.
    pub page_boundary_cycle: bool,
}

pub open spec fn entry(code: Code, mode: AddressMode, bytes: u8, cycles: u8, penalty: bool) -> OpDescription {
    OpDescription { code, mode, instruction_bytes: bytes, cycles, page_boundary_cycle: penalty }
}

fn describe(code: Code, mode: AddressMode, bytes: u8, cycles: u8, penalty: bool) -> (r: OpDescription)
    ensures
        r == entry(code, mode, bytes, cycles, penalty),
{
    OpDescription { code, mode, instruction_bytes: bytes, cycles, page_boundary_cycle: penalty }
}

/// The opcode table of the legal 6502 instruction set; `None` for an unassigned byte.
pub open spec fn opcode_entry(op: u8) -> Option<OpDescription> {
    match op {
        0xa9u8 => Some(entry(Code::LDA, AddressMode::Immediate, 2, 2, false)),
        0xa5u8 => Some(entry(Code::LDA, AddressMode::ZeroPage, 2, 3, false)),
        0xb5u8 => Some(entry(Code::LDA, AddressMode::ZeroPageX, 2, 4, false)),
        0xadu8 => Some(entry(Code::LDA, AddressMode::Absolute, 3, 4, false)),
        0xbdu8 => Some(entry(Code::LDA, AddressMode::AbsoluteX, 3, 4, true)),
        0xb9u8 => Some(entry(Code::LDA, AddressMode::AbsoluteY, 3, 4, true)),
        0xa1u8 => Some(entry(Code::LDA, AddressMode::IndirectX, 2, 6, false)),
        0xb1u8 => Some(entry(Code::LDA, AddressMode::IndirectY, 2, 5, true)),
        0xa2u8 => Some(entry(Code::LDX, AddressMode::Immediate, 2, 2, false)),
        0xa6u8 => Some(entry(Code::LDX, AddressMode::ZeroPage, 2, 3, false)),
        0xb6u8 => Some(entry(Code::LDX, AddressMode::ZeroPageY, 2, 4, false)),
        0xaeu8 => Some(entry(Code::LDX, AddressMode::Absolute, 3, 4, false)),
        0xbeu8 => Some(entry(Code::LDX, AddressMode::AbsoluteY, 3, 4, true)),
        0xa0u8 => Some(entry(Code::LDY, AddressMode::Immediate, 2, 2, false)),
        0xa4u8 => Some(entry(Code::LDY, AddressMode::ZeroPage, 2, 3, false)),
        0xb4u8 => Some(entry(Code::LDY, AddressMode::ZeroPageX, 2, 4, false)),
        0xacu8 => Some(entry(Code::LDY, AddressMode::Absolute, 3, 4, false)),
        0xbcu8 => Some(entry(Code::LDY, AddressMode::AbsoluteX, 3, 4, true)),
        0x85u8 => Some(entry(Code::STA, AddressMode::ZeroPage, 2, 3, false)),
        0x95u8 => Some(entry(Code::STA, AddressMode::ZeroPageX, 2, 4, false)),
        0x8du8 => Some(entry(Code::STA, AddressMode::Absolute, 3, 4, false)),
        0x9du8 => Some(entry(Code::STA, AddressMode::AbsoluteX, 3, 5, false)),
        0x99u8 => Some(entry(Code::STA, AddressMode::AbsoluteY, 3, 5, false)),
        0x81u8 => Some(entry(Code::STA, AddressMode::IndirectX, 2, 6, false)),
        0x91u8 => Some(entry(Code::STA, AddressMode::IndirectY, 2, 6, false)),
        0x86u8 => Some(entry(Code::STX, AddressMode::ZeroPage, 2, 3, false)),
        0x96u8 => Some(entry(Code::STX, AddressMode::ZeroPageY, 2, 4, false)),
        0x8eu8 => Some(entry(Code::STX, AddressMode::Absolute, 3, 4, false)),
        0x84u8 => Some(entry(Code::STY, AddressMode::ZeroPage, 2, 3, false)),
        0x94u8 => Some(entry(Code::STY, AddressMode::ZeroPageX, 2, 4, false)),
        0x8cu8 => Some(entry(Code::STY, AddressMode::Absolute, 3, 4, false)),
        0xaau8 => Some(entry(Code::TAX, AddressMode::Implied, 1, 2, false)),
        0x8au8 => Some(entry(Code::TXA, AddressMode::Implied, 1, 2, false)),
        0xa8u8 => Some(entry(Code::TAY, AddressMode::Implied, 1, 2, false)),
        0x98u8 => Some(entry(Code::TYA, AddressMode::Implied, 1, 2, false)),
        0xe6u8 => Some(entry(Code::INC, AddressMode::ZeroPage, 2, 5, false)),
        0xf6u8 => Some(entry(Code::INC, AddressMode::ZeroPageX, 2, 6, false)),
        0xeeu8 => Some(entry(Code::INC, AddressMode::Absolute, 3, 6, false)),
        0xfeu8 => Some(entry(Code::INC, AddressMode::AbsoluteX, 3, 7, false)),
        0xc6u8 => Some(entry(Code::DEC, AddressMode::ZeroPage, 2, 5, false)),
        0xd6u8 => Some(entry(Code::DEC, AddressMode::ZeroPageX, 2, 6, false)),
        0xceu8 => Some(entry(Code::DEC, AddressMode::Absolute, 3, 6, false)),
        0xdeu8 => Some(entry(Code::DEC, AddressMode::AbsoluteX, 3, 7, false)),
        0xe8u8 => Some(entry(Code::INX, AddressMode::Implied, 1, 2, false)),
        0xc8u8 => Some(entry(Code::INY, AddressMode::Implied, 1, 2, false)),
        0xcau8 => Some(entry(Code::DEX, AddressMode::Implied, 1, 2, false)),
        0x88u8 => Some(entry(Code::DEY, AddressMode::Implied, 1, 2, false)),
        0x29u8 => Some(entry(Code::AND, AddressMode::Immediate, 2, 2, false)),
        0x25u8 => Some(entry(Code::AND, AddressMode::ZeroPage, 2, 3, false)),
        0x35u8 => Some(entry(Code::AND, AddressMode::ZeroPageX, 2, 4, false)),
        0x2du8 => Some(entry(Code::AND, AddressMode::Absolute, 3, 4, false)),
        0x3du8 => Some(entry(Code::AND, AddressMode::AbsoluteX, 3, 4, true)),
        0x39u8 => Some(entry(Code::AND, AddressMode::AbsoluteY, 3, 4, true)),
        0x21u8 => Some(entry(Code::AND, AddressMode::IndirectX, 2, 6, false)),
        0x31u8 => Some(entry(Code::AND, AddressMode::IndirectY, 2, 5, true)),
        0x49u8 => Some(entry(Code::EOR, AddressMode::Immediate, 2, 2, false)),
        0x45u8 => Some(entry(Code::EOR, AddressMode::ZeroPage, 2, 3, false)),
        0x55u8 => Some(entry(Code::EOR, AddressMode::ZeroPageX, 2, 4, false)),
        0x4du8 => Some(entry(Code::EOR, AddressMode::Absolute, 3, 4, false)),
        0x5du8 => Some(entry(Code::EOR, AddressMode::AbsoluteX, 3, 4, true)),
        0x59u8 => Some(entry(Code::EOR, AddressMode::AbsoluteY, 3, 4, true)),
        0x41u8 => Some(entry(Code::EOR, AddressMode::IndirectX, 2, 6, false)),
        0x51u8 => Some(entry(Code::EOR, AddressMode::IndirectY, 2, 5, true)),
        0x09u8 => Some(entry(Code::ORA, AddressMode::Immediate, 2, 2, false)),
        0x05u8 => Some(entry(Code::ORA, AddressMode::ZeroPage, 2, 3, false)),
        0x15u8 => Some(entry(Code::ORA, AddressMode::ZeroPageX, 2, 4, false)),
        0x0du8 => Some(entry(Code::ORA, AddressMode::Absolute, 3, 4, false)),
        0x1du8 => Some(entry(Code::ORA, AddressMode::AbsoluteX, 3, 4, true)),
        0x19u8 => Some(entry(Code::ORA, AddressMode::AbsoluteY, 3, 4, true)),
        0x01u8 => Some(entry(Code::ORA, AddressMode::IndirectX, 2, 6, false)),
        0x11u8 => Some(entry(Code::ORA, AddressMode::IndirectY, 2, 5, true)),
        0x24u8 => Some(entry(Code::BIT, AddressMode::ZeroPage, 2, 3, false)),
        0x2cu8 => Some(entry(Code::BIT, AddressMode::Absolute, 3, 4, false)),
        0x18u8 => Some(entry(Code::CLC, AddressMode::Implied, 1, 2, false)),
        0xd8u8 => Some(entry(Code::CLD, AddressMode::Implied, 1, 2, false)),
        0x58u8 => Some(entry(Code::CLI, AddressMode::Implied, 1, 2, false)),
        0xb8u8 => Some(entry(Code::CLV, AddressMode::Implied, 1, 2, false)),
        0x38u8 => Some(entry(Code::SEC, AddressMode::Implied, 1, 2, false)),
        0xf8u8 => Some(entry(Code::SED, AddressMode::Implied, 1, 2, false)),
        0x78u8 => Some(entry(Code::SEI, AddressMode::Implied, 1, 2, false)),
        0x90u8 => Some(entry(Code::BCC, AddressMode::Relative, 2, 2, true)),
        0xb0u8 => Some(entry(Code::BCS, AddressMode::Relative, 2, 2, true)),
        0xf0u8 => Some(entry(Code::BEQ, AddressMode::Relative, 2, 2, true)),
        0x30u8 => Some(entry(Code::BMI, AddressMode::Relative, 2, 2, true)),
        0xd0u8 => Some(entry(Code::BNE, AddressMode::Relative, 2, 2, true)),
        0x10u8 => Some(entry(Code::BPL, AddressMode::Relative, 2, 2, true)),
        0x50u8 => Some(entry(Code::BVC, AddressMode::Relative, 2, 2, true)),
        0x70u8 => Some(entry(Code::BVS, AddressMode::Relative, 2, 2, true)),
        0x0au8 => Some(entry(Code::ASL, AddressMode::Accumulator, 1, 2, false)),
        0x06u8 => Some(entry(Code::ASL, AddressMode::ZeroPage, 2, 5, false)),
        0x16u8 => Some(entry(Code::ASL, AddressMode::ZeroPageX, 2, 6, false)),
        0x0eu8 => Some(entry(Code::ASL, AddressMode::Absolute, 3, 6, false)),
        0x1eu8 => Some(entry(Code::ASL, AddressMode::AbsoluteX, 3, 7, false)),
        0x4au8 => Some(entry(Code::LSR, AddressMode::Accumulator, 1, 2, false)),
        0x46u8 => Some(entry(Code::LSR, AddressMode::ZeroPage, 2, 5, false)),
        0x56u8 => Some(entry(Code::LSR, AddressMode::ZeroPageX, 2, 6, false)),
        0x4eu8 => Some(entry(Code::LSR, AddressMode::Absolute, 3, 6, false)),
        0x5eu8 => Some(entry(Code::LSR, AddressMode::AbsoluteX, 3, 7, false)),
        0x2au8 => Some(entry(Code::ROL, AddressMode::Accumulator, 1, 2, false)),
        0x26u8 => Some(entry(Code::ROL, AddressMode::ZeroPage, 2, 5, false)),
        0x36u8 => Some(entry(Code::ROL, AddressMode::ZeroPageX, 2, 6, false)),
        0x2eu8 => Some(entry(Code::ROL, AddressMode::Absolute, 3, 6, false)),
        0x3eu8 => Some(entry(Code::ROL, AddressMode::AbsoluteX, 3, 7, false)),
        0x6au8 => Some(entry(Code::ROR, AddressMode::Accumulator, 1, 2, false)),
        0x66u8 => Some(entry(Code::ROR, AddressMode::ZeroPage, 2, 5, false)),
        0x76u8 => Some(entry(Code::ROR, AddressMode::ZeroPageX, 2, 6, false)),
        0x6eu8 => Some(entry(Code::ROR, AddressMode::Absolute, 3, 6, false)),
        0x7eu8 => Some(entry(Code::ROR, AddressMode::AbsoluteX, 3, 7, false)),
        0xbau8 => Some(entry(Code::TSX, AddressMode::Implied, 1, 2, false)),
        0x9au8 => Some(entry(Code::TXS, AddressMode::Implied, 1, 2, false)),
        0x48u8 => Some(entry(Code::PHA, AddressMode::Implied, 1, 3, false)),
        0x68u8 => Some(entry(Code::PLA, AddressMode::Implied, 1, 4, false)),
        0x08u8 => Some(entry(Code::PHP, AddressMode::Implied, 1, 3, false)),
        0x28u8 => Some(entry(Code::PLP, AddressMode::Implied, 1, 4, false)),
        0x20u8 => Some(entry(Code::JSR, AddressMode::Absolute, 3, 6, false)),
        0x60u8 => Some(entry(Code::RTS, AddressMode::Implied, 1, 6, false)),
        0xc9u8 => Some(entry(Code::CMP, AddressMode::Immediate, 2, 2, false)),
        0xc5u8 => Some(entry(Code::CMP, AddressMode::ZeroPage, 2, 3, false)),
        0xd5u8 => Some(entry(Code::CMP, AddressMode::ZeroPageX, 2, 4, false)),
        0xcdu8 => Some(entry(Code::CMP, AddressMode::Absolute, 3, 4, false)),
        0xddu8 => Some(entry(Code::CMP, AddressMode::AbsoluteX, 3, 4, true)),
        0xd9u8 => Some(entry(Code::CMP, AddressMode::AbsoluteY, 3, 4, true)),
        0xc1u8 => Some(entry(Code::CMP, AddressMode::IndirectX, 2, 6, false)),
        0xd1u8 => Some(entry(Code::CMP, AddressMode::IndirectY, 2, 5, true)),
        0xe0u8 => Some(entry(Code::CPX, AddressMode::Immediate, 2, 2, false)),
        0xe4u8 => Some(entry(Code::CPX, AddressMode::ZeroPage, 2, 3, false)),
        0xecu8 => Some(entry(Code::CPX, AddressMode::Absolute, 3, 4, false)),
        0xc0u8 => Some(entry(Code::CPY, AddressMode::Immediate, 2, 2, false)),
        0xc4u8 => Some(entry(Code::CPY, AddressMode::ZeroPage, 2, 3, false)),
        0xccu8 => Some(entry(Code::CPY, AddressMode::Absolute, 3, 4, false)),
        0x4cu8 => Some(entry(Code::JMP, AddressMode::Absolute, 3, 3, false)),
        0x6cu8 => Some(entry(Code::JMP, AddressMode::Indirect, 3, 5, false)),
        0x69u8 => Some(entry(Code::ADC, AddressMode::Immediate, 2, 2, false)),
        0x65u8 => Some(entry(Code::ADC, AddressMode::ZeroPage, 2, 3, false)),
        0x75u8 => Some(entry(Code::ADC, AddressMode::ZeroPageX, 2, 4, false)),
        0x6du8 => Some(entry(Code::ADC, AddressMode::Absolute, 3, 4, false)),
        0x7du8 => Some(entry(Code::ADC, AddressMode::AbsoluteX, 3, 4, true)),
        0x79u8 => Some(entry(Code::ADC, AddressMode::AbsoluteY, 3, 4, true)),
        0x61u8 => Some(entry(Code::ADC, AddressMode::IndirectX, 2, 6, false)),
        0x71u8 => Some(entry(Code::ADC, AddressMode::IndirectY, 2, 5, true)),
        0xe9u8 => Some(entry(Code::SBC, AddressMode::Immediate, 2, 2, false)),
        0xe5u8 => Some(entry(Code::SBC, AddressMode::ZeroPage, 2, 3, false)),
        0xf5u8 => Some(entry(Code::SBC, AddressMode::ZeroPageX, 2, 4, false)),
        0xedu8 => Some(entry(Code::SBC, AddressMode::Absolute, 3, 4, false)),
        0xfdu8 => Some(entry(Code::SBC, AddressMode::AbsoluteX, 3, 4, true)),
        0xf9u8 => Some(entry(Code::SBC, AddressMode::AbsoluteY, 3, 4, true)),
        0xe1u8 => Some(entry(Code::SBC, AddressMode::IndirectX, 2, 6, false)),
        0xf1u8 => Some(entry(Code::SBC, AddressMode::IndirectY, 2, 5, true)),
        0x40u8 => Some(entry(Code::RTI, AddressMode::Implied, 1, 6, false)),
        0x00u8 => Some(entry(Code::BRK, AddressMode::Implied, 1, 7, false)),
        0xeau8 => Some(entry(Code::NOP, AddressMode::Implied, 1, 2, false)),
        _ => None,
    }
}

/// Decodes an opcode byte.
pub fn decode(op: u8) -> (r: Option<OpDescription>)
    ensures
        r == opcode_entry(op),
{
    match op {
        0xa9u8 => Some(describe(Code::LDA, AddressMode::Immediate, 2, 2, false)),
        0xa5u8 => Some(describe(Code::LDA, AddressMode::ZeroPage, 2, 3, false)),
        0xb5u8 => Some(describe(Code::LDA, AddressMode::ZeroPageX, 2, 4, false)),
        0xadu8 => Some(describe(Code::LDA, AddressMode::Absolute, 3, 4, false)),
        0xbdu8 => Some(describe(Code::LDA, AddressMode::AbsoluteX, 3, 4, true)),
        0xb9u8 => Some(describe(Code::LDA, AddressMode::AbsoluteY, 3, 4, true)),
        0xa1u8 => Some(describe(Code::LDA, AddressMode::IndirectX, 2, 6, false)),
        0xb1u8 => Some(describe(Code::LDA, AddressMode::IndirectY, 2, 5, true)),
        0xa2u8 => Some(describe(Code::LDX, AddressMode::Immediate, 2, 2, false)),
        0xa6u8 => Some(describe(Code::LDX, AddressMode::ZeroPage, 2, 3, false)),
        0xb6u8 => Some(describe(Code::LDX, AddressMode::ZeroPageY, 2, 4, false)),
        0xaeu8 => Some(describe(Code::LDX, AddressMode::Absolute, 3, 4, false)),
        0xbeu8 => Some(describe(Code::LDX, AddressMode::AbsoluteY, 3, 4, true)),
        0xa0u8 => Some(describe(Code::LDY, AddressMode::Immediate, 2, 2, false)),
        0xa4u8 => Some(describe(Code::LDY, AddressMode::ZeroPage, 2, 3, false)),
        0xb4u8 => Some(describe(Code::LDY, AddressMode::ZeroPageX, 2, 4, false)),
        0xacu8 => Some(describe(Code::LDY, AddressMode::Absolute, 3, 4, false)),
        0xbcu8 => Some(describe(Code::LDY, AddressMode::AbsoluteX, 3, 4, true)),
        0x85u8 => Some(describe(Code::STA, AddressMode::ZeroPage, 2, 3, false)),
        0x95u8 => Some(describe(Code::STA, AddressMode::ZeroPageX, 2, 4, false)),
        0x8du8 => Some(describe(Code::STA, AddressMode::Absolute, 3, 4, false)),
        0x9du8 => Some(describe(Code::STA, AddressMode::AbsoluteX, 3, 5, false)),
        0x99u8 => Some(describe(Code::STA, AddressMode::AbsoluteY, 3, 5, false)),
        0x81u8 => Some(describe(Code::STA, AddressMode::IndirectX, 2, 6, false)),
        0x91u8 => Some(describe(Code::STA, AddressMode::IndirectY, 2, 6, false)),
        0x86u8 => Some(describe(Code::STX, AddressMode::ZeroPage, 2, 3, false)),
        0x96u8 => Some(describe(Code::STX, AddressMode::ZeroPageY, 2, 4, false)),
        0x8eu8 => Some(describe(Code::STX, AddressMode::Absolute, 3, 4, false)),
        0x84u8 => Some(describe(Code::STY, AddressMode::ZeroPage, 2, 3, false)),
        0x94u8 => Some(describe(Code::STY, AddressMode::ZeroPageX, 2, 4, false)),
        0x8cu8 => Some(describe(Code::STY, AddressMode::Absolute, 3, 4, false)),
        0xaau8 => Some(describe(Code::TAX, AddressMode::Implied, 1, 2, false)),
        0x8au8 => Some(describe(Code::TXA, AddressMode::Implied, 1, 2, false)),
        0xa8u8 => Some(describe(Code::TAY, AddressMode::Implied, 1, 2, false)),
        0x98u8 => Some(describe(Code::TYA, AddressMode::Implied, 1, 2, false)),
        0xe6u8 => Some(describe(Code::INC, AddressMode::ZeroPage, 2, 5, false)),
        0xf6u8 => Some(describe(Code::INC, AddressMode::ZeroPageX, 2, 6, false)),
        0xeeu8 => Some(describe(Code::INC, AddressMode::Absolute, 3, 6, false)),
        0xfeu8 => Some(describe(Code::INC, AddressMode::AbsoluteX, 3, 7, false)),
        0xc6u8 => Some(describe(Code::DEC, AddressMode::ZeroPage, 2, 5, false)),
        0xd6u8 => Some(describe(Code::DEC, AddressMode::ZeroPageX, 2, 6, false)),
        0xceu8 => Some(describe(Code::DEC, AddressMode::Absolute, 3, 6, false)),
        0xdeu8 => Some(describe(Code::DEC, AddressMode::AbsoluteX, 3, 7, false)),
        0xe8u8 => Some(describe(Code::INX, AddressMode::Implied, 1, 2, false)),
        0xc8u8 => Some(describe(Code::INY, AddressMode::Implied, 1, 2, false)),
        0xcau8 => Some(describe(Code::DEX, AddressMode::Implied, 1, 2, false)),
        0x88u8 => Some(describe(Code::DEY, AddressMode::Implied, 1, 2, false)),
        0x29u8 => Some(describe(Code::AND, AddressMode::Immediate, 2, 2, false)),
        0x25u8 => Some(describe(Code::AND, AddressMode::ZeroPage, 2, 3, false)),
        0x35u8 => Some(describe(Code::AND, AddressMode::ZeroPageX, 2, 4, false)),
        0x2du8 => Some(describe(Code::AND, AddressMode::Absolute, 3, 4, false)),
        0x3du8 => Some(describe(Code::AND, AddressMode::AbsoluteX, 3, 4, true)),
        0x39u8 => Some(describe(Code::AND, AddressMode::AbsoluteY, 3, 4, true)),
        0x21u8 => Some(describe(Code::AND, AddressMode::IndirectX, 2, 6, false)),
        0x31u8 => Some(describe(Code::AND, AddressMode::IndirectY, 2, 5, true)),
        0x49u8 => Some(describe(Code::EOR, AddressMode::Immediate, 2, 2, false)),
        0x45u8 => Some(describe(Code::EOR, AddressMode::ZeroPage, 2, 3, false)),
        0x55u8 => Some(describe(Code::EOR, AddressMode::ZeroPageX, 2, 4, false)),
        0x4du8 => Some(describe(Code::EOR, AddressMode::Absolute, 3, 4, false)),
        0x5du8 => Some(describe(Code::EOR, AddressMode::AbsoluteX, 3, 4, true)),
        0x59u8 => Some(describe(Code::EOR, AddressMode::AbsoluteY, 3, 4, true)),
        0x41u8 => Some(describe(Code::EOR, AddressMode::IndirectX, 2, 6, false)),
        0x51u8 => Some(describe(Code::EOR, AddressMode::IndirectY, 2, 5, true)),
        0x09u8 => Some(describe(Code::ORA, AddressMode::Immediate, 2, 2, false)),
        0x05u8 => Some(describe(Code::ORA, AddressMode::ZeroPage, 2, 3, false)),
        0x15u8 => Some(describe(Code::ORA, AddressMode::ZeroPageX, 2, 4, false)),
        0x0du8 => Some(describe(Code::ORA, AddressMode::Absolute, 3, 4, false)),
        0x1du8 => Some(describe(Code::ORA, AddressMode::AbsoluteX, 3, 4, true)),
        0x19u8 => Some(describe(Code::ORA, AddressMode::AbsoluteY, 3, 4, true)),
        0x01u8 => Some(describe(Code::ORA, AddressMode::IndirectX, 2, 6, false)),
        0x11u8 => Some(describe(Code::ORA, AddressMode::IndirectY, 2, 5, true)),
        0x24u8 => Some(describe(Code::BIT, AddressMode::ZeroPage, 2, 3, false)),
        0x2cu8 => Some(describe(Code::BIT, AddressMode::Absolute, 3, 4, false)),
        0x18u8 => Some(describe(Code::CLC, AddressMode::Implied, 1, 2, false)),
        0xd8u8 => Some(describe(Code::CLD, AddressMode::Implied, 1, 2, false)),
        0x58u8 => Some(describe(Code::CLI, AddressMode::Implied, 1, 2, false)),
        0xb8u8 => Some(describe(Code::CLV, AddressMode::Implied, 1, 2, false)),
        0x38u8 => Some(describe(Code::SEC, AddressMode::Implied, 1, 2, false)),
        0xf8u8 => Some(describe(Code::SED, AddressMode::Implied, 1, 2, false)),
        0x78u8 => Some(describe(Code::SEI, AddressMode::Implied, 1, 2, false)),
        0x90u8 => Some(describe(Code::BCC, AddressMode::Relative, 2, 2, true)),
        0xb0u8 => Some(describe(Code::BCS, AddressMode::Relative, 2, 2, true)),
        0xf0u8 => Some(describe(Code::BEQ, AddressMode::Relative, 2, 2, true)),
        0x30u8 => Some(describe(Code::BMI, AddressMode::Relative, 2, 2, true)),
        0xd0u8 => Some(describe(Code::BNE, AddressMode::Relative, 2, 2, true)),
        0x10u8 => Some(describe(Code::BPL, AddressMode::Relative, 2, 2, true)),
        0x50u8 => Some(describe(Code::BVC, AddressMode::Relative, 2, 2, true)),
        0x70u8 => Some(describe(Code::BVS, AddressMode::Relative, 2, 2, true)),
        0x0au8 => Some(describe(Code::ASL, AddressMode::Accumulator, 1, 2, false)),
        0x06u8 => Some(describe(Code::ASL, AddressMode::ZeroPage, 2, 5, false)),
        0x16u8 => Some(describe(Code::ASL, AddressMode::ZeroPageX, 2, 6, false)),
        0x0eu8 => Some(describe(Code::ASL, AddressMode::Absolute, 3, 6, false)),
        0x1eu8 => Some(describe(Code::ASL, AddressMode::AbsoluteX, 3, 7, false)),
        0x4au8 => Some(describe(Code::LSR, AddressMode::Accumulator, 1, 2, false)),
        0x46u8 => Some(describe(Code::LSR, AddressMode::ZeroPage, 2, 5, false)),
        0x56u8 => Some(describe(Code::LSR, AddressMode::ZeroPageX, 2, 6, false)),
        0x4eu8 => Some(describe(Code::LSR, AddressMode::Absolute, 3, 6, false)),
        0x5eu8 => Some(describe(Code::LSR, AddressMode::AbsoluteX, 3, 7, false)),
        0x2au8 => Some(describe(Code::ROL, AddressMode::Accumulator, 1, 2, false)),
        0x26u8 => Some(describe(Code::ROL, AddressMode::ZeroPage, 2, 5, false)),
        0x36u8 => Some(describe(Code::ROL, AddressMode::ZeroPageX, 2, 6, false)),
        0x2eu8 => Some(describe(Code::ROL, AddressMode::Absolute, 3, 6, false)),
        0x3eu8 => Some(describe(Code::ROL, AddressMode::AbsoluteX, 3, 7, false)),
        0x6au8 => Some(describe(Code::ROR, AddressMode::Accumulator, 1, 2, false)),
        0x66u8 => Some(describe(Code::ROR, AddressMode::ZeroPage, 2, 5, false)),
        0x76u8 => Some(describe(Code::ROR, AddressMode::ZeroPageX, 2, 6, false)),
        0x6eu8 => Some(describe(Code::ROR, AddressMode::Absolute, 3, 6, false)),
        0x7eu8 => Some(describe(Code::ROR, AddressMode::AbsoluteX, 3, 7, false)),
        0xbau8 => Some(describe(Code::TSX, AddressMode::Implied, 1, 2, false)),
        0x9au8 => Some(describe(Code::TXS, AddressMode::Implied, 1, 2, false)),
        0x48u8 => Some(describe(Code::PHA, AddressMode::Implied, 1, 3, false)),
        0x68u8 => Some(describe(Code::PLA, AddressMode::Implied, 1, 4, false)),
        0x08u8 => Some(describe(Code::PHP, AddressMode::Implied, 1, 3, false)),
        0x28u8 => Some(describe(Code::PLP, AddressMode::Implied, 1, 4, false)),
        0x20u8 => Some(describe(Code::JSR, AddressMode::Absolute, 3, 6, false)),
        0x60u8 => Some(describe(Code::RTS, AddressMode::Implied, 1, 6, false)),
        0xc9u8 => Some(describe(Code::CMP, AddressMode::Immediate, 2, 2, false)),
        0xc5u8 => Some(describe(Code::CMP, AddressMode::ZeroPage, 2, 3, false)),
        0xd5u8 => Some(describe(Code::CMP, AddressMode::ZeroPageX, 2, 4, false)),
        0xcdu8 => Some(describe(Code::CMP, AddressMode::Absolute, 3, 4, false)),
        0xddu8 => Some(describe(Code::CMP, AddressMode::AbsoluteX, 3, 4, true)),
        0xd9u8 => Some(describe(Code::CMP, AddressMode::AbsoluteY, 3, 4, true)),
        0xc1u8 => Some(describe(Code::CMP, AddressMode::IndirectX, 2, 6, false)),
        0xd1u8 => Some(describe(Code::CMP, AddressMode::IndirectY, 2, 5, true)),
        0xe0u8 => Some(describe(Code::CPX, AddressMode::Immediate, 2, 2, false)),
        0xe4u8 => Some(describe(Code::CPX, AddressMode::ZeroPage, 2, 3, false)),
        0xecu8 => Some(describe(Code::CPX, AddressMode::Absolute, 3, 4, false)),
        0xc0u8 => Some(describe(Code::CPY, AddressMode::Immediate, 2, 2, false)),
        0xc4u8 => Some(describe(Code::CPY, AddressMode::ZeroPage, 2, 3, false)),
        0xccu8 => Some(describe(Code::CPY, AddressMode::Absolute, 3, 4, false)),
        0x4cu8 => Some(describe(Code::JMP, AddressMode::Absolute, 3, 3, false)),
        0x6cu8 => Some(describe(Code::JMP, AddressMode::Indirect, 3, 5, false)),
        0x69u8 => Some(describe(Code::ADC, AddressMode::Immediate, 2, 2, false)),
        0x65u8 => Some(describe(Code::ADC, AddressMode::ZeroPage, 2, 3, false)),
        0x75u8 => Some(describe(Code::ADC, AddressMode::ZeroPageX, 2, 4, false)),
        0x6du8 => Some(describe(Code::ADC, AddressMode::Absolute, 3, 4, false)),
        0x7du8 => Some(describe(Code::ADC, AddressMode::AbsoluteX, 3, 4, true)),
        0x79u8 => Some(describe(Code::ADC, AddressMode::AbsoluteY, 3, 4, true)),
        0x61u8 => Some(describe(Code::ADC, AddressMode::IndirectX, 2, 6, false)),
        0x71u8 => Some(describe(Code::ADC, AddressMode::IndirectY, 2, 5, true)),
        0xe9u8 => Some(describe(Code::SBC, AddressMode::Immediate, 2, 2, false)),
        0xe5u8 => Some(describe(Code::SBC, AddressMode::ZeroPage, 2, 3, false)),
        0xf5u8 => Some(describe(Code::SBC, AddressMode::ZeroPageX, 2, 4, false)),
        0xedu8 => Some(describe(Code::SBC, AddressMode::Absolute, 3, 4, false)),
        0xfdu8 => Some(describe(Code::SBC, AddressMode::AbsoluteX, 3, 4, true)),
        0xf9u8 => Some(describe(Code::SBC, AddressMode::AbsoluteY, 3, 4, true)),
        0xe1u8 => Some(describe(Code::SBC, AddressMode::IndirectX, 2, 6, false)),
        0xf1u8 => Some(describe(Code::SBC, AddressMode::IndirectY, 2, 5, true)),
        0x40u8 => Some(describe(Code::RTI, AddressMode::Implied, 1, 6, false)),
        0x00u8 => Some(describe(Code::BRK, AddressMode::Implied, 1, 7, false)),
        0xeau8 => Some(describe(Code::NOP, AddressMode::Implied, 1, 2, false)),
        _ => None,
    }
}

/// Every assigned opcode is one to three bytes long and takes two to seven base cycles.
pub proof fn lemma_descriptor_ranges(op: u8)
    ensures
        opcode_entry(op) matches Some(d) ==> 1 <= d.instruction_bytes <= 3 && 2 <= d.cycles <= 7,
{
}

} // verus!
