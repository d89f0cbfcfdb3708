use vstd::prelude::*;

verus! {

/// The mnemonics of the W65C02S instruction set.
#[derive(Debug, Copy, Clone, PartialEq, Eq, Structural, Hash)]
pub enum Opcode {
    ADC,
    AND,
    ASL,
    BBR0,
    BBR1,
    BBR2,
    BBR3,
    BBR4,
    BBR5,
    BBR6,
    BBR7,
    BBS0,
    BBS1,
    BBS2,
    BBS3,
    BBS4,
    BBS5,
    BBS6,
    BBS7,
    BCC,
    BCS,
    BEQ,
    BIT,
    BMI,
    BNE,
    BPL,
    BRA,
    BRK,
    BVC,
    BVS,
    CLC,
    CLD,
    CLI,
    CLV,
    CMP,
    CPX,
    CPY,
    DEC,
    DEX,
    DEY,
    EOR,
    INC,
    INX,
    INY,
    JMP,
    JSR,
    LDA,
    LDX,
    LDY,
    LSR,
    NOP,
    ORA,
    PHA,
    PHP,
    PHX,
    PHY,
    PLA,
    PLP,
    PLX,
    PLY,
    RMB0,
    RMB1,
    RMB2,
    RMB3,
    RMB4,
    RMB5,
    RMB6,
    RMB7,
    ROL,
    ROR,
    RTI,
    RTS,
    SBC,
    SEC,
    SED,
    SEI,
    SMB0,
    SMB1,
    SMB2,
    SMB3,
    SMB4,
    SMB5,
    SMB6,
    SMB7,
    STA,
    STP,
    STX,
    STY,
    STZ,
    TAX,
    TAY,
    TRB,
    TSB,
    TSX,
    TXA,
    TXS,
    TYA,
    WAI,
}

/// How an instruction finds its operand.
#[derive(Debug, Copy, Clone, PartialEq, Eq, Structural, Hash)]
pub enum AddressingMode {
    /// i (Implied), s (Stack): no operand bytes
    Implied,
    /// A
    Accumulator,
    /// \#
    Immediate,
    /// a
    Absolute,
    /// a,x
    AbsoluteIndexedX,
    /// a,y
    AbsoluteIndexedY,
    /// (a)
    AbsoluteIndirect,
    /// (a,x)
    AbsoluteIndexedIndirectX,
    /// r
    ProgramCounterRelative,
    /// zp
    ZeroPage,
    /// zp,x
    ZeroPageIndexedX,
    /// zp,y
    ZeroPageIndexedY,
    /// (zp)
    ZeroPageIndirect,
    /// (zp,x)
    ZeroPageIndexedIndirectX,
    /// (zp),y
    ZeroPageIndirectIndexedY,
}

impl AddressingMode {
    /// Number of operand bytes that follow the opcode byte for this mode.
    pub open spec fn spec_width(&self) -> u16 {
        match self {
            AddressingMode::Implied | AddressingMode::Accumulator => 0,
            AddressingMode::Absolute
            | AddressingMode::AbsoluteIndexedX
            | AddressingMode::AbsoluteIndexedY
            | AddressingMode::AbsoluteIndirect
            | AddressingMode::AbsoluteIndexedIndirectX => 2,
            _ => 1,
        }
    }

    /// True for the five modes whose operand is a 16-bit address.
    pub open spec fn is_absolute_family(&self) -> bool {
        self.spec_width() == 2
    }

    #[verifier::when_used_as_spec(spec_width)]
    pub fn width(&self) -> (w: u16)
        ensures
            w == self.spec_width(),
    {
        match self {
            AddressingMode::Implied | AddressingMode::Accumulator => 0,
            AddressingMode::Immediate
            | AddressingMode::ProgramCounterRelative
            | AddressingMode::ZeroPage
            | AddressingMode::ZeroPageIndexedX
            | AddressingMode::ZeroPageIndexedY
            | AddressingMode::ZeroPageIndirect
            | AddressingMode::ZeroPageIndexedIndirectX
            | AddressingMode::ZeroPageIndirectIndexedY => 1,
            AddressingMode::Absolute
            | AddressingMode::AbsoluteIndexedX
            | AddressingMode::AbsoluteIndexedY
            | AddressingMode::AbsoluteIndirect
            | AddressingMode::AbsoluteIndexedIndirectX => 2,
        }
    }
}

/// One row of the opcode catalogue.
#[derive(Debug, Copy, Clone, PartialEq, Eq, Structural, Hash)]
pub struct InstructionMeta {
    /// the encoded opcode byte
    pub byte: u8,
    /// the mnemonic
    pub opcode: Opcode,
    /// mode of the first operand
    pub parameter_1: AddressingMode,
    /// mode of the second operand, used by the bit-branch instructions only
    pub parameter_2: AddressingMode,
    /// base cycle count, without page-cross or branch penalties
    pub cycles: u8,
}

impl InstructionMeta {
    pub open spec fn spec_parameter_width(&self) -> u16 {
        (self.parameter_1.spec_width() + self.parameter_2.spec_width()) as u16
    }

    pub open spec fn spec_width(&self) -> u16 {
        (1 + self.spec_parameter_width()) as u16
    }

    /// Number of operand bytes of the instruction.
    #[verifier::when_used_as_spec(spec_parameter_width)]
    pub fn parameter_width(&self) -> (w: u16)
        ensures
            w == self.spec_parameter_width(),
            w <= 4,
    {
        self.parameter_1.width() + self.parameter_2.width()
    }

    /// Length of the encoded instruction in bytes, the opcode byte included.
    #[verifier::when_used_as_spec(spec_width)]
    pub fn width(&self) -> (w: u16)
        ensures
            w == self.spec_width(),
            w == 1 + self.parameter_1.spec_width() + self.parameter_2.spec_width(),
            1 <= w <= 5,
    {
        1 + self.parameter_width()
    }
}

/// A catalogue row, written out.
pub open spec fn entry(
    byte: u8,
    opcode: Opcode,
    parameter_1: AddressingMode,
    parameter_2: AddressingMode,
    cycles: u8,
) -> InstructionMeta {
    InstructionMeta { byte, opcode, parameter_1, parameter_2, cycles }
}

impl Opcode {
    /// Row for an instruction without operands.
    pub fn insn0(self, opcode: u8, cycles: u8) -> (meta: InstructionMeta)
        ensures
            meta == entry(opcode, self, AddressingMode::Implied, AddressingMode::Implied, cycles),
    {
        InstructionMeta {
            byte: opcode,
            opcode: self,
            parameter_1: AddressingMode::Implied,
            parameter_2: AddressingMode::Implied,
            cycles,
        }
    }

    /// Row for an instruction with one operand.
    pub fn insn1(self, opcode: u8, parameter_1: AddressingMode, cycles: u8) -> (meta:
        InstructionMeta)
        ensures
            meta == entry(opcode, self, parameter_1, AddressingMode::Implied, cycles),
    {
        InstructionMeta {
            byte: opcode,
            opcode: self,
            parameter_1,
            parameter_2: AddressingMode::Implied,
            cycles,
        }
    }

    /// Row for an instruction with two operands.
    pub fn insn2(
        self,
        opcode: u8,
        parameter_1: AddressingMode,
        parameter_2: AddressingMode,
        cycles: u8,
    ) -> (meta: InstructionMeta)
        ensures
            meta == entry(opcode, self, parameter_1, parameter_2, cycles),
    {
        InstructionMeta { byte: opcode, opcode: self, parameter_1, parameter_2, cycles }
    }
}

/// The catalogue of documented opcodes, by opcode byte. A byte without a row
/// is undocumented.
pub open spec fn decode(byte: u8) -> Option<InstructionMeta> {
    match byte {
        0x00 => Some(entry(0x00, Opcode::BRK, AddressingMode::Immediate, AddressingMode::Implied, 7)),
        0x01 => Some(entry(0x01, Opcode::ORA, AddressingMode::ZeroPageIndexedIndirectX, AddressingMode::Implied, 6)),
        0x04 => Some(entry(0x04, Opcode::TSB, AddressingMode::ZeroPage, AddressingMode::Implied, 5)),
        0x05 => Some(entry(0x05, Opcode::ORA, AddressingMode::ZeroPage, AddressingMode::Implied, 3)),
        0x06 => Some(entry(0x06, Opcode::ASL, AddressingMode::ZeroPage, AddressingMode::Implied, 5)),
        0x07 => Some(entry(0x07, Opcode::RMB0, AddressingMode::ZeroPage, AddressingMode::Implied, 5)),
        0x08 => Some(entry(0x08, Opcode::PHP, AddressingMode::Implied, AddressingMode::Implied, 3)),
        0x09 => Some(entry(0x09, Opcode::ORA, AddressingMode::Immediate, AddressingMode::Implied, 2)),
        0x0A => Some(entry(0x0A, Opcode::ASL, AddressingMode::Accumulator, AddressingMode::Implied, 2)),
        0x0C => Some(entry(0x0C, Opcode::TSB, AddressingMode::Absolute, AddressingMode::Implied, 6)),
        0x0D => Some(entry(0x0D, Opcode::ORA, AddressingMode::Absolute, AddressingMode::Implied, 4)),
        0x0E => Some(entry(0x0E, Opcode::ASL, AddressingMode::Absolute, AddressingMode::Implied, 6)),
        0x0F => Some(entry(0x0F, Opcode::BBR0, AddressingMode::ZeroPage, AddressingMode::ProgramCounterRelative, 5)),
        0x10 => Some(entry(0x10, Opcode::BPL, AddressingMode::ProgramCounterRelative, AddressingMode::Implied, 2)),
        0x11 => Some(entry(0x11, Opcode::ORA, AddressingMode::ZeroPageIndirectIndexedY, AddressingMode::Implied, 5)),
        0x12 => Some(entry(0x12, Opcode::ORA, AddressingMode::ZeroPageIndirect, AddressingMode::Implied, 5)),
        0x14 => Some(entry(0x14, Opcode::TRB, AddressingMode::ZeroPage, AddressingMode::Implied, 5)),
        0x15 => Some(entry(0x15, Opcode::ORA, AddressingMode::ZeroPageIndexedX, AddressingMode::Implied, 4)),
        0x16 => Some(entry(0x16, Opcode::ASL, AddressingMode::ZeroPageIndexedX, AddressingMode::Implied, 6)),
        0x17 => Some(entry(0x17, Opcode::RMB1, AddressingMode::ZeroPage, AddressingMode::Implied, 5)),
        0x18 => Some(entry(0x18, Opcode::CLC, AddressingMode::Implied, AddressingMode::Implied, 2)),
        0x19 => Some(entry(0x19, Opcode::ORA, AddressingMode::AbsoluteIndexedY, AddressingMode::Implied, 4)),
        0x1A => Some(entry(0x1A, Opcode::INC, AddressingMode::Accumulator, AddressingMode::Implied, 2)),
        0x1C => Some(entry(0x1C, Opcode::TRB, AddressingMode::Absolute, AddressingMode::Implied, 6)),
        0x1D => Some(entry(0x1D, Opcode::ORA, AddressingMode::AbsoluteIndexedX, AddressingMode::Implied, 4)),
        0x1E => Some(entry(0x1E, Opcode::ASL, AddressingMode::AbsoluteIndexedX, AddressingMode::Implied, 6)),
        0x1F => Some(entry(0x1F, Opcode::BBR1, AddressingMode::ZeroPage, AddressingMode::ProgramCounterRelative, 5)),
        0x20 => Some(entry(0x20, Opcode::JSR, AddressingMode::Absolute, AddressingMode::Implied, 6)),
        0x21 => Some(entry(0x21, Opcode::AND, AddressingMode::ZeroPageIndexedIndirectX, AddressingMode::Implied, 6)),
        0x24 => Some(entry(0x24, Opcode::BIT, AddressingMode::ZeroPage, AddressingMode::Implied, 3)),
        0x25 => Some(entry(0x25, Opcode::AND, AddressingMode::ZeroPage, AddressingMode::Implied, 3)),
        0x26 => Some(entry(0x26, Opcode::ROL, AddressingMode::ZeroPage, AddressingMode::Implied, 5)),
        0x27 => Some(entry(0x27, Opcode::RMB2, AddressingMode::ZeroPage, AddressingMode::Implied, 5)),
        0x28 => Some(entry(0x28, Opcode::PLP, AddressingMode::Implied, AddressingMode::Implied, 4)),
        0x29 => Some(entry(0x29, Opcode::AND, AddressingMode::Immediate, AddressingMode::Implied, 2)),
        0x2A => Some(entry(0x2A, Opcode::ROL, AddressingMode::Accumulator, AddressingMode::Implied, 2)),
        0x2C => Some(entry(0x2C, Opcode::BIT, AddressingMode::Absolute, AddressingMode::Implied, 4)),
        0x2D => Some(entry(0x2D, Opcode::AND, AddressingMode::Absolute, AddressingMode::Implied, 4)),
        0x2E => Some(entry(0x2E, Opcode::ROL, AddressingMode::Absolute, AddressingMode::Implied, 6)),
        0x2F => Some(entry(0x2F, Opcode::BBR2, AddressingMode::ZeroPage, AddressingMode::ProgramCounterRelative, 5)),
        0x30 => Some(entry(0x30, Opcode::BMI, AddressingMode::ProgramCounterRelative, AddressingMode::Implied, 2)),
        0x31 => Some(entry(0x31, Opcode::AND, AddressingMode::ZeroPageIndirectIndexedY, AddressingMode::Implied, 5)),
        0x32 => Some(entry(0x32, Opcode::AND, AddressingMode::ZeroPageIndirect, AddressingMode::Implied, 5)),
        0x34 => Some(entry(0x34, Opcode::BIT, AddressingMode::ZeroPageIndexedX, AddressingMode::Implied, 4)),
        0x35 => Some(entry(0x35, Opcode::AND, AddressingMode::ZeroPageIndexedX, AddressingMode::Implied, 4)),
        0x36 => Some(entry(0x36, Opcode::ROL, AddressingMode::ZeroPageIndexedX, AddressingMode::Implied, 6)),
        0x37 => Some(entry(0x37, Opcode::RMB3, AddressingMode::ZeroPage, AddressingMode::Implied, 5)),
        0x38 => Some(entry(0x38, Opcode::SEC, AddressingMode::Implied, AddressingMode::Implied, 2)),
        0x39 => Some(entry(0x39, Opcode::AND, AddressingMode::AbsoluteIndexedY, AddressingMode::Implied, 4)),
        0x3A => Some(entry(0x3A, Opcode::DEC, AddressingMode::Accumulator, AddressingMode::Implied, 2)),
        0x3C => Some(entry(0x3C, Opcode::BIT, AddressingMode::AbsoluteIndexedX, AddressingMode::Implied, 4)),
        0x3D => Some(entry(0x3D, Opcode::AND, AddressingMode::AbsoluteIndexedX, AddressingMode::Implied, 4)),
        0x3E => Some(entry(0x3E, Opcode::ROL, AddressingMode::AbsoluteIndexedX, AddressingMode::Implied, 6)),
        0x3F => Some(entry(0x3F, Opcode::BBR3, AddressingMode::ZeroPage, AddressingMode::ProgramCounterRelative, 5)),
        0x40 => Some(entry(0x40, Opcode::RTI, AddressingMode::Implied, AddressingMode::Implied, 6)),
        0x41 => Some(entry(0x41, Opcode::EOR, AddressingMode::ZeroPageIndexedIndirectX, AddressingMode::Implied, 6)),
        0x45 => Some(entry(0x45, Opcode::EOR, AddressingMode::ZeroPage, AddressingMode::Implied, 3)),
        0x46 => Some(entry(0x46, Opcode::LSR, AddressingMode::ZeroPage, AddressingMode::Implied, 5)),
        0x47 => Some(entry(0x47, Opcode::RMB4, AddressingMode::ZeroPage, AddressingMode::Implied, 5)),
        0x48 => Some(entry(0x48, Opcode::PHA, AddressingMode::Implied, AddressingMode::Implied, 3)),
        0x49 => Some(entry(0x49, Opcode::EOR, AddressingMode::Immediate, AddressingMode::Implied, 2)),
        0x4A => Some(entry(0x4A, Opcode::LSR, AddressingMode::Accumulator, AddressingMode::Implied, 2)),
        0x4C => Some(entry(0x4C, Opcode::JMP, AddressingMode::Absolute, AddressingMode::Implied, 3)),
        0x4D => Some(entry(0x4D, Opcode::EOR, AddressingMode::Absolute, AddressingMode::Implied, 4)),
        0x4E => Some(entry(0x4E, Opcode::LSR, AddressingMode::Absolute, AddressingMode::Implied, 6)),
        0x4F => Some(entry(0x4F, Opcode::BBR4, AddressingMode::ZeroPage, AddressingMode::ProgramCounterRelative, 5)),
        0x50 => Some(entry(0x50, Opcode::BVC, AddressingMode::ProgramCounterRelative, AddressingMode::Implied, 2)),
        0x51 => Some(entry(0x51, Opcode::EOR, AddressingMode::ZeroPageIndirectIndexedY, AddressingMode::Implied, 5)),
        0x52 => Some(entry(0x52, Opcode::EOR, AddressingMode::ZeroPageIndirect, AddressingMode::Implied, 5)),
        0x55 => Some(entry(0x55, Opcode::EOR, AddressingMode::ZeroPageIndexedX, AddressingMode::Implied, 4)),
        0x56 => Some(entry(0x56, Opcode::LSR, AddressingMode::ZeroPageIndexedX, AddressingMode::Implied, 6)),
        0x57 => Some(entry(0x57, Opcode::RMB5, AddressingMode::ZeroPage, AddressingMode::Implied, 5)),
        0x58 => Some(entry(0x58, Opcode::CLI, AddressingMode::Implied, AddressingMode::Implied, 2)),
        0x59 => Some(entry(0x59, Opcode::EOR, AddressingMode::AbsoluteIndexedY, AddressingMode::Implied, 4)),
        0x5A => Some(entry(0x5A, Opcode::PHY, AddressingMode::Implied, AddressingMode::Implied, 3)),
        0x5D => Some(entry(0x5D, Opcode::EOR, AddressingMode::AbsoluteIndexedX, AddressingMode::Implied, 4)),
        0x5E => Some(entry(0x5E, Opcode::LSR, AddressingMode::AbsoluteIndexedX, AddressingMode::Implied, 6)),
        0x5F => Some(entry(0x5F, Opcode::BBR5, AddressingMode::ZeroPage, AddressingMode::ProgramCounterRelative, 5)),
        0x60 => Some(entry(0x60, Opcode::RTS, AddressingMode::Implied, AddressingMode::Implied, 6)),
        0x61 => Some(entry(0x61, Opcode::ADC, AddressingMode::ZeroPageIndexedIndirectX, AddressingMode::Implied, 6)),
        0x64 => Some(entry(0x64, Opcode::STZ, AddressingMode::ZeroPage, AddressingMode::Implied, 3)),
        0x65 => Some(entry(0x65, Opcode::ADC, AddressingMode::ZeroPage, AddressingMode::Implied, 3)),
        0x66 => Some(entry(0x66, Opcode::ROR, AddressingMode::ZeroPage, AddressingMode::Implied, 5)),
        0x67 => Some(entry(0x67, Opcode::RMB6, AddressingMode::ZeroPage, AddressingMode::Implied, 5)),
        0x68 => Some(entry(0x68, Opcode::PLA, AddressingMode::Implied, AddressingMode::Implied, 4)),
        0x69 => Some(entry(0x69, Opcode::ADC, AddressingMode::Immediate, AddressingMode::Implied, 2)),
        0x6A => Some(entry(0x6A, Opcode::ROR, AddressingMode::Accumulator, AddressingMode::Implied, 2)),
        0x6C => Some(entry(0x6C, Opcode::JMP, AddressingMode::AbsoluteIndirect, AddressingMode::Implied, 6)),
        0x6D => Some(entry(0x6D, Opcode::ADC, AddressingMode::Absolute, AddressingMode::Implied, 4)),
        0x6E => Some(entry(0x6E, Opcode::ROR, AddressingMode::Absolute, AddressingMode::Implied, 6)),
        0x6F => Some(entry(0x6F, Opcode::BBR6, AddressingMode::ZeroPage, AddressingMode::ProgramCounterRelative, 5)),
        0x70 => Some(entry(0x70, Opcode::BVS, AddressingMode::ProgramCounterRelative, AddressingMode::Implied, 2)),
        0x71 => Some(entry(0x71, Opcode::ADC, AddressingMode::ZeroPageIndirectIndexedY, AddressingMode::Implied, 5)),
        0x72 => Some(entry(0x72, Opcode::ADC, AddressingMode::ZeroPageIndirect, AddressingMode::Implied, 5)),
        0x74 => Some(entry(0x74, Opcode::STZ, AddressingMode::ZeroPageIndexedX, AddressingMode::Implied, 4)),
        0x75 => Some(entry(0x75, Opcode::ADC, AddressingMode::ZeroPageIndexedX, AddressingMode::Implied, 4)),
        0x76 => Some(entry(0x76, Opcode::ROR, AddressingMode::ZeroPageIndexedX, AddressingMode::Implied, 6)),
        0x77 => Some(entry(0x77, Opcode::RMB7, AddressingMode::ZeroPage, AddressingMode::Implied, 5)),
        0x78 => Some(entry(0x78, Opcode::SEI, AddressingMode::Implied, AddressingMode::Implied, 2)),
        0x79 => Some(entry(0x79, Opcode::ADC, AddressingMode::AbsoluteIndexedY, AddressingMode::Implied, 4)),
        0x7A => Some(entry(0x7A, Opcode::PLY, AddressingMode::Implied, AddressingMode::Implied, 4)),
        0x7C => Some(entry(0x7C, Opcode::JMP, AddressingMode::AbsoluteIndexedIndirectX, AddressingMode::Implied, 6)),
        0x7D => Some(entry(0x7D, Opcode::ADC, AddressingMode::AbsoluteIndexedX, AddressingMode::Implied, 4)),
        0x7E => Some(entry(0x7E, Opcode::ROR, AddressingMode::AbsoluteIndexedX, AddressingMode::Implied, 6)),
        0x7F => Some(entry(0x7F, Opcode::BBR7, AddressingMode::ZeroPage, AddressingMode::ProgramCounterRelative, 5)),
        0x80 => Some(entry(0x80, Opcode::BRA, AddressingMode::ProgramCounterRelative, AddressingMode::Implied, 2)),
        0x81 => Some(entry(0x81, Opcode::STA, AddressingMode::ZeroPageIndexedIndirectX, AddressingMode::Implied, 6)),
        0x84 => Some(entry(0x84, Opcode::STY, AddressingMode::ZeroPage, AddressingMode::Implied, 3)),
        0x85 => Some(entry(0x85, Opcode::STA, AddressingMode::ZeroPage, AddressingMode::Implied, 3)),
        0x86 => Some(entry(0x86, Opcode::STX, AddressingMode::ZeroPage, AddressingMode::Implied, 3)),
        0x87 => Some(entry(0x87, Opcode::SMB0, AddressingMode::ZeroPage, AddressingMode::Implied, 5)),
        0x88 => Some(entry(0x88, Opcode::DEY, AddressingMode::Implied, AddressingMode::Implied, 2)),
        0x89 => Some(entry(0x89, Opcode::BIT, AddressingMode::Immediate, AddressingMode::Implied, 2)),
        0x8A => Some(entry(0x8A, Opcode::TXA, AddressingMode::Implied, AddressingMode::Implied, 2)),
        0x8C => Some(entry(0x8C, Opcode::STY, AddressingMode::Absolute, AddressingMode::Implied, 4)),
        0x8D => Some(entry(0x8D, Opcode::STA, AddressingMode::Absolute, AddressingMode::Implied, 4)),
        0x8E => Some(entry(0x8E, Opcode::STX, AddressingMode::Absolute, AddressingMode::Implied, 4)),
        0x8F => Some(entry(0x8F, Opcode::BBS0, AddressingMode::ZeroPage, AddressingMode::ProgramCounterRelative, 5)),
        0x90 => Some(entry(0x90, Opcode::BCC, AddressingMode::ProgramCounterRelative, AddressingMode::Implied, 2)),
        0x91 => Some(entry(0x91, Opcode::STA, AddressingMode::ZeroPageIndirectIndexedY, AddressingMode::Implied, 6)),
        0x92 => Some(entry(0x92, Opcode::STA, AddressingMode::ZeroPageIndirect, AddressingMode::Implied, 5)),
        0x94 => Some(entry(0x94, Opcode::STY, AddressingMode::ZeroPageIndexedX, AddressingMode::Implied, 4)),
        0x95 => Some(entry(0x95, Opcode::STA, AddressingMode::ZeroPageIndexedX, AddressingMode::Implied, 4)),
        0x96 => Some(entry(0x96, Opcode::STX, AddressingMode::ZeroPageIndexedY, AddressingMode::Implied, 4)),
        0x97 => Some(entry(0x97, Opcode::SMB1, AddressingMode::ZeroPage, AddressingMode::Implied, 5)),
        0x98 => Some(entry(0x98, Opcode::TYA, AddressingMode::Implied, AddressingMode::Implied, 2)),
        0x99 => Some(entry(0x99, Opcode::STA, AddressingMode::AbsoluteIndexedY, AddressingMode::Implied, 5)),
        0x9A => Some(entry(0x9A, Opcode::TXS, AddressingMode::Implied, AddressingMode::Implied, 2)),
        0x9C => Some(entry(0x9C, Opcode::STZ, AddressingMode::Absolute, AddressingMode::Implied, 4)),
        0x9D => Some(entry(0x9D, Opcode::STA, AddressingMode::AbsoluteIndexedX, AddressingMode::Implied, 5)),
        0x9E => Some(entry(0x9E, Opcode::STZ, AddressingMode::AbsoluteIndexedX, AddressingMode::Implied, 5)),
        0x9F => Some(entry(0x9F, Opcode::BBS1, AddressingMode::ZeroPage, AddressingMode::ProgramCounterRelative, 5)),
        0xA0 => Some(entry(0xA0, Opcode::LDY, AddressingMode::Immediate, AddressingMode::Implied, 2)),
        0xA1 => Some(entry(0xA1, Opcode::LDA, AddressingMode::ZeroPageIndexedIndirectX, AddressingMode::Implied, 6)),
        0xA2 => Some(entry(0xA2, Opcode::LDX, AddressingMode::Immediate, AddressingMode::Implied, 2)),
        0xA4 => Some(entry(0xA4, Opcode::LDY, AddressingMode::ZeroPage, AddressingMode::Implied, 3)),
        0xA5 => Some(entry(0xA5, Opcode::LDA, AddressingMode::ZeroPage, AddressingMode::Implied, 3)),
        0xA6 => Some(entry(0xA6, Opcode::LDX, AddressingMode::ZeroPage, AddressingMode::Implied, 3)),
        0xA7 => Some(entry(0xA7, Opcode::SMB2, AddressingMode::ZeroPage, AddressingMode::Implied, 5)),
        0xA8 => Some(entry(0xA8, Opcode::TAY, AddressingMode::Implied, AddressingMode::Implied, 2)),
        0xA9 => Some(entry(0xA9, Opcode::LDA, AddressingMode::Immediate, AddressingMode::Implied, 2)),
        0xAA => Some(entry(0xAA, Opcode::TAX, AddressingMode::Implied, AddressingMode::Implied, 2)),
        0xAC => Some(entry(0xAC, Opcode::LDY, AddressingMode::Absolute, AddressingMode::Implied, 4)),
        0xAD => Some(entry(0xAD, Opcode::LDA, AddressingMode::Absolute, AddressingMode::Implied, 4)),
        0xAE => Some(entry(0xAE, Opcode::LDX, AddressingMode::Absolute, AddressingMode::Implied, 4)),
        0xAF => Some(entry(0xAF, Opcode::BBS2, AddressingMode::ZeroPage, AddressingMode::ProgramCounterRelative, 5)),
        0xB0 => Some(entry(0xB0, Opcode::BCS, AddressingMode::ProgramCounterRelative, AddressingMode::Implied, 2)),
        0xB1 => Some(entry(0xB1, Opcode::LDA, AddressingMode::ZeroPageIndirectIndexedY, AddressingMode::Implied, 5)),
        0xB2 => Some(entry(0xB2, Opcode::LDA, AddressingMode::ZeroPageIndirect, AddressingMode::Implied, 5)),
        0xB4 => Some(entry(0xB4, Opcode::LDY, AddressingMode::ZeroPageIndexedX, AddressingMode::Implied, 4)),
        0xB5 => Some(entry(0xB5, Opcode::LDA, AddressingMode::ZeroPageIndexedX, AddressingMode::Implied, 4)),
        0xB6 => Some(entry(0xB6, Opcode::LDX, AddressingMode::ZeroPageIndexedY, AddressingMode::Implied, 4)),
        0xB7 => Some(entry(0xB7, Opcode::SMB3, AddressingMode::ZeroPage, AddressingMode::Implied, 5)),
        0xB8 => Some(entry(0xB8, Opcode::CLV, AddressingMode::Implied, AddressingMode::Implied, 2)),
        0xB9 => Some(entry(0xB9, Opcode::LDA, AddressingMode::AbsoluteIndexedY, AddressingMode::Implied, 4)),
        0xBA => Some(entry(0xBA, Opcode::TSX, AddressingMode::Implied, AddressingMode::Implied, 2)),
        0xBC => Some(entry(0xBC, Opcode::LDY, AddressingMode::AbsoluteIndexedX, AddressingMode::Implied, 4)),
        0xBD => Some(entry(0xBD, Opcode::LDA, AddressingMode::AbsoluteIndexedX, AddressingMode::Implied, 4)),
        0xBE => Some(entry(0xBE, Opcode::LDX, AddressingMode::AbsoluteIndexedY, AddressingMode::Implied, 4)),
        0xBF => Some(entry(0xBF, Opcode::BBS3, AddressingMode::ZeroPage, AddressingMode::ProgramCounterRelative, 5)),
        0xC0 => Some(entry(0xC0, Opcode::CPY, AddressingMode::Immediate, AddressingMode::Implied, 2)),
        0xC1 => Some(entry(0xC1, Opcode::CMP, AddressingMode::ZeroPageIndexedIndirectX, AddressingMode::Implied, 6)),
        0xC4 => Some(entry(0xC4, Opcode::CPY, AddressingMode::ZeroPage, AddressingMode::Implied, 3)),
        0xC5 => Some(entry(0xC5, Opcode::CMP, AddressingMode::ZeroPage, AddressingMode::Implied, 3)),
        0xC6 => Some(entry(0xC6, Opcode::DEC, AddressingMode::ZeroPage, AddressingMode::Implied, 5)),
        0xC7 => Some(entry(0xC7, Opcode::SMB4, AddressingMode::ZeroPage, AddressingMode::Implied, 5)),
        0xC8 => Some(entry(0xC8, Opcode::INY, AddressingMode::Implied, AddressingMode::Implied, 2)),
        0xC9 => Some(entry(0xC9, Opcode::CMP, AddressingMode::Immediate, AddressingMode::Implied, 2)),
        0xCA => Some(entry(0xCA, Opcode::DEX, AddressingMode::Implied, AddressingMode::Implied, 2)),
        0xCB => Some(entry(0xCB, Opcode::WAI, AddressingMode::Implied, AddressingMode::Implied, 3)),
        0xCC => Some(entry(0xCC, Opcode::CPY, AddressingMode::Absolute, AddressingMode::Implied, 4)),
        0xCD => Some(entry(0xCD, Opcode::CMP, AddressingMode::Absolute, AddressingMode::Implied, 4)),
        0xCE => Some(entry(0xCE, Opcode::DEC, AddressingMode::Absolute, AddressingMode::Implied, 6)),
        0xCF => Some(entry(0xCF, Opcode::BBS4, AddressingMode::ZeroPage, AddressingMode::ProgramCounterRelative, 5)),
        0xD0 => Some(entry(0xD0, Opcode::BNE, AddressingMode::ProgramCounterRelative, AddressingMode::Implied, 2)),
        0xD1 => Some(entry(0xD1, Opcode::CMP, AddressingMode::ZeroPageIndirectIndexedY, AddressingMode::Implied, 5)),
        0xD2 => Some(entry(0xD2, Opcode::CMP, AddressingMode::ZeroPageIndirect, AddressingMode::Implied, 5)),
        0xD5 => Some(entry(0xD5, Opcode::CMP, AddressingMode::ZeroPageIndexedX, AddressingMode::Implied, 4)),
        0xD6 => Some(entry(0xD6, Opcode::DEC, AddressingMode::ZeroPageIndexedX, AddressingMode::Implied, 6)),
        0xD7 => Some(entry(0xD7, Opcode::SMB5, AddressingMode::ZeroPage, AddressingMode::Implied, 5)),
        0xD8 => Some(entry(0xD8, Opcode::CLD, AddressingMode::Implied, AddressingMode::Implied, 2)),
        0xD9 => Some(entry(0xD9, Opcode::CMP, AddressingMode::AbsoluteIndexedY, AddressingMode::Implied, 4)),
        0xDA => Some(entry(0xDA, Opcode::PHX, AddressingMode::Implied, AddressingMode::Implied, 3)),
        0xDB => Some(entry(0xDB, Opcode::STP, AddressingMode::Implied, AddressingMode::Implied, 3)),
        0xDD => Some(entry(0xDD, Opcode::CMP, AddressingMode::AbsoluteIndexedX, AddressingMode::Implied, 4)),
        0xDE => Some(entry(0xDE, Opcode::DEC, AddressingMode::AbsoluteIndexedX, AddressingMode::Implied, 7)),
        0xDF => Some(entry(0xDF, Opcode::BBS5, AddressingMode::ZeroPage, AddressingMode::ProgramCounterRelative, 5)),
        0xE0 => Some(entry(0xE0, Opcode::CPX, AddressingMode::Immediate, AddressingMode::Implied, 2)),
        0xE1 => Some(entry(0xE1, Opcode::SBC, AddressingMode::ZeroPageIndexedIndirectX, AddressingMode::Implied, 6)),
        0xE4 => Some(entry(0xE4, Opcode::CPX, AddressingMode::ZeroPage, AddressingMode::Implied, 3)),
        0xE5 => Some(entry(0xE5, Opcode::SBC, AddressingMode::ZeroPage, AddressingMode::Implied, 3)),
        0xE6 => Some(entry(0xE6, Opcode::INC, AddressingMode::ZeroPage, AddressingMode::Implied, 5)),
        0xE7 => Some(entry(0xE7, Opcode::SMB6, AddressingMode::ZeroPage, AddressingMode::Implied, 5)),
        0xE8 => Some(entry(0xE8, Opcode::INX, AddressingMode::Implied, AddressingMode::Implied, 2)),
        0xE9 => Some(entry(0xE9, Opcode::SBC, AddressingMode::Immediate, AddressingMode::Implied, 2)),
        0xEA => Some(entry(0xEA, Opcode::NOP, AddressingMode::Implied, AddressingMode::Implied, 2)),
        0xEC => Some(entry(0xEC, Opcode::CPX, AddressingMode::Absolute, AddressingMode::Implied, 4)),
        0xED => Some(entry(0xED, Opcode::SBC, AddressingMode::Absolute, AddressingMode::Implied, 4)),
        0xEE => Some(entry(0xEE, Opcode::INC, AddressingMode::Absolute, AddressingMode::Implied, 6)),
        0xEF => Some(entry(0xEF, Opcode::BBS6, AddressingMode::ZeroPage, AddressingMode::ProgramCounterRelative, 5)),
        0xF0 => Some(entry(0xF0, Opcode::BEQ, AddressingMode::ProgramCounterRelative, AddressingMode::Implied, 2)),
        0xF1 => Some(entry(0xF1, Opcode::SBC, AddressingMode::ZeroPageIndirectIndexedY, AddressingMode::Implied, 5)),
        0xF2 => Some(entry(0xF2, Opcode::SBC, AddressingMode::ZeroPageIndirect, AddressingMode::Implied, 5)),
        0xF5 => Some(entry(0xF5, Opcode::SBC, AddressingMode::ZeroPageIndexedX, AddressingMode::Implied, 4)),
        0xF6 => Some(entry(0xF6, Opcode::INC, AddressingMode::ZeroPageIndexedX, AddressingMode::Implied, 6)),
        0xF7 => Some(entry(0xF7, Opcode::SMB7, AddressingMode::ZeroPage, AddressingMode::Implied, 5)),
        0xF8 => Some(entry(0xF8, Opcode::SED, AddressingMode::Implied, AddressingMode::Implied, 2)),
        0xF9 => Some(entry(0xF9, Opcode::SBC, AddressingMode::AbsoluteIndexedY, AddressingMode::Implied, 4)),
        0xFA => Some(entry(0xFA, Opcode::PLX, AddressingMode::Implied, AddressingMode::Implied, 4)),
        0xFD => Some(entry(0xFD, Opcode::SBC, AddressingMode::AbsoluteIndexedX, AddressingMode::Implied, 4)),
        0xFE => Some(entry(0xFE, Opcode::INC, AddressingMode::AbsoluteIndexedX, AddressingMode::Implied, 7)),
        0xFF => Some(entry(0xFF, Opcode::BBS7, AddressingMode::ZeroPage, AddressingMode::ProgramCounterRelative, 5)),
        _ => None,
    }
}

/// The rows of `decode` with mnemonic `opcode` among the bytes below `limit`,
/// in ascending order of their bytes.
pub open spec fn encodings_below(opcode: Opcode, limit: int) -> Seq<InstructionMeta>
    decreases limit,
{
    if limit <= 0 {
        Seq::empty()
    } else {
        let rest = encodings_below(opcode, limit - 1);
        match decode((limit - 1) as u8) {
            Some(meta) => if meta.opcode == opcode {
                rest.push(meta)
            } else {
                rest
            },
            None => rest,
        }
    }
}

/// Every encoding of a mnemonic, in ascending order of the opcode bytes.
pub open spec fn encodings(opcode: Opcode) -> Seq<InstructionMeta> {
    encodings_below(opcode, 256)
}

/// Looks an opcode byte up in the catalogue.
pub fn get_instruction(opcode: u8) -> (meta: Option<InstructionMeta>)
    ensures
        meta == decode(opcode),
{
    match opcode {
        0x00 => Some(Opcode::BRK.insn1(0x00, AddressingMode::Immediate, 7)),
        0x01 => Some(Opcode::ORA.insn1(0x01, AddressingMode::ZeroPageIndexedIndirectX, 6)),
        0x04 => Some(Opcode::TSB.insn1(0x04, AddressingMode::ZeroPage, 5)),
        0x05 => Some(Opcode::ORA.insn1(0x05, AddressingMode::ZeroPage, 3)),
        0x06 => Some(Opcode::ASL.insn1(0x06, AddressingMode::ZeroPage, 5)),
        0x07 => Some(Opcode::RMB0.insn1(0x07, AddressingMode::ZeroPage, 5)),
        0x08 => Some(Opcode::PHP.insn0(0x08, 3)),
        0x09 => Some(Opcode::ORA.insn1(0x09, AddressingMode::Immediate, 2)),
        0x0A => Some(Opcode::ASL.insn1(0x0A, AddressingMode::Accumulator, 2)),
        0x0C => Some(Opcode::TSB.insn1(0x0C, AddressingMode::Absolute, 6)),
        0x0D => Some(Opcode::ORA.insn1(0x0D, AddressingMode::Absolute, 4)),
        0x0E => Some(Opcode::ASL.insn1(0x0E, AddressingMode::Absolute, 6)),
        0x0F => Some(Opcode::BBR0.insn2(0x0F, AddressingMode::ZeroPage, AddressingMode::ProgramCounterRelative, 5)),
        0x10 => Some(Opcode::BPL.insn1(0x10, AddressingMode::ProgramCounterRelative, 2)),
        0x11 => Some(Opcode::ORA.insn1(0x11, AddressingMode::ZeroPageIndirectIndexedY, 5)),
        0x12 => Some(Opcode::ORA.insn1(0x12, AddressingMode::ZeroPageIndirect, 5)),
        0x14 => Some(Opcode::TRB.insn1(0x14, AddressingMode::ZeroPage, 5)),
        0x15 => Some(Opcode::ORA.insn1(0x15, AddressingMode::ZeroPageIndexedX, 4)),
        0x16 => Some(Opcode::ASL.insn1(0x16, AddressingMode::ZeroPageIndexedX, 6)),
        0x17 => Some(Opcode::RMB1.insn1(0x17, AddressingMode::ZeroPage, 5)),
        0x18 => Some(Opcode::CLC.insn0(0x18, 2)),
        0x19 => Some(Opcode::ORA.insn1(0x19, AddressingMode::AbsoluteIndexedY, 4)),
        0x1A => Some(Opcode::INC.insn1(0x1A, AddressingMode::Accumulator, 2)),
        0x1C => Some(Opcode::TRB.insn1(0x1C, AddressingMode::Absolute, 6)),
        0x1D => Some(Opcode::ORA.insn1(0x1D, AddressingMode::AbsoluteIndexedX, 4)),
        0x1E => Some(Opcode::ASL.insn1(0x1E, AddressingMode::AbsoluteIndexedX, 6)),
        0x1F => Some(Opcode::BBR1.insn2(0x1F, AddressingMode::ZeroPage, AddressingMode::ProgramCounterRelative, 5)),
        0x20 => Some(Opcode::JSR.insn1(0x20, AddressingMode::Absolute, 6)),
        0x21 => Some(Opcode::AND.insn1(0x21, AddressingMode::ZeroPageIndexedIndirectX, 6)),
        0x24 => Some(Opcode::BIT.insn1(0x24, AddressingMode::ZeroPage, 3)),
        0x25 => Some(Opcode::AND.insn1(0x25, AddressingMode::ZeroPage, 3)),
        0x26 => Some(Opcode::ROL.insn1(0x26, AddressingMode::ZeroPage, 5)),
        0x27 => Some(Opcode::RMB2.insn1(0x27, AddressingMode::ZeroPage, 5)),
        0x28 => Some(Opcode::PLP.insn0(0x28, 4)),
        0x29 => Some(Opcode::AND.insn1(0x29, AddressingMode::Immediate, 2)),
        0x2A => Some(Opcode::ROL.insn1(0x2A, AddressingMode::Accumulator, 2)),
        0x2C => Some(Opcode::BIT.insn1(0x2C, AddressingMode::Absolute, 4)),
        0x2D => Some(Opcode::AND.insn1(0x2D, AddressingMode::Absolute, 4)),
        0x2E => Some(Opcode::ROL.insn1(0x2E, AddressingMode::Absolute, 6)),
        0x2F => Some(Opcode::BBR2.insn2(0x2F, AddressingMode::ZeroPage, AddressingMode::ProgramCounterRelative, 5)),
        0x30 => Some(Opcode::BMI.insn1(0x30, AddressingMode::ProgramCounterRelative, 2)),
        0x31 => Some(Opcode::AND.insn1(0x31, AddressingMode::ZeroPageIndirectIndexedY, 5)),
        0x32 => Some(Opcode::AND.insn1(0x32, AddressingMode::ZeroPageIndirect, 5)),
        0x34 => Some(Opcode::BIT.insn1(0x34, AddressingMode::ZeroPageIndexedX, 4)),
        0x35 => Some(Opcode::AND.insn1(0x35, AddressingMode::ZeroPageIndexedX, 4)),
        0x36 => Some(Opcode::ROL.insn1(0x36, AddressingMode::ZeroPageIndexedX, 6)),
        0x37 => Some(Opcode::RMB3.insn1(0x37, AddressingMode::ZeroPage, 5)),
        0x38 => Some(Opcode::SEC.insn0(0x38, 2)),
        0x39 => Some(Opcode::AND.insn1(0x39, AddressingMode::AbsoluteIndexedY, 4)),
        0x3A => Some(Opcode::DEC.insn1(0x3A, AddressingMode::Accumulator, 2)),
        0x3C => Some(Opcode::BIT.insn1(0x3C, AddressingMode::AbsoluteIndexedX, 4)),
        0x3D => Some(Opcode::AND.insn1(0x3D, AddressingMode::AbsoluteIndexedX, 4)),
        0x3E => Some(Opcode::ROL.insn1(0x3E, AddressingMode::AbsoluteIndexedX, 6)),
        0x3F => Some(Opcode::BBR3.insn2(0x3F, AddressingMode::ZeroPage, AddressingMode::ProgramCounterRelative, 5)),
        0x40 => Some(Opcode::RTI.insn0(0x40, 6)),
        0x41 => Some(Opcode::EOR.insn1(0x41, AddressingMode::ZeroPageIndexedIndirectX, 6)),
        0x45 => Some(Opcode::EOR.insn1(0x45, AddressingMode::ZeroPage, 3)),
        0x46 => Some(Opcode::LSR.insn1(0x46, AddressingMode::ZeroPage, 5)),
        0x47 => Some(Opcode::RMB4.insn1(0x47, AddressingMode::ZeroPage, 5)),
        0x48 => Some(Opcode::PHA.insn0(0x48, 3)),
        0x49 => Some(Opcode::EOR.insn1(0x49, AddressingMode::Immediate, 2)),
        0x4A => Some(Opcode::LSR.insn1(0x4A, AddressingMode::Accumulator, 2)),
        0x4C => Some(Opcode::JMP.insn1(0x4C, AddressingMode::Absolute, 3)),
        0x4D => Some(Opcode::EOR.insn1(0x4D, AddressingMode::Absolute, 4)),
        0x4E => Some(Opcode::LSR.insn1(0x4E, AddressingMode::Absolute, 6)),
        0x4F => Some(Opcode::BBR4.insn2(0x4F, AddressingMode::ZeroPage, AddressingMode::ProgramCounterRelative, 5)),
        0x50 => Some(Opcode::BVC.insn1(0x50, AddressingMode::ProgramCounterRelative, 2)),
        0x51 => Some(Opcode::EOR.insn1(0x51, AddressingMode::ZeroPageIndirectIndexedY, 5)),
        0x52 => Some(Opcode::EOR.insn1(0x52, AddressingMode::ZeroPageIndirect, 5)),
        0x55 => Some(Opcode::EOR.insn1(0x55, AddressingMode::ZeroPageIndexedX, 4)),
        0x56 => Some(Opcode::LSR.insn1(0x56, AddressingMode::ZeroPageIndexedX, 6)),
        0x57 => Some(Opcode::RMB5.insn1(0x57, AddressingMode::ZeroPage, 5)),
        0x58 => Some(Opcode::CLI.insn0(0x58, 2)),
        0x59 => Some(Opcode::EOR.insn1(0x59, AddressingMode::AbsoluteIndexedY, 4)),
        0x5A => Some(Opcode::PHY.insn0(0x5A, 3)),
        0x5D => Some(Opcode::EOR.insn1(0x5D, AddressingMode::AbsoluteIndexedX, 4)),
        0x5E => Some(Opcode::LSR.insn1(0x5E, AddressingMode::AbsoluteIndexedX, 6)),
        0x5F => Some(Opcode::BBR5.insn2(0x5F, AddressingMode::ZeroPage, AddressingMode::ProgramCounterRelative, 5)),
        0x60 => Some(Opcode::RTS.insn0(0x60, 6)),
        0x61 => Some(Opcode::ADC.insn1(0x61, AddressingMode::ZeroPageIndexedIndirectX, 6)),
        0x64 => Some(Opcode::STZ.insn1(0x64, AddressingMode::ZeroPage, 3)),
        0x65 => Some(Opcode::ADC.insn1(0x65, AddressingMode::ZeroPage, 3)),
        0x66 => Some(Opcode::ROR.insn1(0x66, AddressingMode::ZeroPage, 5)),
        0x67 => Some(Opcode::RMB6.insn1(0x67, AddressingMode::ZeroPage, 5)),
        0x68 => Some(Opcode::PLA.insn0(0x68, 4)),
        0x69 => Some(Opcode::ADC.insn1(0x69, AddressingMode::Immediate, 2)),
        0x6A => Some(Opcode::ROR.insn1(0x6A, AddressingMode::Accumulator, 2)),
        0x6C => Some(Opcode::JMP.insn1(0x6C, AddressingMode::AbsoluteIndirect, 6)),
        0x6D => Some(Opcode::ADC.insn1(0x6D, AddressingMode::Absolute, 4)),
        0x6E => Some(Opcode::ROR.insn1(0x6E, AddressingMode::Absolute, 6)),
        0x6F => Some(Opcode::BBR6.insn2(0x6F, AddressingMode::ZeroPage, AddressingMode::ProgramCounterRelative, 5)),
        0x70 => Some(Opcode::BVS.insn1(0x70, AddressingMode::ProgramCounterRelative, 2)),
        0x71 => Some(Opcode::ADC.insn1(0x71, AddressingMode::ZeroPageIndirectIndexedY, 5)),
        0x72 => Some(Opcode::ADC.insn1(0x72, AddressingMode::ZeroPageIndirect, 5)),
        0x74 => Some(Opcode::STZ.insn1(0x74, AddressingMode::ZeroPageIndexedX, 4)),
        0x75 => Some(Opcode::ADC.insn1(0x75, AddressingMode::ZeroPageIndexedX, 4)),
        0x76 => Some(Opcode::ROR.insn1(0x76, AddressingMode::ZeroPageIndexedX, 6)),
        0x77 => Some(Opcode::RMB7.insn1(0x77, AddressingMode::ZeroPage, 5)),
        0x78 => Some(Opcode::SEI.insn0(0x78, 2)),
        0x79 => Some(Opcode::ADC.insn1(0x79, AddressingMode::AbsoluteIndexedY, 4)),
        0x7A => Some(Opcode::PLY.insn0(0x7A, 4)),
        0x7C => Some(Opcode::JMP.insn1(0x7C, AddressingMode::AbsoluteIndexedIndirectX, 6)),
        0x7D => Some(Opcode::ADC.insn1(0x7D, AddressingMode::AbsoluteIndexedX, 4)),
        0x7E => Some(Opcode::ROR.insn1(0x7E, AddressingMode::AbsoluteIndexedX, 6)),
        0x7F => Some(Opcode::BBR7.insn2(0x7F, AddressingMode::ZeroPage, AddressingMode::ProgramCounterRelative, 5)),
        0x80 => Some(Opcode::BRA.insn1(0x80, AddressingMode::ProgramCounterRelative, 2)),
        0x81 => Some(Opcode::STA.insn1(0x81, AddressingMode::ZeroPageIndexedIndirectX, 6)),
        0x84 => Some(Opcode::STY.insn1(0x84, AddressingMode::ZeroPage, 3)),
        0x85 => Some(Opcode::STA.insn1(0x85, AddressingMode::ZeroPage, 3)),
        0x86 => Some(Opcode::STX.insn1(0x86, AddressingMode::ZeroPage, 3)),
        0x87 => Some(Opcode::SMB0.insn1(0x87, AddressingMode::ZeroPage, 5)),
        0x88 => Some(Opcode::DEY.insn0(0x88, 2)),
        0x89 => Some(Opcode::BIT.insn1(0x89, AddressingMode::Immediate, 2)),
        0x8A => Some(Opcode::TXA.insn0(0x8A, 2)),
        0x8C => Some(Opcode::STY.insn1(0x8C, AddressingMode::Absolute, 4)),
        0x8D => Some(Opcode::STA.insn1(0x8D, AddressingMode::Absolute, 4)),
        0x8E => Some(Opcode::STX.insn1(0x8E, AddressingMode::Absolute, 4)),
        0x8F => Some(Opcode::BBS0.insn2(0x8F, AddressingMode::ZeroPage, AddressingMode::ProgramCounterRelative, 5)),
        0x90 => Some(Opcode::BCC.insn1(0x90, AddressingMode::ProgramCounterRelative, 2)),
        0x91 => Some(Opcode::STA.insn1(0x91, AddressingMode::ZeroPageIndirectIndexedY, 6)),
        0x92 => Some(Opcode::STA.insn1(0x92, AddressingMode::ZeroPageIndirect, 5)),
        0x94 => Some(Opcode::STY.insn1(0x94, AddressingMode::ZeroPageIndexedX, 4)),
        0x95 => Some(Opcode::STA.insn1(0x95, AddressingMode::ZeroPageIndexedX, 4)),
        0x96 => Some(Opcode::STX.insn1(0x96, AddressingMode::ZeroPageIndexedY, 4)),
        0x97 => Some(Opcode::SMB1.insn1(0x97, AddressingMode::ZeroPage, 5)),
        0x98 => Some(Opcode::TYA.insn0(0x98, 2)),
        0x99 => Some(Opcode::STA.insn1(0x99, AddressingMode::AbsoluteIndexedY, 5)),
        0x9A => Some(Opcode::TXS.insn0(0x9A, 2)),
        0x9C => Some(Opcode::STZ.insn1(0x9C, AddressingMode::Absolute, 4)),
        0x9D => Some(Opcode::STA.insn1(0x9D, AddressingMode::AbsoluteIndexedX, 5)),
        0x9E => Some(Opcode::STZ.insn1(0x9E, AddressingMode::AbsoluteIndexedX, 5)),
        0x9F => Some(Opcode::BBS1.insn2(0x9F, AddressingMode::ZeroPage, AddressingMode::ProgramCounterRelative, 5)),
        0xA0 => Some(Opcode::LDY.insn1(0xA0, AddressingMode::Immediate, 2)),
        0xA1 => Some(Opcode::LDA.insn1(0xA1, AddressingMode::ZeroPageIndexedIndirectX, 6)),
        0xA2 => Some(Opcode::LDX.insn1(0xA2, AddressingMode::Immediate, 2)),
        0xA4 => Some(Opcode::LDY.insn1(0xA4, AddressingMode::ZeroPage, 3)),
        0xA5 => Some(Opcode::LDA.insn1(0xA5, AddressingMode::ZeroPage, 3)),
        0xA6 => Some(Opcode::LDX.insn1(0xA6, AddressingMode::ZeroPage, 3)),
        0xA7 => Some(Opcode::SMB2.insn1(0xA7, AddressingMode::ZeroPage, 5)),
        0xA8 => Some(Opcode::TAY.insn0(0xA8, 2)),
        0xA9 => Some(Opcode::LDA.insn1(0xA9, AddressingMode::Immediate, 2)),
        0xAA => Some(Opcode::TAX.insn0(0xAA, 2)),
        0xAC => Some(Opcode::LDY.insn1(0xAC, AddressingMode::Absolute, 4)),
        0xAD => Some(Opcode::LDA.insn1(0xAD, AddressingMode::Absolute, 4)),
        0xAE => Some(Opcode::LDX.insn1(0xAE, AddressingMode::Absolute, 4)),
        0xAF => Some(Opcode::BBS2.insn2(0xAF, AddressingMode::ZeroPage, AddressingMode::ProgramCounterRelative, 5)),
        0xB0 => Some(Opcode::BCS.insn1(0xB0, AddressingMode::ProgramCounterRelative, 2)),
        0xB1 => Some(Opcode::LDA.insn1(0xB1, AddressingMode::ZeroPageIndirectIndexedY, 5)),
        0xB2 => Some(Opcode::LDA.insn1(0xB2, AddressingMode::ZeroPageIndirect, 5)),
        0xB4 => Some(Opcode::LDY.insn1(0xB4, AddressingMode::ZeroPageIndexedX, 4)),
        0xB5 => Some(Opcode::LDA.insn1(0xB5, AddressingMode::ZeroPageIndexedX, 4)),
        0xB6 => Some(Opcode::LDX.insn1(0xB6, AddressingMode::ZeroPageIndexedY, 4)),
        0xB7 => Some(Opcode::SMB3.insn1(0xB7, AddressingMode::ZeroPage, 5)),
        0xB8 => Some(Opcode::CLV.insn0(0xB8, 2)),
        0xB9 => Some(Opcode::LDA.insn1(0xB9, AddressingMode::AbsoluteIndexedY, 4)),
        0xBA => Some(Opcode::TSX.insn0(0xBA, 2)),
        0xBC => Some(Opcode::LDY.insn1(0xBC, AddressingMode::AbsoluteIndexedX, 4)),
        0xBD => Some(Opcode::LDA.insn1(0xBD, AddressingMode::AbsoluteIndexedX, 4)),
        0xBE => Some(Opcode::LDX.insn1(0xBE, AddressingMode::AbsoluteIndexedY, 4)),
        0xBF => Some(Opcode::BBS3.insn2(0xBF, AddressingMode::ZeroPage, AddressingMode::ProgramCounterRelative, 5)),
        0xC0 => Some(Opcode::CPY.insn1(0xC0, AddressingMode::Immediate, 2)),
        0xC1 => Some(Opcode::CMP.insn1(0xC1, AddressingMode::ZeroPageIndexedIndirectX, 6)),
        0xC4 => Some(Opcode::CPY.insn1(0xC4, AddressingMode::ZeroPage, 3)),
        0xC5 => Some(Opcode::CMP.insn1(0xC5, AddressingMode::ZeroPage, 3)),
        0xC6 => Some(Opcode::DEC.insn1(0xC6, AddressingMode::ZeroPage, 5)),
        0xC7 => Some(Opcode::SMB4.insn1(0xC7, AddressingMode::ZeroPage, 5)),
        0xC8 => Some(Opcode::INY.insn0(0xC8, 2)),
        0xC9 => Some(Opcode::CMP.insn1(0xC9, AddressingMode::Immediate, 2)),
        0xCA => Some(Opcode::DEX.insn0(0xCA, 2)),
        0xCB => Some(Opcode::WAI.insn0(0xCB, 3)),
        0xCC => Some(Opcode::CPY.insn1(0xCC, AddressingMode::Absolute, 4)),
        0xCD => Some(Opcode::CMP.insn1(0xCD, AddressingMode::Absolute, 4)),
        0xCE => Some(Opcode::DEC.insn1(0xCE, AddressingMode::Absolute, 6)),
        0xCF => Some(Opcode::BBS4.insn2(0xCF, AddressingMode::ZeroPage, AddressingMode::ProgramCounterRelative, 5)),
        0xD0 => Some(Opcode::BNE.insn1(0xD0, AddressingMode::ProgramCounterRelative, 2)),
        0xD1 => Some(Opcode::CMP.insn1(0xD1, AddressingMode::ZeroPageIndirectIndexedY, 5)),
        0xD2 => Some(Opcode::CMP.insn1(0xD2, AddressingMode::ZeroPageIndirect, 5)),
        0xD5 => Some(Opcode::CMP.insn1(0xD5, AddressingMode::ZeroPageIndexedX, 4)),
        0xD6 => Some(Opcode::DEC.insn1(0xD6, AddressingMode::ZeroPageIndexedX, 6)),
        0xD7 => Some(Opcode::SMB5.insn1(0xD7, AddressingMode::ZeroPage, 5)),
        0xD8 => Some(Opcode::CLD.insn0(0xD8, 2)),
        0xD9 => Some(Opcode::CMP.insn1(0xD9, AddressingMode::AbsoluteIndexedY, 4)),
        0xDA => Some(Opcode::PHX.insn0(0xDA, 3)),
        0xDB => Some(Opcode::STP.insn0(0xDB, 3)),
        0xDD => Some(Opcode::CMP.insn1(0xDD, AddressingMode::AbsoluteIndexedX, 4)),
        0xDE => Some(Opcode::DEC.insn1(0xDE, AddressingMode::AbsoluteIndexedX, 7)),
        0xDF => Some(Opcode::BBS5.insn2(0xDF, AddressingMode::ZeroPage, AddressingMode::ProgramCounterRelative, 5)),
        0xE0 => Some(Opcode::CPX.insn1(0xE0, AddressingMode::Immediate, 2)),
        0xE1 => Some(Opcode::SBC.insn1(0xE1, AddressingMode::ZeroPageIndexedIndirectX, 6)),
        0xE4 => Some(Opcode::CPX.insn1(0xE4, AddressingMode::ZeroPage, 3)),
        0xE5 => Some(Opcode::SBC.insn1(0xE5, AddressingMode::ZeroPage, 3)),
        0xE6 => Some(Opcode::INC.insn1(0xE6, AddressingMode::ZeroPage, 5)),
        0xE7 => Some(Opcode::SMB6.insn1(0xE7, AddressingMode::ZeroPage, 5)),
        0xE8 => Some(Opcode::INX.insn0(0xE8, 2)),
        0xE9 => Some(Opcode::SBC.insn1(0xE9, AddressingMode::Immediate, 2)),
        0xEA => Some(Opcode::NOP.insn0(0xEA, 2)),
        0xEC => Some(Opcode::CPX.insn1(0xEC, AddressingMode::Absolute, 4)),
        0xED => Some(Opcode::SBC.insn1(0xED, AddressingMode::Absolute, 4)),
        0xEE => Some(Opcode::INC.insn1(0xEE, AddressingMode::Absolute, 6)),
        0xEF => Some(Opcode::BBS6.insn2(0xEF, AddressingMode::ZeroPage, AddressingMode::ProgramCounterRelative, 5)),
        0xF0 => Some(Opcode::BEQ.insn1(0xF0, AddressingMode::ProgramCounterRelative, 2)),
        0xF1 => Some(Opcode::SBC.insn1(0xF1, AddressingMode::ZeroPageIndirectIndexedY, 5)),
        0xF2 => Some(Opcode::SBC.insn1(0xF2, AddressingMode::ZeroPageIndirect, 5)),
        0xF5 => Some(Opcode::SBC.insn1(0xF5, AddressingMode::ZeroPageIndexedX, 4)),
        0xF6 => Some(Opcode::INC.insn1(0xF6, AddressingMode::ZeroPageIndexedX, 6)),
        0xF7 => Some(Opcode::SMB7.insn1(0xF7, AddressingMode::ZeroPage, 5)),
        0xF8 => Some(Opcode::SED.insn0(0xF8, 2)),
        0xF9 => Some(Opcode::SBC.insn1(0xF9, AddressingMode::AbsoluteIndexedY, 4)),
        0xFA => Some(Opcode::PLX.insn0(0xFA, 4)),
        0xFD => Some(Opcode::SBC.insn1(0xFD, AddressingMode::AbsoluteIndexedX, 4)),
        0xFE => Some(Opcode::INC.insn1(0xFE, AddressingMode::AbsoluteIndexedX, 7)),
        0xFF => Some(Opcode::BBS7.insn2(0xFF, AddressingMode::ZeroPage, AddressingMode::ProgramCounterRelative, 5)),
        _ => None,
    }
}

/// Collects the encodings that the catalogue holds for a mnemonic.
pub fn get_instructions(opcode: Opcode) -> (list: Vec<InstructionMeta>)
    ensures
        list@ == encodings(opcode),
{
    let mut list: Vec<InstructionMeta> = Vec::new();
    let mut byte: u16 = 0;
    while byte < 256
        invariant
            byte <= 256,
            list@ == encodings_below(opcode, byte as int),
        decreases 256 - byte,
    {
        if let Some(meta) = get_instruction(byte as u8) {
            if meta.opcode == opcode {
                list.push(meta);
            }
        }
        byte += 1;
    }
    list
}

/// The rows of the catalogue among the bytes below `limit`, in ascending
/// order of their bytes.
pub open spec fn catalogue_below(limit: int) -> Seq<InstructionMeta>
    decreases limit,
{
    if limit <= 0 {
        Seq::empty()
    } else {
        match decode((limit - 1) as u8) {
            Some(meta) => catalogue_below(limit - 1).push(meta),
            None => catalogue_below(limit - 1),
        }
    }
}

/// The whole catalogue, in ascending order of the opcode bytes.
pub open spec fn catalogue() -> Seq<InstructionMeta> {
    catalogue_below(256)
}

/// Lists every documented opcode, in ascending order of the opcode bytes.
pub fn opcodes() -> (list: Vec<InstructionMeta>)
    ensures
        list@ == catalogue(),
{
    let mut list: Vec<InstructionMeta> = Vec::new();
    let mut byte: u16 = 0;
    while byte < 256
        invariant
            byte <= 256,
            list@ == catalogue_below(byte as int),
        decreases 256 - byte,
    {
        if let Some(meta) = get_instruction(byte as u8) {
            list.push(meta);
        }
        byte += 1;
    }
    list
}

/// A row of the catalogue carries the byte under which it is found.
pub proof fn lemma_decode_byte(byte: u8)
    ensures
        decode(byte) matches Some(meta) ==> meta.byte == byte,
{
}

/// Each row that `encodings` lists is a row of the catalogue for that
/// mnemonic.
pub proof fn lemma_encodings_sound(opcode: Opcode, limit: int, i: int)
    requires
        0 <= limit <= 256,
        0 <= i < encodings_below(opcode, limit).len(),
    ensures
        encodings_below(opcode, limit)[i].opcode == opcode,
        encodings_below(opcode, limit)[i].byte < limit,
        decode(encodings_below(opcode, limit)[i].byte) == Some(encodings_below(opcode, limit)[i]),
    decreases limit,
{
    if limit > 0 {
        let rest = encodings_below(opcode, limit - 1);
        lemma_decode_byte((limit - 1) as u8);
        if i < rest.len() {
            lemma_encodings_sound(opcode, limit - 1, i);
        }
    }
}

/// The lowest opcode byte that encodes a mnemonic.
pub open spec fn primary_encoding(opcode: Opcode) -> u8 {
    match opcode {
        Opcode::ADC => 0x61,
        Opcode::AND => 0x21,
        Opcode::ASL => 0x06,
        Opcode::BBR0 => 0x0F,
        Opcode::BBR1 => 0x1F,
        Opcode::BBR2 => 0x2F,
        Opcode::BBR3 => 0x3F,
        Opcode::BBR4 => 0x4F,
        Opcode::BBR5 => 0x5F,
        Opcode::BBR6 => 0x6F,
        Opcode::BBR7 => 0x7F,
        Opcode::BBS0 => 0x8F,
        Opcode::BBS1 => 0x9F,
        Opcode::BBS2 => 0xAF,
        Opcode::BBS3 => 0xBF,
        Opcode::BBS4 => 0xCF,
        Opcode::BBS5 => 0xDF,
        Opcode::BBS6 => 0xEF,
        Opcode::BBS7 => 0xFF,
        Opcode::BCC => 0x90,
        Opcode::BCS => 0xB0,
        Opcode::BEQ => 0xF0,
        Opcode::BIT => 0x24,
        Opcode::BMI => 0x30,
        Opcode::BNE => 0xD0,
        Opcode::BPL => 0x10,
        Opcode::BRA => 0x80,
        Opcode::BRK => 0x00,
        Opcode::BVC => 0x50,
        Opcode::BVS => 0x70,
        Opcode::CLC => 0x18,
        Opcode::CLD => 0xD8,
        Opcode::CLI => 0x58,
        Opcode::CLV => 0xB8,
        Opcode::CMP => 0xC1,
        Opcode::CPX => 0xE0,
        Opcode::CPY => 0xC0,
        Opcode::DEC => 0x3A,
        Opcode::DEX => 0xCA,
        Opcode::DEY => 0x88,
        Opcode::EOR => 0x41,
        Opcode::INC => 0x1A,
        Opcode::INX => 0xE8,
        Opcode::INY => 0xC8,
        Opcode::JMP => 0x4C,
        Opcode::JSR => 0x20,
        Opcode::LDA => 0xA1,
        Opcode::LDX => 0xA2,
        Opcode::LDY => 0xA0,
        Opcode::LSR => 0x46,
        Opcode::NOP => 0xEA,
        Opcode::ORA => 0x01,
        Opcode::PHA => 0x48,
        Opcode::PHP => 0x08,
        Opcode::PHX => 0xDA,
        Opcode::PHY => 0x5A,
        Opcode::PLA => 0x68,
        Opcode::PLP => 0x28,
        Opcode::PLX => 0xFA,
        Opcode::PLY => 0x7A,
        Opcode::RMB0 => 0x07,
        Opcode::RMB1 => 0x17,
        Opcode::RMB2 => 0x27,
        Opcode::RMB3 => 0x37,
        Opcode::RMB4 => 0x47,
        Opcode::RMB5 => 0x57,
        Opcode::RMB6 => 0x67,
        Opcode::RMB7 => 0x77,
        Opcode::ROL => 0x26,
        Opcode::ROR => 0x66,
        Opcode::RTI => 0x40,
        Opcode::RTS => 0x60,
        Opcode::SBC => 0xE1,
        Opcode::SEC => 0x38,
        Opcode::SED => 0xF8,
        Opcode::SEI => 0x78,
        Opcode::SMB0 => 0x87,
        Opcode::SMB1 => 0x97,
        Opcode::SMB2 => 0xA7,
        Opcode::SMB3 => 0xB7,
        Opcode::SMB4 => 0xC7,
        Opcode::SMB5 => 0xD7,
        Opcode::SMB6 => 0xE7,
        Opcode::SMB7 => 0xF7,
        Opcode::STA => 0x81,
        Opcode::STP => 0xDB,
        Opcode::STX => 0x86,
        Opcode::STY => 0x84,
        Opcode::STZ => 0x64,
        Opcode::TAX => 0xAA,
        Opcode::TAY => 0xA8,
        Opcode::TRB => 0x14,
        Opcode::TSB => 0x04,
        Opcode::TSX => 0xBA,
        Opcode::TXA => 0x8A,
        Opcode::TXS => 0x9A,
        Opcode::TYA => 0x98,
        Opcode::WAI => 0xCB,
    }
}

/// A mnemonic that occurs in the catalogue below `limit` has an encoding
/// among those listed below `limit`.
proof fn lemma_encodings_hold(opcode: Opcode, byte: u8, limit: int)
    requires
        byte < limit <= 256,
        decode(byte) matches Some(meta) && meta.opcode == opcode,
    ensures
        encodings_below(opcode, limit).len() >= 1,
    decreases limit,
{
    if byte < limit - 1 {
        lemma_encodings_hold(opcode, byte, limit - 1);
    }
}

/// Every mnemonic has an encoding in the catalogue.
pub proof fn lemma_every_mnemonic_encoded(opcode: Opcode)
    ensures
        decode(primary_encoding(opcode)) matches Some(meta) && meta.opcode == opcode,
        encodings(opcode).len() >= 1,
{
    lemma_encodings_hold(opcode, primary_encoding(opcode), 256);
}

} // verus!
