//! Opcode decoding: one byte into an operation and an addressing mode.
//!
//! The 6502 opcode matrix is read as `block = op % 4`, `col = (op / 4) % 8`
//! and `row = op / 32`.
use vstd::prelude::*;

verus! {

#[derive(Debug, Clone, Copy, PartialEq, Eq, Structural)]
pub struct Instruction {
    pub addr_mode: AddressMode,
    pub op_code: Opcode,
}

#[derive(Debug, Clone, Copy, PartialEq, Eq, Structural)]
pub enum AddressMode {
    Implicit,
    Manual,
    Immediate,
    ZeroPage,
    ZeroPageX,
    ZeroPageY,
    Absolute,
    AbsoluteX(Fix),
    AbsoluteY(Fix),
    Indirect,
    IndexedIndirect,
    IndirectIndexed(Fix),
}

/// Whether an indexed access always performs the dummy read at the unfixed
/// address, or only when the low-byte addition wraps.
#[derive(Debug, Clone, Copy, PartialEq, Eq, Structural)]
pub enum Fix {
    Always,
    Conditional,
}

#[derive(Debug, Clone, Copy, PartialEq, Eq, Structural)]
pub enum Opcode {
    ORA, AND, EOR, ADC, SBC, CMP, CPX, CPY,
    DEC, DEX, DEY, INC, INX, INY,
    ASL, ROL, LSR, ROR,
    LDA, STA, LDX, STX, LDY, STY,
    TAX, TXA, TAY, TYA, TSX, TXS,
    PLA, PHA, PLP, PHP,
    BPL, BMI, BVC, BVS, BCC, BCS, BNE, BEQ,
    BRK, RTI, JSR, RTS, JMP, BIT,
    CLC, SEC, CLD, SED, CLI, SEI, CLV, NOP,
    // Unofficial
    LAX, LAS, SAX, XAA, AHX, TAS, ISB, AXS, DCP, SLO, ANC, RLA, SRE, ALR, RRA, ARR,
    SXA, SYA, NOPConsume,
    /// An opcode byte with no implementation.
    Unofficial(u8),
}

#[derive(PartialEq, Eq, Structural, Clone, Copy)]
enum Block {
    Control,
    Alu,
    Rwm,
    Unofficial,
}

pub open spec fn block_of(op: u8) -> u8 {
    op % 4
}

pub open spec fn col_of(op: u8) -> u8 {
    (op / 4) % 8
}

pub open spec fn row_of(op: u8) -> u8 {
    op / 32
}

/// Addressing mode of the matrix cell (`block`, `row`, `col`).
pub open spec fn mode_spec(block: u8, row: u8, col: u8) -> AddressMode {
    if block == 1 {
        if col == 0 { AddressMode::IndexedIndirect }
        else if col == 1 { AddressMode::ZeroPage }
        else if col == 2 { AddressMode::Immediate }
        else if col == 3 { AddressMode::Absolute }
        else if col == 4 { AddressMode::IndirectIndexed(if row == 4 { Fix::Always } else { Fix::Conditional }) }
        else if col == 5 { AddressMode::ZeroPageX }
        else if col == 6 { AddressMode::AbsoluteY(if row == 4 { Fix::Always } else { Fix::Conditional }) }
        else { AddressMode::AbsoluteX(if row == 4 { Fix::Always } else { Fix::Conditional }) }
    } else if block == 2 {
        if col == 0 { if row < 4 { AddressMode::Implicit } else { AddressMode::Immediate } }
        else if col == 1 { AddressMode::ZeroPage }
        else if col == 3 { AddressMode::Absolute }
        else if col == 5 { if row == 4 || row == 5 { AddressMode::ZeroPageY } else { AddressMode::ZeroPageX } }
        else if col == 7 {
            if row == 4 { AddressMode::Manual }
            else if row == 5 { AddressMode::AbsoluteY(Fix::Conditional) }
            else { AddressMode::AbsoluteX(Fix::Always) }
        } else { AddressMode::Implicit }
    } else if block == 0 {
        if col == 0 && row == 1 { AddressMode::Manual }
        else if col == 3 && row == 3 { AddressMode::Indirect }
        else if col == 0 { if row < 4 { AddressMode::Implicit } else { AddressMode::Immediate } }
        else if col == 1 { AddressMode::ZeroPage }
        else if col == 3 { AddressMode::Absolute }
        else if col == 4 { AddressMode::Manual }
        else if col == 5 { AddressMode::ZeroPageX }
        else if col == 7 { if row == 4 { AddressMode::Manual } else { AddressMode::AbsoluteX(Fix::Conditional) } }
        else { AddressMode::Implicit }
    } else {
        if col == 0 { AddressMode::IndexedIndirect }
        else if col == 1 { AddressMode::ZeroPage }
        else if col == 2 { AddressMode::Immediate }
        else if col == 3 { AddressMode::Absolute }
        else if col == 4 { AddressMode::IndirectIndexed(if row == 5 { Fix::Conditional } else { Fix::Always }) }
        else if col == 5 { if row == 4 || row == 5 { AddressMode::ZeroPageY } else { AddressMode::ZeroPageX } }
        else if col == 6 { AddressMode::AbsoluteY(if row == 5 { Fix::Conditional } else { Fix::Always }) }
        else {
            if row == 4 { AddressMode::AbsoluteY(Fix::Always) }
            else if row == 5 { AddressMode::AbsoluteY(Fix::Conditional) }
            else { AddressMode::AbsoluteX(Fix::Always) }
        }
    }
}

/// Operations of the ALU block (`op % 4 == 1`).
pub open spec fn alu_spec(row: u8, col: u8) -> Opcode {
    if row == 0 { Opcode::ORA }
    else if row == 1 { Opcode::AND }
    else if row == 2 { Opcode::EOR }
    else if row == 3 { Opcode::ADC }
    else if row == 4 { if col == 2 { Opcode::NOPConsume } else { Opcode::STA } }
    else if row == 5 { Opcode::LDA }
    else if row == 6 { Opcode::CMP }
    else { Opcode::SBC }
}

/// Operations of the control block (`op % 4 == 0`).
pub open spec fn ctrl_spec(col: u8, row: u8) -> Opcode {
    if col == 3 && (row == 2 || row == 3) { Opcode::JMP }
    else if (col == 1 || col == 3) && row == 1 { Opcode::BIT }
    else if row == 0 {
        if col == 0 { Opcode::BRK } else if col == 2 { Opcode::PHP }
        else if col == 4 { Opcode::BPL } else if col == 6 { Opcode::CLC } else { Opcode::NOPConsume }
    } else if row == 1 {
        if col == 0 { Opcode::JSR } else if col == 2 { Opcode::PLP }
        else if col == 4 { Opcode::BMI } else if col == 6 { Opcode::SEC } else { Opcode::NOPConsume }
    } else if row == 2 {
        if col == 0 { Opcode::RTI } else if col == 2 { Opcode::PHA }
        else if col == 4 { Opcode::BVC } else if col == 6 { Opcode::CLI } else { Opcode::NOPConsume }
    } else if row == 3 {
        if col == 0 { Opcode::RTS } else if col == 2 { Opcode::PLA }
        else if col == 4 { Opcode::BVS } else if col == 6 { Opcode::SEI } else { Opcode::NOPConsume }
    } else if row == 4 {
        if col == 1 || col == 3 || col == 5 { Opcode::STY } else if col == 2 { Opcode::DEY }
        else if col == 4 { Opcode::BCC } else if col == 6 { Opcode::TYA }
        else if col == 7 { Opcode::SYA } else { Opcode::NOPConsume }
    } else if row == 5 {
        if col == 2 { Opcode::TAY } else if col == 4 { Opcode::BCS }
        else if col == 6 { Opcode::CLV } else { Opcode::LDY }
    } else if row == 6 {
        if col == 0 || col == 1 || col == 3 { Opcode::CPY } else if col == 2 { Opcode::INY }
        else if col == 4 { Opcode::BNE } else if col == 6 { Opcode::CLD } else { Opcode::NOPConsume }
    } else {
        if col == 0 || col == 1 || col == 3 { Opcode::CPX } else if col == 2 { Opcode::INX }
        else if col == 4 { Opcode::BEQ } else if col == 6 { Opcode::SED } else { Opcode::NOPConsume }
    }
}

/// Operations of the read-modify-write block (`op % 4 == 2`).
pub open spec fn data_spec(op: u8, col: u8, row: u8) -> Opcode {
    if col == 4 { Opcode::Unofficial(op) }
    else if row == 5 {
        if col == 2 { Opcode::TAX } else if col == 6 { Opcode::TSX } else { Opcode::LDX }
    } else if row == 4 {
        if col == 0 { Opcode::NOPConsume } else if col == 2 { Opcode::TXA }
        else if col == 6 { Opcode::TXS } else if col == 7 { Opcode::SXA } else { Opcode::STX }
    } else if col == 0 && (row == 6 || row == 7) { Opcode::NOPConsume }
    else if col == 0 { Opcode::Unofficial(op) }
    else if col == 6 { Opcode::NOP }
    else if col == 2 && row == 6 { Opcode::DEX }
    else if col == 2 && row == 7 { Opcode::NOP }
    else if row == 0 { Opcode::ASL }
    else if row == 1 { Opcode::ROL }
    else if row == 2 { Opcode::LSR }
    else if row == 3 { Opcode::ROR }
    else if row == 6 { Opcode::DEC }
    else { Opcode::INC }
}

/// Operations of the unofficial block (`op % 4 == 3`).
pub open spec fn unofficial_spec(col: u8, row: u8) -> Opcode {
    if row == 0 { if col == 2 { Opcode::ANC } else { Opcode::SLO } }
    else if row == 1 { if col == 2 { Opcode::ANC } else { Opcode::RLA } }
    else if row == 2 { if col == 2 { Opcode::ALR } else { Opcode::SRE } }
    else if row == 3 { if col == 2 { Opcode::ARR } else { Opcode::RRA } }
    else if row == 4 {
        if col == 4 || col == 7 { Opcode::AHX } else if col == 6 { Opcode::TAS }
        else if col == 2 { Opcode::XAA } else { Opcode::SAX }
    } else if row == 5 { if col == 6 { Opcode::LAS } else { Opcode::LAX } }
    else if row == 6 { if col == 2 { Opcode::AXS } else { Opcode::DCP } }
    else { if col == 2 { Opcode::SBC } else { Opcode::ISB } }
}

pub open spec fn opcode_spec(op: u8) -> Opcode {
    let (block, row, col) = (block_of(op), row_of(op), col_of(op));
    if block == 1 { alu_spec(row, col) }
    else if block == 0 { ctrl_spec(col, row) }
    else if block == 2 { data_spec(op, col, row) }
    else { unofficial_spec(col, row) }
}

/// The instruction that the opcode byte `op` stands for.
pub open spec fn decode_spec(op: u8) -> Instruction {
    Instruction {
        addr_mode: mode_spec(block_of(op), row_of(op), col_of(op)),
        op_code: opcode_spec(op),
    }
}

impl Block {
    fn of(op: u8) -> (r: Block)
        ensures
            block_of(op) == 0 ==> r == Block::Control,
            block_of(op) == 1 ==> r == Block::Alu,
            block_of(op) == 2 ==> r == Block::Rwm,
            block_of(op) == 3 ==> r == Block::Unofficial,
    {
        match op % 4 {
            0 => Block::Control,
            1 => Block::Alu,
            2 => Block::Rwm,
            _ => Block::Unofficial,
        }
    }
}

impl Instruction {
    pub fn decode(op: u8) -> (r: Instruction)
        ensures
            r == decode_spec(op),
    {
        let row = op / 32;
        let col = (op / 4) % 8;
        let block = Block::of(op);
        let b: u8 = match block {
            Block::Control => 0,
            Block::Alu => 1,
            Block::Rwm => 2,
            Block::Unofficial => 3,
        };
        assert(b == block_of(op));
        let addr_mode = Self::mode(b, row, col);
        let op_code = match block {
            Block::Alu => Self::alu_instr(row, col),
            Block::Control => Self::ctrl_instr(col, row),
            Block::Rwm => Self::data_instr(op, col, row),
            Block::Unofficial => Self::unofficial_instr(col, row),
        };
        Instruction { addr_mode, op_code }
    }

    fn mode(block: u8, row: u8, col: u8) -> (r: AddressMode)
        ensures
            r == mode_spec(block, row, col),
    {
        if block == 1 {
            if col == 0 { AddressMode::IndexedIndirect }
            else if col == 1 { AddressMode::ZeroPage }
            else if col == 2 { AddressMode::Immediate }
            else if col == 3 { AddressMode::Absolute }
            else if col == 4 { AddressMode::IndirectIndexed(if row == 4 { Fix::Always } else { Fix::Conditional }) }
            else if col == 5 { AddressMode::ZeroPageX }
            else if col == 6 { AddressMode::AbsoluteY(if row == 4 { Fix::Always } else { Fix::Conditional }) }
            else { AddressMode::AbsoluteX(if row == 4 { Fix::Always } else { Fix::Conditional }) }
        } else if block == 2 {
            if col == 0 { if row < 4 { AddressMode::Implicit } else { AddressMode::Immediate } }
            else if col == 1 { AddressMode::ZeroPage }
            else if col == 3 { AddressMode::Absolute }
            else if col == 5 { if row == 4 || row == 5 { AddressMode::ZeroPageY } else { AddressMode::ZeroPageX } }
            else if col == 7 {
                if row == 4 { AddressMode::Manual }
                else if row == 5 { AddressMode::AbsoluteY(Fix::Conditional) }
                else { AddressMode::AbsoluteX(Fix::Always) }
            } else { AddressMode::Implicit }
        } else if block == 0 {
            if col == 0 && row == 1 { AddressMode::Manual }
            else if col == 3 && row == 3 { AddressMode::Indirect }
            else if col == 0 { if row < 4 { AddressMode::Implicit } else { AddressMode::Immediate } }
            else if col == 1 { AddressMode::ZeroPage }
            else if col == 3 { AddressMode::Absolute }
            else if col == 4 { AddressMode::Manual }
            else if col == 5 { AddressMode::ZeroPageX }
            else if col == 7 { if row == 4 { AddressMode::Manual } else { AddressMode::AbsoluteX(Fix::Conditional) } }
            else { AddressMode::Implicit }
        } else {
            if col == 0 { AddressMode::IndexedIndirect }
            else if col == 1 { AddressMode::ZeroPage }
            else if col == 2 { AddressMode::Immediate }
            else if col == 3 { AddressMode::Absolute }
            else if col == 4 { AddressMode::IndirectIndexed(if row == 5 { Fix::Conditional } else { Fix::Always }) }
            else if col == 5 { if row == 4 || row == 5 { AddressMode::ZeroPageY } else { AddressMode::ZeroPageX } }
            else if col == 6 { AddressMode::AbsoluteY(if row == 5 { Fix::Conditional } else { Fix::Always }) }
            else {
                if row == 4 { AddressMode::AbsoluteY(Fix::Always) }
                else if row == 5 { AddressMode::AbsoluteY(Fix::Conditional) }
                else { AddressMode::AbsoluteX(Fix::Always) }
            }
        }
    }

    fn alu_instr(row: u8, col: u8) -> (r: Opcode)
        ensures
            r == alu_spec(row, col),
    {
        if row == 0 { Opcode::ORA }
        else if row == 1 { Opcode::AND }
        else if row == 2 { Opcode::EOR }
        else if row == 3 { Opcode::ADC }
        else if row == 4 { if col == 2 { Opcode::NOPConsume } else { Opcode::STA } }
        else if row == 5 { Opcode::LDA }
        else if row == 6 { Opcode::CMP }
        else { Opcode::SBC }
    }

    fn ctrl_instr(col: u8, row: u8) -> (r: Opcode)
        ensures
            r == ctrl_spec(col, row),
    {
        if col == 3 && (row == 2 || row == 3) { Opcode::JMP }
        else if (col == 1 || col == 3) && row == 1 { Opcode::BIT }
        else if row == 0 {
            if col == 0 { Opcode::BRK } else if col == 2 { Opcode::PHP }
            else if col == 4 { Opcode::BPL } else if col == 6 { Opcode::CLC } else { Opcode::NOPConsume }
        } else if row == 1 {
            if col == 0 { Opcode::JSR } else if col == 2 { Opcode::PLP }
            else if col == 4 { Opcode::BMI } else if col == 6 { Opcode::SEC } else { Opcode::NOPConsume }
        } else if row == 2 {
            if col == 0 { Opcode::RTI } else if col == 2 { Opcode::PHA }
            else if col == 4 { Opcode::BVC } else if col == 6 { Opcode::CLI } else { Opcode::NOPConsume }
        } else if row == 3 {
            if col == 0 { Opcode::RTS } else if col == 2 { Opcode::PLA }
            else if col == 4 { Opcode::BVS } else if col == 6 { Opcode::SEI } else { Opcode::NOPConsume }
        } else if row == 4 {
            if col == 1 || col == 3 || col == 5 { Opcode::STY } else if col == 2 { Opcode::DEY }
            else if col == 4 { Opcode::BCC } else if col == 6 { Opcode::TYA }
            else if col == 7 { Opcode::SYA } else { Opcode::NOPConsume }
        } else if row == 5 {
            if col == 2 { Opcode::TAY } else if col == 4 { Opcode::BCS }
            else if col == 6 { Opcode::CLV } else { Opcode::LDY }
        } else if row == 6 {
            if col == 0 || col == 1 || col == 3 { Opcode::CPY } else if col == 2 { Opcode::INY }
            else if col == 4 { Opcode::BNE } else if col == 6 { Opcode::CLD } else { Opcode::NOPConsume }
        } else {
            if col == 0 || col == 1 || col == 3 { Opcode::CPX } else if col == 2 { Opcode::INX }
            else if col == 4 { Opcode::BEQ } else if col == 6 { Opcode::SED } else { Opcode::NOPConsume }
        }
    }

    fn data_instr(op: u8, col: u8, row: u8) -> (r: Opcode)
        ensures
            r == data_spec(op, col, row),
    {
        if col == 4 { Opcode::Unofficial(op) }
        else if row == 5 {
            if col == 2 { Opcode::TAX } else if col == 6 { Opcode::TSX } else { Opcode::LDX }
        } else if row == 4 {
            if col == 0 { Opcode::NOPConsume } else if col == 2 { Opcode::TXA }
            else if col == 6 { Opcode::TXS } else if col == 7 { Opcode::SXA } else { Opcode::STX }
        } else if col == 0 && (row == 6 || row == 7) { Opcode::NOPConsume }
        else if col == 0 { Opcode::Unofficial(op) }
        else if col == 6 { Opcode::NOP }
        else if col == 2 && row == 6 { Opcode::DEX }
        else if col == 2 && row == 7 { Opcode::NOP }
        else if row == 0 { Opcode::ASL }
        else if row == 1 { Opcode::ROL }
        else if row == 2 { Opcode::LSR }
        else if row == 3 { Opcode::ROR }
        else if row == 6 { Opcode::DEC }
        else { Opcode::INC }
    }

    fn unofficial_instr(col: u8, row: u8) -> (r: Opcode)
        ensures
            r == unofficial_spec(col, row),
    {
        if row == 0 { if col == 2 { Opcode::ANC } else { Opcode::SLO } }
        else if row == 1 { if col == 2 { Opcode::ANC } else { Opcode::RLA } }
        else if row == 2 { if col == 2 { Opcode::ALR } else { Opcode::SRE } }
        else if row == 3 { if col == 2 { Opcode::ARR } else { Opcode::RRA } }
        else if row == 4 {
            if col == 4 || col == 7 { Opcode::AHX } else if col == 6 { Opcode::TAS }
            else if col == 2 { Opcode::XAA } else { Opcode::SAX }
        } else if row == 5 { if col == 6 { Opcode::LAS } else { Opcode::LAX } }
        else if row == 6 { if col == 2 { Opcode::AXS } else { Opcode::DCP } }
        else { if col == 2 { Opcode::SBC } else { Opcode::ISB } }
    }
}

} // verus!
