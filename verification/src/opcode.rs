//! The opcode table: which byte stands for which instruction.

use vstd::prelude::*;
use crate::cpu::AddressingMode;
use crate::error::CpuError;

verus! {

/// The description of one opcode.
#[derive(Debug, Clone, Copy, PartialEq)]
pub struct OpCode {
    /// The opcode byte.
    pub hex: u8,
    /// The operation's three-letter name.
    pub mnemonic: &'static str,
    /// The length of the instruction in bytes, opcode included.
    pub bytes: u8,
    /// The base number of cycles the instruction takes.
    pub cycles: u8,
    /// How the instruction finds its operand.
    pub mode: AddressingMode,
}

/// One row of the instruction set's table.
pub struct Row {
    /// The opcode byte.
    pub hex: u8,
    /// What the instruction does.
    pub operation: crate::cpu::OpCode,
    /// The length of the instruction in bytes, opcode included.
    pub bytes: u8,
    /// The base number of cycles the instruction takes.
    pub cycles: u8,
    /// How the instruction finds its operand.
    pub mode: AddressingMode,
}

/// The row made of the given columns.
pub open spec fn row(
    hex: u8,
    operation: crate::cpu::OpCode,
    bytes: u8,
    cycles: u8,
    mode: AddressingMode,
) -> Row {
    Row { hex, operation, bytes, cycles, mode }
}

/// The instruction set's table, operation by operation. Cycle counts are
/// the base counts, before any penalty for crossing a page.
pub open spec fn reference_table() -> Seq<Row> {
    seq![
        row(0x69, crate::cpu::OpCode::ADC, 2, 2, AddressingMode::Immediate),
        row(0x65, crate::cpu::OpCode::ADC, 2, 3, AddressingMode::ZeroPage),
        row(0x75, crate::cpu::OpCode::ADC, 2, 4, AddressingMode::ZeroPageX),
        row(0x6d, crate::cpu::OpCode::ADC, 3, 4, AddressingMode::Absolute),
        row(0x7d, crate::cpu::OpCode::ADC, 3, 4, AddressingMode::AbsoluteX),
        row(0x79, crate::cpu::OpCode::ADC, 3, 4, AddressingMode::AbsoluteY),
        row(0x61, crate::cpu::OpCode::ADC, 2, 6, AddressingMode::IndirectX),
        row(0x71, crate::cpu::OpCode::ADC, 2, 5, AddressingMode::IndirectY),
        row(0x29, crate::cpu::OpCode::AND, 2, 2, AddressingMode::Immediate),
        row(0x25, crate::cpu::OpCode::AND, 2, 3, AddressingMode::ZeroPage),
        row(0x35, crate::cpu::OpCode::AND, 2, 4, AddressingMode::ZeroPageX),
        row(0x2d, crate::cpu::OpCode::AND, 3, 4, AddressingMode::Absolute),
        row(0x3d, crate::cpu::OpCode::AND, 3, 4, AddressingMode::AbsoluteX),
        row(0x39, crate::cpu::OpCode::AND, 3, 4, AddressingMode::AbsoluteY),
        row(0x21, crate::cpu::OpCode::AND, 2, 6, AddressingMode::IndirectX),
        row(0x31, crate::cpu::OpCode::AND, 2, 5, AddressingMode::IndirectY),
        row(0xa9, crate::cpu::OpCode::LDA, 2, 2, AddressingMode::Immediate),
        row(0xa5, crate::cpu::OpCode::LDA, 2, 3, AddressingMode::ZeroPage),
        row(0xb5, crate::cpu::OpCode::LDA, 2, 4, AddressingMode::ZeroPageX),
        row(0xad, crate::cpu::OpCode::LDA, 3, 4, AddressingMode::Absolute),
        row(0xbd, crate::cpu::OpCode::LDA, 3, 4, AddressingMode::AbsoluteX),
        row(0xb9, crate::cpu::OpCode::LDA, 3, 4, AddressingMode::AbsoluteY),
        row(0xa1, crate::cpu::OpCode::LDA, 2, 6, AddressingMode::IndirectX),
        row(0xb1, crate::cpu::OpCode::LDA, 2, 5, AddressingMode::IndirectY),
        row(0x85, crate::cpu::OpCode::STA, 2, 3, AddressingMode::ZeroPage),
        row(0x95, crate::cpu::OpCode::STA, 2, 4, AddressingMode::ZeroPageX),
        row(0x8d, crate::cpu::OpCode::STA, 3, 4, AddressingMode::Absolute),
        row(0x9d, crate::cpu::OpCode::STA, 3, 5, AddressingMode::AbsoluteX),
        row(0x99, crate::cpu::OpCode::STA, 3, 5, AddressingMode::AbsoluteY),
        row(0x81, crate::cpu::OpCode::STA, 2, 6, AddressingMode::IndirectX),
        row(0x91, crate::cpu::OpCode::STA, 2, 6, AddressingMode::IndirectY),
        row(0xaa, crate::cpu::OpCode::TAX, 1, 2, AddressingMode::NoneAddressing),
        row(0xe8, crate::cpu::OpCode::INX, 1, 2, AddressingMode::NoneAddressing),
        row(0x00, crate::cpu::OpCode::BRK, 1, 7, AddressingMode::NoneAddressing),
    ]
}

/// Whether the table has a row for `val`.
pub open spec fn in_table(val: u8) -> bool {
    exists|i: int| 0 <= i < reference_table().len() && #[trigger] reference_table()[i].hex == val
}

/// The table's row for `val`, if it has one.
pub open spec fn lookup(val: u8) -> Option<Row> {
    if in_table(val) {
        Some(
            reference_table()[choose|i: int|
                0 <= i < reference_table().len() && #[trigger] reference_table()[i].hex == val],
        )
    } else {
        None
    }
}

/// No opcode byte stands in two rows of the table.
pub proof fn lemma_table_has_no_duplicate()
    ensures
        reference_table().len() == 34,
        forall|i: int, j: int|
            0 <= i < 34 && 0 <= j < 34 && #[trigger] reference_table()[i].hex
                == #[trigger] reference_table()[j].hex ==> i == j,
{
}

/// Every row's length is its opcode byte plus the operand bytes of its
/// addressing mode, so one, two or three bytes; an operation has an operand
/// exactly when it works on memory; and no row stores to an immediate.
pub proof fn lemma_table_rows_are_consistent()
    ensures
        forall|i: int|
            0 <= i < reference_table().len() ==> {
                let r = #[trigger] reference_table()[i];
                &&& r.bytes == 1 + r.mode.operand_bytes()
                &&& 1 <= r.bytes <= 3
                &&& r.operation.is_addressed() <==> r.mode != AddressingMode::NoneAddressing
                &&& !(r.operation == crate::cpu::OpCode::STA && r.mode == AddressingMode::Immediate)
            },
{
}

/// A byte that the table holds is looked up to a row with that byte, and the
/// row is the only one.
pub proof fn lemma_lookup_finds_the_row(i: int)
    requires
        0 <= i < reference_table().len(),
    ensures
        lookup(reference_table()[i].hex) == Some(reference_table()[i]),
{
    lemma_table_has_no_duplicate();
    let val = reference_table()[i].hex;
    assert(in_table(val));
}

/// Every row of the table is what its own opcode byte is looked up to.
pub proof fn lemma_lookup_finds_every_row()
    ensures
        forall|i: int|
            0 <= i < reference_table().len() ==> lookup((#[trigger] reference_table()[i]).hex)
                == Some(reference_table()[i]),
{
    assert forall|i: int| 0 <= i < reference_table().len() implies lookup(
        (#[trigger] reference_table()[i]).hex,
    ) == Some(reference_table()[i]) by {
        lemma_lookup_finds_the_row(i);
    }
}

impl OpCode {
    /// Whether this description agrees with `row` in every column.
    pub open spec fn matches_row(self, row: Row) -> bool {
        &&& self.hex == row.hex
        &&& self.mnemonic@ == row.operation.mnemonic()
        &&& self.bytes == row.bytes
        &&& self.cycles == row.cycles
        &&& self.mode == row.mode
    }

    /// The description made of the given columns.
    pub fn new(hex: u8, mnemonic: &'static str, bytes: u8, cycles: u8, mode: AddressingMode) -> (op:
        OpCode)
        ensures
            op.hex == hex,
            op.mnemonic == mnemonic,
            op.bytes == bytes,
            op.cycles == cycles,
            op.mode == mode,
    {
        OpCode { hex, mnemonic, bytes, cycles, mode }
    }

    /// Looks `val` up in the table. The answer is the table's row for `val`,
    /// or `UnknownOpcode(val)` where the table has none.
    pub fn from_u8(val: u8) -> (r: Result<OpCode, CpuError>)
        ensures
            match lookup(val) {
                Some(row) => r is Ok && r->Ok_0.matches_row(row),
                None => r == Err::<OpCode, CpuError>(CpuError::UnknownOpcode(val)),
            },
            forall|i: int|
                0 <= i < reference_table().len() && (#[trigger] reference_table()[i]).hex == val
                    ==> r is Ok && r->Ok_0.matches_row(reference_table()[i]),
            r is Ok <==> in_table(val),
    {
        proof {
            lemma_table_has_no_duplicate();
            lemma_lookup_finds_every_row();
        }
        match val {
            0x69 => Ok(OpCode::new(0x69, "ADC", 2, 2, AddressingMode::Immediate)),
            0x65 => Ok(OpCode::new(0x65, "ADC", 2, 3, AddressingMode::ZeroPage)),
            0x75 => Ok(OpCode::new(0x75, "ADC", 2, 4, AddressingMode::ZeroPageX)),
            0x6d => Ok(OpCode::new(0x6d, "ADC", 3, 4, AddressingMode::Absolute)),
            0x7d => Ok(OpCode::new(0x7d, "ADC", 3, 4, AddressingMode::AbsoluteX)),
            0x79 => Ok(OpCode::new(0x79, "ADC", 3, 4, AddressingMode::AbsoluteY)),
            0x61 => Ok(OpCode::new(0x61, "ADC", 2, 6, AddressingMode::IndirectX)),
            0x71 => Ok(OpCode::new(0x71, "ADC", 2, 5, AddressingMode::IndirectY)),
            0x29 => Ok(OpCode::new(0x29, "AND", 2, 2, AddressingMode::Immediate)),
            0x25 => Ok(OpCode::new(0x25, "AND", 2, 3, AddressingMode::ZeroPage)),
            0x35 => Ok(OpCode::new(0x35, "AND", 2, 4, AddressingMode::ZeroPageX)),
            0x2d => Ok(OpCode::new(0x2d, "AND", 3, 4, AddressingMode::Absolute)),
            0x3d => Ok(OpCode::new(0x3d, "AND", 3, 4, AddressingMode::AbsoluteX)),
            0x39 => Ok(OpCode::new(0x39, "AND", 3, 4, AddressingMode::AbsoluteY)),
            0x21 => Ok(OpCode::new(0x21, "AND", 2, 6, AddressingMode::IndirectX)),
            0x31 => Ok(OpCode::new(0x31, "AND", 2, 5, AddressingMode::IndirectY)),
            0xa9 => Ok(OpCode::new(0xa9, "LDA", 2, 2, AddressingMode::Immediate)),
            0xa5 => Ok(OpCode::new(0xa5, "LDA", 2, 3, AddressingMode::ZeroPage)),
            0xb5 => Ok(OpCode::new(0xb5, "LDA", 2, 4, AddressingMode::ZeroPageX)),
            0xad => Ok(OpCode::new(0xad, "LDA", 3, 4, AddressingMode::Absolute)),
            0xbd => Ok(OpCode::new(0xbd, "LDA", 3, 4, AddressingMode::AbsoluteX)),
            0xb9 => Ok(OpCode::new(0xb9, "LDA", 3, 4, AddressingMode::AbsoluteY)),
            0xa1 => Ok(OpCode::new(0xa1, "LDA", 2, 6, AddressingMode::IndirectX)),
            0xb1 => Ok(OpCode::new(0xb1, "LDA", 2, 5, AddressingMode::IndirectY)),
            0x85 => Ok(OpCode::new(0x85, "STA", 2, 3, AddressingMode::ZeroPage)),
            0x95 => Ok(OpCode::new(0x95, "STA", 2, 4, AddressingMode::ZeroPageX)),
            0x8d => Ok(OpCode::new(0x8d, "STA", 3, 4, AddressingMode::Absolute)),
            0x9d => Ok(OpCode::new(0x9d, "STA", 3, 5, AddressingMode::AbsoluteX)),
            0x99 => Ok(OpCode::new(0x99, "STA", 3, 5, AddressingMode::AbsoluteY)),
            0x81 => Ok(OpCode::new(0x81, "STA", 2, 6, AddressingMode::IndirectX)),
            0x91 => Ok(OpCode::new(0x91, "STA", 2, 6, AddressingMode::IndirectY)),
            0xaa => Ok(OpCode::new(0xaa, "TAX", 1, 2, AddressingMode::NoneAddressing)),
            0xe8 => Ok(OpCode::new(0xe8, "INX", 1, 2, AddressingMode::NoneAddressing)),
            0x00 => Ok(OpCode::new(0x00, "BRK", 1, 7, AddressingMode::NoneAddressing)),
            _ => Err(CpuError::UnknownOpcode(val)),
        }
    }
}

} // verus!
