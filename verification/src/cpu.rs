//! The processor: its addressing modes, its operations and the
//! fetch-decode-execute loop.

use vstd::prelude::*;
use crate::error::CpuError;
use crate::flags::{CARRY, NEGATIVE, OVERFLOW, ZERO};
use crate::state::{word, CpuState, PROGRAM_BASE, PROGRAM_CAPACITY, RESET_VECTOR};

verus! {

/// How an instruction finds its operand.
#[derive(Debug, Clone, Copy, PartialEq, Eq, Structural)]
pub enum AddressingMode {
    /// The operand is the byte after the opcode.
    Immediate,
    /// The byte after the opcode is an address in page 0.
    ZeroPage,
    /// As `ZeroPage`, with X added inside page 0.
    ZeroPageX,
    /// As `ZeroPage`, with Y added inside page 0.
    ZeroPageY,
    /// The two bytes after the opcode are the address, low byte first.
    Absolute,
    /// As `Absolute`, with X added.
    AbsoluteX,
    /// As `Absolute`, with Y added.
    AbsoluteY,
    /// The byte after the opcode plus X, inside page 0, is where the
    /// address stands.
    IndirectX,
    /// The byte after the opcode is where an address stands, to which Y is
    /// added.
    IndirectY,
    /// The instruction has no operand.
    NoneAddressing,
}

impl AddressingMode {
    /// How many bytes follow the opcode under this mode.
    pub open spec fn operand_bytes(self) -> int {
        match self {
            AddressingMode::NoneAddressing => 0,
            AddressingMode::Absolute | AddressingMode::AbsoluteX | AddressingMode::AbsoluteY => 2,
            _ => 1,
        }
    }
}

/// What an instruction does, whatever its addressing mode.
#[derive(Debug, Clone, Copy, PartialEq, Eq, Structural)]
pub enum OpCode {
    /// Add memory and carry to the accumulator.
    ADC,
    /// Bitwise and of memory into the accumulator.
    AND,
    /// Load the accumulator from memory.
    LDA,
    /// Store the accumulator to memory.
    STA,
    /// Copy the accumulator to X.
    TAX,
    /// Increment X.
    INX,
    /// Halt.
    BRK,
}

impl OpCode {
    /// The three letters by which the instruction set names the operation.
    pub open spec fn mnemonic(self) -> Seq<char> {
        match self {
            OpCode::ADC => "ADC"@,
            OpCode::AND => "AND"@,
            OpCode::LDA => "LDA"@,
            OpCode::STA => "STA"@,
            OpCode::TAX => "TAX"@,
            OpCode::INX => "INX"@,
            OpCode::BRK => "BRK"@,
        }
    }

    /// Whether the operation works on an operand in memory.
    pub open spec fn is_addressed(self) -> bool {
        self == OpCode::ADC || self == OpCode::AND || self == OpCode::LDA || self == OpCode::STA
    }

    /// The operation that the opcode byte `val` stands for: that of the
    /// table's row for `val`, or `UnknownOpcode(val)` where it has none.
    pub fn from_u8(val: u8) -> (r: Result<OpCode, CpuError>)
        ensures
            r == match crate::opcode::lookup(val) {
                Some(row) => Ok::<OpCode, CpuError>(row.operation),
                None => Err::<OpCode, CpuError>(CpuError::UnknownOpcode(val)),
            },
    {
        proof {
            crate::opcode::lemma_table_has_no_duplicate();
            crate::opcode::lemma_lookup_finds_every_row();
        }
        match val {
            0x69 | 0x65 | 0x75 | 0x6d | 0x7d | 0x79 | 0x61 | 0x71 => Ok(OpCode::ADC),
            0x29 | 0x25 | 0x35 | 0x2d | 0x3d | 0x39 | 0x21 | 0x31 => Ok(OpCode::AND),
            0xa9 | 0xa5 | 0xb5 | 0xad | 0xbd | 0xb9 | 0xa1 | 0xb1 => Ok(OpCode::LDA),
            0x85 | 0x95 | 0x8d | 0x9d | 0x99 | 0x81 | 0x91 => Ok(OpCode::STA),
            0xaa => Ok(OpCode::TAX),
            0xe8 => Ok(OpCode::INX),
            0x00 => Ok(OpCode::BRK),
            _ => Err(CpuError::UnknownOpcode(val)),
        }
    }

    /// The operation's mnemonic as a string.
    pub fn name(self) -> (s: &'static str)
        ensures
            s@ == self.mnemonic(),
    {
        match self {
            OpCode::ADC => "ADC",
            OpCode::AND => "AND",
            OpCode::LDA => "LDA",
            OpCode::STA => "STA",
            OpCode::TAX => "TAX",
            OpCode::INX => "INX",
            OpCode::BRK => "BRK",
        }
    }
}

/// The processor with its memory.
pub struct CPU {
    /// The accumulator.
    pub a: u8,
    /// The index register X.
    pub x: u8,
    /// The index register Y.
    pub y: u8,
    /// The status flags.
    pub status: u8,
    /// The address of the next byte to fetch.
    pub program_counter: u16,
    /// The memory, one byte for each 16-bit address.
    pub memory: [u8; 0x10000],
}

impl View for CPU {
    type V = CpuState;

    open spec fn view(&self) -> CpuState {
        CpuState {
            a: self.a,
            x: self.x,
            y: self.y,
            status: self.status,
            program_counter: self.program_counter,
            memory: self.memory@,
        }
    }
}

impl CPU {
    /// The memory of a processor always has its 65536 cells.
    pub proof fn lemma_memory_size(&self)
        ensures
            self@.wf(),
    {
    }

    /// A processor with every register and every memory cell zero.
    pub fn new() -> (cpu: CPU)
        ensures
            cpu.a == 0,
            cpu.x == 0,
            cpu.y == 0,
            cpu.status == 0,
            cpu.program_counter == 0,
            cpu@.wf(),
            forall|i: int| 0 <= i < 0x10000 ==> cpu@.memory[i] == 0,
    {
        CPU { a: 0, x: 0, y: 0, status: 0, program_counter: 0, memory: [0; 0x10000] }
    }

    /// The byte at `addr`.
    pub fn mem_read(&self, addr: u16) -> (value: u8)
        ensures
            value == self@.read(addr),
    {
        self.memory[addr as usize]
    }

    /// Stores `value` at `addr`; nothing else changes.
    pub fn mem_write(&mut self, addr: u16, value: u8)
        ensures
            final(self)@ == old(self)@.write(addr, value),
    {
        self.memory[addr as usize] = value;
    }

    /// The 16-bit value stored low byte first at `pos` and `pos + 1`, or
    /// `MemoryAddressOutOfRange` where `pos` is the last cell.
    pub fn mem_read_u16(&self, pos: u16) -> (r: Result<u16, CpuError>)
        ensures
            r == self@.read_u16(pos),
    {
        if pos == 0xFFFF {
            return Err(CpuError::MemoryAddressOutOfRange);
        }
        Ok(self.read_word(pos))
    }

    /// The 16-bit value stored low byte first at `pos` and `pos + 1`.
    fn read_word(&self, pos: u16) -> (data: u16)
        requires
            pos < 0xFFFF,
        ensures
            data == word(self@.memory[pos as int], self@.memory[pos + 1]),
    {
        let lo: u8 = self.mem_read(pos);
        let hi: u8 = self.mem_read(pos + 1);
        assert(((hi as u16) << 8) | (lo as u16) == lo as u16 + 256 * (hi as u16)) by (bit_vector);
        ((hi as u16) << 8) | (lo as u16)
    }

    /// Stores `data` low byte first at `pos` and `pos + 1`, or changes
    /// nothing and answers `MemoryAddressOutOfRange` where `pos` is the last
    /// cell.
    pub fn mem_write_u16(&mut self, pos: u16, data: u16) -> (r: Result<(), CpuError>)
        ensures
            match old(self)@.write_u16(pos, data) {
                Ok(after) => r is Ok && final(self)@ == after,
                Err(e) => r == Err::<(), CpuError>(e) && final(self)@ == old(self)@,
            },
    {
        if pos == 0xFFFF {
            return Err(CpuError::MemoryAddressOutOfRange);
        }
        self.write_word(pos, data);
        Ok(())
    }

    /// Stores `data` low byte first at `pos` and `pos + 1`.
    fn write_word(&mut self, pos: u16, data: u16)
        requires
            pos < 0xFFFF,
        ensures
            Ok::<CpuState, CpuError>(final(self)@) == old(self)@.write_u16(pos, data),
    {
        let hi: u8 = (data >> 8) as u8;
        let lo: u8 = (data & 0xff) as u8;
        assert((data >> 8) == data / 256 && (data & 0xff) == data % 256) by (bit_vector);
        self.mem_write(pos, lo);
        self.mem_write(pos + 1, hi);
    }

    /// The address of the operand under `mode`, with the program counter at
    /// the first byte after the opcode. Reads at most two bytes there and
    /// moves nothing. `NoneAddressing` has no operand and is answered with
    /// `InvalidAddressingMode`; a two-byte operand that would start at the
    /// last cell with `MemoryAddressOutOfRange`.
    pub fn get_operand_address(&self, mode: &AddressingMode) -> (r: Result<u16, CpuError>)
        ensures
            r == self@.operand_address(*mode),
    {
        match mode {
            AddressingMode::Immediate => Ok(self.program_counter),
            AddressingMode::ZeroPage => Ok(self.mem_read(self.program_counter) as u16),
            AddressingMode::Absolute => self.mem_read_u16(self.program_counter),
            AddressingMode::ZeroPageX => {
                let pos: u8 = self.mem_read(self.program_counter);
                Ok(pos.wrapping_add(self.x) as u16)
            },
            AddressingMode::ZeroPageY => {
                let pos: u8 = self.mem_read(self.program_counter);
                Ok(pos.wrapping_add(self.y) as u16)
            },
            AddressingMode::AbsoluteX => {
                match self.mem_read_u16(self.program_counter) {
                    Ok(base) => Ok(base.wrapping_add(self.x as u16)),
                    Err(e) => Err(e),
                }
            },
            AddressingMode::AbsoluteY => {
                match self.mem_read_u16(self.program_counter) {
                    Ok(base) => Ok(base.wrapping_add(self.y as u16)),
                    Err(e) => Err(e),
                }
            },
            AddressingMode::IndirectX => {
                let base: u8 = self.mem_read(self.program_counter);
                let ptr: u8 = base.wrapping_add(self.x);
                self.mem_read_u16(ptr as u16)
            },
            AddressingMode::IndirectY => {
                let base: u8 = self.mem_read(self.program_counter);
                match self.mem_read_u16(base as u16) {
                    Ok(deref_base) => Ok(deref_base.wrapping_add(self.y as u16)),
                    Err(e) => Err(e),
                }
            },
            AddressingMode::NoneAddressing => Err(CpuError::InvalidAddressingMode),
        }
    }

    /// Sets the zero flag exactly when `result` is zero and the negative
    /// flag exactly when bit 7 of `result` is set. No other flag and no
    /// register changes.
    pub fn update_zero_and_negative_flags(&mut self, result: u8)
        ensures
            final(self)@ == old(self)@.update_zero_and_negative_flags(result),
    {
        let before: u8 = self.status;
        if result == 0 {
            self.status = self.status | ZERO;
        } else {
            self.status = self.status & 0b1111_1101;
        }
        if result & NEGATIVE != 0 {
            self.status = self.status | NEGATIVE;
        } else {
            self.status = self.status & 0b0111_1111;
        }
        proof {
            let z: u8 = if result == 0 { 2u8 } else { 0u8 };
            let mid: u8 = if result == 0 { before | 2 } else { before & 0b1111_1101 };
            let after: u8 = if result & 0x80 != 0 { mid | 0x80 } else { mid & 0b0111_1111 };
            assert(after == (before & 0b0111_1101) | z | (result & 0x80)) by (bit_vector)
                requires
                    z == (if result == 0 { 2u8 } else { 0u8 }),
                    mid == (if result == 0 { before | 2 } else { before & 0b1111_1101 }),
                    after == (if result & 0x80 != 0 { mid | 0x80 } else { mid & 0b0111_1111 }),
            ;
        }
    }

    /// Loads the accumulator with the operand found under `mode` and sets
    /// zero and negative from it. Where the operand has no address, nothing
    /// changes.
    pub fn lda(&mut self, mode: &AddressingMode) -> (r: Result<(), CpuError>)
        ensures
            match old(self)@.operand_address(*mode) {
                Ok(addr) => r is Ok && final(self)@ == old(self)@.load_accumulator(
                    old(self)@.read(addr),
                ),
                Err(e) => r == Err::<(), CpuError>(e) && final(self)@ == old(self)@,
            },
    {
        let addr: u16 = match self.get_operand_address(mode) {
            Ok(addr) => addr,
            Err(e) => { return Err(e); },
        };
        let value: u8 = self.mem_read(addr);
        self.a = value;
        self.update_zero_and_negative_flags(value);
        Ok(())
    }

    /// Ands the operand found under `mode` into the accumulator and sets
    /// zero and negative from the result; carry and overflow stay. Where the
    /// operand has no address, nothing changes.
    pub fn and(&mut self, mode: &AddressingMode) -> (r: Result<(), CpuError>)
        ensures
            match old(self)@.operand_address(*mode) {
                Ok(addr) => r is Ok && final(self)@ == old(self)@.and_accumulator(
                    old(self)@.read(addr),
                ),
                Err(e) => r == Err::<(), CpuError>(e) && final(self)@ == old(self)@,
            },
    {
        let addr: u16 = match self.get_operand_address(mode) {
            Ok(addr) => addr,
            Err(e) => { return Err(e); },
        };
        let value: u8 = self.mem_read(addr);
        self.a = self.a & value;
        self.update_zero_and_negative_flags(self.a);
        Ok(())
    }

    /// Adds the operand found under `mode` and the carry flag to the
    /// accumulator. Carry is set exactly when the sum exceeds 255, overflow
    /// exactly when both summands differ from the result in bit 7, zero and
    /// negative from the result. Where the operand has no address, nothing
    /// changes.
    pub fn adc(&mut self, mode: &AddressingMode) -> (r: Result<(), CpuError>)
        ensures
            match old(self)@.operand_address(*mode) {
                Ok(addr) => r is Ok && final(self)@ == old(self)@.add_with_carry(
                    old(self)@.read(addr),
                ),
                Err(e) => r == Err::<(), CpuError>(e) && final(self)@ == old(self)@,
            },
    {
        let addr: u16 = match self.get_operand_address(mode) {
            Ok(addr) => addr,
            Err(e) => { return Err(e); },
        };
        let value: u8 = self.mem_read(addr);
        let carry_in: u16 = if self.status & CARRY != 0 { 1 } else { 0 };
        let wide: u16 = self.a as u16 + value as u16 + carry_in;
        let result: u8 = (wide & 0xff) as u8;
        assert(wide & 0xff == wide % 256) by (bit_vector);
        if wide > 255 {
            self.status = self.status | CARRY;
        } else {
            self.status = self.status & !CARRY;
        }
        if (self.a ^ result) & (value ^ result) & 0x80 != 0 {
            self.status = self.status | OVERFLOW;
        } else {
            self.status = self.status & !OVERFLOW;
        }
        self.a = result;
        self.update_zero_and_negative_flags(result);
        Ok(())
    }

    /// Stores the accumulator at the address found under `mode`. No
    /// register and no flag changes. Where the operand has no address,
    /// nothing changes.
    pub fn sta(&mut self, mode: &AddressingMode) -> (r: Result<(), CpuError>)
        ensures
            match old(self)@.operand_address(*mode) {
                Ok(addr) => r is Ok && final(self)@ == old(self)@.write(addr, old(self).a),
                Err(e) => r == Err::<(), CpuError>(e) && final(self)@ == old(self)@,
            },
    {
        let addr: u16 = match self.get_operand_address(mode) {
            Ok(addr) => addr,
            Err(e) => { return Err(e); },
        };
        self.mem_write(addr, self.a);
        Ok(())
    }

    /// Copies the accumulator to X and sets zero and negative from it.
    pub fn tax(&mut self)
        ensures
            final(self)@ == old(self)@.transfer_a_to_x(),
    {
        self.x = self.a;
        self.update_zero_and_negative_flags(self.x);
    }

    /// Increments X modulo 256 and sets zero and negative from it. The
    /// carry flag stays as it was.
    pub fn inx(&mut self)
        ensures
            final(self)@ == old(self)@.increment_x(),
    {
        self.x = self.x.wrapping_add(1);
        self.update_zero_and_negative_flags(self.x);
    }

    /// Copies `program` into memory from `PROGRAM_BASE` on and then writes
    /// `PROGRAM_BASE` into the reset vector. A program longer than
    /// `PROGRAM_CAPACITY` does not fit: it is answered with
    /// `MemoryAddressOutOfRange` and nothing changes.
    pub fn load(&mut self, program: Vec<u8>) -> (r: Result<(), CpuError>)
        ensures
            match old(self)@.load(program@) {
                Ok(loaded) => r is Ok && final(self)@ == loaded,
                Err(e) => r == Err::<(), CpuError>(e) && final(self)@ == old(self)@,
            },
    {
        if program.len() > PROGRAM_CAPACITY {
            return Err(CpuError::MemoryAddressOutOfRange);
        }
        let ghost before = self@;
        let mut i: usize = 0;
        assert(self@.memory =~= before.with_program(program@.take(0)).memory);
        while i < program.len()
            invariant
                i <= program.len() <= PROGRAM_CAPACITY,
                self@ == before.with_program(program@.take(i as int)),
            decreases program.len() - i,
        {
            self.memory[PROGRAM_BASE as usize + i] = program[i];
            i = i + 1;
            assert(self@.memory =~= before.with_program(program@.take(i as int)).memory);
        }
        assert(program@.take(i as int) =~= program@);
        self.write_word(RESET_VECTOR, PROGRAM_BASE);
        Ok(())
    }

    /// Zeroes the accumulator, X, Y and the flags, and sets the program
    /// counter to the address that stands in the reset vector. Memory stays.
    pub fn reset(&mut self)
        ensures
            final(self)@ == old(self)@.reset(),
    {
        self.a = 0;
        self.x = 0;
        self.y = 0;
        self.status = 0;
        self.program_counter = self.read_word(RESET_VECTOR);
    }

    /// Carries out the instruction at the program counter. `Ok(false)` says
    /// that execution goes on, `Ok(true)` that the instruction was BRK. The
    /// opcode is decoded first: a byte that the table does not hold is
    /// answered with `UnknownOpcode`, and BRK halts, wherever the program
    /// counter stands. Any other instruction that would take the program
    /// counter past the end of memory is answered with
    /// `MemoryAddressOutOfRange`.
    pub fn step(&mut self) -> (r: Result<bool, CpuError>)
        ensures
            (final(self)@, r) == old(self)@.step(),
    {
        let byte: u8 = self.mem_read(self.program_counter);
        let descriptor = match crate::opcode::OpCode::from_u8(byte) {
            Ok(descriptor) => descriptor,
            Err(e) => {
                self.program_counter = self.program_counter.wrapping_add(1);
                return Err(e);
            },
        };
        let operation = match OpCode::from_u8(byte) {
            Ok(operation) => operation,
            Err(e) => {
                self.program_counter = self.program_counter.wrapping_add(1);
                return Err(e);
            },
        };
        if let OpCode::BRK = operation {
            self.program_counter = self.program_counter.wrapping_add(1);
            return Ok(true);
        }
        if self.program_counter == 0xFFFF {
            return Err(CpuError::MemoryAddressOutOfRange);
        }
        self.program_counter = self.program_counter + 1;
        let done = match operation {
            OpCode::ADC => self.adc(&descriptor.mode),
            OpCode::AND => self.and(&descriptor.mode),
            OpCode::LDA => self.lda(&descriptor.mode),
            OpCode::STA => self.sta(&descriptor.mode),
            OpCode::TAX => {
                self.tax();
                Ok(())
            },
            OpCode::INX => {
                self.inx();
                Ok(())
            },
            OpCode::BRK => Ok(()),
        };
        if let Err(e) = done {
            return Err(e);
        }
        proof {
            crate::opcode::lemma_table_rows_are_consistent();
        }
        let operand_bytes: u16 = (descriptor.bytes - 1) as u16;
        if operand_bytes > 0xFFFF - self.program_counter {
            return Err(CpuError::MemoryAddressOutOfRange);
        }
        self.program_counter = self.program_counter + operand_bytes;
        Ok(false)
    }

    /// Carries out instructions from the program counter on until one is
    /// BRK, which ends the run with `Ok`, or one fails, which ends it with
    /// the failure: `UnknownOpcode` of the first fetched byte that the
    /// table does not hold, or `MemoryAddressOutOfRange` where an
    /// instruction other than BRK reaches the end of memory. The failure is
    /// never `InvalidAddressingMode`.
    pub fn run(&mut self) -> (r: Result<(), CpuError>)
        ensures
            (final(self)@, r) == old(self)@.run(),
            r != Err::<(), CpuError>(CpuError::InvalidAddressingMode),
    {
        proof {
            self@.lemma_run_ends_well();
        }
        loop
            invariant
                self@.run() == old(self)@.run(),
            decreases 0x10000 - self.program_counter,
        {
            let ghost before = self@;
            proof {
                before.lemma_step_advances();
            }
            let stepped = self.step();
            assert(before.run() == match stepped {
                Ok(false) => self@.run(),
                Ok(true) => (self@, Ok::<(), CpuError>(())),
                Err(e) => (self@, Err::<(), CpuError>(e)),
            });
            match stepped {
                Ok(false) => {},
                Ok(true) => { return Ok(()); },
                Err(e) => { return Err(e); },
            }
        }
    }

    /// Loads `program`, resets the processor and runs the program. A
    /// program that does not fit is answered with `MemoryAddressOutOfRange`
    /// before anything changes.
    pub fn load_and_run(&mut self, program: Vec<u8>) -> (r: Result<(), CpuError>)
        ensures
            (final(self)@, r) == old(self)@.load_and_run(program@),
            r != Err::<(), CpuError>(CpuError::InvalidAddressingMode),
    {
        match self.load(program) {
            Ok(()) => {},
            Err(e) => { return Err(e); },
        }
        self.reset();
        self.run()
    }
}

} // verus!
