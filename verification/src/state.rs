//! The machine state as a mathematical value, and what each operation
//! makes of it.
//!
//! Everything here is specification: the executable processor in
//! [`crate::cpu`] is proved to compute these functions.

use vstd::prelude::*;
use crate::cpu::AddressingMode;
use crate::cpu::OpCode;
use crate::error::CpuError;
use crate::flags::{
    is_set, lemma_with_flag, lemma_zero_and_negative, with_flag, with_zero_and_negative, CARRY,
    NEGATIVE, OVERFLOW, ZERO,
};
use crate::opcode::{lemma_table_rows_are_consistent, lookup};

verus! {

/// The number of memory cells.
pub const MEMORY_SIZE: usize = 0x10000;

/// Where a loaded program starts.
pub const PROGRAM_BASE: u16 = 0x8000;

/// Where the address stands at which execution starts after a reset.
pub const RESET_VECTOR: u16 = 0xFFFC;

/// The longest program that fits between `PROGRAM_BASE` and the end of
/// memory.
pub const PROGRAM_CAPACITY: usize = 0x8000;

/// The 16-bit value whose low byte is `lo` and whose high byte is `hi`.
pub open spec fn word(lo: u8, hi: u8) -> u16 {
    (lo + 256 * hi) as u16
}

/// The low byte of `w`.
pub open spec fn low_byte(w: u16) -> u8 {
    (w % 256) as u8
}

/// The high byte of `w`.
pub open spec fn high_byte(w: u16) -> u8 {
    (w / 256) as u8
}

/// `n` modulo 256.
pub open spec fn wrap8(n: int) -> u8 {
    (n % 256) as u8
}

/// `n` modulo 65536.
pub open spec fn wrap16(n: int) -> u16 {
    (n % 0x10000) as u16
}

/// The value of `b` read as a signed number in two's complement.
pub open spec fn signed(b: u8) -> int {
    if b >= 0x80 {
        b - 256
    } else {
        b as int
    }
}

/// The registers and the memory of the machine.
pub struct CpuState {
    pub a: u8,
    pub x: u8,
    pub y: u8,
    pub status: u8,
    pub program_counter: u16,
    pub memory: Seq<u8>,
}

impl CpuState {
    /// The memory has its 65536 cells.
    pub open spec fn wf(self) -> bool {
        self.memory.len() == MEMORY_SIZE
    }

    /// The byte at `addr`.
    pub open spec fn read(self, addr: u16) -> u8 {
        self.memory[addr as int]
    }

    /// The state with `value` at `addr`.
    pub open spec fn write(self, addr: u16, value: u8) -> CpuState {
        CpuState { memory: self.memory.update(addr as int, value), ..self }
    }

    /// The little-endian 16-bit value at `pos` and `pos + 1`. There is none
    /// at the last cell.
    pub open spec fn read_u16(self, pos: u16) -> Result<u16, CpuError> {
        if pos < 0xFFFF {
            Ok(word(self.memory[pos as int], self.memory[pos + 1]))
        } else {
            Err(CpuError::MemoryAddressOutOfRange)
        }
    }

    /// The state with `data` stored little-endian at `pos` and `pos + 1`.
    pub open spec fn write_u16(self, pos: u16, data: u16) -> Result<CpuState, CpuError> {
        if pos < 0xFFFF {
            Ok(
                CpuState {
                    memory: self.memory.update(pos as int, low_byte(data)).update(
                        pos + 1,
                        high_byte(data),
                    ),
                    ..self
                },
            )
        } else {
            Err(CpuError::MemoryAddressOutOfRange)
        }
    }

    /// The address of the operand of an instruction under `mode`, with the
    /// program counter at the first byte after the opcode.
    pub open spec fn operand_address(self, mode: AddressingMode) -> Result<u16, CpuError> {
        let pc = self.program_counter;
        let operand = self.read(pc);
        match mode {
            AddressingMode::Immediate => Ok(pc),
            AddressingMode::ZeroPage => Ok(operand as u16),
            AddressingMode::ZeroPageX => Ok(wrap8(operand + self.x) as u16),
            AddressingMode::ZeroPageY => Ok(wrap8(operand + self.y) as u16),
            AddressingMode::Absolute => self.read_u16(pc),
            AddressingMode::AbsoluteX => match self.read_u16(pc) {
                Ok(base) => Ok(wrap16(base + self.x)),
                Err(e) => Err(e),
            },
            AddressingMode::AbsoluteY => match self.read_u16(pc) {
                Ok(base) => Ok(wrap16(base + self.y)),
                Err(e) => Err(e),
            },
            AddressingMode::IndirectX => self.read_u16(wrap8(operand + self.x) as u16),
            AddressingMode::IndirectY => match self.read_u16(operand as u16) {
                Ok(base) => Ok(wrap16(base + self.y)),
                Err(e) => Err(e),
            },
            AddressingMode::NoneAddressing => Err(CpuError::InvalidAddressingMode),
        }
    }

    /// The state with the zero and negative flags taken from `result`.
    pub open spec fn update_zero_and_negative_flags(self, result: u8) -> CpuState {
        CpuState { status: with_zero_and_negative(self.status, result), ..self }
    }

    /// The state after loading `value` into the accumulator.
    pub open spec fn load_accumulator(self, value: u8) -> CpuState {
        CpuState { a: value, ..self }.update_zero_and_negative_flags(value)
    }

    /// The state after and-ing `value` into the accumulator.
    pub open spec fn and_accumulator(self, value: u8) -> CpuState {
        self.load_accumulator(self.a & value)
    }

    /// The sum of the accumulator, `value` and the carry flag, before it is
    /// cut to eight bits.
    pub open spec fn wide_sum(self, value: u8) -> int {
        self.a + value + (if is_set(self.status, CARRY) { 1int } else { 0int })
    }

    /// The state after adding `value` and the carry flag to the accumulator.
    /// Carry is set when the sum does not fit in eight bits; overflow is set
    /// when both summands differ from the result in bit 7.
    pub open spec fn add_with_carry(self, value: u8) -> CpuState {
        let wide = self.wide_sum(value);
        let result = wrap8(wide);
        let overflow = (self.a ^ result) & (value ^ result) & 0x80 != 0;
        let status = with_flag(with_flag(self.status, CARRY, wide > 255), OVERFLOW, overflow);
        CpuState { a: result, status, ..self }.update_zero_and_negative_flags(result)
    }

    /// The state after copying the accumulator to X.
    pub open spec fn transfer_a_to_x(self) -> CpuState {
        CpuState { x: self.a, ..self }.update_zero_and_negative_flags(self.a)
    }

    /// The state after incrementing X, modulo 256.
    pub open spec fn increment_x(self) -> CpuState {
        let x = wrap8(self.x + 1);
        CpuState { x, ..self }.update_zero_and_negative_flags(x)
    }

    /// The state after carrying out `operation` under `mode`, with the
    /// program counter at the first byte after the opcode. The program
    /// counter stays where it is. An operation without operand does not
    /// look at `mode`.
    pub open spec fn execute(self, operation: OpCode, mode: AddressingMode) -> Result<
        CpuState,
        CpuError,
    > {
        match operation {
            OpCode::TAX => Ok(self.transfer_a_to_x()),
            OpCode::INX => Ok(self.increment_x()),
            OpCode::BRK => Ok(self),
            _ => match self.operand_address(mode) {
                Err(e) => Err(e),
                Ok(addr) => Ok(
                    match operation {
                        OpCode::ADC => self.add_with_carry(self.read(addr)),
                        OpCode::AND => self.and_accumulator(self.read(addr)),
                        OpCode::LDA => self.load_accumulator(self.read(addr)),
                        _ => self.write(addr, self.a),
                    },
                ),
            },
        }
    }

    /// The state after one instruction, and how the instruction ended:
    /// `Ok(false)` to go on, `Ok(true)` after BRK, or the failure.
    ///
    /// The opcode is read at the program counter and looked up in the
    /// table. A byte without a row fails with `UnknownOpcode`, and BRK
    /// halts; either leaves the program counter one byte on, modulo 65536.
    /// Any other instruction is carried out with the program counter at
    /// its first operand byte, and the program counter then moves past the
    /// operand bytes. Such an instruction has to end before the last cell:
    /// where the program counter would have to pass the end of memory, the
    /// instruction fails with `MemoryAddressOutOfRange`. A failure leaves
    /// the state as the stage that failed found it.
    pub open spec fn step(self) -> (CpuState, Result<bool, CpuError>) {
        let byte = self.read(self.program_counter);
        let wrapped = CpuState { program_counter: wrap16(self.program_counter + 1), ..self };
        match lookup(byte) {
            None => (wrapped, Err(CpuError::UnknownOpcode(byte))),
            Some(row) => if row.operation == OpCode::BRK {
                (wrapped, Ok(true))
            } else if self.program_counter == 0xFFFF {
                (self, Err(CpuError::MemoryAddressOutOfRange))
            } else {
                let fetched = CpuState {
                    program_counter: (self.program_counter + 1) as u16,
                    ..self
                };
                match fetched.execute(row.operation, row.mode) {
                    Err(e) => (fetched, Err(e)),
                    Ok(done) => if done.program_counter + row.bytes - 1 > 0xFFFF {
                        (done, Err(CpuError::MemoryAddressOutOfRange))
                    } else {
                        (
                            CpuState {
                                program_counter: (done.program_counter + row.bytes - 1) as u16,
                                ..done
                            },
                            Ok(false),
                        )
                    },
                }
            },
        }
    }

    /// The state in which execution stops, and why: `Ok` after the first
    /// BRK that is fetched, or the failure of the first instruction that
    /// could not be carried out.
    pub open spec fn run(self) -> (CpuState, Result<(), CpuError>)
        decreases 0x10000 - self.program_counter,
    {
        let (next, r) = self.step();
        match r {
            Ok(false) => {
                proof {
                    self.lemma_step_advances();
                }
                next.run()
            },
            Ok(true) => (next, Ok(())),
            Err(e) => (next, Err(e)),
        }
    }

    /// An instruction after which execution goes on leaves the program
    /// counter further on by one to three bytes.
    pub proof fn lemma_step_advances(self)
        ensures
            self.step().1 == Ok::<bool, CpuError>(false) ==> self.program_counter
                < self.step().0.program_counter <= self.program_counter + 3,
    {
        lemma_table_rows_are_consistent();
    }

    /// The memory with `program` copied in from `PROGRAM_BASE` on.
    pub open spec fn with_program(self, program: Seq<u8>) -> CpuState {
        CpuState {
            memory: Seq::new(
                MEMORY_SIZE as nat,
                |i: int|
                    if PROGRAM_BASE <= i < PROGRAM_BASE + program.len() {
                        program[i - PROGRAM_BASE]
                    } else {
                        self.memory[i]
                    },
            ),
            ..self
        }
    }

    /// The state after loading `program`: its bytes stand in memory from
    /// `PROGRAM_BASE` on, and then `PROGRAM_BASE` stands in the reset
    /// vector. A program that does not fit in memory is not loaded.
    pub open spec fn load(self, program: Seq<u8>) -> Result<CpuState, CpuError> {
        if program.len() <= PROGRAM_CAPACITY {
            self.with_program(program).write_u16(RESET_VECTOR, PROGRAM_BASE)
        } else {
            Err(CpuError::MemoryAddressOutOfRange)
        }
    }

    /// The state after a reset: the registers and flags are zero and the
    /// program counter holds what stands in the reset vector.
    pub open spec fn reset(self) -> CpuState {
        CpuState {
            a: 0,
            x: 0,
            y: 0,
            status: 0,
            program_counter: word(
                self.memory[RESET_VECTOR as int],
                self.memory[RESET_VECTOR + 1],
            ),
            memory: self.memory,
        }
    }

    /// The state after loading `program`, resetting and running, and how
    /// the run ended. A program that does not fit changes nothing.
    pub open spec fn load_and_run(self, program: Seq<u8>) -> (CpuState, Result<(), CpuError>) {
        match self.load(program) {
            Ok(loaded) => loaded.reset().run(),
            Err(e) => (self, Err(e)),
        }
    }

    /// Carrying out an operation leaves the program counter where it was
    /// and the memory at its size.
    pub proof fn lemma_execute_keeps_program_counter(self, operation: OpCode, mode: AddressingMode)
        requires
            self.wf(),
        ensures
            match self.execute(operation, mode) {
                Ok(done) => done.program_counter == self.program_counter && done.wf(),
                Err(_) => true,
            },
    {
    }

    /// An operation without operand never fails, whatever the mode, and an
    /// operation on memory fails exactly when the resolver does.
    pub proof fn lemma_execute_fails_as_the_resolver(
        self,
        operation: OpCode,
        mode: AddressingMode,
    )
        ensures
            !operation.is_addressed() ==> self.execute(operation, mode) is Ok,
            operation.is_addressed() ==> (self.execute(operation, mode) is Err
                <==> self.operand_address(mode) is Err),
            self.operand_address(mode) == Err::<u16, CpuError>(CpuError::InvalidAddressingMode)
                <==> mode == AddressingMode::NoneAddressing,
    {
    }

    /// The zero-page modes stay in page 0, whatever the index register
    /// holds.
    pub proof fn lemma_zero_page_stays_in_page_zero(self, mode: AddressingMode)
        requires
            mode == AddressingMode::ZeroPage || mode == AddressingMode::ZeroPageX || mode
                == AddressingMode::ZeroPageY,
        ensures
            self.operand_address(mode) is Ok,
            self.operand_address(mode)->Ok_0 < 0x100,
    {
    }

    /// Loading, and-ing, transferring and incrementing leave the carry and
    /// overflow flags as they were.
    pub proof fn lemma_only_addition_touches_carry_and_overflow(self, value: u8)
        ensures
            self.load_accumulator(value).status & 0b0111_1101 == self.status & 0b0111_1101,
            self.and_accumulator(value).status & 0b0111_1101 == self.status & 0b0111_1101,
            self.transfer_a_to_x().status & 0b0111_1101 == self.status & 0b0111_1101,
            self.increment_x().status & 0b0111_1101 == self.status & 0b0111_1101,
            is_set(self.increment_x().status, CARRY) == is_set(self.status, CARRY),
    {
        lemma_zero_and_negative(self.status, value);
        lemma_zero_and_negative(self.status, self.a & value);
        lemma_zero_and_negative(self.status, self.a);
        lemma_zero_and_negative(self.status, wrap8(self.x + 1));
    }

    /// After an addition the accumulator holds the sum modulo 256; carry is
    /// set exactly when the sum exceeds 255; overflow exactly when the sum
    /// of the summands, read as signed numbers, does not fit in a signed
    /// byte; zero and negative describe the new accumulator.
    pub proof fn lemma_add_with_carry_flags(self, value: u8)
        ensures
            self.add_with_carry(value).a == self.wide_sum(value) % 256,
            is_set(self.add_with_carry(value).status, CARRY) <==> self.wide_sum(value) > 255,
            is_set(self.add_with_carry(value).status, OVERFLOW) <==> !(-128 <= signed(self.a)
                + signed(value) + (self.wide_sum(value) - self.a - value) <= 127),
            is_set(self.add_with_carry(value).status, ZERO) <==> self.add_with_carry(value).a == 0,
            is_set(self.add_with_carry(value).status, NEGATIVE) <==> self.add_with_carry(value).a
                >= 0x80,
    {
        let a = self.a;
        let wide = self.wide_sum(value);
        let result = wrap8(wide);
        let overflow = (a ^ result) & (value ^ result) & 0x80 != 0;
        let s0 = self.status;
        let s1 = with_flag(s0, CARRY, wide > 255);
        let s2 = with_flag(s1, OVERFLOW, overflow);
        let s3 = with_zero_and_negative(s2, result);
        assert(self.add_with_carry(value).status == s3);
        lemma_zero_and_negative(s2, result);
        lemma_with_flag(s0, CARRY, wide > 255);
        lemma_with_flag(s1, OVERFLOW, overflow);
        assert(CARRY & OVERFLOW == 0) by (bit_vector);
        assert(is_set(s2, CARRY) == is_set(s1, CARRY));
        assert(overflow <==> ((a < 0x80 && value < 0x80 && result >= 0x80) || (a >= 0x80 && value
            >= 0x80 && result < 0x80))) by (bit_vector)
            requires
                overflow == ((a ^ result) & (value ^ result) & 0x80 != 0),
        ;
    }

    /// No instruction fails with `InvalidAddressingMode`: the table gives
    /// every operation on memory a mode that has an operand.
    pub proof fn lemma_step_never_resolves_without_operand(self)
        ensures
            self.step().1 != Err::<bool, CpuError>(CpuError::InvalidAddressingMode),
    {
        lemma_table_rows_are_consistent();
        let byte = self.read(self.program_counter);
        if self.program_counter != 0xFFFF {
            let fetched = CpuState { program_counter: (self.program_counter + 1) as u16, ..self };
            match lookup(byte) {
                None => {},
                Some(row) => {
                    fetched.lemma_execute_fails_as_the_resolver(row.operation, row.mode);
                },
            }
        }
    }

    /// A byte without a row in the table fails with `UnknownOpcode` of that
    /// byte, and no other byte does; BRK halts, and no other instruction
    /// does. Both hold wherever the program counter stands, the last cell
    /// included, and both leave the program counter one byte on, modulo
    /// 65536, with everything else as it was.
    pub proof fn lemma_step_decodes_first(self)
        ensures
            lookup(self.read(self.program_counter)) is None <==> self.step().1 == Err::<
                bool,
                CpuError,
            >(CpuError::UnknownOpcode(self.read(self.program_counter))),
            forall|b: u8|
                self.step().1 == Err::<bool, CpuError>(CpuError::UnknownOpcode(b)) ==> b
                    == self.read(self.program_counter),
            self.step().1 == Ok::<bool, CpuError>(true) <==> (lookup(
                self.read(self.program_counter),
            ) is Some && lookup(self.read(self.program_counter))->Some_0.operation
                == OpCode::BRK),
            self.step().1 is Err && self.step().1->Err_0 is UnknownOpcode || self.step().1
                == Ok::<bool, CpuError>(true) ==> self.step().0 == (CpuState {
                program_counter: wrap16(self.program_counter + 1),
                ..self
            }),
    {
        let byte = self.read(self.program_counter);
        match lookup(byte) {
            None => {},
            Some(row) => {
                if row.operation != OpCode::BRK && self.program_counter != 0xFFFF {
                    let fetched = CpuState {
                        program_counter: (self.program_counter + 1) as u16,
                        ..self
                    };
                    fetched.lemma_execute_fails_as_the_resolver(row.operation, row.mode);
                }
            },
        }
    }

    /// An instruction leaves the memory at its size.
    pub proof fn lemma_step_keeps_memory_size(self)
        requires
            self.wf(),
        ensures
            self.step().0.wf(),
    {
    }

    /// A run ends in a state with the memory at its size, and never with
    /// `InvalidAddressingMode`.
    pub proof fn lemma_run_ends_well(self)
        requires
            self.wf(),
        ensures
            self.run().0.wf(),
            self.run().1 != Err::<(), CpuError>(CpuError::InvalidAddressingMode),
        decreases 0x10000 - self.program_counter,
    {
        self.lemma_step_advances();
        self.lemma_step_keeps_memory_size();
        self.lemma_step_never_resolves_without_operand();
        let (next, r) = self.step();
        if r == Ok::<bool, CpuError>(false) {
            next.lemma_run_ends_well();
        }
    }

    /// A run that ends with `Ok` ends just behind a BRK: the cell before
    /// the program counter, modulo 65536, holds the opcode of BRK.
    pub proof fn lemma_run_halts_behind_brk(self)
        requires
            self.wf(),
            self.run().1 is Ok,
        ensures
            lookup(self.run().0.read(wrap16(self.run().0.program_counter + 0xFFFF))) is Some,
            lookup(
                self.run().0.read(wrap16(self.run().0.program_counter + 0xFFFF)),
            )->Some_0.operation == OpCode::BRK,
        decreases 0x10000 - self.program_counter,
    {
        self.lemma_step_advances();
        self.lemma_step_keeps_memory_size();
        let (next, r) = self.step();
        if r == Ok::<bool, CpuError>(false) {
            next.lemma_run_halts_behind_brk();
        }
    }

    /// A run that fails with `UnknownOpcode` of a byte ends just behind a
    /// cell that holds that byte, and the table has no row for it.
    pub proof fn lemma_run_fails_behind_the_unknown_byte(self, b: u8)
        requires
            self.wf(),
            self.run().1 == Err::<(), CpuError>(CpuError::UnknownOpcode(b)),
        ensures
            self.run().0.read(wrap16(self.run().0.program_counter + 0xFFFF)) == b,
            lookup(b) is None,
        decreases 0x10000 - self.program_counter,
    {
        self.lemma_step_advances();
        self.lemma_step_keeps_memory_size();
        self.lemma_step_decodes_first();
        let (next, r) = self.step();
        if r == Ok::<bool, CpuError>(false) {
            next.lemma_run_fails_behind_the_unknown_byte(b);
        }
    }

    /// A program is loaded exactly when it fits. After the load its bytes
    /// stand in order from `PROGRAM_BASE` on, but for the two cells of the
    /// reset vector, which hold `PROGRAM_BASE`, low byte first; the cells
    /// outside the program and the vector, and the registers, are as
    /// before.
    pub proof fn lemma_load_places_the_program(self, program: Seq<u8>)
        requires
            self.wf(),
        ensures
            self.load(program) is Ok <==> program.len() <= PROGRAM_CAPACITY,
            self.load(program) is Err ==> self.load(program) == Err::<CpuState, CpuError>(
                CpuError::MemoryAddressOutOfRange,
            ),
            self.load(program) is Ok ==> {
                let loaded = self.load(program)->Ok_0;
                &&& loaded.wf()
                &&& loaded.read_u16(RESET_VECTOR) == Ok::<u16, CpuError>(PROGRAM_BASE)
                &&& loaded.memory[0xFFFC] == 0x00
                &&& loaded.memory[0xFFFD] == 0x80
                &&& forall|i: int|
                    0 <= i < program.len() && PROGRAM_BASE + i != 0xFFFC && PROGRAM_BASE + i
                        != 0xFFFD ==> #[trigger] loaded.memory[PROGRAM_BASE + i] == program[i]
                &&& forall|j: int|
                    0 <= j < PROGRAM_BASE || (PROGRAM_BASE + program.len() <= j < 0x10000 && j
                        != 0xFFFC && j != 0xFFFD) ==> #[trigger] loaded.memory[j] == self.memory[j]
                &&& loaded.a == self.a
                &&& loaded.x == self.x
                &&& loaded.y == self.y
                &&& loaded.status == self.status
                &&& loaded.program_counter == self.program_counter
            },
    {
    }

    /// After a load and a reset the program counter is at the start of the
    /// program, the registers and flags are zero, and the memory is that of
    /// the load.
    pub proof fn lemma_load_then_reset(self, program: Seq<u8>)
        requires
            self.wf(),
            program.len() <= PROGRAM_CAPACITY,
        ensures
            self.load(program) is Ok,
            self.load(program)->Ok_0.reset().program_counter == PROGRAM_BASE,
            self.load(program)->Ok_0.reset().a == 0,
            self.load(program)->Ok_0.reset().x == 0,
            self.load(program)->Ok_0.reset().y == 0,
            self.load(program)->Ok_0.reset().status == 0,
            self.load(program)->Ok_0.reset().memory == self.load(program)->Ok_0.memory,
    {
        self.lemma_load_places_the_program(program);
    }
}

} // verus!
