//! The processor state and the instruction execution engine.
//!
//! The concrete state lives in [`CPU`]; every operation on it is specified
//! against [`CpuView`], a mathematical model of the same state in which the
//! 64KB memory is a `Seq<u8>`. The fetch-decode-execute loop is specified by
//! the one-instruction transition function [`spec_step`] and proved to follow
//! it exactly.

use vstd::prelude::*;

use crate::cpuoperand::AddressingModes;
use crate::cpuoperand::Mnemonic;
use crate::cpuoperand::OpCode;
use crate::cpuoperand::lemma_opcode_table_wf;
use crate::cpuoperand::opcode_lookup;
use crate::cpuoperand::spec_opcode_lookup;

verus! {

/// Base address at which a program image is placed in memory.
pub const PROGRAMSTARTADDRESS: u16 = 0x8000;

/// Number of addressable bytes: the flat 64KB space `0x0000..=0xFFFF`.
pub const MEMORYSIZE: usize = 0x10000;

/// Address of the 16-bit reset vector (`0xFFFC`-`0xFFFD`).
pub const RESETADDRESS: u16 = 0xFFFC;

/// Value the stack pointer takes on reset.
pub const STACKRESET: u8 = 0xFD;

/// Upper bound on the number of instructions one `run` call executes: a
/// cancellation point at an instruction boundary, guarding against
/// programs that never halt.
pub const RUNBUDGET: u64 = 0xFFFF_FFFF;

/// The eight status flags, from bit 7 (`NegativeFlag`) down to bit 0
/// (`CarryFlag`).
#[derive(Clone, Copy, Debug)]
pub enum StatusType {
    NegativeFlag,
    OverflowFlag,
    Break,
    Break2,
    DecimalModeFlag,
    InterruptDisable,
    ZeroFlag,
    CarryFlag,
}

/// The bit mask of one status flag within the packed status byte.
pub open spec fn flag_mask(statype: StatusType) -> u8 {
    match statype {
        StatusType::NegativeFlag => 0x80,
        StatusType::OverflowFlag => 0x40,
        StatusType::Break2 => 0x20,
        StatusType::Break => 0x10,
        StatusType::DecimalModeFlag => 0x08,
        StatusType::InterruptDisable => 0x04,
        StatusType::ZeroFlag => 0x02,
        StatusType::CarryFlag => 0x01,
    }
}

/// Whether one flag is set in a packed status byte.
pub open spec fn status_bit(status: u8, statype: StatusType) -> bool {
    status & flag_mask(statype) != 0
}

/// The packed status byte after setting or clearing one flag.
pub open spec fn status_with(status: u8, statype: StatusType, flag: bool) -> u8 {
    if flag {
        status | flag_mask(statype)
    } else {
        status & !flag_mask(statype)
    }
}

/// Whether a byte is the mask of one of the eight status flags.
pub open spec fn is_flag_mask(mask: u8) -> bool {
    mask == 0x80 || mask == 0x40 || mask == 0x20 || mask == 0x10 || mask == 0x08 || mask == 0x04
        || mask == 0x02 || mask == 0x01
}

/// Setting one flag determines exactly that flag: reading it back gives the
/// value written, and every other flag keeps its value.
pub proof fn lemma_status_set_get(status: u8, statype: StatusType, other: StatusType, flag: bool)
    ensures
        status_bit(status_with(status, statype, flag), statype) == flag,
        statype != other ==> status_bit(status_with(status, statype, flag), other) == status_bit(
            status,
            other,
        ),
{
    let m = flag_mask(statype);
    let n = flag_mask(other);
    if flag {
        assert((status | m) & m != 0) by (bit_vector)
            requires
                is_flag_mask(m),
        ;
        if statype != other {
            assert(((status | m) & n == 0) == (status & n == 0)) by (bit_vector)
                requires
                    is_flag_mask(m) && is_flag_mask(n) && m != n,
            ;
        }
    } else {
        assert((status & !m) & m == 0) by (bit_vector)
            requires
                is_flag_mask(m),
        ;
        if statype != other {
            assert(((status & !m) & n == 0) == (status & n == 0)) by (bit_vector)
                requires
                    is_flag_mask(m) && is_flag_mask(n) && m != n,
            ;
        }
    }
}

/// The status byte after the Zero and Negative flags are refreshed from a
/// value just written to a register: Zero iff the value is 0, Negative iff
/// bit 7 of the value is set.
pub open spec fn flags_zn(status: u8, value: u8) -> u8 {
    status_with(status_with(status, StatusType::ZeroFlag, value == 0),
        StatusType::NegativeFlag, value & 0x80 != 0)
}

/// Loading a value into any register leaves Zero set iff the value is 0 and
/// Negative set iff bit 7 of the value is set; this holds whatever the flags
/// held before.
pub proof fn lemma_load_register_flags(s: CpuView, value: u8)
    ensures
        status_bit(s.with_register_a(value).status, StatusType::ZeroFlag) == (value == 0),
        status_bit(s.with_register_a(value).status, StatusType::NegativeFlag) == (value & 0x80
            != 0),
        status_bit(s.with_register_x(value).status, StatusType::ZeroFlag) == (value == 0),
        status_bit(s.with_register_x(value).status, StatusType::NegativeFlag) == (value & 0x80
            != 0),
        status_bit(s.with_register_y(value).status, StatusType::ZeroFlag) == (value == 0),
        status_bit(s.with_register_y(value).status, StatusType::NegativeFlag) == (value & 0x80
            != 0),
{
    lemma_status_set_get(s.status, StatusType::ZeroFlag, StatusType::NegativeFlag, value == 0);
    lemma_status_set_get(
        status_with(s.status, StatusType::ZeroFlag, value == 0),
        StatusType::NegativeFlag,
        StatusType::ZeroFlag,
        value & 0x80 != 0,
    );
}

/// A 16-bit address computed modulo the 64KB space.
pub open spec fn wrap16(a: int) -> u16 {
    (a % 0x10000) as u16
}

/// Low byte of a 16-bit value.
pub open spec fn lo8(value: u16) -> u8 {
    (value % 0x100) as u8
}

/// High byte of a 16-bit value.
pub open spec fn hi8(value: u16) -> u8 {
    (value / 0x100) as u8
}

/// The little-endian 16-bit value stored at `addr`: low byte at `addr`, high
/// byte at `addr + 1`. A read at `0xFFFF` wraps around and takes its high
/// byte from `0x0000`.
pub open spec fn word_at(mem: Seq<u8>, addr: u16) -> u16 {
    (mem[wrap16(addr + 1) as int] * 0x100 + mem[addr as int]) as u16
}

/// Memory after a little-endian 16-bit store at `addr`: low byte to `addr`,
/// high byte to `addr + 1`, wrapping from `0xFFFF` to `0x0000`.
pub open spec fn store_word(mem: Seq<u8>, addr: u16, value: u16) -> Seq<u8> {
    mem.update(addr as int, lo8(value)).update(wrap16(addr + 1) as int, hi8(value))
}

/// Writing a 16-bit value and reading it back at the same address returns
/// the value, for every address at which the pair of bytes lies below the
/// top of memory.
pub proof fn lemma_word_round_trip(mem: Seq<u8>, addr: u16, value: u16)
    requires
        mem.len() == MEMORYSIZE,
        addr <= 0xFFFD,
    ensures
        word_at(store_word(mem, addr, value), addr) == value,
{
}

/// An 8-bit zero-page address computed modulo 256, as the hardware does for
/// indexed zero-page addressing.
pub open spec fn wrap8(a: int) -> u8 {
    (a % 0x100) as u8
}

/// A byte read as a two's-complement signed 8-bit offset.
pub open spec fn signed8(b: u8) -> int {
    if b < 0x80 {
        b as int
    } else {
        b as int - 0x100
    }
}

/// The little-endian 16-bit value stored at a zero-page pointer: low byte at
/// `zp`, high byte at `zp + 1` wrapping within the zero page, as the
/// hardware wraps for the indirect zero-page modes.
pub open spec fn zp_word_at(mem: Seq<u8>, zp: u8) -> u16 {
    (mem[wrap8(zp + 1) as int] * 0x100 + mem[zp as int]) as u16
}

/// The effective operand address of an instruction, resolved from the
/// program counter (which points at the byte after the opcode), the
/// addressing mode, and the registers.
///
/// Index additions in zero-page-scoped modes wrap within 8 bits; absolute
/// and relative additions wrap within 16 bits. The relative offset is a
/// signed 8-bit value and the target skips the operand byte itself, so it is
/// `program_counter + offset + 1`. `NoAddressingMode` carries no operand and
/// must never be resolved; the resolver refuses it by precondition.
pub open spec fn operand_address(s: CpuView, mode: AddressingModes) -> u16 {
    match mode {
        AddressingModes::Immediate => s.program_counter,
        AddressingModes::ZeroPage => s.memory[s.program_counter as int] as u16,
        AddressingModes::ZeroPageX => wrap8(
            s.memory[s.program_counter as int] + s.register_x,
        ) as u16,
        AddressingModes::ZeroPageY => wrap8(
            s.memory[s.program_counter as int] + s.register_y,
        ) as u16,
        AddressingModes::Relative => wrap16(
            s.program_counter + signed8(s.memory[s.program_counter as int]) + 1,
        ),
        AddressingModes::Absolute => word_at(s.memory, s.program_counter),
        AddressingModes::AbsoluteX => wrap16(
            word_at(s.memory, s.program_counter) + s.register_x,
        ),
        AddressingModes::AbsoluteY => wrap16(
            word_at(s.memory, s.program_counter) + s.register_y,
        ),
        AddressingModes::Indirect => word_at(s.memory, word_at(s.memory, s.program_counter)),
        AddressingModes::IndexedIndirect => zp_word_at(
            s.memory,
            wrap8(s.memory[s.program_counter as int] + s.register_x),
        ),
        AddressingModes::IndirectIndexed => wrap16(
            zp_word_at(s.memory, s.memory[s.program_counter as int]) + s.register_y,
        ),
        AddressingModes::NoAddressingMode => 0,
    }
}

/// The transition of the load-accumulator handler: the operand byte is read
/// through the resolved address (for `Immediate` that address is the program
/// counter itself) and loaded into the accumulator, refreshing Zero and
/// Negative.
pub open spec fn spec_lda(s: CpuView, mode: AddressingModes) -> CpuView {
    s.with_register_a(s.memory[operand_address(s, mode) as int])
}

/// The transition of the load-X handler.
pub open spec fn spec_ldx(s: CpuView, mode: AddressingModes) -> CpuView {
    s.with_register_x(s.memory[operand_address(s, mode) as int])
}

/// The transition of the load-Y handler.
pub open spec fn spec_ldy(s: CpuView, mode: AddressingModes) -> CpuView {
    s.with_register_y(s.memory[operand_address(s, mode) as int])
}

/// The transition of the store-accumulator handler: the accumulator is
/// written to the resolved address; no flag changes.
pub open spec fn spec_sta(s: CpuView, mode: AddressingModes) -> CpuView {
    s.with_memory(s.memory.update(operand_address(s, mode) as int, s.register_a))
}

/// The transition of the store-X handler.
pub open spec fn spec_stx(s: CpuView, mode: AddressingModes) -> CpuView {
    s.with_memory(s.memory.update(operand_address(s, mode) as int, s.register_x))
}

/// The transition of the store-Y handler.
pub open spec fn spec_sty(s: CpuView, mode: AddressingModes) -> CpuView {
    s.with_memory(s.memory.update(operand_address(s, mode) as int, s.register_y))
}

/// The transition of the add-with-carry handler: the accumulator becomes
/// the low 8 bits of `accumulator + operand + carry_in`. Carry is set iff
/// the 9-bit sum exceeds `0xFF`; Overflow is set iff the two addends share a
/// sign and the result's sign differs from it; Zero and Negative are
/// refreshed from the result.
pub open spec fn spec_adc(s: CpuView, mode: AddressingModes) -> CpuView {
    let operand = s.memory[operand_address(s, mode) as int];
    let carry_in: int = if status_bit(s.status, StatusType::CarryFlag) {
        1
    } else {
        0
    };
    let total = s.register_a + operand + carry_in;
    let result = wrap8(total);
    let carry_out = total > 0xFF;
    let overflow = (s.register_a & 0x80) == (operand & 0x80) && (result & 0x80) != (s.register_a
        & 0x80);
    CpuView {
        register_a: result,
        status: status_with(
            status_with(
                status_with(
                    status_with(s.status, StatusType::CarryFlag, carry_out),
                    StatusType::OverflowFlag,
                    overflow,
                ),
                StatusType::ZeroFlag,
                result == 0,
            ),
            StatusType::NegativeFlag,
            result & 0x80 != 0,
        ),
        ..s
    }
}

/// The transition of the transfer A-to-X handler.
pub open spec fn spec_tax(s: CpuView) -> CpuView {
    s.with_register_x(s.register_a)
}

/// The transition of the transfer A-to-Y handler.
pub open spec fn spec_tay(s: CpuView) -> CpuView {
    s.with_register_y(s.register_a)
}

/// The transition of the transfer stack-pointer-to-X handler.
pub open spec fn spec_tsx(s: CpuView) -> CpuView {
    s.with_register_x(s.stack_pointer)
}

/// The transition of the transfer X-to-A handler.
pub open spec fn spec_txa(s: CpuView) -> CpuView {
    s.with_register_a(s.register_x)
}

/// The transition of the transfer X-to-stack-pointer handler: no flag
/// changes.
pub open spec fn spec_txs(s: CpuView) -> CpuView {
    CpuView { stack_pointer: s.register_x, ..s }
}

/// The transition of the transfer Y-to-A handler.
pub open spec fn spec_tya(s: CpuView) -> CpuView {
    s.with_register_a(s.register_y)
}

/// The mathematical model of the processor state: the registers and flags as
/// plain integers and the 64KB memory as a sequence of bytes.
#[verifier::ext_equal]
pub struct CpuView {
    pub register_a: u8,
    pub register_x: u8,
    pub register_y: u8,
    pub status: u8,
    pub program_counter: u16,
    pub stack_pointer: u8,
    pub memory: Seq<u8>,
}

impl CpuView {
    /// Well-formedness: the memory covers exactly the 64KB address space.
    pub open spec fn wf(self) -> bool {
        self.memory.len() == MEMORYSIZE
    }

    /// The same state with the memory replaced.
    pub open spec fn with_memory(self, mem: Seq<u8>) -> CpuView {
        CpuView { memory: mem, ..self }
    }

    /// The same state with the status byte replaced.
    pub open spec fn with_status(self, status: u8) -> CpuView {
        CpuView { status, ..self }
    }

    /// The state after a value is loaded into the accumulator: the register
    /// takes the value and the Zero and Negative flags are refreshed from it.
    pub open spec fn with_register_a(self, value: u8) -> CpuView {
        CpuView { register_a: value, status: flags_zn(self.status, value), ..self }
    }

    /// The state after a value is loaded into index register X.
    pub open spec fn with_register_x(self, value: u8) -> CpuView {
        CpuView { register_x: value, status: flags_zn(self.status, value), ..self }
    }

    /// The state after a value is loaded into index register Y.
    pub open spec fn with_register_y(self, value: u8) -> CpuView {
        CpuView { register_y: value, status: flags_zn(self.status, value), ..self }
    }

    /// The same state with the program counter replaced.
    pub open spec fn with_program_counter(self, pc: u16) -> CpuView {
        CpuView { program_counter: pc, ..self }
    }
}

/// Memory after a program image is loaded: the image bytes replace the
/// bytes from the load base on, and the load base address is written into
/// the reset vector.
pub open spec fn spec_loaded_memory(mem: Seq<u8>, program: Seq<u8>) -> Seq<u8> {
    store_word(
        mem.take(PROGRAMSTARTADDRESS as int) + program + mem.skip(
            PROGRAMSTARTADDRESS + program.len(),
        ),
        RESETADDRESS,
        PROGRAMSTARTADDRESS,
    )
}

/// The transition of `load`: only the memory changes, as
/// [`spec_loaded_memory`] describes.
pub open spec fn spec_load(s: CpuView, program: Seq<u8>) -> CpuView {
    s.with_memory(spec_loaded_memory(s.memory, program))
}

/// The transition of `reset`: registers and flags cleared, the stack
/// pointer at its reset value, and the program counter taken from the reset
/// vector; memory is untouched.
pub open spec fn spec_reset(s: CpuView) -> CpuView {
    CpuView {
        register_a: 0,
        register_x: 0,
        register_y: 0,
        status: 0,
        program_counter: word_at(s.memory, RESETADDRESS),
        stack_pointer: STACKRESET,
        memory: s.memory,
    }
}

/// After a program image is loaded and the processor reset, the program
/// counter sits at the load base and the image stands unchanged in memory
/// at that base. This needs the image to stay clear of the reset vector:
/// an image of more than `0x7FFC` bytes reaches the vector's address, and
/// loading writes the vector over the image's own tail.
pub proof fn lemma_load_then_reset(s: CpuView, program: Seq<u8>)
    requires
        s.wf(),
        program.len() <= 0x7FFC,
    ensures
        spec_reset(spec_load(s, program)).program_counter == PROGRAMSTARTADDRESS,
        spec_reset(spec_load(s, program)).memory.subrange(
            PROGRAMSTARTADDRESS as int,
            PROGRAMSTARTADDRESS + program.len(),
        ) == program,
{
    let loaded = spec_loaded_memory(s.memory, program);
    assert(loaded.subrange(PROGRAMSTARTADDRESS as int, PROGRAMSTARTADDRESS + program.len())
        =~= program);
}

/// The observable effect of executing one instruction.
pub enum StepResult {
    /// The instruction completed and execution goes on in the given state.
    Continue(CpuView),
    /// A BRK was fetched: the engine halts in the given state.
    Halted(CpuView),
    /// Fatal decode failure: the fetched opcode byte has no table entry.
    /// Carries the state, the unrecognized byte, and the address it was
    /// fetched from.
    Unrecognized(CpuView, u8, u16),
}

/// The state after one handler has run, dispatched by mnemonic, with the
/// program counter already past the opcode byte. A mnemonic that is in the
/// table but has no handler yet leaves the state unchanged (the engine
/// skips it as a diagnostic no-op).
pub open spec fn spec_execute(s: CpuView, oc: OpCode) -> CpuView {
    match oc.opname {
        Mnemonic::ADC => spec_adc(s, oc.addressmode),
        Mnemonic::LDA => spec_lda(s, oc.addressmode),
        Mnemonic::LDX => spec_ldx(s, oc.addressmode),
        Mnemonic::LDY => spec_ldy(s, oc.addressmode),
        Mnemonic::STA => spec_sta(s, oc.addressmode),
        Mnemonic::STX => spec_stx(s, oc.addressmode),
        Mnemonic::STY => spec_sty(s, oc.addressmode),
        Mnemonic::TAX => spec_tax(s),
        Mnemonic::TAY => spec_tay(s),
        Mnemonic::TSX => spec_tsx(s),
        Mnemonic::TXA => spec_txa(s),
        Mnemonic::TXS => spec_txs(s),
        Mnemonic::TYA => spec_tya(s),
        _ => s,
    }
}

/// One turn of the fetch-decode-execute loop: fetch the opcode byte at the
/// program counter and advance past it; halt on BRK; fail on a byte with no
/// table entry; otherwise run the handler and, if the handler itself did
/// not move the program counter, advance it by the instruction's remaining
/// operand bytes.
pub open spec fn spec_step(s: CpuView) -> StepResult {
    let opcode = s.memory[s.program_counter as int];
    let fetched = s.with_program_counter(wrap16(s.program_counter + 1));
    match spec_opcode_lookup(opcode) {
        Option::None => StepResult::Unrecognized(fetched, opcode, s.program_counter),
        Option::Some(oc) => if oc.opname is BRK {
            StepResult::Halted(fetched)
        } else {
            let executed = spec_execute(fetched, oc);
            if executed.program_counter == fetched.program_counter {
                StepResult::Continue(
                    executed.with_program_counter(wrap16(executed.program_counter + oc.bytes - 1)),
                )
            } else {
                StepResult::Continue(executed)
            }
        },
    }
}

/// The state after `n` completed instructions from `s`, or `None` if the
/// engine halted or failed within them.
pub open spec fn spec_steps(s: CpuView, n: nat) -> Option<CpuView>
    decreases n,
{
    if n == 0 {
        Option::Some(s)
    } else {
        match spec_steps(s, (n - 1) as nat) {
            Option::Some(t) => match spec_step(t) {
                StepResult::Continue(u) => Option::Some(u),
                _ => Option::None,
            },
            Option::None => Option::None,
        }
    }
}

/// The engine, started at `s`, runs some number of instructions and then
/// halts on a BRK, leaving state `t`.
pub open spec fn run_halts_to(s: CpuView, t: CpuView) -> bool {
    exists|n: nat|
        #[trigger] spec_steps(s, n) matches Option::Some(u) && spec_step(u)
            == StepResult::Halted(t)
}

/// The engine, started at `s`, runs some number of instructions and then
/// stops on an opcode byte with no table entry, leaving state `t` and
/// reporting the byte and the address it was fetched from.
pub open spec fn run_fails_to(s: CpuView, t: CpuView, opcode: u8, address: u16) -> bool {
    exists|n: nat|
        #[trigger] spec_steps(s, n) matches Option::Some(u) && spec_step(u)
            == StepResult::Unrecognized(t, opcode, address)
}

/// A fatal decode failure: the opcode byte fetched at `address` has no
/// entry in the opcode table.
#[derive(Clone, Copy, Debug, PartialEq, Eq, Structural)]
pub struct DecodeError {
    pub opcode: u8,
    pub address: u16,
}

/// The processor: accumulator, two index registers, packed status flags,
/// program counter, stack pointer, and the flat 64KB memory.
pub struct CPU {
    pub register_a: u8,
    pub register_x: u8,
    pub register_y: u8,
    pub status: u8,
    pub program_counter: u16,
    pub stack_pointer: u8,
    pub memory: Vec<u8>,
}

impl View for CPU {
    type V = CpuView;

    open spec fn view(&self) -> CpuView {
        CpuView {
            register_a: self.register_a,
            register_x: self.register_x,
            register_y: self.register_y,
            status: self.status,
            program_counter: self.program_counter,
            stack_pointer: self.stack_pointer,
            memory: self.memory@,
        }
    }
}

impl CPU {
    /// A fresh processor: registers and flags cleared, stack pointer at its
    /// reset value, and all 64KB of memory zeroed.
    pub fn new() -> (ncpu: CPU)
        ensures
            ncpu@.wf(),
            ncpu@.register_a == 0,
            ncpu@.register_x == 0,
            ncpu@.register_y == 0,
            ncpu@.status == 0,
            ncpu@.program_counter == 0,
            ncpu@.stack_pointer == STACKRESET,
            forall|i: int| 0 <= i < MEMORYSIZE ==> ncpu@.memory[i] == 0,
    {
        let mut memory: Vec<u8> = Vec::new();
        while memory.len() < MEMORYSIZE
            invariant
                memory@.len() <= MEMORYSIZE,
                forall|i: int| 0 <= i < memory@.len() ==> memory@[i] == 0,
            decreases MEMORYSIZE - memory@.len(),
        {
            memory.push(0);
        }
        CPU {
            register_a: 0,
            register_x: 0,
            register_y: 0,
            status: 0,
            program_counter: 0,
            stack_pointer: STACKRESET,
            memory,
        }
    }

    /// Writes one byte to memory.
    pub fn write_to_memory_u8(&mut self, add: u16, value: u8)
        requires
            old(self)@.wf(),
        ensures
            final(self)@ == old(self)@.with_memory(old(self)@.memory.update(add as int, value)),
    {
        self.memory[add as usize] = value;
    }

    /// Reads one byte from memory.
    pub fn read_from_memory_u8(&self, add: u16) -> (value: u8)
        requires
            self@.wf(),
        ensures
            value == self@.memory[add as int],
    {
        self.memory[add as usize]
    }

    /// Writes a 16-bit value to memory in little-endian order: the low byte
    /// at `add`, the high byte at `add + 1`. A write at `0xFFFF` wraps
    /// around: its high byte goes to `0x0000`.
    pub fn write_to_memory_u16(&mut self, add: u16, value: u16)
        requires
            old(self)@.wf(),
        ensures
            final(self)@ == old(self)@.with_memory(store_word(old(self)@.memory, add, value)),
    {
        let low: u8 = (value % 0x100) as u8;
        let high: u8 = (value / 0x100) as u8;
        self.write_to_memory_u8(add, low);
        let next: u16 = ((add as u32 + 1) % 0x10000) as u16;
        self.write_to_memory_u8(next, high);
    }

    /// Reads a 16-bit little-endian value from memory: the low byte at
    /// `add`, the high byte at `add + 1`, wrapping from `0xFFFF` to `0x0000`.
    pub fn read_from_memory_u16(&self, add: u16) -> (value: u16)
        requires
            self@.wf(),
        ensures
            value == word_at(self@.memory, add),
    {
        let low: u8 = self.read_from_memory_u8(add);
        let next: u16 = ((add as u32 + 1) % 0x10000) as u16;
        let high: u8 = self.read_from_memory_u8(next);
        (high as u16) * 0x100 + (low as u16)
    }

    /// Sets or clears one status flag by its bit mask; no other flag, and
    /// nothing else of the state, changes.
    pub fn setstatus(&mut self, statype: StatusType, flag: bool)
        ensures
            final(self)@ == old(self)@.with_status(
                status_with(old(self)@.status, statype, flag),
            ),
    {
        proof {
            assert(!0x80u8 == 0x7F && !0x40u8 == 0xBF && !0x20u8 == 0xDF && !0x10u8 == 0xEF
                && !0x08u8 == 0xF7 && !0x04u8 == 0xFB && !0x02u8 == 0xFD && !0x01u8 == 0xFE)
                by (bit_vector);
        }
        match statype {
            StatusType::NegativeFlag => {
                if flag {
                    self.status = self.status | 0b1000_0000;
                } else {
                    self.status = self.status & 0b0111_1111;
                }
            },
            StatusType::OverflowFlag => {
                if flag {
                    self.status = self.status | 0b0100_0000;
                } else {
                    self.status = self.status & 0b1011_1111;
                }
            },
            StatusType::Break2 => {
                if flag {
                    self.status = self.status | 0b0010_0000;
                } else {
                    self.status = self.status & 0b1101_1111;
                }
            },
            StatusType::Break => {
                if flag {
                    self.status = self.status | 0b0001_0000;
                } else {
                    self.status = self.status & 0b1110_1111;
                }
            },
            StatusType::DecimalModeFlag => {
                if flag {
                    self.status = self.status | 0b0000_1000;
                } else {
                    self.status = self.status & 0b1111_0111;
                }
            },
            StatusType::InterruptDisable => {
                if flag {
                    self.status = self.status | 0b0000_0100;
                } else {
                    self.status = self.status & 0b1111_1011;
                }
            },
            StatusType::ZeroFlag => {
                if flag {
                    self.status = self.status | 0b0000_0010;
                } else {
                    self.status = self.status & 0b1111_1101;
                }
            },
            StatusType::CarryFlag => {
                if flag {
                    self.status = self.status | 0b0000_0001;
                } else {
                    self.status = self.status & 0b1111_1110;
                }
            },
        }
    }

    /// Reads one status flag.
    pub fn getstatus(&mut self, statype: StatusType) -> (flag: bool)
        ensures
            final(self)@ == old(self)@,
            flag == status_bit(old(self)@.status, statype),
    {
        match statype {
            StatusType::NegativeFlag => self.status & 0b1000_0000 != 0,
            StatusType::OverflowFlag => self.status & 0b0100_0000 != 0,
            StatusType::Break2 => self.status & 0b0010_0000 != 0,
            StatusType::Break => self.status & 0b0001_0000 != 0,
            StatusType::DecimalModeFlag => self.status & 0b0000_1000 != 0,
            StatusType::InterruptDisable => self.status & 0b0000_0100 != 0,
            StatusType::ZeroFlag => self.status & 0b0000_0010 != 0,
            StatusType::CarryFlag => self.status & 0b0000_0001 != 0,
        }
    }

    /// Resolves the effective operand address for an addressing mode, with
    /// the program counter pointing at the byte after the opcode. Reads
    /// memory and registers but changes nothing.
    ///
    /// `NoAddressingMode` carries no operand: asking for its address is a
    /// dispatch-wiring defect, so the precondition refuses it.
    pub fn get_operand_address(&mut self, mode: &AddressingModes) -> (addr: u16)
        requires
            old(self)@.wf(),
            !(mode is NoAddressingMode),
        ensures
            final(self)@ == old(self)@,
            addr == operand_address(old(self)@, *mode),
    {
        match mode {
            AddressingModes::Immediate => self.program_counter,
            AddressingModes::ZeroPage => self.read_from_memory_u8(self.program_counter) as u16,
            AddressingModes::ZeroPageX => {
                let para: u8 = self.read_from_memory_u8(self.program_counter);
                (para as u16 + self.register_x as u16) % 0x100
            },
            AddressingModes::ZeroPageY => {
                let para: u8 = self.read_from_memory_u8(self.program_counter);
                (para as u16 + self.register_y as u16) % 0x100
            },
            AddressingModes::Relative => {
                let para: u8 = self.read_from_memory_u8(self.program_counter);
                let soff: u32 = if para < 0x80 {
                    para as u32
                } else {
                    para as u32 + 0xFF00
                };
                proof {
                    if para >= 0x80 {
                        vstd::arithmetic::div_mod::lemma_mod_add_multiples_vanish(
                            self.program_counter + signed8(para) + 1,
                            0x10000,
                        );
                    }
                }
                ((self.program_counter as u32 + soff + 1) % 0x10000) as u16
            },
            AddressingModes::Absolute => self.read_from_memory_u16(self.program_counter),
            AddressingModes::AbsoluteX => {
                let para: u16 = self.read_from_memory_u16(self.program_counter);
                ((para as u32 + self.register_x as u32) % 0x10000) as u16
            },
            AddressingModes::AbsoluteY => {
                let para: u16 = self.read_from_memory_u16(self.program_counter);
                ((para as u32 + self.register_y as u32) % 0x10000) as u16
            },
            AddressingModes::Indirect => {
                let para: u16 = self.read_from_memory_u16(self.program_counter);
                self.read_from_memory_u16(para)
            },
            AddressingModes::IndexedIndirect => {
                let para: u8 = self.read_from_memory_u8(self.program_counter);
                let ptr: u16 = (para as u16 + self.register_x as u16) % 0x100;
                let low: u8 = self.read_from_memory_u8(ptr);
                let high: u8 = self.read_from_memory_u8((ptr + 1) % 0x100);
                (high as u16) * 0x100 + (low as u16)
            },
            AddressingModes::IndirectIndexed => {
                let para: u8 = self.read_from_memory_u8(self.program_counter);
                let low: u8 = self.read_from_memory_u8(para as u16);
                let high: u8 = self.read_from_memory_u8((para as u16 + 1) % 0x100);
                let base: u16 = (high as u16) * 0x100 + (low as u16);
                ((base as u32 + self.register_y as u32) % 0x10000) as u16
            },
            AddressingModes::NoAddressingMode => unreached(),
        }
    }

    /// Loads a value into the accumulator, refreshing Zero and Negative.
    pub fn setvaluetoregistera(&mut self, para: u8)
        ensures
            final(self)@ == old(self)@.with_register_a(para),
    {
        self.register_a = para;
        self.setstatus(StatusType::ZeroFlag, self.register_a == 0);
        self.setstatus(StatusType::NegativeFlag, self.register_a & 0b1000_0000 != 0);
    }

    /// Loads a value into index register X, refreshing Zero and Negative.
    pub fn setvaluetoregisterx(&mut self, para: u8)
        ensures
            final(self)@ == old(self)@.with_register_x(para),
    {
        self.register_x = para;
        self.setstatus(StatusType::ZeroFlag, self.register_x == 0);
        self.setstatus(StatusType::NegativeFlag, self.register_x & 0b1000_0000 != 0);
    }

    /// Loads a value into index register Y, refreshing Zero and Negative.
    pub fn setvaluetoregistery(&mut self, para: u8)
        ensures
            final(self)@ == old(self)@.with_register_y(para),
    {
        self.register_y = para;
        self.setstatus(StatusType::ZeroFlag, self.register_y == 0);
        self.setstatus(StatusType::NegativeFlag, self.register_y & 0b1000_0000 != 0);
    }

    /// Add with carry: adds the operand and the Carry flag into the
    /// accumulator with 9-bit addition semantics.
    pub fn adc(&mut self, mode: &AddressingModes)
        requires
            old(self)@.wf(),
            !(mode is NoAddressingMode),
        ensures
            final(self)@ == spec_adc(old(self)@, *mode),
    {
        let addr: u16 = self.get_operand_address(mode);
        let para: u8 = self.read_from_memory_u8(addr);
        let carrybit: bool = self.getstatus(StatusType::CarryFlag);
        let carry_in: u16 = if carrybit {
            1
        } else {
            0
        };
        let total: u16 = self.register_a as u16 + para as u16 + carry_in;
        let result: u8 = (total % 0x100) as u8;
        let carry_out: bool = total > 0xFF;
        let overflow: bool = (self.register_a & 0x80) == (para & 0x80) && (result & 0x80) != (
        self.register_a & 0x80);
        self.register_a = result;
        self.setstatus(StatusType::CarryFlag, carry_out);
        self.setstatus(StatusType::OverflowFlag, overflow);
        self.setstatus(StatusType::ZeroFlag, result == 0);
        self.setstatus(StatusType::NegativeFlag, result & 0x80 != 0);
    }

    /// Loads the operand into the accumulator.
    pub fn lda(&mut self, mode: &AddressingModes)
        requires
            old(self)@.wf(),
            !(mode is NoAddressingMode),
        ensures
            final(self)@ == spec_lda(old(self)@, *mode),
    {
        let addr: u16 = self.get_operand_address(mode);
        let para: u8 = self.read_from_memory_u8(addr);
        self.setvaluetoregistera(para)
    }

    /// Loads the operand into index register X.
    pub fn ldx(&mut self, mode: &AddressingModes)
        requires
            old(self)@.wf(),
            !(mode is NoAddressingMode),
        ensures
            final(self)@ == spec_ldx(old(self)@, *mode),
    {
        let addr: u16 = self.get_operand_address(mode);
        let para: u8 = self.read_from_memory_u8(addr);
        self.setvaluetoregisterx(para)
    }

    /// Loads the operand into index register Y.
    pub fn ldy(&mut self, mode: &AddressingModes)
        requires
            old(self)@.wf(),
            !(mode is NoAddressingMode),
        ensures
            final(self)@ == spec_ldy(old(self)@, *mode),
    {
        let addr: u16 = self.get_operand_address(mode);
        let para: u8 = self.read_from_memory_u8(addr);
        self.setvaluetoregistery(para)
    }

    /// Stores the accumulator at the resolved address; no flags change.
    pub fn sta(&mut self, mode: &AddressingModes)
        requires
            old(self)@.wf(),
            !(mode is NoAddressingMode),
        ensures
            final(self)@ == spec_sta(old(self)@, *mode),
    {
        let addr: u16 = self.get_operand_address(mode);
        self.write_to_memory_u8(addr, self.register_a);
    }

    /// Stores index register X at the resolved address; no flags change.
    pub fn stx(&mut self, mode: &AddressingModes)
        requires
            old(self)@.wf(),
            !(mode is NoAddressingMode),
        ensures
            final(self)@ == spec_stx(old(self)@, *mode),
    {
        let addr: u16 = self.get_operand_address(mode);
        self.write_to_memory_u8(addr, self.register_x);
    }

    /// Stores index register Y at the resolved address; no flags change.
    pub fn sty(&mut self, mode: &AddressingModes)
        requires
            old(self)@.wf(),
            !(mode is NoAddressingMode),
        ensures
            final(self)@ == spec_sty(old(self)@, *mode),
    {
        let addr: u16 = self.get_operand_address(mode);
        self.write_to_memory_u8(addr, self.register_y);
    }

    /// Transfers the accumulator to index register X.
    pub fn tax(&mut self)
        ensures
            final(self)@ == spec_tax(old(self)@),
    {
        self.register_x = self.register_a;
        self.setstatus(StatusType::ZeroFlag, self.register_x == 0);
        self.setstatus(StatusType::NegativeFlag, self.register_x & 0b1000_0000 != 0);
    }

    /// Transfers the accumulator to index register Y.
    pub fn tay(&mut self)
        ensures
            final(self)@ == spec_tay(old(self)@),
    {
        self.register_y = self.register_a;
        self.setstatus(StatusType::ZeroFlag, self.register_y == 0);
        self.setstatus(StatusType::NegativeFlag, self.register_y & 0b1000_0000 != 0);
    }

    /// Transfers the stack pointer to index register X.
    pub fn tsx(&mut self)
        ensures
            final(self)@ == spec_tsx(old(self)@),
    {
        self.register_x = self.stack_pointer;
        self.setstatus(StatusType::ZeroFlag, self.register_x == 0);
        self.setstatus(StatusType::NegativeFlag, self.register_x & 0b1000_0000 != 0);
    }

    /// Transfers index register X to the accumulator.
    pub fn txa(&mut self)
        ensures
            final(self)@ == spec_txa(old(self)@),
    {
        self.register_a = self.register_x;
        self.setstatus(StatusType::ZeroFlag, self.register_a == 0);
        self.setstatus(StatusType::NegativeFlag, self.register_a & 0b1000_0000 != 0);
    }

    /// Transfers index register X to the stack pointer; no flags change.
    pub fn txs(&mut self)
        ensures
            final(self)@ == spec_txs(old(self)@),
    {
        self.stack_pointer = self.register_x;
    }

    /// Transfers index register Y to the accumulator.
    pub fn tya(&mut self)
        ensures
            final(self)@ == spec_tya(old(self)@),
    {
        self.register_a = self.register_y;
        self.setstatus(StatusType::ZeroFlag, self.register_a == 0);
        self.setstatus(StatusType::NegativeFlag, self.register_a & 0b1000_0000 != 0);
    }

    /// Copies a program image into memory at the load base and writes the
    /// load base address into the reset vector. The image must fit between
    /// the load base and the top of memory.
    pub fn load(&mut self, program: Vec<u8>)
        requires
            old(self)@.wf(),
            program@.len() <= 0x8000,
        ensures
            final(self)@ == spec_load(old(self)@, program@),
    {
        let ghost s0 = self@;
        let mut i: usize = 0;
        while i < program.len()
            invariant
                program@.len() <= 0x8000,
                0 <= i <= program@.len(),
                self@.memory.len() == MEMORYSIZE,
                self@ == s0.with_memory(self@.memory),
                forall|j: int|
                    0 <= j < i ==> self@.memory[PROGRAMSTARTADDRESS + j] == program@[j],
                forall|j: int|
                    0 <= j < MEMORYSIZE && !(PROGRAMSTARTADDRESS <= j < PROGRAMSTARTADDRESS + i)
                        ==> self@.memory[j] == s0.memory[j],
            decreases program@.len() - i,
        {
            self.write_to_memory_u8(PROGRAMSTARTADDRESS + i as u16, program[i]);
            i = i + 1;
        }
        proof {
            assert(self@.memory =~= s0.memory.take(PROGRAMSTARTADDRESS as int) + program@
                + s0.memory.skip(PROGRAMSTARTADDRESS + program@.len()));
        }
        self.write_to_memory_u16(RESETADDRESS, PROGRAMSTARTADDRESS);
    }

    /// Resets the processor: registers and flags cleared, stack pointer at
    /// its reset value, program counter loaded from the reset vector.
    pub fn reset(&mut self)
        requires
            old(self)@.wf(),
        ensures
            final(self)@ == spec_reset(old(self)@),
    {
        self.register_a = 0;
        self.register_x = 0;
        self.register_y = 0;
        self.status = 0;
        self.program_counter = self.read_from_memory_u16(RESETADDRESS);
        self.stack_pointer = STACKRESET;
    }

    /// Executes one instruction, following [`spec_step`] exactly.
    ///
    /// Returns `Ok(true)` when the instruction completed and execution can
    /// go on, `Ok(false)` when a BRK halted the engine, and `Err` on a
    /// fatal decode failure, reporting the unrecognized opcode byte and the
    /// address it was fetched from.
    pub fn step(&mut self) -> (r: Result<bool, DecodeError>)
        requires
            old(self)@.wf(),
        ensures
            final(self)@.wf(),
            match r {
                Ok(true) => spec_step(old(self)@) == StepResult::Continue(final(self)@),
                Ok(false) => spec_step(old(self)@) == StepResult::Halted(final(self)@),
                Err(e) => spec_step(old(self)@) == StepResult::Unrecognized(
                    final(self)@,
                    e.opcode,
                    e.address,
                ),
            },
    {
        let opcode_address: u16 = self.program_counter;
        let operatecode: u8 = self.read_from_memory_u8(opcode_address);
        self.program_counter = ((self.program_counter as u32 + 1) % 0x10000) as u16;
        let program_counter_state: u16 = self.program_counter;
        proof {
            lemma_opcode_table_wf(operatecode);
        }
        match opcode_lookup(operatecode) {
            Option::None => Err(DecodeError { opcode: operatecode, address: opcode_address }),
            Option::Some(oc) => {
                match oc.opname {
                    Mnemonic::ADC => self.adc(&oc.addressmode),
                    Mnemonic::LDA => self.lda(&oc.addressmode),
                    Mnemonic::LDX => self.ldx(&oc.addressmode),
                    Mnemonic::LDY => self.ldy(&oc.addressmode),
                    Mnemonic::STA => self.sta(&oc.addressmode),
                    Mnemonic::STX => self.stx(&oc.addressmode),
                    Mnemonic::STY => self.sty(&oc.addressmode),
                    Mnemonic::TAX => self.tax(),
                    Mnemonic::TAY => self.tay(),
                    Mnemonic::TSX => self.tsx(),
                    Mnemonic::TXA => self.txa(),
                    Mnemonic::TXS => self.txs(),
                    Mnemonic::TYA => self.tya(),
                    Mnemonic::BRK => {
                        return Ok(false);
                    },
                    _ => {
                        // recognized but unimplemented: skipped as a no-op
                    },
                }
                if self.program_counter == program_counter_state {
                    self.program_counter = ((self.program_counter as u32 + oc.bytes as u32 - 1)
                        % 0x10000) as u16;
                }
                Ok(true)
            },
        }
    }

    /// Runs the fetch-decode-execute loop until a BRK halts the engine
    /// (`Ok(true)`), an opcode byte with no table entry stops it (`Err`,
    /// with the byte and the address it was fetched from), or the step
    /// budget [`RUNBUDGET`] runs out (`Ok(false)`), the cancellation point
    /// that guards against programs that never halt. A run cut short by the
    /// budget has executed exactly that many instructions and can be
    /// resumed by calling `run` again.
    pub fn run(&mut self) -> (r: Result<bool, DecodeError>)
        requires
            old(self)@.wf(),
        ensures
            final(self)@.wf(),
            match r {
                Ok(true) => run_halts_to(old(self)@, final(self)@),
                Ok(false) => spec_steps(old(self)@, RUNBUDGET as nat) == Option::Some(
                    final(self)@,
                ),
                Err(e) => run_fails_to(old(self)@, final(self)@, e.opcode, e.address),
            },
    {
        let ghost s0 = self@;
        let mut steps_done: u64 = 0;
        while steps_done < RUNBUDGET
            invariant
                self@.wf(),
                s0 == old(self)@,
                steps_done <= RUNBUDGET,
                spec_steps(s0, steps_done as nat) == Option::Some(self@),
            decreases RUNBUDGET - steps_done,
        {
            match self.step() {
                Result::Ok(true) => {
                    steps_done = steps_done + 1;
                },
                Result::Ok(false) => {
                    return Ok(true);
                },
                Result::Err(e) => {
                    return Err(e);
                },
            }
        }
        Ok(false)
    }

    /// Loads a program image, resets the processor, and runs it.
    pub fn load_and_run(&mut self, program: Vec<u8>) -> (r: Result<bool, DecodeError>)
        requires
            old(self)@.wf(),
            program@.len() <= 0x8000,
        ensures
            final(self)@.wf(),
            ({
                let started = spec_reset(spec_load(old(self)@, program@));
                match r {
                    Ok(true) => run_halts_to(started, final(self)@),
                    Ok(false) => spec_steps(started, RUNBUDGET as nat) == Option::Some(
                        final(self)@,
                    ),
                    Err(e) => run_fails_to(started, final(self)@, e.opcode, e.address),
                }
            }),
    {
        self.load(program);
        self.reset();
        self.run()
    }
}

} // verus!
