use mos6502::cpu::CPU;
use mos6502::cpu::DecodeError;
use mos6502::cpu::StatusType;
use mos6502::cpuoperand::AddressingModes;
use mos6502::cpuoperand::opcode_lookup;

#[test]
fn write_read_u16_round_trip() {
    let mut ncpu = CPU::new();
    ncpu.write_to_memory_u16(0x1234, 0xBEEF);
    assert_eq!(ncpu.read_from_memory_u16(0x1234), 0xBEEF);
    assert_eq!(ncpu.read_from_memory_u8(0x1234), 0xEF);
    assert_eq!(ncpu.read_from_memory_u8(0x1235), 0xBE);
    ncpu.write_to_memory_u16(0xFFFD, 0x8000);
    assert_eq!(ncpu.read_from_memory_u16(0xFFFD), 0x8000);
}

#[test]
fn write_u16_top_boundary_wraps() {
    // A 16-bit access at the very top of memory wraps: the low byte sits at
    // 0xFFFF and the high byte at 0x0000.
    let mut ncpu = CPU::new();
    ncpu.write_to_memory_u16(0xFFFF, 0xABCD);
    assert_eq!(ncpu.read_from_memory_u8(0xFFFF), 0xCD);
    assert_eq!(ncpu.read_from_memory_u8(0x0000), 0xAB);
    assert_eq!(ncpu.read_from_memory_u16(0xFFFF), 0xABCD);
}

#[test]
fn setstatus_keeps_other_flags() {
    let mut ncpu = CPU::new();
    ncpu.setstatus(StatusType::NegativeFlag, true);
    ncpu.setstatus(StatusType::CarryFlag, true);
    assert_eq!(ncpu.status, 0b1000_0001);
    ncpu.setstatus(StatusType::CarryFlag, false);
    assert_eq!(ncpu.status, 0b1000_0000);
    assert_eq!(ncpu.getstatus(StatusType::NegativeFlag), true);
    assert_eq!(ncpu.getstatus(StatusType::CarryFlag), false);
}

#[test]
fn register_loads_set_zero_and_negative() {
    let mut ncpu = CPU::new();
    ncpu.setvaluetoregistera(0x00);
    assert_eq!(ncpu.getstatus(StatusType::ZeroFlag), true);
    assert_eq!(ncpu.getstatus(StatusType::NegativeFlag), false);
    ncpu.setvaluetoregisterx(0x80);
    assert_eq!(ncpu.register_x, 0x80);
    assert_eq!(ncpu.getstatus(StatusType::ZeroFlag), false);
    assert_eq!(ncpu.getstatus(StatusType::NegativeFlag), true);
    ncpu.setvaluetoregistery(0x7F);
    assert_eq!(ncpu.register_y, 0x7F);
    assert_eq!(ncpu.getstatus(StatusType::ZeroFlag), false);
    assert_eq!(ncpu.getstatus(StatusType::NegativeFlag), false);
}

#[test]
fn load_then_reset_places_program() {
    let program = vec![0xa9, 0x05, 0xaa, 0x00];
    let mut ncpu = CPU::new();
    ncpu.load(program.clone());
    ncpu.reset();
    assert_eq!(ncpu.program_counter, 0x8000);
    for (k, byte) in program.iter().enumerate() {
        assert_eq!(ncpu.read_from_memory_u8(0x8000 + k as u16), *byte);
    }
    assert_eq!(ncpu.read_from_memory_u16(0xFFFC), 0x8000);
}

#[test]
fn lda_immediate_zero_halts() {
    let mut ncpu = CPU::new();
    let outcome = ncpu.load_and_run(vec![0xa9, 0x00, 0x00]);
    assert_eq!(outcome, Ok(true));
    assert_eq!(ncpu.register_a, 0x00);
    assert_eq!(ncpu.getstatus(StatusType::ZeroFlag), true);
    assert_eq!(ncpu.getstatus(StatusType::NegativeFlag), false);
}

#[test]
fn lda_immediate_negative_halts() {
    let mut ncpu = CPU::new();
    let outcome = ncpu.load_and_run(vec![0xa9, 0x80, 0x00]);
    assert_eq!(outcome, Ok(true));
    assert_eq!(ncpu.register_a, 0x80);
    assert_eq!(ncpu.getstatus(StatusType::ZeroFlag), false);
    assert_eq!(ncpu.getstatus(StatusType::NegativeFlag), true);
}

#[test]
fn lda_then_tax_halts() {
    let mut ncpu = CPU::new();
    let outcome = ncpu.load_and_run(vec![0xa9, 0x05, 0xaa, 0x00]);
    assert_eq!(outcome, Ok(true));
    assert_eq!(ncpu.register_a, 5);
    assert_eq!(ncpu.register_x, 5);
}

#[test]
fn unrecognized_opcode_stops_the_engine() {
    // 0x02 has no table entry; the engine must stop there and never reach
    // the load of 0x07 behind it.
    let mut ncpu = CPU::new();
    let outcome = ncpu.load_and_run(vec![0xa9, 0x05, 0x02, 0xa9, 0x07, 0x00]);
    assert_eq!(outcome, Err(DecodeError { opcode: 0x02, address: 0x8002 }));
    assert_eq!(ncpu.register_a, 0x05);
}

#[test]
fn unimplemented_mnemonic_is_skipped() {
    // NOP is in the table but has no handler: the engine skips it and goes
    // on with the rest of the program.
    let mut ncpu = CPU::new();
    let outcome = ncpu.load_and_run(vec![0xea, 0xa9, 0x07, 0x00]);
    assert_eq!(outcome, Ok(true));
    assert_eq!(ncpu.register_a, 0x07);
}

#[test]
fn ldx_stx_round_trip_through_memory() {
    let mut ncpu = CPU::new();
    let outcome = ncpu.load_and_run(vec![0xa2, 0x42, 0x86, 0x20, 0x00]);
    assert_eq!(outcome, Ok(true));
    assert_eq!(ncpu.read_from_memory_u8(0x20), 0x42);
}

#[test]
fn ldy_sty_round_trip_through_memory() {
    let mut ncpu = CPU::new();
    let outcome = ncpu.load_and_run(vec![0xa0, 0x99, 0x84, 0x21, 0x00]);
    assert_eq!(outcome, Ok(true));
    assert_eq!(ncpu.read_from_memory_u8(0x21), 0x99);
    assert_eq!(ncpu.getstatus(StatusType::NegativeFlag), true);
}

#[test]
fn adc_immediate_sets_overflow() {
    // 0x50 + 0x50 = 0xA0: two positive addends, negative result.
    let mut ncpu = CPU::new();
    let outcome = ncpu.load_and_run(vec![0xa9, 0x50, 0x69, 0x50, 0x00]);
    assert_eq!(outcome, Ok(true));
    assert_eq!(ncpu.register_a, 0xA0);
    assert_eq!(ncpu.getstatus(StatusType::OverflowFlag), true);
    assert_eq!(ncpu.getstatus(StatusType::CarryFlag), false);
    assert_eq!(ncpu.getstatus(StatusType::NegativeFlag), true);
    assert_eq!(ncpu.getstatus(StatusType::ZeroFlag), false);
}

#[test]
fn adc_uses_carry_in() {
    // 0x00 + 0xFF + carry = 0x100: result 0, carry out, no overflow.
    let mut ncpu = CPU::new();
    ncpu.write_to_memory_u8(0x10, 0xFF);
    ncpu.program_counter = 0x10;
    ncpu.setstatus(StatusType::CarryFlag, true);
    ncpu.adc(&AddressingModes::Immediate);
    assert_eq!(ncpu.register_a, 0x00);
    assert_eq!(ncpu.getstatus(StatusType::CarryFlag), true);
    assert_eq!(ncpu.getstatus(StatusType::ZeroFlag), true);
    assert_eq!(ncpu.getstatus(StatusType::OverflowFlag), false);
    assert_eq!(ncpu.getstatus(StatusType::NegativeFlag), false);
}

#[test]
fn adc_negative_addends_overflow_and_carry() {
    // 0x80 + 0x80 = 0x100: two negative addends, positive result: overflow
    // and carry both set, result zero.
    let mut ncpu = CPU::new();
    ncpu.register_a = 0x80;
    ncpu.write_to_memory_u8(0x10, 0x80);
    ncpu.program_counter = 0x10;
    ncpu.adc(&AddressingModes::Immediate);
    assert_eq!(ncpu.register_a, 0x00);
    assert_eq!(ncpu.getstatus(StatusType::CarryFlag), true);
    assert_eq!(ncpu.getstatus(StatusType::OverflowFlag), true);
    assert_eq!(ncpu.getstatus(StatusType::ZeroFlag), true);
}

#[test]
fn transfers_copy_and_flag() {
    let mut ncpu = CPU::new();
    ncpu.register_x = 0x80;
    ncpu.txa();
    assert_eq!(ncpu.register_a, 0x80);
    assert_eq!(ncpu.getstatus(StatusType::NegativeFlag), true);
    ncpu.register_y = 0x00;
    ncpu.tya();
    assert_eq!(ncpu.register_a, 0x00);
    assert_eq!(ncpu.getstatus(StatusType::ZeroFlag), true);
    ncpu.register_a = 0x07;
    ncpu.tay();
    assert_eq!(ncpu.register_y, 0x07);
    ncpu.tsx();
    assert_eq!(ncpu.register_x, 0xFD);
    assert_eq!(ncpu.getstatus(StatusType::NegativeFlag), true);
    let status_before = ncpu.status;
    ncpu.register_x = 0x05;
    ncpu.txs();
    assert_eq!(ncpu.stack_pointer, 0x05);
    assert_eq!(ncpu.status, status_before);
}

#[test]
fn relative_mode_takes_signed_offsets() {
    let mut ncpu = CPU::new();
    ncpu.program_counter = 0x8005;
    ncpu.write_to_memory_u8(0x8005, 0xFE);
    assert_eq!(ncpu.get_operand_address(&AddressingModes::Relative), 0x8004);
    ncpu.write_to_memory_u8(0x8005, 0x02);
    assert_eq!(ncpu.get_operand_address(&AddressingModes::Relative), 0x8008);
}

#[test]
fn zero_page_indexed_wraps_within_a_byte() {
    let mut ncpu = CPU::new();
    ncpu.program_counter = 0x8000;
    ncpu.write_to_memory_u8(0x8000, 0xFF);
    ncpu.register_x = 0x01;
    assert_eq!(ncpu.get_operand_address(&AddressingModes::ZeroPageX), 0x0000);
    ncpu.register_y = 0x02;
    assert_eq!(ncpu.get_operand_address(&AddressingModes::ZeroPageY), 0x0001);
}

#[test]
fn indexed_indirect_wraps_pointer_in_zero_page() {
    let mut ncpu = CPU::new();
    ncpu.program_counter = 0x8000;
    ncpu.write_to_memory_u8(0x8000, 0xFE);
    ncpu.register_x = 0x01;
    ncpu.write_to_memory_u8(0xFF, 0x34);
    ncpu.write_to_memory_u8(0x00, 0x12);
    assert_eq!(ncpu.get_operand_address(&AddressingModes::IndexedIndirect), 0x1234);
}

#[test]
fn indirect_indexed_adds_y_after_dereference() {
    let mut ncpu = CPU::new();
    ncpu.program_counter = 0x8000;
    ncpu.write_to_memory_u8(0x8000, 0x10);
    ncpu.write_to_memory_u8(0x10, 0x00);
    ncpu.write_to_memory_u8(0x11, 0x90);
    ncpu.register_y = 0x05;
    assert_eq!(ncpu.get_operand_address(&AddressingModes::IndirectIndexed), 0x9005);
}

#[test]
fn absolute_indexed_wraps_at_the_top() {
    let mut ncpu = CPU::new();
    ncpu.program_counter = 0x8000;
    ncpu.write_to_memory_u16(0x8000, 0xFFFF);
    ncpu.register_x = 0x02;
    assert_eq!(ncpu.get_operand_address(&AddressingModes::AbsoluteX), 0x0001);
    ncpu.register_y = 0x03;
    assert_eq!(ncpu.get_operand_address(&AddressingModes::AbsoluteY), 0x0002);
}

#[test]
fn immediate_zero_page_absolute_indirect_resolution() {
    let mut ncpu = CPU::new();
    ncpu.program_counter = 0x8000;
    ncpu.write_to_memory_u16(0x8000, 0x1234);
    assert_eq!(ncpu.get_operand_address(&AddressingModes::Immediate), 0x8000);
    assert_eq!(ncpu.get_operand_address(&AddressingModes::ZeroPage), 0x34);
    assert_eq!(ncpu.get_operand_address(&AddressingModes::Absolute), 0x1234);
    ncpu.write_to_memory_u16(0x1234, 0xABCD);
    assert_eq!(ncpu.get_operand_address(&AddressingModes::Indirect), 0xABCD);
}

#[test]
fn opcode_table_entries() {
    let lda = opcode_lookup(0xa9).unwrap();
    assert_eq!(lda.opcode, 0xa9);
    assert!(matches!(lda.opname, mos6502::cpuoperand::Mnemonic::LDA));
    assert!(matches!(lda.addressmode, AddressingModes::Immediate));
    assert_eq!(lda.bytes, 2);
    assert_eq!(lda.cycles, 2);
    assert!(opcode_lookup(0x02).is_none());
    assert!(opcode_lookup(0xff).is_none());
    let brk = opcode_lookup(0x00).unwrap();
    assert!(matches!(brk.opname, mos6502::cpuoperand::Mnemonic::BRK));
    assert_eq!(brk.bytes, 1);
}

#[test]
fn step_reports_each_outcome() {
    let mut ncpu = CPU::new();
    ncpu.load(vec![0xa9, 0x05, 0x02]);
    ncpu.reset();
    assert_eq!(ncpu.step(), Ok(true));
    assert_eq!(ncpu.register_a, 0x05);
    assert_eq!(ncpu.program_counter, 0x8002);
    assert_eq!(ncpu.step(), Err(DecodeError { opcode: 0x02, address: 0x8002 }));
    let mut halted = CPU::new();
    halted.load(vec![0x00]);
    halted.reset();
    assert_eq!(halted.step(), Ok(false));
    assert_eq!(halted.program_counter, 0x8001);
}
