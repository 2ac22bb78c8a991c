use mos6502::cpu::CPU;
use mos6502::cpu::StatusType;

#[test]
fn setstatusworks() {
    let value = u16::from_le_bytes([0x34, 0x12]);
    assert_eq!(value, 0x1234);
}

#[test]
fn write_u8_should_work() {
    let mut ncpu = CPU::new();
    ncpu.write_to_memory_u8(0x0001, 0x01);
    assert_eq!(ncpu.read_from_memory_u8(0x0001), 0x01);
}

#[test]
fn write_u16_should_work() {
    let mut ncpu = CPU::new();
    ncpu.write_to_memory_u16(0x0021, 0x0001);
    assert_eq!(ncpu.read_from_memory_u16(0x0021), 0x0001);
}

#[test]
fn setstatus_c_should_work() {
    let mut ncpu = CPU::new();
    ncpu.setstatus(StatusType::CarryFlag, true);
    assert_eq!(ncpu.status, 0b0000_0001);
    ncpu.setstatus(StatusType::CarryFlag, false);
    assert_eq!(ncpu.status, 0b0000_0000);
    ncpu.setstatus(StatusType::CarryFlag, true);
    assert_eq!(ncpu.getstatus(StatusType::CarryFlag), true);
}

#[test]
fn setstatus_z_should_work() {
    let mut ncpu = CPU::new();
    ncpu.setstatus(StatusType::ZeroFlag, true);
    assert_eq!(ncpu.status, 0b0000_0010);
    ncpu.setstatus(StatusType::ZeroFlag, false);
    assert_eq!(ncpu.status, 0b0000_0000);
}

#[test]
fn setstatus_i_should_work() {
    let mut ncpu = CPU::new();
    ncpu.setstatus(StatusType::InterruptDisable, true);
    assert_eq!(ncpu.status, 0b0000_0100);
    ncpu.setstatus(StatusType::InterruptDisable, false);
    assert_eq!(ncpu.status, 0b0000_0000);
}

#[test]
fn setstatus_d_should_work() {
    let mut ncpu = CPU::new();
    ncpu.setstatus(StatusType::DecimalModeFlag, true);
    assert_eq!(ncpu.status, 0b0000_1000);
    ncpu.setstatus(StatusType::DecimalModeFlag, false);
    assert_eq!(ncpu.status, 0b0000_0000);
}

#[test]
fn setstatus_b_should_work() {
    let mut ncpu = CPU::new();
    ncpu.setstatus(StatusType::Break, true);
    assert_eq!(ncpu.status, 0b0001_0000);
    ncpu.setstatus(StatusType::Break, false);
    assert_eq!(ncpu.status, 0b0000_0000);
}

#[test]
fn setstatus_v_should_work() {
    let mut ncpu = CPU::new();
    ncpu.setstatus(StatusType::OverflowFlag, true);
    assert_eq!(ncpu.status, 0b0100_0000);
    ncpu.setstatus(StatusType::OverflowFlag, false);
    assert_eq!(ncpu.status, 0b0000_0000);
}

#[test]
fn setstatus_n_should_work() {
    let mut ncpu = CPU::new();
    ncpu.setstatus(StatusType::NegativeFlag, true);
    assert_eq!(ncpu.status, 0b1000_0000);
    ncpu.setstatus(StatusType::NegativeFlag, false);
    assert_eq!(ncpu.status, 0b0000_0000);
}

#[test]
fn set_data_to_rigestera_should_work() {
    let mut ncpu = CPU::new();
    ncpu.setvaluetoregistera(0x55);
    assert_eq!(ncpu.register_a, 0x55);
}

#[test]
fn reset_should_work() {
    let mut ncpu = CPU::new();
    ncpu.load(vec![0xa5, 0x10, 0x00]);
    ncpu.reset();
    assert_eq!(ncpu.program_counter, 0x8000);
    let operatecode = ncpu.read_from_memory_u8(ncpu.program_counter);
    assert_eq!(operatecode, 0xa5);
}

#[test]
fn lda_from_memory_should_work() {
    let mut ncpu = CPU::new();
    ncpu.write_to_memory_u8(0x10, 0x55);

    let _ = ncpu.load_and_run(vec![0xa5, 0x10, 0x00]);

    assert_eq!(ncpu.register_a, 0x55);
}

#[test]
fn sta_should_work() {
    let mut ncpu = CPU::new();
    ncpu.load(vec![0x85, 0x10, 0x00]);
    ncpu.reset();
    ncpu.register_a = 0x55;
    let _ = ncpu.run();
    assert_eq!(ncpu.read_from_memory_u8(0x10), 0x55);
}
