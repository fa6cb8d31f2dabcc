//! Interrupt enable flags and the interrupt status snapshot.

use max3010x::{InterruptStatus, Max30102, Max3010x, MockBus, RecordedOp, Uninitialized};

const DEV_ADDR: u8 = 0b101_0111;
const REG_INT_STATUS: u8 = 0x00;
const REG_INT_EN1: u8 = 0x02;
const REG_INT_EN2: u8 = 0x03;
const FIFO_A_FULL_INT: u8 = 0b1000_0000;
const ALC_OVF_INT: u8 = 0b0010_0000;
const DIE_TEMP_RDY_INT: u8 = 0b0000_0010;
const PPG_RDY_INT: u8 = 0b0100_0000;
const PWR_RDY_INT: u8 = 0b0000_0001;

fn new_device() -> Max3010x<MockBus, Max30102, Uninitialized> {
    Max3010x::new_max30102(MockBus::new())
}

fn expect_write(op: &RecordedOp, data: &[u8]) {
    assert_eq!(op.address, DEV_ADDR);
    assert!(!op.is_read);
    assert_eq!(op.request.as_slice(), data);
}

fn is_int_status_eq(a: InterruptStatus, b: InterruptStatus) {
    if a.power_ready != b.power_ready
        || a.fifo_almost_full != b.fifo_almost_full
        || a.new_fifo_data_ready != b.new_fifo_data_ready
        || a.alc_overflow != b.alc_overflow
        || a.temperature_ready != b.temperature_ready
    {
        panic!("Interrupt status is not equal");
    }
}

fn new_int_status(
    power_ready: bool,
    fifo_almost_full: bool,
    new_fifo_data_ready: bool,
    alc_overflow: bool,
    temperature_ready: bool,
) -> InterruptStatus {
    InterruptStatus {
        power_ready,
        fifo_almost_full,
        new_fifo_data_ready,
        alc_overflow,
        temperature_ready,
    }
}

#[test]
fn int_status_is_equal() {
    let a = new_int_status(false, false, false, false, false);
    let b = new_int_status(false, false, false, false, false);
    is_int_status_eq(a, b);
}

#[test]
#[should_panic]
fn int_status_is_not_equal() {
    let a = new_int_status(false, false, false, false, false);
    let b = new_int_status(true, false, false, false, false);
    is_int_status_eq(a, b);
}

#[test]
fn enable_fifo_almost_full_interrupt() {
    let mut dev = new_device();
    dev.enable_fifo_almost_full_interrupt().unwrap();
    let bus = dev.destroy();
    expect_write(&bus.recorded()[0], &[REG_INT_EN1, FIFO_A_FULL_INT]);
}

#[test]
fn disable_fifo_almost_full_interrupt() {
    let mut dev = new_device();
    dev.enable_fifo_almost_full_interrupt().unwrap();
    dev.disable_fifo_almost_full_interrupt().unwrap();
    let bus = dev.destroy();
    expect_write(&bus.recorded()[1], &[REG_INT_EN1, 0]);
}

#[test]
fn enable_alc_overflow_interrupt() {
    let mut dev = new_device();
    dev.enable_alc_overflow_interrupt().unwrap();
    let bus = dev.destroy();
    expect_write(&bus.recorded()[0], &[REG_INT_EN1, ALC_OVF_INT]);
}

#[test]
fn disable_alc_overflow_interrupt() {
    let mut dev = new_device();
    dev.enable_alc_overflow_interrupt().unwrap();
    dev.disable_alc_overflow_interrupt().unwrap();
    let bus = dev.destroy();
    expect_write(&bus.recorded()[1], &[REG_INT_EN1, 0]);
}

#[test]
fn enable_temperature_ready_interrupt() {
    let mut dev = new_device();
    dev.enable_temperature_ready_interrupt().unwrap();
    let bus = dev.destroy();
    expect_write(&bus.recorded()[0], &[REG_INT_EN2, DIE_TEMP_RDY_INT]);
}

#[test]
fn disable_temperature_ready_interrupt() {
    let mut dev = new_device();
    dev.enable_temperature_ready_interrupt().unwrap();
    dev.disable_temperature_ready_interrupt().unwrap();
    let bus = dev.destroy();
    expect_write(&bus.recorded()[1], &[REG_INT_EN2, 0]);
}

#[test]
fn interrupt_flags_combine_in_the_shadow_register() {
    // Each setter rewrites the whole register from the shadow, so earlier
    // flags are kept.
    let mut dev = new_device();
    dev.enable_fifo_almost_full_interrupt().unwrap();
    dev.enable_alc_overflow_interrupt().unwrap();
    let bus = dev.destroy();
    let log = bus.recorded();
    expect_write(&log[0], &[REG_INT_EN1, FIFO_A_FULL_INT]);
    expect_write(&log[1], &[REG_INT_EN1, FIFO_A_FULL_INT | ALC_OVF_INT]);
}

fn int_status_case(response: [u8; 2], expected: InterruptStatus) {
    let mut bus = MockBus::new();
    bus.push_response(response.to_vec());
    let mut dev = Max3010x::new_max30102(bus);
    let result = dev.read_interrupt_status().unwrap();
    is_int_status_eq(result, expected);
    let bus = dev.destroy();
    let op = &bus.recorded()[0];
    assert!(op.is_read);
    assert_eq!(op.request.as_slice(), &[REG_INT_STATUS]);
    assert!(bus.done());
}

#[test]
fn read_int_status_all_clear() {
    int_status_case([0, 0], new_int_status(false, false, false, false, false));
}

#[test]
fn read_int_status_pwr_rdy_true() {
    int_status_case([PWR_RDY_INT, 0], new_int_status(true, false, false, false, false));
}

#[test]
fn read_int_status_fifo_a_full_true() {
    int_status_case([FIFO_A_FULL_INT, 0], new_int_status(false, true, false, false, false));
}

#[test]
fn read_int_status_ppg_rdy_true() {
    int_status_case([PPG_RDY_INT, 0], new_int_status(false, false, true, false, false));
}

#[test]
fn read_int_status_alc_ovf_true() {
    int_status_case([ALC_OVF_INT, 0], new_int_status(false, false, false, true, false));
}

#[test]
fn read_int_status_temp_rdy_true() {
    int_status_case([0, DIE_TEMP_RDY_INT], new_int_status(false, false, false, false, true));
}
