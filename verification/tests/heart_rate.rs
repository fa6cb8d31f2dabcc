//! Heart-rate mode: transition bytes and mode-gated setters.

use max3010x::{
    LedPulseWidth as LedPw, Max30102, Max3010x, MockBus, RecordedOp, SamplingRate as SR,
    Uninitialized,
};

const DEV_ADDR: u8 = 0b101_0111;
const REG_FIFO_WR_PTR: u8 = 0x04;
const REG_MODE: u8 = 0x09;
const REG_SPO2_CONFIG: u8 = 0x0A;
const REG_INT_EN1: u8 = 0x02;
const PPG_RDY_INT: u8 = 0b0100_0000;

fn new_device() -> Max3010x<MockBus, Max30102, Uninitialized> {
    Max3010x::new_max30102(MockBus::new())
}

fn expect_write(op: &RecordedOp, data: &[u8]) {
    assert_eq!(op.address, DEV_ADDR);
    assert!(!op.is_read);
    assert_eq!(op.request.as_slice(), data);
}

#[test]
fn heart_rate_can_change_into_hr() {
    let dev = new_device();
    let dev = dev.into_heart_rate().unwrap();
    let bus = dev.destroy();
    let log = bus.recorded();
    assert_eq!(log.len(), 2);
    expect_write(&log[0], &[REG_MODE, 0b010]);
    expect_write(&log[1], &[REG_FIFO_WR_PTR, 0, 0, 0]);
}

#[test]
fn hr_enable_new_fifo_data_ready_interrupt() {
    let mut dev = new_device().into_heart_rate().unwrap();
    dev.enable_new_fifo_data_ready_interrupt().unwrap();
    let bus = dev.destroy();
    expect_write(&bus.recorded()[2], &[REG_INT_EN1, PPG_RDY_INT]);
}

#[test]
fn hr_disable_new_fifo_data_ready_interrupt() {
    let mut dev = new_device().into_heart_rate().unwrap();
    dev.disable_new_fifo_data_ready_interrupt().unwrap();
    let bus = dev.destroy();
    expect_write(&bus.recorded()[2], &[REG_INT_EN1, 0]);
}

fn hr_set_pw_case(width: LedPw, expected: u8) {
    let mut dev = new_device().into_heart_rate().unwrap();
    dev.set_pulse_width(width).unwrap();
    let bus = dev.destroy();
    expect_write(&bus.recorded()[2], &[REG_SPO2_CONFIG, expected]);
}

#[test]
fn hr_can_set_pw() {
    hr_set_pw_case(LedPw::Pw69, 0);
    hr_set_pw_case(LedPw::Pw118, 1);
    hr_set_pw_case(LedPw::Pw215, 2);
    hr_set_pw_case(LedPw::Pw411, 3);
}

fn hr_set_sr_case(rate: SR, expected: u8) {
    let mut dev = new_device().into_heart_rate().unwrap();
    dev.set_sampling_rate(rate).unwrap();
    let bus = dev.destroy();
    expect_write(&bus.recorded()[2], &[REG_SPO2_CONFIG, expected]);
}

#[test]
fn hr_can_set_sr() {
    hr_set_sr_case(SR::Sps50, 0);
    hr_set_sr_case(SR::Sps100, 1 << 2);
    hr_set_sr_case(SR::Sps200, 2 << 2);
    hr_set_sr_case(SR::Sps400, 3 << 2);
    hr_set_sr_case(SR::Sps800, 4 << 2);
    hr_set_sr_case(SR::Sps1000, 5 << 2);
    hr_set_sr_case(SR::Sps1600, 6 << 2);
    hr_set_sr_case(SR::Sps3200, 7 << 2);
}

#[test]
fn hr_sr_3200_with_wide_pulse_is_rejected() {
    // In heart-rate mode 3200 sps is only admissible with the 69 us width.
    let mut dev = new_device().into_heart_rate().unwrap();
    dev.set_pulse_width(LedPw::Pw118).unwrap();
    match dev.set_sampling_rate(SR::Sps3200) {
        Err(max3010x::Error::InvalidArguments) => (),
        _ => panic!("Did not return Error::InvalidArguments"),
    }
    let bus = dev.destroy();
    // Mode write, FIFO clear, pulse width write: the rejected call wrote
    // nothing.
    assert_eq!(bus.recorded().len(), 3);
}

#[test]
fn hr_sr_1600_with_pw_411_is_rejected() {
    let mut dev = new_device().into_heart_rate().unwrap();
    dev.set_pulse_width(LedPw::Pw411).unwrap();
    match dev.set_sampling_rate(SR::Sps1600) {
        Err(max3010x::Error::InvalidArguments) => (),
        _ => panic!("Did not return Error::InvalidArguments"),
    }
    dev.destroy();
}

#[test]
fn hr_pw_411_with_sr_1600_is_rejected() {
    let mut dev = new_device().into_heart_rate().unwrap();
    dev.set_sampling_rate(SR::Sps1600).unwrap();
    match dev.set_pulse_width(LedPw::Pw411) {
        Err(max3010x::Error::InvalidArguments) => (),
        _ => panic!("Did not return Error::InvalidArguments"),
    }
    dev.destroy();
}
