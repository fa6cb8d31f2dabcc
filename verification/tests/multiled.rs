//! Multi-LED mode: transition bytes, time-slot validation and packing, and
//! the unrestricted pulse-width/sampling-rate table.

use max3010x::TimeSlot::{Disabled, Led1, Led2};
use max3010x::{
    LedPulseWidth as LedPw, Max30102, Max3010x, MockBus, RecordedOp, SamplingRate as SR, TimeSlot,
    Uninitialized,
};

const DEV_ADDR: u8 = 0b101_0111;
const REG_FIFO_WR_PTR: u8 = 0x04;
const REG_MODE: u8 = 0x09;
const REG_SPO2_CONFIG: u8 = 0x0A;
const REG_SLOT_CONFIG0: u8 = 0x11;

fn new_device() -> Max3010x<MockBus, Max30102, Uninitialized> {
    Max3010x::new_max30102(MockBus::new())
}

fn expect_write(op: &RecordedOp, data: &[u8]) {
    assert_eq!(op.address, DEV_ADDR);
    assert!(!op.is_read);
    assert_eq!(op.request.as_slice(), data);
}

fn assert_invalid_args<T, E>(result: Result<T, max3010x::Error<E>>) {
    match result {
        Err(max3010x::Error::InvalidArguments) => (),
        _ => panic!("Did not return Error::InvalidArguments"),
    }
}

#[test]
fn can_change_into_multi_led() {
    let dev = new_device();
    let dev = dev.into_multi_led().unwrap();
    let bus = dev.destroy();
    let log = bus.recorded();
    assert_eq!(log.len(), 2);
    expect_write(&log[0], &[REG_MODE, 0b111]);
    expect_write(&log[1], &[REG_FIFO_WR_PTR, 0, 0, 0]);
}

fn cannot_enable_led_slots(slots: [TimeSlot; 4]) {
    let dev = new_device();
    let mut dev = dev.into_multi_led().unwrap();
    assert_invalid_args(dev.set_led_time_slots(slots));
    let bus = dev.destroy();
    // The rejected call issued no write after the mode transition.
    assert_eq!(bus.recorded().len(), 2);
}

#[test]
fn cannot_enable_led_slots_enabled_after_disabled0() {
    cannot_enable_led_slots([Disabled, Led1, Led1, Led1]);
}

#[test]
fn cannot_enable_led_slots_enabled_after_disabled2() {
    cannot_enable_led_slots([Led1, Led1, Disabled, Led1]);
}

fn can_set_led_slots(slots: [TimeSlot; 4], expected: Vec<u8>) {
    let dev = new_device();
    let mut dev = dev.into_multi_led().unwrap();
    dev.set_led_time_slots(slots).unwrap();
    let bus = dev.destroy();
    expect_write(&bus.recorded()[2], expected.as_slice());
}

#[test]
fn can_set_all_led_slots() {
    can_set_led_slots(
        [Led1, Led2, Led1, Led2],
        vec![REG_SLOT_CONFIG0, 2 << 4 | 1, 2 << 4 | 1],
    );
}

#[test]
fn can_set_led_slots_with_last_disabled() {
    can_set_led_slots(
        [Led1, Led2, Led1, Disabled],
        vec![REG_SLOT_CONFIG0, 2 << 4 | 1, 1],
    );
}

#[test]
fn can_set_only_one_led_slots() {
    can_set_led_slots([Led1, Disabled, Disabled, Disabled], vec![REG_SLOT_CONFIG0, 1, 0]);
}

fn ml_set_pw_case(width: LedPw, expected: u8) {
    let mut dev = new_device().into_multi_led().unwrap();
    dev.set_pulse_width(width).unwrap();
    let bus = dev.destroy();
    expect_write(&bus.recorded()[2], &[REG_SPO2_CONFIG, expected]);
}

#[test]
fn ml_can_set_pw() {
    ml_set_pw_case(LedPw::Pw69, 0);
    ml_set_pw_case(LedPw::Pw118, 1);
    ml_set_pw_case(LedPw::Pw215, 2);
    ml_set_pw_case(LedPw::Pw411, 3);
}

fn ml_set_sr_case(rate: SR, expected: u8) {
    let mut dev = new_device().into_multi_led().unwrap();
    dev.set_sampling_rate(rate).unwrap();
    let bus = dev.destroy();
    expect_write(&bus.recorded()[2], &[REG_SPO2_CONFIG, expected]);
}

#[test]
fn ml_can_set_sr() {
    // Multi-LED mode has no pulse-width/sampling-rate restriction.
    ml_set_sr_case(SR::Sps50, 0);
    ml_set_sr_case(SR::Sps100, 1 << 2);
    ml_set_sr_case(SR::Sps200, 2 << 2);
    ml_set_sr_case(SR::Sps400, 3 << 2);
    ml_set_sr_case(SR::Sps800, 4 << 2);
    ml_set_sr_case(SR::Sps1000, 5 << 2);
    ml_set_sr_case(SR::Sps1600, 6 << 2);
    ml_set_sr_case(SR::Sps3200, 7 << 2);
}

#[test]
fn ml_sr_3200_accepted_with_any_pulse_width() {
    let mut dev = new_device().into_multi_led().unwrap();
    dev.set_pulse_width(LedPw::Pw411).unwrap();
    dev.set_sampling_rate(SR::Sps3200).unwrap();
    dev.destroy();
}
