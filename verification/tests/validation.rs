//! The pulse-width × sampling-rate validation tables, cell by cell.

use max3010x::validation::{check_red_ir, check_red_only};
use max3010x::{LedPulseWidth as LedPw, SamplingRate as SR};

#[test]
fn invalid_combinations_oximeter_sampling_rate_800_pulse_width_411() {
    check_red_ir::<()>(LedPw::Pw411, SR::Sps800).expect_err("Should return error.");
}

#[test]
fn invalid_combinations_oximeter_sampling_rate_1000_pulse_width() {
    check_red_ir::<()>(LedPw::Pw215, SR::Sps1000).expect_err("Should return error.");
    check_red_ir::<()>(LedPw::Pw411, SR::Sps1000).expect_err("Should return error.");
}

#[test]
fn invalid_combinations_oximeter_sampling_rate_1600_pulse_width() {
    check_red_ir::<()>(LedPw::Pw118, SR::Sps1600).expect_err("Should return error.");
    check_red_ir::<()>(LedPw::Pw215, SR::Sps1600).expect_err("Should return error.");
    check_red_ir::<()>(LedPw::Pw411, SR::Sps1600).expect_err("Should return error.");
}

#[test]
fn invalid_combinations_oximeter_sampling_rate_3200_pulse_width() {
    check_red_ir::<()>(LedPw::Pw69, SR::Sps3200).expect_err("Should return error.");
    check_red_ir::<()>(LedPw::Pw118, SR::Sps3200).expect_err("Should return error.");
    check_red_ir::<()>(LedPw::Pw215, SR::Sps3200).expect_err("Should return error.");
    check_red_ir::<()>(LedPw::Pw411, SR::Sps3200).expect_err("Should return error.");
}

#[test]
fn invalid_combinations_heart_rate_sampling_rate_1600_pulse_width_411() {
    check_red_only::<()>(LedPw::Pw411, SR::Sps1600).expect_err("Should return error.");
}

#[test]
fn invalid_combinations_heart_rate_sampling_rate_3200_pulse_width() {
    check_red_only::<()>(LedPw::Pw118, SR::Sps3200).expect_err("Should return error.");
    check_red_only::<()>(LedPw::Pw215, SR::Sps3200).expect_err("Should return error.");
    check_red_only::<()>(LedPw::Pw411, SR::Sps3200).expect_err("Should return error.");
}

const ALL_WIDTHS: [LedPw; 4] = [LedPw::Pw69, LedPw::Pw118, LedPw::Pw215, LedPw::Pw411];
const ALL_RATES: [SR; 8] = [
    SR::Sps50,
    SR::Sps100,
    SR::Sps200,
    SR::Sps400,
    SR::Sps800,
    SR::Sps1000,
    SR::Sps1600,
    SR::Sps3200,
];

fn red_only_table(width: LedPw, rate: SR) -> bool {
    !((rate == SR::Sps3200 && width != LedPw::Pw69) || (rate == SR::Sps1600 && width == LedPw::Pw411))
}

fn red_ir_table(width: LedPw, rate: SR) -> bool {
    !(rate == SR::Sps3200
        || (rate == SR::Sps1600 && width != LedPw::Pw69)
        || (rate == SR::Sps1000 && (width == LedPw::Pw215 || width == LedPw::Pw411))
        || (rate == SR::Sps800 && width == LedPw::Pw411))
}

#[test]
fn heart_rate_table_is_exact_on_every_cell() {
    for &width in ALL_WIDTHS.iter() {
        for &rate in ALL_RATES.iter() {
            let accepted = check_red_only::<()>(width, rate).is_ok();
            assert_eq!(accepted, red_only_table(width, rate), "{:?} {:?}", width, rate);
        }
    }
}

#[test]
fn oximeter_table_is_exact_on_every_cell() {
    for &width in ALL_WIDTHS.iter() {
        for &rate in ALL_RATES.iter() {
            let accepted = check_red_ir::<()>(width, rate).is_ok();
            assert_eq!(accepted, red_ir_table(width, rate), "{:?} {:?}", width, rate);
        }
    }
}
