//! Self-tests of the assertion helpers shared by the integration tests.

use max3010x::Error;

fn assert_would_block(result: Result<(), nb::Error<()>>) {
    match result {
        Err(nb::Error::WouldBlock) => (),
        _ => panic!("Did not return nb::Error::WouldBlock"),
    }
}

fn assert_invalid_args(result: Result<(), Error<()>>) {
    match result {
        Err(Error::InvalidArguments) => (),
        _ => panic!("Did not return Error::InvalidArguments"),
    }
}

fn assert_near(left: f64, right: f64, eps: f64) {
    assert!((left - right) < eps && (right - left) < eps);
}

#[test]
fn base_tests_assert_would_block_can_succeed() {
    assert_would_block(Err::<(), nb::Error<()>>(nb::Error::WouldBlock));
}

#[test]
#[should_panic]
fn base_tests_assert_would_block_can_fail() {
    assert_would_block(Ok::<(), nb::Error<()>>(()));
}

#[test]
fn assert_invalid_args_can_succeed() {
    assert_invalid_args(Err::<(), Error<()>>(Error::InvalidArguments));
}

#[test]
#[should_panic]
fn assert_invalid_args_can_fail() {
    assert_invalid_args(Ok::<(), Error<()>>(()));
}

#[test]
fn base_tests_assert_near_can_succeed() {
    assert_near(1.0, 1.01, 0.1);
}

#[test]
#[should_panic]
fn base_tests_assert_near_can_fail() {
    assert_near(1.0, 4.0, 0.1);
}
