//! Self-tests of the assertion helpers, mirrored for the shared test
//! utilities.

fn assert_would_block(result: Result<(), nb::Error<()>>) {
    match result {
        Err(nb::Error::WouldBlock) => (),
        _ => panic!("Did not return nb::Error::WouldBlock"),
    }
}

fn assert_near(left: f64, right: f64, eps: f64) {
    assert!((left - right) < eps && (right - left) < eps);
}

#[test]
fn common_assert_would_block_can_succeed() {
    assert_would_block(Err::<(), nb::Error<()>>(nb::Error::WouldBlock));
}

#[test]
#[should_panic]
fn common_assert_would_block_can_fail() {
    assert_would_block(Ok::<(), nb::Error<()>>(()));
}

#[test]
fn common_assert_near_can_succeed() {
    assert_near(1.0, 1.01, 0.1);
}

#[test]
#[should_panic]
fn common_assert_near_can_fail() {
    assert_near(1.0, 4.0, 0.1);
}
