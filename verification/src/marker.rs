//! Marker types tagging a device handle with its device and operating mode.

use vstd::prelude::*;

verus! {

/// Marker for a handle whose operating mode has not been selected yet.
pub struct Uninitialized(());

/// Marker for heart-rate mode (LED1 only, one sample channel).
pub struct HeartRate(());

/// Marker for SpO2 (oximeter) mode (LED1 and LED2, two sample channels).
pub struct Oximeter(());

/// Marker for multi-LED mode (time-slot driven, two sample channels).
pub struct MultiLed(());

/// Marker for the MAX30102 device.
pub struct Max30102(());

/// Implemented only by this crate's marker types.
pub trait Sealed {

}

impl Sealed for Uninitialized {

}

impl Sealed for HeartRate {

}

impl Sealed for Oximeter {

}

impl Sealed for MultiLed {

}

impl Sealed for Max30102 {

}

} // verus!
