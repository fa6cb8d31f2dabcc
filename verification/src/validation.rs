//! Mode-dependent validation of the LED pulse width × sampling rate
//! combination.
//!
//! Before a new pulse width or sampling rate is committed, it is checked
//! against the other, currently configured, value. The admissible pairs
//! differ by mode: heart-rate mode drives the red LED only, oximeter mode
//! drives red and IR, and multi-LED mode has no restriction.

use vstd::prelude::*;

use crate::marker::{HeartRate, MultiLed, Oximeter, Sealed};
use crate::{Error, LedPulseWidth, SamplingRate};

verus! {

/// Whether a mode that drives the red LED only admits the pair: it rejects
/// 3200 sps combined with any pulse width above 69 μs, and 1600 sps combined
/// with the 411 μs pulse width.
pub open spec fn red_only_allowed(width: LedPulseWidth, rate: SamplingRate) -> bool {
    !((rate == SamplingRate::Sps3200 && (width == LedPulseWidth::Pw118 || width
        == LedPulseWidth::Pw215 || width == LedPulseWidth::Pw411)) || (rate
        == SamplingRate::Sps1600 && width == LedPulseWidth::Pw411))
}

/// Whether a mode that drives the red and IR LEDs admits the pair: it rejects
/// 3200 sps outright, 1600 sps combined with any pulse width above 69 μs,
/// 1000 sps combined with the 215 μs or 411 μs pulse widths, and 800 sps
/// combined with the 411 μs pulse width.
pub open spec fn red_ir_allowed(width: LedPulseWidth, rate: SamplingRate) -> bool {
    !(rate == SamplingRate::Sps3200 || (rate == SamplingRate::Sps1600 && (width
        == LedPulseWidth::Pw118 || width == LedPulseWidth::Pw215 || width
        == LedPulseWidth::Pw411)) || (rate == SamplingRate::Sps1000 && (width
        == LedPulseWidth::Pw215 || width == LedPulseWidth::Pw411)) || (rate
        == SamplingRate::Sps800 && width == LedPulseWidth::Pw411))
}

/// Check a pulse width / sampling rate pair against the red-LED-only table.
pub fn check_red_only<E>(width: LedPulseWidth, rate: SamplingRate) -> (result: Result<
    (),
    Error<E>,
>)
    ensures
        result is Ok <==> red_only_allowed(width, rate),
        result is Err ==> result matches Err(Error::InvalidArguments),
{
    if (rate == SamplingRate::Sps3200 && (width == LedPulseWidth::Pw118 || width
        == LedPulseWidth::Pw215 || width == LedPulseWidth::Pw411)) || (rate
        == SamplingRate::Sps1600 && width == LedPulseWidth::Pw411) {
        Err(Error::InvalidArguments)
    } else {
        Ok(())
    }
}

/// Check a pulse width / sampling rate pair against the red+IR table.
pub fn check_red_ir<E>(width: LedPulseWidth, rate: SamplingRate) -> (result: Result<(), Error<E>>)
    ensures
        result is Ok <==> red_ir_allowed(width, rate),
        result is Err ==> result matches Err(Error::InvalidArguments),
{
    if rate == SamplingRate::Sps3200 || (rate == SamplingRate::Sps1600 && (width
        == LedPulseWidth::Pw118 || width == LedPulseWidth::Pw215 || width
        == LedPulseWidth::Pw411)) || (rate == SamplingRate::Sps1000 && (width
        == LedPulseWidth::Pw215 || width == LedPulseWidth::Pw411)) || (rate
        == SamplingRate::Sps800 && width == LedPulseWidth::Pw411) {
        Err(Error::InvalidArguments)
    } else {
        Ok(())
    }
}

/// The pulse width / sampling rate validation rule of an operating mode.
pub trait ValidateSrPw: Sealed {
    /// Whether this mode admits the pulse width / sampling rate pair.
    spec fn allowed(width: LedPulseWidth, rate: SamplingRate) -> bool;

    /// Check the pulse width and sample rate combination.
    fn check<E>(width: LedPulseWidth, rate: SamplingRate) -> (result: Result<(), Error<E>>)
        ensures
            result is Ok <==> Self::allowed(width, rate),
            result is Err ==> result matches Err(Error::InvalidArguments),
    ;
}

impl ValidateSrPw for HeartRate {
    open spec fn allowed(width: LedPulseWidth, rate: SamplingRate) -> bool {
        red_only_allowed(width, rate)
    }

    fn check<E>(width: LedPulseWidth, rate: SamplingRate) -> (result: Result<(), Error<E>>) {
        check_red_only(width, rate)
    }
}

impl ValidateSrPw for Oximeter {
    open spec fn allowed(width: LedPulseWidth, rate: SamplingRate) -> bool {
        red_ir_allowed(width, rate)
    }

    fn check<E>(width: LedPulseWidth, rate: SamplingRate) -> (result: Result<(), Error<E>>) {
        check_red_ir(width, rate)
    }
}

impl ValidateSrPw for MultiLed {
    open spec fn allowed(width: LedPulseWidth, rate: SamplingRate) -> bool {
        true
    }

    fn check<E>(width: LedPulseWidth, rate: SamplingRate) -> (result: Result<(), Error<E>>) {
        Ok(())
    }
}

} // verus!
