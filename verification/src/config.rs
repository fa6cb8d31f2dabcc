//! Device configuration: mode transitions, register bitfield encodings, and
//! the configuration setters.
//!
//! Every setter follows one pattern: take the shadow copy of the register,
//! clear the bits owned by the setting, OR in the new field value, write the
//! whole byte to the device, and update the shadow only when the write
//! succeeded. A failed write therefore never moves the shadow out of sync
//! with the hardware.

use vstd::prelude::*;

use core::marker::PhantomData;

use crate::bus::I2cBus;
use crate::marker::{HeartRate, Max30102, MultiLed, Oximeter, Sealed};
use crate::validation::ValidateSrPw;
use crate::{
    write_op, AdcRange, Config, ConfigState, Error, FifoAlmostFullLevelInterrupt, Led,
    LedPulseWidth, Max3010x, SampleAveraging, SamplingRate, TimeSlot, FLAG_ALC_OVF_INT,
    FLAG_DIE_TEMP_RDY_INT, FLAG_FIFO_A_FULL_INT, FLAG_FIFO_ROLLOVER_EN, FLAG_PPG_RDY_INT,
    FLAG_RESET, FLAG_SHUTDOWN, REG_FIFO_CONFIG, REG_FIFO_WR_PTR, REG_INT_EN1, REG_INT_EN2,
    REG_LED1_PA, REG_LED2_PA, REG_MODE, REG_SLOT_CONFIG0, REG_SPO2_CONFIG,
};

verus! {

// --- Bitfield encodings -----------------------------------------------------
/// The mode register value entering heart-rate mode: the mode bits become
/// `0b010`, every other bit keeps its previous value.
pub open spec fn heart_rate_mode_bits(previous: u8) -> u8 {
    (previous & !0b0000_0101) | 0b0000_0010
}

/// The mode register value entering oximeter mode: the mode bits become
/// `0b011`, every other bit keeps its previous value.
pub open spec fn oximeter_mode_bits(previous: u8) -> u8 {
    (previous & !0b0000_0100) | 0b0000_0011
}

/// The mode register value entering multi-LED mode: the mode bits become
/// `0b111`, every other bit keeps its previous value.
pub open spec fn multi_led_mode_bits(previous: u8) -> u8 {
    previous | 0b0000_0111
}

/// The 3-bit sample averaging field, already placed at bits 5-7.
pub open spec fn sample_averaging_bits(sample_averaging: SampleAveraging) -> u8 {
    match sample_averaging {
        SampleAveraging::Sa1 => 0b0000_0000,
        SampleAveraging::Sa2 => 0b0010_0000,
        SampleAveraging::Sa4 => 0b0100_0000,
        SampleAveraging::Sa8 => 0b0110_0000,
        SampleAveraging::Sa16 => 0b1000_0000,
        SampleAveraging::Sa32 => 0b1010_0000,
    }
}

/// The FIFO configuration register with the sample averaging field replaced.
pub open spec fn sample_averaging_encode(previous: u8, sample_averaging: SampleAveraging) -> u8 {
    (previous & !0b1110_0000) | sample_averaging_bits(sample_averaging)
}

/// The 4-bit FIFO-almost-full level: the number of empty slots left when the
/// interrupt fires.
pub open spec fn fifo_a_full_level_bits(level: FifoAlmostFullLevelInterrupt) -> u8 {
    match level {
        FifoAlmostFullLevelInterrupt::L0 => 0,
        FifoAlmostFullLevelInterrupt::L1 => 1,
        FifoAlmostFullLevelInterrupt::L2 => 2,
        FifoAlmostFullLevelInterrupt::L3 => 3,
        FifoAlmostFullLevelInterrupt::L4 => 4,
        FifoAlmostFullLevelInterrupt::L5 => 5,
        FifoAlmostFullLevelInterrupt::L6 => 6,
        FifoAlmostFullLevelInterrupt::L7 => 7,
        FifoAlmostFullLevelInterrupt::L8 => 8,
        FifoAlmostFullLevelInterrupt::L9 => 9,
        FifoAlmostFullLevelInterrupt::L10 => 10,
        FifoAlmostFullLevelInterrupt::L11 => 11,
        FifoAlmostFullLevelInterrupt::L12 => 12,
        FifoAlmostFullLevelInterrupt::L13 => 13,
        FifoAlmostFullLevelInterrupt::L14 => 14,
        FifoAlmostFullLevelInterrupt::L15 => 15,
    }
}

/// The FIFO configuration register with the almost-full level field replaced.
pub open spec fn fifo_a_full_level_encode(previous: u8, level: FifoAlmostFullLevelInterrupt) -> u8 {
    (previous & !0b0000_1111) | fifo_a_full_level_bits(level)
}

/// The 2-bit LED pulse width field at bits 0-1.
pub open spec fn pulse_width_bits(width: LedPulseWidth) -> u8 {
    match width {
        LedPulseWidth::Pw69 => 0,
        LedPulseWidth::Pw118 => 1,
        LedPulseWidth::Pw215 => 2,
        LedPulseWidth::Pw411 => 3,
    }
}

/// The SpO2 configuration register with the pulse width field replaced.
pub open spec fn pulse_width_encode(previous: u8, width: LedPulseWidth) -> u8 {
    (previous & !0b0000_0011) | pulse_width_bits(width)
}

/// The pulse width encoded in bits 0-1 of the SpO2 configuration register.
pub open spec fn pulse_width_decode(bits: u8) -> LedPulseWidth {
    if bits & 0b0000_0011 == 0 {
        LedPulseWidth::Pw69
    } else if bits & 0b0000_0011 == 1 {
        LedPulseWidth::Pw118
    } else if bits & 0b0000_0011 == 2 {
        LedPulseWidth::Pw215
    } else {
        LedPulseWidth::Pw411
    }
}

/// The 3-bit sampling rate field, already placed at bits 2-4.
pub open spec fn sampling_rate_bits(rate: SamplingRate) -> u8 {
    match rate {
        SamplingRate::Sps50 => 0b0000_0000,
        SamplingRate::Sps100 => 0b0000_0100,
        SamplingRate::Sps200 => 0b0000_1000,
        SamplingRate::Sps400 => 0b0000_1100,
        SamplingRate::Sps800 => 0b0001_0000,
        SamplingRate::Sps1000 => 0b0001_0100,
        SamplingRate::Sps1600 => 0b0001_1000,
        SamplingRate::Sps3200 => 0b0001_1100,
    }
}

/// The SpO2 configuration register with the sampling rate field replaced.
pub open spec fn sampling_rate_encode(previous: u8, rate: SamplingRate) -> u8 {
    (previous & !0b0001_1100) | sampling_rate_bits(rate)
}

/// The sampling rate encoded in bits 2-4 of the SpO2 configuration register.
pub open spec fn sampling_rate_decode(bits: u8) -> SamplingRate {
    let field = (bits & 0b0001_1100) >> 2;
    if field == 0 {
        SamplingRate::Sps50
    } else if field == 1 {
        SamplingRate::Sps100
    } else if field == 2 {
        SamplingRate::Sps200
    } else if field == 3 {
        SamplingRate::Sps400
    } else if field == 4 {
        SamplingRate::Sps800
    } else if field == 5 {
        SamplingRate::Sps1000
    } else if field == 6 {
        SamplingRate::Sps1600
    } else {
        SamplingRate::Sps3200
    }
}

/// The 2-bit ADC range field, already placed at bits 5-6.
pub open spec fn adc_range_bits(range: AdcRange) -> u8 {
    match range {
        AdcRange::Fs2k => 0b0000_0000,
        AdcRange::Fs4k => 0b0010_0000,
        AdcRange::Fs8k => 0b0100_0000,
        AdcRange::Fs16k => 0b0110_0000,
    }
}

/// The SpO2 configuration register with the ADC range field replaced.
pub open spec fn adc_range_encode(previous: u8, range: AdcRange) -> u8 {
    (previous & !0b0110_0000) | adc_range_bits(range)
}

/// The 4-bit slot mask of one time slot.
pub open spec fn slot_mask(slot: TimeSlot) -> u8 {
    match slot {
        TimeSlot::Disabled => 0,
        TimeSlot::Led1 => 1,
        TimeSlot::Led2 => 2,
    }
}

/// One slot configuration byte, packing two adjacent slots.
pub open spec fn slot_pair_byte(high: TimeSlot, low: TimeSlot) -> u8 {
    (slot_mask(high) << 4) | slot_mask(low)
}

/// Slots activate contiguously from slot 0: once a slot is disabled, every
/// following slot is disabled too.
pub open spec fn slots_valid(slots: Seq<TimeSlot>) -> bool {
    forall|i: int, j: int|
        0 <= i < j < slots.len() && slots[i] == TimeSlot::Disabled ==> slots[j]
            == TimeSlot::Disabled
}

/// Entering a mode twice writes the same mode register value both times:
/// each transition only rewrites the three mode bits, so transitions are
/// idempotent at the register level.
pub proof fn lemma_mode_transitions_idempotent(previous: u8)
    ensures
        heart_rate_mode_bits(heart_rate_mode_bits(previous)) == heart_rate_mode_bits(previous),
        oximeter_mode_bits(oximeter_mode_bits(previous)) == oximeter_mode_bits(previous),
        multi_led_mode_bits(multi_led_mode_bits(previous)) == multi_led_mode_bits(previous),
{
    assert((((previous & !0b0000_0101) | 0b0000_0010) & !0b0000_0101) | 0b0000_0010 == (previous
        & !0b0000_0101) | 0b0000_0010) by (bit_vector);
    assert((((previous & !0b0000_0100) | 0b0000_0011) & !0b0000_0100) | 0b0000_0011 == (previous
        & !0b0000_0100) | 0b0000_0011) by (bit_vector);
    assert((previous | 0b0000_0111) | 0b0000_0111 == previous | 0b0000_0111) by (bit_vector);
}

// --- Round trips ------------------------------------------------------------
/// Writing a pulse width into any SpO2 configuration byte and reading the
/// field back yields the written value, whatever the other bits hold.
pub proof fn lemma_pulse_width_round_trip(previous: u8, width: LedPulseWidth)
    ensures
        pulse_width_decode(pulse_width_encode(previous, width)) == width,
{
    match width {
        LedPulseWidth::Pw69 => {
            assert(((previous & !0b0000_0011) | 0) & 0b0000_0011 == 0) by (bit_vector);
        },
        LedPulseWidth::Pw118 => {
            assert(((previous & !0b0000_0011) | 1) & 0b0000_0011 == 1) by (bit_vector);
        },
        LedPulseWidth::Pw215 => {
            assert(((previous & !0b0000_0011) | 2) & 0b0000_0011 == 2) by (bit_vector);
        },
        LedPulseWidth::Pw411 => {
            assert(((previous & !0b0000_0011) | 3) & 0b0000_0011 == 3) by (bit_vector);
        },
    }
}

/// Writing a sampling rate into any SpO2 configuration byte and reading the
/// field back yields the written value, whatever the other bits hold.
pub proof fn lemma_sampling_rate_round_trip(previous: u8, rate: SamplingRate)
    ensures
        sampling_rate_decode(sampling_rate_encode(previous, rate)) == rate,
{
    match rate {
        SamplingRate::Sps50 => {
            assert((((previous & !0b0001_1100) | 0b0000_0000) & 0b0001_1100) >> 2 == 0)
                by (bit_vector);
        },
        SamplingRate::Sps100 => {
            assert((((previous & !0b0001_1100) | 0b0000_0100) & 0b0001_1100) >> 2 == 1)
                by (bit_vector);
        },
        SamplingRate::Sps200 => {
            assert((((previous & !0b0001_1100) | 0b0000_1000) & 0b0001_1100) >> 2 == 2)
                by (bit_vector);
        },
        SamplingRate::Sps400 => {
            assert((((previous & !0b0001_1100) | 0b0000_1100) & 0b0001_1100) >> 2 == 3)
                by (bit_vector);
        },
        SamplingRate::Sps800 => {
            assert((((previous & !0b0001_1100) | 0b0001_0000) & 0b0001_1100) >> 2 == 4)
                by (bit_vector);
        },
        SamplingRate::Sps1000 => {
            assert((((previous & !0b0001_1100) | 0b0001_0100) & 0b0001_1100) >> 2 == 5)
                by (bit_vector);
        },
        SamplingRate::Sps1600 => {
            assert((((previous & !0b0001_1100) | 0b0001_1000) & 0b0001_1100) >> 2 == 6)
                by (bit_vector);
        },
        SamplingRate::Sps3200 => {
            assert((((previous & !0b0001_1100) | 0b0001_1100) & 0b0001_1100) >> 2 == 7)
                by (bit_vector);
        },
    }
}

// --- Field value helpers ----------------------------------------------------
impl FifoAlmostFullLevelInterrupt {
    /// The 4-bit register field value of this level.
    pub fn get_register_value(self) -> (value: u8)
        ensures
            value == fifo_a_full_level_bits(self),
            value <= 15,
    {
        match self {
            FifoAlmostFullLevelInterrupt::L0 => 0,
            FifoAlmostFullLevelInterrupt::L1 => 1,
            FifoAlmostFullLevelInterrupt::L2 => 2,
            FifoAlmostFullLevelInterrupt::L3 => 3,
            FifoAlmostFullLevelInterrupt::L4 => 4,
            FifoAlmostFullLevelInterrupt::L5 => 5,
            FifoAlmostFullLevelInterrupt::L6 => 6,
            FifoAlmostFullLevelInterrupt::L7 => 7,
            FifoAlmostFullLevelInterrupt::L8 => 8,
            FifoAlmostFullLevelInterrupt::L9 => 9,
            FifoAlmostFullLevelInterrupt::L10 => 10,
            FifoAlmostFullLevelInterrupt::L11 => 11,
            FifoAlmostFullLevelInterrupt::L12 => 12,
            FifoAlmostFullLevelInterrupt::L13 => 13,
            FifoAlmostFullLevelInterrupt::L14 => 14,
            FifoAlmostFullLevelInterrupt::L15 => 15,
        }
    }
}

impl TimeSlot {
    /// The 4-bit slot mask of this time slot.
    pub fn get_mask(self) -> (mask: u8)
        ensures
            mask == slot_mask(self),
            mask <= 2,
    {
        match self {
            TimeSlot::Disabled => 0,
            TimeSlot::Led1 => 1,
            TimeSlot::Led2 => 2,
        }
    }
}

// --- Mode transitions -------------------------------------------------------
impl<I2C: I2cBus, MODE> Max3010x<I2C, Max30102, MODE> {
    /// Change into heart-rate mode.
    ///
    /// This changes the mode and clears the FIFO data.
    pub fn into_heart_rate(self) -> (result: Result<
        Max3010x<I2C, Max30102, HeartRate>,
        Error<I2C::BusError>,
    >)
        ensures
            match result {
                Ok(device) => ({
                    let bits = heart_rate_mode_bits(self.cfg().mode);
                    &&& device.cfg() == (ConfigState { mode: bits, ..self.cfg() })
                    &&& device.ops() == self.ops().push(write_op(seq![REG_MODE, bits])).push(
                        write_op(seq![REG_FIFO_WR_PTR, 0, 0, 0]),
                    )
                }),
                Err(e) => e matches Error::I2C(_),
            },
    {
        let mut this = self;
        let mode = this.mode.with_low(0b0000_0101).with_high(0b0000_0010);
        match this.change_mode(mode) {
            Ok(()) => {},
            Err(e) => {
                return Err(e);
            },
        }
        match this.clear_fifo() {
            Ok(()) => {},
            Err(e) => {
                return Err(e);
            },
        }
        Ok(this.with_mode_marker())
    }

    /// Change into SpO2 (oximeter) mode.
    ///
    /// This changes the mode and clears the FIFO data.
    pub fn into_oximeter(self) -> (result: Result<
        Max3010x<I2C, Max30102, Oximeter>,
        Error<I2C::BusError>,
    >)
        ensures
            match result {
                Ok(device) => ({
                    let bits = oximeter_mode_bits(self.cfg().mode);
                    &&& device.cfg() == (ConfigState { mode: bits, ..self.cfg() })
                    &&& device.ops() == self.ops().push(write_op(seq![REG_MODE, bits])).push(
                        write_op(seq![REG_FIFO_WR_PTR, 0, 0, 0]),
                    )
                }),
                Err(e) => e matches Error::I2C(_),
            },
    {
        let mut this = self;
        let mode = this.mode.with_low(0b0000_0100).with_high(0b0000_0011);
        match this.change_mode(mode) {
            Ok(()) => {},
            Err(e) => {
                return Err(e);
            },
        }
        match this.clear_fifo() {
            Ok(()) => {},
            Err(e) => {
                return Err(e);
            },
        }
        Ok(this.with_mode_marker())
    }

    /// Change into multi-LED mode.
    ///
    /// This changes the mode and clears the FIFO data.
    pub fn into_multi_led(self) -> (result: Result<
        Max3010x<I2C, Max30102, MultiLed>,
        Error<I2C::BusError>,
    >)
        ensures
            match result {
                Ok(device) => ({
                    let bits = multi_led_mode_bits(self.cfg().mode);
                    &&& device.cfg() == (ConfigState { mode: bits, ..self.cfg() })
                    &&& device.ops() == self.ops().push(write_op(seq![REG_MODE, bits])).push(
                        write_op(seq![REG_FIFO_WR_PTR, 0, 0, 0]),
                    )
                }),
                Err(e) => e matches Error::I2C(_),
            },
    {
        let mut this = self;
        let mode = this.mode.with_high(0b0000_0111);
        match this.change_mode(mode) {
            Ok(()) => {},
            Err(e) => {
                return Err(e);
            },
        }
        match this.clear_fifo() {
            Ok(()) => {},
            Err(e) => {
                return Err(e);
            },
        }
        Ok(this.with_mode_marker())
    }
}

impl<I2C: I2cBus, IC, MODE> Max3010x<I2C, IC, MODE> {
    /// Re-tag the handle with a different mode marker, keeping all state.
    fn with_mode_marker<TO>(self) -> (device: Max3010x<I2C, IC, TO>)
        ensures
            device.cfg() == self.cfg(),
            device.ops() == self.ops(),
    {
        Max3010x {
            i2c: self.i2c,
            temperature_measurement_started: self.temperature_measurement_started,
            mode: self.mode,
            fifo_config: self.fifo_config,
            spo2_config: self.spo2_config,
            int_en1: self.int_en1,
            int_en2: self.int_en2,
            _ic: PhantomData,
            _mode: PhantomData,
        }
    }

    /// Write the mode register and, on success, update its shadow.
    pub(crate) fn change_mode(&mut self, mode: Config) -> (result: Result<
        (),
        Error<I2C::BusError>,
    >)
        ensures
            match result {
                Ok(()) => {
                    &&& final(self).cfg() == (ConfigState { mode: mode.bits, ..old(self).cfg() })
                    &&& final(self).ops() == old(self).ops().push(
                        write_op(seq![REG_MODE, mode.bits]),
                    )
                },
                Err(e) => e matches Error::I2C(_) && final(self).same_state(old(self)),
            },
    {
        match self.write_register(REG_MODE, mode.bits) {
            Ok(()) => {
                self.mode = mode;
                Ok(())
            },
            Err(e) => Err(e),
        }
    }

    /// Resets the FIFO read and write pointers and overflow counter to 0.
    pub fn clear_fifo(&mut self) -> (result: Result<(), Error<I2C::BusError>>)
        ensures
            final(self).cfg() == old(self).cfg(),
            match result {
                Ok(()) => final(self).ops() == old(self).ops().push(
                    write_op(seq![REG_FIFO_WR_PTR, 0, 0, 0]),
                ),
                Err(e) => e matches Error::I2C(_) && final(self).ops() == old(self).ops(),
            },
    {
        let mut data: Vec<u8> = Vec::new();
        data.push(REG_FIFO_WR_PTR);
        data.push(0);
        data.push(0);
        data.push(0);
        assert(data@ == seq![REG_FIFO_WR_PTR, 0u8, 0u8, 0u8]);
        self.write_data(data.as_slice())
    }

    /// Trigger a software reset.
    ///
    /// The reset bit clears itself in hardware, so the mode shadow is left
    /// untouched.
    pub fn reset(&mut self) -> (result: Result<(), Error<I2C::BusError>>)
        ensures
            final(self).cfg() == old(self).cfg(),
            match result {
                Ok(()) => final(self).ops() == old(self).ops().push(
                    write_op(seq![REG_MODE, old(self).cfg().mode | FLAG_RESET]),
                ),
                Err(e) => e matches Error::I2C(_) && final(self).ops() == old(self).ops(),
            },
    {
        let mode = self.mode.with_high(FLAG_RESET);
        self.write_register(REG_MODE, mode.bits)
    }

    /// Put the device in power-save mode.
    pub fn shutdown(&mut self) -> (result: Result<(), Error<I2C::BusError>>)
        ensures
            match result {
                Ok(()) => ({
                    let bits = old(self).cfg().mode | FLAG_SHUTDOWN;
                    &&& final(self).cfg() == (ConfigState { mode: bits, ..old(self).cfg() })
                    &&& final(self).ops() == old(self).ops().push(write_op(seq![REG_MODE, bits]))
                }),
                Err(e) => e matches Error::I2C(_) && final(self).same_state(old(self)),
            },
    {
        let mode = self.mode.with_high(FLAG_SHUTDOWN);
        self.change_mode(mode)
    }

    /// Wake up from power-save mode.
    pub fn wake_up(&mut self) -> (result: Result<(), Error<I2C::BusError>>)
        ensures
            match result {
                Ok(()) => ({
                    let bits = old(self).cfg().mode & !FLAG_SHUTDOWN;
                    &&& final(self).cfg() == (ConfigState { mode: bits, ..old(self).cfg() })
                    &&& final(self).ops() == old(self).ops().push(write_op(seq![REG_MODE, bits]))
                }),
                Err(e) => e matches Error::I2C(_) && final(self).same_state(old(self)),
            },
    {
        let mode = self.mode.with_low(FLAG_SHUTDOWN);
        self.change_mode(mode)
    }

    /// Set the LED pulse amplitude.
    ///
    /// The amplitude value corresponds to a typical current of 0.0 mA for 0
    /// up to 51.0 mA for 255. Selecting all LEDs writes the same value to
    /// both amplitude registers in one transaction.
    pub fn set_pulse_amplitude(&mut self, led: Led, amplitude: u8) -> (result: Result<
        (),
        Error<I2C::BusError>,
    >)
        ensures
            final(self).cfg() == old(self).cfg(),
            match result {
                Ok(()) => final(self).ops() == old(self).ops().push(
                    write_op(
                        match led {
                            Led::Led1 => seq![REG_LED1_PA, amplitude],
                            Led::Led2 => seq![REG_LED2_PA, amplitude],
                            Led::All => seq![REG_LED1_PA, amplitude, amplitude],
                        },
                    ),
                ),
                Err(e) => e matches Error::I2C(_) && final(self).ops() == old(self).ops(),
            },
    {
        match led {
            Led::Led1 => self.write_register(REG_LED1_PA, amplitude),
            Led::Led2 => self.write_register(REG_LED2_PA, amplitude),
            Led::All => {
                let mut data: Vec<u8> = Vec::new();
                data.push(REG_LED1_PA);
                data.push(amplitude);
                data.push(amplitude);
                assert(data@ == seq![REG_LED1_PA, amplitude, amplitude]);
                self.write_data(data.as_slice())
            },
        }
    }

    /// Set sample averaging.
    pub fn set_sample_averaging(&mut self, sample_averaging: SampleAveraging) -> (result: Result<
        (),
        Error<I2C::BusError>,
    >)
        ensures
            match result {
                Ok(()) => ({
                    let bits = sample_averaging_encode(
                        old(self).cfg().fifo_config,
                        sample_averaging,
                    );
                    &&& final(self).cfg() == (ConfigState { fifo_config: bits, ..old(self).cfg() })
                    &&& final(self).ops() == old(self).ops().push(
                        write_op(seq![REG_FIFO_CONFIG, bits]),
                    )
                }),
                Err(e) => e matches Error::I2C(_) && final(self).same_state(old(self)),
            },
    {
        let value = match sample_averaging {
            SampleAveraging::Sa1 => 0b0000_0000u8,
            SampleAveraging::Sa2 => 0b0010_0000u8,
            SampleAveraging::Sa4 => 0b0100_0000u8,
            SampleAveraging::Sa8 => 0b0110_0000u8,
            SampleAveraging::Sa16 => 0b1000_0000u8,
            SampleAveraging::Sa32 => 0b1010_0000u8,
        };
        let fifo_config = self.fifo_config.with_low(0b1110_0000).with_high(value);
        match self.write_register(REG_FIFO_CONFIG, fifo_config.bits) {
            Ok(()) => {
                self.fifo_config = fifo_config;
                Ok(())
            },
            Err(e) => Err(e),
        }
    }

    /// Set the number of empty data samples available in the FIFO when a
    /// FIFO-almost-full interrupt will be issued.
    pub fn set_fifo_almost_full_level_interrupt(
        &mut self,
        level: FifoAlmostFullLevelInterrupt,
    ) -> (result: Result<(), Error<I2C::BusError>>)
        ensures
            match result {
                Ok(()) => ({
                    let bits = fifo_a_full_level_encode(old(self).cfg().fifo_config, level);
                    &&& final(self).cfg() == (ConfigState { fifo_config: bits, ..old(self).cfg() })
                    &&& final(self).ops() == old(self).ops().push(
                        write_op(seq![REG_FIFO_CONFIG, bits]),
                    )
                }),
                Err(e) => e matches Error::I2C(_) && final(self).same_state(old(self)),
            },
    {
        let fifo_config = self.fifo_config.with_low(0b0000_1111).with_high(
            level.get_register_value(),
        );
        match self.write_register(REG_FIFO_CONFIG, fifo_config.bits) {
            Ok(()) => {
                self.fifo_config = fifo_config;
                Ok(())
            },
            Err(e) => Err(e),
        }
    }

    /// Enable FIFO rollover.
    pub fn enable_fifo_rollover(&mut self) -> (result: Result<(), Error<I2C::BusError>>)
        ensures
            match result {
                Ok(()) => ({
                    let bits = old(self).cfg().fifo_config | FLAG_FIFO_ROLLOVER_EN;
                    &&& final(self).cfg() == (ConfigState { fifo_config: bits, ..old(self).cfg() })
                    &&& final(self).ops() == old(self).ops().push(
                        write_op(seq![REG_FIFO_CONFIG, bits]),
                    )
                }),
                Err(e) => e matches Error::I2C(_) && final(self).same_state(old(self)),
            },
    {
        let fifo_config = self.fifo_config.with_high(FLAG_FIFO_ROLLOVER_EN);
        match self.write_register(REG_FIFO_CONFIG, fifo_config.bits) {
            Ok(()) => {
                self.fifo_config = fifo_config;
                Ok(())
            },
            Err(e) => Err(e),
        }
    }

    /// Disable FIFO rollover.
    pub fn disable_fifo_rollover(&mut self) -> (result: Result<(), Error<I2C::BusError>>)
        ensures
            match result {
                Ok(()) => ({
                    let bits = old(self).cfg().fifo_config & !FLAG_FIFO_ROLLOVER_EN;
                    &&& final(self).cfg() == (ConfigState { fifo_config: bits, ..old(self).cfg() })
                    &&& final(self).ops() == old(self).ops().push(
                        write_op(seq![REG_FIFO_CONFIG, bits]),
                    )
                }),
                Err(e) => e matches Error::I2C(_) && final(self).same_state(old(self)),
            },
    {
        let fifo_config = self.fifo_config.with_low(FLAG_FIFO_ROLLOVER_EN);
        match self.write_register(REG_FIFO_CONFIG, fifo_config.bits) {
            Ok(()) => {
                self.fifo_config = fifo_config;
                Ok(())
            },
            Err(e) => Err(e),
        }
    }

    /// Enable FIFO almost full interrupt.
    pub fn enable_fifo_almost_full_interrupt(&mut self) -> (result: Result<
        (),
        Error<I2C::BusError>,
    >)
        ensures
            match result {
                Ok(()) => ({
                    let bits = old(self).cfg().int_en1 | FLAG_FIFO_A_FULL_INT;
                    &&& final(self).cfg() == (ConfigState { int_en1: bits, ..old(self).cfg() })
                    &&& final(self).ops() == old(self).ops().push(
                        write_op(seq![REG_INT_EN1, bits]),
                    )
                }),
                Err(e) => e matches Error::I2C(_) && final(self).same_state(old(self)),
            },
    {
        let int_en1 = self.int_en1.with_high(FLAG_FIFO_A_FULL_INT);
        match self.write_register(REG_INT_EN1, int_en1.bits) {
            Ok(()) => {
                self.int_en1 = int_en1;
                Ok(())
            },
            Err(e) => Err(e),
        }
    }

    /// Disable FIFO almost full interrupt.
    pub fn disable_fifo_almost_full_interrupt(&mut self) -> (result: Result<
        (),
        Error<I2C::BusError>,
    >)
        ensures
            match result {
                Ok(()) => ({
                    let bits = old(self).cfg().int_en1 & !FLAG_FIFO_A_FULL_INT;
                    &&& final(self).cfg() == (ConfigState { int_en1: bits, ..old(self).cfg() })
                    &&& final(self).ops() == old(self).ops().push(
                        write_op(seq![REG_INT_EN1, bits]),
                    )
                }),
                Err(e) => e matches Error::I2C(_) && final(self).same_state(old(self)),
            },
    {
        let int_en1 = self.int_en1.with_low(FLAG_FIFO_A_FULL_INT);
        match self.write_register(REG_INT_EN1, int_en1.bits) {
            Ok(()) => {
                self.int_en1 = int_en1;
                Ok(())
            },
            Err(e) => Err(e),
        }
    }

    /// Enable ambient light cancellation overflow interrupt.
    pub fn enable_alc_overflow_interrupt(&mut self) -> (result: Result<(), Error<I2C::BusError>>)
        ensures
            match result {
                Ok(()) => ({
                    let bits = old(self).cfg().int_en1 | FLAG_ALC_OVF_INT;
                    &&& final(self).cfg() == (ConfigState { int_en1: bits, ..old(self).cfg() })
                    &&& final(self).ops() == old(self).ops().push(
                        write_op(seq![REG_INT_EN1, bits]),
                    )
                }),
                Err(e) => e matches Error::I2C(_) && final(self).same_state(old(self)),
            },
    {
        let int_en1 = self.int_en1.with_high(FLAG_ALC_OVF_INT);
        match self.write_register(REG_INT_EN1, int_en1.bits) {
            Ok(()) => {
                self.int_en1 = int_en1;
                Ok(())
            },
            Err(e) => Err(e),
        }
    }

    /// Disable ambient light cancellation overflow interrupt.
    pub fn disable_alc_overflow_interrupt(&mut self) -> (result: Result<(), Error<I2C::BusError>>)
        ensures
            match result {
                Ok(()) => ({
                    let bits = old(self).cfg().int_en1 & !FLAG_ALC_OVF_INT;
                    &&& final(self).cfg() == (ConfigState { int_en1: bits, ..old(self).cfg() })
                    &&& final(self).ops() == old(self).ops().push(
                        write_op(seq![REG_INT_EN1, bits]),
                    )
                }),
                Err(e) => e matches Error::I2C(_) && final(self).same_state(old(self)),
            },
    {
        let int_en1 = self.int_en1.with_low(FLAG_ALC_OVF_INT);
        match self.write_register(REG_INT_EN1, int_en1.bits) {
            Ok(()) => {
                self.int_en1 = int_en1;
                Ok(())
            },
            Err(e) => Err(e),
        }
    }

    /// Enable internal die temperature conversion ready interrupt.
    pub fn enable_temperature_ready_interrupt(&mut self) -> (result: Result<
        (),
        Error<I2C::BusError>,
    >)
        ensures
            match result {
                Ok(()) => ({
                    let bits = old(self).cfg().int_en2 | FLAG_DIE_TEMP_RDY_INT;
                    &&& final(self).cfg() == (ConfigState { int_en2: bits, ..old(self).cfg() })
                    &&& final(self).ops() == old(self).ops().push(
                        write_op(seq![REG_INT_EN2, bits]),
                    )
                }),
                Err(e) => e matches Error::I2C(_) && final(self).same_state(old(self)),
            },
    {
        let int_en2 = self.int_en2.with_high(FLAG_DIE_TEMP_RDY_INT);
        match self.write_register(REG_INT_EN2, int_en2.bits) {
            Ok(()) => {
                self.int_en2 = int_en2;
                Ok(())
            },
            Err(e) => Err(e),
        }
    }

    /// Disable internal die temperature conversion ready interrupt.
    pub fn disable_temperature_ready_interrupt(&mut self) -> (result: Result<
        (),
        Error<I2C::BusError>,
    >)
        ensures
            match result {
                Ok(()) => ({
                    let bits = old(self).cfg().int_en2 & !FLAG_DIE_TEMP_RDY_INT;
                    &&& final(self).cfg() == (ConfigState { int_en2: bits, ..old(self).cfg() })
                    &&& final(self).ops() == old(self).ops().push(
                        write_op(seq![REG_INT_EN2, bits]),
                    )
                }),
                Err(e) => e matches Error::I2C(_) && final(self).same_state(old(self)),
            },
    {
        let int_en2 = self.int_en2.with_low(FLAG_DIE_TEMP_RDY_INT);
        match self.write_register(REG_INT_EN2, int_en2.bits) {
            Ok(()) => {
                self.int_en2 = int_en2;
                Ok(())
            },
            Err(e) => Err(e),
        }
    }
}

/// Operating modes that deliver new-FIFO-data-ready interrupts.
pub trait HasDataReadyInterrupt: Sealed {

}

impl HasDataReadyInterrupt for HeartRate {

}

impl HasDataReadyInterrupt for Oximeter {

}

impl<I2C: I2cBus, IC, MODE: HasDataReadyInterrupt> Max3010x<I2C, IC, MODE> {
    /// Enable new FIFO data ready interrupt.
    pub fn enable_new_fifo_data_ready_interrupt(&mut self) -> (result: Result<
        (),
        Error<I2C::BusError>,
    >)
        ensures
            match result {
                Ok(()) => ({
                    let bits = old(self).cfg().int_en1 | FLAG_PPG_RDY_INT;
                    &&& final(self).cfg() == (ConfigState { int_en1: bits, ..old(self).cfg() })
                    &&& final(self).ops() == old(self).ops().push(
                        write_op(seq![REG_INT_EN1, bits]),
                    )
                }),
                Err(e) => e matches Error::I2C(_) && final(self).same_state(old(self)),
            },
    {
        let int_en1 = self.int_en1.with_high(FLAG_PPG_RDY_INT);
        match self.write_register(REG_INT_EN1, int_en1.bits) {
            Ok(()) => {
                self.int_en1 = int_en1;
                Ok(())
            },
            Err(e) => Err(e),
        }
    }

    /// Disable new FIFO data ready interrupt.
    pub fn disable_new_fifo_data_ready_interrupt(&mut self) -> (result: Result<
        (),
        Error<I2C::BusError>,
    >)
        ensures
            match result {
                Ok(()) => ({
                    let bits = old(self).cfg().int_en1 & !FLAG_PPG_RDY_INT;
                    &&& final(self).cfg() == (ConfigState { int_en1: bits, ..old(self).cfg() })
                    &&& final(self).ops() == old(self).ops().push(
                        write_op(seq![REG_INT_EN1, bits]),
                    )
                }),
                Err(e) => e matches Error::I2C(_) && final(self).same_state(old(self)),
            },
    {
        let int_en1 = self.int_en1.with_low(FLAG_PPG_RDY_INT);
        match self.write_register(REG_INT_EN1, int_en1.bits) {
            Ok(()) => {
                self.int_en1 = int_en1;
                Ok(())
            },
            Err(e) => Err(e),
        }
    }
}

impl<I2C: I2cBus, IC, MODE: ValidateSrPw> Max3010x<I2C, IC, MODE> {
    /// Configure the LED pulse width.
    ///
    /// This determines the ADC resolution. The width is checked against the
    /// currently configured sampling rate; an inadmissible combination is
    /// rejected with `Error::InvalidArguments` before anything is written.
    pub fn set_pulse_width(&mut self, width: LedPulseWidth) -> (result: Result<
        (),
        Error<I2C::BusError>,
    >)
        ensures
            result matches Err(Error::InvalidArguments) <==> !MODE::allowed(
                width,
                sampling_rate_decode(old(self).cfg().spo2_config),
            ),
            match result {
                Ok(()) => ({
                    let bits = pulse_width_encode(old(self).cfg().spo2_config, width);
                    &&& final(self).cfg() == (ConfigState { spo2_config: bits, ..old(self).cfg() })
                    &&& final(self).ops() == old(self).ops().push(
                        write_op(seq![REG_SPO2_CONFIG, bits]),
                    )
                }),
                Err(_) => final(self).same_state(old(self)),
            },
    {
        let rate = self.get_sampling_rate();
        match MODE::check::<I2C::BusError>(width, rate) {
            Ok(()) => {},
            Err(e) => {
                return Err(e);
            },
        }
        let value = match width {
            LedPulseWidth::Pw69 => 0b0000_0000u8,
            LedPulseWidth::Pw118 => 0b0000_0001u8,
            LedPulseWidth::Pw215 => 0b0000_0010u8,
            LedPulseWidth::Pw411 => 0b0000_0011u8,
        };
        let config = self.spo2_config.with_low(0b0000_0011).with_high(value);
        match self.write_register(REG_SPO2_CONFIG, config.bits) {
            Ok(()) => {
                self.spo2_config = config;
                Ok(())
            },
            Err(e) => Err(e),
        }
    }

    /// Configure the sampling rate.
    ///
    /// The rate is checked against the currently configured LED pulse width;
    /// an inadmissible combination is rejected with `Error::InvalidArguments`
    /// before anything is written.
    pub fn set_sampling_rate(&mut self, sampling_rate: SamplingRate) -> (result: Result<
        (),
        Error<I2C::BusError>,
    >)
        ensures
            result matches Err(Error::InvalidArguments) <==> !MODE::allowed(
                pulse_width_decode(old(self).cfg().spo2_config),
                sampling_rate,
            ),
            match result {
                Ok(()) => ({
                    let bits = sampling_rate_encode(old(self).cfg().spo2_config, sampling_rate);
                    &&& final(self).cfg() == (ConfigState { spo2_config: bits, ..old(self).cfg() })
                    &&& final(self).ops() == old(self).ops().push(
                        write_op(seq![REG_SPO2_CONFIG, bits]),
                    )
                }),
                Err(_) => final(self).same_state(old(self)),
            },
    {
        let width = self.get_pulse_width();
        match MODE::check::<I2C::BusError>(width, sampling_rate) {
            Ok(()) => {},
            Err(e) => {
                return Err(e);
            },
        }
        let value = match sampling_rate {
            SamplingRate::Sps50 => 0b0000_0000u8,
            SamplingRate::Sps100 => 0b0000_0100u8,
            SamplingRate::Sps200 => 0b0000_1000u8,
            SamplingRate::Sps400 => 0b0000_1100u8,
            SamplingRate::Sps800 => 0b0001_0000u8,
            SamplingRate::Sps1000 => 0b0001_0100u8,
            SamplingRate::Sps1600 => 0b0001_1000u8,
            SamplingRate::Sps3200 => 0b0001_1100u8,
        };
        let config = self.spo2_config.with_low(0b0001_1100).with_high(value);
        match self.write_register(REG_SPO2_CONFIG, config.bits) {
            Ok(()) => {
                self.spo2_config = config;
                Ok(())
            },
            Err(e) => Err(e),
        }
    }
}

impl<I2C: I2cBus, IC> Max3010x<I2C, IC, Oximeter> {
    /// Configure the analog-to-digital converter range.
    /// (Only available in oximeter mode.)
    pub fn set_adc_range(&mut self, range: AdcRange) -> (result: Result<(), Error<I2C::BusError>>)
        ensures
            match result {
                Ok(()) => ({
                    let bits = adc_range_encode(old(self).cfg().spo2_config, range);
                    &&& final(self).cfg() == (ConfigState { spo2_config: bits, ..old(self).cfg() })
                    &&& final(self).ops() == old(self).ops().push(
                        write_op(seq![REG_SPO2_CONFIG, bits]),
                    )
                }),
                Err(e) => e matches Error::I2C(_) && final(self).same_state(old(self)),
            },
    {
        let value = match range {
            AdcRange::Fs2k => 0b0000_0000u8,
            AdcRange::Fs4k => 0b0010_0000u8,
            AdcRange::Fs8k => 0b0100_0000u8,
            AdcRange::Fs16k => 0b0110_0000u8,
        };
        let new_config = self.spo2_config.with_low(0b0110_0000).with_high(value);
        match self.write_register(REG_SPO2_CONFIG, new_config.bits) {
            Ok(()) => {
                self.spo2_config = new_config;
                Ok(())
            },
            Err(e) => Err(e),
        }
    }
}

impl<I2C: I2cBus, IC> Max3010x<I2C, IC, MultiLed> {
    /// Configure the LED time slots in multi-LED mode.
    ///
    /// The slots must be activated in order: a slot cannot be active if an
    /// earlier slot is disabled. An invalid sequence is rejected with
    /// `Error::InvalidArguments` before anything is written to the bus.
    pub fn set_led_time_slots(&mut self, slots: [TimeSlot; 4]) -> (result: Result<
        (),
        Error<I2C::BusError>,
    >)
        ensures
            result matches Err(Error::InvalidArguments) <==> !slots_valid(slots@),
            final(self).cfg() == old(self).cfg(),
            match result {
                Ok(()) => final(self).ops() == old(self).ops().push(
                    write_op(
                        seq![
                            REG_SLOT_CONFIG0,
                            slot_pair_byte(slots@[1], slots@[0]),
                            slot_pair_byte(slots@[3], slots@[2]),
                        ],
                    ),
                ),
                Err(_) => final(self).ops() == old(self).ops(),
            },
    {
        let invalid = (slots[0] == TimeSlot::Disabled && (slots[1] != TimeSlot::Disabled
            || slots[2] != TimeSlot::Disabled || slots[3] != TimeSlot::Disabled)) || (slots[1]
            == TimeSlot::Disabled && (slots[2] != TimeSlot::Disabled || slots[3]
            != TimeSlot::Disabled)) || (slots[2] == TimeSlot::Disabled && slots[3]
            != TimeSlot::Disabled);
        if invalid {
            return Err(Error::InvalidArguments);
        }
        let low_byte = slots[1].get_mask() << 4 | slots[0].get_mask();
        let high_byte = slots[3].get_mask() << 4 | slots[2].get_mask();
        let mut data: Vec<u8> = Vec::new();
        data.push(REG_SLOT_CONFIG0);
        data.push(low_byte);
        data.push(high_byte);
        assert(data@ == seq![
            REG_SLOT_CONFIG0,
            slot_pair_byte(slots@[1], slots@[0]),
            slot_pair_byte(slots@[3], slots@[2]),
        ]);
        self.write_data(data.as_slice())
    }
}

} // verus!
