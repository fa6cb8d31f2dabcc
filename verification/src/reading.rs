//! Reading data from the device: FIFO sample transfer, FIFO pointer
//! arithmetic, the non-blocking temperature measurement protocol, interrupt
//! status, and the identification registers.

use vstd::arithmetic::div_mod::{
    lemma_div_non_zero, lemma_fundamental_div_mod, lemma_mod_add_multiples_vanish, lemma_mod_bound,
    lemma_small_mod,
};
use vstd::arithmetic::mul::lemma_mul_inequality;
use vstd::prelude::*;

use crate::bus::I2cBus;
use crate::config::{pulse_width_decode, sampling_rate_decode};
use crate::marker::{HeartRate, MultiLed, Oximeter, Sealed};
use crate::{
    appended_read, is_reg_read, read_response, write_op, ConfigState, Error, InterruptStatus,
    LedPulseWidth, Max3010x, SamplingRate, TempReadError, Temperature, FLAG_ALC_OVF_INT,
    FLAG_DIE_TEMP_RDY_INT, FLAG_FIFO_A_FULL_INT, FLAG_PPG_RDY_INT, FLAG_PWR_RDY_INT, FLAG_TEMP_EN,
    REG_FIFO_DATA, REG_FIFO_WR_PTR, REG_INT_STATUS, REG_OVF_COUNTER, REG_PART_ID, REG_REV_ID,
    REG_TEMP_CONFIG, REG_TEMP_INT,
};

verus! {

/// The number of FIFO samples available between a write pointer and a read
/// pointer, each masked to its 5 bits: the distance from the read pointer to
/// the write pointer around the 32-slot ring.
pub open spec fn available_samples(write_pointer: u8, read_pointer: u8) -> int {
    let wr = write_pointer & 0x1F;
    let rd = read_pointer & 0x1F;
    if rd > wr {
        32 - rd + wr
    } else {
        wr - rd
    }
}

/// For in-range pointers, the available sample count is exactly the pointer
/// difference modulo the FIFO depth of 32.
pub proof fn lemma_available_sample_count(write_pointer: u8, read_pointer: u8)
    requires
        write_pointer < 32,
        read_pointer < 32,
    ensures
        available_samples(write_pointer, read_pointer) == (write_pointer - read_pointer) % 32,
{
    let wp = write_pointer;
    let rp = read_pointer;
    assert(wp & 0x1F == wp) by (bit_vector)
        requires
            wp < 32,
    ;
    assert(rp & 0x1F == rp) by (bit_vector)
        requires
            rp < 32,
    ;
    let difference = wp - rp;
    if rp > wp {
        lemma_mod_add_multiples_vanish(difference, 32);
        lemma_small_mod((difference + 32) as nat, 32);
    } else {
        lemma_small_mod(difference as nat, 32);
    }
}

/// The right shift normalizing a raw 24-bit FIFO word to the ADC resolution
/// selected by the LED pulse width.
pub open spec fn sample_shift(width: LedPulseWidth) -> u32 {
    match width {
        LedPulseWidth::Pw69 => 3,
        LedPulseWidth::Pw118 => 2,
        LedPulseWidth::Pw215 => 1,
        LedPulseWidth::Pw411 => 0,
    }
}

/// Sample `index` decoded from a FIFO data transfer: three bytes taken
/// big-endian, shifted right by the resolution-dependent amount.
pub open spec fn decoded_sample(bytes: Seq<u8>, index: int, shift: u32) -> u32 {
    (((bytes[3 * index] as u32) << 16) | ((bytes[3 * index + 1] as u32) << 8) | (bytes[3 * index
        + 2] as u32)) >> shift
}

/// The value of a byte reinterpreted as a two's-complement signed integer.
pub open spec fn signed_byte(byte: u8) -> int {
    if byte < 128 {
        byte as int
    } else {
        byte as int - 256
    }
}

/// The number of sample channels each FIFO sample holds in an operating mode.
pub trait ChannelCount: Sealed {
    /// The number of channels, at the specification level.
    spec fn spec_channel_count() -> nat;

    /// The number of channels: 1 or 2.
    fn channel_count() -> (count: u8)
        ensures
            count as nat == Self::spec_channel_count(),
            1 <= count <= 2,
    ;
}

impl ChannelCount for HeartRate {
    open spec fn spec_channel_count() -> nat {
        1
    }

    fn channel_count() -> (count: u8) {
        1
    }
}

impl ChannelCount for Oximeter {
    open spec fn spec_channel_count() -> nat {
        2
    }

    fn channel_count() -> (count: u8) {
        2
    }
}

impl ChannelCount for MultiLed {
    open spec fn spec_channel_count() -> nat {
        2
    }

    fn channel_count() -> (count: u8) {
        2
    }
}

impl<I2C: I2cBus, IC, MODE> Max3010x<I2C, IC, MODE> {
    /// The LED pulse width currently configured, read from the shadow of the
    /// SpO2 configuration register.
    pub fn get_pulse_width(&self) -> (width: LedPulseWidth)
        ensures
            width == pulse_width_decode(self.cfg().spo2_config),
    {
        let field = self.spo2_config.bits & 0b0000_0011;
        if field == 0 {
            LedPulseWidth::Pw69
        } else if field == 1 {
            LedPulseWidth::Pw118
        } else if field == 2 {
            LedPulseWidth::Pw215
        } else {
            proof {
                let bits = self.spo2_config.bits;
                assert(bits & 0b0000_0011 <= 3) by (bit_vector);
            }
            LedPulseWidth::Pw411
        }
    }

    /// The sampling rate currently configured, read from the shadow of the
    /// SpO2 configuration register.
    pub fn get_sampling_rate(&self) -> (rate: SamplingRate)
        ensures
            rate == sampling_rate_decode(self.cfg().spo2_config),
    {
        convert_sampling_rate(self.spo2_config.bits)
    }

    /// The right shift to apply to raw samples, for the pulse width active in
    /// the shadow register right now.
    fn get_sample_shift(&self) -> (shift: u32)
        ensures
            shift == sample_shift(pulse_width_decode(self.cfg().spo2_config)),
            shift <= 3,
    {
        match self.get_pulse_width() {
            LedPulseWidth::Pw69 => 3,
            LedPulseWidth::Pw118 => 2,
            LedPulseWidth::Pw215 => 1,
            LedPulseWidth::Pw411 => 0,
        }
    }
}

/// The sampling rate encoded in bits 2-4 of a SpO2 configuration byte.
pub fn convert_sampling_rate(spo2_config: u8) -> (rate: SamplingRate)
    ensures
        rate == sampling_rate_decode(spo2_config),
{
    let field = (spo2_config & 0b0001_1100) >> 2;
    if field == 0 {
        SamplingRate::Sps50
    } else if field == 1 {
        SamplingRate::Sps100
    } else if field == 2 {
        SamplingRate::Sps200
    } else if field == 3 {
        SamplingRate::Sps400
    } else if field == 4 {
        SamplingRate::Sps800
    } else if field == 5 {
        SamplingRate::Sps1000
    } else if field == 6 {
        SamplingRate::Sps1600
    } else {
        proof {
            assert((spo2_config & 0b0001_1100) >> 2 <= 7) by (bit_vector);
        }
        SamplingRate::Sps3200
    }
}

impl<I2C: I2cBus, IC, MODE> Max3010x<I2C, IC, MODE> {
    /// Get the number of samples available for reading from the FIFO.
    ///
    /// Reads the write pointer, overflow counter and read pointer in one
    /// transaction and returns the ring distance between the two pointers.
    pub fn get_available_sample_count(&mut self) -> (result: Result<u8, Error<I2C::BusError>>)
        ensures
            final(self).cfg() == old(self).cfg(),
            match result {
                Ok(count) => {
                    &&& appended_read(old(self).ops(), final(self).ops(), REG_FIFO_WR_PTR, 3)
                    &&& count as int == available_samples(
                        read_response(final(self).ops())[0],
                        read_response(final(self).ops())[2],
                    )
                    &&& count <= 31
                },
                Err(e) => e matches Error::I2C(_) && final(self).ops() == old(self).ops(),
            },
    {
        let mut data: Vec<u8> = Vec::new();
        data.push(0);
        data.push(0);
        data.push(0);
        match self.read_data(REG_FIFO_WR_PTR, &mut data) {
            Ok(()) => {},
            Err(e) => {
                return Err(e);
            },
        }
        let wr_ptr = data[0] & 0x1F;
        let rd_ptr = data[2] & 0x1F;
        proof {
            let raw_wr = data@[0];
            let raw_rd = data@[2];
            assert(raw_wr & 0x1F < 32) by (bit_vector);
            assert(raw_rd & 0x1F < 32) by (bit_vector);
        }
        if rd_ptr > wr_ptr {
            Ok(32 - rd_ptr + wr_ptr)
        } else {
            Ok(wr_ptr - rd_ptr)
        }
    }

    /// Get the number of samples lost from the FIFO.
    ///
    /// If FIFO rollover is not enabled, when the FIFO is full the samples
    /// are not pushed on to the FIFO.
    pub fn get_overflow_sample_count(&mut self) -> (result: Result<u8, Error<I2C::BusError>>)
        ensures
            final(self).cfg() == old(self).cfg(),
            match result {
                Ok(count) => {
                    &&& appended_read(old(self).ops(), final(self).ops(), REG_OVF_COUNTER, 1)
                    &&& count == read_response(final(self).ops())[0] & 0x1F
                    &&& count <= 31
                },
                Err(e) => e matches Error::I2C(_) && final(self).ops() == old(self).ops(),
            },
    {
        match self.read_register(REG_OVF_COUNTER) {
            Ok(value) => {
                proof {
                    let raw = value;
                    assert(raw & 0x1F < 32) by (bit_vector);
                }
                Ok(value & 0x1F)
            },
            Err(e) => Err(e),
        }
    }

    /// Read the status of all interrupts.
    pub fn read_interrupt_status(&mut self) -> (result: Result<
        InterruptStatus,
        Error<I2C::BusError>,
    >)
        ensures
            final(self).cfg() == old(self).cfg(),
            match result {
                Ok(status) => {
                    &&& appended_read(old(self).ops(), final(self).ops(), REG_INT_STATUS, 2)
                    &&& ({
                        let response = read_response(final(self).ops());
                        &&& status.power_ready == ((response[0] & FLAG_PWR_RDY_INT) != 0)
                        &&& status.fifo_almost_full == ((response[0] & FLAG_FIFO_A_FULL_INT) != 0)
                        &&& status.new_fifo_data_ready == ((response[0] & FLAG_PPG_RDY_INT) != 0)
                        &&& status.alc_overflow == ((response[0] & FLAG_ALC_OVF_INT) != 0)
                        &&& status.temperature_ready == ((response[1] & FLAG_DIE_TEMP_RDY_INT)
                            != 0)
                    })
                },
                Err(e) => e matches Error::I2C(_) && final(self).ops() == old(self).ops(),
            },
    {
        let mut data: Vec<u8> = Vec::new();
        data.push(0);
        data.push(0);
        match self.read_data(REG_INT_STATUS, &mut data) {
            Ok(()) => {},
            Err(e) => {
                return Err(e);
            },
        }
        Ok(
            InterruptStatus {
                power_ready: (data[0] & FLAG_PWR_RDY_INT) != 0,
                fifo_almost_full: (data[0] & FLAG_FIFO_A_FULL_INT) != 0,
                new_fifo_data_ready: (data[0] & FLAG_PPG_RDY_INT) != 0,
                alc_overflow: (data[0] & FLAG_ALC_OVF_INT) != 0,
                temperature_ready: (data[1] & FLAG_DIE_TEMP_RDY_INT) != 0,
            },
        )
    }

    /// Get the revision ID.
    pub fn get_revision_id(&mut self) -> (result: Result<u8, Error<I2C::BusError>>)
        ensures
            final(self).cfg() == old(self).cfg(),
            match result {
                Ok(id) => appended_read(old(self).ops(), final(self).ops(), REG_REV_ID, 1) && id
                    == read_response(final(self).ops())[0],
                Err(e) => e matches Error::I2C(_) && final(self).ops() == old(self).ops(),
            },
    {
        self.read_register(REG_REV_ID)
    }

    /// Get the part ID.
    pub fn get_part_id(&mut self) -> (result: Result<u8, Error<I2C::BusError>>)
        ensures
            final(self).cfg() == old(self).cfg(),
            match result {
                Ok(id) => appended_read(old(self).ops(), final(self).ops(), REG_PART_ID, 1) && id
                    == read_response(final(self).ops())[0],
                Err(e) => e matches Error::I2C(_) && final(self).ops() == old(self).ops(),
            },
    {
        self.read_register(REG_PART_ID)
    }

    /// Perform a non-blocking temperature measurement.
    ///
    /// With no measurement in progress and the enable bit clear on the
    /// device, this starts a measurement and reports `WouldBlock`; while the
    /// device still reports the enable bit set it reports `WouldBlock`
    /// without writing anything; once the bit has cleared after a start, it
    /// reads and returns the result. Poll it until a value is returned.
    pub fn read_temperature(&mut self) -> (result: Result<
        Temperature,
        TempReadError<I2C::BusError>,
    >)
        ensures
            ({
                let pre = old(self).ops();
                let post = final(self).ops();
                match result {
                    Ok(temperature) => {
                        &&& old(self).cfg().temp_in_progress
                        &&& post.len() == pre.len() + 2
                        &&& post.subrange(0, pre.len() as int) == pre
                        &&& is_reg_read(post[pre.len() as int], REG_TEMP_CONFIG, 1)
                        &&& post[pre.len() as int]->Read_response[0] & FLAG_TEMP_EN == 0
                        &&& is_reg_read(post.last(), REG_TEMP_INT, 2)
                        &&& temperature.whole as int == signed_byte(read_response(post)[0])
                        &&& temperature.fraction == read_response(post)[1]
                        &&& final(self).cfg() == (ConfigState {
                            temp_in_progress: false,
                            ..old(self).cfg()
                        })
                    },
                    Err(TempReadError::WouldBlock) => {
                        ||| ({
                            // The device reports a conversion still running.
                            &&& appended_read(pre, post, REG_TEMP_CONFIG, 1)
                            &&& read_response(post)[0] & FLAG_TEMP_EN != 0
                            &&& final(self).cfg() == old(self).cfg()
                        })
                        ||| ({
                            // A new conversion was started.
                            &&& !old(self).cfg().temp_in_progress
                            &&& post.len() == pre.len() + 2
                            &&& post.subrange(0, pre.len() as int) == pre
                            &&& is_reg_read(post[pre.len() as int], REG_TEMP_CONFIG, 1)
                            &&& post[pre.len() as int]->Read_response[0] & FLAG_TEMP_EN == 0
                            &&& post.last() == write_op(seq![REG_TEMP_CONFIG, FLAG_TEMP_EN])
                            &&& final(self).cfg() == (ConfigState {
                                temp_in_progress: true,
                                ..old(self).cfg()
                            })
                        })
                    },
                    Err(TempReadError::Other(e)) => {
                        &&& e matches Error::I2C(_)
                        &&& final(self).cfg() == old(self).cfg()
                        &&& post.len() <= pre.len() + 1
                        &&& post.subrange(0, pre.len() as int) == pre
                    },
                }
            }),
    {
        let ghost pre = self.ops();
        let mut config_data: Vec<u8> = Vec::new();
        config_data.push(0);
        match self.read_data(REG_TEMP_CONFIG, &mut config_data) {
            Ok(()) => {},
            Err(e) => {
                proof {
                    assert(self.ops().subrange(0, pre.len() as int) =~= pre);
                }
                return Err(TempReadError::Other(e));
            },
        }
        if config_data[0] & FLAG_TEMP_EN != 0 {
            return Err(TempReadError::WouldBlock);
        }
        if self.temperature_measurement_started {
            let mut data: Vec<u8> = Vec::new();
            data.push(0);
            data.push(0);
            match self.read_data(REG_TEMP_INT, &mut data) {
                Ok(()) => {},
                Err(e) => {
                    proof {
                        assert(self.ops().subrange(0, pre.len() as int) =~= pre);
                    }
                    return Err(TempReadError::Other(e));
                },
            }
            proof {
                assert(self.ops().subrange(0, pre.len() as int) =~= pre);
            }
            let data0 = data[0];
            let whole = if data0 < 128 {
                data0 as i8
            } else {
                ((data0 as i16) - 256) as i8
            };
            self.temperature_measurement_started = false;
            Ok(Temperature { whole, fraction: data[1] })
        } else {
            match self.write_register(REG_TEMP_CONFIG, FLAG_TEMP_EN) {
                Ok(()) => {},
                Err(e) => {
                    proof {
                        assert(self.ops().subrange(0, pre.len() as int) =~= pre);
                    }
                    return Err(TempReadError::Other(e));
                },
            }
            proof {
                assert(self.ops().subrange(0, pre.len() as int) =~= pre);
            }
            self.temperature_measurement_started = true;
            Err(TempReadError::WouldBlock)
        }
    }
}

impl<I2C: I2cBus, IC, MODE: ChannelCount> Max3010x<I2C, IC, MODE> {
    /// Read samples from the FIFO.
    ///
    /// Reads data from the FIFO until all the available samples are read or
    /// the output buffer is full, and returns the number of samples read.
    /// The buffer holds one element per channel per sample, in channel-then-
    /// sample order; if it cannot hold even one sample, nothing is read and
    /// the count is 0. Each raw 24-bit word is shifted right according to
    /// the ADC resolution configured at call time.
    pub fn read_fifo(&mut self, output_data: &mut Vec<u32>) -> (result: Result<
        u8,
        Error<I2C::BusError>,
    >)
        ensures
            final(self).cfg() == old(self).cfg(),
            final(output_data)@.len() == old(output_data)@.len(),
            old(output_data)@.len() < MODE::spec_channel_count() ==> result is Ok,
            match result {
                Ok(count) => ({
                    let channels = MODE::spec_channel_count() as int;
                    let pre = old(self).ops();
                    let post = final(self).ops();
                    &&& count <= 31
                    &&& if old(output_data)@.len() < channels {
                        count == 0 && post == pre && final(output_data)@ == old(output_data)@
                    } else if count == 0 {
                        &&& appended_read(pre, post, REG_FIFO_WR_PTR, 3)
                        &&& available_samples(read_response(post)[0], read_response(post)[2]) == 0
                        &&& final(output_data)@ == old(output_data)@
                    } else {
                        &&& post.len() == pre.len() + 2
                        &&& post.subrange(0, pre.len() as int) == pre
                        &&& is_reg_read(post[pre.len() as int], REG_FIFO_WR_PTR, 3)
                        &&& ({
                            let pointer_response = post[pre.len() as int]->Read_response;
                            let available = available_samples(
                                pointer_response[0],
                                pointer_response[2],
                            );
                            let fitting = old(output_data)@.len() as int / channels;
                            &&& count as int == if available <= fitting {
                                available
                            } else {
                                fitting
                            }
                            &&& is_reg_read(post.last(), REG_FIFO_DATA, (count * channels * 3) as nat)
                            &&& ({
                                let data_response = read_response(post);
                                let shift = sample_shift(
                                    pulse_width_decode(old(self).cfg().spo2_config),
                                );
                                &&& forall|i: int|
                                    0 <= i < count * channels ==> final(output_data)@[i]
                                        == decoded_sample(data_response, i, shift)
                                &&& forall|i: int|
                                    count * channels <= i < old(output_data)@.len()
                                        ==> final(output_data)@[i] == old(output_data)@[i]
                            })
                        })
                    }
                }),
                Err(e) => {
                    &&& e matches Error::I2C(_)
                    &&& final(output_data)@ == old(output_data)@
                    &&& final(self).ops().len() <= old(self).ops().len() + 1
                    &&& final(self).ops().subrange(0, old(self).ops().len() as int) == old(
                        self,
                    ).ops()
                },
            },
    {
        let ghost pre = self.ops();
        let channels = MODE::channel_count();
        let channel_count = channels as usize;
        if output_data.len() < channel_count {
            proof {
                assert(self.ops().subrange(0, pre.len() as int) =~= pre);
            }
            return Ok(0);
        }
        let samples = match self.get_available_sample_count() {
            Ok(samples) => samples,
            Err(e) => {
                proof {
                    assert(self.ops().subrange(0, pre.len() as int) =~= pre);
                }
                return Err(e);
            },
        };
        let samples_fitting_in_input = output_data.len() / channel_count;
        let available = samples as usize;
        let sample_count = if available <= samples_fitting_in_input {
            available
        } else {
            samples_fitting_in_input
        };
        proof {
            let c = channels as int;
            let len = output_data@.len() as int;
            assert(samples_fitting_in_input as int == len / c);
            lemma_div_non_zero(len, c);
            lemma_fundamental_div_mod(len, c);
            lemma_mod_bound(len, c);
            assert(sample_count as int <= len / c);
            lemma_mul_inequality(sample_count as int, len / c, c);
            assert(sample_count as int * c <= (len / c) * c);
            assert((len / c) * c == c * (len / c));
            assert(c * (len / c) <= len);
            assert(sample_count as int * c <= len);
            assert(sample_count * channels <= output_data@.len());
        }
        if sample_count != 0 {
            match self.read_samples(sample_count, channels, output_data) {
                Ok(()) => {},
                Err(e) => {
                    proof {
                        assert(self.ops().subrange(0, pre.len() as int) =~= pre);
                    }
                    return Err(e);
                },
            }
            proof {
                assert(self.ops().subrange(0, pre.len() as int) =~= pre);
            }
        }
        Ok(sample_count as u8)
    }

    /// Transfer `sample_count` samples out of the FIFO in one transaction and
    /// decode them into the front of `output`.
    fn read_samples(&mut self, sample_count: usize, channels: u8, output: &mut Vec<u32>) -> (result:
        Result<(), Error<I2C::BusError>>)
        requires
            1 <= channels <= 2,
            1 <= sample_count <= 31,
            sample_count * channels <= old(output)@.len(),
        ensures
            final(self).cfg() == old(self).cfg(),
            final(output)@.len() == old(output)@.len(),
            match result {
                Ok(()) => {
                    &&& appended_read(
                        old(self).ops(),
                        final(self).ops(),
                        REG_FIFO_DATA,
                        (sample_count * channels * 3) as nat,
                    )
                    &&& ({
                        let data_response = read_response(final(self).ops());
                        let shift = sample_shift(pulse_width_decode(old(self).cfg().spo2_config));
                        &&& forall|i: int|
                            0 <= i < sample_count * channels ==> final(output)@[i]
                                == decoded_sample(data_response, i, shift)
                        &&& forall|i: int|
                            sample_count * channels <= i < old(output)@.len() ==> final(output)@[i]
                                == old(output)@[i]
                    })
                },
                Err(e) => {
                    &&& e matches Error::I2C(_)
                    &&& final(self).ops() == old(self).ops()
                    &&& final(output)@ == old(output)@
                },
            },
    {
        let total = if channels == 2 {
            sample_count * 2
        } else {
            sample_count
        };
        assert(total == sample_count * channels);
        let byte_count = total * 3;
        let mut data: Vec<u8> = Vec::new();
        let mut fill: usize = 0;
        while fill < byte_count
            invariant
                fill <= byte_count,
                data@.len() == fill,
            decreases byte_count - fill,
        {
            data.push(0);
            fill += 1;
        }
        match self.read_data(REG_FIFO_DATA, &mut data) {
            Ok(()) => {},
            Err(e) => {
                return Err(e);
            },
        }
        let shift = self.get_sample_shift();
        let ghost data_response = data@;
        let mut index: usize = 0;
        while index < total
            invariant
                index <= total,
                total <= 62,
                total * 3 == data@.len(),
                data@ == data_response,
                shift == sample_shift(pulse_width_decode(self.cfg().spo2_config)),
                shift <= 3,
                total <= output@.len(),
                output@.len() == old(output)@.len(),
                forall|i: int| 0 <= i < index ==> output@[i] == decoded_sample(data@, i, shift),
                forall|i: int| index <= i < output@.len() ==> output@[i] == old(output)@[i],
            decreases total - index,
        {
            let base = index * 3;
            let byte0 = data[base];
            let byte1 = data[base + 1];
            let byte2 = data[base + 2];
            let value = (((byte0 as u32) << 16) | ((byte1 as u32) << 8) | (byte2 as u32)) >> shift;
            output[index] = value;
            index += 1;
        }
        Ok(())
    }
}

} // verus!
