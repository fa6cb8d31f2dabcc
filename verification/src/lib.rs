//! Register-level driver for the MAX3010x pulse-oximeter / heart-rate sensor
//! family.
//!
//! The driver is written against an abstract two-wire bus ([`I2cBus`]) whose
//! transaction history is part of the specification, so every operation states
//! exactly which bytes it puts on the bus and how it updates the shadow copies
//! of the device's configuration registers. The device handle is tagged with a
//! marker type for the active operating mode, so that mode-restricted
//! operations (ADC range, LED time slots, the data-ready interrupt) are only
//! callable in the modes that support them.

use vstd::prelude::*;

pub mod bus;
pub mod config;
pub mod marker;
pub mod reading;
pub mod validation;

pub use bus::{BusOp, I2cBus, MockBus, MockBusError, RecordedOp};
pub use marker::{HeartRate, Max30102, MultiLed, Oximeter, Sealed, Uninitialized};

verus! {

/// The fixed 7-bit bus address of the device.
pub const DEVICE_ADDRESS: u8 = 0b101_0111;

// Register addresses.
pub const REG_INT_STATUS: u8 = 0x00;
pub const REG_INT_EN1: u8 = 0x02;
pub const REG_INT_EN2: u8 = 0x03;
pub const REG_FIFO_WR_PTR: u8 = 0x04;
pub const REG_OVF_COUNTER: u8 = 0x05;
pub const REG_FIFO_DATA: u8 = 0x07;
pub const REG_FIFO_CONFIG: u8 = 0x08;
pub const REG_MODE: u8 = 0x09;
pub const REG_SPO2_CONFIG: u8 = 0x0A;
pub const REG_LED1_PA: u8 = 0x0C;
pub const REG_LED2_PA: u8 = 0x0D;
pub const REG_SLOT_CONFIG0: u8 = 0x11;
pub const REG_TEMP_INT: u8 = 0x1F;
pub const REG_TEMP_CONFIG: u8 = 0x21;
pub const REG_REV_ID: u8 = 0xFE;
pub const REG_PART_ID: u8 = 0xFF;

// Single-bit flags within the registers above.
pub const FLAG_FIFO_A_FULL_INT: u8 = 0b1000_0000;
pub const FLAG_ALC_OVF_INT: u8 = 0b0010_0000;
pub const FLAG_DIE_TEMP_RDY_INT: u8 = 0b0000_0010;
pub const FLAG_PPG_RDY_INT: u8 = 0b0100_0000;
pub const FLAG_PWR_RDY_INT: u8 = 0b0000_0001;
pub const FLAG_TEMP_EN: u8 = 0b0000_0001;
pub const FLAG_SHUTDOWN: u8 = 0b1000_0000;
pub const FLAG_RESET: u8 = 0b0100_0000;
pub const FLAG_FIFO_ROLLOVER_EN: u8 = 0b0001_0000;

/// All possible errors in this crate.
#[derive(Debug)]
pub enum Error<E> {
    /// Two-wire bus error.
    I2C(E),
    /// Invalid arguments provided.
    InvalidArguments,
}

/// LEDs.
#[derive(Debug, Clone, Copy, PartialEq, Eq, Structural)]
pub enum Led {
    /// LED1 corresponds to Red in MAX30102.
    Led1,
    /// LED2 corresponds to IR in MAX30102.
    Led2,
    /// Select all available LEDs in the device.
    All,
}

/// Multi-LED mode sample time slot configuration.
#[derive(Debug, Clone, Copy, PartialEq, Eq, Structural)]
pub enum TimeSlot {
    /// Time slot is disabled.
    Disabled,
    /// LED 1 active during time slot (corresponds to Red in MAX30102).
    Led1,
    /// LED 2 active during time slot (corresponds to IR in MAX30102).
    Led2,
}

/// Sample averaging.
#[derive(Debug, Clone, Copy, PartialEq, Eq, Structural)]
pub enum SampleAveraging {
    /// 1 (no averaging) (default).
    Sa1,
    /// 2
    Sa2,
    /// 4
    Sa4,
    /// 8
    Sa8,
    /// 16
    Sa16,
    /// 32
    Sa32,
}

/// Number of empty data samples when the FIFO almost full interrupt is issued.
#[derive(Debug, Clone, Copy, PartialEq, Eq, Structural)]
pub enum FifoAlmostFullLevelInterrupt {
    /// Interrupt issue when 0 spaces are left in FIFO. (default)
    L0,
    /// Interrupt issue when 1 space is left in FIFO.
    L1,
    /// Interrupt issue when 2 spaces are left in FIFO.
    L2,
    /// Interrupt issue when 3 spaces are left in FIFO.
    L3,
    /// Interrupt issue when 4 spaces are left in FIFO.
    L4,
    /// Interrupt issue when 5 spaces are left in FIFO.
    L5,
    /// Interrupt issue when 6 spaces are left in FIFO.
    L6,
    /// Interrupt issue when 7 spaces are left in FIFO.
    L7,
    /// Interrupt issue when 8 spaces are left in FIFO.
    L8,
    /// Interrupt issue when 9 spaces are left in FIFO.
    L9,
    /// Interrupt issue when 10 spaces are left in FIFO.
    L10,
    /// Interrupt issue when 11 spaces are left in FIFO.
    L11,
    /// Interrupt issue when 12 spaces are left in FIFO.
    L12,
    /// Interrupt issue when 13 spaces are left in FIFO.
    L13,
    /// Interrupt issue when 14 spaces are left in FIFO.
    L14,
    /// Interrupt issue when 15 spaces are left in FIFO.
    L15,
}

/// LED pulse width (determines ADC resolution).
///
/// This is limited by the current mode and the selected sample rate.
#[derive(Debug, Clone, Copy, PartialEq, Eq, Structural)]
pub enum LedPulseWidth {
    /// 69 μs pulse width (15-bit ADC resolution).
    Pw69,
    /// 118 μs pulse width (16-bit ADC resolution).
    Pw118,
    /// 215 μs pulse width (17-bit ADC resolution).
    Pw215,
    /// 411 μs pulse width (18-bit ADC resolution).
    Pw411,
}

/// Sampling rate.
///
/// This is limited by the current mode and the selected LED pulse width.
#[derive(Debug, Clone, Copy, PartialEq, Eq, Structural)]
pub enum SamplingRate {
    /// 50 samples per second.
    Sps50,
    /// 100 samples per second.
    Sps100,
    /// 200 samples per second.
    Sps200,
    /// 400 samples per second.
    Sps400,
    /// 800 samples per second.
    Sps800,
    /// 1000 samples per second.
    Sps1000,
    /// 1600 samples per second.
    Sps1600,
    /// 3200 samples per second.
    Sps3200,
}

/// ADC range.
#[derive(Debug, Clone, Copy, PartialEq, Eq, Structural)]
pub enum AdcRange {
    /// Full scale 2048 nA.
    Fs2k,
    /// Full scale 4094 nA.
    Fs4k,
    /// Full scale 8192 nA.
    Fs8k,
    /// Full scale 16384 nA.
    Fs16k,
}

/// Interrupt status flags.
#[derive(Debug, Clone, Copy)]
pub struct InterruptStatus {
    /// Power ready interrupt.
    pub power_ready: bool,
    /// FIFO almost full interrupt.
    pub fifo_almost_full: bool,
    /// New FIFO data ready interrupt.
    pub new_fifo_data_ready: bool,
    /// Ambient light cancellation overflow interrupt.
    pub alc_overflow: bool,
    /// Internal die temperature conversion ready interrupt.
    pub temperature_ready: bool,
}

/// An internal die temperature reading, in units of 1/16 °C: the value is
/// `whole + fraction / 16` degrees Celsius.
#[derive(Debug, Clone, Copy, PartialEq, Eq, Structural)]
pub struct Temperature {
    /// Integer part of the temperature, in °C.
    pub whole: i8,
    /// Fractional part of the temperature, in 1/16 °C.
    pub fraction: u8,
}

impl Temperature {
    /// The temperature in units of 1/16 °C.
    pub open spec fn spec_sixteenths(&self) -> int {
        self.whole * 16 + self.fraction
    }

    /// The temperature in units of 1/16 °C.
    pub fn sixteenths(&self) -> (value: i16)
        ensures
            value as int == self.spec_sixteenths(),
    {
        (self.whole as i16) * 16 + (self.fraction as i16)
    }
}

/// Errors of the non-blocking temperature measurement protocol.
#[derive(Debug)]
pub enum TempReadError<E> {
    /// The measurement has not finished yet: call again later.
    WouldBlock,
    /// The measurement failed with a driver error.
    Other(Error<E>),
}

/// Shadow copy of one on-device configuration register.
#[derive(Clone, Copy)]
pub(crate) struct Config {
    pub(crate) bits: u8,
}

impl Config {
    pub(crate) fn with_high(&self, mask: u8) -> (result: Config)
        ensures
            result.bits == (self.bits | mask),
    {
        Config { bits: self.bits | mask }
    }

    pub(crate) fn with_low(&self, mask: u8) -> (result: Config)
        ensures
            result.bits == (self.bits & !mask),
    {
        Config { bits: self.bits & !mask }
    }
}

/// The specification-level state of a device handle: the shadow copies of the
/// five configuration registers and the temperature-protocol flag.
pub struct ConfigState {
    /// Shadow of the mode register.
    pub mode: u8,
    /// Shadow of the FIFO configuration register.
    pub fifo_config: u8,
    /// Shadow of the SpO2 configuration register.
    pub spo2_config: u8,
    /// Shadow of the first interrupt enable register.
    pub int_en1: u8,
    /// Shadow of the second interrupt enable register.
    pub int_en2: u8,
    /// Whether a temperature measurement was started by this handle.
    pub temp_in_progress: bool,
}

/// The bus transaction that writes `data` to the device.
pub open spec fn write_op(data: Seq<u8>) -> BusOp {
    BusOp::Write { address: DEVICE_ADDRESS, data }
}

/// `op` reads `len` bytes starting at `register` from the device.
pub open spec fn is_reg_read(op: BusOp, register: u8, len: nat) -> bool {
    op matches BusOp::Read { address, request, response } && address == DEVICE_ADDRESS && request
        == seq![register] && response.len() == len
}

/// `post` extends `pre` with exactly one read of `len` bytes at `register`.
pub open spec fn appended_read(pre: Seq<BusOp>, post: Seq<BusOp>, register: u8, len: nat) -> bool {
    &&& post.len() == pre.len() + 1
    &&& post.subrange(0, pre.len() as int) == pre
    &&& is_reg_read(post.last(), register, len)
}

/// The bytes returned by the most recent read transaction in `ops`.
pub open spec fn read_response(ops: Seq<BusOp>) -> Seq<u8> {
    ops.last()->Read_response
}

/// MAX3010x device driver.
///
/// `IC` is the concrete device and `MODE` the active operating mode; both are
/// marker types, so mode-restricted operations are rejected at compile time.
pub struct Max3010x<I2C, IC, MODE> {
    i2c: I2C,
    temperature_measurement_started: bool,
    mode: Config,
    fifo_config: Config,
    spo2_config: Config,
    int_en1: Config,
    int_en2: Config,
    _ic: core::marker::PhantomData<IC>,
    _mode: core::marker::PhantomData<MODE>,
}

impl<I2C, IC, MODE> Max3010x<I2C, IC, MODE> {
    /// The shadow register state of this handle.
    pub open(crate) spec fn cfg(&self) -> ConfigState {
        ConfigState {
            mode: self.mode.bits,
            fifo_config: self.fifo_config.bits,
            spo2_config: self.spo2_config.bits,
            int_en1: self.int_en1.bits,
            int_en2: self.int_en2.bits,
            temp_in_progress: self.temperature_measurement_started,
        }
    }
}

impl<I2C: I2cBus, IC, MODE> Max3010x<I2C, IC, MODE> {
    /// The bus transactions performed through this handle's transport.
    pub open(crate) spec fn ops(&self) -> Seq<BusOp> {
        self.i2c.ops()
    }

    /// The handle has the same shadow registers and bus history as `other`:
    /// nothing observable happened between the two states.
    pub open(crate) spec fn same_state(&self, other: &Self) -> bool {
        self.cfg() == other.cfg() && self.ops() == other.ops()
    }

    /// Destroy driver instance, return the bus instance.
    pub fn destroy(self) -> (bus: I2C)
        ensures
            bus.ops() == self.ops(),
    {
        self.i2c
    }

    /// Write the given bytes to the device in one bus transaction.
    pub(crate) fn write_data(&mut self, data: &[u8]) -> (result: Result<(), Error<I2C::BusError>>)
        ensures
            final(self).cfg() == old(self).cfg(),
            match result {
                Ok(()) => final(self).ops() == old(self).ops().push(write_op(data@)),
                Err(e) => e matches Error::I2C(_) && final(self).ops() == old(self).ops(),
            },
    {
        match self.i2c.write(DEVICE_ADDRESS, data) {
            Ok(()) => Ok(()),
            Err(e) => Err(Error::I2C(e)),
        }
    }

    /// Write a single register in one bus transaction.
    pub(crate) fn write_register(&mut self, register: u8, value: u8) -> (result: Result<
        (),
        Error<I2C::BusError>,
    >)
        ensures
            final(self).cfg() == old(self).cfg(),
            match result {
                Ok(()) => final(self).ops() == old(self).ops().push(
                    write_op(seq![register, value]),
                ),
                Err(e) => e matches Error::I2C(_) && final(self).ops() == old(self).ops(),
            },
    {
        let mut data: Vec<u8> = Vec::new();
        data.push(register);
        data.push(value);
        assert(data@ == seq![register, value]);
        self.write_data(data.as_slice())
    }

    /// Fill `data` with bytes read from the device starting at `register`,
    /// in one bus transaction.
    pub(crate) fn read_data(&mut self, register: u8, data: &mut Vec<u8>) -> (result: Result<
        (),
        Error<I2C::BusError>,
    >)
        ensures
            final(self).cfg() == old(self).cfg(),
            final(data)@.len() == old(data)@.len(),
            match result {
                Ok(()) => {
                    &&& appended_read(
                        old(self).ops(),
                        final(self).ops(),
                        register,
                        old(data)@.len(),
                    )
                    &&& read_response(final(self).ops()) == final(data)@
                },
                Err(e) => {
                    &&& e matches Error::I2C(_)
                    &&& final(self).ops() == old(self).ops()
                },
            },
    {
        let mut request: Vec<u8> = Vec::new();
        request.push(register);
        assert(request@ == seq![register]);
        let ghost pre = self.i2c.ops();
        match self.i2c.write_read(DEVICE_ADDRESS, request.as_slice(), data) {
            Ok(()) => {
                proof {
                    assert(self.i2c.ops().subrange(0, pre.len() as int) =~= pre);
                }
                Ok(())
            },
            Err(e) => Err(Error::I2C(e)),
        }
    }

    /// Read a single register from the device in one bus transaction.
    pub(crate) fn read_register(&mut self, register: u8) -> (result: Result<
        u8,
        Error<I2C::BusError>,
    >)
        ensures
            final(self).cfg() == old(self).cfg(),
            match result {
                Ok(value) => {
                    &&& appended_read(old(self).ops(), final(self).ops(), register, 1)
                    &&& value == read_response(final(self).ops())[0]
                },
                Err(e) => e matches Error::I2C(_) && final(self).ops() == old(self).ops(),
            },
    {
        let mut data: Vec<u8> = Vec::new();
        data.push(0);
        match self.read_data(register, &mut data) {
            Ok(()) => Ok(data[0]),
            Err(e) => Err(e),
        }
    }
}

impl<I2C: I2cBus> Max3010x<I2C, Max30102, Uninitialized> {
    /// Create a new instance of the MAX30102 device.
    pub fn new_max30102(i2c: I2C) -> (device: Self)
        ensures
            device.ops() == i2c.ops(),
            device.cfg() == (ConfigState {
                mode: 0,
                fifo_config: 0,
                spo2_config: 0,
                int_en1: 0,
                int_en2: 0,
                temp_in_progress: false,
            }),
    {
        Max3010x {
            i2c,
            temperature_measurement_started: false,
            mode: Config { bits: 0 },
            fifo_config: Config { bits: 0 },
            spo2_config: Config { bits: 0 },
            int_en1: Config { bits: 0 },
            int_en2: Config { bits: 0 },
            _ic: core::marker::PhantomData,
            _mode: core::marker::PhantomData,
        }
    }
}

} // verus!
