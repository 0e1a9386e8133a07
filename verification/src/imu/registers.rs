//! The registers of the MPU-6500 that the driver uses, bit for bit as the
//! device lays them out.

use vstd::prelude::*;
use crate::register::Register;
use crate::units::{Fraction, Ratio};

verus! {

pub const GYRO_CONFIG_ADDRESS: u8 = 0x1B;

pub const ACC_CONFIG_1_ADDRESS: u8 = 0x1C;

pub const ACC_CONFIG_2_ADDRESS: u8 = 0x1D;

/// The first of the fourteen data registers: accelerometer, temperature and
/// gyroscope, each word high byte first.
pub const ACC_XOUT_H_ADDRESS: u8 = 0x3B;

pub const USER_CONTROL_ADDRESS: u8 = 0x6A;

pub const PWR_MGMT_1_ADDRESS: u8 = 0x6B;

pub const WHO_AM_I_ADDRESS: u8 = 0x75;

/// The byte that an MPU-6500 keeps in its identity register.
pub const DEVICE_ID: u8 = 0x70;

/// The byte with the bits of `mask` if `set`, and with no bit if not.
pub open spec fn spec_flag(set: bool, mask: u8) -> u8 {
    if set {
        mask
    } else {
        0
    }
}

#[verifier::when_used_as_spec(spec_flag)]
pub fn flag(set: bool, mask: u8) -> (bits: u8)
    ensures
        bits == spec_flag(set, mask),
{
    if set {
        mask
    } else {
        0
    }
}

/// What the device takes its clock from.
#[derive(Clone, Copy, Debug, PartialEq, Eq, Structural)]
pub enum ClockSource {
    /// The internal 20 MHz oscillator.
    Internal,
    /// The best source there is: the gyroscope's PLL once it is ready.
    Auto,
    /// No clock: the timing generator is held in reset.
    Stopped,
}

impl ClockSource {
    /// The three bits that select this source.
    pub open spec fn spec_code(self) -> u8 {
        match self {
            ClockSource::Internal => 0,
            ClockSource::Auto => 1,
            ClockSource::Stopped => 7,
        }
    }

    /// The source that three bits select. The device knows two codes for the
    /// internal oscillator and five for the automatic choice.
    pub open spec fn spec_from_code(code: u8) -> ClockSource {
        if code == 0 || code == 6 {
            ClockSource::Internal
        } else if code == 7 {
            ClockSource::Stopped
        } else {
            ClockSource::Auto
        }
    }

    #[verifier::when_used_as_spec(spec_code)]
    pub fn code(self) -> (code: u8)
        ensures
            code == self.spec_code(),
    {
        match self {
            ClockSource::Internal => 0,
            ClockSource::Auto => 1,
            ClockSource::Stopped => 7,
        }
    }

    #[verifier::when_used_as_spec(spec_from_code)]
    pub fn from_code(code: u8) -> (source: ClockSource)
        ensures
            source == Self::spec_from_code(code),
    {
        if code == 0 || code == 6 {
            ClockSource::Internal
        } else if code == 7 {
            ClockSource::Stopped
        } else {
            ClockSource::Auto
        }
    }
}

/// Power management 1.
#[derive(Clone, Copy, Debug, PartialEq, Eq, Structural)]
pub struct PowerManagement1 {
    /// Bit 7: reset every register to its default; the device clears the bit
    /// when it is done.
    pub device_reset: bool,
    /// Bit 6: sleep.
    pub sleep: bool,
    /// Bit 5: cycle between sleep and taking one sample.
    pub cycle: bool,
    /// Bit 4: keep the gyroscope drive on and its sense paths off.
    pub gyro_standby: bool,
    /// Bit 3: switch the temperature sensor off.
    pub temp_disable: bool,
    /// Bits 2 to 0.
    pub clock: ClockSource,
}

impl PowerManagement1 {
    pub fn set_device_reset(&mut self, device_reset: bool)
        ensures
            *final(self) == (PowerManagement1 { device_reset, ..*old(self) }),
    {
        self.device_reset = device_reset;
    }
}

impl PowerManagement1 {
    /// Every flag clear, on the internal oscillator: the byte zero.
    pub open spec fn zero() -> PowerManagement1 {
        PowerManagement1 {
            device_reset: false,
            sleep: false,
            cycle: false,
            gyro_standby: false,
            temp_disable: false,
            clock: ClockSource::Internal,
        }
    }
}

impl Default for PowerManagement1 {
    fn default() -> (register: Self)
        ensures
            register == Self::zero(),
    {
        PowerManagement1 {
            device_reset: false,
            sleep: false,
            cycle: false,
            gyro_standby: false,
            temp_disable: false,
            clock: ClockSource::Internal,
        }
    }
}

impl Register for PowerManagement1 {
    open spec fn raw(&self) -> u8 {
        flag(self.device_reset, 0x80) | flag(self.sleep, 0x40) | flag(self.cycle, 0x20) | flag(
            self.gyro_standby,
            0x10,
        ) | flag(self.temp_disable, 0x08) | self.clock.code()
    }

    open spec fn parse(raw: u8) -> Option<Self> {
        Some(
            PowerManagement1 {
                device_reset: raw & 0x80 != 0,
                sleep: raw & 0x40 != 0,
                cycle: raw & 0x20 != 0,
                gyro_standby: raw & 0x10 != 0,
                temp_disable: raw & 0x08 != 0,
                clock: ClockSource::from_code(raw & 0x07),
            },
        )
    }

    fn encode(&self) -> (raw: u8) {
        flag(self.device_reset, 0x80) | flag(self.sleep, 0x40) | flag(self.cycle, 0x20) | flag(
            self.gyro_standby,
            0x10,
        ) | flag(self.temp_disable, 0x08) | self.clock.code()
    }

    fn decode(raw: u8) -> (value: Option<Self>) {
        Some(
            PowerManagement1 {
                device_reset: raw & 0x80 != 0,
                sleep: raw & 0x40 != 0,
                cycle: raw & 0x20 != 0,
                gyro_standby: raw & 0x10 != 0,
                temp_disable: raw & 0x08 != 0,
                clock: ClockSource::from_code(raw & 0x07),
            },
        )
    }

    proof fn lemma_round_trip(&self) {
        let b7 = flag(self.device_reset, 0x80);
        let b6 = flag(self.sleep, 0x40);
        let b5 = flag(self.cycle, 0x20);
        let b4 = flag(self.gyro_standby, 0x10);
        let b3 = flag(self.temp_disable, 0x08);
        let low = self.clock.code();
        let raw = b7 | b6 | b5 | b4 | b3 | low;
        assert(raw & 0x80 == b7 && raw & 0x40 == b6 && raw & 0x20 == b5 && raw & 0x10 == b4 && raw
            & 0x08 == b3 && raw & 0x07 == low) by (bit_vector)
            requires
                raw == b7 | b6 | b5 | b4 | b3 | low,
                b7 == 0 || b7 == 0x80,
                b6 == 0 || b6 == 0x40,
                b5 == 0 || b5 == 0x20,
                b4 == 0 || b4 == 0x10,
                b3 == 0 || b3 == 0x08,
                low <= 7,
        ;
    }
}

/// The identity of the device: the one byte that an MPU-6500 answers with.
#[derive(Clone, Copy, Debug, PartialEq, Eq, Structural)]
pub struct WhoAmI;

impl Register for WhoAmI {
    open spec fn raw(&self) -> u8 {
        DEVICE_ID
    }

    open spec fn parse(raw: u8) -> Option<Self> {
        if raw == DEVICE_ID {
            Some(WhoAmI)
        } else {
            None
        }
    }

    fn encode(&self) -> (raw: u8) {
        DEVICE_ID
    }

    fn decode(raw: u8) -> (value: Option<Self>) {
        if raw == DEVICE_ID {
            Some(WhoAmI)
        } else {
            None
        }
    }

    proof fn lemma_round_trip(&self) {
    }
}

/// User control.
#[derive(Clone, Copy, Debug, PartialEq, Eq, Structural)]
pub struct UserControl {
    /// Bit 7: enable the motion processor.
    pub dmp_en: bool,
    /// Bit 6: enable the FIFO.
    pub fifo_en: bool,
    /// Bit 5: enable the I2C master of the auxiliary bus.
    pub i2c_mst_en: bool,
    /// Bit 4: disable the I2C slave interface, so that the device listens on
    /// SPI only.
    pub i2c_if_dis: bool,
    /// Bit 3: reset the motion processor.
    pub dmp_rst: bool,
    /// Bit 2: reset the FIFO.
    pub fifo_rst: bool,
    /// Bit 1: reset the I2C master.
    pub i2c_mst_rst: bool,
    /// Bit 0: reset the signal paths of all sensors.
    pub sig_cond_rst: bool,
}

impl UserControl {
    pub fn set_i2c_if_dis(&mut self, i2c_if_dis: bool)
        ensures
            *final(self) == (UserControl { i2c_if_dis, ..*old(self) }),
    {
        self.i2c_if_dis = i2c_if_dis;
    }
}

impl UserControl {
    /// Every flag clear: the byte zero.
    pub open spec fn zero() -> UserControl {
        UserControl {
            dmp_en: false,
            fifo_en: false,
            i2c_mst_en: false,
            i2c_if_dis: false,
            dmp_rst: false,
            fifo_rst: false,
            i2c_mst_rst: false,
            sig_cond_rst: false,
        }
    }
}

impl Default for UserControl {
    fn default() -> (register: Self)
        ensures
            register == Self::zero(),
    {
        UserControl {
            dmp_en: false,
            fifo_en: false,
            i2c_mst_en: false,
            i2c_if_dis: false,
            dmp_rst: false,
            fifo_rst: false,
            i2c_mst_rst: false,
            sig_cond_rst: false,
        }
    }
}

impl Register for UserControl {
    open spec fn raw(&self) -> u8 {
        flag(self.dmp_en, 0x80) | flag(self.fifo_en, 0x40) | flag(self.i2c_mst_en, 0x20) | flag(
            self.i2c_if_dis,
            0x10,
        ) | flag(self.dmp_rst, 0x08) | flag(self.fifo_rst, 0x04) | flag(self.i2c_mst_rst, 0x02)
            | flag(self.sig_cond_rst, 0x01)
    }

    open spec fn parse(raw: u8) -> Option<Self> {
        Some(
            UserControl {
                dmp_en: raw & 0x80 != 0,
                fifo_en: raw & 0x40 != 0,
                i2c_mst_en: raw & 0x20 != 0,
                i2c_if_dis: raw & 0x10 != 0,
                dmp_rst: raw & 0x08 != 0,
                fifo_rst: raw & 0x04 != 0,
                i2c_mst_rst: raw & 0x02 != 0,
                sig_cond_rst: raw & 0x01 != 0,
            },
        )
    }

    fn encode(&self) -> (raw: u8) {
        flag(self.dmp_en, 0x80) | flag(self.fifo_en, 0x40) | flag(self.i2c_mst_en, 0x20) | flag(
            self.i2c_if_dis,
            0x10,
        ) | flag(self.dmp_rst, 0x08) | flag(self.fifo_rst, 0x04) | flag(self.i2c_mst_rst, 0x02)
            | flag(self.sig_cond_rst, 0x01)
    }

    fn decode(raw: u8) -> (value: Option<Self>) {
        Some(
            UserControl {
                dmp_en: raw & 0x80 != 0,
                fifo_en: raw & 0x40 != 0,
                i2c_mst_en: raw & 0x20 != 0,
                i2c_if_dis: raw & 0x10 != 0,
                dmp_rst: raw & 0x08 != 0,
                fifo_rst: raw & 0x04 != 0,
                i2c_mst_rst: raw & 0x02 != 0,
                sig_cond_rst: raw & 0x01 != 0,
            },
        )
    }

    proof fn lemma_round_trip(&self) {
        let b7 = flag(self.dmp_en, 0x80);
        let b6 = flag(self.fifo_en, 0x40);
        let b5 = flag(self.i2c_mst_en, 0x20);
        let b4 = flag(self.i2c_if_dis, 0x10);
        let b3 = flag(self.dmp_rst, 0x08);
        let b2 = flag(self.fifo_rst, 0x04);
        let b1 = flag(self.i2c_mst_rst, 0x02);
        let b0 = flag(self.sig_cond_rst, 0x01);
        let raw = b7 | b6 | b5 | b4 | b3 | b2 | b1 | b0;
        assert(raw & 0x80 == b7 && raw & 0x40 == b6 && raw & 0x20 == b5 && raw & 0x10 == b4 && raw
            & 0x08 == b3 && raw & 0x04 == b2 && raw & 0x02 == b1 && raw & 0x01 == b0)
            by (bit_vector)
            requires
                raw == b7 | b6 | b5 | b4 | b3 | b2 | b1 | b0,
                b7 == 0 || b7 == 0x80,
                b6 == 0 || b6 == 0x40,
                b5 == 0 || b5 == 0x20,
                b4 == 0 || b4 == 0x10,
                b3 == 0 || b3 == 0x08,
                b2 == 0 || b2 == 0x04,
                b1 == 0 || b1 == 0x02,
                b0 == 0 || b0 == 0x01,
        ;
    }
}

/// The full-scale range of the accelerometer.
#[allow(non_camel_case_types)]
#[derive(Clone, Copy, Debug, PartialEq, Eq, Structural)]
pub enum AccelerometerRange {
    G_2,
    G_4,
    G_8,
    G_16,
}

impl AccelerometerRange {
    /// The two bits that select this range.
    pub open spec fn spec_code(self) -> u8 {
        match self {
            AccelerometerRange::G_2 => 0,
            AccelerometerRange::G_4 => 1,
            AccelerometerRange::G_8 => 2,
            AccelerometerRange::G_16 => 3,
        }
    }

    /// The range that two bits select.
    pub open spec fn spec_from_code(code: u8) -> AccelerometerRange {
        if code == 0 {
            AccelerometerRange::G_2
        } else if code == 1 {
            AccelerometerRange::G_4
        } else if code == 2 {
            AccelerometerRange::G_8
        } else {
            AccelerometerRange::G_16
        }
    }

    /// How many counts the device reports for one g in this range.
    pub open spec fn scale_factor(self) -> Fraction {
        match self {
            AccelerometerRange::G_2 => Fraction { numerator: 16384, denominator: 1 },
            AccelerometerRange::G_4 => Fraction { numerator: 8192, denominator: 1 },
            AccelerometerRange::G_8 => Fraction { numerator: 4096, denominator: 1 },
            AccelerometerRange::G_16 => Fraction { numerator: 2048, denominator: 1 },
        }
    }

    #[verifier::when_used_as_spec(spec_code)]
    pub fn code(self) -> (code: u8)
        ensures
            code == self.spec_code(),
    {
        match self {
            AccelerometerRange::G_2 => 0,
            AccelerometerRange::G_4 => 1,
            AccelerometerRange::G_8 => 2,
            AccelerometerRange::G_16 => 3,
        }
    }

    #[verifier::when_used_as_spec(spec_from_code)]
    pub fn from_code(code: u8) -> (range: AccelerometerRange)
        ensures
            range == Self::spec_from_code(code),
    {
        if code == 0 {
            AccelerometerRange::G_2
        } else if code == 1 {
            AccelerometerRange::G_4
        } else if code == 2 {
            AccelerometerRange::G_8
        } else {
            AccelerometerRange::G_16
        }
    }

    pub fn get_scale_factor(&self) -> (factor: Ratio)
        ensures
            factor@ == self.scale_factor(),
            factor.valid(),
            factor.numerator > 0,
    {
        match self {
            AccelerometerRange::G_2 => Ratio { numerator: 16384, denominator: 1 },
            AccelerometerRange::G_4 => Ratio { numerator: 8192, denominator: 1 },
            AccelerometerRange::G_8 => Ratio { numerator: 4096, denominator: 1 },
            AccelerometerRange::G_16 => Ratio { numerator: 2048, denominator: 1 },
        }
    }
}

/// Accelerometer configuration 1.
#[derive(Clone, Copy, Debug, PartialEq, Eq, Structural)]
pub struct AccelerometerConfig1 {
    /// Bit 7: self-test of the X axis.
    pub x_self_test: bool,
    /// Bit 6: self-test of the Y axis.
    pub y_self_test: bool,
    /// Bit 5: self-test of the Z axis.
    pub z_self_test: bool,
    /// Bits 4 and 3. Bits 2 to 0 are reserved and zero.
    pub range: AccelerometerRange,
}

impl AccelerometerConfig1 {
    pub fn set_range(&mut self, range: AccelerometerRange)
        ensures
            *final(self) == (AccelerometerConfig1 { range, ..*old(self) }),
    {
        self.range = range;
    }
}

impl AccelerometerConfig1 {
    /// No self-test, the narrowest range: the byte zero.
    pub open spec fn zero() -> AccelerometerConfig1 {
        AccelerometerConfig1 {
            x_self_test: false,
            y_self_test: false,
            z_self_test: false,
            range: AccelerometerRange::G_2,
        }
    }
}

impl Default for AccelerometerConfig1 {
    fn default() -> (register: Self)
        ensures
            register == Self::zero(),
    {
        AccelerometerConfig1 {
            x_self_test: false,
            y_self_test: false,
            z_self_test: false,
            range: AccelerometerRange::G_2,
        }
    }
}

impl Register for AccelerometerConfig1 {
    open spec fn raw(&self) -> u8 {
        flag(self.x_self_test, 0x80) | flag(self.y_self_test, 0x40) | flag(self.z_self_test, 0x20)
            | (self.range.code() << 3)
    }

    open spec fn parse(raw: u8) -> Option<Self> {
        if raw & 0x07 != 0 {
            None
        } else {
            Some(
                AccelerometerConfig1 {
                    x_self_test: raw & 0x80 != 0,
                    y_self_test: raw & 0x40 != 0,
                    z_self_test: raw & 0x20 != 0,
                    range: AccelerometerRange::from_code((raw >> 3) & 0x03),
                },
            )
        }
    }

    fn encode(&self) -> (raw: u8) {
        let code = self.range.code();
        flag(self.x_self_test, 0x80) | flag(self.y_self_test, 0x40) | flag(self.z_self_test, 0x20)
            | (code << 3)
    }

    fn decode(raw: u8) -> (value: Option<Self>) {
        if raw & 0x07 != 0 {
            None
        } else {
            Some(
                AccelerometerConfig1 {
                    x_self_test: raw & 0x80 != 0,
                    y_self_test: raw & 0x40 != 0,
                    z_self_test: raw & 0x20 != 0,
                    range: AccelerometerRange::from_code((raw >> 3) & 0x03),
                },
            )
        }
    }

    proof fn lemma_round_trip(&self) {
        let b7 = flag(self.x_self_test, 0x80);
        let b6 = flag(self.y_self_test, 0x40);
        let b5 = flag(self.z_self_test, 0x20);
        let code = self.range.code();
        let raw = b7 | b6 | b5 | (code << 3);
        assert(raw & 0x80 == b7 && raw & 0x40 == b6 && raw & 0x20 == b5 && (raw >> 3) & 0x03
            == code && raw & 0x07 == 0) by (bit_vector)
            requires
                raw == b7 | b6 | b5 | (code << 3),
                b7 == 0 || b7 == 0x80,
                b6 == 0 || b6 == 0x40,
                b5 == 0 || b5 == 0x20,
                code <= 3,
        ;
    }
}

/// How often the accelerometer puts out a sample.
#[allow(non_camel_case_types)]
#[derive(Clone, Copy, Debug, PartialEq, Eq, Structural)]
pub enum AccelerometerDataRate {
    /// 1 kHz, through the low-pass filter.
    Hz_1K,
    /// 4 kHz, past the low-pass filter.
    Hz_4K,
}

/// The bandwidth of the accelerometer's low-pass filter.
#[allow(non_camel_case_types)]
#[derive(Clone, Copy, Debug, PartialEq, Eq, Structural)]
pub enum AccelerometerLowPass {
    Hz_460,
    Hz_184,
    Hz_92,
    Hz_41,
    Hz_20,
    Hz_10,
    Hz_5,
}

impl AccelerometerLowPass {
    /// The three bits that select this bandwidth.
    pub open spec fn spec_code(self) -> u8 {
        match self {
            AccelerometerLowPass::Hz_460 => 0,
            AccelerometerLowPass::Hz_184 => 1,
            AccelerometerLowPass::Hz_92 => 2,
            AccelerometerLowPass::Hz_41 => 3,
            AccelerometerLowPass::Hz_20 => 4,
            AccelerometerLowPass::Hz_10 => 5,
            AccelerometerLowPass::Hz_5 => 6,
        }
    }

    /// The bandwidth that three bits select. The device knows two codes for
    /// the widest.
    pub open spec fn spec_from_code(code: u8) -> AccelerometerLowPass {
        if code == 1 {
            AccelerometerLowPass::Hz_184
        } else if code == 2 {
            AccelerometerLowPass::Hz_92
        } else if code == 3 {
            AccelerometerLowPass::Hz_41
        } else if code == 4 {
            AccelerometerLowPass::Hz_20
        } else if code == 5 {
            AccelerometerLowPass::Hz_10
        } else if code == 6 {
            AccelerometerLowPass::Hz_5
        } else {
            AccelerometerLowPass::Hz_460
        }
    }

    #[verifier::when_used_as_spec(spec_code)]
    pub fn code(self) -> (code: u8)
        ensures
            code == self.spec_code(),
    {
        match self {
            AccelerometerLowPass::Hz_460 => 0,
            AccelerometerLowPass::Hz_184 => 1,
            AccelerometerLowPass::Hz_92 => 2,
            AccelerometerLowPass::Hz_41 => 3,
            AccelerometerLowPass::Hz_20 => 4,
            AccelerometerLowPass::Hz_10 => 5,
            AccelerometerLowPass::Hz_5 => 6,
        }
    }

    #[verifier::when_used_as_spec(spec_from_code)]
    pub fn from_code(code: u8) -> (filter: AccelerometerLowPass)
        ensures
            filter == Self::spec_from_code(code),
    {
        if code == 1 {
            AccelerometerLowPass::Hz_184
        } else if code == 2 {
            AccelerometerLowPass::Hz_92
        } else if code == 3 {
            AccelerometerLowPass::Hz_41
        } else if code == 4 {
            AccelerometerLowPass::Hz_20
        } else if code == 5 {
            AccelerometerLowPass::Hz_10
        } else if code == 6 {
            AccelerometerLowPass::Hz_5
        } else {
            AccelerometerLowPass::Hz_460
        }
    }
}

/// Accelerometer configuration 2.
#[derive(Clone, Copy, Debug, PartialEq, Eq, Structural)]
pub struct AccelerometerConfig2 {
    /// Bit 3, set for 4 kHz. Bits 7 to 4 are reserved and zero.
    pub data_rate: AccelerometerDataRate,
    /// Bits 2 to 0.
    pub low_pass: AccelerometerLowPass,
}

impl AccelerometerConfig2 {
    pub fn set_data_rate(&mut self, data_rate: AccelerometerDataRate)
        ensures
            *final(self) == (AccelerometerConfig2 { data_rate, ..*old(self) }),
    {
        self.data_rate = data_rate;
    }
}

impl AccelerometerConfig2 {
    /// 1 kHz through the widest filter: the byte zero.
    pub open spec fn zero() -> AccelerometerConfig2 {
        AccelerometerConfig2 {
            data_rate: AccelerometerDataRate::Hz_1K,
            low_pass: AccelerometerLowPass::Hz_460,
        }
    }
}

impl Default for AccelerometerConfig2 {
    fn default() -> (register: Self)
        ensures
            register == Self::zero(),
    {
        AccelerometerConfig2 {
            data_rate: AccelerometerDataRate::Hz_1K,
            low_pass: AccelerometerLowPass::Hz_460,
        }
    }
}

impl Register for AccelerometerConfig2 {
    open spec fn raw(&self) -> u8 {
        flag(self.data_rate == AccelerometerDataRate::Hz_4K, 0x08) | self.low_pass.code()
    }

    open spec fn parse(raw: u8) -> Option<Self> {
        if raw & 0xf0 != 0 {
            None
        } else {
            Some(
                AccelerometerConfig2 {
                    data_rate: if raw & 0x08 != 0 {
                        AccelerometerDataRate::Hz_4K
                    } else {
                        AccelerometerDataRate::Hz_1K
                    },
                    low_pass: AccelerometerLowPass::from_code(raw & 0x07),
                },
            )
        }
    }

    fn encode(&self) -> (raw: u8) {
        let fast = match self.data_rate {
            AccelerometerDataRate::Hz_4K => true,
            AccelerometerDataRate::Hz_1K => false,
        };
        flag(fast, 0x08) | self.low_pass.code()
    }

    fn decode(raw: u8) -> (value: Option<Self>) {
        if raw & 0xf0 != 0 {
            None
        } else {
            Some(
                AccelerometerConfig2 {
                    data_rate: if raw & 0x08 != 0 {
                        AccelerometerDataRate::Hz_4K
                    } else {
                        AccelerometerDataRate::Hz_1K
                    },
                    low_pass: AccelerometerLowPass::from_code(raw & 0x07),
                },
            )
        }
    }

    proof fn lemma_round_trip(&self) {
        let b3 = flag(self.data_rate == AccelerometerDataRate::Hz_4K, 0x08);
        let low = self.low_pass.code();
        let raw = b3 | low;
        assert(raw & 0x08 == b3 && raw & 0x07 == low && raw & 0xf0 == 0) by (bit_vector)
            requires
                raw == b3 | low,
                b3 == 0 || b3 == 0x08,
                low <= 6,
        ;
    }
}

/// The full-scale range of the gyroscope, in degrees per second.
#[allow(non_camel_case_types)]
#[derive(Clone, Copy, Debug, PartialEq, Eq, Structural)]
pub enum GyroscopeRange {
    DPS_250,
    DPS_500,
    DPS_1000,
    DPS_2000,
}

impl GyroscopeRange {
    /// The two bits that select this range.
    pub open spec fn spec_code(self) -> u8 {
        match self {
            GyroscopeRange::DPS_250 => 0,
            GyroscopeRange::DPS_500 => 1,
            GyroscopeRange::DPS_1000 => 2,
            GyroscopeRange::DPS_2000 => 3,
        }
    }

    /// The range that two bits select.
    pub open spec fn spec_from_code(code: u8) -> GyroscopeRange {
        if code == 0 {
            GyroscopeRange::DPS_250
        } else if code == 1 {
            GyroscopeRange::DPS_500
        } else if code == 2 {
            GyroscopeRange::DPS_1000
        } else {
            GyroscopeRange::DPS_2000
        }
    }

    /// How many counts the device reports for one degree per second in this
    /// range: 131, 65.5, 32.8 and 16.4.
    pub open spec fn scale_factor(self) -> Fraction {
        match self {
            GyroscopeRange::DPS_250 => Fraction { numerator: 131, denominator: 1 },
            GyroscopeRange::DPS_500 => Fraction { numerator: 655, denominator: 10 },
            GyroscopeRange::DPS_1000 => Fraction { numerator: 328, denominator: 10 },
            GyroscopeRange::DPS_2000 => Fraction { numerator: 164, denominator: 10 },
        }
    }

    #[verifier::when_used_as_spec(spec_code)]
    pub fn code(self) -> (code: u8)
        ensures
            code == self.spec_code(),
    {
        match self {
            GyroscopeRange::DPS_250 => 0,
            GyroscopeRange::DPS_500 => 1,
            GyroscopeRange::DPS_1000 => 2,
            GyroscopeRange::DPS_2000 => 3,
        }
    }

    #[verifier::when_used_as_spec(spec_from_code)]
    pub fn from_code(code: u8) -> (range: GyroscopeRange)
        ensures
            range == Self::spec_from_code(code),
    {
        if code == 0 {
            GyroscopeRange::DPS_250
        } else if code == 1 {
            GyroscopeRange::DPS_500
        } else if code == 2 {
            GyroscopeRange::DPS_1000
        } else {
            GyroscopeRange::DPS_2000
        }
    }

    pub fn get_scale_factor(&self) -> (factor: Ratio)
        ensures
            factor@ == self.scale_factor(),
            factor.valid(),
            factor.numerator > 0,
    {
        match self {
            GyroscopeRange::DPS_250 => Ratio { numerator: 131, denominator: 1 },
            GyroscopeRange::DPS_500 => Ratio { numerator: 655, denominator: 10 },
            GyroscopeRange::DPS_1000 => Ratio { numerator: 328, denominator: 10 },
            GyroscopeRange::DPS_2000 => Ratio { numerator: 164, denominator: 10 },
        }
    }
}

/// Which way the gyroscope's samples take past its low-pass filter.
#[allow(non_camel_case_types)]
#[derive(Clone, Copy, Debug, PartialEq, Eq, Structural)]
pub enum GyroscopeFilter {
    /// Through the low-pass filter.
    LowPass,
    /// Past the filter, at a bandwidth of 8800 Hz.
    Bypass_8800,
    /// Past the filter, at a bandwidth of 3600 Hz.
    Bypass_3600,
}

impl GyroscopeFilter {
    /// The two bits that select this way.
    pub open spec fn spec_code(self) -> u8 {
        match self {
            GyroscopeFilter::LowPass => 0,
            GyroscopeFilter::Bypass_8800 => 1,
            GyroscopeFilter::Bypass_3600 => 2,
        }
    }

    /// The way that two bits select. With the low bit set the high bit
    /// means nothing.
    pub open spec fn spec_from_code(code: u8) -> GyroscopeFilter {
        if code == 0 {
            GyroscopeFilter::LowPass
        } else if code == 2 {
            GyroscopeFilter::Bypass_3600
        } else {
            GyroscopeFilter::Bypass_8800
        }
    }

    #[verifier::when_used_as_spec(spec_code)]
    pub fn code(self) -> (code: u8)
        ensures
            code == self.spec_code(),
    {
        match self {
            GyroscopeFilter::LowPass => 0,
            GyroscopeFilter::Bypass_8800 => 1,
            GyroscopeFilter::Bypass_3600 => 2,
        }
    }

    #[verifier::when_used_as_spec(spec_from_code)]
    pub fn from_code(code: u8) -> (filter: GyroscopeFilter)
        ensures
            filter == Self::spec_from_code(code),
    {
        if code == 0 {
            GyroscopeFilter::LowPass
        } else if code == 2 {
            GyroscopeFilter::Bypass_3600
        } else {
            GyroscopeFilter::Bypass_8800
        }
    }
}

/// Gyroscope configuration.
#[derive(Clone, Copy, Debug, PartialEq, Eq, Structural)]
pub struct GyroscopeConfig {
    /// Bit 7: self-test of the X axis.
    pub x_self_test: bool,
    /// Bit 6: self-test of the Y axis.
    pub y_self_test: bool,
    /// Bit 5: self-test of the Z axis.
    pub z_self_test: bool,
    /// Bits 4 and 3. Bit 2 is reserved and zero.
    pub range: GyroscopeRange,
    /// Bits 1 and 0.
    pub filter: GyroscopeFilter,
}

impl GyroscopeConfig {
    pub fn set_range(&mut self, range: GyroscopeRange)
        ensures
            *final(self) == (GyroscopeConfig { range, ..*old(self) }),
    {
        self.range = range;
    }
}

impl GyroscopeConfig {
    /// No self-test, the narrowest range, through the filter: the byte zero.
    pub open spec fn zero() -> GyroscopeConfig {
        GyroscopeConfig {
            x_self_test: false,
            y_self_test: false,
            z_self_test: false,
            range: GyroscopeRange::DPS_250,
            filter: GyroscopeFilter::LowPass,
        }
    }
}

impl Default for GyroscopeConfig {
    fn default() -> (register: Self)
        ensures
            register == Self::zero(),
    {
        GyroscopeConfig {
            x_self_test: false,
            y_self_test: false,
            z_self_test: false,
            range: GyroscopeRange::DPS_250,
            filter: GyroscopeFilter::LowPass,
        }
    }
}

impl Register for GyroscopeConfig {
    open spec fn raw(&self) -> u8 {
        flag(self.x_self_test, 0x80) | flag(self.y_self_test, 0x40) | flag(self.z_self_test, 0x20)
            | (self.range.code() << 3) | self.filter.code()
    }

    open spec fn parse(raw: u8) -> Option<Self> {
        if raw & 0x04 != 0 {
            None
        } else {
            Some(
                GyroscopeConfig {
                    x_self_test: raw & 0x80 != 0,
                    y_self_test: raw & 0x40 != 0,
                    z_self_test: raw & 0x20 != 0,
                    range: GyroscopeRange::from_code((raw >> 3) & 0x03),
                    filter: GyroscopeFilter::from_code(raw & 0x03),
                },
            )
        }
    }

    fn encode(&self) -> (raw: u8) {
        flag(self.x_self_test, 0x80) | flag(self.y_self_test, 0x40) | flag(self.z_self_test, 0x20)
            | (self.range.code() << 3) | self.filter.code()
    }

    fn decode(raw: u8) -> (value: Option<Self>) {
        if raw & 0x04 != 0 {
            None
        } else {
            Some(
                GyroscopeConfig {
                    x_self_test: raw & 0x80 != 0,
                    y_self_test: raw & 0x40 != 0,
                    z_self_test: raw & 0x20 != 0,
                    range: GyroscopeRange::from_code((raw >> 3) & 0x03),
                    filter: GyroscopeFilter::from_code(raw & 0x03),
                },
            )
        }
    }

    proof fn lemma_round_trip(&self) {
        let b7 = flag(self.x_self_test, 0x80);
        let b6 = flag(self.y_self_test, 0x40);
        let b5 = flag(self.z_self_test, 0x20);
        let code = self.range.code();
        let low = self.filter.code();
        let raw = b7 | b6 | b5 | (code << 3) | low;
        assert(raw & 0x80 == b7 && raw & 0x40 == b6 && raw & 0x20 == b5 && (raw >> 3) & 0x03
            == code && raw & 0x03 == low && raw & 0x04 == 0) by (bit_vector)
            requires
                raw == b7 | b6 | b5 | (code << 3) | low,
                b7 == 0 || b7 == 0x80,
                b6 == 0 || b6 == 0x40,
                b5 == 0 || b5 == 0x20,
                code <= 3,
                low <= 2,
        ;
    }
}

} // verus!
