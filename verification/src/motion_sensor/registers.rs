//! The registers of the H3LIS100DL that the driver uses.

use vstd::prelude::*;
use crate::register::Register;
use crate::units::{Fraction, Ratio};

verus! {

pub const WHO_AM_I_ADDR: u8 = 0x0F;

/// The byte that an H3LIS100DL keeps in its identity register.
pub const H3LIS100DL_ID: u8 = 0x32;

pub const CTRL_REG1: u8 = 0x20;

pub const CTRL_REG2: u8 = 0x21;

pub const STATUS_REG: u8 = 0x27;

pub const OUT_X_REG: u8 = 0x29;

pub const OUT_Y_REG: u8 = 0x2B;

pub const OUT_Z_REG: u8 = 0x2D;

/// Control register 1 with every bit clear: the device is powered down.
pub const POWER_DOWN: u8 = 0b0000_0000;

/// Control register 1 for normal mode at an output rate of 400 Hz.
pub const NORMAL_MODE: u8 = 0b0011_0000;

/// Control register 2 with the bit set that reloads the internal registers
/// from the device's memory.
pub const REBOOT: u8 = 0b1000_0000;

/// The identity of the device: the one byte that an H3LIS100DL answers
/// with.
#[derive(Clone, Copy, Debug, PartialEq, Eq, Structural)]
pub struct WhoAmI;

impl Register for WhoAmI {
    open spec fn raw(&self) -> u8 {
        H3LIS100DL_ID
    }

    open spec fn parse(raw: u8) -> Option<Self> {
        if raw == H3LIS100DL_ID {
            Some(WhoAmI)
        } else {
            None
        }
    }

    fn encode(&self) -> (raw: u8) {
        H3LIS100DL_ID
    }

    fn decode(raw: u8) -> (value: Option<Self>) {
        if raw == H3LIS100DL_ID {
            Some(WhoAmI)
        } else {
            None
        }
    }

    proof fn lemma_round_trip(&self) {
    }
}

/// The output of one axis: a signed count in two's complement.
#[derive(Clone, Copy, Debug, PartialEq, Eq, Structural)]
pub struct AxisOutput {
    pub counts: i8,
}

impl Register for AxisOutput {
    open spec fn raw(&self) -> u8 {
        if self.counts >= 0 {
            self.counts as u8
        } else {
            (self.counts + 0x100) as u8
        }
    }

    open spec fn parse(raw: u8) -> Option<Self> {
        Some(
            AxisOutput {
                counts: if raw < 0x80 {
                    raw as i8
                } else {
                    (raw - 0x100) as i8
                },
            },
        )
    }

    fn encode(&self) -> (raw: u8) {
        if self.counts >= 0 {
            self.counts as u8
        } else {
            (self.counts as i16 + 0x100) as u8
        }
    }

    fn decode(raw: u8) -> (value: Option<Self>) {
        Some(
            AxisOutput {
                counts: if raw < 0x80 {
                    raw as i8
                } else {
                    (raw as i16 - 0x100) as i8
                },
            },
        )
    }

    proof fn lemma_round_trip(&self) {
    }
}

/// The full-scale range of the accelerometer.
#[allow(non_camel_case_types)]
#[derive(Clone, Copy, Debug, PartialEq, Eq, Structural)]
pub enum AccelerometerRange {
    G_100,
}

impl AccelerometerRange {
    /// How many g one count stands for in this range: 0.78.
    pub open spec fn scale_factor(self) -> Fraction {
        match self {
            AccelerometerRange::G_100 => Fraction { numerator: 78, denominator: 100 },
        }
    }

    pub fn get_scale_factor(&self) -> (factor: Ratio)
        ensures
            factor@ == self.scale_factor(),
            factor.valid(),
    {
        match self {
            AccelerometerRange::G_100 => Ratio { numerator: 78, denominator: 100 },
        }
    }
}

/// Acceleration on three axes, in metres per second squared.
#[derive(Clone, Copy, Debug, PartialEq, Eq, Structural)]
pub struct Acceleration {
    pub x: Ratio,
    pub y: Ratio,
    pub z: Ratio,
}

pub struct AccelerationView {
    pub x: Fraction,
    pub y: Fraction,
    pub z: Fraction,
}

impl View for Acceleration {
    type V = AccelerationView;

    open spec fn view(&self) -> AccelerationView {
        AccelerationView { x: self.x@, y: self.y@, z: self.z@ }
    }
}

} // verus!
