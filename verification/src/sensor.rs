//! The two-axis motion sensor that one controller family carries.
//!
//! The sensor never samples by itself. Whoever drives the cartridge hands it the
//! tilt on both axes as two signed values; with no input device the tilt stays at
//! zero, and a latch then yields the neutral reading on both axes.
use vstd::prelude::*;

verus! {

/// The reading of an axis that is not tilted.
pub const SENSOR_NEUTRAL: u16 = 0x81D0;

/// The reading of an axis after an erase, before the next latch.
pub const SENSOR_ERASED: u16 = 0x8000;

/// The value that erases the latched readings and arms the latch.
pub const SENSOR_ERASE: u8 = 0x55;

/// The value that latches the tilt on an armed latch.
pub const SENSOR_LATCH: u8 = 0xAA;

/// The reading of an axis tilted by `tilt`: the neutral reading plus the tilt, in
/// sixteen bits.
pub open spec fn reading_spec(tilt: i16) -> u16 {
    ((SENSOR_NEUTRAL + tilt) % 0x1_0000) as u16
}

/// The reading of an axis tilted by `tilt`.
pub fn reading(tilt: i16) -> (value: u16)
    ensures
        value == reading_spec(tilt),
{
    let sum: i32 = 0x81D0i32 + (tilt as i32);
    if sum >= 0x1_0000 {
        (sum - 0x1_0000) as u16
    } else {
        sum as u16
    }
}

/// The sensor's state: the tilt last handed in, the latched reading of each axis,
/// and the state of the latch protocol.
#[derive(Clone, Copy, Debug, PartialEq, Eq, Structural)]
pub struct Sensor {
    /// The tilt on the X axis, as last handed in.
    pub tilt_x: i16,
    /// The tilt on the Y axis, as last handed in.
    pub tilt_y: i16,
    /// The latched reading of the X axis.
    pub latched_x: u16,
    /// The latched reading of the Y axis.
    pub latched_y: u16,
    /// Whether the readings were erased and no latch followed.
    pub latch_armed: bool,
}

impl Sensor {
    /// The register at `index` of the register file: 2 and 3 hold the low and high
    /// byte of the X reading, 4 and 5 those of the Y reading, 6 reads as zero, and
    /// every other one as `0xFF`.
    pub open spec fn register_spec(self, index: u8) -> u8 {
        if index == 2 {
            (self.latched_x % 256) as u8
        } else if index == 3 {
            (self.latched_x / 256) as u8
        } else if index == 4 {
            (self.latched_y % 256) as u8
        } else if index == 5 {
            (self.latched_y / 256) as u8
        } else if index == 6 {
            0x00
        } else {
            0xFF
        }
    }

    /// The sensor after `value` is written to the register at `index`: the erase
    /// value on register 0 erases both readings and arms the latch, the latch value
    /// on register 1 with an armed latch takes the reading of the present tilt, and
    /// every other write changes nothing.
    pub open spec fn write_register_spec(self, index: u8, value: u8) -> Sensor {
        if index == 0 && value == SENSOR_ERASE {
            Sensor { latched_x: SENSOR_ERASED, latched_y: SENSOR_ERASED, latch_armed: true, ..self }
        } else if index == 1 && value == SENSOR_LATCH && self.latch_armed {
            Sensor {
                latched_x: reading_spec(self.tilt_x),
                latched_y: reading_spec(self.tilt_y),
                latch_armed: false,
                ..self
            }
        } else {
            self
        }
    }

    /// A level sensor with erased readings.
    pub fn new() -> (sensor: Sensor)
        ensures
            sensor == (Sensor {
                tilt_x: 0,
                tilt_y: 0,
                latched_x: SENSOR_ERASED,
                latched_y: SENSOR_ERASED,
                latch_armed: false,
            }),
    {
        Sensor {
            tilt_x: 0,
            tilt_y: 0,
            latched_x: SENSOR_ERASED,
            latched_y: SENSOR_ERASED,
            latch_armed: false,
        }
    }

    /// The register at `index` of the register file.
    pub fn register(&self, index: u8) -> (value: u8)
        ensures
            value == self.register_spec(index),
    {
        if index == 2 {
            (self.latched_x % 256) as u8
        } else if index == 3 {
            (self.latched_x / 256) as u8
        } else if index == 4 {
            (self.latched_y % 256) as u8
        } else if index == 5 {
            (self.latched_y / 256) as u8
        } else if index == 6 {
            0x00
        } else {
            0xFF
        }
    }

    /// Handles a write of `value` to the register at `index`.
    pub fn write_register(&mut self, index: u8, value: u8)
        ensures
            *final(self) == old(self).write_register_spec(index, value),
    {
        if index == 0 && value == SENSOR_ERASE {
            self.latched_x = SENSOR_ERASED;
            self.latched_y = SENSOR_ERASED;
            self.latch_armed = true;
        } else if index == 1 && value == SENSOR_LATCH && self.latch_armed {
            self.latched_x = reading(self.tilt_x);
            self.latched_y = reading(self.tilt_y);
            self.latch_armed = false;
        }
    }
}

} // verus!
