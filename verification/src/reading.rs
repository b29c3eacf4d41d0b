//! One sensor sample, held as plain scaled integers.
//!
//! The sensor reports temperature and relative humidity with two
//! fractional digits of precision, so both are carried in hundredths:
//! `temp_centi == 2346` stands for 23.46 °C, `humi_centi == 5510` for
//! 55.10 %. The driver that talks to the hardware converts its raw
//! values into this form before handing them to the monitor.

use vstd::prelude::*;

verus! {

/// A single sample: temperature in hundredths of a degree Celsius,
/// relative humidity in hundredths of a percent.
#[derive(Clone, Copy, Debug, PartialEq, Eq, Structural)]
pub struct Reading {
    pub temp_centi: i32,
    pub humi_centi: u32,
}

impl Reading {
    /// What the sensor can physically report: -40.00 ..= 80.00 °C and
    /// 0.00 ..= 100.00 % relative humidity.
    pub open spec fn wf(&self) -> bool {
        &&& -4000 <= self.temp_centi <= 8000
        &&& self.humi_centi <= 10000
    }

    pub fn new(temp_centi: i32, humi_centi: u32) -> (r: Reading)
        ensures
            r.temp_centi == temp_centi,
            r.humi_centi == humi_centi,
    {
        Reading { temp_centi, humi_centi }
    }
}

/// Why a sample could not be taken: the sensor's wire protocol either
/// timed out or delivered a frame whose checksum did not match.
#[derive(Clone, Copy, Debug, PartialEq, Eq, Structural)]
pub enum SensorError {
    Timeout,
    ChecksumMismatch,
}

} // verus!
