//! The row that a log keeps of one measurement.
//!
//! A log holds one row for each measurement that decoded, beside the time
//! it was taken at, a tag for the place and the serial number of the
//! device, which the caller adds. Every reading is widened to a signed
//! 32-bit column. A frame that was refused leaves no row.

use vstd::prelude::*;
use crate::error::Error;
use crate::response::measurement::Measurement;

verus! {

/// The numeric columns of one row of the log.
#[derive(Debug, Clone, Copy, PartialEq, Eq, Structural)]
pub struct Reading {
    /// TVOC in ppb.
    pub tvoc: i32,
    /// CO2 equivalents in ppm.
    pub eco2: i32,
    /// Air quality index.
    pub aqi: i32,
    /// Compensated temperature in units of 0.1 C.
    pub temperature: i32,
    /// Compensated relative humidity in units of 0.1 %.
    pub humidity: i32,
    /// PM1.0 mass concentration in ug/m3.
    pub pm1_0: i32,
    /// PM2.5 mass concentration in ug/m3.
    pub pm2_5: i32,
    /// PM10 mass concentration in ug/m3.
    pub pm10: i32,
    /// PM1.0 mass concentration in atmospheric environment in ug/m3.
    pub pm1_0_in_air: i32,
    /// PM2.5 mass concentration in atmospheric environment in ug/m3.
    pub pm2_5_in_air: i32,
    /// PM10 mass concentration in atmospheric environment in ug/m3.
    pub pm10_in_air: i32,
    /// Particles above 0.3 micrometers in 0.1 liters of air.
    pub um0_3_particles: i32,
    /// Particles above 0.5 micrometers in 0.1 liters of air.
    pub um0_5_particles: i32,
    /// Particles above 1.0 micrometers in 0.1 liters of air.
    pub um1_particles: i32,
    /// Particles above 2.5 micrometers in 0.1 liters of air.
    pub um2_5_particles: i32,
    /// Particles above 5.0 micrometers in 0.1 liters of air.
    pub um5_particles: i32,
    /// Particles above 10 micrometers in 0.1 liters of air.
    pub um10_particles: i32,
}

/// Whether `row` holds the readings of `measurement`, value for value: the
/// compensated temperature and humidity under `temperature` and `humidity`,
/// every other reading under its own name.
pub open spec fn records(row: Reading, measurement: Measurement) -> bool {
    &&& row.tvoc == measurement.tvoc
    &&& row.eco2 == measurement.eco2
    &&& row.aqi == measurement.aqi
    &&& row.temperature == measurement.t_comp
    &&& row.humidity == measurement.rh_comp
    &&& row.pm1_0 == measurement.pm1_0
    &&& row.pm2_5 == measurement.pm2_5
    &&& row.pm10 == measurement.pm10
    &&& row.pm1_0_in_air == measurement.pm1_0_in_air
    &&& row.pm2_5_in_air == measurement.pm2_5_in_air
    &&& row.pm10_in_air == measurement.pm10_in_air
    &&& row.um0_3_particles == measurement.um_0_3_particles
    &&& row.um0_5_particles == measurement.um_0_5_particles
    &&& row.um1_particles == measurement.um_1_particles
    &&& row.um2_5_particles == measurement.um_2_5_particles
    &&& row.um5_particles == measurement.um_5_particles
    &&& row.um10_particles == measurement.um_10_particles
}

impl Reading {
    /// The row that records `measurement`.
    pub fn of(measurement: &Measurement) -> (row: Reading)
        ensures
            records(row, *measurement),
    {
        Reading {
            tvoc: measurement.tvoc as i32,
            eco2: measurement.eco2 as i32,
            aqi: measurement.aqi as i32,
            temperature: measurement.t_comp as i32,
            humidity: measurement.rh_comp as i32,
            pm1_0: measurement.pm1_0 as i32,
            pm2_5: measurement.pm2_5 as i32,
            pm10: measurement.pm10 as i32,
            pm1_0_in_air: measurement.pm1_0_in_air as i32,
            pm2_5_in_air: measurement.pm2_5_in_air as i32,
            pm10_in_air: measurement.pm10_in_air as i32,
            um0_3_particles: measurement.um_0_3_particles as i32,
            um0_5_particles: measurement.um_0_5_particles as i32,
            um1_particles: measurement.um_1_particles as i32,
            um2_5_particles: measurement.um_2_5_particles as i32,
            um5_particles: measurement.um_5_particles as i32,
            um10_particles: measurement.um_10_particles as i32,
        }
    }

    /// The row to keep of a decoding: the one that records the measurement,
    /// and none where the frame was refused.
    pub fn of_decoded(decoded: &Result<Measurement, Error>) -> (row: Option<Reading>)
        ensures
            row is Some <==> decoded is Ok,
            decoded matches Ok(measurement) ==> row matches Some(kept) && records(
                kept,
                *measurement,
            ),
    {
        match decoded {
            Ok(measurement) => Some(Reading::of(measurement)),
            Err(_) => None,
        }
    }
}

/// A row records one measurement's readings and no other's: the relation
/// fixes every column, and no column is negative.
pub proof fn lemma_records_is_exact(first: Reading, second: Reading, measurement: Measurement)
    requires
        records(first, measurement),
        records(second, measurement),
    ensures
        first == second,
        first.tvoc >= 0 && first.eco2 >= 0 && first.aqi >= 0 && first.temperature >= 0
            && first.humidity >= 0,
{
}

} // verus!
