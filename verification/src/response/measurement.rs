//! The measurement frame: 64 bytes that the device refreshes every second
//! while it measures.
//!
//! After the four bytes of the header the fields follow one another without
//! gaps, each an unsigned big-endian integer; the fault byte and the
//! checksum close the frame.

use vstd::prelude::*;
use crate::checksum::flip_bit;
use crate::error::Error;
use crate::frame::{
    check_envelope, checksum_matches, envelope_fault, has_header, lemma_bit_flip_breaks_checksum,
    lemma_header_bytes,
};
use crate::response::device_error::DeviceErrorCode;
use crate::wire::{be_u16_at, be_u32_at, read_u16, read_u32};

verus! {

/// Length of a measurement frame.
pub const MEASUREMENT_LEN: usize = 64;

/// Offset of the PM1.0 mass concentration.
pub const PM1_0_AT: usize = 4;

/// Offset of the PM2.5 mass concentration.
pub const PM2_5_AT: usize = 6;

/// Offset of the PM10 mass concentration.
pub const PM10_AT: usize = 8;

/// Offset of the PM1.0 mass concentration in atmospheric environment.
pub const PM1_0_IN_AIR_AT: usize = 10;

/// Offset of the PM2.5 mass concentration in atmospheric environment.
pub const PM2_5_IN_AIR_AT: usize = 12;

/// Offset of the PM10 mass concentration in atmospheric environment.
pub const PM10_IN_AIR_AT: usize = 14;

/// Offset of the count of particles above 0.3 micrometers.
pub const UM_0_3_PARTICLES_AT: usize = 16;

/// Offset of the count of particles above 0.5 micrometers.
pub const UM_0_5_PARTICLES_AT: usize = 18;

/// Offset of the count of particles above 1.0 micrometers.
pub const UM_1_PARTICLES_AT: usize = 20;

/// Offset of the count of particles above 2.5 micrometers.
pub const UM_2_5_PARTICLES_AT: usize = 22;

/// Offset of the count of particles above 5.0 micrometers.
pub const UM_5_PARTICLES_AT: usize = 24;

/// Offset of the count of particles above 10 micrometers.
pub const UM_10_PARTICLES_AT: usize = 26;

/// Offset of the TVOC reading.
pub const TVOC_AT: usize = 28;

/// Offset of the eCO2 reading.
pub const ECO2_AT: usize = 30;

/// Offset of the reserved 16-bit field.
pub const RESERVED_AT: usize = 32;

/// Offset of the compensated temperature.
pub const T_COMP_AT: usize = 34;

/// Offset of the compensated relative humidity.
pub const RH_COMP_AT: usize = 36;

/// Offset of the raw temperature.
pub const T_RAW_AT: usize = 38;

/// Offset of the raw relative humidity.
pub const RH_RAW_AT: usize = 40;

/// Offset of the gas sensor resistance RS0.
pub const RS_0_AT: usize = 42;

/// Offset of the gas sensor resistance RS1.
pub const RS_1_AT: usize = 46;

/// Offset of the gas sensor resistance RS2.
pub const RS_2_AT: usize = 50;

/// Offset of the gas sensor resistance RS3.
pub const RS_3_AT: usize = 54;

/// Offset of the air quality index.
pub const AQI_AT: usize = 58;

/// Offset of the reserved byte.
pub const RESERVED_BYTE_AT: usize = 59;

/// Offset of the firmware version.
pub const VERSION_AT: usize = 60;

/// Offset of the fault byte.
pub const DEVICE_ERROR_AT: usize = 61;

/// One reading of every quantity that the device measures.
#[derive(Debug, Clone, Copy, PartialEq, Eq, Structural)]
pub struct Measurement {
    /// PM1.0 mass concentration in ug/m3; range 0-500.
    pub pm1_0: u16,
    /// PM2.5 mass concentration in ug/m3; range 0-1,000.
    pub pm2_5: u16,
    /// PM10 mass concentration in ug/m3; range 0-1,500.
    pub pm10: u16,
    /// PM1.0 mass concentration in atmospheric environment in ug/m3; range 0-500.
    pub pm1_0_in_air: u16,
    /// PM2.5 mass concentration in atmospheric environment in ug/m3; range 0-1,000.
    pub pm2_5_in_air: u16,
    /// PM10 mass concentration in atmospheric environment in ug/m3; range 0-1,500.
    pub pm10_in_air: u16,
    /// Particles with a diameter above 0.3 micrometers in 0.1 liters of air.
    pub um_0_3_particles: u16,
    /// Particles with a diameter above 0.5 micrometers in 0.1 liters of air.
    pub um_0_5_particles: u16,
    /// Particles with a diameter above 1.0 micrometers in 0.1 liters of air.
    pub um_1_particles: u16,
    /// Particles with a diameter above 2.5 micrometers in 0.1 liters of air.
    pub um_2_5_particles: u16,
    /// Particles with a diameter above 5.0 micrometers in 0.1 liters of air.
    pub um_5_particles: u16,
    /// Particles with a diameter above 10 micrometers in 0.1 liters of air.
    pub um_10_particles: u16,
    /// TVOC output in ppb; range 0-65,000.
    pub tvoc: u16,
    /// CO2 equivalents in ppm; range 400-65,000.
    pub eco2: u16,
    /// Reserved field.
    pub reserved: u16,
    /// Compensated temperature in units of 0.1 C; range 0-500. Valid only
    /// while inlet and outlet of the module face downwards.
    pub t_comp: u16,
    /// Compensated relative humidity in units of 0.1 %; range 0-1000. Valid
    /// only while inlet and outlet of the module face downwards.
    pub rh_comp: u16,
    /// Uncompensated temperature in units of 0.1 C; range 0-500.
    pub t_raw: u16,
    /// Uncompensated relative humidity in units of 0.1 %; range 0-1000.
    pub rh_raw: u16,
    /// Raw resistance RS0 of the gas sensor.
    pub rs_0: u32,
    /// Raw resistance RS1 of the gas sensor; unused by the device.
    pub rs_1: u32,
    /// Raw resistance RS2 of the gas sensor.
    pub rs_2: u32,
    /// Raw resistance RS3 of the gas sensor.
    pub rs_3: u32,
    /// Air quality index after the UBA classification of TVOC; range 1-5.
    pub aqi: u8,
    /// Reserved byte.
    pub reserved_byte: u8,
    /// Firmware version of the device.
    pub version: u8,
}

/// The fields that `frame` holds, each read at its offset.
pub open spec fn measurement_of(frame: Seq<u8>) -> Measurement {
    Measurement {
        pm1_0: be_u16_at(frame, PM1_0_AT as int),
        pm2_5: be_u16_at(frame, PM2_5_AT as int),
        pm10: be_u16_at(frame, PM10_AT as int),
        pm1_0_in_air: be_u16_at(frame, PM1_0_IN_AIR_AT as int),
        pm2_5_in_air: be_u16_at(frame, PM2_5_IN_AIR_AT as int),
        pm10_in_air: be_u16_at(frame, PM10_IN_AIR_AT as int),
        um_0_3_particles: be_u16_at(frame, UM_0_3_PARTICLES_AT as int),
        um_0_5_particles: be_u16_at(frame, UM_0_5_PARTICLES_AT as int),
        um_1_particles: be_u16_at(frame, UM_1_PARTICLES_AT as int),
        um_2_5_particles: be_u16_at(frame, UM_2_5_PARTICLES_AT as int),
        um_5_particles: be_u16_at(frame, UM_5_PARTICLES_AT as int),
        um_10_particles: be_u16_at(frame, UM_10_PARTICLES_AT as int),
        tvoc: be_u16_at(frame, TVOC_AT as int),
        eco2: be_u16_at(frame, ECO2_AT as int),
        reserved: be_u16_at(frame, RESERVED_AT as int),
        t_comp: be_u16_at(frame, T_COMP_AT as int),
        rh_comp: be_u16_at(frame, RH_COMP_AT as int),
        t_raw: be_u16_at(frame, T_RAW_AT as int),
        rh_raw: be_u16_at(frame, RH_RAW_AT as int),
        rs_0: be_u32_at(frame, RS_0_AT as int),
        rs_1: be_u32_at(frame, RS_1_AT as int),
        rs_2: be_u32_at(frame, RS_2_AT as int),
        rs_3: be_u32_at(frame, RS_3_AT as int),
        aqi: frame[AQI_AT as int],
        reserved_byte: frame[RESERVED_BYTE_AT as int],
        version: frame[VERSION_AT as int],
    }
}

/// Whether `frame` is a measurement frame that decodes: checksum and header
/// are right and the device reports no fault.
pub open spec fn measurement_accepted(frame: Seq<u8>) -> bool {
    &&& checksum_matches(frame)
    &&& has_header(frame)
    &&& frame[DEVICE_ERROR_AT as int] == 0
}

/// What decoding `frame` as a measurement gives: the checksum is judged
/// first, then the header, then the fault byte; only then are fields read.
pub open spec fn measurement_result(frame: Seq<u8>) -> Result<Measurement, Error> {
    match envelope_fault(frame) {
        Some(fault) => Err(fault),
        None => if frame[DEVICE_ERROR_AT as int] != 0 {
            Err(Error::Device(DeviceErrorCode(frame[DEVICE_ERROR_AT as int])))
        } else {
            Ok(measurement_of(frame))
        },
    }
}

/// Decodes a measurement frame.
pub fn decode_measurement(buf: &[u8; 64]) -> (result: Result<Measurement, Error>)
    ensures
        result == measurement_result(buf@),
        result is Ok <==> measurement_accepted(buf@),
{
    let frame: &[u8] = buf.as_slice();
    if let Some(fault) = check_envelope(frame) {
        return Err(fault);
    }
    if frame[DEVICE_ERROR_AT] != 0 {
        return Err(Error::Device(DeviceErrorCode(frame[DEVICE_ERROR_AT])));
    }
    Ok(
        Measurement {
            pm1_0: read_u16(frame, PM1_0_AT),
            pm2_5: read_u16(frame, PM2_5_AT),
            pm10: read_u16(frame, PM10_AT),
            pm1_0_in_air: read_u16(frame, PM1_0_IN_AIR_AT),
            pm2_5_in_air: read_u16(frame, PM2_5_IN_AIR_AT),
            pm10_in_air: read_u16(frame, PM10_IN_AIR_AT),
            um_0_3_particles: read_u16(frame, UM_0_3_PARTICLES_AT),
            um_0_5_particles: read_u16(frame, UM_0_5_PARTICLES_AT),
            um_1_particles: read_u16(frame, UM_1_PARTICLES_AT),
            um_2_5_particles: read_u16(frame, UM_2_5_PARTICLES_AT),
            um_5_particles: read_u16(frame, UM_5_PARTICLES_AT),
            um_10_particles: read_u16(frame, UM_10_PARTICLES_AT),
            tvoc: read_u16(frame, TVOC_AT),
            eco2: read_u16(frame, ECO2_AT),
            reserved: read_u16(frame, RESERVED_AT),
            t_comp: read_u16(frame, T_COMP_AT),
            rh_comp: read_u16(frame, RH_COMP_AT),
            t_raw: read_u16(frame, T_RAW_AT),
            rh_raw: read_u16(frame, RH_RAW_AT),
            rs_0: read_u32(frame, RS_0_AT),
            rs_1: read_u32(frame, RS_1_AT),
            rs_2: read_u32(frame, RS_2_AT),
            rs_3: read_u32(frame, RS_3_AT),
            aqi: frame[AQI_AT],
            reserved_byte: frame[RESERVED_BYTE_AT],
            version: frame[VERSION_AT],
        },
    )
}

impl TryFrom<&[u8; 64]> for Measurement {
    type Error = Error;

    /// Decodes a measurement frame.
    fn try_from(value: &[u8; 64]) -> (result: Result<Measurement, Error>) {
        decode_measurement(value)
    }
}

impl vstd::std_specs::convert::TryFromSpecImpl<&[u8; 64]> for Measurement {
    open spec fn obeys_try_from_spec() -> bool {
        true
    }

    open spec fn try_from_spec(value: &[u8; 64]) -> Result<Measurement, Error> {
        measurement_result(value@)
    }
}

/// The header of a measurement frame is the magic number and the length
/// 60: the 64 bytes of the frame less the four of the header.
pub proof fn lemma_measurement_header(frame: Seq<u8>)
    requires
        frame.len() == MEASUREMENT_LEN,
    ensures
        has_header(frame) <==> frame.take(4) == seq![0x42u8, 0x4D, 0x00, 0x3C],
{
    lemma_header_bytes(frame);
}

/// A measurement frame decodes exactly when its checksum matches, its
/// header is the one of a 64-byte frame and its fault byte is zero; each
/// failure has its own error, and the first in that order is reported.
pub proof fn lemma_measurement_outcomes(frame: Seq<u8>)
    ensures
        measurement_result(frame) is Ok <==> measurement_accepted(frame),
        measurement_accepted(frame) ==> measurement_result(frame) == Ok::<Measurement, Error>(
            measurement_of(frame),
        ),
        measurement_result(frame) matches Err(Error::Checksum { expected, actual })
            <==> !checksum_matches(frame),
        measurement_result(frame) == Err::<Measurement, Error>(Error::InvalidHeader)
            <==> checksum_matches(frame) && !has_header(frame),
        measurement_result(frame) matches Err(Error::Device(code)) <==> checksum_matches(frame)
            && has_header(frame) && frame[DEVICE_ERROR_AT as int] != 0,
        measurement_result(frame) matches Err(Error::Device(code)) ==> code.0
            == frame[DEVICE_ERROR_AT as int] && code.0 != 0,
{
}

/// Decoding is a function of the frame: two decodings of one frame are
/// equal, record for record and error for error.
pub proof fn lemma_measurement_repeatable(
    frame: Seq<u8>,
    first: Result<Measurement, Error>,
    second: Result<Measurement, Error>,
)
    requires
        first == measurement_result(frame),
        second == measurement_result(frame),
    ensures
        first == second,
{
}

/// A measurement frame with one bit inverted never decodes: from a frame
/// whose checksum matches, every single-bit error gives `Error::Checksum`.
pub proof fn lemma_measurement_bit_flip_refused(frame: Seq<u8>, i: int, bit: u8)
    requires
        frame.len() == MEASUREMENT_LEN,
        checksum_matches(frame),
        0 <= i < frame.len(),
        bit < 8,
    ensures
        measurement_result(frame.update(i, flip_bit(frame[i], bit))) matches Err(
            Error::Checksum { expected, actual },
        ) && expected != actual,
{
    lemma_bit_flip_breaks_checksum(frame, i, bit);
}

} // verus!
