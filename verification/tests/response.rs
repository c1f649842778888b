use apc1_core::{Error, Measurement, Module};

#[test]
fn try_from_valid_measurement() {
    let valid_measurement: &[u8; 64] = &[
        66, 77, 0, 60, 0, 0, 0, 0, 0, 0, 0, 0, 0, 0, 0, 0, 1, 80, 0, 100, 0, 20, 0, 10, 0, 0, 0,
        0, 0, 37, 1, 173, 0, 1, 0, 202, 2, 69, 0, 251, 1, 181, 0, 3, 101, 146, 0, 0, 0, 1, 0, 12,
        19, 208, 0, 0, 147, 102, 1, 0, 35, 0, 8, 59,
    ];

    let measurement: Measurement = valid_measurement.try_into().unwrap();
    assert_eq!(measurement.aqi, 1);
}

#[test]
fn try_from_measurement_invalid_checksum() {
    // Same measurement as above with one byte incremented by 1.
    let invalid_measurement: &[u8; 64] = &[
        66, 77, 0, 60, 0, 0, 0, 0, 0, 0, 0, 1, 0, 0, 0, 0, 1, 80, 0, 100, 0, 20, 0, 10, 0, 0, 0,
        0, 0, 37, 1, 173, 0, 1, 0, 202, 2, 69, 0, 251, 1, 181, 0, 3, 101, 146, 0, 0, 0, 1, 0, 12,
        19, 208, 0, 0, 147, 102, 1, 0, 35, 0, 8, 59,
    ];
    let actual = Measurement::try_from(invalid_measurement);
    let expected = Err(Error::Checksum {
        expected: 2107,
        actual: 2108,
    });

    assert_eq!(actual, expected);
}

#[test]
fn try_from_measurement_invalid_header() {
    // Invalid header with a miraculously correct checksum
    let invalid_measurement: &[u8; 64] = &[
        77, 66, 0, 23, 0, 0, 0, 0, 0, 0, 0, 0, 0, 0, 0, 0, 1, 80, 0, 100, 0, 20, 0, 10, 0, 0, 0,
        0, 0, 37, 1, 173, 0, 1, 0, 202, 2, 69, 0, 251, 1, 181, 0, 3, 101, 146, 0, 0, 0, 1, 0, 12,
        19, 208, 0, 0, 147, 102, 1, 0, 35, 0, 8, 22,
    ];
    let actual = Measurement::try_from(invalid_measurement);
    let expected = Err(Error::InvalidHeader);

    assert_eq!(actual, expected);
}

#[test]
fn try_from_module_valid() {
    let valid_module: &[u8; 23] = &[
        66, 77, 0, 19, 65, 80, 67, 49, 45, 73, 8, 110, 169, 135, 242, 77, 68, 134, 45, 0, 35, 6,
        28,
    ];
    let actual: Module = valid_module.try_into().unwrap();
    assert_eq!(actual.name_and_type, "APC1-I");
    assert_eq!(actual.serial_number, 607609401092424838_u64);
    assert_eq!(actual.delimiter, '-');
    assert_eq!(actual.fw_version_major, 0);
    assert_eq!(actual.fw_version_minor, 35);
}

#[test]
fn try_from_module_invalid_checksum() {
    // Same module as above with one byte incremented by 1.
    let invalid_module: &[u8; 23] = &[
        66, 77, 0, 19, 65, 80, 67, 49, 46, 73, 8, 110, 169, 135, 242, 77, 68, 134, 45, 0, 35, 6,
        28,
    ];
    let actual = Module::try_from(invalid_module);
    let expected = Err(Error::Checksum {
        expected: 1564,
        actual: 1565,
    });

    assert_eq!(actual, expected);
}

#[test]
fn try_from_module_invalid_header() {
    // Correct checksum, incorrect header
    let invalid_module: &[u8; 23] = &[
        67, 77, 0, 19, 65, 80, 67, 49, 46, 73, 8, 110, 169, 135, 242, 77, 68, 134, 45, 0, 35, 6,
        30,
    ];
    let actual = Module::try_from(invalid_module);
    let expected = Err(Error::InvalidHeader);

    assert_eq!(actual, expected);
}

const VALID_MEASUREMENT: [u8; 64] = [
    66, 77, 0, 60, 0, 0, 0, 0, 0, 0, 0, 0, 0, 0, 0, 0, 1, 80, 0, 100, 0, 20, 0, 10, 0, 0, 0, 0, 0,
    37, 1, 173, 0, 1, 0, 202, 2, 69, 0, 251, 1, 181, 0, 3, 101, 146, 0, 0, 0, 1, 0, 12, 19, 208, 0,
    0, 147, 102, 1, 0, 35, 0, 8, 59,
];

const DISTINCT_MEASUREMENT: [u8; 64] = [
    66, 77, 0, 60, 31, 38, 45, 52, 59, 66, 73, 80, 87, 94, 101, 108, 115, 122, 129, 136, 143, 150,
    157, 164, 171, 178, 185, 192, 199, 206, 213, 220, 227, 234, 241, 248, 255, 6, 13, 20, 27, 34,
    41, 48, 55, 62, 69, 76, 83, 90, 97, 104, 111, 118, 125, 132, 139, 146, 153, 160, 167, 0, 27,
    86,
];

const VALID_MODULE: [u8; 23] = [
    66, 77, 0, 19, 65, 80, 67, 49, 45, 73, 8, 110, 169, 135, 242, 77, 68, 134, 45, 0, 35, 6, 28,
];

/// Writes the sum of all bytes but the last two into the last two.
fn reseal(frame: &mut [u8]) {
    let end = frame.len() - 2;
    let mut sum: u32 = 0;
    for byte in &frame[..end] {
        sum = (sum + u32::from(*byte)) % 65536;
    }
    frame[end] = (sum / 256) as u8;
    frame[end + 1] = (sum % 256) as u8;
}

#[test]
fn measurement_every_field_of_the_sample_frame() {
    let measurement = Measurement::try_from(&VALID_MEASUREMENT).unwrap();
    let expected = Measurement {
        pm1_0: 0,
        pm2_5: 0,
        pm10: 0,
        pm1_0_in_air: 0,
        pm2_5_in_air: 0,
        pm10_in_air: 0,
        um_0_3_particles: 336,
        um_0_5_particles: 100,
        um_1_particles: 20,
        um_2_5_particles: 10,
        um_5_particles: 0,
        um_10_particles: 0,
        tvoc: 37,
        eco2: 429,
        reserved: 1,
        t_comp: 202,
        rh_comp: 581,
        t_raw: 251,
        rh_raw: 437,
        rs_0: 222610,
        rs_1: 1,
        rs_2: 791504,
        rs_3: 37734,
        aqi: 1,
        reserved_byte: 0,
        version: 35,
    };
    assert_eq!(measurement, expected);
}

#[test]
fn measurement_fields_are_sequential_and_do_not_overlap() {
    let measurement = apc1_core::response::measurement::decode_measurement(&DISTINCT_MEASUREMENT)
        .unwrap();
    let expected = Measurement {
        pm1_0: 7974,
        pm2_5: 11572,
        pm10: 15170,
        pm1_0_in_air: 18768,
        pm2_5_in_air: 22366,
        pm10_in_air: 25964,
        um_0_3_particles: 29562,
        um_0_5_particles: 33160,
        um_1_particles: 36758,
        um_2_5_particles: 40356,
        um_5_particles: 43954,
        um_10_particles: 47552,
        tvoc: 51150,
        eco2: 54748,
        reserved: 58346,
        t_comp: 61944,
        rh_comp: 65286,
        t_raw: 3348,
        rh_raw: 6946,
        rs_0: 691025726,
        rs_1: 1162629978,
        rs_2: 1634234230,
        rs_3: 2105838482,
        aqi: 153,
        reserved_byte: 160,
        version: 167,
    };
    assert_eq!(measurement, expected);
    // Bytes 12 and 13 differ, so the field is read from both.
    assert_eq!(measurement.pm2_5_in_air, 87 * 256 + 94);
}

#[test]
fn measurement_with_fault_byte_is_a_device_error() {
    let mut frame = VALID_MEASUREMENT;
    frame[61] = 0x08;
    reseal(&mut frame);
    let actual = Measurement::try_from(&frame);
    assert_eq!(actual, Err(Error::Device(apc1_core::DeviceErrorCode(0x08))));
    match actual {
        Err(Error::Device(code)) => {
            assert!(code.fan_stopped());
            assert!(!code.laser());
        }
        _ => panic!("expected a device error"),
    }
}

#[test]
fn measurement_checksum_is_judged_before_header_and_fault() {
    let mut frame = VALID_MEASUREMENT;
    frame[0] = 0;
    frame[61] = 0x40;
    // The checksum field still holds 2107; the content now sums to 2105.
    assert_eq!(
        Measurement::try_from(&frame),
        Err(Error::Checksum {
            expected: 2107,
            actual: 2105,
        })
    );
}

#[test]
fn measurement_header_is_judged_before_fault() {
    let mut frame = VALID_MEASUREMENT;
    frame[3] = 61;
    frame[61] = 0x40;
    reseal(&mut frame);
    assert_eq!(Measurement::try_from(&frame), Err(Error::InvalidHeader));
}

#[test]
fn measurement_header_declares_the_length_of_the_frame() {
    // The header of a module frame on a measurement frame is refused.
    let mut frame = VALID_MEASUREMENT;
    frame[3] = 19;
    reseal(&mut frame);
    assert_eq!(Measurement::try_from(&frame), Err(Error::InvalidHeader));
    // So is a length with its high byte set.
    let mut frame = VALID_MEASUREMENT;
    frame[2] = 1;
    reseal(&mut frame);
    assert_eq!(Measurement::try_from(&frame), Err(Error::InvalidHeader));
    // And a wrong second magic byte.
    let mut frame = VALID_MEASUREMENT;
    frame[1] = 78;
    reseal(&mut frame);
    assert_eq!(Measurement::try_from(&frame), Err(Error::InvalidHeader));
}

#[test]
fn measurement_checksum_wraps_at_sixteen_bits() {
    let mut frame = [0xFF_u8; 64];
    frame[0] = 66;
    frame[1] = 77;
    frame[2] = 0;
    frame[3] = 60;
    frame[61] = 0;
    // 57 bytes of 0xFF and the header: 14535 + 203 = 14738.
    frame[62] = (14738_u16 / 256) as u8;
    frame[63] = (14738_u16 % 256) as u8;
    let measurement = Measurement::try_from(&frame).unwrap();
    assert_eq!(measurement.pm1_0, 0xFFFF);
    assert_eq!(measurement.rs_3, 0xFFFF_FFFF);
    assert_eq!(measurement.version, 0xFF);
}

#[test]
fn decoding_twice_gives_equal_records() {
    let first = Measurement::try_from(&DISTINCT_MEASUREMENT);
    let second = Measurement::try_from(&DISTINCT_MEASUREMENT);
    assert!(first.is_ok());
    assert_eq!(first, second);
    let first = Module::try_from(&VALID_MODULE);
    let second = Module::try_from(&VALID_MODULE);
    assert!(first.is_ok());
    assert_eq!(first, second);
    let mut refused = VALID_MODULE;
    refused[5] = 0;
    assert_eq!(Module::try_from(&refused), Module::try_from(&refused));
}

#[test]
fn every_single_bit_flip_of_a_measurement_frame_is_a_checksum_error() {
    for index in 0..64 {
        for bit in 0..8 {
            let mut frame = DISTINCT_MEASUREMENT;
            frame[index] ^= 1 << bit;
            match Measurement::try_from(&frame) {
                Err(Error::Checksum { expected, actual }) => assert_ne!(expected, actual),
                other => panic!("byte {index} bit {bit}: {other:?}"),
            }
        }
    }
}

#[test]
fn every_single_bit_flip_of_a_module_frame_is_a_checksum_error() {
    for index in 0..23 {
        for bit in 0..8 {
            let mut frame = VALID_MODULE;
            frame[index] ^= 1 << bit;
            match Module::try_from(&frame) {
                Err(Error::Checksum { expected, actual }) => assert_ne!(expected, actual),
                other => panic!("byte {index} bit {bit}: {other:?}"),
            }
        }
    }
}

#[test]
fn transposed_bytes_pass_the_checksum() {
    // Exchanging the two bytes of a field leaves the sum as it was: the
    // frame decodes, to another value.
    let mut frame = VALID_MEASUREMENT;
    frame.swap(16, 17);
    let measurement = Measurement::try_from(&frame).unwrap();
    assert_eq!(measurement.um_0_3_particles, 80 * 256 + 1);
    // Exchanging the magic bytes shows in the header, not in the checksum.
    let mut frame = VALID_MEASUREMENT;
    frame.swap(0, 1);
    assert_eq!(Measurement::try_from(&frame), Err(Error::InvalidHeader));
}

#[test]
fn module_decode_is_try_from() {
    let decoded = apc1_core::response::module::decode_module(&VALID_MODULE).unwrap();
    assert_eq!(decoded, Module::try_from(&VALID_MODULE).unwrap());
    assert_eq!(
        decoded,
        Module {
            name_and_type: String::from("APC1-I"),
            serial_number: 607609401092424838,
            delimiter: '-',
            fw_version_major: 0,
            fw_version_minor: 35,
        }
    );
}

#[test]
fn module_name_bytes_pass_through_uninterpreted() {
    let mut frame = VALID_MODULE;
    frame[4] = 0x00;
    frame[5] = 0x7F;
    frame[6] = 0xE9;
    frame[7] = 0xFF;
    frame[18] = 0xB0;
    reseal(&mut frame);
    let module = Module::try_from(&frame).unwrap();
    let name: Vec<char> = module.name_and_type.chars().collect();
    assert_eq!(name, vec!['\u{0}', '\u{7f}', '\u{e9}', '\u{ff}', '-', 'I']);
    assert_eq!(module.delimiter, '\u{b0}');
}

#[test]
fn module_serial_number_is_big_endian() {
    let mut frame = VALID_MODULE;
    for (offset, byte) in [1_u8, 2, 3, 4, 5, 6, 7, 8].iter().enumerate() {
        frame[10 + offset] = *byte;
    }
    frame[19] = 2;
    frame[20] = 7;
    reseal(&mut frame);
    let module = Module::try_from(&frame).unwrap();
    assert_eq!(module.serial_number, 0x0102_0304_0506_0708);
    assert_eq!(module.fw_version_major, 2);
    assert_eq!(module.fw_version_minor, 7);
}

#[test]
fn module_frame_has_no_fault_byte() {
    // Every byte between header and checksum is data: none of them makes a
    // device error.
    let mut frame = [0xFF_u8; 23];
    frame[0] = 66;
    frame[1] = 77;
    frame[2] = 0;
    frame[3] = 19;
    reseal(&mut frame);
    let module = Module::try_from(&frame).unwrap();
    assert_eq!(module.serial_number, u64::MAX);
}

#[test]
fn module_header_of_a_measurement_frame_is_refused() {
    let mut frame = VALID_MODULE;
    frame[3] = 60;
    reseal(&mut frame);
    assert_eq!(Module::try_from(&frame), Err(Error::InvalidHeader));
}

#[test]
fn device_error_code_flags_are_independent() {
    let flags: [(u8, fn(&apc1_core::DeviceErrorCode) -> bool); 7] = [
        (0x01, apc1_core::DeviceErrorCode::fan_restarts),
        (0x02, apc1_core::DeviceErrorCode::fan_speed_low),
        (0x04, apc1_core::DeviceErrorCode::photodiode),
        (0x08, apc1_core::DeviceErrorCode::fan_stopped),
        (0x10, apc1_core::DeviceErrorCode::laser),
        (0x20, apc1_core::DeviceErrorCode::voc_sensor),
        (0x40, apc1_core::DeviceErrorCode::temperature_humidity_sensor),
    ];
    for bits in 0..=255_u8 {
        let code = apc1_core::DeviceErrorCode(bits);
        for (mask, flag) in flags.iter() {
            assert_eq!(flag(&code), bits & mask != 0, "bits {bits:#x} mask {mask:#x}");
        }
    }
}

#[test]
fn device_error_code_unused_bit_sets_no_flag() {
    let code = apc1_core::DeviceErrorCode(0x80);
    assert!(!code.fan_restarts());
    assert!(!code.fan_speed_low());
    assert!(!code.photodiode());
    assert!(!code.fan_stopped());
    assert!(!code.laser());
    assert!(!code.voc_sensor());
    assert!(!code.temperature_humidity_sensor());
    // The frame that carries it is still a device error.
    let mut frame = VALID_MEASUREMENT;
    frame[61] = 0x80;
    reseal(&mut frame);
    assert_eq!(Measurement::try_from(&frame), Err(Error::Device(code)));
}
