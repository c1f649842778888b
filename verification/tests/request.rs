use apc1_core::checksum::checksum;
use apc1_core::request::calculate_checksum;
use apc1_core::wire::{read_u16, read_u32, read_u64, write_u16};
use apc1_core::{i2c, uart};

#[test]
fn i2c_reset_frame() {
    let frame = i2c::Command::Reset.to_bytes();
    let sum: u16 = 0x42 + 0x4D + 0xE4 + 0x00 + 0x0F;
    assert_eq!(sum, 386);
    assert_eq!(frame, [0x42, 0x4D, 0xE4, 0x00, 0x0F, (sum >> 8) as u8, (sum & 0xFF) as u8]);
    assert_eq!(frame, [0x42, 0x4D, 0xE4, 0x00, 0x0F, 0x01, 0x82]);
}

#[test]
fn i2c_frames_of_every_command() {
    assert_eq!(i2c::Command::SetIdleMode.to_bytes(), [66, 77, 228, 0, 0, 1, 115]);
    assert_eq!(i2c::Command::SetActiveMode.to_bytes(), [66, 77, 228, 0, 1, 1, 116]);
    assert_eq!(i2c::Command::Reset.to_bytes(), [66, 77, 228, 0, 15, 1, 130]);
    assert_eq!(i2c::Command::ReadModuleId.to_bytes(), [66, 77, 233, 0, 0, 1, 120]);
}

#[test]
fn uart_frames_of_every_command() {
    assert_eq!(uart::Command::SetActiveMeasurement.to_bytes(), [66, 77, 225, 0, 1, 1, 113]);
    assert_eq!(uart::Command::SetPassiveMeasurement.to_bytes(), [66, 77, 225, 0, 0, 1, 112]);
    assert_eq!(uart::Command::RequestMeasurement.to_bytes(), [66, 77, 226, 0, 0, 1, 113]);
    assert_eq!(uart::Command::SetIdleMode.to_bytes(), [66, 77, 228, 0, 0, 1, 115]);
    assert_eq!(uart::Command::SetActiveMode.to_bytes(), [66, 77, 228, 0, 1, 1, 116]);
    assert_eq!(uart::Command::ReadModuleId.to_bytes(), [66, 77, 233, 0, 0, 1, 120]);
}

#[test]
fn shared_commands_have_the_same_frame_on_both_variants() {
    assert_eq!(i2c::Command::SetIdleMode.to_bytes(), uart::Command::SetIdleMode.to_bytes());
    assert_eq!(i2c::Command::SetActiveMode.to_bytes(), uart::Command::SetActiveMode.to_bytes());
    assert_eq!(i2c::Command::ReadModuleId.to_bytes(), uart::Command::ReadModuleId.to_bytes());
}

#[test]
fn every_command_frame_carries_the_checksum_of_its_payload() {
    let frames = [
        i2c::Command::SetIdleMode.to_bytes(),
        i2c::Command::SetActiveMode.to_bytes(),
        i2c::Command::Reset.to_bytes(),
        i2c::Command::ReadModuleId.to_bytes(),
        uart::Command::SetActiveMeasurement.to_bytes(),
        uart::Command::SetPassiveMeasurement.to_bytes(),
        uart::Command::RequestMeasurement.to_bytes(),
        uart::Command::SetIdleMode.to_bytes(),
        uart::Command::SetActiveMode.to_bytes(),
        uart::Command::ReadModuleId.to_bytes(),
    ];
    for frame in frames.iter() {
        assert_eq!(checksum(&frame[0..5]).to_be_bytes(), [frame[5], frame[6]]);
        assert_eq!(calculate_checksum(&frame[0..5]), [frame[5], frame[6]]);
        assert_eq!(frame[0], 0x42);
        assert_eq!(frame[1], 0x4D);
        assert_eq!(frame[3], 0);
    }
}

#[test]
fn checksum_of_known_bytes() {
    assert_eq!(checksum(&[]), 0);
    assert_eq!(checksum(&[0]), 0);
    assert_eq!(checksum(&[255]), 255);
    assert_eq!(checksum(&[255, 1]), 256);
    assert_eq!(checksum(&[0x42, 0x4D, 0xE4, 0x00, 0x0F]), 386);
}

#[test]
fn checksum_wraps_without_saturating() {
    let bytes = [255_u8; 300];
    // 300 * 255 = 76500 = 65536 + 10964
    assert_eq!(checksum(&bytes), 10964);
    let bytes = [255_u8; 257];
    // 257 * 255 = 65535: the largest sum that does not wrap
    assert_eq!(checksum(&bytes), 65535);
    let mut bytes = vec![255_u8; 257];
    bytes.push(1);
    assert_eq!(checksum(&bytes), 0);
}

#[test]
fn checksum_does_not_see_the_order_of_bytes() {
    assert_eq!(checksum(&[1, 2, 3, 250]), checksum(&[250, 3, 2, 1]));
    assert_eq!(checksum(&[1, 2, 3, 250]), checksum(&[1, 250, 3, 2]));
    assert_eq!(checksum(&[1, 2, 3, 250]), 256);
}

#[test]
fn calculate_checksum_is_big_endian() {
    assert_eq!(calculate_checksum(&[0x42, 0x4D, 0xE4, 0x00, 0x0F]), [0x01, 0x82]);
    assert_eq!(calculate_checksum(&[1]), [0, 1]);
    assert_eq!(calculate_checksum(&[255, 255, 255]), [0x02, 0xFD]);
}

#[test]
fn big_endian_fields() {
    let bytes = [0x01, 0x02, 0x03, 0x04, 0x05, 0x06, 0x07, 0x08, 0xFF];
    assert_eq!(read_u16(&bytes, 0), 0x0102);
    assert_eq!(read_u16(&bytes, 7), 0x08FF);
    assert_eq!(read_u32(&bytes, 1), 0x0203_0405);
    assert_eq!(read_u64(&bytes, 0), 0x0102_0304_0506_0708);
    assert_eq!(read_u64(&bytes, 1), 0x0203_0405_0607_08FF);
    assert_eq!(read_u64(&[0xFF; 8], 0), u64::MAX);
    assert_eq!(write_u16(0x0102), [1, 2]);
    assert_eq!(write_u16(0xFF00), [0xFF, 0]);
    assert_eq!(write_u16(2107), [8, 59]);
}

#[test]
fn i2c_register_plan() {
    let writes = i2c::Command::ReadModuleId.register_writes();
    assert_eq!(
        writes,
        [
            (0x40, 66),
            (0x41, 77),
            (0x42, 233),
            (0x43, 0),
            (0x44, 0),
            (0x45, 1),
            (0x46, 120)
        ]
    );
    let registers = i2c::module_registers();
    assert_eq!(registers.len(), 23);
    for (index, register) in registers.iter().enumerate() {
        assert_eq!(*register, 0x47 + index as u8);
    }
    assert_eq!(registers[22], 0x5D);
}

#[test]
fn wire_constants() {
    assert_eq!(i2c::DEVICE_ADDR, 0x12);
    assert_eq!(i2c::SCLK_FREQUENCY, 100);
    assert_eq!(i2c::COMMAND_BASE_ADDR, 0x40);
    assert_eq!(uart::BAUD_RATE, 9600);
    assert_eq!(uart::DATA_BITS, 8);
    assert_eq!(uart::STOP_BIT, 1);
}
