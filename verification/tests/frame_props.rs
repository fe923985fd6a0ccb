use ebds::AuxCommand;
use ebds::Error;
use ebds::MessageType;
use ebds::QueryDeviceCapabilitiesCommand;

#[test]
fn from_buf_rejects_short_input_with_length_mismatch() {
    let bytes: [u8; 7] = [0x02, 0x08, 0x60, 0x00, 0x00, 0x0d, 0x03];
    let mut msg = QueryDeviceCapabilitiesCommand::new();
    assert_eq!(msg.from_buf(&bytes), Err(Error::LengthMismatch));
}

#[test]
fn from_buf_rejects_long_input_with_length_mismatch() {
    let bytes: [u8; 9] = [0x02, 0x08, 0x60, 0x00, 0x00, 0x00, 0x0d, 0x03, 0x65];
    let mut msg = QueryDeviceCapabilitiesCommand::new();
    assert_eq!(msg.from_buf(&bytes), Err(Error::LengthMismatch));
}

#[test]
fn from_buf_rejects_wrong_length_byte_with_length_mismatch() {
    // right byte count, but the length byte does not equal the frame size
    let bytes: [u8; 8] = [0x02, 0x09, 0x60, 0x00, 0x00, 0x0d, 0x03, 0x64];
    let mut msg = QueryDeviceCapabilitiesCommand::new();
    assert_eq!(msg.from_buf(&bytes), Err(Error::LengthMismatch));
}

#[test]
fn from_buf_rejects_bad_start_even_with_good_length_and_checksum() {
    // the checksum does not cover byte 0, so 0x65 is still correct here
    let bytes: [u8; 8] = [0x00, 0x08, 0x60, 0x00, 0x00, 0x0d, 0x03, 0x65];
    let mut msg = QueryDeviceCapabilitiesCommand::new();
    assert_eq!(msg.from_buf(&bytes), Err(Error::InvalidStart));
}

#[test]
fn from_buf_rejects_bad_end_marker() {
    let bytes: [u8; 8] = [0x02, 0x08, 0x60, 0x00, 0x00, 0x0d, 0x00, 0x65];
    let mut msg = QueryDeviceCapabilitiesCommand::new();
    assert_eq!(msg.from_buf(&bytes), Err(Error::InvalidEnd));
}

#[test]
fn from_buf_rejects_checksum_off_by_one_bit() {
    let bytes: [u8; 8] = [0x02, 0x08, 0x60, 0x00, 0x00, 0x0d, 0x03, 0x64];
    let mut msg = QueryDeviceCapabilitiesCommand::new();
    assert_eq!(msg.from_buf(&bytes), Err(Error::ChecksumMismatch));
}

#[test]
fn flipping_any_single_bit_in_covered_range_fails_validation() {
    let good: [u8; 8] = [0x02, 0x08, 0x60, 0x00, 0x00, 0x0d, 0x03, 0x65];
    for i in 1..=5usize {
        for k in 0..8u8 {
            let mut bytes = good;
            bytes[i] ^= 1u8 << k;
            let mut msg = QueryDeviceCapabilitiesCommand::new();
            let r = msg.from_buf(&bytes);
            assert!(r.is_err(), "corrupt byte {} bit {} was accepted", i, k);
            if i >= 2 {
                // bytes 2..=5 leave the headers intact: the checksum catches them
                assert_eq!(r, Err(Error::ChecksumMismatch));
            }
        }
    }
}

#[test]
fn setters_always_leave_a_validating_checksum() {
    let mut msg = QueryDeviceCapabilitiesCommand::new();
    msg.set_acknak(true);
    assert!(msg.validate_checksum());
    msg.set_device_type(0x03);
    assert!(msg.validate_checksum());
    msg.set_operational_mode(0x02);
    assert!(msg.validate_checksum());
    msg.set_denomination(0x0f);
    assert!(msg.validate_checksum());
    msg.set_configuration(0x0a);
    assert!(msg.validate_checksum());
    msg.set_address(0x01);
    assert!(msg.validate_checksum());
}

#[test]
fn omnibus_fields_read_back_and_preserve_each_other() {
    let mut msg = QueryDeviceCapabilitiesCommand::new();
    assert!(!msg.acknak());
    assert_eq!(msg.device_type(), 0x00);
    assert_eq!(msg.operational_mode(), 0x00);
    assert_eq!(msg.denomination(), 0x00);
    assert_eq!(msg.configuration(), 0x00);

    msg.set_acknak(true);
    msg.set_device_type(0x03);
    msg.set_operational_mode(0x02);
    msg.set_denomination(0x05);
    msg.set_configuration(0x0a);

    assert!(msg.acknak());
    assert_eq!(msg.device_type(), 0x03);
    assert_eq!(msg.operational_mode(), 0x02);
    assert_eq!(msg.denomination(), 0x05);
    assert_eq!(msg.configuration(), 0x0a);
    assert_eq!(msg.message_type(), MessageType::AuxCommand);
    assert_eq!(msg.aux_command(), AuxCommand::QueryDeviceCapabilities);

    // data byte A = 0b0010_0111, data byte B = 0b1010_0101
    assert_eq!(
        msg.as_bytes(),
        &[0x02, 0x08, 0x60, 0x27, 0xa5, 0x0d, 0x03, 0xe7]
    );
}

#[test]
fn set_denomination_recomputes_exact_checksum() {
    let mut msg = QueryDeviceCapabilitiesCommand::new();
    msg.set_denomination(0x05);
    assert_eq!(
        msg.as_bytes(),
        &[0x02, 0x08, 0x60, 0x00, 0x05, 0x0d, 0x03, 0x60]
    );
}

#[test]
fn recompute_checksum_is_idle_on_a_well_formed_command() {
    let mut msg = QueryDeviceCapabilitiesCommand::new();
    msg.set_configuration(0x0a);
    let before: Vec<u8> = msg.as_bytes().to_vec();
    msg.recompute_checksum();
    assert_eq!(msg.as_bytes(), before.as_slice());
    assert!(msg.validate_checksum());
}

#[test]
fn message_type_catalog_is_total_and_reproduces_every_byte() {
    for b in 0..=255u8 {
        let t = MessageType::from_code(b);
        assert_eq!(t.code(), b);
        if b == 0x06 {
            assert_eq!(t, MessageType::AuxCommand);
        } else {
            assert_eq!(t, MessageType::Unrecognized(b));
        }
    }
}

#[test]
fn aux_command_catalog_is_total_and_reproduces_every_byte() {
    for b in 0..=255u8 {
        let c = AuxCommand::from_byte(b);
        assert_eq!(c.to_byte(), b);
        if b == 0x0d {
            assert_eq!(c, AuxCommand::QueryDeviceCapabilities);
        } else if b == 0x0e {
            assert_eq!(c, AuxCommand::QueryApplicationId);
        } else {
            assert_eq!(c, AuxCommand::Unrecognized(b));
        }
    }
}

#[test]
fn known_catalog_variants_round_trip() {
    assert_eq!(
        AuxCommand::from_byte(AuxCommand::QueryDeviceCapabilities.to_byte()),
        AuxCommand::QueryDeviceCapabilities
    );
    assert_eq!(
        AuxCommand::from_byte(AuxCommand::QueryApplicationId.to_byte()),
        AuxCommand::QueryApplicationId
    );
    assert_eq!(
        MessageType::from_code(MessageType::AuxCommand.code()),
        MessageType::AuxCommand
    );
}
