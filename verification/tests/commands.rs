use ebds::AuxCommand;
use ebds::Error;
use ebds::MessageType;
use ebds::QueryApplicationIdCommand;
use ebds::QueryDeviceCapabilitiesCommand;

#[test]
fn test_query_application_id_command_from_buf() {
    let msg_bytes: [u8; 8] = [
        // STX | LEN | Message Type
        0x02, 0x08, 0x60, // Data
        0x00, 0x00, // Command
        0x0e, // ETX | Checksum
        0x03, 0x66,
    ];

    let mut msg = QueryApplicationIdCommand::new();
    msg.from_buf(msg_bytes.as_ref()).unwrap();

    assert_eq!(msg.message_type(), MessageType::AuxCommand);
    assert_eq!(msg.aux_command(), AuxCommand::QueryApplicationId);
}

#[test]
fn test_query_device_capabilities_command_from_buf() {
    let msg_bytes: [u8; 8] = [
        // STX | LEN | Message Type
        0x02, 0x08, 0x60, // Data
        0x00, 0x00, // Command
        0x0d, // ETX | Checksum
        0x03, 0x65,
    ];

    let mut msg = QueryDeviceCapabilitiesCommand::new();
    msg.from_buf(msg_bytes.as_ref()).unwrap();

    assert_eq!(msg.message_type(), MessageType::AuxCommand);
    assert_eq!(msg.aux_command(), AuxCommand::QueryDeviceCapabilities);
}

#[test]
fn new_query_device_capabilities_serializes_to_documented_bytes() {
    let msg = QueryDeviceCapabilitiesCommand::new();
    assert_eq!(
        msg.as_bytes(),
        &[0x02, 0x08, 0x60, 0x00, 0x00, 0x0d, 0x03, 0x65]
    );
    assert_eq!(msg.checksum(), 0x65);
    assert!(msg.validate_checksum());
}

#[test]
fn new_query_application_id_serializes_to_documented_bytes() {
    let msg = QueryApplicationIdCommand::new();
    assert_eq!(
        msg.as_bytes(),
        &[0x02, 0x08, 0x60, 0x00, 0x00, 0x0e, 0x03, 0x66]
    );
    assert_eq!(msg.checksum(), 0x66);
    assert!(msg.validate_checksum());
}

#[test]
fn scenario_query_device_capabilities_decodes() {
    let bytes: [u8; 8] = [0x02, 0x08, 0x60, 0x00, 0x00, 0x0d, 0x03, 0x65];
    let mut msg = QueryDeviceCapabilitiesCommand::new();
    msg.from_buf(&bytes).unwrap();
    assert_eq!(msg.message_type(), MessageType::AuxCommand);
    assert_eq!(msg.aux_command(), AuxCommand::QueryDeviceCapabilities);
}

#[test]
fn scenario_query_application_id_decodes() {
    let bytes: [u8; 8] = [0x02, 0x08, 0x60, 0x00, 0x00, 0x0e, 0x03, 0x66];
    let mut msg = QueryApplicationIdCommand::new();
    msg.from_buf(&bytes).unwrap();
    assert_eq!(msg.aux_command(), AuxCommand::QueryApplicationId);
}

#[test]
fn scenario_zeroed_checksum_is_rejected() {
    let bytes: [u8; 8] = [0x02, 0x08, 0x60, 0x00, 0x00, 0x0d, 0x03, 0x00];
    let mut msg = QueryDeviceCapabilitiesCommand::new();
    assert_eq!(msg.from_buf(&bytes), Err(Error::ChecksumMismatch));
    // the failed decode leaves the command exactly as it was
    assert_eq!(
        msg.as_bytes(),
        &[0x02, 0x08, 0x60, 0x00, 0x00, 0x0d, 0x03, 0x65]
    );
}

#[test]
fn scenario_unused_subtype_decodes_as_unrecognized() {
    // subtype 0xFF with the checksum recomputed accordingly: 0x65 ^ 0x0D ^ 0xFF
    let bytes: [u8; 8] = [0x02, 0x08, 0x60, 0x00, 0x00, 0xff, 0x03, 0x97];
    let mut msg = QueryDeviceCapabilitiesCommand::new();
    msg.from_buf(&bytes).unwrap();
    assert_eq!(msg.message_type(), MessageType::AuxCommand);
    assert_eq!(msg.aux_command(), AuxCommand::Unrecognized(0xff));
}

#[test]
fn round_trip_query_device_capabilities() {
    let x = QueryDeviceCapabilitiesCommand::new();
    let mut y = QueryDeviceCapabilitiesCommand::new();
    y.set_denomination(0x05);
    y.set_acknak(true);
    assert_ne!(x, y);
    y.from_buf(x.as_bytes()).unwrap();
    assert_eq!(x, y);
}

#[test]
fn round_trip_query_application_id() {
    let mut x = QueryApplicationIdCommand::new();
    x.set_address(0x03);
    let mut y = QueryApplicationIdCommand::new();
    assert_ne!(x, y);
    y.from_buf(x.as_bytes()).unwrap();
    assert_eq!(x, y);
}

#[test]
fn set_address_keeps_class_and_recomputes_checksum() {
    let mut msg = QueryDeviceCapabilitiesCommand::new();
    msg.set_address(0x05);
    assert_eq!(msg.address(), 0x05);
    assert_eq!(msg.message_type(), MessageType::AuxCommand);
    assert_eq!(
        msg.as_bytes(),
        &[0x02, 0x08, 0x65, 0x00, 0x00, 0x0d, 0x03, 0x60]
    );
    assert!(msg.validate_checksum());
}
