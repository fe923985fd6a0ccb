//! The command catalog: closed, forward-compatible mappings between protocol
//! byte codes and named message classes or auxiliary-command subtypes.
//!
//! Both mappings are total in the byte-to-name direction: a code this library
//! does not name decodes to an explicit `Unrecognized` variant carrying the
//! raw byte, never to an error, so newer device firmware cannot break an
//! older decoder. Mapping a name back to its byte reproduces the byte.

use vstd::prelude::*;

verus! {

/// The top-level category of a message, packed into the control byte's class
/// bits. A class code this library does not name is kept as `Unrecognized`
/// with the raw code.
#[derive(Clone, Copy, Debug, PartialEq, Eq, Structural)]
pub enum MessageType {
    /// An auxiliary command: a frame carrying a one-byte command subtype.
    AuxCommand,
    /// A class code with no name here; the raw code is kept.
    Unrecognized(u8),
}

/// The class code of an auxiliary command.
pub const AUX_COMMAND_CODE: u8 = 0x06;

/// The byte code a message class encodes to.
pub open spec fn spec_message_type_code(t: MessageType) -> u8 {
    match t {
        MessageType::AuxCommand => AUX_COMMAND_CODE,
        MessageType::Unrecognized(b) => b,
    }
}

/// The message class a byte code decodes to; total over all bytes.
pub open spec fn spec_message_type_from_code(c: u8) -> MessageType {
    if c == AUX_COMMAND_CODE {
        MessageType::AuxCommand
    } else {
        MessageType::Unrecognized(c)
    }
}

impl MessageType {
    /// The byte code this class encodes to.
    pub fn code(&self) -> (c: u8)
        ensures
            c == spec_message_type_code(*self),
    {
        match self {
            MessageType::AuxCommand => AUX_COMMAND_CODE,
            MessageType::Unrecognized(b) => *b,
        }
    }

    /// Decodes a byte code; never fails, an unknown code is kept as
    /// `Unrecognized`.
    pub fn from_code(c: u8) -> (t: MessageType)
        ensures
            t == spec_message_type_from_code(c),
    {
        if c == AUX_COMMAND_CODE {
            MessageType::AuxCommand
        } else {
            MessageType::Unrecognized(c)
        }
    }
}

/// The specific command within the auxiliary-command class, identified by a
/// one-byte code at a fixed offset of the frame. A code this library does not
/// name is kept as `Unrecognized` with the raw byte.
#[derive(Clone, Copy, Debug, PartialEq, Eq, Structural)]
pub enum AuxCommand {
    /// Queries the device capabilities map.
    QueryDeviceCapabilities,
    /// Queries the part number of the application component of the firmware.
    QueryApplicationId,
    /// A subtype byte with no name here; the raw byte is kept.
    Unrecognized(u8),
}

/// The subtype byte of a Query Device Capabilities command.
pub const QUERY_DEVICE_CAPABILITIES_BYTE: u8 = 0x0D;

/// The subtype byte of a Query Application Id command.
pub const QUERY_APPLICATION_ID_BYTE: u8 = 0x0E;

/// The byte an auxiliary-command subtype encodes to.
pub open spec fn spec_aux_command_byte(c: AuxCommand) -> u8 {
    match c {
        AuxCommand::QueryDeviceCapabilities => QUERY_DEVICE_CAPABILITIES_BYTE,
        AuxCommand::QueryApplicationId => QUERY_APPLICATION_ID_BYTE,
        AuxCommand::Unrecognized(b) => b,
    }
}

/// The auxiliary-command subtype a byte decodes to; total over all bytes.
pub open spec fn spec_aux_command_from_byte(b: u8) -> AuxCommand {
    if b == QUERY_DEVICE_CAPABILITIES_BYTE {
        AuxCommand::QueryDeviceCapabilities
    } else if b == QUERY_APPLICATION_ID_BYTE {
        AuxCommand::QueryApplicationId
    } else {
        AuxCommand::Unrecognized(b)
    }
}

impl AuxCommand {
    /// The byte this subtype encodes to.
    pub fn to_byte(&self) -> (b: u8)
        ensures
            b == spec_aux_command_byte(*self),
    {
        match self {
            AuxCommand::QueryDeviceCapabilities => QUERY_DEVICE_CAPABILITIES_BYTE,
            AuxCommand::QueryApplicationId => QUERY_APPLICATION_ID_BYTE,
            AuxCommand::Unrecognized(b) => *b,
        }
    }

    /// Decodes a subtype byte; never fails, an unknown byte is kept as
    /// `Unrecognized`.
    pub fn from_byte(b: u8) -> (c: AuxCommand)
        ensures
            c == spec_aux_command_from_byte(b),
    {
        if b == QUERY_DEVICE_CAPABILITIES_BYTE {
            AuxCommand::QueryDeviceCapabilities
        } else if b == QUERY_APPLICATION_ID_BYTE {
            AuxCommand::QueryApplicationId
        } else {
            AuxCommand::Unrecognized(b)
        }
    }
}

/// The catalog is total and loses no information: decoding any byte as a
/// message class and encoding the class again reproduces the byte.
pub proof fn lemma_message_type_total(b: u8)
    ensures
        spec_message_type_code(spec_message_type_from_code(b)) == b,
{
}

/// Encoding a named message class and decoding the byte again reproduces the
/// class.
pub proof fn lemma_message_type_round_trip(t: MessageType)
    requires
        !(t is Unrecognized),
    ensures
        spec_message_type_from_code(spec_message_type_code(t)) == t,
{
}

/// The catalog is total and loses no information: decoding any byte as an
/// auxiliary-command subtype and encoding the subtype again reproduces the
/// byte.
pub proof fn lemma_aux_command_total(b: u8)
    ensures
        spec_aux_command_byte(spec_aux_command_from_byte(b)) == b,
{
}

/// Encoding a named auxiliary-command subtype and decoding the byte again
/// reproduces the subtype.
pub proof fn lemma_aux_command_round_trip(c: AuxCommand)
    requires
        !(c is Unrecognized),
    ensures
        spec_aux_command_from_byte(spec_aux_command_byte(c)) == c,
{
}

} // verus!
