//! Query Device Capabilities - Command (Subtype `0x0D`)
//!
//! Queries the device capabilities map. In general this command should only
//! be sent to devices that have indicated support by setting the device
//! capabilities bit in a standard poll reply.
//!
//! The frame is formatted as follows:
//!
//! | Name  | STX  | LEN  | CTRL | Data A | Data B | Command | ETX  | CHK |
//! |:------|:----:|:----:|:----:|:------:|:------:|:-------:|:----:|:---:|
//! | Byte  | 0    | 1    | 2    | 3      | 4      | 5       | 6    | 7   |
//! | Value | 0x02 | 0x08 | 0x6n | 0x00   | 0x00   | 0x0D    | 0x03 | zz  |

use vstd::prelude::*;

use crate::catalog::AuxCommand;
use crate::catalog::MessageType;
use crate::frame::Error;
use crate::frame::Frame;
use crate::frame::data_a_with_acknak;
use crate::frame::data_a_with_device_type;
use crate::frame::data_a_with_operational_mode;
use crate::frame::data_b_with_configuration;
use crate::frame::data_b_with_denomination;
use crate::frame::decode_err;
use crate::frame::frame_ok;
use crate::frame::spec_acknak;
use crate::frame::spec_address;
use crate::frame::spec_aux_command;
use crate::frame::spec_configuration;
use crate::frame::spec_denomination;
use crate::frame::spec_device_type;
use crate::frame::spec_message_class;
use crate::frame::spec_operational_mode;
use crate::checksum::with_checksum;
use crate::len::QUERY_DEVICE_CAPABILITIES_COMMAND;

verus! {

/// A Query Device Capabilities command: an 8-byte frame pre-stamped with the
/// auxiliary-command class and the `0x0D` subtype. Composes the base frame
/// accessors, the auxiliary-command subtype, and the omnibus field accessors
/// over its data region.
#[derive(Clone, Debug)]
pub struct QueryDeviceCapabilitiesCommand {
    frame: Frame,
}

impl View for QueryDeviceCapabilitiesCommand {
    type V = Seq<u8>;

    closed spec fn view(&self) -> Seq<u8> {
        self.frame@
    }
}

impl QueryDeviceCapabilitiesCommand {
    /// The command is a well-formed frame of its fixed size.
    pub open spec fn wf(self) -> bool {
        &&& frame_ok(self@)
        &&& self@.len() == QUERY_DEVICE_CAPABILITIES_COMMAND
    }

    /// Builds a new command: markers, length, the auxiliary-command class and
    /// the Query Device Capabilities subtype stamped, address bits and data
    /// bytes zero, checksum valid.
    pub fn new() -> (c: Self)
        ensures
            c.wf(),
            c@[2] == 0x60,
            c@[3] == 0x00,
            c@[4] == 0x00,
            c@[5] == 0x0D,
            spec_message_class(c@) == MessageType::AuxCommand,
            spec_aux_command(c@) == AuxCommand::QueryDeviceCapabilities,
    {
        let mut frame = Frame::init(QUERY_DEVICE_CAPABILITIES_COMMAND);
        frame.set_message_type(MessageType::AuxCommand);
        frame.set_aux_command(AuxCommand::QueryDeviceCapabilities);
        proof {
            assert((0u8 & 0x8F) | ((0x06u8 << 4u8) & 0x70) == 0x60) by (bit_vector);
            assert((0x60u8 >> 4u8) & 0x07 == 0x06) by (bit_vector);
            assert(0x06u8 & 0x07 == 0x06) by (bit_vector);
        }
        QueryDeviceCapabilitiesCommand { frame }
    }

    /// Validates `bytes` as an 8-byte frame and replaces the command's buffer
    /// wholesale on success; on failure the command is left exactly as it was
    /// and the first failing check is returned, in the order given by
    /// [`decode_err`].
    pub fn from_buf(&mut self, bytes: &[u8]) -> (r: Result<(), Error>)
        requires
            old(self).wf(),
        ensures
            final(self).wf(),
            match r {
                Ok(()) => {
                    &&& decode_err(QUERY_DEVICE_CAPABILITIES_COMMAND as nat, bytes@) is None
                    &&& final(self)@ == bytes@
                },
                Err(e) => {
                    &&& decode_err(QUERY_DEVICE_CAPABILITIES_COMMAND as nat, bytes@) == Some(e)
                    &&& final(self)@ == old(self)@
                },
            },
    {
        self.frame.from_buf(bytes)
    }

    /// The frame's bytes, ready for transmission.
    pub fn as_bytes(&self) -> (r: &[u8])
        ensures
            r@ == self@,
    {
        self.frame.as_bytes()
    }

    /// The stored checksum byte.
    pub fn checksum(&self) -> (r: u8)
        requires
            self.wf(),
        ensures
            r == self@[self@.len() - 1],
    {
        self.frame.checksum()
    }

    /// Whether the stored checksum byte equals the checksum of the frame;
    /// always true of a well-formed command.
    pub fn validate_checksum(&self) -> (r: bool)
        requires
            self.wf(),
        ensures
            r == (self@[self@.len() - 1] == crate::checksum::checksum_spec(self@)),
    {
        self.frame.validate_checksum()
    }

    /// Recomputes the checksum and stores it in the checksum byte; idle on a
    /// well-formed command, whose mutators already keep the checksum valid.
    pub fn recompute_checksum(&mut self)
        requires
            old(self).wf(),
        ensures
            final(self).wf(),
            final(self)@ == with_checksum(old(self)@),
            final(self)@ == old(self)@,
    {
        proof {
            assert(with_checksum(old(self)@) =~= old(self)@);
        }
        self.frame.recompute_checksum()
    }

    /// The message class, from the control byte's class bits.
    pub fn message_type(&self) -> (t: MessageType)
        requires
            self.wf(),
        ensures
            t == spec_message_class(self@),
    {
        self.frame.message_type()
    }

    /// The auxiliary-command subtype, from the subtype byte.
    pub fn aux_command(&self) -> (c: AuxCommand)
        requires
            self.wf(),
        ensures
            c == spec_aux_command(self@),
    {
        self.frame.aux_command()
    }

    /// The device-address bits of the control byte.
    pub fn address(&self) -> (a: u8)
        requires
            self.wf(),
        ensures
            a == spec_address(self@),
    {
        self.frame.address()
    }

    /// Writes the address bits from the low four bits of `a`, preserving
    /// every other field, and rewrites the checksum byte.
    pub fn set_address(&mut self, a: u8)
        requires
            old(self).wf(),
        ensures
            final(self).wf(),
            final(self)@ == with_checksum(
                old(self)@.update(2, crate::frame::ctrl_with_address(old(self)@[2], a)),
            ),
            spec_address(final(self)@) == a & 0x0F,
            spec_message_class(final(self)@) == spec_message_class(old(self)@),
            spec_aux_command(final(self)@) == spec_aux_command(old(self)@),
    {
        self.frame.set_address(a)
    }

    /// The ack/nak flag of the data region.
    pub fn acknak(&self) -> (v: bool)
        requires
            self.wf(),
        ensures
            v == spec_acknak(self@),
    {
        self.frame.acknak()
    }

    /// Writes the ack/nak flag, preserving every other field, and rewrites
    /// the checksum byte.
    pub fn set_acknak(&mut self, v: bool)
        requires
            old(self).wf(),
        ensures
            final(self).wf(),
            final(self)@ == with_checksum(
                old(self)@.update(3, data_a_with_acknak(old(self)@[3], v)),
            ),
            spec_acknak(final(self)@) == v,
            spec_device_type(final(self)@) == spec_device_type(old(self)@),
            spec_operational_mode(final(self)@) == spec_operational_mode(old(self)@),
            spec_denomination(final(self)@) == spec_denomination(old(self)@),
            spec_configuration(final(self)@) == spec_configuration(old(self)@),
            spec_message_class(final(self)@) == spec_message_class(old(self)@),
            spec_aux_command(final(self)@) == spec_aux_command(old(self)@),
    {
        self.frame.set_acknak(v)
    }

    /// The device-type code of the data region.
    pub fn device_type(&self) -> (v: u8)
        requires
            self.wf(),
        ensures
            v == spec_device_type(self@),
    {
        self.frame.device_type()
    }

    /// Writes the device-type code from the low three bits of `v`, preserving
    /// every other field, and rewrites the checksum byte.
    pub fn set_device_type(&mut self, v: u8)
        requires
            old(self).wf(),
        ensures
            final(self).wf(),
            final(self)@ == with_checksum(
                old(self)@.update(3, data_a_with_device_type(old(self)@[3], v)),
            ),
            spec_device_type(final(self)@) == v & 0x07,
            spec_acknak(final(self)@) == spec_acknak(old(self)@),
            spec_operational_mode(final(self)@) == spec_operational_mode(old(self)@),
            spec_denomination(final(self)@) == spec_denomination(old(self)@),
            spec_configuration(final(self)@) == spec_configuration(old(self)@),
            spec_message_class(final(self)@) == spec_message_class(old(self)@),
            spec_aux_command(final(self)@) == spec_aux_command(old(self)@),
    {
        self.frame.set_device_type(v)
    }

    /// The operational-mode code of the data region.
    pub fn operational_mode(&self) -> (v: u8)
        requires
            self.wf(),
        ensures
            v == spec_operational_mode(self@),
    {
        self.frame.operational_mode()
    }

    /// Writes the operational-mode code from the low three bits of `v`,
    /// preserving every other field, and rewrites the checksum byte.
    pub fn set_operational_mode(&mut self, v: u8)
        requires
            old(self).wf(),
        ensures
            final(self).wf(),
            final(self)@ == with_checksum(
                old(self)@.update(3, data_a_with_operational_mode(old(self)@[3], v)),
            ),
            spec_operational_mode(final(self)@) == v & 0x07,
            spec_acknak(final(self)@) == spec_acknak(old(self)@),
            spec_device_type(final(self)@) == spec_device_type(old(self)@),
            spec_denomination(final(self)@) == spec_denomination(old(self)@),
            spec_configuration(final(self)@) == spec_configuration(old(self)@),
            spec_message_class(final(self)@) == spec_message_class(old(self)@),
            spec_aux_command(final(self)@) == spec_aux_command(old(self)@),
    {
        self.frame.set_operational_mode(v)
    }

    /// The denomination bits of the data region.
    pub fn denomination(&self) -> (v: u8)
        requires
            self.wf(),
        ensures
            v == spec_denomination(self@),
    {
        self.frame.denomination()
    }

    /// Writes the denomination bits from the low four bits of `v`, preserving
    /// every other field, and rewrites the checksum byte.
    pub fn set_denomination(&mut self, v: u8)
        requires
            old(self).wf(),
        ensures
            final(self).wf(),
            final(self)@ == with_checksum(
                old(self)@.update(4, data_b_with_denomination(old(self)@[4], v)),
            ),
            spec_denomination(final(self)@) == v & 0x0F,
            spec_configuration(final(self)@) == spec_configuration(old(self)@),
            spec_acknak(final(self)@) == spec_acknak(old(self)@),
            spec_device_type(final(self)@) == spec_device_type(old(self)@),
            spec_operational_mode(final(self)@) == spec_operational_mode(old(self)@),
            spec_message_class(final(self)@) == spec_message_class(old(self)@),
            spec_aux_command(final(self)@) == spec_aux_command(old(self)@),
    {
        self.frame.set_denomination(v)
    }

    /// The configuration bits of the data region.
    pub fn configuration(&self) -> (v: u8)
        requires
            self.wf(),
        ensures
            v == spec_configuration(self@),
    {
        self.frame.configuration()
    }

    /// Writes the configuration bits from the low four bits of `v`,
    /// preserving every other field, and rewrites the checksum byte.
    pub fn set_configuration(&mut self, v: u8)
        requires
            old(self).wf(),
        ensures
            final(self).wf(),
            final(self)@ == with_checksum(
                old(self)@.update(4, data_b_with_configuration(old(self)@[4], v)),
            ),
            spec_configuration(final(self)@) == v & 0x0F,
            spec_denomination(final(self)@) == spec_denomination(old(self)@),
            spec_acknak(final(self)@) == spec_acknak(old(self)@),
            spec_device_type(final(self)@) == spec_device_type(old(self)@),
            spec_operational_mode(final(self)@) == spec_operational_mode(old(self)@),
            spec_message_class(final(self)@) == spec_message_class(old(self)@),
            spec_aux_command(final(self)@) == spec_aux_command(old(self)@),
    {
        self.frame.set_configuration(v)
    }
}

impl PartialEq for QueryDeviceCapabilitiesCommand {
    /// Equality is byte-for-byte equality of the underlying frames.
    fn eq(&self, other: &Self) -> (r: bool) {
        self.frame.bytes_eq(&other.frame)
    }
}

impl vstd::std_specs::cmp::PartialEqSpecImpl for QueryDeviceCapabilitiesCommand {
    open spec fn obeys_eq_spec() -> bool {
        true
    }

    open spec fn eq_spec(&self, other: &Self) -> bool {
        self@ == other@
    }
}

} // verus!
