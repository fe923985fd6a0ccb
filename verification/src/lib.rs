//! Frame codec for a byte-oriented serial command protocol used to drive
//! currency-handling peripherals.
//!
//! A message is a fixed-size frame: a start marker, a length byte, a control
//! byte carrying the message class and device address, a command-specific
//! data region, an optional command subtype byte, an end marker, and an XOR
//! checksum. The [`frame::Frame`] type owns the byte layout and the checksum
//! discipline once; concrete command types compose its accessors and stamp
//! their own class and subtype codes.

pub mod catalog;
pub mod checksum;
pub mod frame;
pub mod len;
pub mod query_application_id;
pub mod query_device_capabilities;

pub use catalog::AuxCommand;
pub use catalog::MessageType;
pub use frame::Error;
pub use frame::Frame;
pub use query_application_id::QueryApplicationIdCommand;
pub use query_device_capabilities::QueryDeviceCapabilitiesCommand;
