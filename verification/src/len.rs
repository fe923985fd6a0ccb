//! Fixed frame sizes, one per concrete command type.

use vstd::prelude::*;

verus! {

/// Total size in bytes of a Query Device Capabilities command frame.
pub const QUERY_DEVICE_CAPABILITIES_COMMAND: usize = 8;

/// Total size in bytes of a Query Application Id command frame.
pub const QUERY_APPLICATION_ID_COMMAND: usize = 8;

} // verus!
