//! The status reported by one dispatch step of a connection.

use vstd::prelude::*;

verus! {

/// The native ordinal for "more buffered data remains".
pub const DATA_REMAINS: i32 = 0;

/// The native ordinal for "all buffered data was processed".
pub const COMPLETE: i32 = 1;

/// The native ordinal for "ran out of memory while dispatching".
pub const NEED_MEMORY: i32 = 2;

/// Whether a dispatch step left buffered incoming data to process.
///
/// Ordinals the library does not know are kept in `Unknown`, so that a newer
/// native library never makes the binding fail.
#[derive(Clone, Copy, Debug, PartialEq, Eq, Structural)]
pub enum DBusDispatchStatus {
    DataRemains,
    Complete,
    NeedMemory,
    Unknown(i32),
}

/// The status that a native ordinal stands for.
pub open spec fn status_of(ord: i32) -> DBusDispatchStatus {
    if ord == DATA_REMAINS {
        DBusDispatchStatus::DataRemains
    } else if ord == COMPLETE {
        DBusDispatchStatus::Complete
    } else if ord == NEED_MEMORY {
        DBusDispatchStatus::NeedMemory
    } else {
        DBusDispatchStatus::Unknown(ord)
    }
}

/// Maps a native dispatch ordinal to its status; never fails.
pub fn from_ord(result: i32) -> (r: DBusDispatchStatus)
    ensures
        r == status_of(result),
{
    if result == DATA_REMAINS {
        DBusDispatchStatus::DataRemains
    } else if result == COMPLETE {
        DBusDispatchStatus::Complete
    } else if result == NEED_MEMORY {
        DBusDispatchStatus::NeedMemory
    } else {
        DBusDispatchStatus::Unknown(result)
    }
}

} // verus!
