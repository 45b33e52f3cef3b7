//! How a message handler disposed of a message.

use vstd::prelude::*;

verus! {

/// The native ordinal for "the message was handled".
pub const HANDLED: i32 = 0;

/// The native ordinal for "the message was not handled yet".
pub const NOT_YET_HANDLED: i32 = 1;

/// The native ordinal for "ran out of memory while handling".
pub const NEED_MEMORY: i32 = 2;

/// The disposition of a message, with `Unknown` for ordinals this binding
/// does not know.
#[derive(Clone, Copy, Debug, PartialEq, Eq, Structural)]
pub enum DBusHandlerResult {
    Handled,
    NotYetHandled,
    NeedMemory,
    Unknown(i32),
}

/// The handler result that a native ordinal stands for.
pub open spec fn handler_result_of(ord: i32) -> DBusHandlerResult {
    if ord == HANDLED {
        DBusHandlerResult::Handled
    } else if ord == NOT_YET_HANDLED {
        DBusHandlerResult::NotYetHandled
    } else if ord == NEED_MEMORY {
        DBusHandlerResult::NeedMemory
    } else {
        DBusHandlerResult::Unknown(ord)
    }
}

/// Maps a native handler ordinal to its result; never fails.
pub fn from_ord(result: i32) -> (r: DBusHandlerResult)
    ensures
        r == handler_result_of(result),
{
    if result == HANDLED {
        DBusHandlerResult::Handled
    } else if result == NOT_YET_HANDLED {
        DBusHandlerResult::NotYetHandled
    } else if result == NEED_MEMORY {
        DBusHandlerResult::NeedMemory
    } else {
        DBusHandlerResult::Unknown(result)
    }
}

} // verus!
