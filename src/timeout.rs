//! Timeouts for blocking native operations.

use vstd::prelude::*;

verus! {

/// The native sentinel that means "no timeout"; explicit timeouts stay below it.
pub const INFINITE_SENTINEL: i32 = 0x7FFFFFFF;

/// A timeout: the library's default, none at all, or a count of milliseconds.
#[derive(Clone, Copy, Debug, PartialEq, Eq, Structural)]
pub enum DBusTimeout {
    Default,
    Infinite,
    Milliseconds(i32),
}

/// An explicit millisecond count is one the native API reads as such.
pub open spec fn valid_millis(millis: i32) -> bool {
    0 <= millis < INFINITE_SENTINEL
}

/// A timeout is well formed when an explicit count lies in `[0, sentinel)`.
pub open spec fn wf(t: DBusTimeout) -> bool {
    match t {
        DBusTimeout::Milliseconds(m) => valid_millis(m),
        _ => true,
    }
}

/// The library's default timeout.
pub fn default() -> (r: DBusTimeout)
    ensures
        r == DBusTimeout::Default,
{
    DBusTimeout::Default
}

/// No timeout.
pub fn infinite() -> (r: DBusTimeout)
    ensures
        r == DBusTimeout::Infinite,
{
    DBusTimeout::Infinite
}

/// An explicit timeout of `ms` milliseconds. A count outside
/// `[0, sentinel)` would reach the native API as something else, so it is
/// the caller's obligation to stay inside.
pub fn millis(ms: i32) -> (r: DBusTimeout)
    requires
        valid_millis(ms),
    ensures
        r == DBusTimeout::Milliseconds(ms),
        wf(r),
{
    DBusTimeout::Milliseconds(ms)
}

/// Whether `ms` may be given to `millis`; callers that cannot show it
/// test with this first.
pub fn is_valid_millis(ms: i32) -> (r: bool)
    ensures
        r == valid_millis(ms),
{
    0 <= ms && ms < INFINITE_SENTINEL
}

} // verus!
