//! The error channel: turning what a native call left in its error
//! out-parameter into a checked result.

use vstd::prelude::*;

verus! {

/// An error reported by the native library: the error's name and its
/// human-readable message.
#[derive(Clone, Debug)]
pub struct DBusError {
    name: String,
    message: String,
}

/// The mathematical value of an error: its name and its message.
pub ghost struct ErrorModel {
    pub name: Seq<char>,
    pub message: Seq<char>,
}

impl View for DBusError {
    type V = ErrorModel;

    closed spec fn view(&self) -> ErrorModel {
        ErrorModel { name: self.name@, message: self.message@ }
    }
}

impl DBusError {
    /// An error with the given name and message.
    pub fn new(name: String, message: String) -> (r: DBusError)
        ensures
            r@.name == name@,
            r@.message == message@,
    {
        DBusError { name, message }
    }

    /// The error's name, such as `org.freedesktop.DBus.Error.NoServer`.
    pub fn get_name(&self) -> (r: &str)
        ensures
            r@ == self@.name,
    {
        self.name.as_str()
    }

    /// The error's message.
    pub fn get_message(&self) -> (r: &str)
        ensures
            r@ == self@.message,
    {
        self.message.as_str()
    }
}

/// The state of a native error object after a call, read into plain values:
/// whether the library flagged a failure, and the name and message strings,
/// each absent where the native pointer was null.
#[derive(Clone, Debug)]
pub struct ErrorReport {
    pub set: bool,
    pub name: Option<String>,
    pub message: Option<String>,
}

impl ErrorReport {
    /// The state of a freshly initialized error object: not set, with
    /// neither name nor message.
    pub fn new_unset() -> (r: ErrorReport)
        ensures
            !r.set,
            r.name.is_none(),
            r.message.is_none(),
            r.consistent(),
    {
        ErrorReport { set: false, name: None, message: None }
    }

    /// A set error object always carries both its name and its message; one
    /// that does not is a defect of the native library, not an error value.
    pub open spec fn consistent(&self) -> bool {
        self.set ==> (self.name.is_some() && self.message.is_some())
    }

    /// Whether the native library flagged a failure.
    pub fn is_set(&self) -> (r: bool)
        ensures
            r == self.set,
    {
        self.set
    }

    /// Whether both the name and the message are present.
    pub fn check_safe(&self) -> (r: bool)
        ensures
            r == (self.name.is_some() && self.message.is_some()),
    {
        self.name.is_some() && self.message.is_some()
    }

    /// Whether the report is consistent; a caller that cannot show it tests
    /// this and treats `false` as fatal.
    pub fn is_consistent(&self) -> (r: bool)
        ensures
            r == self.consistent(),
    {
        !self.set || self.check_safe()
    }
}

/// The outcome of a native call that reports only through its error object:
/// `Err` with the reported name and message exactly when the error is set.
pub fn check_call(report: ErrorReport) -> (r: Result<(), DBusError>)
    requires
        report.consistent(),
    ensures
        r.is_err() == report.set,
        r matches Err(e) ==> e@.name == report.name->Some_0@ && e@.message
            == report.message->Some_0@,
{
    if report.set {
        Err(DBusError::new(report.name.unwrap(), report.message.unwrap()))
    } else {
        Ok(())
    }
}

/// Whether a name request left a result that the binding accepts: a set,
/// consistent error, or no error and a positive reply code.
pub open spec fn request_name_consistent(report: ErrorReport, response: i32) -> bool {
    report.consistent() && (!report.set ==> response > 0)
}

/// The outcome of a well-known name request: the reported error when the
/// error object is set, else the daemon's positive reply code, passed on
/// unchanged.
pub fn check_request_name(report: ErrorReport, response: i32) -> (r: Result<i32, DBusError>)
    requires
        request_name_consistent(report, response),
    ensures
        r.is_err() == report.set,
        r matches Ok(code) ==> code == response && code > 0,
        r matches Err(e) ==> e@.name == report.name->Some_0@ && e@.message
            == report.message->Some_0@,
{
    match check_call(report) {
        Ok(()) => Ok(response),
        Err(e) => Err(e),
    }
}

/// Whether a name request's result may be given to `check_request_name`;
/// callers that cannot show it test this and treat `false` as fatal.
pub fn is_request_name_consistent(report: &ErrorReport, response: i32) -> (r: bool)
    ensures
        r == request_name_consistent(*report, response),
{
    report.is_consistent() && (report.set || response > 0)
}

} // verus!
