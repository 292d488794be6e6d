//! Native status codes and their conversion into results.

use vstd::prelude::*;

verus! {

/// Raw code of a call that succeeded without qualification.
pub const SUCCESS: i32 = 0;

/// Raw code of a request whose backing extension was not enabled.
pub const ERROR_EXTENSION_NOT_PRESENT: i32 = -9;

/// A status code as the native runtime returns it.
///
/// Negative codes are failures; zero and positive codes are (possibly
/// qualified) successes.
#[derive(Clone, Copy, Debug, PartialEq, Eq, Structural)]
pub struct Status {
    pub raw: i32,
}

impl Status {
    /// Whether this code reports a failure.
    pub open spec fn is_error(self) -> bool {
        self.raw < 0
    }

    /// The code `raw`, unchanged.
    pub fn from_raw(raw: i32) -> (r: Status)
        ensures
            r.raw == raw,
    {
        Status { raw }
    }

    /// The raw native code.
    pub fn into_raw(self) -> (r: i32)
        ensures
            r == self.raw,
    {
        self.raw
    }

    /// The unqualified success code.
    pub fn success() -> (r: Status)
        ensures
            r.raw == SUCCESS,
    {
        Status { raw: SUCCESS }
    }

    /// The code returned when a required extension was not enabled.
    pub fn extension_not_present() -> (r: Status)
        ensures
            r.raw == ERROR_EXTENSION_NOT_PRESENT,
    {
        Status { raw: ERROR_EXTENSION_NOT_PRESENT }
    }
}

/// The classes of failure that a call of this layer can end in.
#[derive(Clone, Copy, Debug, PartialEq, Eq, Structural)]
pub enum ErrorKind {
    /// The extension that backs the request was not enabled when the
    /// instance was created. No native call was made.
    ExtensionNotPresent,
    /// The runtime returned a failure code, which is carried unchanged.
    NativeFailure,
}

/// The class of a code: none for a success, and for a failure whether it
/// says that an extension is missing or reports anything else.
pub open spec fn classify_spec(code: Status) -> Option<ErrorKind> {
    if code.raw >= 0 {
        None
    } else if code.raw == ERROR_EXTENSION_NOT_PRESENT {
        Some(ErrorKind::ExtensionNotPresent)
    } else {
        Some(ErrorKind::NativeFailure)
    }
}

/// Classifies a status code.
pub fn classify(code: Status) -> (r: Option<ErrorKind>)
    ensures
        r == classify_spec(code),
{
    if code.raw >= 0 {
        None
    } else if code.raw == ERROR_EXTENSION_NOT_PRESENT {
        Some(ErrorKind::ExtensionNotPresent)
    } else {
        Some(ErrorKind::NativeFailure)
    }
}

/// What `cvt` returns for a code: the code itself, as `Ok` when it is not
/// negative and as `Err` when it is.
pub open spec fn cvt_spec(code: Status) -> Result<Status, Status> {
    if code.raw >= 0 {
        Ok(code)
    } else {
        Err(code)
    }
}

/// Converts a native status code into a result, carrying the code through
/// unchanged on either side.
pub fn cvt(code: Status) -> (r: Result<Status, Status>)
    ensures
        r == cvt_spec(code),
{
    if code.raw >= 0 {
        Ok(code)
    } else {
        Err(code)
    }
}

/// A failure is never turned into a success, nor a success into a failure,
/// and a code is an error exactly when it has a class.
pub proof fn lemma_cvt_keeps_sign(code: Status)
    ensures
        cvt_spec(code).is_ok() <==> !code.is_error(),
        cvt_spec(code).is_err() <==> code.is_error(),
        cvt_spec(code).is_err() <==> classify_spec(code) is Some,
{
}

} // verus!
