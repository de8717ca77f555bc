//! Stream errors and the translation of native status codes into them.
use vstd::prelude::*;
use vstd::string::*;

verus! {

/// The status a device call returns once the endpoint has been removed or disabled.
pub const AUDCLNT_E_DEVICE_INVALIDATED: i32 = -2004287484;

/// The success status of a capture `GetBuffer` call that found no packet to read.
pub const AUDCLNT_S_BUFFER_EMPTY: i32 = 143196161;

/// An error particular to the host, described in words.
pub struct BackendSpecificError {
    pub description: String,
}

/// A fatal error of a running stream, handed to the error callback.
pub enum StreamError {
    DeviceNotAvailable,
    BackendSpecific { err: BackendSpecificError },
}

/// What `play` may fail with.
pub enum PlayStreamError {
    DeviceNotAvailable,
    BackendSpecific { err: BackendSpecificError },
}

/// What `pause` may fail with.
pub enum PauseStreamError {
    DeviceNotAvailable,
    BackendSpecific { err: BackendSpecificError },
}

/// A status code reports success when it is not negative.
pub open spec fn is_success(hresult: i32) -> bool {
    hresult >= 0
}

/// The kind of error a failing status code translates to.
pub open spec fn translates(error: StreamError, hresult: i32) -> bool {
    if hresult == AUDCLNT_E_DEVICE_INVALIDATED {
        error is DeviceNotAvailable
    } else {
        error is BackendSpecific
    }
}

/// Relies on `std::io::Error::from_raw_os_error` and its `Display`: the words
/// the operating system has for a status code. They depend on the system's
/// message tables and language, so nothing is stated of them.
#[verifier::external_body]
fn os_error_text(code: i32) -> (r: String) {
    format!("{}", std::io::Error::from_raw_os_error(code))
}

/// The error for a status code that is known to report a failure.
pub fn hresult_error(hresult: i32) -> (r: StreamError)
    ensures
        translates(r, hresult),
{
    if hresult == AUDCLNT_E_DEVICE_INVALIDATED {
        StreamError::DeviceNotAvailable
    } else {
        let description = os_error_text(hresult);
        StreamError::BackendSpecific { err: BackendSpecificError { description } }
    }
}

/// `Ok` for a success status; otherwise `DeviceNotAvailable` for the
/// "device invalidated" status and a host-specific error for any other.
pub fn stream_error_from_hresult(hresult: i32) -> (r: Result<(), StreamError>)
    ensures
        r is Ok <==> is_success(hresult),
        r matches Err(e) ==> translates(e, hresult),
        r matches Err(StreamError::DeviceNotAvailable) <==> hresult == AUDCLNT_E_DEVICE_INVALIDATED,
{
    if hresult >= 0 {
        Ok(())
    } else {
        Err(hresult_error(hresult))
    }
}

/// The decimal digits of `n`, most significant first, with no leading zero.
pub open spec fn decimal(n: nat) -> Seq<char>
    decreases n,
{
    if n < 10 {
        seq![digit_char(n)]
    } else {
        decimal(n / 10).push(digit_char(n % 10))
    }
}

pub open spec fn digit_char(d: nat) -> char {
    if d == 0 { '0' }
    else if d == 1 { '1' }
    else if d == 2 { '2' }
    else if d == 3 { '3' }
    else if d == 4 { '4' }
    else if d == 5 { '5' }
    else if d == 6 { '6' }
    else if d == 7 { '7' }
    else if d == 8 { '8' }
    else { '9' }
}

/// Relies on `ToString` for `u32`, which writes the number in decimal.
#[verifier::external_body]
fn decimal_text(n: u32) -> (r: String)
    ensures
        r@ == decimal(n as nat),
{
    n.to_string()
}

/// The error for a failed wait on the loop's signals, given the system's last
/// error code.
pub fn wait_failed_error(code: u32) -> (r: StreamError)
    ensures
        r matches StreamError::BackendSpecific { err } && err.description@
            == "`WaitForMultipleObjectsEx failed: "@ + decimal(code as nat),
{
    let mut description = String::from_str("`WaitForMultipleObjectsEx failed: ");
    let digits = decimal_text(code);
    description.append(digits.as_str());
    StreamError::BackendSpecific { err: BackendSpecificError { description } }
}

} // verus!
