//! The clock that nonces are taken from.

use crate::error::{Error, ErrorView};
use std::time::{Duration, SystemTime, SystemTimeError, UNIX_EPOCH};
use vstd::prelude::*;
use vstd::string::*;

verus! {

/// `SystemTime`, a reading of the clock.
#[verifier::external_type_specification]
#[verifier::external_body]
pub struct ExSystemTime(SystemTime);

/// `SystemTimeError`, the error of a time that lies before another.
#[verifier::external_type_specification]
#[verifier::external_body]
pub struct ExSystemTimeError(SystemTimeError);

/// `SystemTime::now`: whatever the clock says.
pub assume_specification[ SystemTime::now ]() -> (now: SystemTime);

/// `Duration::as_millis`: the whole milliseconds of a duration.
pub assume_specification[ Duration::as_millis ](duration: &Duration) -> (millis: u128);

/// `SystemTime::duration_since` with `UNIX_EPOCH`: the time that has passed
/// since the epoch, or an error where `time` lies before it.
#[verifier::external_body]
fn since_unix_epoch(time: &SystemTime) -> Result<Duration, SystemTimeError> {
    time.duration_since(UNIX_EPOCH)
}

impl From<SystemTimeError> for Error {
    fn from(error: SystemTimeError) -> (internal: Self)
        ensures
            exists|message: String| #[trigger]
                to_string_from_display_ensures::<SystemTimeError>(&error, message) && internal@
                    == ErrorView::Internal(message@),
    {
        Error::internal(error.to_string().as_str())
    }
}

impl vstd::std_specs::convert::FromSpecImpl<SystemTimeError> for Error {
    open spec fn obeys_from_spec() -> bool {
        false
    }

    open spec fn from_spec(error: SystemTimeError) -> Error {
        arbitrary()
    }
}

/// The nonce for a request made `millis` milliseconds after the epoch: the
/// low 64 bits of `millis`.
pub fn nonce_from_millis(millis: u128) -> (nonce: u64)
    ensures
        nonce == millis % 0x1_0000_0000_0000_0000,
{
    let nonce: u64 = #[verifier::truncate] (millis as u64);
    assert(nonce == millis % 0x1_0000_0000_0000_0000) by (bit_vector)
        requires
            nonce == millis as u64,
    ;
    nonce
}

/// Gets a nonce from the clock: the milliseconds since the epoch. Fails with
/// an internal error where the clock stands before the epoch.
pub fn clock_nonce() -> (nonce: Result<u64, Error>)
    ensures
        nonce matches Err(error) ==> error@ is Internal,
{
    let now = SystemTime::now();
    match since_unix_epoch(&now) {
        Ok(elapsed) => Ok(nonce_from_millis(elapsed.as_millis())),
        Err(error) => Err(Error::from(error)),
    }
}

} // verus!
