//! A client of an experiment-tracking server that speaks the MLflow REST
//! protocol: experiments, runs, and what is logged under a run.

use vstd::prelude::*;

pub mod api;
pub mod backend;
pub mod json;
pub mod query;
pub mod text;
pub mod tracking;
pub mod wire;

pub use api::client::Client;
pub use api::id::{ExperimentId, RunId};

verus! {

#[verifier::external_type_specification]
#[verifier::external_body]
pub struct ExSystemTime(std::time::SystemTime);

#[verifier::external_type_specification]
#[verifier::external_body]
pub struct ExSystemTimeError(std::time::SystemTimeError);

/// `SystemTime::now`: the time of the system clock. Nothing is claimed of
/// it.
pub assume_specification[ std::time::SystemTime::now ]() -> std::time::SystemTime;

/// `SystemTime::duration_since`: the time that passed since `earlier`, or
/// an error where `earlier` is the later of the two. Nothing is claimed of
/// the result.
pub assume_specification[ std::time::SystemTime::duration_since ](
    time: &std::time::SystemTime,
    earlier: std::time::SystemTime,
) -> Result<std::time::Duration, std::time::SystemTimeError>;

/// `Duration::as_millis`: the whole milliseconds of a duration. Nothing is
/// claimed of the result.
pub assume_specification[ std::time::Duration::as_millis ](
    duration: &std::time::Duration,
) -> u128;

/// `std::time::UNIX_EPOCH`: the start of 1970 in UTC, from which
/// timestamps count.
#[verifier::external_body]
fn epoch() -> std::time::SystemTime {
    std::time::UNIX_EPOCH
}

/// The time of the system clock as a timestamp of the tracking protocol:
/// the milliseconds since the start of 1970. A clock that stands before
/// 1970 gives 0, and one beyond the range of the timestamp its largest
/// value.
pub fn timestamp() -> (t: i64)
    ensures
        exists|reading: Option<u128>| t == #[trigger] timestamp_of(reading),
        t >= 0,
{
    let now = std::time::SystemTime::now();
    let reading: Option<u128> = match now.duration_since(epoch()) {
        Ok(elapsed) => Some(elapsed.as_millis()),
        Err(_) => None,
    };
    let t = timestamp_at(reading);
    assert(t == timestamp_of(reading));
    t
}

/// The timestamp that stands for a reading of the clock. A reading is the
/// number of milliseconds that the clock stands after the start of 1970,
/// or `None` for a clock that stands before it. The timestamp is that
/// number; 0 where there is none; and the largest timestamp where the
/// number is beyond the range of a timestamp.
pub open spec fn timestamp_of(reading: Option<u128>) -> i64 {
    match reading {
        Some(millis) => if millis > 0x7fff_ffff_ffff_ffff {
            0x7fff_ffff_ffff_ffffi64
        } else {
            millis as i64
        },
        None => 0,
    }
}

/// Turns a reading of the clock into a timestamp.
pub fn timestamp_at(reading: Option<u128>) -> (t: i64)
    ensures
        t == timestamp_of(reading),
{
    match reading {
        Some(millis) => if millis > 0x7fff_ffff_ffff_ffff {
            i64::MAX
        } else {
            millis as i64
        },
        None => 0,
    }
}

} // verus!
