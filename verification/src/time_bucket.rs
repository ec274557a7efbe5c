//! The `time_bucket` fallback. Bucketing is computed by the embedded
//! engine; the host-side fallback implementations must not silently return
//! an unbucketed value, so every entry point reports the same error, which
//! the caller surfaces as a clear failure.

use crate::cell::IntervalValue;
use vstd::prelude::*;

verus! {

/// The one failure of the native fallback: the function only works pushed
/// down to the embedded engine.
#[derive(Clone, Copy, PartialEq, Eq, Structural, Debug)]
pub struct TimeBucketError {}

impl TimeBucketError {
    /// The user-facing explanation.
    pub fn message(&self) -> (r: String)
        ensures
            r@ == spec_time_bucket_message(),
    {
        String::from_str(
            "time_bucket() must be pushed down to the embedded analytical engine; the native execution path does not implement it",
        )
    }
}

/// The fallback's explanation text.
pub open spec fn spec_time_bucket_message() -> Seq<char> {
    "time_bucket() must be pushed down to the embedded analytical engine; the native execution path does not implement it"@
}

/// Buckets a date series: native fallback, always refused.
pub fn time_bucket_date(bucket_width: IntervalValue, input: i32) -> (r: Result<
    i32,
    TimeBucketError,
>)
    ensures
        r == Err::<i32, TimeBucketError>(TimeBucketError {}),
{
    Err(TimeBucketError {})
}

/// Buckets a date series against an origin date: native fallback, always
/// refused.
pub fn time_bucket_date_origin(bucket_width: IntervalValue, input: i32, origin: i32) -> (r: Result<
    i32,
    TimeBucketError,
>)
    ensures
        r == Err::<i32, TimeBucketError>(TimeBucketError {}),
{
    Err(TimeBucketError {})
}

/// Buckets a date series with an offset: native fallback, always refused.
pub fn time_bucket_date_offset(bucket_width: IntervalValue, input: i32, offset: IntervalValue) -> (r:
    Result<i32, TimeBucketError>)
    ensures
        r == Err::<i32, TimeBucketError>(TimeBucketError {}),
{
    Err(TimeBucketError {})
}

/// Buckets a timestamp series: native fallback, always refused.
pub fn time_bucket_timestamp(bucket_width: IntervalValue, input: i64) -> (r: Result<
    i64,
    TimeBucketError,
>)
    ensures
        r == Err::<i64, TimeBucketError>(TimeBucketError {}),
{
    Err(TimeBucketError {})
}

/// Buckets a timestamp series against an origin date: native fallback,
/// always refused.
pub fn time_bucket_timestamp_offset_date(bucket_width: IntervalValue, input: i64, origin: i32) -> (r:
    Result<i64, TimeBucketError>)
    ensures
        r == Err::<i64, TimeBucketError>(TimeBucketError {}),
{
    Err(TimeBucketError {})
}

/// Buckets a timestamp series with an interval offset: native fallback,
/// always refused.
pub fn time_bucket_timestamp_offset_interval(
    bucket_width: IntervalValue,
    input: i64,
    offset: IntervalValue,
) -> (r: Result<i64, TimeBucketError>)
    ensures
        r == Err::<i64, TimeBucketError>(TimeBucketError {}),
{
    Err(TimeBucketError {})
}

} // verus!
