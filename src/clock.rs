use vstd::prelude::*;

verus! {

/// The bound on timestamps: the time crate's dates span years -9999 to 9999
/// (-999999 to 999999 with its `large-dates` feature), well within 10^26
/// nanoseconds of the Unix epoch.
pub open spec fn timestamp_in_range(t: i128) -> bool {
    -100_000_000_000_000_000_000_000_000 <= t <= 100_000_000_000_000_000_000_000_000
}

/// Relies on `time::OffsetDateTime::now_utc` and `unix_timestamp_nanos`: the
/// current time, as nanoseconds since the Unix epoch, within the crate's date
/// range.
#[verifier::external_body]
pub(crate) fn now_utc() -> (r: i128)
    ensures
        timestamp_in_range(r),
{
    time::OffsetDateTime::now_utc().unix_timestamp_nanos()
}

/// Relies on `uuid::Uuid::new_v4`: a random identifier, as its 128-bit value.
/// Nothing is promised of its value; callers check it against the ids in use.
#[verifier::external_body]
pub(crate) fn new_uuid() -> (r: u128) {
    uuid::Uuid::new_v4().as_u128()
}

} // verus!
