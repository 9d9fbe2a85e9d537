//! The monotonic clock, read through `std::time::Instant`.

use vstd::prelude::*;

verus! {

/// `std::time::Instant`, an opaque point of a monotonic clock.
#[verifier::external_type_specification]
#[verifier::external_body]
pub struct ExInstant(std::time::Instant);

/// `Instant::now`. Nothing is stated of the reading: it depends on the time.
#[verifier::external_body]
pub(crate) fn instant_now() -> std::time::Instant {
    std::time::Instant::now()
}

/// Milliseconds elapsed since `origin` (`Instant::elapsed`, in whole milliseconds).
/// Nothing is stated of the value: it depends on the time.
#[verifier::external_body]
pub(crate) fn elapsed_millis(origin: &std::time::Instant) -> u64 {
    origin.elapsed().as_millis() as u64
}

/// Nanoseconds elapsed since `origin` (`Instant::elapsed`, as `Duration::as_nanos`).
/// Nothing is stated of the value: it depends on the time.
#[verifier::external_body]
pub(crate) fn elapsed_nanos(origin: &std::time::Instant) -> u128 {
    origin.elapsed().as_nanos()
}

/// What `format!("{:?}", Duration::from_nanos(nanos))` prints for a duration.
pub uninterp spec fn duration_debug(nanos: u64) -> Seq<char>;

/// A duration of `nanos` nanoseconds as `Duration`'s `Debug` prints it (such as `1.5s`).
#[verifier::external_body]
pub(crate) fn duration_debug_text(nanos: u64) -> (r: String)
    ensures
        r@ == duration_debug(nanos),
{
    format!("{:?}", std::time::Duration::from_nanos(nanos))
}

} // verus!
