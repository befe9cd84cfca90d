//! Positions as the session bus counts them.

use crate::span::TimeSpan;
use mpris_server::Time;
use vstd::prelude::*;

verus! {

/// `mpris_server::Time`: a signed number of microseconds.
#[verifier::external_type_specification]
#[verifier::external_body]
pub struct ExTime(mpris_server::Time);

/// The time that `mpris_server::Time::from_micros` makes of a number of
/// microseconds.
pub uninterp spec fn time_of_micros(micros: i64) -> mpris_server::Time;

/// `Time::from_micros` wraps the number of microseconds: no other number makes
/// the same time.
pub assume_specification[ mpris_server::Time::from_micros ](micros: i64) -> (r: mpris_server::Time)
    ensures
        r == time_of_micros(micros),
        forall|other: i64| r == #[trigger] time_of_micros(other) ==> other == micros,
;

/// `Time::as_micros` gives back the number of microseconds that the time was
/// made of: every time is made of exactly one such number.
pub assume_specification[ mpris_server::Time::as_micros ](time: &mpris_server::Time) -> (r: i64)
    ensures
        *time == time_of_micros(r),
        forall|micros: i64| *time == #[trigger] time_of_micros(micros) ==> r == micros,
;

/// The number of microseconds that a time is made of.
pub open spec fn micros_of_time(time: mpris_server::Time) -> i64 {
    choose|micros: i64| time == #[trigger] time_of_micros(micros)
}

/// The whole microseconds of a span, held at the largest that a time can count.
pub open spec fn saturated_micros(span: TimeSpan) -> i64 {
    if span.total_micros() > i64::MAX {
        i64::MAX
    } else {
        span.total_micros() as i64
    }
}

/// The whole microseconds of a span, held at the largest that a time can count.
pub fn micros_from_duration(dur: TimeSpan) -> (r: i64)
    ensures
        r == saturated_micros(dur),
        0 <= r,
        dur.total_nanos() < (i64::MAX + 1) * 1000 ==> r * 1000 <= dur.total_nanos() < (r + 1)
            * 1000,
        dur.total_nanos() >= (i64::MAX + 1) * 1000 ==> r == i64::MAX,
{
    let micros_u128: u128 = dur.as_micros();
    if micros_u128 > 0x7fff_ffff_ffff_ffffu128 {
        i64::MAX
    } else {
        micros_u128 as i64
    }
}

/// A playback position as a bus time.
pub fn time_from_duration(dur: TimeSpan) -> (r: Time)
    ensures
        r == time_of_micros(saturated_micros(dur)),
        micros_of_time(r) == saturated_micros(dur),
{
    Time::from_micros(micros_from_duration(dur))
}

/// A longer span never has the smaller bus time.
pub proof fn law_positions_keep_their_order(a: TimeSpan, b: TimeSpan)
    requires
        a.total_nanos() <= b.total_nanos(),
    ensures
        saturated_micros(a) <= saturated_micros(b),
{
    assert(a.total_micros() <= b.total_micros());
}

/// Below the largest count, a bus time is less than one microsecond short of
/// the span.
pub proof fn law_position_error_is_below_one_microsecond(span: TimeSpan)
    requires
        span.total_micros() <= i64::MAX,
    ensures
        saturated_micros(span) * 1000 <= span.total_nanos() < (saturated_micros(span) + 1) * 1000,
{
}

/// A bus time is less than one microsecond short of its span, for every span
/// that a time can count; a longer span has the largest time.
pub proof fn law_position_is_exact_or_the_largest(span: TimeSpan)
    ensures
        span.total_nanos() < (i64::MAX + 1) * 1000 ==> saturated_micros(span) * 1000
            <= span.total_nanos() < (saturated_micros(span) + 1) * 1000,
        span.total_nanos() >= (i64::MAX + 1) * 1000 ==> saturated_micros(span) == i64::MAX,
{
}

} // verus!
