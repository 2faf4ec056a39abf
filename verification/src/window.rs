//! The temporal window evaluator: whether a record is relevant at an
//! instant, and how urgent it is.

use vstd::prelude::*;
use crate::instant::Instant;

verus! {

/// Half the width of the active window, one hour, in nanoseconds.
pub const WINDOW_NANOS: i128 = 3_600_000_000_000;

/// One minute in nanoseconds.
pub const MINUTE_NANOS: i128 = 60_000_000_000;

/// Whether `now` lies in the active window of an event: from one hour
/// before the event to one hour after it, both bounds included.
pub open spec fn within_window(event: Instant, now: Instant) -> bool {
    event.position() - WINDOW_NANOS <= now.position() <= event.position() + WINDOW_NANOS
}

/// The whole minutes from `now` until the event, truncated toward zero;
/// negative once the event lies a minute or more in the past.
pub open spec fn minutes_until(event: Instant, now: Instant) -> int {
    let distance = event.position() - now.position();
    if distance >= 0 {
        distance / (MINUTE_NANOS as int)
    } else {
        -((-distance) / (MINUTE_NANOS as int))
    }
}

/// The priority band for a number of minutes until an event: the nearer the
/// event, the higher.
pub open spec fn priority_band(minutes: int) -> int {
    if minutes < 0 {
        100
    } else if minutes < 30 {
        90
    } else if minutes < 60 {
        80
    } else {
        50
    }
}

/// The priority of an event at `now`.
pub open spec fn priority_at(event: Instant, now: Instant) -> int {
    priority_band(minutes_until(event, now))
}

/// Whether a record is active at `now`; a record without a readable event
/// time never is.
pub open spec fn record_active(event: Option<Instant>, now: Instant) -> bool {
    match event {
        Some(event) => within_window(event, now),
        None => false,
    }
}

/// The priority of a record at `now`; zero, the lowest, for a record
/// without a readable event time.
pub open spec fn record_priority(event: Option<Instant>, now: Instant) -> int {
    match event {
        Some(event) => priority_at(event, now),
        None => 0,
    }
}

/// Whether `now` lies in the active window of an event.
pub fn is_active(event: Instant, now: Instant) -> (active: bool)
    ensures
        active == within_window(event, now),
{
    let at = event.nanos_since_epoch();
    let current = now.nanos_since_epoch();
    at - WINDOW_NANOS <= current && current <= at + WINDOW_NANOS
}

/// The whole minutes from `now` until the event, truncated toward zero.
pub fn whole_minutes_until(event: Instant, now: Instant) -> (minutes: i128)
    ensures
        minutes == minutes_until(event, now),
{
    let distance = event.nanos_since_epoch() - now.nanos_since_epoch();
    if distance >= 0 {
        distance / MINUTE_NANOS
    } else {
        -((-distance) / MINUTE_NANOS)
    }
}

/// The priority of an event at `now`: 100 once it lies a minute or more in
/// the past, 90 within the next half hour, 80 within the next hour, else
/// 50.
pub fn priority(event: Instant, now: Instant) -> (score: i32)
    ensures
        score == priority_at(event, now),
{
    let minutes = whole_minutes_until(event, now);
    if minutes < 0 {
        100
    } else if minutes < 30 {
        90
    } else if minutes < 60 {
        80
    } else {
        50
    }
}

/// Whether a record whose event time was read as `event` is active at
/// `now`.
pub fn is_record_active(event: Option<Instant>, now: Instant) -> (active: bool)
    ensures
        active == record_active(event, now),
{
    match event {
        Some(event) => is_active(event, now),
        None => false,
    }
}

/// The priority at `now` of a record whose event time was read as `event`.
pub fn priority_of_record(event: Option<Instant>, now: Instant) -> (score: i32)
    ensures
        score == record_priority(event, now),
{
    match event {
        Some(event) => priority(event, now),
        None => 0,
    }
}

/// At the very instant of its event a record is active, with priority 90.
pub proof fn lemma_at_event_time(event: Instant, now: Instant)
    requires
        event.position() == now.position(),
    ensures
        within_window(event, now),
        minutes_until(event, now) == 0,
        priority_at(event, now) == 90,
{
}

/// An event that lies 59 minutes ahead has priority 80.
pub proof fn lemma_fifty_nine_minutes_ahead(event: Instant, now: Instant)
    requires
        event.position() == now.position() + 59 * MINUTE_NANOS,
    ensures
        within_window(event, now),
        minutes_until(event, now) == 59,
        priority_at(event, now) == 80,
{
}

/// An event that lies two hours back is no longer active, and has priority
/// 100.
pub proof fn lemma_two_hours_past(event: Instant, now: Instant)
    requires
        event.position() == now.position() - 2 * WINDOW_NANOS,
    ensures
        !within_window(event, now),
        minutes_until(event, now) == -120,
        priority_at(event, now) == 100,
{
}

/// The bands by distance: priority depends only on the distance between
/// the event and `now`.
pub proof fn lemma_priority_bands(event: Instant, now: Instant)
    ensures
        event.position() - now.position() <= -MINUTE_NANOS <==> priority_at(event, now) == 100,
        -MINUTE_NANOS < event.position() - now.position() < 30 * MINUTE_NANOS <==> priority_at(
            event,
            now,
        ) == 90,
        30 * MINUTE_NANOS <= event.position() - now.position() < 60 * MINUTE_NANOS
            <==> priority_at(event, now) == 80,
        60 * MINUTE_NANOS <= event.position() - now.position() <==> priority_at(event, now) == 50,
{
}

} // verus!
