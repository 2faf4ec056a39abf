//! Absolute instants, held as plain numbers, and the two places where text
//! and instants meet.

use vstd::prelude::*;

verus! {

/// Nanoseconds in one second.
pub const NANOS_PER_SECOND: i128 = 1_000_000_000;

/// Why a text is no absolute instant.
#[derive(Clone, Copy, Debug, PartialEq, Eq)]
pub enum InstantError {
    /// The text cannot be read as an absolute instant.
    Unreadable,
}

/// An absolute instant: whole seconds since 1970-01-01T00:00:00Z, and the
/// nanoseconds past that second.
///
/// `nanos` may reach past one second (a leap second is written so); what
/// counts is `position`, the instant's place on the time line.
#[derive(Clone, Copy, Debug, PartialEq, Eq)]
pub struct Instant {
    pub secs: i64,
    pub nanos: u32,
}

impl Instant {
    /// The instant's place on the time line, in nanoseconds since the epoch.
    pub open spec fn position(self) -> int {
        self.secs * 1_000_000_000 + self.nanos
    }

    /// The instant `secs` whole seconds after the epoch.
    pub fn from_seconds(secs: i64) -> (instant: Instant)
        ensures
            instant == (Instant { secs, nanos: 0 }),
            instant.position() == secs * 1_000_000_000,
    {
        Instant { secs, nanos: 0 }
    }

    /// The instant's place on the time line, as a machine number.
    pub fn nanos_since_epoch(&self) -> (p: i128)
        ensures
            p == self.position(),
    {
        (self.secs as i128) * NANOS_PER_SECOND + (self.nanos as i128)
    }

    /// Whether this instant comes strictly before `other`.
    pub fn is_before(&self, other: &Instant) -> (before: bool)
        ensures
            before == (self.position() < other.position()),
    {
        self.nanos_since_epoch() < other.nanos_since_epoch()
    }

    /// This instant moved by `seconds`; `None` when the seconds no longer fit.
    pub fn plus_seconds(&self, seconds: i64) -> (moved: Option<Instant>)
        ensures
            match moved {
                Some(m) => m.position() == self.position() + seconds * 1_000_000_000
                    && m.nanos == self.nanos && m.secs == self.secs + seconds,
                None => self.secs + seconds < i64::MIN || self.secs + seconds > i64::MAX,
            },
    {
        match self.secs.checked_add(seconds) {
            Some(secs) => Some(Instant { secs, nanos: self.nanos }),
            None => None,
        }
    }
}

/// What reading `text` as an absolute instant gives: the instant, or `None`
/// where the text is no such instant.
pub uninterp spec fn instant_of_text(text: Seq<char>) -> Option<Instant>;

/// How the instant `instant` is written with whole seconds and a `Z` for the
/// offset, or `None` where the calendar cannot hold it.
pub uninterp spec fn text_of_instant(instant: Instant) -> Option<Seq<char>>;

/// Reads `text` with chrono's `FromStr` for `DateTime<Utc>` (a relaxed
/// RFC 3339, offset required) and hands out the timestamp and its
/// sub-second nanoseconds. The contract only names the outcome: the same
/// text always reads the same way.
#[verifier::external_body]
pub(crate) fn read_instant(text: &str) -> (read: Option<Instant>)
    ensures
        read == instant_of_text(text@),
{
    match text.parse::<chrono::DateTime<chrono::Utc>>() {
        Ok(moment) => Some(Instant {
            secs: moment.timestamp(),
            nanos: moment.timestamp_subsec_nanos(),
        }),
        Err(_) => None,
    }
}

/// Writes an instant with chrono's `DateTime::to_rfc3339_opts`, seconds only
/// and `Z` for UTC, after `DateTime::from_timestamp` has accepted the two
/// numbers. The contract only names the outcome.
#[verifier::external_body]
fn write_instant(instant: Instant) -> (written: Option<String>)
    ensures
        written.deep_view() == text_of_instant(instant),
{
    match chrono::DateTime::from_timestamp(instant.secs, instant.nanos) {
        Some(moment) => Some(moment.to_rfc3339_opts(chrono::SecondsFormat::Secs, true)),
        None => None,
    }
}

/// The whole second in which the position `p` lies.
pub open spec fn whole_second(p: int) -> int {
    p / 1_000_000_000
}

impl Instant {
    /// The start of the whole second in which this instant lies.
    pub open spec fn second_start(self) -> Instant {
        Instant { secs: whole_second(self.position()) as i64, nanos: 0 }
    }

    /// The canonical text of this instant: that of the start of its whole
    /// second, where the second can be held and written.
    pub open spec fn canonical_text_of(self) -> Option<Seq<char>> {
        if whole_second(self.position()) <= i64::MAX {
            text_of_instant(self.second_start())
        } else {
            None
        }
    }

    /// Reads an absolute instant from text: date, time of day and offset,
    /// as in `2025-01-20T10:00:00Z`.
    pub fn parse(text: &str) -> (read: Result<Instant, InstantError>)
        ensures
            match read {
                Ok(instant) => instant_of_text(text@) == Some(instant),
                Err(_) => instant_of_text(text@) is None,
            },
    {
        match read_instant(text) {
            Some(instant) => Ok(instant),
            None => Err(InstantError::Unreadable),
        }
    }

    /// The same place on the time line with less than a second of
    /// nanoseconds; `None` when the seconds no longer fit.
    pub fn normalized(&self) -> (same: Option<Instant>)
        ensures
            match same {
                Some(n) => n.position() == self.position() && n.nanos < 1_000_000_000,
                None => whole_second(self.position()) > i64::MAX,
            },
    {
        let carry: i64 = (self.nanos / 1_000_000_000) as i64;
        match self.secs.checked_add(carry) {
            Some(secs) => Some(Instant { secs, nanos: self.nanos % 1_000_000_000 }),
            None => None,
        }
    }

    /// The canonical text of this instant: its whole second, written in
    /// UTC. `None` where the second does not fit the calendar.
    pub fn canonical_text(&self) -> (written: Option<String>)
        ensures
            written.deep_view() == self.canonical_text_of(),
    {
        match self.normalized() {
            Some(same) => write_instant(Instant { secs: same.secs, nanos: 0 }),
            None => None,
        }
    }
}

} // verus!
