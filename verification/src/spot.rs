//! Value types for spotting events and the pure temporal queries over them.
//!
//! An instant is kept as seconds since the Unix epoch. Ordering instants is
//! then plain integer ordering, the same order whatever zone a caller later
//! renders them in; rendering a zoned date is presentation and happens
//! outside the library.

use vstd::prelude::*;

verus! {

/// An instant: seconds since the Unix epoch (UTC).
pub type DateTime = i64;

/// A non-negative time span, in seconds.
pub type Duration = u64;

/// Builds an instant from a UTC epoch-seconds timestamp. Instants are kept
/// as the timestamp itself; zoned rendering is left to the caller.
pub fn from_utc_timestamp(t: i64) -> (r: DateTime)
    ensures
        r == t,
{
    t
}

/// A daytime window: the sunrise and sunset instants of one reference date.
pub struct DayTime {
    pub sunrise: DateTime,
    pub sunset: DateTime,
}

impl DayTime {
    /// A window is well formed when sunrise does not come after sunset.
    /// Callers supply pre-validated windows; the library never reorders them.
    pub open spec fn wf(self) -> bool {
        self.sunrise <= self.sunset
    }

    /// Builds a window from UTC epoch-seconds timestamps.
    pub fn from_utc(sunrise_utc: i64, sunset_utc: i64) -> (r: DayTime)
        requires
            sunrise_utc <= sunset_utc,
        ensures
            r.sunrise == sunrise_utc,
            r.sunset == sunset_utc,
            r.wf(),
    {
        DayTime {
            sunrise: from_utc_timestamp(sunrise_utc),
            sunset: from_utc_timestamp(sunset_utc),
        }
    }

    /// Darkness: strictly before sunrise or strictly after sunset. Instants
    /// exactly at sunrise or sunset count as daytime.
    pub open spec fn spec_at_night(self, datetime: DateTime) -> bool {
        datetime < self.sunrise || datetime > self.sunset
    }

    /// Whether `datetime` falls in darkness under this window.
    pub fn at_night(&self, datetime: &DateTime) -> (r: bool)
        ensures
            r == self.spec_at_night(*datetime),
    {
        *datetime < self.sunrise || *datetime > self.sunset
    }
}

/// Law: under a well-formed window the boundary instants are daytime: an
/// instant exactly at sunrise or exactly at sunset is never night.
pub proof fn lemma_window_bounds_are_day(w: DayTime)
    requires
        w.wf(),
    ensures
        !w.spec_at_night(w.sunrise),
        !w.spec_at_night(w.sunset),
{
}

/// One predicted spotting event: a rise instant and a visible duration.
#[derive(Copy, Clone)]
pub struct Spot {
    pub duration: Duration,
    pub risetime: DateTime,
}

impl Spot {
    /// Visible at `now`: already risen and not yet set, that is
    /// `risetime <= now < risetime + duration`.
    pub open spec fn spec_is_spottable(self, now: DateTime) -> bool {
        now >= self.risetime && (now as int) < self.risetime as int + self.duration as int
    }

    /// Whether the event is visible at `now`.
    pub fn is_spottable(&self, now: DateTime) -> (r: bool)
        ensures
            r == self.spec_is_spottable(now),
    {
        now >= self.risetime
            && (now as i128) < (self.risetime as i128) + (self.duration as i128)
    }

    /// Whether the event rises in darkness under `daytime`.
    pub open spec fn spec_at_night(self, daytime: DayTime) -> bool {
        daytime.spec_at_night(self.risetime)
    }

    /// Whether the event's rise instant falls in darkness under `daytime`.
    pub fn at_night(&self, daytime: &DayTime) -> (r: bool)
        ensures
            r == self.spec_at_night(*daytime),
    {
        daytime.at_night(&self.risetime)
    }
}

/// The optional window as a value, as contracts speak of it.
pub open spec fn window_of(daytime: Option<&DayTime>) -> Option<DayTime> {
    match daytime {
        Some(w) => Some(*w),
        None => None,
    }
}

/// An event is an upcoming candidate at `now` under an optional window when
/// it rises strictly after `now` and, if a window is given, rises in
/// darkness.
pub open spec fn upcoming_ok(s: Spot, daytime: Option<DayTime>, now: DateTime) -> bool {
    s.risetime > now && match daytime {
        Some(w) => s.spec_at_night(w),
        None => true,
    }
}

/// Law: without a window an event is an upcoming candidate exactly when it
/// rises strictly after `now`; an empty collection or one whose rises are
/// all at or before `now` therefore has no candidate.
pub proof fn lemma_upcoming_ok_no_window(s: Spot, now: DateTime)
    ensures
        upcoming_ok(s, None, now) == (s.risetime > now),
{
}

/// Law: under a window an event is an upcoming candidate exactly when it
/// rises strictly after `now` and its rise falls in darkness; a daytime
/// riser is never a candidate, however soon it rises.
pub proof fn lemma_upcoming_ok_window(s: Spot, w: DayTime, now: DateTime)
    ensures
        upcoming_ok(s, Some(w), now) == (s.risetime > now && w.spec_at_night(s.risetime)),
{
}

/// Returns the first event in collection order that rises strictly after
/// `now` and, when a window is given, rises in darkness. An upcoming event
/// that rises in daytime is skipped, not fatal: the scan goes on to later
/// events. Returns nothing when no event qualifies.
pub fn find_upcoming(spots: &Vec<Spot>, daytime: Option<&DayTime>, now: DateTime) -> (r: Option<
    Spot,
>)
    ensures
        match r {
            Some(s) => exists|i: int|
                0 <= i < spots@.len() && #[trigger] upcoming_ok(spots@[i], window_of(daytime), now)
                    && s == spots@[i] && (forall|j: int|
                    0 <= j < i ==> !upcoming_ok(spots@[j], window_of(daytime), now)),
            None => forall|i: int|
                0 <= i < spots@.len() ==> !#[trigger] upcoming_ok(
                    spots@[i],
                    window_of(daytime),
                    now,
                ),
        },
{
    let mut i: usize = 0;
    while i < spots.len()
        invariant
            i <= spots@.len(),
            forall|j: int| 0 <= j < i ==> !#[trigger] upcoming_ok(spots@[j], window_of(daytime), now),
        decreases spots@.len() - i,
    {
        let s = spots[i];
        if s.risetime > now {
            match daytime {
                Some(dt) => {
                    if s.at_night(dt) {
                        assert(upcoming_ok(spots@[i as int], window_of(daytime), now));
                        return Some(s);
                    }
                },
                None => {
                    assert(upcoming_ok(spots@[i as int], window_of(daytime), now));
                    return Some(s);
                },
            }
        }
        i += 1;
    }
    None
}

/// Returns the one event whose visibility interval contains `now`, if any.
/// When a window is given and that event rises in daytime, the answer is
/// nothing: the scan stops at the containing event rather than looking
/// further (passes do not overlap, so no later candidate exists anyway).
pub fn find_current(spots: &Vec<Spot>, daytime: Option<&DayTime>, now: DateTime) -> (r: Option<
    Spot,
>)
    ensures
        (forall|i: int| 0 <= i < spots@.len() ==> !#[trigger] spots@[i].spec_is_spottable(now))
            ==> r is None,
        forall|i: int|
            (0 <= i < spots@.len() && #[trigger] spots@[i].spec_is_spottable(now) && (forall|
                j: int,
            |
                0 <= j < i ==> !spots@[j].spec_is_spottable(now))) ==> r == (match window_of(
                daytime,
            ) {
                Some(w) => if spots@[i].spec_at_night(w) {
                    Some(spots@[i])
                } else {
                    None
                },
                None => Some(spots@[i]),
            }),
{
    let mut i: usize = 0;
    while i < spots.len()
        invariant
            i <= spots@.len(),
            forall|j: int| 0 <= j < i ==> !#[trigger] spots@[j].spec_is_spottable(now),
        decreases spots@.len() - i,
    {
        let s = spots[i];
        if s.is_spottable(now) {
            match daytime {
                Some(dt) => {
                    if s.at_night(dt) {
                        return Some(s);
                    } else {
                        return None;
                    }
                },
                None => {
                    return Some(s);
                },
            }
        }
        i += 1;
    }
    None
}

} // verus!

