//! The day clock, seasons and the time-of-day buckets used for narration.

use vstd::prelude::*;

verus! {

use vstd::arithmetic::div_mod::{lemma_add_mod_noop, lemma_div_is_ordered, lemma_div_multiples_vanish, lemma_small_mod, lemma_mod_add_multiples_vanish};

/// Minutes in one hour.
pub const HOUR_MINS: u16 = 60;

/// Hours in one day.
pub const DAY_HOURS: u16 = 24;

/// Minutes in one day.
pub const DAY_MINS: u16 = 1440;

/// The minute reached from `m` after `hours` hours and `mins` minutes, wrapping at midnight.
pub open spec fn tick_minutes(m: nat, hours: nat, mins: nat) -> nat {
    ((m + 60 * hours + mins) % 1440) as nat
}

/// A moment of the day, counted in minutes since midnight.
#[derive(Clone, Copy, Debug)]
pub struct Time {
    mins: u16,
}

impl Time {
    #[verifier::type_invariant]
    spec fn in_day(self) -> bool {
        self.mins < DAY_MINS
    }

    /// Minutes since midnight.
    pub closed spec fn minutes(self) -> nat {
        self.mins as nat
    }

    /// The moment `hour`:`min`.
    pub fn new(hour: u8, min: u8) -> (t: Time)
        requires
            60 * hour + min < 1440,
        ensures
            t.minutes() == 60 * hour + min,
            t.minutes() < 1440,
    {
        Time { mins: hour as u16 * HOUR_MINS + min as u16 }
    }

    /// Minutes since midnight.
    pub fn minute_of_day(&self) -> (r: u16)
        ensures
            r == self.minutes(),
            r < 1440,
    {
        proof { use_type_invariant(self); }
        self.mins
    }

    /// The hour and the minute within the hour.
    pub fn get(&self) -> (r: (u8, u8))
        ensures
            r.0 == self.minutes() / 60,
            r.1 == self.minutes() % 60,
    {
        proof { use_type_invariant(self); }
        let hour = self.mins / HOUR_MINS;
        let min = self.mins % HOUR_MINS;
        (hour as u8, min as u8)
    }

    /// Moves the clock on by `hours` hours and then `mins` minutes, wrapping at midnight
    /// after each hour and after the minutes.
    pub fn tick(&mut self, hours: u8, mins: u8)
        ensures
            old(self).minutes() < 1440,
            final(self).minutes() < 1440,
            final(self).minutes() == tick_minutes(old(self).minutes(), hours as nat, mins as nat),
    {
        proof { use_type_invariant(&*self); }
        let ghost m0 = self.mins as int;
        let mut m: u16 = self.mins;
        let mut i: u8 = 0;
        while i < hours
            invariant
                i <= hours,
                m < 1440,
                m == (m0 + 60 * i) % 1440,
            decreases hours - i,
        {
            proof {
                lemma_add_mod_noop(m0 + 60 * i, 60, 1440);
                lemma_small_mod(60, 1440);
            }
            m = wrap_mins(m + HOUR_MINS);
            i = i + 1;
        }
        proof {
            lemma_add_mod_noop(m0 + 60 * hours, mins as int, 1440);
            lemma_small_mod(mins as nat, 1440);
        }
        m = wrap_mins(m + mins as u16);
        self.mins = m;
    }

    /// The time-of-day bucket of this moment in `season`.
    pub fn classify(&self, season: Season) -> (c: TimeCat)
        ensures
            c == time_cat(self.minutes(), season),
    {
        proof { use_type_invariant(self); }
        let (sunrise, sunset) = season.sunlight_times();
        proof {
            use_type_invariant(sunrise);
            use_type_invariant(sunset);
        }
        if self.mins < sunrise.mins || self.mins > sunset.mins {
            TimeCat::Night
        } else {
            let elapsed = (self.mins - sunrise.mins) as u32;
            let span = (sunset.mins - sunrise.mins) as u32;
            proof {
                assert(elapsed * 255 <= 1440 * 255) by (nonlinear_arith)
                    requires elapsed <= 1440;
            }
            let stretch = elapsed * 255 / span;
            proof {
                assert(elapsed * 255 <= span * 255) by (nonlinear_arith)
                    requires elapsed <= span;
                lemma_div_is_ordered((elapsed * 255) as int, (span * 255) as int, span as int);
                lemma_div_multiples_vanish(255, span as int);
            }
            stretch_cat(stretch as u8)
        }
    }
}

/// Keeps a minute count within one day.
fn wrap_mins(m: u16) -> (r: u16)
    ensures
        r == m % 1440,
        r < 1440,
{
    m % DAY_MINS
}

/// Moving the clock on by a whole day leaves it where it was.
pub proof fn lemma_full_day(m: nat)
    requires
        m < 1440,
    ensures
        tick_minutes(m, 24, 0) == m,
{
    lemma_mod_add_multiples_vanish(m as int, 1440);
    lemma_small_mod(m, 1440);
}

/// A part of the day, as narration speaks of it.
#[derive(Clone, Copy, Debug, PartialEq, Eq, Structural)]
pub enum TimeCat {
    Dawn,
    Morning,
    Noon,
    Afternoon,
    Dusk,
    Night,
}

/// The bucket of a daylight position rescaled to 0..=255.
pub open spec fn stretch_cat_spec(s: nat) -> TimeCat {
    if s <= 31 {
        TimeCat::Dawn
    } else if s <= 111 {
        TimeCat::Morning
    } else if s <= 143 {
        TimeCat::Noon
    } else if s <= 223 {
        TimeCat::Afternoon
    } else {
        TimeCat::Dusk
    }
}

/// The time-of-day bucket of minute `m` in `season`: night outside sunrise..=sunset,
/// otherwise the bucket of the position within daylight rescaled to 0..=255.
pub open spec fn time_cat(m: nat, season: Season) -> TimeCat {
    let rise = sunrise_minutes(season);
    let set = sunset_minutes(season);
    if m < rise || m > set {
        TimeCat::Night
    } else {
        stretch_cat_spec((((m - rise) * 255) as nat / (set - rise) as nat) as nat)
    }
}

fn stretch_cat(s: u8) -> (c: TimeCat)
    ensures
        c == stretch_cat_spec(s as nat),
{
    if s <= 31 {
        TimeCat::Dawn
    } else if s <= 111 {
        TimeCat::Morning
    } else if s <= 143 {
        TimeCat::Noon
    } else if s <= 223 {
        TimeCat::Afternoon
    } else {
        TimeCat::Dusk
    }
}

/// A season of the year; fixed for a session.
#[derive(Clone, Copy, Debug, PartialEq, Eq, Structural)]
pub enum Season {
    Spring,
    Summer,
    Autumn,
    Winter,
}

/// Minute of sunrise in `season`.
pub open spec fn sunrise_minutes(season: Season) -> nat {
    match season {
        Season::Spring => 480,
        Season::Summer => 240,
        Season::Autumn => 300,
        Season::Winter => 540,
    }
}

/// Minute of sunset in `season`.
pub open spec fn sunset_minutes(season: Season) -> nat {
    match season {
        Season::Spring => 1020,
        Season::Summer => 1350,
        Season::Autumn => 1290,
        Season::Winter => 900,
    }
}

impl Season {
    /// Sunrise and sunset of the season.
    pub fn sunlight_times(&self) -> (r: (Time, Time))
        ensures
            r.0.minutes() == sunrise_minutes(*self),
            r.1.minutes() == sunset_minutes(*self),
    {
        match self {
            Season::Spring => (Time::new(8, 0), Time::new(17, 0)),
            Season::Summer => (Time::new(4, 0), Time::new(22, 30)),
            Season::Autumn => (Time::new(5, 0), Time::new(21, 30)),
            Season::Winter => (Time::new(9, 0), Time::new(15, 0)),
        }
    }
}

} // verus!
