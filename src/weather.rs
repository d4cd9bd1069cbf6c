//! Sky, wind and temperature classes.

use vstd::prelude::*;

verus! {

/// What covers the sky. `Rain` reads as snow when it is below freezing.
#[derive(Clone, Copy, Debug, PartialEq, Eq, Structural)]
pub enum Sky {
    Clear,
    Clouds,
    Rain,
}

/// Strength of the wind, from calm to high.
#[derive(Clone, Copy, Debug, PartialEq, Eq, Structural)]
pub enum Wind {
    Calm,
    Light,
    Medium,
    High,
}

impl Wind {
    /// Position of the level in the order Calm < Light < Medium < High.
    pub open spec fn level(self) -> nat {
        match self {
            Wind::Calm => 0,
            Wind::Light => 1,
            Wind::Medium => 2,
            Wind::High => 3,
        }
    }

    /// Raises the wind one level; at `High` nothing changes. Reports whether it changed.
    pub fn increase(&mut self) -> (changed: bool)
        ensures
            changed == (old(self).level() < 3),
            final(self).level() == if old(self).level() < 3 {
                old(self).level() + 1
            } else {
                3
            },
    {
        let old_level = *self;
        let new_level = match old_level {
            Wind::Calm => Wind::Light,
            Wind::Light => Wind::Medium,
            Wind::Medium => Wind::High,
            Wind::High => Wind::High,
        };
        *self = new_level;
        old_level != new_level
    }

    /// Lowers the wind one level; at `Calm` nothing changes. Reports whether it changed.
    pub fn decrease(&mut self) -> (changed: bool)
        ensures
            changed == (old(self).level() > 0),
            final(self).level() == if old(self).level() > 0 {
                (old(self).level() - 1) as nat
            } else {
                0
            },
    {
        let old_level = *self;
        let new_level = match old_level {
            Wind::Calm => Wind::Calm,
            Wind::Light => Wind::Calm,
            Wind::Medium => Wind::Light,
            Wind::High => Wind::Medium,
        };
        *self = new_level;
        old_level != new_level
    }
}

/// A temperature class, as narration speaks of it.
#[derive(Clone, Copy, Debug, PartialEq, Eq, Structural)]
pub enum TempCat {
    Freezing,
    Chilly,
    Neutral,
    Warm,
    Hot,
}

/// The class of `temp` degrees Celsius.
pub open spec fn temp_cat(temp: int) -> TempCat {
    if temp <= 0 {
        TempCat::Freezing
    } else if temp <= 19 {
        TempCat::Chilly
    } else if temp <= 25 {
        TempCat::Neutral
    } else if temp <= 31 {
        TempCat::Warm
    } else {
        TempCat::Hot
    }
}

/// The adjective of a temperature class.
pub open spec fn adjective_text(c: TempCat) -> Seq<char> {
    match c {
        TempCat::Freezing => "frigid"@,
        TempCat::Chilly => "chilly"@,
        TempCat::Neutral => "light"@,
        TempCat::Warm => "warm"@,
        TempCat::Hot => "hot"@,
    }
}

impl TempCat {
    /// The class of `temp` degrees Celsius: up to 0 freezing, 1 to 19 chilly,
    /// 20 to 25 neutral, 26 to 31 warm, from 32 hot.
    pub fn classify(temp: i8) -> (c: TempCat)
        ensures
            c == temp_cat(temp as int),
    {
        if temp <= 0 {
            TempCat::Freezing
        } else if temp <= 19 {
            TempCat::Chilly
        } else if temp <= 25 {
            TempCat::Neutral
        } else if temp <= 31 {
            TempCat::Warm
        } else {
            TempCat::Hot
        }
    }

    /// The adjective that narration uses for this class.
    pub fn adjective(&self) -> (r: &'static str)
        ensures
            r@ == adjective_text(*self),
    {
        match self {
            TempCat::Freezing => "frigid",
            TempCat::Chilly => "chilly",
            TempCat::Neutral => "light",
            TempCat::Warm => "warm",
            TempCat::Hot => "hot",
        }
    }
}

} // verus!
