//! Places, positions, and each place's climate table.

use vstd::prelude::*;
use crate::clock::{Season, Time, sunrise_minutes, sunset_minutes};
use crate::weather::Sky;

verus! {

/// `x` held to the range of `i8`.
pub open spec fn clamp_i8(x: int) -> int {
    if x < -128 {
        -128
    } else if x > 127 {
        127
    } else {
        x
    }
}

/// Adds two `i8` values, stopping at the ends of the range instead of wrapping.
pub fn saturating_add_i8(a: i8, b: i8) -> (r: i8)
    ensures
        r == clamp_i8(a + b),
{
    let s: i16 = a as i16 + b as i16;
    if s < -128 {
        -128
    } else if s > 127 {
        127
    } else {
        s as i8
    }
}

/// A position within a place: offsets to the north and to the west.
#[derive(Clone, Copy, Debug, PartialEq, Eq, Structural)]
pub struct Coord {
    pub n: i8,
    pub w: i8,
}

impl Coord {
    /// The origin.
    pub fn new() -> (c: Coord)
        ensures
            c.n == 0,
            c.w == 0,
    {
        Coord { n: 0, w: 0 }
    }

    /// Moves by `other`, each offset saturating at the ends of its range.
    pub fn add_assign(&mut self, other: Coord)
        ensures
            final(self).n == clamp_i8(old(self).n + other.n),
            final(self).w == clamp_i8(old(self).w + other.w),
    {
        self.n = saturating_add_i8(self.n, other.n);
        self.w = saturating_add_i8(self.w, other.w);
    }
}

/// Index of a sky condition within a row of the sunlight table.
pub open spec fn sky_index(sky: Sky) -> nat {
    match sky {
        Sky::Clear => 0,
        Sky::Clouds => 1,
        Sky::Rain => 2,
    }
}

fn sky_slot(sky: Sky) -> (r: usize)
    ensures
        r == sky_index(sky),
{
    match sky {
        Sky::Clear => 0,
        Sky::Clouds => 1,
        Sky::Rain => 2,
    }
}

/// Entry `i` of a sunlight table for `season` falls outside sunrise..=sunset.
pub open spec fn is_dark_entry(season: Season, i: int) -> bool {
    i / 3 < sunrise_minutes(season) || i / 3 > sunset_minutes(season)
}

/// Number of entries of a sunlight table: one per minute of the day and sky condition.
pub const SUN_TABLE_LEN: usize = 4320;

/// The effect of the sun on temperature over one day of a season, for each minute and
/// sky condition: the bias of the base temperature, in -10..=10 degrees, and the sun's
/// part of the largest temperature step, in 0..=4 degrees. Outside sunrise..=sunset there
/// is no sun: the bias is -10 and the sun's part 0.
pub struct SunTable {
    season: Season,
    bias: Vec<i8>,
    change: Vec<i8>,
}

impl SunTable {
    #[verifier::type_invariant]
    spec fn table_wf(self) -> bool {
        &&& self.bias@.len() == 4320
        &&& self.change@.len() == 4320
        &&& forall|i: int| 0 <= i < 4320 ==> -10 <= #[trigger] self.bias@[i] <= 10
        &&& forall|i: int| 0 <= i < 4320 ==> 0 <= #[trigger] self.change@[i] <= 4
        &&& forall|i: int| 0 <= i < 4320 && #[trigger] is_dark_entry(self.season, i)
            ==> self.bias@[i] == -10 && self.change@[i] == 0
    }

    /// The season the table describes.
    pub closed spec fn season_of(self) -> Season {
        self.season
    }

    /// Bias of the base temperature at minute `m` under `sky`.
    pub closed spec fn bias_at(self, m: nat, sky: Sky) -> int {
        self.bias@[(3 * m + sky_index(sky)) as int] as int
    }

    /// The sun's part of the largest temperature step at minute `m` under `sky`.
    pub closed spec fn change_at(self, m: nat, sky: Sky) -> int {
        self.change@[(3 * m + sky_index(sky)) as int] as int
    }

    /// A table for `season` from the biases and sun parts, listed minute by minute with
    /// the skies Clear, Clouds, Rain in turn; `None` where a length or a value is out of range.
    pub fn new(season: Season, bias: Vec<i8>, change: Vec<i8>) -> (r: Option<SunTable>)
        ensures
            r is Some <==> {
                &&& bias@.len() == 4320
                &&& change@.len() == 4320
                &&& forall|i: int| 0 <= i < 4320 ==> -10 <= #[trigger] bias@[i] <= 10
                &&& forall|i: int| 0 <= i < 4320 ==> 0 <= #[trigger] change@[i] <= 4
                &&& forall|i: int| 0 <= i < 4320 && #[trigger] is_dark_entry(season, i)
                    ==> bias@[i] == -10 && change@[i] == 0
            },
            r matches Some(t) ==> t.season_of() == season && forall|m: nat, s: Sky|
                m < 1440 ==> #[trigger] t.bias_at(m, s) == bias@[(3 * m + sky_index(s)) as int]
                    && t.change_at(m, s) == change@[(3 * m + sky_index(s)) as int],
    {
        if bias.len() != SUN_TABLE_LEN || change.len() != SUN_TABLE_LEN {
            return None;
        }
        let (rise, set) = season.sunlight_times();
        let rise = rise.minute_of_day() as usize;
        let set = set.minute_of_day() as usize;
        let mut i: usize = 0;
        while i < SUN_TABLE_LEN
            invariant
                bias@.len() == 4320,
                change@.len() == 4320,
                i <= 4320,
                forall|j: int| 0 <= j < i ==> -10 <= #[trigger] bias@[j] <= 10,
                forall|j: int| 0 <= j < i ==> 0 <= #[trigger] change@[j] <= 4,
                forall|j: int| 0 <= j < i && #[trigger] is_dark_entry(season, j)
                    ==> bias@[j] == -10 && change@[j] == 0,
                rise == sunrise_minutes(season),
                set == sunset_minutes(season),
            decreases 4320 - i,
        {
            if bias[i] < -10 || bias[i] > 10 || change[i] < 0 || change[i] > 4 {
                return None;
            }
            let dark = i / 3 < rise || i / 3 > set;
            if dark && (bias[i] != -10 || change[i] != 0) {
                proof {
                    assert(is_dark_entry(season, i as int));
                }
                return None;
            }
            i = i + 1;
        }
        Some(SunTable { season, bias, change })
    }

    /// The season the table describes.
    pub fn season(&self) -> (s: Season)
        ensures
            s == self.season_of(),
    {
        self.season
    }

    /// Bias of the base temperature at `time` under `sky`.
    pub fn bias(&self, time: Time, sky: Sky) -> (r: i8)
        ensures
            r == self.bias_at(time.minutes(), sky),
            -10 <= r <= 10,
            (time.minutes() < sunrise_minutes(self.season_of()) || time.minutes() > sunset_minutes(self.season_of())) ==> r == -10,
    {
        proof { use_type_invariant(self); }
        let k: usize = 3 * time.minute_of_day() as usize + sky_slot(sky);
        proof {
            assert(k as int / 3 == time.minutes()) by (nonlinear_arith)
                requires k == 3 * time.minutes() + sky_index(sky), sky_index(sky) < 3;
            assert(is_dark_entry(self.season, k as int) == (time.minutes() < sunrise_minutes(self.season_of()) || time.minutes() > sunset_minutes(self.season_of())));
        }
        self.bias[k]
    }

    /// The sun's part of the largest temperature step at `time` under `sky`.
    pub fn change(&self, time: Time, sky: Sky) -> (r: i8)
        ensures
            r == self.change_at(time.minutes(), sky),
            0 <= r <= 4,
            (time.minutes() < sunrise_minutes(self.season_of()) || time.minutes() > sunset_minutes(self.season_of())) ==> r == 0,
    {
        proof { use_type_invariant(self); }
        let k: usize = 3 * time.minute_of_day() as usize + sky_slot(sky);
        proof {
            assert(k as int / 3 == time.minutes()) by (nonlinear_arith)
                requires k == 3 * time.minutes() + sky_index(sky), sky_index(sky) < 3;
            assert(is_dark_entry(self.season, k as int) == (time.minutes() < sunrise_minutes(self.season_of()) || time.minutes() > sunset_minutes(self.season_of())));
        }
        self.change[k]
    }
}

/// A kind of place, with the player's position in it.
#[derive(Clone, Copy, Debug, PartialEq, Eq, Structural)]
pub enum Location {
    Forest(Coord),
}

/// Flat base temperature of a place in a season, before the sun's bias.
pub open spec fn season_base(loc: Location, season: Season) -> int {
    match loc {
        Location::Forest(_) => match season {
            Season::Spring => 0,
            Season::Summer => 6,
            Season::Autumn => 9,
            Season::Winter => -5,
        },
    }
}

/// The temperature that a place tends toward at a moment.
pub open spec fn temp_base_spec(loc: Location, sun: SunTable, time: Time, sky: Sky) -> int {
    season_base(loc, sun.season_of()) + sun.bias_at(time.minutes(), sky)
}

/// The largest temperature step of one event at a moment.
pub open spec fn max_change_spec(sun: SunTable, time: Time, sky: Sky) -> int {
    sun.change_at(time.minutes(), sky) + 1
}

/// Chance, out of 100000 per minute, that a place's temperature moves.
pub open spec fn chance_temp_change_spec(loc: Location) -> u32 {
    match loc {
        Location::Forest(_) => 16667,
    }
}

/// Chance, out of 100000, that a temperature move heads toward the base.
pub open spec fn chance_temp_toward_base_spec(loc: Location) -> u32 {
    match loc {
        Location::Forest(_) => 60000,
    }
}

/// Chance, out of 100000 per minute, that a place's wind changes.
pub open spec fn chance_wind_change_spec(loc: Location) -> u32 {
    match loc {
        Location::Forest(_) => 1667,
    }
}

/// Chance, out of 100000, that a wind change is an increase.
pub open spec fn chance_wind_increase_spec(loc: Location) -> u32 {
    match loc {
        Location::Forest(_) => 50000,
    }
}

/// The sky transitions of a place, each with its chance out of 100000 per minute.
pub open spec fn chances_sky_spec(loc: Location) -> Seq<(u32, Sky)> {
    match loc {
        Location::Forest(_) => seq![(208u32, Sky::Clear), (417u32, Sky::Clouds), (139u32, Sky::Rain)],
    }
}

impl Location {
    /// The temperature this place tends toward in `season` at `time` under `sky`:
    /// the season's flat base plus the sun's bias.
    pub fn temp_base(&self, season: Season, time: Time, sky: Sky, sun: &SunTable) -> (r: i8)
        requires
            sun.season_of() == season,
        ensures
            r == temp_base_spec(*self, *sun, time, sky),
            -15 <= r <= 19,
            (time.minutes() < sunrise_minutes(season) || time.minutes() > sunset_minutes(season)) ==> r == season_base(*self, season) - 10,
    {
        let base: i8 = match self {
            Location::Forest(_) => match season {
                Season::Spring => 0,
                Season::Summer => 6,
                Season::Autumn => 9,
                Season::Winter => -5,
            },
        };
        base + sun.bias(time, sky)
    }

    /// The largest step of one temperature event in `season` at `time` under `sky`:
    /// the sun's part plus one, so at least one degree.
    pub fn temp_max_change(&self, season: Season, time: Time, sky: Sky, sun: &SunTable) -> (r: i8)
        requires
            sun.season_of() == season,
        ensures
            r == max_change_spec(*sun, time, sky),
            1 <= r <= 5,
            (time.minutes() < sunrise_minutes(season) || time.minutes() > sunset_minutes(season)) ==> r == 1,
    {
        sun.change(time, sky) + 1
    }

    /// Chance, out of 100000, that a temperature move heads toward the base.
    pub fn chance_temp_toward_base(&self) -> (r: u32)
        ensures
            r == chance_temp_toward_base_spec(*self),
    {
        match self {
            Location::Forest(_) => 60000,
        }
    }

    /// Chance, out of 100000 per minute, that the temperature moves.
    pub fn chance_temp_change(&self) -> (r: u32)
        ensures
            r == chance_temp_change_spec(*self),
    {
        match self {
            Location::Forest(_) => 16667,
        }
    }

    /// Chance, out of 100000 per minute, that the wind changes.
    pub fn chance_wind_change(&self) -> (r: u32)
        ensures
            r == chance_wind_change_spec(*self),
    {
        match self {
            Location::Forest(_) => 1667,
        }
    }

    /// Chance, out of 100000, that a wind change is an increase.
    pub fn chance_wind_increase(&self) -> (r: u32)
        ensures
            r == chance_wind_increase_spec(*self),
    {
        match self {
            Location::Forest(_) => 50000,
        }
    }

    /// The sky transitions, each a chance out of 100000 per minute and the sky it leads to.
    pub fn chances_sky(&self) -> (r: [(u32, Sky); 3])
        ensures
            r@ == chances_sky_spec(*self),
    {
        let r = match self {
            Location::Forest(_) => [(208u32, Sky::Clear), (417u32, Sky::Clouds), (139u32, Sky::Rain)],
        };
        assert(r@ =~= chances_sky_spec(*self));
        r
    }
}

} // verus!
