//! A play session: the clock, the weather and the place, driven by player actions.

use vstd::prelude::*;
use crate::action::{Action, Direction, direction_label};
use crate::clock::{Season, Time, TimeCat, time_cat, tick_minutes};
use crate::location::{
    Coord, Location, SunTable, clamp_i8, saturating_add_i8, temp_base_spec, max_change_spec,
    chance_temp_change_spec, chance_temp_toward_base_spec, chance_wind_change_spec,
    chance_wind_increase_spec, chances_sky_spec,
};
use crate::narrator::{
    place_text, cloudy_text, air_text, daylight_text, sky_change_text, place_line, air_line,
    daylight_line, sky_change_line,
};
use crate::rng::{Stream, roll, roll_magnitude, coin};
use crate::weather::{Sky, TempCat, Wind, temp_cat};

verus! {

/// A line of narration followed by its line break.
pub open spec fn line(s: Seq<char>) -> Seq<char> {
    s + "\n"@
}

/// The full description of a scene: the place, a cloud line under clouds, the air, and
/// the time of day, one line each.
pub open spec fn description_text(
    loc: Location,
    sky: Sky,
    wind: Wind,
    temp: int,
    tc: TimeCat,
) -> Seq<char> {
    line(place_text(loc)) + (if sky == Sky::Clouds {
        line(cloudy_text())
    } else {
        Seq::empty()
    }) + line(air_text(wind, sky, temp_cat(temp))) + line(daylight_text(tc, sky))
}

/// The line that reports the felt change from `before` to `after` degrees, if any.
pub open spec fn feel_text(before: int, after: int) -> Seq<char> {
    if after < before {
        line("it feels colder."@)
    } else if after > before {
        line("it feels warmer."@)
    } else {
        Seq::empty()
    }
}

/// The line said on walking in direction `d`.
pub open spec fn head_text(d: Direction) -> Seq<char> {
    line("you head "@ + direction_label(d) + "."@)
}

/// The northward part of a unit step in direction `d`.
pub open spec fn step_north(d: Direction) -> int {
    match d {
        Direction::North => 1,
        Direction::South => -1,
        _ => 0,
    }
}

/// The westward part of a unit step in direction `d`.
pub open spec fn step_west(d: Direction) -> int {
    match d {
        Direction::West => 1,
        Direction::East => -1,
        _ => 0,
    }
}

/// The line told when the wind rises a level.
pub open spec fn wind_up_text() -> Seq<char> {
    "the wind speeds up."@
}

/// The line told when the wind drops a level.
pub open spec fn wind_down_text() -> Seq<char> {
    "the wind slows down."@
}

/// `l` is a line of the sky-change table.
pub open spec fn is_sky_line(l: Seq<char>) -> bool {
    exists|from: Sky, to: Sky, freezing: bool| #[trigger] sky_change_text(from, to, freezing) == Some(l)
}

/// `l` is a line that a weather event tells: a wind change or a sky change.
pub open spec fn is_event_line(l: Seq<char>) -> bool {
    l == wind_up_text() || l == wind_down_text() || is_sky_line(l)
}

/// The lines `ls`, each followed by its line break.
pub open spec fn lines_text(ls: Seq<Seq<char>>) -> Seq<char>
    decreases ls.len(),
{
    if ls.len() == 0 {
        Seq::empty()
    } else {
        lines_text(ls.drop_last()) + line(ls.last())
    }
}

/// `out` is `head`, then lines of weather events, then `tail`.
pub open spec fn told_between(out: Seq<char>, head: Seq<char>, tail: Seq<char>) -> bool {
    exists|events: Seq<Seq<char>>|
        (forall|i: int| 0 <= i < events.len() ==> is_event_line(#[trigger] events[i]))
            && out == head + lines_text(events) + tail
}

/// Telling one more line adds it to the text of the lines told.
proof fn lemma_lines_push(ls: Seq<Seq<char>>, l: Seq<char>)
    ensures
        lines_text(ls.push(l)) == lines_text(ls) + line(l),
{
    assert(ls.push(l).drop_last() =~= ls);
}

/// The wind after one minute's wind event, and the line it tells: nothing happens unless
/// `change_roll` is below the place's chance of a wind change; then the wind rises a level
/// when `increase_roll` is below the chance of an increase and drops a level otherwise,
/// telling so only when the level actually changed.
pub fn wind_event(wind: Wind, change_roll: u32, increase_roll: u32, loc: &Location) -> (r: (Wind, Option<&'static str>))
    ensures
        change_roll >= chance_wind_change_spec(*loc) ==> r.0 == wind && r.1 is None,
        change_roll < chance_wind_change_spec(*loc) && increase_roll < chance_wind_increase_spec(*loc) ==> {
            &&& r.0.level() == if wind.level() < 3 { wind.level() + 1 } else { 3 }
            &&& (r.1 is Some <==> wind.level() < 3)
            &&& r.1 matches Some(l) ==> l@ == wind_up_text()
        },
        change_roll < chance_wind_change_spec(*loc) && increase_roll >= chance_wind_increase_spec(*loc) ==> {
            &&& r.0.level() == if wind.level() > 0 { (wind.level() - 1) as nat } else { 0 }
            &&& (r.1 is Some <==> wind.level() > 0)
            &&& r.1 matches Some(l) ==> l@ == wind_down_text()
        },
{
    let mut w = wind;
    if change_roll < loc.chance_wind_change() {
        if increase_roll < loc.chance_wind_increase() {
            if w.increase() {
                return (w, Some("the wind speeds up."));
            }
        } else {
            if w.decrease() {
                return (w, Some("the wind slows down."));
            }
        }
    }
    (w, None)
}

/// The sky after one entry of the sky table is rolled, and the line it tells: when `roll`
/// is below the entry's chance the sky becomes its target, with the table's line for that
/// change; otherwise nothing happens.
pub fn sky_event(sky: Sky, roll: u32, entry: (u32, Sky), freezing: bool) -> (r: (Sky, Option<&'static str>))
    ensures
        roll < entry.0 ==> r.0 == entry.1 && (r.1 is Some == sky_change_text(sky, entry.1, freezing) is Some)
            && (r.1 matches Some(l) ==> sky_change_text(sky, entry.1, freezing) == Some(l@)),
        roll >= entry.0 ==> r.0 == sky && r.1 is None,
{
    let (chance, target) = entry;
    if roll < chance {
        (target, sky_change_line(sky, target, freezing))
    } else {
        (sky, None)
    }
}

/// The line said on waiting.
pub open spec fn wait_text() -> Seq<char> {
    line("some time passes."@)
}

/// The announcement that the scene has changed, with the blank line after it.
pub open spec fn changed_text() -> Seq<char> {
    line("your surroundings look different."@) + line(Seq::empty())
}

/// The temperature after one temperature event: a step of `magnitude` degrees away from
/// or toward `base`, or, at the base, down when `coin` and up otherwise; saturating.
pub open spec fn temp_step_spec(
    temp: int,
    base: int,
    magnitude: int,
    toward_base: bool,
    coin: bool,
) -> int {
    let up = if temp < base {
        toward_base
    } else if temp > base {
        !toward_base
    } else {
        !coin
    };
    clamp_i8(if up {
        temp + magnitude
    } else {
        temp - magnitude
    })
}

/// The temperature after one temperature event at `temp` with the base at `base`: it moves
/// by `magnitude` toward the base when `toward_base` and away from it otherwise; at the
/// base it moves down when `coin` and up otherwise. The result saturates.
pub fn step_temperature(temp: i8, base: i8, magnitude: i8, toward_base: bool, coin: bool) -> (r: i8)
    requires
        magnitude > i8::MIN,
    ensures
        r == temp_step_spec(temp as int, base as int, magnitude as int, toward_base, coin),
{
    let delta: i8 = if temp < base {
        if toward_base { magnitude } else { -magnitude }
    } else if temp > base {
        if toward_base { -magnitude } else { magnitude }
    } else {
        if coin { -magnitude } else { magnitude }
    };
    saturating_add_i8(temp, delta)
}

/// Appends `s` and a line break to `out`.
fn say(out: &mut String, s: &str)
    ensures
        final(out)@ == old(out)@ + line(s@),
{
    out.append(s);
    out.append("\n");
}

/// A scene reads the same wherever in the place it is seen and at whatever temperature of
/// one class: only the sky, the wind, the temperature class and the part of the day show.
/// So a session whose weather and part of the day stay put tells no change.
pub proof fn lemma_scene_reads_same(
    c1: Coord,
    c2: Coord,
    sky: Sky,
    wind: Wind,
    t1: int,
    t2: int,
    tc: TimeCat,
)
    requires
        temp_cat(t1) == temp_cat(t2),
    ensures
        description_text(Location::Forest(c1), sky, wind, t1, tc) == description_text(
            Location::Forest(c2),
            sky,
            wind,
            t2,
            tc,
        ),
{
}

/// One play session.
pub struct Context {
    rng: Stream,
    sun: SunTable,
    last_desc: String,
    loc: Location,
    time: Time,
    season: Season,
    sky: Sky,
    wind: Wind,
    temp: i8,
}

impl Context {
    /// The place and position.
    pub closed spec fn loc_of(self) -> Location {
        self.loc
    }

    /// The clock.
    pub closed spec fn time_of(self) -> Time {
        self.time
    }

    /// The season.
    pub closed spec fn season_of(self) -> Season {
        self.season
    }

    /// The sky.
    pub closed spec fn sky_of(self) -> Sky {
        self.sky
    }

    /// The wind.
    pub closed spec fn wind_of(self) -> Wind {
        self.wind
    }

    /// The temperature in degrees Celsius.
    pub closed spec fn temp_of(self) -> int {
        self.temp as int
    }

    /// The sunlight table of the session's season.
    pub closed spec fn sun_of(self) -> SunTable {
        self.sun
    }

    /// The description last told in full.
    pub closed spec fn last_description(self) -> Seq<char> {
        self.last_desc@
    }

    /// The session's invariant: the sunlight table is that of the session's season.
    pub closed spec fn wf(self) -> bool {
        self.sun.season_of() == self.season
    }

    /// The description of the current scene.
    pub open spec fn description(self) -> Seq<char> {
        description_text(
            self.loc_of(),
            self.sky_of(),
            self.wind_of(),
            self.temp_of(),
            time_cat(self.time_of().minutes(), self.season_of()),
        )
    }

    /// A session in a forest at 06:00 in winter, under rain and a high wind, at the base
    /// temperature, having told nothing yet but remembering the scene as told.
    pub fn spawn(rng: Stream, sun: SunTable) -> (c: Context)
        requires
            sun.season_of() == Season::Winter,
        ensures
            c.wf(),
            c.loc_of() == Location::Forest(Coord { n: 0, w: 0 }),
            c.time_of().minutes() == 360,
            c.season_of() == Season::Winter,
            c.sky_of() == Sky::Rain,
            c.wind_of() == Wind::High,
            c.sun_of() == sun,
            c.temp_of() == temp_base_spec(c.loc_of(), sun, c.time_of(), Sky::Rain),
            c.temp_of() == -15,
            c.last_description() == c.description(),
    {

        let loc = Location::Forest(Coord::new());
        let time = Time::new(6, 0);
        let season = Season::Winter;
        let sky = Sky::Rain;
        let wind = Wind::High;
        let temp = loc.temp_base(season, time, sky, &sun);
        let mut ctx = Context {
            rng,
            sun,
            last_desc: String::new(),
            loc,
            time,
            season,
            sky,
            wind,
            temp,
        };
        ctx.last_desc = ctx.describe();
        ctx
    }

    /// The full description of the current scene.
    pub fn describe(&self) -> (r: String)
        ensures
            r@ == self.description(),
    {
        let mut r = String::new();
        say(&mut r, place_line(&self.loc));
        if self.sky == Sky::Clouds {
            say(&mut r, "it is cloudy.");
        }
        say(&mut r, air_line(self.wind, self.sky, TempCat::classify(self.temp)));
        say(&mut r, daylight_line(self.time.classify(self.season), self.sky));
        proof {
            assert(r@ =~= self.description());
        }
        r
    }

    /// Moves the clock on by `hours` hours and `mins` minutes, and lets the weather drift
    /// for each minute of it: a temperature event, a wind event and the sky transitions,
    /// in that order, each on its own draws. Wind and sky changes are told as they happen;
    /// the temperature reached by the last temperature event is told and kept at the end.
    fn time_tick(&mut self, hours: u8, mins: u8, out: &mut String)
        requires
            old(self).wf(),
        ensures
            final(self).wf(),
            final(self).time_of().minutes()
                == tick_minutes(old(self).time_of().minutes(), hours as nat, mins as nat),
            final(self).loc_of() == old(self).loc_of(),
            final(self).season_of() == old(self).season_of(),
            final(self).sun_of() == old(self).sun_of(),
            final(self).last_description() == old(self).last_description(),
            final(self).temp_of() == old(self).temp_of() || exists|m: int, toward: bool, coin: bool, s: Sky|
                1 <= m <= max_change_spec(old(self).sun_of(), final(self).time_of(), s)
                && final(self).temp_of() == #[trigger] temp_step_spec(
                    old(self).temp_of(),
                    temp_base_spec(old(self).loc_of(), old(self).sun_of(), final(self).time_of(), s),
                    m,
                    toward,
                    coin,
                ),
            final(self).wind_of().level() <= old(self).wind_of().level() + 60 * hours + mins,
            old(self).wind_of().level() <= final(self).wind_of().level() + 60 * hours + mins,
            told_between(final(out)@, old(out)@, feel_text(old(self).temp_of(), final(self).temp_of())),
            final(self).sky_of() != old(self).sky_of() ==> exists|ls: Seq<Seq<char>>, j: int|
                0 <= j < ls.len() && is_sky_line(#[trigger] ls[j])
                && final(out)@ == old(out)@ + lines_text(ls) + feel_text(old(self).temp_of(), final(self).temp_of()),
    {
        self.time.tick(hours, mins);
        let total_mins: u16 = hours as u16 * 60 + mins as u16;
        let mut new_temp: i8 = self.temp;
        let ghost mut ls: Seq<Seq<char>> = Seq::empty();
        let ghost out0: Seq<char> = out@;
        let ghost self0 = *self;
        let mut i: u16 = 0;
        while i < total_mins
            invariant
                self.wf(),
                self.time == self0.time,
                self.loc == self0.loc,
                self.season == self0.season,
                self.sun == self0.sun,
                self.last_desc == self0.last_desc,
                self.temp == self0.temp,
                i <= total_mins,
                total_mins == 60 * hours + mins,
                self.wind.level() <= self0.wind.level() + i,
                self0.wind.level() <= self.wind.level() + i,
                out@ == out0 + lines_text(ls),
                forall|k: int| 0 <= k < ls.len() ==> is_event_line(#[trigger] ls[k]),
                self.sky != self0.sky ==> exists|j: int| 0 <= j < ls.len() && is_sky_line(#[trigger] ls[j]),
                new_temp == self.temp || exists|m: int, toward: bool, coin: bool, s: Sky|
                    1 <= m <= max_change_spec(self.sun, self.time, s)
                    && new_temp == #[trigger] temp_step_spec(
                        self.temp as int,
                        temp_base_spec(self.loc, self.sun, self.time, s),
                        m,
                        toward,
                        coin,
                    ),
            decreases total_mins - i,
        {
            // temperature
            if roll(&mut self.rng) < self.loc.chance_temp_change() {
                let max = self.loc.temp_max_change(self.season, self.time, self.sky, &self.sun);
                let magnitude = roll_magnitude(&mut self.rng, max as u8) as i8;
                let toward_base = roll(&mut self.rng) < self.loc.chance_temp_toward_base();
                let base = self.loc.temp_base(self.season, self.time, self.sky, &self.sun);
                let at_base_down = if self.temp == base {
                    coin(&mut self.rng)
                } else {
                    false
                };
                new_temp = step_temperature(self.temp, base, magnitude, toward_base, at_base_down);
                proof {
                    let s = self.sky;
                    assert(1 <= magnitude as int <= max_change_spec(self.sun, self.time, s)
                        && new_temp == temp_step_spec(
                        self.temp as int,
                        temp_base_spec(self.loc, self.sun, self.time, s),
                        magnitude as int,
                        toward_base,
                        at_base_down,
                    ));
                }
            }
            // wind
            let change_roll = roll(&mut self.rng);
            let increase_roll = if change_roll < self.loc.chance_wind_change() {
                roll(&mut self.rng)
            } else {
                0
            };
            let (wind, told) = wind_event(self.wind, change_roll, increase_roll, &self.loc);
            self.wind = wind;
            match told {
                Some(l) => {
                    proof {
                        lemma_lines_push(ls, l@);
                        if self.sky != self0.sky {
                            let j = choose|j: int| 0 <= j < ls.len() && is_sky_line(#[trigger] ls[j]);
                            assert(ls.push(l@)[j] == ls[j]);
                        }
                        ls = ls.push(l@);
                    }
                    say(out, l);
                },
                None => {},
            }
            // sky
            let chances = self.loc.chances_sky();
            let mut k: usize = 0;
            while k < 3
                invariant
                    self.wf(),
                    self.time == self0.time,
                    self.loc == self0.loc,
                    self.season == self0.season,
                    self.sun == self0.sun,
                    self.last_desc == self0.last_desc,
                    self.temp == self0.temp,
                    self.wind == wind,
                    k <= 3,
                    out@ == out0 + lines_text(ls),
                    forall|q: int| 0 <= q < ls.len() ==> is_event_line(#[trigger] ls[q]),
                    self.sky != self0.sky ==> exists|j: int| 0 <= j < ls.len() && is_sky_line(#[trigger] ls[j]),
                decreases 3 - k,
            {
                let r = roll(&mut self.rng);
                let (sky, told) = sky_event(self.sky, r, chances[k], self.temp < 0);
                let ghost was = self.sky;
                self.sky = sky;
                match told {
                    Some(l) => {
                        proof {
                            assert(sky_change_text(was, sky, self.temp < 0) == Some(l@));
                            lemma_lines_push(ls, l@);
                            if self.sky != self0.sky && was == self.sky {
                                let j = choose|j: int| 0 <= j < ls.len() && is_sky_line(#[trigger] ls[j]);
                                assert(ls.push(l@)[j] == ls[j]);
                            }
                            ls = ls.push(l@);
                            assert(is_sky_line(ls[ls.len() - 1]));
                        }
                        say(out, l);
                    },
                    None => {
                        proof {
                            if was != sky {
                                assert(sky_change_text(was, sky, self.temp < 0) is Some);
                            }
                        }
                    },
                }
                k = k + 1;
            }
            i = i + 1;
        }
        let ghost before = self.temp as int;
        if new_temp < self.temp {
            say(out, "it feels colder.");
        } else if new_temp > self.temp {
            say(out, "it feels warmer.");
        }
        self.temp = new_temp;
        proof {
            let feel = feel_text(before, new_temp as int);
            assert(out@ =~= out0 + lines_text(ls) + feel);
            assert(told_between(out@, out0, feel));
            if self.sky != self0.sky {
                let j = choose|j: int| 0 <= j < ls.len() && is_sky_line(#[trigger] ls[j]);
                assert(0 <= j < ls.len() && is_sky_line(ls[j]) && out@ == out0 + lines_text(ls) + feel);
            }
        }
    }

    /// The actions offered to the player, in menu order.
    pub fn available_actions(&self) -> (r: Vec<Action>)
        ensures
            r@ == seq![Action::Describe, Action::Go, Action::Wait, Action::Quit],
    {
        let r = vec![Action::Describe, Action::Go, Action::Wait, Action::Quit];
        assert(r@ =~= seq![Action::Describe, Action::Go, Action::Wait, Action::Quit]);
        r
    }

    /// The directions offered to the player, in menu order.
    pub fn available_directions(&self) -> (r: Vec<Direction>)
        ensures
            r@ == seq![Direction::North, Direction::South, Direction::East, Direction::West],
    {
        let mut dirs = Vec::new();
        dirs.push(Direction::North);
        dirs.push(Direction::South);
        dirs.push(Direction::East);
        dirs.push(Direction::West);
        assert(dirs@ =~= seq![Direction::North, Direction::South, Direction::East, Direction::West]);
        dirs
    }

    /// Performs `action`, appending what the player is told to `out`; `direction` is where
    /// `Go` walks. Returns whether the session ends, which only `Quit` does, changing nothing.
    /// `Describe` tells the scene and remembers it. `Go` moves one step and lets one minute
    /// pass; `Wait` lets five pass. After either, a scene that no longer reads as the one
    /// last told is announced as changed and told again.
    #[verifier::rlimit(60)]
    pub fn act(&mut self, action: Action, direction: Option<Direction>, out: &mut String) -> (quit: bool)
        requires
            old(self).wf(),
            action == Action::Go ==> direction is Some,
        ensures
            final(self).wf(),
            quit == (action == Action::Quit),
            final(self).season_of() == old(self).season_of(),
            final(self).sun_of() == old(self).sun_of(),
            action == Action::Quit ==> *final(self) == *old(self) && final(out)@ == old(out)@,
            action == Action::Describe ==> {
                &&& final(out)@ == old(out)@ + old(self).description()
                &&& final(self).last_description() == old(self).description()
                &&& final(self).description() == old(self).description()
                &&& final(self).time_of() == old(self).time_of()
                &&& final(self).loc_of() == old(self).loc_of()
                &&& final(self).sky_of() == old(self).sky_of()
                &&& final(self).wind_of() == old(self).wind_of()
                &&& final(self).temp_of() == old(self).temp_of()
            },
            action == Action::Go ==> {
                let d = direction->Some_0;
                let c = old(self).loc_of()->Forest_0;
                &&& final(self).loc_of() == Location::Forest(
                    (Coord {
                        n: clamp_i8(c.n + step_north(d)) as i8,
                        w: clamp_i8(c.w + step_west(d)) as i8,
                    }),
                )
                &&& final(self).time_of().minutes() == tick_minutes(old(self).time_of().minutes(), 0, 1)
            },
            action == Action::Wait ==> {
                &&& final(self).loc_of() == old(self).loc_of()
                &&& final(self).time_of().minutes() == tick_minutes(old(self).time_of().minutes(), 0, 5)
            },
            action == Action::Go || action == Action::Wait ==> final(self).temp_of() == old(
                self,
            ).temp_of() || exists|m: int, toward: bool, coin: bool, s: Sky|
                1 <= m <= max_change_spec(old(self).sun_of(), final(self).time_of(), s)
                && final(self).temp_of() == #[trigger] temp_step_spec(
                    old(self).temp_of(),
                    temp_base_spec(final(self).loc_of(), old(self).sun_of(), final(self).time_of(), s),
                    m,
                    toward,
                    coin,
                ),
            action == Action::Go || action == Action::Wait ==> {
                &&& final(self).wind_of().level() <= old(self).wind_of().level() + 5
                &&& old(self).wind_of().level() <= final(self).wind_of().level() + 5
            },
            action == Action::Go || action == Action::Wait ==> {
                let said = if action == Action::Go {
                    head_text(direction->Some_0)
                } else {
                    wait_text()
                };
                let changed = final(self).description() != old(self).last_description();
                &&& final(self).last_description() == if changed {
                    final(self).description()
                } else {
                    old(self).last_description()
                }
                &&& told_between(final(out)@, old(out)@ + said, feel_text(old(self).temp_of(), final(self).temp_of()) + if changed {
                    changed_text() + final(self).description()
                } else {
                    Seq::empty()
                })
            },
    {
        let ghost mut pre: Seq<char> = Seq::empty();
        let ghost mut t0: int = 0;
        match action {
            Action::Describe => {
                let description = self.describe();
                out.append(description.as_str());
                self.last_desc = description;
                return false;
            },
            Action::Go => {
                let d = match direction {
                    Some(d) => d,
                    None => Direction::North,
                };
                let step = d.as_coord_with_magnitude(1);
                match self.loc {
                    Location::Forest(c) => {
                        let mut moved = c;
                        moved.add_assign(step);
                        self.loc = Location::Forest(moved);
                    },
                }
                out.append("you head ");
                out.append(d.label());
                say(out, ".");
                proof {
                    assert(out@ =~= old(out)@ + head_text(d));
                    pre = out@;
                    t0 = self.temp as int;
                }
                self.time_tick(0, 1, out);
            },
            Action::Wait => {
                say(out, "some time passes.");
                proof {
                    pre = out@;
                    t0 = self.temp as int;
                }
                self.time_tick(0, 5, out);
            },
            Action::Quit => {
                return true;
            },
        }
        let ghost mid = out@;
        let description = self.describe();
        if description != self.last_desc {
            say(out, "your surroundings look different.");
            say(out, "");
            out.append(description.as_str());
            self.last_desc = description;
        }
        proof {
            let said = if action == Action::Go {
                head_text(direction->Some_0)
            } else {
                wait_text()
            };
            assert(pre == old(out)@ + said);
            let feel = feel_text(t0, self.temp as int);
            let ls = choose|ls: Seq<Seq<char>>|
                (forall|i: int| 0 <= i < ls.len() ==> is_event_line(#[trigger] ls[i]))
                    && mid == pre + lines_text(ls) + feel;
            reveal_strlit("");
            assert(t0 == old(self).temp_of());
            if self.temp_of() != old(self).temp_of() {
                let (m, b, c, sk) = choose|m: int, b: bool, c: bool, sk: Sky|
                    1 <= m <= max_change_spec(self.sun_of(), self.time_of(), sk)
                    && self.temp_of() == #[trigger] temp_step_spec(
                        t0,
                        temp_base_spec(self.loc_of(), self.sun_of(), self.time_of(), sk),
                        m,
                        b,
                        c,
                    );
                assert(1 <= m <= max_change_spec(old(self).sun_of(), self.time_of(), sk)
                    && self.temp_of() == temp_step_spec(
                        old(self).temp_of(),
                        temp_base_spec(self.loc_of(), old(self).sun_of(), self.time_of(), sk),
                        m,
                        b,
                        c,
                    ));
            }
            let changed = self.description() != old(self).last_description();
            let tail = if changed {
                changed_text() + self.description()
            } else {
                Seq::empty()
            };
            assert(out@ =~= old(out)@ + said + lines_text(ls) + (feel + tail));
            assert(told_between(out@, old(out)@ + said, feel + tail));
            assert(self.last_description() == if changed {
                self.description()
            } else {
                old(self).last_description()
            });
        }
        false
    }

    /// The clock.
    pub fn time(&self) -> (r: Time)
        ensures
            r == self.time_of(),
    {
        self.time
    }

    /// The season.
    pub fn season(&self) -> (r: Season)
        ensures
            r == self.season_of(),
    {
        self.season
    }

    /// The place and position.
    pub fn location(&self) -> (r: Location)
        ensures
            r == self.loc_of(),
    {
        self.loc
    }

    /// The sky.
    pub fn sky(&self) -> (r: Sky)
        ensures
            r == self.sky_of(),
    {
        self.sky
    }

    /// The wind.
    pub fn wind(&self) -> (r: Wind)
        ensures
            r == self.wind_of(),
    {
        self.wind
    }

    /// The temperature in degrees Celsius.
    pub fn temperature(&self) -> (r: i8)
        ensures
            r == self.temp_of(),
    {
        self.temp
    }
}

} // verus!
