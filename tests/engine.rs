use forest_sim::action::{Action, Direction};
use forest_sim::clock::{Season, Time, TimeCat};
use forest_sim::input::choice_index;
use forest_sim::location::{Coord, Location, SunTable};
use forest_sim::narrator::{air_line, daylight_line, place_line, sky_change_line};
use forest_sim::rng::Stream;
use forest_sim::session::{sky_event, step_temperature, wind_event, Context};
use forest_sim::weather::{Sky, TempCat, Wind};

fn sunlight(season: Season, mins: u16, sky: Sky) -> f32 {
    let (rise, set) = season.sunlight_times();
    let (rise, set) = (rise.minute_of_day(), set.minute_of_day());
    let level = if mins < rise || mins > set {
        0.0
    } else {
        ((f32::from(mins - rise) * std::f32::consts::PI) / f32::from(set - rise)).sin()
    };
    let intensity = match season {
        Season::Spring => 0.80,
        Season::Summer => 1.00,
        Season::Autumn => 0.90,
        Season::Winter => 0.70,
    };
    let visibility = match season {
        Season::Spring => 0.8,
        Season::Summer => 0.6,
        Season::Autumn => 0.7,
        Season::Winter => 0.9,
    } * match sky {
        Sky::Clear => 1.0,
        Sky::Clouds => 0.7,
        Sky::Rain => 0.6,
    };
    level * intensity * visibility
}

fn sun_table(season: Season) -> SunTable {
    let mut bias = Vec::new();
    let mut change = Vec::new();
    for m in 0..1440u16 {
        for sky in [Sky::Clear, Sky::Clouds, Sky::Rain] {
            let s = sunlight(season, m, sky);
            bias.push(((s - 0.5) * 10.0 * 2.0) as i8);
            change.push((s * 4.0) as i8);
        }
    }
    SunTable::new(season, bias, change).unwrap()
}

fn stream(seed: u8) -> Stream {
    Stream::new_key([seed; 32], [seed; 8])
}

fn session(seed: u8) -> Context {
    Context::spawn(stream(seed), sun_table(Season::Winter))
}

#[test]
fn tick_keeps_clock_within_day() {
    let mut t = Time::new(23, 59);
    assert!(t.minute_of_day() < 1440);
    t.tick(0, 1);
    assert_eq!(t.get(), (0, 0));
    t.tick(200, 255);
    assert!(t.minute_of_day() < 1440);
    assert_eq!(t.minute_of_day(), ((200u32 * 60 + 255) % 1440) as u16);
    let mut u = Time::new(22, 30);
    u.tick(3, 45);
    assert_eq!(u.get(), (2, 15));
}

#[test]
fn tick_full_day_returns_to_start() {
    for (h, m) in [(0, 0), (6, 0), (12, 34), (23, 59)] {
        let mut t = Time::new(h, m);
        t.tick(24, 0);
        assert_eq!(t.get(), (h, m));
    }
}

#[test]
fn wind_steps_saturate() {
    let mut w = Wind::High;
    assert!(!w.increase());
    assert_eq!(w, Wind::High);
    let mut w = Wind::Calm;
    assert!(!w.decrease());
    assert_eq!(w, Wind::Calm);
    let mut w = Wind::Calm;
    assert!(w.increase());
    assert_eq!(w, Wind::Light);
    assert!(w.increase());
    assert_eq!(w, Wind::Medium);
    assert!(w.increase());
    assert_eq!(w, Wind::High);
    assert!(w.decrease());
    assert_eq!(w, Wind::Medium);
    assert!(w.decrease());
    assert_eq!(w, Wind::Light);
    assert!(w.decrease());
    assert_eq!(w, Wind::Calm);
}

#[test]
fn temp_cat_boundaries() {
    assert_eq!(TempCat::classify(i8::MIN), TempCat::Freezing);
    assert_eq!(TempCat::classify(0), TempCat::Freezing);
    assert_eq!(TempCat::classify(1), TempCat::Chilly);
    assert_eq!(TempCat::classify(19), TempCat::Chilly);
    assert_eq!(TempCat::classify(20), TempCat::Neutral);
    assert_eq!(TempCat::classify(25), TempCat::Neutral);
    assert_eq!(TempCat::classify(26), TempCat::Warm);
    assert_eq!(TempCat::classify(31), TempCat::Warm);
    assert_eq!(TempCat::classify(32), TempCat::Hot);
    assert_eq!(TempCat::classify(i8::MAX), TempCat::Hot);
    assert_eq!(TempCat::Neutral.adjective(), "light");
}

#[test]
fn narration_tables_are_total() {
    let winds = [Wind::Calm, Wind::Light, Wind::Medium, Wind::High];
    let skies = [Sky::Clear, Sky::Clouds, Sky::Rain];
    let cats = [TempCat::Freezing, TempCat::Chilly, TempCat::Neutral, TempCat::Warm, TempCat::Hot];
    let mut n = 0;
    for w in winds {
        for s in skies {
            for c in cats {
                let l = air_line(w, s, c);
                assert!(!l.is_empty() && !l.contains('\n'));
                n += 1;
            }
        }
    }
    assert_eq!(n, 60);
    let tcs = [TimeCat::Dawn, TimeCat::Morning, TimeCat::Noon, TimeCat::Afternoon, TimeCat::Dusk, TimeCat::Night];
    let mut k = 0;
    for tc in tcs {
        for s in skies {
            let l = daylight_line(tc, s);
            assert!(!l.is_empty() && !l.contains('\n'));
            k += 1;
        }
    }
    assert_eq!(k, 18);
    assert_eq!(air_line(Wind::Light, Sky::Clear, TempCat::Warm), "there is a warm breeze.");
    assert_eq!(air_line(Wind::Calm, Sky::Rain, TempCat::Freezing), "it is snowing.");
    assert_eq!(air_line(Wind::High, Sky::Clouds, TempCat::Hot), "there are strong gusts of hot wind.");
    assert_eq!(daylight_line(TimeCat::Dawn, Sky::Rain), "the sky is dark grey.");
    assert_eq!(daylight_line(TimeCat::Dusk, Sky::Clear), "the sun is setting.");
    assert_eq!(daylight_line(TimeCat::Night, Sky::Clear), "it is dark.");
    assert_eq!(place_line(&Location::Forest(Coord::new())), "you are in a forest.");
}

#[test]
fn sky_change_lines() {
    assert_eq!(sky_change_line(Sky::Clear, Sky::Clear, false), None);
    assert_eq!(sky_change_line(Sky::Rain, Sky::Rain, true), None);
    assert_eq!(sky_change_line(Sky::Clear, Sky::Clouds, true), Some("it gets cloudy."));
    assert_eq!(sky_change_line(Sky::Clouds, Sky::Rain, true), Some("it starts snowing."));
    assert_eq!(sky_change_line(Sky::Clear, Sky::Rain, false), Some("it starts raining."));
    assert_eq!(sky_change_line(Sky::Rain, Sky::Clear, true), Some("the sky clears up."));
    assert_eq!(sky_change_line(Sky::Rain, Sky::Clouds, true), Some("it stops snowing."));
    assert_eq!(sky_change_line(Sky::Rain, Sky::Clouds, false), Some("it stops raining."));
}

#[test]
fn quiet_wait_tells_no_change() {
    let mut quiet = 0;
    for seed in 0..40u8 {
        let mut ctx = session(seed);
        for _ in 0..2 {
            let before = ctx.describe();
            let mut out = String::new();
            assert!(!ctx.act(Action::Wait, None, &mut out));
            let after = ctx.describe();
            assert!(out.starts_with("some time passes.\n"));
            if before == after {
                assert!(!out.contains("your surroundings look different."));
            }
            if out == "some time passes.\n" {
                quiet += 1;
                assert_eq!(before, after);
            }
        }
    }
    assert!(quiet > 0);
}

#[test]
fn spawn_then_describe() {
    let mut ctx = session(7);
    assert_eq!(ctx.season(), Season::Winter);
    assert_eq!(ctx.sky(), Sky::Rain);
    assert_eq!(ctx.wind(), Wind::High);
    assert_eq!(ctx.time().get(), (6, 0));
    assert_eq!(ctx.temperature(), -15);
    let mut out = String::new();
    assert!(!ctx.act(Action::Describe, None, &mut out));
    assert!(out.starts_with("you are in a forest.\n"));
    assert_eq!(
        out,
        "you are in a forest.\nthe wind howls and bites. it is snowing furiously.\nit is dark.\n"
    );
}

#[test]
fn quit_ends_without_output() {
    let mut ctx = session(3);
    let actions = ctx.available_actions();
    assert_eq!(actions, vec![Action::Describe, Action::Go, Action::Wait, Action::Quit]);
    let mut out = String::new();
    assert!(ctx.act(actions[3], None, &mut out));
    assert!(out.is_empty());
    assert_eq!(ctx.time().get(), (6, 0));
}

#[test]
fn same_seed_same_story() {
    let script = [
        (Action::Describe, None),
        (Action::Wait, None),
        (Action::Go, Some(Direction::North)),
        (Action::Wait, None),
        (Action::Go, Some(Direction::West)),
        (Action::Describe, None),
        (Action::Wait, None),
    ];
    let mut a = session(11);
    let mut b = session(11);
    let mut out_a = String::new();
    let mut out_b = String::new();
    for _ in 0..20 {
        for (act, dir) in script {
            assert_eq!(a.act(act, dir, &mut out_a), b.act(act, dir, &mut out_b));
        }
    }
    assert_eq!(out_a, out_b);
    assert_eq!(a.temperature(), b.temperature());
    assert_eq!(a.location(), b.location());
}

#[test]
fn go_moves_and_passes_a_minute() {
    let mut ctx = session(5);
    assert_eq!(
        ctx.available_directions(),
        vec![Direction::North, Direction::South, Direction::East, Direction::West]
    );
    let mut out = String::new();
    assert!(!ctx.act(Action::Go, Some(Direction::East), &mut out));
    assert!(out.starts_with("you head east.\n"));
    assert_eq!(ctx.location(), Location::Forest(Coord { n: 0, w: -1 }));
    assert_eq!(ctx.time().get(), (6, 1));
    let mut out = String::new();
    ctx.act(Action::Go, Some(Direction::North), &mut out);
    assert_eq!(ctx.location(), Location::Forest(Coord { n: 1, w: -1 }));
    assert_eq!(ctx.time().get(), (6, 2));
}

#[test]
fn wait_passes_five_minutes() {
    let mut ctx = session(9);
    let mut out = String::new();
    ctx.act(Action::Wait, None, &mut out);
    assert_eq!(ctx.time().get(), (6, 5));
}

#[test]
fn coordinates_saturate() {
    let mut c = Coord { n: 127, w: -128 };
    c.add_assign(Direction::North.as_coord_with_magnitude(1));
    c.add_assign(Direction::East.as_coord_with_magnitude(1));
    assert_eq!(c, Coord { n: 127, w: -128 });
    assert_eq!(Direction::South.as_coord_with_magnitude(3), Coord { n: -3, w: 0 });
    assert_eq!(Direction::West.as_coord_with_magnitude(2), Coord { n: 0, w: 2 });
    assert_eq!(Direction::West.label(), "west");
    assert_eq!(Action::Describe.label(), "describe");
}

#[test]
fn time_of_day_buckets() {
    let w = Season::Winter;
    assert_eq!(Time::new(8, 59).classify(w), TimeCat::Night);
    assert_eq!(Time::new(9, 0).classify(w), TimeCat::Dawn);
    assert_eq!(Time::new(10, 0).classify(w), TimeCat::Morning);
    assert_eq!(Time::new(12, 0).classify(w), TimeCat::Noon);
    assert_eq!(Time::new(13, 0).classify(w), TimeCat::Afternoon);
    assert_eq!(Time::new(15, 0).classify(w), TimeCat::Dusk);
    assert_eq!(Time::new(15, 1).classify(w), TimeCat::Night);
    let (rise, set) = Season::Summer.sunlight_times();
    assert_eq!(rise.get(), (4, 0));
    assert_eq!(set.get(), (22, 30));
}

#[test]
fn forest_climate() {
    let sun = sun_table(Season::Winter);
    let loc = Location::Forest(Coord::new());
    let night = Time::new(6, 0);
    assert_eq!(loc.temp_base(Season::Winter, night, Sky::Clear, &sun), -15);
    assert_eq!(loc.temp_max_change(Season::Winter, night, Sky::Clear, &sun), 1);
    let noon = Time::new(12, 0);
    // sunlight 0.63 under a clear winter sky at midday
    assert_eq!(loc.temp_base(Season::Winter, noon, Sky::Clear, &sun), -3);
    assert_eq!(loc.temp_max_change(Season::Winter, noon, Sky::Clear, &sun), 3);
    assert_eq!(loc.chance_temp_change(), 16667);
    assert_eq!(loc.chance_temp_toward_base(), 60000);
    assert_eq!(loc.chance_wind_change(), 1667);
    assert_eq!(loc.chance_wind_increase(), 50000);
    assert_eq!(
        loc.chances_sky(),
        [(208, Sky::Clear), (417, Sky::Clouds), (139, Sky::Rain)]
    );
}

#[test]
fn sun_table_rejects_bad_input() {
    assert!(SunTable::new(Season::Spring, vec![0; 10], vec![0; 10]).is_none());
    assert!(SunTable::new(Season::Spring, vec![11; 4320], vec![0; 4320]).is_none());
    assert!(SunTable::new(Season::Spring, vec![0; 4320], vec![5; 4320]).is_none());
    // a sun part above zero before sunrise
    assert!(SunTable::new(Season::Spring, vec![-10; 4320], vec![4; 4320]).is_none());
    // a bias above the coldest at night
    assert!(SunTable::new(Season::Spring, vec![0; 4320], vec![0; 4320]).is_none());
    let t = SunTable::new(Season::Spring, vec![-10; 4320], vec![0; 4320]).unwrap();
    assert_eq!(t.season(), Season::Spring);
    assert_eq!(t.bias(Time::new(1, 0), Sky::Rain), -10);
    let mut change = vec![0; 4320];
    change[3 * 720 + 1] = 4;
    let t = SunTable::new(Season::Spring, vec![-10; 4320], change).unwrap();
    assert_eq!(t.change(Time::new(12, 0), Sky::Clouds), 4);
    assert_eq!(t.change(Time::new(12, 0), Sky::Rain), 0);
}

#[test]
fn temperature_steps() {
    assert_eq!(step_temperature(0, 5, 2, true, false), 2);
    assert_eq!(step_temperature(0, 5, 2, false, false), -2);
    assert_eq!(step_temperature(9, 5, 3, true, false), 6);
    assert_eq!(step_temperature(9, 5, 3, false, false), 12);
    assert_eq!(step_temperature(5, 5, 1, true, true), 4);
    assert_eq!(step_temperature(5, 5, 1, false, false), 6);
    assert_eq!(step_temperature(127, 0, 4, false, false), 127);
    assert_eq!(step_temperature(-128, 0, 4, false, false), -128);
}

#[test]
fn wind_events() {
    let loc = Location::Forest(Coord::new());
    assert_eq!(wind_event(Wind::Light, 1667, 0, &loc), (Wind::Light, None));
    assert_eq!(wind_event(Wind::Light, 1666, 49999, &loc), (Wind::Medium, Some("the wind speeds up.")));
    assert_eq!(wind_event(Wind::Light, 0, 50000, &loc), (Wind::Calm, Some("the wind slows down.")));
    assert_eq!(wind_event(Wind::High, 0, 0, &loc), (Wind::High, None));
    assert_eq!(wind_event(Wind::Calm, 0, 100000, &loc), (Wind::Calm, None));
}

#[test]
fn sky_events() {
    assert_eq!(sky_event(Sky::Clear, 207, (208, Sky::Clear), false), (Sky::Clear, None));
    assert_eq!(sky_event(Sky::Clear, 416, (417, Sky::Clouds), true), (Sky::Clouds, Some("it gets cloudy.")));
    assert_eq!(sky_event(Sky::Clear, 417, (417, Sky::Clouds), true), (Sky::Clear, None));
    assert_eq!(sky_event(Sky::Clouds, 0, (139, Sky::Rain), true), (Sky::Rain, Some("it starts snowing.")));
    assert_eq!(sky_event(Sky::Rain, 10, (208, Sky::Clear), false), (Sky::Clear, Some("the sky clears up.")));
}

#[test]
fn weather_lines_are_events() {
    let allowed = [
        "some time passes.",
        "you head north.",
        "the wind speeds up.",
        "the wind slows down.",
        "it gets cloudy.",
        "it starts snowing.",
        "it starts raining.",
        "the sky clears up.",
        "it stops snowing.",
        "it stops raining.",
        "it feels colder.",
        "it feels warmer.",
    ];
    for seed in 0..10u8 {
        let mut ctx = session(seed);
        for _ in 0..30 {
            let mut out = String::new();
            ctx.act(Action::Wait, None, &mut out);
            let mut out2 = String::new();
            ctx.act(Action::Go, Some(Direction::North), &mut out2);
            for text in [out, out2] {
                let head = text.split("your surroundings look different.").next().unwrap();
                for l in head.lines() {
                    assert!(allowed.contains(&l), "unexpected line {:?}", l);
                }
            }
        }
    }
}

#[test]
fn menu_choices() {
    assert_eq!(choice_index(b"0", 4), Some(0));
    assert_eq!(choice_index(b"3", 4), Some(3));
    assert_eq!(choice_index(b"+2", 4), Some(2));
    assert_eq!(choice_index(b"007", 10), Some(7));
    assert_eq!(choice_index(b"4", 4), None);
    assert_eq!(choice_index(b"", 4), None);
    assert_eq!(choice_index(b"+", 4), None);
    assert_eq!(choice_index(b"-1", 4), None);
    assert_eq!(choice_index(b"1x", 4), None);
    assert_eq!(choice_index(b"99999999999999999999999999", 4), None);
    assert_eq!(choice_index(b"0", 0), None);
}
