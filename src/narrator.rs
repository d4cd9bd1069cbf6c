//! The narration tables: what the player is told of a scene and of changes in it.

use vstd::prelude::*;
use crate::clock::TimeCat;
use crate::location::Location;
use crate::weather::{Sky, TempCat, Wind};

verus! {

/// The sentence naming a place.
pub open spec fn place_text(loc: Location) -> Seq<char> {
    match loc {
        Location::Forest(_) => "you are in a forest."@,
    }
}

/// The sentence said while the sky is cloudy.
pub open spec fn cloudy_text() -> Seq<char> {
    "it is cloudy."@
}

/// The sentence on the air: one for each wind level, sky and temperature class.
pub open spec fn air_text(wind: Wind, sky: Sky, cat: TempCat) -> Seq<char> {
    match wind {
        Wind::Calm => match sky {
            Sky::Clear | Sky::Clouds => match cat {
                TempCat::Freezing => "it is frigid."@,
                TempCat::Chilly => "it is chilly."@,
                TempCat::Neutral => "the air is still."@,
                TempCat::Warm => "the air is warm and still."@,
                TempCat::Hot => "the air is hot and still."@,
            },
            Sky::Rain => match cat {
                TempCat::Freezing => "it is snowing."@,
                TempCat::Chilly => "it is raining."@,
                TempCat::Neutral => "it is raining."@,
                TempCat::Warm => "it is raining."@,
                TempCat::Hot => "it is hot and rainy."@,
            },
        },
        Wind::Light => match sky {
            Sky::Clear | Sky::Clouds => match cat {
                TempCat::Freezing => "there is a frigid breeze."@,
                TempCat::Chilly => "there is a chilly breeze."@,
                TempCat::Neutral => "there is a light breeze."@,
                TempCat::Warm => "there is a warm breeze."@,
                TempCat::Hot => "there is a hot breeze."@,
            },
            Sky::Rain => match cat {
                TempCat::Freezing => "it is snowing with a frigid breeze."@,
                TempCat::Chilly => "it is raining."@,
                TempCat::Neutral => "it is raining."@,
                TempCat::Warm => "it is raining."@,
                TempCat::Hot => "it is raining with a hot breeze."@,
            },
        },
        Wind::Medium => match sky {
            Sky::Clear | Sky::Clouds => match cat {
                TempCat::Freezing => "there is a bitter wind."@,
                TempCat::Chilly => "there is a chilly wind."@,
                TempCat::Neutral => "there is a light wind."@,
                TempCat::Warm => "there is a warm wind."@,
                TempCat::Hot => "there is a hot wind."@,
            },
            Sky::Rain => match cat {
                TempCat::Freezing => "it is snowing with a bitter wind."@,
                TempCat::Chilly => "it is raining and windy."@,
                TempCat::Neutral => "it is raining and windy."@,
                TempCat::Warm => "it is raining and windy."@,
                TempCat::Hot => "there are hot gusts of rain."@,
            },
        },
        Wind::High => match sky {
            Sky::Clear | Sky::Clouds => match cat {
                TempCat::Freezing => "the wind howls and bites."@,
                TempCat::Chilly => "the wind howls."@,
                TempCat::Neutral => "the wind howls."@,
                TempCat::Warm => "there are strong gusts of warm wind."@,
                TempCat::Hot => "there are strong gusts of hot wind."@,
            },
            Sky::Rain => match cat {
                TempCat::Freezing => "the wind howls and bites. it is snowing furiously."@,
                TempCat::Chilly => "it is raining furiously."@,
                TempCat::Neutral => "it is raining furiously."@,
                TempCat::Warm => "it is raining furiously."@,
                TempCat::Hot => "the hot rain blows furiously."@,
            },
        },
    }
}

/// The sentence on the time of day, which only a clear sky shows in full.
pub open spec fn daylight_text(tc: TimeCat, sky: Sky) -> Seq<char> {
    match tc {
        TimeCat::Dawn => match sky {
            Sky::Clear => "the sun is rising."@,
            Sky::Clouds | Sky::Rain => "the sky is dark grey."@,
        },
        TimeCat::Morning => match sky {
            Sky::Clear => "it is a clear morning."@,
            Sky::Clouds | Sky::Rain => "the sky is grey."@,
        },
        TimeCat::Noon => match sky {
            Sky::Clear => "it is midday."@,
            Sky::Clouds | Sky::Rain => "the sky is grey."@,
        },
        TimeCat::Afternoon => match sky {
            Sky::Clear => "it is the afternoon."@,
            Sky::Clouds | Sky::Rain => "the sky is grey."@,
        },
        TimeCat::Dusk => match sky {
            Sky::Clear => "the sun is setting."@,
            Sky::Clouds | Sky::Rain => "the sky is dark grey."@,
        },
        TimeCat::Night => "it is dark."@,
    }
}

/// The line announcing a change of sky from `from` to `to`, if any; rain reads as snow
/// when `freezing`.
pub open spec fn sky_change_text(from: Sky, to: Sky, freezing: bool) -> Option<Seq<char>> {
    match (from, to) {
        (Sky::Clear, Sky::Clear) | (Sky::Clouds, Sky::Clouds) | (Sky::Rain, Sky::Rain) => None,
        (Sky::Clear, Sky::Clouds) => Some("it gets cloudy."@),
        (_, Sky::Rain) => if freezing {
            Some("it starts snowing."@)
        } else {
            Some("it starts raining."@)
        },
        (_, Sky::Clear) => Some("the sky clears up."@),
        (Sky::Rain, Sky::Clouds) => if freezing {
            Some("it stops snowing."@)
        } else {
            Some("it stops raining."@)
        },
    }
}

/// The sentence naming a place.
pub fn place_line(loc: &Location) -> (r: &'static str)
    ensures
        r@ == place_text(*loc),
{
    match loc {
        Location::Forest(_) => "you are in a forest.",
    }
}

/// The sentence on the air for a wind level, sky and temperature class.
pub fn air_line(wind: Wind, sky: Sky, cat: TempCat) -> (r: &'static str)
    ensures
        r@ == air_text(wind, sky, cat),
{
    match wind {
        Wind::Calm => match sky {
            Sky::Clear | Sky::Clouds => match cat {
                TempCat::Freezing => "it is frigid.",
                TempCat::Chilly => "it is chilly.",
                TempCat::Neutral => "the air is still.",
                TempCat::Warm => "the air is warm and still.",
                TempCat::Hot => "the air is hot and still.",
            },
            Sky::Rain => match cat {
                TempCat::Freezing => "it is snowing.",
                TempCat::Chilly => "it is raining.",
                TempCat::Neutral => "it is raining.",
                TempCat::Warm => "it is raining.",
                TempCat::Hot => "it is hot and rainy.",
            },
        },
        Wind::Light => match sky {
            Sky::Clear | Sky::Clouds => match cat {
                TempCat::Freezing => "there is a frigid breeze.",
                TempCat::Chilly => "there is a chilly breeze.",
                TempCat::Neutral => "there is a light breeze.",
                TempCat::Warm => "there is a warm breeze.",
                TempCat::Hot => "there is a hot breeze.",
            },
            Sky::Rain => match cat {
                TempCat::Freezing => "it is snowing with a frigid breeze.",
                TempCat::Chilly => "it is raining.",
                TempCat::Neutral => "it is raining.",
                TempCat::Warm => "it is raining.",
                TempCat::Hot => "it is raining with a hot breeze.",
            },
        },
        Wind::Medium => match sky {
            Sky::Clear | Sky::Clouds => match cat {
                TempCat::Freezing => "there is a bitter wind.",
                TempCat::Chilly => "there is a chilly wind.",
                TempCat::Neutral => "there is a light wind.",
                TempCat::Warm => "there is a warm wind.",
                TempCat::Hot => "there is a hot wind.",
            },
            Sky::Rain => match cat {
                TempCat::Freezing => "it is snowing with a bitter wind.",
                TempCat::Chilly => "it is raining and windy.",
                TempCat::Neutral => "it is raining and windy.",
                TempCat::Warm => "it is raining and windy.",
                TempCat::Hot => "there are hot gusts of rain.",
            },
        },
        Wind::High => match sky {
            Sky::Clear | Sky::Clouds => match cat {
                TempCat::Freezing => "the wind howls and bites.",
                TempCat::Chilly => "the wind howls.",
                TempCat::Neutral => "the wind howls.",
                TempCat::Warm => "there are strong gusts of warm wind.",
                TempCat::Hot => "there are strong gusts of hot wind.",
            },
            Sky::Rain => match cat {
                TempCat::Freezing => "the wind howls and bites. it is snowing furiously.",
                TempCat::Chilly => "it is raining furiously.",
                TempCat::Neutral => "it is raining furiously.",
                TempCat::Warm => "it is raining furiously.",
                TempCat::Hot => "the hot rain blows furiously.",
            },
        },
    }
}

/// The sentence on the time of day under a sky.
pub fn daylight_line(tc: TimeCat, sky: Sky) -> (r: &'static str)
    ensures
        r@ == daylight_text(tc, sky),
{
    match tc {
        TimeCat::Dawn => match sky {
            Sky::Clear => "the sun is rising.",
            Sky::Clouds | Sky::Rain => "the sky is dark grey.",
        },
        TimeCat::Morning => match sky {
            Sky::Clear => "it is a clear morning.",
            Sky::Clouds | Sky::Rain => "the sky is grey.",
        },
        TimeCat::Noon => match sky {
            Sky::Clear => "it is midday.",
            Sky::Clouds | Sky::Rain => "the sky is grey.",
        },
        TimeCat::Afternoon => match sky {
            Sky::Clear => "it is the afternoon.",
            Sky::Clouds | Sky::Rain => "the sky is grey.",
        },
        TimeCat::Dusk => match sky {
            Sky::Clear => "the sun is setting.",
            Sky::Clouds | Sky::Rain => "the sky is dark grey.",
        },
        TimeCat::Night => "it is dark.",
    }
}

/// The line announcing a change of sky from `from` to `to`, if the sky changes.
pub fn sky_change_line(from: Sky, to: Sky, freezing: bool) -> (r: Option<&'static str>)
    ensures
        r is Some == sky_change_text(from, to, freezing) is Some,
        r matches Some(l) ==> sky_change_text(from, to, freezing) == Some(l@),
{
    match (from, to) {
        (Sky::Clear, Sky::Clear) | (Sky::Clouds, Sky::Clouds) | (Sky::Rain, Sky::Rain) => None,
        (Sky::Clear, Sky::Clouds) => Some("it gets cloudy."),
        (_, Sky::Rain) => if freezing {
            Some("it starts snowing.")
        } else {
            Some("it starts raining.")
        },
        (_, Sky::Clear) => Some("the sky clears up."),
        (Sky::Rain, Sky::Clouds) => if freezing {
            Some("it stops snowing.")
        } else {
            Some("it stops raining.")
        },
    }
}

/// Every wind level, sky and temperature class has its sentence on the air: one line,
/// not empty.
pub proof fn lemma_air_table_total(wind: Wind, sky: Sky, cat: TempCat)
    ensures
        air_text(wind, sky, cat).len() > 0,
        !air_text(wind, sky, cat).contains('\n'),
{
    reveal_strlit("it is chilly.");
    reveal_strlit("it is frigid.");
    reveal_strlit("it is hot and rainy.");
    reveal_strlit("it is raining and windy.");
    reveal_strlit("it is raining furiously.");
    reveal_strlit("it is raining with a hot breeze.");
    reveal_strlit("it is raining.");
    reveal_strlit("it is snowing with a bitter wind.");
    reveal_strlit("it is snowing with a frigid breeze.");
    reveal_strlit("it is snowing.");
    reveal_strlit("the air is hot and still.");
    reveal_strlit("the air is still.");
    reveal_strlit("the air is warm and still.");
    reveal_strlit("the hot rain blows furiously.");
    reveal_strlit("the wind howls and bites.");
    reveal_strlit("the wind howls and bites. it is snowing furiously.");
    reveal_strlit("the wind howls.");
    reveal_strlit("there are hot gusts of rain.");
    reveal_strlit("there are strong gusts of hot wind.");
    reveal_strlit("there are strong gusts of warm wind.");
    reveal_strlit("there is a bitter wind.");
    reveal_strlit("there is a chilly breeze.");
    reveal_strlit("there is a chilly wind.");
    reveal_strlit("there is a frigid breeze.");
    reveal_strlit("there is a hot breeze.");
    reveal_strlit("there is a hot wind.");
    reveal_strlit("there is a light breeze.");
    reveal_strlit("there is a light wind.");
    reveal_strlit("there is a warm breeze.");
    reveal_strlit("there is a warm wind.");
}

/// Every part of the day and sky has its sentence on the time of day: one line, not empty.
pub proof fn lemma_daylight_table_total(tc: TimeCat, sky: Sky)
    ensures
        daylight_text(tc, sky).len() > 0,
        !daylight_text(tc, sky).contains('\n'),
{
    reveal_strlit("it is a clear morning.");
    reveal_strlit("it is dark.");
    reveal_strlit("it is midday.");
    reveal_strlit("it is the afternoon.");
    reveal_strlit("the sky is dark grey.");
    reveal_strlit("the sky is grey.");
    reveal_strlit("the sun is rising.");
    reveal_strlit("the sun is setting.");
}

} // verus!
