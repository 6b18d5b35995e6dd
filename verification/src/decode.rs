//! Decoding payloads into the record types: the schema itself.
//!
//! Each record has a spec function that says, over the JSON tree, exactly
//! which payloads decode to which records, and an executable decoder proved
//! to agree with it.  Absent a field, a wrong type, or an integer that does
//! not fit its field, the whole decode fails: there are no partial results.

use vstd::prelude::*;
use crate::json::{json_field, spec_parse_i64, JVal};
use crate::json::parse_i64;
use crate::raw::{json_view, value_array, value_bool, value_field, value_is_null, value_num_text,
    value_str};
use crate::types::{air_pollen_default_type, AccuweatherMeasurement, AirAndPollen,
    ConditionMeasurement, ConditionWindGust, CurrentCondition, DailyForecast,
    DailyForecastsAnswer, DailyWindGust, DayPartForecast, DegreeDaySummary, Headline,
    HourlyForecast, LocalSource, Moon, PrecipitationSummary, PressureTendency,
    SpecAirAndPollen, SpecConditionMeasurement, SpecConditionWindGust, SpecCurrentCondition,
    SpecDailyForecast, SpecDailyForecastsAnswer, SpecDailyWindGust, SpecDayPartForecast,
    SpecDegreeDaySummary, SpecHeadline, SpecHourlyForecast, SpecLocalSource, SpecMeasurement,
    SpecMoon, SpecPrecipitationSummary, SpecPressureTendency, SpecSun, SpecTemperature,
    SpecTemperatureSummary, SpecTemperatureSummaryRange, SpecWind, SpecWindCondition,
    SpecWindDirection, Sun, Temperature, TemperatureSummary, TemperatureSummaryRange, Wind,
    WindCondition, WindDirection};

verus! {

// ------------------------------------------------------------------
// Reading one field of an object, spec and exec side by side.
// ------------------------------------------------------------------

pub open spec fn str_field(j: JVal, name: Seq<char>) -> Option<Seq<char>> {
    match json_field(j, name) {
        Some(JVal::Str(s)) => Some(s),
        _ => None,
    }
}

pub open spec fn num_text_field(j: JVal, name: Seq<char>) -> Option<Seq<char>> {
    match json_field(j, name) {
        Some(JVal::Num(t)) => Some(t),
        _ => None,
    }
}

pub open spec fn bool_field(j: JVal, name: Seq<char>) -> Option<bool> {
    match json_field(j, name) {
        Some(JVal::Bool(b)) => Some(b),
        _ => None,
    }
}

pub open spec fn i64_field(j: JVal, name: Seq<char>) -> Option<i64> {
    match num_text_field(j, name) {
        Some(t) => spec_parse_i64(t),
        None => None,
    }
}

pub open spec fn i32_field(j: JVal, name: Seq<char>) -> Option<i32> {
    match i64_field(j, name) {
        Some(x) => if i32::MIN as int <= x as int && x as int <= i32::MAX as int {
            Some(x as i32)
        } else {
            None
        },
        None => None,
    }
}

/// A string field that may be left out: absent means the empty string.
pub open spec fn default_str_field(j: JVal, name: Seq<char>) -> Option<Seq<char>> {
    match json_field(j, name) {
        None => Some(Seq::<char>::empty()),
        Some(JVal::Str(s)) => Some(s),
        Some(_) => None,
    }
}

/// An optional string field: absent or null both decode to `None`.
pub open spec fn opt_str_field(j: JVal, name: Seq<char>) -> Option<Option<Seq<char>>> {
    match json_field(j, name) {
        None => Some(None),
        Some(JVal::Null) => Some(None),
        Some(JVal::Str(s)) => Some(Some(s)),
        Some(_) => None,
    }
}

pub open spec fn opt_i64_field(j: JVal, name: Seq<char>) -> Option<Option<i64>> {
    match json_field(j, name) {
        None => Some(None),
        Some(JVal::Null) => Some(None),
        Some(JVal::Num(t)) => match spec_parse_i64(t) {
            Some(x) => Some(Some(x)),
            None => None,
        },
        Some(_) => None,
    }
}

pub open spec fn opt_i32_field(j: JVal, name: Seq<char>) -> Option<Option<i32>> {
    match opt_i64_field(j, name) {
        Some(Some(x)) => if i32::MIN as int <= x as int && x as int <= i32::MAX as int {
            Some(Some(x as i32))
        } else {
            None
        },
        Some(None) => Some(None),
        None => None,
    }
}

pub fn get_str_field(v: &serde_json::Value, name: &str) -> (r: Option<String>)
    ensures
        match r {
            Some(s) => str_field(json_view(*v), name@) == Some(s@),
            None => str_field(json_view(*v), name@) is None,
        },
{
    match value_field(v, name) {
        Some(f) => value_str(f),
        None => None,
    }
}

pub fn get_num_text_field(v: &serde_json::Value, name: &str) -> (r: Option<String>)
    ensures
        match r {
            Some(t) => num_text_field(json_view(*v), name@) == Some(t@),
            None => num_text_field(json_view(*v), name@) is None,
        },
{
    match value_field(v, name) {
        Some(f) => value_num_text(f),
        None => None,
    }
}

pub fn get_bool_field(v: &serde_json::Value, name: &str) -> (r: Option<bool>)
    ensures
        match r {
            Some(b) => bool_field(json_view(*v), name@) == Some(b),
            None => bool_field(json_view(*v), name@) is None,
        },
{
    match value_field(v, name) {
        Some(f) => value_bool(f),
        None => None,
    }
}

pub fn get_i64_field(v: &serde_json::Value, name: &str) -> (r: Option<i64>)
    ensures
        match r {
            Some(x) => i64_field(json_view(*v), name@) == Some(x),
            None => i64_field(json_view(*v), name@) is None,
        },
{
    match get_num_text_field(v, name) {
        Some(t) => parse_i64(t.as_str()),
        None => None,
    }
}

pub fn get_i32_field(v: &serde_json::Value, name: &str) -> (r: Option<i32>)
    ensures
        match r {
            Some(x) => i32_field(json_view(*v), name@) == Some(x),
            None => i32_field(json_view(*v), name@) is None,
        },
{
    match get_i64_field(v, name) {
        Some(x) => {
            if -2147483648i64 <= x && x <= 2147483647i64 {
                Some(x as i32)
            } else {
                None
            }
        },
        None => None,
    }
}

pub fn get_default_str_field(v: &serde_json::Value, name: &str) -> (r: Option<String>)
    ensures
        match r {
            Some(s) => default_str_field(json_view(*v), name@) == Some(s@),
            None => default_str_field(json_view(*v), name@) is None,
        },
{
    match value_field(v, name) {
        Some(f) => value_str(f),
        None => Some(air_pollen_default_type()),
    }
}

pub fn get_opt_str_field(v: &serde_json::Value, name: &str) -> (r: Option<Option<String>>)
    ensures
        match r {
            Some(Some(s)) => opt_str_field(json_view(*v), name@) == Some(Some(s@)),
            Some(None) => opt_str_field(json_view(*v), name@) == Some(None::<Seq<char>>),
            None => opt_str_field(json_view(*v), name@) is None,
        },
{
    match value_field(v, name) {
        None => Some(None),
        Some(f) => {
            if value_is_null(f) {
                Some(None)
            } else {
                match value_str(f) {
                    Some(s) => Some(Some(s)),
                    None => None,
                }
            }
        },
    }
}

pub fn get_opt_i64_field(v: &serde_json::Value, name: &str) -> (r: Option<Option<i64>>)
    ensures
        match r {
            Some(x) => opt_i64_field(json_view(*v), name@) == Some(x),
            None => opt_i64_field(json_view(*v), name@) is None,
        },
{
    match value_field(v, name) {
        None => Some(None),
        Some(f) => {
            if value_is_null(f) {
                Some(None)
            } else {
                match value_num_text(f) {
                    Some(t) => match parse_i64(t.as_str()) {
                        Some(x) => Some(Some(x)),
                        None => None,
                    },
                    None => None,
                }
            }
        },
    }
}

pub fn get_opt_i32_field(v: &serde_json::Value, name: &str) -> (r: Option<Option<i32>>)
    ensures
        match r {
            Some(x) => opt_i32_field(json_view(*v), name@) == Some(x),
            None => opt_i32_field(json_view(*v), name@) is None,
        },
{
    match get_opt_i64_field(v, name) {
        Some(Some(x)) => {
            if -2147483648i64 <= x && x <= 2147483647i64 {
                Some(Some(x as i32))
            } else {
                None
            }
        },
        Some(None) => Some(None),
        None => None,
    }
}

// ------------------------------------------------------------------
// Decoding every element of an array.
// ------------------------------------------------------------------

/// Decodes each element with `f`; fails as soon as one element fails.
pub open spec fn decode_seq<T>(elems: Seq<JVal>, f: spec_fn(JVal) -> Option<T>) -> Option<Seq<T>>
    decreases elems.len(),
{
    if elems.len() == 0 {
        Some(Seq::<T>::empty())
    } else {
        match (f(elems[0]), decode_seq(elems.skip(1), f)) {
            (Some(h), Some(t)) => Some(seq![h] + t),
            _ => None,
        }
    }
}

pub proof fn lemma_decode_seq_push<T>(elems: Seq<JVal>, f: spec_fn(JVal) -> Option<T>, x: JVal)
    ensures
        decode_seq(elems.push(x), f) == (match (decode_seq(elems, f), f(x)) {
            (Some(t), Some(h)) => Some(t.push(h)),
            _ => None::<Seq<T>>,
        }),
    decreases elems.len(),
{
    let p = elems.push(x);
    if elems.len() == 0 {
        assert(p[0] == x);
        assert(p.skip(1) =~= Seq::<JVal>::empty());
        assert(elems =~= Seq::<JVal>::empty());
        if let Some(h) = f(x) {
            assert(decode_seq(p, f) == Some(seq![h] + Seq::<T>::empty()));
            assert(seq![h] + Seq::<T>::empty() =~= Seq::<T>::empty().push(h));
        }
    } else {
        assert(p[0] == elems[0]);
        assert(p.skip(1) =~= elems.skip(1).push(x));
        lemma_decode_seq_push(elems.skip(1), f, x);
        match (f(elems[0]), decode_seq(elems.skip(1), f), f(x)) {
            (Some(h), Some(t), Some(hx)) => {
                assert(decode_seq(p.skip(1), f) == Some(t.push(hx)));
                assert(seq![h] + t.push(hx) =~= (seq![h] + t).push(hx));
            },
            _ => {},
        }
    }
}

pub proof fn lemma_decode_seq_fail<T>(elems: Seq<JVal>, f: spec_fn(JVal) -> Option<T>, i: int)
    requires
        0 <= i < elems.len(),
        f(elems[i]) is None,
    ensures
        decode_seq(elems, f) is None,
    decreases elems.len(),
{
    if i > 0 {
        assert(elems.skip(1)[i - 1] == elems[i]);
        lemma_decode_seq_fail(elems.skip(1), f, i - 1);
    }
}

/// A JSON string, as an array element.
pub open spec fn spec_json_string(j: JVal) -> Option<Seq<char>> {
    match j {
        JVal::Str(s) => Some(s),
        _ => None,
    }
}

pub fn decode_json_string(v: &serde_json::Value) -> (r: Option<String>)
    ensures
        match r {
            Some(s) => spec_json_string(json_view(*v)) == Some(s@),
            None => spec_json_string(json_view(*v)) is None,
        },
{
    value_str(v)
}

/// Which JSON trees decode to a `AccuweatherMeasurement`, and to which one.
pub open spec fn spec_measurement(j: JVal) -> Option<SpecMeasurement> {
    if num_text_field(j, "Value"@) is Some
        && str_field(j, "Unit"@) is Some
        && i32_field(j, "UnitType"@) is Some {
        Some(SpecMeasurement {
            value: num_text_field(j, "Value"@).unwrap(),
            unit: str_field(j, "Unit"@).unwrap(),
            unit_type: i32_field(j, "UnitType"@).unwrap(),
        })
    } else {
        None
    }
}

pub fn decode_measurement(v: &serde_json::Value) -> (r: Option<AccuweatherMeasurement>)
    ensures
        match r {
            Some(m) => spec_measurement(json_view(*v)) == Some(m@),
            None => spec_measurement(json_view(*v)) is None,
        },
{
    let value = match get_num_text_field(v, "Value") {
        Some(x) => x,
        None => return None,
    };
    let unit = match get_str_field(v, "Unit") {
        Some(x) => x,
        None => return None,
    };
    let unit_type = match get_i32_field(v, "UnitType") {
        Some(x) => x,
        None => return None,
    };
    Some(AccuweatherMeasurement {
        value,
        unit,
        unit_type,
    })
}

/// Which JSON trees decode to a `AirAndPollen`, and to which one.
pub open spec fn spec_air_and_pollen(j: JVal) -> Option<SpecAirAndPollen> {
    if str_field(j, "Name"@) is Some
        && i32_field(j, "Value"@) is Some
        && str_field(j, "Category"@) is Some
        && i32_field(j, "CategoryValue"@) is Some
        && default_str_field(j, "Type"@) is Some {
        Some(SpecAirAndPollen {
            name: str_field(j, "Name"@).unwrap(),
            value: i32_field(j, "Value"@).unwrap(),
            category: str_field(j, "Category"@).unwrap(),
            category_value: i32_field(j, "CategoryValue"@).unwrap(),
            type_: default_str_field(j, "Type"@).unwrap(),
        })
    } else {
        None
    }
}

pub fn decode_air_and_pollen(v: &serde_json::Value) -> (r: Option<AirAndPollen>)
    ensures
        match r {
            Some(m) => spec_air_and_pollen(json_view(*v)) == Some(m@),
            None => spec_air_and_pollen(json_view(*v)) is None,
        },
{
    let name = match get_str_field(v, "Name") {
        Some(x) => x,
        None => return None,
    };
    let value = match get_i32_field(v, "Value") {
        Some(x) => x,
        None => return None,
    };
    let category = match get_str_field(v, "Category") {
        Some(x) => x,
        None => return None,
    };
    let category_value = match get_i32_field(v, "CategoryValue") {
        Some(x) => x,
        None => return None,
    };
    let type_ = match get_default_str_field(v, "Type") {
        Some(x) => x,
        None => return None,
    };
    Some(AirAndPollen {
        name,
        value,
        category,
        category_value,
        type_,
    })
}

/// Which JSON trees decode to a `WindDirection`, and to which one.
pub open spec fn spec_wind_direction(j: JVal) -> Option<SpecWindDirection> {
    if num_text_field(j, "Degrees"@) is Some
        && str_field(j, "Localized"@) is Some
        && str_field(j, "English"@) is Some {
        Some(SpecWindDirection {
            degrees: num_text_field(j, "Degrees"@).unwrap(),
            localized: str_field(j, "Localized"@).unwrap(),
            english: str_field(j, "English"@).unwrap(),
        })
    } else {
        None
    }
}

pub fn decode_wind_direction(v: &serde_json::Value) -> (r: Option<WindDirection>)
    ensures
        match r {
            Some(m) => spec_wind_direction(json_view(*v)) == Some(m@),
            None => spec_wind_direction(json_view(*v)) is None,
        },
{
    let degrees = match get_num_text_field(v, "Degrees") {
        Some(x) => x,
        None => return None,
    };
    let localized = match get_str_field(v, "Localized") {
        Some(x) => x,
        None => return None,
    };
    let english = match get_str_field(v, "English") {
        Some(x) => x,
        None => return None,
    };
    Some(WindDirection {
        degrees,
        localized,
        english,
    })
}

/// Which JSON trees decode to a `Wind`, and to which one.
pub open spec fn spec_wind(j: JVal) -> Option<SpecWind> {
    if json_field(j, "Speed"@) is Some
        && spec_measurement(json_field(j, "Speed"@).unwrap()) is Some
        && json_field(j, "Direction"@) is Some
        && spec_wind_direction(json_field(j, "Direction"@).unwrap()) is Some {
        Some(SpecWind {
            speed: spec_measurement(json_field(j, "Speed"@).unwrap()).unwrap(),
            direction: spec_wind_direction(json_field(j, "Direction"@).unwrap()).unwrap(),
        })
    } else {
        None
    }
}

pub fn decode_wind(v: &serde_json::Value) -> (r: Option<Wind>)
    ensures
        match r {
            Some(m) => spec_wind(json_view(*v)) == Some(m@),
            None => spec_wind(json_view(*v)) is None,
        },
{
    let speed = {
        let fv = match value_field(v, "Speed") {
            Some(x) => x,
            None => return None,
        };
        match decode_measurement(fv) {
            Some(x) => x,
            None => return None,
        }
    };
    let direction = {
        let fv = match value_field(v, "Direction") {
            Some(x) => x,
            None => return None,
        };
        match decode_wind_direction(fv) {
            Some(x) => x,
            None => return None,
        }
    };
    Some(Wind {
        speed,
        direction,
    })
}

/// Which JSON trees decode to a `DailyWindGust`, and to which one.
pub open spec fn spec_daily_wind_gust(j: JVal) -> Option<SpecDailyWindGust> {
    if json_field(j, "Speed"@) is Some
        && spec_measurement(json_field(j, "Speed"@).unwrap()) is Some {
        Some(SpecDailyWindGust {
            speed: spec_measurement(json_field(j, "Speed"@).unwrap()).unwrap(),
        })
    } else {
        None
    }
}

pub fn decode_daily_wind_gust(v: &serde_json::Value) -> (r: Option<DailyWindGust>)
    ensures
        match r {
            Some(m) => spec_daily_wind_gust(json_view(*v)) == Some(m@),
            None => spec_daily_wind_gust(json_view(*v)) is None,
        },
{
    let speed = {
        let fv = match value_field(v, "Speed") {
            Some(x) => x,
            None => return None,
        };
        match decode_measurement(fv) {
            Some(x) => x,
            None => return None,
        }
    };
    Some(DailyWindGust {
        speed,
    })
}

/// Which JSON trees decode to a `Temperature`, and to which one.
pub open spec fn spec_temperature(j: JVal) -> Option<SpecTemperature> {
    if json_field(j, "Maximum"@) is Some
        && spec_measurement(json_field(j, "Maximum"@).unwrap()) is Some
        && json_field(j, "Minimum"@) is Some
        && spec_measurement(json_field(j, "Minimum"@).unwrap()) is Some {
        Some(SpecTemperature {
            maximum: spec_measurement(json_field(j, "Maximum"@).unwrap()).unwrap(),
            minimum: spec_measurement(json_field(j, "Minimum"@).unwrap()).unwrap(),
        })
    } else {
        None
    }
}

pub fn decode_temperature(v: &serde_json::Value) -> (r: Option<Temperature>)
    ensures
        match r {
            Some(m) => spec_temperature(json_view(*v)) == Some(m@),
            None => spec_temperature(json_view(*v)) is None,
        },
{
    let maximum = {
        let fv = match value_field(v, "Maximum") {
            Some(x) => x,
            None => return None,
        };
        match decode_measurement(fv) {
            Some(x) => x,
            None => return None,
        }
    };
    let minimum = {
        let fv = match value_field(v, "Minimum") {
            Some(x) => x,
            None => return None,
        };
        match decode_measurement(fv) {
            Some(x) => x,
            None => return None,
        }
    };
    Some(Temperature {
        maximum,
        minimum,
    })
}

/// Which JSON trees decode to a `DayPartForecast`, and to which one.
pub open spec fn spec_day_part_forecast(j: JVal) -> Option<SpecDayPartForecast> {
    if i32_field(j, "CloudCover"@) is Some
        && num_text_field(j, "HoursOfPrecipitation"@) is Some
        && num_text_field(j, "HoursOfRain"@) is Some
        && json_field(j, "Ice"@) is Some
        && spec_measurement(json_field(j, "Ice"@).unwrap()) is Some
        && i32_field(j, "IceProbability"@) is Some
        && i32_field(j, "Icon"@) is Some
        && str_field(j, "IconPhrase"@) is Some
        && str_field(j, "LongPhrase"@) is Some
        && i32_field(j, "PrecipitationProbability"@) is Some
        && json_field(j, "Rain"@) is Some
        && spec_measurement(json_field(j, "Rain"@).unwrap()) is Some
        && i32_field(j, "RainProbability"@) is Some
        && str_field(j, "ShortPhrase"@) is Some
        && json_field(j, "Snow"@) is Some
        && spec_measurement(json_field(j, "Snow"@).unwrap()) is Some
        && i32_field(j, "SnowProbability"@) is Some
        && i32_field(j, "ThunderstormProbability"@) is Some
        && json_field(j, "TotalLiquid"@) is Some
        && spec_measurement(json_field(j, "TotalLiquid"@).unwrap()) is Some
        && json_field(j, "Wind"@) is Some
        && spec_wind(json_field(j, "Wind"@).unwrap()) is Some
        && json_field(j, "WindGust"@) is Some
        && spec_wind(json_field(j, "WindGust"@).unwrap()) is Some {
        Some(SpecDayPartForecast {
            cloud_cover: i32_field(j, "CloudCover"@).unwrap(),
            hours_of_precipitation: num_text_field(j, "HoursOfPrecipitation"@).unwrap(),
            hours_of_rain: num_text_field(j, "HoursOfRain"@).unwrap(),
            ice: spec_measurement(json_field(j, "Ice"@).unwrap()).unwrap(),
            ice_probability: i32_field(j, "IceProbability"@).unwrap(),
            icon: i32_field(j, "Icon"@).unwrap(),
            icon_phrase: str_field(j, "IconPhrase"@).unwrap(),
            long_phrase: str_field(j, "LongPhrase"@).unwrap(),
            precipitation_probability: i32_field(j, "PrecipitationProbability"@).unwrap(),
            rain: spec_measurement(json_field(j, "Rain"@).unwrap()).unwrap(),
            rain_probability: i32_field(j, "RainProbability"@).unwrap(),
            short_phrase: str_field(j, "ShortPhrase"@).unwrap(),
            snow: spec_measurement(json_field(j, "Snow"@).unwrap()).unwrap(),
            snow_probability: i32_field(j, "SnowProbability"@).unwrap(),
            thunderstorm_probability: i32_field(j, "ThunderstormProbability"@).unwrap(),
            total_liquid: spec_measurement(json_field(j, "TotalLiquid"@).unwrap()).unwrap(),
            wind: spec_wind(json_field(j, "Wind"@).unwrap()).unwrap(),
            wind_gust: spec_wind(json_field(j, "WindGust"@).unwrap()).unwrap(),
        })
    } else {
        None
    }
}

#[verifier::rlimit(60)]
pub fn decode_day_part_forecast(v: &serde_json::Value) -> (r: Option<DayPartForecast>)
    ensures
        match r {
            Some(m) => spec_day_part_forecast(json_view(*v)) == Some(m@),
            None => spec_day_part_forecast(json_view(*v)) is None,
        },
{
    let cloud_cover = match get_i32_field(v, "CloudCover") {
        Some(x) => x,
        None => return None,
    };
    let hours_of_precipitation = match get_num_text_field(v, "HoursOfPrecipitation") {
        Some(x) => x,
        None => return None,
    };
    let hours_of_rain = match get_num_text_field(v, "HoursOfRain") {
        Some(x) => x,
        None => return None,
    };
    let ice = {
        let fv = match value_field(v, "Ice") {
            Some(x) => x,
            None => return None,
        };
        match decode_measurement(fv) {
            Some(x) => x,
            None => return None,
        }
    };
    let ice_probability = match get_i32_field(v, "IceProbability") {
        Some(x) => x,
        None => return None,
    };
    let icon = match get_i32_field(v, "Icon") {
        Some(x) => x,
        None => return None,
    };
    let icon_phrase = match get_str_field(v, "IconPhrase") {
        Some(x) => x,
        None => return None,
    };
    let long_phrase = match get_str_field(v, "LongPhrase") {
        Some(x) => x,
        None => return None,
    };
    let precipitation_probability = match get_i32_field(v, "PrecipitationProbability") {
        Some(x) => x,
        None => return None,
    };
    let rain = {
        let fv = match value_field(v, "Rain") {
            Some(x) => x,
            None => return None,
        };
        match decode_measurement(fv) {
            Some(x) => x,
            None => return None,
        }
    };
    let rain_probability = match get_i32_field(v, "RainProbability") {
        Some(x) => x,
        None => return None,
    };
    let short_phrase = match get_str_field(v, "ShortPhrase") {
        Some(x) => x,
        None => return None,
    };
    let snow = {
        let fv = match value_field(v, "Snow") {
            Some(x) => x,
            None => return None,
        };
        match decode_measurement(fv) {
            Some(x) => x,
            None => return None,
        }
    };
    let snow_probability = match get_i32_field(v, "SnowProbability") {
        Some(x) => x,
        None => return None,
    };
    let thunderstorm_probability = match get_i32_field(v, "ThunderstormProbability") {
        Some(x) => x,
        None => return None,
    };
    let total_liquid = {
        let fv = match value_field(v, "TotalLiquid") {
            Some(x) => x,
            None => return None,
        };
        match decode_measurement(fv) {
            Some(x) => x,
            None => return None,
        }
    };
    let wind = {
        let fv = match value_field(v, "Wind") {
            Some(x) => x,
            None => return None,
        };
        match decode_wind(fv) {
            Some(x) => x,
            None => return None,
        }
    };
    let wind_gust = {
        let fv = match value_field(v, "WindGust") {
            Some(x) => x,
            None => return None,
        };
        match decode_wind(fv) {
            Some(x) => x,
            None => return None,
        }
    };
    Some(DayPartForecast {
        cloud_cover,
        hours_of_precipitation,
        hours_of_rain,
        ice,
        ice_probability,
        icon,
        icon_phrase,
        long_phrase,
        precipitation_probability,
        rain,
        rain_probability,
        short_phrase,
        snow,
        snow_probability,
        thunderstorm_probability,
        total_liquid,
        wind,
        wind_gust,
    })
}

/// Which JSON trees decode to a `DegreeDaySummary`, and to which one.
pub open spec fn spec_degree_day_summary(j: JVal) -> Option<SpecDegreeDaySummary> {
    if json_field(j, "Heating"@) is Some
        && spec_measurement(json_field(j, "Heating"@).unwrap()) is Some
        && json_field(j, "Cooling"@) is Some
        && spec_measurement(json_field(j, "Cooling"@).unwrap()) is Some {
        Some(SpecDegreeDaySummary {
            heating: spec_measurement(json_field(j, "Heating"@).unwrap()).unwrap(),
            cooling: spec_measurement(json_field(j, "Cooling"@).unwrap()).unwrap(),
        })
    } else {
        None
    }
}

pub fn decode_degree_day_summary(v: &serde_json::Value) -> (r: Option<DegreeDaySummary>)
    ensures
        match r {
            Some(m) => spec_degree_day_summary(json_view(*v)) == Some(m@),
            None => spec_degree_day_summary(json_view(*v)) is None,
        },
{
    let heating = {
        let fv = match value_field(v, "Heating") {
            Some(x) => x,
            None => return None,
        };
        match decode_measurement(fv) {
            Some(x) => x,
            None => return None,
        }
    };
    let cooling = {
        let fv = match value_field(v, "Cooling") {
            Some(x) => x,
            None => return None,
        };
        match decode_measurement(fv) {
            Some(x) => x,
            None => return None,
        }
    };
    Some(DegreeDaySummary {
        heating,
        cooling,
    })
}

/// Which JSON trees decode to a `Sun`, and to which one.
pub open spec fn spec_sun(j: JVal) -> Option<SpecSun> {
    if str_field(j, "Rise"@) is Some
        && i64_field(j, "EpochRise"@) is Some
        && str_field(j, "Set"@) is Some
        && i64_field(j, "EpochSet"@) is Some {
        Some(SpecSun {
            rise: str_field(j, "Rise"@).unwrap(),
            epoch_rise: i64_field(j, "EpochRise"@).unwrap(),
            set: str_field(j, "Set"@).unwrap(),
            epoch_set: i64_field(j, "EpochSet"@).unwrap(),
        })
    } else {
        None
    }
}

pub fn decode_sun(v: &serde_json::Value) -> (r: Option<Sun>)
    ensures
        match r {
            Some(m) => spec_sun(json_view(*v)) == Some(m@),
            None => spec_sun(json_view(*v)) is None,
        },
{
    let rise = match get_str_field(v, "Rise") {
        Some(x) => x,
        None => return None,
    };
    let epoch_rise = match get_i64_field(v, "EpochRise") {
        Some(x) => x,
        None => return None,
    };
    let set = match get_str_field(v, "Set") {
        Some(x) => x,
        None => return None,
    };
    let epoch_set = match get_i64_field(v, "EpochSet") {
        Some(x) => x,
        None => return None,
    };
    Some(Sun {
        rise,
        epoch_rise,
        set,
        epoch_set,
    })
}

/// Which JSON trees decode to a `Moon`, and to which one.
pub open spec fn spec_moon(j: JVal) -> Option<SpecMoon> {
    if opt_str_field(j, "Rise"@) is Some
        && opt_i64_field(j, "EpochRise"@) is Some
        && opt_str_field(j, "Set"@) is Some
        && opt_i64_field(j, "EpochSet"@) is Some
        && opt_str_field(j, "Phase"@) is Some
        && opt_i32_field(j, "Age"@) is Some {
        Some(SpecMoon {
            rise: opt_str_field(j, "Rise"@).unwrap(),
            epoch_rise: opt_i64_field(j, "EpochRise"@).unwrap(),
            set: opt_str_field(j, "Set"@).unwrap(),
            epoch_set: opt_i64_field(j, "EpochSet"@).unwrap(),
            phase: opt_str_field(j, "Phase"@).unwrap(),
            age: opt_i32_field(j, "Age"@).unwrap(),
        })
    } else {
        None
    }
}

pub fn decode_moon(v: &serde_json::Value) -> (r: Option<Moon>)
    ensures
        match r {
            Some(m) => spec_moon(json_view(*v)) == Some(m@),
            None => spec_moon(json_view(*v)) is None,
        },
{
    let rise = match get_opt_str_field(v, "Rise") {
        Some(x) => x,
        None => return None,
    };
    let epoch_rise = match get_opt_i64_field(v, "EpochRise") {
        Some(x) => x,
        None => return None,
    };
    let set = match get_opt_str_field(v, "Set") {
        Some(x) => x,
        None => return None,
    };
    let epoch_set = match get_opt_i64_field(v, "EpochSet") {
        Some(x) => x,
        None => return None,
    };
    let phase = match get_opt_str_field(v, "Phase") {
        Some(x) => x,
        None => return None,
    };
    let age = match get_opt_i32_field(v, "Age") {
        Some(x) => x,
        None => return None,
    };
    Some(Moon {
        rise,
        epoch_rise,
        set,
        epoch_set,
        phase,
        age,
    })
}

/// Which JSON trees decode to a run of `AirAndPollen` records.
pub open spec fn spec_air_and_pollen_list(j: JVal) -> Option<Seq<<AirAndPollen as View>::V>> {
    match j {
        JVal::Arr(elems) => decode_seq(elems, |e: JVal| spec_air_and_pollen(e)),
        _ => None,
    }
}

pub fn decode_air_and_pollen_list(v: &serde_json::Value) -> (r: Option<Vec<AirAndPollen>>)
    ensures
        match r {
            Some(list) => spec_air_and_pollen_list(json_view(*v)) == Some(list@.map_values(|x: AirAndPollen| x@)),
            None => spec_air_and_pollen_list(json_view(*v)) is None,
        },
{
    let arr = match value_array(v) {
        Some(a) => a,
        None => return None,
    };
    let ghost elems = arr@.map_values(|e: serde_json::Value| json_view(e));
    let mut out: Vec<AirAndPollen> = Vec::new();
    let mut i: usize = 0;
    while i < arr.len()
        invariant
            i <= arr.len(),
            elems == arr@.map_values(|e: serde_json::Value| json_view(e)),
            json_view(*v) == JVal::Arr(elems),
            elems.len() == arr@.len(),
            decode_seq(elems.take(i as int), |e: JVal| spec_air_and_pollen(e)) == Some(
                out@.map_values(|x: AirAndPollen| x@),
            ),
        decreases arr.len() - i,
    {
        proof {
            assert(elems[i as int] == json_view(arr@[i as int]));
        }
        let item = match decode_air_and_pollen(&arr[i]) {
            Some(x) => x,
            None => {
                proof {
                    lemma_decode_seq_fail(elems, |e: JVal| spec_air_and_pollen(e), i as int);
                }
                return None;
            },
        };
        proof {
            lemma_decode_seq_push(elems.take(i as int), |e: JVal| spec_air_and_pollen(e), elems[i as int]);
            assert(elems.take(i + 1 as int) =~= elems.take(i as int).push(elems[i as int]));
            assert((out@.push(item)).map_values(|x: AirAndPollen| x@) =~= out@.map_values(
                |x: AirAndPollen| x@,
            ).push(item@));
        }
        out.push(item);
        i = i + 1;
    }
    proof {
        assert(elems.take(arr@.len() as int) =~= elems);
    }
    Some(out)
}

/// Which JSON trees decode to a run of `String` records.
pub open spec fn spec_string_list(j: JVal) -> Option<Seq<<String as View>::V>> {
    match j {
        JVal::Arr(elems) => decode_seq(elems, |e: JVal| spec_json_string(e)),
        _ => None,
    }
}

pub fn decode_string_list(v: &serde_json::Value) -> (r: Option<Vec<String>>)
    ensures
        match r {
            Some(list) => spec_string_list(json_view(*v)) == Some(list@.map_values(|x: String| x@)),
            None => spec_string_list(json_view(*v)) is None,
        },
{
    let arr = match value_array(v) {
        Some(a) => a,
        None => return None,
    };
    let ghost elems = arr@.map_values(|e: serde_json::Value| json_view(e));
    let mut out: Vec<String> = Vec::new();
    let mut i: usize = 0;
    while i < arr.len()
        invariant
            i <= arr.len(),
            elems == arr@.map_values(|e: serde_json::Value| json_view(e)),
            json_view(*v) == JVal::Arr(elems),
            elems.len() == arr@.len(),
            decode_seq(elems.take(i as int), |e: JVal| spec_json_string(e)) == Some(
                out@.map_values(|x: String| x@),
            ),
        decreases arr.len() - i,
    {
        proof {
            assert(elems[i as int] == json_view(arr@[i as int]));
        }
        let item = match decode_json_string(&arr[i]) {
            Some(x) => x,
            None => {
                proof {
                    lemma_decode_seq_fail(elems, |e: JVal| spec_json_string(e), i as int);
                }
                return None;
            },
        };
        proof {
            lemma_decode_seq_push(elems.take(i as int), |e: JVal| spec_json_string(e), elems[i as int]);
            assert(elems.take(i + 1 as int) =~= elems.take(i as int).push(elems[i as int]));
            assert((out@.push(item)).map_values(|x: String| x@) =~= out@.map_values(
                |x: String| x@,
            ).push(item@));
        }
        out.push(item);
        i = i + 1;
    }
    proof {
        assert(elems.take(arr@.len() as int) =~= elems);
    }
    Some(out)
}

/// Which JSON trees decode to a `DailyForecast`, and to which one.
pub open spec fn spec_daily_forecast(j: JVal) -> Option<SpecDailyForecast> {
    if json_field(j, "AirAndPollen"@) is Some
        && spec_air_and_pollen_list(json_field(j, "AirAndPollen"@).unwrap()) is Some
        && str_field(j, "Date"@) is Some
        && json_field(j, "Day"@) is Some
        && spec_day_part_forecast(json_field(j, "Day"@).unwrap()) is Some
        && json_field(j, "DegreeDaySummary"@) is Some
        && spec_degree_day_summary(json_field(j, "DegreeDaySummary"@).unwrap()) is Some
        && i64_field(j, "EpochDate"@) is Some
        && num_text_field(j, "HoursOfSun"@) is Some
        && str_field(j, "Link"@) is Some
        && str_field(j, "MobileLink"@) is Some
        && json_field(j, "Moon"@) is Some
        && spec_moon(json_field(j, "Moon"@).unwrap()) is Some
        && json_field(j, "Night"@) is Some
        && spec_day_part_forecast(json_field(j, "Night"@).unwrap()) is Some
        && json_field(j, "RealFeelTemperature"@) is Some
        && spec_temperature(json_field(j, "RealFeelTemperature"@).unwrap()) is Some
        && json_field(j, "RealFeelTemperatureShade"@) is Some
        && spec_temperature(json_field(j, "RealFeelTemperatureShade"@).unwrap()) is Some
        && json_field(j, "Sources"@) is Some
        && spec_string_list(json_field(j, "Sources"@).unwrap()) is Some
        && json_field(j, "Sun"@) is Some
        && spec_sun(json_field(j, "Sun"@).unwrap()) is Some
        && json_field(j, "Temperature"@) is Some
        && spec_temperature(json_field(j, "Temperature"@).unwrap()) is Some {
        Some(SpecDailyForecast {
            air_and_pollen: spec_air_and_pollen_list(json_field(j, "AirAndPollen"@).unwrap()).unwrap(),
            date: str_field(j, "Date"@).unwrap(),
            day: spec_day_part_forecast(json_field(j, "Day"@).unwrap()).unwrap(),
            degree_day_summary: spec_degree_day_summary(json_field(j, "DegreeDaySummary"@).unwrap()).unwrap(),
            epoch_date: i64_field(j, "EpochDate"@).unwrap(),
            hours_of_sun: num_text_field(j, "HoursOfSun"@).unwrap(),
            link: str_field(j, "Link"@).unwrap(),
            mobile_link: str_field(j, "MobileLink"@).unwrap(),
            moon: spec_moon(json_field(j, "Moon"@).unwrap()).unwrap(),
            night: spec_day_part_forecast(json_field(j, "Night"@).unwrap()).unwrap(),
            real_feel_temperature: spec_temperature(json_field(j, "RealFeelTemperature"@).unwrap()).unwrap(),
            real_feel_temperature_shade: spec_temperature(json_field(j, "RealFeelTemperatureShade"@).unwrap()).unwrap(),
            sources: spec_string_list(json_field(j, "Sources"@).unwrap()).unwrap(),
            sun: spec_sun(json_field(j, "Sun"@).unwrap()).unwrap(),
            temperature: spec_temperature(json_field(j, "Temperature"@).unwrap()).unwrap(),
        })
    } else {
        None
    }
}

#[verifier::rlimit(60)]
pub fn decode_daily_forecast(v: &serde_json::Value) -> (r: Option<DailyForecast>)
    ensures
        match r {
            Some(m) => spec_daily_forecast(json_view(*v)) == Some(m@),
            None => spec_daily_forecast(json_view(*v)) is None,
        },
{
    let air_and_pollen = {
        let fv = match value_field(v, "AirAndPollen") {
            Some(x) => x,
            None => return None,
        };
        match decode_air_and_pollen_list(fv) {
            Some(x) => x,
            None => return None,
        }
    };
    let date = match get_str_field(v, "Date") {
        Some(x) => x,
        None => return None,
    };
    let day = {
        let fv = match value_field(v, "Day") {
            Some(x) => x,
            None => return None,
        };
        match decode_day_part_forecast(fv) {
            Some(x) => x,
            None => return None,
        }
    };
    let degree_day_summary = {
        let fv = match value_field(v, "DegreeDaySummary") {
            Some(x) => x,
            None => return None,
        };
        match decode_degree_day_summary(fv) {
            Some(x) => x,
            None => return None,
        }
    };
    let epoch_date = match get_i64_field(v, "EpochDate") {
        Some(x) => x,
        None => return None,
    };
    let hours_of_sun = match get_num_text_field(v, "HoursOfSun") {
        Some(x) => x,
        None => return None,
    };
    let link = match get_str_field(v, "Link") {
        Some(x) => x,
        None => return None,
    };
    let mobile_link = match get_str_field(v, "MobileLink") {
        Some(x) => x,
        None => return None,
    };
    let moon = {
        let fv = match value_field(v, "Moon") {
            Some(x) => x,
            None => return None,
        };
        match decode_moon(fv) {
            Some(x) => x,
            None => return None,
        }
    };
    let night = {
        let fv = match value_field(v, "Night") {
            Some(x) => x,
            None => return None,
        };
        match decode_day_part_forecast(fv) {
            Some(x) => x,
            None => return None,
        }
    };
    let real_feel_temperature = {
        let fv = match value_field(v, "RealFeelTemperature") {
            Some(x) => x,
            None => return None,
        };
        match decode_temperature(fv) {
            Some(x) => x,
            None => return None,
        }
    };
    let real_feel_temperature_shade = {
        let fv = match value_field(v, "RealFeelTemperatureShade") {
            Some(x) => x,
            None => return None,
        };
        match decode_temperature(fv) {
            Some(x) => x,
            None => return None,
        }
    };
    let sources = {
        let fv = match value_field(v, "Sources") {
            Some(x) => x,
            None => return None,
        };
        match decode_string_list(fv) {
            Some(x) => x,
            None => return None,
        }
    };
    let sun = {
        let fv = match value_field(v, "Sun") {
            Some(x) => x,
            None => return None,
        };
        match decode_sun(fv) {
            Some(x) => x,
            None => return None,
        }
    };
    let temperature = {
        let fv = match value_field(v, "Temperature") {
            Some(x) => x,
            None => return None,
        };
        match decode_temperature(fv) {
            Some(x) => x,
            None => return None,
        }
    };
    Some(DailyForecast {
        air_and_pollen,
        date,
        day,
        degree_day_summary,
        epoch_date,
        hours_of_sun,
        link,
        mobile_link,
        moon,
        night,
        real_feel_temperature,
        real_feel_temperature_shade,
        sources,
        sun,
        temperature,
    })
}

/// Which JSON trees decode to a `Headline`, and to which one.
pub open spec fn spec_headline(j: JVal) -> Option<SpecHeadline> {
    if str_field(j, "EffectiveDate"@) is Some
        && i64_field(j, "EffectiveEpochDate"@) is Some
        && i32_field(j, "Severity"@) is Some
        && str_field(j, "Text"@) is Some
        && str_field(j, "Category"@) is Some
        && str_field(j, "EndDate"@) is Some
        && i64_field(j, "EndEpochDate"@) is Some
        && str_field(j, "MobileLink"@) is Some
        && str_field(j, "Link"@) is Some {
        Some(SpecHeadline {
            effective_date: str_field(j, "EffectiveDate"@).unwrap(),
            effective_epoch_date: i64_field(j, "EffectiveEpochDate"@).unwrap(),
            severity: i32_field(j, "Severity"@).unwrap(),
            text: str_field(j, "Text"@).unwrap(),
            category: str_field(j, "Category"@).unwrap(),
            end_date: str_field(j, "EndDate"@).unwrap(),
            end_epoch_date: i64_field(j, "EndEpochDate"@).unwrap(),
            mobile_link: str_field(j, "MobileLink"@).unwrap(),
            link: str_field(j, "Link"@).unwrap(),
        })
    } else {
        None
    }
}

pub fn decode_headline(v: &serde_json::Value) -> (r: Option<Headline>)
    ensures
        match r {
            Some(m) => spec_headline(json_view(*v)) == Some(m@),
            None => spec_headline(json_view(*v)) is None,
        },
{
    let effective_date = match get_str_field(v, "EffectiveDate") {
        Some(x) => x,
        None => return None,
    };
    let effective_epoch_date = match get_i64_field(v, "EffectiveEpochDate") {
        Some(x) => x,
        None => return None,
    };
    let severity = match get_i32_field(v, "Severity") {
        Some(x) => x,
        None => return None,
    };
    let text = match get_str_field(v, "Text") {
        Some(x) => x,
        None => return None,
    };
    let category = match get_str_field(v, "Category") {
        Some(x) => x,
        None => return None,
    };
    let end_date = match get_str_field(v, "EndDate") {
        Some(x) => x,
        None => return None,
    };
    let end_epoch_date = match get_i64_field(v, "EndEpochDate") {
        Some(x) => x,
        None => return None,
    };
    let mobile_link = match get_str_field(v, "MobileLink") {
        Some(x) => x,
        None => return None,
    };
    let link = match get_str_field(v, "Link") {
        Some(x) => x,
        None => return None,
    };
    Some(Headline {
        effective_date,
        effective_epoch_date,
        severity,
        text,
        category,
        end_date,
        end_epoch_date,
        mobile_link,
        link,
    })
}

/// Which JSON trees decode to a run of `DailyForecast` records.
pub open spec fn spec_daily_forecast_list(j: JVal) -> Option<Seq<<DailyForecast as View>::V>> {
    match j {
        JVal::Arr(elems) => decode_seq(elems, |e: JVal| spec_daily_forecast(e)),
        _ => None,
    }
}

pub fn decode_daily_forecast_list(v: &serde_json::Value) -> (r: Option<Vec<DailyForecast>>)
    ensures
        match r {
            Some(list) => spec_daily_forecast_list(json_view(*v)) == Some(list@.map_values(|x: DailyForecast| x@)),
            None => spec_daily_forecast_list(json_view(*v)) is None,
        },
{
    let arr = match value_array(v) {
        Some(a) => a,
        None => return None,
    };
    let ghost elems = arr@.map_values(|e: serde_json::Value| json_view(e));
    let mut out: Vec<DailyForecast> = Vec::new();
    let mut i: usize = 0;
    while i < arr.len()
        invariant
            i <= arr.len(),
            elems == arr@.map_values(|e: serde_json::Value| json_view(e)),
            json_view(*v) == JVal::Arr(elems),
            elems.len() == arr@.len(),
            decode_seq(elems.take(i as int), |e: JVal| spec_daily_forecast(e)) == Some(
                out@.map_values(|x: DailyForecast| x@),
            ),
        decreases arr.len() - i,
    {
        proof {
            assert(elems[i as int] == json_view(arr@[i as int]));
        }
        let item = match decode_daily_forecast(&arr[i]) {
            Some(x) => x,
            None => {
                proof {
                    lemma_decode_seq_fail(elems, |e: JVal| spec_daily_forecast(e), i as int);
                }
                return None;
            },
        };
        proof {
            lemma_decode_seq_push(elems.take(i as int), |e: JVal| spec_daily_forecast(e), elems[i as int]);
            assert(elems.take(i + 1 as int) =~= elems.take(i as int).push(elems[i as int]));
            assert((out@.push(item)).map_values(|x: DailyForecast| x@) =~= out@.map_values(
                |x: DailyForecast| x@,
            ).push(item@));
        }
        out.push(item);
        i = i + 1;
    }
    proof {
        assert(elems.take(arr@.len() as int) =~= elems);
    }
    Some(out)
}

/// Which JSON trees decode to a `DailyForecastsAnswer`, and to which one.
pub open spec fn spec_daily_forecasts_answer(j: JVal) -> Option<SpecDailyForecastsAnswer> {
    if json_field(j, "Headline"@) is Some
        && spec_headline(json_field(j, "Headline"@).unwrap()) is Some
        && json_field(j, "DailyForecasts"@) is Some
        && spec_daily_forecast_list(json_field(j, "DailyForecasts"@).unwrap()) is Some {
        Some(SpecDailyForecastsAnswer {
            headline: spec_headline(json_field(j, "Headline"@).unwrap()).unwrap(),
            daily_forecasts: spec_daily_forecast_list(json_field(j, "DailyForecasts"@).unwrap()).unwrap(),
        })
    } else {
        None
    }
}

pub fn decode_daily_forecasts_answer(v: &serde_json::Value) -> (r: Option<DailyForecastsAnswer>)
    ensures
        match r {
            Some(m) => spec_daily_forecasts_answer(json_view(*v)) == Some(m@),
            None => spec_daily_forecasts_answer(json_view(*v)) is None,
        },
{
    let headline = {
        let fv = match value_field(v, "Headline") {
            Some(x) => x,
            None => return None,
        };
        match decode_headline(fv) {
            Some(x) => x,
            None => return None,
        }
    };
    let daily_forecasts = {
        let fv = match value_field(v, "DailyForecasts") {
            Some(x) => x,
            None => return None,
        };
        match decode_daily_forecast_list(fv) {
            Some(x) => x,
            None => return None,
        }
    };
    Some(DailyForecastsAnswer {
        headline,
        daily_forecasts,
    })
}

/// Which JSON trees decode to a `HourlyForecast`, and to which one.
pub open spec fn spec_hourly_forecast(j: JVal) -> Option<SpecHourlyForecast> {
    if json_field(j, "Ceiling"@) is Some
        && spec_measurement(json_field(j, "Ceiling"@).unwrap()) is Some
        && i32_field(j, "CloudCover"@) is Some
        && str_field(j, "DateTime"@) is Some
        && json_field(j, "DewPoint"@) is Some
        && spec_measurement(json_field(j, "DewPoint"@).unwrap()) is Some
        && i64_field(j, "EpochDateTime"@) is Some
        && json_field(j, "Ice"@) is Some
        && spec_measurement(json_field(j, "Ice"@).unwrap()) is Some
        && i32_field(j, "IceProbability"@) is Some
        && str_field(j, "IconPhrase"@) is Some
        && bool_field(j, "IsDaylight"@) is Some
        && str_field(j, "Link"@) is Some
        && str_field(j, "MobileLink"@) is Some
        && i32_field(j, "PrecipitationProbability"@) is Some
        && json_field(j, "Rain"@) is Some
        && spec_measurement(json_field(j, "Rain"@).unwrap()) is Some
        && i32_field(j, "RainProbability"@) is Some
        && json_field(j, "RealFeelTemperature"@) is Some
        && spec_measurement(json_field(j, "RealFeelTemperature"@).unwrap()) is Some
        && i32_field(j, "RelativeHumidity"@) is Some
        && json_field(j, "Snow"@) is Some
        && spec_measurement(json_field(j, "Snow"@).unwrap()) is Some
        && i32_field(j, "SnowProbability"@) is Some
        && json_field(j, "Temperature"@) is Some
        && spec_measurement(json_field(j, "Temperature"@).unwrap()) is Some
        && json_field(j, "TotalLiquid"@) is Some
        && spec_measurement(json_field(j, "TotalLiquid"@).unwrap()) is Some
        && i32_field(j, "UVIndex"@) is Some
        && str_field(j, "UVIndexText"@) is Some
        && json_field(j, "Visibility"@) is Some
        && spec_measurement(json_field(j, "Visibility"@).unwrap()) is Some
        && i32_field(j, "WeatherIcon"@) is Some
        && json_field(j, "WetBulbTemperature"@) is Some
        && spec_measurement(json_field(j, "WetBulbTemperature"@).unwrap()) is Some
        && json_field(j, "Wind"@) is Some
        && spec_wind(json_field(j, "Wind"@).unwrap()) is Some
        && json_field(j, "WindGust"@) is Some
        && spec_daily_wind_gust(json_field(j, "WindGust"@).unwrap()) is Some {
        Some(SpecHourlyForecast {
            ceiling: spec_measurement(json_field(j, "Ceiling"@).unwrap()).unwrap(),
            cloud_cover: i32_field(j, "CloudCover"@).unwrap(),
            date_time: str_field(j, "DateTime"@).unwrap(),
            dew_point: spec_measurement(json_field(j, "DewPoint"@).unwrap()).unwrap(),
            epoch_date_time: i64_field(j, "EpochDateTime"@).unwrap(),
            ice: spec_measurement(json_field(j, "Ice"@).unwrap()).unwrap(),
            ice_probability: i32_field(j, "IceProbability"@).unwrap(),
            icon_phrase: str_field(j, "IconPhrase"@).unwrap(),
            is_daylight: bool_field(j, "IsDaylight"@).unwrap(),
            link: str_field(j, "Link"@).unwrap(),
            mobile_link: str_field(j, "MobileLink"@).unwrap(),
            precipitation_probability: i32_field(j, "PrecipitationProbability"@).unwrap(),
            rain: spec_measurement(json_field(j, "Rain"@).unwrap()).unwrap(),
            rain_probability: i32_field(j, "RainProbability"@).unwrap(),
            real_feel_temperature: spec_measurement(json_field(j, "RealFeelTemperature"@).unwrap()).unwrap(),
            relative_humidity: i32_field(j, "RelativeHumidity"@).unwrap(),
            snow: spec_measurement(json_field(j, "Snow"@).unwrap()).unwrap(),
            snow_probability: i32_field(j, "SnowProbability"@).unwrap(),
            temperature: spec_measurement(json_field(j, "Temperature"@).unwrap()).unwrap(),
            total_liquid: spec_measurement(json_field(j, "TotalLiquid"@).unwrap()).unwrap(),
            uv_index: i32_field(j, "UVIndex"@).unwrap(),
            uv_index_text: str_field(j, "UVIndexText"@).unwrap(),
            visibility: spec_measurement(json_field(j, "Visibility"@).unwrap()).unwrap(),
            weather_icon: i32_field(j, "WeatherIcon"@).unwrap(),
            wet_bulb_temperature: spec_measurement(json_field(j, "WetBulbTemperature"@).unwrap()).unwrap(),
            wind: spec_wind(json_field(j, "Wind"@).unwrap()).unwrap(),
            wind_gust: spec_daily_wind_gust(json_field(j, "WindGust"@).unwrap()).unwrap(),
        })
    } else {
        None
    }
}

#[verifier::rlimit(100)]
pub fn decode_hourly_forecast(v: &serde_json::Value) -> (r: Option<HourlyForecast>)
    ensures
        match r {
            Some(m) => spec_hourly_forecast(json_view(*v)) == Some(m@),
            None => spec_hourly_forecast(json_view(*v)) is None,
        },
{
    let ceiling = {
        let fv = match value_field(v, "Ceiling") {
            Some(x) => x,
            None => return None,
        };
        match decode_measurement(fv) {
            Some(x) => x,
            None => return None,
        }
    };
    let cloud_cover = match get_i32_field(v, "CloudCover") {
        Some(x) => x,
        None => return None,
    };
    let date_time = match get_str_field(v, "DateTime") {
        Some(x) => x,
        None => return None,
    };
    let dew_point = {
        let fv = match value_field(v, "DewPoint") {
            Some(x) => x,
            None => return None,
        };
        match decode_measurement(fv) {
            Some(x) => x,
            None => return None,
        }
    };
    let epoch_date_time = match get_i64_field(v, "EpochDateTime") {
        Some(x) => x,
        None => return None,
    };
    let ice = {
        let fv = match value_field(v, "Ice") {
            Some(x) => x,
            None => return None,
        };
        match decode_measurement(fv) {
            Some(x) => x,
            None => return None,
        }
    };
    let ice_probability = match get_i32_field(v, "IceProbability") {
        Some(x) => x,
        None => return None,
    };
    let icon_phrase = match get_str_field(v, "IconPhrase") {
        Some(x) => x,
        None => return None,
    };
    let is_daylight = match get_bool_field(v, "IsDaylight") {
        Some(x) => x,
        None => return None,
    };
    let link = match get_str_field(v, "Link") {
        Some(x) => x,
        None => return None,
    };
    let mobile_link = match get_str_field(v, "MobileLink") {
        Some(x) => x,
        None => return None,
    };
    let precipitation_probability = match get_i32_field(v, "PrecipitationProbability") {
        Some(x) => x,
        None => return None,
    };
    let rain = {
        let fv = match value_field(v, "Rain") {
            Some(x) => x,
            None => return None,
        };
        match decode_measurement(fv) {
            Some(x) => x,
            None => return None,
        }
    };
    let rain_probability = match get_i32_field(v, "RainProbability") {
        Some(x) => x,
        None => return None,
    };
    let real_feel_temperature = {
        let fv = match value_field(v, "RealFeelTemperature") {
            Some(x) => x,
            None => return None,
        };
        match decode_measurement(fv) {
            Some(x) => x,
            None => return None,
        }
    };
    let relative_humidity = match get_i32_field(v, "RelativeHumidity") {
        Some(x) => x,
        None => return None,
    };
    let snow = {
        let fv = match value_field(v, "Snow") {
            Some(x) => x,
            None => return None,
        };
        match decode_measurement(fv) {
            Some(x) => x,
            None => return None,
        }
    };
    let snow_probability = match get_i32_field(v, "SnowProbability") {
        Some(x) => x,
        None => return None,
    };
    let temperature = {
        let fv = match value_field(v, "Temperature") {
            Some(x) => x,
            None => return None,
        };
        match decode_measurement(fv) {
            Some(x) => x,
            None => return None,
        }
    };
    let total_liquid = {
        let fv = match value_field(v, "TotalLiquid") {
            Some(x) => x,
            None => return None,
        };
        match decode_measurement(fv) {
            Some(x) => x,
            None => return None,
        }
    };
    let uv_index = match get_i32_field(v, "UVIndex") {
        Some(x) => x,
        None => return None,
    };
    let uv_index_text = match get_str_field(v, "UVIndexText") {
        Some(x) => x,
        None => return None,
    };
    let visibility = {
        let fv = match value_field(v, "Visibility") {
            Some(x) => x,
            None => return None,
        };
        match decode_measurement(fv) {
            Some(x) => x,
            None => return None,
        }
    };
    let weather_icon = match get_i32_field(v, "WeatherIcon") {
        Some(x) => x,
        None => return None,
    };
    let wet_bulb_temperature = {
        let fv = match value_field(v, "WetBulbTemperature") {
            Some(x) => x,
            None => return None,
        };
        match decode_measurement(fv) {
            Some(x) => x,
            None => return None,
        }
    };
    let wind = {
        let fv = match value_field(v, "Wind") {
            Some(x) => x,
            None => return None,
        };
        match decode_wind(fv) {
            Some(x) => x,
            None => return None,
        }
    };
    let wind_gust = {
        let fv = match value_field(v, "WindGust") {
            Some(x) => x,
            None => return None,
        };
        match decode_daily_wind_gust(fv) {
            Some(x) => x,
            None => return None,
        }
    };
    Some(HourlyForecast {
        ceiling,
        cloud_cover,
        date_time,
        dew_point,
        epoch_date_time,
        ice,
        ice_probability,
        icon_phrase,
        is_daylight,
        link,
        mobile_link,
        precipitation_probability,
        rain,
        rain_probability,
        real_feel_temperature,
        relative_humidity,
        snow,
        snow_probability,
        temperature,
        total_liquid,
        uv_index,
        uv_index_text,
        visibility,
        weather_icon,
        wet_bulb_temperature,
        wind,
        wind_gust,
    })
}

/// Which JSON trees decode to a `LocalSource`, and to which one.
pub open spec fn spec_local_source(j: JVal) -> Option<SpecLocalSource> {
    if i32_field(j, "Id"@) is Some
        && str_field(j, "Name"@) is Some
        && str_field(j, "WeatherCode"@) is Some {
        Some(SpecLocalSource {
            id: i32_field(j, "Id"@).unwrap(),
            name: str_field(j, "Name"@).unwrap(),
            weather_code: str_field(j, "WeatherCode"@).unwrap(),
        })
    } else {
        None
    }
}

pub fn decode_local_source(v: &serde_json::Value) -> (r: Option<LocalSource>)
    ensures
        match r {
            Some(m) => spec_local_source(json_view(*v)) == Some(m@),
            None => spec_local_source(json_view(*v)) is None,
        },
{
    let id = match get_i32_field(v, "Id") {
        Some(x) => x,
        None => return None,
    };
    let name = match get_str_field(v, "Name") {
        Some(x) => x,
        None => return None,
    };
    let weather_code = match get_str_field(v, "WeatherCode") {
        Some(x) => x,
        None => return None,
    };
    Some(LocalSource {
        id,
        name,
        weather_code,
    })
}

/// Which JSON trees decode to a `ConditionMeasurement`, and to which one.
pub open spec fn spec_condition_measurement(j: JVal) -> Option<SpecConditionMeasurement> {
    if json_field(j, "Metric"@) is Some
        && spec_measurement(json_field(j, "Metric"@).unwrap()) is Some
        && json_field(j, "Imperial"@) is Some
        && spec_measurement(json_field(j, "Imperial"@).unwrap()) is Some {
        Some(SpecConditionMeasurement {
            metric: spec_measurement(json_field(j, "Metric"@).unwrap()).unwrap(),
            imperial: spec_measurement(json_field(j, "Imperial"@).unwrap()).unwrap(),
        })
    } else {
        None
    }
}

pub fn decode_condition_measurement(v: &serde_json::Value) -> (r: Option<ConditionMeasurement>)
    ensures
        match r {
            Some(m) => spec_condition_measurement(json_view(*v)) == Some(m@),
            None => spec_condition_measurement(json_view(*v)) is None,
        },
{
    let metric = {
        let fv = match value_field(v, "Metric") {
            Some(x) => x,
            None => return None,
        };
        match decode_measurement(fv) {
            Some(x) => x,
            None => return None,
        }
    };
    let imperial = {
        let fv = match value_field(v, "Imperial") {
            Some(x) => x,
            None => return None,
        };
        match decode_measurement(fv) {
            Some(x) => x,
            None => return None,
        }
    };
    Some(ConditionMeasurement {
        metric,
        imperial,
    })
}

/// Which JSON trees decode to a `PressureTendency`, and to which one.
pub open spec fn spec_pressure_tendency(j: JVal) -> Option<SpecPressureTendency> {
    if str_field(j, "LocalizedText"@) is Some
        && str_field(j, "Code"@) is Some {
        Some(SpecPressureTendency {
            localized_text: str_field(j, "LocalizedText"@).unwrap(),
            code: str_field(j, "Code"@).unwrap(),
        })
    } else {
        None
    }
}

pub fn decode_pressure_tendency(v: &serde_json::Value) -> (r: Option<PressureTendency>)
    ensures
        match r {
            Some(m) => spec_pressure_tendency(json_view(*v)) == Some(m@),
            None => spec_pressure_tendency(json_view(*v)) is None,
        },
{
    let localized_text = match get_str_field(v, "LocalizedText") {
        Some(x) => x,
        None => return None,
    };
    let code = match get_str_field(v, "Code") {
        Some(x) => x,
        None => return None,
    };
    Some(PressureTendency {
        localized_text,
        code,
    })
}

/// Which JSON trees decode to a `PrecipitationSummary`, and to which one.
pub open spec fn spec_precipitation_summary(j: JVal) -> Option<SpecPrecipitationSummary> {
    if json_field(j, "Precipitation"@) is Some
        && spec_condition_measurement(json_field(j, "Precipitation"@).unwrap()) is Some
        && json_field(j, "PastHour"@) is Some
        && spec_condition_measurement(json_field(j, "PastHour"@).unwrap()) is Some
        && json_field(j, "Past3Hours"@) is Some
        && spec_condition_measurement(json_field(j, "Past3Hours"@).unwrap()) is Some
        && json_field(j, "Past6Hours"@) is Some
        && spec_condition_measurement(json_field(j, "Past6Hours"@).unwrap()) is Some
        && json_field(j, "Past9Hours"@) is Some
        && spec_condition_measurement(json_field(j, "Past9Hours"@).unwrap()) is Some
        && json_field(j, "Past12Hours"@) is Some
        && spec_condition_measurement(json_field(j, "Past12Hours"@).unwrap()) is Some
        && json_field(j, "Past18Hours"@) is Some
        && spec_condition_measurement(json_field(j, "Past18Hours"@).unwrap()) is Some
        && json_field(j, "Past24Hours"@) is Some
        && spec_condition_measurement(json_field(j, "Past24Hours"@).unwrap()) is Some {
        Some(SpecPrecipitationSummary {
            precipitation: spec_condition_measurement(json_field(j, "Precipitation"@).unwrap()).unwrap(),
            past_hour: spec_condition_measurement(json_field(j, "PastHour"@).unwrap()).unwrap(),
            past3_hours: spec_condition_measurement(json_field(j, "Past3Hours"@).unwrap()).unwrap(),
            past6_hours: spec_condition_measurement(json_field(j, "Past6Hours"@).unwrap()).unwrap(),
            past9_hours: spec_condition_measurement(json_field(j, "Past9Hours"@).unwrap()).unwrap(),
            past12_hours: spec_condition_measurement(json_field(j, "Past12Hours"@).unwrap()).unwrap(),
            past18_hours: spec_condition_measurement(json_field(j, "Past18Hours"@).unwrap()).unwrap(),
            past24_hours: spec_condition_measurement(json_field(j, "Past24Hours"@).unwrap()).unwrap(),
        })
    } else {
        None
    }
}

#[verifier::rlimit(60)]
pub fn decode_precipitation_summary(v: &serde_json::Value) -> (r: Option<PrecipitationSummary>)
    ensures
        match r {
            Some(m) => spec_precipitation_summary(json_view(*v)) == Some(m@),
            None => spec_precipitation_summary(json_view(*v)) is None,
        },
{
    let precipitation = {
        let fv = match value_field(v, "Precipitation") {
            Some(x) => x,
            None => return None,
        };
        match decode_condition_measurement(fv) {
            Some(x) => x,
            None => return None,
        }
    };
    let past_hour = {
        let fv = match value_field(v, "PastHour") {
            Some(x) => x,
            None => return None,
        };
        match decode_condition_measurement(fv) {
            Some(x) => x,
            None => return None,
        }
    };
    let past3_hours = {
        let fv = match value_field(v, "Past3Hours") {
            Some(x) => x,
            None => return None,
        };
        match decode_condition_measurement(fv) {
            Some(x) => x,
            None => return None,
        }
    };
    let past6_hours = {
        let fv = match value_field(v, "Past6Hours") {
            Some(x) => x,
            None => return None,
        };
        match decode_condition_measurement(fv) {
            Some(x) => x,
            None => return None,
        }
    };
    let past9_hours = {
        let fv = match value_field(v, "Past9Hours") {
            Some(x) => x,
            None => return None,
        };
        match decode_condition_measurement(fv) {
            Some(x) => x,
            None => return None,
        }
    };
    let past12_hours = {
        let fv = match value_field(v, "Past12Hours") {
            Some(x) => x,
            None => return None,
        };
        match decode_condition_measurement(fv) {
            Some(x) => x,
            None => return None,
        }
    };
    let past18_hours = {
        let fv = match value_field(v, "Past18Hours") {
            Some(x) => x,
            None => return None,
        };
        match decode_condition_measurement(fv) {
            Some(x) => x,
            None => return None,
        }
    };
    let past24_hours = {
        let fv = match value_field(v, "Past24Hours") {
            Some(x) => x,
            None => return None,
        };
        match decode_condition_measurement(fv) {
            Some(x) => x,
            None => return None,
        }
    };
    Some(PrecipitationSummary {
        precipitation,
        past_hour,
        past3_hours,
        past6_hours,
        past9_hours,
        past12_hours,
        past18_hours,
        past24_hours,
    })
}

/// Which JSON trees decode to a `TemperatureSummaryRange`, and to which one.
pub open spec fn spec_temperature_summary_range(j: JVal) -> Option<SpecTemperatureSummaryRange> {
    if json_field(j, "Minimum"@) is Some
        && spec_condition_measurement(json_field(j, "Minimum"@).unwrap()) is Some
        && json_field(j, "Maximum"@) is Some
        && spec_condition_measurement(json_field(j, "Maximum"@).unwrap()) is Some {
        Some(SpecTemperatureSummaryRange {
            minimum: spec_condition_measurement(json_field(j, "Minimum"@).unwrap()).unwrap(),
            maximum: spec_condition_measurement(json_field(j, "Maximum"@).unwrap()).unwrap(),
        })
    } else {
        None
    }
}

pub fn decode_temperature_summary_range(v: &serde_json::Value) -> (r: Option<TemperatureSummaryRange>)
    ensures
        match r {
            Some(m) => spec_temperature_summary_range(json_view(*v)) == Some(m@),
            None => spec_temperature_summary_range(json_view(*v)) is None,
        },
{
    let minimum = {
        let fv = match value_field(v, "Minimum") {
            Some(x) => x,
            None => return None,
        };
        match decode_condition_measurement(fv) {
            Some(x) => x,
            None => return None,
        }
    };
    let maximum = {
        let fv = match value_field(v, "Maximum") {
            Some(x) => x,
            None => return None,
        };
        match decode_condition_measurement(fv) {
            Some(x) => x,
            None => return None,
        }
    };
    Some(TemperatureSummaryRange {
        minimum,
        maximum,
    })
}

/// Which JSON trees decode to a `TemperatureSummary`, and to which one.
pub open spec fn spec_temperature_summary(j: JVal) -> Option<SpecTemperatureSummary> {
    if json_field(j, "Past6HourRange"@) is Some
        && spec_temperature_summary_range(json_field(j, "Past6HourRange"@).unwrap()) is Some
        && json_field(j, "Past12HourRange"@) is Some
        && spec_temperature_summary_range(json_field(j, "Past12HourRange"@).unwrap()) is Some
        && json_field(j, "Past24HourRange"@) is Some
        && spec_temperature_summary_range(json_field(j, "Past24HourRange"@).unwrap()) is Some {
        Some(SpecTemperatureSummary {
            past6_hour_range: spec_temperature_summary_range(json_field(j, "Past6HourRange"@).unwrap()).unwrap(),
            past12_hour_range: spec_temperature_summary_range(json_field(j, "Past12HourRange"@).unwrap()).unwrap(),
            past24_hour_range: spec_temperature_summary_range(json_field(j, "Past24HourRange"@).unwrap()).unwrap(),
        })
    } else {
        None
    }
}

pub fn decode_temperature_summary(v: &serde_json::Value) -> (r: Option<TemperatureSummary>)
    ensures
        match r {
            Some(m) => spec_temperature_summary(json_view(*v)) == Some(m@),
            None => spec_temperature_summary(json_view(*v)) is None,
        },
{
    let past6_hour_range = {
        let fv = match value_field(v, "Past6HourRange") {
            Some(x) => x,
            None => return None,
        };
        match decode_temperature_summary_range(fv) {
            Some(x) => x,
            None => return None,
        }
    };
    let past12_hour_range = {
        let fv = match value_field(v, "Past12HourRange") {
            Some(x) => x,
            None => return None,
        };
        match decode_temperature_summary_range(fv) {
            Some(x) => x,
            None => return None,
        }
    };
    let past24_hour_range = {
        let fv = match value_field(v, "Past24HourRange") {
            Some(x) => x,
            None => return None,
        };
        match decode_temperature_summary_range(fv) {
            Some(x) => x,
            None => return None,
        }
    };
    Some(TemperatureSummary {
        past6_hour_range,
        past12_hour_range,
        past24_hour_range,
    })
}

/// Which JSON trees decode to a `WindCondition`, and to which one.
pub open spec fn spec_wind_condition(j: JVal) -> Option<SpecWindCondition> {
    if json_field(j, "Speed"@) is Some
        && spec_condition_measurement(json_field(j, "Speed"@).unwrap()) is Some
        && json_field(j, "Direction"@) is Some
        && spec_wind_direction(json_field(j, "Direction"@).unwrap()) is Some {
        Some(SpecWindCondition {
            speed: spec_condition_measurement(json_field(j, "Speed"@).unwrap()).unwrap(),
            direction: spec_wind_direction(json_field(j, "Direction"@).unwrap()).unwrap(),
        })
    } else {
        None
    }
}

pub fn decode_wind_condition(v: &serde_json::Value) -> (r: Option<WindCondition>)
    ensures
        match r {
            Some(m) => spec_wind_condition(json_view(*v)) == Some(m@),
            None => spec_wind_condition(json_view(*v)) is None,
        },
{
    let speed = {
        let fv = match value_field(v, "Speed") {
            Some(x) => x,
            None => return None,
        };
        match decode_condition_measurement(fv) {
            Some(x) => x,
            None => return None,
        }
    };
    let direction = {
        let fv = match value_field(v, "Direction") {
            Some(x) => x,
            None => return None,
        };
        match decode_wind_direction(fv) {
            Some(x) => x,
            None => return None,
        }
    };
    Some(WindCondition {
        speed,
        direction,
    })
}

/// Which JSON trees decode to a `ConditionWindGust`, and to which one.
pub open spec fn spec_condition_wind_gust(j: JVal) -> Option<SpecConditionWindGust> {
    if json_field(j, "Speed"@) is Some
        && spec_condition_measurement(json_field(j, "Speed"@).unwrap()) is Some {
        Some(SpecConditionWindGust {
            speed: spec_condition_measurement(json_field(j, "Speed"@).unwrap()).unwrap(),
        })
    } else {
        None
    }
}

pub fn decode_condition_wind_gust(v: &serde_json::Value) -> (r: Option<ConditionWindGust>)
    ensures
        match r {
            Some(m) => spec_condition_wind_gust(json_view(*v)) == Some(m@),
            None => spec_condition_wind_gust(json_view(*v)) is None,
        },
{
    let speed = {
        let fv = match value_field(v, "Speed") {
            Some(x) => x,
            None => return None,
        };
        match decode_condition_measurement(fv) {
            Some(x) => x,
            None => return None,
        }
    };
    Some(ConditionWindGust {
        speed,
    })
}

/// An optional `LocalSource` field: absent or null both decode to `None`.
pub open spec fn opt_local_source_field(j: JVal, name: Seq<char>) -> Option<
    Option<SpecLocalSource>,
> {
    match json_field(j, name) {
        None => Some(None),
        Some(JVal::Null) => Some(None),
        Some(ls) => match spec_local_source(ls) {
            Some(x) => Some(Some(x)),
            None => None,
        },
    }
}

pub fn get_opt_local_source_field(v: &serde_json::Value, name: &str) -> (r: Option<
    Option<LocalSource>,
>)
    ensures
        match r {
            Some(Some(x)) => opt_local_source_field(json_view(*v), name@) == Some(Some(x@)),
            Some(None) => opt_local_source_field(json_view(*v), name@) == Some(
                None::<SpecLocalSource>,
            ),
            None => opt_local_source_field(json_view(*v), name@) is None,
        },
{
    match value_field(v, name) {
        None => Some(None),
        Some(f) => {
            if value_is_null(f) {
                Some(None)
            } else {
                match decode_local_source(f) {
                    Some(x) => Some(Some(x)),
                    None => None,
                }
            }
        },
    }
}

/// Which JSON trees decode to a `CurrentCondition`, and to which one.
pub open spec fn spec_current_condition(j: JVal) -> Option<SpecCurrentCondition> {
    if str_field(j, "LocalObservationDateTime"@) is Some
        && i64_field(j, "EpochTime"@) is Some
        && str_field(j, "WeatherText"@) is Some
        && i32_field(j, "WeatherIcon"@) is Some
        && opt_local_source_field(j, "LocalSource"@) is Some
        && bool_field(j, "IsDayTime"@) is Some
        && json_field(j, "Temperature"@) is Some
        && spec_condition_measurement(json_field(j, "Temperature"@).unwrap()) is Some
        && json_field(j, "RealFeelTemperature"@) is Some
        && spec_condition_measurement(json_field(j, "RealFeelTemperature"@).unwrap()) is Some
        && json_field(j, "RealFeelTemperatureShade"@) is Some
        && spec_condition_measurement(json_field(j, "RealFeelTemperatureShade"@).unwrap()) is Some
        && i32_field(j, "RelativeHumidity"@) is Some
        && json_field(j, "DewPoint"@) is Some
        && spec_condition_measurement(json_field(j, "DewPoint"@).unwrap()) is Some
        && json_field(j, "Wind"@) is Some
        && spec_wind_condition(json_field(j, "Wind"@).unwrap()) is Some
        && json_field(j, "WindGust"@) is Some
        && spec_condition_wind_gust(json_field(j, "WindGust"@).unwrap()) is Some
        && i32_field(j, "UVIndex"@) is Some
        && str_field(j, "UVIndexText"@) is Some
        && json_field(j, "Visibility"@) is Some
        && spec_condition_measurement(json_field(j, "Visibility"@).unwrap()) is Some
        && str_field(j, "ObstructionsToVisibility"@) is Some
        && i32_field(j, "CloudCover"@) is Some
        && json_field(j, "Ceiling"@) is Some
        && spec_condition_measurement(json_field(j, "Ceiling"@).unwrap()) is Some
        && json_field(j, "Pressure"@) is Some
        && spec_condition_measurement(json_field(j, "Pressure"@).unwrap()) is Some
        && json_field(j, "PressureTendency"@) is Some
        && spec_pressure_tendency(json_field(j, "PressureTendency"@).unwrap()) is Some
        && json_field(j, "Past24HourTemperatureDeparture"@) is Some
        && spec_condition_measurement(json_field(j, "Past24HourTemperatureDeparture"@).unwrap()) is Some
        && json_field(j, "ApparentTemperature"@) is Some
        && spec_condition_measurement(json_field(j, "ApparentTemperature"@).unwrap()) is Some
        && json_field(j, "WindChillTemperature"@) is Some
        && spec_condition_measurement(json_field(j, "WindChillTemperature"@).unwrap()) is Some
        && json_field(j, "WetBulbTemperature"@) is Some
        && spec_condition_measurement(json_field(j, "WetBulbTemperature"@).unwrap()) is Some
        && json_field(j, "Precip1hr"@) is Some
        && spec_condition_measurement(json_field(j, "Precip1hr"@).unwrap()) is Some
        && json_field(j, "PrecipitationSummary"@) is Some
        && spec_precipitation_summary(json_field(j, "PrecipitationSummary"@).unwrap()) is Some
        && json_field(j, "TemperatureSummary"@) is Some
        && spec_temperature_summary(json_field(j, "TemperatureSummary"@).unwrap()) is Some
        && str_field(j, "MobileLink"@) is Some
        && str_field(j, "Link"@) is Some
        && bool_field(j, "HasPrecipitation"@) is Some
        && opt_str_field(j, "PrecipitationType"@) is Some {
        Some(SpecCurrentCondition {
            local_observation_date_time: str_field(j, "LocalObservationDateTime"@).unwrap(),
            epoch_time: i64_field(j, "EpochTime"@).unwrap(),
            weather_text: str_field(j, "WeatherText"@).unwrap(),
            weather_icon: i32_field(j, "WeatherIcon"@).unwrap(),
            local_source: opt_local_source_field(j, "LocalSource"@).unwrap(),
            is_day_time: bool_field(j, "IsDayTime"@).unwrap(),
            temperature: spec_condition_measurement(json_field(j, "Temperature"@).unwrap()).unwrap(),
            real_feel_temperature: spec_condition_measurement(json_field(j, "RealFeelTemperature"@).unwrap()).unwrap(),
            real_feel_temperature_shade: spec_condition_measurement(json_field(j, "RealFeelTemperatureShade"@).unwrap()).unwrap(),
            relative_humidity: i32_field(j, "RelativeHumidity"@).unwrap(),
            dew_point: spec_condition_measurement(json_field(j, "DewPoint"@).unwrap()).unwrap(),
            wind: spec_wind_condition(json_field(j, "Wind"@).unwrap()).unwrap(),
            wind_gust: spec_condition_wind_gust(json_field(j, "WindGust"@).unwrap()).unwrap(),
            uv_index: i32_field(j, "UVIndex"@).unwrap(),
            uv_index_text: str_field(j, "UVIndexText"@).unwrap(),
            visibility: spec_condition_measurement(json_field(j, "Visibility"@).unwrap()).unwrap(),
            obstructions_to_visibility: str_field(j, "ObstructionsToVisibility"@).unwrap(),
            cloud_cover: i32_field(j, "CloudCover"@).unwrap(),
            ceiling: spec_condition_measurement(json_field(j, "Ceiling"@).unwrap()).unwrap(),
            pressure: spec_condition_measurement(json_field(j, "Pressure"@).unwrap()).unwrap(),
            pressure_tendency: spec_pressure_tendency(json_field(j, "PressureTendency"@).unwrap()).unwrap(),
            past24_hour_temperature_departure: spec_condition_measurement(json_field(j, "Past24HourTemperatureDeparture"@).unwrap()).unwrap(),
            apparent_temperature: spec_condition_measurement(json_field(j, "ApparentTemperature"@).unwrap()).unwrap(),
            wind_chill_temperature: spec_condition_measurement(json_field(j, "WindChillTemperature"@).unwrap()).unwrap(),
            wet_bulb_temperature: spec_condition_measurement(json_field(j, "WetBulbTemperature"@).unwrap()).unwrap(),
            precip1hr: spec_condition_measurement(json_field(j, "Precip1hr"@).unwrap()).unwrap(),
            precipitation_summary: spec_precipitation_summary(json_field(j, "PrecipitationSummary"@).unwrap()).unwrap(),
            temperature_summary: spec_temperature_summary(json_field(j, "TemperatureSummary"@).unwrap()).unwrap(),
            mobile_link: str_field(j, "MobileLink"@).unwrap(),
            link: str_field(j, "Link"@).unwrap(),
            has_precipitation: bool_field(j, "HasPrecipitation"@).unwrap(),
            precipitation_type: opt_str_field(j, "PrecipitationType"@).unwrap(),
        })
    } else {
        None
    }
}

#[verifier::rlimit(100)]
pub fn decode_current_condition(v: &serde_json::Value) -> (r: Option<CurrentCondition>)
    ensures
        match r {
            Some(m) => spec_current_condition(json_view(*v)) == Some(m@),
            None => spec_current_condition(json_view(*v)) is None,
        },
{
    let local_observation_date_time = match get_str_field(v, "LocalObservationDateTime") {
        Some(x) => x,
        None => return None,
    };
    let epoch_time = match get_i64_field(v, "EpochTime") {
        Some(x) => x,
        None => return None,
    };
    let weather_text = match get_str_field(v, "WeatherText") {
        Some(x) => x,
        None => return None,
    };
    let weather_icon = match get_i32_field(v, "WeatherIcon") {
        Some(x) => x,
        None => return None,
    };
    let local_source = match get_opt_local_source_field(v, "LocalSource") {
        Some(x) => x,
        None => return None,
    };
    let is_day_time = match get_bool_field(v, "IsDayTime") {
        Some(x) => x,
        None => return None,
    };
    let temperature = {
        let fv = match value_field(v, "Temperature") {
            Some(x) => x,
            None => return None,
        };
        match decode_condition_measurement(fv) {
            Some(x) => x,
            None => return None,
        }
    };
    let real_feel_temperature = {
        let fv = match value_field(v, "RealFeelTemperature") {
            Some(x) => x,
            None => return None,
        };
        match decode_condition_measurement(fv) {
            Some(x) => x,
            None => return None,
        }
    };
    let real_feel_temperature_shade = {
        let fv = match value_field(v, "RealFeelTemperatureShade") {
            Some(x) => x,
            None => return None,
        };
        match decode_condition_measurement(fv) {
            Some(x) => x,
            None => return None,
        }
    };
    let relative_humidity = match get_i32_field(v, "RelativeHumidity") {
        Some(x) => x,
        None => return None,
    };
    let dew_point = {
        let fv = match value_field(v, "DewPoint") {
            Some(x) => x,
            None => return None,
        };
        match decode_condition_measurement(fv) {
            Some(x) => x,
            None => return None,
        }
    };
    let wind = {
        let fv = match value_field(v, "Wind") {
            Some(x) => x,
            None => return None,
        };
        match decode_wind_condition(fv) {
            Some(x) => x,
            None => return None,
        }
    };
    let wind_gust = {
        let fv = match value_field(v, "WindGust") {
            Some(x) => x,
            None => return None,
        };
        match decode_condition_wind_gust(fv) {
            Some(x) => x,
            None => return None,
        }
    };
    let uv_index = match get_i32_field(v, "UVIndex") {
        Some(x) => x,
        None => return None,
    };
    let uv_index_text = match get_str_field(v, "UVIndexText") {
        Some(x) => x,
        None => return None,
    };
    let visibility = {
        let fv = match value_field(v, "Visibility") {
            Some(x) => x,
            None => return None,
        };
        match decode_condition_measurement(fv) {
            Some(x) => x,
            None => return None,
        }
    };
    let obstructions_to_visibility = match get_str_field(v, "ObstructionsToVisibility") {
        Some(x) => x,
        None => return None,
    };
    let cloud_cover = match get_i32_field(v, "CloudCover") {
        Some(x) => x,
        None => return None,
    };
    let ceiling = {
        let fv = match value_field(v, "Ceiling") {
            Some(x) => x,
            None => return None,
        };
        match decode_condition_measurement(fv) {
            Some(x) => x,
            None => return None,
        }
    };
    let pressure = {
        let fv = match value_field(v, "Pressure") {
            Some(x) => x,
            None => return None,
        };
        match decode_condition_measurement(fv) {
            Some(x) => x,
            None => return None,
        }
    };
    let pressure_tendency = {
        let fv = match value_field(v, "PressureTendency") {
            Some(x) => x,
            None => return None,
        };
        match decode_pressure_tendency(fv) {
            Some(x) => x,
            None => return None,
        }
    };
    let past24_hour_temperature_departure = {
        let fv = match value_field(v, "Past24HourTemperatureDeparture") {
            Some(x) => x,
            None => return None,
        };
        match decode_condition_measurement(fv) {
            Some(x) => x,
            None => return None,
        }
    };
    let apparent_temperature = {
        let fv = match value_field(v, "ApparentTemperature") {
            Some(x) => x,
            None => return None,
        };
        match decode_condition_measurement(fv) {
            Some(x) => x,
            None => return None,
        }
    };
    let wind_chill_temperature = {
        let fv = match value_field(v, "WindChillTemperature") {
            Some(x) => x,
            None => return None,
        };
        match decode_condition_measurement(fv) {
            Some(x) => x,
            None => return None,
        }
    };
    let wet_bulb_temperature = {
        let fv = match value_field(v, "WetBulbTemperature") {
            Some(x) => x,
            None => return None,
        };
        match decode_condition_measurement(fv) {
            Some(x) => x,
            None => return None,
        }
    };
    let precip1hr = {
        let fv = match value_field(v, "Precip1hr") {
            Some(x) => x,
            None => return None,
        };
        match decode_condition_measurement(fv) {
            Some(x) => x,
            None => return None,
        }
    };
    let precipitation_summary = {
        let fv = match value_field(v, "PrecipitationSummary") {
            Some(x) => x,
            None => return None,
        };
        match decode_precipitation_summary(fv) {
            Some(x) => x,
            None => return None,
        }
    };
    let temperature_summary = {
        let fv = match value_field(v, "TemperatureSummary") {
            Some(x) => x,
            None => return None,
        };
        match decode_temperature_summary(fv) {
            Some(x) => x,
            None => return None,
        }
    };
    let mobile_link = match get_str_field(v, "MobileLink") {
        Some(x) => x,
        None => return None,
    };
    let link = match get_str_field(v, "Link") {
        Some(x) => x,
        None => return None,
    };
    let has_precipitation = match get_bool_field(v, "HasPrecipitation") {
        Some(x) => x,
        None => return None,
    };
    let precipitation_type = match get_opt_str_field(v, "PrecipitationType") {
        Some(x) => x,
        None => return None,
    };
    Some(CurrentCondition {
        local_observation_date_time,
        epoch_time,
        weather_text,
        weather_icon,
        local_source,
        is_day_time,
        temperature,
        real_feel_temperature,
        real_feel_temperature_shade,
        relative_humidity,
        dew_point,
        wind,
        wind_gust,
        uv_index,
        uv_index_text,
        visibility,
        obstructions_to_visibility,
        cloud_cover,
        ceiling,
        pressure,
        pressure_tendency,
        past24_hour_temperature_departure,
        apparent_temperature,
        wind_chill_temperature,
        wet_bulb_temperature,
        precip1hr,
        precipitation_summary,
        temperature_summary,
        mobile_link,
        link,
        has_precipitation,
        precipitation_type,
    })
}

/// Which JSON trees decode to a run of `HourlyForecast` records.
pub open spec fn spec_hourly_forecast_list(j: JVal) -> Option<Seq<<HourlyForecast as View>::V>> {
    match j {
        JVal::Arr(elems) => decode_seq(elems, |e: JVal| spec_hourly_forecast(e)),
        _ => None,
    }
}

pub fn decode_hourly_forecast_list(v: &serde_json::Value) -> (r: Option<Vec<HourlyForecast>>)
    ensures
        match r {
            Some(list) => spec_hourly_forecast_list(json_view(*v)) == Some(list@.map_values(|x: HourlyForecast| x@)),
            None => spec_hourly_forecast_list(json_view(*v)) is None,
        },
{
    let arr = match value_array(v) {
        Some(a) => a,
        None => return None,
    };
    let ghost elems = arr@.map_values(|e: serde_json::Value| json_view(e));
    let mut out: Vec<HourlyForecast> = Vec::new();
    let mut i: usize = 0;
    while i < arr.len()
        invariant
            i <= arr.len(),
            elems == arr@.map_values(|e: serde_json::Value| json_view(e)),
            json_view(*v) == JVal::Arr(elems),
            elems.len() == arr@.len(),
            decode_seq(elems.take(i as int), |e: JVal| spec_hourly_forecast(e)) == Some(
                out@.map_values(|x: HourlyForecast| x@),
            ),
        decreases arr.len() - i,
    {
        proof {
            assert(elems[i as int] == json_view(arr@[i as int]));
        }
        let item = match decode_hourly_forecast(&arr[i]) {
            Some(x) => x,
            None => {
                proof {
                    lemma_decode_seq_fail(elems, |e: JVal| spec_hourly_forecast(e), i as int);
                }
                return None;
            },
        };
        proof {
            lemma_decode_seq_push(elems.take(i as int), |e: JVal| spec_hourly_forecast(e), elems[i as int]);
            assert(elems.take(i + 1 as int) =~= elems.take(i as int).push(elems[i as int]));
            assert((out@.push(item)).map_values(|x: HourlyForecast| x@) =~= out@.map_values(
                |x: HourlyForecast| x@,
            ).push(item@));
        }
        out.push(item);
        i = i + 1;
    }
    proof {
        assert(elems.take(arr@.len() as int) =~= elems);
    }
    Some(out)
}

/// Which JSON trees decode to a run of `CurrentCondition` records.
pub open spec fn spec_current_condition_list(j: JVal) -> Option<Seq<<CurrentCondition as View>::V>> {
    match j {
        JVal::Arr(elems) => decode_seq(elems, |e: JVal| spec_current_condition(e)),
        _ => None,
    }
}

pub fn decode_current_condition_list(v: &serde_json::Value) -> (r: Option<Vec<CurrentCondition>>)
    ensures
        match r {
            Some(list) => spec_current_condition_list(json_view(*v)) == Some(list@.map_values(|x: CurrentCondition| x@)),
            None => spec_current_condition_list(json_view(*v)) is None,
        },
{
    let arr = match value_array(v) {
        Some(a) => a,
        None => return None,
    };
    let ghost elems = arr@.map_values(|e: serde_json::Value| json_view(e));
    let mut out: Vec<CurrentCondition> = Vec::new();
    let mut i: usize = 0;
    while i < arr.len()
        invariant
            i <= arr.len(),
            elems == arr@.map_values(|e: serde_json::Value| json_view(e)),
            json_view(*v) == JVal::Arr(elems),
            elems.len() == arr@.len(),
            decode_seq(elems.take(i as int), |e: JVal| spec_current_condition(e)) == Some(
                out@.map_values(|x: CurrentCondition| x@),
            ),
        decreases arr.len() - i,
    {
        proof {
            assert(elems[i as int] == json_view(arr@[i as int]));
        }
        let item = match decode_current_condition(&arr[i]) {
            Some(x) => x,
            None => {
                proof {
                    lemma_decode_seq_fail(elems, |e: JVal| spec_current_condition(e), i as int);
                }
                return None;
            },
        };
        proof {
            lemma_decode_seq_push(elems.take(i as int), |e: JVal| spec_current_condition(e), elems[i as int]);
            assert(elems.take(i + 1 as int) =~= elems.take(i as int).push(elems[i as int]));
            assert((out@.push(item)).map_values(|x: CurrentCondition| x@) =~= out@.map_values(
                |x: CurrentCondition| x@,
            ).push(item@));
        }
        out.push(item);
        i = i + 1;
    }
    proof {
        assert(elems.take(arr@.len() as int) =~= elems);
    }
    Some(out)
}

} // verus!
