//! The record types of the weather service's answers.
//!
//! Every type exists twice: an executable record, and a ghost mirror (its
//! view) that contracts and proofs speak of.  Readings the service gives as
//! floating-point numbers are carried as their decimal text, exactly as the
//! wire shows them: the schema never computes with them.

use vstd::prelude::*;

verus! {

/// A scalar reading with its unit.  The reading itself is kept as the
/// decimal text the wire carries, since its exact value is a floating-point
/// concern of the caller, not of this schema.
#[derive(Debug, Clone, PartialEq, Eq)]
pub struct AccuweatherMeasurement {
    /// the reading, as its decimal text
    pub value: String,
    pub unit: String,
    pub unit_type: i32,
}

/// The mathematical mirror of `AccuweatherMeasurement`.
#[verifier::ext_equal]
pub ghost struct SpecMeasurement {
    pub value: Seq<char>,
    pub unit: Seq<char>,
    pub unit_type: i32,
}

impl View for AccuweatherMeasurement {
    type V = SpecMeasurement;

    open spec fn view(&self) -> SpecMeasurement {
        SpecMeasurement {
            value: self.value@,
            unit: self.unit@,
            unit_type: self.unit_type,
        }
    }
}

/// One air-quality or pollen reading of a daily forecast.
#[derive(Debug, Clone, PartialEq, Eq)]
pub struct AirAndPollen {
    pub name: String,
    pub value: i32,
    pub category: String,
    pub category_value: i32,
    /// absent in some payloads; decodes to the empty string then
    pub type_: String,
}

/// The mathematical mirror of `AirAndPollen`.
#[verifier::ext_equal]
pub ghost struct SpecAirAndPollen {
    pub name: Seq<char>,
    pub value: i32,
    pub category: Seq<char>,
    pub category_value: i32,
    pub type_: Seq<char>,
}

impl View for AirAndPollen {
    type V = SpecAirAndPollen;

    open spec fn view(&self) -> SpecAirAndPollen {
        SpecAirAndPollen {
            name: self.name@,
            value: self.value,
            category: self.category@,
            category_value: self.category_value,
            type_: self.type_@,
        }
    }
}

/// A wind direction, in degrees and words.
#[derive(Debug, Clone, PartialEq, Eq)]
pub struct WindDirection {
    /// decimal text of the bearing
    pub degrees: String,
    pub localized: String,
    pub english: String,
}

/// The mathematical mirror of `WindDirection`.
#[verifier::ext_equal]
pub ghost struct SpecWindDirection {
    pub degrees: Seq<char>,
    pub localized: Seq<char>,
    pub english: Seq<char>,
}

impl View for WindDirection {
    type V = SpecWindDirection;

    open spec fn view(&self) -> SpecWindDirection {
        SpecWindDirection {
            degrees: self.degrees@,
            localized: self.localized@,
            english: self.english@,
        }
    }
}

/// Wind in the forecast endpoints.
#[derive(Debug, Clone, PartialEq, Eq)]
pub struct Wind {
    pub speed: AccuweatherMeasurement,
    pub direction: WindDirection,
}

/// The mathematical mirror of `Wind`.
#[verifier::ext_equal]
pub ghost struct SpecWind {
    pub speed: SpecMeasurement,
    pub direction: SpecWindDirection,
}

impl View for Wind {
    type V = SpecWind;

    open spec fn view(&self) -> SpecWind {
        SpecWind {
            speed: self.speed@,
            direction: self.direction@,
        }
    }
}

/// A wind gust that carries a speed alone.
#[derive(Debug, Clone, PartialEq, Eq)]
pub struct DailyWindGust {
    pub speed: AccuweatherMeasurement,
}

/// The mathematical mirror of `DailyWindGust`.
#[verifier::ext_equal]
pub ghost struct SpecDailyWindGust {
    pub speed: SpecMeasurement,
}

impl View for DailyWindGust {
    type V = SpecDailyWindGust;

    open spec fn view(&self) -> SpecDailyWindGust {
        SpecDailyWindGust {
            speed: self.speed@,
        }
    }
}

/// A temperature range of a day.
#[derive(Debug, Clone, PartialEq, Eq)]
pub struct Temperature {
    pub maximum: AccuweatherMeasurement,
    pub minimum: AccuweatherMeasurement,
}

/// The mathematical mirror of `Temperature`.
#[verifier::ext_equal]
pub ghost struct SpecTemperature {
    pub maximum: SpecMeasurement,
    pub minimum: SpecMeasurement,
}

impl View for Temperature {
    type V = SpecTemperature;

    open spec fn view(&self) -> SpecTemperature {
        SpecTemperature {
            maximum: self.maximum@,
            minimum: self.minimum@,
        }
    }
}

/// The forecast for one half of a day, day or night.
#[derive(Debug, Clone, PartialEq, Eq)]
pub struct DayPartForecast {
    pub cloud_cover: i32,
    /// decimal text
    pub hours_of_precipitation: String,
    /// decimal text
    pub hours_of_rain: String,
    pub ice: AccuweatherMeasurement,
    pub ice_probability: i32,
    pub icon: i32,
    pub icon_phrase: String,
    pub long_phrase: String,
    pub precipitation_probability: i32,
    pub rain: AccuweatherMeasurement,
    pub rain_probability: i32,
    pub short_phrase: String,
    pub snow: AccuweatherMeasurement,
    pub snow_probability: i32,
    pub thunderstorm_probability: i32,
    pub total_liquid: AccuweatherMeasurement,
    pub wind: Wind,
    pub wind_gust: Wind,
}

/// The mathematical mirror of `DayPartForecast`.
#[verifier::ext_equal]
pub ghost struct SpecDayPartForecast {
    pub cloud_cover: i32,
    pub hours_of_precipitation: Seq<char>,
    pub hours_of_rain: Seq<char>,
    pub ice: SpecMeasurement,
    pub ice_probability: i32,
    pub icon: i32,
    pub icon_phrase: Seq<char>,
    pub long_phrase: Seq<char>,
    pub precipitation_probability: i32,
    pub rain: SpecMeasurement,
    pub rain_probability: i32,
    pub short_phrase: Seq<char>,
    pub snow: SpecMeasurement,
    pub snow_probability: i32,
    pub thunderstorm_probability: i32,
    pub total_liquid: SpecMeasurement,
    pub wind: SpecWind,
    pub wind_gust: SpecWind,
}

impl View for DayPartForecast {
    type V = SpecDayPartForecast;

    open spec fn view(&self) -> SpecDayPartForecast {
        SpecDayPartForecast {
            cloud_cover: self.cloud_cover,
            hours_of_precipitation: self.hours_of_precipitation@,
            hours_of_rain: self.hours_of_rain@,
            ice: self.ice@,
            ice_probability: self.ice_probability,
            icon: self.icon,
            icon_phrase: self.icon_phrase@,
            long_phrase: self.long_phrase@,
            precipitation_probability: self.precipitation_probability,
            rain: self.rain@,
            rain_probability: self.rain_probability,
            short_phrase: self.short_phrase@,
            snow: self.snow@,
            snow_probability: self.snow_probability,
            thunderstorm_probability: self.thunderstorm_probability,
            total_liquid: self.total_liquid@,
            wind: self.wind@,
            wind_gust: self.wind_gust@,
        }
    }
}

/// Heating and cooling degree-day readings.
#[derive(Debug, Clone, PartialEq, Eq)]
pub struct DegreeDaySummary {
    pub heating: AccuweatherMeasurement,
    pub cooling: AccuweatherMeasurement,
}

/// The mathematical mirror of `DegreeDaySummary`.
#[verifier::ext_equal]
pub ghost struct SpecDegreeDaySummary {
    pub heating: SpecMeasurement,
    pub cooling: SpecMeasurement,
}

impl View for DegreeDaySummary {
    type V = SpecDegreeDaySummary;

    open spec fn view(&self) -> SpecDegreeDaySummary {
        SpecDegreeDaySummary {
            heating: self.heating@,
            cooling: self.cooling@,
        }
    }
}

/// Sunrise and sunset of one day.
#[derive(Debug, Clone, PartialEq, Eq)]
pub struct Sun {
    pub rise: String,
    pub epoch_rise: i64,
    pub set: String,
    pub epoch_set: i64,
}

/// The mathematical mirror of `Sun`.
#[verifier::ext_equal]
pub ghost struct SpecSun {
    pub rise: Seq<char>,
    pub epoch_rise: i64,
    pub set: Seq<char>,
    pub epoch_set: i64,
}

impl View for Sun {
    type V = SpecSun;

    open spec fn view(&self) -> SpecSun {
        SpecSun {
            rise: self.rise@,
            epoch_rise: self.epoch_rise,
            set: self.set@,
            epoch_set: self.epoch_set,
        }
    }
}

/// Moon data of one day; wholly optional, since a payload may omit it.
#[derive(Debug, Clone, PartialEq, Eq)]
pub struct Moon {
    pub rise: Option<String>,
    pub epoch_rise: Option<i64>,
    pub set: Option<String>,
    pub epoch_set: Option<i64>,
    pub phase: Option<String>,
    pub age: Option<i32>,
}

/// The mathematical mirror of `Moon`.
#[verifier::ext_equal]
pub ghost struct SpecMoon {
    pub rise: Option<Seq<char>>,
    pub epoch_rise: Option<i64>,
    pub set: Option<Seq<char>>,
    pub epoch_set: Option<i64>,
    pub phase: Option<Seq<char>>,
    pub age: Option<i32>,
}

impl View for Moon {
    type V = SpecMoon;

    open spec fn view(&self) -> SpecMoon {
        SpecMoon {
            rise: (match self.rise { Some(s) => Some(s@), None => None }),
            epoch_rise: self.epoch_rise,
            set: (match self.set { Some(s) => Some(s@), None => None }),
            epoch_set: self.epoch_set,
            phase: (match self.phase { Some(s) => Some(s@), None => None }),
            age: self.age,
        }
    }
}

/// One calendar day of the daily endpoint.
#[derive(Debug, Clone, PartialEq, Eq)]
pub struct DailyForecast {
    pub air_and_pollen: Vec<AirAndPollen>,
    pub date: String,
    pub day: DayPartForecast,
    pub degree_day_summary: DegreeDaySummary,
    pub epoch_date: i64,
    /// decimal text
    pub hours_of_sun: String,
    pub link: String,
    pub mobile_link: String,
    pub moon: Moon,
    pub night: DayPartForecast,
    pub real_feel_temperature: Temperature,
    pub real_feel_temperature_shade: Temperature,
    pub sources: Vec<String>,
    pub sun: Sun,
    pub temperature: Temperature,
}

/// The mathematical mirror of `DailyForecast`.
#[verifier::ext_equal]
pub ghost struct SpecDailyForecast {
    pub air_and_pollen: Seq<SpecAirAndPollen>,
    pub date: Seq<char>,
    pub day: SpecDayPartForecast,
    pub degree_day_summary: SpecDegreeDaySummary,
    pub epoch_date: i64,
    pub hours_of_sun: Seq<char>,
    pub link: Seq<char>,
    pub mobile_link: Seq<char>,
    pub moon: SpecMoon,
    pub night: SpecDayPartForecast,
    pub real_feel_temperature: SpecTemperature,
    pub real_feel_temperature_shade: SpecTemperature,
    pub sources: Seq<Seq<char>>,
    pub sun: SpecSun,
    pub temperature: SpecTemperature,
}

impl View for DailyForecast {
    type V = SpecDailyForecast;

    open spec fn view(&self) -> SpecDailyForecast {
        SpecDailyForecast {
            air_and_pollen: self.air_and_pollen@.map_values(|x: AirAndPollen| x@),
            date: self.date@,
            day: self.day@,
            degree_day_summary: self.degree_day_summary@,
            epoch_date: self.epoch_date,
            hours_of_sun: self.hours_of_sun@,
            link: self.link@,
            mobile_link: self.mobile_link@,
            moon: self.moon@,
            night: self.night@,
            real_feel_temperature: self.real_feel_temperature@,
            real_feel_temperature_shade: self.real_feel_temperature_shade@,
            sources: self.sources@.map_values(|x: String| x@),
            sun: self.sun@,
            temperature: self.temperature@,
        }
    }
}

/// The headline of a daily answer.
#[derive(Debug, Clone, PartialEq, Eq)]
pub struct Headline {
    pub effective_date: String,
    pub effective_epoch_date: i64,
    pub severity: i32,
    pub text: String,
    pub category: String,
    pub end_date: String,
    pub end_epoch_date: i64,
    pub mobile_link: String,
    pub link: String,
}

/// The mathematical mirror of `Headline`.
#[verifier::ext_equal]
pub ghost struct SpecHeadline {
    pub effective_date: Seq<char>,
    pub effective_epoch_date: i64,
    pub severity: i32,
    pub text: Seq<char>,
    pub category: Seq<char>,
    pub end_date: Seq<char>,
    pub end_epoch_date: i64,
    pub mobile_link: Seq<char>,
    pub link: Seq<char>,
}

impl View for Headline {
    type V = SpecHeadline;

    open spec fn view(&self) -> SpecHeadline {
        SpecHeadline {
            effective_date: self.effective_date@,
            effective_epoch_date: self.effective_epoch_date,
            severity: self.severity,
            text: self.text@,
            category: self.category@,
            end_date: self.end_date@,
            end_epoch_date: self.end_epoch_date,
            mobile_link: self.mobile_link@,
            link: self.link@,
        }
    }
}

/// The whole answer of the daily endpoint.
#[derive(Debug, Clone, PartialEq, Eq)]
pub struct DailyForecastsAnswer {
    pub headline: Headline,
    pub daily_forecasts: Vec<DailyForecast>,
}

/// The mathematical mirror of `DailyForecastsAnswer`.
#[verifier::ext_equal]
pub ghost struct SpecDailyForecastsAnswer {
    pub headline: SpecHeadline,
    pub daily_forecasts: Seq<SpecDailyForecast>,
}

impl View for DailyForecastsAnswer {
    type V = SpecDailyForecastsAnswer;

    open spec fn view(&self) -> SpecDailyForecastsAnswer {
        SpecDailyForecastsAnswer {
            headline: self.headline@,
            daily_forecasts: self.daily_forecasts@.map_values(|x: DailyForecast| x@),
        }
    }
}

/// One hour of the hourly endpoint.
#[derive(Debug, Clone, PartialEq, Eq)]
pub struct HourlyForecast {
    pub ceiling: AccuweatherMeasurement,
    pub cloud_cover: i32,
    pub date_time: String,
    pub dew_point: AccuweatherMeasurement,
    pub epoch_date_time: i64,
    pub ice: AccuweatherMeasurement,
    pub ice_probability: i32,
    pub icon_phrase: String,
    pub is_daylight: bool,
    pub link: String,
    pub mobile_link: String,
    pub precipitation_probability: i32,
    pub rain: AccuweatherMeasurement,
    pub rain_probability: i32,
    pub real_feel_temperature: AccuweatherMeasurement,
    pub relative_humidity: i32,
    pub snow: AccuweatherMeasurement,
    pub snow_probability: i32,
    pub temperature: AccuweatherMeasurement,
    pub total_liquid: AccuweatherMeasurement,
    pub uv_index: i32,
    pub uv_index_text: String,
    pub visibility: AccuweatherMeasurement,
    pub weather_icon: i32,
    pub wet_bulb_temperature: AccuweatherMeasurement,
    pub wind: Wind,
    pub wind_gust: DailyWindGust,
}

/// The mathematical mirror of `HourlyForecast`.
#[verifier::ext_equal]
pub ghost struct SpecHourlyForecast {
    pub ceiling: SpecMeasurement,
    pub cloud_cover: i32,
    pub date_time: Seq<char>,
    pub dew_point: SpecMeasurement,
    pub epoch_date_time: i64,
    pub ice: SpecMeasurement,
    pub ice_probability: i32,
    pub icon_phrase: Seq<char>,
    pub is_daylight: bool,
    pub link: Seq<char>,
    pub mobile_link: Seq<char>,
    pub precipitation_probability: i32,
    pub rain: SpecMeasurement,
    pub rain_probability: i32,
    pub real_feel_temperature: SpecMeasurement,
    pub relative_humidity: i32,
    pub snow: SpecMeasurement,
    pub snow_probability: i32,
    pub temperature: SpecMeasurement,
    pub total_liquid: SpecMeasurement,
    pub uv_index: i32,
    pub uv_index_text: Seq<char>,
    pub visibility: SpecMeasurement,
    pub weather_icon: i32,
    pub wet_bulb_temperature: SpecMeasurement,
    pub wind: SpecWind,
    pub wind_gust: SpecDailyWindGust,
}

impl View for HourlyForecast {
    type V = SpecHourlyForecast;

    open spec fn view(&self) -> SpecHourlyForecast {
        SpecHourlyForecast {
            ceiling: self.ceiling@,
            cloud_cover: self.cloud_cover,
            date_time: self.date_time@,
            dew_point: self.dew_point@,
            epoch_date_time: self.epoch_date_time,
            ice: self.ice@,
            ice_probability: self.ice_probability,
            icon_phrase: self.icon_phrase@,
            is_daylight: self.is_daylight,
            link: self.link@,
            mobile_link: self.mobile_link@,
            precipitation_probability: self.precipitation_probability,
            rain: self.rain@,
            rain_probability: self.rain_probability,
            real_feel_temperature: self.real_feel_temperature@,
            relative_humidity: self.relative_humidity,
            snow: self.snow@,
            snow_probability: self.snow_probability,
            temperature: self.temperature@,
            total_liquid: self.total_liquid@,
            uv_index: self.uv_index,
            uv_index_text: self.uv_index_text@,
            visibility: self.visibility@,
            weather_icon: self.weather_icon,
            wet_bulb_temperature: self.wet_bulb_temperature@,
            wind: self.wind@,
            wind_gust: self.wind_gust@,
        }
    }
}

/// The local provider of a current-conditions reading.
#[derive(Debug, Clone, PartialEq, Eq)]
pub struct LocalSource {
    pub id: i32,
    pub name: String,
    pub weather_code: String,
}

/// The mathematical mirror of `LocalSource`.
#[verifier::ext_equal]
pub ghost struct SpecLocalSource {
    pub id: i32,
    pub name: Seq<char>,
    pub weather_code: Seq<char>,
}

impl View for LocalSource {
    type V = SpecLocalSource;

    open spec fn view(&self) -> SpecLocalSource {
        SpecLocalSource {
            id: self.id,
            name: self.name@,
            weather_code: self.weather_code@,
        }
    }
}

/// A reading in both unit systems.
#[derive(Debug, Clone, PartialEq, Eq)]
pub struct ConditionMeasurement {
    pub metric: AccuweatherMeasurement,
    pub imperial: AccuweatherMeasurement,
}

/// The mathematical mirror of `ConditionMeasurement`.
#[verifier::ext_equal]
pub ghost struct SpecConditionMeasurement {
    pub metric: SpecMeasurement,
    pub imperial: SpecMeasurement,
}

impl View for ConditionMeasurement {
    type V = SpecConditionMeasurement;

    open spec fn view(&self) -> SpecConditionMeasurement {
        SpecConditionMeasurement {
            metric: self.metric@,
            imperial: self.imperial@,
        }
    }
}

/// Which way the pressure is moving.
#[derive(Debug, Clone, PartialEq, Eq)]
pub struct PressureTendency {
    pub localized_text: String,
    pub code: String,
}

/// The mathematical mirror of `PressureTendency`.
#[verifier::ext_equal]
pub ghost struct SpecPressureTendency {
    pub localized_text: Seq<char>,
    pub code: Seq<char>,
}

impl View for PressureTendency {
    type V = SpecPressureTendency;

    open spec fn view(&self) -> SpecPressureTendency {
        SpecPressureTendency {
            localized_text: self.localized_text@,
            code: self.code@,
        }
    }
}

/// Precipitation over the rolling windows the service reports.
#[derive(Debug, Clone, PartialEq, Eq)]
pub struct PrecipitationSummary {
    pub precipitation: ConditionMeasurement,
    pub past_hour: ConditionMeasurement,
    pub past3_hours: ConditionMeasurement,
    pub past6_hours: ConditionMeasurement,
    pub past9_hours: ConditionMeasurement,
    pub past12_hours: ConditionMeasurement,
    pub past18_hours: ConditionMeasurement,
    pub past24_hours: ConditionMeasurement,
}

/// The mathematical mirror of `PrecipitationSummary`.
#[verifier::ext_equal]
pub ghost struct SpecPrecipitationSummary {
    pub precipitation: SpecConditionMeasurement,
    pub past_hour: SpecConditionMeasurement,
    pub past3_hours: SpecConditionMeasurement,
    pub past6_hours: SpecConditionMeasurement,
    pub past9_hours: SpecConditionMeasurement,
    pub past12_hours: SpecConditionMeasurement,
    pub past18_hours: SpecConditionMeasurement,
    pub past24_hours: SpecConditionMeasurement,
}

impl View for PrecipitationSummary {
    type V = SpecPrecipitationSummary;

    open spec fn view(&self) -> SpecPrecipitationSummary {
        SpecPrecipitationSummary {
            precipitation: self.precipitation@,
            past_hour: self.past_hour@,
            past3_hours: self.past3_hours@,
            past6_hours: self.past6_hours@,
            past9_hours: self.past9_hours@,
            past12_hours: self.past12_hours@,
            past18_hours: self.past18_hours@,
            past24_hours: self.past24_hours@,
        }
    }
}

/// Temperature ranges over the rolling windows the service reports.
#[derive(Debug, Clone, PartialEq, Eq)]
pub struct TemperatureSummary {
    pub past6_hour_range: TemperatureSummaryRange,
    pub past12_hour_range: TemperatureSummaryRange,
    pub past24_hour_range: TemperatureSummaryRange,
}

/// The mathematical mirror of `TemperatureSummary`.
#[verifier::ext_equal]
pub ghost struct SpecTemperatureSummary {
    pub past6_hour_range: SpecTemperatureSummaryRange,
    pub past12_hour_range: SpecTemperatureSummaryRange,
    pub past24_hour_range: SpecTemperatureSummaryRange,
}

impl View for TemperatureSummary {
    type V = SpecTemperatureSummary;

    open spec fn view(&self) -> SpecTemperatureSummary {
        SpecTemperatureSummary {
            past6_hour_range: self.past6_hour_range@,
            past12_hour_range: self.past12_hour_range@,
            past24_hour_range: self.past24_hour_range@,
        }
    }
}

/// A temperature range over one rolling window.
#[derive(Debug, Clone, PartialEq, Eq)]
pub struct TemperatureSummaryRange {
    pub minimum: ConditionMeasurement,
    pub maximum: ConditionMeasurement,
}

/// The mathematical mirror of `TemperatureSummaryRange`.
#[verifier::ext_equal]
pub ghost struct SpecTemperatureSummaryRange {
    pub minimum: SpecConditionMeasurement,
    pub maximum: SpecConditionMeasurement,
}

impl View for TemperatureSummaryRange {
    type V = SpecTemperatureSummaryRange;

    open spec fn view(&self) -> SpecTemperatureSummaryRange {
        SpecTemperatureSummaryRange {
            minimum: self.minimum@,
            maximum: self.maximum@,
        }
    }
}

/// Wind in the current-conditions endpoint.
#[derive(Debug, Clone, PartialEq, Eq)]
pub struct WindCondition {
    pub speed: ConditionMeasurement,
    pub direction: WindDirection,
}

/// The mathematical mirror of `WindCondition`.
#[verifier::ext_equal]
pub ghost struct SpecWindCondition {
    pub speed: SpecConditionMeasurement,
    pub direction: SpecWindDirection,
}

impl View for WindCondition {
    type V = SpecWindCondition;

    open spec fn view(&self) -> SpecWindCondition {
        SpecWindCondition {
            speed: self.speed@,
            direction: self.direction@,
        }
    }
}

/// A wind gust in the current-conditions endpoint.
#[derive(Debug, Clone, PartialEq, Eq)]
pub struct ConditionWindGust {
    pub speed: ConditionMeasurement,
}

/// The mathematical mirror of `ConditionWindGust`.
#[verifier::ext_equal]
pub ghost struct SpecConditionWindGust {
    pub speed: SpecConditionMeasurement,
}

impl View for ConditionWindGust {
    type V = SpecConditionWindGust;

    open spec fn view(&self) -> SpecConditionWindGust {
        SpecConditionWindGust {
            speed: self.speed@,
        }
    }
}

/// A snapshot observation; the service answers with exactly one.
#[derive(Debug, Clone, PartialEq, Eq)]
pub struct CurrentCondition {
    pub local_observation_date_time: String,
    pub epoch_time: i64,
    pub weather_text: String,
    pub weather_icon: i32,
    pub local_source: Option<LocalSource>,
    pub is_day_time: bool,
    pub temperature: ConditionMeasurement,
    pub real_feel_temperature: ConditionMeasurement,
    pub real_feel_temperature_shade: ConditionMeasurement,
    pub relative_humidity: i32,
    pub dew_point: ConditionMeasurement,
    pub wind: WindCondition,
    pub wind_gust: ConditionWindGust,
    pub uv_index: i32,
    pub uv_index_text: String,
    pub visibility: ConditionMeasurement,
    pub obstructions_to_visibility: String,
    pub cloud_cover: i32,
    pub ceiling: ConditionMeasurement,
    pub pressure: ConditionMeasurement,
    pub pressure_tendency: PressureTendency,
    pub past24_hour_temperature_departure: ConditionMeasurement,
    pub apparent_temperature: ConditionMeasurement,
    pub wind_chill_temperature: ConditionMeasurement,
    pub wet_bulb_temperature: ConditionMeasurement,
    pub precip1hr: ConditionMeasurement,
    pub precipitation_summary: PrecipitationSummary,
    pub temperature_summary: TemperatureSummary,
    pub mobile_link: String,
    pub link: String,
    pub has_precipitation: bool,
    pub precipitation_type: Option<String>,
}

/// The mathematical mirror of `CurrentCondition`.
#[verifier::ext_equal]
pub ghost struct SpecCurrentCondition {
    pub local_observation_date_time: Seq<char>,
    pub epoch_time: i64,
    pub weather_text: Seq<char>,
    pub weather_icon: i32,
    pub local_source: Option<SpecLocalSource>,
    pub is_day_time: bool,
    pub temperature: SpecConditionMeasurement,
    pub real_feel_temperature: SpecConditionMeasurement,
    pub real_feel_temperature_shade: SpecConditionMeasurement,
    pub relative_humidity: i32,
    pub dew_point: SpecConditionMeasurement,
    pub wind: SpecWindCondition,
    pub wind_gust: SpecConditionWindGust,
    pub uv_index: i32,
    pub uv_index_text: Seq<char>,
    pub visibility: SpecConditionMeasurement,
    pub obstructions_to_visibility: Seq<char>,
    pub cloud_cover: i32,
    pub ceiling: SpecConditionMeasurement,
    pub pressure: SpecConditionMeasurement,
    pub pressure_tendency: SpecPressureTendency,
    pub past24_hour_temperature_departure: SpecConditionMeasurement,
    pub apparent_temperature: SpecConditionMeasurement,
    pub wind_chill_temperature: SpecConditionMeasurement,
    pub wet_bulb_temperature: SpecConditionMeasurement,
    pub precip1hr: SpecConditionMeasurement,
    pub precipitation_summary: SpecPrecipitationSummary,
    pub temperature_summary: SpecTemperatureSummary,
    pub mobile_link: Seq<char>,
    pub link: Seq<char>,
    pub has_precipitation: bool,
    pub precipitation_type: Option<Seq<char>>,
}

impl View for CurrentCondition {
    type V = SpecCurrentCondition;

    open spec fn view(&self) -> SpecCurrentCondition {
        SpecCurrentCondition {
            local_observation_date_time: self.local_observation_date_time@,
            epoch_time: self.epoch_time,
            weather_text: self.weather_text@,
            weather_icon: self.weather_icon,
            local_source: (match self.local_source { Some(x) => Some(x@), None => None }),
            is_day_time: self.is_day_time,
            temperature: self.temperature@,
            real_feel_temperature: self.real_feel_temperature@,
            real_feel_temperature_shade: self.real_feel_temperature_shade@,
            relative_humidity: self.relative_humidity,
            dew_point: self.dew_point@,
            wind: self.wind@,
            wind_gust: self.wind_gust@,
            uv_index: self.uv_index,
            uv_index_text: self.uv_index_text@,
            visibility: self.visibility@,
            obstructions_to_visibility: self.obstructions_to_visibility@,
            cloud_cover: self.cloud_cover,
            ceiling: self.ceiling@,
            pressure: self.pressure@,
            pressure_tendency: self.pressure_tendency@,
            past24_hour_temperature_departure: self.past24_hour_temperature_departure@,
            apparent_temperature: self.apparent_temperature@,
            wind_chill_temperature: self.wind_chill_temperature@,
            wet_bulb_temperature: self.wet_bulb_temperature@,
            precip1hr: self.precip1hr@,
            precipitation_summary: self.precipitation_summary@,
            temperature_summary: self.temperature_summary@,
            mobile_link: self.mobile_link@,
            link: self.link@,
            has_precipitation: self.has_precipitation,
            precipitation_type: (match self.precipitation_type { Some(s) => Some(s@), None => None }),
        }
    }
}

/// The default for the `Type` field of `AirAndPollen`, taken when the
/// payload leaves it out: the empty string.
pub fn air_pollen_default_type() -> (r: String)
    ensures
        r@ == Seq::<char>::empty(),
{
    String::new()
}

} // verus!
