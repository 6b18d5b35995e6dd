//! A typed client for a weather-data service: three read-only operations —
//! hourly forecasts, daily forecasts, current conditions — over HTTP with
//! JSON answers.
//!
//! The library holds everything that can be decided without a network: which
//! periods each endpoint accepts, the exact URL of each request, and the
//! exact decoding of each answer.  Performing the HTTP GET itself is the
//! caller's part; the caller hands the status and body back to
//! `*_from_response`, which turns them into records or an error.

use vstd::prelude::*;

pub mod decode;
pub mod json;
pub mod raw;
pub mod request;
pub mod types;

use crate::decode::{
    decode_current_condition_list, decode_daily_forecasts_answer, decode_hourly_forecast_list,
    spec_current_condition_list, spec_daily_forecasts_answer, spec_hourly_forecast_list,
};
use crate::raw::{parse_json, spec_parse_json};
use crate::request::{
    build_current_url, build_daily_url, build_hourly_url, spec_current_url, spec_daily_url,
    spec_hourly_url,
};
use crate::types::{
    CurrentCondition, DailyForecastsAnswer, HourlyForecast, SpecCurrentCondition,
    SpecDailyForecastsAnswer, SpecHourlyForecast,
};

verus! {

/// The error a caller gets for a forecast period the endpoint does not
/// accept.
#[derive(Debug, Clone, PartialEq, Eq, Structural)]
pub struct AccuweatherInvalidParameterError;

/// Everything an operation can fail with.
#[derive(Debug, Clone, PartialEq, Eq, Structural)]
pub enum AccuweatherError {
    /// The period is not one the endpoint accepts; nothing was sent.
    InvalidParameter(AccuweatherInvalidParameterError),
    /// No location is configured; nothing was sent.
    MissingLocation,
    /// The service answered with a status outside the 2xx range.
    HttpStatus(u16),
    /// The body was not the endpoint's JSON shape.
    Decode,
    /// The request got no answer: name resolution, connection, or the like.
    Transport,
}

/// The forecast periods, in hours, that the hourly endpoint accepts.
pub open spec fn valid_hourly_period(period: i8) -> bool {
    period == 1 || period == 12 || period == 24 || period == 72 || period == 120
}

/// The forecast periods, in days, that the daily endpoint accepts.
pub open spec fn valid_daily_period(period: i8) -> bool {
    period == 1 || period == 5 || period == 10 || period == 15
}

/// A client: the key sent with every request, the location asked about, and
/// the address requests go to.
pub struct Accuweather {
    pub api_key: String,
    pub location: Option<i32>,
    pub base_url: String,
}

impl Accuweather {
    /// A client against the service's own address.
    ///
    /// Takes the API key sent with every request and, optionally, the
    /// location identifier to ask about.
    pub fn new(api_key: String, location: Option<i32>) -> (r: Accuweather)
        ensures
            r.api_key == api_key,
            r.location == location,
            r.base_url@ == "http://dataservice.accuweather.com"@,
    {
        Accuweather {
            api_key,
            location,
            base_url: "http://dataservice.accuweather.com".to_owned(),
        }
    }

    /// The same client against another address: the seam that points a test
    /// at a stand-in service, changing nothing else.
    pub fn with_base_url(api_key: String, location: Option<i32>, base_url: String) -> (r:
        Accuweather)
        ensures
            r.api_key == api_key,
            r.location == location,
            r.base_url == base_url,
    {
        Accuweather { api_key, location, base_url }
    }

    /// Replaces the stored location; takes effect for later calls only.
    pub fn set_location(&mut self, location: Option<i32>)
        ensures
            final(self).location == location,
            final(self).api_key == old(self).api_key,
            final(self).base_url == old(self).base_url,
    {
        self.location = location;
    }

    /// The URL of an hourly-forecast request: rejects a period outside
    /// {1, 12, 24, 72, 120} before anything is sent, and a client with no
    /// location.
    pub fn get_hourly_forecasts_url(&self, period: i8) -> (r: Result<String, AccuweatherError>)
        ensures
            !valid_hourly_period(period) ==> r == Err::<String, AccuweatherError>(
                AccuweatherError::InvalidParameter(AccuweatherInvalidParameterError),
            ),
            valid_hourly_period(period) && self.location is None ==> r == Err::<
                String,
                AccuweatherError,
            >(AccuweatherError::MissingLocation),
            valid_hourly_period(period) && self.location is Some ==> (r matches Ok(u) && u@
                == spec_hourly_url(self.base_url@, period, self.location.unwrap(), self.api_key@)),
    {
        if !(period == 1 || period == 12 || period == 24 || period == 72 || period == 120) {
            return Err(AccuweatherError::InvalidParameter(AccuweatherInvalidParameterError));
        }
        let loc = match self.location {
            Some(l) => l,
            None => return Err(AccuweatherError::MissingLocation),
        };
        Ok(build_hourly_url(&self.base_url, period, loc, &self.api_key))
    }

    /// The URL of a daily-forecast request: rejects a period outside
    /// {1, 5, 10, 15} before anything is sent, and a client with no
    /// location.
    pub fn get_daily_forecasts_url(&self, period: i8) -> (r: Result<String, AccuweatherError>)
        ensures
            !valid_daily_period(period) ==> r == Err::<String, AccuweatherError>(
                AccuweatherError::InvalidParameter(AccuweatherInvalidParameterError),
            ),
            valid_daily_period(period) && self.location is None ==> r == Err::<
                String,
                AccuweatherError,
            >(AccuweatherError::MissingLocation),
            valid_daily_period(period) && self.location is Some ==> (r matches Ok(u) && u@
                == spec_daily_url(self.base_url@, period, self.location.unwrap(), self.api_key@)),
    {
        if !(period == 1 || period == 5 || period == 10 || period == 15) {
            return Err(AccuweatherError::InvalidParameter(AccuweatherInvalidParameterError));
        }
        let loc = match self.location {
            Some(l) => l,
            None => return Err(AccuweatherError::MissingLocation),
        };
        Ok(build_daily_url(&self.base_url, period, loc, &self.api_key))
    }

    /// The URL of a current-conditions request: rejects a client with no
    /// location.
    pub fn get_current_conditions_url(&self) -> (r: Result<String, AccuweatherError>)
        ensures
            self.location is None ==> r == Err::<String, AccuweatherError>(
                AccuweatherError::MissingLocation,
            ),
            self.location is Some ==> (r matches Ok(u) && u@ == spec_current_url(
                self.base_url@,
                self.location.unwrap(),
                self.api_key@,
            )),
    {
        let loc = match self.location {
            Some(l) => l,
            None => return Err(AccuweatherError::MissingLocation),
        };
        Ok(build_current_url(&self.base_url, loc, &self.api_key))
    }
}

/// What an hourly answer means: an `HttpStatus` error outside the 2xx range,
/// a `Decode` error for a body that is not the endpoint's shape, the records
/// otherwise.
pub open spec fn spec_hourly_response(status: u16, body: Seq<char>) -> Result<
    Seq<SpecHourlyForecast>,
    AccuweatherError,
> {
    if !(200 <= status && status < 300) {
        Err(AccuweatherError::HttpStatus(status))
    } else {
        match spec_parse_json(body) {
            Some(j) => match spec_hourly_forecast_list(j) {
                Some(l) => Ok(l),
                None => Err(AccuweatherError::Decode),
            },
            None => Err(AccuweatherError::Decode),
        }
    }
}

/// What a daily answer means, as `spec_hourly_response`.
pub open spec fn spec_daily_response(status: u16, body: Seq<char>) -> Result<
    SpecDailyForecastsAnswer,
    AccuweatherError,
> {
    if !(200 <= status && status < 300) {
        Err(AccuweatherError::HttpStatus(status))
    } else {
        match spec_parse_json(body) {
            Some(j) => match spec_daily_forecasts_answer(j) {
                Some(a) => Ok(a),
                None => Err(AccuweatherError::Decode),
            },
            None => Err(AccuweatherError::Decode),
        }
    }
}

/// What a current-conditions answer means, as `spec_hourly_response`.
pub open spec fn spec_current_response(status: u16, body: Seq<char>) -> Result<
    Seq<SpecCurrentCondition>,
    AccuweatherError,
> {
    if !(200 <= status && status < 300) {
        Err(AccuweatherError::HttpStatus(status))
    } else {
        match spec_parse_json(body) {
            Some(j) => match spec_current_condition_list(j) {
                Some(l) => Ok(l),
                None => Err(AccuweatherError::Decode),
            },
            None => Err(AccuweatherError::Decode),
        }
    }
}

/// Turns the answer to an hourly request into its records, exactly as
/// `spec_hourly_response` says.
pub fn get_hourly_forecasts_from_response(status: u16, body: &str) -> (r: Result<
    Vec<HourlyForecast>,
    AccuweatherError,
>)
    ensures
        match r {
            Ok(list) => spec_hourly_response(status, body@) == Ok::<_, AccuweatherError>(
                list@.map_values(|x: HourlyForecast| x@),
            ),
            Err(e) => spec_hourly_response(status, body@) == Err::<Seq<SpecHourlyForecast>, _>(e),
        },
{
    if !(200 <= status && status < 300) {
        return Err(AccuweatherError::HttpStatus(status));
    }
    let v = match parse_json(body) {
        Some(v) => v,
        None => return Err(AccuweatherError::Decode),
    };
    match decode_hourly_forecast_list(&v) {
        Some(list) => Ok(list),
        None => Err(AccuweatherError::Decode),
    }
}

/// Turns the answer to a daily request into its records, exactly as
/// `spec_daily_response` says.
pub fn get_daily_forecasts_from_response(status: u16, body: &str) -> (r: Result<
    DailyForecastsAnswer,
    AccuweatherError,
>)
    ensures
        match r {
            Ok(a) => spec_daily_response(status, body@) == Ok::<_, AccuweatherError>(a@),
            Err(e) => spec_daily_response(status, body@) == Err::<SpecDailyForecastsAnswer, _>(e),
        },
{
    if !(200 <= status && status < 300) {
        return Err(AccuweatherError::HttpStatus(status));
    }
    let v = match parse_json(body) {
        Some(v) => v,
        None => return Err(AccuweatherError::Decode),
    };
    match decode_daily_forecasts_answer(&v) {
        Some(a) => Ok(a),
        None => Err(AccuweatherError::Decode),
    }
}

/// Turns the answer to a current-conditions request into its records,
/// exactly as `spec_current_response` says.
pub fn get_current_conditions_from_response(status: u16, body: &str) -> (r: Result<
    Vec<CurrentCondition>,
    AccuweatherError,
>)
    ensures
        match r {
            Ok(list) => spec_current_response(status, body@) == Ok::<_, AccuweatherError>(
                list@.map_values(|x: CurrentCondition| x@),
            ),
            Err(e) => spec_current_response(status, body@) == Err::<Seq<SpecCurrentCondition>, _>(
                e,
            ),
        },
{
    if !(200 <= status && status < 300) {
        return Err(AccuweatherError::HttpStatus(status));
    }
    let v = match parse_json(body) {
        Some(v) => v,
        None => return Err(AccuweatherError::Decode),
    };
    match decode_current_condition_list(&v) {
        Some(list) => Ok(list),
        None => Err(AccuweatherError::Decode),
    }
}

} // verus!
