//! WeatherApi: one request by place name; the response carries the place.
use vstd::prelude::*;
use vstd::string::*;
use crate::json::{
    as_number, as_text, as_u64, field, lookup, number_to_u16, spec_as_number, spec_as_string,
    spec_as_u64, truncate_to_u16, JsonValue,
};
use crate::structures::{Location, ProjectError, ProviderType, WeatherApiResponse};
use crate::traits::{Provider, Reply, Request, Stage, Step};

verus! {

pub struct WeatherApi {
    api_key: String,
}

/// The report that a WeatherApi response gives: the place from its
/// `location` object, the readings from the object `section`. Every field
/// must be present with the right type. Pressure arrives as a number of
/// millibars and is truncated toward zero into a `u16`; humidity is narrowed
/// with `as` to its low 8 bits. Sunrise and sunset are never given.
pub open spec fn weatherapi_report(resp: JsonValue, section: Seq<char>) -> Result<
    WeatherApiResponse,
    ProjectError,
> {
    let place = lookup(Some(resp), "location"@);
    let name = spec_as_string(lookup(place, "name"@));
    let lat = spec_as_number(lookup(place, "lat"@));
    let lon = spec_as_number(lookup(place, "lon"@));
    let sec = lookup(Some(resp), section);
    let temp = spec_as_number(lookup(sec, "temp_c"@));
    let feels_like = spec_as_number(lookup(sec, "feelslike_c"@));
    let pressure = spec_as_number(lookup(sec, "pressure_mb"@));
    let humidity = spec_as_u64(lookup(sec, "humidity"@));
    if name is Some && lat is Some && lon is Some && temp is Some && feels_like is Some
        && pressure is Some && humidity is Some {
        Ok(
            WeatherApiResponse {
                location: Some(Location { name: name->0, lat: lat->0, lon: lon->0 }),
                sunrise: None,
                sunset: None,
                temp,
                feels_like,
                pressure: Some(truncate_to_u16(pressure->0)),
                humidity: Some(humidity->0 as u8),
            },
        )
    } else {
        Err(ProjectError::ParsingError)
    }
}

fn read_report(resp: &JsonValue, section: &String) -> (r: Result<WeatherApiResponse, ProjectError>)
    ensures
        r == weatherapi_report(*resp, section@),
{
    let place = field(Some(resp), &String::from_str("location"));
    let name = as_text(field(place, &String::from_str("name")));
    let lat = as_number(field(place, &String::from_str("lat")));
    let lon = as_number(field(place, &String::from_str("lon")));
    let sec = field(Some(resp), section);
    let temp = as_number(field(sec, &String::from_str("temp_c")));
    let feels_like = as_number(field(sec, &String::from_str("feelslike_c")));
    let pressure = as_number(field(sec, &String::from_str("pressure_mb")));
    let humidity = as_u64(field(sec, &String::from_str("humidity")));
    match (name, lat, lon, temp, feels_like, pressure, humidity) {
        (Some(name), Some(lat), Some(lon), Some(_), Some(_), Some(p), Some(h)) => Ok(
            WeatherApiResponse {
                location: Some(Location { name, lat, lon }),
                sunrise: None,
                sunset: None,
                temp,
                feels_like,
                pressure: Some(number_to_u16(p)),
                humidity: Some(h as u8),
            },
        ),
        _ => Err(ProjectError::ParsingError),
    }
}

impl WeatherApi {
    pub fn new(api_key: String) -> (r: Self)
        ensures
            r.key() == api_key,
    {
        WeatherApi { api_key }
    }

    pub closed spec fn key(&self) -> String {
        self.api_key
    }

    pub fn api_key(&self) -> (r: &String)
        ensures
            *r == self.key(),
    {
        &self.api_key
    }

    /// The report of a decoded historical response: readings from `hour`.
    pub fn get_historical_weather(&self, response: &JsonValue) -> (r: Result<
        WeatherApiResponse,
        ProjectError,
    >)
        ensures
            r == weatherapi_report(*response, "hour"@),
    {
        read_report(response, &String::from_str("hour"))
    }

    /// The report of a decoded current-conditions response: readings from
    /// `current`.
    pub fn get_current_weather(&self, response: &JsonValue) -> (r: Result<
        WeatherApiResponse,
        ProjectError,
    >)
        ensures
            r == weatherapi_report(*response, "current"@),
    {
        read_report(response, &String::from_str("current"))
    }
}

impl Provider for WeatherApi {
    open spec fn kind(&self) -> ProviderType {
        ProviderType::WeatherApi
    }

    /// A lookup asks at once for the conditions by place name, the current
    /// ones or, with a time, the historical ones.
    open spec fn first_step(&self, location: Seq<char>, time: Option<Seq<char>>, r: Step) -> bool {
        match r {
            Step::Fetch { request, stage: Stage::Observing { location: None, historical } } => {
                historical == (time is Some) && match request {
                    Request::WeatherApiCurrent { query, api_key } =>
                        time is None && query@ == location && api_key == self.key(),
                    Request::WeatherApiHistory { query, time: t, api_key } =>
                        time == Some(t@) && query@ == location && api_key == self.key(),
                    _ => false,
                }
            },
            _ => false,
        }
    }

    /// The conditions response gives the report; any other reply cannot
    /// be read.
    open spec fn next_step(&self, stage: Stage, response: Reply, r: Step) -> bool {
        match (stage, response) {
            (Stage::Observing { historical, .. }, Reply::Document(response)) => r == Step::Done(
                if historical {
                    weatherapi_report(response, "hour"@)
                } else {
                    weatherapi_report(response, "current"@)
                },
            ),
            _ => r == Step::Done(Err(ProjectError::ParsingError)),
        }
    }

    fn get_type(&self) -> (r: ProviderType) {
        ProviderType::WeatherApi
    }

    fn begin(&self, location: &str, time: Option<&str>) -> (r: Step) {
        let query = String::from_str(location);
        match time {
            Some(t) => Step::Fetch {
                request: Request::WeatherApiHistory { query, time: String::from_str(t), api_key: self.api_key.clone() },
                stage: Stage::Observing { location: None, historical: true },
            },
            None => Step::Fetch {
                request: Request::WeatherApiCurrent { query, api_key: self.api_key.clone() },
                stage: Stage::Observing { location: None, historical: false },
            },
        }
    }

    fn resume(&self, stage: Stage, response: &Reply) -> (r: Step) {
        match (stage, response) {
            (Stage::Observing { historical, .. }, Reply::Document(response)) => if historical {
                Step::Done(self.get_historical_weather(response))
            } else {
                Step::Done(self.get_current_weather(response))
            },
            _ => Step::Done(Err(ProjectError::ParsingError)),
        }
    }
}

} // verus!
