//! The provider capability: a lookup is a short exchange in which the
//! provider names each request to make and then reads its decoded response.
use vstd::prelude::*;
use crate::json::{JsonNumber, JsonValue};
use crate::structures::{Location, ProjectError, ProviderType, WeatherApiResponse};

verus! {

/// A GET request whose decoded response the caller hands back: the places
/// of a geocoding request, the JSON document of any other.
#[derive(Debug)]
pub enum Request {
    /// OpenWeather direct geocoding of a place name.
    Geocode { query: String, api_key: String },
    /// OpenWeather current conditions at coordinates.
    OpenWeatherCurrent { lat: JsonNumber, lon: JsonNumber, api_key: String },
    /// OpenWeather conditions at coordinates at a Unix time in seconds.
    OpenWeatherHistory { lat: JsonNumber, lon: JsonNumber, dt: i64, api_key: String },
    /// WeatherApi current conditions for a place name.
    WeatherApiCurrent { query: String, api_key: String },
    /// WeatherApi conditions for a place name at a time, passed on as given.
    WeatherApiHistory { query: String, time: String, api_key: String },
}

/// What a lookup waits for.
#[derive(Debug)]
pub enum Stage {
    /// The geocoding response; `time` is the instant asked for, if any.
    Locating { time: Option<String> },
    /// The conditions response, for a place already located or not.
    Observing { location: Option<Location>, historical: bool },
}

/// A decoded response.
#[derive(Debug)]
pub enum Reply {
    /// The candidate places of a geocoding response, in the order sent.
    Places(Vec<Location>),
    /// Any other response.
    Document(JsonValue),
}

/// What to do next in a lookup.
#[derive(Debug)]
pub enum Step {
    Fetch { request: Request, stage: Stage },
    Done(Result<WeatherApiResponse, ProjectError>),
}

pub open spec fn opt_view(s: Option<&str>) -> Option<Seq<char>> {
    match s {
        Some(t) => Some(t@),
        None => None,
    }
}

pub open spec fn opt_string_view(s: Option<String>) -> Option<Seq<char>> {
    match s {
        Some(t) => Some(t@),
        None => None,
    }
}

/// Trait provider is used to define the interface for weather providers
pub trait Provider {
    /// Which provider this is.
    spec fn kind(&self) -> ProviderType;

    /// Whether `r` is a correct first step of a lookup of `location`.
    spec fn first_step(&self, location: Seq<char>, time: Option<Seq<char>>, r: Step) -> bool;

    /// Whether `r` is a correct step after `response` came for `stage`.
    spec fn next_step(&self, stage: Stage, response: Reply, r: Step) -> bool;

    fn get_type(&self) -> (r: ProviderType)
        ensures
            r == self.kind(),
    ;

    /// Starts a lookup of a place, now or, with `time`, at that instant.
    fn begin(&self, location: &str, time: Option<&str>) -> (r: Step)
        ensures
            self.first_step(location@, opt_view(time), r),
    ;

    /// Goes on with a lookup once the response to its request has come.
    fn resume(&self, stage: Stage, response: &Reply) -> (r: Step)
        ensures
            self.next_step(stage, *response, r),
    ;
}

} // verus!
