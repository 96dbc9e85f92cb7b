//! OpenWeather: geocode the place name, then read current or historical
//! conditions at its coordinates.
use vstd::prelude::*;
use vstd::string::*;
use crate::json::{as_number, as_u64, field, lookup, spec_as_number, spec_as_u64, JsonValue};
use crate::structures::{Location, ProjectError, ProviderType, WeatherApiResponse};
use crate::traits::{opt_string_view, Provider, Reply, Request, Stage, Step};

verus! {

#[verifier::external_type_specification]
#[verifier::external_body]
pub struct ExParseError(chrono::ParseError);

/// The Unix time, in seconds, of an RFC 3339 date and time, when the text is
/// one.
pub uninterp spec fn rfc3339_seconds(s: Seq<char>) -> Option<i64>;

/// Relies on chrono's `DateTime::parse_from_rfc3339` and `timestamp`.
#[verifier::external_body]
fn parse_rfc3339(s: &str) -> (r: Result<i64, chrono::ParseError>)
    ensures
        match r {
            Ok(secs) => rfc3339_seconds(s@) == Some(secs),
            Err(_) => rfc3339_seconds(s@) is None,
        },
{
    chrono::DateTime::parse_from_rfc3339(s).map(|dt| dt.timestamp())
}

/// Relies on the `Display` of chrono's `ParseError`, for the message of a
/// time that could not be read.
#[verifier::external_body]
fn parse_error_text(e: &chrono::ParseError) -> String {
    e.to_string()
}

pub struct OpenWeather {
    api_key: String,
}

/// The first of the candidate places of a geocoding response; an empty list
/// means the place is unknown.
pub open spec fn first_candidate(places: Seq<Location>) -> Result<Location, ProjectError> {
    if places.len() == 0 {
        Err(ProjectError::LocationNotFound)
    } else {
        Ok(places[0])
    }
}

/// The report that an OpenWeather response gives for `loc`: the readings are
/// taken from the object `section`, sunrise and sunset from the object
/// `daylight`. Every field must be present with the right type; pressure and
/// humidity are narrowed with `as` to their low 16 and 8 bits.
pub open spec fn openweather_report(
    resp: JsonValue,
    loc: Location,
    section: Seq<char>,
    daylight: Seq<char>,
) -> Result<WeatherApiResponse, ProjectError> {
    let sec = lookup(Some(resp), section);
    let day = lookup(Some(resp), daylight);
    let sunrise = spec_as_u64(lookup(day, "sunrise"@));
    let sunset = spec_as_u64(lookup(day, "sunset"@));
    let temp = spec_as_number(lookup(sec, "temp"@));
    let feels_like = spec_as_number(lookup(sec, "feels_like"@));
    let pressure = spec_as_u64(lookup(sec, "pressure"@));
    let humidity = spec_as_u64(lookup(sec, "humidity"@));
    if sunrise is Some && sunset is Some && temp is Some && feels_like is Some && pressure is Some
        && humidity is Some {
        Ok(
            WeatherApiResponse {
                location: Some(loc),
                sunrise,
                sunset,
                temp,
                feels_like,
                pressure: Some(pressure->0 as u16),
                humidity: Some(humidity->0 as u8),
            },
        )
    } else {
        Err(ProjectError::ParsingError)
    }
}

fn read_report(resp: &JsonValue, loc: Location, section: &String, daylight: &String) -> (r: Result<
    WeatherApiResponse,
    ProjectError,
>)
    ensures
        r == openweather_report(*resp, loc, section@, daylight@),
{
    let sec = field(Some(resp), section);
    let day = field(Some(resp), daylight);
    let sunrise = as_u64(field(day, &String::from_str("sunrise")));
    let sunset = as_u64(field(day, &String::from_str("sunset")));
    let temp = as_number(field(sec, &String::from_str("temp")));
    let feels_like = as_number(field(sec, &String::from_str("feels_like")));
    let pressure = as_u64(field(sec, &String::from_str("pressure")));
    let humidity = as_u64(field(sec, &String::from_str("humidity")));
    match (sunrise, sunset, temp, feels_like, pressure, humidity) {
        (Some(_), Some(_), Some(_), Some(_), Some(p), Some(h)) => Ok(
            WeatherApiResponse {
                location: Some(loc),
                sunrise,
                sunset,
                temp,
                feels_like,
                pressure: Some(p as u16),
                humidity: Some(h as u8),
            },
        ),
        _ => Err(ProjectError::ParsingError),
    }
}

impl OpenWeather {
    pub fn new(api_key: String) -> (r: Self)
        ensures
            r.key() == api_key,
    {
        OpenWeather { api_key }
    }

    pub closed spec fn key(&self) -> String {
        self.api_key
    }

    pub fn api_key(&self) -> (r: &String)
        ensures
            *r == self.key(),
    {
        &self.api_key
    }

    /// The location that a geocoding response names first.
    pub fn get_location(&self, places: &Vec<Location>) -> (r: Result<Location, ProjectError>)
        ensures
            r == first_candidate(places@),
    {
        if places.len() == 0 {
            Err(ProjectError::LocationNotFound)
        } else {
            let first = &places[0];
            Ok(Location { name: first.name.clone(), lat: first.lat, lon: first.lon })
        }
    }

    /// The report of a decoded historical response for `loc`: all readings
    /// come from its `data` object.
    pub fn get_historical_weather(&self, loc: Location, response: &JsonValue) -> (r: Result<
        WeatherApiResponse,
        ProjectError,
    >)
        ensures
            r == openweather_report(*response, loc, "data"@, "data"@),
    {
        read_report(response, loc, &String::from_str("data"), &String::from_str("data"))
    }

    /// The report of a decoded current-conditions response for `loc`: the
    /// readings come from its `main` object, sunrise and sunset from `sys`.
    pub fn get_current_weather(&self, loc: Location, response: &JsonValue) -> (r: Result<
        WeatherApiResponse,
        ProjectError,
    >)
        ensures
            r == openweather_report(*response, loc, "main"@, "sys"@),
    {
        read_report(response, loc, &String::from_str("main"), &String::from_str("sys"))
    }
}

/// The step after a geocoding response: stop with the error when no place
/// was found, else ask for the conditions at the place's coordinates, now or
/// at the instant asked for; an instant that is not RFC 3339 ends the lookup
/// with a `Custom` error.
pub open spec fn after_geocoding(key: String, time: Option<String>, places: Seq<Location>, r: Step) -> bool {
    match first_candidate(places) {
        Err(e) => r == Step::Done(Err(e)),
        Ok(loc) => match time {
            None => r == (Step::Fetch {
                request: Request::OpenWeatherCurrent { lat: loc.lat, lon: loc.lon, api_key: key },
                stage: Stage::Observing { location: Some(loc), historical: false },
            }),
            Some(t) => match rfc3339_seconds(t@) {
                Some(secs) => r == (Step::Fetch {
                    request: Request::OpenWeatherHistory { lat: loc.lat, lon: loc.lon, dt: secs, api_key: key },
                    stage: Stage::Observing { location: Some(loc), historical: true },
                }),
                None => r matches Step::Done(Err(ProjectError::Custom(_))),
            },
        },
    }
}

/// The report that ends a lookup once the conditions response has come.
pub open spec fn after_observing(location: Option<Location>, historical: bool, resp: JsonValue) -> Result<WeatherApiResponse, ProjectError> {
    match location {
        Some(loc) => if historical {
            openweather_report(resp, loc, "data"@, "data"@)
        } else {
            openweather_report(resp, loc, "main"@, "sys"@)
        },
        None => Err(ProjectError::ParsingError),
    }
}

impl Provider for OpenWeather {
    open spec fn kind(&self) -> ProviderType {
        ProviderType::OpenWeather
    }

    open spec fn first_step(&self, location: Seq<char>, time: Option<Seq<char>>, r: Step) -> bool {
        match r {
            Step::Fetch { request: Request::Geocode { query, api_key }, stage: Stage::Locating { time: t } } =>
                query@ == location && api_key == self.key() && opt_string_view(t) == time,
            _ => false,
        }
    }

    /// The places answer a geocoding request and the document a conditions
    /// request; any other reply cannot be read.
    open spec fn next_step(&self, stage: Stage, response: Reply, r: Step) -> bool {
        match (stage, response) {
            (Stage::Locating { time }, Reply::Places(places)) => after_geocoding(self.key(), time, places@, r),
            (Stage::Observing { location, historical }, Reply::Document(doc)) =>
                r == Step::Done(after_observing(location, historical, doc)),
            _ => r == Step::Done(Err(ProjectError::ParsingError)),
        }
    }

    fn get_type(&self) -> (r: ProviderType) {
        ProviderType::OpenWeather
    }

    fn begin(&self, location: &str, time: Option<&str>) -> (r: Step) {
        let t = match time {
            Some(t) => Some(String::from_str(t)),
            None => None,
        };
        Step::Fetch {
            request: Request::Geocode { query: String::from_str(location), api_key: self.api_key.clone() },
            stage: Stage::Locating { time: t },
        }
    }

    fn resume(&self, stage: Stage, response: &Reply) -> (r: Step) {
        match (stage, response) {
            (Stage::Locating { time }, Reply::Places(places)) => {
                let loc = match self.get_location(places) {
                    Ok(loc) => loc,
                    Err(e) => return Step::Done(Err(e)),
                };
                match time {
                    None => Step::Fetch {
                        request: Request::OpenWeatherCurrent { lat: loc.lat, lon: loc.lon, api_key: self.api_key.clone() },
                        stage: Stage::Observing { location: Some(loc), historical: false },
                    },
                    Some(t) => match parse_rfc3339(t.as_str()) {
                        Ok(secs) => Step::Fetch {
                            request: Request::OpenWeatherHistory { lat: loc.lat, lon: loc.lon, dt: secs, api_key: self.api_key.clone() },
                            stage: Stage::Observing { location: Some(loc), historical: true },
                        },
                        Err(e) => Step::Done(Err(ProjectError::Custom(parse_error_text(&e)))),
                    },
                }
            },
            (Stage::Observing { location, historical }, Reply::Document(doc)) => match location {
                Some(loc) => if historical {
                    Step::Done(self.get_historical_weather(loc, doc))
                } else {
                    Step::Done(self.get_current_weather(loc, doc))
                },
                None => Step::Done(Err(ProjectError::ParsingError)),
            },
            _ => Step::Done(Err(ProjectError::ParsingError)),
        }
    }
}

/// A geocoding response with no candidate ends the lookup with
/// `LocationNotFound`: no conditions request follows.
pub proof fn empty_geocoding_ends_lookup(p: OpenWeather, time: Option<String>, places: Vec<Location>, r: Step)
    requires
        places@.len() == 0,
        p.next_step(Stage::Locating { time }, Reply::Places(places), r),
    ensures
        r == Step::Done(Err(ProjectError::LocationNotFound)),
        !(r is Fetch),
{
}

/// A current-conditions response without a number at `main.temp` cannot
/// be normalized: the lookup fails with `ParsingError`.
pub proof fn missing_temperature_is_parsing_error(resp: JsonValue, loc: Location)
    requires
        spec_as_number(lookup(lookup(Some(resp), "main"@), "temp"@)) is None,
    ensures
        openweather_report(resp, loc, "main"@, "sys"@) == Err::<WeatherApiResponse, ProjectError>(ProjectError::ParsingError),
{
}

} // verus!
