//! The library's data: errors, provider kinds, locations and reports.
use vstd::prelude::*;
use vstd::string::*;
use crate::json::JsonNumber;

verus! {

/// Error type for the project
#[derive(Clone, PartialEq, Debug)]
pub enum ProjectError {
    /// Error returned when location is not found
    LocationNotFound,
    /// Error returned when no data provider is found
    NoProviderFound,
    /// Serialization error
    SerializationError,
    /// Error writing to file
    FileWritingError,
    /// Error returned when the creation of the directory fails
    DirectoryCreationError,
    /// Error returned when the config file is not found
    NoConfigPathProvided,
    /// Error returned when parsing ENV fails
    EnvConfigError(String),
    /// Error returned when parsing API response fails
    ParsingError,
    /// Error returned when no command is provided
    NoCommandProvided,
    /// Error returned when the API key is not set for the provider
    NoApiKeyForProvider(String),
    /// Custom error
    Custom(String),
}

/// The weather providers that can be selected.
#[derive(Clone, Copy, PartialEq, Eq, Debug, Structural)]
pub enum ProviderType {
    /// OpenWeather
    OpenWeather,
    /// WeatherApi
    WeatherApi,
}

impl Default for ProviderType {
    fn default() -> (r: ProviderType)
        ensures
            r == ProviderType::OpenWeather,
    {
        ProviderType::OpenWeather
    }
}

/// The kind that a command-line provider name selects: the empty name gives
/// the default kind, an unknown name none.
pub open spec fn spec_kind_of_name(s: Seq<char>) -> Option<ProviderType> {
    if s == Seq::<char>::empty() {
        Some(ProviderType::OpenWeather)
    } else if s == "openweather"@ {
        Some(ProviderType::OpenWeather)
    } else if s == "weatherapi"@ {
        Some(ProviderType::WeatherApi)
    } else {
        None
    }
}

impl ProviderType {
    /// Reads a provider name as given on the command line. Unlike loading
    /// the persisted kind, an unknown name is not replaced by the default.
    pub fn from_name(s: &str) -> (r: Option<ProviderType>)
        ensures
            r == spec_kind_of_name(s@),
    {
        let given = String::from_str(s);
        if given == String::new() {
            Some(ProviderType::default())
        } else if given == String::from_str("openweather") {
            Some(ProviderType::OpenWeather)
        } else if given == String::from_str("weatherapi") {
            Some(ProviderType::WeatherApi)
        } else {
            None
        }
    }
}

/// The settings taken from the environment.
#[derive(Clone, Debug, Default)]
pub struct EnvConfig {
    pub config_path: Option<String>,
    pub open_weather_api_key: Option<String>,
    pub weather_api_api_key: Option<String>,
}

/// A geocoded place; the coordinates are the numbers the provider sent.
#[derive(Clone, Debug)]
pub struct Location {
    pub name: String,
    pub lat: JsonNumber,
    pub lon: JsonNumber,
}

/// A weather observation in a provider-independent shape. The two
/// temperatures are the numbers the provider sent, in degrees Celsius.
#[derive(Debug)]
pub struct WeatherApiResponse {
    pub location: Option<Location>,
    pub sunrise: Option<u64>,
    pub sunset: Option<u64>,
    pub temp: Option<JsonNumber>,
    pub feels_like: Option<JsonNumber>,
    pub pressure: Option<u16>,
    pub humidity: Option<u8>,
}

} // verus!
