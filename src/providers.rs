//! The two weather providers, and the choice of the one to use.
pub mod openweather;
pub mod weatherapi;

use vstd::prelude::*;
use vstd::string::*;
use crate::structures::{EnvConfig, ProjectError, ProviderType};
use crate::traits::{Provider, Reply, Stage, Step};
use self::openweather::OpenWeather;
use self::weatherapi::WeatherApi;

verus! {

/// One provider of either kind.
pub enum AnyProvider {
    OpenWeather(OpenWeather),
    WeatherApi(WeatherApi),
}

impl Provider for AnyProvider {
    open spec fn kind(&self) -> ProviderType {
        match self {
            AnyProvider::OpenWeather(p) => p.kind(),
            AnyProvider::WeatherApi(p) => p.kind(),
        }
    }

    open spec fn first_step(&self, location: Seq<char>, time: Option<Seq<char>>, r: Step) -> bool {
        match self {
            AnyProvider::OpenWeather(p) => p.first_step(location, time, r),
            AnyProvider::WeatherApi(p) => p.first_step(location, time, r),
        }
    }

    open spec fn next_step(&self, stage: Stage, response: Reply, r: Step) -> bool {
        match self {
            AnyProvider::OpenWeather(p) => p.next_step(stage, response, r),
            AnyProvider::WeatherApi(p) => p.next_step(stage, response, r),
        }
    }

    fn get_type(&self) -> (r: ProviderType) {
        match self {
            AnyProvider::OpenWeather(p) => p.get_type(),
            AnyProvider::WeatherApi(p) => p.get_type(),
        }
    }

    fn begin(&self, location: &str, time: Option<&str>) -> (r: Step) {
        match self {
            AnyProvider::OpenWeather(p) => p.begin(location, time),
            AnyProvider::WeatherApi(p) => p.begin(location, time),
        }
    }

    fn resume(&self, stage: Stage, response: &Reply) -> (r: Step) {
        match self {
            AnyProvider::OpenWeather(p) => p.resume(stage, response),
            AnyProvider::WeatherApi(p) => p.resume(stage, response),
        }
    }
}

/// The API key a provider was made with.
pub open spec fn key_of(p: AnyProvider) -> String {
    match p {
        AnyProvider::OpenWeather(p) => p.key(),
        AnyProvider::WeatherApi(p) => p.key(),
    }
}

pub open spec fn missing_key(r: Result<Vec<AnyProvider>, ProjectError>, message: Seq<char>) -> bool {
    match r {
        Err(ProjectError::NoApiKeyForProvider(m)) => m@ == message,
        _ => false,
    }
}

/// The providers made from the settings: one of each kind, in a fixed
/// order, or the error for the first key that is missing.
pub fn providers_from_config(config: &EnvConfig) -> (r: Result<Vec<AnyProvider>, ProjectError>)
    ensures
        match (config.open_weather_api_key, config.weather_api_api_key) {
            (Some(k1), Some(k2)) => r is Ok && r->Ok_0@.len() == 2
                && r->Ok_0@[0].kind() == ProviderType::OpenWeather && key_of(r->Ok_0@[0]) == k1
                && r->Ok_0@[1].kind() == ProviderType::WeatherApi && key_of(r->Ok_0@[1]) == k2,
            (None, _) => missing_key(r, "No Open Weather API Key"@),
            (Some(_), None) => missing_key(r, "No Weather API API Key"@),
        },
{
    let k1 = match &config.open_weather_api_key {
        Some(k) => k.clone(),
        None => return Err(ProjectError::NoApiKeyForProvider(String::from_str("No Open Weather API Key"))),
    };
    let k2 = match &config.weather_api_api_key {
        Some(k) => k.clone(),
        None => return Err(ProjectError::NoApiKeyForProvider(String::from_str("No Weather API API Key"))),
    };
    let mut v: Vec<AnyProvider> = Vec::new();
    v.push(AnyProvider::OpenWeather(OpenWeather::new(k1)));
    v.push(AnyProvider::WeatherApi(WeatherApi::new(k2)));
    Ok(v)
}

/// The first provider of the given kind, or `NoProviderFound` when there
/// is none.
pub fn find_provider(providers: &Vec<AnyProvider>, kind: ProviderType) -> (r: Result<&AnyProvider, ProjectError>)
    ensures
        match r {
            Ok(p) => exists|i: int|
                0 <= i < providers@.len() && providers@[i] == *p && p.kind() == kind
                && forall|j: int| 0 <= j < i ==> (#[trigger] providers@[j]).kind() != kind,
            Err(e) => e == ProjectError::NoProviderFound
                && forall|j: int| 0 <= j < providers@.len() ==> (#[trigger] providers@[j]).kind() != kind,
        },
{
    let mut i: usize = 0;
    while i < providers.len()
        invariant
            i <= providers@.len(),
            forall|j: int| 0 <= j < i ==> (#[trigger] providers@[j]).kind() != kind,
        decreases providers@.len() - i,
    {
        if providers[i].get_type() == kind {
            return Ok(&providers[i]);
        }
        i = i + 1;
    }
    Err(ProjectError::NoProviderFound)
}

} // verus!
