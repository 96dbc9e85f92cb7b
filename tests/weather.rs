use weather::json::{number_to_u16, JsonNumber, JsonValue};
use weather::providers::openweather::OpenWeather;
use weather::providers::weatherapi::WeatherApi;
use weather::providers::{find_provider, providers_from_config, AnyProvider};
use weather::structures::{EnvConfig, Location, ProjectError, ProviderType, WeatherApiResponse};
use weather::provider_serde::kind_from_config_name;
use weather::traits::{Provider, Reply, Request, Stage, Step};

fn text(s: &str) -> JsonValue {
    JsonValue::Text(s.to_string())
}

fn float(x: f64) -> JsonValue {
    JsonValue::Number(JsonNumber::Float(x.to_bits()))
}

fn uint(n: u64) -> JsonValue {
    JsonValue::Number(JsonNumber::PosInt(n))
}

fn obj(members: Vec<(&str, JsonValue)>) -> JsonValue {
    JsonValue::Object(members.into_iter().map(|(k, v)| (k.to_string(), v)).collect())
}

fn london_weatherapi(section: &str) -> JsonValue {
    obj(vec![
        (
            "location",
            obj(vec![("name", text("London")), ("lat", float(51.5)), ("lon", float(-0.1))]),
        ),
        (
            section,
            obj(vec![
                ("temp_c", float(15.0)),
                ("feelslike_c", float(14.0)),
                ("pressure_mb", float(1012.0)),
                ("humidity", uint(80)),
            ]),
        ),
    ])
}

fn london() -> Location {
    Location {
        name: "London".to_string(),
        lat: JsonNumber::Float(51.5f64.to_bits()),
        lon: JsonNumber::Float((-0.1f64).to_bits()),
    }
}

fn openweather_current(with_temp: bool) -> JsonValue {
    let mut main = vec![
        ("feels_like", float(14.0)),
        ("pressure", uint(1012)),
        ("humidity", uint(80)),
    ];
    if with_temp {
        main.push(("temp", float(15.5)));
    }
    obj(vec![
        ("main", obj(main)),
        ("sys", obj(vec![("sunrise", uint(1_600_000_000)), ("sunset", uint(1_600_040_000))])),
    ])
}

fn empty_report() -> WeatherApiResponse {
    WeatherApiResponse {
        location: None,
        sunrise: None,
        sunset: None,
        temp: None,
        feels_like: None,
        pressure: None,
        humidity: None,
    }
}

fn both_providers() -> Vec<AnyProvider> {
    let config = EnvConfig {
        config_path: None,
        open_weather_api_key: Some("ow-key".to_string()),
        weather_api_api_key: Some("wa-key".to_string()),
    };
    providers_from_config(&config).unwrap()
}

#[test]
fn test_provider_default() {
    let provider = ProviderType::default();
    assert_eq!(provider, ProviderType::OpenWeather);
}

#[test]
fn test_provider_from_string() {
    let provider = ProviderType::from_name("openweather").unwrap();
    assert_eq!(provider, ProviderType::OpenWeather);
}

#[test]
#[should_panic]
fn test_provider_from_string_panic() {
    let provider = ProviderType::from_name("unknown").expect("Unknown provider");
    assert_eq!(provider, ProviderType::OpenWeather);
}

#[test]
fn test_provider_from_string_2() {
    let provider = ProviderType::from_name("weatherapi").unwrap();
    assert_eq!(provider, ProviderType::WeatherApi);
}

#[test]
fn empty_provider_name_is_default() {
    assert_eq!(ProviderType::from_name(""), Some(ProviderType::OpenWeather));
    assert_eq!(ProviderType::from_name("OpenWeather"), None);
}

#[test]
fn unreadable_config_loads_default() {
    assert_eq!(ProviderType::from_config_text(""), ProviderType::OpenWeather);
    assert_eq!(ProviderType::from_config_text("not json"), ProviderType::OpenWeather);
    assert_eq!(ProviderType::from_config_text("\"Elsewhere\""), ProviderType::OpenWeather);
    assert_eq!(ProviderType::from_config_text("42"), ProviderType::OpenWeather);
    assert_eq!(ProviderType::from_config_text(" \"WeatherApi\" "), ProviderType::WeatherApi);
}

#[test]
fn config_text_round_trip() {
    for kind in [ProviderType::OpenWeather, ProviderType::WeatherApi] {
        let text = kind.to_config_text().unwrap();
        assert_eq!(ProviderType::from_config_text(&text), kind);
    }
    assert_eq!(ProviderType::WeatherApi.to_config_text().unwrap(), "\"WeatherApi\"");
    assert_eq!(ProviderType::OpenWeather.to_config_text().unwrap(), "\"OpenWeather\"");
}

#[test]
fn empty_geocoding_ends_with_location_not_found() {
    let provider = OpenWeather::new("key".to_string());
    let step = provider.resume(
        Stage::Locating { time: Some("2021-01-01T12:00:00Z".to_string()) },
        &Reply::Places(vec![]),
    );
    assert!(matches!(step, Step::Done(Err(ProjectError::LocationNotFound))));
    assert_eq!(provider.get_location(&vec![]).unwrap_err(), ProjectError::LocationNotFound);
}

fn paris(lat: JsonNumber) -> Location {
    Location { name: "Paris".to_string(), lat, lon: JsonNumber::PosInt(2) }
}

#[test]
fn geocoding_takes_first_place() {
    let provider = OpenWeather::new("key".to_string());
    let found = provider.get_location(&vec![paris(JsonNumber::PosInt(48)), london()]).unwrap();
    assert_eq!(found.name, "Paris");
    assert_eq!(found.lat, JsonNumber::PosInt(48));
    let step = provider.resume(Stage::Locating { time: None }, &Reply::Document(obj(vec![])));
    assert!(matches!(step, Step::Done(Err(ProjectError::ParsingError))));
}

#[test]
fn weatherapi_current_is_normalized() {
    let provider = WeatherApi::new("key".to_string());
    let report = provider.get_current_weather(&london_weatherapi("current")).unwrap();
    let location = report.location.as_ref().unwrap();
    assert_eq!(location.name, "London");
    assert_eq!(location.lat, JsonNumber::Float(51.5f64.to_bits()));
    assert_eq!(report.temp, Some(JsonNumber::Float(15.0f64.to_bits())));
    assert_eq!(report.feels_like, Some(JsonNumber::Float(14.0f64.to_bits())));
    assert_eq!(report.pressure, Some(1012));
    assert_eq!(report.humidity, Some(80));
    assert_eq!(report.sunrise, None);
    assert_eq!(report.sunset, None);
}

#[test]
fn weatherapi_historical_reads_hour() {
    let provider = WeatherApi::new("key".to_string());
    let report = provider.get_historical_weather(&london_weatherapi("hour")).unwrap();
    assert_eq!(report.pressure, Some(1012));
    assert_eq!(
        provider.get_historical_weather(&london_weatherapi("current")).unwrap_err(),
        ProjectError::ParsingError
    );
}

#[test]
fn weatherapi_pressure_is_truncated() {
    let mut resp = london_weatherapi("current");
    if let JsonValue::Object(members) = &mut resp {
        members[1].1 = obj(vec![
            ("temp_c", float(15.0)),
            ("feelslike_c", uint(14)),
            ("pressure_mb", float(1012.9)),
            ("humidity", uint(300)),
        ]);
    }
    let report = WeatherApi::new("key".to_string()).get_current_weather(&resp).unwrap();
    assert_eq!(report.pressure, Some(1012));
    assert_eq!(report.humidity, Some(44));
    assert_eq!(report.feels_like, Some(JsonNumber::PosInt(14)));
}

#[test]
fn float_truncation_to_u16() {
    assert_eq!(number_to_u16(JsonNumber::Float(1012.9f64.to_bits())), 1012);
    assert_eq!(number_to_u16(JsonNumber::Float(0.75f64.to_bits())), 0);
    assert_eq!(number_to_u16(JsonNumber::Float((-3.5f64).to_bits())), 0);
    assert_eq!(number_to_u16(JsonNumber::Float(70000.0f64.to_bits())), 65535);
    assert_eq!(number_to_u16(JsonNumber::Float(65535.99f64.to_bits())), 65535);
    assert_eq!(number_to_u16(JsonNumber::Float(f64::NAN.to_bits())), 0);
    assert_eq!(number_to_u16(JsonNumber::Float(f64::INFINITY.to_bits())), 65535);
    assert_eq!(number_to_u16(JsonNumber::PosInt(70000)), 65535);
    assert_eq!(number_to_u16(JsonNumber::PosInt(12)), 12);
    assert_eq!(number_to_u16(JsonNumber::NegInt(-12)), 0);
    for x in [0.0f64, 1.0, 2.5, 255.9, 4096.5, 32767.0, 65534.5, 65536.0, 1e300, -0.0] {
        assert_eq!(number_to_u16(JsonNumber::Float(x.to_bits())), x as u16);
    }
}

#[test]
fn openweather_missing_temp_is_parsing_error() {
    let provider = OpenWeather::new("key".to_string());
    let result = provider.get_current_weather(london(), &openweather_current(false));
    assert_eq!(result.unwrap_err(), ProjectError::ParsingError);
}

#[test]
fn openweather_current_is_normalized() {
    let provider = OpenWeather::new("key".to_string());
    let report = provider.get_current_weather(london(), &openweather_current(true)).unwrap();
    assert_eq!(report.location.unwrap().name, "London");
    assert_eq!(report.sunrise, Some(1_600_000_000));
    assert_eq!(report.sunset, Some(1_600_040_000));
    assert_eq!(report.temp, Some(JsonNumber::Float(15.5f64.to_bits())));
    assert_eq!(report.pressure, Some(1012));
    assert_eq!(report.humidity, Some(80));
}

#[test]
fn openweather_narrows_integers() {
    let resp = obj(vec![(
        "data",
        obj(vec![
            ("sunrise", uint(1)),
            ("sunset", uint(2)),
            ("temp", uint(3)),
            ("feels_like", float(4.0)),
            ("pressure", uint(70000)),
            ("humidity", uint(257)),
        ]),
    )]);
    let report = OpenWeather::new("key".to_string()).get_historical_weather(london(), &resp).unwrap();
    assert_eq!(report.pressure, Some(4464));
    assert_eq!(report.humidity, Some(1));
}

#[test]
fn openweather_lookup_steps() {
    let provider = OpenWeather::new("secret".to_string());
    match provider.begin("Paris", Some("2021-01-01T12:00:00Z")) {
        Step::Fetch { request: Request::Geocode { query, api_key }, stage } => {
            assert_eq!(query, "Paris");
            assert_eq!(api_key, "secret");
            let geo = Reply::Places(vec![paris(JsonNumber::Float(48.85f64.to_bits()))]);
            match provider.resume(stage, &geo) {
                Step::Fetch { request: Request::OpenWeatherHistory { lat, lon, dt, .. }, .. } => {
                    assert_eq!(lat, JsonNumber::Float(48.85f64.to_bits()));
                    assert_eq!(lon, JsonNumber::PosInt(2));
                    assert_eq!(dt, 1_609_502_400);
                }
                other => panic!("unexpected step {:?}", other),
            }
        }
        other => panic!("unexpected step {:?}", other),
    }
    let geo = Reply::Places(vec![paris(JsonNumber::PosInt(48))]);
    let bad_time = provider.resume(Stage::Locating { time: Some("2021-01-01T12:00:00".to_string()) }, &geo);
    assert!(matches!(bad_time, Step::Done(Err(ProjectError::Custom(_)))));
    let now = provider.resume(Stage::Locating { time: None }, &geo);
    match now {
        Step::Fetch { request: Request::OpenWeatherCurrent { .. }, stage } => {
            match provider.resume(stage, &Reply::Document(openweather_current(true))) {
                Step::Done(Ok(report)) => assert_eq!(report.location.unwrap().name, "Paris"),
                other => panic!("unexpected step {:?}", other),
            }
        }
        other => panic!("unexpected step {:?}", other),
    }
}

#[test]
fn weatherapi_lookup_steps() {
    let provider = WeatherApi::new("secret".to_string());
    match provider.begin("London", Some("2021-01-01")) {
        Step::Fetch { request: Request::WeatherApiHistory { query, time, api_key }, stage } => {
            assert_eq!((query.as_str(), time.as_str(), api_key.as_str()), ("London", "2021-01-01", "secret"));
            match provider.resume(stage, &Reply::Document(london_weatherapi("hour"))) {
                Step::Done(Ok(report)) => assert_eq!(report.humidity, Some(80)),
                other => panic!("unexpected step {:?}", other),
            }
        }
        other => panic!("unexpected step {:?}", other),
    }
    assert!(matches!(
        provider.begin("London", None),
        Step::Fetch { request: Request::WeatherApiCurrent { .. }, .. }
    ));
}

#[test]
fn dispatch_finds_weatherapi() {
    let providers = both_providers();
    let found = find_provider(&providers, ProviderType::WeatherApi).unwrap();
    assert_eq!(found.get_type(), ProviderType::WeatherApi);
    let found = find_provider(&providers, ProviderType::OpenWeather).unwrap();
    assert_eq!(found.get_type(), ProviderType::OpenWeather);
}

#[test]
fn dispatch_without_match_fails() {
    let only = vec![AnyProvider::OpenWeather(OpenWeather::new("k".to_string()))];
    assert_eq!(find_provider(&only, ProviderType::WeatherApi).err(), Some(ProjectError::NoProviderFound));
    assert_eq!(find_provider(&vec![], ProviderType::OpenWeather).err(), Some(ProjectError::NoProviderFound));
}

#[test]
fn missing_api_keys_are_reported() {
    let mut config = EnvConfig::default();
    config.weather_api_api_key = Some("w".to_string());
    assert_eq!(
        providers_from_config(&config).err(),
        Some(ProjectError::NoApiKeyForProvider("No Open Weather API Key".to_string()))
    );
    config.open_weather_api_key = Some("o".to_string());
    config.weather_api_api_key = None;
    assert_eq!(
        providers_from_config(&config).err(),
        Some(ProjectError::NoApiKeyForProvider("No Weather API API Key".to_string()))
    );
    assert_eq!(both_providers().len(), 2);
}

#[test]
fn render_only_temperature() {
    let mut report = empty_report();
    report.temp = Some(JsonNumber::Float(15.0f64.to_bits()));
    assert_eq!(report.to_text("15", "unused"), "Temperature: 15C\n");
    assert_eq!(empty_report().to_text("15", "14"), "");
}

#[test]
fn render_every_field() {
    let report = WeatherApiResponse {
        location: Some(london()),
        sunrise: Some(0),
        sunset: Some(1_609_502_400),
        temp: Some(JsonNumber::PosInt(15)),
        feels_like: Some(JsonNumber::PosInt(14)),
        pressure: Some(1012),
        humidity: Some(80),
    };
    assert_eq!(
        report.to_text("15", "14.5"),
        "Weather for Location: London\nSunrise: 1970-01-01 00:00:00\nSunset: 2021-01-01 12:00:00\n\
         Temperature: 15C\nFeels like: 14.5C\nPressure: 1012mb\nHumidity: 80%\n"
    );
}

#[test]
fn config_name_selects_kind() {
    assert_eq!(kind_from_config_name(None), ProviderType::OpenWeather);
    assert_eq!(kind_from_config_name(Some("")), ProviderType::OpenWeather);
    assert_eq!(kind_from_config_name(Some("weatherapi")), ProviderType::OpenWeather);
    assert_eq!(kind_from_config_name(Some("OpenWeather")), ProviderType::OpenWeather);
    assert_eq!(kind_from_config_name(Some("WeatherApi")), ProviderType::WeatherApi);
}

#[test]
fn render_integer_edges() {
    let mut report = empty_report();
    report.pressure = Some(0);
    report.humidity = Some(255);
    assert_eq!(report.to_text("", ""), "Pressure: 0mb\nHumidity: 255%\n");
    report.pressure = Some(65535);
    report.humidity = Some(7);
    report.sunrise = Some(u64::MAX);
    assert_eq!(report.to_text("", ""), "Sunrise: 1969-12-31 23:59:59\nPressure: 65535mb\nHumidity: 7%\n");
}
