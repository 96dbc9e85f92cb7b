//! The persisted form of the selected provider kind: a JSON string.
use vstd::prelude::*;
use vstd::string::*;
use crate::structures::{ProjectError, ProviderType};

verus! {

/// Text that JSON writes and reads as it is inside quotes: ASCII letters
/// and digits.
pub open spec fn is_plain(s: Seq<char>) -> bool {
    forall|i: int| 0 <= i < s.len() ==> {
        let c = #[trigger] s[i];
        ('a' <= c && c <= 'z') || ('A' <= c && c <= 'Z') || ('0' <= c && c <= '9')
    }
}

pub open spec fn quoted(s: Seq<char>) -> Seq<char> {
    seq!['"'] + s + seq!['"']
}

/// The string that serde_json decodes from a JSON document, when the
/// document is a single JSON string.
pub uninterp spec fn json_string_value(text: Seq<char>) -> Option<Seq<char>>;

/// Relies on serde_json::to_string on a `str`: a JSON string, where letters
/// and digits are written as they are between two quotes.
#[verifier::external_body]
fn encode_json_string(s: &str) -> (r: Option<String>)
    ensures
        is_plain(s@) ==> r is Some && r->0@ == quoted(s@),
{
    serde_json::to_string(s).ok()
}

/// Relies on serde_json::from_str into a `String`: it decodes a document
/// that is one JSON string; quotes around letters and digits give those
/// letters and digits.
#[verifier::external_body]
fn decode_json_string(text: &str) -> (r: Option<String>)
    ensures
        match r {
            Some(t) => json_string_value(text@) == Some(t@),
            None => json_string_value(text@) is None,
        },
        forall|s: Seq<char>| is_plain(s) && text@ == quoted(s) ==> r is Some && r->0@ == s,
{
    serde_json::from_str::<String>(text).ok()
}

/// The name under which a kind is persisted.
pub open spec fn config_name(k: ProviderType) -> Seq<char> {
    match k {
        ProviderType::OpenWeather => "OpenWeather"@,
        ProviderType::WeatherApi => "WeatherApi"@,
    }
}

/// The kind that a decoded persisted name stands for. A name that is not
/// recognised, or a document that holds no name, gives the default kind.
pub open spec fn kind_of_config(name: Option<Seq<char>>) -> ProviderType {
    if name == Some("WeatherApi"@) {
        ProviderType::WeatherApi
    } else {
        ProviderType::OpenWeather
    }
}

pub open spec fn opt_str_view(s: Option<&str>) -> Option<Seq<char>> {
    match s {
        Some(t) => Some(t@),
        None => None,
    }
}

/// The kind that a decoded persisted name stands for: only the name
/// `WeatherApi` selects WeatherApi; any other name, or none, gives the
/// default kind.
pub fn kind_from_config_name(name: Option<&str>) -> (r: ProviderType)
    ensures
        r == kind_of_config(opt_str_view(name)),
{
    match name {
        Some(n) => {
            if String::from_str(n) == String::from_str("WeatherApi") {
                ProviderType::WeatherApi
            } else {
                ProviderType::OpenWeather
            }
        },
        None => ProviderType::default(),
    }
}

impl ProviderType {
    /// The JSON document that persists this kind.
    pub fn to_config_text(&self) -> (r: Result<String, ProjectError>)
        ensures
            r is Ok,
            r is Ok ==> r->Ok_0@ == quoted(config_name(*self)),
    {
        let name = match self {
            ProviderType::OpenWeather => "OpenWeather",
            ProviderType::WeatherApi => "WeatherApi",
        };
        proof {
            reveal_strlit("OpenWeather");
            reveal_strlit("WeatherApi");
        }
        match encode_json_string(name) {
            Some(text) => Ok(text),
            None => Err(ProjectError::SerializationError),
        }
    }

    /// The kind persisted in a JSON document. Anything but a recognised
    /// name gives the default kind rather than an error; a document written
    /// by `to_config_text` gives back the kind it was written for.
    pub fn from_config_text(text: &str) -> (r: ProviderType)
        ensures
            r == kind_of_config(json_string_value(text@)),
            forall|k: ProviderType| text@ == quoted(#[trigger] config_name(k)) ==> r == k,
    {
        proof {
            reveal_strlit("OpenWeather");
            reveal_strlit("WeatherApi");
        }
        match decode_json_string(text) {
            Some(name) => kind_from_config_name(Some(name.as_str())),
            None => kind_from_config_name(None),
        }
    }
}

/// A persisted document that does not name a known kind loads as the
/// default kind.
pub proof fn unrecognized_config_is_default(name: Option<Seq<char>>)
    requires
        name != Some(config_name(ProviderType::OpenWeather)),
        name != Some(config_name(ProviderType::WeatherApi)),
    ensures
        kind_of_config(name) == ProviderType::OpenWeather,
{
}

} // verus!
