//! Turning a weather report into the lines shown to the user.
use vstd::prelude::*;
use vstd::string::*;
use crate::structures::WeatherApiResponse;

verus! {

/// The decimal digits of `n`, most significant first.
pub open spec fn decimal(n: nat) -> Seq<char>
    decreases n,
{
    let digits = seq!['0', '1', '2', '3', '4', '5', '6', '7', '8', '9'];
    if n < 10 {
        seq![digits[n as int]]
    } else {
        decimal(n / 10).push(digits[(n % 10) as int])
    }
}

/// The digit `d` as text.
fn digit_text(d: u64) -> (r: &'static str)
    requires
        d < 10,
    ensures
        r@ == seq![seq!['0', '1', '2', '3', '4', '5', '6', '7', '8', '9'][d as int]],
{
    proof {
        reveal_strlit("0");
        reveal_strlit("1");
        reveal_strlit("2");
        reveal_strlit("3");
        reveal_strlit("4");
        reveal_strlit("5");
        reveal_strlit("6");
        reveal_strlit("7");
        reveal_strlit("8");
        reveal_strlit("9");
    }
    let r = match d {
        0 => "0",
        1 => "1",
        2 => "2",
        3 => "3",
        4 => "4",
        5 => "5",
        6 => "6",
        7 => "7",
        8 => "8",
        _ => "9",
    };
    assert(r@ =~= seq![seq!['0', '1', '2', '3', '4', '5', '6', '7', '8', '9'][d as int]]);
    r
}

/// The decimal digits of `n`.
fn decimal_text(n: u64) -> (r: String)
    ensures
        r@ == decimal(n as nat),
    decreases n,
{
    if n < 10 {
        String::from_str(digit_text(n))
    } else {
        let mut s = decimal_text(n / 10);
        s.append(digit_text(n % 10));
        assert(s@ =~= decimal(n as nat));
        s
    }
}

/// The `Display` text of chrono's `NaiveDateTime` for a Unix time in
/// seconds, when chrono can represent it.
pub uninterp spec fn utc_datetime_text(secs: i64) -> Option<Seq<char>>;

/// Relies on chrono's `DateTime::from_timestamp` (none when out of range)
/// and the `Display` of `NaiveDateTime`.
#[verifier::external_body]
fn datetime_text(secs: i64) -> (r: Option<String>)
    ensures
        match r {
            Some(t) => utc_datetime_text(secs) == Some(t@),
            None => utc_datetime_text(secs) is None,
        },
{
    chrono::DateTime::from_timestamp(secs, 0).map(|d| d.naive_utc().to_string())
}

/// How a Unix time is shown: as a UTC date and time, or, past the range
/// of dates that can be shown, as its number of seconds.
pub open spec fn moment_text(secs: u64) -> Seq<char> {
    match utc_datetime_text(secs as i64) {
        Some(t) => t,
        None => decimal(secs as nat),
    }
}

pub open spec fn line_if(present: bool, label: Seq<char>, value: Seq<char>, unit: Seq<char>) -> Seq<char> {
    if present {
        label + value + unit
    } else {
        Seq::<char>::empty()
    }
}

/// The text of a report: one line for each field that is present, in a fixed
/// order. The temperatures are shown by the texts given for them.
pub open spec fn report_text(r: WeatherApiResponse, temp: Seq<char>, feels_like: Seq<char>) -> Seq<char> {
    line_if(r.location is Some, "Weather for Location: "@, match r.location { Some(l) => l.name@, None => Seq::<char>::empty() }, "\n"@)
    + line_if(r.sunrise is Some, "Sunrise: "@, moment_text(r.sunrise.unwrap_or(0)), "\n"@)
    + line_if(r.sunset is Some, "Sunset: "@, moment_text(r.sunset.unwrap_or(0)), "\n"@)
    + line_if(r.temp is Some, "Temperature: "@, temp, "C\n"@)
    + line_if(r.feels_like is Some, "Feels like: "@, feels_like, "C\n"@)
    + line_if(r.pressure is Some, "Pressure: "@, decimal(r.pressure.unwrap_or(0) as nat), "mb\n"@)
    + line_if(r.humidity is Some, "Humidity: "@, decimal(r.humidity.unwrap_or(0) as nat), "%\n"@)
}

fn moment(secs: u64) -> (r: String)
    ensures
        r@ == moment_text(secs),
{
    match datetime_text(secs as i64) {
        Some(t) => t,
        None => decimal_text(secs),
    }
}

fn push_line(s: &mut String, label: &str, value: &str, unit: &str)
    ensures
        final(s)@ == old(s)@ + (label@ + value@ + unit@),
{
    s.append(label);
    s.append(value);
    s.append(unit);
    assert(final(s)@ =~= old(s)@ + (label@ + value@ + unit@));
}

impl WeatherApiResponse {
    /// Renders the report. `temp_text` and `feels_like_text` are the texts of
    /// the two temperatures as single-precision numbers; they are used only
    /// when the field is present.
    pub fn to_text(&self, temp_text: &str, feels_like_text: &str) -> (r: String)
        ensures
            r@ == report_text(*self, temp_text@, feels_like_text@),
    {
        let mut s = String::new();
        if let Some(location) = &self.location {
            push_line(&mut s, "Weather for Location: ", location.name.as_str(), "\n");
        }
        if let Some(sunrise) = self.sunrise {
            let t = moment(sunrise);
            push_line(&mut s, "Sunrise: ", t.as_str(), "\n");
        }
        if let Some(sunset) = self.sunset {
            let t = moment(sunset);
            push_line(&mut s, "Sunset: ", t.as_str(), "\n");
        }
        if self.temp.is_some() {
            push_line(&mut s, "Temperature: ", temp_text, "C\n");
        }
        if self.feels_like.is_some() {
            push_line(&mut s, "Feels like: ", feels_like_text, "C\n");
        }
        if let Some(pressure) = self.pressure {
            let t = decimal_text(pressure as u64);
            push_line(&mut s, "Pressure: ", t.as_str(), "mb\n");
        }
        if let Some(humidity) = self.humidity {
            let t = decimal_text(humidity as u64);
            push_line(&mut s, "Humidity: ", t.as_str(), "%\n");
        }
        assert(s@ =~= report_text(*self, temp_text@, feels_like_text@));
        s
    }
}

/// A report with only a temperature renders as that single line; no line
/// stands for an absent field.
pub proof fn only_temperature_is_one_line(r: WeatherApiResponse, temp: Seq<char>, feels_like: Seq<char>)
    requires
        r.temp is Some,
        r.location is None,
        r.sunrise is None,
        r.sunset is None,
        r.feels_like is None,
        r.pressure is None,
        r.humidity is None,
    ensures
        report_text(r, temp, feels_like) == "Temperature: "@ + temp + "C\n"@,
{
    assert(report_text(r, temp, feels_like) =~= "Temperature: "@ + temp + "C\n"@);
}

/// Whether the field shown on line `i` of a report (in the order of
/// `report_text`) is present.
pub open spec fn field_present(r: WeatherApiResponse, i: int) -> bool {
    if i == 0 {
        r.location is Some
    } else if i == 1 {
        r.sunrise is Some
    } else if i == 2 {
        r.sunset is Some
    } else if i == 3 {
        r.temp is Some
    } else if i == 4 {
        r.feels_like is Some
    } else if i == 5 {
        r.pressure is Some
    } else {
        r.humidity is Some
    }
}

/// The label that starts line `i` of a report.
pub open spec fn field_label(i: int) -> Seq<char> {
    seq![
        "Weather for Location: "@,
        "Sunrise: "@,
        "Sunset: "@,
        "Temperature: "@,
        "Feels like: "@,
        "Pressure: "@,
        "Humidity: "@,
    ][i]
}

/// The seven parts of a report's text, one per field, each empty when its
/// field is absent.
pub open spec fn report_parts(r: WeatherApiResponse, temp: Seq<char>, feels_like: Seq<char>) -> Seq<Seq<char>> {
    seq![
        line_if(r.location is Some, "Weather for Location: "@, match r.location { Some(l) => l.name@, None => Seq::<char>::empty() }, "\n"@),
        line_if(r.sunrise is Some, "Sunrise: "@, moment_text(r.sunrise.unwrap_or(0)), "\n"@),
        line_if(r.sunset is Some, "Sunset: "@, moment_text(r.sunset.unwrap_or(0)), "\n"@),
        line_if(r.temp is Some, "Temperature: "@, temp, "C\n"@),
        line_if(r.feels_like is Some, "Feels like: "@, feels_like, "C\n"@),
        line_if(r.pressure is Some, "Pressure: "@, decimal(r.pressure.unwrap_or(0) as nat), "mb\n"@),
        line_if(r.humidity is Some, "Humidity: "@, decimal(r.humidity.unwrap_or(0) as nat), "%\n"@),
    ]
}

proof fn line_shape(present: bool, label: Seq<char>, value: Seq<char>, unit: Seq<char>)
    requires
        label.len() > 0,
        unit.len() > 0,
        unit.last() == '\n',
    ensures
        line_if(present, label, value, unit).len() > 0 <==> present,
        present ==> line_if(present, label, value, unit).subrange(0, label.len() as int) == label,
        present ==> line_if(present, label, value, unit).last() == '\n',
{
    if present {
        let l = label + value + unit;
        assert(l.subrange(0, label.len() as int) =~= label);
        assert(l.last() == unit.last());
    }
}

/// A report's text is one part per field in a fixed order: the part of a
/// present field is a line that starts with the field's label and ends with
/// a newline, the part of an absent field is empty, and a report with no
/// field present renders as the empty text.
pub proof fn one_line_per_present_field(r: WeatherApiResponse, temp: Seq<char>, feels_like: Seq<char>)
    ensures
        ({
            let p = report_parts(r, temp, feels_like);
            report_text(r, temp, feels_like) == p[0] + p[1] + p[2] + p[3] + p[4] + p[5] + p[6]
        }),
        forall|i: int| 0 <= i < 7 ==> ((#[trigger] report_parts(r, temp, feels_like)[i]).len() > 0 <==> field_present(r, i)),
        forall|i: int| 0 <= i < 7 && field_present(r, i) ==> (#[trigger] report_parts(r, temp, feels_like)[i]).subrange(
            0,
            field_label(i).len() as int,
        ) == field_label(i) && report_parts(r, temp, feels_like)[i].last() == '\n',
        (forall|i: int| 0 <= i < 7 ==> !field_present(r, i)) ==> report_text(r, temp, feels_like) == Seq::<char>::empty(),
{
    reveal_strlit("Weather for Location: ");
    reveal_strlit("Sunrise: ");
    reveal_strlit("Sunset: ");
    reveal_strlit("Temperature: ");
    reveal_strlit("Feels like: ");
    reveal_strlit("Pressure: ");
    reveal_strlit("Humidity: ");
    reveal_strlit("\n");
    reveal_strlit("C\n");
    reveal_strlit("mb\n");
    reveal_strlit("%\n");
    let p = report_parts(r, temp, feels_like);
    line_shape(r.location is Some, "Weather for Location: "@, match r.location { Some(l) => l.name@, None => Seq::<char>::empty() }, "\n"@);
    line_shape(r.sunrise is Some, "Sunrise: "@, moment_text(r.sunrise.unwrap_or(0)), "\n"@);
    line_shape(r.sunset is Some, "Sunset: "@, moment_text(r.sunset.unwrap_or(0)), "\n"@);
    line_shape(r.temp is Some, "Temperature: "@, temp, "C\n"@);
    line_shape(r.feels_like is Some, "Feels like: "@, feels_like, "C\n"@);
    line_shape(r.pressure is Some, "Pressure: "@, decimal(r.pressure.unwrap_or(0) as nat), "mb\n"@);
    line_shape(r.humidity is Some, "Humidity: "@, decimal(r.humidity.unwrap_or(0) as nat), "%\n"@);
    assert(report_text(r, temp, feels_like) =~= p[0] + p[1] + p[2] + p[3] + p[4] + p[5] + p[6]);
    assert forall|i: int| 0 <= i < 7 implies ((#[trigger] report_parts(r, temp, feels_like)[i]).len() > 0 <==> field_present(r, i)) && (field_present(r, i) ==> report_parts(r, temp, feels_like)[i].subrange(
            0,
            field_label(i).len() as int,
        ) == field_label(i) && report_parts(r, temp, feels_like)[i].last() == '\n') by {
        if i == 0 {
        } else if i == 1 {
        } else if i == 2 {
        } else if i == 3 {
        } else if i == 4 {
        } else if i == 5 {
        } else {
        }
    }
    if forall|i: int| 0 <= i < 7 ==> !field_present(r, i) {
        assert(!field_present(r, 0) && !field_present(r, 1) && !field_present(r, 2) && !field_present(r, 3));
        assert(!field_present(r, 4) && !field_present(r, 5) && !field_present(r, 6));
        assert(report_text(r, temp, feels_like) =~= Seq::<char>::empty());
    }
}

} // verus!
