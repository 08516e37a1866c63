//! Extraction of a weather snapshot from the upstream API's JSON body.
//! The upstream reply is expected to hold a `current_weather` object with
//! `temperature`, `windspeed` and `time` members; whatever is missing or
//! malformed is replaced by its default, never surfaced as an error. The
//! numeric members are carried as their decimal texts, so the library
//! itself stays free of floating point. What the serde_json chain yields
//! for each member is a function of the body text alone, so each member
//! bears a name, and the snapshot contract is exact over those names.

use vstd::prelude::*;

verus! {

/// Whether a string is well-formed JSON, as serde_json decides it.
pub uninterp spec fn json_parses(s: Seq<char>) -> bool;

/// The decimal text of the `temperature` number under `current_weather`
/// in a body: absent when the body is no JSON, holds no `current_weather`
/// object, or holds no number under that key.
pub uninterp spec fn weather_temperature_text(body: Seq<char>) -> Option<Seq<char>>;

/// The decimal text of the `windspeed` number under `current_weather`,
/// absent on the same grounds.
pub uninterp spec fn weather_windspeed_text(body: Seq<char>) -> Option<Seq<char>>;

/// The contents of the `time` string under `current_weather`, absent when
/// the body is no JSON or no string stands under that key.
pub uninterp spec fn weather_time_text(body: Seq<char>) -> Option<Seq<char>>;

/// An optionally extracted text, read at the view level.
pub open spec fn text_view(o: Option<String>) -> Option<Seq<char>> {
    match o {
        Some(s) => Some(s@),
        None => None,
    }
}

/// Relies on serde_json::from_str for serde_json::Value, on Value::get,
/// Value::is_number, Value::as_str and on the Display form of a JSON
/// number (its decimal text): what the body yields for each snapshot
/// member is a function of the body text alone, and a body that is no
/// JSON yields none of them.
#[verifier::external_body]
fn extract_fields(body: &str) -> (r: (Option<String>, Option<String>, Option<String>))
    ensures
        text_view(r.0) == weather_temperature_text(body@),
        text_view(r.1) == weather_windspeed_text(body@),
        text_view(r.2) == weather_time_text(body@),
        !json_parses(body@) ==> r.0 is None && r.1 is None && r.2 is None,
{
    match serde_json::from_str::<serde_json::Value>(body) {
        Err(_) => (None, None, None),
        Ok(root) => match root.get("current_weather") {
            None => (None, None, None),
            Some(w) => (
                w.get("temperature").filter(|x| x.is_number()).map(|x| x.to_string()),
                w.get("windspeed").filter(|x| x.is_number()).map(|x| x.to_string()),
                w.get("time").and_then(|x| x.as_str()).map(|s| s.to_owned()),
            ),
        },
    }
}

/// The transient weather snapshot: temperature and wind speed as the
/// decimal texts of the upstream numbers, and the observation time.
pub struct WeatherSnapshot {
    pub temperature: String,
    pub windspeed: String,
    pub time: String,
}

/// The all-default snapshot served on any upstream failure.
pub open spec fn is_fallback(r: WeatherSnapshot) -> bool {
    r.temperature@ == "0"@ && r.windspeed@ == "0"@ && r.time@ == "N/A"@
}

/// Builds the snapshot from whatever fields the upstream body yielded,
/// filling each absent one with its default: zero for the numbers and
/// "N/A" for the observation time.
pub fn snapshot_from_fields(
    temperature: Option<String>,
    windspeed: Option<String>,
    time: Option<String>,
) -> (r: WeatherSnapshot)
    ensures
        r.temperature@ == (match temperature {
            Some(t) => t@,
            None => "0"@,
        }),
        r.windspeed@ == (match windspeed {
            Some(w) => w@,
            None => "0"@,
        }),
        r.time@ == (match time {
            Some(t) => t@,
            None => "N/A"@,
        }),
{
    let temperature_text: String = match temperature {
        Some(t) => t,
        None => "0".to_owned(),
    };
    let windspeed_text: String = match windspeed {
        Some(w) => w,
        None => "0".to_owned(),
    };
    let time_text: String = match time {
        Some(t) => t,
        None => "N/A".to_owned(),
    };
    WeatherSnapshot { temperature: temperature_text, windspeed: windspeed_text, time: time_text }
}

/// The snapshot every failing call degrades to.
pub fn fallback_snapshot() -> (r: WeatherSnapshot)
    ensures
        is_fallback(r),
{
    snapshot_from_fields(None, None, None)
}

/// Reads the snapshot out of an upstream response body: each member is
/// exactly what the body yields for it, its default standing in where the
/// body yields nothing; in particular a body that is no JSON at all
/// yields the all-default snapshot.
pub fn weather_from_body(body: &str) -> (r: WeatherSnapshot)
    ensures
        r.temperature@ == (match weather_temperature_text(body@) {
            Some(t) => t,
            None => "0"@,
        }),
        r.windspeed@ == (match weather_windspeed_text(body@) {
            Some(w) => w,
            None => "0"@,
        }),
        r.time@ == (match weather_time_text(body@) {
            Some(t) => t,
            None => "N/A"@,
        }),
        !json_parses(body@) ==> is_fallback(r),
{
    let (temperature, windspeed, time) = extract_fields(body);
    snapshot_from_fields(temperature, windspeed, time)
}

} // verus!
