//! Weather: what is asked of the service and the messages that show its
//! answer. Temperatures and wind speeds come as text: the numbers that the
//! service gives are written out before they get here.

use vstd::prelude::*;
use crate::cursor::{ArgumentCursor, CursorModel};
use crate::embed::{Embed, EmbedModel, FieldModel, MAIN_COLOUR};
use crate::report::{handler_failure, Failure};
use crate::text::{
    ascii_upper, chars_of, owned, push_all, push_str, signed_decimal, signed_decimal_of, slice_of,
    spells, string_of, text_of, to_ascii_upper,
};
use crate::timefmt::{format_timestamp, local_time_text};

verus! {

/// One kind of weather.
#[derive(Debug)]
pub struct Weather {
    pub id: i32,
    pub main: String,
    pub description: String,
    pub icon: String,
}

/// The weather now.
#[derive(Debug)]
pub struct CurrentWeather {
    pub dt: i64,
    pub sunrise: i64,
    pub sunset: i64,
    /// The temperature in degrees, rounded to a whole number.
    pub temp: String,
    /// The temperature as it is felt, rounded to a whole number.
    pub feels_like: String,
    pub pressure: i32,
    pub humidity: i32,
    pub clouds: i32,
    pub visibility: Option<i32>,
    pub wind_speed: String,
    pub wind_deg: i32,
    pub weather: Vec<Weather>,
}

/// The weather of a day.
#[derive(Debug)]
pub struct DailyWeather {
    pub dt: i64,
    /// The temperature by day, rounded to a whole number.
    pub temp_day: String,
    pub pressure: i32,
    pub humidity: i32,
    pub wind_speed: String,
    pub wind_deg: i32,
    pub weather: Vec<Weather>,
}

/// What the service says of the weather at a place.
#[derive(Debug)]
pub struct WeatherQueryResponse {
    pub timezone_offset: i32,
    pub current: CurrentWeather,
    pub daily: Vec<DailyWeather>,
}

/// The address of the picture for the weather with the code `code`.
pub open spec fn image_url_text(code: Seq<char>) -> Seq<char> {
    "http://openweathermap.org/img/wn/"@ + code + "@2x.png"@
}

/// The address of the picture for the weather with the code `code`.
pub fn get_weather_image_url(code: &String) -> (url: String)
    ensures
        url@ == image_url_text(code@),
{
    let mut out: Vec<char> = Vec::new();
    push_str(&mut out, "http://openweathermap.org/img/wn/");
    push_str(&mut out, code.as_str());
    push_str(&mut out, "@2x.png");
    string_of(&out)
}

/// The sign for the weather with the code `code`: the sun for a code that
/// is not known.
pub open spec fn emoji_text(code: Seq<char>) -> Seq<char> {
    if code == "01d"@ {
        "☀️"@
    } else if code == "01n"@ {
        "🌕"@
    } else if code == "02d"@ || code == "02n"@ {
        "⛅"@
    } else if code == "03d"@ || code == "03n"@ || code == "04d"@ || code == "04n"@ {
        "☁️"@
    } else if code == "09d"@ || code == "09n"@ || code == "10d"@ || code == "10n"@ {
        "🌧️"@
    } else if code == "11d"@ || code == "11n"@ {
        "🌩️"@
    } else if code == "13d"@ || code == "13n"@ {
        "❄️"@
    } else if code == "50d"@ || code == "50n"@ {
        "🌫️"@
    } else {
        "☀️"@
    }
}

/// The sign for the weather with the code `code`.
pub fn get_weather_emoji(code: &String) -> (sign: String)
    ensures
        sign@ == emoji_text(code@),
{
    let c = chars_of(code.as_str());
    let sign = if spells(&c, "01d") {
        "☀️"
    } else if spells(&c, "01n") {
        "🌕"
    } else if spells(&c, "02d") || spells(&c, "02n") {
        "⛅"
    } else if spells(&c, "03d") || spells(&c, "03n") || spells(&c, "04d") || spells(&c, "04n") {
        "☁️"
    } else if spells(&c, "09d") || spells(&c, "09n") || spells(&c, "10d") || spells(&c, "10n") {
        "🌧️"
    } else if spells(&c, "11d") || spells(&c, "11n") {
        "🌩️"
    } else if spells(&c, "13d") || spells(&c, "13n") {
        "❄️"
    } else if spells(&c, "50d") || spells(&c, "50n") {
        "🌫️"
    } else {
        "☀️"
    };
    string_of(&chars_of(sign))
}

/// Whether `s` has a first character that stands in one byte: only then can
/// the first character be taken off by its byte.
pub open spec fn has_ascii_head(s: Seq<char>) -> bool {
    s.len() > 0 && (s[0] as u32) < 128
}

/// `s` with its first character made a capital.
pub open spec fn capitalised(s: Seq<char>) -> Seq<char> {
    seq![ascii_upper(s[0])] + s.subrange(1, s.len() as int)
}

/// `s` with its first letter made a capital.
pub fn uppercase_first(s: &str) -> (r: String)
    requires
        has_ascii_head(s@),
    ensures
        r@ == capitalised(s@),
{
    let chars = chars_of(s);
    let mut out: Vec<char> = Vec::new();
    out.push(to_ascii_upper(chars[0]));
    let rest = slice_of(&chars, 1, chars.len());
    push_all(&mut out, &rest);
    string_of(&out)
}

/// `s` with its first letter made a capital, where `s` has a first
/// character that stands in one byte.
pub fn try_uppercase_first(s: &str) -> (r: Option<String>)
    ensures
        match r {
            Some(text) => has_ascii_head(s@) && text@ == capitalised(s@),
            None => !has_ascii_head(s@),
        },
{
    let chars = chars_of(s);
    if chars.len() > 0 && (chars[0] as u32) < 128 {
        Some(uppercase_first(s))
    } else {
        None
    }
}

/// The quarter of the sky from which a wind of `degrees` degrees blows.
pub open spec fn direction_text(degrees: int) -> Seq<char> {
    if degrees <= 45 || degrees > 315 {
        "North"@
    } else if degrees <= 135 {
        "East"@
    } else if degrees <= 225 {
        "South"@
    } else {
        "West"@
    }
}

/// The quarter of the sky from which a wind of `degrees` degrees blows.
pub fn format_direction(degrees: i32) -> (r: String)
    ensures
        r@ == direction_text(degrees as int),
{
    let name = if degrees <= 45 || degrees > 315 {
        "North"
    } else if degrees <= 135 {
        "East"
    } else if degrees <= 225 {
        "South"
    } else {
        "West"
    };
    string_of(&chars_of(name))
}

/// The place that is asked for: the arguments as they stand, without the
/// white space around them. Without arguments there is no place.
pub open spec fn planned(c: CursorModel) -> Result<Seq<char>, Seq<char>> {
    if c.rest().len() == 0 {
        Err("Please supply a valid city name as argument"@)
    } else {
        Ok(c.rest())
    }
}

/// Reads from the arguments the place that is asked for.
pub fn plan(args: &ArgumentCursor) -> (r: Result<String, Failure>)
    requires
        args.wf(),
    ensures
        match planned(args@) {
            Ok(place) => r matches Ok(found) && found@ == place,
            Err(text) => r matches Err(failure) && failure.is_handler(text),
        },
{
    let place = args.rest();
    let chars = chars_of(place.as_str());
    if chars.len() == 0 {
        Err(handler_failure("Please supply a valid city name as argument"))
    } else {
        Ok(place)
    }
}

/// The failure for a bot that was given no key to the service.
pub fn missing_key() -> (f: Failure)
    ensures
        f.is_handler("The bot owner didn't provide the OpenWeatherMap api key"@),
{
    handler_failure("The bot owner didn't provide the OpenWeatherMap api key")
}

/// The failure for an answer of the service that cannot be read.
pub fn unreadable_response() -> (f: Failure)
    ensures
        f.is_handler("There was an error parsing the weather api response"@),
{
    handler_failure("There was an error parsing the weather api response")
}

/// The names and values of a query.
pub open spec fn query_text(query: Seq<(String, String)>) -> Seq<(Seq<char>, Seq<char>)> {
    query.map_values(|p: (String, String)| (p.0@, p.1@))
}

/// The query that asks where `place` lies.
pub fn location_query(key: &str, place: &str) -> (query: Vec<(String, String)>)
    ensures
        query_text(query@) == seq![("appid"@, key@), ("q"@, place@)],
{
    let mut query: Vec<(String, String)> = Vec::new();
    query.push((owned("appid"), owned(key)));
    query.push((owned("q"), owned(place)));
    query
}

/// The query that asks for the weather at the latitude `lat` and the
/// longitude `lon`, in metric units.
pub fn forecast_query(key: &str, lat: &str, lon: &str) -> (query: Vec<(String, String)>)
    ensures
        query_text(query@) == seq![
            ("appid"@, key@),
            ("lat"@, lat@),
            ("lon"@, lon@),
            ("units"@, "metric"@),
        ],
{
    let mut query: Vec<(String, String)> = Vec::new();
    query.push((owned("appid"), owned(key)));
    query.push((owned("lat"), owned(lat)));
    query.push((owned("lon"), owned(lon)));
    query.push((owned("units"), owned("metric")));
    assert(query_text(query@) =~= seq![
        ("appid"@, key@),
        ("lat"@, lat@),
        ("lon"@, lon@),
        ("units"@, "metric"@),
    ]);
    query
}

/// Whether a list of kinds of weather has a first one whose description can
/// be shown with a capital.
pub open spec fn showable(kinds: Seq<Weather>) -> bool {
    kinds.len() > 0 && has_ascii_head(kinds[0].description@)
}

/// The sign and the description of a kind of weather, up to the number of
/// the temperature.
pub open spec fn headline_text(kind: Weather) -> Seq<char> {
    emoji_text(kind.icon@) + " **"@ + capitalised(kind.description@) + "** \n**Temp**: "@
}

/// The weather now in a line: the sign, the description and the temperatures.
pub open spec fn description_text(kind: Weather, temp: Seq<char>, feels_like: Seq<char>) -> Seq<char> {
    headline_text(kind) + temp + "°C (Feels like "@ + feels_like + "°C)"@
}

/// Clouds, humidity and pressure, a line each.
pub open spec fn conditions_text(clouds: int, humidity: int, pressure: int) -> Seq<char> {
    "**Clouds**: "@ + signed_decimal(clouds) + "% \n**Humidity**: "@ + signed_decimal(humidity)
        + "% \n**Pressure**: "@ + signed_decimal(pressure) + " hpa"@
}

/// The speed of the wind and where it blows from.
pub open spec fn wind_text(speed: Seq<char>, degrees: int) -> Seq<char> {
    "**Speed**: "@ + speed + "\n**Direction**: "@ + signed_decimal(degrees) + "° ("@
        + direction_text(degrees) + ")"@
}

/// Sunrise, sunset and the time at the place, a line each.
pub open spec fn location_text(sunrise: Seq<char>, sunset: Seq<char>, now: Seq<char>) -> Seq<char> {
    "**Sunrise**: "@ + sunrise + "\n**Sunset**: "@ + sunset + "\n**Local Time**: "@ + now
}

/// The weather of a day: the sign, the description, the temperature and the humidity.
pub open spec fn day_text(kind: Weather, temp: Seq<char>, humidity: int) -> Seq<char> {
    headline_text(kind) + temp + "°C\n**Humidity**: "@ + signed_decimal(humidity) + "%"@
}

fn headline(kind: &Weather) -> (out: Vec<char>)
    requires
        has_ascii_head(kind.description@),
    ensures
        out@ == headline_text(*kind),
{
    let mut out: Vec<char> = Vec::new();
    let sign = get_weather_emoji(&kind.icon);
    push_str(&mut out, sign.as_str());
    push_str(&mut out, " **");
    let description = uppercase_first(kind.description.as_str());
    push_str(&mut out, description.as_str());
    push_str(&mut out, "** \n**Temp**: ");
    out
}

/// The message that shows the weather now at `place`, where `sunrise`,
/// `sunset` and `now` are these times written out; nothing where one of
/// them is missing or the answer names no weather that can be shown.
pub open spec fn current_model(
    place: Seq<char>,
    answer: WeatherQueryResponse,
    sunrise: Option<Seq<char>>,
    sunset: Option<Seq<char>>,
    now: Option<Seq<char>>,
) -> Option<EmbedModel> {
    let current = answer.current;
    if showable(current.weather@) && sunrise is Some && sunset is Some && now is Some {
        Some(
            EmbedModel {
                colour: Some(MAIN_COLOUR),
                title: Some("Weather in "@ + place),
                thumbnail: Some(image_url_text(current.weather[0].icon@)),
                description: Some(
                    description_text(current.weather[0], current.temp@, current.feels_like@),
                ),
                fields: seq![
                    FieldModel {
                        name: "Weather"@,
                        value: conditions_text(
                            current.clouds as int,
                            current.humidity as int,
                            current.pressure as int,
                        ),
                        inline: true,
                    },
                    FieldModel {
                        name: "Wind"@,
                        value: wind_text(current.wind_speed@, current.wind_deg as int),
                        inline: true,
                    },
                    FieldModel {
                        name: "Location"@,
                        value: location_text(sunrise->0, sunset->0, now->0),
                        inline: false,
                    },
                ],
                ..EmbedModel::blank()
            },
        )
    } else {
        None
    }
}

/// The message that shows the weather now at `place`, with the times given
/// as text.
pub fn current_embed_with(
    place: &str,
    answer: &WeatherQueryResponse,
    sunrise: &Option<String>,
    sunset: &Option<String>,
    now: &Option<String>,
) -> (r: Option<Embed>)
    ensures
        match current_model(
            place@,
            *answer,
            text_of(*sunrise),
            text_of(*sunset),
            text_of(*now),
        ) {
            Some(model) => r matches Some(e) && e@ == model,
            None => r is None,
        },
{
    let current = &answer.current;
    if current.weather.len() == 0 {
        return None;
    }
    let kind = &current.weather[0];
    let head = chars_of(kind.description.as_str());
    if head.len() == 0 || (head[0] as u32) >= 128 {
        return None;
    }
    let (sunrise, sunset, now) = match (sunrise, sunset, now) {
        (Some(a), Some(b), Some(c)) => (a, b, c),
        _ => {
            return None;
        },
    };
    let mut title: Vec<char> = Vec::new();
    push_str(&mut title, "Weather in ");
    push_str(&mut title, place);

    let mut description = headline(kind);
    push_str(&mut description, current.temp.as_str());
    push_str(&mut description, "°C (Feels like ");
    push_str(&mut description, current.feels_like.as_str());
    push_str(&mut description, "°C)");

    let mut conditions: Vec<char> = Vec::new();
    push_str(&mut conditions, "**Clouds**: ");
    push_all(&mut conditions, &signed_decimal_of(current.clouds as i64));
    push_str(&mut conditions, "% \n**Humidity**: ");
    push_all(&mut conditions, &signed_decimal_of(current.humidity as i64));
    push_str(&mut conditions, "% \n**Pressure**: ");
    push_all(&mut conditions, &signed_decimal_of(current.pressure as i64));
    push_str(&mut conditions, " hpa");

    let mut wind: Vec<char> = Vec::new();
    push_str(&mut wind, "**Speed**: ");
    push_str(&mut wind, current.wind_speed.as_str());
    push_str(&mut wind, "\n**Direction**: ");
    push_all(&mut wind, &signed_decimal_of(current.wind_deg as i64));
    push_str(&mut wind, "° (");
    let direction = format_direction(current.wind_deg);
    push_str(&mut wind, direction.as_str());
    push_str(&mut wind, ")");

    let mut location: Vec<char> = Vec::new();
    push_str(&mut location, "**Sunrise**: ");
    push_str(&mut location, sunrise.as_str());
    push_str(&mut location, "\n**Sunset**: ");
    push_str(&mut location, sunset.as_str());
    push_str(&mut location, "\n**Local Time**: ");
    push_str(&mut location, now.as_str());

    let mut e = Embed::new();
    e.colour = Some(MAIN_COLOUR);
    e.title = Some(string_of(&title));
    e.thumbnail = Some(get_weather_image_url(&kind.icon));
    e.description = Some(string_of(&description));
    e.field(owned("Weather"), string_of(&conditions), true);
    e.field(owned("Wind"), string_of(&wind), true);
    e.field(owned("Location"), string_of(&location), false);
    proof {
        let model = current_model(
            place@,
            *answer,
            Some(sunrise@),
            Some(sunset@),
            Some(now@),
        )->0;
        assert(e@.fields =~= model.fields);
    }
    Some(e)
}

/// The message that shows the weather now at `place`. The times are those
/// of the answer, seen at the place: sunrise and sunset by hour and minute,
/// the time at the place with the date behind it.
pub fn current_embed(place: &str, answer: &WeatherQueryResponse) -> (r: Option<Embed>)
    ensures
        match current_model(
            place@,
            *answer,
            local_time_text(
                answer.current.sunrise as int,
                answer.timezone_offset as int,
                "%H:%M"@,
            ),
            local_time_text(answer.current.sunset as int, answer.timezone_offset as int, "%H:%M"@),
            local_time_text(
                answer.current.dt as int,
                answer.timezone_offset as int,
                "%H:%M, %b %e %Y"@,
            ),
        ) {
            Some(model) => r matches Some(e) && e@ == model,
            None => r is None,
        },
{
    let sunrise = format_timestamp(answer.current.sunrise, answer.timezone_offset, "%H:%M");
    let sunset = format_timestamp(answer.current.sunset, answer.timezone_offset, "%H:%M");
    let now = format_timestamp(answer.current.dt, answer.timezone_offset, "%H:%M, %b %e %Y");
    current_embed_with(place, answer, &sunrise, &sunset, &now)
}

/// The part of the forecast for one day, under the date `date`.
pub open spec fn day_field(day: DailyWeather, date: Option<Seq<char>>) -> Option<FieldModel> {
    if showable(day.weather@) && date is Some {
        Some(
            FieldModel {
                name: date->0,
                value: day_text(day.weather[0], day.temp_day@, day.humidity as int),
                inline: true,
            },
        )
    } else {
        None
    }
}

/// The parts of the forecast for `days`, under the dates `dates`; nothing
/// where a day has no part.
pub open spec fn day_fields(days: Seq<DailyWeather>, dates: Seq<Option<Seq<char>>>) -> Option<
    Seq<FieldModel>,
>
    decreases days.len(),
{
    if days.len() == 0 {
        Some(Seq::empty())
    } else {
        match (day_fields(days.drop_last(), dates.drop_last()), day_field(days.last(), dates.last())) {
            (Some(front), Some(last)) => Some(front.push(last)),
            _ => None,
        }
    }
}

/// The message that shows the forecast for `place`: a part for each day of
/// the answer but the first, which is today, where `dates` holds the dates
/// of these days written out. Nothing where the answer holds no day, where
/// the dates are not as many as the days, or where a day has no part.
pub open spec fn forecast_model(
    place: Seq<char>,
    answer: WeatherQueryResponse,
    dates: Seq<Option<Seq<char>>>,
) -> Option<EmbedModel> {
    if answer.daily.len() == 0 || dates.len() + 1 != answer.daily.len() {
        None
    } else {
        match day_fields(answer.daily@.drop_first(), dates) {
            Some(fields) => Some(
                EmbedModel {
                    colour: Some(MAIN_COLOUR),
                    title: Some("Forecast for "@ + place),
                    fields,
                    ..EmbedModel::blank()
                },
            ),
            None => None,
        }
    }
}

/// A part missing among the first `k` days is missing in the whole.
pub proof fn lemma_day_fields_none(
    days: Seq<DailyWeather>,
    dates: Seq<Option<Seq<char>>>,
    k: int,
)
    requires
        0 <= k <= days.len() == dates.len(),
        day_fields(days.take(k), dates.take(k)) is None,
    ensures
        day_fields(days, dates) is None,
    decreases days.len(),
{
    if k < days.len() {
        assert(days.drop_last().take(k) == days.take(k));
        assert(dates.drop_last().take(k) == dates.take(k));
        lemma_day_fields_none(days.drop_last(), dates.drop_last(), k);
    } else {
        assert(days.take(k) == days);
        assert(dates.take(k) == dates);
    }
}

/// The dates of a list, as text.
pub open spec fn dates_text(dates: Seq<Option<String>>) -> Seq<Option<Seq<char>>> {
    dates.map_values(|d: Option<String>| text_of(d))
}

/// The message that shows the forecast for `place`, with the dates of the
/// days behind the first given as text.
#[verifier::loop_isolation(false)]
pub fn forecast_embed_with(
    place: &str,
    answer: &WeatherQueryResponse,
    dates: &Vec<Option<String>>,
) -> (r: Option<Embed>)
    ensures
        match forecast_model(place@, *answer, dates_text(dates@)) {
            Some(model) => r matches Some(e) && e@ == model,
            None => r is None,
        },
{
    let count = answer.daily.len();
    if count == 0 || dates.len() != count - 1 {
        return None;
    }
    let ghost days = answer.daily@.drop_first();
    let ghost written = dates_text(dates@);
    let mut title: Vec<char> = Vec::new();
    push_str(&mut title, "Forecast for ");
    push_str(&mut title, place);
    let mut e = Embed::new();
    e.colour = Some(MAIN_COLOUR);
    e.title = Some(string_of(&title));
    let ghost base = e@;
    let mut i: usize = 1;
    while i < count
        invariant
            1 <= i <= count,
            base.fields == Seq::<FieldModel>::empty(),
            e@ == (EmbedModel { fields: e@.fields, ..base }),
            day_fields(days.take(i - 1), written.take(i - 1)) == Some(e@.fields),
        decreases count - i,
    {
        let day = &answer.daily[i];
        proof {
            let next_days = days.take(i as int);
            let next_dates = written.take(i as int);
            assert(next_days.drop_last() == days.take(i - 1));
            assert(next_dates.drop_last() == written.take(i - 1));
        }
        let shown = if day.weather.len() > 0 {
            let head = chars_of(day.weather[0].description.as_str());
            head.len() > 0 && (head[0] as u32) < 128
        } else {
            false
        };
        let date = match &dates[i - 1] {
            Some(date) => {
                if shown {
                    date
                } else {
                    proof {
                        lemma_day_fields_none(days, written, i as int);
                    }
                    return None;
                }
            },
            None => {
                proof {
                    lemma_day_fields_none(days, written, i as int);
                }
                return None;
            },
        };
        let mut value = headline(&day.weather[0]);
        push_str(&mut value, day.temp_day.as_str());
        push_str(&mut value, "°C\n**Humidity**: ");
        push_all(&mut value, &signed_decimal_of(day.humidity as i64));
        push_str(&mut value, "%");
        e.field(owned(date.as_str()), string_of(&value), true);
        i += 1;
    }
    proof {
        assert(days.take(count - 1) == days);
        assert(written.take(count - 1) == written);
    }
    Some(e)
}

/// The dates of the days behind the first, each as the place sees it: the
/// day of the month, the month and the year.
pub open spec fn forecast_dates(answer: WeatherQueryResponse) -> Seq<Option<Seq<char>>> {
    Seq::new(
        (answer.daily.len() - 1) as nat,
        |i: int|
            local_time_text(
                answer.daily[i + 1].dt as int,
                answer.timezone_offset as int,
                "%e %b %Y"@,
            ),
    )
}

/// The message that shows the forecast for `place`.
pub fn forecast_embed(place: &str, answer: &WeatherQueryResponse) -> (r: Option<Embed>)
    ensures
        match forecast_model(place@, *answer, forecast_dates(*answer)) {
            Some(model) => r matches Some(e) && e@ == model,
            None => r is None,
        },
{
    let mut dates: Vec<Option<String>> = Vec::new();
    let mut i: usize = 1;
    while i < answer.daily.len()
        invariant
            1 <= i,
            dates.len() == i - 1,
            i <= answer.daily.len() || answer.daily.len() == 0,
            forall|k: int|
                0 <= k < dates.len() ==> text_of(#[trigger] dates[k])
                    == local_time_text(
                    answer.daily[k + 1].dt as int,
                    answer.timezone_offset as int,
                    "%e %b %Y"@,
                ),
        decreases answer.daily.len() - i,
    {
        let date = format_timestamp(answer.daily[i].dt, answer.timezone_offset, "%e %b %Y");
        dates.push(date);
        i += 1;
    }
    proof {
        if answer.daily.len() > 0 {
            assert(dates_text(dates@) =~= forecast_dates(*answer));
        }
    }
    forecast_embed_with(place, answer, &dates)
}

} // verus!
