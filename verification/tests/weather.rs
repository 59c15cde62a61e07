use miobot::commands::weather::{
    current_embed, current_embed_with, forecast_embed, forecast_embed_with, forecast_query,
    format_direction, get_weather_emoji, get_weather_image_url, location_query, missing_key, plan,
    try_uppercase_first, unreadable_response, uppercase_first, CurrentWeather, DailyWeather,
    Weather, WeatherQueryResponse,
};
use miobot::cursor::ArgumentCursor;
use miobot::embed::MAIN_COLOUR;
use miobot::report::Failure;

fn kind(description: &str, icon: &str) -> Weather {
    Weather { id: 800, main: "Clear".to_string(), description: description.to_string(), icon: icon.to_string() }
}

fn day(dt: i64, temp: &str, humidity: i32, kinds: Vec<Weather>) -> DailyWeather {
    DailyWeather {
        dt,
        temp_day: temp.to_string(),
        pressure: 1000,
        humidity,
        wind_speed: "1.5".to_string(),
        wind_deg: 10,
        weather: kinds,
    }
}

fn answer() -> WeatherQueryResponse {
    WeatherQueryResponse {
        timezone_offset: 7200,
        current: CurrentWeather {
            dt: 1_600_000_000,
            sunrise: 1_599_973_200,
            sunset: 1_600_020_000,
            temp: "21".to_string(),
            feels_like: "19".to_string(),
            pressure: 1013,
            humidity: 40,
            clouds: 75,
            visibility: Some(10000),
            wind_speed: "3.6".to_string(),
            wind_deg: 200,
            weather: vec![kind("broken clouds", "04d")],
        },
        daily: vec![
            day(1_600_000_000, "20", 50, vec![kind("clear sky", "01d")]),
            day(1_600_086_400, "18", 61, vec![kind("light rain", "10d")]),
            day(1_600_172_800, "-2", 70, vec![kind("snow", "13n")]),
        ],
    }
}

fn times_of(offset: i32) -> Option<String> {
    let mut a = answer();
    a.timezone_offset = offset;
    current_embed("X", &a).map(|e| e.fields[2].value.clone())
}

#[test]
fn times_are_written_in_the_zone_of_the_place() {
    assert_eq!(
        times_of(0),
        Some("**Sunrise**: 05:00\n**Sunset**: 18:00\n**Local Time**: 12:26, Sep 13 2020".to_string())
    );
    assert_eq!(
        times_of(-3600 * 13),
        Some("**Sunrise**: 16:00\n**Sunset**: 05:00\n**Local Time**: 23:26, Sep 12 2020".to_string())
    );
    assert_eq!(times_of(86_400), None);
    assert_eq!(times_of(-86_400), None);
    assert!(times_of(86_399).is_some());
    let mut late = answer();
    late.current.dt = i64::MAX;
    assert!(current_embed("X", &late).is_none());
    let mut early = answer();
    early.daily[1].dt = 0;
    early.timezone_offset = 0;
    assert_eq!(forecast_embed("X", &early).unwrap().fields[0].name, " 1 Jan 1970");
}

#[test]
fn pictures_and_signs() {
    assert_eq!(
        get_weather_image_url(&"10d".to_string()),
        "http://openweathermap.org/img/wn/10d@2x.png"
    );
    let sign = |c: &str| get_weather_emoji(&c.to_string());
    assert_eq!(sign("01d"), "☀️");
    assert_eq!(sign("01n"), "🌕");
    assert_eq!(sign("02d"), "⛅");
    assert_eq!(sign("02n"), "⛅");
    assert_eq!(sign("03d"), "☁️");
    assert_eq!(sign("04n"), "☁️");
    assert_eq!(sign("09d"), "🌧️");
    assert_eq!(sign("10n"), "🌧️");
    assert_eq!(sign("11d"), "🌩️");
    assert_eq!(sign("13n"), "❄️");
    assert_eq!(sign("50d"), "🌫️");
    assert_eq!(sign("99x"), "☀️");
    assert_eq!(sign(""), "☀️");
}

#[test]
fn first_letter_becomes_a_capital() {
    assert_eq!(uppercase_first("broken clouds"), "Broken clouds");
    assert_eq!(uppercase_first("Rain"), "Rain");
    assert_eq!(uppercase_first("x"), "X");
    assert_eq!(uppercase_first("1st"), "1st");
    assert_eq!(try_uppercase_first("snow"), Some("Snow".to_string()));
    assert_eq!(try_uppercase_first(""), None);
    assert_eq!(try_uppercase_first("überall"), None);
}

#[test]
fn directions() {
    let d = |x: i32| format_direction(x);
    assert_eq!(d(0), "North");
    assert_eq!(d(45), "North");
    assert_eq!(d(46), "East");
    assert_eq!(d(135), "East");
    assert_eq!(d(136), "South");
    assert_eq!(d(225), "South");
    assert_eq!(d(226), "West");
    assert_eq!(d(315), "West");
    assert_eq!(d(316), "North");
    assert_eq!(d(360), "North");
    assert_eq!(d(-90), "North");
    assert_eq!(d(i32::MAX), "North");
}

#[test]
fn place_is_the_rest_of_the_arguments() {
    assert_eq!(plan(&ArgumentCursor::new("  New   York ")).unwrap(), "New   York");
    for text in ["", "   "] {
        match plan(&ArgumentCursor::new(text)).unwrap_err() {
            Failure::Handler { message } => {
                assert_eq!(message, "Please supply a valid city name as argument")
            }
            other => panic!("unexpected: {:?}", other),
        }
    }
    assert!(matches!(missing_key(), Failure::Handler { message } if message == "The bot owner didn't provide the OpenWeatherMap api key"));
    assert!(matches!(unreadable_response(), Failure::Handler { message } if message == "There was an error parsing the weather api response"));
}

#[test]
fn queries() {
    let pair = |a: &str, b: &str| (a.to_string(), b.to_string());
    assert_eq!(location_query("k", "Sri Lanka"), vec![pair("appid", "k"), pair("q", "Sri Lanka")]);
    assert_eq!(
        forecast_query("k", "52.5", "13.4"),
        vec![pair("appid", "k"), pair("lat", "52.5"), pair("lon", "13.4"), pair("units", "metric")]
    );
}

#[test]
fn weather_now() {
    let e = current_embed("Berlin", &answer()).unwrap();
    assert_eq!(e.colour, Some(MAIN_COLOUR));
    assert_eq!(e.title.as_deref(), Some("Weather in Berlin"));
    assert_eq!(e.thumbnail.as_deref(), Some("http://openweathermap.org/img/wn/04d@2x.png"));
    assert_eq!(
        e.description.as_deref(),
        Some("☁️ **Broken clouds** \n**Temp**: 21°C (Feels like 19°C)")
    );
    assert_eq!(e.fields.len(), 3);
    assert_eq!(e.fields[0].name, "Weather");
    assert_eq!(e.fields[0].value, "**Clouds**: 75% \n**Humidity**: 40% \n**Pressure**: 1013 hpa");
    assert!(e.fields[0].inline);
    assert_eq!(e.fields[1].name, "Wind");
    assert_eq!(e.fields[1].value, "**Speed**: 3.6\n**Direction**: 200° (South)");
    assert!(e.fields[1].inline);
    assert_eq!(e.fields[2].name, "Location");
    assert_eq!(
        e.fields[2].value,
        "**Sunrise**: 07:00\n**Sunset**: 20:00\n**Local Time**: 14:26, Sep 13 2020"
    );
    assert!(!e.fields[2].inline);
}

#[test]
fn weather_now_needs_all_its_parts() {
    let some = |s: &str| Some(s.to_string());
    let a = answer();
    assert!(current_embed_with("B", &a, &some("1"), &some("2"), &some("3")).is_some());
    assert!(current_embed_with("B", &a, &None, &some("2"), &some("3")).is_none());
    assert!(current_embed_with("B", &a, &some("1"), &None, &some("3")).is_none());
    assert!(current_embed_with("B", &a, &some("1"), &some("2"), &None).is_none());
    let mut none = answer();
    none.current.weather.clear();
    assert!(current_embed("B", &none).is_none());
    let mut odd = answer();
    odd.current.weather[0].description = String::new();
    assert!(current_embed("B", &odd).is_none());
    let mut far = answer();
    far.timezone_offset = 90_000;
    assert!(current_embed("B", &far).is_none());
}

#[test]
fn forecast_for_the_days_behind_today() {
    let e = forecast_embed("Berlin", &answer()).unwrap();
    assert_eq!(e.title.as_deref(), Some("Forecast for Berlin"));
    assert_eq!(e.colour, Some(MAIN_COLOUR));
    assert!(e.description.is_none());
    assert_eq!(e.fields.len(), 2);
    assert_eq!(e.fields[0].name, "14 Sep 2020");
    assert_eq!(e.fields[0].value, "🌧️ **Light rain** \n**Temp**: 18°C\n**Humidity**: 61%");
    assert!(e.fields[0].inline);
    assert_eq!(e.fields[1].name, "15 Sep 2020");
    assert_eq!(e.fields[1].value, "❄️ **Snow** \n**Temp**: -2°C\n**Humidity**: 70%");
    let mut one = answer();
    one.daily.truncate(1);
    let e = forecast_embed("X", &one).unwrap();
    assert!(e.fields.is_empty());
    let mut empty = answer();
    empty.daily.clear();
    assert!(forecast_embed("X", &empty).is_none());
    let mut bad = answer();
    bad.daily[2].weather.clear();
    assert!(forecast_embed("X", &bad).is_none());
    let a = answer();
    assert!(forecast_embed_with("X", &a, &vec![Some("a".to_string())]).is_none());
    assert!(forecast_embed_with("X", &a, &vec![Some("a".to_string()), None]).is_none());
    let e = forecast_embed_with("X", &a, &vec![Some("a".to_string()), Some("b".to_string())]).unwrap();
    assert_eq!(e.fields[1].name, "b");
}
