use serde_json::{Number, Value};
use terminal_radio::directory::{
    collect_listings, listing_of, station_of, stations_in, stations_in_reply, Listing,
};
use terminal_radio::fetch::{curl_args, try_fetch, CurlRun, FetchPlan, FetchStep};
use terminal_radio::station::Station;

fn text(s: &str) -> Value {
    Value::String(s.to_string())
}

fn number(x: f64) -> Value {
    Value::Number(Number::from_f64(x).unwrap())
}

fn object(fields: Vec<(&str, Value)>) -> Value {
    let mut m = serde_json::Map::new();
    for (k, v) in fields {
        m.insert(k.to_string(), v);
    }
    Value::Object(m)
}

fn entry(name: &str, url: &str) -> Value {
    object(vec![
        ("geo_long", number(2.35)),
        ("geo_lat", number(48.85)),
        ("name", text(name)),
        ("url", text(url)),
        ("country", text("France")),
        ("countrycode", text("FR")),
    ])
}

fn listing(url: &str) -> Listing {
    Listing {
        lon: Some(2.35f64.to_bits()),
        lat: Some(48.85f64.to_bits()),
        url_resolved: String::new(),
        url: url.to_string(),
        name: "N".to_string(),
        state: String::new(),
        country: String::new(),
        countrycode: String::new(),
        tags: String::new(),
    }
}

fn some_station() -> Station {
    station_of(&listing("http://a")).unwrap()
}

#[test]
fn a_reply_is_read() {
    let reply = br#"[
        {"geo_long": 2.35, "geo_lat": "48.85", "name": "  FIP  ", "url": "http://raw",
         "url_resolved": "http://fip", "state": "Paris", "country": "France",
         "countrycode": "FR", "tags": "jazz,eclectic"},
        {"geo_long": -3, "geo_lat": 40, "name": "", "url": "http://es", "country": "Spain"}
    ]"#;
    let s = stations_in_reply(reply).unwrap();
    assert_eq!(s.len(), 2);
    assert_eq!(s[0].name, "FIP");
    assert_eq!(s[0].city, "Paris");
    assert_eq!(s[0].country, "FR");
    assert_eq!(s[0].country_name, "France");
    assert_eq!(f64::from_bits(s[0].lon), 2.35);
    assert_eq!(f64::from_bits(s[0].lat), 48.85);
    assert_eq!(s[0].genre, "jazz");
    assert_eq!(s[0].url, "http://fip");
    assert_eq!(s[1].name, "Unknown");
    assert_eq!(s[1].city, "Spain");
    assert_eq!(s[1].country, "");
    assert_eq!(f64::from_bits(s[1].lon), -3.0);
    assert_eq!(s[1].genre, "");
    assert_eq!(s[1].url, "http://es");
}

#[test]
fn what_is_no_json_is_refused() {
    assert_eq!(stations_in_reply(b"<html>").err().unwrap(), "bad JSON");
    assert_eq!(stations_in_reply(b"").err().unwrap(), "bad JSON");
    assert_eq!(stations_in_reply(b"[1,]").err().unwrap(), "bad JSON");
    assert_eq!(stations_in_reply(b"[\"\xff\"]").err().unwrap(), "bad JSON");
}

#[test]
fn what_is_no_array_is_refused() {
    assert_eq!(stations_in_reply(b"{}").err().unwrap(), "unexpected response");
    assert_eq!(stations_in_reply(b"null").err().unwrap(), "unexpected response");
    assert_eq!(stations_in(&text("x")).err().unwrap(), "unexpected response");
    assert!(stations_in_reply(b"[]").unwrap().is_empty());
}

#[test]
fn entries_without_coordinates_are_left_out() {
    for (lon, lat) in [
        (Value::Null, number(1.0)),
        (number(1.0), Value::Bool(true)),
        (text("north"), number(1.0)),
        (number(1.0), text("NaN")),
        (text("inf"), number(1.0)),
        (text("1e999"), number(1.0)),
        (text(""), number(1.0)),
    ] {
        let v = object(vec![("geo_long", lon), ("geo_lat", lat), ("url", text("http://a"))]);
        assert!(stations_in(&Value::Array(vec![v])).unwrap().is_empty());
    }
    let v = object(vec![("url", text("http://a"))]);
    assert!(stations_in(&Value::Array(vec![v, Value::Null])).unwrap().is_empty());
}

#[test]
fn coordinates_may_be_written_as_texts() {
    let v = object(vec![("geo_long", text("-0.125")), ("geo_lat", text("51.5"))]);
    let l = listing_of(&v);
    assert_eq!(l.lon, Some((-0.125f64).to_bits()));
    assert_eq!(l.lat, Some(51.5f64.to_bits()));
    assert_eq!(l.url, "");
    let v = object(vec![("geo_long", Value::from(12u64)), ("geo_lat", Value::from(-7i64))]);
    let l = listing_of(&v);
    assert_eq!(l.lon, Some(12.0f64.to_bits()));
    assert_eq!(l.lat, Some((-7.0f64).to_bits()));
}

#[test]
fn infinite_coordinates_are_left_out() {
    let mut l = listing("http://a");
    assert!(station_of(&l).is_some());
    l.lon = Some(f64::INFINITY.to_bits());
    assert!(station_of(&l).is_none());
    l.lon = Some(f64::NEG_INFINITY.to_bits());
    assert!(station_of(&l).is_none());
    l.lon = Some(f64::NAN.to_bits());
    assert!(station_of(&l).is_none());
    l.lon = Some(f64::MAX.to_bits());
    assert!(station_of(&l).is_some());
    l.lon = None;
    assert!(station_of(&l).is_none());
}

#[test]
fn the_resolved_url_is_preferred() {
    let mut l = listing("http://raw");
    assert_eq!(station_of(&l).unwrap().url, "http://raw");
    l.url_resolved = "http://direct".to_string();
    assert_eq!(station_of(&l).unwrap().url, "http://direct");
    l.url_resolved = String::new();
    l.url = String::new();
    assert!(station_of(&l).is_none());
}

#[test]
fn long_names_are_cut_after_forty_characters() {
    let mut l = listing("http://a");
    l.name = format!("  {}  ", "ä".repeat(50));
    assert_eq!(station_of(&l).unwrap().name, "ä".repeat(40));
}

#[test]
fn the_same_url_comes_once_and_the_same_place_as_often_as_it_is_listed() {
    let v = Value::Array(vec![
        entry("First", "http://a"),
        entry("Second", "http://b"),
        entry("Again", "http://a"),
        entry("Third", "http://c"),
    ]);
    let s = stations_in(&v).unwrap();
    let names: Vec<&str> = s.iter().map(|s| s.name.as_str()).collect();
    assert_eq!(names, vec!["First", "Second", "Third"]);
    let c = collect_listings(&vec![listing("x"), listing("x"), listing(""), listing("y")]);
    assert_eq!(c.len(), 2);
}

#[test]
fn the_last_of_two_equal_keys_counts() {
    let s = stations_in_reply(
        br#"[{"geo_long":1,"geo_lat":2,"url":"http://a","url":"http://b"}]"#,
    )
    .unwrap();
    assert_eq!(s[0].url, "http://b");
}

#[test]
fn a_run_of_the_fetching_command_is_read() {
    let r = try_fetch(&CurlRun::NotStarted("not found".to_string()));
    assert_eq!(r.err().unwrap(), "curl: not found");
    let r = try_fetch(&CurlRun::Ended { success: false, stdout: b"[]".to_vec() });
    assert_eq!(r.err().unwrap(), "server unavailable");
    let r = try_fetch(&CurlRun::Ended { success: true, stdout: b"oops".to_vec() });
    assert_eq!(r.err().unwrap(), "bad JSON");
    let r = try_fetch(&CurlRun::Ended { success: true, stdout: b"[]".to_vec() });
    assert!(r.unwrap().is_empty());
}

#[test]
fn the_fetching_command_gets_its_arguments() {
    assert_eq!(
        curl_args("https://x/y"),
        vec!["-s", "--fail", "--max-time", "20", "-A", "world-radio-tui/0.1", "https://x/y"]
    );
}

#[test]
fn the_first_reply_with_stations_ends_the_fetch() {
    let plan = FetchPlan::new();
    assert_eq!(
        plan.url(),
        "https://all.api.radio-browser.info/json/stations/search?has_geo_info=true&hidebroken=true&order=clickcount&reverse=true&limit=2000"
    );
    let plan = match plan.on_reply(Err("server unavailable".to_string())) {
        FetchStep::Ask(p) => p,
        _ => panic!(),
    };
    assert!(plan.url().starts_with("https://de1.api.radio-browser.info/json/"));
    match plan.on_reply(Ok(vec![some_station()])) {
        FetchStep::Over(Ok(v)) => assert_eq!(v.len(), 1),
        _ => panic!(),
    }
}

#[test]
fn a_fetch_gives_up_after_three_rounds() {
    let mut plan = FetchPlan::new();
    let mut asked = Vec::new();
    let mut waits = 0;
    let end = loop {
        asked.push(plan.url().contains("//de1."));
        let reply = if asked.len() == 6 { Err("bad JSON".to_string()) } else { Ok(Vec::new()) };
        match plan.on_reply(reply) {
            FetchStep::Ask(p) => plan = p,
            FetchStep::Wait(p) => {
                waits += 1;
                plan = p;
            }
            FetchStep::Over(r) => break r,
        }
    };
    assert_eq!(asked, vec![false, true, false, true, false, true]);
    assert_eq!(waits, 2);
    assert_eq!(end.err().unwrap(), "de1.api.radio-browser.info: bad JSON");
}

#[test]
fn an_empty_reply_is_a_failure_too() {
    let mut plan = FetchPlan::new();
    let end = loop {
        match plan.on_reply(Ok(Vec::new())) {
            FetchStep::Ask(p) | FetchStep::Wait(p) => plan = p,
            FetchStep::Over(r) => break r,
        }
    };
    assert_eq!(end.err().unwrap(), "de1.api.radio-browser.info: no usable stations");
}
