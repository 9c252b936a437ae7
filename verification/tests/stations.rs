use terminal_radio::continent::continent_of;
use terminal_radio::globe::graticule;
use terminal_radio::station::{curated_with_urls, seed_stations, Seed};

fn table() -> Vec<Seed> {
    vec![
        Seed {
            name: "One",
            city: "Berlin",
            country: "DE",
            lon: 13.4f64.to_bits(),
            lat: 52.5f64.to_bits(),
            genre: "news",
            url: "http://one",
        },
        Seed {
            name: "Silent",
            city: "Nowhere",
            country: "XX",
            lon: 0,
            lat: 0,
            genre: "",
            url: "",
        },
        Seed {
            name: "Two",
            city: "Tokyo",
            country: "JP",
            lon: 139.7f64.to_bits(),
            lat: 35.7f64.to_bits(),
            genre: "pop",
            url: "http://two",
        },
    ]
}

#[test]
fn the_code_serves_as_the_country_name() {
    let s = seed_stations(&table());
    assert_eq!(s.len(), 3);
    assert_eq!(s[0].name, "One");
    assert_eq!(s[0].city, "Berlin");
    assert_eq!(s[0].country, "DE");
    assert_eq!(s[0].country_name, "DE");
    assert_eq!(f64::from_bits(s[0].lon), 13.4);
    assert_eq!(f64::from_bits(s[0].lat), 52.5);
    assert_eq!(s[0].genre, "news");
    assert_eq!(s[2].url, "http://two");
}

#[test]
fn stations_without_a_url_are_never_shown() {
    let s = curated_with_urls(&table());
    let names: Vec<&str> = s.iter().map(|s| s.name.as_str()).collect();
    assert_eq!(names, vec!["One", "Two"]);
    assert!(curated_with_urls(&[]).is_empty());
}

#[test]
fn codes_fall_under_their_continents() {
    assert_eq!(continent_of("DE"), "Europe");
    assert_eq!(continent_of("XK"), "Europe");
    assert_eq!(continent_of("ZW"), "Africa");
    assert_eq!(continent_of("EG"), "Africa");
    assert_eq!(continent_of("JP"), "Asia");
    assert_eq!(continent_of("TR"), "Asia");
    assert_eq!(continent_of("US"), "North America");
    assert_eq!(continent_of("BM"), "North America");
    assert_eq!(continent_of("BR"), "South America");
    assert_eq!(continent_of("VU"), "Oceania");
}

#[test]
fn unknown_codes_fall_under_other() {
    for cc in ["", "D", "de", "ZZ", "DEU", "AQ", "Ä€"] {
        assert_eq!(continent_of(cc), "Other");
    }
}

#[test]
fn there_are_codes_for_each_continent() {
    let mut counts = [0usize; 7];
    for a in 'A'..='Z' {
        for b in 'A'..='Z' {
            let k = match continent_of(&format!("{a}{b}")) {
                "Europe" => 0,
                "Africa" => 1,
                "Asia" => 2,
                "North America" => 3,
                "South America" => 4,
                "Oceania" => 5,
                "Other" => 6,
                _ => unreachable!(),
            };
            counts[k] += 1;
        }
    }
    assert_eq!(counts, [50, 55, 51, 26, 14, 17, 463]);
}

#[test]
fn the_graticule_has_its_lines() {
    let g = graticule(30);
    assert_eq!(g.len(), 12 + 5);
    assert_eq!(g[0].len(), 41);
    assert_eq!(g[0][0], (-180, -80));
    assert_eq!(g[0][40], (-180, 80));
    assert_eq!(g[11][0], (150, -80));
    assert_eq!(g[12].len(), 91);
    assert_eq!(g[12][0], (-180, -60));
    assert_eq!(g[16][90], (180, 60));
}

#[test]
fn the_graticule_works_for_every_step() {
    assert_eq!(graticule(1).len(), 360 + 121);
    assert_eq!(graticule(7).len(), 52 + 18);
    assert_eq!(graticule(360).len(), 2);
    assert_eq!(graticule(i32::MAX).len(), 2);
}
