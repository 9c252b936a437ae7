use terminal_radio::app::{frame_due, time_left, Action, App, LiveEvent, FRAME_NANOS};
use terminal_radio::filter::{FilterItem, FilterOp, Grouping};
use terminal_radio::keys::{Key, UiEvent};
use terminal_radio::live::LiveMsg;
use terminal_radio::model::Glide;
use terminal_radio::player::Player;
use terminal_radio::ranking::rank;
use terminal_radio::station::{Seed, Station};
use terminal_radio::view::{Color, Look, Span};

fn seed(name: &'static str, country: &'static str, url: &'static str) -> Seed {
    Seed {
        name,
        city: "City",
        country,
        lon: name.len() as u64,
        lat: 7,
        genre: "news",
        url,
    }
}

fn table() -> Vec<Seed> {
    vec![
        seed("Deutschlandfunk", "DE", "http://dlf"),
        seed("Placeholder", "XX", ""),
        seed("FIP", "FR", "http://fip"),
        seed("NHK", "JP", "http://nhk"),
    ]
}

fn radio() -> App {
    App::new(&table())
}

fn live(name: &str, country: &str, country_name: &str) -> Station {
    Station {
        name: name.to_string(),
        city: "Town".to_string(),
        country: country.to_string(),
        country_name: country_name.to_string(),
        lon: 1,
        lat: 2,
        genre: String::new(),
        url: format!("http://{name}"),
    }
}

fn key(app: &mut App, c: char) -> Action {
    app.on_key(Key::Char(c))
}

fn names(app: &App) -> Vec<&str> {
    app.stations().iter().map(|s| s.name.as_str()).collect()
}

fn labels(app: &App) -> Vec<String> {
    app.filter_items()
        .iter()
        .map(|i| match i {
            FilterItem::Header(t) => format!("# {t}"),
            FilterItem::Choice { label, active, .. } => {
                format!("{}{label}", if *active { "*" } else { "" })
            }
        })
        .collect()
}

fn texts(line: &[Span]) -> Vec<&str> {
    line.iter().map(|s| s.text.as_str()).collect()
}

fn pick(app: &mut App, wanted: &str) {
    assert!(matches!(key(app, 'f'), Action::Nothing));
    for _ in 0..app.filter_items().len() {
        let here = matches!(&app.filter_items()[app.filter_sel()],
            FilterItem::Choice { label, .. } if label == wanted);
        if here {
            app.on_key(Key::Enter);
            return;
        }
        app.on_key(Key::Down);
    }
    panic!("no such entry");
}

#[test]
fn the_radio_starts_with_the_curated_stations() {
    let mut app = radio();
    assert!(app.take_redraw());
    assert_eq!(names(&app), vec!["Deutschlandfunk", "FIP", "NHK"]);
    assert_eq!(app.all_stations().len(), 3);
    assert_eq!(app.selected(), 0);
    assert_eq!(app.list_selected(), Some(0));
    assert_eq!((app.cur_lon(), app.target_lat()), (15, 7));
    assert!(app.color() && app.borders());
    assert!(!app.graticule() && !app.zoom() && !app.radio_fx() && !app.quit());
    assert!(!app.playing() && !app.loading() && !app.filter_open());
    assert_eq!(
        app.status(),
        "Ready — ←/→ tune · x random · [ ] size · z maximize · r radio · L reload."
    );
}

#[test]
fn tuning_goes_round_the_list() {
    let mut app = radio();
    app.on_key(Key::Right);
    assert_eq!(app.selected(), 1);
    assert_eq!(app.target_lon(), 3);
    assert_eq!(app.list_selected(), Some(1));
    key(&mut app, 'l');
    key(&mut app, 'j');
    assert_eq!(app.selected(), 0);
    app.on_key(Key::Left);
    assert_eq!(app.selected(), 2);
    app.on_key(Key::Up);
    key(&mut app, 'h');
    assert_eq!(app.selected(), 0);
    key(&mut app, 'k');
    app.on_key(Key::Down);
    assert_eq!(app.selected(), 0);
    app.select(7);
    assert_eq!(app.selected(), 1);
}

#[test]
fn a_random_station_is_on_the_list() {
    let mut app = radio();
    let mut seen = [false; 3];
    for _ in 0..500 {
        key(&mut app, 'x');
        seen[app.selected()] = true;
        assert_eq!(app.list_selected(), Some(app.selected()));
    }
    assert_eq!(seen, [true; 3]);
}

#[test]
fn the_picked_station_is_selected() {
    let mut app = radio();
    app.on_key_picking(Key::Char('x'), 2);
    assert_eq!((app.selected(), app.target_lon()), (2, 3));
    app.on_key_picking(Key::Char('x'), 4);
    assert_eq!(app.selected(), 1);
    app.on_key_picking(Key::Char('c'), 0);
    assert_eq!(app.selected(), 1);
}

#[test]
fn playing_and_stopping() {
    let mut app = radio();
    assert!(matches!(key(&mut app, 'p'), Action::Launch(u) if u == "http://dlf"));
    assert!(!app.playing());
    assert!(app.on_spawn(Player::Mpv, true).is_none());
    assert!(app.playing());
    assert_eq!(app.status(), "playing via mpv");
    assert!(matches!(app.on_key(Key::Right), Action::Launch(u) if u == "http://fip"));
    app.on_spawn(Player::Mpv, true);
    assert!(matches!(key(&mut app, ' '), Action::Kill));
    assert!(!app.playing());
    assert_eq!(app.status(), "■ stopped");
    assert!(matches!(app.on_key(Key::Right), Action::Nothing));
    assert!(matches!(app.stop(), Action::Nothing));
}

#[test]
fn players_are_tried_until_one_starts() {
    let mut app = radio();
    key(&mut app, 'p');
    assert!(app.on_spawn(Player::Mpv, false) == Some(Player::Ffplay));
    assert!(app.on_spawn(Player::Ffplay, false) == Some(Player::Cvlc));
    assert!(app.on_spawn(Player::Cvlc, false).is_none());
    assert!(!app.playing());
    assert_eq!(app.status(), "No CLI audio player found (install mpv or ffmpeg).");
}

#[test]
fn a_station_without_a_url_is_not_played() {
    let mut app = radio();
    let mut s = live("Mute", "DE", "Germany");
    s.url = String::new();
    app.on_live(LiveMsg::Add(s));
    app.select(3);
    assert!(matches!(app.play(), Action::Kill));
    assert_eq!(app.status(), "No stream URL for this station.");
}

#[test]
fn the_radio_filter_starts_the_stream_again() {
    let mut app = radio();
    assert!(matches!(key(&mut app, 'r'), Action::Nothing));
    assert!(app.radio_fx());
    assert_eq!(app.status(), "Radio filter ON — lo-fi AM sound when you play (p).");
    key(&mut app, 'r');
    assert_eq!(app.status(), "Radio filter off.");
    key(&mut app, 'p');
    app.on_spawn(Player::Ffplay, true);
    assert!(matches!(key(&mut app, 'r'), Action::Launch(u) if u == "http://dlf"));
    app.on_spawn(Player::Ffplay, true);
    assert_eq!(app.status(), "playing via ffplay · radio fx");
    app.on_spawn(Player::Cvlc, true);
    assert_eq!(app.status(), "playing via cvlc");
}

#[test]
fn switches_come_back() {
    let mut app = radio();
    for c in ['c', 'g', 'b', 'z'] {
        let before = (app.color(), app.graticule(), app.borders(), app.zoom());
        key(&mut app, c);
        assert!((app.color(), app.graticule(), app.borders(), app.zoom()) != before);
        key(&mut app, c);
        assert_eq!((app.color(), app.graticule(), app.borders(), app.zoom()), before);
    }
}

#[test]
fn the_globe_is_resized_outside() {
    let mut app = radio();
    for c in [']', '+', '='] {
        assert!(matches!(key(&mut app, c), Action::Grow));
    }
    for c in ['[', '-', '_'] {
        assert!(matches!(key(&mut app, c), Action::Shrink));
    }
    for k in [Key::Enter, Key::Other, Key::Char('?')] {
        assert!(matches!(app.on_key(k), Action::Nothing));
    }
}

#[test]
fn leaving_stops_what_plays() {
    let mut app = radio();
    key(&mut app, 'p');
    app.on_spawn(Player::Mpv, true);
    assert!(matches!(app.on_key(Key::Esc), Action::Kill));
    assert!(app.quit() && !app.playing());
    let mut app = radio();
    assert!(matches!(key(&mut app, 'q'), Action::Nothing));
    assert!(app.quit());
}

#[test]
fn the_menu_counts_what_is_there() {
    let mut app = radio();
    app.on_live(LiveMsg::Add(live("a", "FR", "France")));
    app.on_live(LiveMsg::Add(live("b", "JP", "Japan")));
    app.on_live(LiveMsg::Add(live("c", "FR", "France")));
    app.on_live(LiveMsg::Add(live("d", "??", "")));
    key(&mut app, 'f');
    assert!(app.filter_open());
    assert_eq!(app.filter_sel(), 0);
    assert_eq!(
        labels(&app),
        vec![
            "*Clear all filters",
            "# Continent",
            "*All continents",
            "Europe  (4)",
            "Asia  (2)",
            "Other  (1)",
            "# Country",
            "*All countries",
            "France  (2)",
            "DE  (1)",
            "FR  (1)",
            "JP  (1)",
            "Japan  (1)",
        ]
    );
    assert_eq!(
        app.count_by(Grouping::Continent),
        vec![("Europe".to_string(), 4), ("Asia".to_string(), 2), ("Other".to_string(), 1)]
    );
}

#[test]
fn names_are_ranked_by_count_and_then_by_name() {
    let names: Vec<String> =
        ["b", "a", "c", "b", "a", "d", "b"].iter().map(|s| s.to_string()).collect();
    let r = rank(&names);
    let r: Vec<(&str, usize)> = r.iter().map(|e| (e.0.as_str(), e.1)).collect();
    assert_eq!(r, vec![("b", 3), ("a", 2), ("c", 1), ("d", 1)]);
    assert!(rank(&Vec::new()).is_empty());
}

#[test]
fn the_cursor_passes_over_headings() {
    let mut app = radio();
    key(&mut app, 'f');
    app.on_key(Key::Down);
    assert_eq!(app.filter_sel(), 2);
    key(&mut app, 'k');
    assert_eq!(app.filter_sel(), 0);
    app.on_key(Key::Up);
    assert_eq!(app.filter_sel(), app.filter_items().len() - 1);
    key(&mut app, 'j');
    assert_eq!(app.filter_sel(), 0);
    app.filter_step(3);
    assert_eq!(app.filter_sel(), 3);
    app.filter_step(-2);
    assert_eq!(app.filter_sel(), 9);
    app.filter_step(i32::MIN);
    assert!(matches!(app.filter_items()[app.filter_sel()], FilterItem::Choice { .. }));
}

#[test]
fn a_closed_menu_has_no_cursor() {
    let mut app = radio();
    app.filter_step(1);
    assert_eq!(app.filter_sel(), 0);
    app.filter_apply_selected();
    assert_eq!(app.stations().len(), 3);
}

#[test]
fn choosing_a_continent_narrows_the_list() {
    let mut app = radio();
    pick(&mut app, "Europe  (2)");
    assert!(!app.filter_open());
    assert_eq!(names(&app), vec!["Deutschlandfunk", "FIP"]);
    assert_eq!(app.status(), "Filter: Europe — 2 stations.");
    assert!(app.filters_active());
    assert_eq!(app.selected(), 0);
    pick(&mut app, "FR  (1)");
    assert_eq!(names(&app), vec!["FIP"]);
    assert_eq!(app.status(), "Filter: Europe · FR — 1 stations.");
    assert_eq!(app.target_lon(), 3);
    pick(&mut app, "All continents");
    assert_eq!(app.status(), "Filter: FR — 1 stations.");
    pick(&mut app, "Clear all filters");
    assert_eq!(app.stations().len(), 3);
    assert_eq!(app.status(), "Filters cleared — 3 stations.");
    assert!(!app.filters_active());
}

#[test]
fn filters_can_leave_nothing() {
    let mut app = radio();
    pick(&mut app, "Asia  (1)");
    pick(&mut app, "DE  (1)");
    assert!(app.stations().is_empty());
    assert_eq!(app.list_selected(), None);
    assert_eq!(app.status(), "Filter: Asia · DE — 0 stations.");
    assert!(matches!(app.on_key(Key::Right), Action::Nothing));
    assert!(matches!(app.on_key(Key::Left), Action::Nothing));
    assert!(matches!(key(&mut app, 'x'), Action::Nothing));
    assert!(matches!(key(&mut app, 'p'), Action::Kill));
    assert_eq!(app.title(), " WORLD RADIO  0/0 ");
    assert_eq!(app.mark_label(), "  ");
    assert_eq!(texts(&app.status_rows()[0]), vec!["No stations match the filter."]);
    assert_eq!(
        texts(&app.zoom_row()),
        vec![" WORLD RADIO  ·  no stations match filter — z windowed, then f to change"]
    );
    app.on_live(LiveMsg::Add(live("a", "JP", "DE")));
    assert_eq!(names(&app), vec!["a"]);
    assert_eq!((app.selected(), app.list_selected()), (0, Some(0)));
}

#[test]
fn the_active_entry_is_marked() {
    let mut app = radio();
    pick(&mut app, "Europe  (2)");
    key(&mut app, 'f');
    let l = labels(&app);
    assert_eq!(l[0], "Clear all filters");
    assert_eq!(l[2], "All continents");
    assert_eq!(l[3], "*Europe  (2)");
    let rows = app.menu_rows();
    assert_eq!(rows.len(), l.len());
    assert_eq!(texts(&rows[1]), vec!["─ Continent ─"]);
    assert_eq!(rows[1][0].look, Look::Ink(Color::DarkGray));
    assert_eq!(texts(&rows[3]), vec!["● ", "Europe  (2)"]);
    assert_eq!(rows[3][1].look, Look::Strong(Color::Green));
    assert_eq!(texts(&rows[4]), vec!["  ", "Asia  (1)"]);
    assert_eq!(rows[4][1].look, Look::Plain);
}

#[test]
fn keys_close_the_menu_without_choosing() {
    for k in [Key::Esc, Key::Char('f'), Key::Char('q')] {
        let mut app = radio();
        key(&mut app, 'f');
        app.on_key(Key::Down);
        app.on_key(Key::Char('x'));
        assert!(matches!(app.on_key(k), Action::Nothing));
        assert!(!app.filter_open() && !app.quit());
        assert_eq!(app.stations().len(), 3);
    }
    let mut app = radio();
    key(&mut app, 'f');
    key(&mut app, ' ');
    assert!(!app.filter_open());
    assert_eq!(app.status(), "Filters cleared — 3 stations.");
}

#[test]
fn verified_stations_join_the_list() {
    let mut app = radio();
    pick(&mut app, "Europe  (2)");
    app.on_live(LiveMsg::Add(live("a", "ES", "Spain")));
    app.on_live(LiveMsg::Add(live("b", "BR", "Brazil")));
    app.on_live(LiveMsg::Add(live("a", "ES", "Spain")));
    assert_eq!(names(&app), vec!["Deutschlandfunk", "FIP", "a"]);
    assert_eq!(app.all_stations().len(), 5);
    pick(&mut app, "Clear all filters");
    assert_eq!(names(&app), vec!["Deutschlandfunk", "FIP", "NHK", "a", "b"]);
}

#[test]
fn loading_starts_over() {
    let mut app = radio();
    pick(&mut app, "Europe  (2)");
    app.on_live(LiveMsg::Add(live("a", "ES", "Spain")));
    app.select(1);
    assert!(matches!(key(&mut app, 'L'), Action::Load));
    assert!(app.loading());
    assert_eq!(app.stations().len(), 3);
    assert_eq!(app.all_stations().len(), 3);
    assert!(!app.filters_active());
    assert_eq!((app.selected(), app.list_selected()), (0, Some(0)));
    assert_eq!(app.status(), "Loading stations from radio-browser.info…");
    assert!(matches!(app.load_live(), Action::Nothing));
    app.on_live(LiveMsg::Add(live("a", "ES", "Spain")));
    assert_eq!(app.all_stations().len(), 4);
}

#[test]
fn messages_are_taken_until_the_last() {
    let mut app = radio();
    app.load_live();
    assert!(app.poll_live(LiveEvent::Message(LiveMsg::Progress("half".to_string()))));
    assert_eq!(app.status(), "half");
    assert!(app.poll_live(LiveEvent::Message(LiveMsg::Add(live("a", "ES", "Spain")))));
    assert!(!app.poll_live(LiveEvent::Empty));
    assert!(app.loading());
    assert!(!app.poll_live(LiveEvent::Message(LiveMsg::Done(12))));
    assert!(!app.loading());
    assert_eq!(app.status(), "12 working stations loaded. ←/→ to browse · L to refresh.");
    app.load_live();
    assert!(!app.poll_live(LiveEvent::Message(LiveMsg::Failed("no net".to_string()))));
    assert!(!app.loading());
    assert_eq!(app.status(), "Live load failed: no net — keeping current list.");
    assert_eq!(app.stations().len(), 3);
    app.load_live();
    assert!(!app.poll_live(LiveEvent::Disconnected));
    assert!(!app.loading());
}

#[test]
fn frames_are_drawn_when_something_changes() {
    let mut app = radio();
    assert!(app.take_redraw());
    assert!(!app.take_redraw());
    assert!(matches!(app.on_event(UiEvent::Other), Action::Nothing));
    assert!(!app.take_redraw());
    app.on_event(UiEvent::Resize);
    assert!(app.take_redraw());
    app.on_event(UiEvent::Press(Key::Other));
    assert!(app.take_redraw());
    app.poll_live(LiveEvent::Empty);
    assert!(!app.take_redraw());
    app.on_live(LiveMsg::Progress(String::new()));
    assert!(app.take_redraw());
    app.on_key(Key::Char('p'));
    app.on_spawn(Player::Mpv, true);
    app.poll_live(LiveEvent::Disconnected);
    app.load_live();
    assert!(app.take_redraw());
}

#[test]
fn the_globe_glides_and_settles() {
    let mut app = radio();
    app.take_redraw();
    app.tick(Glide { near: false, arrived: false, lon: 5, lat: 6 });
    assert_eq!((app.cur_lon(), app.cur_lat()), (5, 6));
    assert!(app.take_redraw());
    app.tick(Glide { near: true, arrived: false, lon: 8, lat: 9 });
    assert_eq!((app.cur_lon(), app.cur_lat()), (15, 7));
    assert!(app.take_redraw());
    app.tick(Glide { near: true, arrived: true, lon: 8, lat: 9 });
    assert_eq!((app.cur_lon(), app.cur_lat()), (15, 7));
    assert!(!app.take_redraw());
}

#[test]
fn frames_last_thirty_three_milliseconds() {
    assert_eq!(FRAME_NANOS, 33_000_000);
    assert_eq!(time_left(0), 33_000_000);
    assert_eq!(time_left(33_000_000), 0);
    assert_eq!(time_left(u64::MAX), 0);
    assert!(!frame_due(32_999_999));
    assert!(frame_due(33_000_000));
}

#[test]
fn a_picture_shows_a_settled_station() {
    let mut app = radio();
    app.snapshot(true, true, "FIP");
    assert!(app.zoom() && app.filter_open());
    assert_eq!((app.selected(), app.list_selected()), (1, Some(1)));
    assert_eq!((app.cur_lon(), app.target_lon()), (3, 15));
    let mut app = radio();
    app.snapshot(false, false, "Unheard");
    assert!(!app.zoom() && !app.filter_open());
    assert_eq!(app.selected(), 0);
}

#[test]
fn the_status_tells_the_station() {
    let mut app = radio();
    let rows = app.status_rows();
    assert_eq!(texts(&rows[0]), vec!["Deutschlandfunk", "   City · DE", " · news", "   ■ IDLE"]);
    assert_eq!(rows[0][0].look, Look::Bold);
    assert_eq!(rows[1][0].text, app.status());
    app.on_spawn(Player::Mpv, true);
    let row = app.zoom_row();
    assert_eq!(
        texts(&row),
        vec![
            " WORLD RADIO ",
            "  Deutschlandfunk · City·DE  ",
            "▶ LIVE",
            "   z windowed · ←/→ tune · q quit",
        ]
    );
    assert_eq!(row[0].look, Look::Banner);
    assert_eq!(row[2].look, Look::Ink(Color::Green));
    app.on_live(LiveMsg::Add(live("a", "ES", "Spain")));
    app.select(3);
    app.on_spawn(Player::Mpv, true);
    assert_eq!(texts(&app.status_rows()[0]), vec!["a", "   Town · ES", "   ▶ LIVE"]);
}

#[test]
fn the_list_and_the_title_tell_the_stations() {
    let mut app = radio();
    let rows = app.list_rows();
    assert_eq!(rows.len(), 3);
    assert_eq!(texts(&rows[1]), vec!["FIP", "  City·FR"]);
    assert_eq!(app.title(), " WORLD RADIO  1/3 ");
    app.select(2);
    assert_eq!(app.title(), " WORLD RADIO  3/3 ");
    assert_eq!(app.mark_label(), " NHK ");
}

#[test]
fn the_controls_tell_the_switches() {
    let mut app = radio();
    key(&mut app, 'g');
    let rows = app.control_rows("1.0");
    assert_eq!(rows.len(), 12);
    assert_eq!(texts(&rows[0]), vec!["←/→ ", "tune station"]);
    assert_eq!(rows[0][0].look, Look::Strong(Color::Cyan));
    assert_eq!(texts(&rows[3]), vec!["[ ] ", "globe size: 1.0x"]);
    assert_eq!(texts(&rows[5]), vec!["r   ", "radio fx: ", "off"]);
    assert_eq!(texts(&rows[7]), vec!["b   ", "borders: ", "on"]);
    assert_eq!(texts(&rows[9]), vec!["g   ", "grid: ", "on"]);
    assert_eq!(rows[9][2].look, Look::Ink(Color::Green));
    assert_eq!(texts(&rows[11]), vec!["q   ", "quit"]);
}

#[test]
fn choices_carry_what_they_do() {
    let mut app = radio();
    key(&mut app, 'f');
    assert!(matches!(&app.filter_items()[0], FilterItem::Choice { op: FilterOp::Clear, .. }));
    assert!(matches!(&app.filter_items()[2],
        FilterItem::Choice { op: FilterOp::Continent(None), .. }));
    assert!(matches!(&app.filter_items()[3],
        FilterItem::Choice { op: FilterOp::Continent(Some(c)), .. } if c == "Europe"));
    assert!(matches!(app.filter_items().last(),
        Some(FilterItem::Choice { op: FilterOp::Country(Some(c)), .. }) if c == "JP"));
}

#[test]
fn filters_stack_in_either_order() {
    let mut one = radio();
    one.on_live(LiveMsg::Add(live("a", "FR", "France")));
    pick(&mut one, "Europe  (3)");
    pick(&mut one, "France  (1)");
    let mut other = radio();
    other.on_live(LiveMsg::Add(live("a", "FR", "France")));
    pick(&mut other, "France  (1)");
    pick(&mut other, "Europe  (3)");
    assert_eq!(names(&one), vec!["a"]);
    assert_eq!(names(&one), names(&other));
    assert_eq!(one.status(), "Filter: Europe · France — 1 stations.");
    assert_eq!(one.status(), other.status());
}

#[test]
fn an_entry_shows_as_many_stations_as_it_tells() {
    let mut app = radio();
    app.on_live(LiveMsg::Add(live("a", "FR", "France")));
    app.on_live(LiveMsg::Add(live("b", "FR", "France")));
    pick(&mut app, "France  (2)");
    assert_eq!(app.stations().len(), 2);
    pick(&mut app, "Clear all filters");
    pick(&mut app, "Europe  (4)");
    assert_eq!(app.stations().len(), 4);
}

#[test]
fn the_selection_stays_when_stations_join() {
    let mut app = radio();
    app.select(2);
    app.on_live(LiveMsg::Add(live("a", "FR", "France")));
    assert_eq!((app.selected(), app.list_selected()), (2, Some(2)));
    assert_eq!(app.stations()[2].name, "NHK");
}

#[test]
fn a_long_run_shows_curated_and_verified_stations_only() {
    let mut app = radio();
    app.load_live();
    for name in ["a", "b", "a"] {
        app.poll_live(LiveEvent::Message(LiveMsg::Add(live(name, "FR", "France"))));
    }
    pick(&mut app, "Asia  (1)");
    key(&mut app, 'x');
    app.poll_live(LiveEvent::Message(LiveMsg::Done(2)));
    pick(&mut app, "All continents");
    assert_eq!(names(&app), vec!["Deutschlandfunk", "FIP", "NHK", "a", "b"]);
    key(&mut app, 'L');
    app.poll_live(LiveEvent::Message(LiveMsg::Add(live("b", "FR", "France"))));
    app.poll_live(LiveEvent::Disconnected);
    assert_eq!(names(&app), vec!["Deutschlandfunk", "FIP", "NHK", "b"]);
    assert!(app.stations().iter().all(|s| !s.url.is_empty()));
    assert!(matches!(key(&mut app, 'L'), Action::Load));
}

#[test]
fn curated_urls_are_known_from_the_start() {
    let mut app = radio();
    app.on_live(LiveMsg::Add(live("fip", "FR", "France")));
    assert_eq!(app.all_stations().len(), 3);
    app.on_live(LiveMsg::Add(live("a", "FR", "France")));
    assert_eq!(app.all_stations().len(), 4);
}

#[test]
fn steps_in_the_menu_undo_each_other() {
    let mut app = radio();
    key(&mut app, 'f');
    for _ in 0..app.filter_items().len() {
        let at = app.filter_sel();
        for dir in [1, 2, 3, 7, -1, -4] {
            app.filter_step(dir);
            app.filter_step(-dir);
            assert_eq!(app.filter_sel(), at);
        }
        app.on_key(Key::Down);
        app.on_key(Key::Up);
        assert_eq!(app.filter_sel(), at);
        key(&mut app, 'k');
        key(&mut app, 'j');
        assert_eq!(app.filter_sel(), at);
        app.on_key(Key::Down);
    }
}

#[test]
fn tuning_there_and_back_turns_the_globe_back() {
    let mut app = radio();
    for _ in 0..3 {
        let before = (app.selected(), app.list_selected(), app.target_lon(), app.target_lat());
        app.on_key(Key::Right);
        app.on_key(Key::Left);
        let after = (app.selected(), app.list_selected(), app.target_lon(), app.target_lat());
        assert_eq!(before, after);
        app.on_key(Key::Right);
    }
}

#[test]
fn a_load_lasts_until_its_last_message() {
    let mut app = radio();
    app.load_live();
    for msg in [
        LiveMsg::Progress("Verifying 1 streams — stations appear as they pass…".to_string()),
        LiveMsg::Add(live("a", "FR", "France")),
    ] {
        assert!(app.poll_live(LiveEvent::Message(msg)));
        assert!(app.loading());
    }
    assert!(!app.poll_live(LiveEvent::Message(LiveMsg::Done(1))));
    assert!(!app.loading());
}
