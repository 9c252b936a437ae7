//! What every key, message and frame does to the radio, and what it leaves alone.
use vstd::arithmetic::div_mod::{lemma_fundamental_div_mod_converse, lemma_small_mod};
use vstd::prelude::*;

use crate::directory::urls;
use crate::keys::{Key, UiEvent};
use crate::live::{ends_load, LiveModel};
use crate::model::{ActionModel, AppModel, Glide};
use crate::player::Player;
use crate::station::StationModel;
use crate::text::decimal;

verus! {

/// Selecting a station selects and highlights it and turns the globe to it. What
/// plays gives way to it: the action launches the station that is selected
/// afterwards. While nothing plays, nothing is played. All else stays.
pub proof fn selecting_selects(m: AppModel, at: int)
    requires
        0 <= at < m.stations.len(),
    ensures
        ({
            let (n, a) = m.select(at);
            &&& n.selected == at
            &&& n.list_selected == Some(at)
            &&& n.target_lon == m.stations[at].lon
            &&& n.target_lat == m.stations[at].lat
            &&& n.needs_redraw
            &&& !n.playing
            &&& !m.playing ==> a == ActionModel::Nothing && n.status == m.status
            &&& m.playing && m.stations[at].url.len() > 0 ==> a == ActionModel::Launch(
                m.stations[at].url,
            ) && n.status == m.status
            &&& m.playing && m.stations[at].url.len() == 0 ==> a == ActionModel::Kill && n.status
                == "No stream URL for this station."@
            &&& n == (AppModel {
                selected: n.selected,
                list_selected: n.list_selected,
                target_lon: n.target_lon,
                target_lat: n.target_lat,
                playing: n.playing,
                status: n.status,
                needs_redraw: n.needs_redraw,
                ..m
            })
        }),
{
    lemma_small_mod(at as nat, m.stations.len());
}

/// The tuning keys, with the menu closed. `→`, `↓`, `l` and `j` select the station
/// after the selected one, or the first after the last; `←`, `↑`, `h` and `k` select
/// the one before it, or the last before the first. The list highlights the station
/// that is selected afterwards and the globe turns to it. Where something plays,
/// that station is launched in its place; where nothing plays, nothing is. Nothing
/// else changes but for the new frame.
pub proof fn tuning_keys_tune(m: AppModel, key: Key, pick: int)
    requires
        m.valid(),
        !m.filter_open,
        m.stations.len() > 0,
        key == Key::Right || key == Key::Down || key == Key::Char('l') || key == Key::Char('j')
            || key == Key::Left || key == Key::Up || key == Key::Char('h') || key == Key::Char(
            'k',
        ),
    ensures
        ({
            let (n, a) = m.on_key(key, pick);
            let forward = key == Key::Right || key == Key::Down || key == Key::Char('l') || key
                == Key::Char('j');
            let last = m.stations.len() - 1;
            &&& forward && m.selected < last ==> n.selected == m.selected + 1
            &&& forward && m.selected == last ==> n.selected == 0
            &&& !forward && m.selected > 0 ==> n.selected == m.selected - 1
            &&& !forward && m.selected == 0 ==> n.selected == last
            &&& n.list_selected == Some(n.selected)
            &&& n.target_lon == m.stations[n.selected].lon
            &&& n.target_lat == m.stations[n.selected].lat
            &&& n.needs_redraw
            &&& !n.playing
            &&& !m.playing ==> a == ActionModel::Nothing && n.status == m.status
            &&& m.playing && m.stations[n.selected].url.len() > 0 ==> a == ActionModel::Launch(
                m.stations[n.selected].url,
            ) && n.status == m.status
            &&& m.playing && m.stations[n.selected].url.len() == 0 ==> a == ActionModel::Kill
                && n.status == "No stream URL for this station."@
            &&& n == (AppModel {
                selected: n.selected,
                list_selected: n.list_selected,
                target_lon: n.target_lon,
                target_lat: n.target_lat,
                playing: n.playing,
                status: n.status,
                needs_redraw: n.needs_redraw,
                ..m
            })
        }),
{
    let lit = AppModel { needs_redraw: true, ..m };
    if key == Key::Right || key == Key::Down || key == Key::Char('l') || key == Key::Char('j') {
        forward_selects_the_next(m, key, pick);
        selecting_selects(lit, if m.selected + 1 < m.stations.len() { m.selected + 1 } else { 0 });
    } else {
        backward_selects_the_one_before(m, key, pick);
        selecting_selects(lit, if m.selected > 0 { m.selected - 1 } else { m.stations.len() - 1 });
    }
}

proof fn forward_selects_the_next(m: AppModel, key: Key, pick: int)
    requires
        !m.filter_open,
        0 <= m.selected < m.stations.len(),
        key == Key::Right || key == Key::Down || key == Key::Char('l') || key == Key::Char('j'),
    ensures
        m.on_key(key, pick) == (AppModel { needs_redraw: true, ..m }).select(
            if m.selected + 1 < m.stations.len() {
                m.selected + 1
            } else {
                0
            },
        ),
{
    let n = m.stations.len() as int;
    lemma_small_mod(0, n as nat);
    if m.selected + 1 == n {
        lemma_fundamental_div_mod_converse(m.selected + 1, n, 1, 0);
    }
}

proof fn backward_selects_the_one_before(m: AppModel, key: Key, pick: int)
    requires
        !m.filter_open,
        0 <= m.selected < m.stations.len(),
        key == Key::Left || key == Key::Up || key == Key::Char('h') || key == Key::Char('k'),
    ensures
        m.on_key(key, pick) == (AppModel { needs_redraw: true, ..m }).select(
            if m.selected > 0 {
                m.selected - 1
            } else {
                m.stations.len() - 1
            },
        ),
{
    let n = m.stations.len() as int;
    if m.selected > 0 {
        lemma_small_mod((m.selected - 1) as nat, n as nat);
        lemma_fundamental_div_mod_converse(m.selected + n - 1, n, 1, m.selected - 1);
    }
}

/// On an empty list the tuning keys, and the key for a random station, do nothing
/// but ask for a frame.
pub proof fn tuning_an_empty_list_does_nothing(m: AppModel, key: Key, pick: int)
    requires
        !m.filter_open,
        m.stations.len() == 0,
        key == Key::Right || key == Key::Down || key == Key::Char('l') || key == Key::Char('j')
            || key == Key::Left || key == Key::Up || key == Key::Char('h') || key == Key::Char('k')
            || key == Key::Char('x'),
    ensures
        m.on_key(key, pick) == ((AppModel { needs_redraw: true, ..m }), ActionModel::Nothing),
{
}

/// The key for a random station selects the one that chance gives, as the tuning
/// keys select theirs.
pub proof fn random_key_tunes(m: AppModel, pick: int)
    requires
        !m.filter_open,
        0 <= pick < m.stations.len(),
    ensures
        ({
            let (n, a) = m.on_key(Key::Char('x'), pick);
            &&& n.selected == pick
            &&& n.list_selected == Some(pick)
            &&& n.target_lon == m.stations[pick].lon
            &&& n.target_lat == m.stations[pick].lat
            &&& n.needs_redraw
            &&& !n.playing
            &&& !m.playing ==> a == ActionModel::Nothing && n.status == m.status
            &&& m.playing && m.stations[pick].url.len() > 0 ==> a == ActionModel::Launch(
                m.stations[pick].url,
            ) && n.status == m.status
            &&& m.playing && m.stations[pick].url.len() == 0 ==> a == ActionModel::Kill && n.status
                == "No stream URL for this station."@
            &&& n == (AppModel {
                selected: n.selected,
                list_selected: n.list_selected,
                target_lon: n.target_lon,
                target_lat: n.target_lat,
                playing: n.playing,
                status: n.status,
                needs_redraw: n.needs_redraw,
                ..m
            })
        }),
{
    selecting_selects(AppModel { needs_redraw: true, ..m }, pick);
}

/// `p` and the space bar do the same. Where something plays, either stops it: the
/// player is ended, nothing plays afterwards, and the listener is told.
pub proof fn play_keys_stop_what_plays(m: AppModel, key: Key, pick: int)
    requires
        !m.filter_open,
        m.playing,
        key == Key::Char('p') || key == Key::Char(' '),
    ensures
        ({
            let (n, a) = m.on_key(key, pick);
            &&& a == ActionModel::Kill
            &&& !n.playing
            &&& n.status == "■ stopped"@
            &&& n.needs_redraw
            &&& n == (AppModel {
                playing: n.playing,
                status: n.status,
                needs_redraw: n.needs_redraw,
                ..m
            })
        }),
{
}

/// Where nothing plays, `p` and the space bar launch the selected station. One
/// without a URL is not launched, and the listener is told so.
pub proof fn play_keys_play_the_selected_station(m: AppModel, key: Key, pick: int)
    requires
        m.valid(),
        !m.filter_open,
        !m.playing,
        key == Key::Char('p') || key == Key::Char(' '),
    ensures
        ({
            let (n, a) = m.on_key(key, pick);
            let url = m.stations[m.selected].url;
            let lit = AppModel { needs_redraw: true, ..m };
            &&& m.stations.len() > 0 && url.len() > 0 ==> a == ActionModel::Launch(url) && n == lit
            &&& m.stations.len() > 0 && url.len() == 0 ==> a == ActionModel::Kill && n == (
            AppModel { status: "No stream URL for this station."@, ..lit })
            &&& m.stations.len() == 0 ==> a == ActionModel::Kill && n == lit
        }),
{
}

/// `q` and `Esc` end the program, and what plays with it.
pub proof fn leaving_keys_leave(m: AppModel, key: Key, pick: int)
    requires
        !m.filter_open,
        key == Key::Char('q') || key == Key::Esc,
    ensures
        ({
            let (n, a) = m.on_key(key, pick);
            &&& n.quit
            &&& !n.playing
            &&& a == if m.playing {
                ActionModel::Kill
            } else {
                ActionModel::Nothing
            }
            &&& n.status == if m.playing {
                "■ stopped"@
            } else {
                m.status
            }
            &&& n.needs_redraw
            &&& n == (AppModel {
                quit: n.quit,
                playing: n.playing,
                status: n.status,
                needs_redraw: n.needs_redraw,
                ..m
            })
        }),
{
}

/// `]`, `+` and `=` enlarge the globe, `[`, `-` and `_` shrink it; the radio itself
/// stays as it is.
pub proof fn size_keys_resize(m: AppModel, key: Key, pick: int)
    requires
        !m.filter_open,
    ensures
        key == Key::Char(']') || key == Key::Char('+') || key == Key::Char('=') ==> m.on_key(
            key,
            pick,
        ) == ((AppModel { needs_redraw: true, ..m }), ActionModel::Grow),
        key == Key::Char('[') || key == Key::Char('-') || key == Key::Char('_') ==> m.on_key(
            key,
            pick,
        ) == ((AppModel { needs_redraw: true, ..m }), ActionModel::Shrink),
{
}

/// `c`, `g`, `b` and `z` each flip one switch, and nothing else.
pub proof fn switch_keys_flip_one_switch(m: AppModel, pick: int)
    requires
        !m.filter_open,
    ensures
        m.on_key(Key::Char('c'), pick) == (
            (AppModel { color: !m.color, needs_redraw: true, ..m }),
            ActionModel::Nothing,
        ),
        m.on_key(Key::Char('g'), pick) == (
            (AppModel { graticule: !m.graticule, needs_redraw: true, ..m }),
            ActionModel::Nothing,
        ),
        m.on_key(Key::Char('b'), pick) == (
            (AppModel { borders: !m.borders, needs_redraw: true, ..m }),
            ActionModel::Nothing,
        ),
        m.on_key(Key::Char('z'), pick) == (
            (AppModel { zoom: !m.zoom, needs_redraw: true, ..m }),
            ActionModel::Nothing,
        ),
{
}

/// `r` flips the radio filter. What plays is launched again; while nothing plays the
/// listener is told which way the filter went.
pub proof fn radio_key_flips_the_filter(m: AppModel, pick: int)
    requires
        m.valid(),
        !m.filter_open,
    ensures
        ({
            let (n, a) = m.on_key(Key::Char('r'), pick);
            let url = m.stations[m.selected].url;
            &&& n.radio_fx == !m.radio_fx
            &&& n.needs_redraw
            &&& !n.playing
            &&& !m.playing ==> a == ActionModel::Nothing
            &&& !m.playing && n.radio_fx ==> n.status
                == "Radio filter ON — lo-fi AM sound when you play (p)."@
            &&& !m.playing && !n.radio_fx ==> n.status == "Radio filter off."@
            &&& m.playing && m.stations.len() > 0 && url.len() > 0 ==> a == ActionModel::Launch(url)
                && n.status == m.status
            &&& m.playing && m.stations.len() == 0 ==> a == ActionModel::Kill && n.status
                == m.status
            &&& m.playing && m.stations.len() > 0 && url.len() == 0 ==> a == ActionModel::Kill
                && n.status == "No stream URL for this station."@
            &&& n == (AppModel {
                radio_fx: n.radio_fx,
                playing: n.playing,
                status: n.status,
                needs_redraw: n.needs_redraw,
                ..m
            })
        }),
{
}

/// `f` opens the menu with the cursor on its first entry, and changes nothing else.
pub proof fn filter_key_opens_the_menu(m: AppModel, pick: int)
    requires
        m.valid(),
        !m.filter_open,
    ensures
        ({
            let (n, a) = m.on_key(Key::Char('f'), pick);
            &&& a == ActionModel::Nothing
            &&& n.filter_open
            &&& n.filter_sel == 0
            &&& n == (AppModel {
                filter_open: true,
                filter_items: n.filter_items,
                filter_sel: 0,
                needs_redraw: true,
                ..m
            })
        }),
{
    crate::laws::open_keeps_valid(AppModel { needs_redraw: true, ..m });
}

/// Loading starts over: all that is loaded is the curated list, shown without
/// filters from its first station on. What plays goes on, the switches stay, and
/// the globe stays where it is. While stations are being loaded it does nothing.
pub proof fn loading_starts_over(m: AppModel)
    ensures
        m.loading ==> m.load_live() == (m, ActionModel::Nothing),
        !m.loading ==> ({
            let (n, a) = m.load_live();
            &&& a == ActionModel::Load
            &&& n.loading
            &&& n.all_stations == m.curated
            &&& n.stations == m.curated
            &&& n.filter_continent is None
            &&& n.filter_country is None
            &&& n.selected == 0
            &&& n.list_selected == Some(0int)
            &&& n.status == "Loading stations from radio-browser.info…"@
            &&& forall|u: Seq<char>| #[trigger]
                n.seen_urls.contains(u) <==> exists|i: int|
                    0 <= i < m.curated.len() && (#[trigger] m.curated[i]).url == u
            &&& n == (AppModel {
                all_stations: n.all_stations,
                stations: n.stations,
                filter_continent: n.filter_continent,
                filter_country: n.filter_country,
                seen_urls: n.seen_urls,
                selected: n.selected,
                list_selected: n.list_selected,
                status: n.status,
                loading: n.loading,
                ..m
            })
        }),
{
}

/// `L` loads.
pub proof fn load_key_loads(m: AppModel, pick: int)
    requires
        !m.filter_open,
    ensures
        m.on_key(Key::Char('L'), pick) == (AppModel { needs_redraw: true, ..m }).load_live(),
{
}

/// A key without a meaning only asks for a frame.
pub proof fn other_keys_do_nothing(m: AppModel, key: Key, pick: int)
    requires
        !m.filter_open,
        key == Key::Enter || key == Key::Other || key is Char,
        key matches Key::Char(c) ==> {
            &&& c != 'q' && c != 'l' && c != 'j' && c != 'h' && c != 'k' && c != 'x'
            &&& c != ']' && c != '+' && c != '=' && c != '[' && c != '-' && c != '_'
            &&& c != 'c' && c != 'g' && c != 'b' && c != 'z' && c != 'f' && c != 'r'
            &&& c != 'L' && c != 'p' && c != ' '
        },
    ensures
        m.on_key(key, pick) == ((AppModel { needs_redraw: true, ..m }), ActionModel::Nothing),
{
}

/// A pressed key does what the key does; a change of the terminal's size only asks
/// for a frame; any other event, such as a released key, does nothing.
pub proof fn events_do_what_they_say(m: AppModel, key: Key, pick: int)
    ensures
        m.on_event(UiEvent::Press(key), pick) == m.on_key(key, pick),
        m.on_event(UiEvent::Resize, pick) == (
            (AppModel { needs_redraw: true, ..m }),
            ActionModel::Nothing,
        ),
        m.on_event(UiEvent::Other, pick) == (m, ActionModel::Nothing),
{
}

/// A player that started plays: nothing further is tried, and the listener is told
/// which it is. One that did not start changes nothing, but for the last, where the
/// listener is told that there is none.
pub proof fn players_tell_whether_they_started(m: AppModel)
    ensures
        forall|p: Player|
            ({
                let (n, next) = #[trigger] m.on_spawn(p, true);
                &&& n.playing
                &&& next is None
                &&& n == (AppModel { playing: n.playing, status: n.status, ..m })
            }),
        m.on_spawn(Player::Mpv, false) == (m, Some(Player::Ffplay)),
        m.on_spawn(Player::Ffplay, false) == (m, Some(Player::Cvlc)),
        m.on_spawn(Player::Cvlc, false) == (
            (AppModel { status: "No CLI audio player found (install mpv or ffmpeg)."@, ..m }),
            None::<Player>,
        ),
{
}

/// What is told of a player that started: its command's name, and the radio filter
/// where it is on and the player has it. `cvlc` has not.
pub proof fn playing_status_tells_the_player(m: AppModel)
    ensures
        !m.radio_fx ==> m.on_spawn(Player::Mpv, true).0.status == "playing via "@ + "mpv"@,
        !m.radio_fx ==> m.on_spawn(Player::Ffplay, true).0.status == "playing via "@ + "ffplay"@,
        m.on_spawn(Player::Cvlc, true).0.status == "playing via "@ + "cvlc"@,
        m.radio_fx ==> m.on_spawn(Player::Mpv, true).0.status == "playing via "@ + "mpv"@
            + " · radio fx"@,
        m.radio_fx ==> m.on_spawn(Player::Ffplay, true).0.status == "playing via "@ + "ffplay"@
            + " · radio fx"@,
{
    let e = Seq::<char>::empty();
    assert("playing via "@ + "mpv"@ + e == "playing via "@ + "mpv"@);
    assert("playing via "@ + "ffplay"@ + e == "playing via "@ + "ffplay"@);
    assert("playing via "@ + "cvlc"@ + e == "playing via "@ + "cvlc"@);
}

/// A frame moves the globe's centre and nothing else: one step closer while the
/// target is far, onto the target when it is near, and not at all when it is there.
/// Only a centre that moves asks for a new frame.
pub proof fn globe_glides_to_its_target(m: AppModel, g: Glide)
    ensures
        ({
            let n = m.tick(g);
            &&& !g.near ==> n.cur_lon == g.lon && n.cur_lat == g.lat && n.needs_redraw
            &&& g.near && !g.arrived ==> n.cur_lon == m.target_lon && n.cur_lat == m.target_lat
                && n.needs_redraw
            &&& g.near && g.arrived ==> n == m
            &&& n == (AppModel {
                cur_lon: n.cur_lon,
                cur_lat: n.cur_lat,
                needs_redraw: n.needs_redraw,
                ..m
            })
        }),
{
}

/// What is told of the verification's progress is shown, and nothing else changes.
pub proof fn progress_is_shown(m: AppModel, text: Seq<char>)
    ensures
        m.on_live(LiveModel::Progress(text)) == (AppModel {
            status: text,
            needs_redraw: true,
            ..m
        }),
{
}

/// The end of a load is told, with the number of stations or the reason; from then
/// on nothing is being loaded. The stations stay.
pub proof fn end_of_load_is_shown(m: AppModel, n: nat, e: Seq<char>)
    ensures
        m.on_live(LiveModel::Done(n)) == (AppModel {
            status: decimal(n) + " working stations loaded. ←/→ to browse · L to refresh."@,
            loading: false,
            needs_redraw: true,
            ..m
        }),
        m.on_live(LiveModel::Failed(e)) == (AppModel {
            status: "Live load failed: "@ + e + " — keeping current list."@,
            loading: false,
            needs_redraw: true,
            ..m
        }),
{
}

/// A station whose URL is loaded already is not added again.
pub proof fn known_stations_are_not_added(m: AppModel, s: StationModel, i: int)
    requires
        m.valid(),
        0 <= i < m.all_stations.len(),
        m.all_stations[i].url == s.url,
    ensures
        m.on_live(LiveModel::Add(s)) == (AppModel { needs_redraw: true, ..m }),
{
    assert(urls(m.all_stations).contains(s.url));
}

/// A station whose URL is new is appended to what is loaded. Where it is on the
/// filtered continent and in the filtered country it is appended to what is shown
/// too, and highlighted where it is the first there. What is selected and what
/// plays stay.
pub proof fn new_stations_are_added(m: AppModel, s: StationModel)
    requires
        m.valid(),
        forall|i: int| 0 <= i < m.all_stations.len() ==> (#[trigger] m.all_stations[i]).url != s.url,
    ensures
        ({
            let n = m.on_live(LiveModel::Add(s));
            let shown = (m.filter_continent is None || m.filter_continent == Some(
                crate::continent::continent_name(s.country),
            )) && (m.filter_country is None || m.filter_country == Some(s.country_name));
            &&& n.all_stations == m.all_stations.push(s)
            &&& n.stations == if shown {
                m.stations.push(s)
            } else {
                m.stations
            }
            &&& n.list_selected == if shown && m.stations.len() == 0 {
                Some(0int)
            } else {
                m.list_selected
            }
            &&& n.seen_urls == m.seen_urls.insert(s.url)
            &&& n == (AppModel {
                all_stations: n.all_stations,
                stations: n.stations,
                list_selected: n.list_selected,
                seen_urls: n.seen_urls,
                needs_redraw: true,
                ..m
            })
        }),
{
    assert(!urls(m.all_stations).contains(s.url));
}

/// The radio starts with the curated stations, all shown, the first selected and
/// the globe turned to it; nothing plays, nothing is loaded, there is no filter, and
/// a first frame is due. Colour and borders are on, the graticule, the maximized
/// globe and the radio filter are off.
pub proof fn radio_starts_with_the_curated_stations(curated: Seq<StationModel>)
    requires
        curated.len() > 0,
    ensures
        ({
            let m = AppModel::start(curated);
            &&& m.curated == curated && m.all_stations == curated && m.stations == curated
            &&& m.selected == 0 && m.list_selected == Some(0int)
            &&& m.cur_lon == curated[0].lon && m.target_lon == curated[0].lon
            &&& m.cur_lat == curated[0].lat && m.target_lat == curated[0].lat
            &&& m.filter_continent is None && m.filter_country is None
            &&& !m.filter_open && m.filter_items.len() == 0 && m.filter_sel == 0
            &&& m.color && m.borders && !m.graticule && !m.zoom && !m.radio_fx
            &&& !m.playing && !m.loading && !m.quit && m.needs_redraw
            &&& forall|u: Seq<char>| #[trigger]
                m.seen_urls.contains(u) <==> exists|i: int|
                    0 <= i < curated.len() && (#[trigger] curated[i]).url == u
        }),
{
}

/// The end of the messages ends the load, and a frame that was drawn is not due any
/// more; neither changes anything else. `Done` and `Failed` are the messages that
/// end a load.
pub proof fn ends_and_frames_are_noted(m: AppModel, n: nat, t: Seq<char>, s: StationModel)
    ensures
        m.on_lost() == (AppModel { loading: false, ..m }),
        m.drawn() == (AppModel { needs_redraw: false, ..m }),
        ends_load(LiveModel::Done(n)),
        ends_load(LiveModel::Failed(t)),
        !ends_load(LiveModel::Progress(t)),
        !ends_load(LiveModel::Add(s)),
{
}

/// An index beyond the list counts on round it.
pub proof fn indices_count_round_the_list(m: AppModel, idx: int)
    requires
        idx >= 0,
        m.stations.len() > 0,
    ensures
        m.select(idx + m.stations.len()) == m.select(idx),
        0 <= m.select(idx).0.selected < m.stations.len(),
        idx < m.stations.len() ==> m.select(idx).0.selected == idx,
{
    let n = m.stations.len() as int;
    vstd::arithmetic::div_mod::lemma_mod_multiples_vanish(1, idx, n);
    assert(n * 1 + idx == idx + n);
    if idx < n {
        lemma_small_mod(idx as nat, n as nat);
    }
}

/// Chance can give every station that is shown, and no other.
pub proof fn chance_picks_a_shown_station(m: AppModel, pick: int)
    requires
        m.stations.len() > 0,
    ensures
        m.can_pick(pick) <==> 0 <= pick < m.stations.len(),
{
}

/// Playing ends what plays and launches the selected station; stopping ends what
/// plays, and does nothing where nothing does.
pub proof fn playing_and_stopping(m: AppModel)
    requires
        m.valid(),
    ensures
        ({
            let (n, a) = m.play();
            let url = m.stations[m.selected].url;
            &&& !n.playing
            &&& m.stations.len() > 0 && url.len() > 0 ==> a == ActionModel::Launch(url) && n.status
                == m.status
            &&& m.stations.len() > 0 && url.len() == 0 ==> a == ActionModel::Kill && n.status
                == "No stream URL for this station."@
            &&& m.stations.len() == 0 ==> a == ActionModel::Kill && n.status == m.status
            &&& n == (AppModel { playing: n.playing, status: n.status, ..m })
        }),
        !m.playing ==> m.stop() == (m, ActionModel::Nothing),
        m.playing ==> m.stop() == (
            (AppModel { playing: false, status: "■ stopped"@, ..m }),
            ActionModel::Kill,
        ),
{
}

} // verus!
