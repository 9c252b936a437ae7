//! What holds of the radio whatever happens to it.
use vstd::arithmetic::div_mod::{
    lemma_add_mod_noop, lemma_fundamental_div_mod_converse, lemma_mod_multiples_vanish,
};
use vstd::prelude::*;

use crate::continent::continent_name;
use crate::directory::{knows_url, urls_push};
use crate::filter::{
    continent_count_is_shown, country_count_is_shown, every_station_is_counted, group_label,
    group_names, group_names_are_names, menu, menu_section, passes_filters, unfiltered_shows_all,
    visible, visible_push, Grouping, ItemModel, OpModel,
};
use crate::keys::{Key, UiEvent};
use crate::live::LiveModel;
use crate::model::{first_choice, first_named, is_choice, moved, ActionModel, AppModel, Glide};
use crate::player::Player;
use crate::ranking::{lists, occurrences, occurring_is_listed, ranking, ranking_ranks};
use crate::station::{has_url, StationModel};

verus! {

/// The radio starts in a valid state.
pub proof fn start_is_valid(curated: Seq<StationModel>)
    requires
        curated.len() > 0,
        forall|i: int| 0 <= i < curated.len() ==> has_url(#[trigger] curated[i]),
    ensures
        AppModel::start(curated).valid(),
{
    unfiltered_shows_all(curated);
}

/// Beginning to play, learning whether a player started, and stopping keep the
/// radio valid.
pub proof fn playing_keeps_valid(m: AppModel, player: Player, started: bool)
    requires
        m.valid(),
    ensures
        m.play().0.valid(),
        m.stop().0.valid(),
        m.on_spawn(player, started).0.valid(),
{
}

/// Selecting a station keeps the radio valid.
pub proof fn select_keeps_valid(m: AppModel, idx: int)
    requires
        m.valid(),
    ensures
        m.select(idx).0.valid(),
{
}

/// Moving the globe keeps the radio valid.
pub proof fn tick_keeps_valid(m: AppModel, g: Glide)
    requires
        m.valid(),
    ensures
        m.tick(g).valid(),
{
}

/// Starting over keeps the radio valid.
pub proof fn load_keeps_valid(m: AppModel)
    requires
        m.valid(),
    ensures
        m.load_live().0.valid(),
{
    unfiltered_shows_all(m.curated);
}

/// What the verification tells keeps the radio valid.
pub proof fn live_keeps_valid(m: AppModel, msg: LiveModel)
    requires
        m.valid(),
    ensures
        m.on_live(msg).valid(),
{
    if let LiveModel::Add(s) = msg {
        visible_push(m.all_stations, s, m.filter_continent, m.filter_country);
        urls_push(m.all_stations, s);
    }
}

/// Applying other filters makes the radio valid again.
pub proof fn filters_keep_valid(m: AppModel, n: AppModel)
    requires
        m.valid(),
        n == (AppModel {
            filter_continent: n.filter_continent,
            filter_country: n.filter_country,
            ..m
        }),
    ensures
        n.apply_filters().valid(),
{
}

/// Opening the menu keeps the radio valid.
pub proof fn open_keeps_valid(m: AppModel)
    requires
        m.valid(),
    ensures
        m.open_filter().valid(),
        m.open_filter().filter_sel == 0,
{
    let items = menu(m.all_stations, m.filter_continent, m.filter_country);
    assert(is_choice(items[0]));
    assert(first_choice(items, 0) == 0);
}

/// The entry that the cursor passes at its step number `i`.
pub open spec fn stop_at(items: Seq<ItemModel>, at: int, dir: int, i: int) -> ItemModel {
    items[(at + i * dir) % (items.len() as int)]
}

/// The stops of a cursor are those of the cursor that is one step ahead.
proof fn stops_from_next(items: Seq<ItemModel>, at: int, dir: int, i: int)
    requires
        0 <= at < items.len(),
    ensures
        ({
            let n = items.len() as int;
            let next = (at + dir) % n;
            &&& (next + i * dir) % n == (at + (i + 1) * dir) % n
            &&& stop_at(items, next, dir, i) == stop_at(items, at, dir, i + 1)
            &&& 0 <= next < n
            &&& i == 0 ==> stop_at(items, at, dir, 1) == items[next] && (at + 1 * dir) % n == next
        }),
{
    let n = items.len() as int;
    let next = (at + dir) % n;
    assert(i * dir + dir == (i + 1) * dir) by (nonlinear_arith);
    lemma_add_mod_noop(at + dir, i * dir, n);
    lemma_add_mod_noop(next, i * dir, n);
    vstd::arithmetic::div_mod::lemma_mod_twice(at + dir, n);
    assert(1 * dir == dir);
}

/// After how many steps of `dir` the cursor comes to rest, where some entry within
/// reach can be chosen: at the first that can.
pub proof fn cursor_path(items: Seq<ItemModel>, at: int, dir: int, most: int, j: int) -> (k: int)
    requires
        0 <= at < items.len(),
        1 <= j <= most,
        is_choice(stop_at(items, at, dir, j)),
    ensures
        1 <= k <= most,
        moved(items, at, dir, most) == (at + k * dir) % (items.len() as int),
        is_choice(stop_at(items, at, dir, k)),
        forall|i: int| 1 <= i < k ==> !is_choice(#[trigger] stop_at(items, at, dir, i)),
    decreases most,
{
    let next = (at + dir) % (items.len() as int);
    stops_from_next(items, at, dir, 0);
    if is_choice(items[next]) {
        1
    } else {
        stops_from_next(items, at, dir, j - 1);
        let k = 1 + cursor_path(items, next, dir, most - 1, j - 1);
        assert forall|i: int| 1 <= i < k implies !is_choice(
            #[trigger] stop_at(items, at, dir, i),
        ) by {
            stops_from_next(items, at, dir, i - 1);
            if i > 1 {
                assert(!is_choice(stop_at(items, next, dir, i - 1)));
            }
        }
        stops_from_next(items, at, dir, k - 1);
        k
    }
}

/// Where some entry within reach can be chosen, the cursor comes to rest on one
/// that can.
pub proof fn cursor_finds_choice(items: Seq<ItemModel>, at: int, dir: int, most: int, k: int)
    requires
        0 <= at < items.len(),
        1 <= k <= most,
        is_choice(stop_at(items, at, dir, k)),
    ensures
        0 <= moved(items, at, dir, most) < items.len(),
        is_choice(items[moved(items, at, dir, most)]),
{
    let _ = cursor_path(items, at, dir, most, k);
}

/// Moving the menu's cursor keeps the radio valid: it never rests on a heading.
pub proof fn step_keeps_valid(m: AppModel, dir: int)
    requires
        m.valid(),
    ensures
        m.filter_step(dir).valid(),
{
    let n = m.filter_items.len() as int;
    if n > 0 {
        cursor_stays_in_menu(m.filter_items, m.filter_sel, dir, n);
        if m.filter_open {
            lemma_mod_multiples_vanish(dir, m.filter_sel, n);
            assert(n * dir + m.filter_sel == m.filter_sel + n * dir);
            vstd::arithmetic::div_mod::lemma_small_mod(m.filter_sel as nat, n as nat);
            cursor_finds_choice(m.filter_items, m.filter_sel, dir, n, n);
        }
    }
}

proof fn cursor_stays_in_menu(items: Seq<ItemModel>, at: int, dir: int, most: int)
    requires
        0 <= at < items.len(),
    ensures
        0 <= moved(items, at, dir, most) < items.len(),
    decreases most,
{
    if most > 0 {
        let next = (at + dir) % (items.len() as int);
        cursor_stays_in_menu(items, next, dir, most - 1);
    }
}

/// A cursor comes to rest at the first of its stops that can be chosen.
proof fn cursor_rests(items: Seq<ItemModel>, at: int, dir: int, most: int, k: int)
    requires
        0 <= at < items.len(),
        1 <= k <= most,
        is_choice(stop_at(items, at, dir, k)),
        forall|i: int| 1 <= i < k ==> !is_choice(#[trigger] stop_at(items, at, dir, i)),
    ensures
        moved(items, at, dir, most) == (at + k * dir) % (items.len() as int),
    decreases most,
{
    let next = (at + dir) % (items.len() as int);
    stops_from_next(items, at, dir, 0);
    if k > 1 {
        assert(!is_choice(stop_at(items, at, dir, 1)));
        assert forall|i: int| 1 <= i < k - 1 implies !is_choice(
            #[trigger] stop_at(items, next, dir, i),
        ) by {
            stops_from_next(items, at, dir, i);
            assert(!is_choice(stop_at(items, at, dir, i + 1)));
        }
        stops_from_next(items, at, dir, k - 1);
        cursor_rests(items, next, dir, most - 1, k - 1);
    }
}

/// The stops on the way back are those on the way there.
proof fn stops_on_the_way_back(items: Seq<ItemModel>, at: int, dir: int, k: int, i: int)
    requires
        0 <= at < items.len(),
    ensures
        ({
            let n = items.len() as int;
            let there = (at + k * dir) % n;
            &&& (there + i * -dir) % n == (at + (k - i) * dir) % n
            &&& stop_at(items, there, -dir, i) == stop_at(items, at, dir, k - i)
        }),
{
    let n = items.len() as int;
    let there = (at + k * dir) % n;
    assert(k * dir + i * -dir == (k - i) * dir) by (nonlinear_arith);
    lemma_add_mod_noop(at + k * dir, i * -dir, n);
    lemma_add_mod_noop(there, i * -dir, n);
    vstd::arithmetic::div_mod::lemma_mod_twice(at + k * dir, n);
}

/// A step in the open menu and a step back leave everything as it was, whatever
/// headings lie between.
pub proof fn menu_steps_undo_each_other(m: AppModel, dir: int)
    requires
        m.valid(),
        m.filter_open,
    ensures
        m.filter_step(dir).filter_step(-dir) == m,
{
    let items = m.filter_items;
    let n = items.len() as int;
    let at = m.filter_sel;
    lemma_mod_multiples_vanish(dir, at, n);
    assert(n * dir + at == at + n * dir);
    vstd::arithmetic::div_mod::lemma_small_mod(at as nat, n as nat);
    let k = cursor_path(items, at, dir, n, n);
    let there = (at + k * dir) % n;
    assert forall|i: int| 1 <= i < k implies !is_choice(
        #[trigger] stop_at(items, there, -dir, i),
    ) by {
        stops_on_the_way_back(items, at, dir, k, i);
        assert(!is_choice(stop_at(items, at, dir, k - i)));
    }
    stops_on_the_way_back(items, at, dir, k, k);
    assert(0 * dir == 0);
    cursor_rests(items, there, -dir, n, k);
}

/// The keys that move the menu's cursor undo each other.
pub proof fn menu_keys_undo_each_other(m: AppModel)
    requires
        m.valid(),
        m.filter_open,
    ensures
        m.on_filter_key(Key::Down).on_filter_key(Key::Up) == m,
        m.on_filter_key(Key::Up).on_filter_key(Key::Down) == m,
        m.on_filter_key(Key::Char('j')).on_filter_key(Key::Char('k')) == m,
        m.on_filter_key(Key::Char('k')).on_filter_key(Key::Char('j')) == m,
{
    menu_steps_undo_each_other(m, 1);
    menu_steps_undo_each_other(m, -1);
}

/// Choosing from the menu keeps the radio valid.
pub proof fn choosing_keeps_valid(m: AppModel)
    requires
        m.valid(),
    ensures
        m.filter_apply_selected().valid(),
{
}

/// Every key keeps the radio valid while the menu is open.
pub proof fn menu_key_keeps_valid(m: AppModel, key: Key)
    requires
        m.valid(),
    ensures
        m.on_filter_key(key).valid(),
{
    let closed = AppModel { filter_open: false, ..m };
    assert(closed.valid());
    step_keeps_valid(m, 1);
    step_keeps_valid(m, -1);
    choosing_keeps_valid(m);
}

/// Switching the radio filter keeps the radio valid.
pub proof fn switch_keeps_valid(m: AppModel)
    requires
        m.valid(),
    ensures
        m.switch_fx().0.valid(),
{
    let n = AppModel { radio_fx: !m.radio_fx, ..m };
    assert(n.valid());
    playing_keeps_valid(n, Player::Mpv, true);
}

/// Every character key keeps the radio valid while the menu is closed.
pub proof fn char_keeps_valid(m: AppModel, c: char, pick: int)
    requires
        m.valid(),
    ensures
        m.on_char(c, pick).0.valid(),
{
    if c == 'q' {
        playing_keeps_valid(m, Player::Mpv, true);
    } else if c == 'l' || c == 'j' {
        select_keeps_valid(m, m.selected + 1);
    } else if c == 'h' || c == 'k' {
        select_keeps_valid(m, m.selected + m.stations.len() - 1);
    } else if c == 'x' {
        select_keeps_valid(m, pick);
    } else if c == 'f' {
        open_keeps_valid(m);
    } else if c == 'r' {
        switch_keeps_valid(m);
    } else if c == 'L' {
        load_keeps_valid(m);
    } else if c == 'p' || c == ' ' {
        playing_keeps_valid(m, Player::Mpv, true);
    } else {
        let n = m.on_char(c, pick).0;
        assert(n.curated == m.curated && n.stations == m.stations);
    }
}

/// Every key keeps the radio valid.
pub proof fn key_keeps_valid(m: AppModel, key: Key, pick: int)
    requires
        m.valid(),
    ensures
        m.on_key(key, pick).0.valid(),
{
    let n = AppModel { needs_redraw: true, ..m };
    assert(n.valid());
    if m.filter_open {
        menu_key_keeps_valid(n, key);
    } else {
        match key {
            Key::Char(c) => {
                char_keeps_valid(n, c, pick);
            },
            Key::Esc => {
                char_keeps_valid(n, 'q', pick);
            },
            _ => {
                select_keeps_valid(n, n.selected + 1);
                select_keeps_valid(n, n.selected + n.stations.len() - 1);
            },
        }
    }
}

/// Every event of the terminal keeps the radio valid.
pub proof fn event_keeps_valid(m: AppModel, event: UiEvent, pick: int)
    requires
        m.valid(),
    ensures
        m.on_event(event, pick).0.valid(),
{
    if let UiEvent::Press(key) = event {
        key_keeps_valid(m, key, pick);
    }
}

/// Turning to a station by name keeps the radio valid.
pub proof fn focus_keeps_valid(m: AppModel, name: Seq<char>)
    requires
        m.valid(),
    ensures
        m.focus(name).valid(),
{
    first_named_range(m.stations, name, 0);
}

proof fn first_named_range(list: Seq<StationModel>, name: Seq<char>, from: int)
    requires
        0 <= from <= list.len(),
    ensures
        from <= first_named(list, name, from) <= list.len(),
    decreases list.len() - from,
{
    if from < list.len() {
        first_named_range(list, name, from + 1);
    }
}

/// Whether a station is tuned in: it is selected, the list highlights it, and the
/// globe turns to it.
pub open spec fn tuned_in(m: AppModel, at: int) -> bool {
    &&& m.selected == at
    &&& m.list_selected == Some(at)
    &&& m.target_lon == m.stations[at].lon
    &&& m.target_lat == m.stations[at].lat
}

/// Tuning forward and back, or back and forward, comes to the same station: it is
/// selected and highlighted again, and the globe turns to it.
pub proof fn next_and_previous_undo_each_other(m: AppModel)
    requires
        m.valid(),
    ensures
        m.next_station().0.previous_station().0.stations == m.stations,
        m.previous_station().0.next_station().0.stations == m.stations,
        m.next_station().0.previous_station().0.selected == m.selected,
        m.previous_station().0.next_station().0.selected == m.selected,
        m.next_station().0.previous_station().0.list_selected == m.list_selected,
        m.previous_station().0.next_station().0.list_selected == m.list_selected,
        m.stations.len() > 0 ==> tuned_in(m.next_station().0.previous_station().0, m.selected),
        m.stations.len() > 0 ==> tuned_in(m.previous_station().0.next_station().0, m.selected),
{
    let n = m.stations.len() as int;
    if n > 0 {
        let at = m.selected;
        if at + 1 < n {
            lemma_fundamental_div_mod_converse(at + 1, n, 0, at + 1);
            lemma_fundamental_div_mod_converse(at + 1 + n - 1, n, 1, at);
        } else {
            lemma_fundamental_div_mod_converse(at + 1, n, 1, 0);
            lemma_fundamental_div_mod_converse(0 + n - 1, n, 0, at);
        }
        if at > 0 {
            lemma_fundamental_div_mod_converse(at + n - 1, n, 1, at - 1);
            lemma_fundamental_div_mod_converse(at - 1 + 1, n, 0, at);
        } else {
            lemma_fundamental_div_mod_converse(at + n - 1, n, 0, n - 1);
            lemma_fundamental_div_mod_converse(n - 1 + 1, n, 1, 0);
        }
    }
}

/// The radio after tuning forward `k` times.
pub open spec fn tuned(m: AppModel, k: nat) -> AppModel
    decreases k,
{
    if k == 0 {
        m
    } else {
        tuned(m, (k - 1) as nat).next_station().0
    }
}

/// Tuning forward goes through the list one by one and round it, so that as many
/// steps as there are stations come to the same station again.
pub proof fn tuning_goes_round(m: AppModel, k: nat)
    requires
        m.valid(),
        m.stations.len() > 0,
    ensures
        tuned(m, k).valid(),
        tuned(m, k).stations == m.stations,
        tuned(m, k).selected == (m.selected + k) % (m.stations.len() as int),
        k == m.stations.len() ==> tuned(m, k).selected == m.selected,
    decreases k,
{
    let n = m.stations.len() as int;
    vstd::arithmetic::div_mod::lemma_small_mod(m.selected as nat, n as nat);
    if k > 0 {
        let before = tuned(m, (k - 1) as nat);
        tuning_goes_round(m, (k - 1) as nat);
        select_keeps_valid(before, before.selected + 1);
        lemma_add_mod_noop(m.selected + k - 1, 1, n);
        lemma_add_mod_noop(before.selected, 1, n);
        vstd::arithmetic::div_mod::lemma_mod_twice(m.selected + k - 1, n);
    }
    if k == n {
        lemma_mod_multiples_vanish(1, m.selected, n);
    }
}

/// Selecting a station while something plays plays it in place of that; otherwise
/// nothing is played.
pub proof fn selecting_retunes(m: AppModel, idx: int)
    requires
        m.valid(),
        m.stations.len() > 0,
        forall|i: int| 0 <= i < m.stations.len() ==> has_url(#[trigger] m.stations[i]),
    ensures
        m.playing ==> m.select(idx).1 == ActionModel::Launch(
            m.stations[idx % (m.stations.len() as int)].url,
        ),
        !m.playing ==> m.select(idx).1 == ActionModel::Nothing,
{
    let at = idx % (m.stations.len() as int);
    assert(has_url(m.stations[at]));
}

/// How many players are left to try, this one included.
pub open spec fn players_left(p: Player) -> int {
    match p {
        Player::Mpv => 3,
        Player::Ffplay => 2,
        Player::Cvlc => 1,
    }
}

/// The radio after the players from `player` on were tried, where `starts` tells
/// which of them start.
pub open spec fn launched(m: AppModel, player: Player, starts: spec_fn(Player) -> bool) -> AppModel
    decreases players_left(player),
{
    let (n, next) = m.on_spawn(player, starts(player));
    match next {
        Some(p) => launched(n, p, starts),
        None => n,
    }
}

/// The first player that starts plays; where none does, the listener is told. When
/// a station is begun, something plays afterwards exactly where one of them starts.
pub proof fn first_player_that_starts_plays(m: AppModel, starts: spec_fn(Player) -> bool)
    ensures
        launched(m, Player::Mpv, starts) == if starts(Player::Mpv) {
            m.on_spawn(Player::Mpv, true).0
        } else if starts(Player::Ffplay) {
            m.on_spawn(Player::Ffplay, true).0
        } else if starts(Player::Cvlc) {
            m.on_spawn(Player::Cvlc, true).0
        } else {
            (AppModel { status: "No CLI audio player found (install mpv or ffmpeg)."@, ..m })
        },
        launched(m.play().0, Player::Mpv, starts).playing == (starts(Player::Mpv) || starts(
            Player::Ffplay,
        ) || starts(Player::Cvlc)),
{
    reveal_with_fuel(launched, 4);
}

/// The keys that switch colour, graticule, borders and the maximized globe undo
/// themselves when pressed again.
#[verifier::rlimit(40)]
pub proof fn switches_undo_themselves(m: AppModel, c: char, pick: int)
    requires
        !m.filter_open,
        c == 'c' || c == 'g' || c == 'b' || c == 'z',
    ensures
        m.on_key(Key::Char(c), pick).0.on_key(Key::Char(c), pick).0 == (AppModel {
            needs_redraw: true,
            ..m
        }),
{
}

/// The radio filter's key undoes itself when pressed again, and starts again what
/// is playing.
pub proof fn radio_filter_undoes_itself(m: AppModel)
    requires
        m.valid(),
    ensures
        m.switch_fx().0.radio_fx == !m.radio_fx,
        m.switch_fx().0.switch_fx().0.radio_fx == m.radio_fx,
        m.playing ==> m.switch_fx().1 == (AppModel { radio_fx: !m.radio_fx, ..m }).play().1,
        !m.playing ==> m.switch_fx().1 == ActionModel::Nothing,
{
}

/// An event of the terminal asks for a new frame, or leaves the radio as it was.
#[verifier::rlimit(40)]
pub proof fn events_ask_for_a_frame(m: AppModel, event: UiEvent, pick: int)
    ensures
        m.on_event(event, pick).0.needs_redraw || m.on_event(event, pick).0 == m,
{
    if let UiEvent::Press(key) = event {
        let n = AppModel { needs_redraw: true, ..m };
        assert(n.on_filter_key(key).needs_redraw);
        assert(n.leave().0.needs_redraw);
        assert(n.next_station().0.needs_redraw);
        assert(n.previous_station().0.needs_redraw);
        if let Key::Char(c) = key {
            assert(n.on_char(c, pick).0.needs_redraw);
        }
    }
}

/// A move of the globe asks for a new frame, or leaves the radio as it was; every
/// message of the verification asks for one.
pub proof fn moves_and_messages_ask_for_a_frame(m: AppModel, g: Glide, msg: LiveModel)
    ensures
        m.tick(g).needs_redraw || m.tick(g) == m,
        m.on_live(msg).needs_redraw,
{
}

/// The stations shown are exactly those of all stations that pass both filters.
pub proof fn shown_are_those_that_pass(m: AppModel)
    requires
        m.valid(),
    ensures
        forall|i: int|
            0 <= i < m.stations.len() ==> passes_filters(
                m.filter_continent,
                m.filter_country,
                #[trigger] m.stations[i],
            ) && m.all_stations.contains(m.stations[i]),
        forall|i: int|
            0 <= i < m.all_stations.len() && passes_filters(
                m.filter_continent,
                m.filter_country,
                #[trigger] m.all_stations[i],
            ) ==> m.stations.contains(m.all_stations[i]),
{
    let keep = |s: StationModel| passes_filters(m.filter_continent, m.filter_country, s);
    assert forall|i: int| 0 <= i < m.stations.len() implies passes_filters(
        m.filter_continent,
        m.filter_country,
        #[trigger] m.stations[i],
    ) && m.all_stations.contains(m.stations[i]) by {
        m.all_stations.lemma_filter_pred(keep, i);
        shown_is_loaded(m.all_stations, keep, i);
    }
    assert forall|i: int|
        0 <= i < m.all_stations.len() && passes_filters(
            m.filter_continent,
            m.filter_country,
            #[trigger] m.all_stations[i],
        ) implies m.stations.contains(m.all_stations[i]) by {
        m.all_stations.lemma_filter_contains(keep, i);
    }
}

proof fn shown_is_loaded(all: Seq<StationModel>, keep: spec_fn(StationModel) -> bool, i: int)
    requires
        0 <= i < all.filter(keep).len(),
    ensures
        all.contains(all.filter(keep)[i]),
    decreases all.len(),
{
    reveal(Seq::filter);
    let rest = all.drop_last();
    if i < rest.filter(keep).len() {
        shown_is_loaded(rest, keep, i);
        let k = rest.index_of(rest.filter(keep)[i]);
        assert(all[k] == all.filter(keep)[i]);
    } else {
        assert(all[all.len() - 1] == all.filter(keep)[i]);
    }
}

/// Clearing the filters shows every station again.
pub proof fn clearing_shows_all(m: AppModel)
    requires
        m.valid(),
    ensures
        m.with_op(OpModel::Clear).apply_filters().stations == m.all_stations,
        m.with_op(OpModel::Clear).apply_filters().filter_continent is None,
        m.with_op(OpModel::Clear).apply_filters().filter_country is None,
{
    unfiltered_shows_all(m.all_stations);
}

/// The two filters stack: filtering by one and then by the other shows the
/// stations that pass both, in whichever order they are chosen.
pub proof fn filters_stack(m: AppModel, c: Seq<char>, y: Seq<char>)
    ensures
        ({
            let one = m.with_op(OpModel::Continent(Some(c))).apply_filters().with_op(
                OpModel::Country(Some(y)),
            ).apply_filters();
            let other = m.with_op(OpModel::Country(Some(y))).apply_filters().with_op(
                OpModel::Continent(Some(c)),
            ).apply_filters();
            &&& one.stations == other.stations
            &&& one.stations == visible(m.all_stations, Some(c), Some(y))
        }),
{
}

/// Whether a menu has an entry that does this.
pub open spec fn offers(items: Seq<ItemModel>, op: OpModel) -> bool {
    exists|k: int| 0 <= k < items.len() && is_choice(#[trigger] items[k]) && items[k]->op == op
}

/// The menu has an entry for every continent and every country that a station has.
pub proof fn menu_lists_what_is_there(m: AppModel, i: int)
    requires
        0 <= i < m.all_stations.len(),
    ensures
        offers(
            m.open_filter().filter_items,
            OpModel::Continent(Some(continent_name(m.all_stations[i].country))),
        ),
        m.all_stations[i].country_name.len() > 0 ==> offers(
            m.open_filter().filter_items,
            OpModel::Country(Some(m.all_stations[i].country_name)),
        ),
{
    every_station_is_counted(m.all_stations, i);
    let a = group_names(m.all_stations, Grouping::Continent);
    let b = group_names(m.all_stations, Grouping::Country);
    ranking_ranks(a);
    ranking_ranks(b);
    let first = menu_section(m.all_stations, Grouping::Continent, m.filter_continent);
    let items = m.open_filter().filter_items;
    let c = continent_name(m.all_stations[i].country);
    assert(lists(ranking(a), a[a.index_of(c)]));
    let k = choose|k: int| 0 <= k < ranking(a).len() && (#[trigger] ranking(a)[k]).0 == c;
    assert(items[k + 3] == first[k + 2]);
    assert(is_choice(items[k + 3]));
    if m.all_stations[i].country_name.len() > 0 {
        let second = menu_section(m.all_stations, Grouping::Country, m.filter_country);
        let y = m.all_stations[i].country_name;
        assert(lists(ranking(b), b[b.index_of(y)]));
        let k = choose|k: int| 0 <= k < ranking(b).len() && (#[trigger] ranking(b)[k]).0 == y;
        assert(items[k + 3 + first.len()] == second[k + 2]);
        assert(is_choice(items[k + 3 + first.len()]));
    }
}

/// The menu always offers to drop either filter, and both at once.
pub proof fn filters_can_be_dropped(m: AppModel)
    ensures
        offers(m.open_filter().filter_items, OpModel::Clear),
        offers(m.open_filter().filter_items, OpModel::Continent(None)),
        offers(m.open_filter().filter_items, OpModel::Country(None)),
{
    let first = menu_section(m.all_stations, Grouping::Continent, m.filter_continent);
    let second = menu_section(m.all_stations, Grouping::Country, m.filter_country);
    let items = m.open_filter().filter_items;
    assert(is_choice(items[0]));
    assert(items[2] == first[1] && is_choice(items[2]));
    let k = first.len() + 2int;
    assert(items[k] == second[1] && is_choice(items[k]));
}

/// An entry of one of the menu's sections is active where it sets the section's
/// filter to what it is.
proof fn active_in_section(all: Seq<StationModel>, by: Grouping, filter: Option<Seq<char>>, i: int)
    requires
        0 <= i < menu_section(all, by, filter).len(),
        is_choice(menu_section(all, by, filter)[i]),
    ensures
        ({
            let item = menu_section(all, by, filter)[i];
            match by {
                Grouping::Continent => item->op is Continent && item->active == (filter
                    == item->op->Continent_0),
                Grouping::Country => item->op is Country && item->active == (filter
                    == item->op->Country_0),
            }
        }),
{
}

/// An entry of the menu is marked as active exactly where choosing it would leave
/// the filters as they are.
pub proof fn active_entries_tell_the_filters(m: AppModel, i: int)
    requires
        0 <= i < m.open_filter().filter_items.len(),
        is_choice(m.open_filter().filter_items[i]),
    ensures
        ({
            let item = m.open_filter().filter_items[i];
            let chosen = m.with_op(item->op);
            item->active == (chosen.filter_continent == m.filter_continent
                && chosen.filter_country == m.filter_country)
        }),
{
    let first = menu_section(m.all_stations, Grouping::Continent, m.filter_continent);
    let second = menu_section(m.all_stations, Grouping::Country, m.filter_country);
    let items = m.open_filter().filter_items;
    assert(items.len() == 1 + first.len() + second.len());
    if i >= 1 + first.len() {
        assert(items[i] == second[i - 1 - first.len()]);
        active_in_section(
            m.all_stations,
            Grouping::Country,
            m.filter_country,
            i - 1 - first.len(),
        );
    } else if i >= 1 {
        assert(items[i] == first[i - 1]);
        active_in_section(m.all_stations, Grouping::Continent, m.filter_continent, i - 1);
    }
}

/// An entry of the menu for a continent or a country is one of the ranking's.
proof fn group_entry(m: AppModel, by: Grouping, i: int, v: Seq<char>) -> (e: (Seq<char>, nat))
    requires
        0 <= i < m.open_filter().filter_items.len(),
        m.open_filter().filter_items[i] is Choice,
        m.open_filter().filter_items[i]->op == match by {
            Grouping::Continent => OpModel::Continent(Some(v)),
            Grouping::Country => OpModel::Country(Some(v)),
        },
    ensures
        e.0 == v,
        e.1 == occurrences(group_names(m.all_stations, by), v),
        e.1 > 0,
        m.open_filter().filter_items[i]->label == group_label(e),
{
    let a = ranking(group_names(m.all_stations, Grouping::Continent));
    let b = ranking(group_names(m.all_stations, Grouping::Country));
    ranking_ranks(group_names(m.all_stations, Grouping::Continent));
    ranking_ranks(group_names(m.all_stations, Grouping::Country));
    let items = m.open_filter().filter_items;
    let first = menu_section(m.all_stations, Grouping::Continent, m.filter_continent);
    let second = menu_section(m.all_stations, Grouping::Country, m.filter_country);
    assert(items.len() == 1 + first.len() + second.len());
    if i < 1 + first.len() {
        assert(items[i] == first[i - 1]);
        a[i - 3]
    } else {
        assert(items[i] == second[i - 1 - first.len()]);
        b[i - 1 - first.len() - 2]
    }
}

/// Choosing a continent while no country is filtered by shows as many stations as
/// the menu's entry told, and at least one.
pub proof fn continent_entry_tells_the_count(m: AppModel, i: int, v: Seq<char>)
    requires
        m.filter_country is None,
        0 <= i < m.open_filter().filter_items.len(),
        m.open_filter().filter_items[i] is Choice,
        m.open_filter().filter_items[i]->op == OpModel::Continent(Some(v)),
    ensures
        ({
            let shown = m.with_op(OpModel::Continent(Some(v))).apply_filters().stations;
            &&& shown.len() > 0
            &&& m.open_filter().filter_items[i]->label == group_label((v, shown.len()))
        }),
{
    let e = group_entry(m, Grouping::Continent, i, v);
    continent_count_is_shown(m.all_stations, v);
}

/// Choosing a country while no continent is filtered by shows as many stations as
/// the menu's entry told, and at least one.
pub proof fn country_entry_tells_the_count(m: AppModel, i: int, v: Seq<char>)
    requires
        m.filter_continent is None,
        0 <= i < m.open_filter().filter_items.len(),
        m.open_filter().filter_items[i] is Choice,
        m.open_filter().filter_items[i]->op == OpModel::Country(Some(v)),
    ensures
        ({
            let shown = m.with_op(OpModel::Country(Some(v))).apply_filters().stations;
            &&& shown.len() > 0
            &&& m.open_filter().filter_items[i]->label == group_label((v, shown.len()))
        }),
{
    let e = group_entry(m, Grouping::Country, i, v);
    let names = group_names(m.all_stations, Grouping::Country);
    let k = occurring_is_listed(names, v);
    group_names_are_names(m.all_stations, k);
    country_count_is_shown(m.all_stations, v);
}

/// While the menu is open, keys change the filters and the menu alone: nothing is
/// played or stopped, no station is lost, and the program goes on.
pub proof fn menu_keys_stay_in_the_menu(m: AppModel, key: Key, pick: int)
    requires
        m.filter_open,
    ensures
        m.on_key(key, pick).1 == ActionModel::Nothing,
        m.on_key(key, pick).0.all_stations == m.all_stations,
        m.on_key(key, pick).0.playing == m.playing,
        m.on_key(key, pick).0.loading == m.loading,
        m.on_key(key, pick).0.quit == m.quit,
{
}

/// Leaving stops what is playing.
pub proof fn leaving_stops_the_player(m: AppModel)
    ensures
        m.leave().0.quit,
        !m.leave().0.playing,
        m.playing ==> m.leave().1 == ActionModel::Kill,
{
}

/// Asking to load while stations are being loaded does nothing.
pub proof fn loading_is_not_begun_twice(m: AppModel)
    ensures
        m.load_live().0.load_live() == (m.load_live().0, ActionModel::Nothing),
{
}

/// Where the load fails, the lists stay as they are, and loading can be tried
/// again.
pub proof fn failure_keeps_the_list(m: AppModel, e: Seq<char>)
    ensures
        m.on_live(LiveModel::Failed(e)).all_stations == m.all_stations,
        m.on_live(LiveModel::Failed(e)).stations == m.stations,
        m.on_live(LiveModel::Failed(e)).load_live().1 == ActionModel::Load,
{
}

/// Whether no URL stands twice in a list.
pub open spec fn distinct_urls(list: Seq<StationModel>) -> bool {
    forall|i: int, j: int|
        0 <= i < j < list.len() ==> (#[trigger] list[i]).url != (#[trigger] list[j]).url
}

/// No URL is ever loaded twice: adding a station keeps the URLs distinct, and one
/// whose URL is known changes nothing.
pub proof fn no_url_is_added_twice(m: AppModel, s: StationModel)
    requires
        m.valid(),
        distinct_urls(m.all_stations),
    ensures
        distinct_urls(m.add(s).all_stations),
        m.add(s).add(s) == m.add(s),
        knows_url(m.add(s).all_stations, s.url),
{
    let n = m.add(s);
    assert(m.seen_urls.contains(s.url) == knows_url(m.all_stations, s.url));
    if !m.seen_urls.contains(s.url) {
        assert(n.all_stations[m.all_stations.len() as int].url == s.url);
        assert forall|i: int, j: int| 0 <= i < j < n.all_stations.len() implies (
        #[trigger] n.all_stations[i]).url != (#[trigger] n.all_stations[j]).url by {
            assert(n.all_stations[i] == m.all_stations[i]);
            if j < m.all_stations.len() {
                assert(n.all_stations[j] == m.all_stations[j]);
            }
        }
    }
}

/// A station is lost neither from all stations nor from those shown when another
/// is added, and the selected one stays selected.
pub proof fn adding_keeps_the_others(m: AppModel, s: StationModel)
    requires
        m.valid(),
    ensures
        m.all_stations.is_prefix_of(m.add(s).all_stations),
        m.stations.is_prefix_of(m.add(s).stations),
        m.add(s).selected == m.selected,
{
}

/// Whether every station of a list has a URL.
pub open spec fn all_have_urls(list: Seq<StationModel>) -> bool {
    forall|i: int| 0 <= i < list.len() ==> has_url(#[trigger] list[i])
}

/// An event of the terminal leaves all stations as they are or starts over from
/// the curated ones, which stay the same.
pub proof fn event_keeps_or_restarts(m: AppModel, event: UiEvent, pick: int)
    ensures
        m.on_event(event, pick).0.curated == m.curated,
        m.on_event(event, pick).0.all_stations == m.all_stations || m.on_event(
            event,
            pick,
        ).0.all_stations == m.curated,
{
    if let UiEvent::Press(key) = event {
        key_keeps_or_restarts(m, key, pick);
    }
}

/// A key leaves all stations as they are or starts over from the curated ones.
proof fn key_keeps_or_restarts(m: AppModel, key: Key, pick: int)
    ensures
        m.on_key(key, pick).0.curated == m.curated,
        m.on_key(key, pick).0.all_stations == m.all_stations || m.on_key(
            key,
            pick,
        ).0.all_stations == m.curated,
{
    let n = AppModel { needs_redraw: true, ..m };
    menu_key_keeps_stations(n, key);
    if let Key::Char(c) = key {
        char_keeps_or_restarts(n, c, pick);
    }
}

proof fn menu_key_keeps_stations(m: AppModel, key: Key)
    ensures
        m.on_filter_key(key).curated == m.curated,
        m.on_filter_key(key).all_stations == m.all_stations,
{
}

/// Tuning, playing, stopping and leaving keep the lists of stations.
proof fn playing_keeps_lists(m: AppModel, idx: int)
    ensures
        m.play().0.curated == m.curated && m.play().0.all_stations == m.all_stations,
        m.stop().0.curated == m.curated && m.stop().0.all_stations == m.all_stations,
        m.leave().0.curated == m.curated && m.leave().0.all_stations == m.all_stations,
        m.switch_fx().0.curated == m.curated && m.switch_fx().0.all_stations == m.all_stations,
        m.select(idx).0.curated == m.curated && m.select(idx).0.all_stations == m.all_stations,
{
}

proof fn char_keeps_or_restarts(m: AppModel, c: char, pick: int)
    ensures
        m.on_char(c, pick).0.curated == m.curated,
        m.on_char(c, pick).0.all_stations == m.all_stations || m.on_char(c, pick).0.all_stations
            == m.curated,
{
    let n = m.on_char(c, pick).0;
    playing_keeps_lists(m, pick);
    if c == 'L' {
        assert(n == m.load_live().0);
    } else if c == 'l' || c == 'j' {
        playing_keeps_lists(m, m.selected + 1);
        assert(n == m.next_station().0);
    } else if c == 'h' || c == 'k' {
        playing_keeps_lists(m, m.selected + m.stations.len() - 1);
        assert(n == m.previous_station().0);
    } else if c == 'f' {
        assert(n == m.open_filter());
    }
}

} // verus!
