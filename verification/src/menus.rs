//! What the filter menu shows, and what its keys do.
use vstd::arithmetic::div_mod::{
    lemma_fundamental_div_mod_converse, lemma_mod_multiples_vanish, lemma_small_mod,
};
use vstd::prelude::*;

use crate::continent::continent_name;
use crate::filter::{
    continent_count_is_shown, country_count_is_shown, group_names, group_names_are_names,
    menu_section, passes_filters, visible, Grouping, ItemModel, OpModel,
};
use crate::keys::Key;
use crate::laws::{cursor_path, focus_keeps_valid, stop_at};
use crate::model::{first_named, ActionModel, AppModel};
use crate::ranking::{occurrences, occurring_is_listed, ranking, ranking_ranks, ranks_before};
use crate::station::StationModel;
use crate::text::{decimal, precedes};

verus! {

/// The stations shown are those of all stations, in their order, that are on the
/// filtered continent, where there is one, and in the filtered country, where there
/// is one.
pub proof fn shown_are_on_the_continent_and_in_the_country(m: AppModel)
    requires
        m.valid(),
    ensures
        m.stations == m.all_stations.filter(
            |s: StationModel|
                (m.filter_continent is None || continent_name(s.country) == m.filter_continent->0)
                    && (m.filter_country is None || s.country_name == m.filter_country->0),
        ),
{
    filtered_by(m.all_stations, m.filter_continent, m.filter_country);
}

proof fn filtered_by(
    all: Seq<StationModel>,
    continent: Option<Seq<char>>,
    country: Option<Seq<char>>,
)
    ensures
        visible(all, continent, country) == all.filter(
            |s: StationModel|
                (continent is None || continent_name(s.country) == continent->0) && (country is None
                    || s.country_name == country->0),
        ),
{
    let f = |s: StationModel| passes_filters(continent, country, s);
    let g = |s: StationModel|
        (continent is None || continent_name(s.country) == continent->0) && (country is None
            || s.country_name == country->0);
    assert(f =~= g);
}

/// In the open menu `↓` and `j` move the cursor to the next entry, `↑` and `k` to the
/// one before, round the menu, and over a heading to the entry behind it. Nothing
/// else changes.
pub proof fn cursor_keys_move_by_one_entry(m: AppModel, key: Key, pick: int)
    requires
        m.valid(),
        m.filter_open,
        key == Key::Down || key == Key::Char('j') || key == Key::Up || key == Key::Char('k'),
    ensures
        ({
            let (n, a) = m.on_key(key, pick);
            let down = key == Key::Down || key == Key::Char('j');
            let items = m.filter_items;
            let len = items.len() as int;
            let at = m.filter_sel;
            let one = if down {
                if at + 1 < len { at + 1 } else { 0 }
            } else {
                if at > 0 { at - 1 } else { len - 1 }
            };
            let two = if down {
                if one + 1 < len { one + 1 } else { 0 }
            } else {
                if one > 0 { one - 1 } else { len - 1 }
            };
            &&& a == ActionModel::Nothing
            &&& items[one] is Choice ==> n.filter_sel == one
            &&& items[one] is Header && items[two] is Choice ==> n.filter_sel == two
            &&& items[n.filter_sel] is Choice
            &&& n == (AppModel { filter_sel: n.filter_sel, needs_redraw: true, ..m })
        }),
{
    let items = m.filter_items;
    let len = items.len() as int;
    let at = m.filter_sel;
    let down = key == Key::Down || key == Key::Char('j');
    let dir = if down { 1int } else { -1 };
    lemma_mod_multiples_vanish(dir, at, len);
    assert(len * dir + at == at + len * dir);
    lemma_small_mod(at as nat, len as nat);
    let k = cursor_path(items, at, dir, len, len);
    let one = if down {
        if at + 1 < len { at + 1 } else { 0 }
    } else {
        if at > 0 { at - 1 } else { len - 1 }
    };
    let two = if down {
        if one + 1 < len { one + 1 } else { 0 }
    } else {
        if one > 0 { one - 1 } else { len - 1 }
    };
    round_by_one(len, at, dir, one);
    round_by_one(len, one, dir, two);
    assert(1 * dir == dir && 2 * dir == dir + dir);
    assert(stop_at(items, at, dir, 1) == items[one]);
    vstd::arithmetic::div_mod::lemma_add_mod_noop(at + dir, dir, len);
    vstd::arithmetic::div_mod::lemma_add_mod_noop(one, dir, len);
    vstd::arithmetic::div_mod::lemma_mod_twice(at + dir, len);
    assert((at + 2 * dir) % len == two);
    assert(stop_at(items, at, dir, 2) == items[two]);
    if len == 1 {
        assert(k == 1);
    }
}

proof fn round_by_one(len: int, at: int, dir: int, one: int)
    requires
        0 <= at < len,
        dir == 1 || dir == -1,
        one == if dir == 1 {
            if at + 1 < len { at + 1 } else { 0 }
        } else {
            if at > 0 { at - 1 } else { len - 1 }
        },
    ensures
        (at + dir) % len == one,
{
    if dir == 1 && at + 1 == len {
        lemma_fundamental_div_mod_converse(at + dir, len, 1, 0);
    } else if dir == -1 && at == 0 {
        lemma_fundamental_div_mod_converse(at + dir, len, -1, len - 1);
    } else {
        lemma_small_mod(one as nat, len as nat);
    }
}

/// `Esc`, `f` and `q` close the menu and choose nothing.
pub proof fn closing_keys_close_the_menu(m: AppModel, key: Key, pick: int)
    requires
        m.filter_open,
        key == Key::Esc || key == Key::Char('f') || key == Key::Char('q'),
    ensures
        m.on_key(key, pick) == (
            (AppModel { filter_open: false, needs_redraw: true, ..m }),
            ActionModel::Nothing,
        ),
{
}

/// A key without a meaning in the menu only asks for a frame.
pub proof fn other_keys_do_nothing_in_the_menu(m: AppModel, key: Key, pick: int)
    requires
        m.filter_open,
        key != Key::Up && key != Key::Down && key != Key::Enter && key != Key::Esc,
        key matches Key::Char(c) ==> c != 'k' && c != 'j' && c != ' ' && c != 'f' && c != 'q',
    ensures
        m.on_key(key, pick) == ((AppModel { needs_redraw: true, ..m }), ActionModel::Nothing),
{
}

/// `Enter` and the space bar choose the entry under the cursor and close the menu.
/// An entry for a continent sets that filter and leaves the country's as it was, an
/// entry for a country the other way round, and the entry that clears drops both;
/// "All continents" and "All countries" drop the one filter alone. What is shown
/// afterwards are the stations that pass the filters as they then are, in their
/// order, from the first of them on, and the globe turns to that one. The listener
/// is told the filters and the number of stations. Nothing else changes.
pub proof fn choosing_sets_one_filter(m: AppModel, key: Key, pick: int)
    requires
        m.valid(),
        m.filter_open,
        key == Key::Enter || key == Key::Char(' '),
    ensures
        ({
            let (n, a) = m.on_key(key, pick);
            let op = m.filter_items[m.filter_sel]->op;
            let count = decimal(n.stations.len());
            &&& a == ActionModel::Nothing
            &&& !n.filter_open
            &&& n.filter_continent == match op {
                OpModel::Clear => None,
                OpModel::Continent(v) => v,
                OpModel::Country(_) => m.filter_continent,
            }
            &&& n.filter_country == match op {
                OpModel::Clear => None,
                OpModel::Continent(_) => m.filter_country,
                OpModel::Country(v) => v,
            }
            &&& n.stations == m.all_stations.filter(
                |s: StationModel|
                    (n.filter_continent is None || continent_name(s.country)
                        == n.filter_continent->0) && (n.filter_country is None || s.country_name
                        == n.filter_country->0),
            )
            &&& n.selected == 0
            &&& n.stations.len() == 0 ==> n.list_selected is None && n.target_lon == m.target_lon
                && n.target_lat == m.target_lat
            &&& n.stations.len() > 0 ==> n.list_selected == Some(0int) && n.target_lon
                == n.stations[0].lon && n.target_lat == n.stations[0].lat
            &&& n.filter_continent is None && n.filter_country is None ==> n.status
                == "Filters cleared — "@ + count + " stations."@
            &&& n.filter_continent is Some && n.filter_country is None ==> n.status == "Filter: "@
                + n.filter_continent->0 + " — "@ + count + " stations."@
            &&& n.filter_continent is None && n.filter_country is Some ==> n.status == "Filter: "@
                + n.filter_country->0 + " — "@ + count + " stations."@
            &&& n.filter_continent is Some && n.filter_country is Some ==> n.status == "Filter: "@
                + (n.filter_continent->0 + " · "@ + n.filter_country->0) + " — "@ + count
                + " stations."@
            &&& n == (AppModel {
                filter_open: false,
                filter_continent: n.filter_continent,
                filter_country: n.filter_country,
                stations: n.stations,
                selected: n.selected,
                list_selected: n.list_selected,
                target_lon: n.target_lon,
                target_lat: n.target_lat,
                status: n.status,
                needs_redraw: true,
                ..m
            })
        }),
{
    let n = m.on_key(key, pick).0;
    filtered_by(m.all_stations, n.filter_continent, n.filter_country);
}

/// The menu's fixed entries: the one that clears comes first, then the continents
/// under their heading, then the countries under theirs. Each section begins with
/// the entry that drops its filter, and holds entries of its own kind alone.
pub proof fn menu_has_two_sections(m: AppModel)
    ensures
        ({
            let items = m.open_filter().filter_items;
            exists|c: int|
                #![trigger items[3 + c]]
                {
                    &&& 0 <= c
                    &&& 5 + c <= items.len()
                    &&& items[0] == (ItemModel::Choice {
                        label: "Clear all filters"@,
                        op: OpModel::Clear,
                        active: m.filter_continent is None && m.filter_country is None,
                    })
                    &&& items[1] == ItemModel::Header("Continent"@)
                    &&& items[2] == (ItemModel::Choice {
                        label: "All continents"@,
                        op: OpModel::Continent(None),
                        active: m.filter_continent is None,
                    })
                    &&& items[3 + c] == ItemModel::Header("Country"@)
                    &&& items[4 + c] == (ItemModel::Choice {
                        label: "All countries"@,
                        op: OpModel::Country(None),
                        active: m.filter_country is None,
                    })
                    &&& forall|i: int|
                        3 <= i < 3 + c ==> (#[trigger] items[i]) is Choice && items[i]->op is Continent
                            && items[i]->op->Continent_0 is Some
                    &&& forall|i: int|
                        5 + c <= i < items.len() ==> (#[trigger] items[i]) is Choice
                            && items[i]->op is Country && items[i]->op->Country_0 is Some
                }
        }),
{
    let items = m.open_filter().filter_items;
    let first = menu_section(m.all_stations, Grouping::Continent, m.filter_continent);
    let second = menu_section(m.all_stations, Grouping::Country, m.filter_country);
    let c = first.len() - 2;
    assert(items.len() == 1 + first.len() + second.len());
    assert forall|i: int| 1 <= i < 1 + first.len() implies #[trigger] items[i] == first[i - 1] by {}
    assert forall|i: int| 1 + first.len() <= i < items.len() implies #[trigger] items[i]
        == second[i - 1 - first.len()] by {}
    assert(items[3 + c] == ItemModel::Header("Country"@));
}

/// How often a continent is counted is how many stations are on it.
proof fn continent_count(all: Seq<StationModel>, v: Seq<char>)
    ensures
        all.filter(|s: StationModel| continent_name(s.country) == v).len() == occurrences(
            group_names(all, Grouping::Continent),
            v,
        ),
{
    continent_count_is_shown(all, v);
    let f = |s: StationModel| passes_filters(Some(v), None, s);
    let g = |s: StationModel| continent_name(s.country) == v;
    assert(f =~= g);
}

/// How often a country is counted is how many stations are in it.
proof fn country_count(all: Seq<StationModel>, v: Seq<char>)
    requires
        occurrences(group_names(all, Grouping::Country), v) > 0,
    ensures
        v.len() > 0,
        all.filter(|s: StationModel| s.country_name == v).len() == occurrences(
            group_names(all, Grouping::Country),
            v,
        ),
{
    let k = occurring_is_listed(group_names(all, Grouping::Country), v);
    group_names_are_names(all, k);
    country_count_is_shown(all, v);
    let f = |s: StationModel| passes_filters(None, Some(v), s);
    let g = |s: StationModel| s.country_name == v;
    assert(f =~= g);
}

/// An entry for a continent tells how many of all stations are on it, and is active
/// where it is the one filtered by; the same for a country. No entry is for a group
/// without stations.
pub proof fn group_entries_tell_their_stations(m: AppModel, i: int)
    requires
        0 <= i < m.open_filter().filter_items.len(),
        m.open_filter().filter_items[i] is Choice,
    ensures
        ({
            let item = m.open_filter().filter_items[i];
            &&& item->op matches OpModel::Continent(Some(v)) ==> {
                let n = m.all_stations.filter(
                    |s: StationModel| continent_name(s.country) == v,
                ).len();
                &&& n > 0
                &&& item->label == v + "  ("@ + decimal(n) + ")"@
                &&& item->active == (m.filter_continent == Some(v))
            }
            &&& item->op matches OpModel::Country(Some(v)) ==> {
                let n = m.all_stations.filter(|s: StationModel| s.country_name == v).len();
                &&& n > 0
                &&& v.len() > 0
                &&& item->label == v + "  ("@ + decimal(n) + ")"@
                &&& item->active == (m.filter_country == Some(v))
            }
        }),
{
    let items = m.open_filter().filter_items;
    let item = items[i];
    let first = menu_section(m.all_stations, Grouping::Continent, m.filter_continent);
    let second = menu_section(m.all_stations, Grouping::Country, m.filter_country);
    assert(items.len() == 1 + first.len() + second.len());
    if i >= 1 + first.len() {
        assert(item == second[i - 1 - first.len()]);
    } else if i >= 1 {
        assert(item == first[i - 1]);
    }
    match item->op {
        OpModel::Continent(Some(v)) => {
            let names = group_names(m.all_stations, Grouping::Continent);
            ranking_ranks(names);
            assert(ranking(names)[i - 3].0 == v);
            continent_count(m.all_stations, v);
        },
        OpModel::Country(Some(v)) => {
            let names = group_names(m.all_stations, Grouping::Country);
            ranking_ranks(names);
            assert(ranking(names)[i - 3 - first.len()].0 == v);
            country_count(m.all_stations, v);
        },
        _ => {},
    }
}

/// Within a section the larger groups come first, and groups of one size in the
/// order of their names, so that none comes twice.
pub proof fn larger_groups_come_first(m: AppModel, i: int, j: int)
    requires
        0 <= i < j < m.open_filter().filter_items.len(),
        m.open_filter().filter_items[i] is Choice,
        m.open_filter().filter_items[j] is Choice,
    ensures
        ({
            let a = m.open_filter().filter_items[i]->op;
            let b = m.open_filter().filter_items[j]->op;
            &&& a is Continent && a->Continent_0 is Some && b is Continent && b->Continent_0 is Some ==> {
                let (v, w) = (a->Continent_0->0, b->Continent_0->0);
                let n = m.all_stations.filter(
                    |s: StationModel| continent_name(s.country) == v,
                ).len();
                let k = m.all_stations.filter(
                    |s: StationModel| continent_name(s.country) == w,
                ).len();
                n > k || n == k && precedes(v, w)
            }
            &&& a is Country && a->Country_0 is Some && b is Country && b->Country_0 is Some ==> {
                let (v, w) = (a->Country_0->0, b->Country_0->0);
                let n = m.all_stations.filter(|s: StationModel| s.country_name == v).len();
                let k = m.all_stations.filter(|s: StationModel| s.country_name == w).len();
                n > k || n == k && precedes(v, w)
            }
        }),
{
    let items = m.open_filter().filter_items;
    let first = menu_section(m.all_stations, Grouping::Continent, m.filter_continent);
    let second = menu_section(m.all_stations, Grouping::Country, m.filter_country);
    assert(items.len() == 1 + first.len() + second.len());
    assert forall|x: int| 1 <= x < 1 + first.len() implies #[trigger] items[x] == first[x - 1] by {}
    assert forall|x: int| 1 + first.len() <= x < items.len() implies #[trigger] items[x]
        == second[x - 1 - first.len()] by {}
    assert(items[i] == items[i] && items[j] == items[j]);
    match (items[i]->op, items[j]->op) {
        (OpModel::Continent(Some(v)), OpModel::Continent(Some(w))) => {
            let r = ranking(group_names(m.all_stations, Grouping::Continent));
            ranking_ranks(group_names(m.all_stations, Grouping::Continent));
            assert(r[i - 3].0 == v && r[j - 3].0 == w);
            assert(ranks_before(r[i - 3], r[j - 3]));
            continent_count(m.all_stations, v);
            continent_count(m.all_stations, w);
        },
        (OpModel::Country(Some(v)), OpModel::Country(Some(w))) => {
            let names = group_names(m.all_stations, Grouping::Country);
            let r = ranking(names);
            let d = 3 + first.len();
            ranking_ranks(names);
            assert(r[i - d].0 == v && r[j - d].0 == w);
            assert(ranks_before(r[i - d], r[j - d]));
            country_count(m.all_stations, v);
            country_count(m.all_stations, w);
        },
        _ => {},
    }
}

/// Turning to a station by name selects the first one shown that has it, with the
/// globe already there; where none has it nothing changes.
pub proof fn focus_finds_the_first_of_that_name(m: AppModel, name: Seq<char>)
    ensures
        ({
            let n = m.focus(name);
            &&& (forall|i: int| 0 <= i < m.stations.len() ==> (#[trigger] m.stations[i]).name != name)
                ==> n == m
            &&& (exists|i: int| 0 <= i < m.stations.len() && (#[trigger] m.stations[i]).name == name)
                ==> {
                &&& 0 <= n.selected < m.stations.len()
                &&& m.stations[n.selected].name == name
                &&& forall|i: int|
                    0 <= i < n.selected ==> (#[trigger] m.stations[i]).name != name
                &&& n.list_selected == Some(n.selected)
                &&& n.cur_lon == m.stations[n.selected].lon
                &&& n.cur_lat == m.stations[n.selected].lat
            }
            &&& n == (AppModel {
                selected: n.selected,
                list_selected: n.list_selected,
                cur_lon: n.cur_lon,
                cur_lat: n.cur_lat,
                ..m
            })
        }),
{
    first_named_is_first(m.stations, name, 0);
}

proof fn first_named_is_first(list: Seq<StationModel>, name: Seq<char>, from: int)
    requires
        0 <= from <= list.len(),
    ensures
        from <= first_named(list, name, from) <= list.len(),
        first_named(list, name, from) < list.len() ==> list[first_named(list, name, from)].name
            == name,
        forall|i: int|
            from <= i < first_named(list, name, from) ==> (#[trigger] list[i]).name != name,
    decreases list.len() - from,
{
    if from < list.len() && list[from].name != name {
        first_named_is_first(list, name, from + 1);
    }
}

/// A picture is taken with the globe maximized or not, and with the menu open or
/// not, as asked for; the station is the one turned to by name, and nothing plays or
/// is loaded on its account.
pub proof fn picture_is_as_asked_for(m: AppModel, zoom: bool, filter: bool, name: Seq<char>)
    requires
        m.valid(),
        !m.filter_open,
    ensures
        ({
            let n = m.snapshot(zoom, filter, name);
            &&& n.zoom == zoom
            &&& n.filter_open == filter
            &&& n.selected == m.focus(name).selected
            &&& n == (AppModel {
                zoom,
                filter_open: n.filter_open,
                filter_items: n.filter_items,
                filter_sel: n.filter_sel,
                ..m.focus(name)
            })
        }),
{
    focus_keeps_valid(m, name);
}

/// Opening the menu puts the cursor on its first entry, which can be chosen, and
/// changes nothing but the menu.
pub proof fn opening_changes_the_menu_alone(m: AppModel)
    ensures
        ({
            let n = m.open_filter();
            &&& n.filter_open
            &&& n.filter_sel == 0
            &&& n.filter_items[0] is Choice
            &&& n == (AppModel {
                filter_open: n.filter_open,
                filter_items: n.filter_items,
                filter_sel: n.filter_sel,
                ..m
            })
        }),
{
    let items = m.open_filter().filter_items;
    assert(items[0] is Choice);
    assert(crate::model::first_choice(items, 0) == 0);
}

/// In steps of any size the cursor comes to rest on the first entry on its way that
/// can be chosen, headings being passed over; nothing else changes. The result is
/// the number of steps.
pub proof fn cursor_rests_on_the_next_choice(m: AppModel, dir: int) -> (k: int)
    requires
        m.valid(),
        m.filter_open,
    ensures
        1 <= k <= m.filter_items.len(),
        m.filter_step(dir) == (AppModel {
            filter_sel: (m.filter_sel + k * dir) % (m.filter_items.len() as int),
            ..m
        }),
        m.filter_items[m.filter_step(dir).filter_sel] is Choice,
        forall|i: int|
            1 <= i < k ==> #[trigger] m.filter_items[(m.filter_sel + i * dir) % (
            m.filter_items.len() as int)] is Header,
{
    let items = m.filter_items;
    let len = items.len() as int;
    lemma_mod_multiples_vanish(dir, m.filter_sel, len);
    assert(len * dir + m.filter_sel == m.filter_sel + len * dir);
    lemma_small_mod(m.filter_sel as nat, len as nat);
    let k = cursor_path(items, m.filter_sel, dir, len, len);
    assert forall|i: int| 1 <= i < k implies #[trigger] items[(m.filter_sel + i * dir)
        % len] is Header by {
        assert(!crate::model::is_choice(stop_at(items, m.filter_sel, dir, i)));
    }
    k
}

/// A menu without entries has no cursor to move and nothing to choose.
pub proof fn empty_menu_does_nothing(m: AppModel, dir: int)
    requires
        m.filter_items.len() == 0,
    ensures
        m.filter_step(dir) == m,
        m.filter_apply_selected() == (AppModel { filter_open: false, ..m }),
{
}

/// A station passes where it is on the filtered continent, if there is one, and in
/// the filtered country, if there is one.
pub proof fn passing_is_passing_both(
    continent: Option<Seq<char>>,
    country: Option<Seq<char>>,
    s: StationModel,
)
    ensures
        passes_filters(continent, country, s) <==> (continent is Some ==> continent_name(s.country)
            == continent->0) && (country is Some ==> s.country_name == country->0),
{
}

} // verus!
