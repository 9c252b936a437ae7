//! Narrowing the list by continent and country, and the menu for it.
use vstd::prelude::*;

use crate::continent::{continent_name, continent_of};
use crate::ranking::{entries, is_ranking, occurrences, rank, ranking};
use crate::station::{filter_push, models, models_push, Station, StationModel};
use crate::text::{decimal, push_decimal, same, texts};

verus! {

/// What choosing an entry of the filter menu does.
pub enum FilterOp {
    Clear,
    Continent(Option<String>),
    Country(Option<String>),
}

/// An entry of the filter menu.
pub enum FilterItem {
    Header(String),
    Choice { label: String, op: FilterOp, active: bool },
}

/// What choosing an entry of the filter menu does, as a mathematical value.
pub enum OpModel {
    Clear,
    Continent(Option<Seq<char>>),
    Country(Option<Seq<char>>),
}

/// An entry of the filter menu, as a mathematical value.
pub enum ItemModel {
    Header(Seq<char>),
    Choice { label: Seq<char>, op: OpModel, active: bool },
}

/// An optional text as an optional sequence of characters.
pub open spec fn opt_text(o: Option<String>) -> Option<Seq<char>> {
    match o {
        Some(s) => Some(s@),
        None => None,
    }
}

impl View for FilterOp {
    type V = OpModel;

    open spec fn view(&self) -> OpModel {
        match *self {
            FilterOp::Clear => OpModel::Clear,
            FilterOp::Continent(v) => OpModel::Continent(opt_text(v)),
            FilterOp::Country(v) => OpModel::Country(opt_text(v)),
        }
    }
}

impl View for FilterItem {
    type V = ItemModel;

    open spec fn view(&self) -> ItemModel {
        match *self {
            FilterItem::Header(t) => ItemModel::Header(t@),
            FilterItem::Choice { label, op, active } => ItemModel::Choice {
                label: label@,
                op: op@,
                active,
            },
        }
    }
}

impl Clone for FilterOp {
    fn clone(&self) -> (r: Self)
        ensures
            r == *self,
    {
        match self {
            FilterOp::Clear => FilterOp::Clear,
            FilterOp::Continent(v) => FilterOp::Continent(copy_text(v)),
            FilterOp::Country(v) => FilterOp::Country(copy_text(v)),
        }
    }
}

/// A copy of an optional text.
pub fn copy_text(o: &Option<String>) -> (r: Option<String>)
    ensures
        r == *o,
{
    match o {
        Some(s) => Some(s.clone()),
        None => None,
    }
}

/// Whether an optional text is the given one.
fn is_text(o: &Option<String>, t: &str) -> (r: bool)
    ensures
        r == (opt_text(*o) == Some(t@)),
{
    match o {
        Some(s) => same(s.as_str(), t),
        None => false,
    }
}

/// Menu entries as mathematical values.
pub open spec fn item_models(items: Seq<FilterItem>) -> Seq<ItemModel> {
    items.map_values(|i: FilterItem| i@)
}

/// Whether a station passes the filters. The two stack: it has to pass both.
pub open spec fn passes_filters(
    continent: Option<Seq<char>>,
    country: Option<Seq<char>>,
    s: StationModel,
) -> bool {
    &&& continent is None || continent_name(s.country) == continent->0
    &&& country is None || s.country_name == country->0
}

/// Whether a station passes the filters.
pub fn passes_both(continent: &Option<String>, country: &Option<String>, s: &Station) -> (r: bool)
    ensures
        r == passes_filters(opt_text(*continent), opt_text(*country), s@),
{
    let first = match continent {
        None => true,
        Some(c) => same(continent_of(s.country.as_str()), c.as_str()),
    };
    let second = match country {
        None => true,
        Some(c) => s.country_name == *c,
    };
    first && second
}

/// The stations that pass the filters, in their order.
pub open spec fn visible(
    all: Seq<StationModel>,
    continent: Option<Seq<char>>,
    country: Option<Seq<char>>,
) -> Seq<StationModel> {
    all.filter(|s: StationModel| passes_filters(continent, country, s))
}

/// The visible stations of a list that grew by one.
pub proof fn visible_push(
    all: Seq<StationModel>,
    s: StationModel,
    continent: Option<Seq<char>>,
    country: Option<Seq<char>>,
)
    ensures
        visible(all.push(s), continent, country) == if passes_filters(continent, country, s) {
            visible(all, continent, country).push(s)
        } else {
            visible(all, continent, country)
        },
{
    filter_push(all, s, |s: StationModel| passes_filters(continent, country, s));
}

/// Without filters every station is visible.
pub proof fn unfiltered_shows_all(all: Seq<StationModel>)
    ensures
        visible(all, None, None) == all,
    decreases all.len(),
{
    reveal(Seq::filter);
    if all.len() > 0 {
        unfiltered_shows_all(all.drop_last());
        visible_push(all.drop_last(), all.last(), None, None);
        assert(all == all.drop_last().push(all.last()));
    } else {
        assert(visible(all, None, None) == all);
    }
}

/// The stations of a list that pass the filters.
pub fn select_visible(
    all: &Vec<Station>,
    continent: &Option<String>,
    country: &Option<String>,
) -> (r: Vec<Station>)
    ensures
        models(r@) == visible(models(all@), opt_text(*continent), opt_text(*country)),
{
    let ghost c = opt_text(*continent);
    let ghost y = opt_text(*country);
    let mut out: Vec<Station> = Vec::new();
    let mut i: usize = 0;
    proof {
        reveal(Seq::filter);
        assert(visible(models(all@.take(0)), c, y) == Seq::<StationModel>::empty());
    }
    while i < all.len()
        invariant
            i <= all.len(),
            c == opt_text(*continent),
            y == opt_text(*country),
            models(out@) == visible(models(all@.take(i as int)), c, y),
        decreases all.len() - i,
    {
        let s = &all[i];
        proof {
            assert(all@.take(i + 1) == all@.take(i as int).push(*s));
            models_push(all@.take(i as int), *s);
            visible_push(models(all@.take(i as int)), s@, c, y);
            models_push(out@, *s);
        }
        if passes_both(continent, country, s) {
            out.push(s.clone());
        }
        i += 1;
    }
    assert(all@.take(all.len() as int) == all@);
    out
}

/// By what stations are counted for the menu.
#[derive(Clone, Copy, PartialEq, Eq, Structural)]
pub enum Grouping {
    Continent,
    Country,
}

/// The names that a list of stations is counted by: each station's continent, or
/// its country's name where it has one.
pub open spec fn group_names(all: Seq<StationModel>, by: Grouping) -> Seq<Seq<char>>
    decreases all.len(),
{
    if all.len() == 0 {
        Seq::empty()
    } else {
        let rest = group_names(all.drop_last(), by);
        match by {
            Grouping::Continent => rest.push(continent_name(all.last().country)),
            Grouping::Country => if all.last().country_name.len() > 0 {
                rest.push(all.last().country_name)
            } else {
                rest
            },
        }
    }
}

/// The names that a list of stations is counted by.
fn names_by(all: &Vec<Station>, by: Grouping) -> (r: Vec<String>)
    ensures
        texts(r@) == group_names(models(all@), by),
{
    let mut out: Vec<String> = Vec::new();
    let mut i: usize = 0;
    while i < all.len()
        invariant
            i <= all.len(),
            texts(out@) == group_names(models(all@).take(i as int), by),
        decreases all.len() - i,
    {
        let s = &all[i];
        let ghost before = out@;
        proof {
            let m = models(all@);
            assert(m.take(i + 1).drop_last() == m.take(i as int));
            assert(m.take(i + 1).last() == s@);
        }
        match by {
            Grouping::Continent => {
                out.push(continent_of(s.country.as_str()).to_owned());
                assert(texts(out@) == texts(before).push(continent_name(s@.country)));
            },
            Grouping::Country => {
                if !s.country_name.as_str().is_empty() {
                    out.push(s.country_name.clone());
                    assert(texts(out@) == texts(before).push(s@.country_name));
                }
            },
        }
        i += 1;
    }
    assert(models(all@).take(all.len() as int) == models(all@));
    out
}

/// As many stations pass the filter for a continent as the continent is counted.
pub proof fn continent_count_is_shown(all: Seq<StationModel>, c: Seq<char>)
    ensures
        visible(all, Some(c), None).len() == occurrences(
            group_names(all, Grouping::Continent),
            c,
        ),
    decreases all.len(),
{
    reveal(Seq::filter);
    if all.len() > 0 {
        let rest = all.drop_last();
        continent_count_is_shown(rest, c);
        visible_push(rest, all.last(), Some(c), None);
        assert(all == rest.push(all.last()));
        let names = group_names(rest, Grouping::Continent);
        let name = continent_name(all.last().country);
        assert(names.push(name).drop_last() == names);
    }
}

/// As many stations pass the filter for a country as the country is counted.
pub proof fn country_count_is_shown(all: Seq<StationModel>, c: Seq<char>)
    requires
        c.len() > 0,
    ensures
        visible(all, None, Some(c)).len() == occurrences(group_names(all, Grouping::Country), c),
    decreases all.len(),
{
    reveal(Seq::filter);
    if all.len() > 0 {
        let rest = all.drop_last();
        country_count_is_shown(rest, c);
        visible_push(rest, all.last(), None, Some(c));
        assert(all == rest.push(all.last()));
        let names = group_names(rest, Grouping::Country);
        let name = all.last().country_name;
        assert(names.push(name).drop_last() == names);
    }
}

/// A name that stations are counted by is never empty.
pub proof fn group_names_are_names(all: Seq<StationModel>, k: int)
    requires
        0 <= k < group_names(all, Grouping::Country).len(),
    ensures
        group_names(all, Grouping::Country)[k].len() > 0,
    decreases all.len(),
{
    let rest = group_names(all.drop_last(), Grouping::Country);
    if k < rest.len() {
        group_names_are_names(all.drop_last(), k);
    }
}

/// Every station's continent is among the names that stations are counted by, and
/// so is its country's name where it has one.
pub proof fn every_station_is_counted(all: Seq<StationModel>, i: int)
    requires
        0 <= i < all.len(),
    ensures
        group_names(all, Grouping::Continent).contains(continent_name(all[i].country)),
        all[i].country_name.len() > 0 ==> group_names(all, Grouping::Country).contains(
            all[i].country_name,
        ),
    decreases all.len(),
{
    let rest = all.drop_last();
    let a = group_names(rest, Grouping::Continent);
    let b = group_names(rest, Grouping::Country);
    let last = all.last();
    let an = a.push(continent_name(last.country));
    let bn = b.push(last.country_name);
    if i < rest.len() {
        every_station_is_counted(rest, i);
        assert(rest[i] == all[i]);
        let k = a.index_of(continent_name(all[i].country));
        assert(an[k] == continent_name(all[i].country));
        if all[i].country_name.len() > 0 {
            let k = b.index_of(all[i].country_name);
            assert(bn[k] == all[i].country_name);
        }
    } else {
        assert(an[a.len() as int] == continent_name(all[i].country));
        assert(bn[b.len() as int] == last.country_name);
    }
}

/// How many stations of a list each group has, the largest group first.
pub fn count_groups(all: &Vec<Station>, by: Grouping) -> (r: Vec<(String, usize)>)
    ensures
        entries(r@) == ranking(group_names(models(all@), by)),
        is_ranking(entries(r@), group_names(models(all@), by)),
{
    let names = names_by(all, by);
    rank(&names)
}

/// The label of a group: its name and how many stations it has.
pub open spec fn group_label(e: (Seq<char>, nat)) -> Seq<char> {
    e.0 + "  ("@ + decimal(e.1) + ")"@
}

/// The menu entry for a group; it is active where the group is filtered by.
pub open spec fn group_item(by: Grouping, filter: Option<Seq<char>>, e: (Seq<char>, nat)) -> ItemModel {
    ItemModel::Choice {
        label: group_label(e),
        op: match by {
            Grouping::Continent => OpModel::Continent(Some(e.0)),
            Grouping::Country => OpModel::Country(Some(e.0)),
        },
        active: filter == Some(e.0),
    }
}

/// The menu's section for continents or countries.
pub open spec fn menu_section(
    all: Seq<StationModel>,
    by: Grouping,
    filter: Option<Seq<char>>,
) -> Seq<ItemModel> {
    let top = match by {
        Grouping::Continent => seq![
            ItemModel::Header("Continent"@),
            ItemModel::Choice {
                label: "All continents"@,
                op: OpModel::Continent(None),
                active: filter is None,
            },
        ],
        Grouping::Country => seq![
            ItemModel::Header("Country"@),
            ItemModel::Choice {
                label: "All countries"@,
                op: OpModel::Country(None),
                active: filter is None,
            },
        ],
    };
    top + ranking(group_names(all, by)).map_values(
        |e: (Seq<char>, nat)| group_item(by, filter, e),
    )
}

/// The whole menu: clearing, then the continents, then the countries.
pub open spec fn menu(
    all: Seq<StationModel>,
    continent: Option<Seq<char>>,
    country: Option<Seq<char>>,
) -> Seq<ItemModel> {
    seq![
        ItemModel::Choice {
            label: "Clear all filters"@,
            op: OpModel::Clear,
            active: continent is None && country is None,
        },
    ] + menu_section(all, Grouping::Continent, continent) + menu_section(
        all,
        Grouping::Country,
        country,
    )
}

proof fn items_push(items: Seq<FilterItem>, i: FilterItem)
    ensures
        item_models(items.push(i)) == item_models(items).push(i@),
{
    assert(item_models(items.push(i)) == item_models(items).push(i@));
}

/// Appends the menu's section for continents or countries.
fn push_section(
    items: &mut Vec<FilterItem>,
    all: &Vec<Station>,
    by: Grouping,
    filter: &Option<String>,
)
    ensures
        item_models(final(items)@) == item_models(old(items)@) + menu_section(
            models(all@),
            by,
            opt_text(*filter),
        ),
{
    let ghost start = item_models(items@);
    let ghost f = opt_text(*filter);
    let ghost groups = ranking(group_names(models(all@), by));
    let ghost item = |e: (Seq<char>, nat)| group_item(by, f, e);
    let header = match by {
        Grouping::Continent => FilterItem::Header("Continent".to_owned()),
        Grouping::Country => FilterItem::Header("Country".to_owned()),
    };
    let every = match by {
        Grouping::Continent => FilterItem::Choice {
            label: "All continents".to_owned(),
            op: FilterOp::Continent(None),
            active: filter.is_none(),
        },
        Grouping::Country => FilterItem::Choice {
            label: "All countries".to_owned(),
            op: FilterOp::Country(None),
            active: filter.is_none(),
        },
    };
    let ghost top = seq![header@, every@];
    proof {
        items_push(items@, header);
        items_push(items@.push(header), every);
    }
    items.push(header);
    items.push(every);
    assert(item_models(items@) == start + top);
    let counts = count_groups(all, by);
    let mut i: usize = 0;
    assert(groups.take(0).map_values(item) == Seq::<ItemModel>::empty());
    assert(item_models(items@) == start + top + groups.take(0).map_values(item));
    while i < counts.len()
        invariant
            i <= counts.len(),
            entries(counts@) == groups,
            f == opt_text(*filter),
            item == (|e: (Seq<char>, nat)| group_item(by, f, e)),
            item_models(items@) == start + top + groups.take(i as int).map_values(item),
        decreases counts.len() - i,
    {
        let name = &counts[i].0;
        let n: usize = counts[i].1;
        let ghost e = (name@, n as nat);
        assert(groups[i as int] == e);
        let mut label = name.clone();
        label.append("  (");
        push_decimal(&mut label, n);
        label.append(")");
        let active = is_text(filter, name.as_str());
        let op = match by {
            Grouping::Continent => FilterOp::Continent(Some(name.clone())),
            Grouping::Country => FilterOp::Country(Some(name.clone())),
        };
        let choice = FilterItem::Choice { label, op, active };
        proof {
            assert(choice@ == item(e));
            items_push(items@, choice);
            assert(groups.take(i + 1) == groups.take(i as int).push(e));
            assert(groups.take(i + 1).map_values(item) == groups.take(i as int).map_values(
                item,
            ).push(item(e)));
            assert(start + top + groups.take(i + 1).map_values(item) == (start + top
                + groups.take(i as int).map_values(item)).push(item(e)));
        }
        items.push(choice);
        i += 1;
    }
    proof {
        assert(groups.take(counts.len() as int) == groups);
        assert(start + top + groups.map_values(item) == start + menu_section(models(all@), by, f));
    }
}

/// The whole filter menu for a list of stations.
pub fn build_menu(all: &Vec<Station>, continent: &Option<String>, country: &Option<String>) -> (r:
    Vec<FilterItem>)
    ensures
        item_models(r@) == menu(models(all@), opt_text(*continent), opt_text(*country)),
{
    let mut items: Vec<FilterItem> = Vec::new();
    let clear = FilterItem::Choice {
        label: "Clear all filters".to_owned(),
        op: FilterOp::Clear,
        active: continent.is_none() && country.is_none(),
    };
    proof {
        items_push(items@, clear);
        assert(item_models(items@).push(clear@) == seq![clear@]);
    }
    items.push(clear);
    push_section(&mut items, all, Grouping::Continent, continent);
    push_section(&mut items, all, Grouping::Country, country);
    items
}

} // verus!
