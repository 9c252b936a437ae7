//! What is made of the station directory's entries.
use vstd::prelude::*;

use crate::directory::{
    collected, directory_stations, finite, knows_url, listed_station, listing_in, parsed_bits,
    stream_url, usable, Json, ListingModel,
};
use crate::station::StationModel;
use crate::text::{trimming_keeps_the_middle, until_stops_at_the_first, white_space};

verus! {

/// A coordinate counts as long as its exponent bits are not all ones, whatever its
/// sign and its other bits are: infinities and non-numbers alone are left out.
proof fn finite_by_exponent(bits: u64)
    ensures
        finite(bits) <==> bits & 0x7ff0_0000_0000_0000 != 0x7ff0_0000_0000_0000,
{
    assert(((bits / 0x10_0000_0000_0000) % 0x800 != 0x7ff) == (bits & 0x7ff0_0000_0000_0000
        != 0x7ff0_0000_0000_0000)) by (bit_vector);
}

/// An entry is used exactly where both its coordinates are there and finite, and it
/// has a URL, resolved or not. Nothing else of it matters.
pub proof fn entries_are_used_for_place_and_url(l: ListingModel)
    ensures
        usable(l) <==> {
            &&& l.lon is Some && l.lon->0 & 0x7ff0_0000_0000_0000 != 0x7ff0_0000_0000_0000
            &&& l.lat is Some && l.lat->0 & 0x7ff0_0000_0000_0000 != 0x7ff0_0000_0000_0000
            &&& l.url_resolved.len() > 0 || l.url.len() > 0
        },
{
    if l.lon is Some {
        finite_by_exponent(l.lon->0);
    }
    if l.lat is Some {
        finite_by_exponent(l.lat->0);
    }
}

/// All four quarters of the globe are alike: an entry is used wherever the one with
/// the opposite longitude or latitude is.
pub proof fn no_hemisphere_is_left_out(l: ListingModel, lon: u64, lat: u64)
    requires
        l.lon == Some(lon),
        l.lat == Some(lat),
    ensures
        usable(ListingModel { lon: Some(lon ^ 0x8000_0000_0000_0000), ..l }) == usable(l),
        usable(ListingModel { lat: Some(lat ^ 0x8000_0000_0000_0000), ..l }) == usable(l),
{
    assert((lon ^ 0x8000_0000_0000_0000) & 0x7ff0_0000_0000_0000 == lon & 0x7ff0_0000_0000_0000)
        by (bit_vector);
    assert((lat ^ 0x8000_0000_0000_0000) & 0x7ff0_0000_0000_0000 == lat & 0x7ff0_0000_0000_0000)
        by (bit_vector);
    entries_are_used_for_place_and_url(l);
    entries_are_used_for_place_and_url(
        ListingModel { lon: Some(lon ^ 0x8000_0000_0000_0000), ..l },
    );
    entries_are_used_for_place_and_url(
        ListingModel { lat: Some(lat ^ 0x8000_0000_0000_0000), ..l },
    );
}

/// A station takes its place, its country and its URL from the entry as they stand.
/// The resolved URL goes before the other. A state serves as the city where there is
/// one, the country's name where there is none. The genre is the first of the tags.
pub proof fn stations_take_what_the_entry_says(l: ListingModel)
    requires
        usable(l),
    ensures
        ({
            let s = listed_station(l);
            &&& s.lon == l.lon->0
            &&& s.lat == l.lat->0
            &&& s.country == l.countrycode
            &&& s.country_name == l.country
            &&& l.url_resolved.len() > 0 ==> s.url == l.url_resolved
            &&& l.url_resolved.len() == 0 ==> s.url == l.url
            &&& s.url.len() > 0
            &&& l.state.len() > 0 ==> s.city == l.state
            &&& l.state.len() == 0 ==> s.city == l.country
            &&& s.genre.is_prefix_of(l.tags)
            &&& !s.genre.contains(',')
            &&& s.genre.len() < l.tags.len() ==> l.tags[s.genre.len() as int] == ','
        }),
{
    until_stops_at_the_first(l.tags, ',');
}

/// A station's name is the entry's without the white space at both ends, cut after
/// forty characters. A name of white space alone, or none, becomes "Unknown".
pub proof fn names_are_trimmed_and_cut(l: ListingModel, from: int, to: int)
    requires
        0 <= from <= to <= l.name.len(),
        forall|i: int| 0 <= i < from ==> white_space(#[trigger] l.name[i]),
        forall|i: int| to <= i < l.name.len() ==> white_space(#[trigger] l.name[i]),
        from < to ==> !white_space(l.name[from]) && !white_space(l.name[to - 1]),
    ensures
        from == to ==> listed_station(l).name == "Unknown"@,
        from < to && to - from <= 40 ==> listed_station(l).name == l.name.subrange(from, to),
        from < to && to - from > 40 ==> listed_station(l).name == l.name.subrange(from, from + 40),
{
    trimming_keeps_the_middle(l.name, from, to);
    if to - from > 40 {
        assert(l.name.subrange(from, to).take(40) == l.name.subrange(from, from + 40));
    }
}

/// Whether an object has a text under a key.
pub open spec fn has_text(j: Json, key: Seq<char>, text: Seq<char>) -> bool {
    j is Object && j->Object_0.contains_key(key) && j->Object_0[key] == Json::Text(text)
}

/// The texts of an entry are those under their keys, and empty where there is none.
pub proof fn texts_are_read_by_their_keys(j: Json, text: Seq<char>)
    ensures
        ({
            let l = listing_in(j);
            &&& has_text(j, "url_resolved"@, text) ==> l.url_resolved == text
            &&& has_text(j, "url"@, text) ==> l.url == text
            &&& has_text(j, "name"@, text) ==> l.name == text
            &&& has_text(j, "state"@, text) ==> l.state == text
            &&& has_text(j, "country"@, text) ==> l.country == text
            &&& has_text(j, "countrycode"@, text) ==> l.countrycode == text
            &&& has_text(j, "tags"@, text) ==> l.tags == text
            &&& l.url_resolved.len() > 0 ==> has_text(j, "url_resolved"@, l.url_resolved)
            &&& l.url.len() > 0 ==> has_text(j, "url"@, l.url)
            &&& l.name.len() > 0 ==> has_text(j, "name"@, l.name)
            &&& l.state.len() > 0 ==> has_text(j, "state"@, l.state)
            &&& l.country.len() > 0 ==> has_text(j, "country"@, l.country)
            &&& l.countrycode.len() > 0 ==> has_text(j, "countrycode"@, l.countrycode)
            &&& l.tags.len() > 0 ==> has_text(j, "tags"@, l.tags)
        }),
{
}

/// An entry's coordinates are the numbers under their keys, written as numbers or as
/// texts that read as numbers; anything else is no coordinate.
pub proof fn places_are_read_by_their_keys(j: Json)
    ensures
        ({
            let l = listing_in(j);
            &&& j matches Json::Object(m) ==> {
                &&& m.contains_key("geo_long"@) ==> (m["geo_long"@] matches Json::Number(bits)
                    ==> l.lon == Some(bits))
                &&& m.contains_key("geo_long"@) ==> (m["geo_long"@] matches Json::Text(s) ==> l.lon
                    == parsed_bits(s))
                &&& m.contains_key("geo_lat"@) ==> (m["geo_lat"@] matches Json::Number(bits)
                    ==> l.lat == Some(bits))
                &&& m.contains_key("geo_lat"@) ==> (m["geo_lat"@] matches Json::Text(s) ==> l.lat
                    == parsed_bits(s))
                &&& l.lon is Some ==> m.contains_key("geo_long"@) && (m["geo_long"@] is Number
                    || m["geo_long"@] is Text)
                &&& l.lat is Some ==> m.contains_key("geo_lat"@) && (m["geo_lat"@] is Number
                    || m["geo_lat"@] is Text)
            }
            &&& !(j is Object) ==> l.lon is None && l.lat is None
        }),
{
}

/// A reply that is no JSON text, and one that is no array, are told apart; every
/// array is taken, and its stations are those of its entries.
pub proof fn replies_are_told_apart(items: Seq<Json>, other: Json)
    requires
        !(other is Array),
    ensures
        directory_stations(None) == Err::<Seq<StationModel>, Seq<char>>("bad JSON"@),
        directory_stations(Some(other)) == Err::<Seq<StationModel>, Seq<char>>(
            "unexpected response"@,
        ),
        directory_stations(Some(Json::Array(items))) == Ok::<Seq<StationModel>, Seq<char>>(
            collected(Seq::new(items.len(), |i: int| listing_in(items[i]))),
        ),
{
    assert(items.map_values(|j: Json| listing_in(j)) == Seq::new(
        items.len(),
        |i: int| listing_in(items[i]),
    ));
}

/// Whether an entry is the first usable one with its URL.
pub open spec fn is_first_of_its_url(listings: Seq<ListingModel>, i: int) -> bool {
    &&& 0 <= i < listings.len()
    &&& usable(listings[i])
    &&& forall|k: int|
        0 <= k < i && usable(#[trigger] listings[k]) ==> listed_station(listings[k]).url
            != listed_station(listings[i]).url
}

/// The stations are those of the entries that are the first usable ones with their
/// URL, all of them, in the entries' order. The result gives the entry that each
/// station stems from.
pub proof fn first_entries_come_in_order(listings: Seq<ListingModel>) -> (at: Seq<int>)
    ensures
        at.len() == collected(listings).len(),
        forall|k: int|
            0 <= k < at.len() ==> is_first_of_its_url(listings, #[trigger] at[k])
                && collected(listings)[k] == listed_station(listings[at[k]]),
        forall|j: int, k: int| 0 <= j < k < at.len() ==> #[trigger] at[j] < #[trigger] at[k],
        forall|i: int| #[trigger] is_first_of_its_url(listings, i) ==> at.contains(i),
    decreases listings.len(),
{
    if listings.len() == 0 {
        Seq::empty()
    } else {
        let front = listings.drop_last();
        let rest = collected(front);
        let l = listings.last();
        let last = listings.len() - 1;
        let at = first_entries_come_in_order(front);
        assert forall|i: int| 0 <= i < last implies is_first_of_its_url(front, i)
            == #[trigger] is_first_of_its_url(listings, i) by {
            assert(front[i] == listings[i]);
            if is_first_of_its_url(front, i) {
                assert forall|k: int| 0 <= k < i && usable(#[trigger] listings[k]) implies
                    listed_station(listings[k]).url != listed_station(listings[i]).url by {
                    assert(front[k] == listings[k]);
                }
            }
            if is_first_of_its_url(listings, i) {
                assert forall|k: int| 0 <= k < i && usable(#[trigger] front[k]) implies
                    listed_station(front[k]).url != listed_station(front[i]).url by {
                    assert(front[k] == listings[k]);
                }
            }
        }
        if usable(l) && !knows_url(rest, stream_url(l)) {
            let all = at.push(last);
            assert forall|k: int| 0 <= k < last && usable(#[trigger] listings[k]) implies
                listed_station(listings[k]).url != listed_station(listings[last]).url by {
                assert(front[k] == listings[k]);
                crate::directory::every_usable_url_is_collected(front, k);
            }
            assert(is_first_of_its_url(listings, last));
            assert forall|k: int| 0 <= k < all.len() implies is_first_of_its_url(
                listings,
                #[trigger] all[k],
            ) && collected(listings)[k] == listed_station(listings[all[k]]) by {
                if k < at.len() {
                    assert(all[k] == at[k]);
                    assert(is_first_of_its_url(front, at[k]));
                }
            }
            assert forall|j: int, k: int| 0 <= j < k < all.len() implies #[trigger] all[j]
                < #[trigger] all[k] by {
                assert(all[j] == at[j]);
                assert(is_first_of_its_url(front, at[j]));
                if k < at.len() {
                    assert(all[k] == at[k]);
                }
            }
            assert forall|i: int| #[trigger] is_first_of_its_url(listings, i) implies all.contains(
                i,
            ) by {
                if i < last {
                    assert(is_first_of_its_url(front, i));
                    let k = at.index_of(i);
                    assert(all[k] == i);
                } else {
                    assert(all[at.len() as int] == i);
                }
            }
            all
        } else {
            assert forall|k: int| 0 <= k < at.len() implies is_first_of_its_url(
                listings,
                #[trigger] at[k],
            ) && collected(listings)[k] == listed_station(listings[at[k]]) by {
                assert(is_first_of_its_url(front, at[k]));
            }
            assert forall|i: int| #[trigger] is_first_of_its_url(listings, i) implies at.contains(
                i,
            ) by {
                if i == last {
                    let k = choose|k: int|
                        0 <= k < rest.len() && (#[trigger] rest[k]).url == stream_url(l);
                    assert(is_first_of_its_url(front, at[k]));
                    assert(listings[at[k]] == front[at[k]]);
                    assert(usable(listings[at[k]]));
                } else {
                    assert(is_first_of_its_url(front, i));
                }
            }
            at
        }
    }
}

} // verus!
