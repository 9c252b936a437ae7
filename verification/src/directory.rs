//! Reading the station directory's reply: a JSON array with one object per
//! station.
use vstd::hash_set::StringHashSet;
use vstd::prelude::*;

use crate::station::{has_url, models, models_push, Station, StationModel};
use crate::text::{before, first_chars, prefix, trim, trimmed, until};

verus! {

/// A JSON value, taken through the names and contracts below.
#[verifier::external_type_specification]
#[verifier::external_body]
pub struct ExJsonValue(serde_json::Value);

/// Why a text is no JSON; nothing is read from it.
#[verifier::external_type_specification]
#[verifier::external_body]
pub struct ExJsonError(serde_json::Error);

/// A JSON value as a mathematical one. A number is the bit pattern of the
/// double-precision number that it reads as.
pub enum Json {
    Null,
    Bool(bool),
    Number(u64),
    Text(Seq<char>),
    Array(Seq<Json>),
    Object(Map<Seq<char>, Json>),
}

/// What a `serde_json::Value` holds.
pub uninterp spec fn json_value(v: serde_json::Value) -> Json;

/// What `serde_json::from_slice` reads from bytes; `None` where it fails.
pub uninterp spec fn json_text(bytes: Seq<u8>) -> Option<Json>;

/// What `str::parse` reads from a text as a double-precision number, by its bit
/// pattern; `None` where the text is no number or no finite one.
pub uninterp spec fn parsed_bits(s: Seq<char>) -> Option<u64>;

/// `serde_json::from_slice`, for a value of any shape. It fails where the bytes
/// are no JSON text or one that nests too deeply; what it reads from them is named,
/// not stated.
#[verifier::external_body]
fn parse_json(bytes: &[u8]) -> (r: Result<serde_json::Value, serde_json::Error>)
    ensures
        match r {
            Ok(v) => json_text(bytes@) == Some(json_value(v)),
            Err(_) => json_text(bytes@) is None,
        },
{
    serde_json::from_slice(bytes)
}

/// `serde_json::Value::as_array` gives the items of an array, and nothing of
/// any other value.
pub assume_specification[ serde_json::Value::as_array ](v: &serde_json::Value) -> (r: Option<
    &Vec<serde_json::Value>,
>)
    ensures
        match json_value(*v) {
            Json::Array(items) => r is Some && r->0@.len() == items.len() && forall|i: int|
                0 <= i < items.len() ==> json_value(#[trigger] r->0@[i]) == items[i],
            _ => r is None,
        },
;

/// `serde_json::Value::as_str` gives the text of a string, and nothing of any
/// other value.
pub assume_specification[ serde_json::Value::as_str ](v: &serde_json::Value) -> (r: Option<&str>)
    ensures
        match json_value(*v) {
            Json::Text(s) => r is Some && r->0@ == s,
            _ => r is None,
        },
;

/// `serde_json::Value::get` with a text gives the value of an object's key, and
/// nothing where the key is missing or the value is no object.
#[verifier::external_body]
fn field<'a>(v: &'a serde_json::Value, key: &str) -> (r: Option<&'a serde_json::Value>)
    ensures
        match json_value(*v) {
            Json::Object(m) => if m.contains_key(key@) {
                r is Some && json_value(*r->0) == m[key@]
            } else {
                r is None
            },
            _ => r is None,
        },
{
    v.get(key)
}

/// `serde_json::Value::as_f64` gives a number as a double-precision one, here by
/// its bit pattern, and nothing of any other value.
#[verifier::external_body]
fn number_bits(v: &serde_json::Value) -> (r: Option<u64>)
    ensures
        match json_value(*v) {
            Json::Number(bits) => r == Some(bits),
            _ => r is None,
        },
{
    v.as_f64().map(|x| x.to_bits())
}

/// `str::parse` for a double-precision number, by its bit pattern. A number that
/// is not finite is left out: `serde_json::Number::from_f64` takes finite ones
/// only.
#[verifier::external_body]
fn parse_bits(s: &str) -> (r: Option<u64>)
    ensures
        r == parsed_bits(s@),
{
    s.parse().ok().and_then(serde_json::Number::from_f64).and_then(|n| n.as_f64()).map(
        |x| x.to_bits(),
    )
}

/// Whether a bit pattern is that of a finite double-precision number: its
/// exponent is not the one that infinities and non-numbers have.
pub open spec fn finite(bits: u64) -> bool {
    (bits / 0x10_0000_0000_0000) % 0x800 != 0x7ff
}

/// The fields of one station of the directory, as far as they are read.
pub struct Listing {
    pub lon: Option<u64>,
    pub lat: Option<u64>,
    pub url_resolved: String,
    pub url: String,
    pub name: String,
    pub state: String,
    pub country: String,
    pub countrycode: String,
    pub tags: String,
}

/// The fields of one station of the directory, as mathematical values.
#[verifier::ext_equal]
pub struct ListingModel {
    pub lon: Option<u64>,
    pub lat: Option<u64>,
    pub url_resolved: Seq<char>,
    pub url: Seq<char>,
    pub name: Seq<char>,
    pub state: Seq<char>,
    pub country: Seq<char>,
    pub countrycode: Seq<char>,
    pub tags: Seq<char>,
}

impl View for Listing {
    type V = ListingModel;

    open spec fn view(&self) -> ListingModel {
        ListingModel {
            lon: self.lon,
            lat: self.lat,
            url_resolved: self.url_resolved@,
            url: self.url@,
            name: self.name@,
            state: self.state@,
            country: self.country@,
            countrycode: self.countrycode@,
            tags: self.tags@,
        }
    }
}

/// The value of a key; `None` where it is missing or the value is no object.
pub open spec fn key_of(j: Json, key: Seq<char>) -> Option<Json> {
    match j {
        Json::Object(m) => if m.contains_key(key) {
            Some(m[key])
        } else {
            None
        },
        _ => None,
    }
}

/// The text under a key; empty where there is none.
pub open spec fn text_at(j: Json, key: Seq<char>) -> Seq<char> {
    match key_of(j, key) {
        Some(Json::Text(s)) => s,
        _ => Seq::empty(),
    }
}

/// The number under a key, written as a number or as a text that reads as one.
pub open spec fn number_at(j: Json, key: Seq<char>) -> Option<u64> {
    match key_of(j, key) {
        Some(Json::Number(bits)) => Some(bits),
        Some(Json::Text(s)) => parsed_bits(s),
        _ => None,
    }
}

/// What is read from one value of the directory's array.
pub open spec fn listing_in(j: Json) -> ListingModel {
    ListingModel {
        lon: number_at(j, "geo_long"@),
        lat: number_at(j, "geo_lat"@),
        url_resolved: text_at(j, "url_resolved"@),
        url: text_at(j, "url"@),
        name: text_at(j, "name"@),
        state: text_at(j, "state"@),
        country: text_at(j, "country"@),
        countrycode: text_at(j, "countrycode"@),
        tags: text_at(j, "tags"@),
    }
}

fn text_field(v: &serde_json::Value, key: &str) -> (r: String)
    ensures
        r@ == text_at(json_value(*v), key@),
{
    match field(v, key) {
        Some(x) => match x.as_str() {
            Some(s) => s.to_owned(),
            None => String::new(),
        },
        None => String::new(),
    }
}

fn number_field(v: &serde_json::Value, key: &str) -> (r: Option<u64>)
    ensures
        r == number_at(json_value(*v), key@),
{
    match field(v, key) {
        Some(x) => match number_bits(x) {
            Some(bits) => Some(bits),
            None => match x.as_str() {
                Some(s) => parse_bits(s),
                None => None,
            },
        },
        None => None,
    }
}

/// Reads one value of the directory's array.
pub fn listing_of(v: &serde_json::Value) -> (r: Listing)
    ensures
        r@ == listing_in(json_value(*v)),
{
    Listing {
        lon: number_field(v, "geo_long"),
        lat: number_field(v, "geo_lat"),
        url_resolved: text_field(v, "url_resolved"),
        url: text_field(v, "url"),
        name: text_field(v, "name"),
        state: text_field(v, "state"),
        country: text_field(v, "country"),
        countrycode: text_field(v, "countrycode"),
        tags: text_field(v, "tags"),
    }
}

/// The stream's URL: the resolved one where there is one.
pub open spec fn stream_url(l: ListingModel) -> Seq<char> {
    if l.url_resolved.len() == 0 {
        l.url
    } else {
        l.url_resolved
    }
}

/// Whether a listing can be shown and played: it has both coordinates and a URL.
pub open spec fn usable(l: ListingModel) -> bool {
    &&& l.lon is Some && finite(l.lon->0)
    &&& l.lat is Some && finite(l.lat->0)
    &&& stream_url(l).len() > 0
}

/// The longest name that is shown.
pub const NAME_CHARS: usize = 40;

/// The station that a usable listing stands for.
pub open spec fn listed_station(l: ListingModel) -> StationModel {
    let name = first_chars(trimmed(l.name), NAME_CHARS as nat);
    StationModel {
        name: if name.len() == 0 {
            "Unknown"@
        } else {
            name
        },
        city: if l.state.len() == 0 {
            l.country
        } else {
            l.state
        },
        country: l.countrycode,
        country_name: l.country,
        lon: l.lon->0,
        lat: l.lat->0,
        genre: until(l.tags, ','),
        url: stream_url(l),
    }
}

/// Whether a station with the given URL is in a list.
pub open spec fn knows_url(list: Seq<StationModel>, url: Seq<char>) -> bool {
    exists|i: int| 0 <= i < list.len() && (#[trigger] list[i]).url == url
}

/// The stations of a list of listings, in its order: the usable ones, and of
/// those with the same URL the first. Location plays no part in it.
pub open spec fn collected(listings: Seq<ListingModel>) -> Seq<StationModel>
    decreases listings.len(),
{
    if listings.len() == 0 {
        Seq::empty()
    } else {
        let rest = collected(listings.drop_last());
        let l = listings.last();
        if usable(l) && !knows_url(rest, stream_url(l)) {
            rest.push(listed_station(l))
        } else {
            rest
        }
    }
}

/// The listings of a list, as mathematical values.
pub open spec fn listing_models(listings: Seq<Listing>) -> Seq<ListingModel> {
    listings.map_values(|l: Listing| l@)
}

fn is_finite(bits: u64) -> (r: bool)
    ensures
        r == finite(bits),
{
    (bits / 0x10_0000_0000_0000) % 0x800 != 0x7ff
}

/// The station that a listing stands for, where it is usable.
pub fn station_of(l: &Listing) -> (r: Option<Station>)
    ensures
        r is Some == usable(l@),
        r matches Some(s) ==> s@ == listed_station(l@),
{
    let (lon, lat) = match (l.lon, l.lat) {
        (Some(lon), Some(lat)) => (lon, lat),
        _ => {
            return None;
        },
    };
    if !is_finite(lon) || !is_finite(lat) {
        return None;
    }
    let url = if l.url_resolved.as_str().is_empty() { l.url.clone() } else { l.url_resolved.clone() };
    if url.as_str().is_empty() {
        return None;
    }
    let trimmed_name = trim(l.name.as_str());
    let name = prefix(trimmed_name.as_str(), NAME_CHARS);
    Some(
        Station {
            name: if name.as_str().is_empty() { "Unknown".to_owned() } else { name },
            city: if l.state.as_str().is_empty() { l.country.clone() } else { l.state.clone() },
            country: l.countrycode.clone(),
            country_name: l.country.clone(),
            lon,
            lat,
            genre: before(l.tags.as_str(), ','),
            url,
        },
    )
}

/// The URLs of a list of stations.
pub open spec fn urls(list: Seq<StationModel>) -> Set<Seq<char>> {
    Set::new(|u: Seq<char>| knows_url(list, u))
}

/// Appending a station adds its URL to those of the list.
pub proof fn urls_push(list: Seq<StationModel>, s: StationModel)
    ensures
        urls(list.push(s)) == urls(list).insert(s.url),
{
    let grown = list.push(s);
    assert forall|u: Seq<char>| knows_url(grown, u) == (knows_url(list, u) || u == s.url) by {
        if knows_url(list, u) {
            let i = choose|i: int| 0 <= i < list.len() && (#[trigger] list[i]).url == u;
            assert(grown[i].url == u);
        }
        if u == s.url {
            assert(grown[list.len() as int].url == u);
        }
        if knows_url(grown, u) {
            let i = choose|i: int| 0 <= i < grown.len() && (#[trigger] grown[i]).url == u;
            if i < list.len() {
                assert(list[i].url == u);
            }
        }
    }
    assert(urls(grown) == urls(list).insert(s.url));
}

/// The stations of a list of listings: the usable ones, and of those with the
/// same URL the first.
pub fn collect_listings(listings: &Vec<Listing>) -> (r: Vec<Station>)
    ensures
        models(r@) == collected(listing_models(listings@)),
{
    let mut seen = StringHashSet::new();
    let mut out: Vec<Station> = Vec::new();
    let mut i: usize = 0;
    assert(urls(models(out@)) == Set::<Seq<char>>::empty());
    while i < listings.len()
        invariant
            i <= listings.len(),
            models(out@) == collected(listing_models(listings@).take(i as int)),
            seen@ == urls(models(out@)),
        decreases listings.len() - i,
    {
        let l = &listings[i];
        proof {
            let all = listing_models(listings@);
            assert(all.take(i + 1).drop_last() == all.take(i as int));
            assert(all.take(i + 1).last() == l@);
        }
        if let Some(s) = station_of(l) {
            if seen.insert(s.url.clone()) {
                proof {
                    models_push(out@, s);
                    urls_push(models(out@), s@);
                }
                out.push(s);
            } else {
                assert(seen@ == urls(models(out@)));
            }
        }
        i += 1;
    }
    assert(listing_models(listings@).take(listings.len() as int) == listing_models(listings@));
    out
}

/// What the directory's reply amounts to: its stations, or why there are none.
pub open spec fn directory_stations(reply: Option<Json>) -> Result<Seq<StationModel>, Seq<char>> {
    match reply {
        None => Err("bad JSON"@),
        Some(Json::Array(items)) => Ok(collected(items.map_values(|j: Json| listing_in(j)))),
        Some(_) => Err("unexpected response"@),
    }
}

/// A result with stations or a message, as a mathematical value.
pub open spec fn fetched(r: Result<Vec<Station>, String>) -> Result<Seq<StationModel>, Seq<char>> {
    match r {
        Ok(v) => Ok(models(v@)),
        Err(e) => Err(e@),
    }
}

/// The stations in a JSON value.
pub fn stations_in(v: &serde_json::Value) -> (r: Result<Vec<Station>, String>)
    ensures
        fetched(r) == directory_stations(Some(json_value(*v))),
{
    match v.as_array() {
        None => Err("unexpected response".to_owned()),
        Some(items) => {
            let ghost all = json_value(*v)->Array_0;
            let mut listings: Vec<Listing> = Vec::new();
            let mut i: usize = 0;
            while i < items.len()
                invariant
                    i <= items.len(),
                    items@.len() == all.len(),
                    forall|k: int|
                        0 <= k < all.len() ==> json_value(#[trigger] items@[k]) == all[k],
                    listing_models(listings@) == all.take(i as int).map_values(
                        |j: Json| listing_in(j),
                    ),
                decreases items.len() - i,
            {
                let l = listing_of(&items[i]);
                proof {
                    assert(all.take(i + 1) == all.take(i as int).push(all[i as int]));
                    assert(listing_models(listings@.push(l)) == listing_models(listings@).push(l@));
                }
                listings.push(l);
                i += 1;
            }
            assert(all.take(items.len() as int) == all);
            Ok(collect_listings(&listings))
        },
    }
}

/// The stations in the directory's reply.
pub fn stations_in_reply(bytes: &[u8]) -> (r: Result<Vec<Station>, String>)
    ensures
        fetched(r) == directory_stations(json_text(bytes@)),
{
    match parse_json(bytes) {
        Ok(v) => stations_in(&v),
        Err(_) => Err("bad JSON".to_owned()),
    }
}

/// No URL comes twice out of the directory, and every station has one.
pub proof fn collected_urls_are_distinct(listings: Seq<ListingModel>)
    ensures
        forall|i: int|
            0 <= i < collected(listings).len() ==> has_url(#[trigger] collected(listings)[i]),
        forall|i: int, j: int|
            0 <= i < j < collected(listings).len() ==> (#[trigger] collected(listings)[i]).url != (
            #[trigger] collected(listings)[j]).url,
    decreases listings.len(),
{
    if listings.len() > 0 {
        let rest = collected(listings.drop_last());
        let l = listings.last();
        collected_urls_are_distinct(listings.drop_last());
        if usable(l) && !knows_url(rest, stream_url(l)) {
            let all = collected(listings);
            assert forall|i: int, j: int| 0 <= i < j < all.len() implies (#[trigger] all[i]).url != (
            #[trigger] all[j]).url by {
                assert(all[i] == rest[i]);
                if j < rest.len() {
                    assert(all[j] == rest[j]);
                }
            }
        }
    }
}

/// Every usable listing's URL comes out of the directory: a listing is left out
/// only where an earlier one has the same URL.
pub proof fn every_usable_url_is_collected(listings: Seq<ListingModel>, i: int)
    requires
        0 <= i < listings.len(),
        usable(listings[i]),
    ensures
        knows_url(collected(listings), stream_url(listings[i])),
    decreases listings.len(),
{
    let rest = collected(listings.drop_last());
    let all = collected(listings);
    if i < listings.len() - 1 {
        every_usable_url_is_collected(listings.drop_last(), i);
        let k = choose|k: int|
            0 <= k < rest.len() && (#[trigger] rest[k]).url == stream_url(listings[i]);
        assert(all[k] == rest[k]);
    } else if !knows_url(rest, stream_url(listings[i])) {
        assert(all[rest.len() as int].url == stream_url(listings[i]));
    }
}

/// Stations are told apart by URL alone: where all listings are usable and their
/// URLs differ, every one of them comes out, in their order, however many share a
/// place.
pub proof fn places_do_not_matter(listings: Seq<ListingModel>)
    requires
        forall|i: int| 0 <= i < listings.len() ==> usable(#[trigger] listings[i]),
        forall|i: int, j: int|
            0 <= i < j < listings.len() ==> stream_url(#[trigger] listings[i]) != stream_url(
                #[trigger] listings[j],
            ),
    ensures
        collected(listings) == listings.map_values(|l: ListingModel| listed_station(l)),
    decreases listings.len(),
{
    if listings.len() > 0 {
        let front = listings.drop_last();
        let rest = collected(front);
        let l = listings.last();
        assert forall|i: int| 0 <= i < front.len() implies usable(#[trigger] front[i]) by {
            assert(front[i] == listings[i]);
        }
        assert forall|i: int, j: int| 0 <= i < j < front.len() implies stream_url(
            #[trigger] front[i],
        ) != stream_url(#[trigger] front[j]) by {
            assert(front[i] == listings[i] && front[j] == listings[j]);
        }
        places_do_not_matter(front);
        assert(usable(listings[listings.len() - 1]));
        if knows_url(rest, stream_url(l)) {
            let k = choose|k: int| 0 <= k < rest.len() && (#[trigger] rest[k]).url == stream_url(l);
            assert(rest[k] == listed_station(front[k]));
            assert(stream_url(listings[k]) != stream_url(listings[listings.len() - 1]));
        }
        assert(collected(listings) == listings.map_values(|l: ListingModel| listed_station(l)));
    }
}

} // verus!
