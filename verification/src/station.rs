//! Stations, and the curated table that the list starts from.
use vstd::prelude::*;

verus! {

/// A station. The coordinates are in degrees, each held as the bit pattern of a
/// double-precision number: nothing here computes with them.
pub struct Station {
    pub name: String,
    pub city: String,
    /// ISO 3166 alpha-2 code, such as "DE".
    pub country: String,
    /// Full name, such as "Germany".
    pub country_name: String,
    pub lon: u64,
    pub lat: u64,
    pub genre: String,
    pub url: String,
}

/// A station as a mathematical value.
#[verifier::ext_equal]
pub struct StationModel {
    pub name: Seq<char>,
    pub city: Seq<char>,
    pub country: Seq<char>,
    pub country_name: Seq<char>,
    pub lon: u64,
    pub lat: u64,
    pub genre: Seq<char>,
    pub url: Seq<char>,
}

impl View for Station {
    type V = StationModel;

    open spec fn view(&self) -> StationModel {
        StationModel {
            name: self.name@,
            city: self.city@,
            country: self.country@,
            country_name: self.country_name@,
            lon: self.lon,
            lat: self.lat,
            genre: self.genre@,
            url: self.url@,
        }
    }
}

impl Clone for Station {
    fn clone(&self) -> (r: Self)
        ensures
            r == *self,
    {
        Station {
            name: self.name.clone(),
            city: self.city.clone(),
            country: self.country.clone(),
            country_name: self.country_name.clone(),
            lon: self.lon,
            lat: self.lat,
            genre: self.genre.clone(),
            url: self.url.clone(),
        }
    }
}

/// A list of stations as a sequence of mathematical values.
pub open spec fn models(stations: Seq<Station>) -> Seq<StationModel> {
    stations.map_values(|s: Station| s@)
}

/// A row of the curated table. It carries a country code and no country name.
pub struct Seed {
    pub name: &'static str,
    pub city: &'static str,
    pub country: &'static str,
    pub lon: u64,
    pub lat: u64,
    pub genre: &'static str,
    pub url: &'static str,
}

/// The station that a row of the curated table stands for: its code serves as
/// the country's name too.
pub open spec fn seeded(row: Seed) -> StationModel {
    StationModel {
        name: row.name@,
        city: row.city@,
        country: row.country@,
        country_name: row.country@,
        lon: row.lon,
        lat: row.lat,
        genre: row.genre@,
        url: row.url@,
    }
}

/// The stations of the curated table, in its order.
pub fn seed_stations(table: &[Seed]) -> (r: Vec<Station>)
    ensures
        models(r@) == table@.map_values(|row: Seed| seeded(row)),
{
    let mut out: Vec<Station> = Vec::new();
    let mut i: usize = 0;
    while i < table.len()
        invariant
            i <= table.len(),
            models(out@) == table@.take(i as int).map_values(|row: Seed| seeded(row)),
        decreases table.len() - i,
    {
        let row = &table[i];
        let s = Station {
            name: row.name.to_owned(),
            city: row.city.to_owned(),
            country: row.country.to_owned(),
            country_name: row.country.to_owned(),
            lon: row.lon,
            lat: row.lat,
            genre: row.genre.to_owned(),
            url: row.url.to_owned(),
        };
        proof {
            let before = out@;
            assert(s@ == seeded(*row));
            assert(models(before.push(s)) == models(before).push(s@));
            assert(table@.take(i + 1) == table@.take(i as int).push(*row));
        }
        out.push(s);
        i += 1;
    }
    assert(table@.take(table.len() as int) == table@);
    out
}

/// Whether a station can be played at all.
pub open spec fn has_url(s: StationModel) -> bool {
    s.url.len() > 0
}

/// Appending a station to a list appends its value to the sequence.
pub proof fn models_push(list: Seq<Station>, s: Station)
    ensures
        models(list.push(s)) == models(list).push(s@),
{
    assert(models(list.push(s)) == models(list).push(s@));
}

/// Filtering a sequence that grew by one.
pub proof fn filter_push<A>(list: Seq<A>, x: A, keep: spec_fn(A) -> bool)
    ensures
        list.push(x).filter(keep) == if keep(x) {
            list.filter(keep).push(x)
        } else {
            list.filter(keep)
        },
{
    reveal(Seq::filter);
    assert(list.push(x).drop_last() == list);
}

/// The stations of a curated table that have a stream URL, in its order: the only
/// ones worth showing, since the others can never play.
pub open spec fn curated_list(table: Seq<Seed>) -> Seq<StationModel> {
    table.map_values(|row: Seed| seeded(row)).filter(|s: StationModel| has_url(s))
}

/// Every station of the curated list has a URL.
pub proof fn curated_have_urls(table: Seq<Seed>)
    ensures
        forall|i: int|
            0 <= i < curated_list(table).len() ==> has_url(#[trigger] curated_list(table)[i]),
{
    let all = table.map_values(|row: Seed| seeded(row));
    let keep = |s: StationModel| has_url(s);
    assert forall|i: int| 0 <= i < curated_list(table).len() implies has_url(
        #[trigger] curated_list(table)[i],
    ) by {
        all.lemma_filter_pred(keep, i);
    }
}

/// The stations of the curated table that have a stream URL, in its order.
pub fn curated_with_urls(table: &[Seed]) -> (r: Vec<Station>)
    ensures
        models(r@) == curated_list(table@),
{
    let seeds = seed_stations(table);
    let ghost keep = |s: StationModel| has_url(s);
    let mut out: Vec<Station> = Vec::new();
    let mut i: usize = 0;
    proof {
        reveal(Seq::filter);
    }
    while i < seeds.len()
        invariant
            i <= seeds.len(),
            keep == (|s: StationModel| has_url(s)),
            models(out@) == models(seeds@.take(i as int)).filter(keep),
        decreases seeds.len() - i,
    {
        let s = &seeds[i];
        proof {
            assert(seeds@.take(i + 1) == seeds@.take(i as int).push(*s));
            models_push(seeds@.take(i as int), *s);
            filter_push(models(seeds@.take(i as int)), s@, keep);
            models_push(out@, *s);
        }
        if !s.url.as_str().is_empty() {
            out.push(s.clone());
        }
        i += 1;
    }
    assert(seeds@.take(seeds.len() as int) == seeds@);
    out
}

/// A row of the table becomes a station with the same name, city, place, genre and
/// URL; its code is both the country's code and its name.
pub proof fn rows_become_stations(row: Seed)
    ensures
        ({
            let s = seeded(row);
            &&& s.name == row.name@ && s.city == row.city@
            &&& s.country == row.country@ && s.country_name == row.country@
            &&& s.lon == row.lon && s.lat == row.lat
            &&& s.genre == row.genre@ && s.url == row.url@
        }),
{
}

/// The curated list is the table's rows that have a URL, all of them, in the
/// table's order.
pub proof fn curated_are_the_rows_with_urls(table: Seq<Seed>)
    ensures
        curated_list(table) == table.filter(|row: Seed| row.url@.len() > 0).map_values(
            |row: Seed| seeded(row),
        ),
    decreases table.len(),
{
    reveal(Seq::filter);
    let keep = |s: StationModel| has_url(s);
    let rows = |row: Seed| row.url@.len() > 0;
    let make = |row: Seed| seeded(row);
    if table.len() > 0 {
        let rest = table.drop_last();
        curated_are_the_rows_with_urls(rest);
        assert(table.map_values(make) == rest.map_values(make).push(seeded(table.last())));
        filter_push(rest.map_values(make), seeded(table.last()), keep);
        if table.last().url@.len() > 0 {
            assert(rest.filter(rows).push(table.last()).map_values(make) == rest.filter(
                rows,
            ).map_values(make).push(seeded(table.last())));
        }
    } else {
        assert(table.map_values(make) == Seq::<StationModel>::empty());
        assert(table.filter(rows).map_values(make) == Seq::<StationModel>::empty());
    }
}

} // verus!
