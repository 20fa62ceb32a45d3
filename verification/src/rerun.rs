//! What holds of a stage that is run a second time.
//!
//! The store is not part of this library, so each law says what it takes of
//! the store: that it kept the rows it had, and that it took the rows that
//! the first run sent. A second run then asks for no row at all, and a store
//! that grows only by what it is sent holds as many rows after that run as
//! before it.

use vstd::prelude::*;
use crate::lookup::{artist_id_of, city_id_in, city_id_of, country_id_of, first_index};
use crate::mpdb::{Artist, City, Country, DbId, Venue};
use crate::plan::{creations, lemma_no_creations, NewArtist, NewCity, NewCountry, NewVenue, Step};
use crate::stages::{
    artist_step_is, city_step_is, country_step_is, seed_artist_name, venue_at, venue_step_is,
};

verus! {

/// Stage one, run again over the same candidates, creates no country: every
/// candidate was in the store before the first run or was sent by it.
pub proof fn lemma_countries_settle(
    candidates: Seq<(Seq<char>, Option<Seq<char>>)>,
    before: Seq<Country>,
    after: Seq<Country>,
    first: Seq<Step<NewCountry>>,
    second: Seq<Step<NewCountry>>,
)
    requires
        first.len() == candidates.len(),
        second.len() == candidates.len(),
        forall|i: int|
            0 <= i < candidates.len() ==> country_step_is(#[trigger] first[i], before, candidates[i]),
        forall|i: int|
            0 <= i < candidates.len() ==> country_step_is(#[trigger] second[i], after, candidates[i]),
        forall|name: Seq<char>| #[trigger]
            country_id_of(before, name) is Some ==> country_id_of(after, name) is Some,
        forall|i: int|
            0 <= i < candidates.len() ==> (#[trigger] first[i] matches Step::Create(p)
                ==> country_id_of(after, p.name@) is Some),
    ensures
        creations(second) == 0,
{
    assert forall|i: int| 0 <= i < second.len() implies !(#[trigger] second[i] is Create) by {
        assert(country_step_is(first[i], before, candidates[i]));
        assert(country_step_is(second[i], after, candidates[i]));
        if country_id_of(before, candidates[i].0) is Some {
            assert(country_id_of(after, candidates[i].0) is Some);
        }
    }
    lemma_no_creations(second);
}

/// Stage two, run again over the same candidates and the same countries
/// table, creates no city.
pub proof fn lemma_cities_settle(
    candidates: Seq<(Seq<char>, Seq<char>)>,
    countries: Seq<Country>,
    before: Seq<City>,
    after: Seq<City>,
    first: Seq<Step<NewCity>>,
    second: Seq<Step<NewCity>>,
)
    requires
        first.len() == candidates.len(),
        second.len() == candidates.len(),
        forall|i: int|
            0 <= i < candidates.len() ==> city_step_is(
                #[trigger] first[i],
                countries,
                before,
                candidates[i],
            ),
        forall|i: int|
            0 <= i < candidates.len() ==> city_step_is(
                #[trigger] second[i],
                countries,
                after,
                candidates[i],
            ),
        forall|name: Seq<char>, country_id: DbId| #[trigger]
            city_id_in(before, name, country_id) is Some ==> city_id_in(after, name, country_id)
                is Some,
        forall|i: int|
            0 <= i < candidates.len() ==> (#[trigger] first[i] matches Step::Create(p)
                ==> city_id_in(after, p.name@, p.country_id) is Some),
    ensures
        creations(second) == 0,
{
    assert forall|i: int| 0 <= i < second.len() implies !(#[trigger] second[i] is Create) by {
        assert(city_step_is(first[i], countries, before, candidates[i]));
        assert(city_step_is(second[i], countries, after, candidates[i]));
        match country_id_of(countries, candidates[i].1) {
            Some(country_id) => {
                if city_id_in(before, candidates[i].0, country_id) is Some {
                    assert(city_id_in(after, candidates[i].0, country_id) is Some);
                }
            },
            None => {},
        }
    }
    lemma_no_creations(second);
}

/// Stage three, run again over the same candidates and the same countries
/// and cities tables, creates no venue.
pub proof fn lemma_venues_settle(
    candidates: Seq<(Seq<char>, Seq<char>, Seq<char>)>,
    countries: Seq<Country>,
    cities: Seq<City>,
    before: Seq<Venue>,
    after: Seq<Venue>,
    first: Seq<Step<NewVenue>>,
    second: Seq<Step<NewVenue>>,
)
    requires
        first.len() == candidates.len(),
        second.len() == candidates.len(),
        forall|i: int|
            0 <= i < candidates.len() ==> venue_step_is(
                #[trigger] first[i],
                countries,
                cities,
                before,
                candidates[i],
            ),
        forall|i: int|
            0 <= i < candidates.len() ==> venue_step_is(
                #[trigger] second[i],
                countries,
                cities,
                after,
                candidates[i],
            ),
        forall|name: Seq<char>, city_id: DbId| #[trigger]
            first_index(before, venue_at(name, city_id)) is Some ==> first_index(
                after,
                venue_at(name, city_id),
            ) is Some,
        forall|i: int|
            0 <= i < candidates.len() ==> (#[trigger] first[i] matches Step::Create(p)
                ==> first_index(after, venue_at(p.name@, p.city_id)) is Some),
    ensures
        creations(second) == 0,
{
    assert forall|i: int| 0 <= i < second.len() implies !(#[trigger] second[i] is Create) by {
        assert(venue_step_is(first[i], countries, cities, before, candidates[i]));
        assert(venue_step_is(second[i], countries, cities, after, candidates[i]));
        match city_id_of(countries, cities, candidates[i].1, candidates[i].2) {
            Some(city_id) => {
                if first_index(before, venue_at(candidates[i].0, city_id)) is Some {
                    assert(first_index(after, venue_at(candidates[i].0, city_id)) is Some);
                }
            },
            None => {},
        }
    }
    lemma_no_creations(second);
}

/// Stage four, run again over the same candidates, creates no artist, and
/// the seed artist is not asked for again.
pub proof fn lemma_artists_settle(
    candidates: Seq<Seq<char>>,
    before: Seq<Artist>,
    after: Seq<Artist>,
    first_seed: Step<NewArtist>,
    first: Seq<Step<NewArtist>>,
    second_seed: Step<NewArtist>,
    second: Seq<Step<NewArtist>>,
)
    requires
        first.len() == candidates.len(),
        second.len() == candidates.len(),
        artist_step_is(first_seed, before, seed_artist_name()),
        artist_step_is(second_seed, after, seed_artist_name()),
        forall|i: int|
            0 <= i < candidates.len() ==> artist_step_is(#[trigger] first[i], before, candidates[i]),
        forall|i: int|
            0 <= i < candidates.len() ==> artist_step_is(#[trigger] second[i], after, candidates[i]),
        forall|name: Seq<char>| #[trigger]
            artist_id_of(before, name) is Some ==> artist_id_of(after, name) is Some,
        first_seed matches Step::Create(p) ==> artist_id_of(after, p.name@) is Some,
        forall|i: int|
            0 <= i < candidates.len() ==> (#[trigger] first[i] matches Step::Create(p)
                ==> artist_id_of(after, p.name@) is Some),
    ensures
        second_seed is Skip,
        creations(second) == 0,
{
    if artist_id_of(before, seed_artist_name()) is Some {
        assert(artist_id_of(after, seed_artist_name()) is Some);
    }
    assert forall|i: int| 0 <= i < second.len() implies !(#[trigger] second[i] is Create) by {
        assert(artist_step_is(first[i], before, candidates[i]));
        assert(artist_step_is(second[i], after, candidates[i]));
        if artist_id_of(before, candidates[i]) is Some {
            assert(artist_id_of(after, candidates[i]) is Some);
        }
    }
    lemma_no_creations(second);
}

} // verus!
