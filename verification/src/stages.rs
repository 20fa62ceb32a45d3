//! The first four stages: countries, cities, venues and artists. Each looks
//! at what the store holds, and asks for the candidates that it lacks.

use vstd::prelude::*;
use crate::distinct::{distinct, keys, Keyed};
use crate::extract::{artist_names, city_keys, country_keys, venue_keys, CityKey, CountryKey, VenueKey};
use crate::lookup::{
    artist_id_of, city_id_in, city_id_of, country_id_of, find_artist, find_city, find_country,
    first_index, lemma_first_index, lemma_first_index_found,
};
use crate::mpdb::{Artist, City, Country, DbId, Mpdb, Venue};
use crate::plan::{NewArtist, NewCity, NewCountry, NewVenue, Step};
use crate::setlists::{clone_opt, opt_text, same_text};
use crate::slug::{slug_text, Slug};
use crate::text::{hyphen_joined, joined};

verus! {

/// The slug of a venue: the slugs of its name, its city and its country,
/// with hyphens between.
pub open spec fn venue_slug_text(venue: Seq<char>, city: Seq<char>, country: Seq<char>) -> Seq<
    char,
> {
    hyphen_joined(hyphen_joined(slug_text(venue), slug_text(city)), slug_text(country))
}

/// The slug of a venue: the slugs of its name, its city and its country,
/// with hyphens between.
pub fn venue_slug(venue: &String, city: &String, country: &String) -> (out: String)
    ensures
        out@ == venue_slug_text(venue@, city@, country@),
{
    let first = joined(&venue.slug(), &city.slug());
    joined(&first, &country.slug())
}

/// Holds of the venues of that name in the city with that id.
pub open spec fn venue_at(name: Seq<char>, city_id: DbId) -> spec_fn(Venue) -> bool {
    |v: Venue| v.name@ == name && v.city_id == city_id
}

/// Whether `venues` holds a venue of that name in the city with that id.
pub fn holds_venue(venues: &Vec<Venue>, name: &String, city_id: DbId) -> (found: bool)
    ensures
        found <==> first_index(venues@, venue_at(name@, city_id)) is Some,
{
    let mut i: usize = 0;
    while i < venues.len()
        invariant
            i <= venues.len(),
            forall|j: int| 0 <= j < i ==> !venue_at(name@, city_id)(#[trigger] venues@[j]),
        decreases venues.len() - i,
    {
        if same_text(&venues[i].name, name) && venues[i].city_id == city_id {
            proof {
                lemma_first_index_found(venues@, venue_at(name@, city_id), i as int);
            }
            return true;
        }
        i += 1;
    }
    proof {
        lemma_first_index(venues@, venue_at(name@, city_id));
    }
    false
}

/// The decision on a country: skipped where the store holds one of that
/// name, created with its name, slug and code otherwise.
pub open spec fn country_step_is(
    step: Step<NewCountry>,
    existing: Seq<Country>,
    key: (Seq<char>, Option<Seq<char>>),
) -> bool {
    if country_id_of(existing, key.0) is Some {
        step is Skip
    } else {
        step matches Step::Create(p) && p.name@ == key.0 && p.slug@ == slug_text(key.0)
            && opt_text(p.code) == key.1
    }
}

/// The decision on a city: unresolved where its country is not in the
/// countries table, skipped where the store holds a city of that name in that
/// country, created under the country's id otherwise.
pub open spec fn city_step_is(
    step: Step<NewCity>,
    countries: Seq<Country>,
    existing: Seq<City>,
    key: (Seq<char>, Seq<char>),
) -> bool {
    match country_id_of(countries, key.1) {
        None => step is Unresolved,
        Some(country_id) => if city_id_in(existing, key.0, country_id) is Some {
            step is Skip
        } else {
            step matches Step::Create(p) && p.name@ == key.0 && p.country_id == country_id
                && p.slug@ == hyphen_joined(slug_text(key.0), slug_text(key.1))
        },
    }
}

/// The decision on a venue: unresolved where its city is not in the tables,
/// skipped where the store holds a venue of that name in that city, created
/// under the city's id otherwise.
pub open spec fn venue_step_is(
    step: Step<NewVenue>,
    countries: Seq<Country>,
    cities: Seq<City>,
    existing: Seq<Venue>,
    key: (Seq<char>, Seq<char>, Seq<char>),
) -> bool {
    match city_id_of(countries, cities, key.1, key.2) {
        None => step is Unresolved,
        Some(city_id) => if first_index(existing, venue_at(key.0, city_id)) is Some {
            step is Skip
        } else {
            step matches Step::Create(p) && p.name@ == key.0 && p.city_id == city_id
                && p.unique_name@ == hyphen_joined(slug_text(key.0), slug_text(key.1))
                && p.slug@ == venue_slug_text(key.0, key.1, key.2)
        },
    }
}

/// The decision on an artist: skipped where the store holds one of that
/// name, created with name and slug otherwise.
pub open spec fn artist_step_is(step: Step<NewArtist>, existing: Seq<Artist>, name: Seq<char>) -> bool {
    if artist_id_of(existing, name) is Some {
        step is Skip
    } else {
        step matches Step::Create(p) && p.name@ == name && p.slug@ == slug_text(name)
    }
}

/// The name of the artist that owns every song whose original performer is
/// not known.
pub open spec fn seed_artist_name() -> Seq<char> {
    "Motorpsycho"@
}

/// The name of the artist that owns every song whose original performer is
/// not known.
pub fn seed_artist() -> (out: String)
    ensures
        out@ == seed_artist_name(),
{
    String::from_str("Motorpsycho")
}

/// The decision on a country.
pub fn country_step(existing: &Vec<Country>, key: &CountryKey) -> (step: Step<NewCountry>)
    ensures
        country_step_is(step, existing@, key.key()),
{
    match find_country(existing, &key.name) {
        Some(_) => Step::Skip,
        None => Step::Create(
            NewCountry { name: key.name.clone(), slug: key.name.slug(), code: clone_opt(&key.code) },
        ),
    }
}

/// The decision on an artist.
pub fn artist_step(existing: &Vec<Artist>, name: &String) -> (step: Step<NewArtist>)
    ensures
        artist_step_is(step, existing@, name@),
{
    match find_artist(existing, name) {
        Some(_) => Step::Skip,
        None => Step::Create(NewArtist { name: name.clone(), slug: name.slug() }),
    }
}

impl Mpdb {
    /// The decision on a city, its country looked up in the countries
    /// table.
    pub fn city_step(&self, existing: &Vec<City>, key: &CityKey) -> (step: Step<NewCity>)
        ensures
            city_step_is(step, self.countries@, existing@, key.key()),
    {
        match self.get_country_id(&key.country) {
            None => Step::Unresolved,
            Some(country_id) => match find_city(existing, &key.name, country_id) {
                Some(_) => Step::Skip,
                None => Step::Create(
                    NewCity {
                        name: key.name.clone(),
                        country_id,
                        slug: joined(&key.name.slug(), &key.country.slug()),
                    },
                ),
            },
        }
    }

    /// The decision on a venue, its city looked up in the countries and
    /// cities tables.
    pub fn venue_step(&self, existing: &Vec<Venue>, key: &VenueKey) -> (step: Step<NewVenue>)
        ensures
            venue_step_is(step, self.countries@, self.cities@, existing@, key.key()),
    {
        match self.get_city_id(&key.city, &key.country) {
            None => Step::Unresolved,
            Some(city_id) => if holds_venue(existing, &key.name, city_id) {
                Step::Skip
            } else {
                Step::Create(
                    NewVenue {
                        name: key.name.clone(),
                        city_id,
                        unique_name: joined(&key.name.slug(), &key.city.slug()),
                        slug: venue_slug(&key.name, &key.city, &key.country),
                    },
                )
            },
        }
    }

    /// Stage one. One decision for each distinct country of the tree, in the
    /// order of `extract_all_unique_country_names`, against the countries
    /// that the store holds.
    pub fn populate_countries(&self, existing: &Vec<Country>) -> (plan: Vec<Step<NewCountry>>)
        ensures
            plan@.len() == distinct(country_keys(self.master.data@)).len(),
            forall|i: int|
                0 <= i < plan@.len() ==> country_step_is(
                    #[trigger] plan@[i],
                    existing@,
                    distinct(country_keys(self.master.data@))[i],
                ),
    {
        let candidates = self.extract_all_unique_country_names();
        let mut plan: Vec<Step<NewCountry>> = Vec::new();
        let mut i: usize = 0;
        while i < candidates.len()
            invariant
                i <= candidates.len(),
                plan@.len() == i,
                forall|j: int|
                    0 <= j < i ==> country_step_is(
                        #[trigger] plan@[j],
                        existing@,
                        keys(candidates@)[j],
                    ),
            decreases candidates.len() - i,
        {
            let step = country_step(existing, &candidates[i]);
            plan.push(step);
            i += 1;
        }
        plan
    }

    /// Stage two. One decision for each distinct city of the tree, in the
    /// order of `extract_all_unique_cities`, against the cities that the
    /// store holds.
    pub fn populate_cities(&self, existing: &Vec<City>) -> (plan: Vec<Step<NewCity>>)
        ensures
            plan@.len() == distinct(city_keys(self.master.data@)).len(),
            forall|i: int|
                0 <= i < plan@.len() ==> city_step_is(
                    #[trigger] plan@[i],
                    self.countries@,
                    existing@,
                    distinct(city_keys(self.master.data@))[i],
                ),
    {
        let candidates = self.extract_all_unique_cities();
        let mut plan: Vec<Step<NewCity>> = Vec::new();
        let mut i: usize = 0;
        while i < candidates.len()
            invariant
                i <= candidates.len(),
                plan@.len() == i,
                forall|j: int|
                    0 <= j < i ==> city_step_is(
                        #[trigger] plan@[j],
                        self.countries@,
                        existing@,
                        keys(candidates@)[j],
                    ),
            decreases candidates.len() - i,
        {
            let step = self.city_step(existing, &candidates[i]);
            plan.push(step);
            i += 1;
        }
        plan
    }

    /// Stage three. One decision for each distinct venue of the tree, in the
    /// order of `extract_all_unique_venues`, against the venues that the
    /// store holds.
    pub fn populate_venues(&self, existing: &Vec<Venue>) -> (plan: Vec<Step<NewVenue>>)
        ensures
            plan@.len() == distinct(venue_keys(self.master.data@)).len(),
            forall|i: int|
                0 <= i < plan@.len() ==> venue_step_is(
                    #[trigger] plan@[i],
                    self.countries@,
                    self.cities@,
                    existing@,
                    distinct(venue_keys(self.master.data@))[i],
                ),
    {
        let candidates = self.extract_all_unique_venues();
        let mut plan: Vec<Step<NewVenue>> = Vec::new();
        let mut i: usize = 0;
        while i < candidates.len()
            invariant
                i <= candidates.len(),
                plan@.len() == i,
                forall|j: int|
                    0 <= j < i ==> venue_step_is(
                        #[trigger] plan@[j],
                        self.countries@,
                        self.cities@,
                        existing@,
                        keys(candidates@)[j],
                    ),
            decreases candidates.len() - i,
        {
            let step = self.venue_step(existing, &candidates[i]);
            plan.push(step);
            i += 1;
        }
        plan
    }

    /// The decision on the seed artist, which is made before any other
    /// artist is looked at.
    pub fn seed_artist_step(existing: &Vec<Artist>) -> (step: Step<NewArtist>)
        ensures
            artist_step_is(step, existing@, seed_artist_name()),
    {
        let name = seed_artist();
        artist_step(existing, &name)
    }

    /// Stage four. One decision for each distinct artist of the tree, in the
    /// order of `extract_all_unique_artists`, against the artists that the
    /// store holds once the seed artist has been seen to.
    pub fn populate_artists(&self, existing: &Vec<Artist>) -> (plan: Vec<Step<NewArtist>>)
        ensures
            plan@.len() == distinct(artist_names(self.master.data@)).len(),
            forall|i: int|
                0 <= i < plan@.len() ==> artist_step_is(
                    #[trigger] plan@[i],
                    existing@,
                    distinct(artist_names(self.master.data@))[i],
                ),
    {
        let candidates = self.extract_all_unique_artists();
        let mut plan: Vec<Step<NewArtist>> = Vec::new();
        let mut i: usize = 0;
        while i < candidates.len()
            invariant
                i <= candidates.len(),
                plan@.len() == i,
                forall|j: int|
                    0 <= j < i ==> artist_step_is(
                        #[trigger] plan@[j],
                        existing@,
                        keys(candidates@)[j],
                    ),
            decreases candidates.len() - i,
        {
            let step = artist_step(existing, &candidates[i]);
            plan.push(step);
            i += 1;
        }
        plan
    }
}

} // verus!
