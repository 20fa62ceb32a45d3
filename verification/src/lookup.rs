//! Resolving references: finding in the store's tables the row that a name
//! or a slug stands for.

use vstd::prelude::*;
use crate::mpdb::{Artist, City, Concert, Country, DbId, Mpdb, Songtitle, Venue};
use crate::setlists::same_text;
use crate::slug::{slug_text, Slug};

verus! {

/// The position of the first item that `hit` holds of, or none.
pub open spec fn first_index<T>(s: Seq<T>, hit: spec_fn(T) -> bool) -> Option<int>
    decreases s.len(),
{
    if s.len() == 0 {
        None
    } else if hit(s[0]) {
        Some(0)
    } else {
        match first_index(s.drop_first(), hit) {
            Some(i) => Some(i + 1),
            None => None,
        }
    }
}

/// Where `hit` holds at `i` and nowhere before, `i` is the first index.
pub proof fn lemma_first_index_found<T>(s: Seq<T>, hit: spec_fn(T) -> bool, i: int)
    requires
        0 <= i < s.len(),
        hit(s[i]),
        forall|j: int| 0 <= j < i ==> !hit(#[trigger] s[j]),
    ensures
        first_index(s, hit) == Some(i),
    decreases s.len(),
{
    if i > 0 {
        let tail = s.drop_first();
        assert(!hit(s[0]));
        assert(tail[i - 1] == s[i]);
        assert forall|j: int| 0 <= j < i - 1 implies !hit(#[trigger] tail[j]) by {
            assert(tail[j] == s[j + 1]);
        }
        lemma_first_index_found(tail, hit, i - 1);
    }
}

/// There is a first index exactly where `hit` holds of some item, and `hit`
/// holds at it.
pub proof fn lemma_first_index<T>(s: Seq<T>, hit: spec_fn(T) -> bool)
    ensures
        first_index(s, hit) is Some <==> exists|j: int| 0 <= j < s.len() && hit(#[trigger] s[j]),
        first_index(s, hit) matches Some(i) ==> 0 <= i < s.len() && hit(s[i]),
    decreases s.len(),
{
    if s.len() > 0 {
        let tail = s.drop_first();
        lemma_first_index(tail, hit);
        if !hit(s[0]) {
            if first_index(tail, hit) is Some {
                let i = first_index(tail, hit)->0;
                assert(tail[i] == s[i + 1]);
                assert(hit(s[i + 1]));
            }
            if exists|j: int| 0 <= j < s.len() && hit(#[trigger] s[j]) {
                let j = choose|j: int| 0 <= j < s.len() && hit(#[trigger] s[j]);
                assert(tail[j - 1] == s[j]);
                assert(hit(tail[j - 1]));
            }
        }
    }
}

/// Holds of the countries of that name.
pub open spec fn country_named(name: Seq<char>) -> spec_fn(Country) -> bool {
    |c: Country| c.name@ == name
}

/// Holds of the cities of that name in the country with that id.
pub open spec fn city_named(name: Seq<char>, country_id: DbId) -> spec_fn(City) -> bool {
    |c: City| c.name@ == name && c.country_id == country_id
}

/// Holds of the venues with that slug.
pub open spec fn venue_slugged(slug: Seq<char>) -> spec_fn(Venue) -> bool {
    |v: Venue| v.slug@ == slug
}

/// Holds of the artists of that name.
pub open spec fn artist_named(name: Seq<char>) -> spec_fn(Artist) -> bool {
    |a: Artist| a.name@ == name
}

/// Holds of the concerts with that slug.
pub open spec fn concert_slugged(slug: Seq<char>) -> spec_fn(Concert) -> bool {
    |c: Concert| c.slug@ == slug
}

/// Holds of the song titles whose slug is the slug of `title`.
pub open spec fn title_slugged(title: Seq<char>) -> spec_fn(Songtitle) -> bool {
    |s: Songtitle| slug_text(s.title@) == slug_text(title)
}

/// The id of the first country of that name.
pub open spec fn country_id_of(countries: Seq<Country>, name: Seq<char>) -> Option<DbId> {
    match first_index(countries, country_named(name)) {
        Some(i) => Some(countries[i].id),
        None => None,
    }
}

/// The id of the first city of that name in the country with that id.
pub open spec fn city_id_in(cities: Seq<City>, name: Seq<char>, country_id: DbId) -> Option<
    DbId,
> {
    match first_index(cities, city_named(name, country_id)) {
        Some(i) => Some(cities[i].id),
        None => None,
    }
}

/// The id of the first city of that name in the first country of that name.
pub open spec fn city_id_of(
    countries: Seq<Country>,
    cities: Seq<City>,
    name: Seq<char>,
    country: Seq<char>,
) -> Option<DbId> {
    match country_id_of(countries, country) {
        Some(country_id) => city_id_in(cities, name, country_id),
        None => None,
    }
}

/// The id of the first venue with that slug.
pub open spec fn venue_id_of(venues: Seq<Venue>, slug: Seq<char>) -> Option<DbId> {
    match first_index(venues, venue_slugged(slug)) {
        Some(i) => Some(venues[i].id),
        None => None,
    }
}

/// The id of the first artist of that name.
pub open spec fn artist_id_of(artists: Seq<Artist>, name: Seq<char>) -> Option<DbId> {
    match first_index(artists, artist_named(name)) {
        Some(i) => Some(artists[i].id),
        None => None,
    }
}

/// The id of the first concert with that slug.
pub open spec fn concert_id_of(concerts: Seq<Concert>, slug: Seq<char>) -> Option<DbId> {
    match first_index(concerts, concert_slugged(slug)) {
        Some(i) => Some(concerts[i].id),
        None => None,
    }
}

/// The position of the first song title whose slug is the slug of `title`.
pub open spec fn title_index_of(titles: Seq<Songtitle>, title: Seq<char>) -> Option<int> {
    first_index(titles, title_slugged(title))
}

/// The song of the first song title whose slug is the slug of `title`.
pub open spec fn song_id_of(titles: Seq<Songtitle>, title: Seq<char>) -> Option<DbId> {
    match title_index_of(titles, title) {
        Some(i) => Some(titles[i].song_id),
        None => None,
    }
}

/// The id of the first song title whose slug is the slug of `title`.
pub open spec fn songtitle_id_of(titles: Seq<Songtitle>, title: Seq<char>) -> Option<DbId> {
    match title_index_of(titles, title) {
        Some(i) => Some(titles[i].id),
        None => None,
    }
}

/// The id of the first country of that name among `countries`.
pub fn find_country(countries: &Vec<Country>, name: &String) -> (out: Option<DbId>)
    ensures
        out == country_id_of(countries@, name@),
{
    let mut i: usize = 0;
    while i < countries.len()
        invariant
            i <= countries.len(),
            forall|j: int| 0 <= j < i ==> !country_named(name@)(#[trigger] countries@[j]),
        decreases countries.len() - i,
    {
        if same_text(&countries[i].name, name) {
            proof {
                lemma_first_index_found(countries@, country_named(name@), i as int);
            }
            return Some(countries[i].id);
        }
        i += 1;
    }
    proof {
        lemma_first_index(countries@, country_named(name@));
    }
    None
}

/// The id of the first city of that name and country id among `cities`.
pub fn find_city(cities: &Vec<City>, name: &String, country_id: DbId) -> (out: Option<DbId>)
    ensures
        out == city_id_in(cities@, name@, country_id),
{
    let mut i: usize = 0;
    while i < cities.len()
        invariant
            i <= cities.len(),
            forall|j: int| 0 <= j < i ==> !city_named(name@, country_id)(#[trigger] cities@[j]),
        decreases cities.len() - i,
    {
        if same_text(&cities[i].name, name) && cities[i].country_id == country_id {
            proof {
                lemma_first_index_found(cities@, city_named(name@, country_id), i as int);
            }
            return Some(cities[i].id);
        }
        i += 1;
    }
    proof {
        lemma_first_index(cities@, city_named(name@, country_id));
    }
    None
}

/// The id of the first venue with that slug among `venues`.
pub fn find_venue(venues: &Vec<Venue>, slug: &String) -> (out: Option<DbId>)
    ensures
        out == venue_id_of(venues@, slug@),
{
    let mut i: usize = 0;
    while i < venues.len()
        invariant
            i <= venues.len(),
            forall|j: int| 0 <= j < i ==> !venue_slugged(slug@)(#[trigger] venues@[j]),
        decreases venues.len() - i,
    {
        if same_text(&venues[i].slug, slug) {
            proof {
                lemma_first_index_found(venues@, venue_slugged(slug@), i as int);
            }
            return Some(venues[i].id);
        }
        i += 1;
    }
    proof {
        lemma_first_index(venues@, venue_slugged(slug@));
    }
    None
}

/// The id of the first artist of that name among `artists`.
pub fn find_artist(artists: &Vec<Artist>, name: &String) -> (out: Option<DbId>)
    ensures
        out == artist_id_of(artists@, name@),
{
    let mut i: usize = 0;
    while i < artists.len()
        invariant
            i <= artists.len(),
            forall|j: int| 0 <= j < i ==> !artist_named(name@)(#[trigger] artists@[j]),
        decreases artists.len() - i,
    {
        if same_text(&artists[i].name, name) {
            proof {
                lemma_first_index_found(artists@, artist_named(name@), i as int);
            }
            return Some(artists[i].id);
        }
        i += 1;
    }
    proof {
        lemma_first_index(artists@, artist_named(name@));
    }
    None
}

/// The id of the first concert with that slug among `concerts`.
pub fn find_concert(concerts: &Vec<Concert>, slug: &String) -> (out: Option<DbId>)
    ensures
        out == concert_id_of(concerts@, slug@),
{
    let mut i: usize = 0;
    while i < concerts.len()
        invariant
            i <= concerts.len(),
            forall|j: int| 0 <= j < i ==> !concert_slugged(slug@)(#[trigger] concerts@[j]),
        decreases concerts.len() - i,
    {
        if same_text(&concerts[i].slug, slug) {
            proof {
                lemma_first_index_found(concerts@, concert_slugged(slug@), i as int);
            }
            return Some(concerts[i].id);
        }
        i += 1;
    }
    proof {
        lemma_first_index(concerts@, concert_slugged(slug@));
    }
    None
}

/// The position among `titles` of the first song title whose slug is the
/// slug of `title`.
pub fn find_title(titles: &Vec<Songtitle>, title: &String) -> (out: Option<usize>)
    ensures
        match out {
            Some(i) => title_index_of(titles@, title@) == Some(i as int) && i < titles.len(),
            None => title_index_of(titles@, title@) is None,
        },
{
    let wanted = title.slug();
    let mut i: usize = 0;
    while i < titles.len()
        invariant
            i <= titles.len(),
            wanted@ == slug_text(title@),
            forall|j: int| 0 <= j < i ==> !title_slugged(title@)(#[trigger] titles@[j]),
        decreases titles.len() - i,
    {
        let here = titles[i].title.slug();
        if same_text(&here, &wanted) {
            proof {
                lemma_first_index_found(titles@, title_slugged(title@), i as int);
            }
            return Some(i);
        }
        i += 1;
    }
    proof {
        lemma_first_index(titles@, title_slugged(title@));
    }
    None
}

impl Mpdb {
    /// The id of the country of that name in the countries table.
    pub fn get_country_id(&self, country_name: &String) -> (out: Option<DbId>)
        ensures
            out == country_id_of(self.countries@, country_name@),
    {
        find_country(&self.countries, country_name)
    }

    /// The id of the city of that name in the country of that name; none
    /// where the country or the city is not in the tables.
    pub fn get_city_id(&self, city_name: &String, country_name: &String) -> (out: Option<DbId>)
        ensures
            out == city_id_of(self.countries@, self.cities@, city_name@, country_name@),
    {
        match find_country(&self.countries, country_name) {
            Some(country_id) => find_city(&self.cities, city_name, country_id),
            None => None,
        }
    }

    /// The id of the venue with that slug in the venues table.
    pub fn get_venue_id(&self, slug: &String) -> (out: Option<DbId>)
        ensures
            out == venue_id_of(self.venues@, slug@),
    {
        find_venue(&self.venues, slug)
    }

    /// The id of the artist of that name in the artists table.
    pub fn get_artist_id(&self, artist_name: &String) -> (out: Option<DbId>)
        ensures
            out == artist_id_of(self.artists@, artist_name@),
    {
        find_artist(&self.artists, artist_name)
    }

    /// The id of the concert with that slug in the concerts table.
    pub fn get_concert_id(&self, concert_slug: &String) -> (out: Option<DbId>)
        ensures
            out == concert_id_of(self.concerts@, concert_slug@),
    {
        find_concert(&self.concerts, concert_slug)
    }

    /// The song behind a title: that of the first song title in the table
    /// with the same slug.
    pub fn get_song_id(&self, title: &String) -> (out: Option<DbId>)
        ensures
            out == song_id_of(self.songtitles@, title@),
    {
        match find_title(&self.songtitles, title) {
            Some(i) => Some(self.songtitles[i].song_id),
            None => None,
        }
    }

    /// The id of the first song title in the table with the same slug as
    /// `title`.
    pub fn get_songtitle_id(&self, title: &String) -> (out: Option<DbId>)
        ensures
            out == songtitle_id_of(self.songtitles@, title@),
    {
        match find_title(&self.songtitles, title) {
            Some(i) => Some(self.songtitles[i].id),
            None => None,
        }
    }
}

} // verus!
