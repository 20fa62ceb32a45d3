//! The extractor: the candidates of each entity kind that a source tree
//! holds, each once.

use vstd::prelude::*;
use crate::distinct::{
    distinct, keys, lemma_distinct_no_duplicates, lemma_distinct_same_keys, lemma_distinct_push,
    push_unique, Keyed,
};
use crate::mpdb::Mpdb;
use crate::setlists::{clone_opt, opt_text, same_opt, same_text, Setlist, Song, SongSet};

verus! {

/// A country as the source names it.
#[derive(Clone, Debug, PartialEq, Eq, Hash)]
pub struct CountryKey {
    pub name: String,
    pub code: Option<String>,
}

/// A city as the source names it: its own name and its country's.
#[derive(Clone, Debug, PartialEq, Eq, Hash)]
pub struct CityKey {
    pub name: String,
    pub country: String,
}

/// A venue as the source names it: its own name, its city's and its
/// country's.
#[derive(Clone, Debug, PartialEq, Eq, Hash)]
pub struct VenueKey {
    pub name: String,
    pub city: String,
    pub country: String,
}

/// A song as the source names it: its title, and its original performer
/// where it is a cover.
#[derive(Clone, Debug, PartialEq, Eq, Hash)]
pub struct SongKey {
    pub name: String,
    pub original_artist: Option<String>,
}

impl Keyed for CountryKey {
    type Key = (Seq<char>, Option<Seq<char>>);

    open spec fn key(&self) -> (Seq<char>, Option<Seq<char>>) {
        (self.name@, opt_text(self.code))
    }

    fn same_key(&self, other: &Self) -> (same: bool) {
        same_text(&self.name, &other.name) && same_opt(&self.code, &other.code)
    }
}

impl Keyed for CityKey {
    type Key = (Seq<char>, Seq<char>);

    open spec fn key(&self) -> (Seq<char>, Seq<char>) {
        (self.name@, self.country@)
    }

    fn same_key(&self, other: &Self) -> (same: bool) {
        same_text(&self.name, &other.name) && same_text(&self.country, &other.country)
    }
}

impl Keyed for VenueKey {
    type Key = (Seq<char>, Seq<char>, Seq<char>);

    open spec fn key(&self) -> (Seq<char>, Seq<char>, Seq<char>) {
        (self.name@, self.city@, self.country@)
    }

    fn same_key(&self, other: &Self) -> (same: bool) {
        same_text(&self.name, &other.name) && same_text(&self.city, &other.city) && same_text(
            &self.country,
            &other.country,
        )
    }
}

impl Keyed for SongKey {
    type Key = (Seq<char>, Option<Seq<char>>);

    open spec fn key(&self) -> (Seq<char>, Option<Seq<char>>) {
        (self.name@, opt_text(self.original_artist))
    }

    fn same_key(&self, other: &Self) -> (same: bool) {
        same_text(&self.name, &other.name) && same_opt(
            &self.original_artist,
            &other.original_artist,
        )
    }
}

/// The country of each setlist, in document order.
pub open spec fn country_keys(data: Seq<Setlist>) -> Seq<(Seq<char>, Option<Seq<char>>)> {
    Seq::new(
        data.len(),
        |i: int| (data[i].venue.city.country.name@, opt_text(data[i].venue.city.country.code)),
    )
}

/// The city of each setlist, in document order.
pub open spec fn city_keys(data: Seq<Setlist>) -> Seq<(Seq<char>, Seq<char>)> {
    Seq::new(data.len(), |i: int| (data[i].venue.city.name@, data[i].venue.city.country.name@))
}

/// The venue of each setlist, in document order.
pub open spec fn venue_keys(data: Seq<Setlist>) -> Seq<(Seq<char>, Seq<char>, Seq<char>)> {
    Seq::new(
        data.len(),
        |i: int|
            (data[i].venue.name@, data[i].venue.city.name@, data[i].venue.city.country.name@),
    )
}

/// The headline artist of each setlist, in document order.
pub open spec fn headliners(data: Seq<Setlist>) -> Seq<Seq<char>> {
    Seq::new(data.len(), |i: int| data[i].artist.name@)
}

/// The songs of a set; a set without a song list has none.
pub open spec fn songs_of(set: SongSet) -> Seq<Song> {
    match set.songs {
        Some(songs) => songs@,
        None => Seq::empty(),
    }
}

/// The songs of a concert's sets, in the order they were played.
pub open spec fn concert_songs(sets: Seq<SongSet>) -> Seq<Song>
    decreases sets.len(),
{
    if sets.len() == 0 {
        Seq::empty()
    } else {
        concert_songs(sets.drop_last()) + songs_of(sets.last())
    }
}

/// Every song of every set of every setlist, in document order.
pub open spec fn played_songs(data: Seq<Setlist>) -> Seq<Song>
    decreases data.len(),
{
    if data.len() == 0 {
        Seq::empty()
    } else {
        played_songs(data.drop_last()) + concert_songs(data.last().sets.set@)
    }
}

/// The original performers of the covers among `songs`, in order.
pub open spec fn cover_artists(songs: Seq<Song>) -> Seq<Seq<char>>
    decreases songs.len(),
{
    if songs.len() == 0 {
        Seq::empty()
    } else {
        match songs.last().original_artist {
            Some(artist) => cover_artists(songs.drop_last()).push(artist.name@),
            None => cover_artists(songs.drop_last()),
        }
    }
}

/// The title and original performer of a song.
pub open spec fn song_key(song: Song) -> (Seq<char>, Option<Seq<char>>) {
    (
        song.name@,
        match song.original_artist {
            Some(artist) => Some(artist.name@),
            None => None,
        },
    )
}

/// Title and original performer of each of `songs`, in order.
pub open spec fn song_keys(songs: Seq<Song>) -> Seq<(Seq<char>, Option<Seq<char>>)> {
    Seq::new(songs.len(), |i: int| song_key(songs[i]))
}

/// Every artist that the tree names: the headline artists first, then the
/// original performers of covers.
pub open spec fn artist_names(data: Seq<Setlist>) -> Seq<Seq<char>> {
    headliners(data) + cover_artists(played_songs(data))
}

/// The songs that a sequence of references points to.
pub open spec fn pointed(refs: Seq<&Song>) -> Seq<Song> {
    Seq::new(refs.len(), |i: int| *refs[i])
}

/// The smaller of a count and the largest `u64`.
pub open spec fn capped(n: nat) -> u64 {
    if n <= u64::MAX {
        n as u64
    } else {
        u64::MAX
    }
}

fn count_of(n: usize) -> (out: u64)
    ensures
        out == capped(n as nat),
{
    if n as u128 <= u64::MAX as u128 {
        n as u64
    } else {
        u64::MAX
    }
}

impl Mpdb {
    /// Every song of the tree, in document order.
    pub fn all_songs(&self) -> (out: Vec<&Song>)
        ensures
            pointed(out@) == played_songs(self.master.data@),
    {
        let data = &self.master.data;
        let mut out: Vec<&Song> = Vec::new();
        let mut i: usize = 0;
        assert(pointed(out@) == played_songs(data@.take(0)));
        while i < data.len()
            invariant
                i <= data.len(),
                pointed(out@) == played_songs(data@.take(i as int)),
            decreases data.len() - i,
        {
            let sets = &data[i].sets.set;
            let ghost before = played_songs(data@.take(i as int));
            let mut j: usize = 0;
            assert(pointed(out@) == before + concert_songs(sets@.take(0)));
            while j < sets.len()
                invariant
                    j <= sets.len(),
                    pointed(out@) == before + concert_songs(sets@.take(j as int)),
                decreases sets.len() - j,
            {
                let ghost earlier = before + concert_songs(sets@.take(j as int));
                match &sets[j].songs {
                    Some(songs) => {
                        let mut k: usize = 0;
                        assert(pointed(out@) == earlier + songs@.take(0));
                        while k < songs.len()
                            invariant
                                k <= songs.len(),
                                pointed(out@) == earlier + songs@.take(k as int),
                            decreases songs.len() - k,
                        {
                            let ghost so_far = pointed(out@);
                            out.push(&songs[k]);
                            proof {
                                assert(pointed(out@) == so_far.push(songs@[k as int]));
                                assert(songs@.take(k + 1) == songs@.take(k as int).push(
                                    songs@[k as int],
                                ));
                                assert(so_far.push(songs@[k as int]) == earlier + songs@.take(
                                    k + 1,
                                ));
                            }
                            k += 1;
                        }
                        assert(songs@.take(songs.len() as int) == songs@);
                    },
                    None => {
                        assert(pointed(out@) == earlier + Seq::<Song>::empty());
                    },
                }
                proof {
                    assert(sets@.take(j + 1).drop_last() == sets@.take(j as int));
                    assert(pointed(out@) == before + concert_songs(sets@.take(j + 1)));
                }
                j += 1;
            }
            proof {
                assert(sets@.take(sets.len() as int) == sets@);
                assert(data@.take(i + 1).drop_last() == data@.take(i as int));
            }
            i += 1;
        }
        assert(data@.take(data.len() as int) == data@);
        out
    }

    /// The countries of the tree, each once, in the order of their first
    /// occurrence.
    pub fn extract_all_unique_country_names(&self) -> (out: Vec<CountryKey>)
        ensures
            keys(out@) == distinct(country_keys(self.master.data@)),
    {
        let data = &self.master.data;
        let mut out: Vec<CountryKey> = Vec::new();
        let mut i: usize = 0;
        assert(keys(out@) == distinct(country_keys(data@).take(0)));
        while i < data.len()
            invariant
                i <= data.len(),
                keys(out@) == distinct(country_keys(data@).take(i as int)),
            decreases data.len() - i,
        {
            let country = &data[i].venue.city.country;
            let item = CountryKey { name: country.name.clone(), code: clone_opt(&country.code) };
            proof {
                lemma_distinct_push(country_keys(data@).take(i as int), item.key());
                assert(country_keys(data@).take(i + 1) == country_keys(data@).take(
                    i as int,
                ).push(item.key()));
            }
            push_unique(&mut out, item);
            i += 1;
        }
        assert(country_keys(data@).take(data.len() as int) == country_keys(data@));
        out
    }

    /// The cities of the tree, each once, in the order of their first
    /// occurrence.
    pub fn extract_all_unique_cities(&self) -> (out: Vec<CityKey>)
        ensures
            keys(out@) == distinct(city_keys(self.master.data@)),
    {
        let data = &self.master.data;
        let mut out: Vec<CityKey> = Vec::new();
        let mut i: usize = 0;
        assert(keys(out@) == distinct(city_keys(data@).take(0)));
        while i < data.len()
            invariant
                i <= data.len(),
                keys(out@) == distinct(city_keys(data@).take(i as int)),
            decreases data.len() - i,
        {
            let city = &data[i].venue.city;
            let item = CityKey { name: city.name.clone(), country: city.country.name.clone() };
            proof {
                lemma_distinct_push(city_keys(data@).take(i as int), item.key());
                assert(city_keys(data@).take(i + 1) == city_keys(data@).take(i as int).push(
                    item.key(),
                ));
            }
            push_unique(&mut out, item);
            i += 1;
        }
        assert(city_keys(data@).take(data.len() as int) == city_keys(data@));
        out
    }

    /// The venues of the tree, each once, in the order of their first
    /// occurrence.
    pub fn extract_all_unique_venues(&self) -> (out: Vec<VenueKey>)
        ensures
            keys(out@) == distinct(venue_keys(self.master.data@)),
    {
        let data = &self.master.data;
        let mut out: Vec<VenueKey> = Vec::new();
        let mut i: usize = 0;
        assert(keys(out@) == distinct(venue_keys(data@).take(0)));
        while i < data.len()
            invariant
                i <= data.len(),
                keys(out@) == distinct(venue_keys(data@).take(i as int)),
            decreases data.len() - i,
        {
            let venue = &data[i].venue;
            let item = VenueKey {
                name: venue.name.clone(),
                city: venue.city.name.clone(),
                country: venue.city.country.name.clone(),
            };
            proof {
                lemma_distinct_push(venue_keys(data@).take(i as int), item.key());
                assert(venue_keys(data@).take(i + 1) == venue_keys(data@).take(i as int).push(
                    item.key(),
                ));
            }
            push_unique(&mut out, item);
            i += 1;
        }
        assert(venue_keys(data@).take(data.len() as int) == venue_keys(data@));
        out
    }

    /// The artists of the tree, each once: headline artists in document
    /// order, then the original performers of covers that are no headline
    /// artists.
    pub fn extract_all_unique_artists(&self) -> (out: Vec<String>)
        ensures
            keys(out@) == distinct(artist_names(self.master.data@)),
    {
        let data = &self.master.data;
        let mut out: Vec<String> = Vec::new();
        let mut i: usize = 0;
        assert(keys(out@) == distinct(headliners(data@).take(0)));
        while i < data.len()
            invariant
                i <= data.len(),
                keys(out@) == distinct(headliners(data@).take(i as int)),
            decreases data.len() - i,
        {
            let item = data[i].artist.name.clone();
            proof {
                lemma_distinct_push(headliners(data@).take(i as int), item.key());
                assert(headliners(data@).take(i + 1) == headliners(data@).take(i as int).push(
                    item.key(),
                ));
            }
            push_unique(&mut out, item);
            i += 1;
        }
        assert(headliners(data@).take(data.len() as int) == headliners(data@));
        let songs = self.all_songs();
        let ghost first = headliners(data@);
        let ghost played = pointed(songs@);
        let mut k: usize = 0;
        assert(keys(out@) == distinct(first + cover_artists(played.take(0))));
        while k < songs.len()
            invariant
                k <= songs.len(),
                played == pointed(songs@),
                keys(out@) == distinct(first + cover_artists(played.take(k as int))),
            decreases songs.len() - k,
        {
            proof {
                assert(played.take(k + 1).drop_last() == played.take(k as int));
                assert(played.take(k + 1).last() == *songs@[k as int]);
            }
            match &songs[k].original_artist {
                Some(artist) => {
                    let item = artist.name.clone();
                    proof {
                        let so_far = first + cover_artists(played.take(k as int));
                        lemma_distinct_push(so_far, item.key());
                        assert(first + cover_artists(played.take(k + 1)) == so_far.push(
                            item.key(),
                        ));
                    }
                    push_unique(&mut out, item);
                },
                None => {},
            }
            k += 1;
        }
        assert(played.take(songs.len() as int) == played);
        out
    }

    /// The songs of the tree by title and original performer, each once, in
    /// the order of their first occurrence.
    pub fn extract_all_unique_songs(&self) -> (out: Vec<SongKey>)
        ensures
            keys(out@) == distinct(song_keys(played_songs(self.master.data@))),
    {
        let songs = self.all_songs();
        let ghost all = song_keys(pointed(songs@));
        let mut out: Vec<SongKey> = Vec::new();
        let mut k: usize = 0;
        assert(keys(out@) == distinct(all.take(0)));
        while k < songs.len()
            invariant
                k <= songs.len(),
                all == song_keys(pointed(songs@)),
                keys(out@) == distinct(all.take(k as int)),
            decreases songs.len() - k,
        {
            let song = songs[k];
            let item = SongKey {
                name: song.name.clone(),
                original_artist: match &song.original_artist {
                    Some(artist) => Some(artist.name.clone()),
                    None => None,
                },
            };
            proof {
                lemma_distinct_push(all.take(k as int), item.key());
                assert(all.take(k + 1) == all.take(k as int).push(item.key()));
            }
            push_unique(&mut out, item);
            k += 1;
        }
        assert(all.take(songs.len() as int) == all);
        out
    }

    /// How many distinct countries the tree holds.
    pub fn countries_count(&self) -> (n: u64)
        ensures
            n == capped(distinct(country_keys(self.master.data@)).len()),
    {
        count_of(self.extract_all_unique_country_names().len())
    }

    /// How many distinct artists the tree holds, original performers of
    /// covers among them.
    pub fn artists_count(&self) -> (n: u64)
        ensures
            n == capped(distinct(artist_names(self.master.data@)).len()),
    {
        count_of(self.extract_all_unique_artists().len())
    }

    /// How many distinct cities the tree holds.
    pub fn cities_count(&self) -> (n: u64)
        ensures
            n == capped(distinct(city_keys(self.master.data@)).len()),
    {
        count_of(self.extract_all_unique_cities().len())
    }

    /// How many distinct venues the tree holds.
    pub fn venues_count(&self) -> (n: u64)
        ensures
            n == capped(distinct(venue_keys(self.master.data@)).len()),
    {
        count_of(self.extract_all_unique_venues().len())
    }

    /// How many distinct songs the tree holds.
    pub fn songs_count(&self) -> (n: u64)
        ensures
            n == capped(distinct(song_keys(played_songs(self.master.data@))).len()),
    {
        count_of(self.extract_all_unique_songs().len())
    }

    /// How many setlists the tree holds.
    pub fn concerts_count(&self) -> (n: u64)
        ensures
            n == capped(self.master.data@.len()),
    {
        count_of(self.master.data.len())
    }

    /// How many songs were played over all sets of all setlists.
    pub fn performances_count(&self) -> (n: u64)
        ensures
            n == capped(played_songs(self.master.data@).len()),
    {
        count_of(self.all_songs().len())
    }
}

/// The candidates of each kind are the keys of the tree, each exactly once:
/// no candidate occurs twice, every key of the tree is a candidate, and every
/// candidate is a key of the tree.
pub proof fn lemma_candidates_exactly_once(data: Seq<Setlist>)
    ensures
        distinct(country_keys(data)).no_duplicates(),
        distinct(city_keys(data)).no_duplicates(),
        distinct(venue_keys(data)).no_duplicates(),
        distinct(artist_names(data)).no_duplicates(),
        distinct(song_keys(played_songs(data))).no_duplicates(),
        forall|k: (Seq<char>, Option<Seq<char>>)| #[trigger]
            distinct(country_keys(data)).contains(k) <==> country_keys(data).contains(k),
        forall|k: (Seq<char>, Seq<char>)| #[trigger]
            distinct(city_keys(data)).contains(k) <==> city_keys(data).contains(k),
        forall|k: (Seq<char>, Seq<char>, Seq<char>)| #[trigger]
            distinct(venue_keys(data)).contains(k) <==> venue_keys(data).contains(k),
        forall|k: Seq<char>| #[trigger]
            distinct(artist_names(data)).contains(k) <==> artist_names(data).contains(k),
        forall|k: (Seq<char>, Option<Seq<char>>)| #[trigger]
            distinct(song_keys(played_songs(data))).contains(k) <==> song_keys(
                played_songs(data),
            ).contains(k),
{
    lemma_distinct_no_duplicates(country_keys(data));
    lemma_distinct_no_duplicates(city_keys(data));
    lemma_distinct_no_duplicates(venue_keys(data));
    lemma_distinct_no_duplicates(artist_names(data));
    lemma_distinct_no_duplicates(song_keys(played_songs(data)));
    lemma_distinct_same_keys(country_keys(data));
    lemma_distinct_same_keys(city_keys(data));
    lemma_distinct_same_keys(venue_keys(data));
    lemma_distinct_same_keys(artist_names(data));
    lemma_distinct_same_keys(song_keys(played_songs(data)));
}

} // verus!
