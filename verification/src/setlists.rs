//! The source tree: setlists as the archive records them, and the table of
//! song-name aliases. Nothing here changes during a run.

use vstd::prelude::*;

verus! {

/// Canonical song names, each with the other names it goes by.
#[derive(Clone, Debug)]
pub struct SongAliases {
    pub songs: Vec<SongWithAliases>,
}

/// One canonical song name and its aliases.
#[derive(Clone, Debug)]
pub struct SongWithAliases {
    pub name: String,
    pub aliases: Vec<Alias>,
}

/// Another name for a song.
#[derive(Clone, Debug)]
pub struct Alias {
    pub name: String,
}

/// Every setlist of the archive, in document order.
#[derive(Clone, Debug)]
pub struct Setlists {
    pub data: Vec<Setlist>,
}

/// One concert as the archive records it.
#[derive(Clone, Debug)]
pub struct Setlist {
    pub status: String,
    /// Day, month and year, written `dd-mm-yyyy`.
    pub event_date: String,
    pub disambiguation: Option<String>,
    pub sort_order: Option<i32>,
    pub source: Option<String>,
    pub artist: Artist,
    pub venue: Venue,
    pub tour: Option<Tour>,
    pub notes: Option<String>,
    pub sets: Sets,
}

/// A performer: the headline artist of a setlist, or the original performer
/// of a covered song.
#[derive(Clone, Debug)]
pub struct Artist {
    pub name: String,
    pub sort_name: Option<String>,
    pub mbid: Option<String>,
}

#[derive(Clone, Debug)]
pub struct Venue {
    pub name: String,
    pub city: City,
}

#[derive(Clone, Debug)]
pub struct City {
    pub name: String,
    pub country: Country,
}

#[derive(Clone, Debug)]
pub struct Country {
    pub name: String,
    pub code: Option<String>,
}

#[derive(Clone, Debug)]
pub struct Tour {
    pub name: String,
}

/// The sets of one concert, in the order they were played.
#[derive(Clone, Debug)]
pub struct Sets {
    pub set: Vec<SongSet>,
}

/// One set: a main set when it has neither a name nor an encore label.
#[derive(Clone, Debug)]
pub struct SongSet {
    pub name: Option<String>,
    pub encore: Option<String>,
    pub songs: Option<Vec<Song>>,
}

/// One song as played.
#[derive(Clone, Debug)]
pub struct Song {
    pub name: String,
    /// Whether the song ran into the next one without a break.
    pub segue: Option<bool>,
    /// The original performer, where the song is a cover.
    pub original_artist: Option<Artist>,
    pub notes: Option<String>,
}

impl SongAliases {
    /// An alias table without entries.
    pub fn new() -> (out: Self)
        ensures
            out.songs@.len() == 0,
    {
        SongAliases { songs: Vec::new() }
    }
}

impl Default for SongAliases {
    fn default() -> (out: Self)
        ensures
            out.songs@.len() == 0,
    {
        Self::new()
    }
}

impl Setlists {
    /// An archive without setlists.
    pub fn new() -> (out: Self)
        ensures
            out.data@.len() == 0,
    {
        Setlists { data: Vec::new() }
    }
}

impl Default for Setlists {
    fn default() -> (out: Self)
        ensures
            out.data@.len() == 0,
    {
        Self::new()
    }
}

impl Default for Song {
    /// A song without a name that does not run into the next one.
    fn default() -> (out: Self)
        ensures
            out.name@.len() == 0,
            out.segue == Some(false),
            out.original_artist is None,
            out.notes is None,
    {
        Song { name: String::new(), segue: Some(false), original_artist: None, notes: None }
    }
}

/// The text of an optional string.
pub open spec fn opt_text(o: Option<String>) -> Option<Seq<char>> {
    match o {
        Some(s) => Some(s@),
        None => None,
    }
}

/// Whether two strings hold the same text.
pub fn same_text(a: &String, b: &String) -> (same: bool)
    ensures
        same == (a@ == b@),
{
    *a == *b
}

/// A copy of an optional string.
pub fn clone_opt(o: &Option<String>) -> (out: Option<String>)
    ensures
        opt_text(out) == opt_text(*o),
{
    match o {
        Some(s) => Some(s.clone()),
        None => None,
    }
}

/// Whether two optional strings hold the same text, or both none.
pub fn same_opt(a: &Option<String>, b: &Option<String>) -> (same: bool)
    ensures
        same == (opt_text(*a) == opt_text(*b)),
{
    match a {
        Some(x) => match b {
            Some(y) => same_text(x, y),
            None => false,
        },
        None => match b {
            Some(_) => false,
            None => true,
        },
    }
}

} // verus!
