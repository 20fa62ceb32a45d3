//! The remote store's entities, and the state that a synchronisation run
//! carries from one stage to the next.

use vstd::prelude::*;
use crate::date::EventDate;
use crate::setlists::{Setlists, SongAliases};

verus! {

/// A number that the store assigns to a row.
#[derive(Clone, Copy, Debug, PartialEq, Eq, Hash, Structural)]
pub struct DbId(pub i32);

impl Default for DbId {
    /// The id that stands where none is known.
    fn default() -> (out: Self)
        ensures
            out == DbId(0),
    {
        DbId(0)
    }
}

impl DbId {
    /// The id that stands where none is known.
    pub open spec fn unknown() -> DbId {
        DbId(0)
    }

    /// The id that a store's answer carries: the answer's number cut to 32
    /// bits, or the unknown id where the answer held no number.
    pub open spec fn of_answer(answer: Option<i64>) -> DbId {
        match answer {
            Some(n) => DbId(n as i32),
            None => DbId(0),
        }
    }

    /// Reads the id out of a store's answer.
    pub fn from_answer(answer: Option<i64>) -> (out: DbId)
        ensures
            out == DbId::of_answer(answer),
    {
        match answer {
            Some(n) => DbId(
                #[verifier::truncate]
                (n as i32),
            ),
            None => DbId(0),
        }
    }
}

#[derive(Clone, Debug, PartialEq, Eq, Hash)]
pub struct Country {
    pub id: DbId,
    pub name: String,
    pub code: Option<String>,
}

#[derive(Clone, Debug, PartialEq, Eq, Hash)]
pub struct City {
    pub id: DbId,
    pub name: String,
    pub country_id: DbId,
}

#[derive(Clone, Debug, PartialEq, Eq, Hash)]
pub struct Venue {
    pub id: DbId,
    pub name: String,
    pub slug: String,
    pub city_id: DbId,
}

#[derive(Clone, Debug, PartialEq, Eq, Hash)]
pub struct Artist {
    pub id: DbId,
    pub name: String,
}

#[derive(Clone, Debug, PartialEq, Eq, Hash)]
pub struct Songtitle {
    pub id: DbId,
    pub title: String,
    pub is_default: bool,
    pub song_id: DbId,
}

#[derive(Clone, Debug, PartialEq, Eq, Hash)]
pub struct Concert {
    pub id: DbId,
    pub artist_id: DbId,
    pub date: EventDate,
    pub disambiguation: Option<String>,
    pub sort_order: Option<i32>,
    pub source: Option<String>,
    pub slug: String,
    pub venue_id: DbId,
}

/// One set of a concert as the store holds it.
#[derive(Clone, Debug, PartialEq, Eq, Hash)]
pub struct SetRow {
    pub id: DbId,
    pub concert_id: DbId,
    pub name: Option<String>,
    pub unique_name: String,
    pub sort_order: i32,
}

#[derive(Clone, Copy, Debug, PartialEq, Eq, Hash, Structural)]
pub struct Performance {
    pub id: DbId,
    pub set_id: DbId,
    pub concert_id: DbId,
    pub song_id: DbId,
    pub songtitle_id: DbId,
    pub artist_id: DbId,
    pub segue: bool,
    pub sort_order: i32,
}

/// The state of a run: the source tree, and the store's tables as the stages
/// so far have left them.
#[derive(Debug)]
pub struct Mpdb {
    /// The address that the store's collections hang under.
    pub base_url: String,
    pub master: Setlists,
    pub countries: Vec<Country>,
    pub cities: Vec<City>,
    pub venues: Vec<Venue>,
    pub artists: Vec<Artist>,
    pub songtitles: Vec<Songtitle>,
    pub aliases: SongAliases,
    pub concerts: Vec<Concert>,
}

impl Mpdb {
    /// A run that has read nothing yet: no setlists, no aliases, empty
    /// tables.
    pub fn new(base_url: String) -> (out: Mpdb)
        ensures
            out.base_url@ == base_url@,
            out.master.data@.len() == 0,
            out.aliases.songs@.len() == 0,
            out.countries@.len() == 0,
            out.cities@.len() == 0,
            out.venues@.len() == 0,
            out.artists@.len() == 0,
            out.songtitles@.len() == 0,
            out.concerts@.len() == 0,
    {
        Mpdb {
            base_url,
            aliases: SongAliases::new(),
            master: Setlists::new(),
            countries: Vec::new(),
            cities: Vec::new(),
            venues: Vec::new(),
            artists: Vec::new(),
            songtitles: Vec::new(),
            concerts: Vec::new(),
        }
    }
}

} // verus!
