//! The order of the stages, and what the run keeps of each.
//!
//! A stage that fails leaves the run's tables as they were, and the next
//! stage starts all the same.

use vstd::prelude::*;
use crate::distinct::distinct;
use crate::extract::{
    artist_names, capped, city_keys, country_keys, played_songs, song_keys, venue_keys,
};
use crate::mpdb::{Artist, City, Concert, Country, Mpdb, Songtitle, Venue};

verus! {

/// The eight stages of a run, in their order.
#[derive(Clone, Copy, Debug, PartialEq, Eq, Structural)]
pub enum Stage {
    Countries,
    Cities,
    Venues,
    Artists,
    SongAliases,
    Songtitles,
    Concerts,
    Performances,
}

/// How a stage ended: with the store's refreshed table, with nothing to
/// keep, or in failure.
#[derive(Debug)]
pub enum Outcome {
    Countries(Vec<Country>),
    Cities(Vec<City>),
    Venues(Vec<Venue>),
    Artists(Vec<Artist>),
    Songtitles(Vec<Songtitle>),
    Concerts(Vec<Concert>),
    /// The stage ran and has no table to hand back.
    Done,
    /// The stage was cut short.
    Failed,
}

impl Stage {
    /// The place of the stage in the run, from 1.
    pub open spec fn place(self) -> int {
        match self {
            Stage::Countries => 1,
            Stage::Cities => 2,
            Stage::Venues => 3,
            Stage::Artists => 4,
            Stage::SongAliases => 5,
            Stage::Songtitles => 6,
            Stage::Concerts => 7,
            Stage::Performances => 8,
        }
    }

    /// The stage that a run starts with.
    pub fn first() -> (out: Stage)
        ensures
            out.place() == 1,
    {
        Stage::Countries
    }

    /// The stage that follows, whatever became of this one; none after the
    /// last.
    pub fn next(&self) -> (out: Option<Stage>)
        ensures
            self.place() == 8 ==> out is None,
            self.place() < 8 ==> out is Some && out->0.place() == self.place() + 1,
    {
        match self {
            Stage::Countries => Some(Stage::Cities),
            Stage::Cities => Some(Stage::Venues),
            Stage::Venues => Some(Stage::Artists),
            Stage::Artists => Some(Stage::SongAliases),
            Stage::SongAliases => Some(Stage::Songtitles),
            Stage::Songtitles => Some(Stage::Concerts),
            Stage::Concerts => Some(Stage::Performances),
            Stage::Performances => None,
        }
    }
}

impl Mpdb {
    /// How many items a stage has to look at: the distinct candidates of its
    /// kind, the setlists for concerts, the songs played for performances.
    /// The alias stage counts nothing.
    pub fn stage_total(&self, stage: Stage) -> (out: Option<u64>)
        ensures
            out == (match stage {
                Stage::Countries => Some(capped(distinct(country_keys(self.master.data@)).len())),
                Stage::Cities => Some(capped(distinct(city_keys(self.master.data@)).len())),
                Stage::Venues => Some(capped(distinct(venue_keys(self.master.data@)).len())),
                Stage::Artists => Some(capped(distinct(artist_names(self.master.data@)).len())),
                Stage::SongAliases => None,
                Stage::Songtitles => Some(
                    capped(distinct(song_keys(played_songs(self.master.data@))).len()),
                ),
                Stage::Concerts => Some(capped(self.master.data@.len())),
                Stage::Performances => Some(capped(played_songs(self.master.data@).len())),
            }),
    {
        match stage {
            Stage::Countries => Some(self.countries_count()),
            Stage::Cities => Some(self.cities_count()),
            Stage::Venues => Some(self.venues_count()),
            Stage::Artists => Some(self.artists_count()),
            Stage::SongAliases => None,
            Stage::Songtitles => Some(self.songs_count()),
            Stage::Concerts => Some(self.concerts_count()),
            Stage::Performances => Some(self.performances_count()),
        }
    }

    /// Takes in how a stage ended. A refreshed table takes the place of the
    /// run's table of that kind; everything else stays, and after a failure
    /// or a stage without a table the whole state stays.
    pub fn absorb(&mut self, outcome: Outcome)
        ensures
            final(self).base_url == old(self).base_url,
            final(self).master == old(self).master,
            final(self).aliases == old(self).aliases,
            final(self).countries == (match outcome {
                Outcome::Countries(table) => table,
                _ => old(self).countries,
            }),
            final(self).cities == (match outcome {
                Outcome::Cities(table) => table,
                _ => old(self).cities,
            }),
            final(self).venues == (match outcome {
                Outcome::Venues(table) => table,
                _ => old(self).venues,
            }),
            final(self).artists == (match outcome {
                Outcome::Artists(table) => table,
                _ => old(self).artists,
            }),
            final(self).songtitles == (match outcome {
                Outcome::Songtitles(table) => table,
                _ => old(self).songtitles,
            }),
            final(self).concerts == (match outcome {
                Outcome::Concerts(table) => table,
                _ => old(self).concerts,
            }),
    {
        match outcome {
            Outcome::Countries(table) => {
                self.countries = table;
            },
            Outcome::Cities(table) => {
                self.cities = table;
            },
            Outcome::Venues(table) => {
                self.venues = table;
            },
            Outcome::Artists(table) => {
                self.artists = table;
            },
            Outcome::Songtitles(table) => {
                self.songtitles = table;
            },
            Outcome::Concerts(table) => {
                self.concerts = table;
            },
            Outcome::Done => {},
            Outcome::Failed => {},
        }
    }
}

} // verus!
