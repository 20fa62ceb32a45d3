//! Stages five and six: the songs of the alias table, and the songs that the
//! setlists name.
//!
//! A song is two rows, the song itself and its default title, and the second
//! needs the id that the store gave the first. So these stages hand back
//! drafts, and a draft becomes a row once that id is known.

use vstd::prelude::*;
use crate::distinct::{distinct, keys, Keyed};
use crate::extract::{played_songs, song_keys, SongKey};
use crate::lookup::{artist_id_of, find_artist, first_index, lemma_first_index, lemma_first_index_found};
use crate::mpdb::{Artist, DbId, Mpdb, Songtitle};
use crate::plan::Step;
use crate::setlists::{opt_text, same_text, SongWithAliases};
use crate::slug::{lowercase_text, slug_text, Slug};
use crate::stages::{seed_artist, seed_artist_name};

verus! {

/// A song to create: all that the store wants of it is its owner.
#[derive(Clone, Copy, Debug, PartialEq, Eq, Structural)]
pub struct NewSong {
    pub artist_id: DbId,
}

/// A song title to create.
#[derive(Clone, Debug, PartialEq, Eq)]
pub struct NewSongtitle {
    pub title: String,
    pub slug: String,
    pub is_default: bool,
    pub song_id: i64,
    /// The default title that this one is another name for.
    pub alias_for: Option<i64>,
}

/// A title and its slug, waiting for the id of its song.
#[derive(Clone, Debug, PartialEq, Eq)]
pub struct TitleDraft {
    pub title: String,
    pub slug: String,
}

/// A song of the alias table: its owner, its canonical title and its other
/// titles.
#[derive(Clone, Debug, PartialEq, Eq)]
pub struct AliasDraft {
    pub song: NewSong,
    pub title: TitleDraft,
    pub aliases: Vec<TitleDraft>,
}

/// How the owner of a song was found.
#[derive(Clone, Copy, Debug, PartialEq, Eq, Structural)]
pub enum Owner {
    /// The song's original performer is in the artists table.
    Original,
    /// The original performer is not named or not in the table: the seed
    /// artist stands in.
    Seed,
    /// Not even the seed artist is in the table: the unknown id stands in.
    Unknown,
}

/// A song that the setlists name: its owner, how the owner was found, and
/// its title.
#[derive(Clone, Debug, PartialEq, Eq)]
pub struct SongDraft {
    pub song: NewSong,
    pub owner: Owner,
    pub title: TitleDraft,
}

/// The id of the artist that owns every song of the alias table.
pub open spec fn placeholder_artist() -> DbId {
    DbId(1)
}

/// The number that an answer of the store holds, or 0 where it holds none.
pub fn answer_id(answer: Option<i64>) -> (id: i64)
    ensures
        id == (match answer {
            Some(n) => n,
            None => 0i64,
        }),
{
    match answer {
        Some(n) => n,
        None => 0,
    }
}

impl TitleDraft {
    /// The draft is that of `title`: the title as it stands, and its slug.
    pub open spec fn is_of(&self, title: Seq<char>) -> bool {
        self.title@ == title && self.slug@ == slug_text(title)
    }

    /// The draft of a title.
    pub fn of(title: &String) -> (out: TitleDraft)
        ensures
            out.is_of(title@),
    {
        TitleDraft { title: title.clone(), slug: title.slug() }
    }

    /// The default title of the song with id `song_id`.
    pub fn default_title(&self, song_id: i64) -> (out: NewSongtitle)
        ensures
            out.title@ == self.title@,
            out.slug@ == self.slug@,
            out.is_default,
            out.song_id == song_id,
            out.alias_for is None,
    {
        NewSongtitle {
            title: self.title.clone(),
            slug: self.slug.clone(),
            is_default: true,
            song_id,
            alias_for: None,
        }
    }

    /// Another title of the song with id `song_id`, whose default title has
    /// the id `default_title_id`.
    pub fn alias_title(&self, song_id: i64, default_title_id: i64) -> (out: NewSongtitle)
        ensures
            out.title@ == self.title@,
            out.slug@ == self.slug@,
            !out.is_default,
            out.song_id == song_id,
            out.alias_for == Some(default_title_id),
    {
        NewSongtitle {
            title: self.title.clone(),
            slug: self.slug.clone(),
            is_default: false,
            song_id,
            alias_for: Some(default_title_id),
        }
    }
}

/// The draft of an entry of the alias table: owned by the placeholder
/// artist, titled by the canonical name, with one other title for each
/// alias, in order.
pub open spec fn alias_draft_is(draft: AliasDraft, entry: SongWithAliases) -> bool {
    &&& draft.song.artist_id == placeholder_artist()
    &&& draft.title.is_of(entry.name@)
    &&& draft.aliases@.len() == entry.aliases@.len()
    &&& forall|j: int|
        0 <= j < entry.aliases@.len() ==> (#[trigger] draft.aliases@[j]).is_of(
            entry.aliases@[j].name@,
        )
}

/// The draft of an entry of the alias table.
pub fn alias_draft(entry: &SongWithAliases) -> (draft: AliasDraft)
    ensures
        alias_draft_is(draft, *entry),
{
    let mut aliases: Vec<TitleDraft> = Vec::new();
    let mut j: usize = 0;
    while j < entry.aliases.len()
        invariant
            j <= entry.aliases.len(),
            aliases@.len() == j,
            forall|k: int| 0 <= k < j ==> (#[trigger] aliases@[k]).is_of(entry.aliases@[k].name@),
        decreases entry.aliases.len() - j,
    {
        aliases.push(TitleDraft::of(&entry.aliases[j].name));
        j += 1;
    }
    AliasDraft { song: NewSong { artist_id: DbId(1) }, title: TitleDraft::of(&entry.name), aliases }
}

/// Holds of the song titles that read as `title` does once both are in
/// lowercase.
pub open spec fn title_reads(title: Seq<char>) -> spec_fn(Songtitle) -> bool {
    |s: Songtitle| lowercase_text(s.title@) == lowercase_text(title)
}

/// Whether `titles` holds a title that reads as `title` does, case aside.
pub fn holds_title(titles: &Vec<Songtitle>, title: &String) -> (found: bool)
    ensures
        found <==> first_index(titles@, title_reads(title@)) is Some,
{
    let wanted = title.as_str().to_lowercase();
    let mut i: usize = 0;
    while i < titles.len()
        invariant
            i <= titles.len(),
            wanted@ == lowercase_text(title@),
            forall|j: int| 0 <= j < i ==> !title_reads(title@)(#[trigger] titles@[j]),
        decreases titles.len() - i,
    {
        let here = titles[i].title.as_str().to_lowercase();
        if same_text(&here, &wanted) {
            proof {
                lemma_first_index_found(titles@, title_reads(title@), i as int);
            }
            return true;
        }
        i += 1;
    }
    proof {
        lemma_first_index(titles@, title_reads(title@));
    }
    false
}

/// The owner of a song and how it is found: the original performer where
/// one is named and in the table; else the seed artist where that one is in
/// the table; else the unknown id.
pub open spec fn owner_of(artists: Seq<Artist>, original: Option<Seq<char>>) -> (DbId, Owner) {
    let named = match original {
        Some(name) => artist_id_of(artists, name),
        None => None,
    };
    match named {
        Some(id) => (id, Owner::Original),
        None => match artist_id_of(artists, seed_artist_name()) {
            Some(id) => (id, Owner::Seed),
            None => (DbId::unknown(), Owner::Unknown),
        },
    }
}

/// The owner of a song and how it is found.
pub fn song_owner(artists: &Vec<Artist>, original: &Option<String>) -> (out: (DbId, Owner))
    ensures
        out == owner_of(artists@, opt_text(*original)),
{
    let named = match original {
        Some(name) => find_artist(artists, name),
        None => None,
    };
    match named {
        Some(id) => (id, Owner::Original),
        None => {
            let seed = seed_artist();
            match find_artist(artists, &seed) {
                Some(id) => (id, Owner::Seed),
                None => (DbId(0), Owner::Unknown),
            }
        },
    }
}

/// The decision on a song: skipped where the store holds its title, case
/// aside; else drafted under its owner.
pub open spec fn song_step_is(
    step: Step<SongDraft>,
    artists: Seq<Artist>,
    existing: Seq<Songtitle>,
    key: (Seq<char>, Option<Seq<char>>),
) -> bool {
    if first_index(existing, title_reads(key.0)) is Some {
        step is Skip
    } else {
        step matches Step::Create(draft) && draft.title.is_of(key.0) && (
        draft.song.artist_id,
        draft.owner,
        ) == owner_of(artists, key.1)
    }
}

impl Mpdb {
    /// Stage five. One draft for each entry of the alias table, in order.
    /// The store is not asked what it holds: the stage is meant for a store
    /// without song titles.
    pub fn populate_songaliases(&self) -> (plan: Vec<AliasDraft>)
        ensures
            plan@.len() == self.aliases.songs@.len(),
            forall|i: int|
                0 <= i < plan@.len() ==> alias_draft_is(#[trigger] plan@[i], self.aliases.songs@[i]),
    {
        let entries = &self.aliases.songs;
        let mut plan: Vec<AliasDraft> = Vec::new();
        let mut i: usize = 0;
        while i < entries.len()
            invariant
                i <= entries.len(),
                plan@.len() == i,
                forall|j: int| 0 <= j < i ==> alias_draft_is(#[trigger] plan@[j], entries@[j]),
            decreases entries.len() - i,
        {
            plan.push(alias_draft(&entries[i]));
            i += 1;
        }
        plan
    }

    /// The decision on a song, its owner looked up in the artists table.
    pub fn song_step(&self, existing: &Vec<Songtitle>, key: &SongKey) -> (step: Step<SongDraft>)
        ensures
            song_step_is(step, self.artists@, existing@, key.key()),
    {
        if holds_title(existing, &key.name) {
            Step::Skip
        } else {
            let owner = song_owner(&self.artists, &key.original_artist);
            Step::Create(
                SongDraft {
                    song: NewSong { artist_id: owner.0 },
                    owner: owner.1,
                    title: TitleDraft::of(&key.name),
                },
            )
        }
    }

    /// Stage six. One decision for each distinct song of the tree, in the
    /// order of `extract_all_unique_songs`, against the song titles that the
    /// store holds.
    pub fn populate_songtitles(&self, existing: &Vec<Songtitle>) -> (plan: Vec<Step<SongDraft>>)
        ensures
            plan@.len() == distinct(song_keys(played_songs(self.master.data@))).len(),
            forall|i: int|
                0 <= i < plan@.len() ==> song_step_is(
                    #[trigger] plan@[i],
                    self.artists@,
                    existing@,
                    distinct(song_keys(played_songs(self.master.data@)))[i],
                ),
    {
        let candidates = self.extract_all_unique_songs();
        let mut plan: Vec<Step<SongDraft>> = Vec::new();
        let mut i: usize = 0;
        while i < candidates.len()
            invariant
                i <= candidates.len(),
                plan@.len() == i,
                forall|j: int|
                    0 <= j < i ==> song_step_is(
                        #[trigger] plan@[j],
                        self.artists@,
                        existing@,
                        keys(candidates@)[j],
                    ),
            decreases candidates.len() - i,
        {
            let step = self.song_step(existing, &candidates[i]);
            plan.push(step);
            i += 1;
        }
        plan
    }
}

} // verus!
