//! Stage eight: the sets of each concert and the performances of each set.
//!
//! Nothing is looked up in the store's sets or performances: every run asks
//! for every row again.

use vstd::prelude::*;
use vstd::string::StringExecFns;
use crate::concerts::{id_or_unknown, setlist_slug, setlist_slug_text};
use crate::extract::songs_of;
use crate::lookup::{
    artist_id_of, concert_id_of, find_artist, find_concert, find_title, song_id_of,
    songtitle_id_of,
};
use crate::mpdb::{Artist, Concert, DbId, Mpdb, Performance, SetRow, Songtitle};
use crate::setlists::{clone_opt, opt_text, Setlist, Song, SongSet};
use crate::slug::{slug_text, Slug};
use crate::text::{hyphen_joined, joined};

verus! {

/// A performance to create once its set has an id, and which of its
/// references were found. A reference that was not found carries the unknown
/// id.
#[derive(Clone, Copy, Debug, PartialEq, Eq, Structural)]
pub struct PerformanceDraft {
    pub row: Performance,
    pub artist_known: bool,
    pub song_known: bool,
    pub title_known: bool,
}

/// A set to create, with the performances to create under it.
#[derive(Clone, Debug, PartialEq, Eq)]
pub struct SetDraft {
    pub row: SetRow,
    /// Whether the concert is in the concerts table; where it is not, the
    /// set and its performances carry the unknown id in its place.
    pub concert_known: bool,
    pub performances: Vec<PerformanceDraft>,
}

/// The decision on one setlist's sets.
#[derive(Clone, Debug, PartialEq, Eq)]
pub enum SetsStep {
    /// The setlist's date is no date: nothing is sent.
    Invalid,
    /// One draft for each set, in the order the sets were played.
    Sets(Vec<SetDraft>),
}

/// The label of a set: `Encore` and the encore's label where it is an
/// encore, else its name, else none.
pub open spec fn set_label(set: SongSet) -> Option<Seq<char>> {
    match set.encore {
        Some(encore) => Some("Encore "@ + encore@),
        None => opt_text(set.name),
    }
}

/// The name by which a set is told from every other: the concert's slug, a
/// hyphen, and the slug of the set's label, or of `main set` where it has
/// none.
pub open spec fn set_unique_name(concert_slug: Seq<char>, label: Option<Seq<char>>) -> Seq<char> {
    hyphen_joined(
        concert_slug,
        slug_text(
            match label {
                Some(text) => text,
                None => "main set"@,
            },
        ),
    )
}

/// A position as a sort order: the position cut to 32 bits.
pub open spec fn sort_order_at(position: int) -> i32 {
    position as i32
}

/// Whether a song runs into the next: as the source says, and not where it
/// says nothing.
pub open spec fn segue_of(song: Song) -> bool {
    match song.segue {
        Some(segue) => segue,
        None => false,
    }
}

/// The draft is that of `song` at position `k` of a set of the concert
/// `concert_id`, performed by `artist`.
pub open spec fn performance_is(
    draft: PerformanceDraft,
    titles: Seq<Songtitle>,
    artist: Option<DbId>,
    concert_id: DbId,
    song: Song,
    k: int,
) -> bool {
    &&& draft.row == Performance {
        id: DbId::unknown(),
        set_id: DbId::unknown(),
        concert_id,
        song_id: id_or_unknown(song_id_of(titles, song.name@)),
        songtitle_id: id_or_unknown(songtitle_id_of(titles, song.name@)),
        artist_id: id_or_unknown(artist),
        segue: segue_of(song),
        sort_order: sort_order_at(k),
    }
    &&& draft.artist_known <==> artist is Some
    &&& draft.song_known <==> song_id_of(titles, song.name@) is Some
    &&& draft.title_known <==> songtitle_id_of(titles, song.name@) is Some
}

/// The draft is that of `set` at position `j` of the concert with that slug
/// and id.
pub open spec fn set_draft_is(
    draft: SetDraft,
    titles: Seq<Songtitle>,
    artist: Option<DbId>,
    concert_slug: Seq<char>,
    concert: Option<DbId>,
    set: SongSet,
    j: int,
) -> bool {
    &&& draft.row.id == DbId::unknown()
    &&& draft.row.concert_id == id_or_unknown(concert)
    &&& opt_text(draft.row.name) == set_label(set)
    &&& draft.row.unique_name@ == set_unique_name(concert_slug, set_label(set))
    &&& draft.row.sort_order == sort_order_at(j)
    &&& draft.concert_known <==> concert is Some
    &&& draft.performances@.len() == songs_of(set).len()
    &&& forall|k: int|
        0 <= k < songs_of(set).len() ==> performance_is(
            #[trigger] draft.performances@[k],
            titles,
            artist,
            id_or_unknown(concert),
            songs_of(set)[k],
            k,
        )
}

/// The decision on a setlist's sets: invalid where the date is no date; else
/// one draft for each set, under the concert that the concerts table holds
/// for the setlist's slug and performed by the setlist's headline artist.
pub open spec fn sets_step_is(
    step: SetsStep,
    artists: Seq<Artist>,
    titles: Seq<Songtitle>,
    concerts: Seq<Concert>,
    setlist: Setlist,
) -> bool {
    match setlist_slug_text(setlist) {
        None => step is Invalid,
        Some(slug) => step matches SetsStep::Sets(drafts) && drafts@.len()
            == setlist.sets.set@.len() && forall|j: int|
            0 <= j < setlist.sets.set@.len() ==> set_draft_is(
                #[trigger] drafts@[j],
                titles,
                artist_id_of(artists, setlist.artist.name@),
                slug,
                concert_id_of(concerts, slug),
                setlist.sets.set@[j],
                j,
            ),
    }
}

impl PerformanceDraft {
    /// The performance as a row of the set with id `set_id`.
    pub fn in_set(&self, set_id: DbId) -> (out: Performance)
        ensures
            out == (Performance { set_id, ..self.row }),
    {
        Performance {
            id: self.row.id,
            set_id,
            concert_id: self.row.concert_id,
            song_id: self.row.song_id,
            songtitle_id: self.row.songtitle_id,
            artist_id: self.row.artist_id,
            segue: self.row.segue,
            sort_order: self.row.sort_order,
        }
    }
}

fn unwrap_id(found: Option<DbId>) -> (out: DbId)
    ensures
        out == id_or_unknown(found),
{
    match found {
        Some(id) => id,
        None => DbId(0),
    }
}

fn sort_order(position: usize) -> (out: i32)
    ensures
        out == sort_order_at(position as int),
{
    #[verifier::truncate]
    (position as i32)
}

/// The label of a set.
pub fn label_of(set: &SongSet) -> (out: Option<String>)
    ensures
        opt_text(out) == set_label(*set),
{
    match &set.encore {
        Some(encore) => {
            let mut label = String::from_str("Encore ");
            label.append(encore.as_str());
            Some(label)
        },
        None => clone_opt(&set.name),
    }
}

/// The name by which a set of the concert with that slug is told from every
/// other.
pub fn unique_name_of(concert_slug: &String, label: &Option<String>) -> (out: String)
    ensures
        out@ == set_unique_name(concert_slug@, opt_text(*label)),
{
    let part = match label {
        Some(text) => text.slug(),
        None => String::from_str("main set").slug(),
    };
    joined(concert_slug, &part)
}

impl Mpdb {
    /// The draft of a song's performance at position `k` of a set, its song
    /// and title looked up in the song titles table.
    pub fn performance_draft(
        &self,
        artist: Option<DbId>,
        concert_id: DbId,
        song: &Song,
        k: usize,
    ) -> (draft: PerformanceDraft)
        ensures
            performance_is(draft, self.songtitles@, artist, concert_id, *song, k as int),
    {
        let title = find_title(&self.songtitles, &song.name);
        let song_id = match title {
            Some(i) => Some(self.songtitles[i].song_id),
            None => None,
        };
        let songtitle_id = match title {
            Some(i) => Some(self.songtitles[i].id),
            None => None,
        };
        PerformanceDraft {
            row: Performance {
                id: DbId(0),
                set_id: DbId(0),
                concert_id,
                song_id: unwrap_id(song_id),
                songtitle_id: unwrap_id(songtitle_id),
                artist_id: unwrap_id(artist),
                segue: match song.segue {
                    Some(segue) => segue,
                    None => false,
                },
                sort_order: sort_order(k),
            },
            artist_known: artist.is_some(),
            song_known: song_id.is_some(),
            title_known: songtitle_id.is_some(),
        }
    }

    /// The draft of a set at position `j` of a concert, with a draft for
    /// each of its songs, in order.
    pub fn set_draft(
        &self,
        artist: Option<DbId>,
        concert_slug: &String,
        concert: Option<DbId>,
        set: &SongSet,
        j: usize,
    ) -> (draft: SetDraft)
        ensures
            set_draft_is(draft, self.songtitles@, artist, concert_slug@, concert, *set, j as int),
    {
        let concert_id = unwrap_id(concert);
        let label = label_of(set);
        let unique_name = unique_name_of(concert_slug, &label);
        let mut performances: Vec<PerformanceDraft> = Vec::new();
        match &set.songs {
            Some(songs) => {
                let mut k: usize = 0;
                while k < songs.len()
                    invariant
                        k <= songs.len(),
                        performances@.len() == k,
                        forall|m: int|
                            0 <= m < k ==> performance_is(
                                #[trigger] performances@[m],
                                self.songtitles@,
                                artist,
                                concert_id,
                                songs@[m],
                                m,
                            ),
                    decreases songs.len() - k,
                {
                    let draft = self.performance_draft(artist, concert_id, &songs[k], k);
                    performances.push(draft);
                    k += 1;
                }
            },
            None => {},
        }
        SetDraft {
            row: SetRow {
                id: DbId(0),
                concert_id,
                name: label,
                unique_name,
                sort_order: sort_order(j),
            },
            concert_known: concert.is_some(),
            performances,
        }
    }

    /// The decision on a setlist's sets, its concert looked up in the
    /// concerts table and its headline artist in the artists table.
    pub fn sets_step(&self, setlist: &Setlist) -> (step: SetsStep)
        ensures
            sets_step_is(step, self.artists@, self.songtitles@, self.concerts@, *setlist),
    {
        match setlist_slug(setlist) {
            None => SetsStep::Invalid,
            Some(found) => {
                let slug = found.1;
                let concert = find_concert(&self.concerts, &slug);
                let artist = find_artist(&self.artists, &setlist.artist.name);
                let sets = &setlist.sets.set;
                let mut drafts: Vec<SetDraft> = Vec::new();
                let mut j: usize = 0;
                while j < sets.len()
                    invariant
                        j <= sets.len(),
                        drafts@.len() == j,
                        forall|m: int|
                            0 <= m < j ==> set_draft_is(
                                #[trigger] drafts@[m],
                                self.songtitles@,
                                artist,
                                slug@,
                                concert,
                                sets@[m],
                                m,
                            ),
                    decreases sets.len() - j,
                {
                    let draft = self.set_draft(artist, &slug, concert, &sets[j], j);
                    drafts.push(draft);
                    j += 1;
                }
                SetsStep::Sets(drafts)
            },
        }
    }

    /// Stage eight. One decision for each setlist of the tree, in document
    /// order.
    pub fn populate_performances(&self) -> (plan: Vec<SetsStep>)
        ensures
            plan@.len() == self.master.data@.len(),
            forall|i: int|
                0 <= i < plan@.len() ==> sets_step_is(
                    #[trigger] plan@[i],
                    self.artists@,
                    self.songtitles@,
                    self.concerts@,
                    self.master.data@[i],
                ),
    {
        let data = &self.master.data;
        let mut plan: Vec<SetsStep> = Vec::new();
        let mut i: usize = 0;
        while i < data.len()
            invariant
                i <= data.len(),
                plan@.len() == i,
                forall|m: int|
                    0 <= m < i ==> sets_step_is(
                        #[trigger] plan@[m],
                        self.artists@,
                        self.songtitles@,
                        self.concerts@,
                        data@[m],
                    ),
            decreases data.len() - i,
        {
            let step = self.sets_step(&data[i]);
            plan.push(step);
            i += 1;
        }
        plan
    }
}

/// Stage eight sends everything again. Two decisions on one setlist from the
/// same tables are both invalid, or ask for the same sets under the same
/// names with the same performances: what the store holds of sets and
/// performances changes nothing, so a second run doubles every row of the
/// first.
pub proof fn lemma_sets_sent_again(
    artists: Seq<Artist>,
    titles: Seq<Songtitle>,
    concerts: Seq<Concert>,
    setlist: Setlist,
    first: SetsStep,
    second: SetsStep,
)
    requires
        sets_step_is(first, artists, titles, concerts, setlist),
        sets_step_is(second, artists, titles, concerts, setlist),
    ensures
        first is Invalid <==> second is Invalid,
        first is Invalid <==> setlist_slug_text(setlist) is None,
        first matches SetsStep::Sets(a) ==> second matches SetsStep::Sets(b) && a@.len()
            == setlist.sets.set@.len() && b@.len() == a@.len() && forall|j: int|
            #![trigger a@[j]]
            #![trigger b@[j]]
            0 <= j < a@.len() ==> {
                &&& a@[j].row.unique_name@ == b@[j].row.unique_name@
                &&& opt_text(a@[j].row.name) == opt_text(b@[j].row.name)
                &&& a@[j].row.concert_id == b@[j].row.concert_id
                &&& a@[j].row.sort_order == b@[j].row.sort_order
                &&& a@[j].performances@.len() == songs_of(setlist.sets.set@[j]).len()
                &&& a@[j].performances@ == b@[j].performances@
            },
{
    match first {
        SetsStep::Sets(a) => {
            let b = second->Sets_0;
            let slug = setlist_slug_text(setlist)->0;
            assert forall|j: int| 0 <= j < a@.len() implies a@[j].performances@
                == b@[j].performances@ by {
                let set = setlist.sets.set@[j];
                assert(set_draft_is(
                    a@[j],
                    titles,
                    artist_id_of(artists, setlist.artist.name@),
                    slug,
                    concert_id_of(concerts, slug),
                    set,
                    j,
                ));
                assert(set_draft_is(
                    b@[j],
                    titles,
                    artist_id_of(artists, setlist.artist.name@),
                    slug,
                    concert_id_of(concerts, slug),
                    set,
                    j,
                ));
                assert forall|k: int| 0 <= k < a@[j].performances@.len() implies a@[j].performances@[k]
                    == b@[j].performances@[k] by {
                    assert(performance_is(
                        a@[j].performances@[k],
                        titles,
                        artist_id_of(artists, setlist.artist.name@),
                        id_or_unknown(concert_id_of(concerts, slug)),
                        songs_of(set)[k],
                        k,
                    ));
                    assert(performance_is(
                        b@[j].performances@[k],
                        titles,
                        artist_id_of(artists, setlist.artist.name@),
                        id_or_unknown(concert_id_of(concerts, slug)),
                        songs_of(set)[k],
                        k,
                    ));
                }
                assert(a@[j].performances@ =~= b@[j].performances@);
            }
        },
        SetsStep::Invalid => {},
    }
}

} // verus!
