//! Stage seven: concerts, the one kind of row that is updated in place.

use vstd::prelude::*;
use crate::date::{event_date_of, EventDate};
use crate::lookup::{artist_id_of, concert_id_of, find_artist, find_concert, find_venue, venue_id_of};
use crate::mpdb::{Artist, Concert, DbId, Mpdb, Venue};
use crate::setlists::{clone_opt, opt_text, Setlist};
use crate::slug::{slug_text, Slug};
use crate::stages::{venue_slug, venue_slug_text};
use crate::text::{hyphen_joined, joined};

verus! {

/// A date's text, with the disambiguation behind a hyphen where there is
/// one.
pub open spec fn dated_text(date: Seq<char>, disambiguation: Option<Seq<char>>) -> Seq<char> {
    match disambiguation {
        Some(d) => hyphen_joined(date, d),
        None => date,
    }
}

/// The slug of a concert: that of the artist's name, the date's text and the
/// disambiguation, where there is one, with hyphens between.
pub open spec fn concert_slug_text(
    artist: Seq<char>,
    date: Seq<char>,
    disambiguation: Option<Seq<char>>,
) -> Seq<char> {
    slug_text(dated_text(hyphen_joined(artist, date), disambiguation))
}

/// The slug of a setlist's concert, or none where its date is no date.
pub open spec fn setlist_slug_text(setlist: Setlist) -> Option<Seq<char>> {
    match event_date_of(setlist.event_date@) {
        Some(date) => match date.iso_text() {
            Some(text) => Some(
                concert_slug_text(setlist.artist.name@, text, opt_text(setlist.disambiguation)),
            ),
            None => None,
        },
        None => None,
    }
}

fn dated(date: &String, disambiguation: &Option<String>) -> (out: String)
    ensures
        out@ == dated_text(date@, opt_text(*disambiguation)),
{
    match disambiguation {
        Some(d) => joined(date, d),
        None => date.clone(),
    }
}

/// The slug of the concert that an artist gave on a date, `date` being the
/// date's text.
pub fn concert_slug(artist: &String, date: &String, disambiguation: &Option<String>) -> (out:
    String)
    ensures
        out@ == concert_slug_text(artist@, date@, opt_text(*disambiguation)),
{
    dated(&joined(artist, date), disambiguation).slug()
}

/// The date and the slug of a setlist's concert, or none where its date is
/// no date.
pub fn setlist_slug(setlist: &Setlist) -> (out: Option<(EventDate, String)>)
    ensures
        out is Some <==> setlist_slug_text(*setlist) is Some,
        out matches Some(found) ==> event_date_of(setlist.event_date@) == Some(found.0)
            && setlist_slug_text(*setlist) == Some(found.1@),
{
    match EventDate::parse(setlist.event_date.as_str()) {
        Some(date) => match date.iso() {
            Some(text) => Some(
                (date, concert_slug(&setlist.artist.name, &text, &setlist.disambiguation)),
            ),
            None => None,
        },
        None => None,
    }
}

impl Concert {
    /// The slug of the concert's date and disambiguation, or none where the
    /// calendar has no such day.
    pub fn identifier(&self) -> (out: Option<String>)
        ensures
            out is Some <==> self.date.iso_text() is Some,
            out matches Some(text) ==> text@ == slug_text(
                dated_text(self.date.iso_text()->0, opt_text(self.disambiguation)),
            ),
    {
        match self.date.iso() {
            Some(text) => Some(dated(&text, &self.disambiguation).slug()),
            None => None,
        }
    }

    /// The slug of a prefix, the concert's date and its disambiguation, or
    /// none where the calendar has no such day.
    pub fn identifier_with_prefix(&self, prefix: &String) -> (out: Option<String>)
        ensures
            out is Some <==> self.date.iso_text() is Some,
            out matches Some(text) ==> text@ == concert_slug_text(
                prefix@,
                self.date.iso_text()->0,
                opt_text(self.disambiguation),
            ),
    {
        match self.date.iso() {
            Some(text) => Some(concert_slug(prefix, &text, &self.disambiguation)),
            None => None,
        }
    }

    /// Sets the concert's date from a text written `dd-mm-yyyy`. Where the
    /// text is no date the concert stays as it is; the result says whether
    /// the date was set.
    pub fn set_date(&mut self, date: &String) -> (set: bool)
        ensures
            set <==> event_date_of(date@) is Some,
            set ==> *final(self) == (Concert { date: event_date_of(date@)->0, ..*old(self) }),
            !set ==> *final(self) == *old(self),
    {
        match EventDate::parse(date.as_str()) {
            Some(parsed) => {
                self.date = parsed;
                true
            },
            None => false,
        }
    }
}

/// A concert to send, and which of its references were found.
#[derive(Clone, Debug, PartialEq, Eq)]
pub struct ConcertDraft {
    pub concert: Concert,
    /// Whether the headline artist is in the artists table; where it is not,
    /// the concert carries the unknown id in its place.
    pub artist_known: bool,
    /// Whether the venue is in the venues table; where it is not, the
    /// concert carries the unknown id in its place.
    pub venue_known: bool,
}

/// The decision on one setlist's concert.
#[derive(Clone, Debug, PartialEq, Eq)]
pub enum ConcertStep {
    /// The setlist's date is no date: nothing is sent.
    Invalid,
    /// The store holds no concert with this slug: create it.
    Create(ConcertDraft),
    /// The store holds a concert with this slug, whose id the draft
    /// carries: update it.
    Update(ConcertDraft),
}

/// The id that was found, or the unknown id.
pub open spec fn id_or_unknown(found: Option<DbId>) -> DbId {
    match found {
        Some(id) => id,
        None => DbId::unknown(),
    }
}

/// The draft is that of the setlist's concert, `date` and `slug` being its
/// date and slug and `id` the id to send it under.
pub open spec fn concert_draft_is(
    draft: ConcertDraft,
    artists: Seq<Artist>,
    venues: Seq<Venue>,
    setlist: Setlist,
    date: EventDate,
    slug: Seq<char>,
    id: DbId,
) -> bool {
    let artist = artist_id_of(artists, setlist.artist.name@);
    let venue = venue_id_of(
        venues,
        venue_slug_text(
            setlist.venue.name@,
            setlist.venue.city.name@,
            setlist.venue.city.country.name@,
        ),
    );
    &&& draft.concert.id == id
    &&& draft.concert.artist_id == id_or_unknown(artist)
    &&& draft.concert.venue_id == id_or_unknown(venue)
    &&& draft.concert.date == date
    &&& opt_text(draft.concert.disambiguation) == opt_text(setlist.disambiguation)
    &&& draft.concert.sort_order == setlist.sort_order
    &&& opt_text(draft.concert.source) == opt_text(setlist.source)
    &&& draft.concert.slug@ == slug
    &&& draft.artist_known <==> artist is Some
    &&& draft.venue_known <==> venue is Some
}

/// The decision on a setlist's concert: invalid where the date is no date;
/// an update under the id of the first concert in the store with the same
/// slug, where there is one; a creation under the unknown id otherwise.
pub open spec fn concert_step_is(
    step: ConcertStep,
    artists: Seq<Artist>,
    venues: Seq<Venue>,
    existing: Seq<Concert>,
    setlist: Setlist,
) -> bool {
    match setlist_slug_text(setlist) {
        None => step is Invalid,
        Some(slug) => {
            let date = event_date_of(setlist.event_date@)->0;
            match concert_id_of(existing, slug) {
                Some(id) => step matches ConcertStep::Update(draft) && concert_draft_is(
                    draft,
                    artists,
                    venues,
                    setlist,
                    date,
                    slug,
                    id,
                ),
                None => step matches ConcertStep::Create(draft) && concert_draft_is(
                    draft,
                    artists,
                    venues,
                    setlist,
                    date,
                    slug,
                    DbId::unknown(),
                ),
            }
        },
    }
}

impl Mpdb {
    /// The decision on a setlist's concert, its artist and venue looked up in
    /// the tables.
    pub fn concert_step(&self, existing: &Vec<Concert>, setlist: &Setlist) -> (step: ConcertStep)
        ensures
            concert_step_is(step, self.artists@, self.venues@, existing@, *setlist),
    {
        match setlist_slug(setlist) {
            None => ConcertStep::Invalid,
            Some(found) => {
                let date = found.0;
                let slug = found.1;
                let artist = find_artist(&self.artists, &setlist.artist.name);
                let place = venue_slug(
                    &setlist.venue.name,
                    &setlist.venue.city.name,
                    &setlist.venue.city.country.name,
                );
                let venue = find_venue(&self.venues, &place);
                let held = find_concert(existing, &slug);
                let concert = Concert {
                    id: match held {
                        Some(id) => id,
                        None => DbId(0),
                    },
                    artist_id: match artist {
                        Some(id) => id,
                        None => DbId(0),
                    },
                    date,
                    disambiguation: clone_opt(&setlist.disambiguation),
                    sort_order: setlist.sort_order,
                    source: clone_opt(&setlist.source),
                    slug,
                    venue_id: match venue {
                        Some(id) => id,
                        None => DbId(0),
                    },
                };
                let draft = ConcertDraft {
                    concert,
                    artist_known: artist.is_some(),
                    venue_known: venue.is_some(),
                };
                match held {
                    Some(_) => ConcertStep::Update(draft),
                    None => ConcertStep::Create(draft),
                }
            },
        }
    }

    /// Stage seven. One decision for each setlist of the tree, in document
    /// order, against the concerts that the store holds.
    pub fn populate_concerts(&self, existing: &Vec<Concert>) -> (plan: Vec<ConcertStep>)
        ensures
            plan@.len() == self.master.data@.len(),
            forall|i: int|
                0 <= i < plan@.len() ==> concert_step_is(
                    #[trigger] plan@[i],
                    self.artists@,
                    self.venues@,
                    existing@,
                    self.master.data@[i],
                ),
    {
        let data = &self.master.data;
        let mut plan: Vec<ConcertStep> = Vec::new();
        let mut i: usize = 0;
        while i < data.len()
            invariant
                i <= data.len(),
                plan@.len() == i,
                forall|j: int|
                    0 <= j < i ==> concert_step_is(
                        #[trigger] plan@[j],
                        self.artists@,
                        self.venues@,
                        existing@,
                        data@[j],
                    ),
            decreases data.len() - i,
        {
            let step = self.concert_step(existing, &data[i]);
            plan.push(step);
            i += 1;
        }
        plan
    }
}

/// Two setlists of one artist on one date with one disambiguation have the
/// same concert slug.
pub proof fn lemma_same_concert_same_slug(a: Setlist, b: Setlist)
    requires
        a.artist.name@ == b.artist.name@,
        event_date_of(a.event_date@) == event_date_of(b.event_date@),
        opt_text(a.disambiguation) == opt_text(b.disambiguation),
    ensures
        setlist_slug_text(a) == setlist_slug_text(b),
{
}

/// A concert is created once and updated from then on: where the first run
/// created a setlist's concert and the store took it, the decision on any
/// setlist of the same artist, date and disambiguation is an update, under
/// the id of the first concert with that slug in the store.
pub proof fn lemma_concert_created_once(
    artists: Seq<Artist>,
    venues: Seq<Venue>,
    before: Seq<Concert>,
    after: Seq<Concert>,
    a: Setlist,
    b: Setlist,
    first: ConcertStep,
    second: ConcertStep,
)
    requires
        a.artist.name@ == b.artist.name@,
        event_date_of(a.event_date@) == event_date_of(b.event_date@),
        opt_text(a.disambiguation) == opt_text(b.disambiguation),
        concert_step_is(first, artists, venues, before, a),
        concert_step_is(second, artists, venues, after, b),
        first matches ConcertStep::Create(draft) && concert_id_of(after, draft.concert.slug@)
            is Some,
    ensures
        second matches ConcertStep::Update(draft) && Some(draft.concert.id) == concert_id_of(
            after,
            setlist_slug_text(b)->0,
        ) && draft.concert.slug@ == first->Create_0.concert.slug@,
{
    lemma_same_concert_same_slug(a, b);
}

} // verus!
