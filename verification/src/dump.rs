//! A plain-text listing of the source tree, line by line.

use vstd::prelude::*;
use vstd::string::StringExecFns;
use crate::extract::songs_of;
use crate::setlists::{Setlist, Setlists, Song, SongSet};

verus! {

/// The texts of a sequence of strings.
pub open spec fn texts(lines: Seq<String>) -> Seq<Seq<char>> {
    Seq::new(lines.len(), |i: int| lines[i]@)
}

/// One line where there is a value, none where there is not.
pub open spec fn optional_line(label: Seq<char>, value: Option<String>) -> Seq<Seq<char>> {
    match value {
        Some(text) => seq![label + text@],
        None => Seq::empty(),
    }
}

/// The line that names a cover's original artist; none for a song that is
/// no cover.
pub open spec fn cover_line(song: Song) -> Seq<Seq<char>> {
    match song.original_artist {
        Some(artist) => seq!["-- COVER!!! Original Artist: "@ + artist.name@],
        None => Seq::empty(),
    }
}

/// The line that names a setlist's tour; none where it was part of none.
pub open spec fn tour_line(setlist: Setlist) -> Seq<Seq<char>> {
    match setlist.tour {
        Some(tour) => seq!["Tour: "@ + tour.name@],
        None => Seq::empty(),
    }
}

/// The lines of a song: its name; then its original artist, where it is a
/// cover; then its notes, where it has any; then an arrow, where the source
/// says anything on whether it runs into the next song.
pub open spec fn song_lines(song: Song) -> Seq<Seq<char>> {
    seq![song.name@] + cover_line(song) + optional_line("Song notes: "@, song.notes) + (if song.segue is Some {
        seq!["->"@]
    } else {
        Seq::empty()
    })
}

/// The lines of some songs, in order.
pub open spec fn songs_lines(songs: Seq<Song>) -> Seq<Seq<char>>
    decreases songs.len(),
{
    if songs.len() == 0 {
        Seq::empty()
    } else {
        songs_lines(songs.drop_last()) + song_lines(songs.last())
    }
}

/// The lines of a set: an empty line, a heading, the set's name where it has
/// one, and the lines of its songs.
pub open spec fn set_lines(set: SongSet) -> Seq<Seq<char>> {
    seq![Seq::<char>::empty(), "*Set*"@] + optional_line("-- Set name: "@, set.name) + songs_lines(
        songs_of(set),
    )
}

/// The lines of some sets, in order.
pub open spec fn sets_lines(sets: Seq<SongSet>) -> Seq<Seq<char>>
    decreases sets.len(),
{
    if sets.len() == 0 {
        Seq::empty()
    } else {
        sets_lines(sets.drop_last()) + set_lines(sets.last())
    }
}

/// The first line of a setlist: its artist, with the artist's id in the
/// music database or a note that there is none.
pub open spec fn artist_line(setlist: Setlist) -> Seq<char> {
    "Artist: "@ + setlist.artist.name@ + " (mbid="@ + (match setlist.artist.mbid {
        Some(mbid) => mbid@,
        None => "no mbid"@,
    }) + ")"@
}

/// The lines of a setlist: what is known of the concert, the lines of its
/// sets, and a rule.
pub open spec fn setlist_lines(setlist: Setlist) -> Seq<Seq<char>> {
    seq![
        artist_line(setlist),
        "Event Date: "@ + setlist.event_date@,
        "Status: "@ + setlist.status@,
    ] + optional_line("Source: "@, setlist.source) + seq![
        "Venue: "@ + setlist.venue.name@,
        "City: "@ + setlist.venue.city.name@,
        "Country: "@ + setlist.venue.city.country.name@,
    ] + tour_line(setlist) + optional_line("Notes: "@, setlist.notes) + sets_lines(setlist.sets.set@)
        + seq!["--------------------"@]
}

/// The lines of some setlists, in order.
pub open spec fn dump_lines(data: Seq<Setlist>) -> Seq<Seq<char>>
    decreases data.len(),
{
    if data.len() == 0 {
        Seq::empty()
    } else {
        dump_lines(data.drop_last()) + setlist_lines(data.last())
    }
}

fn put(lines: &mut Vec<String>, line: String)
    ensures
        texts(final(lines)@) == texts(old(lines)@).push(line@),
{
    lines.push(line);
    assert(texts(lines@) == texts(old(lines)@).push(line@));
}

fn labelled(label: &str, value: &String) -> (out: String)
    ensures
        out@ == label@ + value@,
{
    let mut out = String::from_str(label);
    out.append(value.as_str());
    out
}

fn put_optional(lines: &mut Vec<String>, label: &str, value: &Option<String>)
    ensures
        texts(final(lines)@) == texts(old(lines)@) + optional_line(label@, *value),
{
    match value {
        Some(text) => {
            put(lines, labelled(label, text));
            assert(texts(old(lines)@).push(label@ + text@) == texts(old(lines)@) + seq![
                label@ + text@,
            ]);
        },
        None => {
            assert(texts(old(lines)@) + Seq::<Seq<char>>::empty() == texts(old(lines)@));
        },
    }
}

fn put_song(lines: &mut Vec<String>, song: &Song)
    ensures
        texts(final(lines)@) == texts(old(lines)@) + song_lines(*song),
{
    let ghost start = texts(lines@);
    put(lines, song.name.clone());
    let ghost named = seq![song.name@];
    assert(texts(lines@) == start + named);
    let ghost cover = cover_line(*song);
    match &song.original_artist {
        Some(artist) => {
            put(lines, labelled("-- COVER!!! Original Artist: ", &artist.name));
        },
        None => {},
    }
    assert(texts(lines@) == start + (named + cover));
    put_optional(lines, "Song notes: ", &song.notes);
    let ghost notes = optional_line("Song notes: "@, song.notes);
    assert(texts(lines@) == start + (named + cover + notes));
    if song.segue.is_some() {
        put(lines, String::from_str("->"));
        assert(texts(lines@) == start + (named + cover + notes + seq!["->"@]));
    } else {
        assert(texts(lines@) == start + (named + cover + notes + Seq::<Seq<char>>::empty()));
    }
}

fn put_set(lines: &mut Vec<String>, set: &SongSet)
    ensures
        texts(final(lines)@) == texts(old(lines)@) + set_lines(*set),
{
    let ghost start = texts(lines@);
    put(lines, String::new());
    put(lines, String::from_str("*Set*"));
    let ghost heading = seq![Seq::<char>::empty(), "*Set*"@];
    assert(texts(lines@) == start + heading);
    put_optional(lines, "-- Set name: ", &set.name);
    let ghost top = heading + optional_line("-- Set name: "@, set.name);
    assert(texts(lines@) == start + top);
    match &set.songs {
        Some(songs) => {
            let mut k: usize = 0;
            assert(songs@.take(0) == Seq::<Song>::empty());
            assert(texts(lines@) == start + (top + songs_lines(songs@.take(0))));
            while k < songs.len()
                invariant
                    k <= songs.len(),
                    texts(lines@) == start + (top + songs_lines(songs@.take(k as int))),
                decreases songs.len() - k,
            {
                let ghost so_far = songs_lines(songs@.take(k as int));
                put_song(lines, &songs[k]);
                proof {
                    assert(songs@.take(k + 1).drop_last() == songs@.take(k as int));
                    assert(start + (top + so_far) + song_lines(songs@[k as int]) == start + (top
                        + (so_far + song_lines(songs@[k as int]))));
                }
                k += 1;
            }
            assert(songs@.take(songs.len() as int) == songs@);
        },
        None => {
            assert(texts(lines@) == start + (top + Seq::<Seq<char>>::empty()));
        },
    }
}

fn put_setlist(lines: &mut Vec<String>, setlist: &Setlist)
    ensures
        texts(final(lines)@) == texts(old(lines)@) + setlist_lines(*setlist),
{
    let ghost start = texts(lines@);
    let mut first = labelled("Artist: ", &setlist.artist.name);
    first.append(" (mbid=");
    match &setlist.artist.mbid {
        Some(mbid) => {
            first.append(mbid.as_str());
        },
        None => {
            first.append("no mbid");
        },
    }
    first.append(")");
    put(lines, first);
    put(lines, labelled("Event Date: ", &setlist.event_date));
    put(lines, labelled("Status: ", &setlist.status));
    let ghost head = seq![
        artist_line(*setlist),
        "Event Date: "@ + setlist.event_date@,
        "Status: "@ + setlist.status@,
    ];
    assert(texts(lines@) == start + head);
    put_optional(lines, "Source: ", &setlist.source);
    let ghost sourced = head + optional_line("Source: "@, setlist.source);
    assert(texts(lines@) == start + sourced);
    put(lines, labelled("Venue: ", &setlist.venue.name));
    put(lines, labelled("City: ", &setlist.venue.city.name));
    put(lines, labelled("Country: ", &setlist.venue.city.country.name));
    let ghost placed = sourced + seq![
        "Venue: "@ + setlist.venue.name@,
        "City: "@ + setlist.venue.city.name@,
        "Country: "@ + setlist.venue.city.country.name@,
    ];
    assert(texts(lines@) == start + placed);
    let ghost tour = tour_line(*setlist);
    match &setlist.tour {
        Some(tour) => {
            put(lines, labelled("Tour: ", &tour.name));
        },
        None => {},
    }
    assert(texts(lines@) == start + (placed + tour));
    put_optional(lines, "Notes: ", &setlist.notes);
    let ghost top = placed + tour + optional_line("Notes: "@, setlist.notes);
    assert(texts(lines@) == start + top);
    let sets = &setlist.sets.set;
    let mut j: usize = 0;
    assert(sets@.take(0) == Seq::<SongSet>::empty());
    assert(texts(lines@) == start + (top + sets_lines(sets@.take(0))));
    while j < sets.len()
        invariant
            j <= sets.len(),
            texts(lines@) == start + (top + sets_lines(sets@.take(j as int))),
        decreases sets.len() - j,
    {
        let ghost so_far = sets_lines(sets@.take(j as int));
        put_set(lines, &sets[j]);
        proof {
            assert(sets@.take(j + 1).drop_last() == sets@.take(j as int));
            assert(start + (top + so_far) + set_lines(sets@[j as int]) == start + (top + (so_far
                + set_lines(sets@[j as int]))));
        }
        j += 1;
    }
    assert(sets@.take(sets.len() as int) == sets@);
    put(lines, String::from_str("--------------------"));
    assert(texts(lines@) == start + (top + sets_lines(sets@) + seq!["--------------------"@]));
}

/// The listing of every setlist, as lines without line ends.
pub fn dump_setlists(master: &Setlists) -> (lines: Vec<String>)
    ensures
        texts(lines@) == dump_lines(master.data@),
{
    let data = &master.data;
    let mut lines: Vec<String> = Vec::new();
    let mut i: usize = 0;
    assert(data@.take(0) == Seq::<Setlist>::empty());
    assert(texts(lines@) == dump_lines(data@.take(0)));
    while i < data.len()
        invariant
            i <= data.len(),
            texts(lines@) == dump_lines(data@.take(i as int)),
        decreases data.len() - i,
    {
        put_setlist(&mut lines, &data[i]);
        proof {
            assert(data@.take(i + 1).drop_last() == data@.take(i as int));
        }
        i += 1;
    }
    assert(data@.take(data.len() as int) == data@);
    lines
}

} // verus!
