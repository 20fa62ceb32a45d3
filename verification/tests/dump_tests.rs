use mpdbtool::dump::dump_setlists;
use mpdbtool::setlists::{Artist, City, Country, Setlist, Setlists, Sets, Song, SongSet, Tour, Venue};

fn dump_setlist() -> Setlist {
    Setlist {
        status: "complete".to_string(),
        event_date: "01-01-2023".to_string(),
        disambiguation: None,
        sort_order: None,
        source: Some("tape".to_string()),
        artist: Artist { name: "X".to_string(), sort_name: None, mbid: Some("abc-123".to_string()) },
        venue: Venue {
            name: "V".to_string(),
            city: City {
                name: "C".to_string(),
                country: Country { name: "Y".to_string(), code: None },
            },
        },
        tour: Some(Tour { name: "Winter".to_string() }),
        notes: Some("cold".to_string()),
        sets: Sets {
            set: vec![
                SongSet {
                    name: Some("First".to_string()),
                    encore: None,
                    songs: Some(vec![
                        Song {
                            name: "S".to_string(),
                            segue: Some(false),
                            original_artist: Some(Artist {
                                name: "Z".to_string(),
                                sort_name: None,
                                mbid: None,
                            }),
                            notes: Some("slow".to_string()),
                        },
                        Song { name: "T".to_string(), segue: None, original_artist: None, notes: None },
                    ]),
                },
                SongSet { name: None, encore: Some("1".to_string()), songs: None },
            ],
        },
    }
}

#[test]
fn dump_lists_everything_that_is_set() {
    let master = Setlists { data: vec![dump_setlist()] };
    assert_eq!(
        dump_setlists(&master),
        vec![
            "Artist: X (mbid=abc-123)",
            "Event Date: 01-01-2023",
            "Status: complete",
            "Source: tape",
            "Venue: V",
            "City: C",
            "Country: Y",
            "Tour: Winter",
            "Notes: cold",
            "",
            "*Set*",
            "-- Set name: First",
            "S",
            "-- COVER!!! Original Artist: Z",
            "Song notes: slow",
            "->",
            "T",
            "",
            "*Set*",
            "--------------------",
        ]
    );
}

#[test]
fn dump_leaves_out_what_is_not_set() {
    let mut setlist = dump_setlist();
    setlist.source = None;
    setlist.tour = None;
    setlist.notes = None;
    setlist.artist.mbid = None;
    setlist.sets.set.clear();
    let master = Setlists { data: vec![setlist.clone(), setlist] };
    let one = vec![
        "Artist: X (mbid=no mbid)",
        "Event Date: 01-01-2023",
        "Status: complete",
        "Venue: V",
        "City: C",
        "Country: Y",
        "--------------------",
    ];
    let mut both = one.clone();
    both.extend(one);
    assert_eq!(dump_setlists(&master), both);
}

#[test]
fn dump_of_an_empty_archive_is_empty() {
    assert!(dump_setlists(&Setlists::new()).is_empty());
}
