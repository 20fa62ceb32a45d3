use mpdbtool::date::EventDate;
use mpdbtool::mpdb::{Artist, Concert, DbId, Mpdb, Performance, SetRow, Songtitle};
use mpdbtool::performances::{label_of, unique_name_of, PerformanceDraft, SetDraft, SetsStep};
use mpdbtool::setlists::{self, Setlist, Sets, Song, SongSet};

fn performances_song(name: &str, segue: Option<bool>) -> Song {
    Song { name: name.to_string(), segue, original_artist: None, notes: None }
}

fn performances_setlist(date: &str, sets: Vec<SongSet>) -> Setlist {
    Setlist {
        status: "complete".to_string(),
        event_date: date.to_string(),
        disambiguation: None,
        sort_order: None,
        source: None,
        artist: setlists::Artist { name: "X".to_string(), sort_name: None, mbid: None },
        venue: setlists::Venue {
            name: "V".to_string(),
            city: setlists::City {
                name: "C".to_string(),
                country: setlists::Country { name: "Y".to_string(), code: None },
            },
        },
        tour: None,
        notes: None,
        sets: Sets { set: sets },
    }
}

fn performances_tables() -> Mpdb {
    let mut mpdb = Mpdb::new(String::new());
    mpdb.artists = vec![Artist { id: DbId(4), name: "X".to_string() }];
    mpdb.songtitles = vec![
        Songtitle { id: DbId(21), title: "S".to_string(), is_default: true, song_id: DbId(11) },
        Songtitle { id: DbId(22), title: "T".to_string(), is_default: true, song_id: DbId(12) },
    ];
    mpdb.concerts = vec![Concert {
        id: DbId(60),
        artist_id: DbId(4),
        date: EventDate { year: 2023, month: 1, day: 1 },
        disambiguation: None,
        sort_order: None,
        source: None,
        slug: "x-2023-01-01".to_string(),
        venue_id: DbId(8),
    }];
    mpdb.master.data = vec![performances_setlist(
        "01-01-2023",
        vec![
            SongSet {
                name: None,
                encore: None,
                songs: Some(vec![
                    performances_song("S", Some(true)),
                    performances_song("T", None),
                ]),
            },
            SongSet { name: Some("Acoustic Set".to_string()), encore: None, songs: None },
            SongSet {
                name: Some("ignored".to_string()),
                encore: Some("1".to_string()),
                songs: Some(vec![performances_song("Unheard Of", Some(false))]),
            },
        ],
    )];
    mpdb
}

#[test]
fn label_prefers_the_encore() {
    let encore = SongSet { name: Some("n".to_string()), encore: Some("2".to_string()), songs: None };
    let named = SongSet { name: Some("Acoustic".to_string()), encore: None, songs: None };
    let plain = SongSet { name: None, encore: None, songs: None };
    assert_eq!(label_of(&encore), Some("Encore 2".to_string()));
    assert_eq!(label_of(&named), Some("Acoustic".to_string()));
    assert_eq!(label_of(&plain), None);
}

#[test]
fn unique_name_is_concert_slug_and_label_slug() {
    let slug = "x-2023-01-01".to_string();
    assert_eq!(unique_name_of(&slug, &None), "x-2023-01-01-main-set");
    assert_eq!(unique_name_of(&slug, &Some("Encore 1".to_string())), "x-2023-01-01-encore-1");
    assert_eq!(unique_name_of(&slug, &Some("Acoustic Set".to_string())), "x-2023-01-01-acoustic-set");
}

#[test]
fn sets_and_performances_are_drafted_in_document_order() {
    let mpdb = performances_tables();
    let plan = mpdb.populate_performances();
    let row = |song: i32, title: i32, segue: bool, order: i32| Performance {
        id: DbId(0),
        set_id: DbId(0),
        concert_id: DbId(60),
        song_id: DbId(song),
        songtitle_id: DbId(title),
        artist_id: DbId(4),
        segue,
        sort_order: order,
    };
    assert_eq!(
        plan,
        vec![SetsStep::Sets(vec![
            SetDraft {
                row: SetRow {
                    id: DbId(0),
                    concert_id: DbId(60),
                    name: None,
                    unique_name: "x-2023-01-01-main-set".to_string(),
                    sort_order: 0,
                },
                concert_known: true,
                performances: vec![
                    PerformanceDraft {
                        row: row(11, 21, true, 0),
                        artist_known: true,
                        song_known: true,
                        title_known: true,
                    },
                    PerformanceDraft {
                        row: row(12, 22, false, 1),
                        artist_known: true,
                        song_known: true,
                        title_known: true,
                    },
                ],
            },
            SetDraft {
                row: SetRow {
                    id: DbId(0),
                    concert_id: DbId(60),
                    name: Some("Acoustic Set".to_string()),
                    unique_name: "x-2023-01-01-acoustic-set".to_string(),
                    sort_order: 1,
                },
                concert_known: true,
                performances: vec![],
            },
            SetDraft {
                row: SetRow {
                    id: DbId(0),
                    concert_id: DbId(60),
                    name: Some("Encore 1".to_string()),
                    unique_name: "x-2023-01-01-encore-1".to_string(),
                    sort_order: 2,
                },
                concert_known: true,
                performances: vec![PerformanceDraft {
                    row: row(0, 0, false, 0),
                    artist_known: true,
                    song_known: false,
                    title_known: false,
                }],
            },
        ])]
    );
}

#[test]
fn performance_goes_into_its_set() {
    let mpdb = performances_tables();
    let draft = mpdb.performance_draft(Some(DbId(4)), DbId(60), &performances_song("T", None), 5);
    let row = draft.in_set(DbId(900));
    assert_eq!(
        row,
        Performance {
            id: DbId(0),
            set_id: DbId(900),
            concert_id: DbId(60),
            song_id: DbId(12),
            songtitle_id: DbId(22),
            artist_id: DbId(4),
            segue: false,
            sort_order: 5,
        }
    );
}

#[test]
fn unknown_concert_and_artist_carry_the_unknown_id() {
    let mut mpdb = performances_tables();
    mpdb.concerts.clear();
    mpdb.artists.clear();
    let plan = mpdb.populate_performances();
    match &plan[0] {
        SetsStep::Sets(drafts) => {
            assert_eq!(drafts.len(), 3);
            assert!(!drafts[0].concert_known);
            assert_eq!(drafts[0].row.concert_id, DbId(0));
            assert!(!drafts[0].performances[0].artist_known);
            assert_eq!(drafts[0].performances[0].row.artist_id, DbId(0));
            assert_eq!(drafts[0].performances[0].row.concert_id, DbId(0));
        }
        other => panic!("expected sets, got {:?}", other),
    }
}

#[test]
fn setlist_without_a_date_sends_no_sets() {
    let mut mpdb = performances_tables();
    mpdb.master.data[0].event_date = "2023-01-01".to_string();
    assert_eq!(mpdb.populate_performances(), vec![SetsStep::Invalid]);
}

#[test]
fn stage_eight_twice_sends_every_row_twice() {
    let mpdb = performances_tables();
    let mut sets_sent: Vec<SetRow> = Vec::new();
    let mut performances_sent: Vec<Performance> = Vec::new();
    for _run in 0..2 {
        for step in mpdb.populate_performances() {
            if let SetsStep::Sets(drafts) = step {
                for draft in drafts {
                    let set_id = DbId(1000 + sets_sent.len() as i32);
                    for performance in draft.performances.iter() {
                        performances_sent.push(performance.in_set(set_id));
                    }
                    sets_sent.push(draft.row);
                }
            }
        }
    }
    assert_eq!(sets_sent.len(), 6);
    assert_eq!(performances_sent.len(), 6);
    assert_eq!(sets_sent[0], sets_sent[3]);
    assert_eq!(sets_sent[1], sets_sent[4]);
    assert_eq!(sets_sent[2], sets_sent[5]);
    for i in 0..3 {
        let mut again = performances_sent[i + 3];
        again.set_id = performances_sent[i].set_id;
        assert_eq!(again, performances_sent[i]);
    }
    assert_eq!(performances_sent.len() as u64, 2 * mpdb.performances_count());
}
