use mpdbtool::concerts::ConcertStep;
use mpdbtool::mpdb::{Artist, City, Concert, Country, DbId, Mpdb, Songtitle, Venue};
use mpdbtool::pipeline::Outcome;
use mpdbtool::plan::{count_creations, Step};
use mpdbtool::setlists::{self, Setlist, Sets, Song, SongSet};
use mpdbtool::songs::answer_id;

struct ScenarioStore {
    next_id: i32,
    countries: Vec<Country>,
    cities: Vec<City>,
    venues: Vec<Venue>,
    artists: Vec<Artist>,
    songs: Vec<(DbId, DbId)>,
    songtitles: Vec<Songtitle>,
    concerts: Vec<Concert>,
}

fn scenario_store() -> ScenarioStore {
    ScenarioStore {
        next_id: 1,
        countries: vec![],
        cities: vec![],
        venues: vec![],
        artists: vec![],
        songs: vec![],
        songtitles: vec![],
        concerts: vec![],
    }
}

fn scenario_id(store: &mut ScenarioStore) -> DbId {
    let id = DbId(store.next_id);
    store.next_id += 1;
    id
}

fn scenario_tree() -> Mpdb {
    let mut mpdb = Mpdb::new("http://store".to_string());
    mpdb.master.data = vec![Setlist {
        status: "complete".to_string(),
        event_date: "01-01-2023".to_string(),
        disambiguation: None,
        sort_order: None,
        source: None,
        artist: setlists::Artist { name: "X".to_string(), sort_name: None, mbid: None },
        venue: setlists::Venue {
            name: "V".to_string(),
            city: setlists::City {
                name: "C".to_string(),
                country: setlists::Country { name: "Y".to_string(), code: None },
            },
        },
        tour: None,
        notes: None,
        sets: Sets {
            set: vec![SongSet {
                name: None,
                encore: None,
                songs: Some(vec![Song {
                    name: "S".to_string(),
                    segue: None,
                    original_artist: None,
                    notes: None,
                }]),
            }],
        },
    }];
    mpdb
}

fn scenario_run(mpdb: &mut Mpdb, store: &mut ScenarioStore) -> usize {
    let mut created = 0;

    let plan = mpdb.populate_countries(&store.countries);
    created += count_creations(&plan);
    for step in plan {
        if let Step::Create(new) = step {
            let id = scenario_id(store);
            store.countries.push(Country { id, name: new.name, code: new.code });
        }
    }
    mpdb.absorb(Outcome::Countries(store.countries.clone()));

    let plan = mpdb.populate_cities(&store.cities);
    created += count_creations(&plan);
    for step in plan {
        if let Step::Create(new) = step {
            let id = scenario_id(store);
            store.cities.push(City { id, name: new.name, country_id: new.country_id });
        }
    }
    mpdb.absorb(Outcome::Cities(store.cities.clone()));

    let plan = mpdb.populate_venues(&store.venues);
    created += count_creations(&plan);
    for step in plan {
        if let Step::Create(new) = step {
            let id = scenario_id(store);
            store.venues.push(Venue { id, name: new.name, slug: new.slug, city_id: new.city_id });
        }
    }
    mpdb.absorb(Outcome::Venues(store.venues.clone()));

    if let Step::Create(new) = Mpdb::seed_artist_step(&store.artists) {
        created += 1;
        let id = scenario_id(store);
        store.artists.push(Artist { id, name: new.name });
    }
    let plan = mpdb.populate_artists(&store.artists);
    created += count_creations(&plan);
    for step in plan {
        if let Step::Create(new) = step {
            let id = scenario_id(store);
            store.artists.push(Artist { id, name: new.name });
        }
    }
    mpdb.absorb(Outcome::Artists(store.artists.clone()));
    created
}

fn scenario_songs_and_concerts(mpdb: &mut Mpdb, store: &mut ScenarioStore) {
    let plan = mpdb.populate_songtitles(&store.songtitles);
    for step in plan {
        if let Step::Create(draft) = step {
            let song_id = scenario_id(store);
            store.songs.push((song_id, draft.song.artist_id));
            let title = draft.title.default_title(answer_id(Some(song_id.0 as i64)));
            let id = scenario_id(store);
            store.songtitles.push(Songtitle {
                id,
                title: title.title,
                is_default: title.is_default,
                song_id: DbId::from_answer(Some(title.song_id)),
            });
        }
    }
    mpdb.absorb(Outcome::Songtitles(store.songtitles.clone()));

    let plan = mpdb.populate_concerts(&store.concerts);
    for step in plan {
        match step {
            ConcertStep::Create(draft) => {
                let mut concert = draft.concert;
                concert.id = scenario_id(store);
                store.concerts.push(concert);
            }
            ConcertStep::Update(draft) => {
                let at = store.concerts.iter().position(|c| c.id == draft.concert.id).unwrap();
                store.concerts[at] = draft.concert;
            }
            ConcertStep::Invalid => {}
        }
    }
    mpdb.absorb(Outcome::Concerts(store.concerts.clone()));
}

#[test]
fn one_setlist_fills_an_empty_store() {
    let mut mpdb = scenario_tree();
    let mut store = scenario_store();
    scenario_run(&mut mpdb, &mut store);
    scenario_songs_and_concerts(&mut mpdb, &mut store);

    let countries: Vec<&str> = store.countries.iter().map(|c| c.name.as_str()).collect();
    assert_eq!(countries, vec!["Y"]);

    assert_eq!(store.cities.len(), 1);
    assert_eq!(store.cities[0].name, "C");
    assert_eq!(store.cities[0].country_id, store.countries[0].id);

    assert_eq!(store.venues.len(), 1);
    assert_eq!(store.venues[0].name, "V");
    assert_eq!(store.venues[0].city_id, store.cities[0].id);
    assert_eq!(store.venues[0].slug, "v-c-y");

    let artists: Vec<&str> = store.artists.iter().map(|a| a.name.as_str()).collect();
    assert_eq!(artists, vec!["Motorpsycho", "X"]);

    let titles: Vec<&str> = store.songtitles.iter().map(|t| t.title.as_str()).collect();
    assert_eq!(titles, vec!["S"]);
    assert_eq!(store.songs.len(), 1);
    assert_eq!(store.songs[0].1, store.artists[0].id);

    let slugs: Vec<&str> = store.concerts.iter().map(|c| c.slug.as_str()).collect();
    assert_eq!(slugs, vec!["x-2023-01-01"]);
    assert_eq!(store.concerts[0].artist_id, store.artists[1].id);
    assert_eq!(store.concerts[0].venue_id, store.venues[0].id);
}

#[test]
fn first_four_stages_run_twice_create_nothing_the_second_time() {
    let mut mpdb = scenario_tree();
    let mut store = scenario_store();
    let first = scenario_run(&mut mpdb, &mut store);
    let counts = (store.countries.len(), store.cities.len(), store.venues.len(), store.artists.len());
    assert_eq!(first, 5);
    assert_eq!(counts, (1, 1, 1, 2));
    let second = scenario_run(&mut mpdb, &mut store);
    assert_eq!(second, 0);
    assert_eq!(
        (store.countries.len(), store.cities.len(), store.venues.len(), store.artists.len()),
        counts
    );
}

#[test]
fn songs_and_concerts_run_twice_keep_their_counts() {
    let mut mpdb = scenario_tree();
    let mut store = scenario_store();
    scenario_run(&mut mpdb, &mut store);
    scenario_songs_and_concerts(&mut mpdb, &mut store);
    scenario_songs_and_concerts(&mut mpdb, &mut store);
    assert_eq!(store.songtitles.len(), 1);
    assert_eq!(store.songs.len(), 1);
    assert_eq!(store.concerts.len(), 1);
}

#[test]
fn failed_early_stages_leave_later_ones_unresolved() {
    let mpdb = scenario_tree();
    assert_eq!(mpdb.populate_cities(&Vec::new()), vec![Step::Unresolved]);
    assert_eq!(mpdb.populate_venues(&Vec::new()), vec![Step::Unresolved]);
    match &mpdb.populate_concerts(&Vec::new())[0] {
        ConcertStep::Create(draft) => {
            assert!(!draft.artist_known);
            assert!(!draft.venue_known);
            assert_eq!(draft.concert.slug, "x-2023-01-01");
        }
        other => panic!("expected a creation, got {:?}", other),
    }
}
