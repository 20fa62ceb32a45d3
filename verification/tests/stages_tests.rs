use mpdbtool::extract::{CityKey, CountryKey, VenueKey};
use mpdbtool::mpdb::{Artist, City, Country, DbId, Mpdb, Venue};
use mpdbtool::plan::{count_creations, NewArtist, NewCity, NewCountry, NewVenue, Step};
use mpdbtool::setlists::{self, Setlist, Sets, Song, SongSet};
use mpdbtool::stages::{artist_step, country_step, holds_venue, seed_artist, venue_slug};

fn stages_setlist(artist: &str, venue: &str, city: &str, country: &str, covers: Vec<&str>) -> Setlist {
    let songs: Vec<Song> = covers
        .iter()
        .map(|cover| Song {
            name: "A Song".to_string(),
            segue: None,
            original_artist: Some(setlists::Artist {
                name: cover.to_string(),
                sort_name: None,
                mbid: None,
            }),
            notes: None,
        })
        .collect();
    Setlist {
        status: "complete".to_string(),
        event_date: "01-01-2023".to_string(),
        disambiguation: None,
        sort_order: None,
        source: None,
        artist: setlists::Artist { name: artist.to_string(), sort_name: None, mbid: None },
        venue: setlists::Venue {
            name: venue.to_string(),
            city: setlists::City {
                name: city.to_string(),
                country: setlists::Country { name: country.to_string(), code: None },
            },
        },
        tour: None,
        notes: None,
        sets: Sets { set: vec![SongSet { name: None, encore: None, songs: Some(songs) }] },
    }
}

fn stages_tree() -> Mpdb {
    let mut mpdb = Mpdb::new(String::new());
    mpdb.master.data = vec![
        stages_setlist("Motorpsycho", "Rockefeller Music Hall", "Oslo", "Norway", vec![]),
        stages_setlist("Spidergawd", "Paradiso", "Amsterdam", "The Netherlands", vec!["MC5"]),
        stages_setlist("Motorpsycho", "Rockefeller Music Hall", "Oslo", "Norway", vec!["MC5"]),
    ];
    mpdb
}

#[test]
fn seed_artist_is_motorpsycho() {
    assert_eq!(seed_artist(), "Motorpsycho");
}

#[test]
fn venue_slug_joins_three_slugs() {
    assert_eq!(
        venue_slug(&"Rockefeller Music Hall".to_string(), &"Oslo".to_string(), &"Norway".to_string()),
        "rockefeller-music-hall-oslo-norway"
    );
    assert_eq!(venue_slug(&"V".to_string(), &"C".to_string(), &"Y".to_string()), "v-c-y");
    assert_eq!(venue_slug(&"!".to_string(), &"C".to_string(), &"".to_string()), "-c-");
}

#[test]
fn country_is_created_with_name_slug_and_code() {
    let key = CountryKey { name: "The Netherlands".to_string(), code: Some("NL".to_string()) };
    assert_eq!(
        country_step(&Vec::new(), &key),
        Step::Create(NewCountry {
            name: "The Netherlands".to_string(),
            slug: "the-netherlands".to_string(),
            code: Some("NL".to_string()),
        })
    );
}

#[test]
fn country_is_skipped_by_exact_name_only() {
    let held = vec![Country { id: DbId(1), name: "Norway".to_string(), code: None }];
    let same = CountryKey { name: "Norway".to_string(), code: Some("NO".to_string()) };
    let other_case = CountryKey { name: "norway".to_string(), code: None };
    assert_eq!(country_step(&held, &same), Step::Skip);
    assert!(matches!(country_step(&held, &other_case), Step::Create(_)));
}

#[test]
fn populate_countries_decides_on_each_candidate_in_order() {
    let mpdb = stages_tree();
    let held = vec![Country { id: DbId(5), name: "Norway".to_string(), code: None }];
    let plan = mpdb.populate_countries(&held);
    assert_eq!(
        plan,
        vec![
            Step::Skip,
            Step::Create(NewCountry {
                name: "The Netherlands".to_string(),
                slug: "the-netherlands".to_string(),
                code: None,
            }),
        ]
    );
    assert_eq!(count_creations(&plan), 1);
}

#[test]
fn city_without_its_country_is_unresolved() {
    let mpdb = stages_tree();
    let plan = mpdb.populate_cities(&Vec::new());
    assert_eq!(plan, vec![Step::Unresolved, Step::Unresolved]);
    assert_eq!(count_creations(&plan), 0);
}

#[test]
fn city_is_created_under_its_country() {
    let mut mpdb = stages_tree();
    mpdb.countries = vec![
        Country { id: DbId(1), name: "Norway".to_string(), code: None },
        Country { id: DbId(2), name: "The Netherlands".to_string(), code: None },
    ];
    let held = vec![City { id: DbId(9), name: "Oslo".to_string(), country_id: DbId(1) }];
    assert_eq!(
        mpdb.populate_cities(&held),
        vec![
            Step::Skip,
            Step::Create(NewCity {
                name: "Amsterdam".to_string(),
                country_id: DbId(2),
                slug: "amsterdam-the-netherlands".to_string(),
            }),
        ]
    );
}

#[test]
fn city_of_the_same_name_in_another_country_is_new() {
    let mut mpdb = stages_tree();
    mpdb.countries = vec![Country { id: DbId(1), name: "Norway".to_string(), code: None }];
    let held = vec![City { id: DbId(9), name: "Oslo".to_string(), country_id: DbId(7) }];
    let key = CityKey { name: "Oslo".to_string(), country: "Norway".to_string() };
    assert_eq!(
        mpdb.city_step(&held, &key),
        Step::Create(NewCity {
            name: "Oslo".to_string(),
            country_id: DbId(1),
            slug: "oslo-norway".to_string(),
        })
    );
}

#[test]
fn venue_is_created_under_its_city() {
    let mut mpdb = stages_tree();
    mpdb.countries = vec![Country { id: DbId(1), name: "Norway".to_string(), code: None }];
    mpdb.cities = vec![City { id: DbId(9), name: "Oslo".to_string(), country_id: DbId(1) }];
    assert_eq!(
        mpdb.populate_venues(&Vec::new()),
        vec![
            Step::Create(NewVenue {
                name: "Rockefeller Music Hall".to_string(),
                city_id: DbId(9),
                unique_name: "rockefeller-music-hall-oslo".to_string(),
                slug: "rockefeller-music-hall-oslo-norway".to_string(),
            }),
            Step::Unresolved,
        ]
    );
}

#[test]
fn venue_is_skipped_by_name_and_city() {
    let mut mpdb = stages_tree();
    mpdb.countries = vec![Country { id: DbId(1), name: "Norway".to_string(), code: None }];
    mpdb.cities = vec![City { id: DbId(9), name: "Oslo".to_string(), country_id: DbId(1) }];
    let held = vec![Venue {
        id: DbId(3),
        name: "Rockefeller Music Hall".to_string(),
        slug: "anything".to_string(),
        city_id: DbId(9),
    }];
    let key = VenueKey {
        name: "Rockefeller Music Hall".to_string(),
        city: "Oslo".to_string(),
        country: "Norway".to_string(),
    };
    assert_eq!(mpdb.venue_step(&held, &key), Step::Skip);
    assert!(holds_venue(&held, &"Rockefeller Music Hall".to_string(), DbId(9)));
    assert!(!holds_venue(&held, &"Rockefeller Music Hall".to_string(), DbId(8)));
    assert!(!holds_venue(&held, &"Rockefeller".to_string(), DbId(9)));
}

#[test]
fn seed_artist_is_created_where_the_store_lacks_it() {
    assert_eq!(
        Mpdb::seed_artist_step(&Vec::new()),
        Step::Create(NewArtist { name: "Motorpsycho".to_string(), slug: "motorpsycho".to_string() })
    );
    let held = vec![Artist { id: DbId(1), name: "Motorpsycho".to_string() }];
    assert_eq!(Mpdb::seed_artist_step(&held), Step::Skip);
}

#[test]
fn artists_are_created_unless_held() {
    let mpdb = stages_tree();
    let held = vec![Artist { id: DbId(1), name: "Motorpsycho".to_string() }];
    assert_eq!(
        mpdb.populate_artists(&held),
        vec![
            Step::Skip,
            Step::Create(NewArtist { name: "Spidergawd".to_string(), slug: "spidergawd".to_string() }),
            Step::Create(NewArtist { name: "MC5".to_string(), slug: "mc5".to_string() }),
        ]
    );
    assert_eq!(artist_step(&held, &"Motorpsycho".to_string()), Step::Skip);
}

#[test]
fn count_creations_counts_only_creations() {
    let plan: Vec<Step<NewArtist>> = vec![
        Step::Skip,
        Step::Create(NewArtist { name: "a".to_string(), slug: "a".to_string() }),
        Step::Unresolved,
        Step::Create(NewArtist { name: "b".to_string(), slug: "b".to_string() }),
    ];
    assert_eq!(count_creations(&plan), 2);
    assert_eq!(count_creations(&Vec::<Step<NewArtist>>::new()), 0);
}
