use mpdbtool::date::EventDate;
use mpdbtool::lookup::{find_city, find_country, find_title};
use mpdbtool::mpdb::{Artist, City, Concert, Country, DbId, Mpdb, Songtitle, Venue};

fn lookup_tables() -> Mpdb {
    let mut mpdb = Mpdb::new(String::new());
    mpdb.countries = vec![
        Country { id: DbId(1), name: "Norway".to_string(), code: Some("NO".to_string()) },
        Country { id: DbId(2), name: "Sweden".to_string(), code: None },
        Country { id: DbId(3), name: "Norway".to_string(), code: None },
    ];
    mpdb.cities = vec![
        City { id: DbId(10), name: "Oslo".to_string(), country_id: DbId(2) },
        City { id: DbId(11), name: "Oslo".to_string(), country_id: DbId(1) },
        City { id: DbId(12), name: "Malmö".to_string(), country_id: DbId(2) },
        City { id: DbId(13), name: "Oslo".to_string(), country_id: DbId(1) },
    ];
    mpdb.venues = vec![
        Venue { id: DbId(20), name: "Rockefeller".to_string(), slug: "rockefeller-oslo-norway".to_string(), city_id: DbId(11) },
        Venue { id: DbId(21), name: "KB".to_string(), slug: "kb-malmö-sweden".to_string(), city_id: DbId(12) },
    ];
    mpdb.artists = vec![
        Artist { id: DbId(30), name: "Motorpsycho".to_string() },
        Artist { id: DbId(31), name: "Spidergawd".to_string() },
    ];
    mpdb.songtitles = vec![
        Songtitle { id: DbId(40), title: "Vortex Surfer".to_string(), is_default: true, song_id: DbId(50) },
        Songtitle { id: DbId(41), title: "The Wheel".to_string(), is_default: true, song_id: DbId(51) },
        Songtitle { id: DbId(42), title: "the   wheel!".to_string(), is_default: false, song_id: DbId(52) },
    ];
    mpdb.concerts = vec![Concert {
        id: DbId(60),
        artist_id: DbId(30),
        date: EventDate { year: 2023, month: 1, day: 1 },
        disambiguation: None,
        sort_order: None,
        source: None,
        slug: "motorpsycho-2023-01-01".to_string(),
        venue_id: DbId(20),
    }];
    mpdb
}

#[test]
fn country_is_the_first_of_its_name() {
    let mpdb = lookup_tables();
    assert_eq!(mpdb.get_country_id(&"Norway".to_string()), Some(DbId(1)));
    assert_eq!(mpdb.get_country_id(&"Sweden".to_string()), Some(DbId(2)));
    assert_eq!(mpdb.get_country_id(&"norway".to_string()), None);
    assert_eq!(mpdb.get_country_id(&"Denmark".to_string()), None);
    assert_eq!(find_country(&Vec::new(), &"Norway".to_string()), None);
}

#[test]
fn city_is_found_under_its_country() {
    let mpdb = lookup_tables();
    assert_eq!(mpdb.get_city_id(&"Oslo".to_string(), &"Norway".to_string()), Some(DbId(11)));
    assert_eq!(mpdb.get_city_id(&"Oslo".to_string(), &"Sweden".to_string()), Some(DbId(10)));
    assert_eq!(mpdb.get_city_id(&"Malmö".to_string(), &"Norway".to_string()), None);
    assert_eq!(find_city(&mpdb.cities, &"Oslo".to_string(), DbId(3)), None);
}

#[test]
fn city_of_an_unknown_country_is_not_found() {
    let mpdb = lookup_tables();
    assert_eq!(mpdb.get_city_id(&"Oslo".to_string(), &"Denmark".to_string()), None);
}

#[test]
fn venue_is_found_by_slug() {
    let mpdb = lookup_tables();
    assert_eq!(mpdb.get_venue_id(&"rockefeller-oslo-norway".to_string()), Some(DbId(20)));
    assert_eq!(mpdb.get_venue_id(&"Rockefeller".to_string()), None);
}

#[test]
fn artist_is_found_by_name_and_missing_artist_is_none() {
    let mpdb = lookup_tables();
    assert_eq!(mpdb.get_artist_id(&"Spidergawd".to_string()), Some(DbId(31)));
    assert_eq!(mpdb.get_artist_id(&"Nobody".to_string()), None);
}

#[test]
fn concert_is_found_by_slug() {
    let mpdb = lookup_tables();
    assert_eq!(mpdb.get_concert_id(&"motorpsycho-2023-01-01".to_string()), Some(DbId(60)));
    assert_eq!(mpdb.get_concert_id(&"motorpsycho-2023-01-02".to_string()), None);
}

#[test]
fn song_and_title_are_found_by_the_slug_of_the_title() {
    let mpdb = lookup_tables();
    assert_eq!(mpdb.get_song_id(&"THE WHEEL".to_string()), Some(DbId(51)));
    assert_eq!(mpdb.get_songtitle_id(&"THE WHEEL".to_string()), Some(DbId(41)));
    assert_eq!(mpdb.get_song_id(&"vortex-surfer".to_string()), Some(DbId(50)));
    assert_eq!(mpdb.get_songtitle_id(&"Vortex  Surfer?".to_string()), Some(DbId(40)));
    assert_eq!(mpdb.get_song_id(&"Unknown".to_string()), None);
    assert_eq!(mpdb.get_songtitle_id(&"Unknown".to_string()), None);
    assert_eq!(find_title(&mpdb.songtitles, &"The Wheel".to_string()), Some(1));
}
