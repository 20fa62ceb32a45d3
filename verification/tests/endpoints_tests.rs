use mpdbtool::endpoints::{decimal, Collection};
use mpdbtool::mpdb::{DbId, Mpdb};

#[test]
fn decimal_writes_whole_numbers() {
    assert_eq!(decimal(0), "0");
    assert_eq!(decimal(7), "7");
    assert_eq!(decimal(10), "10");
    assert_eq!(decimal(1203), "1203");
    assert_eq!(decimal(-45), "-45");
    assert_eq!(decimal(i32::MAX), "2147483647");
    assert_eq!(decimal(i32::MIN), "-2147483648");
}

#[test]
fn decimal_agrees_with_the_standard_library() {
    for n in [-100000, -99, -10, -9, -1, 0, 1, 9, 10, 11, 99, 100, 101, 65535, 1000000] {
        assert_eq!(decimal(n), n.to_string());
    }
}

#[test]
fn collections_hang_under_api() {
    let mpdb = Mpdb::new("http://localhost:8000".to_string());
    assert_eq!(mpdb.url(Collection::Countries), "http://localhost:8000/api/countries");
    assert_eq!(mpdb.url(Collection::Cities), "http://localhost:8000/api/cities");
    assert_eq!(mpdb.url(Collection::Venues), "http://localhost:8000/api/venues");
    assert_eq!(mpdb.url(Collection::Artists), "http://localhost:8000/api/artists");
    assert_eq!(mpdb.url(Collection::Songs), "http://localhost:8000/api/songs");
    assert_eq!(mpdb.url(Collection::Songtitles), "http://localhost:8000/api/songtitles");
    assert_eq!(mpdb.url(Collection::Concerts), "http://localhost:8000/api/concerts");
    assert_eq!(mpdb.url(Collection::Sets), "http://localhost:8000/api/sets");
    assert_eq!(mpdb.url(Collection::Performances), "http://localhost:8000/api/performances");
}

#[test]
fn concert_is_updated_at_its_own_address() {
    let mpdb = Mpdb::new("http://store".to_string());
    assert_eq!(mpdb.concert_url(DbId(42)), "http://store/api/concerts/42");
    assert_eq!(mpdb.concert_url(DbId(0)), "http://store/api/concerts/0");
    assert_eq!(mpdb.concert_url(DbId(-1)), "http://store/api/concerts/-1");
}
