use mpdbtool::slug::{collapse, hyphenate, trim, Slug};
use mpdbtool::text::{chars_of, joined, text_of};

#[test]
fn slug_collapses_separators_and_strips_punctuation() {
    assert_eq!("A  B--C!".to_string().slug(), "a-b-c");
}

#[test]
fn slug_is_idempotent_on_samples() {
    let samples = vec![
        "A  B--C!",
        "",
        "---",
        "Motorpsycho",
        "  The Tussler -- Original Motion Picture Soundtrack  ",
        "Tromsø, Norway",
        "a-----b",
        "K9 (live)",
        "İstanbul",
        "ΟΔΟΣ",
    ];
    for sample in samples {
        let once = sample.to_string().slug();
        assert_eq!(once.slug(), once);
    }
}

#[test]
fn slug_of_empty_text_is_empty() {
    assert_eq!(String::new().slug(), "");
}

#[test]
fn slug_of_separators_only_is_empty() {
    assert_eq!("--- !! ".to_string().slug(), "");
}

#[test]
fn slug_collapses_long_runs_of_hyphens() {
    assert_eq!("a-----b".to_string().slug(), "a-b");
    assert_eq!("a----b".to_string().slug(), "a-b");
    assert_eq!("a ! - ? b".to_string().slug(), "a-b");
}

#[test]
fn slug_trims_both_ends() {
    assert_eq!("--Hello World--".to_string().slug(), "hello-world");
    assert_eq!("  padded  ".to_string().slug(), "padded");
}

#[test]
fn slug_lowercases() {
    assert_eq!("Motorpsycho".to_string().slug(), "motorpsycho");
    assert_eq!("ÅRHUS".to_string().slug(), "århus");
}

#[test]
fn slug_keeps_letters_beyond_ascii_and_digits() {
    assert_eq!("Tromsø".to_string().slug(), "tromsø");
    assert_eq!("Blå 2019".to_string().slug(), "blå-2019");
}

#[test]
fn slug_keeps_the_order_of_alphanumeric_runs() {
    assert_eq!("one, two; three".to_string().slug(), "one-two-three");
}

#[test]
fn chars_and_text_round_trip() {
    let chars = chars_of("søng-1");
    assert_eq!(chars, vec!['s', 'ø', 'n', 'g', '-', '1']);
    assert_eq!(text_of(&chars), "søng-1");
    assert_eq!(text_of(&Vec::new()), "");
}

#[test]
fn joined_puts_one_hyphen_between() {
    assert_eq!(joined(&"a".to_string(), &"b".to_string()), "a-b");
    assert_eq!(joined(&String::new(), &String::new()), "-");
}

#[test]
fn hyphenate_replaces_what_is_not_alphanumeric() {
    assert_eq!(hyphenate(&chars_of("a b!c_d-é9")), chars_of("a-b-c-d-é9"));
    assert_eq!(hyphenate(&Vec::new()), Vec::<char>::new());
}

#[test]
fn collapse_keeps_one_hyphen_of_each_run() {
    assert_eq!(collapse(&chars_of("a--b")), chars_of("a-b"));
    assert_eq!(collapse(&chars_of("-----")), chars_of("-"));
    assert_eq!(collapse(&chars_of("--a-b---c--")), chars_of("-a-b-c-"));
    assert_eq!(collapse(&chars_of("abc")), chars_of("abc"));
}

#[test]
fn trim_takes_hyphens_from_both_ends_only() {
    assert_eq!(trim(&chars_of("--a--b--")), chars_of("a--b"));
    assert_eq!(trim(&chars_of("---")), Vec::<char>::new());
    assert_eq!(trim(&chars_of("a")), chars_of("a"));
    assert_eq!(trim(&Vec::new()), Vec::<char>::new());
}

#[test]
fn slug_is_idempotent_on_every_character_of_the_basic_plane() {
    for code in 0u32..0x1_0000 {
        if let Some(c) = char::from_u32(code) {
            let mut text = String::from("x");
            text.push(c);
            text.push('y');
            text.push(c);
            let once = text.slug();
            assert_eq!(once.slug(), once, "character {:?}", c);
        }
    }
}
