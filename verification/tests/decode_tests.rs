use spotify_cli::decode::{decode_playback_item, decode_status, FieldValue, RemotePropertyValue};
use spotify_cli::domain::{DecodeError, PlayingStatus, SongType};

fn text(s: &str) -> FieldValue {
    FieldValue::Text { s: s.to_owned() }
}

fn text_list(items: &[&str]) -> FieldValue {
    FieldValue::TextList { items: items.iter().map(|s| (*s).to_owned()).collect() }
}

fn payload(fields: Vec<(&str, FieldValue)>) -> RemotePropertyValue {
    RemotePropertyValue { fields: fields.into_iter().map(|(k, v)| (k.to_owned(), v)).collect() }
}

fn full_payload(artists: &[&str], album: &str, title: &str) -> RemotePropertyValue {
    payload(vec![
        ("xesam:artist", text_list(artists)),
        ("xesam:album", text(album)),
        ("xesam:title", text(title)),
    ])
}

#[test]
fn decodes_song_with_exact_fields() {
    let r = decode_playback_item(&full_payload(&["Daft Punk"], "Discovery", "One More Time"));
    match r {
        Ok(SongType::Song(m)) => {
            assert_eq!(m.artists, vec!["Daft Punk".to_owned()]);
            assert_eq!(m.album, "Discovery");
            assert_eq!(m.title, "One More Time");
        }
        other => panic!("expected a song, got {:?}", other),
    }
}

#[test]
fn decodes_song_preserving_artist_order() {
    let r = decode_playback_item(&full_payload(&["A", "B", "C"], "Album", "Title"));
    match r {
        Ok(SongType::Song(m)) => {
            assert_eq!(m.artists, vec!["A".to_owned(), "B".to_owned(), "C".to_owned()]);
        }
        other => panic!("expected a song, got {:?}", other),
    }
}

#[test]
fn lone_advertisement_artist_is_an_ad() {
    let r = decode_playback_item(&full_payload(&["Advertisement"], "x", "y"));
    assert!(matches!(r, Ok(SongType::Ad)));
}

#[test]
fn advertisement_in_any_position_is_an_ad() {
    let r = decode_playback_item(&full_payload(&["Someone", "Advertisement"], "x", "y"));
    assert!(matches!(r, Ok(SongType::Ad)));
    let r = decode_playback_item(&full_payload(&["Advertisement", "Someone"], "x", "y"));
    assert!(matches!(r, Ok(SongType::Ad)));
}

#[test]
fn missing_artist_field_is_named() {
    let r = decode_playback_item(&payload(vec![
        ("xesam:album", text("a")),
        ("xesam:title", text("t")),
    ]));
    match r {
        Err(DecodeError::MissingField(f)) => assert_eq!(f, "xesam:artist"),
        other => panic!("expected a missing-field error, got {:?}", other),
    }
}

#[test]
fn missing_album_field_is_named() {
    let r = decode_playback_item(&payload(vec![
        ("xesam:artist", text_list(&["A"])),
        ("xesam:title", text("t")),
    ]));
    match r {
        Err(DecodeError::MissingField(f)) => assert_eq!(f, "xesam:album"),
        other => panic!("expected a missing-field error, got {:?}", other),
    }
}

#[test]
fn missing_title_field_is_named() {
    let r = decode_playback_item(&payload(vec![
        ("xesam:artist", text_list(&["A"])),
        ("xesam:album", text("a")),
    ]));
    match r {
        Err(DecodeError::MissingField(f)) => assert_eq!(f, "xesam:title"),
        other => panic!("expected a missing-field error, got {:?}", other),
    }
}

#[test]
fn missing_field_beats_ad_marker() {
    let r = decode_playback_item(&payload(vec![(
        "xesam:artist",
        text_list(&["Advertisement"]),
    )]));
    match r {
        Err(DecodeError::MissingField(f)) => assert_eq!(f, "xesam:album"),
        other => panic!("expected a missing-field error, got {:?}", other),
    }
}

#[test]
fn artist_of_wrong_shape_is_a_type_mismatch() {
    let r = decode_playback_item(&payload(vec![
        ("xesam:artist", text("not a list")),
        ("xesam:album", text("a")),
        ("xesam:title", text("t")),
    ]));
    assert!(matches!(r, Err(DecodeError::TypeMismatch)));
}

#[test]
fn album_of_wrong_shape_is_a_type_mismatch() {
    let r = decode_playback_item(&payload(vec![
        ("xesam:artist", text_list(&["A"])),
        ("xesam:album", text_list(&["a"])),
        ("xesam:title", text("t")),
    ]));
    assert!(matches!(r, Err(DecodeError::TypeMismatch)));
}

#[test]
fn title_of_unreadable_shape_is_a_type_mismatch() {
    let r = decode_playback_item(&payload(vec![
        ("xesam:artist", text_list(&["A"])),
        ("xesam:album", text("a")),
        ("xesam:title", FieldValue::Other),
    ]));
    assert!(matches!(r, Err(DecodeError::TypeMismatch)));
}

#[test]
fn first_entry_under_a_key_wins() {
    let r = decode_playback_item(&payload(vec![
        ("xesam:artist", text_list(&["First"])),
        ("xesam:artist", text_list(&["Second"])),
        ("xesam:album", text("a")),
        ("xesam:title", text("t")),
    ]));
    match r {
        Ok(SongType::Song(m)) => assert_eq!(m.artists, vec!["First".to_owned()]),
        other => panic!("expected a song, got {:?}", other),
    }
}

#[test]
fn empty_payload_misses_the_artist_field() {
    let r = decode_playback_item(&payload(vec![]));
    match r {
        Err(DecodeError::MissingField(f)) => assert_eq!(f, "xesam:artist"),
        other => panic!("expected a missing-field error, got {:?}", other),
    }
}

#[test]
fn status_literals_decode_exactly() {
    assert!(matches!(decode_status("Playing".to_owned()), Ok(PlayingStatus::Playing)));
    assert!(matches!(decode_status("Paused".to_owned()), Ok(PlayingStatus::Paused)));
}

#[test]
fn unknown_status_is_surfaced_with_its_text() {
    for raw in ["Stopped", "", "playing", "PAUSED"] {
        match decode_status(raw.to_owned()) {
            Err(DecodeError::UnknownStatus(s)) => assert_eq!(s, raw),
            other => panic!("expected an unknown-status error, got {:?}", other),
        }
    }
}
