use spotify_cli::domain::{PlayingStatus, PlayingStatusMsg, SongMetadata};
use spotify_cli::render::{
    render_ad_json, render_advertisement, render_current_song, render_not_running,
    render_now_playing, render_song_json, render_status_human, render_status_json,
};

fn song(artists: &[&str], album: &str, title: &str) -> SongMetadata {
    SongMetadata {
        artists: artists.iter().map(|s| (*s).to_owned()).collect(),
        album: album.to_owned(),
        title: title.to_owned(),
    }
}

#[test]
fn song_json_record_is_exact() {
    let m = song(&["Daft Punk"], "Discovery", "One More Time");
    assert_eq!(
        render_song_json(&m),
        "{\"artists\":[\"Daft Punk\"],\"album\":\"Discovery\",\"title\":\"One More Time\"}"
    );
}

#[test]
fn song_json_lists_every_artist_in_order() {
    let m = song(&["A", "B"], "x", "y");
    assert_eq!(
        render_song_json(&m),
        "{\"artists\":[\"A\",\"B\"],\"album\":\"x\",\"title\":\"y\"}"
    );
}

#[test]
fn song_json_with_empty_artist_list() {
    let m = song(&[], "x", "y");
    assert_eq!(render_song_json(&m), "{\"artists\":[],\"album\":\"x\",\"title\":\"y\"}");
}

#[test]
fn json_escapes_quotes_and_backslashes() {
    let m = song(&["a\"b"], "c\\d", "e\nf");
    assert_eq!(
        render_song_json(&m),
        "{\"artists\":[\"a\\\"b\"],\"album\":\"c\\\\d\",\"title\":\"e\\nf\"}"
    );
}

#[test]
fn json_escapes_control_characters() {
    let m = song(&["x"], "a\u{1}b", "c\t\r\u{8}\u{c}\u{1f}d");
    assert_eq!(
        render_song_json(&m),
        "{\"artists\":[\"x\"],\"album\":\"a\\u0001b\",\"title\":\"c\\t\\r\\b\\f\\u001fd\"}"
    );
}

#[test]
fn advertisement_json_is_the_bare_tag() {
    assert_eq!(render_ad_json(), "\"Ad\"");
}

#[test]
fn status_json_records_are_exact() {
    assert_eq!(
        render_status_json(&PlayingStatusMsg { status: PlayingStatus::Playing }),
        "{\"status\":\"Playing\"}"
    );
    assert_eq!(
        render_status_json(&PlayingStatusMsg { status: PlayingStatus::Paused }),
        "{\"status\":\"Paused\"}"
    );
}

#[test]
fn human_status_is_the_bare_literal() {
    assert_eq!(render_status_human(PlayingStatus::Playing), "Playing");
    assert_eq!(render_status_human(PlayingStatus::Paused), "Paused");
}

#[test]
fn now_playing_line_joins_artists_with_commas() {
    let m = song(&["Daft Punk", "Pharrell Williams"], "Random Access Memories", "Get Lucky");
    assert_eq!(
        render_now_playing(&m),
        "Now Playing \"Get Lucky\" by Daft Punk,Pharrell Williams"
    );
}

#[test]
fn current_song_line_uses_query_phrasing() {
    let m = song(&["Daft Punk"], "Discovery", "One More Time");
    assert_eq!(render_current_song(&m), "Current song is \"One More Time\" by Daft Punk");
}

#[test]
fn fixed_lines_are_exact() {
    assert_eq!(render_advertisement(), "Advertisement");
    assert_eq!(render_not_running(), "Spotify not running");
}
