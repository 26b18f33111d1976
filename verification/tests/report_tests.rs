use spotify_cli::domain::{
    CallError, DecodeError, PlayingStatus, QueryError, SongMetadata, SongType,
};
use spotify_cli::report::{
    report_song_query, report_status_query, report_transport, query_error_of_call, Report,
};

fn one_song() -> SongType {
    SongType::Song(SongMetadata {
        artists: vec!["Daft Punk".to_owned()],
        album: "Discovery".to_owned(),
        title: "One More Time".to_owned(),
    })
}

#[test]
fn song_query_while_player_not_running_is_a_friendly_line() {
    let rep = report_song_query(Err(QueryError::PlayerNotRunning), false, true);
    match rep {
        Report::Line(t) => assert_eq!(t, "Spotify not running"),
        other => panic!("expected a friendly line, got {:?}", other),
    }
}

#[test]
fn song_query_json_renders_the_record() {
    let rep = report_song_query(Ok(one_song()), true, true);
    match rep {
        Report::Line(t) => assert_eq!(
            t,
            "{\"artists\":[\"Daft Punk\"],\"album\":\"Discovery\",\"title\":\"One More Time\"}"
        ),
        other => panic!("expected an output line, got {:?}", other),
    }
}

#[test]
fn song_query_human_uses_current_song_phrasing() {
    let rep = report_song_query(Ok(one_song()), false, true);
    match rep {
        Report::Line(t) => assert_eq!(t, "Current song is \"One More Time\" by Daft Punk"),
        other => panic!("expected an output line, got {:?}", other),
    }
}

#[test]
fn skip_result_human_uses_now_playing_phrasing() {
    let rep = report_song_query(Ok(one_song()), false, false);
    match rep {
        Report::Line(t) => assert_eq!(t, "Now Playing \"One More Time\" by Daft Punk"),
        other => panic!("expected an output line, got {:?}", other),
    }
}

#[test]
fn advertisement_reports_as_its_line_and_tag() {
    match report_song_query(Ok(SongType::Ad), false, true) {
        Report::Line(t) => assert_eq!(t, "Advertisement"),
        other => panic!("expected an output line, got {:?}", other),
    }
    match report_song_query(Ok(SongType::Ad), true, true) {
        Report::Line(t) => assert_eq!(t, "\"Ad\""),
        other => panic!("expected an output line, got {:?}", other),
    }
}

#[test]
fn decode_failure_is_a_fatal_diagnostic() {
    let rep = report_song_query(
        Err(QueryError::Decode(DecodeError::MissingField("xesam:title".to_owned()))),
        false,
        true,
    );
    match rep {
        Report::Failure(t) => assert_eq!(t, "missing required metadata field xesam:title"),
        other => panic!("expected a failure, got {:?}", other),
    }
}

#[test]
fn other_bus_fault_passes_its_detail_through() {
    let rep = report_song_query(Err(QueryError::Other("broken pipe".to_owned())), false, true);
    match rep {
        Report::Failure(t) => assert_eq!(t, "broken pipe"),
        other => panic!("expected a failure, got {:?}", other),
    }
}

#[test]
fn paused_status_reports_exactly_paused() {
    let rep = report_status_query(Ok(PlayingStatus::Paused), false);
    match rep {
        Report::Line(t) => assert_eq!(t, "Paused"),
        other => panic!("expected an output line, got {:?}", other),
    }
}

#[test]
fn status_query_json_renders_the_record() {
    let rep = report_status_query(Ok(PlayingStatus::Playing), true);
    match rep {
        Report::Line(t) => assert_eq!(t, "{\"status\":\"Playing\"}"),
        other => panic!("expected an output line, got {:?}", other),
    }
}

#[test]
fn unknown_status_is_a_fatal_diagnostic() {
    let rep = report_status_query(
        Err(QueryError::Decode(DecodeError::UnknownStatus("Stopped".to_owned()))),
        false,
    );
    match rep {
        Report::Failure(t) => assert_eq!(t, "unknown playback status Stopped"),
        other => panic!("expected a failure, got {:?}", other),
    }
}

#[test]
fn successful_transport_command_prints_nothing() {
    assert!(report_transport(Ok(())).is_none());
}

#[test]
fn transport_while_player_not_running_is_a_friendly_line() {
    match report_transport(Err(CallError::PlayerNotRunning)) {
        Some(Report::Line(t)) => assert_eq!(t, "Spotify not running"),
        other => panic!("expected a friendly line, got {:?}", other),
    }
}

#[test]
fn transport_bus_fault_is_fatal() {
    match report_transport(Err(CallError::Other("disconnected".to_owned()))) {
        Some(Report::Failure(t)) => assert_eq!(t, "disconnected"),
        other => panic!("expected a failure, got {:?}", other),
    }
}

#[test]
fn call_errors_lift_into_query_errors() {
    assert!(matches!(
        query_error_of_call(CallError::PlayerNotRunning),
        QueryError::PlayerNotRunning
    ));
    match query_error_of_call(CallError::Other("detail".to_owned())) {
        QueryError::Other(d) => assert_eq!(d, "detail"),
        other => panic!("expected the detail to pass through, got {:?}", other),
    }
}
