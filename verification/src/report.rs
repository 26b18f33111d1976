//! Reports: what the outer layer prints for each operation result, and
//! whether the process ends successfully.
//!
//! Exactly one condition is recoverable: the player not running, which
//! gets a friendly line and a successful exit. Decode failures and
//! other bus faults are defects and end the process with a diagnostic.

use vstd::prelude::*;

use crate::domain::{
    CallError, DecodeError, PlayingStatus, PlayingStatusMsg, QueryError, SongType,
};
use crate::render::{
    advertisement_line, current_song_line, json_ad, json_song, json_status, not_running_line,
    now_playing_line, render_ad_json, render_advertisement, render_current_song,
    render_not_running, render_now_playing, render_song_json, render_status_human,
    render_status_json, status_label,
};

verus! {

/// What one invocation prints, and how it ends.
#[derive(Debug)]
pub enum Report {
    /// A normal output line; the process ends successfully.
    Line(String),
    /// A diagnostic for a defect; the process ends with a failure
    /// status.
    Failure(String),
}

/// The text a playback item renders to: structured when `json` is set,
/// otherwise the current-song phrasing for a pure query and the
/// now-playing phrasing after a skip or on a change notification.
pub open spec fn song_text(item: SongType, json: bool, query: bool) -> Seq<char> {
    match item {
        SongType::Ad => if json {
            json_ad()
        } else {
            advertisement_line()
        },
        SongType::Song(m) => if json {
            json_song(m)
        } else if query {
            current_song_line(m)
        } else {
            now_playing_line(m)
        },
    }
}

/// The text a status renders to: structured or the bare literal.
pub open spec fn status_text(st: PlayingStatus, json: bool) -> Seq<char> {
    if json {
        json_status(st)
    } else {
        status_label(st)
    }
}

/// The diagnostic for a decode failure.
pub open spec fn decode_error_text(e: DecodeError) -> Seq<char> {
    match e {
        DecodeError::MissingField(f) => "missing required metadata field "@ + f@,
        DecodeError::TypeMismatch => "metadata field has an unexpected type"@,
        DecodeError::UnknownStatus(s) => "unknown playback status "@ + s@,
    }
}

/// Render a playback item as [`song_text`] says.
pub fn render_item(item: &SongType, json: bool, query: bool) -> (r: String)
    ensures
        r@ == song_text(*item, json, query),
{
    match item {
        SongType::Ad => if json {
            render_ad_json()
        } else {
            render_advertisement()
        },
        SongType::Song(m) => if json {
            render_song_json(m)
        } else if query {
            render_current_song(m)
        } else {
            render_now_playing(m)
        },
    }
}

/// Render the diagnostic for a decode failure.
pub fn decode_error_line(e: &DecodeError) -> (r: String)
    ensures
        r@ == decode_error_text(*e),
{
    let mut out = String::new();
    match e {
        DecodeError::MissingField(f) => {
            out.append("missing required metadata field ");
            out.append(f.as_str());
        },
        DecodeError::TypeMismatch => {
            out.append("metadata field has an unexpected type");
        },
        DecodeError::UnknownStatus(s) => {
            out.append("unknown playback status ");
            out.append(s.as_str());
        },
    }
    proof {
        assert(out@ =~= decode_error_text(*e));
    }
    out
}

/// The report of an operation that produced a playback item: the
/// rendered item on success, the friendly line when the player is not
/// running, a diagnostic for a decode failure or any other bus fault.
pub fn report_song_query(res: Result<SongType, QueryError>, json: bool, query: bool) -> (rep:
    Report)
    ensures
        res matches Ok(item) ==> (rep matches Report::Line(t) && t@ == song_text(
            item,
            json,
            query,
        )),
        res matches Err(QueryError::PlayerNotRunning) ==> (rep matches Report::Line(t) && t@
            == not_running_line()),
        res matches Err(QueryError::Decode(e)) ==> (rep matches Report::Failure(t) && t@
            == decode_error_text(e)),
        res matches Err(QueryError::Other(d)) ==> (rep matches Report::Failure(t) && t@ == d@),
{
    match res {
        Ok(item) => Report::Line(render_item(&item, json, query)),
        Err(QueryError::PlayerNotRunning) => Report::Line(render_not_running()),
        Err(QueryError::Decode(e)) => Report::Failure(decode_error_line(&e)),
        Err(QueryError::Other(d)) => Report::Failure(d),
    }
}

/// The report of an operation that produced a playback status.
pub fn report_status_query(res: Result<PlayingStatus, QueryError>, json: bool) -> (rep: Report)
    ensures
        res matches Ok(st) ==> (rep matches Report::Line(t) && t@ == status_text(st, json)),
        res matches Err(QueryError::PlayerNotRunning) ==> (rep matches Report::Line(t) && t@
            == not_running_line()),
        res matches Err(QueryError::Decode(e)) ==> (rep matches Report::Failure(t) && t@
            == decode_error_text(e)),
        res matches Err(QueryError::Other(d)) ==> (rep matches Report::Failure(t) && t@ == d@),
{
    match res {
        Ok(st) => if json {
            Report::Line(render_status_json(&PlayingStatusMsg { status: st }))
        } else {
            Report::Line(render_status_human(st))
        },
        Err(QueryError::PlayerNotRunning) => Report::Line(render_not_running()),
        Err(QueryError::Decode(e)) => Report::Failure(decode_error_line(&e)),
        Err(QueryError::Other(d)) => Report::Failure(d),
    }
}

/// The report of a bare transport command: nothing on success, the
/// friendly line when the player is not running, a diagnostic for any
/// other bus fault.
pub fn report_transport(res: Result<(), CallError>) -> (rep: Option<Report>)
    ensures
        res matches Ok(u) ==> rep is None,
        res matches Err(CallError::PlayerNotRunning) ==> (rep matches Some(Report::Line(t)) && t@
            == not_running_line()),
        res matches Err(CallError::Other(d)) ==> (rep matches Some(Report::Failure(t)) && t@
            == d@),
{
    match res {
        Ok(_) => None,
        Err(CallError::PlayerNotRunning) => Some(Report::Line(render_not_running())),
        Err(CallError::Other(d)) => Some(Report::Failure(d)),
    }
}

/// Lift a transport-call failure into the error of the composite
/// operation it happened inside of.
pub fn query_error_of_call(e: CallError) -> (r: QueryError)
    ensures
        e matches CallError::PlayerNotRunning ==> r == QueryError::PlayerNotRunning,
        e matches CallError::Other(d) ==> r == QueryError::Other(d),
{
    match e {
        CallError::PlayerNotRunning => QueryError::PlayerNotRunning,
        CallError::Other(d) => QueryError::Other(d),
    }
}

} // verus!
