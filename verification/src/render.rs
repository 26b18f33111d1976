//! Rendering: the exact human-readable lines and JSON records the
//! controller prints.
//!
//! A song renders as `{"artists":[...],"album":"...","title":"..."}` in
//! structured mode, an advertisement as the bare tag `"Ad"`, a status
//! as `{"status":"Playing"}` or `{"status":"Paused"}`. String contents
//! are escaped as JSON requires: quote, backslash, and every control
//! character.

use vstd::prelude::*;

use crate::domain::{PlayingStatus, PlayingStatusMsg, SongMetadata};

verus! {

/// The lower-case hex digit of a nibble.
pub open spec fn spec_hex_digit(n: u8) -> char {
    if n == 0 {
        '0'
    } else if n == 1 {
        '1'
    } else if n == 2 {
        '2'
    } else if n == 3 {
        '3'
    } else if n == 4 {
        '4'
    } else if n == 5 {
        '5'
    } else if n == 6 {
        '6'
    } else if n == 7 {
        '7'
    } else if n == 8 {
        '8'
    } else if n == 9 {
        '9'
    } else if n == 10 {
        'a'
    } else if n == 11 {
        'b'
    } else if n == 12 {
        'c'
    } else if n == 13 {
        'd'
    } else if n == 14 {
        'e'
    } else {
        'f'
    }
}

/// How one character appears inside a JSON string: quote and backslash
/// get a backslash escape, the named control characters their short
/// forms, any other control character a `\u00..` escape, and everything
/// else stands for itself.
pub open spec fn escape_char(c: char) -> Seq<char> {
    if c == '"' {
        seq!['\\', '"']
    } else if c == '\\' {
        seq!['\\', '\\']
    } else if c == '\u{8}' {
        seq!['\\', 'b']
    } else if c == '\u{c}' {
        seq!['\\', 'f']
    } else if c == '\n' {
        seq!['\\', 'n']
    } else if c == '\r' {
        seq!['\\', 'r']
    } else if c == '\t' {
        seq!['\\', 't']
    } else if (c as u32) < 32 {
        seq![
            '\\',
            'u',
            '0',
            '0',
            spec_hex_digit((c as u32 / 16) as u8),
            spec_hex_digit((c as u32 % 16) as u8),
        ]
    } else {
        seq![c]
    }
}

/// A whole character sequence escaped for JSON.
pub open spec fn escape_seq(s: Seq<char>) -> Seq<char>
    decreases s.len(),
{
    if s.len() == 0 {
        Seq::empty()
    } else {
        escape_seq(s.drop_last()) + escape_char(s.last())
    }
}

/// A JSON string: the escaped contents between quotes.
pub open spec fn json_string(s: Seq<char>) -> Seq<char> {
    seq!['"'] + escape_seq(s) + seq!['"']
}

/// The comma-separated JSON strings inside a JSON array.
pub open spec fn json_list_body(items: Seq<String>) -> Seq<char>
    decreases items.len(),
{
    if items.len() == 0 {
        Seq::empty()
    } else if items.len() == 1 {
        json_string(items[0]@)
    } else {
        json_list_body(items.drop_last()) + seq![','] + json_string(items.last()@)
    }
}

/// A JSON array of strings.
pub open spec fn json_list(items: Seq<String>) -> Seq<char> {
    seq!['['] + json_list_body(items) + seq![']']
}

/// The structured record of a song:
/// `{"artists":[...],"album":"...","title":"..."}`.
pub open spec fn json_song(m: SongMetadata) -> Seq<char> {
    "{\"artists\":"@ + json_list(m.artists@) + ",\"album\":"@ + json_string(m.album@)
        + ",\"title\":"@ + json_string(m.title@) + "}"@
}

/// The structured record of an advertisement: the bare tag `"Ad"`.
pub open spec fn json_ad() -> Seq<char> {
    json_string("Ad"@)
}

/// The status literal itself: `Playing` or `Paused`.
pub open spec fn status_label(st: PlayingStatus) -> Seq<char> {
    match st {
        PlayingStatus::Playing => "Playing"@,
        PlayingStatus::Paused => "Paused"@,
    }
}

/// The structured record of a status: `{"status":"Playing"}` or
/// `{"status":"Paused"}`.
pub open spec fn json_status(st: PlayingStatus) -> Seq<char> {
    "{\"status\":\""@ + status_label(st) + "\"}"@
}

/// The items joined with single commas, for the human-readable lines.
pub open spec fn comma_join(items: Seq<String>) -> Seq<char>
    decreases items.len(),
{
    if items.len() == 0 {
        Seq::empty()
    } else if items.len() == 1 {
        items[0]@
    } else {
        comma_join(items.drop_last()) + seq![','] + items.last()@
    }
}

/// The human-readable line for a song that just started playing.
pub open spec fn now_playing_line(m: SongMetadata) -> Seq<char> {
    "Now Playing \""@ + m.title@ + "\" by "@ + comma_join(m.artists@)
}

/// The human-readable line for the song currently playing.
pub open spec fn current_song_line(m: SongMetadata) -> Seq<char> {
    "Current song is \""@ + m.title@ + "\" by "@ + comma_join(m.artists@)
}

/// The human-readable line for an advertisement.
pub open spec fn advertisement_line() -> Seq<char> {
    "Advertisement"@
}

/// The friendly line shown when the player is not running.
pub open spec fn not_running_line() -> Seq<char> {
    "Spotify not running"@
}

/// Relies on std's `String::push`: appends exactly the one character.
#[verifier::external_body]
fn push_char(s: &mut String, c: char)
    ensures
        final(s)@ == old(s)@.push(c),
{
    s.push(c);
}

/// The lower-case hex digit of a nibble.
fn hex_digit_char(n: u8) -> (c: char)
    requires
        n < 16,
    ensures
        c == spec_hex_digit(n),
{
    match n {
        0 => '0',
        1 => '1',
        2 => '2',
        3 => '3',
        4 => '4',
        5 => '5',
        6 => '6',
        7 => '7',
        8 => '8',
        9 => '9',
        10 => 'a',
        11 => 'b',
        12 => 'c',
        13 => 'd',
        14 => 'e',
        _ => 'f',
    }
}

/// Append `s` to `out`, escaped for the inside of a JSON string.
fn append_escaped(out: &mut String, s: &str)
    ensures
        final(out)@ == old(out)@ + escape_seq(s@),
{
    proof {
        reveal_strlit("\\\"");
        reveal_strlit("\\\\");
        reveal_strlit("\\b");
        reveal_strlit("\\f");
        reveal_strlit("\\n");
        reveal_strlit("\\r");
        reveal_strlit("\\t");
        reveal_strlit("\\u00");
    }
    let ghost out0 = out@;
    let n = s.unicode_len();
    let mut i: usize = 0;
    while i < n
        invariant
            n == s@.len(),
            0 <= i <= n,
            out@ == out0 + escape_seq(s@.take(i as int)),
        decreases n - i,
    {
        let ghost before = out@;
        let c = s.get_char(i);
        if c == '"' {
            out.append("\\\"");
        } else if c == '\\' {
            out.append("\\\\");
        } else if c == '\u{8}' {
            out.append("\\b");
        } else if c == '\u{c}' {
            out.append("\\f");
        } else if c == '\n' {
            out.append("\\n");
        } else if c == '\r' {
            out.append("\\r");
        } else if c == '\t' {
            out.append("\\t");
        } else if (c as u32) < 32 {
            out.append("\\u00");
            push_char(out, hex_digit_char(((c as u32) / 16) as u8));
            push_char(out, hex_digit_char(((c as u32) % 16) as u8));
        } else {
            push_char(out, c);
        }
        proof {
            reveal_strlit("\\\"");
            reveal_strlit("\\\\");
            reveal_strlit("\\b");
            reveal_strlit("\\f");
            reveal_strlit("\\n");
            reveal_strlit("\\r");
            reveal_strlit("\\t");
            reveal_strlit("\\u00");
            assert(out@ =~= before + escape_char(s@[i as int]));
            assert(s@.take(i as int + 1).drop_last() =~= s@.take(i as int));
            assert(s@.take(i as int + 1).last() == s@[i as int]);
            assert(out@ =~= out0 + escape_seq(s@.take(i as int + 1)));
        }
        i = i + 1;
    }
    proof {
        assert(s@.take(n as int) =~= s@);
    }
}

/// Append `s` as a complete JSON string, quotes included.
fn append_json_string(out: &mut String, s: &str)
    ensures
        final(out)@ == old(out)@ + json_string(s@),
{
    proof {
        reveal_strlit("\"");
    }
    let ghost out0 = out@;
    out.append("\"");
    append_escaped(out, s);
    out.append("\"");
    proof {
        assert(out@ =~= out0 + json_string(s@));
    }
}

/// Append the items as a JSON array of strings.
fn append_json_list(out: &mut String, items: &Vec<String>)
    ensures
        final(out)@ == old(out)@ + json_list(items@),
{
    proof {
        reveal_strlit("[");
        reveal_strlit("]");
        reveal_strlit(",");
    }
    let ghost out0 = out@;
    out.append("[");
    let mut i: usize = 0;
    while i < items.len()
        invariant
            0 <= i <= items@.len(),
            out@ == out0 + seq!['['] + json_list_body(items@.take(i as int)),
        decreases items@.len() - i,
    {
        let ghost before = out@;
        if i > 0 {
            out.append(",");
        }
        append_json_string(out, items[i].as_str());
        proof {
            reveal_strlit(",");
            assert(items@.take(i as int + 1).drop_last() =~= items@.take(i as int));
            assert(items@.take(i as int + 1).last() == items@[i as int]);
            assert(out@ =~= out0 + seq!['['] + json_list_body(items@.take(i as int + 1)));
        }
        i = i + 1;
    }
    out.append("]");
    proof {
        assert(items@.take(items@.len() as int) =~= items@);
        assert(out@ =~= out0 + json_list(items@));
    }
}

/// The structured record of a song, exactly
/// `{"artists":[...],"album":"...","title":"..."}`.
pub fn render_song_json(m: &SongMetadata) -> (r: String)
    ensures
        r@ == json_song(*m),
{
    let mut out = String::new();
    out.append("{\"artists\":");
    append_json_list(&mut out, &m.artists);
    out.append(",\"album\":");
    append_json_string(&mut out, m.album.as_str());
    out.append(",\"title\":");
    append_json_string(&mut out, m.title.as_str());
    out.append("}");
    proof {
        assert(out@ =~= json_song(*m));
    }
    out
}

/// The structured record of an advertisement, exactly `"Ad"`.
pub fn render_ad_json() -> (r: String)
    ensures
        r@ == json_ad(),
{
    let mut out = String::new();
    append_json_string(&mut out, "Ad");
    proof {
        assert(out@ =~= json_ad());
    }
    out
}

/// The status literal, exactly `Playing` or `Paused`.
pub fn render_status_human(st: PlayingStatus) -> (r: String)
    ensures
        r@ == status_label(st),
{
    match st {
        PlayingStatus::Playing => "Playing".to_owned(),
        PlayingStatus::Paused => "Paused".to_owned(),
    }
}

/// The structured record of a status, exactly `{"status":"Playing"}`
/// or `{"status":"Paused"}`.
pub fn render_status_json(msg: &PlayingStatusMsg) -> (r: String)
    ensures
        r@ == json_status(msg.status),
{
    let st = msg.status;
    let mut out = String::new();
    out.append("{\"status\":\"");
    match st {
        PlayingStatus::Playing => out.append("Playing"),
        PlayingStatus::Paused => out.append("Paused"),
    }
    out.append("\"}");
    proof {
        assert(out@ =~= json_status(msg.status));
    }
    out
}

/// The human-readable line for a song that just started playing:
/// its title in quotes, then the artists joined with commas.
pub fn render_now_playing(m: &SongMetadata) -> (r: String)
    ensures
        r@ == now_playing_line(*m),
{
    let mut out = String::new();
    out.append("Now Playing \"");
    out.append(m.title.as_str());
    out.append("\" by ");
    append_comma_join(&mut out, &m.artists);
    proof {
        assert(out@ =~= now_playing_line(*m));
    }
    out
}

/// The human-readable line for the song currently playing.
pub fn render_current_song(m: &SongMetadata) -> (r: String)
    ensures
        r@ == current_song_line(*m),
{
    let mut out = String::new();
    out.append("Current song is \"");
    out.append(m.title.as_str());
    out.append("\" by ");
    append_comma_join(&mut out, &m.artists);
    proof {
        assert(out@ =~= current_song_line(*m));
    }
    out
}

/// Append the items joined with single commas.
fn append_comma_join(out: &mut String, items: &Vec<String>)
    ensures
        final(out)@ == old(out)@ + comma_join(items@),
{
    proof {
        reveal_strlit(",");
    }
    let ghost out0 = out@;
    let mut i: usize = 0;
    while i < items.len()
        invariant
            0 <= i <= items@.len(),
            out@ == out0 + comma_join(items@.take(i as int)),
        decreases items@.len() - i,
    {
        if i > 0 {
            out.append(",");
        }
        out.append(items[i].as_str());
        proof {
            reveal_strlit(",");
            assert(items@.take(i as int + 1).drop_last() =~= items@.take(i as int));
            assert(items@.take(i as int + 1).last() == items@[i as int]);
            assert(out@ =~= out0 + comma_join(items@.take(i as int + 1)));
        }
        i = i + 1;
    }
    proof {
        assert(items@.take(items@.len() as int) =~= items@);
    }
}

/// The human-readable line for an advertisement.
pub fn render_advertisement() -> (r: String)
    ensures
        r@ == advertisement_line(),
{
    "Advertisement".to_owned()
}

/// The friendly line shown when the player is not running.
pub fn render_not_running() -> (r: String)
    ensures
        r@ == not_running_line(),
{
    "Spotify not running".to_owned()
}

} // verus!
