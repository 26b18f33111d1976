//! Domain decoder: translates loosely typed bus property payloads into
//! the strongly typed domain model.
//!
//! A metadata payload arrives as a string-keyed mapping whose values are
//! themselves typed (string, array of strings, or something else the
//! decoder does not read). Decoding is all-or-nothing: every required
//! field is checked for presence and shape before any value is built.

use vstd::prelude::*;

use crate::domain::{DecodeError, PlayingStatus, SongMetadata, SongType};

verus! {

/// One value of a structured property payload, as far as the decoder
/// reads it: a string, an array of strings, or some other shape.
#[derive(Debug)]
pub enum FieldValue {
    Text { s: String },
    TextList { items: Vec<String> },
    Other,
}

/// A raw structured property value received from the bus: a string-keyed
/// mapping, held as a sequence of entries.
#[derive(Debug)]
pub struct RemotePropertyValue {
    pub fields: Vec<(String, FieldValue)>,
}

/// The value under `key` in `fs`, searching from index `i`; the first
/// matching entry wins.
pub open spec fn spec_lookup_from(
    fs: Seq<(String, FieldValue)>,
    key: Seq<char>,
    i: int,
) -> Option<FieldValue>
    decreases fs.len() - i,
{
    if i < 0 || i >= fs.len() {
        None
    } else if fs[i].0@ == key {
        Some(fs[i].1)
    } else {
        spec_lookup_from(fs, key, i + 1)
    }
}

/// The value under `key` in `fs`, if any.
pub open spec fn spec_lookup(fs: Seq<(String, FieldValue)>, key: Seq<char>) -> Option<FieldValue> {
    spec_lookup_from(fs, key, 0)
}

/// The payload's entry under the protocol's artist-list key.
pub open spec fn artist_field(fs: Seq<(String, FieldValue)>) -> Option<FieldValue> {
    spec_lookup(fs, "xesam:artist"@)
}

/// The payload's entry under the protocol's album key.
pub open spec fn album_field(fs: Seq<(String, FieldValue)>) -> Option<FieldValue> {
    spec_lookup(fs, "xesam:album"@)
}

/// The payload's entry under the protocol's title key.
pub open spec fn title_field(fs: Seq<(String, FieldValue)>) -> Option<FieldValue> {
    spec_lookup(fs, "xesam:title"@)
}

/// All three required fields are present and of the expected shape.
pub open spec fn fields_ok(fs: Seq<(String, FieldValue)>) -> bool {
    &&& artist_field(fs) matches Some(FieldValue::TextList { items: _ })
    &&& album_field(fs) matches Some(FieldValue::Text { s: _ })
    &&& title_field(fs) matches Some(FieldValue::Text { s: _ })
}

/// The artist list of a payload whose fields are all present and typed.
pub open spec fn spec_artists(fs: Seq<(String, FieldValue)>) -> Seq<String> {
    artist_field(fs)->Some_0->items@
}

/// The album of a payload whose fields are all present and typed.
pub open spec fn spec_album(fs: Seq<(String, FieldValue)>) -> Seq<char> {
    album_field(fs)->Some_0->s@
}

/// The title of a payload whose fields are all present and typed.
pub open spec fn spec_title(fs: Seq<(String, FieldValue)>) -> Seq<char> {
    title_field(fs)->Some_0->s@
}

/// The player's ad-marking convention: an entry of the artist list is
/// the literal string `Advertisement`.
pub open spec fn has_advertisement(artists: Seq<String>) -> bool {
    exists|i: int| 0 <= i < artists.len() && artists[i]@ == "Advertisement"@
}

/// The whole decoding contract of [`decode_playback_item`]: which result
/// is owed for which payload, including the order in which the fields
/// are checked (artist list first, then album, then title; presence
/// before shape at each step).
pub open spec fn decode_item_post(fs: Seq<(String, FieldValue)>, r: Result<SongType, DecodeError>) -> bool {
    &&& fields_ok(fs) && has_advertisement(spec_artists(fs)) ==> r == Ok::<SongType, DecodeError>(
        SongType::Ad,
    )
    &&& fields_ok(fs) && !has_advertisement(spec_artists(fs)) ==> {
        &&& r matches Ok(SongType::Song(m))
        &&& m.artists@ == spec_artists(fs)
        &&& m.album@ == spec_album(fs)
        &&& m.title@ == spec_title(fs)
    }
    &&& artist_field(fs) is None ==> (r matches Err(DecodeError::MissingField(f)) && f@
        == "xesam:artist"@)
    &&& (artist_field(fs) matches Some(v) && !(v matches FieldValue::TextList { items: _ })) ==> r
        == Err::<SongType, DecodeError>(DecodeError::TypeMismatch)
    &&& (artist_field(fs) matches Some(FieldValue::TextList { items: _ }) && album_field(fs)
        is None) ==> (r matches Err(DecodeError::MissingField(f)) && f@ == "xesam:album"@)
    &&& (artist_field(fs) matches Some(FieldValue::TextList { items: _ }) && album_field(fs)
        matches Some(v) && !(v matches FieldValue::Text { s: _ })) ==> r == Err::<
        SongType,
        DecodeError,
    >(DecodeError::TypeMismatch)
    &&& (artist_field(fs) matches Some(FieldValue::TextList { items: _ }) && album_field(fs)
        matches Some(FieldValue::Text { s: _ }) && title_field(fs) is None) ==> (r matches Err(
        DecodeError::MissingField(f),
    ) && f@ == "xesam:title"@)
    &&& (artist_field(fs) matches Some(FieldValue::TextList { items: _ }) && album_field(fs)
        matches Some(FieldValue::Text { s: _ }) && title_field(fs) matches Some(v) && !(v
        matches FieldValue::Text { s: _ })) ==> r == Err::<SongType, DecodeError>(
        DecodeError::TypeMismatch,
    )
}

/// Find the entry under `key`; the first matching entry wins.
fn lookup_field<'a>(payload: &'a RemotePropertyValue, key: &String) -> (r: Option<&'a FieldValue>)
    ensures
        match r {
            Some(v) => spec_lookup(payload.fields@, key@) == Some(*v),
            None => spec_lookup(payload.fields@, key@) is None,
        },
{
    let fields = &payload.fields;
    let mut i: usize = 0;
    while i < fields.len()
        invariant
            0 <= i <= fields.len(),
            fields == payload.fields,
            spec_lookup(payload.fields@, key@) == spec_lookup_from(fields@, key@, i as int),
        decreases fields.len() - i,
    {
        if fields[i].0 == *key {
            return Some(&fields[i].1);
        }
        i = i + 1;
    }
    None
}

/// Whether the artist list carries the ad marker.
fn contains_advertisement(artists: &Vec<String>) -> (r: bool)
    ensures
        r == has_advertisement(artists@),
{
    let marker: String = "Advertisement".to_owned();
    let mut i: usize = 0;
    while i < artists.len()
        invariant
            0 <= i <= artists.len(),
            marker@ == "Advertisement"@,
            forall|j: int| 0 <= j < i ==> artists@[j]@ != "Advertisement"@,
        decreases artists.len() - i,
    {
        if artists[i] == marker {
            return true;
        }
        i = i + 1;
    }
    false
}

/// An element-wise copy of a list of strings.
fn clone_strings(v: &Vec<String>) -> (r: Vec<String>)
    ensures
        r@ == v@,
{
    let mut r: Vec<String> = Vec::new();
    let mut i: usize = 0;
    while i < v.len()
        invariant
            0 <= i <= v.len(),
            r@ == v@.take(i as int),
        decreases v.len() - i,
    {
        r.push(v[i].clone());
        proof {
            assert(v@.take(i + 1 as int) =~= v@.take(i as int).push(v@[i as int]));
        }
        i = i + 1;
    }
    proof {
        assert(v@.take(v@.len() as int) =~= v@);
    }
    r
}

/// Decode a structured metadata payload into what is playing.
///
/// The artist list, album and title are extracted under their
/// protocol-defined keys; if the artist list contains the literal
/// `Advertisement` the payload classifies as an ad regardless of the
/// other field values, otherwise a song is built from exactly the three
/// extracted fields. A missing field fails with [`DecodeError::MissingField`]
/// naming it; a present field of the wrong shape fails with
/// [`DecodeError::TypeMismatch`]. No partially decoded value is ever
/// returned.
pub fn decode_playback_item(payload: &RemotePropertyValue) -> (r: Result<SongType, DecodeError>)
    ensures
        decode_item_post(payload.fields@, r),
{
    let artists: &Vec<String> = match lookup_field(payload, &"xesam:artist".to_owned()) {
        None => {
            return Err(DecodeError::MissingField("xesam:artist".to_owned()));
        },
        Some(FieldValue::TextList { items }) => items,
        Some(_) => {
            return Err(DecodeError::TypeMismatch);
        },
    };
    let album: &String = match lookup_field(payload, &"xesam:album".to_owned()) {
        None => {
            return Err(DecodeError::MissingField("xesam:album".to_owned()));
        },
        Some(FieldValue::Text { s }) => s,
        Some(_) => {
            return Err(DecodeError::TypeMismatch);
        },
    };
    let title: &String = match lookup_field(payload, &"xesam:title".to_owned()) {
        None => {
            return Err(DecodeError::MissingField("xesam:title".to_owned()));
        },
        Some(FieldValue::Text { s }) => s,
        Some(_) => {
            return Err(DecodeError::TypeMismatch);
        },
    };
    if contains_advertisement(artists) {
        Ok(SongType::Ad)
    } else {
        Ok(
            SongType::Song(
                SongMetadata {
                    artists: clone_strings(artists),
                    album: album.clone(),
                    title: title.clone(),
                },
            ),
        )
    }
}

/// Decode the raw playback-status string.
///
/// Exactly `Playing` and `Paused` are accepted; any other literal is a
/// protocol-contract violation and fails with
/// [`DecodeError::UnknownStatus`] carrying the offending string.
pub fn decode_status(raw: String) -> (r: Result<PlayingStatus, DecodeError>)
    ensures
        raw@ == "Playing"@ ==> r == Ok::<PlayingStatus, DecodeError>(PlayingStatus::Playing),
        raw@ == "Paused"@ ==> r == Ok::<PlayingStatus, DecodeError>(PlayingStatus::Paused),
        raw@ != "Playing"@ && raw@ != "Paused"@ ==> (r matches Err(DecodeError::UnknownStatus(s))
            && s@ == raw@),
{
    proof {
        reveal_strlit("Playing");
        reveal_strlit("Paused");
        assert("Playing"@.len() == 7);
        assert("Paused"@.len() == 6);
        assert("Playing"@ != "Paused"@);
    }
    if raw == "Playing".to_owned() {
        Ok(PlayingStatus::Playing)
    } else if raw == "Paused".to_owned() {
        Ok(PlayingStatus::Paused)
    } else {
        Err(DecodeError::UnknownStatus(raw))
    }
}

} // verus!
