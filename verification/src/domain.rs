//! Domain model: songs, playback status, and the error taxonomy.

use vstd::prelude::*;

verus! {

/// Metadata of a real track: title, album, and the ordered artist list.
#[derive(Debug)]
pub struct SongMetadata {
    pub artists: Vec<String>,
    pub album: String,
    pub title: String,
}

/// What is currently playing: an advertisement or a real track.
#[derive(Debug)]
pub enum SongType {
    Ad,
    Song(SongMetadata),
}

/// Play/pause state of the player.
#[derive(Debug, PartialEq, Eq, Structural, Clone, Copy)]
pub enum PlayingStatus {
    Playing,
    Paused,
}

/// A status wrapped for structured output as `{"status": ...}`.
#[derive(Debug)]
pub struct PlayingStatusMsg {
    pub status: PlayingStatus,
}

/// Failure to translate a bus-native value into the domain model.
#[derive(Debug)]
pub enum DecodeError {
    /// A required field is absent from the payload; carries the field name.
    MissingField(String),
    /// A required field is present but not of the expected shape.
    TypeMismatch,
    /// The raw status string is neither of the two known literals.
    UnknownStatus(String),
}

/// Failure to establish the session-bus connection; fatal, the process
/// cannot proceed.
#[derive(Debug)]
pub enum ConnectError {
    /// The session bus itself cannot be reached; carries the underlying
    /// bus-layer detail.
    BusUnavailable(String),
}

/// Failure of a one-way transport call.
#[derive(Debug)]
pub enum CallError {
    /// The remote player object does not exist: the player is simply
    /// not running. Expected and recoverable by the user.
    PlayerNotRunning,
    /// Any other bus fault; carries the underlying detail.
    Other(String),
}

/// Failure of a query or wait operation.
#[derive(Debug)]
pub enum QueryError {
    /// The remote player object does not exist: the player is simply
    /// not running. Expected and recoverable by the user.
    PlayerNotRunning,
    /// The property was read but could not be decoded; a violation of
    /// the remote contract.
    Decode(DecodeError),
    /// Any other bus fault; carries the underlying detail.
    Other(String),
}

/// Which event the continuous listen mode waits for.
#[derive(Debug, Clone, Copy, PartialEq, Eq, Structural)]
pub enum ListenEvent {
    /// The current song changed.
    SongChanged,
    /// The play/pause state toggled.
    Toggled,
}

/// The one action a single invocation performs.
#[derive(Debug, Clone, Copy, PartialEq, Eq, Structural)]
pub enum Action {
    /// Wait forever, reporting each occurrence of the event.
    Listen(ListenEvent),
    /// Skip to the next song and report the resulting one.
    Next,
    /// Skip to the previous song and report the resulting one.
    Previous,
    /// Pause playback.
    Pause,
    /// Resume playback.
    Play,
    /// Toggle between playing and paused.
    Toggle,
    /// Report the current play/pause status.
    Status,
    /// Report the current song.
    Song,
}

/// The parsed command line: the selected action and the structured
/// output flag.
#[derive(Debug, Clone, Copy, PartialEq, Eq, Structural)]
pub struct CliArgs {
    pub action: Action,
    pub json: bool,
}

} // verus!
