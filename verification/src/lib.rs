//! Cross-platform media controls: what a player advertises about the item it
//! plays, the commands that come back from the desktop, and the session
//! service that keeps the two in step on an MPRIS message bus.

use vstd::prelude::*;

pub mod cover;
pub mod metadata;
pub mod number;
pub mod platform;
pub mod text;
pub mod time;

pub use cover::MediaCover;
pub use metadata::{MediaMetadata, MediaTypeWindows};
pub use number::Double;
pub use time::Duration;

verus! {

/// Events caused by the user interacting with the OS media controls.
#[derive(Clone, PartialEq, Debug)]
pub enum MediaControlEvent {
    Play,
    Pause,
    Toggle,
    Next,
    Previous,
    Stop,
    /// Seek forward or backward by an undetermined amount.
    Seek(SeekDirection),
    /// Seek forward or backward by a certain amount.
    SeekBy(SeekDirection, Duration),
    /// Set the position/progress of the currently playing media item.
    SetPosition(MediaPosition),
    /// Set the volume. The value is intended to be from zero to one, but
    /// other values are accepted too: the application sets the limits.
    /// If the request is honoured, the application sets the new volume on
    /// the controls.
    SetVolume(Double),
    /// Set the playback rate. If the request is honoured, the application
    /// sets the new rate on the controls.
    SetRate(Double),
    /// Set shuffle on or off. If the request is honoured, the application
    /// sets the new value on the controls.
    SetShuffle(bool),
    /// Set the repeat mode. If the request is honoured, the application sets
    /// the new mode on the controls.
    SetRepeat(Repeat),
    /// Enter or leave fullscreen. If the request is honoured, the application
    /// sets the new value on the controls.
    SetFullscreen(bool),
    /// Open the URI in the media player.
    OpenUri(String),
    /// Bring the media player's user interface to the front.
    Raise,
    /// Shut down the media player.
    Quit,
    FastForward,
    Rewind,
    ChannelUp,
    ChannelDown,
}

/// An instant in a media item.
#[derive(Clone, Copy, PartialEq, Eq, Debug, Structural)]
pub struct MediaPosition(pub Duration);

/// The status of media playback.
#[derive(Clone, PartialEq, Eq, Debug, Structural)]
pub enum MediaPlayback {
    Stopped,
    Paused { progress: Option<MediaPosition> },
    Playing { progress: Option<MediaPosition> },
}

/// The largest number of microseconds that the bus carries.
pub const MAX_MICROS: u128 = 0x7FFF_FFFF_FFFF_FFFF;

impl MediaPlayback {
    /// The name of the status on the bus.
    pub open spec fn spec_dbus_value(&self) -> Seq<char> {
        match self {
            MediaPlayback::Playing { .. } => "Playing"@,
            MediaPlayback::Paused { .. } => "Paused"@,
            MediaPlayback::Stopped => "Stopped"@,
        }
    }

    /// The progress that the status carries, if any.
    pub open spec fn spec_progress(&self) -> Option<MediaPosition> {
        match self {
            MediaPlayback::Playing { progress } => *progress,
            MediaPlayback::Paused { progress } => *progress,
            MediaPlayback::Stopped => None,
        }
    }

    /// The progress in microseconds as the bus carries it: zero where there
    /// is none, and where it is beyond what the bus can carry.
    pub open spec fn spec_micros(&self) -> i64 {
        match self.spec_progress() {
            Some(position) => if position.0.micros() <= MAX_MICROS {
                position.0.micros() as i64
            } else {
                0
            },
            None => 0,
        }
    }

    /// Whether two statuses are of the same kind, whatever their progress.
    pub open spec fn spec_same_kind(&self, other: &MediaPlayback) -> bool {
        match (self, other) {
            (MediaPlayback::Playing { .. }, MediaPlayback::Playing { .. }) => true,
            (MediaPlayback::Paused { .. }, MediaPlayback::Paused { .. }) => true,
            (MediaPlayback::Stopped, MediaPlayback::Stopped) => true,
            _ => false,
        }
    }

    pub fn to_dbus_value(&self) -> (value: &'static str)
        ensures
            value@ == self.spec_dbus_value(),
    {
        match self {
            MediaPlayback::Playing { .. } => "Playing",
            MediaPlayback::Paused { .. } => "Paused",
            MediaPlayback::Stopped => "Stopped",
        }
    }

    /// The progress that the status carries, if any.
    pub fn progress(&self) -> (progress: Option<MediaPosition>)
        ensures
            progress == self.spec_progress(),
    {
        match self {
            MediaPlayback::Playing { progress } => *progress,
            MediaPlayback::Paused { progress } => *progress,
            MediaPlayback::Stopped => None,
        }
    }

    /// The progress in microseconds as the bus carries it.
    pub fn to_micros(&self) -> (micros: i64)
        ensures
            micros == self.spec_micros(),
    {
        match self.progress() {
            Some(position) => {
                let micros: u128 = position.0.as_micros();
                if micros <= MAX_MICROS {
                    micros as i64
                } else {
                    0
                }
            },
            None => 0,
        }
    }

    /// Whether two statuses are of the same kind, whatever their progress.
    pub fn same_kind(&self, other: &MediaPlayback) -> (same: bool)
        ensures
            same == self.spec_same_kind(other),
            same == (self.spec_dbus_value() == other.spec_dbus_value()),
    {
        proof {
            lemma_playback_names_differ();
        }
        match (self, other) {
            (MediaPlayback::Playing { .. }, MediaPlayback::Playing { .. }) => true,
            (MediaPlayback::Paused { .. }, MediaPlayback::Paused { .. }) => true,
            (MediaPlayback::Stopped, MediaPlayback::Stopped) => true,
            _ => false,
        }
    }
}

/// The three status names on the bus are three different strings.
pub proof fn lemma_playback_names_differ()
    ensures
        "Playing"@ != "Paused"@,
        "Playing"@ != "Stopped"@,
        "Paused"@ != "Stopped"@,
{
    reveal_strlit("Playing");
    reveal_strlit("Paused");
    reveal_strlit("Stopped");
    assert("Paused"@.len() == 6);
    assert("Playing"@[0] == 'P');
}

/// A repeat/loop status.
#[derive(Copy, Clone, PartialEq, Eq, Debug, Structural)]
pub enum Repeat {
    /// Playback stops when there are no more tracks to play.
    Off,
    /// The current track starts again from the beginning once it has finished.
    Track,
    /// Playback loops through a list of tracks.
    Playlist,
}

impl Repeat {
    /// The name of the mode on the bus.
    pub open spec fn spec_dbus_value(self) -> Seq<char> {
        match self {
            Repeat::Off => "None"@,
            Repeat::Track => "Track"@,
            Repeat::Playlist => "Playlist"@,
        }
    }

    /// The mode that a name on the bus stands for, if it stands for one.
    pub open spec fn spec_from_dbus_value(x: Seq<char>) -> Option<Repeat> {
        if x == "None"@ {
            Some(Repeat::Off)
        } else if x == "Track"@ {
            Some(Repeat::Track)
        } else if x == "Playlist"@ {
            Some(Repeat::Playlist)
        } else {
            None
        }
    }

    pub fn to_dbus_value(self) -> (value: &'static str)
        ensures
            value@ == self.spec_dbus_value(),
    {
        match self {
            Repeat::Off => "None",
            Repeat::Track => "Track",
            Repeat::Playlist => "Playlist",
        }
    }

    pub fn from_dbus_value(x: &str) -> (parsed: Option<Repeat>)
        ensures
            parsed == Repeat::spec_from_dbus_value(x@),
    {
        if text::str_is(x, "None") {
            Some(Repeat::Off)
        } else if text::str_is(x, "Track") {
            Some(Repeat::Track)
        } else if text::str_is(x, "Playlist") {
            Some(Repeat::Playlist)
        } else {
            None
        }
    }
}

/// Each repeat mode is read back from its own name, and from no other string.
pub proof fn lemma_repeat_round_trip(mode: Repeat, name: Seq<char>)
    ensures
        Repeat::spec_from_dbus_value(mode.spec_dbus_value()) == Some(mode),
        Repeat::spec_from_dbus_value(name) == Some(mode) ==> name == mode.spec_dbus_value(),
{
    reveal_strlit("None");
    reveal_strlit("Track");
    reveal_strlit("Playlist");
    assert("Track"@.len() == 5);
    assert("Playlist"@.len() == 8);
}

/// The direction to seek in.
#[derive(Copy, Clone, PartialEq, Eq, Debug, Structural)]
pub enum SeekDirection {
    Forward,
    Backward,
}

} // verus!
