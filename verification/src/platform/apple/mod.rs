//! What the Apple platforms need besides their native calls: the cover and
//! permission records, and the numbers that stand for playback states,
//! repeat modes and shuffle modes in the MediaPlayer framework.

use crate::{MediaControlEvent, MediaPlayback, Repeat};
use vstd::prelude::*;

verus! {

/// `MPNowPlayingPlaybackStatePlaying`.
pub const PLAYBACK_STATE_PLAYING: usize = 1;

/// `MPNowPlayingPlaybackStatePaused`.
pub const PLAYBACK_STATE_PAUSED: usize = 2;

/// `MPNowPlayingPlaybackStateStopped`.
pub const PLAYBACK_STATE_STOPPED: usize = 3;

/// `MPRemoteCommandHandlerStatusSuccess`.
pub const HANDLER_STATUS_SUCCESS: isize = 0;

/// `MPRemoteCommandHandlerStatusCommandFailed`.
pub const HANDLER_STATUS_COMMAND_FAILED: isize = 1;

/// `MPShuffleTypeOff`: nothing is shuffled during playback.
pub const SHUFFLE_TYPE_OFF: isize = 0;

/// `MPShuffleTypeItems`: individual items are shuffled during playback.
pub const SHUFFLE_TYPE_ITEMS: isize = 1;

/// `MPShuffleTypeCollections`: collections of items are shuffled during playback.
pub const SHUFFLE_TYPE_COLLECTIONS: isize = 2;

/// `MPRepeatTypeOff`: nothing is repeated during playback.
pub const REPEAT_TYPE_OFF: isize = 0;

/// `MPRepeatTypeOne`: a single item is repeated indefinitely.
pub const REPEAT_TYPE_ONE: isize = 1;

/// `MPRepeatTypeAll`: the current container or playlist is repeated indefinitely.
pub const REPEAT_TYPE_ALL: isize = 2;

/// A platform-specific error.
#[derive(Clone, Copy, PartialEq, Eq, Debug, Structural)]
pub enum AppleError {
    /// The path of a cover file is not UTF-8.
    NonUtf8Path,
}

impl AppleError {
    /// What the error says.
    pub fn message(&self) -> (text: &'static str)
        ensures
            text@ == "Non UTF-8 paths are not supported for cover art loading"@,
    {
        "Non UTF-8 paths are not supported for cover art loading"
    }
}

/// Definition/reference to cover art for Apple platforms.
#[derive(Clone, Debug)]
pub enum AppleCover {
    /// Available only on macOS. May be an HTTP URL, a data URL or a file URL.
    Url(String),
    /// A file that holds an image. A file that is not found gives a blank artwork.
    LocalFile(std::path::PathBuf),
    /// The bytes of an image. Bytes that are no image give a blank artwork.
    Bytes(Vec<u8>),
}

/// Where the native side loads an artwork from.
#[derive(Debug)]
pub enum ArtworkSource {
    Url(String),
    /// The path of a file, as text.
    Path(String),
    Bytes(Vec<u8>),
}

/// Calls `Path::to_str`, which gives the path as text where it is valid
/// Unicode. Nothing is claimed of the result.
#[verifier::external_body]
fn path_text(path: &std::path::PathBuf) -> (text: Option<String>) {
    path.to_str().map(|text| text.to_owned())
}

impl AppleCover {
    /// The source for a cover that is a file, given the text of its path:
    /// a path that is no text is refused.
    pub fn local_file_source(text: Option<String>) -> (source: Result<ArtworkSource, AppleError>)
        ensures
            source == match text {
                Some(path) => Ok::<ArtworkSource, AppleError>(ArtworkSource::Path(path)),
                None => Err::<ArtworkSource, AppleError>(AppleError::NonUtf8Path),
            },
    {
        match text {
            Some(path) => Ok(ArtworkSource::Path(path)),
            None => Err(AppleError::NonUtf8Path),
        }
    }

    /// Where to load the artwork of this cover from. A URL and bytes are
    /// taken as they are; a file is taken by the text of its path, and
    /// refused where the path is no text.
    pub fn artwork_source(self) -> (source: Result<ArtworkSource, AppleError>)
        ensures
            self matches AppleCover::Url(url) ==> source == Ok::<ArtworkSource, AppleError>(
                ArtworkSource::Url(url),
            ),
            self matches AppleCover::Bytes(bytes) ==> source == Ok::<ArtworkSource, AppleError>(
                ArtworkSource::Bytes(bytes),
            ),
            self is LocalFile ==> (source matches Ok(found) ==> found is Path),
    {
        match self {
            AppleCover::Url(url) => Ok(ArtworkSource::Url(url)),
            AppleCover::LocalFile(path) => AppleCover::local_file_source(path_text(&path)),
            AppleCover::Bytes(bytes) => Ok(ArtworkSource::Bytes(bytes)),
        }
    }
}

/// Which remote commands are enabled, one flag for each command of the
/// remote command center.
#[derive(Clone, Copy, PartialEq, Eq, Debug, Structural)]
pub struct ApplePermissions {
    pub toggle_play_pause: bool,
    pub play: bool,
    pub pause: bool,
    pub stop: bool,
    pub previous_track: bool,
    pub next_track: bool,
    pub change_repeat_mode: bool,
    pub change_shuffle_mode: bool,
    pub change_playback_rate: bool,
    pub seek_backward: bool,
    pub seek_forward: bool,
    pub skip_backward: bool,
    pub skip_forward: bool,
    pub change_playback_position: bool,
}

/// The playback state that stands for a playback status.
pub fn playback_state(playback: &MediaPlayback) -> (state: usize)
    ensures
        state == match *playback {
            MediaPlayback::Stopped => PLAYBACK_STATE_STOPPED,
            MediaPlayback::Paused { .. } => PLAYBACK_STATE_PAUSED,
            MediaPlayback::Playing { .. } => PLAYBACK_STATE_PLAYING,
        },
{
    match playback {
        MediaPlayback::Stopped => PLAYBACK_STATE_STOPPED,
        MediaPlayback::Paused { .. } => PLAYBACK_STATE_PAUSED,
        MediaPlayback::Playing { .. } => PLAYBACK_STATE_PLAYING,
    }
}

impl Repeat {
    /// The repeat type that stands for the mode.
    pub open spec fn spec_to_apple(self) -> isize {
        match self {
            Repeat::Off => REPEAT_TYPE_OFF,
            Repeat::Track => REPEAT_TYPE_ONE,
            Repeat::Playlist => REPEAT_TYPE_ALL,
        }
    }

    /// The mode that a repeat type stands for, if it is one of the three.
    pub open spec fn spec_from_apple(x: isize) -> Option<Repeat> {
        if x == REPEAT_TYPE_OFF {
            Some(Repeat::Off)
        } else if x == REPEAT_TYPE_ONE {
            Some(Repeat::Track)
        } else if x == REPEAT_TYPE_ALL {
            Some(Repeat::Playlist)
        } else {
            None
        }
    }

    /// The mode that a repeat type stands for, if it is one of the three.
    pub fn from_apple(x: isize) -> (mode: Option<Repeat>)
        ensures
            mode == Repeat::spec_from_apple(x),
    {
        if x == REPEAT_TYPE_OFF {
            Some(Repeat::Off)
        } else if x == REPEAT_TYPE_ONE {
            Some(Repeat::Track)
        } else if x == REPEAT_TYPE_ALL {
            Some(Repeat::Playlist)
        } else {
            None
        }
    }

    /// The repeat type that stands for the mode, from which the mode is read back.
    pub fn to_apple(self) -> (x: isize)
        ensures
            x == self.spec_to_apple(),
            Repeat::spec_from_apple(x) == Some(self),
    {
        match self {
            Repeat::Off => REPEAT_TYPE_OFF,
            Repeat::Track => REPEAT_TYPE_ONE,
            Repeat::Playlist => REPEAT_TYPE_ALL,
        }
    }
}

/// Whether a shuffle type means shuffling: off is no, items is yes, and
/// neither collections nor an unknown number is taken.
pub fn shuffle_from_apple(x: isize) -> (shuffle: Option<bool>)
    ensures
        shuffle == if x == SHUFFLE_TYPE_OFF {
            Some(false)
        } else if x == SHUFFLE_TYPE_ITEMS {
            Some(true)
        } else {
            None
        },
{
    if x == SHUFFLE_TYPE_OFF {
        Some(false)
    } else if x == SHUFFLE_TYPE_ITEMS {
        Some(true)
    } else {
        None
    }
}

/// The shuffle type that stands for shuffling or not.
pub fn shuffle_to_apple(x: bool) -> (shuffle: isize)
    ensures
        shuffle == if x {
            SHUFFLE_TYPE_ITEMS
        } else {
            SHUFFLE_TYPE_OFF
        },
        shuffle_from_apple_spec(shuffle) == Some(x),
{
    if x {
        SHUFFLE_TYPE_ITEMS
    } else {
        SHUFFLE_TYPE_OFF
    }
}

/// Whether a shuffle type means shuffling.
pub open spec fn shuffle_from_apple_spec(x: isize) -> Option<bool> {
    if x == SHUFFLE_TYPE_OFF {
        Some(false)
    } else if x == SHUFFLE_TYPE_ITEMS {
        Some(true)
    } else {
        None
    }
}

/// What the handler of the command that changes the repeat mode does with
/// the repeat type it was given: the event for the application and success,
/// or no event and failure where the type is unknown.
pub fn repeat_command(repeat_type: isize) -> (outcome: (Option<MediaControlEvent>, isize))
    ensures
        outcome == match Repeat::spec_from_apple(repeat_type) {
            Some(mode) => (Some(MediaControlEvent::SetRepeat(mode)), HANDLER_STATUS_SUCCESS),
            None => (None::<MediaControlEvent>, HANDLER_STATUS_COMMAND_FAILED),
        },
{
    match Repeat::from_apple(repeat_type) {
        Some(mode) => (Some(MediaControlEvent::SetRepeat(mode)), HANDLER_STATUS_SUCCESS),
        None => (None, HANDLER_STATUS_COMMAND_FAILED),
    }
}

/// What the handler of the command that changes the shuffle mode does with
/// the shuffle type it was given: the event for the application and
/// success, or no event and failure where the type is not taken.
pub fn shuffle_command(shuffle_type: isize) -> (outcome: (Option<MediaControlEvent>, isize))
    ensures
        outcome == match shuffle_from_apple_spec(shuffle_type) {
            Some(shuffle) => (Some(MediaControlEvent::SetShuffle(shuffle)), HANDLER_STATUS_SUCCESS),
            None => (None::<MediaControlEvent>, HANDLER_STATUS_COMMAND_FAILED),
        },
{
    match shuffle_from_apple(shuffle_type) {
        Some(shuffle) => (Some(MediaControlEvent::SetShuffle(shuffle)), HANDLER_STATUS_SUCCESS),
        None => (None, HANDLER_STATUS_COMMAND_FAILED),
    }
}

} // verus!
