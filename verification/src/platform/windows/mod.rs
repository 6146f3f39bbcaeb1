//! What Windows needs besides its native calls: the cover record, and the
//! numbers that stand for playback states, media types, repeat modes and
//! buttons in the system media transport controls.

use crate::metadata::MediaTypeWindows;
use crate::{MediaControlEvent, MediaPlayback, Repeat};
use vstd::prelude::*;

verus! {

/// `MediaPlaybackStatus.Stopped`.
pub const PLAYBACK_STOPPED: i32 = 2;

/// `MediaPlaybackStatus.Playing`.
pub const PLAYBACK_PLAYING: i32 = 3;

/// `MediaPlaybackStatus.Paused`.
pub const PLAYBACK_PAUSED: i32 = 4;

/// Definition/reference to cover art for Windows.
#[derive(Clone, Debug)]
pub enum WindowsCover {
    /// The image is loaded from a URI.
    Uri(String),
    /// The image is loaded from a file.
    LocalFile(std::path::PathBuf),
    /// The image is loaded from a stream of these bytes.
    Bytes(Vec<u8>),
}

/// The playback status number that stands for a playback status.
pub fn playback_status(playback: &MediaPlayback) -> (status: i32)
    ensures
        status == match *playback {
            MediaPlayback::Playing { .. } => PLAYBACK_PLAYING,
            MediaPlayback::Paused { .. } => PLAYBACK_PAUSED,
            MediaPlayback::Stopped => PLAYBACK_STOPPED,
        },
{
    match playback {
        MediaPlayback::Playing { .. } => PLAYBACK_PLAYING,
        MediaPlayback::Paused { .. } => PLAYBACK_PAUSED,
        MediaPlayback::Stopped => PLAYBACK_STOPPED,
    }
}

impl MediaTypeWindows {
    /// The number of the media type in `MediaPlaybackType`.
    pub fn into_native(self) -> (native: i32)
        ensures
            native == match self {
                MediaTypeWindows::Unknown => 0i32,
                MediaTypeWindows::Music => 1i32,
                MediaTypeWindows::Video => 2i32,
                MediaTypeWindows::Image => 3i32,
            },
    {
        match self {
            MediaTypeWindows::Unknown => 0,
            MediaTypeWindows::Music => 1,
            MediaTypeWindows::Video => 2,
            MediaTypeWindows::Image => 3,
        }
    }
}

impl Repeat {
    /// The number of the mode in `MediaPlaybackAutoRepeatMode`.
    pub open spec fn spec_into_native(self) -> i32 {
        match self {
            Repeat::Off => 0,
            Repeat::Track => 1,
            Repeat::Playlist => 2,
        }
    }

    /// The mode that a number of `MediaPlaybackAutoRepeatMode` stands for, if it
    /// is one of the three.
    pub open spec fn spec_from_native(mode: i32) -> Option<Repeat> {
        if mode == 0 {
            Some(Repeat::Off)
        } else if mode == 1 {
            Some(Repeat::Track)
        } else if mode == 2 {
            Some(Repeat::Playlist)
        } else {
            None
        }
    }

    /// The mode that a number of `MediaPlaybackAutoRepeatMode` stands for, if it
    /// is one of the three.
    pub fn from_native(mode: i32) -> (repeat: Option<Repeat>)
        ensures
            repeat == Repeat::spec_from_native(mode),
    {
        if mode == 0 {
            Some(Repeat::Off)
        } else if mode == 1 {
            Some(Repeat::Track)
        } else if mode == 2 {
            Some(Repeat::Playlist)
        } else {
            None
        }
    }

    /// The number of the mode in `MediaPlaybackAutoRepeatMode`, from which the mode is read back.
    pub fn into_native(self) -> (mode: i32)
        ensures
            mode == self.spec_into_native(),
            Repeat::spec_from_native(mode) == Some(self),
    {
        match self {
            Repeat::Off => 0,
            Repeat::Track => 1,
            Repeat::Playlist => 2,
        }
    }
}

/// The event that a pressed button stands for, by the number of the button
/// in `SystemMediaTransportControlsButton`. The record button and unknown
/// numbers stand for none.
pub open spec fn spec_button_event(button: i32) -> Option<MediaControlEvent> {
    if button == 0 {
        Some(MediaControlEvent::Play)
    } else if button == 1 {
        Some(MediaControlEvent::Pause)
    } else if button == 2 {
        Some(MediaControlEvent::Stop)
    } else if button == 4 {
        Some(MediaControlEvent::FastForward)
    } else if button == 5 {
        Some(MediaControlEvent::Rewind)
    } else if button == 6 {
        Some(MediaControlEvent::Next)
    } else if button == 7 {
        Some(MediaControlEvent::Previous)
    } else if button == 8 {
        Some(MediaControlEvent::ChannelUp)
    } else if button == 9 {
        Some(MediaControlEvent::ChannelDown)
    } else {
        None
    }
}

/// The event that a pressed button stands for, if it stands for one.
pub fn button_event(button: i32) -> (event: Option<MediaControlEvent>)
    ensures
        event == spec_button_event(button),
{
    if button == 0 {
        Some(MediaControlEvent::Play)
    } else if button == 1 {
        Some(MediaControlEvent::Pause)
    } else if button == 2 {
        Some(MediaControlEvent::Stop)
    } else if button == 4 {
        Some(MediaControlEvent::FastForward)
    } else if button == 5 {
        Some(MediaControlEvent::Rewind)
    } else if button == 6 {
        Some(MediaControlEvent::Next)
    } else if button == 7 {
        Some(MediaControlEvent::Previous)
    } else if button == 8 {
        Some(MediaControlEvent::ChannelUp)
    } else if button == 9 {
        Some(MediaControlEvent::ChannelDown)
    } else {
        None
    }
}

} // verus!
