//! The two interfaces of the object on the bus. A remote peer's call or
//! property write becomes one event for the application, or none where the
//! request is malformed; a property read is answered from the published
//! state. Nothing here changes the state: the application does, if it
//! honours the request.

use super::dict::MetadataDict;
use super::{MprisConfig, ServiceState, ServiceStateView};
use crate::number::Double;
use crate::text::owned_names;
use crate::time::Duration;
use crate::{MediaControlEvent, MediaPosition, Repeat, SeekDirection};
use vstd::prelude::*;

verus! {

/// The path of the object that carries both interfaces.
pub const OBJECT_PATH: &'static str = "/org/mpris/MediaPlayer2";

/// The name of the application interface.
pub const APP_INTERFACE: &'static str = "org.mpris.MediaPlayer2";

/// The name of the player interface.
pub const PLAYER_INTERFACE: &'static str = "org.mpris.MediaPlayer2.Player";

/// The application interface, `org.mpris.MediaPlayer2`, over the configuration
/// and the published state.
pub struct AppInterface<'a> {
    pub config: &'a MprisConfig,
    pub state: &'a ServiceState,
}

impl<'a> AppInterface<'a> {
    /// Method `Raise`.
    pub fn raise(&self) -> (event: MediaControlEvent)
        ensures
            event == MediaControlEvent::Raise,
    {
        MediaControlEvent::Raise
    }

    /// Method `Quit`.
    pub fn quit(&self) -> (event: MediaControlEvent)
        ensures
            event == MediaControlEvent::Quit,
    {
        MediaControlEvent::Quit
    }

    /// Property `CanQuit`.
    pub fn can_quit(&self) -> (value: bool)
        ensures
            value == self.state.permissions.can_quit,
    {
        self.state.permissions.can_quit
    }

    /// Property `Fullscreen`.
    pub fn fullscreen(&self) -> (value: bool)
        ensures
            value == self.state.fullscreen,
    {
        self.state.fullscreen
    }

    /// A write to property `Fullscreen`: the published value stays as it is.
    pub fn set_fullscreen(&self, fullscreen: bool) -> (event: MediaControlEvent)
        ensures
            event == MediaControlEvent::SetFullscreen(fullscreen),
    {
        MediaControlEvent::SetFullscreen(fullscreen)
    }

    /// Property `CanSetFullscreen`.
    pub fn can_set_fullscreen(&self) -> (value: bool)
        ensures
            value == self.state.permissions.can_set_fullscreen,
    {
        self.state.permissions.can_set_fullscreen
    }

    /// Property `CanRaise`.
    pub fn can_raise(&self) -> (value: bool)
        ensures
            value == self.state.permissions.can_raise,
    {
        self.state.permissions.can_raise
    }

    /// Property `HasTrackList`: there is no track list.
    pub fn has_tracklist(&self) -> (value: bool)
        ensures
            !value,
    {
        false
    }

    /// Property `Identity`.
    pub fn identity(&self) -> (value: &'a str)
        ensures
            value@ == self.config.identity@,
    {
        self.config.identity.as_str()
    }

    /// Property `DesktopEntry`.
    pub fn desktop_entry(&self) -> (value: &'a str)
        ensures
            value@ == self.config.desktop_entry@,
    {
        self.config.desktop_entry.as_str()
    }

    /// Property `SupportedUriSchemes`.
    pub fn supported_uri_schemes(&self) -> (value: Vec<String>)
        ensures
            value.deep_view() == self.state.permissions.supported_uri_schemes.deep_view(),
    {
        owned_names(&self.state.permissions.supported_uri_schemes)
    }

    /// Property `SupportedMimeTypes`.
    pub fn supported_mime_types(&self) -> (value: Vec<String>)
        ensures
            value.deep_view() == self.state.permissions.supported_mime_types.deep_view(),
    {
        owned_names(&self.state.permissions.supported_mime_types)
    }
}

/// The direction of a seek by `offset` microseconds: forward for a positive
/// offset, backward otherwise.
pub open spec fn seek_direction(offset: i64) -> SeekDirection {
    if offset > 0 {
        SeekDirection::Forward
    } else {
        SeekDirection::Backward
    }
}

/// The size of `offset`, whatever its sign.
pub open spec fn magnitude(offset: i64) -> nat {
    if offset >= 0 {
        offset as nat
    } else {
        (-offset) as nat
    }
}

/// Whether a request to move to `position` microseconds is taken: the
/// position is not negative, and not beyond the length of the track where
/// that is known.
pub open spec fn position_accepted(state: ServiceStateView, position: i64) -> bool {
    &&& position >= 0
    &&& match state.metadata.duration {
        Some(duration) => position <= duration.micros(),
        None => true,
    }
}

/// The player interface, `org.mpris.MediaPlayer2.Player`, over the published state.
pub struct PlayerInterface<'a> {
    pub state: &'a ServiceState,
}

impl<'a> PlayerInterface<'a> {
    /// Method `Next`.
    pub fn next(&self) -> (event: MediaControlEvent)
        ensures
            event == MediaControlEvent::Next,
    {
        MediaControlEvent::Next
    }

    /// Method `Previous`.
    pub fn previous(&self) -> (event: MediaControlEvent)
        ensures
            event == MediaControlEvent::Previous,
    {
        MediaControlEvent::Previous
    }

    /// Method `Pause`.
    pub fn pause(&self) -> (event: MediaControlEvent)
        ensures
            event == MediaControlEvent::Pause,
    {
        MediaControlEvent::Pause
    }

    /// Method `PlayPause`.
    pub fn play_pause(&self) -> (event: MediaControlEvent)
        ensures
            event == MediaControlEvent::Toggle,
    {
        MediaControlEvent::Toggle
    }

    /// Method `Stop`.
    pub fn stop(&self) -> (event: MediaControlEvent)
        ensures
            event == MediaControlEvent::Stop,
    {
        MediaControlEvent::Stop
    }

    /// Method `Play`.
    pub fn play(&self) -> (event: MediaControlEvent)
        ensures
            event == MediaControlEvent::Play,
    {
        MediaControlEvent::Play
    }

    /// Method `Seek`: a seek by the size of `offset` microseconds, forward
    /// where `offset` is positive and backward where it is not.
    pub fn seek(&self, offset: i64) -> (event: MediaControlEvent)
        ensures
            event matches MediaControlEvent::SeekBy(direction, amount) && direction
                == seek_direction(offset) && amount@ == magnitude(offset) * 1000,
    {
        let abs_offset: u64 = if offset >= 0 {
            offset as u64
        } else if offset == i64::MIN {
            0x8000_0000_0000_0000u64
        } else {
            (-offset) as u64
        };
        let direction = if offset > 0 {
            SeekDirection::Forward
        } else {
            SeekDirection::Backward
        };
        MediaControlEvent::SeekBy(direction, Duration::from_micros(abs_offset))
    }

    /// Method `SetPosition`. A negative position, and one beyond the length
    /// of the track where that is known, is ignored. The track id is not
    /// looked at: the one track there is, is the current one.
    pub fn set_position(&self, track_id: &str, position: i64) -> (event: Option<MediaControlEvent>)
        ensures
            !position_accepted(self.state@, position) ==> event is None,
            position_accepted(self.state@, position) ==> (event matches Some(
                MediaControlEvent::SetPosition(at),
            ) && at.0@ == position as nat * 1000),
    {
        if position < 0 {
            return None;
        }
        if let Some(duration) = self.state.metadata.duration {
            if position as u128 > duration.as_micros() {
                return None;
            }
        }
        Some(MediaControlEvent::SetPosition(MediaPosition(Duration::from_micros(position as u64))))
    }

    /// Method `OpenUri`.
    pub fn open_uri(&self, uri: String) -> (event: MediaControlEvent)
        ensures
            event == MediaControlEvent::OpenUri(uri),
    {
        MediaControlEvent::OpenUri(uri)
    }

    /// Property `PlaybackStatus`.
    pub fn playback_status(&self) -> (value: &'static str)
        ensures
            value@ == self.state.playback_status.spec_dbus_value(),
    {
        self.state.playback_status.to_dbus_value()
    }

    /// Property `LoopStatus`.
    pub fn loop_status(&self) -> (value: &'static str)
        ensures
            value@ == self.state.loop_status.spec_dbus_value(),
    {
        self.state.loop_status.to_dbus_value()
    }

    /// A write to property `LoopStatus`: a word that names no repeat mode is ignored.
    pub fn set_loop_status(&self, loop_status: &str) -> (event: Option<MediaControlEvent>)
        ensures
            event == match Repeat::spec_from_dbus_value(loop_status@) {
                Some(repeat) => Some(MediaControlEvent::SetRepeat(repeat)),
                None => None,
            },
    {
        match Repeat::from_dbus_value(loop_status) {
            Some(repeat) => Some(MediaControlEvent::SetRepeat(repeat)),
            None => None,
        }
    }

    /// Property `Rate`.
    pub fn rate(&self) -> (value: Double)
        ensures
            value == self.state.rate,
    {
        self.state.rate
    }

    /// A write to property `Rate`.
    pub fn set_rate(&self, rate: Double) -> (event: MediaControlEvent)
        ensures
            event == MediaControlEvent::SetRate(rate),
    {
        MediaControlEvent::SetRate(rate)
    }

    /// Property `Shuffle`.
    pub fn shuffle(&self) -> (value: bool)
        ensures
            value == self.state.shuffle,
    {
        self.state.shuffle
    }

    /// A write to property `Shuffle`.
    pub fn set_shuffle(&self, shuffle: bool) -> (event: MediaControlEvent)
        ensures
            event == MediaControlEvent::SetShuffle(shuffle),
    {
        MediaControlEvent::SetShuffle(shuffle)
    }

    /// Property `Metadata`: a copy of the published dictionary.
    pub fn metadata(&self) -> (value: MetadataDict)
        ensures
            value@ == self.state@.metadata_dict,
    {
        self.state.metadata_dict.clone()
    }

    /// Property `Volume`.
    pub fn volume(&self) -> (value: Double)
        ensures
            value == self.state.volume,
    {
        self.state.volume
    }

    /// A write to property `Volume`.
    pub fn set_volume(&self, volume: Double) -> (event: MediaControlEvent)
        ensures
            event == MediaControlEvent::SetVolume(volume),
    {
        MediaControlEvent::SetVolume(volume)
    }

    /// Property `Position`, in microseconds.
    pub fn position(&self) -> (value: i64)
        ensures
            value == self.state.playback_status.spec_micros(),
    {
        self.state.playback_status.to_micros()
    }

    /// Property `MinimumRate`.
    pub fn minimum_rate(&self) -> (value: Double)
        ensures
            value == self.state.permissions.min_rate,
    {
        self.state.permissions.min_rate
    }

    /// Property `MaximumRate`.
    pub fn maximum_rate(&self) -> (value: Double)
        ensures
            value == self.state.permissions.max_rate,
    {
        self.state.permissions.max_rate
    }

    /// Property `CanGoNext`.
    pub fn can_go_next(&self) -> (value: bool)
        ensures
            value == self.state.permissions.can_go_next,
    {
        self.state.permissions.can_go_next
    }

    /// Property `CanGoPrevious`.
    pub fn can_go_previous(&self) -> (value: bool)
        ensures
            value == self.state.permissions.can_go_previous,
    {
        self.state.permissions.can_go_previous
    }

    /// Property `CanPlay`.
    pub fn can_play(&self) -> (value: bool)
        ensures
            value == self.state.permissions.can_play,
    {
        self.state.permissions.can_play
    }

    /// Property `CanPause`.
    pub fn can_pause(&self) -> (value: bool)
        ensures
            value == self.state.permissions.can_pause,
    {
        self.state.permissions.can_pause
    }

    /// Property `CanSeek`.
    pub fn can_seek(&self) -> (value: bool)
        ensures
            value == self.state.permissions.can_seek,
    {
        self.state.permissions.can_seek
    }

    /// Property `CanControl`.
    pub fn can_control(&self) -> (value: bool)
        ensures
            value == self.state.permissions.can_control,
    {
        self.state.permissions.can_control
    }
}

} // verus!
