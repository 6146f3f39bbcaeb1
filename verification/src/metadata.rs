//! The metadata of a media item.

use crate::number::Double;
use crate::time::Duration;
use vstd::prelude::*;

verus! {

/// A calendar date. No platform takes one yet.
pub type Date = ();

/// The kind of media, as Windows displays it.
#[derive(Clone, Copy, PartialEq, Eq, Debug, Structural)]
pub enum MediaTypeWindows {
    Unknown,
    Music,
    Video,
    Image,
}

/// The metadata of a media item: the text-like fields that are easy to
/// represent. Cover art is set apart from it.
///
/// Every field is optional, and an absent field is simply not advertised.
/// Where a platform wants one string and another a list (`artist` and
/// `artists`), both fields exist and neither is derived from the other.
#[derive(Clone, Debug)]
pub struct MediaMetadata {
    /// Track/media title. MPRIS: `xesam:title`.
    pub title: Option<String>,
    /// Track artist as one string. macOS, Windows.
    pub artist: Option<String>,
    /// Track artists one by one. MPRIS: `xesam:artist`.
    pub artists: Option<Vec<String>>,
    /// Album title. MPRIS: `xesam:album`.
    pub album_title: Option<String>,
    /// Album artist as one string. macOS, Windows.
    pub album_artist: Option<String>,
    /// Album artists one by one. MPRIS: `xesam:albumArtist`.
    pub album_artists: Option<Vec<String>>,
    /// Genre as one string. macOS.
    pub genre: Option<String>,
    /// Genres one by one. MPRIS: `xesam:genre`; Windows.
    pub genres: Option<Vec<String>>,
    /// Track number on the album or disc. MPRIS: `xesam:trackNumber`.
    pub track_number: Option<i32>,
    /// Number of tracks on the album. macOS, Windows.
    pub album_track_count: Option<i32>,
    /// Disc number of the track. MPRIS: `xesam:discNumber`.
    pub disc_number: Option<i32>,
    /// Number of discs of the album. macOS.
    pub disc_count: Option<i32>,
    /// Track duration. MPRIS: `mpris:length`, in microseconds.
    pub duration: Option<Duration>,
    /// Composers of the track. MPRIS: `xesam:composer`.
    pub composers: Option<Vec<String>>,
    /// Lyricists of the track. MPRIS: `xesam:lyricist`.
    pub lyricists: Option<Vec<String>>,
    /// Track lyrics. MPRIS: `xesam:asText`.
    pub lyrics: Option<String>,
    /// Comments about the media item. MPRIS: `xesam:comment`.
    pub comments: Option<Vec<String>>,
    /// Beats per minute. MPRIS: `xesam:audioBPM`.
    pub beats_per_minute: Option<i32>,
    /// Rating by the user, from zero to one. MPRIS: `xesam:userRating`.
    pub user_rating_01: Option<Double>,
    /// Rating computed from use, from zero to one. MPRIS: `xesam:autoRating`.
    pub auto_rating: Option<Double>,
    /// Number of times the track has been played. MPRIS: `xesam:useCount`.
    pub play_count: Option<i32>,
    /// When the track was created.
    pub content_created: Option<Date>,
    /// When the track was first played.
    pub first_played: Option<Date>,
    /// Location of the media file. MPRIS: `xesam:url`.
    pub media_url: Option<String>,
    /// Persistent identifier of the media item. macOS.
    pub media_persistent_id: Option<u64>,
    /// Kind of media. Windows.
    pub media_type_windows: Option<MediaTypeWindows>,
    /// Media id of the application. Windows.
    pub app_media_id: Option<String>,
    /// Subtitle of a video or image. Windows.
    pub subtitle: Option<String>,
}

impl MediaMetadata {
    /// The record with every field absent: nothing is playing.
    pub open spec fn empty() -> MediaMetadata {
        MediaMetadata {
            title: None,
            artist: None,
            artists: None,
            album_title: None,
            album_artist: None,
            album_artists: None,
            genre: None,
            genres: None,
            track_number: None,
            album_track_count: None,
            disc_number: None,
            disc_count: None,
            duration: None,
            composers: None,
            lyricists: None,
            lyrics: None,
            comments: None,
            beats_per_minute: None,
            user_rating_01: None,
            auto_rating: None,
            play_count: None,
            content_created: None,
            first_played: None,
            media_url: None,
            media_persistent_id: None,
            media_type_windows: None,
            app_media_id: None,
            subtitle: None,
        }
    }
}

impl Default for MediaMetadata {
    fn default() -> (metadata: MediaMetadata)
        ensures
            metadata == MediaMetadata::empty(),
    {
        MediaMetadata {
            title: None,
            artist: None,
            artists: None,
            album_title: None,
            album_artist: None,
            album_artists: None,
            genre: None,
            genres: None,
            track_number: None,
            album_track_count: None,
            disc_number: None,
            disc_count: None,
            duration: None,
            composers: None,
            lyricists: None,
            lyrics: None,
            comments: None,
            beats_per_minute: None,
            user_rating_01: None,
            auto_rating: None,
            play_count: None,
            content_created: None,
            first_played: None,
            media_url: None,
            media_persistent_id: None,
            media_type_windows: None,
            app_media_id: None,
            subtitle: None,
        }
    }
}

} // verus!
