//! The MPRIS session: its configuration, its errors, the state it publishes
//! and the commands that change it.

use crate::metadata::MediaMetadata;
use crate::number::Double;
use crate::{MediaPlayback, Repeat};
use base64::Engine;
use vstd::prelude::*;
use vstd::string::StringExecFns;

pub mod controls;
pub mod dict;
pub mod interfaces;
pub mod laws;
pub mod session;

pub use controls::{Emission, EmissionView};
pub use dict::{create_metadata_dict, MetadataDict, Property, PropertyDict, Value, ValueView};
pub use session::Mpris;

verus! {

/// MPRIS-specific configuration needed to create media controls.
#[derive(Clone, Debug)]
pub struct MprisConfig {
    /// The last part of the well-known bus name. It should follow the D-Bus
    /// rules for names.
    pub dbus_name: String,
    /// A friendly name to identify the media player to users.
    pub identity: String,
    /// The basename of an installed .desktop file, without its extension.
    pub desktop_entry: String,
}

/// A platform-specific error.
#[derive(Debug)]
pub enum MprisError {
    /// The bus refused or dropped the connection; the text is the bus's own.
    DbusError(String),
    /// No service worker is attached.
    ThreadNotRunning,
    /// The service worker ended abnormally.
    ThreadPanicked,
    /// No image type could be told from the bytes of a cover.
    InvalidCoverBytes,
}

impl MprisError {
    /// What the error says.
    pub open spec fn spec_message(&self) -> Seq<char> {
        match self {
            MprisError::DbusError(text) => "internal D-Bus error: "@ + text@,
            MprisError::ThreadNotRunning =>
                "D-bus service thread not running. Run MediaControls::attach()"@,
            MprisError::ThreadPanicked => "D-Bus service thread panicked"@,
            MprisError::InvalidCoverBytes =>
                "Couldnt't infer mimetype from cover image bytes. Make sure the image data is valid."@,
        }
    }

    /// What the error says.
    pub fn message(&self) -> (text: String)
        ensures
            text@ == self.spec_message(),
    {
        match self {
            MprisError::DbusError(text) => String::from_str("internal D-Bus error: ").concat(
                text.as_str(),
            ),
            MprisError::ThreadNotRunning => String::from_str(
                "D-bus service thread not running. Run MediaControls::attach()",
            ),
            MprisError::ThreadPanicked => String::from_str("D-Bus service thread panicked"),
            MprisError::InvalidCoverBytes => String::from_str(
                "Couldnt't infer mimetype from cover image bytes. Make sure the image data is valid.",
            ),
        }
    }
}

/// The MIME type that `infer` tells from the first bytes of `data`, if it
/// knows the format.
pub uninterp spec fn inferred_mime_type(data: Seq<u8>) -> Option<Seq<char>>;

/// The base64 text of `data` in the URL-safe alphabet, padded.
pub uninterp spec fn base64_url_safe(data: Seq<u8>) -> Seq<char>;

/// Calls `infer::get` and takes the MIME type of what it finds. The result
/// depends on the bytes alone: `infer` matches them against its fixed table
/// of formats.
#[verifier::external_body]
fn infer_mime_type(data: &[u8]) -> (mime: Option<String>)
    ensures
        mime.deep_view() == inferred_mime_type(data@),
{
    infer::get(data).map(|kind| kind.mime_type().to_string())
}

/// Calls `Engine::encode_string` of base64's `URL_SAFE` engine, which
/// appends the encoding of `data` to `out`.
#[verifier::external_body]
fn encode_url_safe(data: &[u8], out: &mut String)
    ensures
        final(out)@ == old(out)@ + base64_url_safe(data@),
{
    base64::engine::general_purpose::URL_SAFE.encode_string(data, out)
}

/// Definition/reference to cover art for MPRIS platforms.
#[derive(Clone, Debug)]
pub enum MprisCover {
    /// Sets the metadata field `mpris:artUrl` to this string.
    Url(String),
}

impl MprisCover {
    /// The text of a data URL with the given MIME type and base64 payload.
    pub open spec fn spec_data_url(mime: Seq<char>, payload: Seq<char>) -> Seq<char> {
        "data:"@ + mime + ";base64,"@ + payload
    }

    /// The cover URL that is published, where a cover is set.
    pub fn to_url(cover: Option<MprisCover>) -> (url: Option<String>)
        ensures
            url == match cover {
                Some(MprisCover::Url(cover_url)) => Some(cover_url),
                None => None,
            },
    {
        match cover {
            Some(MprisCover::Url(cover_url)) => Some(cover_url),
            None => None,
        }
    }

    /// The start of a data URL with the given MIME type: all but the payload.
    pub fn data_url_head(mime: &str) -> (head: String)
        ensures
            head@ == MprisCover::spec_data_url(mime@, Seq::empty()),
    {
        let mut head = String::from_str("data:");
        head.append(mime);
        head.append(";base64,");
        head
    }

    /// The cover for the outcome of telling the image type of `image_data`:
    /// a data URL with the bytes in base64 where a type was found, and an
    /// error where none was.
    pub fn from_inferred(mime: Option<String>, image_data: &[u8]) -> (cover: Result<
        MprisCover,
        MprisError,
    >)
        ensures
            mime is None ==> cover is Err && cover->Err_0 is InvalidCoverBytes,
            mime is Some ==> cover is Ok && cover->Ok_0->Url_0@ == MprisCover::spec_data_url(
                mime->Some_0@,
                base64_url_safe(image_data@),
            ),
    {
        match mime {
            None => Err(MprisError::InvalidCoverBytes),
            Some(mimetype) => {
                let mut out = MprisCover::data_url_head(mimetype.as_str());
                encode_url_safe(image_data, &mut out);
                Ok(MprisCover::Url(out))
            },
        }
    }

    /// Sets the `mpris:artUrl` field to a base64-encoded data URL of the
    /// provided image bytes. It fails where no image type can be told from
    /// the bytes.
    pub fn from_bytes(image_data: &[u8]) -> (cover: Result<MprisCover, MprisError>)
        ensures
            inferred_mime_type(image_data@) is None ==> cover is Err && cover->Err_0
                is InvalidCoverBytes,
            inferred_mime_type(image_data@) is Some ==> cover is Ok && cover->Ok_0->Url_0@
                == MprisCover::spec_data_url(
                inferred_mime_type(image_data@)->Some_0,
                base64_url_safe(image_data@),
            ),
    {
        let mime = infer_mime_type(image_data);
        MprisCover::from_inferred(mime, image_data)
    }
}

/// Permissions determining which actions the user can take. The service
/// enforces none of them: it publishes them and leaves the rest to the
/// application.
#[derive(Clone, Debug, PartialEq)]
pub struct MprisPermissions {
    pub can_quit: bool,
    pub can_set_fullscreen: bool,
    pub can_raise: bool,
    pub supported_uri_schemes: Vec<&'static str>,
    pub supported_mime_types: Vec<&'static str>,
    pub can_go_next: bool,
    pub can_go_previous: bool,
    pub can_play: bool,
    pub can_pause: bool,
    pub can_seek: bool,
    pub can_control: bool,
    pub min_rate: Double,
    pub max_rate: Double,
}

impl MprisPermissions {
    /// The permissions of a player that allows nothing, at the rate of one.
    pub open spec fn spec_none(&self) -> bool {
        &&& !self.can_quit
        &&& !self.can_set_fullscreen
        &&& !self.can_raise
        &&& self.supported_uri_schemes@.len() == 0
        &&& self.supported_mime_types@.len() == 0
        &&& !self.can_go_next
        &&& !self.can_go_previous
        &&& !self.can_play
        &&& !self.can_pause
        &&& !self.can_seek
        &&& !self.can_control
        &&& self.min_rate == Double { bits: crate::number::ONE_BITS }
        &&& self.max_rate == Double { bits: crate::number::ONE_BITS }
    }

    pub fn none() -> (permissions: MprisPermissions)
        ensures
            permissions.spec_none(),
    {
        MprisPermissions {
            can_quit: false,
            can_set_fullscreen: false,
            can_raise: false,
            supported_uri_schemes: Vec::new(),
            supported_mime_types: Vec::new(),
            can_go_next: false,
            can_go_previous: false,
            can_play: false,
            can_pause: false,
            can_seek: false,
            can_control: false,
            min_rate: Double::one(),
            max_rate: Double::one(),
        }
    }

    /// The same permissions with other limits of the playback rate.
    pub fn with_rate_limits(self, min: Double, max: Double) -> (permissions: MprisPermissions)
        ensures
            permissions == (MprisPermissions { min_rate: min, max_rate: max, ..self }),
    {
        let mut permissions = self;
        permissions.min_rate = min;
        permissions.max_rate = max;
        permissions
    }
}

/// A command to the service worker: one for each thing that the application
/// can set, and the order to shut down.
#[derive(Clone, Debug)]
pub enum InternalEvent {
    SetPermissions(MprisPermissions),
    SetMetadata(MediaMetadata),
    SetCover(Option<MprisCover>),
    SetPlayback(MediaPlayback),
    SetLoopStatus(Repeat),
    SetRate(Double),
    SetShuffle(bool),
    SetVolume(Double),
    SetFullscreen(bool),
    Kill,
}

/// What the session publishes: the snapshot of what is playing, with the
/// metadata dictionary built from it.
#[derive(Debug)]
pub struct ServiceState {
    pub permissions: MprisPermissions,
    pub fullscreen: bool,
    pub playback_status: MediaPlayback,
    pub loop_status: Repeat,
    pub rate: Double,
    pub shuffle: bool,
    pub metadata: MediaMetadata,
    pub metadata_dict: MetadataDict,
    pub cover_url: Option<String>,
    pub volume: Double,
}

/// A [`ServiceState`] with its dictionary as a map.
pub struct ServiceStateView {
    pub permissions: MprisPermissions,
    pub fullscreen: bool,
    pub playback_status: MediaPlayback,
    pub loop_status: Repeat,
    pub rate: Double,
    pub shuffle: bool,
    pub metadata: MediaMetadata,
    pub metadata_dict: Map<Seq<char>, ValueView>,
    pub cover_url: Option<String>,
    pub volume: Double,
}

impl View for ServiceState {
    type V = ServiceStateView;

    open spec fn view(&self) -> ServiceStateView {
        ServiceStateView {
            permissions: self.permissions,
            fullscreen: self.fullscreen,
            playback_status: self.playback_status,
            loop_status: self.loop_status,
            rate: self.rate,
            shuffle: self.shuffle,
            metadata: self.metadata,
            metadata_dict: self.metadata_dict@,
            cover_url: self.cover_url,
            volume: self.volume,
        }
    }
}

impl ServiceStateView {
    /// Whether the dictionary is the one that the metadata and the cover give.
    pub open spec fn coherent(&self) -> bool {
        self.metadata_dict == dict::metadata_dict(self.metadata, self.cover_url)
    }

    /// Whether this is the state that a worker starts from: nothing is
    /// playing, nothing is allowed, rate and volume are one.
    pub open spec fn initial(&self) -> bool {
        &&& self.permissions.spec_none()
        &&& !self.fullscreen
        &&& self.playback_status == MediaPlayback::Stopped
        &&& self.loop_status == Repeat::Off
        &&& self.rate == Double { bits: crate::number::ONE_BITS }
        &&& !self.shuffle
        &&& self.metadata == MediaMetadata::empty()
        &&& self.cover_url is None
        &&& self.volume == Double { bits: crate::number::ONE_BITS }
        &&& self.coherent()
    }
}

impl Default for ServiceState {
    fn default() -> (state: ServiceState)
        ensures
            state@.initial(),
    {
        let metadata = MediaMetadata::default();
        let metadata_dict = create_metadata_dict(&metadata, &None);
        ServiceState {
            permissions: MprisPermissions::none(),
            fullscreen: false,
            playback_status: MediaPlayback::Stopped,
            loop_status: Repeat::Off,
            rate: Double::one(),
            shuffle: false,
            metadata,
            metadata_dict,
            cover_url: None,
            volume: Double::one(),
        }
    }
}

} // verus!
