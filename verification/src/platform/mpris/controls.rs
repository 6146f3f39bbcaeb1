//! The service worker's part: what a command does to the published state,
//! and what is told to the bus about it.

use super::dict::{
    create_metadata_dict, metadata_dict, with_entry, MetadataDict, PropertyDict, Value, ValueView,
};
use super::interfaces::{APP_INTERFACE, PLAYER_INTERFACE};
use super::{InternalEvent, MprisCover, MprisPermissions, ServiceState, ServiceStateView};
use crate::metadata::MediaMetadata;
use crate::number::Double;
use crate::text::{names_equal, owned_names};
use crate::{MediaPlayback, Repeat};
use vstd::prelude::*;

verus! {

/// What the worker tells the bus after one command: a `Seeked` signal with a
/// position in microseconds, the properties of the application interface
/// and of the player interface whose values changed, and the metadata
/// dictionary where that changed. The metadata dictionary is a property of
/// the player interface, named `Metadata`.
#[derive(Debug)]
pub struct Emission {
    pub seeked: Option<i64>,
    pub app_changed: PropertyDict,
    pub player_changed: PropertyDict,
    pub metadata_changed: Option<MetadataDict>,
}

/// An [`Emission`] with its dictionaries as maps.
pub struct EmissionView {
    pub seeked: Option<i64>,
    pub app_changed: Map<Seq<char>, ValueView>,
    pub player_changed: Map<Seq<char>, ValueView>,
    pub metadata_changed: Option<Map<Seq<char>, ValueView>>,
}

impl View for Emission {
    type V = EmissionView;

    open spec fn view(&self) -> EmissionView {
        EmissionView {
            seeked: self.seeked,
            app_changed: self.app_changed@,
            player_changed: self.player_changed@,
            metadata_changed: match self.metadata_changed {
                Some(d) => Some(d@),
                None => None,
            },
        }
    }
}

impl EmissionView {
    /// The emission that tells nothing.
    pub open spec fn silent() -> EmissionView {
        EmissionView {
            seeked: None,
            app_changed: Map::empty(),
            player_changed: Map::empty(),
            metadata_changed: None,
        }
    }

    /// Whether the emission reports no change of any property.
    pub open spec fn reports_no_change(&self) -> bool {
        &&& self.app_changed == Map::<Seq<char>, ValueView>::empty()
        &&& self.player_changed == Map::<Seq<char>, ValueView>::empty()
        &&& self.metadata_changed is None
    }
}

impl Emission {
    /// The emission that tells nothing.
    pub fn silent() -> (emission: Emission)
        ensures
            emission@ == EmissionView::silent(),
    {
        Emission {
            seeked: None,
            app_changed: PropertyDict::new(),
            player_changed: PropertyDict::new(),
            metadata_changed: None,
        }
    }

    /// Whether there is nothing to tell the bus.
    pub fn is_silent(&self) -> (silent: bool)
        ensures
            silent == (self@ == EmissionView::silent()),
    {
        self.seeked.is_none() && self.app_changed.is_empty() && self.player_changed.is_empty()
            && self.metadata_changed.is_none()
    }
}

/// How long a worker waits for a command before it looks again, in
/// milliseconds: short enough that a command seems to act at once, and that
/// the order to shut down is never kept waiting by a quiet bus.
pub const POLL_INTERVAL_MILLIS: u64 = 10;

/// The name of the property that holds the metadata dictionary.
pub const METADATA_PROPERTY: &'static str = "Metadata";

/// One message from the worker to the bus.
#[derive(Debug)]
pub enum Signal {
    /// The signal `Seeked` of the player interface, with the position in microseconds.
    Seeked { position: i64 },
    /// The signal that properties of `interface` have changed: those in
    /// `changed` to the values there and, where `metadata` is present, the
    /// metadata property to that dictionary.
    PropertiesChanged {
        interface: &'static str,
        changed: PropertyDict,
        metadata: Option<MetadataDict>,
    },
}

/// What a [`Signal`] holds.
pub enum SignalView {
    Seeked { position: i64 },
    PropertiesChanged {
        interface: Seq<char>,
        changed: Map<Seq<char>, ValueView>,
        metadata: Option<Map<Seq<char>, ValueView>>,
    },
}

impl View for Signal {
    type V = SignalView;

    open spec fn view(&self) -> SignalView {
        match self {
            Signal::Seeked { position } => SignalView::Seeked { position: *position },
            Signal::PropertiesChanged { interface, changed, metadata } => {
                SignalView::PropertiesChanged {
                    interface: interface@,
                    changed: changed@,
                    metadata: match metadata {
                        Some(d) => Some(d@),
                        None => None,
                    },
                }
            },
        }
    }
}

/// What a list of signals holds.
pub open spec fn signal_views(signals: Seq<Signal>) -> Seq<SignalView> {
    signals.map_values(|s: Signal| s@)
}

/// The `Seeked` signal of an emission, if it has one.
pub open spec fn seeked_signals(emission: EmissionView) -> Seq<SignalView> {
    match emission.seeked {
        Some(position) => seq![SignalView::Seeked { position }],
        None => Seq::empty(),
    }
}

/// The signal for the application interface, if any of its properties changed.
pub open spec fn app_signals(emission: EmissionView) -> Seq<SignalView> {
    if emission.app_changed != Map::<Seq<char>, ValueView>::empty() {
        seq![
            SignalView::PropertiesChanged {
                interface: APP_INTERFACE@,
                changed: emission.app_changed,
                metadata: None,
            },
        ]
    } else {
        Seq::empty()
    }
}

/// The signal for the player interface, if any of its properties or the metadata changed.
pub open spec fn player_signals(emission: EmissionView) -> Seq<SignalView> {
    if emission.player_changed != Map::<Seq<char>, ValueView>::empty()
        || emission.metadata_changed is Some {
        seq![
            SignalView::PropertiesChanged {
                interface: PLAYER_INTERFACE@,
                changed: emission.player_changed,
                metadata: emission.metadata_changed,
            },
        ]
    } else {
        Seq::empty()
    }
}

/// The messages that tell an emission to the bus, in the order in which
/// they are sent: the position first, then the application interface, then
/// the player interface; each only where there is something to tell.
pub open spec fn signals_of(emission: EmissionView) -> Seq<SignalView> {
    seeked_signals(emission) + app_signals(emission) + player_signals(emission)
}

impl Emission {
    /// The messages that tell the emission to the bus, in the order in
    /// which they are sent.
    pub fn signals(self) -> (signals: Vec<Signal>)
        ensures
            signal_views(signals@) == signals_of(self@),
    {
        let mut signals: Vec<Signal> = Vec::new();
        if let Some(position) = self.seeked {
            signals.push(Signal::Seeked { position });
        }
        if !self.app_changed.is_empty() {
            signals.push(
                Signal::PropertiesChanged {
                    interface: APP_INTERFACE,
                    changed: self.app_changed,
                    metadata: None,
                },
            );
        }
        if !self.player_changed.is_empty() || self.metadata_changed.is_some() {
            signals.push(
                Signal::PropertiesChanged {
                    interface: PLAYER_INTERFACE,
                    changed: self.player_changed,
                    metadata: self.metadata_changed,
                },
            );
        }
        signals
    }
}

/// The change of a flag: its new value where that is not what it was.
pub open spec fn flag_change(before: bool, after: bool) -> Option<ValueView> {
    if before != after {
        Some(ValueView::Bool(after))
    } else {
        None
    }
}

/// The change of a real number: its new value where that is not what it was.
pub open spec fn double_change(before: Double, after: Double) -> Option<ValueView> {
    if before != after {
        Some(ValueView::Double(after))
    } else {
        None
    }
}

/// The change of a list of names: the new list where that is not what it was.
pub open spec fn names_change(before: Vec<&'static str>, after: Vec<&'static str>) -> Option<
    ValueView,
> {
    if before.deep_view() != after.deep_view() {
        Some(ValueView::StrList(after.deep_view()))
    } else {
        None
    }
}

/// The change of a word: the new word where `changed` holds.
pub open spec fn word_change(changed: bool, after: Seq<char>) -> Option<ValueView> {
    if changed {
        Some(ValueView::Str(after))
    } else {
        None
    }
}

/// The changes that hold one property, or none where the property did not change.
pub open spec fn one_change(key: Seq<char>, change: Option<ValueView>) -> Map<
    Seq<char>,
    ValueView,
> {
    with_entry(Map::empty(), key, change)
}

/// The properties of the application interface that differ between two sets of permissions.
pub open spec fn app_permission_changes(before: MprisPermissions, after: MprisPermissions) -> Map<
    Seq<char>,
    ValueView,
> {
    let c = Map::<Seq<char>, ValueView>::empty();
    let c = with_entry(c, "CanQuit"@, flag_change(before.can_quit, after.can_quit));
    let c = with_entry(
        c,
        "CanSetFullscreen"@,
        flag_change(before.can_set_fullscreen, after.can_set_fullscreen),
    );
    let c = with_entry(c, "CanRaise"@, flag_change(before.can_raise, after.can_raise));
    let c = with_entry(
        c,
        "SupportedUriSchemes"@,
        names_change(before.supported_uri_schemes, after.supported_uri_schemes),
    );
    let c = with_entry(
        c,
        "SupportedMimeTypes"@,
        names_change(before.supported_mime_types, after.supported_mime_types),
    );
    c
}

/// The properties of the player interface that differ between two sets of permissions.
pub open spec fn player_permission_changes(
    before: MprisPermissions,
    after: MprisPermissions,
) -> Map<Seq<char>, ValueView> {
    let c = Map::<Seq<char>, ValueView>::empty();
    let c = with_entry(c, "CanGoNext"@, flag_change(before.can_go_next, after.can_go_next));
    let c = with_entry(
        c,
        "CanGoPrevious"@,
        flag_change(before.can_go_previous, after.can_go_previous),
    );
    let c = with_entry(c, "CanPlay"@, flag_change(before.can_play, after.can_play));
    let c = with_entry(c, "CanPause"@, flag_change(before.can_pause, after.can_pause));
    let c = with_entry(c, "CanSeek"@, flag_change(before.can_seek, after.can_seek));
    let c = with_entry(c, "CanControl"@, flag_change(before.can_control, after.can_control));
    let c = with_entry(c, "MaximumRate"@, double_change(before.max_rate, after.max_rate));
    let c = with_entry(c, "MinimumRate"@, double_change(before.min_rate, after.min_rate));
    c
}

/// The state after a command: the field that the command names holds the
/// command's value, the dictionary follows metadata and cover, and nothing
/// else changes. The order to shut down changes nothing.
pub open spec fn applied(state: ServiceStateView, event: InternalEvent) -> ServiceStateView {
    match event {
        InternalEvent::SetPermissions(permissions) => ServiceStateView { permissions, ..state },
        InternalEvent::SetMetadata(metadata) => ServiceStateView {
            metadata,
            metadata_dict: metadata_dict(metadata, state.cover_url),
            ..state
        },
        InternalEvent::SetCover(cover) => {
            let cover_url = match cover {
                Some(MprisCover::Url(url)) => Some(url),
                None => None,
            };
            ServiceStateView {
                cover_url,
                metadata_dict: metadata_dict(state.metadata, cover_url),
                ..state
            }
        },
        InternalEvent::SetPlayback(playback_status) => ServiceStateView {
            playback_status,
            ..state
        },
        InternalEvent::SetLoopStatus(loop_status) => ServiceStateView { loop_status, ..state },
        InternalEvent::SetRate(rate) => ServiceStateView { rate, ..state },
        InternalEvent::SetShuffle(shuffle) => ServiceStateView { shuffle, ..state },
        InternalEvent::SetVolume(volume) => ServiceStateView { volume, ..state },
        InternalEvent::SetFullscreen(fullscreen) => ServiceStateView { fullscreen, ..state },
        InternalEvent::Kill => state,
    }
}

/// What a command makes the worker tell the bus: each property whose
/// published value is no longer what it was, with its new value, and
/// a `Seeked` signal with the new position for every new playback status.
pub open spec fn emitted(state: ServiceStateView, event: InternalEvent) -> EmissionView {
    let silent = EmissionView::silent();
    match event {
        InternalEvent::SetPermissions(permissions) => EmissionView {
            app_changed: app_permission_changes(state.permissions, permissions),
            player_changed: player_permission_changes(state.permissions, permissions),
            ..silent
        },
        InternalEvent::SetMetadata(_) | InternalEvent::SetCover(_) => {
            let dict = applied(state, event).metadata_dict;
            EmissionView {
                metadata_changed: if dict != state.metadata_dict {
                    Some(dict)
                } else {
                    None
                },
                ..silent
            }
        },
        InternalEvent::SetPlayback(playback) => EmissionView {
            seeked: Some(playback.spec_micros()),
            player_changed: one_change(
                "PlaybackStatus"@,
                word_change(
                    !playback.spec_same_kind(&state.playback_status),
                    playback.spec_dbus_value(),
                ),
            ),
            ..silent
        },
        InternalEvent::SetLoopStatus(loop_status) => EmissionView {
            player_changed: one_change(
                "LoopStatus"@,
                word_change(loop_status != state.loop_status, loop_status.spec_dbus_value()),
            ),
            ..silent
        },
        InternalEvent::SetRate(rate) => EmissionView {
            player_changed: one_change("Rate"@, double_change(state.rate, rate)),
            ..silent
        },
        InternalEvent::SetShuffle(shuffle) => EmissionView {
            player_changed: one_change("Shuffle"@, flag_change(state.shuffle, shuffle)),
            ..silent
        },
        InternalEvent::SetVolume(volume) => EmissionView {
            player_changed: one_change("Volume"@, double_change(state.volume, volume)),
            ..silent
        },
        InternalEvent::SetFullscreen(fullscreen) => EmissionView {
            app_changed: one_change("Fullscreen"@, flag_change(state.fullscreen, fullscreen)),
            ..silent
        },
        InternalEvent::Kill => silent,
    }
}

impl PropertyDict {
    /// Sets a flag under `key` where it is not what it was.
    pub fn insert_flag_change(&mut self, key: &str, before: bool, after: bool)
        ensures
            final(self)@ == with_entry(old(self)@, key@, flag_change(before, after)),
    {
        reveal(with_entry);
        if before != after {
            self.insert(key, Value::Bool(after));
        }
    }

    /// Sets a real number under `key` where it is not what it was.
    pub fn insert_double_change(&mut self, key: &str, before: Double, after: Double)
        ensures
            final(self)@ == with_entry(old(self)@, key@, double_change(before, after)),
    {
        reveal(with_entry);
        if before.bits != after.bits {
            self.insert(key, Value::Double(after));
        }
    }

    /// Sets a list of names under `key` where it is not what it was.
    pub fn insert_names_change(
        &mut self,
        key: &str,
        before: &Vec<&'static str>,
        after: &Vec<&'static str>,
    )
        ensures
            final(self)@ == with_entry(old(self)@, key@, names_change(*before, *after)),
    {
        reveal(with_entry);
        if !names_equal(before, after) {
            self.insert(key, Value::StrList(owned_names(after)));
        }
    }

    /// Sets a word under `key` where `changed` holds.
    pub fn insert_word_change(&mut self, key: &str, changed: bool, after: &str)
        ensures
            final(self)@ == with_entry(old(self)@, key@, word_change(changed, after@)),
    {
        reveal(with_entry);
        if changed {
            self.insert(key, Value::Str(after.to_owned()));
        }
    }
}

/// The properties of the application interface that differ between two sets of permissions.
pub fn changed_app_permissions(before: &MprisPermissions, after: &MprisPermissions) -> (changes:
    PropertyDict)
    ensures
        changes@ == app_permission_changes(*before, *after),
{
    let mut app = PropertyDict::new();
    app.insert_flag_change("CanQuit", before.can_quit, after.can_quit);
    app.insert_flag_change("CanSetFullscreen", before.can_set_fullscreen, after.can_set_fullscreen);
    app.insert_flag_change("CanRaise", before.can_raise, after.can_raise);
    app.insert_names_change(
        "SupportedUriSchemes",
        &before.supported_uri_schemes,
        &after.supported_uri_schemes,
    );
    app.insert_names_change(
        "SupportedMimeTypes",
        &before.supported_mime_types,
        &after.supported_mime_types,
    );
    app
}

/// The properties of the player interface that differ between two sets of permissions.
pub fn changed_player_permissions(before: &MprisPermissions, after: &MprisPermissions) -> (changes:
    PropertyDict)
    ensures
        changes@ == player_permission_changes(*before, *after),
{
    let mut player = PropertyDict::new();
    player.insert_flag_change("CanGoNext", before.can_go_next, after.can_go_next);
    player.insert_flag_change("CanGoPrevious", before.can_go_previous, after.can_go_previous);
    player.insert_flag_change("CanPlay", before.can_play, after.can_play);
    player.insert_flag_change("CanPause", before.can_pause, after.can_pause);
    player.insert_flag_change("CanSeek", before.can_seek, after.can_seek);
    player.insert_flag_change("CanControl", before.can_control, after.can_control);
    player.insert_double_change("MaximumRate", before.max_rate, after.max_rate);
    player.insert_double_change("MinimumRate", before.min_rate, after.min_rate);
    player
}

impl ServiceState {
    /// Replaces the dictionary by `dict` and says whether that changes what is published.
    fn publish_dict(&mut self, dict: MetadataDict) -> (emission: Emission)
        ensures
            final(self)@ == (ServiceStateView { metadata_dict: dict@, ..old(self)@ }),
            emission@ == (EmissionView {
                metadata_changed: if dict@ != old(self)@.metadata_dict {
                    Some(dict@)
                } else {
                    None
                },
                ..EmissionView::silent()
            }),
    {
        let mut emission = Emission::silent();
        if !dict.same_as(&self.metadata_dict) {
            emission.metadata_changed = Some(dict.clone());
        }
        self.metadata_dict = dict;
        emission
    }

    /// Takes new permissions, and reports each published permission that differs.
    pub fn set_permissions(&mut self, permissions: MprisPermissions) -> (emission: Emission)
        ensures
            final(self)@ == applied(old(self)@, InternalEvent::SetPermissions(permissions)),
            emission@ == emitted(old(self)@, InternalEvent::SetPermissions(permissions)),
    {
        let app = changed_app_permissions(&self.permissions, &permissions);
        let player = changed_player_permissions(&self.permissions, &permissions);
        self.permissions = permissions;
        Emission { seeked: None, app_changed: app, player_changed: player, metadata_changed: None }
    }

    /// Takes new metadata, rebuilds the dictionary and reports it where it differs.
    pub fn set_metadata(&mut self, metadata: MediaMetadata) -> (emission: Emission)
        ensures
            final(self)@ == applied(old(self)@, InternalEvent::SetMetadata(metadata)),
            emission@ == emitted(old(self)@, InternalEvent::SetMetadata(metadata)),
    {
        let dict = create_metadata_dict(&metadata, &self.cover_url);
        self.metadata = metadata;
        self.publish_dict(dict)
    }

    /// Takes a new cover, rebuilds the dictionary and reports it where it differs.
    pub fn set_cover(&mut self, cover: Option<MprisCover>) -> (emission: Emission)
        ensures
            final(self)@ == applied(old(self)@, InternalEvent::SetCover(cover)),
            emission@ == emitted(old(self)@, InternalEvent::SetCover(cover)),
    {
        let cover_url = MprisCover::to_url(cover);
        let dict = create_metadata_dict(&self.metadata, &cover_url);
        self.cover_url = cover_url;
        self.publish_dict(dict)
    }

    /// Takes a new playback status: signals its position, and reports the
    /// status where it is of another kind than before.
    pub fn set_playback(&mut self, playback: MediaPlayback) -> (emission: Emission)
        ensures
            final(self)@ == applied(old(self)@, InternalEvent::SetPlayback(playback)),
            emission@ == emitted(old(self)@, InternalEvent::SetPlayback(playback)),
    {
        let mut player = PropertyDict::new();
        player.insert_word_change(
            "PlaybackStatus",
            !playback.same_kind(&self.playback_status),
            playback.to_dbus_value(),
        );
        let seeked = Some(playback.to_micros());
        self.playback_status = playback;
        Emission {
            seeked,
            app_changed: PropertyDict::new(),
            player_changed: player,
            metadata_changed: None,
        }
    }

    /// Takes a new repeat mode, and reports it where it differs.
    pub fn set_loop_status(&mut self, loop_status: Repeat) -> (emission: Emission)
        ensures
            final(self)@ == applied(old(self)@, InternalEvent::SetLoopStatus(loop_status)),
            emission@ == emitted(old(self)@, InternalEvent::SetLoopStatus(loop_status)),
    {
        let mut emission = Emission::silent();
        emission.player_changed.insert_word_change(
            "LoopStatus",
            loop_status != self.loop_status,
            loop_status.to_dbus_value(),
        );
        self.loop_status = loop_status;
        emission
    }

    /// Takes a new rate, and reports it where it differs.
    pub fn set_rate(&mut self, rate: Double) -> (emission: Emission)
        ensures
            final(self)@ == applied(old(self)@, InternalEvent::SetRate(rate)),
            emission@ == emitted(old(self)@, InternalEvent::SetRate(rate)),
    {
        let mut emission = Emission::silent();
        emission.player_changed.insert_double_change("Rate", self.rate, rate);
        self.rate = rate;
        emission
    }

    /// Takes a new shuffle flag, and reports it where it differs.
    pub fn set_shuffle(&mut self, shuffle: bool) -> (emission: Emission)
        ensures
            final(self)@ == applied(old(self)@, InternalEvent::SetShuffle(shuffle)),
            emission@ == emitted(old(self)@, InternalEvent::SetShuffle(shuffle)),
    {
        let mut emission = Emission::silent();
        emission.player_changed.insert_flag_change("Shuffle", self.shuffle, shuffle);
        self.shuffle = shuffle;
        emission
    }

    /// Takes a new volume, and reports it where it differs.
    pub fn set_volume(&mut self, volume: Double) -> (emission: Emission)
        ensures
            final(self)@ == applied(old(self)@, InternalEvent::SetVolume(volume)),
            emission@ == emitted(old(self)@, InternalEvent::SetVolume(volume)),
    {
        let mut emission = Emission::silent();
        emission.player_changed.insert_double_change("Volume", self.volume, volume);
        self.volume = volume;
        emission
    }

    /// Takes a new fullscreen flag, and reports it where it differs.
    pub fn set_fullscreen(&mut self, fullscreen: bool) -> (emission: Emission)
        ensures
            final(self)@ == applied(old(self)@, InternalEvent::SetFullscreen(fullscreen)),
            emission@ == emitted(old(self)@, InternalEvent::SetFullscreen(fullscreen)),
    {
        let mut emission = Emission::silent();
        emission.app_changed.insert_flag_change("Fullscreen", self.fullscreen, fullscreen);
        self.fullscreen = fullscreen;
        emission
    }

    /// Takes one command: the state becomes what the command asks for, and
    /// the result is what the bus is to be told. Only what differs from the
    /// value published before is reported as changed.
    pub fn apply(&mut self, event: InternalEvent) -> (emission: Emission)
        ensures
            final(self)@ == applied(old(self)@, event),
            emission@ == emitted(old(self)@, event),
            old(self)@.coherent() ==> final(self)@.coherent(),
    {
        match event {
            InternalEvent::SetPermissions(permissions) => self.set_permissions(permissions),
            InternalEvent::SetMetadata(metadata) => self.set_metadata(metadata),
            InternalEvent::SetCover(cover) => self.set_cover(cover),
            InternalEvent::SetPlayback(playback) => self.set_playback(playback),
            InternalEvent::SetLoopStatus(loop_status) => self.set_loop_status(loop_status),
            InternalEvent::SetRate(rate) => self.set_rate(rate),
            InternalEvent::SetShuffle(shuffle) => self.set_shuffle(shuffle),
            InternalEvent::SetVolume(volume) => self.set_volume(volume),
            InternalEvent::SetFullscreen(fullscreen) => self.set_fullscreen(fullscreen),
            InternalEvent::Kill => Emission::silent(),
        }
    }
}

/// The place of the first order to shut down among `events`, or their number where there is none.
pub open spec fn first_shutdown(events: Seq<InternalEvent>) -> int
    decreases events.len(),
{
    if events.len() == 0 {
        0
    } else {
        let before = first_shutdown(events.drop_last());
        if before < events.len() - 1 {
            before
        } else if events.last() is Kill {
            events.len() - 1
        } else {
            events.len() as int
        }
    }
}

/// The commands that a worker serves out of `events`: those before the first order to shut down.
pub open spec fn served(events: Seq<InternalEvent>) -> Seq<InternalEvent> {
    events.take(first_shutdown(events))
}

/// The state after taking `events` one after the other.
pub open spec fn ran(state: ServiceStateView, events: Seq<InternalEvent>) -> ServiceStateView
    decreases events.len(),
{
    if events.len() == 0 {
        state
    } else {
        applied(ran(state, events.drop_last()), events.last())
    }
}

/// What the bus is told while taking `events` one after the other: one
/// emission for each command, in the order of the commands.
pub open spec fn told(state: ServiceStateView, events: Seq<InternalEvent>) -> Seq<EmissionView>
    decreases events.len(),
{
    if events.len() == 0 {
        Seq::empty()
    } else {
        told(state, events.drop_last()).push(
            emitted(ran(state, events.drop_last()), events.last()),
        )
    }
}

/// What a list of emissions holds.
pub open spec fn emission_views(emissions: Seq<Emission>) -> Seq<EmissionView> {
    emissions.map_values(|e: Emission| e@)
}

/// `first_shutdown` is the one place that holds an order to shut down and has none before it.
pub proof fn lemma_first_shutdown(events: Seq<InternalEvent>, place: int)
    requires
        0 <= place <= events.len(),
        forall|j: int| 0 <= j < place ==> !(events[j] is Kill),
        place < events.len() ==> events[place] is Kill,
    ensures
        first_shutdown(events) == place,
    decreases events.len(),
{
    if events.len() > 0 {
        let front = events.drop_last();
        if place < events.len() - 1 {
            lemma_first_shutdown(front, place);
        } else {
            lemma_first_shutdown(front, events.len() - 1);
        }
    }
}

/// What `first_shutdown` says of the events around it.
pub proof fn lemma_first_shutdown_bounds(events: Seq<InternalEvent>)
    ensures
        0 <= first_shutdown(events) <= events.len(),
        forall|j: int| 0 <= j < first_shutdown(events) ==> !(events[j] is Kill),
        first_shutdown(events) < events.len() ==> events[first_shutdown(events)] is Kill,
    decreases events.len(),
{
    if events.len() > 0 {
        let front = events.drop_last();
        lemma_first_shutdown_bounds(front);
        assert forall|j: int| 0 <= j < first_shutdown(events) implies !(events[j] is Kill) by {
            if j < front.len() {
                assert(front[j] == events[j]);
            }
        }
    }
}

/// What a worker did with one command.
#[derive(Debug)]
pub enum Step {
    /// The command was taken, and this is to be told to the bus.
    Served(Emission),
    /// The command was the order to shut down: the worker stops.
    Shutdown,
}

/// What a worker did with a batch of commands.
#[derive(Debug)]
pub struct Drained {
    /// What is to be told to the bus, one emission for each command served, in their order.
    pub emissions: Vec<Emission>,
    /// Whether the batch held the order to shut down.
    pub shutdown: bool,
}

impl ServiceState {
    /// Takes one command as a worker does: the order to shut down stops the
    /// worker and changes nothing, any other command is applied.
    pub fn step(&mut self, event: InternalEvent) -> (step: Step)
        ensures
            event is Kill ==> step is Shutdown && final(self)@ == old(self)@,
            !(event is Kill) ==> step is Served && final(self)@ == applied(old(self)@, event)
                && step->Served_0@ == emitted(old(self)@, event),
    {
        match event {
            InternalEvent::Kill => Step::Shutdown,
            other => Step::Served(self.apply(other)),
        }
    }

    /// Takes a batch of commands in their order, up to the first order to
    /// shut down. What stands behind that order in the batch is dropped.
    pub fn drain(&mut self, pending: Vec<InternalEvent>) -> (drained: Drained)
        ensures
            final(self)@ == ran(old(self)@, served(pending@)),
            emission_views(drained.emissions@) == told(old(self)@, served(pending@)),
            drained.shutdown == (first_shutdown(pending@) < pending.len()),
    {
        let ghost start = self@;
        let ghost events = pending@;
        let mut emissions: Vec<Emission> = Vec::new();
        let mut shutdown = false;
        for event in it: pending.into_iter()
            invariant_except_break
                !shutdown,
                forall|j: int| 0 <= j < it.index() ==> !(events[j] is Kill),
                self@ == ran(start, events.take(it.index() as int)),
                emission_views(emissions@) == told(start, events.take(it.index() as int)),
            invariant
                it.seq() == events,
            ensures
                shutdown ==> first_shutdown(events) < events.len(),
                shutdown ==> self@ == ran(start, served(events)),
                shutdown ==> emission_views(emissions@) == told(start, served(events)),
                !shutdown ==> forall|j: int| 0 <= j < events.len() ==> !(events[j] is Kill),
                !shutdown ==> self@ == ran(start, events.take(events.len() as int)),
                !shutdown ==> emission_views(emissions@) == told(
                    start,
                    events.take(events.len() as int),
                ),
        {
            proof {
                assert(events.take(it.index() + 1).drop_last() =~= events.take(it.index() as int));
            }
            match self.step(event) {
                Step::Shutdown => {
                    shutdown = true;
                    proof {
                        lemma_first_shutdown(events, it.index() as int);
                    }
                    break;
                },
                Step::Served(emission) => {
                    emissions.push(emission);
                },
            }
        }
        proof {
            if !shutdown {
                lemma_first_shutdown(events, events.len() as int);
            }
        }
        Drained { emissions, shutdown }
    }
}

} // verus!
