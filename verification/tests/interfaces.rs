use souvlaki::platform::mpris::interfaces::{
    AppInterface, PlayerInterface, APP_INTERFACE, OBJECT_PATH, PLAYER_INTERFACE,
};
use souvlaki::platform::mpris::{
    InternalEvent, MprisConfig, MprisCover, MprisPermissions, ServiceState, Value,
};
use souvlaki::{
    Double, Duration, MediaControlEvent, MediaMetadata, MediaPlayback, MediaPosition, Repeat,
    SeekDirection,
};

fn double(x: f64) -> Double {
    Double::from_bits(x.to_bits())
}

fn config() -> MprisConfig {
    MprisConfig {
        dbus_name: "my_player".to_owned(),
        identity: "My Player".to_owned(),
        desktop_entry: "my-player".to_owned(),
    }
}

fn with_duration(micros: u64) -> ServiceState {
    let mut state = ServiceState::default();
    let mut metadata = MediaMetadata::default();
    metadata.duration = Some(Duration::from_micros(micros));
    state.apply(InternalEvent::SetMetadata(metadata));
    state
}

fn position_event(micros: u64) -> Option<MediaControlEvent> {
    Some(MediaControlEvent::SetPosition(MediaPosition(Duration::from_micros(micros))))
}

#[test]
fn wire_names() {
    assert_eq!(OBJECT_PATH, "/org/mpris/MediaPlayer2");
    assert_eq!(APP_INTERFACE, "org.mpris.MediaPlayer2");
    assert_eq!(PLAYER_INTERFACE, "org.mpris.MediaPlayer2.Player");
}

#[test]
fn player_methods_give_one_event_each() {
    let state = ServiceState::default();
    let player = PlayerInterface { state: &state };
    assert_eq!(player.next(), MediaControlEvent::Next);
    assert_eq!(player.previous(), MediaControlEvent::Previous);
    assert_eq!(player.pause(), MediaControlEvent::Pause);
    assert_eq!(player.play_pause(), MediaControlEvent::Toggle);
    assert_eq!(player.stop(), MediaControlEvent::Stop);
    assert_eq!(player.play(), MediaControlEvent::Play);
    assert_eq!(
        player.open_uri("file:///a.ogg".to_owned()),
        MediaControlEvent::OpenUri("file:///a.ogg".to_owned())
    );
}

#[test]
fn seek_splits_an_offset_into_direction_and_amount() {
    let state = ServiceState::default();
    let player = PlayerInterface { state: &state };
    assert_eq!(
        player.seek(5_000_000),
        MediaControlEvent::SeekBy(SeekDirection::Forward, Duration::from_micros(5_000_000))
    );
    assert_eq!(
        player.seek(-250),
        MediaControlEvent::SeekBy(SeekDirection::Backward, Duration::from_micros(250))
    );
    assert_eq!(
        player.seek(0),
        MediaControlEvent::SeekBy(SeekDirection::Backward, Duration::zero())
    );
    assert_eq!(
        player.seek(i64::MIN),
        MediaControlEvent::SeekBy(SeekDirection::Backward, Duration::from_micros(1u64 << 63))
    );
    assert_eq!(
        player.seek(i64::MAX),
        MediaControlEvent::SeekBy(SeekDirection::Forward, Duration::from_micros(i64::MAX as u64))
    );
}

#[test]
fn set_position_within_bounds_carries_the_exact_offset() {
    let state = with_duration(10_000_000);
    let player = PlayerInterface { state: &state };
    assert_eq!(player.set_position("/", 0), position_event(0));
    assert_eq!(player.set_position("/", 1), position_event(1));
    assert_eq!(player.set_position("/", 9_999_999), position_event(9_999_999));
    assert_eq!(player.set_position("/", 10_000_000), position_event(10_000_000));
    assert_eq!(player.set_position("/some/other/track", 5), position_event(5));
}

#[test]
fn set_position_out_of_bounds_gives_no_event() {
    let state = with_duration(10_000_000);
    let player = PlayerInterface { state: &state };
    assert_eq!(player.set_position("/", -1), None);
    assert_eq!(player.set_position("/", i64::MIN), None);
    assert_eq!(player.set_position("/", 10_000_001), None);
    assert_eq!(player.set_position("/", i64::MAX), None);
}

#[test]
fn set_position_without_a_known_duration_checks_only_the_sign() {
    let state = ServiceState::default();
    let player = PlayerInterface { state: &state };
    assert_eq!(player.set_position("/", i64::MAX), position_event(i64::MAX as u64));
    assert_eq!(player.set_position("/", 0), position_event(0));
    assert_eq!(player.set_position("/", -1), None);
}

#[test]
fn set_position_against_a_duration_of_fractional_microseconds() {
    let mut state = ServiceState::default();
    let mut metadata = MediaMetadata::default();
    metadata.duration = Duration::from_parts(0, 1_500);
    state.apply(InternalEvent::SetMetadata(metadata));
    let player = PlayerInterface { state: &state };
    assert_eq!(player.set_position("/", 1), position_event(1));
    assert_eq!(player.set_position("/", 2), None);
}

#[test]
fn property_writes_give_events_and_leave_the_state() {
    let state = ServiceState::default();
    let player = PlayerInterface { state: &state };
    assert_eq!(player.set_rate(double(2.0)), MediaControlEvent::SetRate(double(2.0)));
    assert_eq!(player.set_shuffle(true), MediaControlEvent::SetShuffle(true));
    assert_eq!(player.set_volume(double(0.5)), MediaControlEvent::SetVolume(double(0.5)));
    assert_eq!(
        player.set_loop_status("Track"),
        Some(MediaControlEvent::SetRepeat(Repeat::Track))
    );
    assert_eq!(
        player.set_loop_status("None"),
        Some(MediaControlEvent::SetRepeat(Repeat::Off))
    );
    assert_eq!(player.set_loop_status("Sometimes"), None);
    assert_eq!(player.rate(), double(1.0));
    assert!(!player.shuffle());
    assert_eq!(player.volume(), double(1.0));
    assert_eq!(player.loop_status(), "None");
    let config = config();
    let app = AppInterface { config: &config, state: &state };
    assert_eq!(app.set_fullscreen(true), MediaControlEvent::SetFullscreen(true));
    assert!(!app.fullscreen());
}

#[test]
fn player_properties_read_the_published_state() {
    let mut state = ServiceState::default();
    let mut permissions = MprisPermissions::none();
    permissions.can_go_next = true;
    permissions.can_pause = true;
    permissions.can_control = true;
    permissions.min_rate = double(0.5);
    permissions.max_rate = double(4.0);
    state.apply(InternalEvent::SetPermissions(permissions));
    state.apply(InternalEvent::SetPlayback(MediaPlayback::Paused {
        progress: Some(MediaPosition(Duration::from_micros(42))),
    }));
    state.apply(InternalEvent::SetLoopStatus(Repeat::Track));
    state.apply(InternalEvent::SetRate(double(1.25)));
    state.apply(InternalEvent::SetShuffle(true));
    state.apply(InternalEvent::SetVolume(double(0.1)));
    let mut metadata = MediaMetadata::default();
    metadata.title = Some("A".to_owned());
    state.apply(InternalEvent::SetMetadata(metadata));
    state.apply(InternalEvent::SetCover(Some(MprisCover::Url("u".to_owned()))));
    let player = PlayerInterface { state: &state };
    assert_eq!(player.playback_status(), "Paused");
    assert_eq!(player.loop_status(), "Track");
    assert_eq!(player.rate(), double(1.25));
    assert!(player.shuffle());
    assert_eq!(player.volume(), double(0.1));
    assert_eq!(player.position(), 42);
    assert_eq!(player.minimum_rate(), double(0.5));
    assert_eq!(player.maximum_rate(), double(4.0));
    assert!(player.can_go_next());
    assert!(!player.can_go_previous());
    assert!(!player.can_play());
    assert!(player.can_pause());
    assert!(!player.can_seek());
    assert!(player.can_control());
    let dict = player.metadata();
    assert_eq!(dict.get("xesam:title"), Some(&Value::Str("A".to_owned())));
    assert_eq!(dict.get("mpris:artUrl"), Some(&Value::Str("u".to_owned())));
    assert!(dict.same_as(&state.metadata_dict));
}

#[test]
fn app_properties_read_configuration_and_state() {
    let mut state = ServiceState::default();
    let mut permissions = MprisPermissions::none();
    permissions.can_raise = true;
    permissions.can_set_fullscreen = true;
    permissions.supported_uri_schemes = vec!["file"];
    permissions.supported_mime_types = vec!["audio/ogg", "audio/flac"];
    state.apply(InternalEvent::SetPermissions(permissions));
    state.apply(InternalEvent::SetFullscreen(true));
    let config = config();
    let app = AppInterface { config: &config, state: &state };
    assert_eq!(app.raise(), MediaControlEvent::Raise);
    assert_eq!(app.quit(), MediaControlEvent::Quit);
    assert!(!app.can_quit());
    assert!(app.can_raise());
    assert!(app.can_set_fullscreen());
    assert!(app.fullscreen());
    assert!(!app.has_tracklist());
    assert_eq!(app.identity(), "My Player");
    assert_eq!(app.desktop_entry(), "my-player");
    assert_eq!(app.supported_uri_schemes(), vec!["file".to_owned()]);
    assert_eq!(
        app.supported_mime_types(),
        vec!["audio/ogg".to_owned(), "audio/flac".to_owned()]
    );
}
