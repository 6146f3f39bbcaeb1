use souvlaki::number::ONE_BITS;
use souvlaki::platform::apple;
use souvlaki::platform::windows;
use souvlaki::text::{clone_strings, names_equal, owned_names, str_is, strings_equal};
use souvlaki::{
    Double, Duration, MediaControlEvent, MediaPlayback, MediaPosition, MediaTypeWindows, Repeat,
};

#[test]
fn playback_status_names() {
    assert_eq!(MediaPlayback::Stopped.to_dbus_value(), "Stopped");
    assert_eq!(MediaPlayback::Paused { progress: None }.to_dbus_value(), "Paused");
    assert_eq!(MediaPlayback::Playing { progress: None }.to_dbus_value(), "Playing");
}

#[test]
fn repeat_names_round_trip() {
    assert_eq!(Repeat::Off.to_dbus_value(), "None");
    assert_eq!(Repeat::Track.to_dbus_value(), "Track");
    assert_eq!(Repeat::Playlist.to_dbus_value(), "Playlist");
    assert_eq!(Repeat::from_dbus_value("None"), Some(Repeat::Off));
    assert_eq!(Repeat::from_dbus_value("Track"), Some(Repeat::Track));
    assert_eq!(Repeat::from_dbus_value("Playlist"), Some(Repeat::Playlist));
}

#[test]
fn unknown_repeat_names_decode_to_nothing() {
    assert_eq!(Repeat::from_dbus_value("playlist"), None);
    assert_eq!(Repeat::from_dbus_value("Off"), None);
    assert_eq!(Repeat::from_dbus_value(""), None);
    assert_eq!(Repeat::from_dbus_value("Track "), None);
}

#[test]
fn playback_position_in_micros() {
    let at = MediaPosition(Duration::from_micros(1_500_000));
    assert_eq!(MediaPlayback::Playing { progress: Some(at) }.to_micros(), 1_500_000);
    assert_eq!(MediaPlayback::Paused { progress: Some(at) }.to_micros(), 1_500_000);
    assert_eq!(MediaPlayback::Playing { progress: None }.to_micros(), 0);
    assert_eq!(MediaPlayback::Stopped.to_micros(), 0);
}

#[test]
fn playback_position_beyond_the_bus_reads_zero() {
    let far = MediaPosition(Duration::from_parts(u64::MAX, 0).unwrap());
    assert_eq!(MediaPlayback::Playing { progress: Some(far) }.to_micros(), 0);
    let edge = MediaPosition(Duration::from_micros(i64::MAX as u64));
    assert_eq!(MediaPlayback::Playing { progress: Some(edge) }.to_micros(), i64::MAX);
}

#[test]
fn playback_kinds() {
    let at = MediaPosition(Duration::from_micros(7));
    let playing = MediaPlayback::Playing { progress: None };
    assert!(playing.same_kind(&MediaPlayback::Playing { progress: Some(at) }));
    assert!(!playing.same_kind(&MediaPlayback::Paused { progress: None }));
    assert!(!playing.same_kind(&MediaPlayback::Stopped));
    assert!(MediaPlayback::Stopped.same_kind(&MediaPlayback::Stopped));
    assert_eq!(MediaPlayback::Paused { progress: Some(at) }.progress(), Some(at));
    assert_eq!(MediaPlayback::Stopped.progress(), None);
}

#[test]
fn duration_from_micros_and_back() {
    let d = Duration::from_micros(3_000_001);
    assert_eq!(d.as_secs(), 3);
    assert_eq!(d.subsec_nanos(), 1_000);
    assert_eq!(d.as_micros(), 3_000_001);
    assert_eq!(Duration::from_micros(0), Duration::zero());
    assert_eq!(Duration::from_micros(u64::MAX).as_micros(), u64::MAX as u128);
}

#[test]
fn duration_from_parts() {
    let d = Duration::from_parts(2, 999_999_999).unwrap();
    assert_eq!(d.as_secs(), 2);
    assert_eq!(d.subsec_nanos(), 999_999_999);
    assert_eq!(d.as_micros(), 2_999_999);
    assert_eq!(Duration::from_parts(2, 1_000_000_000), None);
    assert_eq!(Duration::from_parts(1, 500_000), Some(Duration::from_micros(1_000_500)));
    let longest = Duration::from_parts(u64::MAX, 999_999_999).unwrap();
    assert_eq!(longest.as_micros(), u64::MAX as u128 * 1_000_000 + 999_999);
}

#[test]
fn double_keeps_its_bits() {
    let half = Double::from_bits(0.5f64.to_bits());
    assert_eq!(f64::from_bits(half.to_bits()), 0.5);
    assert_eq!(Double::one().to_bits(), 1.0f64.to_bits());
    assert_eq!(ONE_BITS, 1.0f64.to_bits());
    assert_ne!(Double::from_bits(0.0f64.to_bits()), Double::from_bits((-0.0f64).to_bits()));
}

#[test]
fn windows_numbers() {
    assert_eq!(MediaTypeWindows::Unknown.into_native(), 0);
    assert_eq!(MediaTypeWindows::Music.into_native(), 1);
    assert_eq!(MediaTypeWindows::Video.into_native(), 2);
    assert_eq!(MediaTypeWindows::Image.into_native(), 3);
    assert_eq!(Repeat::Off.into_native(), 0);
    assert_eq!(Repeat::Track.into_native(), 1);
    assert_eq!(Repeat::Playlist.into_native(), 2);
    assert_eq!(Repeat::from_native(0), Some(Repeat::Off));
    assert_eq!(Repeat::from_native(1), Some(Repeat::Track));
    assert_eq!(Repeat::from_native(2), Some(Repeat::Playlist));
    assert_eq!(Repeat::from_native(3), None);
    assert_eq!(Repeat::from_native(-1), None);
    assert_eq!(windows::playback_status(&MediaPlayback::Stopped), 2);
    assert_eq!(windows::playback_status(&MediaPlayback::Playing { progress: None }), 3);
    assert_eq!(windows::playback_status(&MediaPlayback::Paused { progress: None }), 4);
}

#[test]
fn windows_buttons() {
    assert_eq!(windows::button_event(0), Some(MediaControlEvent::Play));
    assert_eq!(windows::button_event(1), Some(MediaControlEvent::Pause));
    assert_eq!(windows::button_event(2), Some(MediaControlEvent::Stop));
    assert_eq!(windows::button_event(3), None);
    assert_eq!(windows::button_event(4), Some(MediaControlEvent::FastForward));
    assert_eq!(windows::button_event(5), Some(MediaControlEvent::Rewind));
    assert_eq!(windows::button_event(6), Some(MediaControlEvent::Next));
    assert_eq!(windows::button_event(7), Some(MediaControlEvent::Previous));
    assert_eq!(windows::button_event(8), Some(MediaControlEvent::ChannelUp));
    assert_eq!(windows::button_event(9), Some(MediaControlEvent::ChannelDown));
    assert_eq!(windows::button_event(10), None);
    assert_eq!(windows::button_event(-1), None);
}

#[test]
fn apple_numbers() {
    assert_eq!(Repeat::Off.to_apple(), 0);
    assert_eq!(Repeat::Track.to_apple(), 1);
    assert_eq!(Repeat::Playlist.to_apple(), 2);
    assert_eq!(Repeat::from_apple(0), Some(Repeat::Off));
    assert_eq!(Repeat::from_apple(1), Some(Repeat::Track));
    assert_eq!(Repeat::from_apple(2), Some(Repeat::Playlist));
    assert_eq!(Repeat::from_apple(3), None);
    assert_eq!(apple::shuffle_from_apple(0), Some(false));
    assert_eq!(apple::shuffle_from_apple(1), Some(true));
    assert_eq!(apple::shuffle_from_apple(2), None);
    assert_eq!(apple::shuffle_from_apple(-4), None);
    assert_eq!(apple::shuffle_to_apple(false), 0);
    assert_eq!(apple::shuffle_to_apple(true), 1);
    assert_eq!(apple::playback_state(&MediaPlayback::Playing { progress: None }), 1);
    assert_eq!(apple::playback_state(&MediaPlayback::Paused { progress: None }), 2);
    assert_eq!(apple::playback_state(&MediaPlayback::Stopped), 3);
}

#[test]
fn apple_command_handlers() {
    assert_eq!(
        apple::repeat_command(2),
        (Some(MediaControlEvent::SetRepeat(Repeat::Playlist)), 0)
    );
    assert_eq!(apple::repeat_command(9), (None, 1));
    assert_eq!(apple::shuffle_command(1), (Some(MediaControlEvent::SetShuffle(true)), 0));
    assert_eq!(apple::shuffle_command(0), (Some(MediaControlEvent::SetShuffle(false)), 0));
    assert_eq!(apple::shuffle_command(2), (None, 1));
}

#[test]
fn strings_compare_by_their_characters() {
    assert!(str_is("", ""));
    assert!(str_is("Track", "Track"));
    assert!(!str_is("Track", "Trac"));
    assert!(!str_is("Track", "Tract"));
    assert!(str_is("héllo ✓", "héllo ✓"));
    assert!(!str_is("héllo", "hello"));
    let list = vec!["a".to_owned(), "".to_owned(), "b".to_owned()];
    assert!(strings_equal(&list, &clone_strings(&list)));
    assert_eq!(clone_strings(&list), list);
    assert!(!strings_equal(&list, &vec!["a".to_owned(), "b".to_owned()]));
    assert!(!strings_equal(&list, &vec!["a".to_owned(), "".to_owned(), "c".to_owned()]));
    assert!(strings_equal(&Vec::new(), &Vec::new()));
    assert!(names_equal(&vec!["file", "http"], &vec!["file", "http"]));
    assert!(!names_equal(&vec!["file", "http"], &vec!["http", "file"]));
    assert!(!names_equal(&vec!["file"], &vec![]));
    assert_eq!(owned_names(&vec!["file", "http"]), vec!["file".to_owned(), "http".to_owned()]);
}
