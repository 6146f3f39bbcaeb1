use souvlaki::platform::mpris::{create_metadata_dict, PropertyDict, Value};
use souvlaki::{Double, Duration, MediaMetadata};

fn strings(items: &[&str]) -> Vec<String> {
    items.iter().map(|s| s.to_string()).collect()
}

fn text(s: &str) -> Value {
    Value::Str(s.to_owned())
}

#[test]
fn empty_metadata_advertises_only_the_track_identity() {
    let dict = create_metadata_dict(&MediaMetadata::default(), &None);
    assert_eq!(dict.get("mpris:trackid"), Some(&Value::Path("/".to_owned())));
    assert_eq!(dict.entries.len(), 1);
    assert_eq!(dict.get("mpris:length"), None);
    assert_eq!(dict.get("mpris:artUrl"), None);
    assert_eq!(dict.get("xesam:title"), None);
    assert!(!dict.is_empty());
}

#[test]
fn every_combination_of_three_fields_builds_a_dictionary() {
    for bits in 0u8..8 {
        let mut metadata = MediaMetadata::default();
        if bits & 1 != 0 {
            metadata.title = Some("T".to_owned());
        }
        if bits & 2 != 0 {
            metadata.duration = Some(Duration::from_micros(9));
        }
        if bits & 4 != 0 {
            metadata.artists = Some(strings(&["x"]));
        }
        let dict = create_metadata_dict(&metadata, &None);
        assert_eq!(dict.get("mpris:trackid"), Some(&Value::Path("/".to_owned())));
        assert_eq!(dict.get("xesam:title").is_some(), bits & 1 != 0);
        assert_eq!(dict.get("mpris:length").is_some(), bits & 2 != 0);
        assert_eq!(dict.get("xesam:artist").is_some(), bits & 4 != 0);
        assert_eq!(dict.entries.len(), 1 + bits.count_ones() as usize);
    }
}

#[test]
fn full_metadata_advertises_every_mpris_field() {
    let metadata = MediaMetadata {
        title: Some("Title".to_owned()),
        artist: Some("One Artist".to_owned()),
        artists: Some(strings(&["B", "A"])),
        album_title: Some("Album".to_owned()),
        album_artist: Some("One Album Artist".to_owned()),
        album_artists: Some(strings(&["AA1", "AA2"])),
        genre: Some("One Genre".to_owned()),
        genres: Some(strings(&["Rock", "Jazz"])),
        track_number: Some(3),
        album_track_count: Some(12),
        disc_number: Some(2),
        disc_count: Some(4),
        duration: Some(Duration::from_micros(215_000_000)),
        composers: Some(strings(&["C"])),
        lyricists: Some(strings(&["L"])),
        lyrics: Some("la la".to_owned()),
        comments: Some(strings(&["fine", "good"])),
        beats_per_minute: Some(120),
        user_rating_01: Some(Double::from_bits(0.75f64.to_bits())),
        auto_rating: Some(Double::from_bits(0.25f64.to_bits())),
        play_count: Some(42),
        content_created: None,
        first_played: None,
        media_url: Some("file:///music/a.flac".to_owned()),
        media_persistent_id: Some(77),
        media_type_windows: None,
        app_media_id: Some("app".to_owned()),
        subtitle: Some("sub".to_owned()),
    };
    let cover = Some("https://example.org/cover.png".to_owned());
    let dict = create_metadata_dict(&metadata, &cover);
    assert_eq!(dict.get("mpris:trackid"), Some(&Value::Path("/".to_owned())));
    assert_eq!(dict.get("mpris:artUrl"), Some(&text("https://example.org/cover.png")));
    assert_eq!(dict.get("mpris:length"), Some(&Value::I64(215_000_000)));
    assert_eq!(dict.get("xesam:title"), Some(&text("Title")));
    assert_eq!(dict.get("xesam:artist"), Some(&Value::StrList(strings(&["B", "A"]))));
    assert_eq!(dict.get("xesam:album"), Some(&text("Album")));
    assert_eq!(dict.get("xesam:albumArtist"), Some(&Value::StrList(strings(&["AA1", "AA2"]))));
    assert_eq!(dict.get("xesam:genre"), Some(&Value::StrList(strings(&["Rock", "Jazz"]))));
    assert_eq!(dict.get("xesam:composer"), Some(&Value::StrList(strings(&["C"]))));
    assert_eq!(dict.get("xesam:lyricist"), Some(&Value::StrList(strings(&["L"]))));
    assert_eq!(dict.get("xesam:asText"), Some(&text("la la")));
    assert_eq!(dict.get("xesam:comment"), Some(&Value::StrList(strings(&["fine", "good"]))));
    assert_eq!(dict.get("xesam:url"), Some(&text("file:///music/a.flac")));
    assert_eq!(dict.get("xesam:trackNumber"), Some(&Value::I32(3)));
    assert_eq!(dict.get("xesam:discNumber"), Some(&Value::I32(2)));
    assert_eq!(dict.get("xesam:audioBPM"), Some(&Value::I32(120)));
    assert_eq!(
        dict.get("xesam:userRating"),
        Some(&Value::Double(Double::from_bits(0.75f64.to_bits())))
    );
    assert_eq!(
        dict.get("xesam:autoRating"),
        Some(&Value::Double(Double::from_bits(0.25f64.to_bits())))
    );
    assert_eq!(dict.get("xesam:useCount"), Some(&Value::I32(42)));
    assert_eq!(dict.entries.len(), 19);
}

#[test]
fn single_and_list_fields_are_not_reconciled() {
    let mut metadata = MediaMetadata::default();
    metadata.artist = Some("Solo".to_owned());
    metadata.genre = Some("Pop".to_owned());
    let dict = create_metadata_dict(&metadata, &None);
    assert_eq!(dict.get("xesam:artist"), None);
    assert_eq!(dict.get("xesam:genre"), None);
    assert_eq!(dict.entries.len(), 1);
}

#[test]
fn zero_duration_is_a_zero_length_and_absent_duration_is_no_length() {
    let mut metadata = MediaMetadata::default();
    metadata.duration = Some(Duration::zero());
    let dict = create_metadata_dict(&metadata, &None);
    assert_eq!(dict.get("mpris:length"), Some(&Value::I64(0)));
    metadata.duration = None;
    let dict = create_metadata_dict(&metadata, &None);
    assert_eq!(dict.get("mpris:length"), None);
}

#[test]
fn length_rounds_down_to_whole_microseconds() {
    let mut metadata = MediaMetadata::default();
    metadata.duration = Duration::from_parts(1, 1_999);
    let dict = create_metadata_dict(&metadata, &None);
    assert_eq!(dict.get("mpris:length"), Some(&Value::I64(1_000_001)));
}

#[test]
fn length_beyond_the_bus_is_the_largest_length() {
    let mut metadata = MediaMetadata::default();
    metadata.duration = Duration::from_parts(u64::MAX, 0);
    let dict = create_metadata_dict(&metadata, &None);
    assert_eq!(dict.get("mpris:length"), Some(&Value::I64(i64::MAX)));
    metadata.duration = Some(Duration::from_micros(i64::MAX as u64));
    let dict = create_metadata_dict(&metadata, &None);
    assert_eq!(dict.get("mpris:length"), Some(&Value::I64(i64::MAX)));
    metadata.duration = Some(Duration::from_micros(i64::MAX as u64 - 1));
    let dict = create_metadata_dict(&metadata, &None);
    assert_eq!(dict.get("mpris:length"), Some(&Value::I64(i64::MAX - 1)));
}

#[test]
fn negative_numbers_pass_through() {
    let mut metadata = MediaMetadata::default();
    metadata.track_number = Some(-1);
    metadata.play_count = Some(i32::MIN);
    let dict = create_metadata_dict(&metadata, &None);
    assert_eq!(dict.get("xesam:trackNumber"), Some(&Value::I32(-1)));
    assert_eq!(dict.get("xesam:useCount"), Some(&Value::I32(i32::MIN)));
}

#[test]
fn property_dict_insert_and_get() {
    let mut dict = PropertyDict::new();
    assert!(dict.is_empty());
    assert_eq!(dict.get("a"), None);
    dict.insert("a", Value::I32(1));
    dict.insert("b", Value::Bool(true));
    assert_eq!(dict.get("a"), Some(&Value::I32(1)));
    assert_eq!(dict.get("b"), Some(&Value::Bool(true)));
    dict.insert("a", Value::I32(2));
    assert_eq!(dict.get("a"), Some(&Value::I32(2)));
    assert_eq!(dict.get("c"), None);
    assert!(!dict.is_empty());
}

#[test]
fn property_dicts_compare_as_maps() {
    let mut left = PropertyDict::new();
    left.insert("a", Value::I32(1));
    left.insert("b", text("x"));
    let mut right = PropertyDict::new();
    right.insert("b", text("x"));
    right.insert("a", Value::I32(0));
    right.insert("a", Value::I32(1));
    assert!(left.same_as(&right));
    assert!(right.same_as(&left));
    assert!(left.clone().same_as(&left));
    right.insert("c", Value::Bool(false));
    assert!(!left.same_as(&right));
    assert!(left.within(&right));
    assert!(!right.within(&left));
    let mut other = PropertyDict::new();
    other.insert("a", Value::I32(1));
    other.insert("b", text("y"));
    assert!(!left.same_as(&other));
    assert!(PropertyDict::new().same_as(&PropertyDict::new()));
}

#[test]
fn values_compare_by_type_and_content() {
    assert!(text("a").same_as(&text("a")));
    assert!(!text("a").same_as(&text("b")));
    assert!(!text("/").same_as(&Value::Path("/".to_owned())));
    assert!(!Value::I32(1).same_as(&Value::I64(1)));
    assert!(Value::StrList(strings(&["a", "b"])).same_as(&Value::StrList(strings(&["a", "b"]))));
    assert!(!Value::StrList(strings(&["a", "b"])).same_as(&Value::StrList(strings(&["b", "a"]))));
    assert!(!Value::StrList(strings(&["a"])).same_as(&Value::StrList(strings(&["a", "a"]))));
    let one = Value::Double(Double::from_bits(1.0f64.to_bits()));
    assert!(Value::Double(Double::one()).same_as(&one));
    assert_eq!(Value::StrList(strings(&["a"])).clone(), Value::StrList(strings(&["a"])));
}

#[test]
fn play_count_alone_is_published_as_use_count() {
    let mut metadata = MediaMetadata::default();
    metadata.play_count = Some(3);
    let dict = create_metadata_dict(&metadata, &None);
    assert_eq!(dict.entries.len(), 2);
    assert_eq!(dict.get("mpris:trackid"), Some(&Value::Path("/".to_owned())));
    assert_eq!(dict.get("xesam:useCount"), Some(&Value::I32(3)));
    assert_eq!(dict.get("xesam:playCount"), None);
}
