//! Property dictionaries: string keys to loosely typed values, as the bus
//! carries them, and the dictionary that advertises a media item.

use crate::metadata::MediaMetadata;
use crate::number::Double;
use crate::text::{clone_strings, str_is, strings_equal};
use crate::time::Duration;
use vstd::prelude::*;

verus! {

/// A loosely typed value of a property.
#[derive(Debug, PartialEq)]
pub enum Value {
    Str(String),
    StrList(Vec<String>),
    I32(i32),
    I64(i64),
    Double(Double),
    Bool(bool),
    /// An object path.
    Path(String),
}

/// What a [`Value`] holds.
pub enum ValueView {
    Str(Seq<char>),
    StrList(Seq<Seq<char>>),
    I32(i32),
    I64(i64),
    Double(Double),
    Bool(bool),
    Path(Seq<char>),
}

impl View for Value {
    type V = ValueView;

    open spec fn view(&self) -> ValueView {
        match self {
            Value::Str(s) => ValueView::Str(s@),
            Value::StrList(list) => ValueView::StrList(list.deep_view()),
            Value::I32(n) => ValueView::I32(*n),
            Value::I64(n) => ValueView::I64(*n),
            Value::Double(d) => ValueView::Double(*d),
            Value::Bool(b) => ValueView::Bool(*b),
            Value::Path(p) => ValueView::Path(p@),
        }
    }
}

impl Clone for Value {
    fn clone(&self) -> (copy: Value)
        ensures
            copy@ == self@,
    {
        match self {
            Value::Str(s) => Value::Str(s.clone()),
            Value::StrList(list) => Value::StrList(clone_strings(list)),
            Value::I32(n) => Value::I32(*n),
            Value::I64(n) => Value::I64(*n),
            Value::Double(d) => Value::Double(*d),
            Value::Bool(b) => Value::Bool(*b),
            Value::Path(p) => Value::Path(p.clone()),
        }
    }
}

impl Value {
    /// Whether two values are of the same type and hold the same.
    pub fn same_as(&self, other: &Value) -> (same: bool)
        ensures
            same == (self@ == other@),
    {
        match (self, other) {
            (Value::Str(a), Value::Str(b)) => *a == *b,
            (Value::StrList(a), Value::StrList(b)) => strings_equal(a, b),
            (Value::I32(a), Value::I32(b)) => *a == *b,
            (Value::I64(a), Value::I64(b)) => *a == *b,
            (Value::Double(a), Value::Double(b)) => a.bits == b.bits,
            (Value::Bool(a), Value::Bool(b)) => *a == *b,
            (Value::Path(a), Value::Path(b)) => *a == *b,
            _ => false,
        }
    }
}

/// One named value.
#[derive(Debug)]
pub struct Property {
    pub name: String,
    pub value: Value,
}

/// The dictionary that a list of named values stands for: each name maps to
/// the value of its last entry.
pub open spec fn entries_map(entries: Seq<Property>) -> Map<Seq<char>, ValueView>
    decreases entries.len(),
{
    if entries.len() == 0 {
        Map::empty()
    } else {
        entries_map(entries.drop_last()).insert(entries.last().name@, entries.last().value@)
    }
}

/// The place of the last entry with the given name, or -1 where there is none.
pub open spec fn last_index_of(entries: Seq<Property>, name: Seq<char>) -> int
    decreases entries.len(),
{
    if entries.len() == 0 {
        -1
    } else if entries.last().name@ == name {
        entries.len() - 1
    } else {
        last_index_of(entries.drop_last(), name)
    }
}

/// A name is in the dictionary exactly when some entry has it, and maps to
/// the value of the last such entry.
pub proof fn lemma_entries_map_lookup(entries: Seq<Property>, name: Seq<char>)
    ensures
        -1 <= last_index_of(entries, name) < entries.len(),
        entries_map(entries).contains_key(name) <==> last_index_of(entries, name) >= 0,
        last_index_of(entries, name) >= 0 ==> entries[last_index_of(entries, name)].name@ == name
            && entries_map(entries)[name] == entries[last_index_of(entries, name)].value@,
        forall|i: int| 0 <= i < entries.len() && entries[i].name@ == name ==> last_index_of(
            entries,
            name,
        ) >= i,
    decreases entries.len(),
{
    if entries.len() > 0 {
        let front = entries.drop_last();
        lemma_entries_map_lookup(front, name);
        assert forall|i: int|
            0 <= i < entries.len() && entries[i].name@ == name implies last_index_of(entries, name)
            >= i by {
            if i < front.len() {
                assert(front[i].name@ == name);
            }
        }
    }
}

/// A dictionary of properties: string keys to loosely typed values.
///
/// It is kept as a list of entries; where a name occurs more than once, its
/// last entry counts. Its view is the map from names to values.
#[derive(Debug)]
pub struct PropertyDict {
    pub entries: Vec<Property>,
}

/// The dictionary that advertises a media item.
pub type MetadataDict = PropertyDict;

impl View for PropertyDict {
    type V = Map<Seq<char>, ValueView>;

    open spec fn view(&self) -> Map<Seq<char>, ValueView> {
        entries_map(self.entries@)
    }
}

impl Clone for PropertyDict {
    fn clone(&self) -> (copy: PropertyDict)
        ensures
            copy@ == self@,
    {
        let mut entries: Vec<Property> = Vec::new();
        let mut i: usize = 0;
        while i < self.entries.len()
            invariant
                i <= self.entries.len(),
                entries.len() == i,
                entries_map(entries@) == entries_map(self.entries@.take(i as int)),
            decreases self.entries.len() - i,
        {
            let entry = &self.entries[i];
            let ghost before = entries@;
            entries.push(Property { name: entry.name.clone(), value: entry.value.clone() });
            proof {
                assert(entries@.drop_last() =~= before);
                assert(self.entries@.take(i + 1).drop_last() =~= self.entries@.take(i as int));
            }
            i += 1;
        }
        proof {
            assert(self.entries@.take(i as int) =~= self.entries@);
        }
        PropertyDict { entries }
    }
}

impl PropertyDict {
    /// The dictionary without entries.
    pub fn new() -> (dict: PropertyDict)
        ensures
            dict@ == Map::<Seq<char>, ValueView>::empty(),
    {
        PropertyDict { entries: Vec::new() }
    }

    /// Sets the value of a name, whether or not it had one.
    pub fn insert(&mut self, name: &str, value: Value)
        ensures
            final(self)@ == old(self)@.insert(name@, value@),
    {
        let ghost before = self.entries@;
        self.entries.push(Property { name: name.to_owned(), value });
        proof {
            assert(self.entries@.drop_last() =~= before);
        }
    }

    /// Whether the dictionary has no entry.
    pub fn is_empty(&self) -> (empty: bool)
        ensures
            empty == (self@ == Map::<Seq<char>, ValueView>::empty()),
    {
        let empty = self.entries.len() == 0;
        proof {
            if !empty {
                assert(self@.contains_key(self.entries@.last().name@));
            }
        }
        empty
    }

    /// The value of a name, where it has one.
    pub fn get(&self, name: &str) -> (value: Option<&Value>)
        ensures
            self@.contains_key(name@) ==> value.is_some() && value.unwrap()@ == self@[name@],
            !self@.contains_key(name@) ==> value.is_none(),
    {
        let mut found: Option<usize> = None;
        let mut i: usize = 0;
        while i < self.entries.len()
            invariant
                i <= self.entries.len(),
                match found {
                    Some(j) => j as int == last_index_of(self.entries@.take(i as int), name@),
                    None => last_index_of(self.entries@.take(i as int), name@) == -1,
                },
            decreases self.entries.len() - i,
        {
            proof {
                assert(self.entries@.take(i + 1).drop_last() =~= self.entries@.take(i as int));
            }
            if str_is(self.entries[i].name.as_str(), name) {
                found = Some(i);
            }
            i += 1;
        }
        proof {
            assert(self.entries@.take(i as int) =~= self.entries@);
            lemma_entries_map_lookup(self.entries@, name@);
        }
        match found {
            Some(j) => Some(&self.entries[j].value),
            None => None,
        }
    }

    /// Whether every name of this dictionary has the same value in the other.
    pub fn within(&self, other: &PropertyDict) -> (within: bool)
        ensures
            within == self@.submap_of(other@),
    {
        let mut i: usize = 0;
        while i < self.entries.len()
            invariant
                i <= self.entries.len(),
                forall|k: int|
                    0 <= k < i ==> other@.contains_key(#[trigger] self.entries[k].name@)
                        && other@[self.entries[k].name@] == self@[self.entries[k].name@],
            decreases self.entries.len() - i,
        {
            let name = self.entries[i].name.as_str();
            proof {
                lemma_entries_map_lookup(self.entries@, name@);
            }
            let mine = self.get(name);
            let theirs = other.get(name);
            let agree = match (mine, theirs) {
                (Some(a), Some(b)) => a.same_as(b),
                _ => false,
            };
            if !agree {
                return false;
            }
            i += 1;
        }
        proof {
            assert forall|name: Seq<char>| #[trigger]
                self@.dom().contains(name) implies other@.dom().contains(name) && self@[name]
                == other@[name] by {
                lemma_entries_map_lookup(self.entries@, name);
            }
        }
        true
    }

    /// Whether two dictionaries map the same names to the same values.
    pub fn same_as(&self, other: &PropertyDict) -> (same: bool)
        ensures
            same == (self@ == other@),
    {
        let same = self.within(other) && other.within(self);
        proof {
            if same {
                assert(self@ =~= other@);
            }
        }
        same
    }
}

/// The entry that an optional string gives.
pub open spec fn text_entry(text: Option<String>) -> Option<ValueView> {
    match text {
        Some(s) => Some(ValueView::Str(s@)),
        None => None,
    }
}

/// The entry that an optional list of strings gives: the strings in their order.
pub open spec fn list_entry(list: Option<Vec<String>>) -> Option<ValueView> {
    match list {
        Some(l) => Some(ValueView::StrList(l.deep_view())),
        None => None,
    }
}

/// The entry that an optional number gives.
pub open spec fn i32_entry(number: Option<i32>) -> Option<ValueView> {
    match number {
        Some(n) => Some(ValueView::I32(n)),
        None => None,
    }
}

/// The entry that an optional real number gives.
pub open spec fn double_entry(number: Option<Double>) -> Option<ValueView> {
    match number {
        Some(d) => Some(ValueView::Double(d)),
        None => None,
    }
}

/// A duration in microseconds as the bus carries a length: the whole
/// microseconds, or the largest number of them that the bus carries where
/// the duration is longer.
pub open spec fn length_micros(duration: Duration) -> i64 {
    if duration.micros() <= crate::MAX_MICROS {
        duration.micros() as i64
    } else {
        crate::MAX_MICROS as i64
    }
}

/// The entry that an optional duration gives: its length in microseconds.
pub open spec fn length_entry(duration: Option<Duration>) -> Option<ValueView> {
    match duration {
        Some(d) => Some(ValueView::I64(length_micros(d))),
        None => None,
    }
}

/// The dictionary with the entry under `key` where there is one, and unchanged where not.
#[verifier::opaque]
pub open spec fn with_entry(
    dict: Map<Seq<char>, ValueView>,
    key: Seq<char>,
    entry: Option<ValueView>,
) -> Map<Seq<char>, ValueView> {
    match entry {
        Some(value) => dict.insert(key, value),
        None => dict,
    }
}

/// What `with_entry` does to each key: `key` gets the entry where there is
/// one, and every other key keeps what it had.
pub proof fn lemma_with_entry(
    dict: Map<Seq<char>, ValueView>,
    key: Seq<char>,
    entry: Option<ValueView>,
)
    ensures
        forall|other: Seq<char>| #[trigger]
            with_entry(dict, key, entry).get(other) == if other == key && entry is Some {
                entry
            } else {
                dict.get(other)
            },
{
    reveal(with_entry);
}

/// The dictionary that advertises a media item and its cover on the bus.
///
/// The track identity is always there, as the placeholder path `/`. Each
/// other key is there exactly when its field is: the cover URL, the title,
/// the lists of artists, album artists, genres, composers, lyricists and
/// comments in their given order, the album, the lyrics, the location, the
/// length in microseconds, the numbers and the ratings.
pub open spec fn metadata_dict(metadata: MediaMetadata, cover_url: Option<String>) -> Map<
    Seq<char>,
    ValueView,
> {
    let d = Map::<Seq<char>, ValueView>::empty().insert("mpris:trackid"@, ValueView::Path("/"@));
    let d = with_entry(d, "mpris:artUrl"@, text_entry(cover_url));
    let d = with_entry(d, "xesam:title"@, text_entry(metadata.title));
    let d = with_entry(d, "xesam:artist"@, list_entry(metadata.artists));
    let d = with_entry(d, "xesam:album"@, text_entry(metadata.album_title));
    let d = with_entry(d, "xesam:albumArtist"@, list_entry(metadata.album_artists));
    let d = with_entry(d, "xesam:genre"@, list_entry(metadata.genres));
    let d = with_entry(d, "xesam:composer"@, list_entry(metadata.composers));
    let d = with_entry(d, "xesam:lyricist"@, list_entry(metadata.lyricists));
    let d = with_entry(d, "xesam:asText"@, text_entry(metadata.lyrics));
    let d = with_entry(d, "xesam:comment"@, list_entry(metadata.comments));
    let d = with_entry(d, "xesam:url"@, text_entry(metadata.media_url));
    let d = with_entry(d, "mpris:length"@, length_entry(metadata.duration));
    let d = with_entry(d, "xesam:trackNumber"@, i32_entry(metadata.track_number));
    let d = with_entry(d, "xesam:discNumber"@, i32_entry(metadata.disc_number));
    let d = with_entry(d, "xesam:audioBPM"@, i32_entry(metadata.beats_per_minute));
    let d = with_entry(d, "xesam:userRating"@, double_entry(metadata.user_rating_01));
    let d = with_entry(d, "xesam:autoRating"@, double_entry(metadata.auto_rating));
    let d = with_entry(d, "xesam:useCount"@, i32_entry(metadata.play_count));
    d
}

impl PropertyDict {
    /// Sets a string under `key` where there is one.
    pub fn insert_text(&mut self, key: &str, text: &Option<String>)
        ensures
            final(self)@ == with_entry(old(self)@, key@, text_entry(*text)),
    {
        reveal(with_entry);
        if let Some(s) = text {
            self.insert(key, Value::Str(s.clone()));
        }
    }

    /// Sets a list of strings under `key` where there is one.
    pub fn insert_list(&mut self, key: &str, list: &Option<Vec<String>>)
        ensures
            final(self)@ == with_entry(old(self)@, key@, list_entry(*list)),
    {
        reveal(with_entry);
        if let Some(l) = list {
            self.insert(key, Value::StrList(clone_strings(l)));
        }
    }

    /// Sets a number under `key` where there is one.
    pub fn insert_i32(&mut self, key: &str, number: Option<i32>)
        ensures
            final(self)@ == with_entry(old(self)@, key@, i32_entry(number)),
    {
        reveal(with_entry);
        if let Some(n) = number {
            self.insert(key, Value::I32(n));
        }
    }

    /// Sets a real number under `key` where there is one.
    pub fn insert_double(&mut self, key: &str, number: Option<Double>)
        ensures
            final(self)@ == with_entry(old(self)@, key@, double_entry(number)),
    {
        reveal(with_entry);
        if let Some(d) = number {
            self.insert(key, Value::Double(d));
        }
    }

    /// Sets a length in microseconds under `key` where there is a duration.
    pub fn insert_length(&mut self, key: &str, duration: Option<Duration>)
        ensures
            final(self)@ == with_entry(old(self)@, key@, length_entry(duration)),
    {
        reveal(with_entry);
        if let Some(d) = duration {
            let micros: u128 = d.as_micros();
            let length: i64 = if micros <= crate::MAX_MICROS {
                micros as i64
            } else {
                i64::MAX
            };
            self.insert(key, Value::I64(length));
        }
    }
}

/// Builds the dictionary that advertises a media item and its cover on the bus.
pub fn create_metadata_dict(metadata: &MediaMetadata, cover_url: &Option<String>) -> (dict:
    MetadataDict)
    ensures
        dict@ == metadata_dict(*metadata, *cover_url),
        dict@.contains_key("mpris:trackid"@),
{
    let mut dict = PropertyDict::new();
    dict.insert("mpris:trackid", Value::Path("/".to_owned()));
    dict.insert_text("mpris:artUrl", cover_url);
    dict.insert_text("xesam:title", &metadata.title);
    dict.insert_list("xesam:artist", &metadata.artists);
    dict.insert_text("xesam:album", &metadata.album_title);
    dict.insert_list("xesam:albumArtist", &metadata.album_artists);
    dict.insert_list("xesam:genre", &metadata.genres);
    dict.insert_list("xesam:composer", &metadata.composers);
    dict.insert_list("xesam:lyricist", &metadata.lyricists);
    dict.insert_text("xesam:asText", &metadata.lyrics);
    dict.insert_list("xesam:comment", &metadata.comments);
    dict.insert_text("xesam:url", &metadata.media_url);
    dict.insert_length("mpris:length", metadata.duration);
    dict.insert_i32("xesam:trackNumber", metadata.track_number);
    dict.insert_i32("xesam:discNumber", metadata.disc_number);
    dict.insert_i32("xesam:audioBPM", metadata.beats_per_minute);
    dict.insert_double("xesam:userRating", metadata.user_rating_01);
    dict.insert_double("xesam:autoRating", metadata.auto_rating);
    dict.insert_i32("xesam:useCount", metadata.play_count);
    proof {
        lemma_metadata_dict_entries(*metadata, *cover_url);
    }
    dict
}

/// Whether `key` is one of the keys that the dictionary of a media item can hold.
pub open spec fn is_metadata_key(key: Seq<char>) -> bool {
    ||| key == "mpris:trackid"@
    ||| key == "mpris:artUrl"@
    ||| key == "mpris:length"@
    ||| key == "xesam:title"@
    ||| key == "xesam:artist"@
    ||| key == "xesam:album"@
    ||| key == "xesam:albumArtist"@
    ||| key == "xesam:genre"@
    ||| key == "xesam:composer"@
    ||| key == "xesam:lyricist"@
    ||| key == "xesam:asText"@
    ||| key == "xesam:comment"@
    ||| key == "xesam:url"@
    ||| key == "xesam:trackNumber"@
    ||| key == "xesam:discNumber"@
    ||| key == "xesam:audioBPM"@
    ||| key == "xesam:userRating"@
    ||| key == "xesam:autoRating"@
    ||| key == "xesam:useCount"@
}

/// The keys of the dictionary of a media item are nineteen different strings.
proof fn lemma_metadata_keys_differ()
    ensures
        "mpris:trackid"@.len() == 13 && "mpris:trackid"@[0] == 'm',
        "mpris:artUrl"@.len() == 12 && "mpris:artUrl"@[0] == 'm' && "mpris:artUrl"@[6] == 'a',
        "mpris:length"@.len() == 12 && "mpris:length"@[0] == 'm' && "mpris:length"@[6] == 'l',
        "xesam:title"@.len() == 11 && "xesam:title"@[6] == 't',
        "xesam:artist"@.len() == 12 && "xesam:artist"@[0] == 'x' && "xesam:artist"@[7] == 'r',
        "xesam:album"@.len() == 11 && "xesam:album"@[6] == 'a',
        "xesam:albumArtist"@.len() == 17 && "xesam:albumArtist"@[6] == 'a',
        "xesam:genre"@.len() == 11 && "xesam:genre"@[6] == 'g',
        "xesam:composer"@.len() == 14 && "xesam:composer"@[6] == 'c',
        "xesam:lyricist"@.len() == 14 && "xesam:lyricist"@[6] == 'l',
        "xesam:asText"@.len() == 12 && "xesam:asText"@[0] == 'x' && "xesam:asText"@[7] == 's',
        "xesam:comment"@.len() == 13 && "xesam:comment"@[0] == 'x',
        "xesam:url"@.len() == 9,
        "xesam:trackNumber"@.len() == 17 && "xesam:trackNumber"@[6] == 't',
        "xesam:discNumber"@.len() == 16 && "xesam:discNumber"@[6] == 'd',
        "xesam:audioBPM"@.len() == 14 && "xesam:audioBPM"@[6] == 'a',
        "xesam:userRating"@.len() == 16 && "xesam:userRating"@[6] == 'u',
        "xesam:autoRating"@.len() == 16 && "xesam:autoRating"@[6] == 'a' && "xesam:autoRating"@[7]
            == 'u',
        "xesam:discNumber"@[7] == 'i',
        "xesam:useCount"@.len() == 14 && "xesam:useCount"@[6] == 'u',
{
    reveal_strlit("mpris:trackid");
    reveal_strlit("mpris:artUrl");
    reveal_strlit("mpris:length");
    reveal_strlit("xesam:title");
    reveal_strlit("xesam:artist");
    reveal_strlit("xesam:album");
    reveal_strlit("xesam:albumArtist");
    reveal_strlit("xesam:genre");
    reveal_strlit("xesam:composer");
    reveal_strlit("xesam:lyricist");
    reveal_strlit("xesam:asText");
    reveal_strlit("xesam:comment");
    reveal_strlit("xesam:url");
    reveal_strlit("xesam:trackNumber");
    reveal_strlit("xesam:discNumber");
    reveal_strlit("xesam:audioBPM");
    reveal_strlit("xesam:userRating");
    reveal_strlit("xesam:autoRating");
    reveal_strlit("xesam:useCount");
}

/// What the dictionary of a media item holds, key by key: the placeholder
/// track identity always, under each other key the entry of its field where
/// the field is present and nothing where it is absent, and no other key.
pub proof fn lemma_metadata_dict_entries(metadata: MediaMetadata, cover_url: Option<String>)
    ensures
        ({
            let d = metadata_dict(metadata, cover_url);
            &&& d.get("mpris:trackid"@) == Some(ValueView::Path("/"@))
            &&& d.get("mpris:artUrl"@) == text_entry(cover_url)
            &&& d.get("mpris:length"@) == length_entry(metadata.duration)
            &&& d.get("xesam:title"@) == text_entry(metadata.title)
            &&& d.get("xesam:artist"@) == list_entry(metadata.artists)
            &&& d.get("xesam:album"@) == text_entry(metadata.album_title)
            &&& d.get("xesam:albumArtist"@) == list_entry(metadata.album_artists)
            &&& d.get("xesam:genre"@) == list_entry(metadata.genres)
            &&& d.get("xesam:composer"@) == list_entry(metadata.composers)
            &&& d.get("xesam:lyricist"@) == list_entry(metadata.lyricists)
            &&& d.get("xesam:asText"@) == text_entry(metadata.lyrics)
            &&& d.get("xesam:comment"@) == list_entry(metadata.comments)
            &&& d.get("xesam:url"@) == text_entry(metadata.media_url)
            &&& d.get("xesam:trackNumber"@) == i32_entry(metadata.track_number)
            &&& d.get("xesam:discNumber"@) == i32_entry(metadata.disc_number)
            &&& d.get("xesam:audioBPM"@) == i32_entry(metadata.beats_per_minute)
            &&& d.get("xesam:userRating"@) == double_entry(metadata.user_rating_01)
            &&& d.get("xesam:autoRating"@) == double_entry(metadata.auto_rating)
            &&& d.get("xesam:useCount"@) == i32_entry(metadata.play_count)
            &&& forall|key: Seq<char>| d.contains_key(key) ==> is_metadata_key(key)
        }),
{
    lemma_metadata_keys_differ();
    let d0 = Map::<Seq<char>, ValueView>::empty().insert("mpris:trackid"@, ValueView::Path("/"@));
    let d1 = with_entry(d0, "mpris:artUrl"@, text_entry(cover_url));
    lemma_with_entry(d0, "mpris:artUrl"@, text_entry(cover_url));
    let d2 = with_entry(d1, "xesam:title"@, text_entry(metadata.title));
    lemma_with_entry(d1, "xesam:title"@, text_entry(metadata.title));
    let d3 = with_entry(d2, "xesam:artist"@, list_entry(metadata.artists));
    lemma_with_entry(d2, "xesam:artist"@, list_entry(metadata.artists));
    let d4 = with_entry(d3, "xesam:album"@, text_entry(metadata.album_title));
    lemma_with_entry(d3, "xesam:album"@, text_entry(metadata.album_title));
    let d5 = with_entry(d4, "xesam:albumArtist"@, list_entry(metadata.album_artists));
    lemma_with_entry(d4, "xesam:albumArtist"@, list_entry(metadata.album_artists));
    let d6 = with_entry(d5, "xesam:genre"@, list_entry(metadata.genres));
    lemma_with_entry(d5, "xesam:genre"@, list_entry(metadata.genres));
    let d7 = with_entry(d6, "xesam:composer"@, list_entry(metadata.composers));
    lemma_with_entry(d6, "xesam:composer"@, list_entry(metadata.composers));
    let d8 = with_entry(d7, "xesam:lyricist"@, list_entry(metadata.lyricists));
    lemma_with_entry(d7, "xesam:lyricist"@, list_entry(metadata.lyricists));
    let d9 = with_entry(d8, "xesam:asText"@, text_entry(metadata.lyrics));
    lemma_with_entry(d8, "xesam:asText"@, text_entry(metadata.lyrics));
    let d10 = with_entry(d9, "xesam:comment"@, list_entry(metadata.comments));
    lemma_with_entry(d9, "xesam:comment"@, list_entry(metadata.comments));
    let d11 = with_entry(d10, "xesam:url"@, text_entry(metadata.media_url));
    lemma_with_entry(d10, "xesam:url"@, text_entry(metadata.media_url));
    let d12 = with_entry(d11, "mpris:length"@, length_entry(metadata.duration));
    lemma_with_entry(d11, "mpris:length"@, length_entry(metadata.duration));
    let d13 = with_entry(d12, "xesam:trackNumber"@, i32_entry(metadata.track_number));
    lemma_with_entry(d12, "xesam:trackNumber"@, i32_entry(metadata.track_number));
    let d14 = with_entry(d13, "xesam:discNumber"@, i32_entry(metadata.disc_number));
    lemma_with_entry(d13, "xesam:discNumber"@, i32_entry(metadata.disc_number));
    let d15 = with_entry(d14, "xesam:audioBPM"@, i32_entry(metadata.beats_per_minute));
    lemma_with_entry(d14, "xesam:audioBPM"@, i32_entry(metadata.beats_per_minute));
    let d16 = with_entry(d15, "xesam:userRating"@, double_entry(metadata.user_rating_01));
    lemma_with_entry(d15, "xesam:userRating"@, double_entry(metadata.user_rating_01));
    let d17 = with_entry(d16, "xesam:autoRating"@, double_entry(metadata.auto_rating));
    lemma_with_entry(d16, "xesam:autoRating"@, double_entry(metadata.auto_rating));
    let d18 = with_entry(d17, "xesam:useCount"@, i32_entry(metadata.play_count));
    lemma_with_entry(d17, "xesam:useCount"@, i32_entry(metadata.play_count));
    assert forall|key: Seq<char>| d18.contains_key(key) implies is_metadata_key(key) by {
        assert(d18.get(key) is Some);
    }
}

} // verus!
