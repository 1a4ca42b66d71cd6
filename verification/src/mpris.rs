//! What the desktop is told about the player, in the terms of the MPRIS
//! specification. The values are worked out here; exposing them on the
//! session bus is left to the caller.
use crate::lms::request::texts;
use crate::lms::{Mode, Shuffle};
use crate::text::{decimal_digits, decimal_text, format_decimal, is_digit, lemma_decimal_digits_value};
use vstd::prelude::*;
use vstd::string::*;

verus! {

/// The `PlaybackStatus` of a playback mode.
pub open spec fn status_of(mode: Mode) -> Seq<char> {
    match mode {
        Mode::Play => "Playing"@,
        Mode::Pause => "Paused"@,
        Mode::Stop => "Stopped"@,
    }
}

/// The `PlaybackStatus` property: `Playing`, `Paused` or `Stopped`.
pub fn playback_status(mode: Mode) -> (r: String)
    ensures
        r@ == status_of(mode),
{
    match mode {
        Mode::Play => "Playing".to_owned(),
        Mode::Pause => "Paused".to_owned(),
        Mode::Stop => "Stopped".to_owned(),
    }
}

/// The `Shuffle` property: true where the player shuffles by song.
pub fn shuffle(mode: Shuffle) -> (r: bool)
    ensures
        r == (mode == Shuffle::Songs),
{
    match mode {
        Shuffle::Songs => true,
        _ => false,
    }
}

/// Whether a playlist of so many tracks has a current track to describe.
pub fn has_current_track(track_count: u64) -> (r: bool)
    ensures
        r == (track_count != 0),
{
    track_count != 0
}

/// What the media server says of the current track.
#[derive(Debug)]
pub struct Track {
    /// The position of the track in the playlist.
    pub index: u64,
    pub artist: Option<String>,
    pub album: Option<String>,
    pub title: Option<String>,
}

/// The text that an optional string holds, if it holds one.
pub open spec fn optional_text(text: Option<String>) -> Option<Seq<char>> {
    match text {
        Some(text) => Some(text@),
        None => None,
    }
}

/// The mathematical value of a [`Track`].
pub struct TrackView {
    pub index: u64,
    pub artist: Option<Seq<char>>,
    pub album: Option<Seq<char>>,
    pub title: Option<Seq<char>>,
}

impl View for Track {
    type V = TrackView;

    open spec fn view(&self) -> TrackView {
        TrackView {
            index: self.index,
            artist: optional_text(self.artist),
            album: optional_text(self.album),
            title: optional_text(self.title),
        }
    }
}

/// The value of the current track, if there is one.
pub open spec fn current(track: Option<Track>) -> Option<TrackView> {
    match track {
        Some(track) => Some(track@),
        None => None,
    }
}

/// A value of the `Metadata` property.
#[derive(Debug)]
pub enum MetadataValue {
    ObjectPath(String),
    Text(String),
    TextList(Vec<String>),
}

/// The mathematical value of a [`MetadataValue`].
pub enum MetadataValueView {
    ObjectPath(Seq<char>),
    Text(Seq<char>),
    TextList(Seq<Seq<char>>),
}

impl View for MetadataValue {
    type V = MetadataValueView;

    open spec fn view(&self) -> MetadataValueView {
        match self {
            MetadataValue::ObjectPath(path) => MetadataValueView::ObjectPath(path@),
            MetadataValue::Text(text) => MetadataValueView::Text(text@),
            MetadataValue::TextList(list) => MetadataValueView::TextList(texts(list@)),
        }
    }
}

/// An entry of the `Metadata` property.
#[derive(Debug)]
pub struct MetadataEntry {
    pub key: String,
    pub value: MetadataValue,
}

/// The mathematical value of a [`MetadataEntry`].
pub struct MetadataEntryView {
    pub key: Seq<char>,
    pub value: MetadataValueView,
}

impl View for MetadataEntry {
    type V = MetadataEntryView;

    open spec fn view(&self) -> MetadataEntryView {
        MetadataEntryView { key: self.key@, value: self.value@ }
    }
}

/// The values of a sequence of entries.
pub open spec fn entry_views(entries: Seq<MetadataEntry>) -> Seq<MetadataEntryView> {
    entries.map_values(|entry: MetadataEntry| entry@)
}

/// True for the characters of the names in an object path: the ASCII letters
/// and digits and the underscore.
pub open spec fn is_name_char(c: char) -> bool {
    c == '_' || ('0' <= c <= '9') || ('A' <= c <= 'Z') || ('a' <= c <= 'z')
}

/// True when `path` is an object path of D-Bus: a slash alone, or one or more
/// names, each behind a slash.
pub open spec fn valid_object_path(path: Seq<char>) -> bool {
    &&& path.len() >= 1
    &&& path[0] == '/'
    &&& forall|i: int| 0 <= i < path.len() ==> #[trigger] path[i] == '/' || is_name_char(path[i])
    &&& forall|i: int| 0 <= i < path.len() - 1 ==> !(#[trigger] path[i] == '/' && path[i + 1] == '/')
    &&& path.len() > 1 ==> path[path.len() - 1] != '/'
}

/// `ObjectPath::try_from` of zvariant, for a string: it accepts exactly the
/// object paths of D-Bus. The path itself is made by the caller; here only
/// the answer is taken.
#[verifier::external_body]
fn is_object_path(path: &str) -> (r: bool)
    ensures
        r == valid_object_path(path@),
{
    zbus::zvariant::ObjectPath::try_from(path).is_ok()
}

/// A text that was to identify a track and is no object path.
#[derive(Debug)]
pub struct InvalidObjectPath {
    pub path: String,
}

/// The text that identifies the track at `index` of a player's playlist.
pub open spec fn track_path(player_name: Seq<char>, index: u64) -> Seq<char> {
    "/org/mpris/MediaPlayer2/"@ + player_name + "/track/"@ + decimal_text(index as nat)
}

/// The tracks of a player have object paths exactly when the player's name
/// can stand behind a slash as an object path of its own: it is not empty,
/// made of names and single slashes between them, and neither starts nor ends
/// with a slash. Which track it is makes no difference.
pub proof fn lemma_track_path(player_name: Seq<char>, index: u64)
    ensures
        valid_object_path(track_path(player_name, index)) <==> player_name.len() > 0
            && valid_object_path(seq!['/'] + player_name),
{
    let front = "/org/mpris/MediaPlayer2/"@;
    let middle = "/track/"@;
    let digits = decimal_text(index as nat);
    let path = track_path(player_name, index);
    let own = seq!['/'] + player_name;
    let n = player_name.len() as int;
    reveal_strlit("/org/mpris/MediaPlayer2/");
    reveal_strlit("/track/");
    lemma_decimal_digits_value(index as nat);
    assert(digits.len() > 0);
    assert forall|i: int| 0 <= i < digits.len() implies is_name_char(#[trigger] digits[i])
        && digits[i] != '/' by {
        assert(is_digit(decimal_digits(index as nat)[i]));
    }
    assert(front.len() == 24 && middle.len() == 7);
    assert(path.len() == 24 + n + 7 + digits.len());
    assert forall|i: int| 0 <= i < path.len() implies #[trigger] path[i] == (if i < 24 {
        front[i]
    } else if i < 24 + n {
        player_name[i - 24]
    } else if i < 24 + n + 7 {
        middle[i - 24 - n]
    } else {
        digits[i - 24 - n - 7]
    }) by {}
    assert forall|i: int| 0 <= i < 24 implies (#[trigger] front[i] == '/' || is_name_char(front[i]))
        && (i < 23 ==> !(front[i] == '/' && front[i + 1] == '/')) by {}
    assert forall|i: int| 0 <= i < 7 implies (#[trigger] middle[i] == '/' || is_name_char(
        middle[i],
    )) && (i < 6 ==> !(middle[i] == '/' && middle[i + 1] == '/')) by {}
    assert(front[23] == '/' && middle[0] == '/' && middle[6] == '/');
    assert forall|i: int| 0 <= i < own.len() implies #[trigger] own[i] == (if i == 0 {
        '/'
    } else {
        player_name[i - 1]
    }) by {}
    if valid_object_path(path) {
        if n == 0 {
            assert(path[23] == '/' && path[24] == '/');
            assert(false);
        }
        assert forall|i: int| 0 <= i < own.len() implies #[trigger] own[i] == '/' || is_name_char(
            own[i],
        ) by {
            if i > 0 {
                assert(path[23 + i] == own[i]);
            }
        }
        assert forall|i: int| 0 <= i < own.len() - 1 implies !(#[trigger] own[i] == '/' && own[i
            + 1] == '/') by {
            assert(path[23 + i] == own[i]);
            assert(path[24 + i] == own[i + 1]);
        }
        assert(own[own.len() - 1] != '/') by {
            assert(path[23 + n] == own[n]);
            assert(path[24 + n] == '/');
        }
    }
    if n > 0 && valid_object_path(own) {
        assert(path[0] == '/');
        assert forall|i: int| 0 <= i < path.len() implies #[trigger] path[i] == '/'
            || is_name_char(path[i]) by {
            if 24 <= i < 24 + n {
                assert(own[i - 23] == path[i]);
            }
        }
        assert forall|i: int| 0 <= i < path.len() - 1 implies !(#[trigger] path[i] == '/' && path[i
            + 1] == '/') by {
            if 23 <= i < 24 + n {
                assert(own[i - 23] == path[i]);
                if i + 1 < 24 + n {
                    assert(own[i + 1 - 23] == path[i + 1]);
                } else {
                    assert(own[own.len() - 1] != '/');
                }
            }
        }
        assert(path[path.len() - 1] == digits[digits.len() - 1]);
    }
}

/// The entry of a text that may be missing.
pub open spec fn text_entry(key: Seq<char>, text: Option<Seq<char>>) -> Seq<MetadataEntryView> {
    match text {
        Some(text) => seq![MetadataEntryView { key, value: MetadataValueView::Text(text) }],
        None => seq![],
    }
}

/// The entry of the artists of a track: a list of the one artist that the
/// media server names, if it names one.
pub open spec fn artist_entry(artist: Option<Seq<char>>) -> Seq<MetadataEntryView> {
    match artist {
        Some(artist) => seq![
            MetadataEntryView {
                key: "xesam:artist"@,
                value: MetadataValueView::TextList(seq![artist]),
            },
        ],
        None => seq![],
    }
}

/// The `Metadata` of the current track: its identifier, and its artist, album
/// and title as far as they are known. Without a current track there is no
/// entry at all. With one, the player's name must give an object path.
pub open spec fn metadata_of(player_name: Seq<char>, track: Option<TrackView>) -> Result<
    Seq<MetadataEntryView>,
    Seq<char>,
> {
    match track {
        None => Ok(seq![]),
        Some(track) => if valid_object_path(track_path(player_name, track.index)) {
            Ok(
                seq![
                    MetadataEntryView {
                        key: "mpris:trackid"@,
                        value: MetadataValueView::ObjectPath(track_path(player_name, track.index)),
                    },
                ] + artist_entry(track.artist) + text_entry("xesam:album"@, track.album)
                    + text_entry("xesam:title"@, track.title),
            )
        } else {
            Err(track_path(player_name, track.index))
        },
    }
}

/// The object path that identifies the track at `index` of a player's
/// playlist. There is none where the player's name does not fit into an
/// object path.
pub fn track_id(player_name: &str, index: u64) -> (r: Result<String, InvalidObjectPath>)
    ensures
        match r {
            Ok(path) => path@ == track_path(player_name@, index) && valid_object_path(path@),
            Err(e) => e.path@ == track_path(player_name@, index) && !valid_object_path(e.path@),
        },
{
    let path = "/org/mpris/MediaPlayer2/".to_owned().concat(player_name).concat("/track/").concat(
        format_decimal(index).as_str(),
    );
    if is_object_path(path.as_str()) {
        Ok(path)
    } else {
        Err(InvalidObjectPath { path })
    }
}

/// The `Metadata` property for the current track of the player.
pub fn metadata(player_name: &str, track: Option<Track>) -> (r: Result<
    Vec<MetadataEntry>,
    InvalidObjectPath,
>)
    ensures
        match r {
            Ok(entries) => metadata_of(player_name@, current(track)) == Ok::<_, Seq<char>>(
                entry_views(entries@),
            ),
            Err(e) => metadata_of(player_name@, current(track)) == Err::<
                Seq<MetadataEntryView>,
                _,
            >(e.path@),
        },
{
    let mut entries: Vec<MetadataEntry> = Vec::new();
    let track = match track {
        Some(track) => track,
        None => {
            assert(entry_views(entries@) =~= seq![]);
            return Ok(entries);
        },
    };
    let path = match track_id(player_name, track.index) {
        Ok(path) => path,
        Err(e) => {
            return Err(e);
        },
    };
    entries.push(
        MetadataEntry { key: "mpris:trackid".to_owned(), value: MetadataValue::ObjectPath(path) },
    );
    let ghost with_id = entry_views(entries@);
    assert(with_id =~= seq![
        MetadataEntryView {
            key: "mpris:trackid"@,
            value: MetadataValueView::ObjectPath(track_path(player_name@, track.index)),
        },
    ]);
    match track.artist {
        Some(artist) => {
            let mut artists: Vec<String> = Vec::new();
            artists.push(artist);
            assert(texts(artists@) =~= seq![artist@]);
            entries.push(
                MetadataEntry {
                    key: "xesam:artist".to_owned(),
                    value: MetadataValue::TextList(artists),
                },
            );
        },
        None => {},
    }
    let ghost with_artist = entry_views(entries@);
    assert(with_artist =~= with_id + artist_entry(track@.artist));
    match track.album {
        Some(album) => {
            entries.push(
                MetadataEntry { key: "xesam:album".to_owned(), value: MetadataValue::Text(album) },
            );
        },
        None => {},
    }
    let ghost with_album = entry_views(entries@);
    assert(with_album =~= with_artist + text_entry("xesam:album"@, track@.album));
    match track.title {
        Some(title) => {
            entries.push(
                MetadataEntry { key: "xesam:title".to_owned(), value: MetadataValue::Text(title) },
            );
        },
        None => {},
    }
    assert(entry_views(entries@) =~= with_album + text_entry("xesam:title"@, track@.title));
    Ok(entries)
}

} // verus!
