//! The client of the media server's control interface. The server accepts and
//! returns JSON; the requests are built in [`request`].
//!
//! Every operation of the client is one request and one response. This module
//! holds what happens after the response has arrived: the value that was asked
//! for is looked up in the response's result object and turned into its type,
//! and a failure is split into what the caller gets and what the supervisor is
//! told. Sending the request and receiving the response is left to the caller.
use crate::lms::request::{texts, KeyConvention};
use crate::text::{decimal_text, decimal_text_value, format_decimal, parse_decimal_text};
use vstd::prelude::*;
use vstd::string::*;

pub mod request;

verus! {

/// What a player is doing.
#[derive(Clone, Copy, Debug, PartialEq, Eq, Structural)]
pub enum Mode {
    Stop,
    Play,
    Pause,
}

/// How a player shuffles its playlist.
#[derive(Clone, Copy, Debug, PartialEq, Eq, Structural)]
pub enum Shuffle {
    Off,
    Songs,
    Albums,
}

/// A player that the server knows. The `playerid` is the handle by which
/// requests address the player; names are not guaranteed to be unique.
#[derive(Clone, Debug)]
pub struct Player {
    pub name: String,
    pub playerid: String,
}

/// The mathematical value of a [`Player`].
pub struct PlayerView {
    pub name: Seq<char>,
    pub playerid: Seq<char>,
}

impl View for Player {
    type V = PlayerView;

    open spec fn view(&self) -> PlayerView {
        PlayerView { name: self.name@, playerid: self.playerid@ }
    }
}

/// The values of a sequence of players.
pub open spec fn player_views(players: Seq<Player>) -> Seq<PlayerView> {
    players.map_values(|p: Player| p@)
}

/// A JSON number. The client reads integers only, so a number with a
/// fraction or an exponent is kept without its value.
#[derive(Clone, Copy, Debug, PartialEq, Eq, Structural)]
pub enum Number {
    Integer(i128),
    Float,
}

impl Number {
    /// The number as an `i64`, if it is an integer in that range.
    pub open spec fn i64_of(self) -> Option<i64> {
        match self {
            Number::Integer(n) => if i64::MIN <= n <= i64::MAX {
                Some(n as i64)
            } else {
                None
            },
            Number::Float => None,
        }
    }

    /// The number as a `u64`, if it is an integer in that range.
    pub open spec fn u64_of(self) -> Option<u64> {
        match self {
            Number::Integer(n) => if 0 <= n <= u64::MAX {
                Some(n as u64)
            } else {
                None
            },
            Number::Float => None,
        }
    }

    /// The number as an `i64`, if it is an integer in that range.
    pub fn as_i64(&self) -> (r: Option<i64>)
        ensures
            r == self.i64_of(),
    {
        match self {
            Number::Integer(n) => if -0x8000_0000_0000_0000 <= *n && *n <= 0x7fff_ffff_ffff_ffff {
                Some(*n as i64)
            } else {
                None
            },
            Number::Float => None,
        }
    }

    /// The number as a `u64`, if it is an integer in that range.
    pub fn as_u64(&self) -> (r: Option<u64>)
        ensures
            r == self.u64_of(),
    {
        match self {
            Number::Integer(n) => if 0 <= *n && *n <= 0xffff_ffff_ffff_ffff {
                Some(*n as u64)
            } else {
                None
            },
            Number::Float => None,
        }
    }
}

/// A JSON value. The members of an object are kept in the order in which they
/// were added; where a name occurs twice, the first member counts.
#[derive(Debug)]
pub enum Json {
    Null,
    Bool(bool),
    Number(Number),
    String(String),
    Array(Vec<Json>),
    Object(Vec<Member>),
}

/// A member of a JSON object.
#[derive(Debug)]
pub struct Member {
    pub name: String,
    pub value: Json,
}

/// The mathematical value of a [`Json`]: an object is the sequence of its
/// members, each a name and a value.
pub enum JsonView {
    Null,
    Bool(bool),
    Number(Number),
    String(Seq<char>),
    Array(Seq<JsonView>),
    Object(Seq<(Seq<char>, JsonView)>),
}

/// The mathematical value of a JSON value.
pub open spec fn json_view(value: Json) -> JsonView
    decreases value,
{
    match value {
        Json::Null => JsonView::Null,
        Json::Bool(b) => JsonView::Bool(b),
        Json::Number(n) => JsonView::Number(n),
        Json::String(text) => JsonView::String(text@),
        Json::Array(items) => JsonView::Array(
            Seq::new(
                items@.len(),
                |i: int|
                    if 0 <= i < items@.len() {
                        json_view(items@[i])
                    } else {
                        JsonView::Null
                    },
            ),
        ),
        Json::Object(entries) => JsonView::Object(
            Seq::new(
                entries@.len(),
                |i: int|
                    if 0 <= i < entries@.len() {
                        (entries@[i].name@, json_view(entries@[i].value))
                    } else {
                        (Seq::empty(), JsonView::Null)
                    },
            ),
        ),
    }
}

impl View for Json {
    type V = JsonView;

    open spec fn view(&self) -> JsonView {
        json_view(*self)
    }
}

impl View for Member {
    type V = (Seq<char>, JsonView);

    open spec fn view(&self) -> (Seq<char>, JsonView) {
        (self.name@, self.value@)
    }
}

/// The values of the items of an array.
pub open spec fn items_of(items: Seq<Json>) -> Seq<JsonView> {
    items.map_values(|item: Json| item@)
}

/// The values of the members of an object.
pub open spec fn members_of(entries: Seq<Member>) -> Seq<(Seq<char>, JsonView)> {
    entries.map_values(|entry: Member| entry@)
}

/// The value of an array is the sequence of the values of its items.
pub proof fn lemma_array_view(items: Vec<Json>)
    ensures
        Json::Array(items)@ == JsonView::Array(items_of(items@)),
{
    assert(Json::Array(items)@->Array_0 =~= items_of(items@));
}

/// The value of an object is the sequence of the values of its members.
pub proof fn lemma_object_view(entries: Vec<Member>)
    ensures
        Json::Object(entries)@ == JsonView::Object(members_of(entries@)),
{
    assert(Json::Object(entries)@->Object_0 =~= members_of(entries@));
}

/// The response of the server: the request's method and parameters, echoed,
/// and the result, which holds what was asked for.
#[derive(Debug)]
pub struct LmsResponse {
    pub method: String,
    pub params: (String, Vec<String>),
    pub result: Json,
}

/// The mathematical value of an [`LmsResponse`].
pub struct LmsResponseView {
    pub method: Seq<char>,
    pub params: (Seq<char>, Seq<Seq<char>>),
    pub result: JsonView,
}

impl View for LmsResponse {
    type V = LmsResponseView;

    open spec fn view(&self) -> LmsResponseView {
        LmsResponseView {
            method: self.method@,
            params: (self.params.0@, texts(self.params.1@)),
            result: self.result@,
        }
    }
}

/// The type that a value of the result was expected to have.
#[derive(Clone, Copy, Debug, PartialEq, Eq, Structural)]
pub enum Expected {
    Bool,
    Integer,
    Text,
    Mode,
    Shuffle,
    Players,
}

/// The operations of the client.
#[derive(Clone, Copy, Debug, PartialEq, Eq, Structural)]
pub enum Operation {
    GetVersion,
    GetConnected,
    GetPlayerCount,
    GetPlayers,
    GetIndex,
    GetTrackCount,
    GetShuffle,
    GetMode,
    GetArtist,
    GetTitle,
    GetAlbum,
    GetCurrentTitle,
    Play,
    Stop,
    Pause,
    PlayPause,
    Previous,
    Next,
}

/// Why an operation of the client failed.
#[derive(Clone, Debug)]
pub enum LmsError {
    /// The request could not be sent or no response was received.
    Transport { cause: String },
    /// The response is not a JSON document of the expected form.
    Decode { cause: String },
    /// The result of the response is not an object.
    ResultHasWrongType,
    /// The result object has no member of this name.
    NoField { field: String },
    /// The member is there, but it is not of the expected type or not one of
    /// the expected values.
    WrongType { expected: Expected },
    /// The operation failed; the cause has been reported to the supervisor.
    Failed { operation: Operation },
}

/// The mathematical value of an [`LmsError`].
pub enum LmsErrorView {
    Transport { cause: Seq<char> },
    Decode { cause: Seq<char> },
    ResultHasWrongType,
    NoField { field: Seq<char> },
    WrongType { expected: Expected },
    Failed { operation: Operation },
}

impl View for LmsError {
    type V = LmsErrorView;

    open spec fn view(&self) -> LmsErrorView {
        match self {
            LmsError::Transport { cause } => LmsErrorView::Transport { cause: cause@ },
            LmsError::Decode { cause } => LmsErrorView::Decode { cause: cause@ },
            LmsError::ResultHasWrongType => LmsErrorView::ResultHasWrongType,
            LmsError::NoField { field } => LmsErrorView::NoField { field: field@ },
            LmsError::WrongType { expected } => LmsErrorView::WrongType { expected: *expected },
            LmsError::Failed { operation } => LmsErrorView::Failed { operation: *operation },
        }
    }
}

/// The value of the first member of an object that is named `key`.
pub open spec fn lookup(members: Seq<(Seq<char>, JsonView)>, key: Seq<char>) -> Option<JsonView>
    decreases members.len(),
{
    if members.len() == 0 {
        None
    } else if members[0].0 == key {
        Some(members[0].1)
    } else {
        lookup(members.drop_first(), key)
    }
}

/// A member is found exactly when the object has one of that name, and the
/// one found is the first of that name.
pub proof fn lemma_lookup(members: Seq<(Seq<char>, JsonView)>, key: Seq<char>)
    ensures
        match lookup(members, key) {
            Some(value) => exists|i: int|
                0 <= i < members.len() && #[trigger] members[i] == (key, value) && forall|j: int|
                    0 <= j < i ==> (#[trigger] members[j]).0 != key,
            None => forall|i: int| 0 <= i < members.len() ==> (#[trigger] members[i]).0 != key,
        },
    decreases members.len(),
{
    if members.len() == 0 {
    } else if members[0].0 == key {
        assert(members[0] == (key, members[0].1));
    } else {
        let rest = members.drop_first();
        lemma_lookup(rest, key);
        match lookup(rest, key) {
            Some(value) => {
                let i = choose|i: int|
                    0 <= i < rest.len() && #[trigger] rest[i] == (key, value) && forall|j: int|
                        0 <= j < i ==> (#[trigger] rest[j]).0 != key;
                assert(members[i + 1] == rest[i]);
                assert forall|j: int| 0 <= j < i + 1 implies (#[trigger] members[j]).0 != key by {
                    if j > 0 {
                        assert(members[j] == rest[j - 1]);
                    }
                }
            },
            None => {
                assert forall|i: int| 0 <= i < members.len() implies (#[trigger] members[i]).0
                    != key by {
                    if i > 0 {
                        assert(members[i] == rest[i - 1]);
                    }
                }
            },
        }
    }
}

/// The member of a result that is named `key`. A result that is not an object
/// has no members at all, which is a failure of its own.
pub open spec fn field_of(result: JsonView, key: Seq<char>) -> Result<JsonView, LmsErrorView> {
    match result {
        JsonView::Object(members) => match lookup(members, key) {
            Some(value) => Ok(value),
            None => Err(LmsErrorView::NoField { field: key }),
        },
        _ => Err(LmsErrorView::ResultHasWrongType),
    }
}

/// A boolean, as it is or as the integer that the server sends for it: zero
/// is false, any other integer is true.
pub open spec fn bool_of(value: JsonView) -> Result<bool, LmsErrorView> {
    match value {
        JsonView::Bool(b) => Ok(b),
        JsonView::Number(n) => match n.i64_of() {
            Some(i) => Ok(i != 0),
            None => Err(LmsErrorView::WrongType { expected: Expected::Bool }),
        },
        _ => Err(LmsErrorView::WrongType { expected: Expected::Bool }),
    }
}

/// An unsigned integer, which the server sends as a number or as a string of
/// decimal digits.
pub open spec fn u64_of(value: JsonView) -> Result<u64, LmsErrorView> {
    match value {
        JsonView::String(text) => match decimal_text_value(text, u64::MAX as nat) {
            Some(n) => Ok(n as u64),
            None => Err(LmsErrorView::WrongType { expected: Expected::Integer }),
        },
        JsonView::Number(n) => match n.u64_of() {
            Some(n) => Ok(n),
            None => Err(LmsErrorView::WrongType { expected: Expected::Integer }),
        },
        _ => Err(LmsErrorView::WrongType { expected: Expected::Integer }),
    }
}

/// A 16-bit unsigned integer, sent as a string of decimal digits.
pub open spec fn u16_of(value: JsonView) -> Result<u16, LmsErrorView> {
    match value {
        JsonView::String(text) => match decimal_text_value(text, u16::MAX as nat) {
            Some(n) => Ok(n as u16),
            None => Err(LmsErrorView::WrongType { expected: Expected::Integer }),
        },
        _ => Err(LmsErrorView::WrongType { expected: Expected::Integer }),
    }
}

/// A text.
pub open spec fn text_of(value: JsonView) -> Result<Seq<char>, LmsErrorView> {
    match value {
        JsonView::String(text) => Ok(text),
        _ => Err(LmsErrorView::WrongType { expected: Expected::Text }),
    }
}

/// A playback mode: `stop`, `play` or `pause`, and nothing else.
pub open spec fn mode_of(value: JsonView) -> Result<Mode, LmsErrorView> {
    match value {
        JsonView::String(text) => if text == "stop"@ {
            Ok(Mode::Stop)
        } else if text == "play"@ {
            Ok(Mode::Play)
        } else if text == "pause"@ {
            Ok(Mode::Pause)
        } else {
            Err(LmsErrorView::WrongType { expected: Expected::Mode })
        },
        _ => Err(LmsErrorView::WrongType { expected: Expected::Mode }),
    }
}

/// A shuffle mode: 0, 1 or 2, as a number or as a string, and nothing else.
pub open spec fn shuffle_of(value: JsonView) -> Result<Shuffle, LmsErrorView> {
    match value {
        JsonView::String(text) => if text == "0"@ {
            Ok(Shuffle::Off)
        } else if text == "1"@ {
            Ok(Shuffle::Songs)
        } else if text == "2"@ {
            Ok(Shuffle::Albums)
        } else {
            Err(LmsErrorView::WrongType { expected: Expected::Shuffle })
        },
        JsonView::Number(n) => if n.u64_of() == Some(0u64) {
            Ok(Shuffle::Off)
        } else if n.u64_of() == Some(1u64) {
            Ok(Shuffle::Songs)
        } else if n.u64_of() == Some(2u64) {
            Ok(Shuffle::Albums)
        } else {
            Err(LmsErrorView::WrongType { expected: Expected::Shuffle })
        },
        _ => Err(LmsErrorView::WrongType { expected: Expected::Shuffle }),
    }
}

/// The text of the member of an object that is named `key`.
pub open spec fn text_member(members: Seq<(Seq<char>, JsonView)>, key: Seq<char>) -> Option<
    Seq<char>,
> {
    match lookup(members, key) {
        Some(JsonView::String(text)) => Some(text),
        _ => None,
    }
}

/// A player: an object whose members `name` and `playerid` are texts.
pub open spec fn player_of(item: JsonView) -> Option<PlayerView> {
    match item {
        JsonView::Object(members) => match (
            text_member(members, "name"@),
            text_member(members, "playerid"@),
        ) {
            (Some(name), Some(playerid)) => Some(PlayerView { name, playerid }),
            _ => None,
        },
        _ => None,
    }
}

/// The players of a list: an array whose items are all players.
pub open spec fn players_of(value: JsonView) -> Result<Seq<PlayerView>, LmsErrorView> {
    match value {
        JsonView::Array(items) => if forall|i: int|
            0 <= i < items.len() ==> player_of(#[trigger] items[i]) is Some {
            Ok(items.map_values(|item: JsonView| player_of(item)->0))
        } else {
            Err(LmsErrorView::WrongType { expected: Expected::Players })
        },
        _ => Err(LmsErrorView::WrongType { expected: Expected::Players }),
    }
}

/// What is read from the member named `key` of a result: the member,
/// converted by `convert`, or the reason why it cannot be had.
pub open spec fn member_as<T>(
    result: JsonView,
    key: Seq<char>,
    convert: spec_fn(JsonView) -> Result<T, LmsErrorView>,
) -> Result<T, LmsErrorView> {
    match field_of(result, key) {
        Ok(value) => convert(value),
        Err(e) => Err(e),
    }
}

/// What is read from a member that may be missing and is a text where it is
/// there: a member that is not there is no failure.
pub open spec fn optional_text(result: JsonView, key: Seq<char>) -> Result<
    Option<Seq<char>>,
    LmsErrorView,
> {
    match field_of(result, key) {
        Ok(JsonView::String(text)) => Ok(Some(text)),
        Ok(_) => Err(LmsErrorView::WrongType { expected: Expected::Text }),
        Err(LmsErrorView::NoField { .. }) => Ok(None),
        Err(e) => Err(e),
    }
}

/// A member that the result object does not have is read as a missing text,
/// whatever else the object holds.
pub proof fn lemma_missing_member_is_absent(members: Seq<(Seq<char>, JsonView)>, key: Seq<char>)
    requires
        forall|i: int| 0 <= i < members.len() ==> (#[trigger] members[i]).0 != key,
    ensures
        optional_text(JsonView::Object(members), key) == Ok::<Option<Seq<char>>, LmsErrorView>(
            None,
        ),
{
    lemma_lookup(members, key);
}

/// From a result that is not an object nothing is read, not even a missing
/// text: the response does not have the expected shape.
pub proof fn lemma_result_must_be_object(result: JsonView, key: Seq<char>)
    requires
        !(result is Object),
    ensures
        field_of(result, key) == Err::<JsonView, LmsErrorView>(LmsErrorView::ResultHasWrongType),
        optional_text(result, key) == Err::<Option<Seq<char>>, LmsErrorView>(
            LmsErrorView::ResultHasWrongType,
        ),
{
}

/// True when `r` is the value or the error that `expected` names.
pub open spec fn yields<T>(r: Result<T, LmsError>, expected: Result<T, LmsErrorView>) -> bool {
    match r {
        Ok(value) => expected == Ok::<T, LmsErrorView>(value),
        Err(e) => expected == Err::<T, LmsErrorView>(e@),
    }
}

/// [`yields`], for a JSON value.
pub open spec fn yields_json(
    r: Result<Json, LmsError>,
    expected: Result<JsonView, LmsErrorView>,
) -> bool {
    match r {
        Ok(value) => expected == Ok::<JsonView, LmsErrorView>(value@),
        Err(e) => expected == Err::<JsonView, LmsErrorView>(e@),
    }
}

/// [`yields`], for a text.
pub open spec fn yields_text(
    r: Result<String, LmsError>,
    expected: Result<Seq<char>, LmsErrorView>,
) -> bool {
    match r {
        Ok(text) => expected == Ok::<Seq<char>, LmsErrorView>(text@),
        Err(e) => expected == Err::<Seq<char>, LmsErrorView>(e@),
    }
}

/// [`yields`], for a text that may be missing.
pub open spec fn yields_optional_text(
    r: Result<Option<String>, LmsError>,
    expected: Result<Option<Seq<char>>, LmsErrorView>,
) -> bool {
    match r {
        Ok(Some(text)) => expected == Ok::<Option<Seq<char>>, LmsErrorView>(Some(text@)),
        Ok(None) => expected == Ok::<Option<Seq<char>>, LmsErrorView>(None),
        Err(e) => expected == Err::<Option<Seq<char>>, LmsErrorView>(e@),
    }
}

/// [`yields`], for the list of the players.
pub open spec fn yields_players(
    r: Result<Vec<Player>, LmsError>,
    expected: Result<Seq<PlayerView>, LmsErrorView>,
) -> bool {
    match r {
        Ok(players) => expected == Ok::<Seq<PlayerView>, LmsErrorView>(player_views(players@)),
        Err(e) => expected == Err::<Seq<PlayerView>, LmsErrorView>(e@),
    }
}

/// The position of the first member of `entries` that is named `key`.
fn position(entries: &Vec<Member>, key: &str) -> (r: Option<usize>)
    ensures
        match r {
            Some(i) => i < entries.len() && lookup(members_of(entries@), key@) == Some(
                entries@[i as int].value@,
            ),
            None => lookup(members_of(entries@), key@) is None,
        },
{
    let ghost members = members_of(entries@);
    let mut i: usize = 0;
    assert(members.skip(0) =~= members);
    while i < entries.len()
        invariant
            i <= entries.len(),
            members == members_of(entries@),
            lookup(members, key@) == lookup(members.skip(i as int), key@),
        decreases entries.len() - i,
    {
        let ghost rest = members.skip(i as int);
        assert(rest[0] == entries@[i as int]@);
        assert(rest.drop_first() =~= members.skip(i + 1));
        if *entries[i].name.as_str() == *key {
            return Some(i);
        }
        i += 1;
    }
    None
}

/// Takes the member named `field` out of the result of `response`.
pub fn result_field(response: LmsResponse, field: &String) -> (r: Result<Json, LmsError>)
    ensures
        yields_json(r, field_of(response@.result, field@)),
{
    match response.result {
        Json::Object(entries) => {
            proof {
                lemma_object_view(entries);
            }
            let mut entries = entries;
            match position(&entries, field.as_str()) {
                Some(i) => {
                    let member = entries.remove(i);
                    Ok(member.value)
                },
                None => Err(LmsError::NoField { field: field.clone() }),
            }
        },
        _ => Err(LmsError::ResultHasWrongType),
    }
}

/// Reads the member named `field` as a boolean.
pub fn as_bool(response: LmsResponse, field: &String) -> (r: Result<bool, LmsError>)
    ensures
        yields(r, member_as(response@.result, field@, |value: JsonView| bool_of(value))),
{
    let value = match result_field(response, field) {
        Ok(value) => value,
        Err(e) => {
            return Err(e);
        },
    };
    match value {
        Json::Bool(b) => Ok(b),
        Json::Number(n) => match n.as_i64() {
            Some(i) => Ok(i != 0),
            None => Err(LmsError::WrongType { expected: Expected::Bool }),
        },
        _ => Err(LmsError::WrongType { expected: Expected::Bool }),
    }
}

/// Reads the member named `field` as an unsigned integer.
pub fn as_u64(response: LmsResponse, field: &String) -> (r: Result<u64, LmsError>)
    ensures
        yields(r, member_as(response@.result, field@, |value: JsonView| u64_of(value))),
{
    let value = match result_field(response, field) {
        Ok(value) => value,
        Err(e) => {
            return Err(e);
        },
    };
    match value {
        Json::String(text) => match parse_decimal_text(text.as_str(), u64::MAX) {
            Some(n) => Ok(n),
            None => Err(LmsError::WrongType { expected: Expected::Integer }),
        },
        Json::Number(n) => match n.as_u64() {
            Some(n) => Ok(n),
            None => Err(LmsError::WrongType { expected: Expected::Integer }),
        },
        _ => Err(LmsError::WrongType { expected: Expected::Integer }),
    }
}

/// Reads the member named `field` as a 16-bit unsigned integer.
pub fn as_u16(response: LmsResponse, field: &String) -> (r: Result<u16, LmsError>)
    ensures
        yields(r, member_as(response@.result, field@, |value: JsonView| u16_of(value))),
{
    let value = match result_field(response, field) {
        Ok(value) => value,
        Err(e) => {
            return Err(e);
        },
    };
    match value {
        Json::String(text) => match parse_decimal_text(text.as_str(), 65535) {
            Some(n) => Ok(n as u16),
            None => Err(LmsError::WrongType { expected: Expected::Integer }),
        },
        _ => Err(LmsError::WrongType { expected: Expected::Integer }),
    }
}

/// Reads the member named `field` as a text.
pub fn as_string(response: LmsResponse, field: &String) -> (r: Result<String, LmsError>)
    ensures
        yields_text(r, member_as(response@.result, field@, |value: JsonView| text_of(value))),
{
    let value = match result_field(response, field) {
        Ok(value) => value,
        Err(e) => {
            return Err(e);
        },
    };
    match value {
        Json::String(text) => Ok(text),
        _ => Err(LmsError::WrongType { expected: Expected::Text }),
    }
}

/// Reads the member named `field` as a text that may be missing: the server
/// leaves out the artist, the title and the album where the playlist is empty
/// or the stream has none. A missing member is no failure; a result that is
/// not an object, or a member that is no text, is one.
pub fn as_string_or_not_there(response: LmsResponse, field: &String) -> (r: Result<
    Option<String>,
    LmsError,
>)
    ensures
        yields_optional_text(r, optional_text(response@.result, field@)),
{
    match as_string(response, field) {
        Ok(text) => Ok(Some(text)),
        Err(LmsError::NoField { .. }) => Ok(None),
        Err(e) => Err(e),
    }
}

/// Reads the member named `field` as a playback mode.
pub fn as_mode(response: LmsResponse, field: &String) -> (r: Result<Mode, LmsError>)
    ensures
        yields(r, member_as(response@.result, field@, |value: JsonView| mode_of(value))),
{
    let value = match result_field(response, field) {
        Ok(value) => value,
        Err(e) => {
            return Err(e);
        },
    };
    match value {
        Json::String(text) => {
            let text = text.as_str();
            if *text == *"stop" {
                Ok(Mode::Stop)
            } else if *text == *"play" {
                Ok(Mode::Play)
            } else if *text == *"pause" {
                Ok(Mode::Pause)
            } else {
                Err(LmsError::WrongType { expected: Expected::Mode })
            }
        },
        _ => Err(LmsError::WrongType { expected: Expected::Mode }),
    }
}

/// Reads the member named `field` as a shuffle mode.
pub fn as_shuffle(response: LmsResponse, field: &String) -> (r: Result<Shuffle, LmsError>)
    ensures
        yields(r, member_as(response@.result, field@, |value: JsonView| shuffle_of(value))),
{
    let value = match result_field(response, field) {
        Ok(value) => value,
        Err(e) => {
            return Err(e);
        },
    };
    match value {
        Json::String(text) => {
            let text = text.as_str();
            if *text == *"0" {
                Ok(Shuffle::Off)
            } else if *text == *"1" {
                Ok(Shuffle::Songs)
            } else if *text == *"2" {
                Ok(Shuffle::Albums)
            } else {
                Err(LmsError::WrongType { expected: Expected::Shuffle })
            }
        },
        Json::Number(n) => match n.as_u64() {
            Some(0) => Ok(Shuffle::Off),
            Some(1) => Ok(Shuffle::Songs),
            Some(2) => Ok(Shuffle::Albums),
            _ => Err(LmsError::WrongType { expected: Expected::Shuffle }),
        },
        _ => Err(LmsError::WrongType { expected: Expected::Shuffle }),
    }
}

/// A copy of the text of the member of an object that is named `key`.
fn copy_text_member(entries: &Vec<Member>, key: &str) -> (r: Option<String>)
    ensures
        match r {
            Some(text) => text_member(members_of(entries@), key@) == Some(text@),
            None => text_member(members_of(entries@), key@) is None,
        },
{
    match position(entries, key) {
        Some(i) => match &entries[i].value {
            Json::String(text) => Some(text.clone()),
            _ => None,
        },
        None => None,
    }
}

/// Reads an item of the list of the players.
fn as_player(item: &Json) -> (r: Option<Player>)
    ensures
        match r {
            Some(player) => player_of(item@) == Some(player@),
            None => player_of(item@) is None,
        },
{
    match item {
        Json::Object(entries) => {
            proof {
                lemma_object_view(*entries);
            }
            match (copy_text_member(entries, "name"), copy_text_member(entries, "playerid")) {
                (Some(name), Some(playerid)) => Some(Player { name, playerid }),
                _ => None,
            }
        },
        _ => None,
    }
}

/// Reads the member named `field` as the list of the players.
pub fn as_players(response: LmsResponse, field: &String) -> (r: Result<Vec<Player>, LmsError>)
    ensures
        yields_players(
            r,
            member_as(response@.result, field@, |value: JsonView| players_of(value)),
        ),
{
    let value = match result_field(response, field) {
        Ok(value) => value,
        Err(e) => {
            return Err(e);
        },
    };
    let items = match value {
        Json::Array(items) => {
            proof {
                lemma_array_view(items);
            }
            items
        },
        _ => {
            return Err(LmsError::WrongType { expected: Expected::Players });
        },
    };
    let ghost views = items_of(items@);
    let mut players: Vec<Player> = Vec::new();
    let mut i: usize = 0;
    while i < items.len()
        invariant
            i <= items.len(),
            players.len() == i,
            views == items_of(items@),
            field_of(response@.result, field@) == Ok::<JsonView, LmsErrorView>(
                JsonView::Array(views),
            ),
            forall|j: int| 0 <= j < i ==> player_of(#[trigger] views[j]) == Some(players@[j]@),
        decreases items.len() - i,
    {
        assert(views[i as int] == items@[i as int]@);
        match as_player(&items[i]) {
            Some(player) => {
                players.push(player);
            },
            None => {
                return Err(LmsError::WrongType { expected: Expected::Players });
            },
        }
        i += 1;
    }
    assert(player_views(players@) =~= views.map_values(|item: JsonView| player_of(item)->0));
    Ok(players)
}

/// Splits the outcome of an operation into what its caller gets and what the
/// supervisor is told. A value goes to the caller and nothing is signalled. On
/// a failure the caller gets `error`, and the cause is signalled, once.
pub fn handle_error<T>(result: Result<T, LmsError>, error: LmsError) -> (r: (
    Result<T, LmsError>,
    Option<LmsError>,
))
    ensures
        match result {
            Ok(value) => r == (Ok::<T, LmsError>(value), None::<LmsError>),
            Err(cause) => r == (Err::<T, LmsError>(error), Some(cause)),
        },
{
    match result {
        Ok(value) => (Ok(value), None),
        Err(cause) => (Err(error), Some(cause)),
    }
}

/// What a query yields: the member named `key` of the response's result,
/// converted by `convert`, or the failure of the exchange.
pub open spec fn answer<T>(
    reply: Result<LmsResponse, LmsError>,
    key: Seq<char>,
    convert: spec_fn(JsonView) -> Result<T, LmsErrorView>,
) -> Result<T, LmsErrorView> {
    match reply {
        Ok(response) => member_as(response@.result, key, convert),
        Err(e) => Err(e@),
    }
}

/// What a query for a text that may be missing yields.
pub open spec fn optional_answer(reply: Result<LmsResponse, LmsError>, key: Seq<char>) -> Result<
    Option<Seq<char>>,
    LmsErrorView,
> {
    match reply {
        Ok(response) => optional_text(response@.result, key),
        Err(e) => Err(e@),
    }
}

/// What a command yields: nothing, once the server has answered.
pub open spec fn acknowledged(reply: Result<LmsResponse, LmsError>) -> Result<(), LmsErrorView> {
    match reply {
        Ok(_) => Ok(()),
        Err(e) => Err(e@),
    }
}

/// What an operation reports of its outcome: a value is returned as it is and
/// nothing is signalled; of a failure the caller learns which operation has
/// failed, and the cause is signalled.
pub open spec fn report<T>(outcome: Result<T, LmsErrorView>, operation: Operation) -> (
    Result<T, LmsErrorView>,
    Option<LmsErrorView>,
) {
    match outcome {
        Ok(value) => (Ok(value), None),
        Err(cause) => (Err(LmsErrorView::Failed { operation }), Some(cause)),
    }
}

/// The value of what may have been signalled.
pub open spec fn signal_view(signal: Option<LmsError>) -> Option<LmsErrorView> {
    match signal {
        Some(cause) => Some(cause@),
        None => None,
    }
}

/// Every failure of an operation is signalled, exactly when the operation
/// returns a failure, and a value is never signalled.
pub proof fn lemma_failure_is_signalled<T>(outcome: Result<T, LmsErrorView>, operation: Operation)
    ensures
        report(outcome, operation).0 is Err <==> report(outcome, operation).1 is Some,
        report(outcome, operation).0 is Err <==> outcome is Err,
        outcome matches Err(cause) ==> report(outcome, operation).1 == Some(cause),
        outcome matches Ok(value) ==> report(outcome, operation).0 == Ok::<T, LmsErrorView>(value),
{
}

/// True when `r` is what an operation with this outcome reports.
pub open spec fn reported<T>(
    r: (Result<T, LmsError>, Option<LmsError>),
    outcome: Result<T, LmsErrorView>,
    operation: Operation,
) -> bool {
    yields(r.0, report(outcome, operation).0) && signal_view(r.1) == report(outcome, operation).1
}

/// [`reported`], for a text.
pub open spec fn reported_text(
    r: (Result<String, LmsError>, Option<LmsError>),
    outcome: Result<Seq<char>, LmsErrorView>,
    operation: Operation,
) -> bool {
    yields_text(r.0, report(outcome, operation).0) && signal_view(r.1) == report(
        outcome,
        operation,
    ).1
}

/// [`reported`], for a text that may be missing.
pub open spec fn reported_optional_text(
    r: (Result<Option<String>, LmsError>, Option<LmsError>),
    outcome: Result<Option<Seq<char>>, LmsErrorView>,
    operation: Operation,
) -> bool {
    yields_optional_text(r.0, report(outcome, operation).0) && signal_view(r.1) == report(
        outcome,
        operation,
    ).1
}

/// [`reported`], for the list of the players.
pub open spec fn reported_players(
    r: (Result<Vec<Player>, LmsError>, Option<LmsError>),
    outcome: Result<Seq<PlayerView>, LmsErrorView>,
    operation: Operation,
) -> bool {
    yields_players(r.0, report(outcome, operation).0) && signal_view(r.1) == report(
        outcome,
        operation,
    ).1
}

/// The address of the control interface of the server at `hostname:port`.
pub open spec fn url_of(hostname: Seq<char>, port: u16) -> Seq<char> {
    "http://"@ + hostname + ":"@ + decimal_text(port as nat) + "/jsonrpc.js"@
}

/// The client of one media server. It knows where the server's control
/// interface is and how the server names the answers to queries.
#[derive(Debug)]
pub struct LmsClient {
    url: String,
    convention: KeyConvention,
}

/// The mathematical value of an [`LmsClient`].
pub struct LmsClientView {
    pub url: Seq<char>,
    pub convention: KeyConvention,
}

impl View for LmsClient {
    type V = LmsClientView;

    closed spec fn view(&self) -> LmsClientView {
        LmsClientView { url: self.url@, convention: self.convention }
    }
}

impl LmsClient {
    /// The client of the server at `hostname:port`, which expects the answers
    /// to queries under prefixed keys.
    pub fn new(hostname: String, port: u16) -> (client: Self)
        ensures
            client@.url == url_of(hostname@, port),
            client@.convention == KeyConvention::Prefixed,
    {
        let url = "http://".to_owned().concat(hostname.as_str()).concat(":").concat(
            format_decimal(port as u64).as_str(),
        ).concat("/jsonrpc.js");
        Self { url, convention: KeyConvention::Prefixed }
    }

    /// The same client for a server that names its answers by `convention`.
    pub fn with_convention(self, convention: KeyConvention) -> (client: Self)
        ensures
            client@.url == self@.url,
            client@.convention == convention,
    {
        Self { url: self.url, convention }
    }

    /// The address to which the requests are posted.
    pub fn url(&self) -> (r: &String)
        ensures
            r@ == self@.url,
    {
        &self.url
    }

    /// How the server names the answers to queries.
    pub fn convention(&self) -> (r: KeyConvention)
        ensures
            r == self@.convention,
    {
        self.convention
    }

    /// Acknowledges the response to a command, whatever its result holds.
    pub fn post_no_result(reply: Result<LmsResponse, LmsError>) -> (r: Result<(), LmsError>)
        ensures
            yields(r, acknowledged(reply)),
    {
        match reply {
            Ok(_) => Ok(()),
            Err(e) => Err(e),
        }
    }

    /// The version of the server, from the reply to [`LmsRequest::version`].
    pub fn get_version(&self, reply: Result<LmsResponse, LmsError>) -> (r: (
        Result<String, LmsError>,
        Option<LmsError>,
    ))
        ensures
            reported_text(
                r,
                answer(reply, self@.convention.key_of("version"@), |value: JsonView| text_of(value)),
                Operation::GetVersion,
            ),
    {
        let field = self.convention.result_key("version");
        let result = match reply {
            Ok(response) => as_string(response, &field),
            Err(e) => Err(e),
        };
        handle_error(result, LmsError::Failed { operation: Operation::GetVersion })
    }

    /// Whether the player is connected, from the reply to
    /// [`LmsRequest::connected`].
    pub fn get_connected(&self, reply: Result<LmsResponse, LmsError>) -> (r: (
        Result<bool, LmsError>,
        Option<LmsError>,
    ))
        ensures
            reported(
                r,
                answer(reply, self@.convention.key_of("connected"@), |value: JsonView| bool_of(value)),
                Operation::GetConnected,
            ),
    {
        let field = self.convention.result_key("connected");
        let result = match reply {
            Ok(response) => as_bool(response, &field),
            Err(e) => Err(e),
        };
        handle_error(result, LmsError::Failed { operation: Operation::GetConnected })
    }

    /// The number of players that the server knows, from the reply to
    /// [`LmsRequest::players_count`].
    pub fn get_player_count(&self, reply: Result<LmsResponse, LmsError>) -> (r: (
        Result<u64, LmsError>,
        Option<LmsError>,
    ))
        ensures
            reported(
                r,
                answer(reply, "count"@, |value: JsonView| u64_of(value)),
                Operation::GetPlayerCount,
            ),
    {
        let field = "count".to_owned();
        let result = match reply {
            Ok(response) => as_u64(response, &field),
            Err(e) => Err(e),
        };
        handle_error(result, LmsError::Failed { operation: Operation::GetPlayerCount })
    }

    /// The players that the server knows, in the server's order, from the
    /// reply to [`LmsRequest::players_loop`].
    pub fn get_players(&self, reply: Result<LmsResponse, LmsError>) -> (r: (
        Result<Vec<Player>, LmsError>,
        Option<LmsError>,
    ))
        ensures
            reported_players(
                r,
                answer(reply, "players_loop"@, |value: JsonView| players_of(value)),
                Operation::GetPlayers,
            ),
    {
        let field = "players_loop".to_owned();
        let result = match reply {
            Ok(response) => as_players(response, &field),
            Err(e) => Err(e),
        };
        handle_error(result, LmsError::Failed { operation: Operation::GetPlayers })
    }

    /// The position of the current track in the playlist, from the reply to
    /// [`LmsRequest::index`].
    pub fn get_index(&self, reply: Result<LmsResponse, LmsError>) -> (r: (
        Result<u64, LmsError>,
        Option<LmsError>,
    ))
        ensures
            reported(
                r,
                answer(reply, self@.convention.key_of("index"@), |value: JsonView| u64_of(value)),
                Operation::GetIndex,
            ),
    {
        let field = self.convention.result_key("index");
        let result = match reply {
            Ok(response) => as_u64(response, &field),
            Err(e) => Err(e),
        };
        handle_error(result, LmsError::Failed { operation: Operation::GetIndex })
    }

    /// The number of tracks in the playlist, from the reply to
    /// [`LmsRequest::track_count`].
    pub fn get_track_count(&self, reply: Result<LmsResponse, LmsError>) -> (r: (
        Result<u64, LmsError>,
        Option<LmsError>,
    ))
        ensures
            reported(
                r,
                answer(reply, self@.convention.key_of("tracks"@), |value: JsonView| u64_of(value)),
                Operation::GetTrackCount,
            ),
    {
        let field = self.convention.result_key("tracks");
        let result = match reply {
            Ok(response) => as_u64(response, &field),
            Err(e) => Err(e),
        };
        handle_error(result, LmsError::Failed { operation: Operation::GetTrackCount })
    }

    /// How the player shuffles its playlist, from the reply to
    /// [`LmsRequest::shuffle`].
    pub fn get_shuffle(&self, reply: Result<LmsResponse, LmsError>) -> (r: (
        Result<Shuffle, LmsError>,
        Option<LmsError>,
    ))
        ensures
            reported(
                r,
                answer(reply, self@.convention.key_of("shuffle"@), |value: JsonView| shuffle_of(value)),
                Operation::GetShuffle,
            ),
    {
        let field = self.convention.result_key("shuffle");
        let result = match reply {
            Ok(response) => as_shuffle(response, &field),
            Err(e) => Err(e),
        };
        handle_error(result, LmsError::Failed { operation: Operation::GetShuffle })
    }

    /// What the player is doing, from the reply to [`LmsRequest::mode`].
    pub fn get_mode(&self, reply: Result<LmsResponse, LmsError>) -> (r: (
        Result<Mode, LmsError>,
        Option<LmsError>,
    ))
        ensures
            reported(
                r,
                answer(reply, self@.convention.key_of("mode"@), |value: JsonView| mode_of(value)),
                Operation::GetMode,
            ),
    {
        let field = self.convention.result_key("mode");
        let result = match reply {
            Ok(response) => as_mode(response, &field),
            Err(e) => Err(e),
        };
        handle_error(result, LmsError::Failed { operation: Operation::GetMode })
    }

    /// The artist of the current track, if it has one, from the reply to
    /// [`LmsRequest::artist`].
    pub fn get_artist(&self, reply: Result<LmsResponse, LmsError>) -> (r: (
        Result<Option<String>, LmsError>,
        Option<LmsError>,
    ))
        ensures
            reported_optional_text(
                r,
                optional_answer(reply, self@.convention.key_of("artist"@)),
                Operation::GetArtist,
            ),
    {
        let field = self.convention.result_key("artist");
        let result = match reply {
            Ok(response) => as_string_or_not_there(response, &field),
            Err(e) => Err(e),
        };
        handle_error(result, LmsError::Failed { operation: Operation::GetArtist })
    }

    /// The title of the current track, if it has one, from the reply to
    /// [`LmsRequest::title`].
    pub fn get_title(&self, reply: Result<LmsResponse, LmsError>) -> (r: (
        Result<Option<String>, LmsError>,
        Option<LmsError>,
    ))
        ensures
            reported_optional_text(
                r,
                optional_answer(reply, self@.convention.key_of("title"@)),
                Operation::GetTitle,
            ),
    {
        let field = self.convention.result_key("title");
        let result = match reply {
            Ok(response) => as_string_or_not_there(response, &field),
            Err(e) => Err(e),
        };
        handle_error(result, LmsError::Failed { operation: Operation::GetTitle })
    }

    /// The album of the current track, if it has one, from the reply to
    /// [`LmsRequest::album`].
    pub fn get_album(&self, reply: Result<LmsResponse, LmsError>) -> (r: (
        Result<Option<String>, LmsError>,
        Option<LmsError>,
    ))
        ensures
            reported_optional_text(
                r,
                optional_answer(reply, self@.convention.key_of("album"@)),
                Operation::GetAlbum,
            ),
    {
        let field = self.convention.result_key("album");
        let result = match reply {
            Ok(response) => as_string_or_not_there(response, &field),
            Err(e) => Err(e),
        };
        handle_error(result, LmsError::Failed { operation: Operation::GetAlbum })
    }

    /// The title that the player displays, from the reply to
    /// [`LmsRequest::current_title`].
    pub fn get_current_title(&self, reply: Result<LmsResponse, LmsError>) -> (r: (
        Result<String, LmsError>,
        Option<LmsError>,
    ))
        ensures
            reported_text(
                r,
                answer(reply, self@.convention.key_of("current_title"@), |value: JsonView| text_of(value)),
                Operation::GetCurrentTitle,
            ),
    {
        let field = self.convention.result_key("current_title");
        let result = match reply {
            Ok(response) => as_string(response, &field),
            Err(e) => Err(e),
        };
        handle_error(result, LmsError::Failed { operation: Operation::GetCurrentTitle })
    }

    /// The outcome of [`LmsRequest::play`].
    pub fn play(&self, reply: Result<LmsResponse, LmsError>) -> (r: (
        Result<(), LmsError>,
        Option<LmsError>,
    ))
        ensures
            reported(r, acknowledged(reply), Operation::Play),
    {
        handle_error(Self::post_no_result(reply), LmsError::Failed { operation: Operation::Play })
    }

    /// The outcome of [`LmsRequest::stop`].
    pub fn stop(&self, reply: Result<LmsResponse, LmsError>) -> (r: (
        Result<(), LmsError>,
        Option<LmsError>,
    ))
        ensures
            reported(r, acknowledged(reply), Operation::Stop),
    {
        handle_error(Self::post_no_result(reply), LmsError::Failed { operation: Operation::Stop })
    }

    /// The outcome of [`LmsRequest::pause`].
    pub fn pause(&self, reply: Result<LmsResponse, LmsError>) -> (r: (
        Result<(), LmsError>,
        Option<LmsError>,
    ))
        ensures
            reported(r, acknowledged(reply), Operation::Pause),
    {
        handle_error(Self::post_no_result(reply), LmsError::Failed { operation: Operation::Pause })
    }

    /// The outcome of [`LmsRequest::play_pause`].
    pub fn play_pause(&self, reply: Result<LmsResponse, LmsError>) -> (r: (
        Result<(), LmsError>,
        Option<LmsError>,
    ))
        ensures
            reported(r, acknowledged(reply), Operation::PlayPause),
    {
        handle_error(Self::post_no_result(reply), LmsError::Failed { operation: Operation::PlayPause })
    }

    /// The outcome of [`LmsRequest::previous`].
    pub fn previous(&self, reply: Result<LmsResponse, LmsError>) -> (r: (
        Result<(), LmsError>,
        Option<LmsError>,
    ))
        ensures
            reported(r, acknowledged(reply), Operation::Previous),
    {
        handle_error(Self::post_no_result(reply), LmsError::Failed { operation: Operation::Previous })
    }

    /// The outcome of [`LmsRequest::next`].
    pub fn next(&self, reply: Result<LmsResponse, LmsError>) -> (r: (
        Result<(), LmsError>,
        Option<LmsError>,
    ))
        ensures
            reported(r, acknowledged(reply), Operation::Next),
    {
        handle_error(Self::post_no_result(reply), LmsError::Failed { operation: Operation::Next })
    }
}

} // verus!
