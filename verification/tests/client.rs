use squeezelite_mpris::lms::request::KeyConvention;
use squeezelite_mpris::lms::{
    as_bool, as_mode, as_players, as_shuffle, as_string, as_string_or_not_there, as_u16, as_u64,
    handle_error, result_field, Expected, Json, LmsClient, LmsError, LmsResponse, Member, Mode,
    Number, Operation, Shuffle,
};

fn text(value: &str) -> Json {
    Json::String(value.to_string())
}

fn integer(value: i128) -> Json {
    Json::Number(Number::Integer(value))
}

fn object(members: Vec<(&str, Json)>) -> Json {
    Json::Object(
        members
            .into_iter()
            .map(|(name, value)| Member { name: name.to_string(), value })
            .collect(),
    )
}

fn response(result: Json) -> LmsResponse {
    LmsResponse {
        method: "slim.request".to_string(),
        params: ("player".to_string(), vec!["mode".to_string(), "?".to_string()]),
        result,
    }
}

fn with(name: &str, value: Json) -> LmsResponse {
    response(object(vec![(name, value)]))
}

fn key(name: &str) -> String {
    name.to_string()
}

fn is_wrong_type<T: std::fmt::Debug>(r: Result<T, LmsError>, what: Expected) -> bool {
    matches!(r, Err(LmsError::WrongType { expected }) if expected == what)
}

fn is_no_field<T: std::fmt::Debug>(r: Result<T, LmsError>, name: &str) -> bool {
    matches!(r, Err(LmsError::NoField { field }) if field == name)
}

fn is_failed<T: std::fmt::Debug>(r: &Result<T, LmsError>, what: Operation) -> bool {
    matches!(r, Err(LmsError::Failed { operation }) if *operation == what)
}

#[test]
fn numbers_as_integers() {
    assert_eq!(Number::Integer(0).as_i64(), Some(0));
    assert_eq!(Number::Integer(-1).as_i64(), Some(-1));
    assert_eq!(Number::Integer(i64::MAX as i128).as_i64(), Some(i64::MAX));
    assert_eq!(Number::Integer(i64::MIN as i128).as_i64(), Some(i64::MIN));
    assert_eq!(Number::Integer(i64::MAX as i128 + 1).as_i64(), None);
    assert_eq!(Number::Integer(i64::MIN as i128 - 1).as_i64(), None);
    assert_eq!(Number::Float.as_i64(), None);

    assert_eq!(Number::Integer(0).as_u64(), Some(0));
    assert_eq!(Number::Integer(u64::MAX as i128).as_u64(), Some(u64::MAX));
    assert_eq!(Number::Integer(u64::MAX as i128 + 1).as_u64(), None);
    assert_eq!(Number::Integer(-1).as_u64(), None);
    assert_eq!(Number::Float.as_u64(), None);
}

#[test]
fn result_field_takes_the_member() {
    let r = result_field(
        response(object(vec![("a", integer(1)), ("b", text("two")), ("c", Json::Null)])),
        &key("b"),
    );
    assert!(matches!(r, Ok(Json::String(s)) if s == "two"));
}

#[test]
fn result_field_takes_the_first_of_two() {
    let r = result_field(
        response(object(vec![("a", integer(1)), ("a", integer(2))])),
        &key("a"),
    );
    assert!(matches!(r, Ok(Json::Number(Number::Integer(1)))));
}

#[test]
fn result_field_without_the_member() {
    assert!(is_no_field(result_field(with("a", integer(1)), &key("b")), "b"));
    assert!(is_no_field(result_field(response(object(vec![])), &key("_mode")), "_mode"));
    assert!(is_no_field(result_field(with("mode", text("play")), &key("_mode")), "_mode"));
}

#[test]
fn result_that_is_no_object() {
    for result in [
        Json::Null,
        Json::Bool(true),
        integer(1),
        text("_mode"),
        Json::Array(vec![object(vec![("_mode", text("play"))])]),
    ] {
        let r = result_field(response(result), &key("_mode"));
        assert!(matches!(r, Err(LmsError::ResultHasWrongType)));
    }
}

#[test]
fn booleans_come_as_integers() {
    assert_eq!(as_bool(with("_connected", integer(1)), &key("_connected")).unwrap(), true);
    assert_eq!(as_bool(with("_connected", integer(0)), &key("_connected")).unwrap(), false);
    assert_eq!(as_bool(with("_connected", integer(2)), &key("_connected")).unwrap(), true);
    assert_eq!(as_bool(with("_connected", integer(-1)), &key("_connected")).unwrap(), true);
}

#[test]
fn booleans_come_as_they_are() {
    assert_eq!(as_bool(with("_connected", Json::Bool(true)), &key("_connected")).unwrap(), true);
    assert_eq!(as_bool(with("_connected", Json::Bool(false)), &key("_connected")).unwrap(), false);
}

#[test]
fn what_is_no_boolean() {
    let k = key("_connected");
    assert!(is_wrong_type(as_bool(with("_connected", text("1")), &k), Expected::Bool));
    assert!(is_wrong_type(as_bool(with("_connected", Json::Null), &k), Expected::Bool));
    assert!(is_wrong_type(
        as_bool(with("_connected", Json::Number(Number::Float)), &k),
        Expected::Bool
    ));
    assert!(is_wrong_type(
        as_bool(with("_connected", integer(i64::MAX as i128 + 1)), &k),
        Expected::Bool
    ));
    assert!(is_no_field(as_bool(with("connected", integer(1)), &k), "_connected"));
    assert!(matches!(as_bool(response(Json::Null), &k), Err(LmsError::ResultHasWrongType)));
}

#[test]
fn counts_come_as_numbers_or_strings() {
    let k = key("count");
    assert_eq!(as_u64(with("count", integer(3)), &k).unwrap(), 3);
    assert_eq!(as_u64(with("count", text("3")), &k).unwrap(), 3);
    assert_eq!(as_u64(with("count", text("0")), &k).unwrap(), 0);
    assert_eq!(as_u64(with("count", integer(u64::MAX as i128)), &k).unwrap(), u64::MAX);
    assert_eq!(as_u64(with("count", text("18446744073709551615")), &k).unwrap(), u64::MAX);
}

#[test]
fn what_is_no_count() {
    let k = key("count");
    assert!(is_wrong_type(as_u64(with("count", integer(-1)), &k), Expected::Integer));
    assert!(is_wrong_type(as_u64(with("count", text("-1")), &k), Expected::Integer));
    assert!(is_wrong_type(as_u64(with("count", text("")), &k), Expected::Integer));
    assert!(is_wrong_type(as_u64(with("count", text("three")), &k), Expected::Integer));
    assert!(is_wrong_type(
        as_u64(with("count", text("18446744073709551616")), &k),
        Expected::Integer
    ));
    assert!(is_wrong_type(
        as_u64(with("count", integer(u64::MAX as i128 + 1)), &k),
        Expected::Integer
    ));
    assert!(is_wrong_type(
        as_u64(with("count", Json::Number(Number::Float)), &k),
        Expected::Integer
    ));
    assert!(is_wrong_type(as_u64(with("count", Json::Bool(true)), &k), Expected::Integer));
    assert!(is_no_field(as_u64(with("other", integer(1)), &k), "count"));
}

#[test]
fn small_integers_come_as_strings() {
    let k = key("_index");
    assert_eq!(as_u16(with("_index", text("12")), &k).unwrap(), 12);
    assert_eq!(as_u16(with("_index", text("65535")), &k).unwrap(), 65535);
    assert!(is_wrong_type(as_u16(with("_index", text("65536")), &k), Expected::Integer));
    assert!(is_wrong_type(as_u16(with("_index", integer(12)), &k), Expected::Integer));
    assert!(is_no_field(as_u16(with("index", text("12")), &k), "_index"));
}

#[test]
fn texts() {
    let k = key("_version");
    assert_eq!(as_string(with("_version", text("8.3.1")), &k).unwrap(), "8.3.1");
    assert_eq!(as_string(with("_version", text("")), &k).unwrap(), "");
    assert!(is_wrong_type(as_string(with("_version", integer(8)), &k), Expected::Text));
    assert!(is_wrong_type(as_string(with("_version", Json::Null), &k), Expected::Text));
    assert!(is_no_field(as_string(with("version", text("8.3.1")), &k), "_version"));
}

#[test]
fn text_that_may_be_missing() {
    let k = key("_artist");
    let r = as_string_or_not_there(with("_artist", text("Nina Simone")), &k).unwrap();
    assert_eq!(r.as_deref(), Some("Nina Simone"));
    let r = as_string_or_not_there(response(object(vec![])), &k).unwrap();
    assert_eq!(r, None);
    let r = as_string_or_not_there(with("_title", text("Sinnerman")), &k).unwrap();
    assert_eq!(r, None);
}

#[test]
fn missing_is_not_the_same_as_wrong() {
    let k = key("_artist");
    assert!(matches!(
        as_string_or_not_there(response(Json::Array(vec![])), &k),
        Err(LmsError::ResultHasWrongType)
    ));
    assert!(matches!(
        as_string_or_not_there(response(Json::Null), &k),
        Err(LmsError::ResultHasWrongType)
    ));
    assert!(is_wrong_type(
        as_string_or_not_there(with("_artist", integer(1)), &k),
        Expected::Text
    ));
}

#[test]
fn modes() {
    let k = key("_mode");
    assert_eq!(as_mode(with("_mode", text("stop")), &k).unwrap(), Mode::Stop);
    assert_eq!(as_mode(with("_mode", text("play")), &k).unwrap(), Mode::Play);
    assert_eq!(as_mode(with("_mode", text("pause")), &k).unwrap(), Mode::Pause);
}

#[test]
fn what_is_no_mode() {
    let k = key("_mode");
    for value in ["", "Play", "playing", "stopped", "paused", "play ", "0"] {
        assert!(is_wrong_type(as_mode(with("_mode", text(value)), &k), Expected::Mode));
    }
    assert!(is_wrong_type(as_mode(with("_mode", integer(1)), &k), Expected::Mode));
    assert!(is_no_field(as_mode(with("mode", text("play")), &k), "_mode"));
}

#[test]
fn shuffle_modes_as_strings_and_numbers() {
    let k = key("_shuffle");
    assert_eq!(as_shuffle(with("_shuffle", text("0")), &k).unwrap(), Shuffle::Off);
    assert_eq!(as_shuffle(with("_shuffle", text("1")), &k).unwrap(), Shuffle::Songs);
    assert_eq!(as_shuffle(with("_shuffle", text("2")), &k).unwrap(), Shuffle::Albums);
    assert_eq!(as_shuffle(with("_shuffle", integer(0)), &k).unwrap(), Shuffle::Off);
    assert_eq!(as_shuffle(with("_shuffle", integer(1)), &k).unwrap(), Shuffle::Songs);
    assert_eq!(as_shuffle(with("_shuffle", integer(2)), &k).unwrap(), Shuffle::Albums);
}

#[test]
fn what_is_no_shuffle_mode() {
    let k = key("_shuffle");
    assert!(is_wrong_type(as_shuffle(with("_shuffle", text("3")), &k), Expected::Shuffle));
    assert!(is_wrong_type(as_shuffle(with("_shuffle", integer(3)), &k), Expected::Shuffle));
    assert!(is_wrong_type(as_shuffle(with("_shuffle", integer(-1)), &k), Expected::Shuffle));
    assert!(is_wrong_type(as_shuffle(with("_shuffle", text("01")), &k), Expected::Shuffle));
    assert!(is_wrong_type(as_shuffle(with("_shuffle", text("")), &k), Expected::Shuffle));
    assert!(is_wrong_type(as_shuffle(with("_shuffle", text("songs")), &k), Expected::Shuffle));
    assert!(is_wrong_type(
        as_shuffle(with("_shuffle", Json::Number(Number::Float)), &k),
        Expected::Shuffle
    ));
    assert!(is_wrong_type(as_shuffle(with("_shuffle", Json::Bool(true)), &k), Expected::Shuffle));
    assert!(is_no_field(as_shuffle(response(object(vec![])), &k), "_shuffle"));
}

fn listed(name: &str, id: &str) -> Json {
    object(vec![
        ("playerindex", text("0")),
        ("playerid", text(id)),
        ("name", text(name)),
        ("connected", integer(1)),
    ])
}

#[test]
fn players_in_the_order_of_the_server() {
    let list = Json::Array(vec![listed("Kitchen", "aa"), listed("SqueezeLite", "bb")]);
    let players = as_players(with("players_loop", list), &key("players_loop")).unwrap();
    assert_eq!(players.len(), 2);
    assert_eq!(players[0].name, "Kitchen");
    assert_eq!(players[0].playerid, "aa");
    assert_eq!(players[1].name, "SqueezeLite");
    assert_eq!(players[1].playerid, "bb");

    let players =
        as_players(with("players_loop", Json::Array(vec![])), &key("players_loop")).unwrap();
    assert!(players.is_empty());
}

#[test]
fn what_is_no_list_of_players() {
    let k = key("players_loop");
    assert!(is_wrong_type(as_players(with("players_loop", text("x")), &k), Expected::Players));
    assert!(is_wrong_type(
        as_players(with("players_loop", listed("a", "b")), &k),
        Expected::Players
    ));
    let without_id = Json::Array(vec![listed("a", "b"), object(vec![("name", text("c"))])]);
    assert!(is_wrong_type(as_players(with("players_loop", without_id), &k), Expected::Players));
    let numeric_name = Json::Array(vec![object(vec![
        ("name", integer(1)),
        ("playerid", text("b")),
    ])]);
    assert!(is_wrong_type(as_players(with("players_loop", numeric_name), &k), Expected::Players));
    let not_objects = Json::Array(vec![text("a")]);
    assert!(is_wrong_type(as_players(with("players_loop", not_objects), &k), Expected::Players));
    assert!(is_no_field(as_players(with("count", integer(0)), &k), "players_loop"));
    assert!(matches!(
        as_players(response(Json::Null), &k),
        Err(LmsError::ResultHasWrongType)
    ));
}

#[test]
fn handle_error_passes_a_value() {
    let (result, signal) =
        handle_error(Ok(5u64), LmsError::Failed { operation: Operation::GetIndex });
    assert_eq!(result.unwrap(), 5);
    assert!(signal.is_none());
}

#[test]
fn handle_error_splits_a_failure() {
    let cause = LmsError::Transport { cause: "connection refused".to_string() };
    let (result, signal) =
        handle_error::<u64>(Err(cause), LmsError::Failed { operation: Operation::GetIndex });
    assert!(is_failed(&result, Operation::GetIndex));
    assert!(matches!(signal, Some(LmsError::Transport { cause }) if cause == "connection refused"));
}

#[test]
fn client_address() {
    let client = LmsClient::new("192.168.1.10".to_string(), 9000);
    assert_eq!(client.url(), "http://192.168.1.10:9000/jsonrpc.js");
    assert_eq!(client.convention(), KeyConvention::Prefixed);
    assert_eq!(LmsClient::new("lms".to_string(), 0).url(), "http://lms:0/jsonrpc.js");
    assert_eq!(LmsClient::new("lms".to_string(), 65535).url(), "http://lms:65535/jsonrpc.js");
    let client = client.with_convention(KeyConvention::Verbatim);
    assert_eq!(client.url(), "http://192.168.1.10:9000/jsonrpc.js");
    assert_eq!(client.convention(), KeyConvention::Verbatim);
}

fn client() -> LmsClient {
    LmsClient::new("lms".to_string(), 9000)
}

fn refused() -> Result<LmsResponse, LmsError> {
    Err(LmsError::Transport { cause: "connection refused".to_string() })
}

fn is_refused(signal: &Option<LmsError>) -> bool {
    matches!(signal, Some(LmsError::Transport { cause }) if cause == "connection refused")
}

#[test]
fn client_queries() {
    let (r, signal) = client().get_version(Ok(with("_version", text("8.3.1"))));
    assert_eq!(r.unwrap(), "8.3.1");
    assert!(signal.is_none());

    let (r, signal) = client().get_connected(Ok(with("_connected", integer(1))));
    assert_eq!(r.unwrap(), true);
    assert!(signal.is_none());

    let (r, signal) = client().get_player_count(Ok(with("count", integer(2))));
    assert_eq!(r.unwrap(), 2);
    assert!(signal.is_none());

    let list = Json::Array(vec![listed("SqueezeLite", "abc")]);
    let (r, signal) = client().get_players(Ok(with("players_loop", list)));
    let players = r.unwrap();
    assert_eq!(players.len(), 1);
    assert_eq!(players[0].name, "SqueezeLite");
    assert_eq!(players[0].playerid, "abc");
    assert!(signal.is_none());

    let (r, signal) = client().get_index(Ok(with("_index", text("4"))));
    assert_eq!(r.unwrap(), 4);
    assert!(signal.is_none());

    let (r, signal) = client().get_track_count(Ok(with("_tracks", integer(12))));
    assert_eq!(r.unwrap(), 12);
    assert!(signal.is_none());

    let (r, signal) = client().get_shuffle(Ok(with("_shuffle", text("2"))));
    assert_eq!(r.unwrap(), Shuffle::Albums);
    assert!(signal.is_none());

    let (r, signal) = client().get_mode(Ok(with("_mode", text("pause"))));
    assert_eq!(r.unwrap(), Mode::Pause);
    assert!(signal.is_none());

    let (r, signal) = client().get_current_title(Ok(with("_current_title", text("Radio"))));
    assert_eq!(r.unwrap(), "Radio");
    assert!(signal.is_none());
}

#[test]
fn client_queries_for_the_current_track() {
    let (r, signal) = client().get_artist(Ok(with("_artist", text("Nina Simone"))));
    assert_eq!(r.unwrap().as_deref(), Some("Nina Simone"));
    assert!(signal.is_none());
    let (r, signal) = client().get_title(Ok(with("_title", text("Sinnerman"))));
    assert_eq!(r.unwrap().as_deref(), Some("Sinnerman"));
    assert!(signal.is_none());
    let (r, signal) = client().get_album(Ok(with("_album", text("Pastel Blues"))));
    assert_eq!(r.unwrap().as_deref(), Some("Pastel Blues"));
    assert!(signal.is_none());

    let (r, signal) = client().get_artist(Ok(response(object(vec![]))));
    assert_eq!(r.unwrap(), None);
    assert!(signal.is_none());
    let (r, signal) = client().get_title(Ok(response(object(vec![]))));
    assert_eq!(r.unwrap(), None);
    assert!(signal.is_none());
    let (r, signal) = client().get_album(Ok(response(object(vec![]))));
    assert_eq!(r.unwrap(), None);
    assert!(signal.is_none());
}

#[test]
fn client_reports_a_result_that_is_no_object() {
    let (r, signal) = client().get_artist(Ok(response(text("none"))));
    assert!(is_failed(&r, Operation::GetArtist));
    assert!(matches!(signal, Some(LmsError::ResultHasWrongType)));
    let (r, signal) = client().get_title(Ok(response(Json::Null)));
    assert!(is_failed(&r, Operation::GetTitle));
    assert!(matches!(signal, Some(LmsError::ResultHasWrongType)));
    let (r, signal) = client().get_album(Ok(response(Json::Array(vec![]))));
    assert!(is_failed(&r, Operation::GetAlbum));
    assert!(matches!(signal, Some(LmsError::ResultHasWrongType)));
}

#[test]
fn client_reports_a_missing_member() {
    let (r, signal) = client().get_mode(Ok(response(object(vec![]))));
    assert!(is_failed(&r, Operation::GetMode));
    assert!(matches!(signal, Some(LmsError::NoField { field }) if field == "_mode"));
    let (r, signal) = client().get_player_count(Ok(with("_count", integer(1))));
    assert!(is_failed(&r, Operation::GetPlayerCount));
    assert!(matches!(signal, Some(LmsError::NoField { field }) if field == "count"));
    let (r, signal) = client().get_players(Ok(with("count", integer(1))));
    assert!(is_failed(&r, Operation::GetPlayers));
    assert!(matches!(signal, Some(LmsError::NoField { field }) if field == "players_loop"));
}

#[test]
fn client_reports_a_wrong_value() {
    let (r, signal) = client().get_shuffle(Ok(with("_shuffle", text("3"))));
    assert!(is_failed(&r, Operation::GetShuffle));
    assert!(matches!(
        signal,
        Some(LmsError::WrongType { expected: Expected::Shuffle })
    ));
    let (r, signal) = client().get_mode(Ok(with("_mode", text("rewind"))));
    assert!(is_failed(&r, Operation::GetMode));
    assert!(matches!(signal, Some(LmsError::WrongType { expected: Expected::Mode })));
    let (r, signal) = client().get_version(Ok(with("_version", integer(8))));
    assert!(is_failed(&r, Operation::GetVersion));
    assert!(matches!(signal, Some(LmsError::WrongType { expected: Expected::Text })));
}

#[test]
fn client_reports_a_failure_of_the_transport() {
    let (r, signal) = client().get_version(refused());
    assert!(is_failed(&r, Operation::GetVersion) && is_refused(&signal));
    let (r, signal) = client().get_connected(refused());
    assert!(is_failed(&r, Operation::GetConnected) && is_refused(&signal));
    let (r, signal) = client().get_player_count(refused());
    assert!(is_failed(&r, Operation::GetPlayerCount) && is_refused(&signal));
    let (r, signal) = client().get_players(refused());
    assert!(is_failed(&r, Operation::GetPlayers) && is_refused(&signal));
    let (r, signal) = client().get_index(refused());
    assert!(is_failed(&r, Operation::GetIndex) && is_refused(&signal));
    let (r, signal) = client().get_track_count(refused());
    assert!(is_failed(&r, Operation::GetTrackCount) && is_refused(&signal));
    let (r, signal) = client().get_shuffle(refused());
    assert!(is_failed(&r, Operation::GetShuffle) && is_refused(&signal));
    let (r, signal) = client().get_mode(refused());
    assert!(is_failed(&r, Operation::GetMode) && is_refused(&signal));
    let (r, signal) = client().get_artist(refused());
    assert!(is_failed(&r, Operation::GetArtist) && is_refused(&signal));
    let (r, signal) = client().get_title(refused());
    assert!(is_failed(&r, Operation::GetTitle) && is_refused(&signal));
    let (r, signal) = client().get_album(refused());
    assert!(is_failed(&r, Operation::GetAlbum) && is_refused(&signal));
    let (r, signal) = client().get_current_title(refused());
    assert!(is_failed(&r, Operation::GetCurrentTitle) && is_refused(&signal));
}

#[test]
fn client_with_verbatim_keys() {
    let client = client().with_convention(KeyConvention::Verbatim);
    let (r, signal) = client.get_mode(Ok(with("mode", text("play"))));
    assert_eq!(r.unwrap(), Mode::Play);
    assert!(signal.is_none());
    let (r, signal) = client.get_mode(Ok(with("_mode", text("play"))));
    assert!(is_failed(&r, Operation::GetMode));
    assert!(matches!(signal, Some(LmsError::NoField { field }) if field == "mode"));
    let (r, _) = client.get_artist(Ok(with("artist", text("Nina Simone"))));
    assert_eq!(r.unwrap().as_deref(), Some("Nina Simone"));
    let (r, _) = client.get_artist(Ok(with("_artist", text("Nina Simone"))));
    assert_eq!(r.unwrap(), None);
    let (r, _) = client.get_player_count(Ok(with("count", integer(1))));
    assert_eq!(r.unwrap(), 1);
    let (r, _) = client.get_track_count(Ok(with("tracks", text("7"))));
    assert_eq!(r.unwrap(), 7);
}

#[test]
fn client_commands() {
    let done = || Ok(response(object(vec![])));
    let (r, signal) = client().play(done());
    assert!(r.is_ok() && signal.is_none());
    let (r, signal) = client().stop(done());
    assert!(r.is_ok() && signal.is_none());
    let (r, signal) = client().pause(done());
    assert!(r.is_ok() && signal.is_none());
    let (r, signal) = client().play_pause(Ok(response(Json::Null)));
    assert!(r.is_ok() && signal.is_none());
    let (r, signal) = client().previous(done());
    assert!(r.is_ok() && signal.is_none());
    let (r, signal) = client().next(done());
    assert!(r.is_ok() && signal.is_none());

    let (r, signal) = client().play(refused());
    assert!(is_failed(&r, Operation::Play) && is_refused(&signal));
    let (r, signal) = client().stop(refused());
    assert!(is_failed(&r, Operation::Stop) && is_refused(&signal));
    let (r, signal) = client().pause(refused());
    assert!(is_failed(&r, Operation::Pause) && is_refused(&signal));
    let (r, signal) = client().play_pause(refused());
    assert!(is_failed(&r, Operation::PlayPause) && is_refused(&signal));
    let (r, signal) = client().previous(refused());
    assert!(is_failed(&r, Operation::Previous) && is_refused(&signal));
    let (r, signal) = client().next(refused());
    assert!(is_failed(&r, Operation::Next) && is_refused(&signal));

    assert!(LmsClient::post_no_result(done()).is_ok());
    assert!(matches!(
        LmsClient::post_no_result(Err(LmsError::Decode { cause: "eof".to_string() })),
        Err(LmsError::Decode { cause }) if cause == "eof"
    ));
}
