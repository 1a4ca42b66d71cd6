use squeezelite_mpris::lms::{LmsError, Operation, Player};
use squeezelite_mpris::waiter::{find_player, wait_for_player, WaitAction, WaitError, WaitEvent};

fn player(name: &str, id: &str) -> Player {
    Player { name: name.to_string(), playerid: id.to_string() }
}

/// Feeds the events to the waiter, one after the other, until it ends.
fn run(name: &str, timeout: u64, events: Vec<WaitEvent>) -> Option<Result<String, WaitError>> {
    for event in events {
        if let WaitAction::Finish(outcome) = wait_for_player(name, timeout, event) {
            return Some(outcome);
        }
    }
    None
}

#[test]
fn find_player_gives_the_identifier() {
    let players = vec![player("Kitchen", "aa"), player("SqueezeLite", "bb")];
    assert_eq!(find_player(&players, "SqueezeLite").as_deref(), Some("bb"));
    assert_eq!(find_player(&players, "Kitchen").as_deref(), Some("aa"));
    assert_eq!(find_player(&players, "Bedroom"), None);
    assert_eq!(find_player(&players, "squeezelite"), None);
    assert_eq!(find_player(&players, "aa"), None);
    assert_eq!(find_player(&[].to_vec(), "SqueezeLite"), None);
}

#[test]
fn find_player_takes_the_first_of_a_name() {
    let players = vec![player("a", "1"), player("b", "2"), player("b", "3"), player("a", "4")];
    assert_eq!(find_player(&players, "b").as_deref(), Some("2"));
    assert_eq!(find_player(&players, "a").as_deref(), Some("1"));
}

#[test]
fn waiter_asks_for_the_count_first() {
    assert!(matches!(
        wait_for_player("SqueezeLite", 3, WaitEvent::Started),
        WaitAction::CountPlayers
    ));
    assert!(matches!(
        wait_for_player("SqueezeLite", 3, WaitEvent::PlayerCount(Ok(0))),
        WaitAction::CountPlayers
    ));
    assert!(matches!(
        wait_for_player("SqueezeLite", 3, WaitEvent::PlayerCount(Ok(1))),
        WaitAction::ListPlayers
    ));
    assert!(matches!(
        wait_for_player("SqueezeLite", 3, WaitEvent::PlayerCount(Ok(u64::MAX))),
        WaitAction::ListPlayers
    ));
}

#[test]
fn waiter_goes_on_while_the_player_is_not_listed() {
    assert!(matches!(
        wait_for_player("SqueezeLite", 3, WaitEvent::Players(Ok(vec![]))),
        WaitAction::CountPlayers
    ));
    assert!(matches!(
        wait_for_player("SqueezeLite", 3, WaitEvent::Players(Ok(vec![player("Kitchen", "aa")]))),
        WaitAction::CountPlayers
    ));
}

#[test]
fn player_appears_after_two_empty_lists() {
    let events = vec![
        WaitEvent::Started,
        WaitEvent::Players(Ok(vec![])),
        WaitEvent::Players(Ok(vec![])),
        WaitEvent::Players(Ok(vec![player("SqueezeLite", "abc")])),
    ];
    let outcome = run("SqueezeLite", 5, events).unwrap();
    assert_eq!(outcome.unwrap(), "abc");
}

#[test]
fn player_appears_after_two_rounds_without_players() {
    let events = vec![
        WaitEvent::Started,
        WaitEvent::PlayerCount(Ok(0)),
        WaitEvent::PlayerCount(Ok(0)),
        WaitEvent::PlayerCount(Ok(1)),
        WaitEvent::Players(Ok(vec![player("SqueezeLite", "abc")])),
        WaitEvent::TimedOut,
    ];
    let outcome = run("SqueezeLite", 5, events).unwrap();
    assert_eq!(outcome.unwrap(), "abc");
}

#[test]
fn player_never_appears() {
    let events = vec![
        WaitEvent::Started,
        WaitEvent::PlayerCount(Ok(1)),
        WaitEvent::Players(Ok(vec![player("Kitchen", "aa")])),
        WaitEvent::PlayerCount(Ok(1)),
        WaitEvent::Players(Ok(vec![player("Kitchen", "aa")])),
        WaitEvent::TimedOut,
    ];
    let outcome = run("SqueezeLite", 1, events).unwrap();
    assert!(matches!(outcome, Err(WaitError::NotAvailable { seconds: 1 })));
}

#[test]
fn timeout_names_the_seconds_waited() {
    for seconds in [0, 1, 3, u64::MAX] {
        assert!(matches!(
            wait_for_player("SqueezeLite", seconds, WaitEvent::TimedOut),
            WaitAction::Finish(Err(WaitError::NotAvailable { seconds: s })) if s == seconds
        ));
    }
}

#[test]
fn failure_of_the_client_ends_the_wait() {
    let failed = || LmsError::Failed { operation: Operation::GetPlayerCount };
    let events = vec![
        WaitEvent::Started,
        WaitEvent::PlayerCount(Ok(0)),
        WaitEvent::PlayerCount(Err(failed())),
        WaitEvent::Players(Ok(vec![player("SqueezeLite", "abc")])),
    ];
    let outcome = run("SqueezeLite", 5, events).unwrap();
    assert!(matches!(
        outcome,
        Err(WaitError::Client(LmsError::Failed { operation: Operation::GetPlayerCount }))
    ));

    let action = wait_for_player(
        "SqueezeLite",
        5,
        WaitEvent::Players(Err(LmsError::Transport { cause: "reset".to_string() })),
    );
    assert!(matches!(
        action,
        WaitAction::Finish(Err(WaitError::Client(LmsError::Transport { cause }))) if cause == "reset"
    ));
}

#[test]
fn wait_that_has_not_ended() {
    let events = vec![WaitEvent::Started, WaitEvent::PlayerCount(Ok(0))];
    assert!(run("SqueezeLite", 5, events).is_none());
}
