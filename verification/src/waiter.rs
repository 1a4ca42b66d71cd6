//! Waiting for the player to be known to the media server. After the player
//! process has started, it takes a moment until the server lists it. The
//! waiter asks the server again and again until the player is there, the
//! time allowed has passed, or the client fails.
use crate::lms::{LmsError, LmsErrorView, Player};
use vstd::prelude::*;
use vstd::string::*;

verus! {

/// Why the wait ended without the player.
#[derive(Debug)]
pub enum WaitError {
    /// The player did not show up within so many seconds.
    NotAvailable { seconds: u64 },
    /// Asking the server failed.
    Client(LmsError),
}

/// The mathematical value of a [`WaitError`].
pub enum WaitErrorView {
    NotAvailable { seconds: u64 },
    Client(LmsErrorView),
}

impl View for WaitError {
    type V = WaitErrorView;

    open spec fn view(&self) -> WaitErrorView {
        match self {
            WaitError::NotAvailable { seconds } => WaitErrorView::NotAvailable {
                seconds: *seconds,
            },
            WaitError::Client(e) => WaitErrorView::Client(e@),
        }
    }
}

/// What happened since the waiter last acted.
#[derive(Debug)]
pub enum WaitEvent {
    /// The wait starts.
    Started,
    /// The server was asked how many players it knows.
    PlayerCount(Result<u64, LmsError>),
    /// The server was asked for its players.
    Players(Result<Vec<Player>, LmsError>),
    /// The time allowed has passed.
    TimedOut,
}

/// What the waiter does next.
#[derive(Debug)]
pub enum WaitAction {
    /// Ask the server how many players it knows.
    CountPlayers,
    /// Ask the server for its players.
    ListPlayers,
    /// Stop: the player is there, under this identifier, or the wait failed.
    Finish(Result<String, WaitError>),
}

/// The identifier of the first of `players` that is named `name`.
pub open spec fn player_id(players: Seq<Player>, name: Seq<char>) -> Option<Seq<char>>
    decreases players.len(),
{
    if players.len() == 0 {
        None
    } else if players[0].name@ == name {
        Some(players[0].playerid@)
    } else {
        player_id(players.drop_first(), name)
    }
}

/// A player is found exactly when one of that name is listed, and the one
/// found is the first of that name.
pub proof fn lemma_player_id(players: Seq<Player>, name: Seq<char>)
    ensures
        match player_id(players, name) {
            Some(id) => exists|i: int|
                0 <= i < players.len() && (#[trigger] players[i]).name@ == name
                    && players[i].playerid@ == id && forall|j: int|
                    0 <= j < i ==> (#[trigger] players[j]).name@ != name,
            None => forall|i: int| 0 <= i < players.len() ==> (#[trigger] players[i]).name@ != name,
        },
    decreases players.len(),
{
    if players.len() == 0 {
    } else if players[0].name@ == name {
        assert(players[0].playerid@ == player_id(players, name)->0);
    } else {
        let rest = players.drop_first();
        lemma_player_id(rest, name);
        match player_id(rest, name) {
            Some(id) => {
                let i = choose|i: int|
                    0 <= i < rest.len() && (#[trigger] rest[i]).name@ == name && rest[i].playerid@
                        == id && forall|j: int| 0 <= j < i ==> (#[trigger] rest[j]).name@ != name;
                assert(players[i + 1] == rest[i]);
                assert forall|j: int| 0 <= j < i + 1 implies (#[trigger] players[j]).name@
                    != name by {
                    if j > 0 {
                        assert(players[j] == rest[j - 1]);
                    }
                }
            },
            None => {
                assert forall|i: int| 0 <= i < players.len() implies (#[trigger] players[i]).name@
                    != name by {
                    if i > 0 {
                        assert(players[i] == rest[i - 1]);
                    }
                }
            },
        }
    }
}

/// Looks for the player named `name` and gives its identifier.
pub fn find_player(players: &Vec<Player>, name: &str) -> (r: Option<String>)
    ensures
        match r {
            Some(id) => player_id(players@, name@) == Some(id@),
            None => player_id(players@, name@) is None,
        },
{
    let mut i: usize = 0;
    assert(players@.skip(0) =~= players@);
    while i < players.len()
        invariant
            i <= players.len(),
            player_id(players@, name@) == player_id(players@.skip(i as int), name@),
        decreases players.len() - i,
    {
        let ghost rest = players@.skip(i as int);
        assert(rest[0] == players@[i as int]);
        assert(rest.drop_first() =~= players@.skip(i + 1));
        if *players[i].name.as_str() == *name {
            return Some(players[i].playerid.clone());
        }
        i += 1;
    }
    None
}

/// What the waiter does on an event, for a player named `name` and a wait of
/// at most `timeout` seconds.
pub open spec fn wait_step(name: Seq<char>, timeout: u64, event: WaitEvent) -> Option<
    Result<Seq<char>, WaitErrorView>,
> {
    match event {
        WaitEvent::Started => None,
        WaitEvent::PlayerCount(Ok(_)) => None,
        WaitEvent::PlayerCount(Err(e)) => Some(Err(WaitErrorView::Client(e@))),
        WaitEvent::Players(Ok(players)) => match player_id(players@, name) {
            Some(id) => Some(Ok(id)),
            None => None,
        },
        WaitEvent::Players(Err(e)) => Some(Err(WaitErrorView::Client(e@))),
        WaitEvent::TimedOut => Some(Err(WaitErrorView::NotAvailable { seconds: timeout })),
    }
}

/// Decides the next step of the wait for the player named `player_name`, of
/// at most `timeout` seconds.
///
/// The waiter asks for the number of players, and for the players themselves
/// once there is one. It ends with the identifier of the first player of that
/// name. A list without the player starts the next round at once. A failure of
/// the client ends the wait with that failure, and the end of the time
/// allowed ends it with the number of seconds that were waited.
pub fn wait_for_player(player_name: &str, timeout: u64, event: WaitEvent) -> (action: WaitAction)
    ensures
        match wait_step(player_name@, timeout, event) {
            Some(Ok(id)) => action matches WaitAction::Finish(Ok(found)) && found@ == id,
            Some(Err(e)) => action matches WaitAction::Finish(Err(cause)) && cause@ == e,
            None => action == (if event matches WaitEvent::PlayerCount(Ok(count)) && count != 0 {
                WaitAction::ListPlayers
            } else {
                WaitAction::CountPlayers
            }),
        },
{
    match event {
        WaitEvent::Started => WaitAction::CountPlayers,
        WaitEvent::PlayerCount(Ok(count)) => if count != 0 {
            WaitAction::ListPlayers
        } else {
            WaitAction::CountPlayers
        },
        WaitEvent::PlayerCount(Err(e)) => WaitAction::Finish(Err(WaitError::Client(e))),
        WaitEvent::Players(Ok(players)) => match find_player(&players, player_name) {
            Some(id) => WaitAction::Finish(Ok(id)),
            None => WaitAction::CountPlayers,
        },
        WaitEvent::Players(Err(e)) => WaitAction::Finish(Err(WaitError::Client(e))),
        WaitEvent::TimedOut => WaitAction::Finish(Err(WaitError::NotAvailable { seconds: timeout })),
    }
}

/// How a wait ends that meets `events` in this order: with what the first
/// event decides that decides anything. A wait that has met no such event
/// has not ended.
pub open spec fn wait_outcome(name: Seq<char>, timeout: u64, events: Seq<WaitEvent>) -> Option<
    Result<Seq<char>, WaitErrorView>,
>
    decreases events.len(),
{
    if events.len() == 0 {
        None
    } else {
        match wait_step(name, timeout, events[0]) {
            Some(outcome) => Some(outcome),
            None => wait_outcome(name, timeout, events.drop_first()),
        }
    }
}

/// A wait ends at the first event that decides it, however many rounds went
/// by before.
pub proof fn lemma_wait_ends_at_first_decision(
    name: Seq<char>,
    timeout: u64,
    events: Seq<WaitEvent>,
    k: int,
)
    requires
        0 <= k < events.len(),
        forall|i: int| 0 <= i < k ==> wait_step(name, timeout, #[trigger] events[i]) is None,
        wait_step(name, timeout, events[k]) is Some,
    ensures
        wait_outcome(name, timeout, events) == wait_step(name, timeout, events[k]),
    decreases k,
{
    if k > 0 {
        let rest = events.drop_first();
        assert forall|i: int| 0 <= i < k - 1 implies wait_step(
            name,
            timeout,
            #[trigger] rest[i],
        ) is None by {
            assert(rest[i] == events[i + 1]);
        }
        assert(rest[k - 1] == events[k]);
        lemma_wait_ends_at_first_decision(name, timeout, rest, k - 1);
    }
}

/// After any number of rounds in which the player was not listed, the wait
/// ends with the player's identifier as soon as a list holds the player.
pub proof fn lemma_wait_finds_player(
    name: Seq<char>,
    timeout: u64,
    events: Seq<WaitEvent>,
    k: int,
    id: Seq<char>,
)
    requires
        0 <= k < events.len(),
        forall|i: int|
            0 <= i < k ==> (#[trigger] events[i] matches WaitEvent::Players(Ok(players))
                && player_id(players@, name) is None),
        events[k] matches WaitEvent::Players(Ok(players)) && player_id(players@, name) == Some(id),
    ensures
        wait_outcome(name, timeout, events) == Some(Ok::<Seq<char>, WaitErrorView>(id)),
{
    lemma_wait_ends_at_first_decision(name, timeout, events, k);
}

/// Where the player is never listed, the wait ends when the time allowed has
/// passed, and the failure names the seconds that were allowed.
pub proof fn lemma_wait_times_out(name: Seq<char>, timeout: u64, events: Seq<WaitEvent>, k: int)
    requires
        0 <= k < events.len(),
        forall|i: int|
            0 <= i < k ==> (#[trigger] events[i] matches WaitEvent::Players(Ok(players))
                && player_id(players@, name) is None),
        events[k] == WaitEvent::TimedOut,
    ensures
        wait_outcome(name, timeout, events) == Some(
            Err::<Seq<char>, WaitErrorView>(WaitErrorView::NotAvailable { seconds: timeout }),
        ),
{
    lemma_wait_ends_at_first_decision(name, timeout, events, k);
}

/// A failure of the client ends the wait at once, with that failure: it is
/// not taken for a player that is not there yet.
pub proof fn lemma_wait_stops_on_failure(name: Seq<char>, timeout: u64, event: WaitEvent)
    requires
        event matches WaitEvent::Players(Err(_)) || event matches WaitEvent::PlayerCount(Err(_)),
    ensures
        wait_step(name, timeout, event) matches Some(Err(WaitErrorView::Client(_))),
{
}

} // verus!
