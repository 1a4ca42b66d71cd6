//! The bridge from the player's state to the desktop. The playback mode is
//! asked for at a fixed pace, and the desktop is told whenever it has changed.
//! The bridge remembers the mode that it saw last; asking the server and
//! telling the desktop is left to the caller.
use crate::lms::{LmsError, Mode};
use vstd::prelude::*;

verus! {

/// The last playback mode that was seen, if any was.
#[derive(Debug)]
pub struct StateBridge {
    last: Option<Mode>,
}

impl View for StateBridge {
    type V = Option<Mode>;

    closed spec fn view(&self) -> Option<Mode> {
        self.last
    }
}

/// What a poll has shown: the mode, or nothing where the client failed.
pub open spec fn seen(polled: Result<Mode, LmsError>) -> Option<Mode> {
    match polled {
        Ok(mode) => Some(mode),
        Err(_) => None,
    }
}

/// The mode that is remembered after a poll by a bridge that remembered
/// `last` before: the mode that the poll has shown, if it has shown one.
pub open spec fn next_mode(last: Option<Mode>, poll: Option<Mode>) -> Option<Mode> {
    match poll {
        Some(mode) => Some(mode),
        None => last,
    }
}

/// True when a poll shows a change to a bridge that remembers `last`: it
/// shows a mode, and not the remembered one.
pub open spec fn changed(last: Option<Mode>, poll: Option<Mode>) -> bool {
    poll is Some && poll != last
}

/// The mode that is remembered after `polls`, in this order, by a bridge that
/// remembered `last` before.
pub open spec fn remembered(last: Option<Mode>, polls: Seq<Option<Mode>>) -> Option<Mode>
    decreases polls.len(),
{
    if polls.len() == 0 {
        last
    } else {
        next_mode(remembered(last, polls.drop_last()), polls.last())
    }
}

/// True when the desktop is told of a change at the poll of index `i`.
pub open spec fn notifies(last: Option<Mode>, polls: Seq<Option<Mode>>, i: int) -> bool
    recommends
        0 <= i < polls.len(),
{
    changed(remembered(last, polls.take(i)), polls[i])
}

impl StateBridge {
    /// A bridge that has seen nothing yet, so that the first mode it sees is a
    /// change.
    pub fn new() -> (bridge: Self)
        ensures
            bridge@ is None,
    {
        Self { last: None }
    }

    /// The mode that was seen last.
    pub fn last_mode(&self) -> (r: Option<Mode>)
        ensures
            r == self@,
    {
        self.last
    }

    /// Takes in the outcome of one poll and tells whether the desktop is to
    /// be notified. It is, once, when the poll shows a mode other than the one
    /// remembered; that mode is remembered from then on. A failed poll is
    /// skipped: nothing is notified and nothing forgotten.
    pub fn observe(&mut self, polled: &Result<Mode, LmsError>) -> (notify: bool)
        ensures
            final(self)@ == next_mode(old(self)@, seen(*polled)),
            notify == changed(old(self)@, seen(*polled)),
    {
        match polled {
            Ok(mode) => {
                let changed = match self.last {
                    Some(last) => last != *mode,
                    None => true,
                };
                self.last = Some(*mode);
                changed
            },
            Err(_) => false,
        }
    }
}

/// Where every poll succeeds, a bridge that starts empty notifies at the first
/// poll and at every poll whose mode differs from the one before, and at no
/// other.
pub proof fn lemma_notifies_on_change(modes: Seq<Mode>, i: int)
    requires
        0 <= i < modes.len(),
    ensures
        notifies(None, modes.map_values(|mode: Mode| Some(mode)), i) == (i == 0 || modes[i]
            != modes[i - 1]),
{
    let polls = modes.map_values(|mode: Mode| Some(mode));
    let before = polls.take(i);
    if i > 0 {
        assert(before.last() == Some(modes[i - 1]));
    }
}

/// A failed poll never notifies, and a poll that shows the remembered mode
/// again does not either.
pub proof fn lemma_no_notification_without_change(
    last: Option<Mode>,
    polls: Seq<Option<Mode>>,
    i: int,
)
    requires
        0 <= i < polls.len(),
        polls[i] is None || polls[i] == remembered(last, polls.take(i)),
    ensures
        !notifies(last, polls, i),
{
}

/// What a bridge remembers is the mode of the latest poll that has shown
/// one, and what it remembered at the start where none has.
pub proof fn lemma_remembered_latest(last: Option<Mode>, polls: Seq<Option<Mode>>)
    ensures
        match remembered(last, polls) {
            Some(mode) => (exists|i: int|
                0 <= i < polls.len() && #[trigger] polls[i] == Some(mode) && forall|j: int|
                    i < j < polls.len() ==> #[trigger] polls[j] is None) || (last == Some(mode)
                && forall|j: int| 0 <= j < polls.len() ==> #[trigger] polls[j] is None),
            None => last is None && forall|j: int|
                0 <= j < polls.len() ==> #[trigger] polls[j] is None,
        },
    decreases polls.len(),
{
    if polls.len() > 0 {
        let front = polls.drop_last();
        lemma_remembered_latest(last, front);
        match polls.last() {
            Some(mode) => {
                assert(polls[polls.len() - 1] == Some(mode));
            },
            None => {
                match remembered(last, front) {
                    Some(mode) => {
                        if exists|i: int|
                            0 <= i < front.len() && #[trigger] front[i] == Some(mode)
                                && forall|j: int|
                                i < j < front.len() ==> #[trigger] front[j] is None {
                            let i = choose|i: int|
                                0 <= i < front.len() && #[trigger] front[i] == Some(mode)
                                    && forall|j: int|
                                    i < j < front.len() ==> #[trigger] front[j] is None;
                            assert(polls[i] == front[i]);
                            assert forall|j: int| i < j < polls.len() implies #[trigger] polls[j]
                                is None by {
                                if j < front.len() {
                                    assert(polls[j] == front[j]);
                                }
                            }
                        } else {
                            assert forall|j: int| 0 <= j < polls.len() implies #[trigger] polls[j]
                                is None by {
                                if j < front.len() {
                                    assert(polls[j] == front[j]);
                                }
                            }
                        }
                    },
                    None => {
                        assert forall|j: int| 0 <= j < polls.len() implies #[trigger] polls[j]
                            is None by {
                            if j < front.len() {
                                assert(polls[j] == front[j]);
                            }
                        }
                    },
                }
            },
        }
    }
}

} // verus!
