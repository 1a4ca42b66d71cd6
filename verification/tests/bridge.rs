use squeezelite_mpris::bridge::StateBridge;
use squeezelite_mpris::lms::{LmsError, Mode, Operation};

fn failed() -> Result<Mode, LmsError> {
    Err(LmsError::Failed { operation: Operation::GetMode })
}

/// The indices of the polls at which the desktop is notified.
fn notified(bridge: &mut StateBridge, polls: &[Result<Mode, LmsError>]) -> Vec<usize> {
    let mut indices = Vec::new();
    for (i, poll) in polls.iter().enumerate() {
        if bridge.observe(poll) {
            indices.push(i);
        }
    }
    indices
}

#[test]
fn new_bridge_has_seen_nothing() {
    assert_eq!(StateBridge::new().last_mode(), None);
}

#[test]
fn first_mode_is_a_change() {
    for mode in [Mode::Stop, Mode::Play, Mode::Pause] {
        let mut bridge = StateBridge::new();
        assert!(bridge.observe(&Ok(mode)));
        assert_eq!(bridge.last_mode(), Some(mode));
    }
}

#[test]
fn notifies_once_for_each_change() {
    let mut bridge = StateBridge::new();
    let polls = [Ok(Mode::Play), Ok(Mode::Play), Ok(Mode::Pause), Ok(Mode::Pause), Ok(Mode::Play)];
    assert_eq!(notified(&mut bridge, &polls), [0, 2, 4]);
    assert_eq!(bridge.last_mode(), Some(Mode::Play));
}

#[test]
fn same_mode_again_is_no_change() {
    let mut bridge = StateBridge::new();
    assert!(bridge.observe(&Ok(Mode::Stop)));
    for _ in 0..10 {
        assert!(!bridge.observe(&Ok(Mode::Stop)));
        assert_eq!(bridge.last_mode(), Some(Mode::Stop));
    }
}

#[test]
fn failed_poll_is_skipped() {
    let mut bridge = StateBridge::new();
    assert!(!bridge.observe(&failed()));
    assert_eq!(bridge.last_mode(), None);
    assert!(bridge.observe(&Ok(Mode::Play)));
    assert!(!bridge.observe(&failed()));
    assert_eq!(bridge.last_mode(), Some(Mode::Play));
    assert!(!bridge.observe(&Ok(Mode::Play)));
    assert!(!bridge.observe(&failed()));
    assert!(bridge.observe(&Ok(Mode::Pause)));
    assert_eq!(bridge.last_mode(), Some(Mode::Pause));
}

#[test]
fn every_change_is_notified() {
    let mut bridge = StateBridge::new();
    let polls = [
        failed(),
        Ok(Mode::Stop),
        Ok(Mode::Play),
        failed(),
        Ok(Mode::Stop),
        Ok(Mode::Stop),
        Ok(Mode::Pause),
        Ok(Mode::Play),
    ];
    assert_eq!(notified(&mut bridge, &polls), [1, 2, 4, 6, 7]);
}
