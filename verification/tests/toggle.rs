use key_binder::toggle::Action;
use key_binder::toggle::Controller;
use key_binder::toggle::Event;
use key_binder::toggle::ToggleState;

#[test]
fn press_from_idle_spawns() {
    let c = Controller::new(61);
    assert_eq!(c.state, ToggleState::Idle);
    assert_eq!(c.decide(&Event::KeyPress(61), false), Action::Spawn);
}

#[test]
fn toggle_cycle_terminates_spawned_child() {
    let mut c = Controller::new(61);
    assert_eq!(c.decide(&Event::KeyPress(61), false), Action::Spawn);
    c.note_spawned(4242);
    assert_eq!(c.state, ToggleState::Running(4242));
    assert_eq!(c.decide(&Event::KeyPress(61), true), Action::Terminate(4242));
    c.note_idle();
    assert_eq!(c.state, ToggleState::Idle);
}

#[test]
fn relaunch_after_independent_exit() {
    let mut c = Controller::new(61);
    assert_eq!(c.decide(&Event::KeyPress(61), false), Action::Spawn);
    c.note_spawned(100);
    // The child behind pid 100 exited on its own: the liveness check answers
    // false, and the next qualifying press must spawn anew, not re-signal.
    assert_eq!(c.decide(&Event::KeyPress(61), false), Action::Spawn);
    c.note_spawned(101);
    assert_eq!(c.state, ToggleState::Running(101));
}

#[test]
fn non_qualifying_events_ignored() {
    let mut c = Controller::new(61);
    assert_eq!(c.decide(&Event::KeyPress(60), true), Action::Ignore);
    assert_eq!(c.decide(&Event::KeyRelease(61), true), Action::Ignore);
    assert_eq!(c.decide(&Event::Other, true), Action::Ignore);
    assert_eq!(c.state, ToggleState::Idle);
    c.note_spawned(7);
    assert_eq!(c.decide(&Event::KeyPress(60), true), Action::Ignore);
    assert_eq!(c.decide(&Event::KeyRelease(61), false), Action::Ignore);
    assert_eq!(c.decide(&Event::Other, false), Action::Ignore);
    assert_eq!(c.state, ToggleState::Running(7));
}

#[test]
fn shutdown_terminates_running_child() {
    let mut c = Controller::new(61);
    assert_eq!(c.shutdown_action(), Action::Ignore);
    c.note_spawned(55);
    assert_eq!(c.shutdown_action(), Action::Terminate(55));
}
