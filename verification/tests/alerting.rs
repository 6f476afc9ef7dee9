use cpu_monitor::alert::alert_step;
use cpu_monitor::alert::AlertAction;
use cpu_monitor::alert::AlertState;

const THRESHOLD: u32 = 9000;
const DURATION: u32 = 30;
const INTERVAL: u32 = 3;

#[test]
fn sustained_usage_activates_on_the_tenth_cycle() {
    // usage 95% against threshold 90%, duration 30 s, interval 3 s:
    // nine cycles stay Sustained (9 * 3 = 27 < 30), the tenth activates
    // (10 * 3 = 30 >= 30).
    let mut state = AlertState::Idle;
    for cycle in 1..=10u32 {
        let (next, action) = alert_step(state, Some(9500), THRESHOLD, DURATION, INTERVAL, true);
        if cycle < 10 {
            assert_eq!(next, AlertState::Sustained(cycle * INTERVAL));
            assert_eq!(action, AlertAction::NoChange);
        } else {
            assert_eq!(next, AlertState::Active);
            assert_eq!(action, AlertAction::ShowAlert);
        }
        state = next;
    }
}

#[test]
fn a_single_dip_resets_the_counter() {
    let mut state = AlertState::Idle;
    for _ in 0..5 {
        let (next, _) = alert_step(state, Some(9500), THRESHOLD, DURATION, INTERVAL, true);
        state = next;
    }
    assert_eq!(state, AlertState::Sustained(15));
    let (next, action) = alert_step(state, Some(8999), THRESHOLD, DURATION, INTERVAL, true);
    assert_eq!(next, AlertState::Idle);
    assert_eq!(action, AlertAction::NoChange);
    let (restart, _) = alert_step(next, Some(9500), THRESHOLD, DURATION, INTERVAL, true);
    assert_eq!(restart, AlertState::Sustained(3));
}

#[test]
fn disabled_popup_never_activates() {
    let mut state = AlertState::Idle;
    for _ in 0..20 {
        let (next, action) = alert_step(state, Some(9500), THRESHOLD, DURATION, INTERVAL, false);
        assert_ne!(next, AlertState::Active);
        assert_eq!(action, AlertAction::NoChange);
        state = next;
    }
    assert_eq!(state, AlertState::Sustained(60));
}

#[test]
fn staying_active_is_a_no_op() {
    let (next, action) = alert_step(AlertState::Active, Some(9500), THRESHOLD, DURATION, INTERVAL, true);
    assert_eq!(next, AlertState::Active);
    assert_eq!(action, AlertAction::NoChange);
}

#[test]
fn dropping_below_the_threshold_hides_an_active_alert() {
    let (next, action) = alert_step(AlertState::Active, Some(100), THRESHOLD, DURATION, INTERVAL, true);
    assert_eq!(next, AlertState::Idle);
    assert_eq!(action, AlertAction::HideAlert);
}

#[test]
fn disabling_the_popup_demotes_an_active_alert() {
    let (next, action) = alert_step(AlertState::Active, Some(9500), THRESHOLD, DURATION, INTERVAL, false);
    assert_eq!(next, AlertState::Sustained(DURATION));
    assert_eq!(action, AlertAction::HideAlert);
}

#[test]
fn an_empty_snapshot_counts_as_below_threshold() {
    let (next, action) = alert_step(AlertState::Sustained(27), None, THRESHOLD, DURATION, INTERVAL, true);
    assert_eq!(next, AlertState::Idle);
    assert_eq!(action, AlertAction::NoChange);
}

#[test]
fn exact_threshold_counts_as_over() {
    let (next, _) = alert_step(AlertState::Idle, Some(THRESHOLD), THRESHOLD, DURATION, INTERVAL, true);
    assert_eq!(next, AlertState::Sustained(3));
}
