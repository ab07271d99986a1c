use zone_daemon::state::{Corner, ZoneState};

const CORNERS: [Corner; 4] = [
    Corner::TopLeft,
    Corner::TopRight,
    Corner::BottomLeft,
    Corner::BottomRight,
];

#[test]
fn new_state_is_empty_and_undetected() {
    let state = ZoneState::new();
    assert!(!state.is_detected());
    for corner in CORNERS {
        assert_eq!(state.get_action(corner), "");
    }
}

#[test]
fn set_then_get_returns_value_for_every_corner() {
    for corner in CORNERS {
        let mut state = ZoneState::new();
        state.set_action(corner, "launcher");
        assert_eq!(state.get_action(corner), "launcher");
    }
}

#[test]
fn set_then_get_accepts_empty_string() {
    for corner in CORNERS {
        let mut state = ZoneState::new();
        state.set_action(corner, "something");
        state.set_action(corner, "");
        assert_eq!(state.get_action(corner), "");
    }
}

#[test]
fn set_then_get_accepts_non_ascii_text() {
    for corner in CORNERS {
        let mut state = ZoneState::new();
        state.set_action(corner, "启动器 – démarrer ✓");
        assert_eq!(state.get_action(corner), "启动器 – démarrer ✓");
    }
}

#[test]
fn setting_one_corner_leaves_the_others() {
    let mut state = ZoneState::new();
    state.set_action(Corner::TopLeft, "a");
    state.set_action(Corner::TopRight, "b");
    state.set_action(Corner::BottomLeft, "c");
    state.set_action(Corner::BottomRight, "d");
    state.set_action(Corner::TopRight, "changed");
    assert_eq!(state.get_action(Corner::TopLeft), "a");
    assert_eq!(state.get_action(Corner::TopRight), "changed");
    assert_eq!(state.get_action(Corner::BottomLeft), "c");
    assert_eq!(state.get_action(Corner::BottomRight), "d");
    assert!(!state.is_detected());
}

#[test]
fn detected_flag_follows_last_write() {
    let mut state = ZoneState::new();
    state.set_detected(true);
    assert!(state.is_detected());
    state.set_detected(false);
    assert!(!state.is_detected());
}

#[test]
fn detected_flag_leaves_actions() {
    let mut state = ZoneState::new();
    state.set_action(Corner::BottomRight, "desktop");
    state.set_detected(true);
    assert_eq!(state.get_action(Corner::BottomRight), "desktop");
    assert_eq!(state.get_action(Corner::TopLeft), "");
}

#[test]
fn snapshot_equals_its_source_until_either_changes() {
    let mut state = ZoneState::new();
    state.set_action(Corner::TopLeft, "a");
    state.set_detected(true);
    let copy = state.snapshot();
    assert!(state.same_as(&copy));
    assert!(copy.same_as(&state));
    assert_eq!(copy.get_action(Corner::TopLeft), "a");
    assert!(copy.is_detected());
    state.set_action(Corner::BottomRight, "b");
    assert!(!state.same_as(&copy));
    assert_eq!(copy.get_action(Corner::BottomRight), "");
}

#[test]
fn same_as_tells_every_field_apart() {
    let base = ZoneState::new();
    for corner in CORNERS {
        let mut other = ZoneState::new();
        other.set_action(corner, "x");
        assert!(!base.same_as(&other));
        other.set_action(corner, "");
        assert!(base.same_as(&other));
    }
    let mut flagged = ZoneState::new();
    flagged.set_detected(true);
    assert!(!base.same_as(&flagged));
}
