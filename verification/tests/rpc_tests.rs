use zone_daemon::rpc::{
    corner_action, dispatch, method_table, serve, set_corner, set_detected, Arg, CallFrame,
    Method, Reply, Role, RpcError, Shape, METHOD_COUNT,
};
use zone_daemon::state::{Corner, ZoneState};

fn frame(method: &str, args: Vec<Arg>) -> CallFrame {
    CallFrame {
        method: method.to_string(),
        args,
    }
}

fn text(value: &str) -> Arg {
    Arg::Str(value.to_string())
}

fn action(value: &str) -> Result<Reply, RpcError> {
    Ok(Reply::Action(value.to_string()))
}

fn filled() -> ZoneState {
    let mut state = ZoneState::new();
    state.set_action(Corner::TopLeft, "tl");
    state.set_action(Corner::TopRight, "tr");
    state.set_action(Corner::BottomLeft, "bl");
    state.set_action(Corner::BottomRight, "br");
    state
}

fn assert_filled_unchanged(state: &ZoneState, detected: bool) {
    assert_eq!(state.get_action(Corner::TopLeft), "tl");
    assert_eq!(state.get_action(Corner::TopRight), "tr");
    assert_eq!(state.get_action(Corner::BottomLeft), "bl");
    assert_eq!(state.get_action(Corner::BottomRight), "br");
    assert_eq!(state.is_detected(), detected);
}

#[test]
fn method_table_has_the_nine_methods_in_order() {
    let names: Vec<&str> = method_table().iter().map(|method| method.name()).collect();
    assert_eq!(METHOD_COUNT, 9);
    assert_eq!(
        names,
        vec![
            "EnableZoneDetected",
            "SetTopLeft",
            "TopLeftAction",
            "SetTopRight",
            "TopRightAction",
            "SetBottomLeft",
            "BottomLeftAction",
            "SetBottomRight",
            "BottomRightAction"
        ]
    );
}

#[test]
fn method_shapes_match_the_interface() {
    assert_eq!(Method::EnableZoneDetected.input(), Shape::Boolean);
    assert_eq!(Method::EnableZoneDetected.output(), Shape::Nothing);
    for setter in [
        Method::SetTopLeft,
        Method::SetTopRight,
        Method::SetBottomLeft,
        Method::SetBottomRight,
    ] {
        assert_eq!(setter.input(), Shape::Text);
        assert_eq!(setter.output(), Shape::Nothing);
    }
    for getter in [
        Method::TopLeftAction,
        Method::TopRightAction,
        Method::BottomLeftAction,
        Method::BottomRightAction,
    ] {
        assert_eq!(getter.input(), Shape::Nothing);
        assert_eq!(getter.output(), Shape::Text);
    }
}

#[test]
fn method_roles_name_the_right_corner() {
    assert_eq!(Method::EnableZoneDetected.role(), Role::SetFlag);
    assert_eq!(Method::SetTopLeft.role(), Role::SetAction(Corner::TopLeft));
    assert_eq!(Method::TopLeftAction.role(), Role::GetAction(Corner::TopLeft));
    assert_eq!(Method::SetTopRight.role(), Role::SetAction(Corner::TopRight));
    assert_eq!(Method::TopRightAction.role(), Role::GetAction(Corner::TopRight));
    assert_eq!(Method::SetBottomLeft.role(), Role::SetAction(Corner::BottomLeft));
    assert_eq!(Method::BottomLeftAction.role(), Role::GetAction(Corner::BottomLeft));
    assert_eq!(Method::SetBottomRight.role(), Role::SetAction(Corner::BottomRight));
    assert_eq!(Method::BottomRightAction.role(), Role::GetAction(Corner::BottomRight));
}

#[test]
fn argument_names_are_detected_and_action() {
    assert_eq!(Method::EnableZoneDetected.argument_name(), "detected");
    for method in method_table().iter().skip(1) {
        assert_eq!(method.argument_name(), "action");
    }
}

#[test]
fn parse_finds_every_method_by_its_name() {
    for method in method_table() {
        assert_eq!(Method::parse(method.name()), Some(method));
    }
}

#[test]
fn parse_rejects_names_outside_the_table() {
    assert_eq!(Method::parse(""), None);
    assert_eq!(Method::parse("settopleft"), None);
    assert_eq!(Method::parse("SetTopLeft "), None);
    assert_eq!(Method::parse("ButtomLeftAction"), None);
    assert_eq!(Method::parse("Introspect"), None);
}

#[test]
fn setters_store_and_getters_return_for_every_corner() {
    let pairs = [
        ("SetTopLeft", "TopLeftAction", Corner::TopLeft),
        ("SetTopRight", "TopRightAction", Corner::TopRight),
        ("SetBottomLeft", "BottomLeftAction", Corner::BottomLeft),
        ("SetBottomRight", "BottomRightAction", Corner::BottomRight),
    ];
    for (setter, getter, corner) in pairs {
        let mut state = ZoneState::new();
        assert_eq!(
            dispatch(&mut state, &frame(setter, vec![text("expose")])),
            Ok(Reply::Empty)
        );
        assert_eq!(state.get_action(corner), "expose");
        assert_eq!(dispatch(&mut state, &frame(getter, Vec::new())), action("expose"));
        for other in [
            Corner::TopLeft,
            Corner::TopRight,
            Corner::BottomLeft,
            Corner::BottomRight,
        ] {
            if other != corner {
                assert_eq!(state.get_action(other), "");
            }
        }
    }
}

#[test]
fn setter_with_wrong_shape_is_argument_error_and_keeps_state() {
    for setter in ["SetTopLeft", "SetTopRight", "SetBottomLeft", "SetBottomRight"] {
        for args in [vec![Arg::Bool(true)], vec![Arg::Other], Vec::new()] {
            let mut state = filled();
            assert_eq!(
                dispatch(&mut state, &frame(setter, args)),
                Err(RpcError::ArgumentError)
            );
            assert_filled_unchanged(&state, false);
        }
    }
}

#[test]
fn enable_zone_detected_with_wrong_shape_is_argument_error() {
    for args in [vec![text("true")], vec![Arg::Other], Vec::new()] {
        let mut state = filled();
        state.set_detected(true);
        assert_eq!(
            dispatch(&mut state, &frame("EnableZoneDetected", args)),
            Err(RpcError::ArgumentError)
        );
        assert_filled_unchanged(&state, true);
    }
}

#[test]
fn wrong_first_argument_is_not_rescued_by_a_later_one() {
    let mut state = filled();
    assert_eq!(
        dispatch(
            &mut state,
            &frame("SetTopLeft", vec![Arg::Bool(false), text("late")])
        ),
        Err(RpcError::ArgumentError)
    );
    assert_filled_unchanged(&state, false);
}

#[test]
fn setter_reads_its_first_argument() {
    let mut state = filled();
    assert_eq!(
        dispatch(
            &mut state,
            &frame("SetBottomRight", vec![text("first"), text("second")])
        ),
        Ok(Reply::Empty)
    );
    assert_eq!(state.get_action(Corner::BottomRight), "first");
}

#[test]
fn getter_ignores_arguments() {
    let mut state = filled();
    assert_eq!(
        dispatch(&mut state, &frame("TopRightAction", vec![Arg::Other])),
        action("tr")
    );
    assert_filled_unchanged(&state, false);
}

#[test]
fn enable_zone_detected_true_then_false_leaves_false() {
    let mut state = filled();
    let before: Vec<(String, String)> = state
        .save_plan()
        .into_iter()
        .map(|write| (write.key, write.value))
        .collect();
    assert_eq!(
        dispatch(&mut state, &frame("EnableZoneDetected", vec![Arg::Bool(true)])),
        Ok(Reply::Empty)
    );
    assert!(state.is_detected());
    assert_eq!(
        dispatch(&mut state, &frame("EnableZoneDetected", vec![Arg::Bool(false)])),
        Ok(Reply::Empty)
    );
    assert!(!state.is_detected());
    let after: Vec<(String, String)> = state
        .save_plan()
        .into_iter()
        .map(|write| (write.key, write.value))
        .collect();
    assert_eq!(before, after);
    assert!(after.iter().all(|(key, _)| !key.to_lowercase().contains("detect")));
}

#[test]
fn unknown_method_is_reported_and_next_call_succeeds() {
    let mut state = filled();
    assert_eq!(
        dispatch(&mut state, &frame("NoSuchMethod", vec![text("x")])),
        Err(RpcError::UnknownMethod)
    );
    assert_filled_unchanged(&state, false);
    assert_eq!(
        dispatch(&mut state, &frame("TopLeftAction", Vec::new())),
        action("tl")
    );
}

#[test]
fn set_bottom_left_then_read_sees_the_new_value() {
    let mut state = filled();
    let calls = [
        frame("SetBottomLeft", vec![text("a")]),
        frame("BottomLeftAction", Vec::new()),
    ];
    let replies: Vec<Result<Reply, RpcError>> =
        calls.iter().map(|call| dispatch(&mut state, call)).collect();
    assert_eq!(replies, vec![Ok(Reply::Empty), action("a")]);
}

#[test]
fn handlers_can_be_called_directly() {
    let mut state = ZoneState::new();
    assert_eq!(set_detected(&mut state, &vec![Arg::Bool(true)]), Ok(Reply::Empty));
    assert!(state.is_detected());
    assert_eq!(
        set_detected(&mut state, &vec![text("no")]),
        Err(RpcError::ArgumentError)
    );
    assert!(state.is_detected());
    assert_eq!(
        set_corner(&mut state, Corner::TopRight, &vec![text("非ASCII")]),
        Ok(Reply::Empty)
    );
    assert_eq!(
        set_corner(&mut state, Corner::TopRight, &Vec::new()),
        Err(RpcError::ArgumentError)
    );
    assert_eq!(
        corner_action(&state, Corner::TopRight),
        Reply::Action("非ASCII".to_string())
    );
    assert_eq!(
        serve(&mut state, Method::SetTopLeft, &vec![text("")]),
        Ok(Reply::Empty)
    );
    assert_eq!(serve(&mut state, Method::TopLeftAction, &Vec::new()), action(""));
}
