//! The method table of the zone interface and the dispatcher that serves
//! decoded call frames against a [`ZoneState`].

use vstd::prelude::*;
use crate::config::planned_writes;
use crate::state::{Corner, ZoneModel, ZoneState};
use crate::text::same_text;

verus! {

/// Number of methods the interface exports.
pub const METHOD_COUNT: usize = 9;

/// Shape of the single argument a method takes or returns.
#[derive(Clone, Copy, Debug, PartialEq, Eq, Structural)]
pub enum Shape {
    /// No argument.
    Nothing,
    /// One boolean.
    Boolean,
    /// One string.
    Text,
}

/// The methods of the zone interface.
#[derive(Clone, Copy, Debug, PartialEq, Eq, Structural)]
pub enum Method {
    EnableZoneDetected,
    SetTopLeft,
    TopLeftAction,
    SetTopRight,
    TopRightAction,
    SetBottomLeft,
    BottomLeftAction,
    SetBottomRight,
    BottomRightAction,
}

/// What a method does to the state.
#[derive(Clone, Copy, Debug, PartialEq, Eq, Structural)]
pub enum Role {
    /// Writes the detection flag.
    SetFlag,
    /// Writes the action of a corner.
    SetAction(Corner),
    /// Reads the action of a corner.
    GetAction(Corner),
}

/// One positional argument of a call frame, as far as the interface can use
/// it.
#[derive(Debug, PartialEq, Eq)]
pub enum Arg {
    Bool(bool),
    Str(String),
    /// A value of any shape the interface has no use for.
    Other,
}

/// An inbound call: the method's name and its positional arguments.
#[derive(Debug, PartialEq, Eq)]
pub struct CallFrame {
    pub method: String,
    pub args: Vec<Arg>,
}

/// Payload of a successful reply.
#[derive(Debug, PartialEq, Eq)]
pub enum Reply {
    /// No payload: the answer to a setter.
    Empty,
    /// One action string: the answer to a getter.
    Action(String),
}

/// Mathematical value of a [`Reply`].
pub ghost enum ReplyModel {
    Empty,
    Action(Seq<char>),
}

impl View for Reply {
    type V = ReplyModel;

    open spec fn view(&self) -> ReplyModel {
        match *self {
            Reply::Empty => ReplyModel::Empty,
            Reply::Action(text) => ReplyModel::Action(text@),
        }
    }
}

/// Why a call got an error reply.
#[derive(Clone, Copy, Debug, PartialEq, Eq, Structural)]
pub enum RpcError {
    /// The argument is missing or has the wrong shape.
    ArgumentError,
    /// The interface has no method of that name.
    UnknownMethod,
}

/// What a call gives back, as a mathematical value.
pub open spec fn outcome_model(outcome: Result<Reply, RpcError>) -> Result<ReplyModel, RpcError> {
    match outcome {
        Ok(reply) => Ok(reply@),
        Err(error) => Err(error),
    }
}

/// The first argument, if it is a boolean.
pub open spec fn first_bool(args: Seq<Arg>) -> Option<bool> {
    if args.len() == 0 {
        None
    } else {
        match args[0] {
            Arg::Bool(value) => Some(value),
            _ => None,
        }
    }
}

/// The first argument, if it is a string.
pub open spec fn first_text(args: Seq<Arg>) -> Option<Seq<char>> {
    if args.len() == 0 {
        None
    } else {
        match args[0] {
            Arg::Str(value) => Some(value@),
            _ => None,
        }
    }
}

/// The method at position `i` of the table.
pub open spec fn method_at(i: int) -> Method {
    if i == 0 {
        Method::EnableZoneDetected
    } else if i == 1 {
        Method::SetTopLeft
    } else if i == 2 {
        Method::TopLeftAction
    } else if i == 3 {
        Method::SetTopRight
    } else if i == 4 {
        Method::TopRightAction
    } else if i == 5 {
        Method::SetBottomLeft
    } else if i == 6 {
        Method::BottomLeftAction
    } else if i == 7 {
        Method::SetBottomRight
    } else {
        Method::BottomRightAction
    }
}

impl Method {
    /// The name of the method on the wire.
    pub open spec fn wire_name(self) -> Seq<char> {
        match self {
            Method::EnableZoneDetected => "EnableZoneDetected"@,
            Method::SetTopLeft => "SetTopLeft"@,
            Method::TopLeftAction => "TopLeftAction"@,
            Method::SetTopRight => "SetTopRight"@,
            Method::TopRightAction => "TopRightAction"@,
            Method::SetBottomLeft => "SetBottomLeft"@,
            Method::BottomLeftAction => "BottomLeftAction"@,
            Method::SetBottomRight => "SetBottomRight"@,
            Method::BottomRightAction => "BottomRightAction"@,
        }
    }

    /// The method that `name` names, if any.
    pub open spec fn named(name: Seq<char>) -> Option<Method> {
        if exists|i: int| 0 <= i < METHOD_COUNT && #[trigger] method_at(i).wire_name() == name {
            Some(method_at(choose|i: int| 0 <= i < METHOD_COUNT && #[trigger] method_at(i).wire_name() == name))
        } else {
            None
        }
    }

    /// What the method does to the state.
    pub open spec fn role_of(self) -> Role {
        match self {
            Method::EnableZoneDetected => Role::SetFlag,
            Method::SetTopLeft => Role::SetAction(Corner::TopLeft),
            Method::TopLeftAction => Role::GetAction(Corner::TopLeft),
            Method::SetTopRight => Role::SetAction(Corner::TopRight),
            Method::TopRightAction => Role::GetAction(Corner::TopRight),
            Method::SetBottomLeft => Role::SetAction(Corner::BottomLeft),
            Method::BottomLeftAction => Role::GetAction(Corner::BottomLeft),
            Method::SetBottomRight => Role::SetAction(Corner::BottomRight),
            Method::BottomRightAction => Role::GetAction(Corner::BottomRight),
        }
    }

    /// The shape of the argument the method takes.
    pub open spec fn input_of(self) -> Shape {
        match self.role_of() {
            Role::SetFlag => Shape::Boolean,
            Role::SetAction(_) => Shape::Text,
            Role::GetAction(_) => Shape::Nothing,
        }
    }

    /// The shape of the value the method returns.
    pub open spec fn output_of(self) -> Shape {
        match self.role_of() {
            Role::SetFlag => Shape::Nothing,
            Role::SetAction(_) => Shape::Nothing,
            Role::GetAction(_) => Shape::Text,
        }
    }

    /// The name of the method on the wire.
    pub fn name(self) -> (name: &'static str)
        ensures
            name@ == self.wire_name(),
    {
        match self {
            Method::EnableZoneDetected => "EnableZoneDetected",
            Method::SetTopLeft => "SetTopLeft",
            Method::TopLeftAction => "TopLeftAction",
            Method::SetTopRight => "SetTopRight",
            Method::TopRightAction => "TopRightAction",
            Method::SetBottomLeft => "SetBottomLeft",
            Method::BottomLeftAction => "BottomLeftAction",
            Method::SetBottomRight => "SetBottomRight",
            Method::BottomRightAction => "BottomRightAction",
        }
    }

    /// What the method does to the state.
    pub fn role(self) -> (role: Role)
        ensures
            role == self.role_of(),
    {
        match self {
            Method::EnableZoneDetected => Role::SetFlag,
            Method::SetTopLeft => Role::SetAction(Corner::TopLeft),
            Method::TopLeftAction => Role::GetAction(Corner::TopLeft),
            Method::SetTopRight => Role::SetAction(Corner::TopRight),
            Method::TopRightAction => Role::GetAction(Corner::TopRight),
            Method::SetBottomLeft => Role::SetAction(Corner::BottomLeft),
            Method::BottomLeftAction => Role::GetAction(Corner::BottomLeft),
            Method::SetBottomRight => Role::SetAction(Corner::BottomRight),
            Method::BottomRightAction => Role::GetAction(Corner::BottomRight),
        }
    }

    /// The shape of the argument the method takes.
    pub fn input(self) -> (shape: Shape)
        ensures
            shape == self.input_of(),
    {
        match self.role() {
            Role::SetFlag => Shape::Boolean,
            Role::SetAction(_) => Shape::Text,
            Role::GetAction(_) => Shape::Nothing,
        }
    }

    /// The shape of the value the method returns.
    pub fn output(self) -> (shape: Shape)
        ensures
            shape == self.output_of(),
    {
        match self.role() {
            Role::SetFlag => Shape::Nothing,
            Role::SetAction(_) => Shape::Nothing,
            Role::GetAction(_) => Shape::Text,
        }
    }

    /// The name of the method's one argument, taken or returned, as
    /// introspection shows it.
    pub fn argument_name(self) -> (name: &'static str)
        ensures
            self.role_of() == Role::SetFlag ==> name@ == "detected"@,
            self.role_of() != Role::SetFlag ==> name@ == "action"@,
    {
        match self.role() {
            Role::SetFlag => "detected",
            _ => "action",
        }
    }

    /// Looks `name` up in the method table.
    pub fn parse(name: &str) -> (method: Option<Method>)
        ensures
            method == Method::named(name@),
    {
        let table = method_table();
        proof {
            lemma_names_distinct();
        }
        for i in 0..METHOD_COUNT
            invariant
                forall|j: int| 0 <= j < METHOD_COUNT ==> table@[j] == method_at(j),
                forall|j: int| 0 <= j < i ==> (#[trigger] method_at(j)).wire_name() != name@,
                forall|a: Method, b: Method| a.wire_name() == b.wire_name() ==> a == b,
        {
            let candidate = table[i];
            if same_text(candidate.name(), name) {
                assert(method_at(i as int).wire_name() == name@);
                return Some(candidate);
            }
        }
        None
    }
}

/// Two different methods have different names.
pub proof fn lemma_names_distinct()
    ensures
        forall|a: Method, b: Method| a.wire_name() == b.wire_name() ==> a == b,
{
    reveal_strlit("EnableZoneDetected");
    reveal_strlit("SetTopLeft");
    reveal_strlit("TopLeftAction");
    reveal_strlit("SetTopRight");
    reveal_strlit("TopRightAction");
    reveal_strlit("SetBottomLeft");
    reveal_strlit("BottomLeftAction");
    reveal_strlit("SetBottomRight");
    reveal_strlit("BottomRightAction");
    assert(Method::EnableZoneDetected.wire_name().len() == 18);
    assert(Method::SetTopLeft.wire_name().len() == 10);
    assert(Method::TopLeftAction.wire_name().len() == 13);
    assert(Method::SetTopRight.wire_name().len() == 11);
    assert(Method::TopRightAction.wire_name().len() == 14);
    assert(Method::SetBottomLeft.wire_name().len() == 13);
    assert(Method::BottomLeftAction.wire_name().len() == 16);
    assert(Method::SetBottomRight.wire_name().len() == 14);
    assert(Method::BottomRightAction.wire_name().len() == 17);
    assert(Method::TopLeftAction.wire_name()[0] == 'T');
    assert(Method::SetBottomLeft.wire_name()[0] == 'S');
    assert(Method::TopRightAction.wire_name()[0] == 'T');
    assert(Method::SetBottomRight.wire_name()[0] == 'S');
}

/// Every method is found under its own name.
pub proof fn lemma_name_finds_method(method: Method)
    ensures
        Method::named(method.wire_name()) == Some(method),
{
    lemma_names_distinct();
    let i: int = match method {
        Method::EnableZoneDetected => 0,
        Method::SetTopLeft => 1,
        Method::TopLeftAction => 2,
        Method::SetTopRight => 3,
        Method::TopRightAction => 4,
        Method::SetBottomLeft => 5,
        Method::BottomLeftAction => 6,
        Method::SetBottomRight => 7,
        Method::BottomRightAction => 8,
    };
    assert(method_at(i) == method);
    assert(0 <= i < METHOD_COUNT && method_at(i).wire_name() == method.wire_name());
}

/// The method table, in the order in which the interface lists it.
pub fn method_table() -> (table: [Method; 9])
    ensures
        forall|i: int| 0 <= i < METHOD_COUNT ==> table@[i] == method_at(i),
{
    [
        Method::EnableZoneDetected,
        Method::SetTopLeft,
        Method::TopLeftAction,
        Method::SetTopRight,
        Method::TopRightAction,
        Method::SetBottomLeft,
        Method::BottomLeftAction,
        Method::SetBottomRight,
        Method::BottomRightAction,
    ]
}

/// State and reply after `method` was served with `args` on `state`.
///
/// A setter takes its value from the first argument and ignores any further
/// one; if the first argument is missing or of another shape the call fails
/// and the state stays. A getter ignores its arguments.
pub open spec fn served(state: ZoneModel, method: Method, args: Seq<Arg>) -> (
    ZoneModel,
    Result<ReplyModel, RpcError>,
) {
    match method.role_of() {
        Role::SetFlag => match first_bool(args) {
            Some(value) => (state.with_detected(value), Ok(ReplyModel::Empty)),
            None => (state, Err(RpcError::ArgumentError)),
        },
        Role::SetAction(corner) => match first_text(args) {
            Some(value) => (state.with_action(corner, value), Ok(ReplyModel::Empty)),
            None => (state, Err(RpcError::ArgumentError)),
        },
        Role::GetAction(corner) => (state, Ok(ReplyModel::Action(state.action(corner)))),
    }
}

/// State and reply after a call of the method named `name` with `args` was
/// dispatched on `state`.
pub open spec fn dispatched(state: ZoneModel, name: Seq<char>, args: Seq<Arg>) -> (
    ZoneModel,
    Result<ReplyModel, RpcError>,
) {
    match Method::named(name) {
        Some(method) => served(state, method, args),
        None => (state, Err(RpcError::UnknownMethod)),
    }
}

/// Serves `EnableZoneDetected`: stores the boolean that comes first in
/// `args`.
pub fn set_detected(state: &mut ZoneState, args: &Vec<Arg>) -> (outcome: Result<Reply, RpcError>)
    ensures
        (final(state)@, outcome_model(outcome)) == served(
            old(state)@,
            Method::EnableZoneDetected,
            args@,
        ),
{
    if args.len() == 0 {
        return Err(RpcError::ArgumentError);
    }
    match &args[0] {
        Arg::Bool(value) => {
            state.set_detected(*value);
            Ok(Reply::Empty)
        },
        _ => Err(RpcError::ArgumentError),
    }
}

/// Serves the setter of `corner`: stores the string that comes first in
/// `args`.
pub fn set_corner(state: &mut ZoneState, corner: Corner, args: &Vec<Arg>) -> (outcome: Result<
    Reply,
    RpcError,
>)
    ensures
        first_text(args@) is Some ==> outcome_model(outcome) == Ok::<ReplyModel, RpcError>(
            ReplyModel::Empty,
        ) && final(state)@ == old(state)@.with_action(corner, first_text(args@)->Some_0),
        first_text(args@) is None ==> outcome_model(outcome) == Err::<ReplyModel, RpcError>(
            RpcError::ArgumentError,
        ) && final(state)@ == old(state)@,
{
    if args.len() == 0 {
        return Err(RpcError::ArgumentError);
    }
    match &args[0] {
        Arg::Str(value) => {
            state.set_action(corner, value.as_str());
            Ok(Reply::Empty)
        },
        _ => Err(RpcError::ArgumentError),
    }
}

/// Serves the getter of `corner`: replies with its action and touches
/// nothing.
pub fn corner_action(state: &ZoneState, corner: Corner) -> (reply: Reply)
    ensures
        reply@ == ReplyModel::Action(state@.action(corner)),
{
    Reply::Action(state.get_action(corner).to_owned())
}

/// Serves a call of `method` with `args`.
pub fn serve(state: &mut ZoneState, method: Method, args: &Vec<Arg>) -> (outcome: Result<
    Reply,
    RpcError,
>)
    ensures
        (final(state)@, outcome_model(outcome)) == served(old(state)@, method, args@),
{
    match method.role() {
        Role::SetFlag => set_detected(state, args),
        Role::SetAction(corner) => set_corner(state, corner, args),
        Role::GetAction(corner) => Ok(corner_action(state, corner)),
    }
}

/// Routes `frame` to the method it names and serves it. A frame that names
/// no method of the table is answered with `UnknownMethod`; a failed call
/// never changes the state.
pub fn dispatch(state: &mut ZoneState, frame: &CallFrame) -> (outcome: Result<Reply, RpcError>)
    ensures
        (final(state)@, outcome_model(outcome)) == dispatched(
            old(state)@,
            frame.method@,
            frame.args@,
        ),
{
    match Method::parse(frame.method.as_str()) {
        Some(method) => serve(state, method, &frame.args),
        None => Err(RpcError::UnknownMethod),
    }
}

/// A setter whose first argument is missing or of the wrong shape fails with
/// `ArgumentError` and leaves the state as it was, whether it is served
/// directly or reached by its name.
pub proof fn lemma_wrong_shape_rejected(state: ZoneModel, method: Method, args: Seq<Arg>)
    requires
        (method.input_of() == Shape::Boolean && first_bool(args) is None) || (method.input_of()
            == Shape::Text && first_text(args) is None),
    ensures
        served(state, method, args) == (state, Err::<ReplyModel, RpcError>(RpcError::ArgumentError)),
        dispatched(state, method.wire_name(), args) == served(state, method, args),
{
    lemma_name_finds_method(method);
}

/// A call of a name that the table does not hold fails with `UnknownMethod`
/// and changes nothing, so the call that comes next is served as if the
/// unknown one had never arrived; a getter that comes next succeeds.
pub proof fn lemma_unknown_method_is_harmless(
    state: ZoneModel,
    name: Seq<char>,
    args: Seq<Arg>,
    next: Method,
    next_args: Seq<Arg>,
)
    requires
        forall|method: Method| method.wire_name() != name,
    ensures
        dispatched(state, name, args) == (state, Err::<ReplyModel, RpcError>(RpcError::UnknownMethod)),
        dispatched(dispatched(state, name, args).0, next.wire_name(), next_args) == served(
            state,
            next,
            next_args,
        ),
        next.input_of() == Shape::Nothing ==> served(state, next, next_args).1 is Ok,
{
    lemma_name_finds_method(next);
    assert(Method::named(name) is None);
}

/// Calls take effect in the order in which they arrive: a getter that
/// follows the setter of the same corner replies with the value that the
/// setter stored, whatever the state was before.
pub proof fn lemma_set_then_read(
    state: ZoneModel,
    corner: Corner,
    setter: Method,
    getter: Method,
    args: Seq<Arg>,
    later_args: Seq<Arg>,
)
    requires
        setter.role_of() == Role::SetAction(corner),
        getter.role_of() == Role::GetAction(corner),
        first_text(args) is Some,
    ensures
        dispatched(state, setter.wire_name(), args).1 == Ok::<ReplyModel, RpcError>(
            ReplyModel::Empty,
        ),
        dispatched(
            dispatched(state, setter.wire_name(), args).0,
            getter.wire_name(),
            later_args,
        ) == (
            state.with_action(corner, first_text(args)->Some_0),
            Ok::<ReplyModel, RpcError>(ReplyModel::Action(first_text(args)->Some_0)),
        ),
{
    lemma_name_finds_method(setter);
    lemma_name_finds_method(getter);
}

/// Two calls of `EnableZoneDetected` in a row leave the flag at the value of
/// the second, and neither changes what saving the state would write.
pub proof fn lemma_flag_calls_in_sequence(state: ZoneModel, first: Seq<Arg>, second: Seq<Arg>)
    requires
        first_bool(first) is Some,
        first_bool(second) is Some,
    ensures
        ({
            let name = Method::EnableZoneDetected.wire_name();
            let end = dispatched(dispatched(state, name, first).0, name, second).0;
            &&& end.detected == first_bool(second)->Some_0
            &&& planned_writes(end) == planned_writes(state)
        }),
{
    lemma_name_finds_method(Method::EnableZoneDetected);
    let name = Method::EnableZoneDetected.wire_name();
    let end = dispatched(dispatched(state, name, first).0, name, second).0;
    assert(planned_writes(end) =~= planned_writes(state));
}

} // verus!
