//! The service's life between start and shutdown: the bus identity it
//! presents, and the step it takes for each wake of the receive loop.
//!
//! The loop itself belongs to whoever owns the bus connection. It waits for
//! the next wake, hands it to [`ServiceRuntime::handle`], and sends what comes
//! back. A runtime is borrowed exclusively for each step, so calls are served
//! one at a time in the order in which they are handed in.

use vstd::prelude::*;
use crate::config::{
    all_accepted, backend_after, lemma_save_then_load, loaded, planned_writes, readings_complete,
    readings_of, readings_text, ConfigError, ConfigWrite, KEY_COUNT,
};
use crate::rpc::{
    dispatch, dispatched, first_text, lemma_name_finds_method, CallFrame, Method, Reply,
    ReplyModel, RpcError, Role,
};
use crate::state::{Corner, ZoneModel, ZoneState};

verus! {

/// How long the receive loop waits for a frame before it wakes on its own,
/// in milliseconds.
pub const POLL_INTERVAL_MS: u32 = 1000;

/// Whether the request for the service's name asks to replace a process
/// that holds it already.
pub const REPLACE_EXISTING_OWNER: bool = true;

/// What the bus answered to the request for the service's name.
#[derive(Clone, Copy, Debug, PartialEq, Eq, Structural)]
pub enum NameReply {
    /// The service now owns the name.
    PrimaryOwner,
    /// Another process keeps the name; the request waits in its queue.
    InQueue,
    /// Another process keeps the name and the request was dropped.
    Exists,
    /// The service owned the name before it asked.
    AlreadyOwner,
}

/// Why the service could not take its place on the bus.
#[derive(Clone, Copy, Debug, PartialEq, Eq, Structural)]
pub enum BusError {
    /// Another process owns the name and did not yield it.
    NameTaken,
}

/// What woke the receive loop.
#[derive(Debug, PartialEq, Eq)]
pub enum Event {
    /// A call addressed to the service's object arrived.
    Frame(CallFrame),
    /// The poll interval passed without a frame.
    Timeout,
}

/// What the receive loop has to do after a step.
#[derive(Debug, PartialEq, Eq)]
pub enum Outcome {
    /// Nothing: wait again.
    Idle,
    /// Send a method return with this payload.
    Replied(Reply),
    /// Send an error reply. The frame counts as handled.
    Failed(RpcError),
}

/// What one step of the receive loop gave.
#[derive(Debug, PartialEq, Eq)]
pub struct Step {
    /// What to send back, if anything.
    pub outcome: Outcome,
    /// Whether the step changed the flag or an action. A changed state is
    /// what the interface's signal announces; the signal is sent on the
    /// connection the frame came from, after the reply.
    pub state_changed: bool,
}

/// Mathematical value of an [`Outcome`].
pub ghost enum OutcomeModel {
    Idle,
    Replied(ReplyModel),
    Failed(RpcError),
}

impl View for Outcome {
    type V = OutcomeModel;

    open spec fn view(&self) -> OutcomeModel {
        match *self {
            Outcome::Idle => OutcomeModel::Idle,
            Outcome::Replied(reply) => OutcomeModel::Replied(reply@),
            Outcome::Failed(error) => OutcomeModel::Failed(error),
        }
    }
}

/// State and outcome after one step on `event`.
pub open spec fn stepped(state: ZoneModel, event: Event) -> (ZoneModel, OutcomeModel) {
    match event {
        Event::Timeout => (state, OutcomeModel::Idle),
        Event::Frame(frame) => {
            let (next, result) = dispatched(state, frame.method@, frame.args@);
            match result {
                Ok(reply) => (next, OutcomeModel::Replied(reply)),
                Err(error) => (next, OutcomeModel::Failed(error)),
            }
        },
    }
}

/// The service holds its name after `reply`.
pub open spec fn owns_name(reply: NameReply) -> bool {
    reply == NameReply::PrimaryOwner || reply == NameReply::AlreadyOwner
}

/// Judges the bus's answer to the request for the name: the service goes on
/// only as the name's owner, and fails with `NameTaken` where the holder did
/// not yield.
pub fn claim_outcome(reply: NameReply) -> (outcome: Result<(), BusError>)
    ensures
        owns_name(reply) ==> outcome == Ok::<(), BusError>(()),
        !owns_name(reply) ==> outcome == Err::<(), BusError>(BusError::NameTaken),
{
    match reply {
        NameReply::PrimaryOwner => Ok(()),
        NameReply::AlreadyOwner => Ok(()),
        NameReply::InQueue => Err(BusError::NameTaken),
        NameReply::Exists => Err(BusError::NameTaken),
    }
}

/// The well-known name under which the service is found on the bus.
pub fn service_name() -> (name: &'static str)
    ensures
        name@ == "com.deepin.daemon.Zone2"@,
{
    "com.deepin.daemon.Zone2"
}

/// The path of the exported object.
pub fn object_path() -> (path: &'static str)
    ensures
        path@ == "/com/deepin/daemon/Zone"@,
{
    "/com/deepin/daemon/Zone"
}

/// The interface that holds the methods and the signal.
pub fn interface_name() -> (name: &'static str)
    ensures
        name@ == "com.deepin.daemon.Zone"@,
{
    "com.deepin.daemon.Zone"
}

/// The name of the one signal of the interface.
pub fn signal_name() -> (name: &'static str)
    ensures
        name@ == "TestSignal"@,
{
    "TestSignal"
}

/// The name of the signal's one argument.
pub fn signal_argument_name() -> (name: &'static str)
    ensures
        name@ == "arg"@,
{
    "arg"
}

/// The wire signature of the signal's argument: a mapping from string to
/// double.
pub fn signal_signature() -> (signature: &'static str)
    ensures
        signature@ == "a{sd}"@,
{
    "a{sd}"
}

/// The running service: the zone state, owned for the time between start
/// and shutdown.
pub struct ServiceRuntime {
    state: ZoneState,
}

impl View for ServiceRuntime {
    type V = ZoneModel;

    closed spec fn view(&self) -> ZoneModel {
        self.state@
    }
}

impl ServiceRuntime {
    /// Starts the service from what the backend returned for the four keys
    /// in schema order. A backend that cannot supply all four is fatal: no
    /// runtime is made and the caller gets `Unavailable`.
    pub fn start(readings: &Vec<Option<String>>) -> (started: Result<ServiceRuntime, ConfigError>)
        ensures
            readings_complete(readings_text(readings@)) ==> started is Ok && started->Ok_0@
                == loaded(ZoneModel::initial(), readings_text(readings@)),
            !readings_complete(readings_text(readings@)) ==> started is Err && started->Err_0
                == ConfigError::Unavailable,
    {
        let mut state = ZoneState::new();
        match state.load(readings) {
            Ok(()) => Ok(ServiceRuntime { state }),
            Err(error) => Err(error),
        }
    }

    /// The state as it stands.
    pub fn state(&self) -> (state: &ZoneState)
        ensures
            state@ == self@,
    {
        &self.state
    }

    /// Takes one step of the receive loop. A timeout does nothing. A frame
    /// is dispatched, and its reply or error is handed back for sending;
    /// either way the frame is handled and the runtime is ready for the next.
    pub fn handle(&mut self, event: &Event) -> (step: Step)
        ensures
            (final(self)@, step.outcome@) == stepped(old(self)@, *event),
            step.state_changed == (final(self)@ != old(self)@),
    {
        match event {
            Event::Timeout => Step { outcome: Outcome::Idle, state_changed: false },
            Event::Frame(frame) => {
                let before = self.state.snapshot();
                let outcome = match dispatch(&mut self.state, frame) {
                    Ok(reply) => Outcome::Replied(reply),
                    Err(error) => Outcome::Failed(error),
                };
                let state_changed = !self.state.same_as(&before);
                Step { outcome, state_changed }
            },
        }
    }

    /// Ends the service and hands out the writes that persist its state.
    /// The runtime is consumed, so the flush is planned once and no call is
    /// served after it.
    pub fn shutdown(self) -> (plan: Vec<ConfigWrite>)
        ensures
            plan@.len() == KEY_COUNT,
            forall|i: int| 0 <= i < KEY_COUNT ==> (#[trigger] plan@[i])@ == planned_writes(self@)[i],
    {
        self.state.save_plan()
    }
}

/// What a setter stored survives a restart: after a step on a well-formed
/// call of the setter of `corner`, a shutdown whose four writes the backend
/// accepts, and a fresh start from that backend, the corner holds the value
/// that the call carried, whatever the backend held before.
pub proof fn lemma_change_survives_restart(
    state: ZoneModel,
    frame: CallFrame,
    setter: Method,
    corner: Corner,
    backend: Map<Seq<char>, Seq<char>>,
    accepted: Seq<bool>,
)
    requires
        frame.method@ == setter.wire_name(),
        setter.role_of() == Role::SetAction(corner),
        first_text(frame.args@) is Some,
        all_accepted(accepted),
    ensures
        ({
            let after = stepped(state, Event::Frame(frame));
            let stored = backend_after(backend, planned_writes(after.0), accepted);
            &&& after.1 == OutcomeModel::Replied(ReplyModel::Empty)
            &&& readings_complete(readings_of(stored))
            &&& loaded(ZoneModel::initial(), readings_of(stored)).action(corner) == first_text(
                frame.args@,
            )->Some_0
        }),
{
    lemma_name_finds_method(setter);
    let after = stepped(state, Event::Frame(frame));
    lemma_save_then_load(after.0, backend, accepted, ZoneModel::initial(), corner);
}

} // verus!
