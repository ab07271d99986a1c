//! Persistence of the four corner actions in a string-keyed configuration
//! backend.
//!
//! The library never touches the backend itself. It names the keys to read,
//! turns the readings into a state, plans the writes that save a state, and
//! judges the backend's answers. The backend is modelled as a map from key to
//! value, over which the round trip is stated.

use vstd::prelude::*;
use crate::state::{Corner, ZoneModel, ZoneState};

verus! {

/// Number of keys the schema holds: one per corner.
pub const KEY_COUNT: usize = 4;

/// Why loading or saving the corner actions failed.
#[derive(Clone, Copy, Debug, PartialEq, Eq, Structural)]
pub enum ConfigError {
    /// The backend, or one of the four keys, was missing when loading.
    Unavailable,
    /// The backend refused at least one write when saving.
    WriteRejected,
}

/// One `set_string` request for the backend.
#[derive(Debug)]
pub struct ConfigWrite {
    pub key: String,
    pub value: String,
}

impl View for ConfigWrite {
    type V = (Seq<char>, Seq<char>);

    open spec fn view(&self) -> (Seq<char>, Seq<char>) {
        (self.key@, self.value@)
    }
}

/// The corner stored at position `i` of the schema.
pub open spec fn corner_at(i: int) -> Corner {
    if i == 0 {
        Corner::TopLeft
    } else if i == 1 {
        Corner::TopRight
    } else if i == 2 {
        Corner::BottomLeft
    } else {
        Corner::BottomRight
    }
}

/// The key under which the action of `corner` is stored.
pub open spec fn key_of(corner: Corner) -> Seq<char> {
    match corner {
        Corner::TopLeft => "left-up"@,
        Corner::TopRight => "right-up"@,
        Corner::BottomLeft => "left-down"@,
        Corner::BottomRight => "right-down"@,
    }
}

/// What a reading holds, as a character sequence.
pub open spec fn reading_text(reading: Option<String>) -> Option<Seq<char>> {
    match reading {
        Some(text) => Some(text@),
        None => None,
    }
}

/// The readings as character sequences, position by position.
pub open spec fn readings_text(readings: Seq<Option<String>>) -> Seq<Option<Seq<char>>> {
    Seq::new(readings.len(), |i: int| reading_text(readings[i]))
}

/// There is one reading per key and none of them is missing.
pub open spec fn readings_complete(readings: Seq<Option<Seq<char>>>) -> bool {
    &&& readings.len() == KEY_COUNT
    &&& forall|i: int| 0 <= i < KEY_COUNT ==> (#[trigger] readings[i]) is Some
}

/// The state that loading complete `readings` into `state` gives: the four
/// actions come from the readings, the detection flag stays.
pub open spec fn loaded(state: ZoneModel, readings: Seq<Option<Seq<char>>>) -> ZoneModel
    recommends
        readings_complete(readings),
{
    ZoneModel {
        detected: state.detected,
        top_left: readings[0]->Some_0,
        top_right: readings[1]->Some_0,
        bottom_left: readings[2]->Some_0,
        bottom_right: readings[3]->Some_0,
    }
}

/// The writes that save `state`, in schema order. The detection flag has no
/// write.
pub open spec fn planned_writes(state: ZoneModel) -> Seq<(Seq<char>, Seq<char>)> {
    Seq::new(KEY_COUNT as nat, |i: int| (key_of(corner_at(i)), state.action(corner_at(i))))
}

/// Every planned write was attempted and the backend accepted each.
pub open spec fn all_accepted(accepted: Seq<bool>) -> bool {
    &&& accepted.len() == KEY_COUNT
    &&& forall|i: int| 0 <= i < KEY_COUNT ==> #[trigger] accepted[i]
}

/// The backend after `writes` were attempted in order, where `accepted` says
/// for each position whether the backend took the write. A refused or
/// unreported write leaves its key as it was and does not stop later writes.
pub open spec fn backend_after(
    backend: Map<Seq<char>, Seq<char>>,
    writes: Seq<(Seq<char>, Seq<char>)>,
    accepted: Seq<bool>,
) -> Map<Seq<char>, Seq<char>>
    decreases writes.len(),
{
    if writes.len() == 0 {
        backend
    } else {
        let last = writes.len() - 1;
        let earlier = backend_after(backend, writes.drop_last(), accepted);
        if last < accepted.len() && accepted[last] {
            earlier.insert(writes[last].0, writes[last].1)
        } else {
            earlier
        }
    }
}

/// What reading the four keys of `backend` in schema order gives.
pub open spec fn readings_of(backend: Map<Seq<char>, Seq<char>>) -> Seq<Option<Seq<char>>> {
    Seq::new(
        KEY_COUNT as nat,
        |i: int|
            if backend.contains_key(key_of(corner_at(i))) {
                Some(backend[key_of(corner_at(i))])
            } else {
                None
            },
    )
}

/// The schema under which the four keys live.
pub fn schema_id() -> (id: &'static str)
    ensures
        id@ == "com.deepin.dde.zone"@,
{
    "com.deepin.dde.zone"
}

/// The corners in schema order.
pub fn corners() -> (all: [Corner; 4])
    ensures
        forall|i: int| 0 <= i < KEY_COUNT ==> all@[i] == corner_at(i),
{
    [Corner::TopLeft, Corner::TopRight, Corner::BottomLeft, Corner::BottomRight]
}

/// The key under which the action of `corner` is stored.
pub fn config_key(corner: Corner) -> (key: &'static str)
    ensures
        key@ == key_of(corner),
{
    match corner {
        Corner::TopLeft => "left-up",
        Corner::TopRight => "right-up",
        Corner::BottomLeft => "left-down",
        Corner::BottomRight => "right-down",
    }
}

/// Judges the backend's answers to the planned writes, one flag per write in
/// plan order. Saving succeeded exactly when all four writes were attempted
/// and accepted.
pub fn save_outcome(accepted: &Vec<bool>) -> (outcome: Result<(), ConfigError>)
    ensures
        all_accepted(accepted@) ==> outcome == Ok::<(), ConfigError>(()),
        !all_accepted(accepted@) ==> outcome == Err::<(), ConfigError>(ConfigError::WriteRejected),
{
    if accepted.len() != KEY_COUNT {
        return Err(ConfigError::WriteRejected);
    }
    if accepted[0] && accepted[1] && accepted[2] && accepted[3] {
        Ok(())
    } else {
        Err(ConfigError::WriteRejected)
    }
}

impl ZoneState {
    /// Takes the four actions from `readings`, which hold what the backend
    /// returned for each key in schema order (`None` for a key it does not
    /// have). If the readings are not complete, the state is left as it was.
    pub fn load(&mut self, readings: &Vec<Option<String>>) -> (outcome: Result<(), ConfigError>)
        ensures
            readings_complete(readings_text(readings@)) ==> outcome == Ok::<(), ConfigError>(())
                && final(self)@ == loaded(old(self)@, readings_text(readings@)),
            !readings_complete(readings_text(readings@)) ==> outcome == Err::<(), ConfigError>(
                ConfigError::Unavailable,
            ) && final(self)@ == old(self)@,
    {
        if readings.len() != KEY_COUNT {
            return Err(ConfigError::Unavailable);
        }
        proof {
            let texts = readings_text(readings@);
            assert(texts[0] == reading_text(readings@[0]));
            assert(texts[1] == reading_text(readings@[1]));
            assert(texts[2] == reading_text(readings@[2]));
            assert(texts[3] == reading_text(readings@[3]));
        }
        match (&readings[0], &readings[1], &readings[2], &readings[3]) {
            (Some(left_up), Some(right_up), Some(left_down), Some(right_down)) => {
                self.set_action(Corner::TopLeft, left_up.as_str());
                self.set_action(Corner::TopRight, right_up.as_str());
                self.set_action(Corner::BottomLeft, left_down.as_str());
                self.set_action(Corner::BottomRight, right_down.as_str());
                Ok(())
            },
            _ => Err(ConfigError::Unavailable),
        }
    }

    /// The writes that persist this state: one per corner, in schema order,
    /// each carrying the corner's key and its current action.
    pub fn save_plan(&self) -> (plan: Vec<ConfigWrite>)
        ensures
            plan@.len() == KEY_COUNT,
            forall|i: int| 0 <= i < KEY_COUNT ==> (#[trigger] plan@[i])@ == planned_writes(self@)[i],
    {
        let order = corners();
        let mut plan: Vec<ConfigWrite> = Vec::new();
        for i in 0..KEY_COUNT
            invariant
                plan@.len() == i,
                forall|j: int| 0 <= j < KEY_COUNT ==> order@[j] == corner_at(j),
                forall|j: int| 0 <= j < i ==> (#[trigger] plan@[j])@ == planned_writes(self@)[j],
        {
            let corner = order[i];
            plan.push(
                ConfigWrite {
                    key: config_key(corner).to_owned(),
                    value: self.get_action(corner).to_owned(),
                },
            );
        }
        plan
    }
}

/// The four schema keys are pairwise different.
pub proof fn lemma_keys_distinct(a: Corner, b: Corner)
    ensures
        key_of(a) == key_of(b) <==> a == b,
{
    reveal_strlit("left-up");
    reveal_strlit("right-up");
    reveal_strlit("left-down");
    reveal_strlit("right-down");
    assert(key_of(Corner::TopLeft).len() == 7);
    assert(key_of(Corner::TopRight).len() == 8);
    assert(key_of(Corner::BottomLeft).len() == 9);
    assert(key_of(Corner::BottomRight).len() == 10);
}

/// After the writes that save `state` were attempted on `backend`, every key
/// whose write was accepted holds the action of its corner.
pub proof fn lemma_accepted_write_is_stored(
    state: ZoneModel,
    backend: Map<Seq<char>, Seq<char>>,
    accepted: Seq<bool>,
    i: int,
)
    requires
        0 <= i < KEY_COUNT,
        i < accepted.len(),
        accepted[i],
    ensures
        readings_of(backend_after(backend, planned_writes(state), accepted))[i] == Some(
            state.action(corner_at(i)),
        ),
{
    reveal_with_fuel(backend_after, 5);
    lemma_keys_distinct(corner_at(i), corner_at(0));
    lemma_keys_distinct(corner_at(i), corner_at(1));
    lemma_keys_distinct(corner_at(i), corner_at(2));
    lemma_keys_distinct(corner_at(i), corner_at(3));
}

/// Saving and loading round-trip: when the backend accepts all four writes
/// that save `state`, a fresh load from that backend is complete and gives
/// the same four actions, whatever the backend held before and whatever
/// state is loaded into.
pub proof fn lemma_save_then_load(
    state: ZoneModel,
    backend: Map<Seq<char>, Seq<char>>,
    accepted: Seq<bool>,
    fresh: ZoneModel,
    corner: Corner,
)
    requires
        all_accepted(accepted),
    ensures
        readings_complete(readings_of(backend_after(backend, planned_writes(state), accepted))),
        loaded(
            fresh,
            readings_of(backend_after(backend, planned_writes(state), accepted)),
        ).action(corner) == state.action(corner),
{
    lemma_accepted_write_is_stored(state, backend, accepted, 0);
    lemma_accepted_write_is_stored(state, backend, accepted, 1);
    lemma_accepted_write_is_stored(state, backend, accepted, 2);
    lemma_accepted_write_is_stored(state, backend, accepted, 3);
}

/// The detection flag is never persisted: the planned writes name the four
/// schema keys only, and are the same whatever the flag holds.
pub proof fn lemma_flag_not_saved(state: ZoneModel, detected: bool)
    ensures
        planned_writes(state.with_detected(detected)) == planned_writes(state),
        forall|i: int|
            0 <= i < planned_writes(state).len() ==> (#[trigger] planned_writes(state)[i]).0
                == key_of(corner_at(i)),
{
    assert(planned_writes(state.with_detected(detected)) =~= planned_writes(state));
}

} // verus!
