//! The in-memory record of the four corner actions and the detection flag.

use vstd::prelude::*;
use crate::text::same_text;

verus! {

/// One of the four screen corners that can carry an action.
#[derive(Clone, Copy, Debug, PartialEq, Eq, Structural)]
pub enum Corner {
    TopLeft,
    TopRight,
    BottomLeft,
    BottomRight,
}

/// Mathematical value of a [`ZoneState`]: the flag and the four actions as
/// character sequences.
pub ghost struct ZoneModel {
    pub detected: bool,
    pub top_left: Seq<char>,
    pub top_right: Seq<char>,
    pub bottom_left: Seq<char>,
    pub bottom_right: Seq<char>,
}

impl ZoneModel {
    /// The state every service starts from: nothing detected, no actions.
    pub open spec fn initial() -> ZoneModel {
        ZoneModel {
            detected: false,
            top_left: Seq::empty(),
            top_right: Seq::empty(),
            bottom_left: Seq::empty(),
            bottom_right: Seq::empty(),
        }
    }

    /// The action bound to `corner`.
    pub open spec fn action(self, corner: Corner) -> Seq<char> {
        match corner {
            Corner::TopLeft => self.top_left,
            Corner::TopRight => self.top_right,
            Corner::BottomLeft => self.bottom_left,
            Corner::BottomRight => self.bottom_right,
        }
    }

    /// This state with `corner` rebound to `value`, everything else kept.
    pub open spec fn with_action(self, corner: Corner, value: Seq<char>) -> ZoneModel {
        match corner {
            Corner::TopLeft => ZoneModel { top_left: value, ..self },
            Corner::TopRight => ZoneModel { top_right: value, ..self },
            Corner::BottomLeft => ZoneModel { bottom_left: value, ..self },
            Corner::BottomRight => ZoneModel { bottom_right: value, ..self },
        }
    }

    /// This state with the detection flag set to `value`, the actions kept.
    pub open spec fn with_detected(self, value: bool) -> ZoneModel {
        ZoneModel { detected: value, ..self }
    }

    /// A corner reads back exactly the value last written to it, whatever
    /// that value is, and writing one corner changes neither the other
    /// corners nor the detection flag.
    pub proof fn lemma_set_then_get(self, corner: Corner, value: Seq<char>, other: Corner)
        ensures
            self.with_action(corner, value).action(corner) == value,
            other != corner ==> self.with_action(corner, value).action(other) == self.action(
                other,
            ),
            self.with_action(corner, value).detected == self.detected,
    {
    }

    /// The flag holds the value last written to it: writing `first` and then
    /// `second` leaves `second`, and no action changes on the way.
    pub proof fn lemma_detected_last_write_wins(self, first: bool, second: bool, corner: Corner)
        ensures
            self.with_detected(first).with_detected(second).detected == second,
            self.with_detected(first).with_detected(second).action(corner) == self.action(corner),
    {
    }
}

/// The four corner actions and the transient detection flag.
pub struct ZoneState {
    detected: bool,
    top_left: String,
    top_right: String,
    bottom_left: String,
    bottom_right: String,
}

impl View for ZoneState {
    type V = ZoneModel;

    closed spec fn view(&self) -> ZoneModel {
        ZoneModel {
            detected: self.detected,
            top_left: self.top_left@,
            top_right: self.top_right@,
            bottom_left: self.bottom_left@,
            bottom_right: self.bottom_right@,
        }
    }
}

impl ZoneState {
    /// A state with the flag cleared and all four actions empty.
    pub fn new() -> (state: ZoneState)
        ensures
            state@ == ZoneModel::initial(),
    {
        ZoneState {
            detected: false,
            top_left: String::new(),
            top_right: String::new(),
            bottom_left: String::new(),
            bottom_right: String::new(),
        }
    }

    /// The action bound to `corner`.
    pub fn get_action(&self, corner: Corner) -> (action: &str)
        ensures
            action@ == self@.action(corner),
    {
        match corner {
            Corner::TopLeft => self.top_left.as_str(),
            Corner::TopRight => self.top_right.as_str(),
            Corner::BottomLeft => self.bottom_left.as_str(),
            Corner::BottomRight => self.bottom_right.as_str(),
        }
    }

    /// Binds `value` to `corner`. Any string is accepted, the empty one too.
    pub fn set_action(&mut self, corner: Corner, value: &str)
        ensures
            final(self)@ == old(self)@.with_action(corner, value@),
    {
        let owned = value.to_owned();
        match corner {
            Corner::TopLeft => {
                self.top_left = owned;
            },
            Corner::TopRight => {
                self.top_right = owned;
            },
            Corner::BottomLeft => {
                self.bottom_left = owned;
            },
            Corner::BottomRight => {
                self.bottom_right = owned;
            },
        }
    }

    /// A copy of this state.
    pub fn snapshot(&self) -> (copy: ZoneState)
        ensures
            copy@ == self@,
    {
        ZoneState {
            detected: self.detected,
            top_left: self.top_left.clone(),
            top_right: self.top_right.clone(),
            bottom_left: self.bottom_left.clone(),
            bottom_right: self.bottom_right.clone(),
        }
    }

    /// Whether this state and `other` hold the same flag and the same four
    /// actions.
    pub fn same_as(&self, other: &ZoneState) -> (same: bool)
        ensures
            same == (self@ == other@),
    {
        self.detected == other.detected && same_text(
            self.top_left.as_str(),
            other.top_left.as_str(),
        ) && same_text(self.top_right.as_str(), other.top_right.as_str()) && same_text(
            self.bottom_left.as_str(),
            other.bottom_left.as_str(),
        ) && same_text(self.bottom_right.as_str(), other.bottom_right.as_str())
    }

    /// Whether a corner trigger is currently active.
    pub fn is_detected(&self) -> (detected: bool)
        ensures
            detected == self@.detected,
    {
        self.detected
    }

    /// Records whether a corner trigger is currently active.
    pub fn set_detected(&mut self, value: bool)
        ensures
            final(self)@ == old(self)@.with_detected(value),
    {
        self.detected = value;
    }
}

} // verus!
