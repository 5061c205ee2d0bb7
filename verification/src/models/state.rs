//! Which top-level part of the UI currently holds focus; advanced by the
//! global Tab binding and set directly when the sidebar hands focus to the
//! message view.

use crate::action::StateModelAction;
use vstd::prelude::*;

verus! {

#[derive(Debug, Copy, Clone, PartialEq, Eq, Structural)]
pub enum StateModel {
    Chats,
    Messages,
    FPS,
}

/// The focus target after one `NextState` step: a fixed cycle through the
/// three top-level parts.
pub open spec fn spec_next_state(s: StateModel) -> StateModel {
    match s {
        StateModel::Chats => StateModel::Messages,
        StateModel::Messages => StateModel::FPS,
        StateModel::FPS => StateModel::Chats,
    }
}

impl StateModel {
    pub fn new() -> (r: StateModel)
        ensures
            r == StateModel::Chats,
    {
        StateModel::Chats
    }

    pub fn handle_action(&mut self, action: StateModelAction)
        ensures
            *final(self) == match action {
                StateModelAction::NextState => spec_next_state(*old(self)),
                StateModelAction::SetActive(s) => s,
            },
    {
        match action {
            StateModelAction::NextState => self.act_on_next(),
            StateModelAction::SetActive(s) => self.act_on_set_active(s),
        }
    }

    fn act_on_next(&mut self)
        ensures
            *final(self) == spec_next_state(*old(self)),
    {
        match self {
            Self::Chats => *self = Self::Messages,
            Self::Messages => *self = Self::FPS,
            Self::FPS => *self = Self::Chats,
        }
    }

    fn act_on_set_active(&mut self, s: StateModel)
        ensures
            *final(self) == s,
    {
        *self = s;
    }
}

impl Default for StateModel {
    fn default() -> (r: StateModel)
        ensures
            r == StateModel::Chats,
    {
        StateModel::Chats
    }
}

} // verus!
