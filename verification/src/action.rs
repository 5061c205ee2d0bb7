//! Actions the UI core emits. Each handled terminal event produces exactly
//! zero or one action; the surrounding dispatch loop applies them to the
//! models.

use crate::models::state::StateModel;
use crate::models::{ChatSession, MsgID, SessionPool};
use vstd::prelude::*;

verus! {

#[derive(Debug, Clone, PartialEq, Eq)]
pub enum SessionsModelAction {
    Reload,
    /// Request that the session list be fetched; performed by the
    /// background fetch task, which answers with `SetSessions`.
    Fetch,
    SetSessions(SessionPool),
}

#[derive(Debug, Clone, PartialEq, Eq)]
pub enum MessagesModelAction {
    Init,
    Reload,
    SetBind(ChatSession),
    /// Request that the bound session's messages be fetched; performed by
    /// the background fetch task, which answers with `SetMessages`.
    Fetch,
    SetMessages(Vec<MsgID>),
}

#[derive(Debug, Clone, PartialEq, Eq)]
pub enum StateModelAction {
    NextState,
    SetActive(StateModel),
}

#[derive(Debug, PartialEq, Eq)]
pub enum Action {
    SessionsModel(SessionsModelAction),
    MessagesModel(MessagesModelAction),
    StateModel(StateModelAction),
    Nop,
    Quit,
    MultiAction(Vec<Action>),
}

} // verus!
