//! The session-list model: a four-state remote value plus the accessor
//! that triggers its one-time fetch. The asynchronous delivery itself is
//! the caller's job: fetch requests are emitted as actions into `outbox`,
//! and the fetched value comes back through `handle_action`.

use crate::action::{Action, SessionsModelAction};
use crate::models::{ChatSession, GrpID, MsgID, RemoteData, SessionPool, SessionRecord, UsrID};
use vstd::prelude::*;

verus! {

pub struct SessionsModel {
    pub sessions: RemoteData<SessionPool>,
}

impl SessionsModel {
    pub fn new() -> (r: SessionsModel)
        ensures
            r.sessions is Uninitialized,
    {
        SessionsModel { sessions: RemoteData::Uninitialized }
    }

    /// Current session list. On the first call (`Uninitialized`) it
    /// triggers the fetch once — emitting `Fetch` and moving to `Pending`
    /// — and reports `Pending`; afterwards it reports whatever is cached.
    pub fn get_model_data(&mut self, outbox: &mut Vec<Action>) -> (r: RemoteData<&SessionPool>)
        ensures
            old(self).sessions is Uninitialized ==> {
                &&& final(self).sessions is Pending
                &&& r is Pending
                &&& final(outbox)@ == old(outbox)@.push(
                    Action::SessionsModel(SessionsModelAction::Fetch),
                )
            },
            !(old(self).sessions is Uninitialized) ==> {
                &&& *final(self) == *old(self)
                &&& final(outbox)@ == old(outbox)@
                &&& match old(self).sessions {
                    RemoteData::Success(ref x) => r matches RemoteData::Success(y) && y == x,
                    RemoteData::Failed => r is Failed,
                    RemoteData::Pending => r is Pending,
                    RemoteData::Uninitialized => false,
                }
            },
    {
        match &self.sessions {
            RemoteData::Uninitialized => {
                self.sessions = RemoteData::Pending;
                outbox.push(Action::SessionsModel(SessionsModelAction::Fetch));
                RemoteData::Pending
            },
            _ => self.sessions.as_ref(),
        }
    }

    pub fn handle_action(&mut self, action: SessionsModelAction, outbox: &mut Vec<Action>)
        ensures
            match action {
                SessionsModelAction::Reload => {
                    &&& final(self).sessions is Pending
                    &&& final(outbox)@ == old(outbox)@.push(
                        Action::SessionsModel(SessionsModelAction::Fetch),
                    )
                },
                SessionsModelAction::Fetch => {
                    &&& *final(self) == *old(self)
                    &&& final(outbox)@ == old(outbox)@
                },
                SessionsModelAction::SetSessions(v) => {
                    &&& final(self).sessions matches RemoteData::Success(p) && p == v
                    &&& final(outbox)@ == old(outbox)@
                },
            },
    {
        match action {
            SessionsModelAction::Reload => {
                self.act_on_reload(outbox);
            },
            SessionsModelAction::Fetch => {
                // Performing the fetch is asynchronous outside work; the
                // surrounding loop answers it with `SetSessions`.
            },
            SessionsModelAction::SetSessions(v) => {
                self.act_on_set(v);
            },
        }
    }

    /// The (simulated) fetch result: a fixed pool of three sessions.
    pub fn fetch() -> (r: SessionPool)
        ensures
            r.0@.len() == 3,
            r.0@[0].session matches ChatSession::WithOther(u) && u.0@ == "Alice"@,
            r.0@[0].bookmark.0@ == "0"@,
            r.0@[0].unread_msg == 0,
            r.0@[1].session matches ChatSession::WithOther(u) && u.0@ == "Bob"@,
            r.0@[1].bookmark.0@ == "0"@,
            r.0@[1].unread_msg == 1,
            r.0@[2].session matches ChatSession::Group(g) && g.0@ == "Nordic Nostalgia"@,
            r.0@[2].bookmark.0@ == "0"@,
            r.0@[2].unread_msg == 5,
    {
        let mut sessions: Vec<SessionRecord> = Vec::new();
        sessions.push(
            SessionRecord {
                session: ChatSession::WithOther(UsrID("Alice".to_owned())),
                bookmark: MsgID("0".to_owned()),
                unread_msg: 0,
                heat: 0,
            },
        );
        sessions.push(
            SessionRecord {
                session: ChatSession::WithOther(UsrID("Bob".to_owned())),
                bookmark: MsgID("0".to_owned()),
                unread_msg: 1,
                heat: 0,
            },
        );
        sessions.push(
            SessionRecord {
                session: ChatSession::Group(GrpID("Nordic Nostalgia".to_owned())),
                bookmark: MsgID("0".to_owned()),
                unread_msg: 5,
                heat: 0,
            },
        );
        SessionPool(sessions)
    }

    fn act_on_reload(&mut self, outbox: &mut Vec<Action>)
        ensures
            final(self).sessions is Pending,
            final(outbox)@ == old(outbox)@.push(Action::SessionsModel(SessionsModelAction::Fetch)),
    {
        self.sessions = RemoteData::Pending;
        outbox.push(Action::SessionsModel(SessionsModelAction::Fetch));
    }

    fn act_on_set(&mut self, data: SessionPool)
        ensures
            final(self).sessions matches RemoteData::Success(p) && p == data,
    {
        self.sessions = RemoteData::Success(data);
    }
}

} // verus!
