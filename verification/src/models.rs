//! Underlying data for the application: users, groups, messages, chat
//! sessions, and the four-state wrapper for values that arrive
//! asynchronously.

use vstd::prelude::*;

pub mod messages;
pub mod sessions;
pub mod state;

verus! {

#[derive(Debug, Clone, PartialEq, Eq)]
pub enum UserState {
    Online,
    Offline,
    Busy,
    Idle,
    Cusomized(String),
}

#[derive(Debug, Clone, PartialEq, Eq)]
pub enum Receiver {
    Individual(UsrID),
    Group(GrpID),
}

#[derive(Debug, PartialEq, Eq)]
pub struct UsrID(pub String);

impl Clone for UsrID {
    fn clone(&self) -> (r: Self)
        ensures
            r == *self,
    {
        UsrID(self.0.clone())
    }
}

#[derive(Debug, PartialEq, Eq)]
pub struct GrpID(pub String);

impl Clone for GrpID {
    fn clone(&self) -> (r: Self)
        ensures
            r == *self,
    {
        GrpID(self.0.clone())
    }
}

#[derive(Debug, PartialEq, Eq)]
pub struct MsgID(pub String);

impl Clone for MsgID {
    fn clone(&self) -> (r: Self)
        ensures
            r == *self,
    {
        MsgID(self.0.clone())
    }
}

#[derive(Debug, Clone, PartialEq, Eq)]
pub struct User {
    pub id: UsrID,
    pub state: UserState,
    pub uname: String,
    pub profile: Profile,
}

#[derive(Debug, Clone, PartialEq, Eq)]
pub struct Profile {
    pub email: String,
    pub gender: String,
}

impl Profile {
    pub fn new() -> (r: Profile)
        ensures
            r.email@ == Seq::<char>::empty(),
            r.gender@ == Seq::<char>::empty(),
    {
        Profile { email: String::new(), gender: String::new() }
    }
}

impl Default for Profile {
    fn default() -> (r: Profile)
        ensures
            r.email@ == Seq::<char>::empty(),
            r.gender@ == Seq::<char>::empty(),
    {
        Profile::new()
    }
}

#[derive(Debug, Clone, PartialEq, Eq)]
pub struct Group {
    pub id: GrpID,
    pub owner: UsrID,
    pub group_name: String,
}

#[derive(Debug, Clone, PartialEq, Eq)]
pub struct Message {
    pub id: MsgID,
    pub from: UsrID,
    pub to: Receiver,
    pub content: String,
}

pub struct UserPool {
    pub users: Vec<User>,
}

impl UserPool {
    pub fn new() -> (r: UserPool)
        ensures
            r.users@.len() == 0,
    {
        UserPool { users: Vec::new() }
    }

    /// Stand-in for a user-directory lookup: appends the two fixed sample
    /// users.
    pub fn get_user(&mut self)
        ensures
            final(self).users@.len() == old(self).users@.len() + 2,
            final(self).users@.subrange(0, old(self).users@.len() as int) == old(self).users@,
            final(self).users@[old(self).users@.len() as int].id.0@ == "Alice"@,
            final(self).users@[old(self).users@.len() as int].uname@ == "Alice"@,
            final(self).users@[old(self).users@.len() as int].state is Online,
            final(self).users@[old(self).users@.len() as int + 1].id.0@ == "Bob"@,
            final(self).users@[old(self).users@.len() as int + 1].uname@ == "Bob"@,
            final(self).users@[old(self).users@.len() as int + 1].state is Online,
    {
        let ghost before = self.users@;
        self.users.push(
            User {
                id: UsrID("Alice".to_owned()),
                state: UserState::Online,
                uname: "Alice".to_owned(),
                profile: Profile::default(),
            },
        );
        self.users.push(
            User {
                id: UsrID("Bob".to_owned()),
                state: UserState::Online,
                uname: "Bob".to_owned(),
                profile: Profile::default(),
            },
        );
        proof {
            assert(final(self).users@.subrange(0, before.len() as int) =~= before);
        }
    }
}

pub struct GroupPool {
    pub groups: Vec<Group>,
}

pub struct MessagePool {
    pub messages: Vec<Message>,
}

/// A chat session is either a direct conversation with one other user or a
/// group conversation.
#[derive(Debug, PartialEq, Eq)]
pub enum ChatSession {
    WithOther(UsrID),
    Group(GrpID),
}

impl Clone for ChatSession {
    fn clone(&self) -> (r: Self)
        ensures
            r == *self,
    {
        match self {
            ChatSession::WithOther(u) => ChatSession::WithOther(u.clone()),
            ChatSession::Group(g) => ChatSession::Group(g.clone()),
        }
    }
}

#[derive(Debug, Clone, PartialEq, Eq)]
pub struct SessionRecord {
    pub session: ChatSession,
    pub bookmark: MsgID,
    pub unread_msg: usize,
    pub heat: usize,
}

#[derive(Debug, Clone, PartialEq, Eq)]
pub struct SessionPool(pub Vec<SessionRecord>);

/// Load state of an asynchronously-sourced value. `Uninitialized`,
/// `Pending` and `Failed` all mean "nothing to render yet"; only `Success`
/// carries content.
#[derive(Debug, Clone, PartialEq, Eq)]
pub enum RemoteData<T> {
    Success(T),
    Failed,
    Pending,
    Uninitialized,
}

impl<T> RemoteData<T> {
    pub fn as_ref(&self) -> (r: RemoteData<&T>)
        ensures
            match *self {
                RemoteData::Success(ref x) => r matches RemoteData::Success(y) && y == x,
                RemoteData::Failed => r is Failed,
                RemoteData::Pending => r is Pending,
                RemoteData::Uninitialized => r is Uninitialized,
            },
    {
        match *self {
            Self::Success(ref x) => RemoteData::Success(x),
            Self::Failed => RemoteData::Failed,
            Self::Pending => RemoteData::Pending,
            Self::Uninitialized => RemoteData::Uninitialized,
        }
    }
}

} // verus!
