//! The message-list model for the one currently bound chat session.
//! Binding resets the loaded messages and requests a fresh fetch; fetch
//! requests are emitted as actions into `outbox`, and the fetched value
//! comes back through `handle_action`.

use crate::action::{Action, MessagesModelAction};
use crate::models::{ChatSession, MsgID, RemoteData, UsrID};
use crate::text::{decimal_string, spec_decimal};
use vstd::prelude::*;

verus! {

pub struct MessagesModel {
    pub bind: Option<ChatSession>,
    pub messages: RemoteData<Vec<MsgID>>,
}

/// Whether `session` is the direct conversation with the system bot.
pub open spec fn is_bot_session(session: ChatSession) -> bool {
    session matches ChatSession::WithOther(u) && u.0@ == "SystemBotRaphina"@
}

impl MessagesModel {
    pub fn new() -> (r: MessagesModel)
        ensures
            r.bind is None,
            r.messages is Uninitialized,
    {
        MessagesModel { bind: None, messages: RemoteData::Uninitialized }
    }

    /// The (simulated) fetch result for one session: the bot session has
    /// its fixed greeting; every other session has messages numbered 1
    /// through 99.
    pub fn fetch(session: ChatSession) -> (r: Vec<MsgID>)
        ensures
            is_bot_session(session) ==> r@.len() == 1 && r@[0].0@ == "Hello, I'm Raphina. I'm a bot."@,
            !is_bot_session(session) ==> {
                &&& r@.len() == 99
                &&& forall|k: int| 0 <= k < 99 ==> (#[trigger] r@[k]).0@ == spec_decimal(k + 1)
            },
    {
        let bot = match &session {
            ChatSession::WithOther(usr) => usr.0 == "SystemBotRaphina".to_owned(),
            _ => false,
        };
        if bot {
            let mut v: Vec<MsgID> = Vec::new();
            v.push(MsgID("Hello, I'm Raphina. I'm a bot.".to_owned()));
            v
        } else {
            let mut v: Vec<MsgID> = Vec::new();
            let mut x: u32 = 1;
            while x < 100
                invariant
                    1 <= x <= 100,
                    v@.len() == x - 1,
                    forall|k: int| 0 <= k < x - 1 ==> (#[trigger] v@[k]).0@ == spec_decimal(k + 1),
                decreases 100 - x,
            {
                v.push(MsgID(decimal_string(x)));
                x = x + 1;
            }
            v
        }
    }

    pub fn get_model_data(&mut self) -> (r: RemoteData<&Vec<MsgID>>)
        ensures
            *final(self) == *old(self),
            match old(self).messages {
                RemoteData::Success(ref x) => r matches RemoteData::Success(y) && y == x,
                RemoteData::Failed => r is Failed,
                RemoteData::Pending => r is Pending,
                RemoteData::Uninitialized => r is Uninitialized,
            },
    {
        self.messages.as_ref()
    }

    pub fn handle_action(&mut self, action: MessagesModelAction, outbox: &mut Vec<Action>)
        requires
            action is Fetch ==> old(self).bind is Some,
        ensures
            match action {
                MessagesModelAction::Init => {
                    &&& final(self).messages is Pending
                    &&& final(self).bind matches Some(s) && is_bot_session(s)
                    &&& final(outbox)@ == old(outbox)@.push(
                        Action::MessagesModel(MessagesModelAction::Fetch),
                    )
                },
                MessagesModelAction::Reload => {
                    &&& final(self).messages is Pending
                    &&& final(self).bind == old(self).bind
                    &&& final(outbox)@ == old(outbox)@.push(
                        Action::MessagesModel(MessagesModelAction::Fetch),
                    )
                },
                MessagesModelAction::SetBind(v) => {
                    &&& final(self).bind == Some(v)
                    &&& final(self).messages is Pending
                    &&& final(outbox)@ == old(outbox)@.push(
                        Action::MessagesModel(MessagesModelAction::Fetch),
                    )
                },
                MessagesModelAction::Fetch => {
                    &&& *final(self) == *old(self)
                    &&& final(outbox)@ == old(outbox)@
                },
                MessagesModelAction::SetMessages(data) => {
                    &&& final(self).messages matches RemoteData::Success(m) && m == data
                    &&& final(self).bind == old(self).bind
                    &&& final(outbox)@ == old(outbox)@
                },
            },
    {
        match action {
            MessagesModelAction::Init => self.act_on_init(outbox),
            MessagesModelAction::Fetch => {
                // Performing the fetch is asynchronous outside work; the
                // surrounding loop answers it with `SetMessages`.
            },
            MessagesModelAction::Reload => self.act_on_reload(outbox),
            MessagesModelAction::SetBind(v) => self.act_on_set_bind(v, outbox),
            MessagesModelAction::SetMessages(data) => self.act_on_set_messages(data),
        }
    }

    fn act_on_init(&mut self, outbox: &mut Vec<Action>)
        ensures
            final(self).messages is Pending,
            final(self).bind matches Some(s) && is_bot_session(s),
            final(outbox)@ == old(outbox)@.push(Action::MessagesModel(MessagesModelAction::Fetch)),
    {
        self.messages = RemoteData::Pending;
        self.bind = Some(ChatSession::WithOther(UsrID("SystemBotRaphina".to_owned())));
        outbox.push(Action::MessagesModel(MessagesModelAction::Fetch));
    }

    fn act_on_reload(&mut self, outbox: &mut Vec<Action>)
        ensures
            final(self).messages is Pending,
            final(self).bind == old(self).bind,
            final(outbox)@ == old(outbox)@.push(Action::MessagesModel(MessagesModelAction::Fetch)),
    {
        self.messages = RemoteData::Pending;
        outbox.push(Action::MessagesModel(MessagesModelAction::Fetch));
    }

    fn act_on_set_bind(&mut self, session: ChatSession, outbox: &mut Vec<Action>)
        ensures
            final(self).bind == Some(session),
            final(self).messages is Pending,
            final(outbox)@ == old(outbox)@.push(Action::MessagesModel(MessagesModelAction::Fetch)),
    {
        self.bind = Some(session);
        self.messages = RemoteData::Pending;
        outbox.push(Action::MessagesModel(MessagesModelAction::Fetch));
    }

    fn act_on_set_messages(&mut self, data: Vec<MsgID>)
        ensures
            final(self).messages matches RemoteData::Success(m) && m == data,
            final(self).bind == old(self).bind,
    {
        self.messages = RemoteData::Success(data);
    }
}

} // verus!
