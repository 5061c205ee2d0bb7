//! One entry of the sidebar's session list: a locally cached presentation
//! of a single chat session, with an optional selection highlight.

use crate::models::ChatSession;
use vstd::prelude::*;

verus! {

/// The cached presentation fields one item renders from.
#[derive(Debug, PartialEq, Eq)]
pub struct ChatItemState {
    pub name: String,
    pub msg_preview: String,
    pub msg_timestamp: String,
    pub unread_msg: u32,
}

#[derive(Debug, PartialEq, Eq)]
pub struct ChatItem {
    pub is_highlight: bool,
    pub id: ChatSession,
    pub internal: ChatItemState,
}

impl ChatItem {
    pub fn new(id: ChatSession) -> (r: ChatItem)
        ensures
            r.id == id,
            !r.is_highlight,
            r.internal.name@ == Seq::<char>::empty(),
            r.internal.msg_preview@ == Seq::<char>::empty(),
            r.internal.msg_timestamp@ == Seq::<char>::empty(),
            r.internal.unread_msg == 0,
    {
        ChatItem {
            id,
            is_highlight: false,
            internal: ChatItemState {
                name: String::new(),
                msg_preview: String::new(),
                msg_timestamp: String::new(),
                unread_msg: 0,
            },
        }
    }

    pub fn set_highlight(&mut self)
        ensures
            final(self).is_highlight,
            final(self).id == old(self).id,
            final(self).internal == old(self).internal,
    {
        self.is_highlight = true;
    }

    /// Rebuild the cached presentation from the model. The data behind a
    /// session is still simulated, so the fields are fixed per session
    /// kind.
    pub fn update_with_context_model(&mut self)
        ensures
            final(self).id == old(self).id,
            final(self).is_highlight == old(self).is_highlight,
            old(self).id is Group ==> {
                &&& final(self).internal.name@ == "Nodic Nostalgia"@
                &&& final(self).internal.unread_msg == 23
                &&& final(self).internal.msg_preview@
                    == "Neil: Welcome, Everybody. Especially you, Mr.Gump."@
                &&& final(self).internal.msg_timestamp@ == "Just Now"@
            },
            old(self).id is WithOther ==> {
                &&& final(self).internal.name@ == "\u{2764}Raphina\u{2764}"@
                &&& final(self).internal.unread_msg == 5
                &&& final(self).internal.msg_preview@ == "Raphina: Dinner together?"@
                &&& final(self).internal.msg_timestamp@ == "5m ago"@
            },
    {
        match self.id {
            ChatSession::Group(ref _gid) => {
                self.internal.name = "Nodic Nostalgia".to_owned();
                self.internal.unread_msg = 23;
                self.internal.msg_preview =
                    "Neil: Welcome, Everybody. Especially you, Mr.Gump.".to_owned();
                self.internal.msg_timestamp = "Just Now".to_owned();
            },
            ChatSession::WithOther(ref _uid) => {
                self.internal.name = "\u{2764}Raphina\u{2764}".to_owned();
                self.internal.unread_msg = 5;
                self.internal.msg_preview = "Raphina: Dinner together?".to_owned();
                self.internal.msg_timestamp = "5m ago".to_owned();
            },
        }
    }
}

} // verus!
