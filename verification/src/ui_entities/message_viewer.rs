//! The message viewer: a locally cached projection of the bound session's
//! messages plus independent vertical and horizontal scroll offsets.
//! `j`/`k` scroll vertically, `h`/`l` horizontally.

use crate::action::Action;
use crate::events::{KeyCode, TerminalEvent};
use crate::models::messages::MessagesModel;
use crate::models::{ChatSession, MsgID, RemoteData};
use crate::ui_entities::{TerminalEventResult, UiId, UiMetaData, UiTag};
use vstd::prelude::*;
use vstd::string::*;

verus! {

/// The cached presentation state the viewer renders from: one
/// `(author, content)` line per message.
#[derive(Debug, PartialEq, Eq)]
pub struct InternalState {
    pub messages: Vec<(String, String)>,
    pub title: String,
    pub vertical_scroll: usize,
    pub horizontal_scroll: usize,
}

/// The rendering of a session in the viewer's title line.
pub open spec fn spec_session_label(s: ChatSession) -> Seq<char> {
    match s {
        ChatSession::WithOther(u) => "WithOther(UsrID(\""@ + u.0@ + "\"))"@,
        ChatSession::Group(g) => "Group(GrpID(\""@ + g.0@ + "\"))"@,
    }
}

/// The rendering of one message id as a content line.
pub open spec fn spec_message_line(m: MsgID) -> Seq<char> {
    "[message content of MsgID(\""@ + m.0@ + "\")]"@
}

/// How one session is written out in the viewer's title.
pub fn session_label(s: &ChatSession) -> (r: String)
    ensures
        r@ == spec_session_label(*s),
{
    let mut t = String::new();
    match s {
        ChatSession::WithOther(u) => {
            t.append("WithOther(UsrID(\"");
            t.append(u.0.as_str());
            t.append("\"))");
        },
        ChatSession::Group(g) => {
            t.append("Group(GrpID(\"");
            t.append(g.0.as_str());
            t.append("\"))");
        },
    }
    t
}

fn message_line(m: &MsgID) -> (r: String)
    ensures
        r@ == spec_message_line(*m),
{
    let mut t = String::new();
    t.append("[message content of MsgID(\"");
    t.append(m.0.as_str());
    t.append("\")]");
    t
}

#[derive(Debug, PartialEq, Eq)]
pub struct RightSpace {
    pub id: UiId,
    pub tag: Option<UiTag>,
    pub internal_state: InternalState,
}

impl RightSpace {
    pub fn new() -> (r: RightSpace)
        ensures
            r.id == 0u16,
            r.tag is None,
            r.internal_state.messages@.len() == 0,
            r.internal_state.title@ == Seq::<char>::empty(),
            r.internal_state.vertical_scroll == 0,
            r.internal_state.horizontal_scroll == 0,
    {
        RightSpace {
            id: 0,
            tag: None,
            internal_state: InternalState {
                messages: Vec::new(),
                title: String::new(),
                vertical_scroll: 0,
                horizontal_scroll: 0,
            },
        }
    }

    /// Attach to the shared metadata: obtain this widget's id.
    pub fn with_metadata(self, meta: &mut UiMetaData) -> (r: RightSpace)
        requires
            old(meta).spec_id_counter() < u16::MAX,
        ensures
            r.id == old(meta).spec_id_counter(),
            final(meta).spec_id_counter() == old(meta).spec_id_counter() + 1,
            final(meta).spec_should_draw() == old(meta).spec_should_draw(),
            final(meta).spec_active() == old(meta).spec_active(),
            final(meta).spec_draw_counter() == old(meta).spec_draw_counter(),
            forall|t: UiTag| final(meta).spec_tag(t) == old(meta).spec_tag(t),
            r.tag == self.tag,
            r.internal_state == self.internal_state,
    {
        let mut ret = self;
        ret.id = meta.next_id();
        ret
    }

    /// Register this widget's id under `tag`.
    pub fn with_tag(self, tag: UiTag, meta: &mut UiMetaData) -> (r: RightSpace)
        ensures
            r.tag == Some(tag),
            final(meta).spec_tag(tag) == Some(self.id),
            forall|t: UiTag| t != tag ==> final(meta).spec_tag(t) == old(meta).spec_tag(t),
            final(meta).spec_should_draw() == old(meta).spec_should_draw(),
            final(meta).spec_active() == old(meta).spec_active(),
            final(meta).spec_id_counter() == old(meta).spec_id_counter(),
            final(meta).spec_draw_counter() == old(meta).spec_draw_counter(),
            r.id == self.id,
            r.internal_state == self.internal_state,
    {
        let mut ret = self;
        ret.tag = Some(tag);
        meta.set_tag(tag, ret.id);
        ret
    }

    /// Initial cache build from the model; see
    /// [`Self::update_with_context_model`].
    pub fn with_context_model(self, messages_model: &mut MessagesModel) -> (r: RightSpace)
        ensures
            r.id == self.id,
            r.tag == self.tag,
            *final(messages_model) == *old(messages_model),
            spec_viewer_cache(r.internal_state, *old(messages_model)),
            r.internal_state.vertical_scroll == self.internal_state.vertical_scroll,
            r.internal_state.horizontal_scroll == self.internal_state.horizontal_scroll,
    {
        let mut ret = self;
        ret.update_with_context_model(messages_model);
        ret
    }

    /// Per-frame cache rebuild. A bound session whose messages have not
    /// arrived yet (or whose fetch failed) renders as a single loading
    /// placeholder line; an unbound viewer renders nothing.
    pub fn update_with_context_model(&mut self, messages_model: &mut MessagesModel)
        ensures
            final(self).id == old(self).id,
            final(self).tag == old(self).tag,
            *final(messages_model) == *old(messages_model),
            spec_viewer_cache(final(self).internal_state, *old(messages_model)),
            final(self).internal_state.vertical_scroll == old(
                self,
            ).internal_state.vertical_scroll,
            final(self).internal_state.horizontal_scroll == old(
                self,
            ).internal_state.horizontal_scroll,
    {
        let mut messages: Vec<(String, String)> = Vec::new();
        let title: String;
        match &messages_model.bind {
            Some(session_name) => {
                let mut t = String::new();
                t.append("Messages from ");
                let label = session_label(session_name);
                t.append(label.as_str());
                title = t;
                match messages_model.get_model_data() {
                    RemoteData::Success(data) => {
                        let mut k: usize = 0;
                        while k < data.len()
                            invariant
                                k <= data@.len(),
                                messages@.len() == k,
                                forall|t: int|
                                    0 <= t < k ==> (#[trigger] messages@[t]).0@ == "kevin"@
                                        && messages@[t].1@ == spec_message_line(data@[t]),
                            decreases data@.len() - k,
                        {
                            messages.push(("kevin".to_owned(), message_line(&data[k])));
                            k = k + 1;
                        }
                    },
                    _ => {
                        messages.push(("PIXAL".to_owned(), "messages is loading...".to_owned()));
                    },
                }
            },
            None => {
                title = "No Session Selected".to_owned();
            },
        }
        self.internal_state.title = title;
        self.internal_state.messages = messages;
    }

    /// The viewer's bindings: `j`/`k` scroll vertically and `h`/`l`
    /// horizontally, saturating at the ends; each is handled as a no-op
    /// action. Everything else is handed back unhandled.
    pub fn handle_terminal_event(&mut self, event: TerminalEvent) -> (r: TerminalEventResult)
        ensures
            final(self).id == old(self).id,
            final(self).tag == old(self).tag,
            final(self).internal_state.messages == old(self).internal_state.messages,
            final(self).internal_state.title == old(self).internal_state.title,
            match event {
                TerminalEvent::Key(k) => {
                    if k.code == KeyCode::Char('j') {
                        &&& r == TerminalEventResult::Handled(Action::Nop)
                        &&& final(self).internal_state.vertical_scroll == sat_add(
                            old(self).internal_state.vertical_scroll,
                        )
                        &&& final(self).internal_state.horizontal_scroll == old(
                            self,
                        ).internal_state.horizontal_scroll
                    } else if k.code == KeyCode::Char('k') {
                        &&& r == TerminalEventResult::Handled(Action::Nop)
                        &&& final(self).internal_state.vertical_scroll == sat_sub(
                            old(self).internal_state.vertical_scroll,
                        )
                        &&& final(self).internal_state.horizontal_scroll == old(
                            self,
                        ).internal_state.horizontal_scroll
                    } else if k.code == KeyCode::Char('h') {
                        &&& r == TerminalEventResult::Handled(Action::Nop)
                        &&& final(self).internal_state.horizontal_scroll == sat_sub(
                            old(self).internal_state.horizontal_scroll,
                        )
                        &&& final(self).internal_state.vertical_scroll == old(
                            self,
                        ).internal_state.vertical_scroll
                    } else if k.code == KeyCode::Char('l') {
                        &&& r == TerminalEventResult::Handled(Action::Nop)
                        &&& final(self).internal_state.horizontal_scroll == sat_add(
                            old(self).internal_state.horizontal_scroll,
                        )
                        &&& final(self).internal_state.vertical_scroll == old(
                            self,
                        ).internal_state.vertical_scroll
                    } else {
                        &&& r == TerminalEventResult::NotHandled(event)
                        &&& final(self).internal_state == old(self).internal_state
                    }
                },
                _ => {
                    &&& r == TerminalEventResult::NotHandled(event)
                    &&& final(self).internal_state == old(self).internal_state
                },
            },
    {
        match event {
            TerminalEvent::Key(key) => {
                if key.code == KeyCode::Char('j') {
                    self.internal_state.vertical_scroll =
                        self.internal_state.vertical_scroll.saturating_add(1);
                    TerminalEventResult::Handled(Action::Nop)
                } else if key.code == KeyCode::Char('k') {
                    self.internal_state.vertical_scroll =
                        self.internal_state.vertical_scroll.saturating_sub(1);
                    TerminalEventResult::Handled(Action::Nop)
                } else if key.code == KeyCode::Char('h') {
                    self.internal_state.horizontal_scroll =
                        self.internal_state.horizontal_scroll.saturating_sub(1);
                    TerminalEventResult::Handled(Action::Nop)
                } else if key.code == KeyCode::Char('l') {
                    self.internal_state.horizontal_scroll =
                        self.internal_state.horizontal_scroll.saturating_add(1);
                    TerminalEventResult::Handled(Action::Nop)
                } else {
                    TerminalEventResult::NotHandled(event)
                }
            },
            _ => TerminalEventResult::NotHandled(event),
        }
    }
}

/// One step up, stopping at the top of the range.
pub open spec fn sat_add(x: usize) -> usize {
    if x == usize::MAX {
        x
    } else {
        (x + 1) as usize
    }
}

/// One step down, stopping at zero.
pub open spec fn sat_sub(x: usize) -> usize {
    if x == 0 {
        x
    } else {
        (x - 1) as usize
    }
}

/// What the viewer's cache holds for a given model state: the title names
/// the bound session; loaded messages each become one `kevin` line; a
/// bound but not-yet-loaded (or failed) session becomes exactly one
/// loading placeholder line; no binding means no lines.
pub open spec fn spec_viewer_cache(st: InternalState, model: MessagesModel) -> bool {
    match model.bind {
        Some(s) => {
            &&& st.title@ == "Messages from "@ + spec_session_label(s)
            &&& match model.messages {
                RemoteData::Success(data) => {
                    &&& st.messages@.len() == data@.len()
                    &&& forall|k: int|
                        0 <= k < data@.len() ==> (#[trigger] st.messages@[k]).0@ == "kevin"@
                            && st.messages@[k].1@ == spec_message_line(data@[k])
                },
                _ => {
                    &&& st.messages@.len() == 1
                    &&& st.messages@[0].0@ == "PIXAL"@
                    &&& st.messages@[0].1@ == "messages is loading..."@
                },
            }
        },
        None => {
            &&& st.title@ == "No Session Selected"@
            &&& st.messages@.len() == 0
        },
    }
}

impl Default for RightSpace {
    fn default() -> (r: RightSpace)
        ensures
            r.id == 0u16,
            r.tag is None,
            r.internal_state.messages@.len() == 0,
            r.internal_state.vertical_scroll == 0,
            r.internal_state.horizontal_scroll == 0,
    {
        RightSpace::new()
    }
}

} // verus!
