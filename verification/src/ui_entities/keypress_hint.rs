//! The key-press hint: an observer that shows the most recent key presses.
//! It is offered every event before the focused widget, records keys into
//! a bounded ring buffer, and never consumes anything: it always hands the
//! event back so the router can keep going.

use std::collections::VecDeque;

use crate::events::{KeyCode, KeyEvent, KeyModifiers, TerminalEvent};
use crate::text::chars_to_string;
use crate::ui_entities::{TerminalEventResult, UiId, UiMetaData, UiTag};
use vstd::prelude::*;

verus! {

/// The characters one key press contributes to the hint: a glyph for the
/// modifier held, then the character itself for a character key.
pub open spec fn spec_key_repr(k: KeyEvent) -> Seq<char> {
    let modifier = match k.modifiers {
        KeyModifiers::Shift => seq!['\u{f0636}', ' '],
        KeyModifiers::Alt => seq!['\u{f0635}', ' '],
        KeyModifiers::Control => seq!['\u{f0634}'],
        KeyModifiers::Other => Seq::<char>::empty(),
    };
    match k.code {
        KeyCode::Char(c) => modifier.push(c),
        _ => modifier,
    }
}

/// The whole hint text for a sequence of recorded key presses.
pub open spec fn spec_keys_repr(keys: Seq<KeyEvent>) -> Seq<char>
    decreases keys.len(),
{
    if keys.len() == 0 {
        Seq::<char>::empty()
    } else {
        spec_keys_repr(keys.drop_last()) + spec_key_repr(keys.last())
    }
}

/// The ring buffer after one event is offered: a key press is appended,
/// evicting the oldest press once `cap` are held; other events leave the
/// buffer alone.
pub open spec fn spec_recorded(keys: Seq<KeyEvent>, cap: nat, event: TerminalEvent) -> Seq<
    KeyEvent,
> {
    match event {
        TerminalEvent::Key(k) => if keys.len() == cap && keys.len() > 0 {
            keys.drop_first().push(k)
        } else {
            keys.push(k)
        },
        _ => keys,
    }
}

pub struct KeyPressHint {
    pub id: UiId,
    pub tag: Option<UiTag>,
    pub title: String,
    pub max_capacity: usize,
    pub cached_key: VecDeque<KeyEvent>,
}

impl KeyPressHint {
    pub fn new() -> (r: KeyPressHint)
        ensures
            r.id == 0u16,
            r.tag is None,
            r.title@ == "Key Press Hint"@,
            r.max_capacity == 10,
            r.cached_key@.len() == 0,
    {
        KeyPressHint {
            id: 0,
            tag: None,
            title: "Key Press Hint".to_owned(),
            max_capacity: 10,
            cached_key: VecDeque::with_capacity(10),
        }
    }

    /// Attach to the shared metadata: obtain this widget's id.
    pub fn with_metadata(self, meta: &mut UiMetaData) -> (r: KeyPressHint)
        requires
            old(meta).spec_id_counter() < u16::MAX,
        ensures
            r.id == old(meta).spec_id_counter(),
            final(meta).spec_id_counter() == old(meta).spec_id_counter() + 1,
            final(meta).spec_should_draw() == old(meta).spec_should_draw(),
            final(meta).spec_active() == old(meta).spec_active(),
            final(meta).spec_draw_counter() == old(meta).spec_draw_counter(),
            forall|t: UiTag| final(meta).spec_tag(t) == old(meta).spec_tag(t),
            r.tag == self.tag,
            r.title == self.title,
            r.max_capacity == self.max_capacity,
            r.cached_key@ == self.cached_key@,
    {
        let mut ret = self;
        ret.id = meta.next_id();
        ret
    }

    /// Register this widget's id under `tag`.
    pub fn with_tag(self, tag: UiTag, meta: &mut UiMetaData) -> (r: KeyPressHint)
        ensures
            r.tag == Some(tag),
            final(meta).spec_tag(tag) == Some(self.id),
            forall|t: UiTag| t != tag ==> final(meta).spec_tag(t) == old(meta).spec_tag(t),
            final(meta).spec_should_draw() == old(meta).spec_should_draw(),
            final(meta).spec_active() == old(meta).spec_active(),
            final(meta).spec_id_counter() == old(meta).spec_id_counter(),
            final(meta).spec_draw_counter() == old(meta).spec_draw_counter(),
            r.id == self.id,
            r.title == self.title,
            r.max_capacity == self.max_capacity,
            r.cached_key@ == self.cached_key@,
    {
        let mut ret = self;
        ret.tag = Some(tag);
        meta.set_tag(tag, ret.id);
        ret
    }

    /// Record one key press: the buffer grows until it holds
    /// `max_capacity` presses, then evicts the oldest first.
    pub fn add_new_keyevnet(&mut self, event: KeyEvent)
        ensures
            old(self).cached_key@.len() == old(self).max_capacity && old(self).cached_key@.len()
                > 0 ==> final(self).cached_key@ == old(self).cached_key@.drop_first().push(event),
            old(self).cached_key@.len() != old(self).max_capacity || old(self).cached_key@.len()
                == 0 ==> final(self).cached_key@ == old(self).cached_key@.push(event),
            final(self).id == old(self).id,
            final(self).tag == old(self).tag,
            final(self).title == old(self).title,
            final(self).max_capacity == old(self).max_capacity,
    {
        if self.cached_key.len() == self.max_capacity {
            self.cached_key.pop_front();
            self.cached_key.push_back(event);
        } else {
            self.cached_key.push_back(event);
        }
    }

    /// Fade out after inactivity: once the caller's clock says the fresh
    /// interval has elapsed, the recorded presses are cleared.
    pub fn refresh_on_timeout(&mut self, timed_out: bool)
        ensures
            timed_out ==> final(self).cached_key@.len() == 0,
            !timed_out ==> final(self).cached_key@ == old(self).cached_key@,
            final(self).id == old(self).id,
            final(self).tag == old(self).tag,
            final(self).title == old(self).title,
            final(self).max_capacity == old(self).max_capacity,
    {
        if timed_out {
            self.cached_key.clear();
        }
    }

    /// The hint text for the recorded presses, oldest first.
    pub fn get_string_representatin(&self) -> (r: String)
        ensures
            r@ == spec_keys_repr(self.cached_key@),
    {
        let mut chars: Vec<char> = Vec::new();
        let mut i: usize = 0;
        while i < self.cached_key.len()
            invariant
                i <= self.cached_key@.len(),
                chars@ == spec_keys_repr(self.cached_key@.take(i as int)),
            decreases self.cached_key@.len() - i,
        {
            let k = *&self.cached_key[i];
            match k.modifiers {
                KeyModifiers::Shift => {
                    chars.push('\u{f0636}');
                    chars.push(' ');
                },
                KeyModifiers::Alt => {
                    chars.push('\u{f0635}');
                    chars.push(' ');
                },
                KeyModifiers::Control => {
                    chars.push('\u{f0634}');
                },
                KeyModifiers::Other => {},
            }
            match k.code {
                KeyCode::Char(c) => {
                    chars.push(c);
                },
                _ => {},
            }
            proof {
                assert(self.cached_key@.take(i + 1).drop_last() == self.cached_key@.take(i as int));
                assert(self.cached_key@.take(i + 1).last() == self.cached_key@[i as int]);
            }
            i = i + 1;
        }
        proof {
            assert(self.cached_key@.take(self.cached_key@.len() as int) == self.cached_key@);
        }
        chars_to_string(&chars)
    }

    /// The observer's event handling: a key press is recorded, and every
    /// event — key or not — is handed back unhandled so the router keeps
    /// routing it.
    pub fn handle_terminal_event(&mut self, event: TerminalEvent) -> (r: TerminalEventResult)
        ensures
            r == TerminalEventResult::NotHandled(event),
            final(self).cached_key@ == spec_recorded(
                old(self).cached_key@,
                old(self).max_capacity as nat,
                event,
            ),
            final(self).id == old(self).id,
            final(self).tag == old(self).tag,
            final(self).title == old(self).title,
            final(self).max_capacity == old(self).max_capacity,
    {
        match event {
            TerminalEvent::Key(k_event) => {
                self.add_new_keyevnet(k_event);
                TerminalEventResult::NotHandled(event)
            },
            _ => TerminalEventResult::NotHandled(event),
        }
    }
}

impl Default for KeyPressHint {
    fn default() -> (r: KeyPressHint)
        ensures
            r.id == 0u16,
            r.tag is None,
            r.title@ == "Key Press Hint"@,
            r.max_capacity == 10,
            r.cached_key@.len() == 0,
    {
        KeyPressHint::new()
    }
}

} // verus!
