//! Shared UI metadata: the registry every widget in one running UI tree
//! shares. It hands out entity ids, maps well-known tags to ids, tracks the
//! focused entity, the redraw flag, and the draw counter.

use crate::action::Action;
use crate::events::TerminalEvent;
use vstd::prelude::*;

pub mod blueprints;
pub mod chat_item;
pub mod chat_sidebar;
pub mod fps_hint;
pub mod keypress_hint;
pub mod message_viewer;
pub mod root_window;

verus! {

/// Identity of one widget within a running UI tree.
pub type UiId = u16;

/// What a widget's event handler reports: either the event was recognized
/// and became exactly one action, or it is handed back unchanged so the
/// router can bubble it to the parent.
#[derive(Debug, PartialEq, Eq)]
pub enum TerminalEventResult {
    Handled(Action),
    NotHandled(TerminalEvent),
}

/// Stable symbolic name for a well-known widget, used to look a widget's id
/// up without threading references through constructors.
#[derive(Clone, Copy, PartialEq, Eq, Structural, Debug)]
pub enum UiTag {
    RootWindow,
    ChatSidebar,
    MessageViewer,
    InputHint,
}

/// The tag table: at most one id is registered per tag; the last
/// registration for a tag wins.
pub struct TagTable {
    root_window: Option<UiId>,
    chat_sidebar: Option<UiId>,
    message_viewer: Option<UiId>,
    input_hint: Option<UiId>,
}

impl TagTable {
    /// The id registered for `tag`, if any.
    pub closed spec fn spec_get(self, tag: UiTag) -> Option<UiId> {
        match tag {
            UiTag::RootWindow => self.root_window,
            UiTag::ChatSidebar => self.chat_sidebar,
            UiTag::MessageViewer => self.message_viewer,
            UiTag::InputHint => self.input_hint,
        }
    }

    pub fn new() -> (r: TagTable)
        ensures
            forall|t: UiTag| r.spec_get(t) is None,
    {
        TagTable { root_window: None, chat_sidebar: None, message_viewer: None, input_hint: None }
    }

    pub fn get(&self, tag: UiTag) -> (r: Option<UiId>)
        ensures
            r == self.spec_get(tag),
    {
        match tag {
            UiTag::RootWindow => self.root_window,
            UiTag::ChatSidebar => self.chat_sidebar,
            UiTag::MessageViewer => self.message_viewer,
            UiTag::InputHint => self.input_hint,
        }
    }

    pub fn set(&mut self, tag: UiTag, id: UiId)
        ensures
            final(self).spec_get(tag) == Some(id),
            forall|t: UiTag| t != tag ==> final(self).spec_get(t) == old(self).spec_get(t),
    {
        match tag {
            UiTag::RootWindow => self.root_window = Some(id),
            UiTag::ChatSidebar => self.chat_sidebar = Some(id),
            UiTag::MessageViewer => self.message_viewer = Some(id),
            UiTag::InputHint => self.input_hint = Some(id),
        }
    }
}

/// One step of the draw counter: it wraps to zero on overflow instead of
/// erroring.
pub open spec fn wrap_inc(c: u64) -> u64 {
    if c == u64::MAX {
        0
    } else {
        (c + 1) as u64
    }
}

/// The draw counter after `k` consecutive completed draw passes starting
/// from `c`.
pub open spec fn wrap_inc_n(c: u64, k: nat) -> u64
    decreases k,
{
    if k == 0 {
        c
    } else {
        wrap_inc(wrap_inc_n(c, (k - 1) as nat))
    }
}

/// Draw-counter monotonicity: after `k` consecutive completed draw passes,
/// the counter holds `(initial + k)` modulo one more than the largest
/// representable value.
pub proof fn lemma_draw_counter_after_flushes(c: u64, k: nat)
    ensures
        wrap_inc_n(c, k) == (c + k) % (u64::MAX + 1),
    decreases k,
{
    if k > 0 {
        lemma_draw_counter_after_flushes(c, (k - 1) as nat);
        let m = u64::MAX + 1;
        let prev = (c + k - 1) % m;
        vstd::arithmetic::div_mod::lemma_fundamental_div_mod(c + k - 1, m);
        vstd::arithmetic::div_mod::lemma_fundamental_div_mod_converse(
            c + k,
            m,
            if prev == m - 1 {
                (c + k - 1) / m + 1
            } else {
                (c + k - 1) / m
            },
            if prev == m - 1 {
                0
            } else {
                prev + 1
            },
        );
    }
}

/// Failure of a tag lookup: no entity is registered under the tag. The
/// caller handles it — typically by skipping the focus change — rather
/// than panicking.
#[derive(Debug, Clone, Copy, PartialEq, Eq, Structural)]
pub struct NotFound;

/// Registry shared by every widget of one UI tree: entity-id allocation,
/// tag lookup, current focus, the redraw flag and the draw counter. It is
/// created when the tree is built and lives exactly as long as the tree.
pub struct UiMetaData {
    should_draw: bool,
    current_active: UiId,
    id_counter: u16,
    draw_counter: u64,
    tag_to_id: TagTable,
}

impl UiMetaData {
    pub closed spec fn spec_should_draw(self) -> bool {
        self.should_draw
    }

    pub closed spec fn spec_active(self) -> UiId {
        self.current_active
    }

    pub closed spec fn spec_id_counter(self) -> u16 {
        self.id_counter
    }

    pub closed spec fn spec_draw_counter(self) -> u64 {
        self.draw_counter
    }

    pub closed spec fn spec_tag(self, tag: UiTag) -> Option<UiId> {
        self.tag_to_id.spec_get(tag)
    }

    pub fn new() -> (r: UiMetaData)
        ensures
            !r.spec_should_draw(),
            r.spec_active() == 0u16,
            r.spec_id_counter() == 0u16,
            r.spec_draw_counter() == 0u64,
            forall|t: UiTag| r.spec_tag(t) is None,
    {
        UiMetaData {
            current_active: 0,
            should_draw: false,
            id_counter: 0,
            draw_counter: 0,
            tag_to_id: TagTable::new(),
        }
    }

    /// A fresh id, strictly greater than every id issued before in this
    /// run. Exhaustion of the id space is out of scope for realistic tree
    /// sizes, so the capacity is a precondition.
    pub fn next_id(&mut self) -> (ret: UiId)
        requires
            old(self).spec_id_counter() < u16::MAX,
        ensures
            ret == old(self).spec_id_counter(),
            final(self).spec_id_counter() == old(self).spec_id_counter() + 1,
            final(self).spec_should_draw() == old(self).spec_should_draw(),
            final(self).spec_active() == old(self).spec_active(),
            final(self).spec_draw_counter() == old(self).spec_draw_counter(),
            forall|t: UiTag| final(self).spec_tag(t) == old(self).spec_tag(t),
    {
        let ret = self.id_counter;
        self.id_counter = ret + 1;
        ret
    }

    pub fn get_active(&self) -> (r: UiId)
        ensures
            r == self.spec_active(),
    {
        self.current_active
    }

    pub fn get_should_draw(&self) -> (r: bool)
        ensures
            r == self.spec_should_draw(),
    {
        self.should_draw
    }

    pub fn get_draw_counter(&self) -> (r: u64)
        ensures
            r == self.spec_draw_counter(),
    {
        self.draw_counter
    }

    pub fn set_should_draw(&mut self, should_draw: bool)
        ensures
            final(self).spec_should_draw() == should_draw,
            final(self).spec_active() == old(self).spec_active(),
            final(self).spec_id_counter() == old(self).spec_id_counter(),
            final(self).spec_draw_counter() == old(self).spec_draw_counter(),
            forall|t: UiTag| final(self).spec_tag(t) == old(self).spec_tag(t),
    {
        self.should_draw = should_draw;
    }

    /// Round-robin focus: advance to the next ever-issued id, wrapping
    /// around. At least one id must have been issued.
    pub fn next_active(&mut self)
        requires
            old(self).spec_id_counter() > 0,
        ensures
            final(self).spec_active() == ((old(self).spec_active() + 1) % (old(
                self,
            ).spec_id_counter() as int)) as u16,
            final(self).spec_should_draw() == old(self).spec_should_draw(),
            final(self).spec_id_counter() == old(self).spec_id_counter(),
            final(self).spec_draw_counter() == old(self).spec_draw_counter(),
            forall|t: UiTag| final(self).spec_tag(t) == old(self).spec_tag(t),
    {
        let id = ((self.current_active as u32 + 1) % (self.id_counter as u32)) as u16;
        self.current_active = id;
    }

    /// Register `id` under `tag`; the last registration for a tag wins.
    pub fn set_tag(&mut self, tag: UiTag, id: UiId)
        ensures
            final(self).spec_tag(tag) == Some(id),
            forall|t: UiTag| t != tag ==> final(self).spec_tag(t) == old(self).spec_tag(t),
            final(self).spec_should_draw() == old(self).spec_should_draw(),
            final(self).spec_active() == old(self).spec_active(),
            final(self).spec_id_counter() == old(self).spec_id_counter(),
            final(self).spec_draw_counter() == old(self).spec_draw_counter(),
    {
        self.tag_to_id.set(tag, id);
    }

    pub fn set_active(&mut self, id: UiId)
        ensures
            final(self).spec_active() == id,
            final(self).spec_should_draw() == old(self).spec_should_draw(),
            final(self).spec_id_counter() == old(self).spec_id_counter(),
            final(self).spec_draw_counter() == old(self).spec_draw_counter(),
            forall|t: UiTag| final(self).spec_tag(t) == old(self).spec_tag(t),
    {
        self.current_active = id;
    }

    pub fn get_id(&self, tag: &UiTag) -> (r: Option<UiId>)
        ensures
            r == self.spec_tag(*tag),
    {
        self.tag_to_id.get(*tag)
    }

    /// Focus the widget registered under `tag`; an unknown tag is an
    /// explicit failure and leaves the focus unchanged.
    pub fn set_active_with_tag(&mut self, tag: UiTag) -> (r: Result<(), NotFound>)
        ensures
            match old(self).spec_tag(tag) {
                Some(id) => r is Ok && final(self).spec_active() == id,
                None => r matches Err(e) && e == NotFound && final(self).spec_active() == old(
                    self,
                ).spec_active(),
            },
            final(self).spec_should_draw() == old(self).spec_should_draw(),
            final(self).spec_id_counter() == old(self).spec_id_counter(),
            final(self).spec_draw_counter() == old(self).spec_draw_counter(),
            forall|t: UiTag| final(self).spec_tag(t) == old(self).spec_tag(t),
    {
        match self.tag_to_id.get(tag) {
            Some(id) => {
                self.current_active = id;
                Ok(())
            },
            None => Err(NotFound),
        }
    }

    /// One completed draw pass: the counter only ever increases, except
    /// that it wraps to zero on overflow instead of erroring.
    pub fn increment_draw_counter(&mut self)
        ensures
            final(self).spec_draw_counter() == wrap_inc(old(self).spec_draw_counter()),
            final(self).spec_should_draw() == old(self).spec_should_draw(),
            final(self).spec_active() == old(self).spec_active(),
            final(self).spec_id_counter() == old(self).spec_id_counter(),
            forall|t: UiTag| final(self).spec_tag(t) == old(self).spec_tag(t),
    {
        match self.draw_counter.checked_add(1) {
            None => self.draw_counter = 0,
            Some(x) => self.draw_counter = x,
        }
    }
}

impl Default for UiMetaData {
    fn default() -> (r: UiMetaData)
        ensures
            !r.spec_should_draw(),
            r.spec_active() == 0u16,
            r.spec_id_counter() == 0u16,
            r.spec_draw_counter() == 0u64,
            forall|t: UiTag| r.spec_tag(t) is None,
    {
        UiMetaData::new()
    }
}

} // verus!
