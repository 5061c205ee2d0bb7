//! The chat sidebar: a locally cached projection of the session list plus
//! a selection cursor that wraps around. `j`/`k` move the selection;
//! `Enter` binds the message viewer to the selected session and hands
//! focus to the message view.

use crate::action::{Action, MessagesModelAction, StateModelAction};
use crate::events::{KeyCode, TerminalEvent};
use crate::layout::{fixed_row, Rect};
use crate::models::sessions::SessionsModel;
use crate::models::state::StateModel;
use crate::models::{RemoteData, SessionPool};
use crate::ui_entities::blueprints::{Blueprint, EntityRef, UiBlueprints};
use crate::ui_entities::chat_item::ChatItem;
use crate::ui_entities::{TerminalEventResult, UiId, UiMetaData, UiTag};
use vstd::prelude::*;

verus! {

/// The selection cursor and scroll offset of the list.
#[derive(Debug, PartialEq, Eq)]
pub struct InternalState {
    offset: usize,
    selected: Option<usize>,
}

impl InternalState {
    pub closed spec fn spec_offset(self) -> usize {
        self.offset
    }

    pub closed spec fn spec_selected(self) -> Option<usize> {
        self.selected
    }

    fn select(&mut self, index: Option<usize>)
        ensures
            final(self).selected == index,
            final(self).offset == if index is None {
                0usize
            } else {
                old(self).offset
            },
    {
        self.selected = index;
        if index.is_none() {
            self.offset = 0;
        }
    }

    pub fn selected(&self) -> (r: Option<usize>)
        ensures
            r == self.spec_selected(),
    {
        self.selected
    }
}

/// Where the selection cursor stands after one `next()` on a list of `n`
/// items: wraps to the top past the end; a first press selects the top;
/// on an empty list nothing changes.
pub open spec fn spec_next_selection(sel: Option<usize>, n: nat) -> Option<usize> {
    if n == 0 {
        sel
    } else {
        match sel {
            None => Some(0usize),
            Some(i) => if i + 1 >= n {
                Some(0usize)
            } else {
                Some((i + 1) as usize)
            },
        }
    }
}

/// Where the selection cursor stands after one `prev()`: wraps to the
/// bottom past the top; a first press selects the top; on an empty list
/// nothing changes.
pub open spec fn spec_prev_selection(sel: Option<usize>, n: nat) -> Option<usize> {
    if n == 0 {
        sel
    } else {
        match sel {
            None => Some(0usize),
            Some(i) => if i == 0 {
                Some((n - 1) as usize)
            } else {
                Some((i - 1) as usize)
            },
        }
    }
}

/// The cursor after rebuilding the list: a still-valid selection is
/// kept; an unset or out-of-range cursor falls back to the first item of
/// a non-empty list; an empty list has no cursor. So the cursor, if set,
/// is always within the list.
pub open spec fn clamp_selection(sel: Option<usize>, n: nat) -> Option<usize> {
    if n == 0 {
        None
    } else {
        match sel {
            Some(i) => if i < n {
                Some(i)
            } else {
                Some(0usize)
            },
            None => Some(0usize),
        }
    }
}

/// The cursor after `k` consecutive `next()` presses.
pub open spec fn iter_next_selection(sel: Option<usize>, n: nat, k: nat) -> Option<usize>
    decreases k,
{
    if k == 0 {
        sel
    } else {
        spec_next_selection(iter_next_selection(sel, n, (k - 1) as nat), n)
    }
}

/// From a valid index, `k` presses of `next()` land on `(i + k) mod n`.
pub proof fn lemma_next_cycles(i: usize, n: nat, k: nat)
    requires
        i < n,
        n <= usize::MAX,
    ensures
        iter_next_selection(Some(i), n, k) == Some((((i + k) % (n as int)) as usize)),
    decreases k,
{
    if k == 0 {
        vstd::arithmetic::div_mod::lemma_small_mod(i as nat, n);
    } else {
        lemma_next_cycles(i, n, (k - 1) as nat);
        let d = n as int;
        let x = i + k - 1;
        vstd::arithmetic::div_mod::lemma_fundamental_div_mod(x, d);
        vstd::arithmetic::div_mod::lemma_mod_bound(x, d);
        let q = x / d;
        let prev = x % d;
        if prev == d - 1 {
            assert(x + 1 == (q + 1) * d + 0) by (nonlinear_arith)
                requires
                    x == q * d + prev,
                    prev == d - 1,
            ;
            vstd::arithmetic::div_mod::lemma_fundamental_div_mod_converse(x + 1, d, q + 1, 0);
        } else {
            vstd::arithmetic::div_mod::lemma_fundamental_div_mod_converse(x + 1, d, q, prev + 1);
        }
    }
}

/// Round trip of the selection cursor: on a list of `n > 0` items,
/// pressing `next()` exactly `n` times returns the cursor to where it
/// started.
pub proof fn lemma_next_roundtrip(i: usize, n: nat)
    requires
        i < n,
        n <= usize::MAX,
    ensures
        iter_next_selection(Some(i), n, n) == Some(i),
{
    lemma_next_cycles(i, n, n);
    vstd::arithmetic::div_mod::lemma_fundamental_div_mod_converse(
        i + n,
        n as int,
        1,
        i as int,
    );
}

/// Round trip of the selection cursor: from any valid index, `prev()`
/// undoes `next()` and `next()` undoes `prev()`.
pub proof fn lemma_prev_next_roundtrip(i: usize, n: nat)
    requires
        i < n,
        n <= usize::MAX,
    ensures
        spec_prev_selection(spec_next_selection(Some(i), n), n) == Some(i),
        spec_next_selection(spec_prev_selection(Some(i), n), n) == Some(i),
{
}

/// The list's drawing area shrunk by its one-cell border.
pub open spec fn spec_inner_1(area: Rect) -> Rect {
    if area.width < 2 || area.height < 2 {
        Rect { x: 0u16, y: 0u16, width: 0u16, height: 0u16 }
    } else {
        Rect {
            x: (area.x + 1) as u16,
            y: (area.y + 1) as u16,
            width: (area.width - 2) as u16,
            height: (area.height - 2) as u16,
        }
    }
}

/// How many four-cell rows fit: one per item, but no more than the inner
/// area holds.
pub open spec fn spec_num_rows(inner: Rect, n_items: nat) -> nat {
    if ((inner.height / 4) as nat) < n_items {
        (inner.height / 4) as nat
    } else {
        n_items
    }
}

/// The draw obligations the sidebar contributes for its items: one
/// four-cell row per item that fits, stacked from the top of the inner
/// area, all on the given layer.
pub open spec fn spec_sidebar_blueprints(sb: LeftSessionList, area: Rect, layer: isize) -> Seq<
    Blueprint,
> {
    let inner = spec_inner_1(area);
    Seq::new(
        spec_num_rows(inner, sb.items@.len()),
        |k: int|
            Blueprint {
                entity: EntityRef::ChatItem(k as usize),
                area: Rect {
                    x: inner.x,
                    y: (inner.y + 4 * k) as u16,
                    width: inner.width,
                    height: 4u16,
                },
                layer,
            },
    )
}

pub struct LeftSessionList {
    pub id: UiId,
    pub tag: Option<UiTag>,
    pub internal: InternalState,
    pub items: Vec<ChatItem>,
}

impl LeftSessionList {
    /// The selection cursor, if set, always stays within the item list.
    pub open spec fn inv(self) -> bool {
        self.internal.spec_selected() matches Some(i) ==> i < self.items@.len()
    }

    pub fn new() -> (r: LeftSessionList)
        ensures
            r.id == 0u16,
            r.tag is None,
            r.internal.spec_selected() is None,
            r.internal.spec_offset() == 0,
            r.items@.len() == 0,
            r.inv(),
    {
        LeftSessionList {
            id: 0,
            tag: None,
            internal: InternalState { offset: 0, selected: None },
            items: Vec::new(),
        }
    }

    /// Attach to the shared metadata: obtain this widget's id.
    pub fn with_metadata(self, meta: &mut UiMetaData) -> (r: LeftSessionList)
        requires
            old(meta).spec_id_counter() < u16::MAX,
        ensures
            r.id == old(meta).spec_id_counter(),
            final(meta).spec_id_counter() == old(meta).spec_id_counter() + 1,
            final(meta).spec_should_draw() == old(meta).spec_should_draw(),
            final(meta).spec_active() == old(meta).spec_active(),
            final(meta).spec_draw_counter() == old(meta).spec_draw_counter(),
            forall|t: UiTag| final(meta).spec_tag(t) == old(meta).spec_tag(t),
            r.tag == self.tag,
            r.internal == self.internal,
            r.items == self.items,
    {
        let mut ret = self;
        ret.id = meta.next_id();
        ret
    }

    /// Register this widget's id under `tag`.
    pub fn with_tag(self, tag: UiTag, meta: &mut UiMetaData) -> (r: LeftSessionList)
        ensures
            r.tag == Some(tag),
            final(meta).spec_tag(tag) == Some(self.id),
            forall|t: UiTag| t != tag ==> final(meta).spec_tag(t) == old(meta).spec_tag(t),
            final(meta).spec_should_draw() == old(meta).spec_should_draw(),
            final(meta).spec_active() == old(meta).spec_active(),
            final(meta).spec_id_counter() == old(meta).spec_id_counter(),
            final(meta).spec_draw_counter() == old(meta).spec_draw_counter(),
            r.id == self.id,
            r.internal == self.internal,
            r.items == self.items,
    {
        let mut ret = self;
        ret.tag = Some(tag);
        meta.set_tag(tag, ret.id);
        ret
    }

    /// Initial cache build from the model; see
    /// [`Self::update_with_context_model`].
    pub fn with_context_model(self, sessions: &mut SessionsModel, outbox: &mut Vec<Action>) -> (r:
        LeftSessionList)
        requires
            self.inv(),
        ensures
            r.inv(),
            r.id == self.id,
            r.tag == self.tag,
            old(sessions).sessions matches RemoteData::Success(pool) ==> {
                &&& r.items@.len() == pool.0@.len()
                &&& forall|k: int|
                    0 <= k < pool.0@.len() ==> (#[trigger] r.items@[k]).id == pool.0@[k].session
            },
            !(old(sessions).sessions is Success) ==> r.items@.len() == 0,
            r.internal.spec_selected() == clamp_selection(
                self.internal.spec_selected(),
                r.items@.len() as nat,
            ),
            old(sessions).sessions is Uninitialized ==> final(sessions).sessions is Pending
                && final(outbox)@ == old(outbox)@.push(
                Action::SessionsModel(crate::action::SessionsModelAction::Fetch),
            ),
            !(old(sessions).sessions is Uninitialized) ==> *final(sessions) == *old(sessions)
                && final(outbox)@ == old(outbox)@,
    {
        let mut ret = self;
        ret.update_with_context_model(sessions, outbox);
        ret
    }

    /// Per-frame cache rebuild: project the session list into items, keep
    /// the highlight on the selected item, and drop a cursor that no
    /// longer fits. Reading the model may trigger its one-time fetch.
    pub fn update_with_context_model(&mut self, sessions: &mut SessionsModel, outbox: &mut Vec<
        Action,
    >)
        requires
            old(self).inv(),
        ensures
            final(self).inv(),
            final(self).id == old(self).id,
            final(self).tag == old(self).tag,
            old(sessions).sessions matches RemoteData::Success(pool) ==> {
                &&& final(self).items@.len() == pool.0@.len()
                &&& forall|k: int|
                    0 <= k < pool.0@.len() ==> (#[trigger] final(self).items@[k]).id
                        == pool.0@[k].session
                &&& forall|k: int|
                    0 <= k < pool.0@.len() ==> ((#[trigger] final(self).items@[k]).is_highlight
                        <==> final(self).internal.spec_selected() == Some(k as usize))
            },
            !(old(sessions).sessions is Success) ==> final(self).items@.len() == 0,
            final(self).internal.spec_selected() == clamp_selection(
                old(self).internal.spec_selected(),
                final(self).items@.len() as nat,
            ),
            old(sessions).sessions is Uninitialized ==> final(sessions).sessions is Pending
                && final(outbox)@ == old(outbox)@.push(
                Action::SessionsModel(crate::action::SessionsModelAction::Fetch),
            ),
            !(old(sessions).sessions is Uninitialized) ==> *final(sessions) == *old(sessions)
                && final(outbox)@ == old(outbox)@,
    {
        let data = sessions.get_model_data(outbox);
        let mut items: Vec<ChatItem> = Vec::new();
        match data {
            RemoteData::Success(pool) => {
                let mut k: usize = 0;
                while k < pool.0.len()
                    invariant
                        k <= pool.0@.len(),
                        items@.len() == k,
                        forall|t: int|
                            0 <= t < k ==> (#[trigger] items@[t]).id == pool.0@[t].session,
                        forall|t: int| 0 <= t < k ==> !(#[trigger] items@[t]).is_highlight,
                    decreases pool.0@.len() - k,
                {
                    items.push(ChatItem::new(pool.0[k].session.clone()));
                    k = k + 1;
                }
            },
            _ => {},
        }

        let new_selection: Option<usize> = if items.len() == 0 {
            None
        } else {
            match self.internal.selected() {
                Some(i) => if i < items.len() {
                    Some(i)
                } else {
                    Some(0)
                },
                None => Some(0),
            }
        };
        if let Some(select_idx) = new_selection {
            items[select_idx].set_highlight();
        }
        self.internal.select(new_selection);
        self.items = items;
    }

    /// Advance the selection, wrapping past the end; a no-op on an empty
    /// list (it neither panics nor selects anything).
    pub fn next(&mut self)
        requires
            old(self).inv(),
        ensures
            final(self).inv(),
            final(self).internal.spec_selected() == spec_next_selection(
                old(self).internal.spec_selected(),
                old(self).items@.len() as nat,
            ),
            final(self).internal.spec_offset() == old(self).internal.spec_offset(),
            final(self).items == old(self).items,
            final(self).id == old(self).id,
            final(self).tag == old(self).tag,
    {
        if self.items.len() == 0 {
            return ;
        }
        let i: usize = match self.internal.selected() {
            Some(i) => if i + 1 >= self.items.len() {
                0
            } else {
                i + 1
            },
            None => 0,
        };
        self.internal.select(Some(i));
    }

    /// Retreat the selection, wrapping past the top; a no-op on an empty
    /// list (it neither panics nor selects anything).
    pub fn prev(&mut self)
        requires
            old(self).inv(),
        ensures
            final(self).inv(),
            final(self).internal.spec_selected() == spec_prev_selection(
                old(self).internal.spec_selected(),
                old(self).items@.len() as nat,
            ),
            final(self).internal.spec_offset() == old(self).internal.spec_offset(),
            final(self).items == old(self).items,
            final(self).id == old(self).id,
            final(self).tag == old(self).tag,
    {
        if self.items.len() == 0 {
            return ;
        }
        let i: usize = match self.internal.selected() {
            Some(i) => if i == 0 {
                self.items.len() - 1
            } else {
                i - 1
            },
            None => 0,
        };
        self.internal.select(Some(i));
    }

    /// Contribute the item rows to the draw pass: one four-cell row per
    /// item that fits in the inner area, one layer above the list itself.
    pub fn make_blueprints(&self, area: Rect, ui_mgr: &mut UiBlueprints, layer: isize)
        requires
            area.x + area.width <= u16::MAX,
            area.y + area.height <= u16::MAX,
            layer < isize::MAX,
        ensures
            final(ui_mgr).entries() == old(ui_mgr).entries() + spec_sidebar_blueprints(
                *self,
                area,
                (layer + 1) as isize,
            ),
    {
        let ghost orig = ui_mgr.entries();
        let up_layer: isize = layer + 1;
        let inner_area = area.inner(1, 1);
        let height = inner_area.height;
        let num_rows: u16 = height / 4;
        let num: usize = if (num_rows as usize) < self.items.len() {
            num_rows as usize
        } else {
            self.items.len()
        };
        let ghost bps = spec_sidebar_blueprints(*self, area, up_layer);
        let mut idx: usize = 0;
        while idx < num
            invariant
                idx <= num,
                num == spec_num_rows(spec_inner_1(area), self.items@.len()),
                inner_area == spec_inner_1(area),
                inner_area.y + inner_area.height <= u16::MAX,
                num * 4 <= inner_area.height,
                bps == spec_sidebar_blueprints(*self, area, up_layer),
                bps.len() == num,
                ui_mgr.entries() == orig + bps.take(idx as int),
            decreases num - idx,
        {
            let row = fixed_row(inner_area, 4, idx as u16);
            ui_mgr.add_new_blueprint(EntityRef::ChatItem(idx), row, up_layer);
            proof {
                assert(bps.take(idx + 1) == bps.take(idx as int).push(bps[idx as int]));
                assert(orig + bps.take(idx as int).push(bps[idx as int]) == (orig + bps.take(
                    idx as int,
                )).push(bps[idx as int]));
            }
            idx = idx + 1;
        }
        proof {
            assert(bps.take(num as int) == bps);
        }
    }

    pub fn unselect(&mut self)
        ensures
            final(self).internal.spec_selected() is None,
            final(self).internal.spec_offset() == 0,
            final(self).items == old(self).items,
            final(self).id == old(self).id,
            final(self).tag == old(self).tag,
            final(self).inv(),
    {
        self.internal.select(None);
    }

    /// The sidebar's bindings: `j` advances and `k` retreats the
    /// selection (each handled as a no-op action); `Enter` on a selected
    /// item emits the pair of actions that hands focus to the message
    /// view and binds it to that item's session; everything else is
    /// handed back unhandled.
    pub fn handle_terminal_event(&mut self, event: TerminalEvent) -> (r: TerminalEventResult)
        requires
            old(self).inv(),
        ensures
            final(self).inv(),
            final(self).items == old(self).items,
            final(self).id == old(self).id,
            final(self).tag == old(self).tag,
            match event {
                TerminalEvent::Key(k) => {
                    if k.code == KeyCode::Char('j') {
                        &&& r == TerminalEventResult::Handled(Action::Nop)
                        &&& final(self).internal.spec_selected() == spec_next_selection(
                            old(self).internal.spec_selected(),
                            old(self).items@.len() as nat,
                        )
                    } else if k.code == KeyCode::Char('k') {
                        &&& r == TerminalEventResult::Handled(Action::Nop)
                        &&& final(self).internal.spec_selected() == spec_prev_selection(
                            old(self).internal.spec_selected(),
                            old(self).items@.len() as nat,
                        )
                    } else if k.code == KeyCode::Enter {
                        &&& final(self).internal == old(self).internal
                        &&& match old(self).internal.spec_selected() {
                            Some(off) => r matches TerminalEventResult::Handled(a)
                                && a matches Action::MultiAction(v) && v@ =~= seq![
                                Action::StateModel(StateModelAction::SetActive(StateModel::Messages)),
                                Action::MessagesModel(
                                    MessagesModelAction::SetBind(old(self).items@[off as int].id),
                                ),
                            ],
                            None => r == TerminalEventResult::Handled(Action::Nop),
                        }
                    } else {
                        &&& r == TerminalEventResult::NotHandled(event)
                        &&& final(self).internal == old(self).internal
                    }
                },
                _ => {
                    &&& r == TerminalEventResult::NotHandled(event)
                    &&& final(self).internal == old(self).internal
                },
            },
    {
        match event {
            TerminalEvent::Key(k) => {
                if k.code == KeyCode::Char('j') {
                    self.next();
                    TerminalEventResult::Handled(Action::Nop)
                } else if k.code == KeyCode::Char('k') {
                    self.prev();
                    TerminalEventResult::Handled(Action::Nop)
                } else if k.code == KeyCode::Enter {
                    match self.internal.selected() {
                        Some(offset) => {
                            let mut multi: Vec<Action> = Vec::new();
                            multi.push(
                                Action::StateModel(
                                    StateModelAction::SetActive(StateModel::Messages),
                                ),
                            );
                            multi.push(
                                Action::MessagesModel(
                                    MessagesModelAction::SetBind(self.items[offset].id.clone()),
                                ),
                            );
                            TerminalEventResult::Handled(Action::MultiAction(multi))
                        },
                        None => TerminalEventResult::Handled(Action::Nop),
                    }
                } else {
                    TerminalEventResult::NotHandled(event)
                }
            },
            _ => TerminalEventResult::NotHandled(event),
        }
    }
}

} // verus!
