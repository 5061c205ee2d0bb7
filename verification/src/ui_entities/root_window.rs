//! The composite root: owns the four leaf widgets and the shared
//! metadata, wires ids and tags, lays the tree out into blueprints, and
//! routes every terminal event.
//!
//! Routing is two-tier: the key-press-hint observer sees the event first
//! (and never consumes it), then the currently focused leaf is offered
//! the event, and only if that leaf hands it back does the root's global
//! handler act — exactly once, and never for an event the leaf consumed.

use crate::action::{Action, StateModelAction};
use crate::events::{KeyCode, TerminalEvent};
use crate::layout::{split_sidebar_viewer, Rect};
use crate::models::messages::MessagesModel;
use crate::models::sessions::SessionsModel;
use crate::models::state::StateModel;
use crate::ui_entities::blueprints::{Blueprint, EntityRef, UiBlueprints};
use crate::ui_entities::chat_sidebar::{
    spec_next_selection, spec_prev_selection, spec_sidebar_blueprints, LeftSessionList,
};
use crate::ui_entities::fps_hint::FpsHint;
use crate::ui_entities::keypress_hint::{spec_recorded, KeyPressHint};
use crate::ui_entities::message_viewer::{sat_add, sat_sub, RightSpace};
use crate::ui_entities::{TerminalEventResult, UiId, UiMetaData, UiTag};
use vstd::prelude::*;

verus! {

/// The root's global bindings, reached by every event the focused leaf
/// does not recognize: `q` quits, `Tab` advances the focus state, and
/// everything else — ticks, resizes, mouse input, errors, renders and
/// unbound keys — ends as a safe no-op.
pub open spec fn spec_global_action(event: TerminalEvent) -> Action {
    match event {
        TerminalEvent::Key(k) => if k.code == KeyCode::Char('q') {
            Action::Quit
        } else if k.code == KeyCode::Tab {
            Action::StateModel(StateModelAction::NextState)
        } else {
            Action::Nop
        },
        _ => Action::Nop,
    }
}

/// The keys the sidebar consumes.
pub open spec fn spec_sidebar_recognizes(event: TerminalEvent) -> bool {
    event matches TerminalEvent::Key(k) && (k.code == KeyCode::Char('j') || k.code
        == KeyCode::Char('k') || k.code == KeyCode::Enter)
}

/// The keys the message viewer consumes.
pub open spec fn spec_viewer_recognizes(event: TerminalEvent) -> bool {
    event matches TerminalEvent::Key(k) && (k.code == KeyCode::Char('j') || k.code
        == KeyCode::Char('k') || k.code == KeyCode::Char('h') || k.code == KeyCode::Char('l'))
}

/// Whether the leaf holding focus under `state` recognizes the event.
/// The fps hint binds nothing, so under `FPS` focus every event falls
/// through to the global handler.
pub open spec fn spec_focused_recognizes(state: StateModel, event: TerminalEvent) -> bool {
    match state {
        StateModel::Chats => spec_sidebar_recognizes(event),
        StateModel::Messages => spec_viewer_recognizes(event),
        StateModel::FPS => false,
    }
}

pub struct RootWindow {
    pub id: UiId,
    pub tag: Option<UiTag>,
    pub left_session_list: LeftSessionList,
    pub right_space: RightSpace,
    pub fps_hint: FpsHint,
    pub key_press_hint: KeyPressHint,
    /// The shared registry, owned by the root for the duration of one run.
    pub meta_data: UiMetaData,
}

impl RootWindow {
    pub open spec fn inv(self) -> bool {
        self.left_session_list.inv()
    }

    pub fn new() -> (r: RootWindow)
        ensures
            r.id == 0u16,
            r.tag is None,
            r.meta_data.spec_id_counter() == 0u16,
            r.inv(),
    {
        RootWindow {
            id: 0,
            tag: None,
            left_session_list: LeftSessionList::new(),
            right_space: RightSpace::new(),
            fps_hint: FpsHint::new(),
            key_press_hint: KeyPressHint::new(),
            meta_data: UiMetaData::new(),
        }
    }

    /// Take ownership of the shared metadata and obtain the root's own id
    /// from it.
    pub fn with_metadata(self, meta: UiMetaData) -> (r: RootWindow)
        requires
            meta.spec_id_counter() < u16::MAX,
        ensures
            r.id == meta.spec_id_counter(),
            r.meta_data.spec_id_counter() == meta.spec_id_counter() + 1,
            r.meta_data.spec_should_draw() == meta.spec_should_draw(),
            r.meta_data.spec_active() == meta.spec_active(),
            r.meta_data.spec_draw_counter() == meta.spec_draw_counter(),
            forall|t: UiTag| r.meta_data.spec_tag(t) == meta.spec_tag(t),
            r.tag == self.tag,
            r.left_session_list == self.left_session_list,
            r.right_space == self.right_space,
            r.fps_hint == self.fps_hint,
            r.key_press_hint == self.key_press_hint,
    {
        let mut ret = self;
        ret.meta_data = meta;
        ret.id = ret.meta_data.next_id();
        ret
    }

    /// Register the root's id under `tag`.
    pub fn with_tag(self, tag: UiTag) -> (r: RootWindow)
        ensures
            r.tag == Some(tag),
            r.meta_data.spec_tag(tag) == Some(self.id),
            forall|t: UiTag| t != tag ==> r.meta_data.spec_tag(t) == self.meta_data.spec_tag(t),
            r.meta_data.spec_should_draw() == self.meta_data.spec_should_draw(),
            r.meta_data.spec_active() == self.meta_data.spec_active(),
            r.meta_data.spec_id_counter() == self.meta_data.spec_id_counter(),
            r.meta_data.spec_draw_counter() == self.meta_data.spec_draw_counter(),
            r.id == self.id,
            r.left_session_list == self.left_session_list,
            r.right_space == self.right_space,
            r.fps_hint == self.fps_hint,
            r.key_press_hint == self.key_press_hint,
    {
        let mut ret = self;
        ret.tag = Some(tag);
        ret.meta_data.set_tag(tag, ret.id);
        ret
    }

    /// Wire the leaves: each obtains its id, the sidebar and viewer get
    /// their well-known tags, and each builds its initial cache from the
    /// model.
    pub fn with_context_model(
        self,
        sessions: &mut SessionsModel,
        messages: &mut MessagesModel,
        outbox: &mut Vec<Action>,
    ) -> (r: RootWindow)
        requires
            self.meta_data.spec_id_counter() + 4 <= u16::MAX,
            self.left_session_list.inv(),
        ensures
            r.inv(),
            r.id == self.id,
            r.tag == self.tag,
            r.left_session_list.id == self.meta_data.spec_id_counter(),
            r.right_space.id == self.meta_data.spec_id_counter() + 1,
            r.fps_hint.id == self.meta_data.spec_id_counter() + 2,
            r.key_press_hint.id == self.meta_data.spec_id_counter() + 3,
            r.meta_data.spec_id_counter() == self.meta_data.spec_id_counter() + 4,
            r.meta_data.spec_tag(UiTag::ChatSidebar) == Some(r.left_session_list.id),
            r.meta_data.spec_tag(UiTag::MessageViewer) == Some(r.right_space.id),
            r.meta_data.spec_tag(UiTag::RootWindow) == self.meta_data.spec_tag(UiTag::RootWindow),
            r.meta_data.spec_tag(UiTag::InputHint) == self.meta_data.spec_tag(UiTag::InputHint),
            r.meta_data.spec_should_draw() == self.meta_data.spec_should_draw(),
            r.meta_data.spec_active() == self.meta_data.spec_active(),
            r.meta_data.spec_draw_counter() == self.meta_data.spec_draw_counter(),
    {
        let RootWindow {
            id,
            tag,
            left_session_list,
            right_space,
            fps_hint,
            key_press_hint,
            mut meta_data,
        } = self;

        let left_session_list = left_session_list.with_metadata(&mut meta_data).with_context_model(
            sessions,
            outbox,
        ).with_tag(UiTag::ChatSidebar, &mut meta_data);
        let right_space = right_space.with_metadata(&mut meta_data).with_context_model(
            messages,
        ).with_tag(UiTag::MessageViewer, &mut meta_data);
        let fps_hint = fps_hint.with_metadata(&mut meta_data);
        let key_press_hint = key_press_hint.with_metadata(&mut meta_data);

        RootWindow { id, tag, left_session_list, right_space, fps_hint, key_press_hint, meta_data }
    }

    /// Per-frame refresh of the widget caches from the model.
    pub fn update_with_context_model(&mut self, sessions: &mut SessionsModel, outbox: &mut Vec<
        Action,
    >)
        requires
            old(self).inv(),
        ensures
            final(self).inv(),
            final(self).id == old(self).id,
            final(self).tag == old(self).tag,
            final(self).right_space == old(self).right_space,
            final(self).fps_hint == old(self).fps_hint,
            final(self).key_press_hint == old(self).key_press_hint,
            final(self).meta_data == old(self).meta_data,
            final(self).left_session_list.id == old(self).left_session_list.id,
            final(self).left_session_list.tag == old(self).left_session_list.tag,
    {
        self.left_session_list.update_with_context_model(sessions, outbox);
    }

    /// Flatten the tree into one draw pass: the sidebar and viewer split
    /// the area horizontally one layer up, the sidebar's item rows go one
    /// layer above that, and the two hint overlays are pinned to the full
    /// area on the overlay layer so they draw on top.
    pub fn make_blueprints(&self, area: Rect, ui_mgr: &mut UiBlueprints, layer: isize)
        requires
            area.x + area.width <= u16::MAX,
            area.y + area.height <= u16::MAX,
            layer + 2 <= isize::MAX,
        ensures
            exists|left: Rect, right: Rect|
                {
                    &&& left.y == area.y && left.height == area.height
                    &&& right.y == area.y && right.height == area.height
                    &&& area.x <= left.x && left.x + left.width <= area.x + area.width
                    &&& area.x <= right.x && right.x + right.width <= area.x + area.width
                    &&& final(ui_mgr).entries() == old(ui_mgr).entries() + spec_sidebar_blueprints(
                        self.left_session_list,
                        left,
                        (layer + 2) as isize,
                    ) + seq![
                        Blueprint {
                            entity: EntityRef::Sidebar,
                            area: left,
                            layer: (layer + 1) as isize,
                        },
                        Blueprint {
                            entity: EntityRef::Viewer,
                            area: right,
                            layer: (layer + 1) as isize,
                        },
                        Blueprint { entity: EntityRef::FpsHint, area, layer: (layer + 2) as isize },
                        Blueprint {
                            entity: EntityRef::KeyPressHint,
                            area,
                            layer: (layer + 2) as isize,
                        },
                    ]
                },
    {
        let layer1: isize = layer + 1;
        let layer2: isize = layer + 2;

        let chunks = split_sidebar_viewer(area);

        self.left_session_list.make_blueprints(chunks.0, ui_mgr, layer1);
        ui_mgr.add_new_blueprint(EntityRef::Sidebar, chunks.0, layer1);

        ui_mgr.add_new_blueprint(EntityRef::Viewer, chunks.1, layer1);

        ui_mgr.add_new_blueprint(EntityRef::FpsHint, area, layer2);

        ui_mgr.add_new_blueprint(EntityRef::KeyPressHint, area, layer2);

        proof {
            assert(final(ui_mgr).entries() == old(ui_mgr).entries() + spec_sidebar_blueprints(
                self.left_session_list,
                chunks.0,
                (layer + 2) as isize,
            ) + seq![
                Blueprint { entity: EntityRef::Sidebar, area: chunks.0, layer: (layer + 1) as isize },
                Blueprint { entity: EntityRef::Viewer, area: chunks.1, layer: (layer + 1) as isize },
                Blueprint { entity: EntityRef::FpsHint, area, layer: (layer + 2) as isize },
                Blueprint { entity: EntityRef::KeyPressHint, area, layer: (layer + 2) as isize },
            ]);
        }
    }

    /// Route one terminal event. The key-press observer records it first
    /// and never consumes it; then the focused leaf is offered the event;
    /// if the leaf hands it back, the root's global handler produces the
    /// final action. Every event ends handled: either by the focused leaf
    /// or by the global handler — exactly one of the two.
    pub fn handle_terminal_event(&mut self, event: TerminalEvent, state_model: &StateModel) -> (r:
        TerminalEventResult)
        requires
            old(self).inv(),
        ensures
            final(self).inv(),
            final(self).id == old(self).id,
            final(self).tag == old(self).tag,
            final(self).fps_hint == old(self).fps_hint,
            r is Handled,
            // the observer records every key press, whoever handles it
            final(self).key_press_hint.cached_key@ == spec_recorded(
                old(self).key_press_hint.cached_key@,
                old(self).key_press_hint.max_capacity as nat,
                event,
            ),
            final(self).key_press_hint.id == old(self).key_press_hint.id,
            final(self).key_press_hint.tag == old(self).key_press_hint.tag,
            final(self).key_press_hint.title == old(self).key_press_hint.title,
            final(self).key_press_hint.max_capacity == old(self).key_press_hint.max_capacity,
            final(self).left_session_list.id == old(self).left_session_list.id,
            final(self).left_session_list.tag == old(self).left_session_list.tag,
            final(self).left_session_list.items == old(self).left_session_list.items,
            final(self).right_space.id == old(self).right_space.id,
            final(self).right_space.tag == old(self).right_space.tag,
            final(self).right_space.internal_state.messages == old(
                self,
            ).right_space.internal_state.messages,
            final(self).right_space.internal_state.title == old(
                self,
            ).right_space.internal_state.title,
            // focus bubbling: an event the focused leaf does not recognize
            // reaches the global handler exactly once, and nothing but the
            // redraw flag (on Render) changes
            !spec_focused_recognizes(*state_model, event) ==> {
                &&& r == TerminalEventResult::Handled(spec_global_action(event))
                &&& final(self).meta_data.spec_should_draw() == (old(
                    self,
                ).meta_data.spec_should_draw() || event is Render)
                &&& final(self).meta_data.spec_active() == old(self).meta_data.spec_active()
                &&& final(self).meta_data.spec_id_counter() == old(
                    self,
                ).meta_data.spec_id_counter()
                &&& final(self).meta_data.spec_draw_counter() == old(
                    self,
                ).meta_data.spec_draw_counter()
                &&& forall|t: UiTag|
                    final(self).meta_data.spec_tag(t) == old(self).meta_data.spec_tag(t)
                &&& final(self).left_session_list.internal == old(self).left_session_list.internal
                &&& final(self).right_space.internal_state == old(self).right_space.internal_state
            },
            // an event the focused leaf recognizes is consumed there and
            // never reaches the global handler
            spec_focused_recognizes(*state_model, event) ==> final(self).meta_data == old(
                self,
            ).meta_data,
            *state_model == StateModel::Chats && spec_sidebar_recognizes(event) ==> {
                &&& final(self).right_space.internal_state == old(self).right_space.internal_state
                &&& match event {
                    TerminalEvent::Key(k) => {
                        if k.code == KeyCode::Char('j') {
                            &&& r == TerminalEventResult::Handled(Action::Nop)
                            &&& final(self).left_session_list.internal.spec_selected()
                                == spec_next_selection(
                                old(self).left_session_list.internal.spec_selected(),
                                old(self).left_session_list.items@.len() as nat,
                            )
                        } else if k.code == KeyCode::Char('k') {
                            &&& r == TerminalEventResult::Handled(Action::Nop)
                            &&& final(self).left_session_list.internal.spec_selected()
                                == spec_prev_selection(
                                old(self).left_session_list.internal.spec_selected(),
                                old(self).left_session_list.items@.len() as nat,
                            )
                        } else {
                            &&& final(self).left_session_list.internal == old(
                                self,
                            ).left_session_list.internal
                            &&& match old(self).left_session_list.internal.spec_selected() {
                                Some(off) => r matches TerminalEventResult::Handled(a)
                                    && a matches Action::MultiAction(v) && v@ =~= seq![
                                    Action::StateModel(
                                        StateModelAction::SetActive(StateModel::Messages),
                                    ),
                                    Action::MessagesModel(
                                        crate::action::MessagesModelAction::SetBind(
                                            old(self).left_session_list.items@[off as int].id,
                                        ),
                                    ),
                                ],
                                None => r == TerminalEventResult::Handled(Action::Nop),
                            }
                        }
                    },
                    _ => false,
                }
            },
            *state_model == StateModel::Messages && spec_viewer_recognizes(event) ==> {
                &&& final(self).left_session_list.internal == old(self).left_session_list.internal
                &&& match event {
                    TerminalEvent::Key(k) => {
                        &&& r == TerminalEventResult::Handled(Action::Nop)
                        &&& if k.code == KeyCode::Char('j') {
                            final(self).right_space.internal_state.vertical_scroll == sat_add(
                                old(self).right_space.internal_state.vertical_scroll,
                            ) && final(self).right_space.internal_state.horizontal_scroll == old(
                                self,
                            ).right_space.internal_state.horizontal_scroll
                        } else if k.code == KeyCode::Char('k') {
                            final(self).right_space.internal_state.vertical_scroll == sat_sub(
                                old(self).right_space.internal_state.vertical_scroll,
                            ) && final(self).right_space.internal_state.horizontal_scroll == old(
                                self,
                            ).right_space.internal_state.horizontal_scroll
                        } else if k.code == KeyCode::Char('h') {
                            final(self).right_space.internal_state.horizontal_scroll == sat_sub(
                                old(self).right_space.internal_state.horizontal_scroll,
                            ) && final(self).right_space.internal_state.vertical_scroll == old(
                                self,
                            ).right_space.internal_state.vertical_scroll
                        } else {
                            final(self).right_space.internal_state.horizontal_scroll == sat_add(
                                old(self).right_space.internal_state.horizontal_scroll,
                            ) && final(self).right_space.internal_state.vertical_scroll == old(
                                self,
                            ).right_space.internal_state.vertical_scroll
                        }
                    },
                    _ => false,
                }
            },
    {
        let proxied = self.key_press_hint.handle_terminal_event(event);
        let proxied_evt = match proxied {
            TerminalEventResult::NotHandled(evt) => evt,
            TerminalEventResult::Handled(act) => {
                return TerminalEventResult::Handled(act);
            },
        };

        let sub_ent_evt = match state_model {
            StateModel::Chats => self.left_session_list.handle_terminal_event(proxied_evt),
            StateModel::Messages => self.right_space.handle_terminal_event(proxied_evt),
            StateModel::FPS => self.fps_hint.handle_terminal_event(proxied_evt),
        };
        let sub_ent_leftover = match sub_ent_evt {
            TerminalEventResult::NotHandled(evt) => evt,
            TerminalEventResult::Handled(act) => {
                return TerminalEventResult::Handled(act);
            },
        };

        match sub_ent_leftover {
            TerminalEvent::Error | TerminalEvent::Ignore | TerminalEvent::Tick
                | TerminalEvent::Mouse | TerminalEvent::Resize(_, _) => TerminalEventResult::Handled(
                Action::Nop,
            ),
            TerminalEvent::Render => {
                self.meta_data.set_should_draw(true);
                TerminalEventResult::Handled(Action::Nop)
            },
            TerminalEvent::Key(k) => {
                if k.code == KeyCode::Char('q') {
                    TerminalEventResult::Handled(Action::Quit)
                } else if k.code == KeyCode::Tab {
                    TerminalEventResult::Handled(Action::StateModel(StateModelAction::NextState))
                } else {
                    TerminalEventResult::Handled(Action::Nop)
                }
            },
        }
    }
}

impl Default for RootWindow {
    fn default() -> (r: RootWindow)
        ensures
            r.id == 0u16,
            r.tag is None,
            r.meta_data.spec_id_counter() == 0u16,
            r.inv(),
    {
        RootWindow::new()
    }
}

} // verus!
