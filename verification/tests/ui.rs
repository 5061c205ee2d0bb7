use chatui::action::{Action, MessagesModelAction, SessionsModelAction, StateModelAction};
use chatui::events::{KeyCode, KeyEvent, KeyModifiers, TerminalEvent};
use chatui::layout::Rect;
use chatui::models::messages::MessagesModel;
use chatui::models::sessions::SessionsModel;
use chatui::models::state::StateModel;
use chatui::models::{ChatSession, RemoteData};
use chatui::ui_entities::blueprints::{EntityRef, UiBlueprints};
use chatui::ui_entities::fps_hint::FpsHint;
use chatui::ui_entities::keypress_hint::KeyPressHint;
use chatui::ui_entities::chat_sidebar::LeftSessionList;
use chatui::ui_entities::root_window::RootWindow;
use chatui::ui_entities::{TerminalEventResult, UiMetaData, UiTag};

fn key(c: char) -> TerminalEvent {
    TerminalEvent::Key(KeyEvent { code: KeyCode::Char(c), modifiers: KeyModifiers::Other })
}

fn code(k: KeyCode) -> TerminalEvent {
    TerminalEvent::Key(KeyEvent { code: k, modifiers: KeyModifiers::Other })
}

#[test]
fn metadata_ids_and_tags() {
    let mut meta = UiMetaData::new();
    assert_eq!(meta.next_id(), 0);
    assert_eq!(meta.next_id(), 1);
    assert_eq!(meta.next_id(), 2);
    // lookup miss is an explicit None, not a panic
    assert_eq!(meta.get_id(&UiTag::ChatSidebar), None);
    meta.set_tag(UiTag::ChatSidebar, 1);
    assert_eq!(meta.get_id(&UiTag::ChatSidebar), Some(1));
    // last registration wins
    meta.set_tag(UiTag::ChatSidebar, 2);
    assert_eq!(meta.get_id(&UiTag::ChatSidebar), Some(2));
    assert_eq!(meta.get_id(&UiTag::MessageViewer), None);
}

#[test]
fn focus_by_tag_fails_on_unknown_tag() {
    let mut meta = UiMetaData::new();
    let _ = meta.next_id();
    let _ = meta.next_id();
    // unknown tag: explicit failure, focus unchanged
    assert_eq!(meta.set_active_with_tag(UiTag::MessageViewer), Err(chatui::ui_entities::NotFound));
    assert_eq!(meta.get_active(), 0);
    meta.set_tag(UiTag::MessageViewer, 1);
    assert_eq!(meta.set_active_with_tag(UiTag::MessageViewer), Ok(()));
    assert_eq!(meta.get_active(), 1);
}

#[test]
fn metadata_round_robin_focus() {
    let mut meta = UiMetaData::new();
    let _ = meta.next_id();
    let _ = meta.next_id();
    let _ = meta.next_id();
    assert_eq!(meta.get_active(), 0);
    meta.next_active();
    assert_eq!(meta.get_active(), 1);
    meta.next_active();
    assert_eq!(meta.get_active(), 2);
    meta.next_active();
    assert_eq!(meta.get_active(), 0);
}

#[test]
fn draw_counter_counts_flushes() {
    let mut meta = UiMetaData::new();
    // K consecutive completed draw passes advance the counter by exactly K
    for k in 1..=5u64 {
        meta.increment_draw_counter();
        assert_eq!(meta.get_draw_counter(), k);
    }
    // and the fps hint's sample sees the whole count since its last sample
    let mut fps = FpsHint::new();
    assert_eq!(fps.sample_draw_delta(meta.get_draw_counter()), 5);
    assert_eq!(fps.sample_draw_delta(meta.get_draw_counter()), 0);
}

#[test]
fn fps_delta_handles_wraparound() {
    let mut fps = FpsHint::new();
    fps.last_draw_counter = 10;
    assert_eq!(fps.sample_draw_delta(25), 15);
    assert_eq!(fps.last_draw_counter, 25);
    // counter wrapped past the largest value
    fps.last_draw_counter = u64::MAX - 3;
    assert_eq!(fps.sample_draw_delta(2), 5);
}

#[test]
fn blueprint_flush_orders_by_layer() {
    let area = Rect::new(0, 0, 10, 10);
    let mut bps = UiBlueprints::new();
    bps.add_new_blueprint(EntityRef::Sidebar, area, 3);
    bps.add_new_blueprint(EntityRef::Viewer, area, 1);
    bps.add_new_blueprint(EntityRef::FpsHint, area, 2);
    bps.add_new_blueprint(EntityRef::KeyPressHint, area, 1);
    let pass = bps.flush();
    let layers: Vec<isize> = pass.iter().map(|bp| bp.layer).collect();
    assert_eq!(layers, vec![1, 1, 2, 3]);
    // the two layer-1 entries are the two that were added at layer 1
    assert!(pass[0].entity == EntityRef::Viewer || pass[0].entity == EntityRef::KeyPressHint);
    assert!(pass[1].entity == EntityRef::Viewer || pass[1].entity == EntityRef::KeyPressHint);
    assert!(pass[0].entity != pass[1].entity);
    assert_eq!(pass[2].entity, EntityRef::FpsHint);
    assert_eq!(pass[3].entity, EntityRef::Sidebar);
    // the collector is drained and ready for the next frame
    let next_pass = bps.flush();
    assert!(next_pass.is_empty());
}

/// Build a root window whose sidebar already sees the three fetched
/// sessions.
fn loaded_root() -> (RootWindow, SessionsModel, MessagesModel, Vec<Action>) {
    let mut sessions = SessionsModel::new();
    let mut messages = MessagesModel::new();
    let mut outbox: Vec<Action> = Vec::new();
    sessions.handle_action(
        SessionsModelAction::SetSessions(SessionsModel::fetch()),
        &mut outbox,
    );
    let mut root = RootWindow::default()
        .with_metadata(UiMetaData::new())
        .with_context_model(&mut sessions, &mut messages, &mut outbox);
    root.update_with_context_model(&mut sessions, &mut outbox);
    (root, sessions, messages, outbox)
}

#[test]
fn sidebar_selection_round_trip() {
    let (mut root, mut sessions, _messages, mut outbox) = loaded_root();
    assert_eq!(root.left_session_list.items.len(), 3);
    let chats = StateModel::Chats;
    // the freshly loaded list starts on its first entry
    assert_eq!(root.left_session_list.internal.selected(), Some(0));
    // N presses of `j` on N items come back to the start
    for _ in 0..3 {
        let _ = root.handle_terminal_event(key('j'), &chats);
    }
    assert_eq!(root.left_session_list.internal.selected(), Some(0));
    // `k` undoes `j` from any index
    let _ = root.handle_terminal_event(key('j'), &chats);
    assert_eq!(root.left_session_list.internal.selected(), Some(1));
    let _ = root.handle_terminal_event(key('k'), &chats);
    assert_eq!(root.left_session_list.internal.selected(), Some(0));
    // and `k` wraps backwards onto the last entry
    let _ = root.handle_terminal_event(key('k'), &chats);
    assert_eq!(root.left_session_list.internal.selected(), Some(2));
    // the refresh keeps a valid cursor where it is
    root.update_with_context_model(&mut sessions, &mut outbox);
    assert_eq!(root.left_session_list.internal.selected(), Some(2));
    assert!(root.left_session_list.items[2].is_highlight);
    assert!(!root.left_session_list.items[0].is_highlight);
}

#[test]
fn empty_sidebar_cursor_is_safe() {
    let mut list = LeftSessionList::new();
    assert_eq!(list.items.len(), 0);
    list.next();
    assert_eq!(list.internal.selected(), None);
    list.prev();
    assert_eq!(list.internal.selected(), None);
}

#[test]
fn end_to_end_bind_and_quit() {
    let (mut root, _sessions, _messages, _outbox) = loaded_root();
    let chats = StateModel::Chats;
    // two `j` presses walk from the first to the third session
    let r1 = root.handle_terminal_event(key('j'), &chats);
    assert_eq!(r1, TerminalEventResult::Handled(Action::Nop));
    let _ = root.handle_terminal_event(key('j'), &chats);
    let r2 = root.handle_terminal_event(code(KeyCode::Enter), &chats);
    match r2 {
        TerminalEventResult::Handled(Action::MultiAction(actions)) => {
            assert_eq!(actions.len(), 2);
            assert_eq!(
                actions[0],
                Action::StateModel(StateModelAction::SetActive(StateModel::Messages))
            );
            match &actions[1] {
                Action::MessagesModel(MessagesModelAction::SetBind(ChatSession::Group(g))) => {
                    assert_eq!(g.0, "Nordic Nostalgia");
                },
                other => panic!("expected a bind to the group session, got {:?}", other),
            }
        },
        other => panic!("expected a two-action bundle, got {:?}", other),
    }
    // `q` quits whichever widget holds focus
    let r3 = root.handle_terminal_event(key('q'), &StateModel::Messages);
    assert_eq!(r3, TerminalEventResult::Handled(Action::Quit));
    let r4 = root.handle_terminal_event(key('q'), &StateModel::Chats);
    assert_eq!(r4, TerminalEventResult::Handled(Action::Quit));
}

#[test]
fn unrecognized_event_reaches_global_handler() {
    let (mut root, _sessions, _messages, _outbox) = loaded_root();
    // an unbound key under sidebar focus falls through to the global no-op
    let r = root.handle_terminal_event(key('x'), &StateModel::Chats);
    assert_eq!(r, TerminalEventResult::Handled(Action::Nop));
    // Tab is global: it advances the focus state
    let r = root.handle_terminal_event(code(KeyCode::Tab), &StateModel::Chats);
    assert_eq!(
        r,
        TerminalEventResult::Handled(Action::StateModel(StateModelAction::NextState))
    );
    // Render is global: it sets the redraw flag and stays a no-op
    assert!(!root.meta_data.get_should_draw());
    let r = root.handle_terminal_event(TerminalEvent::Render, &StateModel::Chats);
    assert_eq!(r, TerminalEventResult::Handled(Action::Nop));
    assert!(root.meta_data.get_should_draw());
    // `h` under sidebar focus is not a sidebar key: it bubbles to a no-op,
    // while under viewer focus the viewer consumes it
    let r = root.handle_terminal_event(key('h'), &StateModel::Chats);
    assert_eq!(r, TerminalEventResult::Handled(Action::Nop));
    let before = root.right_space.internal_state.horizontal_scroll;
    let r = root.handle_terminal_event(key('l'), &StateModel::Messages);
    assert_eq!(r, TerminalEventResult::Handled(Action::Nop));
    assert_eq!(root.right_space.internal_state.horizontal_scroll, before + 1);
}

#[test]
fn viewer_scrolls_saturate() {
    let (mut root, _sessions, _messages, _outbox) = loaded_root();
    let messages_focus = StateModel::Messages;
    assert_eq!(root.right_space.internal_state.vertical_scroll, 0);
    // `k` at the top stays at the top
    let _ = root.handle_terminal_event(key('k'), &messages_focus);
    assert_eq!(root.right_space.internal_state.vertical_scroll, 0);
    let _ = root.handle_terminal_event(key('j'), &messages_focus);
    let _ = root.handle_terminal_event(key('j'), &messages_focus);
    assert_eq!(root.right_space.internal_state.vertical_scroll, 2);
    let _ = root.handle_terminal_event(key('h'), &messages_focus);
    assert_eq!(root.right_space.internal_state.horizontal_scroll, 0);
}

#[test]
fn loading_placeholder_for_fresh_bind() {
    let mut messages = MessagesModel::new();
    let mut outbox: Vec<Action> = Vec::new();
    messages.handle_action(
        MessagesModelAction::SetBind(ChatSession::WithOther(chatui::models::UsrID(
            "Alice".to_string(),
        ))),
        &mut outbox,
    );
    assert!(matches!(messages.messages, RemoteData::Pending));
    let mut viewer = chatui::ui_entities::message_viewer::RightSpace::new();
    viewer.update_with_context_model(&mut messages);
    // a bound session whose fetch has not resolved renders one loading line
    assert_eq!(viewer.internal_state.messages.len(), 1);
    assert_eq!(viewer.internal_state.messages[0].0, "PIXAL");
    assert_eq!(viewer.internal_state.messages[0].1, "messages is loading...");
    assert_eq!(
        viewer.internal_state.title,
        "Messages from WithOther(UsrID(\"Alice\"))"
    );

    // once the data arrives, the real lines replace the placeholder
    let data = MessagesModel::fetch(ChatSession::WithOther(chatui::models::UsrID(
        "Alice".to_string(),
    )));
    messages.handle_action(MessagesModelAction::SetMessages(data), &mut outbox);
    viewer.update_with_context_model(&mut messages);
    assert_eq!(viewer.internal_state.messages.len(), 99);
    assert_eq!(viewer.internal_state.messages[0].0, "kevin");
    assert_eq!(
        viewer.internal_state.messages[0].1,
        "[message content of MsgID(\"1\")]"
    );
}

#[test]
fn keypress_ring_buffer_evicts_oldest() {
    let mut hint = KeyPressHint::new();
    for c in "abcdefghijk".chars() {
        let ev = key(c);
        let r = hint.handle_terminal_event(ev);
        // the observer never consumes the event
        assert_eq!(r, TerminalEventResult::NotHandled(ev));
    }
    assert_eq!(hint.cached_key.len(), 10);
    // 'a' was evicted; the representation shows b through k
    assert_eq!(hint.get_string_representatin(), "bcdefghijk");
    // non-key events are not recorded
    let r = hint.handle_terminal_event(TerminalEvent::Tick);
    assert_eq!(r, TerminalEventResult::NotHandled(TerminalEvent::Tick));
    assert_eq!(hint.cached_key.len(), 10);
    // and after the fade-out interval the buffer clears
    hint.refresh_on_timeout(false);
    assert_eq!(hint.cached_key.len(), 10);
    hint.refresh_on_timeout(true);
    assert_eq!(hint.cached_key.len(), 0);
}

#[test]
fn keypress_representation_shows_modifiers() {
    let mut hint = KeyPressHint::new();
    let _ = hint.handle_terminal_event(TerminalEvent::Key(KeyEvent {
        code: KeyCode::Char('c'),
        modifiers: KeyModifiers::Control,
    }));
    let _ = hint.handle_terminal_event(TerminalEvent::Key(KeyEvent {
        code: KeyCode::Char('s'),
        modifiers: KeyModifiers::Shift,
    }));
    assert_eq!(hint.get_string_representatin(), "\u{f0634}c\u{f0636} s");
}

#[test]
fn root_window_wires_ids_and_tags() {
    let (root, _sessions, _messages, _outbox) = loaded_root();
    assert_eq!(root.id, 0);
    assert_eq!(root.left_session_list.id, 1);
    assert_eq!(root.right_space.id, 2);
    assert_eq!(root.fps_hint.id, 3);
    assert_eq!(root.key_press_hint.id, 4);
    assert_eq!(root.meta_data.get_id(&UiTag::ChatSidebar), Some(1));
    assert_eq!(root.meta_data.get_id(&UiTag::MessageViewer), Some(2));
    assert_eq!(root.meta_data.get_id(&UiTag::RootWindow), None);
}

#[test]
fn root_blueprints_cover_widgets_in_layer_order() {
    let (root, _sessions, _messages, _outbox) = loaded_root();
    let mut bps = UiBlueprints::new();
    let area = Rect::new(0, 0, 80, 24);
    root.make_blueprints(area, &mut bps, 0);
    let pass = bps.flush();
    // base content first, overlays last
    for w in pass.windows(2) {
        assert!(w[0].layer <= w[1].layer);
    }
    let sidebar = pass.iter().find(|bp| bp.entity == EntityRef::Sidebar).unwrap();
    let viewer = pass.iter().find(|bp| bp.entity == EntityRef::Viewer).unwrap();
    let fps = pass.iter().find(|bp| bp.entity == EntityRef::FpsHint).unwrap();
    let hint = pass.iter().find(|bp| bp.entity == EntityRef::KeyPressHint).unwrap();
    assert_eq!(sidebar.layer, 1);
    assert_eq!(viewer.layer, 1);
    assert_eq!(fps.layer, 2);
    assert_eq!(hint.layer, 2);
    // the overlays are pinned to the full area
    assert_eq!(fps.area, area);
    assert_eq!(hint.area, area);
    // the sidebar and viewer split the area side by side
    assert_eq!(sidebar.area.height, 24);
    assert_eq!(viewer.area.height, 24);
    assert_eq!(sidebar.area.width + viewer.area.width, 80);
    // one row per item of the loaded list, above the list itself
    let rows: Vec<_> = pass
        .iter()
        .filter(|bp| matches!(bp.entity, EntityRef::ChatItem(_)))
        .collect();
    assert_eq!(rows.len(), 3);
    for bp in rows {
        assert_eq!(bp.layer, 2);
        assert_eq!(bp.area.height, 4);
    }
}
