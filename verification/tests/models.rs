use chatui::action::{Action, MessagesModelAction, SessionsModelAction, StateModelAction};
use chatui::models::messages::MessagesModel;
use chatui::models::sessions::SessionsModel;
use chatui::models::state::StateModel;
use chatui::models::{ChatSession, GrpID, RemoteData, UserPool, UsrID};

#[test]
fn remote_data_as_ref_matches_state() {
    let s: RemoteData<u32> = RemoteData::Success(7);
    assert!(matches!(s.as_ref(), RemoteData::Success(&7)));
    let f: RemoteData<u32> = RemoteData::Failed;
    assert!(matches!(f.as_ref(), RemoteData::Failed));
    let p: RemoteData<u32> = RemoteData::Pending;
    assert!(matches!(p.as_ref(), RemoteData::Pending));
    let u: RemoteData<u32> = RemoteData::Uninitialized;
    assert!(matches!(u.as_ref(), RemoteData::Uninitialized));
}

#[test]
fn user_pool_gets_sample_users() {
    let mut pool = UserPool::new();
    assert_eq!(pool.users.len(), 0);
    pool.get_user();
    assert_eq!(pool.users.len(), 2);
    assert_eq!(pool.users[0].id.0, "Alice");
    assert_eq!(pool.users[1].id.0, "Bob");
}

#[test]
fn sessions_model_triggers_fetch_once() {
    let mut model = SessionsModel::new();
    let mut outbox: Vec<Action> = Vec::new();
    // first read: uninitialized, so the accessor requests the fetch once
    assert!(matches!(model.get_model_data(&mut outbox), RemoteData::Pending));
    assert_eq!(outbox, vec![Action::SessionsModel(SessionsModelAction::Fetch)]);
    // second read: pending now, and no second request
    assert!(matches!(model.get_model_data(&mut outbox), RemoteData::Pending));
    assert_eq!(outbox.len(), 1);
}

#[test]
fn sessions_model_fetch_and_set() {
    let mut model = SessionsModel::new();
    let mut outbox: Vec<Action> = Vec::new();
    let pool = SessionsModel::fetch();
    assert_eq!(pool.0.len(), 3);
    assert_eq!(pool.0[0].unread_msg, 0);
    assert_eq!(pool.0[1].unread_msg, 1);
    assert_eq!(pool.0[2].unread_msg, 5);
    assert!(matches!(&pool.0[2].session, ChatSession::Group(g) if g.0 == "Nordic Nostalgia"));
    model.handle_action(SessionsModelAction::SetSessions(pool), &mut outbox);
    assert!(outbox.is_empty());
    assert!(matches!(&model.sessions, RemoteData::Success(p) if p.0.len() == 3));
}

#[test]
fn sessions_model_reload_requests_fetch() {
    let mut model = SessionsModel::new();
    let mut outbox: Vec<Action> = Vec::new();
    model.handle_action(SessionsModelAction::Reload, &mut outbox);
    assert!(matches!(model.sessions, RemoteData::Pending));
    assert_eq!(outbox, vec![Action::SessionsModel(SessionsModelAction::Fetch)]);
}

#[test]
fn messages_model_bind_resets_and_requests() {
    let mut model = MessagesModel::new();
    let mut outbox: Vec<Action> = Vec::new();
    assert!(model.bind.is_none());
    let target = ChatSession::Group(GrpID("Nordic Nostalgia".to_string()));
    model.handle_action(MessagesModelAction::SetBind(target), &mut outbox);
    assert!(matches!(&model.bind, Some(ChatSession::Group(g)) if g.0 == "Nordic Nostalgia"));
    assert!(matches!(model.messages, RemoteData::Pending));
    assert_eq!(outbox, vec![Action::MessagesModel(MessagesModelAction::Fetch)]);
}

#[test]
fn messages_fetch_contents() {
    let bot = ChatSession::WithOther(UsrID("SystemBotRaphina".to_string()));
    let got = MessagesModel::fetch(bot);
    assert_eq!(got.len(), 1);
    assert_eq!(got[0].0, "Hello, I'm Raphina. I'm a bot.");

    let other = ChatSession::WithOther(UsrID("Alice".to_string()));
    let got = MessagesModel::fetch(other);
    assert_eq!(got.len(), 99);
    assert_eq!(got[0].0, "1");
    assert_eq!(got[9].0, "10");
    assert_eq!(got[98].0, "99");
}

#[test]
fn messages_model_set_messages() {
    let mut model = MessagesModel::new();
    let mut outbox: Vec<Action> = Vec::new();
    model.handle_action(
        MessagesModelAction::SetBind(ChatSession::WithOther(UsrID("Alice".to_string()))),
        &mut outbox,
    );
    let data = MessagesModel::fetch(ChatSession::WithOther(UsrID("Alice".to_string())));
    model.handle_action(MessagesModelAction::SetMessages(data), &mut outbox);
    assert!(matches!(&model.messages, RemoteData::Success(v) if v.len() == 99));
}

#[test]
fn state_model_cycles() {
    let mut s = StateModel::new();
    assert_eq!(s, StateModel::Chats);
    s.handle_action(StateModelAction::NextState);
    assert_eq!(s, StateModel::Messages);
    s.handle_action(StateModelAction::NextState);
    assert_eq!(s, StateModel::FPS);
    s.handle_action(StateModelAction::NextState);
    assert_eq!(s, StateModel::Chats);
    s.handle_action(StateModelAction::SetActive(StateModel::Messages));
    assert_eq!(s, StateModel::Messages);
}
