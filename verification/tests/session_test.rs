use termchat::app::{classify_event, login_intent, App, IncomingEvent, LoginIntent, WsEventKind};
use termchat::config::Config;
use termchat::events::{KeyCode, KeyEvent};
use termchat::models::{Channel, ChannelMember, DirectMessage, Message, User, WsEnvelope, WsPayload};
use termchat::state::{AppState, ConversationKind, Modal, Screen, MAX_MESSAGES};

fn channel(id: i64, name: &str) -> Channel {
    Channel {
        id,
        name: name.to_string(),
        description: String::new(),
        owner_id: 1,
        is_private: false,
        created_at: String::new(),
    }
}

fn user(id: i64, name: &str) -> User {
    User { id, username: name.to_string(), created_at: String::new() }
}

fn message(id: i64, channel_id: i64) -> Message {
    Message {
        id,
        channel_id,
        author_id: 2,
        author_username: "bob".to_string(),
        content: format!("m{}", id),
        created_at: String::new(),
    }
}

fn dm(id: i64, sender_id: i64, recipient_id: i64) -> DirectMessage {
    DirectMessage {
        id,
        sender_id,
        sender_username: "bob".to_string(),
        recipient_id,
        content: String::new(),
        created_at: String::new(),
    }
}

fn member(id: i64) -> ChannelMember {
    ChannelMember { user_id: id, username: format!("u{}", id), joined_at: String::new() }
}

#[test]
fn app_keeps_its_config() {
    let config = Config::from_environment(Some("http://h".to_string()), None);
    let app = App::new(config);
    assert_eq!(app.config.server_url, "http://h");
}

#[test]
fn login_intent_only_on_login_screen() {
    let enter = KeyEvent { code: KeyCode::Enter, control: false, alt: false };
    let reg = KeyEvent { code: KeyCode::Char('r'), control: true, alt: false };
    let r = KeyEvent { code: KeyCode::Char('r'), control: false, alt: false };
    assert_eq!(login_intent(Screen::Login, enter), LoginIntent::Login);
    assert_eq!(login_intent(Screen::Login, reg), LoginIntent::Register);
    assert_eq!(login_intent(Screen::Login, r), LoginIntent::Nothing);
    assert_eq!(login_intent(Screen::Main, enter), LoginIntent::Nothing);
}

#[test]
fn login_flow() {
    let mut s = AppState::new();
    s.login_username = "alice".to_string();
    s.login_password = "secret".to_string();
    s.login_error = Some("x".to_string());
    let req = s.begin_login();
    assert_eq!(req.username, "alice");
    assert_eq!(req.password, "secret");
    assert_eq!(s.login_status.as_deref(), Some("Logging in..."));
    assert!(s.login_error.is_none());
    s.fail_login("unauthorized: bad password");
    assert_eq!(s.login_error.as_deref(), Some("unauthorized: bad password"));
    assert!(s.login_status.is_none());
    let reg = s.begin_register();
    assert_eq!(reg.username, "alice");
    assert_eq!(s.login_status.as_deref(), Some("Registering..."));
    let again = reg.login_request();
    assert_eq!(again.username, "alice");
    assert_eq!(again.password, "secret");
    s.finish_login(user(1, "alice"));
    assert_eq!(s.screen, Screen::Main);
    assert!(s.login_status.is_none());
    assert_eq!(s.my_user_id(), 1);
}

#[test]
fn directory_subscription_and_history() {
    let mut s = AppState::new();
    s.current_user = Some(user(1, "alice"));
    s.apply_directory(Some(vec![channel(5, "b"), channel(6, "a")]), None);
    assert_eq!(s.channels.len(), 2);
    assert!(s.users.is_empty());
    s.apply_directory(None, Some(vec![user(1, "alice"), user(2, "bob"), user(3, "carol")]));
    assert_eq!(s.channels.len(), 2);
    let env = s.subscription_envelope();
    assert_eq!(env.event_type, "subscribe");
    match env.payload {
        WsPayload::Subscribe { channel_ids, dm_user_ids } => {
            assert_eq!(channel_ids, vec![5, 6]);
            assert_eq!(dm_user_ids, vec![2, 3]);
        }
        _ => panic!("wrong payload"),
    }
    assert_eq!(s.channel_ids(), vec![5, 6]);
    s.apply_channel_history(5, vec![message(1, 5), message(2, 5)]);
    s.apply_channel_history(5, vec![message(3, 5)]);
    assert_eq!(s.channel_messages[&5].len(), 3);
    assert_eq!(s.channel_messages[&5][2].id, 3);
    s.select_first_channel();
    assert_eq!(s.active_conversation, Some(ConversationKind::Channel(5)));
    s.fail_ws_connect("refused");
    assert_eq!(s.status_message.as_deref(), Some("WS connect failed: refused"));
}

#[test]
fn dm_history_is_appended_and_scrolls() {
    let mut s = AppState::new();
    s.select_dm(4);
    assert_eq!(s.take_pending_dm_history(), Some(4));
    assert_eq!(s.take_pending_dm_history(), None);
    s.chat_scroll = 7;
    s.apply_dm_history(4, vec![dm(1, 4, 1), dm(2, 1, 4)]);
    assert_eq!(s.dm_messages[&4].len(), 2);
    assert_eq!(s.chat_scroll, 0);
    s.chat_scroll = 7;
    s.apply_dm_history(9, vec![dm(3, 9, 1)]);
    assert_eq!(s.chat_scroll, 7);
}

#[test]
fn message_cache_keeps_the_newest() {
    let mut s = AppState::new();
    for i in 0..(MAX_MESSAGES as i64 + 1) {
        s.add_channel_message(message(i, 3));
    }
    let q = &s.channel_messages[&3];
    assert_eq!(q.len(), MAX_MESSAGES);
    assert_eq!(q[0].id, 1);
    assert_eq!(q[q.len() - 1].id, MAX_MESSAGES as i64);
    assert_eq!(s.unread_channels[&3], MAX_MESSAGES + 1);
}

#[test]
fn dm_sent_and_received_share_a_conversation() {
    let mut s = AppState::new();
    s.add_dm_message(dm(1, 1, 7), 1);
    s.add_dm_message(dm(2, 7, 1), 1);
    assert_eq!(s.dm_messages[&7].len(), 2);
    assert_eq!(s.unread_dms[&7], 2);
    s.select_dm(7);
    assert!(s.pending_dm_history.is_none());
    s.chat_scroll = 3;
    s.add_dm_message(dm(3, 7, 1), 1);
    assert_eq!(s.unread_dms.get(&7), None);
    assert_eq!(s.chat_scroll, 0);
}

#[test]
fn create_channel_success_sorts_and_selects() {
    let mut s = AppState::new();
    s.channels = vec![channel(1, "beta"), channel(2, "delta")];
    s.open_create_channel();
    s.modal = Modal::CreateChannel {
        name: "  charlie ".to_string(),
        description: " d ".to_string(),
        is_private: true,
        field: termchat::state::CreateChannelField::Name,
        error: None,
    };
    assert!(s.take_create_channel().is_none());
    s.pending_create_channel = true;
    let draft = s.take_create_channel().expect("draft");
    assert!(!s.pending_create_channel);
    assert_eq!(draft.trimmed_name(), "charlie");
    assert_eq!(draft.trimmed_description(), "d");
    let send = s.finish_create_channel(draft, Ok(channel(9, "charlie")), true);
    let names: Vec<&str> = s.channels.iter().map(|c| c.name.as_str()).collect();
    assert_eq!(names, vec!["beta", "charlie", "delta"]);
    assert_eq!(s.status_message.as_deref(), Some("Created channel #  charlie "));
    assert!(!s.modal.is_open());
    assert_eq!(s.active_conversation, Some(ConversationKind::Channel(9)));
    let env: WsEnvelope = send.expect("subscribe");
    assert_eq!(env.event_type, "subscribe");
    match env.payload {
        WsPayload::Subscribe { channel_ids, dm_user_ids } => {
            assert_eq!(channel_ids, vec![9]);
            assert!(dm_user_ids.is_empty());
        }
        _ => panic!("wrong payload"),
    }
}

#[test]
fn create_channel_failure_shows_error() {
    let mut s = AppState::new();
    s.open_create_channel();
    s.pending_create_channel = true;
    let draft = s.take_create_channel().expect("draft");
    let send = s.finish_create_channel(draft, Err("conflict: name taken".to_string()), false);
    assert!(send.is_none());
    match &s.modal {
        Modal::CreateChannel { error, .. } => {
            assert_eq!(error.as_deref(), Some("conflict: name taken"))
        }
        _ => panic!("popup closed"),
    }
    assert!(s.channels.is_empty());
}

#[test]
fn offline_creation_sends_nothing() {
    let mut s = AppState::new();
    s.open_create_channel();
    s.pending_create_channel = true;
    let draft = s.take_create_channel().unwrap();
    assert!(s.finish_create_channel(draft, Ok(channel(1, "a")), false).is_none());
    assert_eq!(s.channels.len(), 1);
}

#[test]
fn member_lists_load_into_matching_popup() {
    let mut s = AppState::new();
    s.open_members_list(3);
    assert_eq!(s.take_load_members(), Some(3));
    s.finish_load_members(4, Ok(vec![member(1)]));
    assert!(matches!(&s.modal, Modal::MembersList { loading: true, .. }));
    s.finish_load_members(3, Ok(vec![member(1), member(2)]));
    match &s.modal {
        Modal::MembersList { members, loading, .. } => {
            assert_eq!(members.len(), 2);
            assert!(!loading);
        }
        _ => panic!("popup closed"),
    }
    s.finish_load_members(3, Err("forbidden: no".to_string()));
    assert!(!s.modal.is_open());
    assert_eq!(s.status_message.as_deref(), Some("Members load failed: forbidden: no"));

    s.open_remove_member(3);
    assert_eq!(s.take_load_members_remove(), Some(3));
    s.finish_load_members_remove(3, Ok(vec![member(5)]));
    assert!(matches!(&s.modal, Modal::RemoveMember { cursor: 0, loading: false, .. }));
}

#[test]
fn add_and_remove_member_results() {
    let mut s = AppState::new();
    s.open_add_member(2);
    s.pending_add_member = Some((2, 7));
    assert_eq!(s.take_add_member(), Some((2, 7)));
    s.finish_add_member(2, Err("forbidden: owner only".to_string()));
    match &s.modal {
        Modal::AddMember { error, channel_id, .. } => {
            assert_eq!(*channel_id, 2);
            assert_eq!(error.as_deref(), Some("forbidden: owner only"));
        }
        _ => panic!("popup closed"),
    }
    s.finish_add_member(2, Ok(()));
    assert!(!s.modal.is_open());
    assert_eq!(s.status_message.as_deref(), Some("User added"));

    s.modal = Modal::RemoveMember {
        channel_id: 2,
        members: vec![member(1), member(2), member(3)],
        cursor: 2,
        loading: false,
    };
    s.pending_remove_member = Some((2, 3));
    assert_eq!(s.take_remove_member(), Some((2, 3)));
    assert!(!s.finish_remove_member(Err("nope".to_string())));
    assert_eq!(s.status_message.as_deref(), Some("Remove failed: nope"));
    assert!(s.finish_remove_member(Ok(())));
    assert_eq!(s.status_message.as_deref(), Some("User removed"));
    s.refresh_remove_members(2, vec![member(1), member(2)]);
    assert!(matches!(&s.modal, Modal::RemoveMember { cursor: 1, .. }));
    s.refresh_remove_members(2, vec![]);
    assert!(matches!(&s.modal, Modal::RemoveMember { cursor: 0, .. }));
}

#[test]
fn join_and_logout() {
    let mut s = AppState::new();
    s.pending_self_join = Some(4);
    assert_eq!(s.take_self_join(), Some(4));
    s.finish_self_join(Ok(()));
    assert_eq!(s.status_message.as_deref(), Some("Joined channel"));
    s.finish_self_join(Err("private channel".to_string()));
    assert_eq!(s.status_message.as_deref(), Some("Join failed: private channel"));

    s.current_user = Some(user(1, "a"));
    s.screen = Screen::Main;
    s.channels = vec![channel(1, "x")];
    s.pending_logout = true;
    assert!(s.take_logout());
    assert!(!s.take_logout());
    s.finish_logout();
    assert_eq!(s.screen, Screen::Login);
    assert!(s.current_user.is_none());
    assert!(s.channels.is_empty());
    assert_eq!(s.status_message.as_deref(), Some("Logged out"));
}

#[test]
fn pushed_envelopes() {
    assert_eq!(classify_event("message.new"), WsEventKind::ChannelMessage);
    assert_eq!(classify_event("dm.new"), WsEventKind::DirectMessage);
    assert_eq!(classify_event("error"), WsEventKind::ServerError);
    assert_eq!(classify_event("message.new "), WsEventKind::Other);
    let mut s = AppState::new();
    s.current_user = Some(user(1, "a"));
    let ev = IncomingEvent::DirectMessage(dm(1, 1, 5));
    assert!(s.event_fits(&ev));
    s.apply_ws_event(ev);
    assert_eq!(s.dm_messages[&5].len(), 1);
    s.apply_ws_event(IncomingEvent::ChannelMessage(message(1, 2)));
    assert_eq!(s.unread_channels[&2], 1);
    s.apply_ws_event(IncomingEvent::ServerError("boom".to_string()));
    assert_eq!(s.status_message.as_deref(), Some("Server error: boom"));
    s.apply_ws_event(IncomingEvent::Ignored);
    assert_eq!(s.status_message.as_deref(), Some("Server error: boom"));
    s.unread_channels.insert(2, usize::MAX);
    assert!(!s.event_fits(&IncomingEvent::ChannelMessage(message(2, 2))));
}

#[test]
fn unsent_message_is_queued() {
    let mut s = AppState::new();
    s.queue_unsent(WsEnvelope::new(
        "message.send",
        WsPayload::MessageSend { channel_id: 1, content: "hi".to_string() },
    ));
    assert_eq!(s.pending_ws_outbox.len(), 1);
    assert_eq!(s.status_message.as_deref(), Some("Connection issue: message queued for retry"));
}

#[test]
fn all_requests_taken_in_one_go() {
    let mut s = AppState::new();
    s.open_create_channel();
    s.pending_create_channel = true;
    s.pending_load_members = Some(1);
    s.pending_add_member = Some((1, 2));
    s.pending_logout = true;
    let r = s.take_pending_requests();
    assert!(r.create_channel.is_some());
    assert_eq!(r.load_members, Some(1));
    assert_eq!(r.load_members_remove, None);
    assert_eq!(r.add_member, Some((1, 2)));
    assert_eq!(r.remove_member, None);
    assert_eq!(r.self_join, None);
    assert!(r.logout);
    assert!(!s.pending_create_channel && !s.pending_logout);
    assert!(s.pending_load_members.is_none() && s.pending_add_member.is_none());
    let again = s.take_pending_requests();
    assert!(again.create_channel.is_none() && again.load_members.is_none() && !again.logout);
}
