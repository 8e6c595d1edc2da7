use termchat::events::{handle_key, KeyCode, KeyEvent};
use termchat::models::{Channel, ChannelMember, User, WsPayload};
use termchat::state::{AppState, ConversationKind, CreateChannelField, LoginField, Modal, Screen};

fn key(code: KeyCode) -> KeyEvent {
    KeyEvent { code, control: false, alt: false }
}

fn ctrl(c: char) -> KeyEvent {
    KeyEvent { code: KeyCode::Char(c), control: true, alt: false }
}

fn user(id: i64, name: &str) -> User {
    User { id, username: name.to_string(), created_at: "2026-01-01".to_string() }
}

fn channel(id: i64, name: &str) -> Channel {
    Channel {
        id,
        name: name.to_string(),
        description: String::new(),
        owner_id: 1,
        is_private: false,
        created_at: "2026-01-01".to_string(),
    }
}

fn main_state() -> AppState {
    let mut s = AppState::new();
    s.screen = Screen::Main;
    s.current_user = Some(user(1, "alice"));
    s
}

#[test]
fn login_typing_tab_and_backspace() {
    let mut s = AppState::new();
    for c in "al".chars() {
        handle_key(key(KeyCode::Char(c)), &mut s, false);
    }
    handle_key(key(KeyCode::Tab), &mut s, false);
    assert_eq!(s.login_field, LoginField::Password);
    handle_key(key(KeyCode::Char('p')), &mut s, false);
    handle_key(key(KeyCode::Char('w')), &mut s, false);
    handle_key(key(KeyCode::Backspace), &mut s, false);
    assert_eq!(s.login_username, "al");
    assert_eq!(s.login_password, "p");
    handle_key(key(KeyCode::Tab), &mut s, false);
    assert_eq!(s.login_field, LoginField::Username);
}

#[test]
fn login_enter_and_register_set_status() {
    let mut s = AppState::new();
    s.login_error = Some("old".to_string());
    handle_key(key(KeyCode::Enter), &mut s, false);
    assert_eq!(s.login_status.as_deref(), Some("Logging in..."));
    assert!(s.login_error.is_none());
    let out = handle_key(ctrl('r'), &mut s, false);
    assert!(!out.quit);
    assert_eq!(s.login_status.as_deref(), Some("Registering..."));
    assert_eq!(s.login_username, "");
}

#[test]
fn ctrl_c_quits_on_both_screens() {
    let mut s = AppState::new();
    assert!(handle_key(ctrl('c'), &mut s, false).quit);
    let mut m = main_state();
    assert!(handle_key(ctrl('c'), &mut m, true).quit);
    assert!(!handle_key(key(KeyCode::Char('c')), &mut m, true).quit);
    assert_eq!(m.input_buffer, "c");
}

#[test]
fn enter_online_hands_out_channel_envelope() {
    let mut s = main_state();
    s.select_channel(4);
    for c in "hey".chars() {
        handle_key(key(KeyCode::Char(c)), &mut s, true);
    }
    let out = handle_key(key(KeyCode::Enter), &mut s, true);
    let env = out.send.expect("envelope");
    assert_eq!(env.event_type, "message.send");
    match env.payload {
        WsPayload::MessageSend { channel_id, content } => {
            assert_eq!(channel_id, 4);
            assert_eq!(content, "hey");
        }
        _ => panic!("wrong payload"),
    }
    assert_eq!(s.input_buffer, "");
    assert!(s.pending_ws_outbox.is_empty());
}

#[test]
fn enter_offline_queues_dm_envelope() {
    let mut s = main_state();
    s.select_dm(9);
    handle_key(key(KeyCode::Char('x')), &mut s, false);
    let out = handle_key(key(KeyCode::Enter), &mut s, false);
    assert!(out.send.is_none());
    assert_eq!(s.pending_ws_outbox.len(), 1);
    assert_eq!(s.pending_ws_outbox[0].event_type, "dm.send");
    match &s.pending_ws_outbox[0].payload {
        WsPayload::DmSend { recipient_id, content } => {
            assert_eq!(*recipient_id, 9);
            assert_eq!(content, "x");
        }
        _ => panic!("wrong payload"),
    }
    assert_eq!(s.status_message.as_deref(), Some("Offline: message queued for retry"));
}

#[test]
fn enter_without_conversation_or_text() {
    let mut s = main_state();
    let out = handle_key(key(KeyCode::Enter), &mut s, true);
    assert!(out.send.is_none());
    assert!(s.status_message.is_none());
    handle_key(key(KeyCode::Char('a')), &mut s, true);
    let out = handle_key(key(KeyCode::Enter), &mut s, true);
    assert!(out.send.is_none());
    assert_eq!(s.status_message.as_deref(), Some("Select a channel or DM first"));
    assert_eq!(s.input_buffer, "");
}

#[test]
fn channel_actions_need_a_channel() {
    for c in ['m', 'u', 'k', 'j'] {
        let mut s = main_state();
        handle_key(ctrl(c), &mut s, true);
        assert_eq!(s.status_message.as_deref(), Some("Select a channel first"));
        assert!(!s.modal.is_open());
    }
    let mut s = main_state();
    s.select_channel(3);
    handle_key(ctrl('m'), &mut s, true);
    assert_eq!(s.pending_load_members, Some(3));
    assert!(matches!(s.modal, Modal::MembersList { channel_id: 3, loading: true, .. }));
    let mut s = main_state();
    s.select_channel(3);
    handle_key(ctrl('k'), &mut s, true);
    assert_eq!(s.pending_load_members_remove, Some(3));
    let mut s = main_state();
    s.select_channel(3);
    handle_key(ctrl('j'), &mut s, true);
    assert_eq!(s.pending_self_join, Some(3));
    let mut s = main_state();
    s.select_channel(3);
    handle_key(ctrl('u'), &mut s, true);
    assert!(matches!(s.modal, Modal::AddMember { channel_id: 3, .. }));
}

#[test]
fn page_keys_saturate() {
    let mut s = main_state();
    handle_key(key(KeyCode::PageDown), &mut s, true);
    assert_eq!(s.chat_scroll, 0);
    handle_key(key(KeyCode::PageUp), &mut s, true);
    assert_eq!(s.chat_scroll, 5);
    s.chat_scroll = u16::MAX - 2;
    handle_key(key(KeyCode::PageUp), &mut s, true);
    assert_eq!(s.chat_scroll, u16::MAX);
    s.chat_scroll = 3;
    handle_key(key(KeyCode::PageDown), &mut s, true);
    assert_eq!(s.chat_scroll, 0);
}

#[test]
fn sidebar_navigation_wraps() {
    let mut s = main_state();
    s.channels = vec![channel(1, "general"), channel(2, "random")];
    s.users = vec![user(1, "alice"), user(7, "bob")];
    // nothing active: first row
    handle_key(key(KeyCode::Down), &mut s, true);
    assert_eq!(s.active_conversation, Some(ConversationKind::Channel(1)));
    handle_key(key(KeyCode::Up), &mut s, true);
    assert_eq!(s.active_conversation, Some(ConversationKind::DM(7)));
    assert_eq!(s.pending_dm_history, Some(7));
    handle_key(key(KeyCode::Down), &mut s, true);
    assert_eq!(s.active_conversation, Some(ConversationKind::Channel(1)));
    handle_key(key(KeyCode::Down), &mut s, true);
    assert_eq!(s.active_conversation, Some(ConversationKind::Channel(2)));
    // typing blocks plain arrows, Alt still navigates
    handle_key(key(KeyCode::Char('z')), &mut s, true);
    handle_key(key(KeyCode::Up), &mut s, true);
    assert_eq!(s.active_conversation, Some(ConversationKind::Channel(2)));
    handle_key(KeyEvent { code: KeyCode::Up, control: false, alt: true }, &mut s, true);
    assert_eq!(s.active_conversation, Some(ConversationKind::Channel(1)));
}

#[test]
fn create_channel_popup() {
    let mut s = main_state();
    handle_key(ctrl('n'), &mut s, true);
    handle_key(key(KeyCode::Char(' ')), &mut s, true);
    handle_key(key(KeyCode::Enter), &mut s, true);
    match &s.modal {
        Modal::CreateChannel { name, error, .. } => {
            assert_eq!(name, " ");
            assert_eq!(error.as_deref(), Some("name required"));
        }
        _ => panic!("popup closed"),
    }
    assert!(!s.pending_create_channel);
    handle_key(key(KeyCode::Backspace), &mut s, true);
    for c in "dev".chars() {
        handle_key(key(KeyCode::Char(c)), &mut s, true);
    }
    handle_key(key(KeyCode::Tab), &mut s, true);
    handle_key(key(KeyCode::Char('d')), &mut s, true);
    handle_key(key(KeyCode::Tab), &mut s, true);
    handle_key(key(KeyCode::Char(' ')), &mut s, true);
    handle_key(key(KeyCode::Char('q')), &mut s, true);
    handle_key(key(KeyCode::Enter), &mut s, true);
    match &s.modal {
        Modal::CreateChannel { name, description, is_private, field, .. } => {
            assert_eq!(name, "dev");
            assert_eq!(description, "d");
            assert!(*is_private);
            assert_eq!(*field, CreateChannelField::Privacy);
        }
        _ => panic!("popup closed"),
    }
    assert!(s.pending_create_channel);
    handle_key(key(KeyCode::Esc), &mut s, true);
    assert!(!s.modal.is_open());
}

#[test]
fn channel_list_popup() {
    let mut s = main_state();
    s.channels = vec![channel(1, "a"), channel(2, "b"), channel(3, "c")];
    s.unread_channels.insert(3, 4);
    handle_key(ctrl('l'), &mut s, true);
    handle_key(key(KeyCode::Up), &mut s, true);
    assert!(matches!(s.modal, Modal::ChannelList { cursor: 2 }));
    handle_key(key(KeyCode::Down), &mut s, true);
    assert!(matches!(s.modal, Modal::ChannelList { cursor: 0 }));
    handle_key(key(KeyCode::Up), &mut s, true);
    handle_key(key(KeyCode::Enter), &mut s, true);
    assert!(!s.modal.is_open());
    assert_eq!(s.active_conversation, Some(ConversationKind::Channel(3)));
    assert!(s.unread_channels.get(&3).is_none());
}

#[test]
fn add_member_popup() {
    let mut s = main_state();
    s.users = vec![user(1, "alice"), user(2, "Bob")];
    s.open_add_member(5);
    for c in " bOB ".chars() {
        handle_key(key(KeyCode::Char(c)), &mut s, true);
    }
    handle_key(key(KeyCode::Enter), &mut s, true);
    assert_eq!(s.pending_add_member, Some((5, 2)));
    s.pending_add_member = None;
    for _ in 0..5 {
        handle_key(key(KeyCode::Backspace), &mut s, true);
    }
    for c in "zed ".chars() {
        handle_key(key(KeyCode::Char(c)), &mut s, true);
    }
    handle_key(key(KeyCode::Enter), &mut s, true);
    assert!(s.pending_add_member.is_none());
    match &s.modal {
        Modal::AddMember { error, username_input, .. } => {
            assert_eq!(username_input, "zed ");
            assert_eq!(error.as_deref(), Some("user 'zed' not found"));
        }
        _ => panic!("popup closed"),
    }
}

#[test]
fn remove_member_popup() {
    let mut s = main_state();
    s.modal = Modal::RemoveMember {
        channel_id: 8,
        members: vec![
            ChannelMember { user_id: 10, username: "x".to_string(), joined_at: String::new() },
            ChannelMember { user_id: 11, username: "y".to_string(), joined_at: String::new() },
        ],
        cursor: 0,
        loading: false,
    };
    handle_key(key(KeyCode::Up), &mut s, true);
    handle_key(key(KeyCode::Enter), &mut s, true);
    assert_eq!(s.pending_remove_member, Some((8, 11)));
    handle_key(key(KeyCode::Down), &mut s, true);
    handle_key(key(KeyCode::Enter), &mut s, true);
    assert_eq!(s.pending_remove_member, Some((8, 10)));
}

#[test]
fn members_popup_ignores_keys() {
    let mut s = main_state();
    s.open_members_list(4);
    handle_key(key(KeyCode::Char('q')), &mut s, true);
    handle_key(key(KeyCode::Enter), &mut s, true);
    assert!(matches!(s.modal, Modal::MembersList { channel_id: 4, .. }));
    assert_eq!(s.input_buffer, "");
}

#[test]
fn logout_confirmation() {
    let mut s = main_state();
    handle_key(ctrl('o'), &mut s, true);
    handle_key(key(KeyCode::Char('x')), &mut s, true);
    assert!(matches!(s.modal, Modal::ConfirmLogout));
    handle_key(key(KeyCode::Char('N')), &mut s, true);
    assert!(!s.modal.is_open());
    assert!(!s.pending_logout);
    handle_key(ctrl('o'), &mut s, true);
    handle_key(key(KeyCode::Char('Y')), &mut s, true);
    assert!(!s.modal.is_open());
    assert!(s.pending_logout);
}
