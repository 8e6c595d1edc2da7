use termchat::config::Config;
use termchat::events::{handle_key, KeyCode, KeyEvent};
use termchat::models::{Channel, User};
use termchat::state::{AppState, ConversationKind, CreateChannelField, Modal, Screen};

fn key(code: KeyCode) -> KeyEvent {
    KeyEvent { code, control: false, alt: false }
}

fn channel(id: i64, name: &str) -> Channel {
    Channel {
        id,
        name: name.to_string(),
        description: String::new(),
        owner_id: 1,
        is_private: false,
        created_at: String::new(),
    }
}

#[test]
fn navigate_down_then_up_returns() {
    let mut s = AppState::new();
    s.screen = Screen::Main;
    s.current_user = Some(User { id: 1, username: "me".to_string(), created_at: String::new() });
    s.channels = vec![channel(1, "a"), channel(2, "b")];
    s.users = vec![User { id: 5, username: "x".to_string(), created_at: String::new() }];
    for start in [ConversationKind::Channel(1), ConversationKind::Channel(2), ConversationKind::DM(5)] {
        s.active_conversation = Some(start);
        handle_key(key(KeyCode::Down), &mut s, true);
        assert_ne!(s.active_conversation, Some(start));
        handle_key(key(KeyCode::Up), &mut s, true);
        assert_eq!(s.active_conversation, Some(start));
    }
}

#[test]
fn cursor_down_then_up_returns() {
    let mut s = AppState::new();
    s.screen = Screen::Main;
    s.channels = vec![channel(1, "a"), channel(2, "b"), channel(3, "c")];
    for c in 0..3 {
        s.modal = Modal::ChannelList { cursor: c };
        handle_key(key(KeyCode::Down), &mut s, true);
        handle_key(key(KeyCode::Up), &mut s, true);
        assert!(matches!(s.modal, Modal::ChannelList { cursor } if cursor == c));
    }
}

#[test]
fn create_tab_cycles_in_three() {
    let mut s = AppState::new();
    s.screen = Screen::Main;
    s.open_create_channel();
    for _ in 0..3 {
        handle_key(key(KeyCode::Tab), &mut s, true);
    }
    assert!(matches!(s.modal, Modal::CreateChannel { field: CreateChannelField::Name, .. }));
}

#[test]
fn typing_then_deleting_restores_input() {
    let mut s = AppState::new();
    s.screen = Screen::Main;
    s.input_buffer = "ab".to_string();
    handle_key(key(KeyCode::Char('é')), &mut s, true);
    handle_key(key(KeyCode::Backspace), &mut s, true);
    assert_eq!(s.input_buffer, "ab");
}

#[test]
fn esc_closes_every_popup() {
    let mut s = AppState::new();
    s.screen = Screen::Main;
    for open in 0..6 {
        match open {
            0 => s.open_create_channel(),
            1 => s.open_channel_list(),
            2 => s.open_members_list(1),
            3 => s.open_add_member(1),
            4 => s.open_remove_member(1),
            _ => s.open_confirm_logout(),
        }
        let out = handle_key(key(KeyCode::Esc), &mut s, true);
        assert!(!out.quit);
        assert!(!s.modal.is_open());
    }
}

#[test]
fn saved_token_reads_back() {
    let token = "eyJhbGciOiJIUzI1NiJ9.e30.sig";
    assert_eq!(Config::token_from_contents(Some(token.to_string())).as_deref(), Some(token));
}

#[test]
fn whitespace_channel_name_is_rejected() {
    let mut s = AppState::new();
    s.screen = Screen::Main;
    s.open_create_channel();
    for c in [' ', '\t', '\u{a0}'] {
        handle_key(key(KeyCode::Char(c)), &mut s, true);
    }
    handle_key(key(KeyCode::Enter), &mut s, true);
    assert!(!s.pending_create_channel);
}
