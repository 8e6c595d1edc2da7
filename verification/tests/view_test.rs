use termchat::models::{Channel, ChannelMember, DirectMessage, Message, User};
use termchat::state::{AppState, ConversationKind};
use termchat::view::{
    add_member_title, channel_list_row, chat_lines, chat_title, format_time, highlighted_row,
    inner_area, input_title, masked_password, member_row, members_title, privacy_line,
    remove_member_title, sidebar_rows, Area, LineTone,
};

fn channel(id: i64, name: &str, private: bool) -> Channel {
    Channel {
        id,
        name: name.to_string(),
        description: "desc".to_string(),
        owner_id: 1,
        is_private: private,
        created_at: String::new(),
    }
}

fn user(id: i64, name: &str) -> User {
    User { id, username: name.to_string(), created_at: String::new() }
}

#[test]
fn time_stamps() {
    assert_eq!(format_time("2026-04-07T12:34:56Z"), "12:34");
    assert_eq!(format_time("2026-04-07 12:34:56"), "12:34");
    assert_eq!(format_time("short"), "short");
    assert_eq!(format_time("2026-04-07T12:3"), "2026-04-07T12:3");
    // byte 11 falls inside the two-byte 'é'
    assert_eq!(format_time("2026-04-07é12:34:56"), "2026-04-07é12:34:56");
}

#[test]
fn titles() {
    let mut s = AppState::new();
    assert_eq!(chat_title(&s), " Select a channel or DM ");
    s.channels = vec![channel(1, "general", false)];
    s.users = vec![user(2, "bob")];
    s.select_channel(1);
    assert_eq!(chat_title(&s), " # general ");
    s.select_channel(5);
    assert_eq!(chat_title(&s), " Chat ");
    s.select_dm(2);
    assert_eq!(chat_title(&s), " @ bob ");
    s.select_dm(3);
    assert_eq!(chat_title(&s), " DM ");
    assert_eq!(members_title(&s, 1), " Members of #general ");
    assert_eq!(members_title(&s, 9), " Members ");
    assert_eq!(add_member_title(&s, 1), " Add user to #general ");
    assert_eq!(add_member_title(&s, 9), " Add user ");
    assert_eq!(remove_member_title(&s, 1), " Remove user from #general ");
    assert_eq!(remove_member_title(&s, 9), " Remove user ");
    assert_eq!(input_title(&s), " Message (Enter to send, Esc for sidebar) ");
    s.set_status("Joined channel");
    assert_eq!(input_title(&s), " Joined channel ");
}

#[test]
fn chat_pane_lines() {
    let mut s = AppState::new();
    let lines = chat_lines(&s);
    assert_eq!(lines.len(), 1);
    assert_eq!(lines[0].content, "Select a channel or DM from the sidebar");
    assert_eq!(lines[0].tone, LineTone::Hint);
    s.select_channel(1);
    assert_eq!(chat_lines(&s)[0].content, "No messages yet. Start typing!");
    s.add_channel_message(Message {
        id: 1,
        channel_id: 1,
        author_id: 2,
        author_username: "bob".to_string(),
        content: "hello".to_string(),
        created_at: "2026-04-07T09:05:00Z".to_string(),
    });
    let lines = chat_lines(&s);
    assert_eq!(lines.len(), 1);
    assert_eq!(lines[0].stamp, "[09:05] ");
    assert_eq!(lines[0].label, "bob: ");
    assert_eq!(lines[0].content, "hello");
    assert_eq!(lines[0].tone, LineTone::ChannelAuthor);

    s.current_user = Some(user(1, "alice"));
    s.select_dm(2);
    assert_eq!(chat_lines(&s)[0].content, "No messages yet.");
    for (sender, recipient) in [(1, 2), (2, 1)] {
        s.add_dm_message(
            DirectMessage {
                id: 1,
                sender_id: sender,
                sender_username: if sender == 1 { "alice" } else { "bob" }.to_string(),
                recipient_id: recipient,
                content: "x".to_string(),
                created_at: "bad".to_string(),
            },
            1,
        );
    }
    let lines = chat_lines(&s);
    assert_eq!(lines.len(), 2);
    assert_eq!(lines[0].label, "you: ");
    assert_eq!(lines[0].tone, LineTone::Me);
    assert_eq!(lines[0].stamp, "[bad] ");
    assert_eq!(lines[1].label, "bob: ");
    assert_eq!(lines[1].tone, LineTone::Partner);
}

#[test]
fn sidebar_labels() {
    let mut s = AppState::new();
    s.current_user = Some(user(1, "alice"));
    s.channels = vec![channel(1, "general", false), channel(2, "random", false)];
    s.users = vec![user(1, "alice"), user(3, "carol")];
    s.unread_channels.insert(2, 12);
    s.unread_dms.insert(3, 1);
    s.select_channel(1);
    let rows = sidebar_rows(&s);
    assert_eq!(rows.len(), 3);
    assert_eq!(rows[0].label, " # general");
    assert!(rows[0].active && rows[0].is_channel);
    assert_eq!(rows[1].label, " # random  (12)");
    assert!(!rows[1].active);
    assert_eq!(rows[2].label, " @ carol  (1)");
    assert!(!rows[2].is_channel);
}

#[test]
fn popup_rows_and_geometry() {
    assert_eq!(channel_list_row(&channel(1, "ops", true)), "[priv] ops  — desc");
    assert_eq!(channel_list_row(&channel(1, "ops", false)), "# ops  — desc");
    let m = ChannelMember { user_id: 1, username: "zoe".to_string(), joined_at: String::new() };
    assert_eq!(member_row(&m), "@zoe");
    assert_eq!(privacy_line(true), "[x] Private (only owner can add members)");
    assert_eq!(privacy_line(false), "[ ] Private (only owner can add members)");
    assert_eq!(highlighted_row(5, 3), Some(2));
    assert_eq!(highlighted_row(1, 3), Some(1));
    assert_eq!(highlighted_row(0, 0), None);
    let a = inner_area(Area { x: 10, y: 4, width: 30, height: 3 }, 1);
    assert_eq!(a, Area { x: 12, y: 6, width: 26, height: 0 });
}

#[test]
fn password_mask_counts_bytes() {
    let mut s = AppState::new();
    s.login_password = "héllo".to_string();
    assert_eq!(masked_password(&s), "******");
    s.active_conversation = Some(ConversationKind::Channel(1));
}

#[test]
fn popup_is_centered() {
    let r = termchat::view::centered_rect(60, 60, Area { x: 0, y: 0, width: 100, height: 50 });
    assert_eq!(r, Area { x: 20, y: 10, width: 60, height: 30 });
    let full = termchat::view::centered_rect(100, 100, Area { x: 3, y: 4, width: 10, height: 8 });
    assert_eq!(full, Area { x: 3, y: 4, width: 10, height: 8 });
}

#[test]
fn screen_layouts() {
    let l = termchat::view::main_layout(Area { x: 0, y: 0, width: 100, height: 40 });
    assert_eq!(l.sidebar, Area { x: 0, y: 0, width: 22, height: 40 });
    assert_eq!(l.chat, Area { x: 22, y: 0, width: 78, height: 37 });
    assert_eq!(l.input, Area { x: 22, y: 37, width: 78, height: 3 });
    let rows = termchat::view::form_rows(Area { x: 1, y: 2, width: 10, height: 20 }, termchat::view::Form::AddMember);
    assert_eq!(rows.len(), 5);
    assert_eq!(rows[0], Area { x: 1, y: 2, width: 10, height: 1 });
    assert_eq!(rows[1], Area { x: 1, y: 3, width: 10, height: 3 });
    let p = termchat::view::login_panel(Area { x: 0, y: 0, width: 100, height: 50 });
    assert!(p.width >= 40 && p.height >= 14);
    assert!(p.x > 0 && p.y > 0);
}
