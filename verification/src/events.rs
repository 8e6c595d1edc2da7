//! Keyboard handling: what each key does on the login screen, on the main
//! screen and inside each popup.
use vstd::prelude::*;

use crate::models::User;
use crate::models::WsEnvelope;
use crate::models::WsPayload;
use crate::state::add_modal_is;
use crate::state::create_modal_is;
use crate::state::opt_view;
use crate::state::pop_seq;
use crate::state::AppState;
use crate::state::ConversationKind;
use crate::state::CreateChannelField;
use crate::state::LoginField;
use crate::state::Modal;
use crate::state::Screen;
use crate::state::SidebarItem;
use crate::text::eq_ignore_ascii_case;
use crate::text::eq_ignore_ascii_case_seq;
use crate::text::is_blank;
use crate::text::pop_char;
use crate::text::push_char;
use crate::text::string_of;
use crate::text::trim_seq;
use crate::text::trim_string;

verus! {

/// The keys the client reacts to; every other key is `Other`.
#[derive(Debug, Clone, Copy, PartialEq, Eq, Structural)]
pub enum KeyCode {
    Char(char),
    Tab,
    Enter,
    Backspace,
    Esc,
    Up,
    Down,
    PageUp,
    PageDown,
    Other,
}

/// A key press with the modifiers that matter here.
#[derive(Debug, Clone, Copy, PartialEq, Eq, Structural)]
pub struct KeyEvent {
    pub code: KeyCode,
    pub control: bool,
    pub alt: bool,
}

/// What a key press asks of the caller.
#[derive(Debug)]
pub struct KeyOutcome {
    /// The application should quit.
    pub quit: bool,
    /// An envelope to send over the open WebSocket.
    pub send: Option<WsEnvelope>,
}

// ------------------------------------------------------------------
// Specifications
// ------------------------------------------------------------------

/// `key` is Ctrl and the character `c`.
pub open spec fn is_ctrl(key: KeyEvent, c: char) -> bool {
    key.code == KeyCode::Char(c) && key.control
}

/// The login field that Tab moves to.
pub open spec fn other_login_field(f: LoginField) -> LoginField {
    if f == LoginField::Username {
        LoginField::Password
    } else {
        LoginField::Username
    }
}

/// The channel-creation field that Tab moves to.
pub open spec fn next_create_field(f: CreateChannelField) -> CreateChannelField {
    match f {
        CreateChannelField::Name => CreateChannelField::Description,
        CreateChannelField::Description => CreateChannelField::Privacy,
        CreateChannelField::Privacy => CreateChannelField::Name,
    }
}

/// The conversation a sidebar row stands for.
pub open spec fn item_conv(item: SidebarItem) -> ConversationKind {
    match item {
        SidebarItem::Channel(ch) => ConversationKind::Channel(ch.id),
        SidebarItem::User(u) => ConversationKind::DM(u.id),
    }
}

/// `i` is the first row of `items` that stands for the `active` conversation.
pub open spec fn is_current_at(
    items: Seq<SidebarItem>,
    active: Option<ConversationKind>,
    i: int,
) -> bool {
    &&& 0 <= i < items.len()
    &&& active == Some(item_conv(items[i]))
    &&& forall|j: int| 0 <= j < i ==> active != Some(#[trigger] item_conv(items[j]))
}

/// The row of the active conversation, or -1 when no row stands for it.
pub open spec fn current_index(items: Seq<SidebarItem>, active: Option<ConversationKind>) -> int {
    if exists|i: int| is_current_at(items, active, i) {
        choose|i: int| is_current_at(items, active, i)
    } else {
        -1
    }
}

/// The row that moving by `delta` selects: the rows wrap around, and with
/// no current row the first row is taken.
pub open spec fn next_index(
    items: Seq<SidebarItem>,
    active: Option<ConversationKind>,
    delta: int,
) -> int {
    let c = current_index(items, active);
    if c < 0 {
        0
    } else {
        (c + delta) % (items.len() as int)
    }
}

/// `post` is `pre` after moving the sidebar selection by `delta`.
pub open spec fn navigated(pre: AppState, post: AppState, delta: int) -> bool {
    let items = pre.sidebar_spec();
    if items.len() == 0 {
        post == pre
    } else {
        match items[next_index(items, pre.active_conversation, delta)] {
            SidebarItem::Channel(ch) => pre.selected_channel(post, ch.id),
            SidebarItem::User(u) => pre.selected_dm(post, u.id),
        }
    }
}

/// `post` is `pre` after a key on the login screen.
pub open spec fn login_key_post(pre: AppState, key: KeyEvent, post: AppState) -> bool {
    if is_ctrl(key, 'c') {
        post == pre
    } else {
        match key.code {
            KeyCode::Tab => post == (AppState {
                login_field: other_login_field(pre.login_field),
                login_error: None,
                ..pre
            }),
            KeyCode::Char(c) => if is_ctrl(key, 'r') {
                &&& opt_view(post.login_status) == Some("Registering..."@)
                &&& post == (AppState { login_error: None, login_status: post.login_status, ..pre })
            } else if pre.login_field == LoginField::Username {
                &&& post.login_username@ == pre.login_username@.push(c)
                &&& post == (AppState { login_username: post.login_username, ..pre })
            } else {
                &&& post.login_password@ == pre.login_password@.push(c)
                &&& post == (AppState { login_password: post.login_password, ..pre })
            },
            KeyCode::Backspace => if pre.login_field == LoginField::Username {
                &&& post.login_username@ == pop_seq(pre.login_username@)
                &&& post == (AppState { login_username: post.login_username, ..pre })
            } else {
                &&& post.login_password@ == pop_seq(pre.login_password@)
                &&& post == (AppState { login_password: post.login_password, ..pre })
            },
            KeyCode::Enter => {
                &&& opt_view(post.login_status) == Some("Logging in..."@)
                &&& post == (AppState { login_error: None, login_status: post.login_status, ..pre })
            },
            _ => post == pre,
        }
    }
}

/// The first user whose name equals `name` ignoring ASCII case.
pub open spec fn first_user_named(users: Seq<User>, name: Seq<char>) -> Option<User>
    decreases users.len(),
{
    if users.len() == 0 {
        None
    } else if eq_ignore_ascii_case_seq(users[0].username@, name) {
        Some(users[0])
    } else {
        first_user_named(users.drop_first(), name)
    }
}

/// The cursor one row up in a list of `len` rows, wrapping to the last row.
pub open spec fn cursor_up(cursor: usize, len: int) -> usize {
    if len > 0 {
        if cursor == 0 {
            (len - 1) as usize
        } else {
            (cursor - 1) as usize
        }
    } else {
        cursor
    }
}

/// The cursor one row down in a list of `len` rows, wrapping to the first row.
pub open spec fn cursor_down(cursor: usize, len: int) -> usize {
    if len > 0 {
        ((cursor + 1) % len) as usize
    } else {
        cursor
    }
}

/// `post` is `pre` after a key (other than Esc) inside the channel-creation popup.
pub open spec fn create_key_post(
    pre: AppState,
    key: KeyEvent,
    post: AppState,
    name: Seq<char>,
    description: Seq<char>,
    is_private: bool,
    field: CreateChannelField,
    error: Option<Seq<char>>,
) -> bool {
    let n = field == CreateChannelField::Name;
    let d = field == CreateChannelField::Description;
    match key.code {
        KeyCode::Tab => pre.only_modal_changed(post) && create_modal_is(
            post.modal,
            name,
            description,
            is_private,
            next_create_field(field),
            error,
        ),
        KeyCode::Char(c) => if c == ' ' && field == CreateChannelField::Privacy {
            pre.only_modal_changed(post) && create_modal_is(
                post.modal,
                name,
                description,
                !is_private,
                field,
                error,
            )
        } else {
            pre.only_modal_changed(post) && create_modal_is(
                post.modal,
                if n {
                    name.push(c)
                } else {
                    name
                },
                if d {
                    description.push(c)
                } else {
                    description
                },
                is_private,
                field,
                error,
            )
        },
        KeyCode::Backspace => pre.only_modal_changed(post) && create_modal_is(
            post.modal,
            if n {
                pop_seq(name)
            } else {
                name
            },
            if d {
                pop_seq(description)
            } else {
                description
            },
            is_private,
            field,
            error,
        ),
        KeyCode::Enter => if trim_seq(name).len() == 0 {
            pre.only_modal_changed(post) && create_modal_is(
                post.modal,
                name,
                description,
                is_private,
                field,
                Some("name required"@),
            )
        } else {
            &&& post == (AppState { modal: post.modal, pending_create_channel: true, ..pre })
            &&& create_modal_is(post.modal, name, description, is_private, field, error)
        },
        _ => pre.only_modal_changed(post) && create_modal_is(
            post.modal,
            name,
            description,
            is_private,
            field,
            error,
        ),
    }
}

/// `post` is `pre` after a key (other than Esc) inside the add-member popup.
pub open spec fn add_key_post(
    pre: AppState,
    key: KeyEvent,
    post: AppState,
    channel_id: i64,
    input: Seq<char>,
    error: Option<Seq<char>>,
) -> bool {
    match key.code {
        KeyCode::Char(c) => pre.only_modal_changed(post) && add_modal_is(
            post.modal,
            channel_id,
            input.push(c),
            error,
        ),
        KeyCode::Backspace => pre.only_modal_changed(post) && add_modal_is(
            post.modal,
            channel_id,
            pop_seq(input),
            error,
        ),
        KeyCode::Enter => {
            let t = trim_seq(input);
            match first_user_named(pre.users@, t) {
                Some(u) => {
                    &&& post == (AppState {
                        modal: post.modal,
                        pending_add_member: Some((channel_id, u.id)),
                        ..pre
                    })
                    &&& add_modal_is(post.modal, channel_id, input, error)
                },
                None => pre.only_modal_changed(post) && add_modal_is(
                    post.modal,
                    channel_id,
                    input,
                    Some("user '"@ + t + "' not found"@),
                ),
            }
        },
        _ => pre.only_modal_changed(post) && add_modal_is(post.modal, channel_id, input, error),
    }
}

/// `post` is `pre` after a key inside whatever popup is open.
pub open spec fn modal_key_post(pre: AppState, key: KeyEvent, post: AppState) -> bool {
    if key.code == KeyCode::Esc {
        pre.closed_modal(post)
    } else {
        match pre.modal {
            Modal::Closed => post == pre,
            Modal::CreateChannel { name, description, is_private, field, error } => create_key_post(
                pre,
                key,
                post,
                name@,
                description@,
                is_private,
                field,
                opt_view(error),
            ),
            Modal::ChannelList { cursor } => {
                let len = pre.channels@.len() as int;
                match key.code {
                    KeyCode::Up => post == (AppState {
                        modal: Modal::ChannelList { cursor: cursor_up(cursor, len) },
                        ..pre
                    }),
                    KeyCode::Down => post == (AppState {
                        modal: Modal::ChannelList { cursor: cursor_down(cursor, len) },
                        ..pre
                    }),
                    KeyCode::Enter => if cursor < len {
                        let id = pre.channels@[cursor as int].id;
                        &&& post.unread_channels@ == pre.unread_channels@.remove(id)
                        &&& post == (AppState {
                            active_conversation: Some(ConversationKind::Channel(id)),
                            chat_scroll: 0,
                            unread_channels: post.unread_channels,
                            modal: Modal::Closed,
                            ..pre
                        })
                    } else {
                        pre.closed_modal(post)
                    },
                    _ => post == pre,
                }
            },
            Modal::MembersList { .. } => post == pre,
            Modal::AddMember { channel_id, username_input, error } => add_key_post(
                pre,
                key,
                post,
                channel_id,
                username_input@,
                opt_view(error),
            ),
            Modal::RemoveMember { channel_id, members, cursor, loading } => {
                let len = members@.len() as int;
                match key.code {
                    KeyCode::Up => post == (AppState {
                        modal: Modal::RemoveMember {
                            channel_id,
                            members,
                            cursor: cursor_up(cursor, len),
                            loading,
                        },
                        ..pre
                    }),
                    KeyCode::Down => post == (AppState {
                        modal: Modal::RemoveMember {
                            channel_id,
                            members,
                            cursor: cursor_down(cursor, len),
                            loading,
                        },
                        ..pre
                    }),
                    KeyCode::Enter => if cursor < len {
                        post == (AppState {
                            pending_remove_member: Some(
                                (channel_id, members@[cursor as int].user_id),
                            ),
                            ..pre
                        })
                    } else {
                        post == pre
                    },
                    _ => post == pre,
                }
            },
            Modal::ConfirmLogout => match key.code {
                KeyCode::Char(c) => if c == 'y' || c == 'Y' {
                    post == (AppState { pending_logout: true, modal: Modal::Closed, ..pre })
                } else if c == 'n' || c == 'N' {
                    pre.closed_modal(post)
                } else {
                    post == pre
                },
                _ => post == pre,
            },
        }
    }
}

/// `env` is the envelope that sends `content` to the conversation `conv`.
pub open spec fn is_send_envelope(env: WsEnvelope, conv: ConversationKind, content: String) -> bool {
    match conv {
        ConversationKind::Channel(id) => {
            &&& env.event_type@ == "message.send"@
            &&& env.payload == WsPayload::MessageSend { channel_id: id, content }
        },
        ConversationKind::DM(id) => {
            &&& env.event_type@ == "dm.send"@
            &&& env.payload == WsPayload::DmSend { recipient_id: id, content }
        },
    }
}

/// `post` is `pre` with `env` queued for a later retry and `msg` shown.
pub open spec fn queued_envelope(pre: AppState, post: AppState, msg: Seq<char>) -> bool {
    &&& opt_view(post.status_message) == Some(msg)
    &&& post.pending_ws_outbox@.len() == pre.pending_ws_outbox@.len() + 1
    &&& post.pending_ws_outbox@.drop_last() == pre.pending_ws_outbox@
    &&& post == (AppState {
        status_message: post.status_message,
        pending_ws_outbox: post.pending_ws_outbox,
        ..pre
    })
}

/// `post` and `out` after Enter on the main screen with no popup open.
pub open spec fn enter_post(pre: AppState, online: bool, post: AppState, out: KeyOutcome) -> bool {
    let content = pre.input_buffer;
    let cleared = AppState { input_buffer: post.input_buffer, ..pre };
    &&& !out.quit
    &&& post.input_buffer@.len() == 0
    &&& if content@.len() == 0 {
        out.send is None && post == cleared
    } else {
        match pre.active_conversation {
            None => out.send is None && cleared.status_set(post, "Select a channel or DM first"@),
            Some(conv) => if online {
                &&& post == cleared
                &&& out.send matches Some(env) && is_send_envelope(env, conv, content)
            } else {
                &&& out.send is None
                &&& queued_envelope(cleared, post, "Offline: message queued for retry"@)
                &&& is_send_envelope(post.pending_ws_outbox@.last(), conv, content)
            },
        }
    }
}

/// `post` and `out` after a key on the main screen with no popup open.
pub open spec fn main_key_post(
    pre: AppState,
    key: KeyEvent,
    online: bool,
    post: AppState,
    out: KeyOutcome,
) -> bool {
    let need = "Select a channel first"@;
    if key.code == KeyCode::Enter {
        enter_post(pre, online, post, out)
    } else {
        &&& out.send is None
        &&& out.quit == is_ctrl(key, 'c')
        &&& if is_ctrl(key, 'c') {
            post == pre
        } else if is_ctrl(key, 'n') {
            pre.opened_create(post)
        } else if is_ctrl(key, 'l') {
            pre.opened_channel_list(post)
        } else if is_ctrl(key, 'm') {
            match pre.active_channel_spec() {
                Some(id) => pre.opened_members(post, id),
                None => pre.status_set(post, need),
            }
        } else if is_ctrl(key, 'u') {
            match pre.active_channel_spec() {
                Some(id) => pre.opened_add(post, id),
                None => pre.status_set(post, need),
            }
        } else if is_ctrl(key, 'k') {
            match pre.active_channel_spec() {
                Some(id) => pre.opened_remove(post, id),
                None => pre.status_set(post, need),
            }
        } else if is_ctrl(key, 'j') {
            match pre.active_channel_spec() {
                Some(id) => post == (AppState { pending_self_join: Some(id), ..pre }),
                None => pre.status_set(post, need),
            }
        } else if is_ctrl(key, 'o') {
            pre.opened_logout(post)
        } else {
            match key.code {
                KeyCode::Char(c) => pre.input_now(post, pre.input_buffer@.push(c)),
                KeyCode::Backspace => pre.input_now(post, pop_seq(pre.input_buffer@)),
                KeyCode::PageUp => post == (AppState {
                    chat_scroll: if pre.chat_scroll + 5 > u16::MAX {
                        u16::MAX
                    } else {
                        (pre.chat_scroll + 5) as u16
                    },
                    ..pre
                }),
                KeyCode::PageDown => post == (AppState {
                    chat_scroll: if pre.chat_scroll < 5 {
                        0
                    } else {
                        (pre.chat_scroll - 5) as u16
                    },
                    ..pre
                }),
                KeyCode::Up => if pre.input_buffer@.len() == 0 || key.alt {
                    navigated(pre, post, -1)
                } else {
                    post == pre
                },
                KeyCode::Down => if pre.input_buffer@.len() == 0 || key.alt {
                    navigated(pre, post, 1)
                } else {
                    post == pre
                },
                _ => post == pre,
            }
        }
    }
}

/// `post` and `out` after any key on any screen.
pub open spec fn key_post(
    pre: AppState,
    key: KeyEvent,
    online: bool,
    post: AppState,
    out: KeyOutcome,
) -> bool {
    match pre.screen {
        Screen::Login => {
            &&& out.quit == is_ctrl(key, 'c')
            &&& out.send is None
            &&& login_key_post(pre, key, post)
        },
        Screen::Main => if pre.modal is Closed {
            main_key_post(pre, key, online, post, out)
        } else {
            &&& !out.quit
            &&& out.send is None
            &&& modal_key_post(pre, key, post)
        },
    }
}

// ------------------------------------------------------------------
// Handlers
// ------------------------------------------------------------------

/// Handles one key press. `online` tells whether a WebSocket is open; a
/// message typed while offline is queued instead of handed out for sending.
pub fn handle_key(key: KeyEvent, state: &mut AppState, online: bool) -> (out: KeyOutcome)
    ensures
        key_post(*old(state), key, online, *final(state), out),
{
    match state.screen {
        Screen::Login => {
            let quit = handle_login_key(key, state);
            KeyOutcome { quit, send: None }
        },
        Screen::Main => handle_main_key(key, state, online),
    }
}

fn handle_login_key(key: KeyEvent, state: &mut AppState) -> (quit: bool)
    ensures
        quit == is_ctrl(key, 'c'),
        login_key_post(*old(state), key, *final(state)),
{
    if key.code == KeyCode::Char('c') && key.control {
        return true;
    }
    match key.code {
        KeyCode::Tab => {
            state.login_field =
            if state.login_field == LoginField::Username {
                LoginField::Password
            } else {
                LoginField::Username
            };
            state.login_error = None;
        },
        KeyCode::Char(c) => {
            if c == 'r' && key.control {
                state.login_error = None;
                state.login_status = Some(string_of("Registering..."));
            } else {
                match state.login_field {
                    LoginField::Username => push_char(&mut state.login_username, c),
                    LoginField::Password => push_char(&mut state.login_password, c),
                }
            }
        },
        KeyCode::Backspace => {
            match state.login_field {
                LoginField::Username => {
                    pop_char(&mut state.login_username);
                },
                LoginField::Password => {
                    pop_char(&mut state.login_password);
                },
            }
        },
        KeyCode::Enter => {
            state.login_error = None;
            state.login_status = Some(string_of("Logging in..."));
        },
        _ => {},
    }
    false
}

/// Whether a sidebar row stands for the active conversation.
fn item_is_active(state: &AppState, item: &SidebarItem) -> (b: bool)
    ensures
        b == (state.active_conversation == Some(item_conv(*item))),
{
    match item {
        SidebarItem::Channel(ch) => state.is_active(ConversationKind::Channel(ch.id)),
        SidebarItem::User(u) => state.is_active(ConversationKind::DM(u.id)),
    }
}

/// One step down or up from `c` among `len` entries, wrapping round.
pub(crate) proof fn lemma_step_mod(c: int, len: int)
    requires
        0 <= c < len,
    ensures
        (c + 1) % len == if c + 1 == len {
            0
        } else {
            c + 1
        },
        (c - 1) % len == if c == 0 {
            len - 1
        } else {
            c - 1
        },
{
    if c + 1 == len {
        vstd::arithmetic::div_mod::lemma_mod_self_0(len);
    } else {
        vstd::arithmetic::div_mod::lemma_small_mod((c + 1) as nat, len as nat);
    }
    if c == 0 {
        vstd::arithmetic::div_mod::lemma_mod_add_multiples_vanish(-1, len);
        vstd::arithmetic::div_mod::lemma_small_mod((len - 1) as nat, len as nat);
    } else {
        vstd::arithmetic::div_mod::lemma_small_mod((c - 1) as nat, len as nat);
    }
}

/// Moves the sidebar selection one row up (`delta == -1`) or down
/// (`delta == 1`), wrapping around; selects the first row when the active
/// conversation has no row.
fn navigate_sidebar(state: &mut AppState, delta: i32)
    requires
        delta == 1 || delta == -1,
    ensures
        navigated(*old(state), *final(state), delta as int),
{
    let items = state.sidebar_items();
    let len = items.len();
    if len == 0 {
        return;
    }
    let mut i: usize = 0;
    let mut found = false;
    while i < len
        invariant_except_break
            !found,
        invariant
            len == items@.len(),
            i <= len,
            forall|j: int|
                0 <= j < i ==> state.active_conversation != Some(#[trigger] item_conv(items@[j])),
        ensures
            found ==> i < len && state.active_conversation == Some(item_conv(items@[i as int])),
            !found ==> i == len,
        decreases len - i,
    {
        if item_is_active(state, &items[i]) {
            found = true;
            break;
        }
        i = i + 1;
    }
    let ghost active = state.active_conversation;
    proof {
        if found {
            assert(is_current_at(items@, active, i as int));
            assert forall|k: int| is_current_at(items@, active, k) implies k == i by {
                if k < i {
                } else if k > i {
                    assert(active != Some(item_conv(items@[i as int])));
                }
            }
            assert(current_index(items@, active) == i);
            lemma_step_mod(i as int, len as int);
        } else {
            assert(!exists|k: int| is_current_at(items@, active, k));
        }
    }
    let next: usize = if !found {
        0
    } else if delta > 0 {
        if i + 1 == len {
            0
        } else {
            i + 1
        }
    } else {
        if i == 0 {
            len - 1
        } else {
            i - 1
        }
    };
    match &items[next] {
        SidebarItem::Channel(ch) => state.select_channel(ch.id),
        SidebarItem::User(u) => state.select_dm(u.id),
    }
}

/// The envelope that sends `content` to `conv`.
fn send_envelope(conv: ConversationKind, content: String) -> (env: WsEnvelope)
    ensures
        is_send_envelope(env, conv, content),
{
    match conv {
        ConversationKind::Channel(id) => WsEnvelope::new(
            "message.send",
            WsPayload::MessageSend { channel_id: id, content },
        ),
        ConversationKind::DM(id) => WsEnvelope::new(
            "dm.send",
            WsPayload::DmSend { recipient_id: id, content },
        ),
    }
}

fn handle_main_key(key: KeyEvent, state: &mut AppState, online: bool) -> (out: KeyOutcome)
    requires
        old(state).screen == Screen::Main,
    ensures
        old(state).modal is Closed ==> main_key_post(*old(state), key, online, *final(state), out),
        !(old(state).modal is Closed) ==> !out.quit && out.send is None && modal_key_post(
            *old(state),
            key,
            *final(state),
        ),
{
    // A popup captures all input first.
    if state.modal.is_open() {
        handle_modal_key(key, state);
        return KeyOutcome { quit: false, send: None };
    }
    let none = KeyOutcome { quit: false, send: None };
    if key.control {
        match key.code {
            KeyCode::Char('c') => {
                return KeyOutcome { quit: true, send: None };
            },
            KeyCode::Char('n') => {
                state.open_create_channel();
                return none;
            },
            KeyCode::Char('l') => {
                state.open_channel_list();
                return none;
            },
            KeyCode::Char('m') => {
                match state.active_channel_id() {
                    Some(id) => state.open_members_list(id),
                    None => state.set_status("Select a channel first"),
                }
                return none;
            },
            KeyCode::Char('u') => {
                match state.active_channel_id() {
                    Some(id) => state.open_add_member(id),
                    None => state.set_status("Select a channel first"),
                }
                return none;
            },
            KeyCode::Char('k') => {
                match state.active_channel_id() {
                    Some(id) => state.open_remove_member(id),
                    None => state.set_status("Select a channel first"),
                }
                return none;
            },
            KeyCode::Char('j') => {
                match state.active_channel_id() {
                    Some(id) => {
                        state.pending_self_join = Some(id);
                    },
                    None => state.set_status("Select a channel first"),
                }
                return none;
            },
            KeyCode::Char('o') => {
                state.open_confirm_logout();
                return none;
            },
            _ => {},
        }
    }
    match key.code {
        KeyCode::Enter => {
            let content = state.take_input();
            if content.as_str().is_empty() {
                return none;
            }
            let conv = match state.active_conversation {
                Some(c) => c,
                None => {
                    state.set_status("Select a channel or DM first");
                    return none;
                },
            };
            let env = send_envelope(conv, content);
            if online {
                return KeyOutcome { quit: false, send: Some(env) };
            } else {
                let ghost before = state.pending_ws_outbox@;
                state.pending_ws_outbox.push_back(env);
                assert(state.pending_ws_outbox@.drop_last() =~= before);
                state.set_status("Offline: message queued for retry");
                return none;
            }
        },
        KeyCode::Char(c) => {
            state.push_input_char(c);
        },
        KeyCode::Backspace => {
            state.pop_input_char();
        },
        KeyCode::PageUp => {
            state.chat_scroll = state.chat_scroll.saturating_add(5);
        },
        KeyCode::PageDown => {
            state.chat_scroll = state.chat_scroll.saturating_sub(5);
        },
        KeyCode::Up => {
            if state.input_buffer.as_str().is_empty() || key.alt {
                navigate_sidebar(state, -1);
            }
        },
        KeyCode::Down => {
            if state.input_buffer.as_str().is_empty() || key.alt {
                navigate_sidebar(state, 1);
            }
        },
        _ => {},
    }
    none
}

/// The cursor one row down, computed without overflow.
fn step_down(cursor: usize, len: usize) -> (r: usize)
    requires
        len > 0,
    ensures
        r == cursor_down(cursor, len as int),
{
    proof {
        vstd::arithmetic::div_mod::lemma_add_mod_noop(cursor as int, 1, len as int);
        if len == 1 {
            vstd::arithmetic::div_mod::lemma_mod_self_0(1);
        } else {
            vstd::arithmetic::div_mod::lemma_small_mod(1, len as nat);
        }
    }
    let c = cursor % len;
    if c + 1 == len {
        proof {
            vstd::arithmetic::div_mod::lemma_mod_self_0(len as int);
        }
        0
    } else {
        proof {
            vstd::arithmetic::div_mod::lemma_small_mod((c + 1) as nat, len as nat);
        }
        c + 1
    }
}

/// The first user whose name matches `name` ignoring ASCII case.
fn find_user_named(users: &Vec<User>, name: &str) -> (r: Option<usize>)
    ensures
        match first_user_named(users@, name@) {
            Some(u) => r matches Some(i) && i < users@.len() && users@[i as int] == u,
            None => r is None,
        },
{
    let mut i: usize = 0;
    assert(users@.skip(0) =~= users@);
    while i < users.len()
        invariant
            i <= users@.len(),
            first_user_named(users@, name@) == first_user_named(users@.skip(i as int), name@),
        decreases users.len() - i,
    {
        assert(users@.skip(i as int)[0] == users@[i as int]);
        if eq_ignore_ascii_case(users[i].username.as_str(), name) {
            return Some(i);
        }
        assert(users@.skip(i as int).drop_first() =~= users@.skip(i + 1));
        i = i + 1;
    }
    None
}

fn handle_modal_key(key: KeyEvent, state: &mut AppState)
    ensures
        modal_key_post(*old(state), key, *final(state)),
{
    // Universal cancel
    if key.code == KeyCode::Esc {
        state.close_modal();
        return;
    }
    let mut modal = Modal::Closed;
    std::mem::swap(&mut modal, &mut state.modal);
    match modal {
        Modal::Closed => {},
        Modal::CreateChannel { mut name, mut description, mut is_private, mut field, mut error } => {
            match key.code {
                KeyCode::Tab => {
                    field =
                    match field {
                        CreateChannelField::Name => CreateChannelField::Description,
                        CreateChannelField::Description => CreateChannelField::Privacy,
                        CreateChannelField::Privacy => CreateChannelField::Name,
                    };
                },
                KeyCode::Char(c) => {
                    if c == ' ' && field == CreateChannelField::Privacy {
                        is_private = !is_private;
                    } else {
                        match field {
                            CreateChannelField::Name => push_char(&mut name, c),
                            CreateChannelField::Description => push_char(&mut description, c),
                            CreateChannelField::Privacy => {},
                        }
                    }
                },
                KeyCode::Backspace => {
                    match field {
                        CreateChannelField::Name => {
                            pop_char(&mut name);
                        },
                        CreateChannelField::Description => {
                            pop_char(&mut description);
                        },
                        CreateChannelField::Privacy => {},
                    }
                },
                KeyCode::Enter => {
                    if is_blank(name.as_str()) {
                        error = Some(string_of("name required"));
                    } else {
                        state.pending_create_channel = true;
                    }
                },
                _ => {},
            }
            state.modal = Modal::CreateChannel { name, description, is_private, field, error };
        },
        Modal::ChannelList { mut cursor } => {
            let len = state.channels.len();
            match key.code {
                KeyCode::Up => {
                    if len > 0 {
                        cursor =
                        if cursor == 0 {
                            len - 1
                        } else {
                            cursor - 1
                        };
                    }
                    state.modal = Modal::ChannelList { cursor };
                },
                KeyCode::Down => {
                    if len > 0 {
                        cursor = step_down(cursor, len);
                    }
                    state.modal = Modal::ChannelList { cursor };
                },
                KeyCode::Enter => {
                    if cursor < len {
                        let id = state.channels[cursor].id;
                        state.select_channel(id);
                    }
                },
                _ => {
                    state.modal = Modal::ChannelList { cursor };
                },
            }
        },
        Modal::MembersList { channel_id, members, loading } => {
            // Read-only; any key but Esc is ignored.
            state.modal = Modal::MembersList { channel_id, members, loading };
        },
        Modal::AddMember { channel_id, mut username_input, mut error } => {
            match key.code {
                KeyCode::Char(c) => {
                    push_char(&mut username_input, c);
                },
                KeyCode::Backspace => {
                    pop_char(&mut username_input);
                },
                KeyCode::Enter => {
                    let wanted = trim_string(username_input.as_str());
                    match find_user_named(&state.users, wanted.as_str()) {
                        Some(i) => {
                            state.pending_add_member = Some((channel_id, state.users[i].id));
                        },
                        None => {
                            let mut msg = string_of("user '");
                            msg.append(wanted.as_str());
                            msg.append("' not found");
                            error = Some(msg);
                        },
                    }
                },
                _ => {},
            }
            state.modal = Modal::AddMember { channel_id, username_input, error };
        },
        Modal::RemoveMember { channel_id, members, mut cursor, loading } => {
            let len = members.len();
            match key.code {
                KeyCode::Up => {
                    if len > 0 {
                        cursor =
                        if cursor == 0 {
                            len - 1
                        } else {
                            cursor - 1
                        };
                    }
                },
                KeyCode::Down => {
                    if len > 0 {
                        cursor = step_down(cursor, len);
                    }
                },
                KeyCode::Enter => {
                    if cursor < len {
                        state.pending_remove_member = Some((channel_id, members[cursor].user_id));
                    }
                },
                _ => {},
            }
            state.modal = Modal::RemoveMember { channel_id, members, cursor, loading };
        },
        Modal::ConfirmLogout => {
            match key.code {
                KeyCode::Char(c) => {
                    if c == 'y' || c == 'Y' {
                        state.pending_logout = true;
                    } else if c == 'n' || c == 'N' {
                    } else {
                        state.modal = Modal::ConfirmLogout;
                    }
                },
                _ => {
                    state.modal = Modal::ConfirmLogout;
                },
            }
        },
    }
}

} // verus!
