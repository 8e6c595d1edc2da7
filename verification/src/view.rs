//! The text the screens show: titles, chat lines, sidebar labels, popup
//! rows and the geometry of framed areas. Drawing it is left to the caller.
use ratatui::layout::Constraint;
use ratatui::layout::Direction;
use ratatui::layout::Layout;
use ratatui::layout::Rect;
use vstd::prelude::*;
use vstd::string::*;
use vstd::utf8::encode_utf8;
use vstd::utf8::is_char_boundary;

use crate::models::Channel;
use crate::models::ChannelMember;
use crate::models::User;
use crate::state::count_of;
use crate::state::queue_of;
use crate::state::AppState;
use crate::state::ConversationKind;
use crate::state::SidebarItem;
use crate::text::decimal_nat;
use crate::text::push_char;
use crate::text::push_decimal_u64;
use crate::text::string_of;

verus! {

broadcast use vstd::std_specs::hash::group_hash_axioms;

// ------------------------------------------------------------------
// Specifications
// ------------------------------------------------------------------

/// The first channel with this id.
pub open spec fn channel_with_id(channels: Seq<Channel>, id: i64) -> Option<Channel>
    decreases channels.len(),
{
    if channels.len() == 0 {
        None
    } else if channels[0].id == id {
        Some(channels[0])
    } else {
        channel_with_id(channels.drop_first(), id)
    }
}

/// The first user with this id.
pub open spec fn user_with_id(users: Seq<User>, id: i64) -> Option<User>
    decreases users.len(),
{
    if users.len() == 0 {
        None
    } else if users[0].id == id {
        Some(users[0])
    } else {
        user_with_id(users.drop_first(), id)
    }
}

/// The UTF-8 bytes of `ts` from 11 to 16 (the `HH:MM` of an ISO time
/// stamp) form a complete slice.
pub open spec fn has_clock(ts: Seq<char>) -> bool {
    let b = encode_utf8(ts);
    b.len() >= 16 && is_char_boundary(b, 11) && is_char_boundary(b, 16)
}

/// How a chat line is coloured.
#[derive(Debug, Clone, Copy, PartialEq, Eq, Structural)]
pub enum LineTone {
    /// A hint shown in place of messages.
    Hint,
    /// A channel message.
    ChannelAuthor,
    /// A direct message sent by the logged-in user.
    Me,
    /// A direct message from the partner.
    Partner,
}

/// One line of the chat pane: `stamp`, `label` and `content` side by side.
#[derive(Debug)]
pub struct ChatLine {
    pub stamp: String,
    pub label: String,
    pub content: String,
    pub tone: LineTone,
}

/// One row of the sidebar.
#[derive(Debug)]
pub struct SidebarRow {
    pub label: String,
    pub is_channel: bool,
    pub active: bool,
}

/// An area of the terminal.
#[derive(Debug, Clone, Copy, PartialEq, Eq, Structural)]
pub struct Area {
    pub x: u16,
    pub y: u16,
    pub width: u16,
    pub height: u16,
}

/// `line` is a hint line with this text.
pub open spec fn is_hint(line: ChatLine, text: Seq<char>) -> bool {
    &&& line.tone == LineTone::Hint
    &&& line.stamp@.len() == 0
    &&& line.label@.len() == 0
    &&& line.content@ == text
}

/// `line` shows a message stamped `created_at`, by `name`, saying `content`.
pub open spec fn is_message_line(
    line: ChatLine,
    created_at: Seq<char>,
    name: Seq<char>,
    content: Seq<char>,
    tone: LineTone,
) -> bool {
    &&& line.tone == tone
    &&& (if has_clock(created_at) {
        line.stamp@.len() > 2 && line.stamp@[0] == '[' && line.stamp@.subrange(
            line.stamp@.len() - 2,
            line.stamp@.len() as int,
        ) == "] "@ && encode_utf8(line.stamp@.subrange(1, line.stamp@.len() - 2))
            == encode_utf8(created_at).subrange(11, 16)
    } else {
        line.stamp@ == "["@ + created_at + "] "@
    })
    &&& line.label@ == name + ": "@
    &&& line.content@ == content
}

/// ` (<n>)` after a label when `n` is positive.
pub open spec fn unread_suffix(n: int) -> Seq<char> {
    if n > 0 {
        "  ("@ + decimal_nat(n as nat) + ")"@
    } else {
        Seq::empty()
    }
}

// ------------------------------------------------------------------
// Execution
// ------------------------------------------------------------------

/// The `HH:MM` part of a time stamp such as `2026-04-07T12:34:56Z` (bytes 11
/// to 16), or the whole stamp when it has no such part.
pub fn format_time(ts: &str) -> (r: String)
    ensures
        if has_clock(ts@) {
            encode_utf8(r@) == encode_utf8(ts@).subrange(11, 16)
        } else {
            r@ == ts@
        },
{
    broadcast use vstd::utf8::group_utf8_lib;
    broadcast use vstd::utf8::is_char_boundary_iff_not_is_continuation_byte;

    if ts.as_bytes().len() >= 16 && ts.is_char_boundary(11) && ts.is_char_boundary(16) {
        let (head, _) = ts.split_at(16);
        proof {
            assert(head.spec_bytes()[11] == ts.spec_bytes()[11]);
            vstd::utf8::is_char_boundary_iff_not_is_continuation_byte(ts.spec_bytes(), 11);
            vstd::utf8::is_char_boundary_iff_not_is_continuation_byte(head.spec_bytes(), 11);
        }
        let (_, t) = head.split_at(11);
        assert(t.spec_bytes() =~= ts.spec_bytes().subrange(11, 16));
        t.to_owned()
    } else {
        string_of(ts)
    }
}

fn find_channel(channels: &Vec<Channel>, id: i64) -> (r: Option<usize>)
    ensures
        match channel_with_id(channels@, id) {
            Some(c) => r matches Some(i) && i < channels@.len() && channels@[i as int] == c,
            None => r is None,
        },
{
    let mut i: usize = 0;
    assert(channels@.skip(0) =~= channels@);
    while i < channels.len()
        invariant
            i <= channels@.len(),
            channel_with_id(channels@, id) == channel_with_id(channels@.skip(i as int), id),
        decreases channels.len() - i,
    {
        assert(channels@.skip(i as int)[0] == channels@[i as int]);
        if channels[i].id == id {
            return Some(i);
        }
        assert(channels@.skip(i as int).drop_first() =~= channels@.skip(i + 1));
        i = i + 1;
    }
    None
}

fn find_user(users: &Vec<User>, id: i64) -> (r: Option<usize>)
    ensures
        match user_with_id(users@, id) {
            Some(u) => r matches Some(i) && i < users@.len() && users@[i as int] == u,
            None => r is None,
        },
{
    let mut i: usize = 0;
    assert(users@.skip(0) =~= users@);
    while i < users.len()
        invariant
            i <= users@.len(),
            user_with_id(users@, id) == user_with_id(users@.skip(i as int), id),
        decreases users.len() - i,
    {
        assert(users@.skip(i as int)[0] == users@[i as int]);
        if users[i].id == id {
            return Some(i);
        }
        assert(users@.skip(i as int).drop_first() =~= users@.skip(i + 1));
        i = i + 1;
    }
    None
}

/// `"<a><b><c>"`
fn join3(a: &str, b: &str, c: &str) -> (r: String)
    ensures
        r@ == a@ + b@ + c@,
{
    let mut r = string_of(a);
    r.append(b);
    r.append(c);
    r
}

/// The title of the chat pane.
pub fn chat_title(state: &AppState) -> (t: String)
    ensures
        t@ == match state.active_conversation {
            Some(ConversationKind::Channel(id)) => match channel_with_id(state.channels@, id) {
                Some(c) => " # "@ + c.name@ + " "@,
                None => " Chat "@,
            },
            Some(ConversationKind::DM(id)) => match user_with_id(state.users@, id) {
                Some(u) => " @ "@ + u.username@ + " "@,
                None => " DM "@,
            },
            None => " Select a channel or DM "@,
        },
{
    match state.active_conversation {
        Some(ConversationKind::Channel(id)) => match find_channel(&state.channels, id) {
            Some(i) => join3(" # ", state.channels[i].name.as_str(), " "),
            None => string_of(" Chat "),
        },
        Some(ConversationKind::DM(id)) => match find_user(&state.users, id) {
            Some(i) => join3(" @ ", state.users[i].username.as_str(), " "),
            None => string_of(" DM "),
        },
        None => string_of(" Select a channel or DM "),
    }
}

fn hint_line(text: &str) -> (l: ChatLine)
    ensures
        is_hint(l, text@),
{
    ChatLine {
        stamp: String::new(),
        label: String::new(),
        content: string_of(text),
        tone: LineTone::Hint,
    }
}

fn message_line(created_at: &str, name: &str, content: &str, tone: LineTone) -> (l: ChatLine)
    ensures
        is_message_line(l, created_at@, name@, content@, tone),
{
    let time = format_time(created_at);
    let stamp = join3("[", time.as_str(), "] ");
    proof {
        reveal_strlit("[");
        reveal_strlit("] ");
        if has_clock(created_at@) {
            assert(stamp@.subrange(stamp@.len() - 2, stamp@.len() as int) =~= "] "@);
            assert(stamp@.subrange(1, stamp@.len() - 2) =~= time@);
        }
    }
    let mut label = string_of(name);
    label.append(": ");
    ChatLine { stamp, label, content: string_of(content), tone }
}

/// The lines of the chat pane: the messages of the active conversation,
/// oldest first, or a hint when there are none or nothing is selected.
pub fn chat_lines(state: &AppState) -> (lines: Vec<ChatLine>)
    ensures
        match state.active_conversation {
            Some(ConversationKind::Channel(id)) => {
                let q = queue_of(state.channel_messages@, id);
                if q.len() == 0 {
                    lines@.len() == 1 && is_hint(lines@[0], "No messages yet. Start typing!"@)
                } else {
                    &&& lines@.len() == q.len()
                    &&& forall|i: int|
                        0 <= i < q.len() ==> is_message_line(
                            #[trigger] lines@[i],
                            q[i].created_at@,
                            q[i].author_username@,
                            q[i].content@,
                            LineTone::ChannelAuthor,
                        )
                }
            },
            Some(ConversationKind::DM(id)) => {
                let q = queue_of(state.dm_messages@, id);
                let me = match state.current_user {
                    Some(u) => u.id,
                    None => 0,
                };
                if q.len() == 0 {
                    lines@.len() == 1 && is_hint(lines@[0], "No messages yet."@)
                } else {
                    &&& lines@.len() == q.len()
                    &&& forall|i: int|
                        0 <= i < q.len() ==> if q[i].sender_id == me {
                            is_message_line(
                                #[trigger] lines@[i],
                                q[i].created_at@,
                                "you"@,
                                q[i].content@,
                                LineTone::Me,
                            )
                        } else {
                            is_message_line(
                                lines@[i],
                                q[i].created_at@,
                                q[i].sender_username@,
                                q[i].content@,
                                LineTone::Partner,
                            )
                        }
                }
            },
            None => lines@.len() == 1 && is_hint(
                lines@[0],
                "Select a channel or DM from the sidebar"@,
            ),
        },
{
    let mut lines: Vec<ChatLine> = Vec::new();
    match state.active_conversation {
        Some(ConversationKind::Channel(id)) => {
            match state.channel_messages.get(&id) {
                Some(q) if q.len() > 0 => {
                    let n = q.len();
                    let mut i: usize = 0;
                    while i < n
                        invariant
                            n == q@.len(),
                            i <= n,
                            lines@.len() == i,
                            forall|k: int|
                                0 <= k < i ==> is_message_line(
                                    #[trigger] lines@[k],
                                    q@[k].created_at@,
                                    q@[k].author_username@,
                                    q@[k].content@,
                                    LineTone::ChannelAuthor,
                                ),
                        decreases n - i,
                    {
                        let m = &q[i];
                        lines.push(
                            message_line(
                                m.created_at.as_str(),
                                m.author_username.as_str(),
                                m.content.as_str(),
                                LineTone::ChannelAuthor,
                            ),
                        );
                        i = i + 1;
                    }
                },
                _ => {
                    lines.push(hint_line("No messages yet. Start typing!"));
                },
            }
        },
        Some(ConversationKind::DM(id)) => {
            let me = match &state.current_user {
                Some(u) => u.id,
                None => 0,
            };
            match state.dm_messages.get(&id) {
                Some(q) if q.len() > 0 => {
                    let n = q.len();
                    let mut i: usize = 0;
                    while i < n
                        invariant
                            n == q@.len(),
                            i <= n,
                            lines@.len() == i,
                            forall|k: int|
                                0 <= k < i ==> if q@[k].sender_id == me {
                                    is_message_line(
                                        #[trigger] lines@[k],
                                        q@[k].created_at@,
                                        "you"@,
                                        q@[k].content@,
                                        LineTone::Me,
                                    )
                                } else {
                                    is_message_line(
                                        lines@[k],
                                        q@[k].created_at@,
                                        q@[k].sender_username@,
                                        q@[k].content@,
                                        LineTone::Partner,
                                    )
                                },
                        decreases n - i,
                    {
                        let dm = &q[i];
                        let line = if dm.sender_id == me {
                            message_line(dm.created_at.as_str(), "you", dm.content.as_str(), LineTone::Me)
                        } else {
                            message_line(
                                dm.created_at.as_str(),
                                dm.sender_username.as_str(),
                                dm.content.as_str(),
                                LineTone::Partner,
                            )
                        };
                        lines.push(line);
                        i = i + 1;
                    }
                },
                _ => {
                    lines.push(hint_line("No messages yet."));
                },
            }
        },
        None => {
            lines.push(hint_line("Select a channel or DM from the sidebar"));
        },
    }
    lines
}

/// `label` followed by the unread count in brackets when there is one.
fn with_unread(prefix: &str, name: &str, unread: usize) -> (r: String)
    ensures
        r@ == prefix@ + name@ + unread_suffix(unread as int),
{
    let mut r = string_of(prefix);
    r.append(name);
    if unread > 0 {
        r.append("  (");
        push_decimal_u64(&mut r, unread as u64);
        r.append(")");
    } else {
        assert(r@ =~= r@ + unread_suffix(unread as int));
    }
    r
}

/// The rows of the sidebar, one per sidebar item, with unread counts and
/// the active conversation marked.
pub fn sidebar_rows(state: &AppState) -> (rows: Vec<SidebarRow>)
    ensures
        rows@.len() == state.sidebar_spec().len(),
        forall|i: int|
            0 <= i < rows@.len() ==> match #[trigger] state.sidebar_spec()[i] {
                SidebarItem::Channel(c) => {
                    &&& rows@[i].is_channel
                    &&& rows@[i].active == (state.active_conversation == Some(
                        ConversationKind::Channel(c.id),
                    ))
                    &&& rows@[i].label@ == " # "@ + c.name@ + unread_suffix(
                        count_of(state.unread_channels@, c.id),
                    )
                },
                SidebarItem::User(u) => {
                    &&& !rows@[i].is_channel
                    &&& rows@[i].active == (state.active_conversation == Some(
                        ConversationKind::DM(u.id),
                    ))
                    &&& rows@[i].label@ == " @ "@ + u.username@ + unread_suffix(
                        count_of(state.unread_dms@, u.id),
                    )
                },
            },
{
    let items = state.sidebar_items();
    let mut rows: Vec<SidebarRow> = Vec::new();
    let n = items.len();
    let mut i: usize = 0;
    while i < n
        invariant
            n == items@.len(),
            items@ == state.sidebar_spec(),
            i <= n,
            rows@.len() == i,
            forall|k: int|
                0 <= k < i ==> match #[trigger] state.sidebar_spec()[k] {
                    SidebarItem::Channel(c) => {
                        &&& rows@[k].is_channel
                        &&& rows@[k].active == (state.active_conversation == Some(
                            ConversationKind::Channel(c.id),
                        ))
                        &&& rows@[k].label@ == " # "@ + c.name@ + unread_suffix(
                            count_of(state.unread_channels@, c.id),
                        )
                    },
                    SidebarItem::User(u) => {
                        &&& !rows@[k].is_channel
                        &&& rows@[k].active == (state.active_conversation == Some(
                            ConversationKind::DM(u.id),
                        ))
                        &&& rows@[k].label@ == " @ "@ + u.username@ + unread_suffix(
                            count_of(state.unread_dms@, u.id),
                        )
                    },
                },
        decreases n - i,
    {
        let row = match &items[i] {
            SidebarItem::Channel(c) => {
                let unread: usize = match state.unread_channels.get(&c.id) {
                    Some(k) => *k,
                    None => 0,
                };
                SidebarRow {
                    label: with_unread(" # ", c.name.as_str(), unread),
                    is_channel: true,
                    active: state.is_active(ConversationKind::Channel(c.id)),
                }
            },
            SidebarItem::User(u) => {
                let unread: usize = match state.unread_dms.get(&u.id) {
                    Some(k) => *k,
                    None => 0,
                };
                SidebarRow {
                    label: with_unread(" @ ", u.username.as_str(), unread),
                    is_channel: false,
                    active: state.is_active(ConversationKind::DM(u.id)),
                }
            },
        };
        rows.push(row);
        i = i + 1;
    }
    rows
}

/// The title of the input box: the status message, if any, else the hint.
pub fn input_title(state: &AppState) -> (t: String)
    ensures
        t@ == match state.status_message {
            Some(s) => " "@ + s@ + " "@,
            None => " Message (Enter to send, Esc for sidebar) "@,
        },
{
    match &state.status_message {
        Some(s) => join3(" ", s.as_str(), " "),
        None => string_of(" Message (Enter to send, Esc for sidebar) "),
    }
}

/// One `*` per byte of the typed password.
pub fn masked_password(state: &AppState) -> (m: String)
    ensures
        m@.len() == encode_utf8(state.login_password@).len(),
        forall|i: int| 0 <= i < m@.len() ==> m@[i] == '*',
{
    let n = state.login_password.as_str().as_bytes().len();
    let mut m = String::new();
    let mut i: usize = 0;
    while i < n
        invariant
            n == encode_utf8(state.login_password@).len(),
            i <= n,
            m@.len() == i,
            forall|k: int| 0 <= k < i ==> m@[k] == '*',
        decreases n - i,
    {
        push_char(&mut m, '*');
        i = i + 1;
    }
    m
}

/// The title of a popup about `channel_id`: `"<before>#<name> "` when the
/// channel is known, else `fallback`.
fn channel_popup_title(state: &AppState, channel_id: i64, before: &str, fallback: &str) -> (t:
    String)
    ensures
        t@ == match channel_with_id(state.channels@, channel_id) {
            Some(c) => before@ + "#"@ + c.name@ + " "@,
            None => fallback@,
        },
{
    match find_channel(&state.channels, channel_id) {
        Some(i) => {
            let mut t = string_of(before);
            t.append("#");
            t.append(state.channels[i].name.as_str());
            t.append(" ");
            t
        },
        None => string_of(fallback),
    }
}

/// The title of the members popup.
pub fn members_title(state: &AppState, channel_id: i64) -> (t: String)
    ensures
        t@ == match channel_with_id(state.channels@, channel_id) {
            Some(c) => " Members of #"@ + c.name@ + " "@,
            None => " Members "@,
        },
{
    let t = channel_popup_title(state, channel_id, " Members of ", " Members ");
    proof {
        reveal_strlit(" Members of ");
        reveal_strlit(" Members of #");
        reveal_strlit("#");
    }
    assert(" Members of "@ + "#"@ =~= " Members of #"@);
    t
}

/// The title of the add-member popup.
pub fn add_member_title(state: &AppState, channel_id: i64) -> (t: String)
    ensures
        t@ == match channel_with_id(state.channels@, channel_id) {
            Some(c) => " Add user to #"@ + c.name@ + " "@,
            None => " Add user "@,
        },
{
    let t = channel_popup_title(state, channel_id, " Add user to ", " Add user ");
    proof {
        reveal_strlit(" Add user to ");
        reveal_strlit(" Add user to #");
        reveal_strlit("#");
    }
    assert(" Add user to "@ + "#"@ =~= " Add user to #"@);
    t
}

/// The title of the remove-member popup.
pub fn remove_member_title(state: &AppState, channel_id: i64) -> (t: String)
    ensures
        t@ == match channel_with_id(state.channels@, channel_id) {
            Some(c) => " Remove user from #"@ + c.name@ + " "@,
            None => " Remove user "@,
        },
{
    let t = channel_popup_title(state, channel_id, " Remove user from ", " Remove user ");
    proof {
        reveal_strlit(" Remove user from ");
        reveal_strlit(" Remove user from #");
        reveal_strlit("#");
    }
    assert(" Remove user from "@ + "#"@ =~= " Remove user from #"@);
    t
}

/// A row of the channel browser: `"<tag> <name>  — <description>"`, the tag
/// being `[priv]` for private channels and `#` otherwise.
pub fn channel_list_row(c: &Channel) -> (r: String)
    ensures
        r@ == (if c.is_private {
            "[priv]"@
        } else {
            "#"@
        }) + " "@ + c.name@ + "  — "@ + c.description@,
{
    let mut r = if c.is_private {
        string_of("[priv]")
    } else {
        string_of("#")
    };
    r.append(" ");
    r.append(c.name.as_str());
    r.append("  — ");
    r.append(c.description.as_str());
    r
}

/// A row of a member list: `"@<username>"`.
pub fn member_row(m: &ChannelMember) -> (r: String)
    ensures
        r@ == "@"@ + m.username@,
{
    let mut r = string_of("@");
    r.append(m.username.as_str());
    r
}

/// The privacy line of the channel-creation popup.
pub fn privacy_line(is_private: bool) -> (r: String)
    ensures
        r@ == (if is_private {
            "[x]"@
        } else {
            "[ ]"@
        }) + " Private (only owner can add members)"@,
{
    let mut r = if is_private {
        string_of("[x]")
    } else {
        string_of("[ ]")
    };
    r.append(" Private (only owner can add members)");
    r
}

/// The highlighted row of a list of `len` rows for a cursor: the cursor,
/// kept on the last row; none for an empty list.
pub fn highlighted_row(cursor: usize, len: usize) -> (r: Option<usize>)
    ensures
        len == 0 ==> r is None,
        len > 0 ==> r == Some(if cursor < len - 1 {
            cursor
        } else {
            (len - 1) as usize
        }),
{
    if len == 0 {
        None
    } else if cursor < len - 1 {
        Some(cursor)
    } else {
        Some(len - 1)
    }
}

/// The inside of a framed area: `margin` plus the border removed on every
/// side, the size never going below zero.
pub fn inner_area(area: Area, margin: u16) -> (r: Area)
    requires
        area.x + margin + 1 <= u16::MAX,
        area.y + margin + 1 <= u16::MAX,
        (margin + 1) * 2 <= u16::MAX,
    ensures
        r.x == area.x + margin + 1,
        r.y == area.y + margin + 1,
        r.width == if area.width >= (margin + 1) * 2 {
            area.width - (margin + 1) * 2
        } else {
            0
        },
        r.height == if area.height >= (margin + 1) * 2 {
            area.height - (margin + 1) * 2
        } else {
            0
        },
{
    let edge = (margin + 1) * 2;
    Area {
        x: area.x + margin + 1,
        y: area.y + margin + 1,
        width: area.width.saturating_sub(edge),
        height: area.height.saturating_sub(edge),
    }
}

/// How much room one part of a split asks for.
#[derive(Debug, Clone, Copy, PartialEq, Eq, Structural)]
pub enum Size {
    /// A share of the whole, in percent.
    Percentage(u16),
    /// At least this many cells.
    Min(u16),
    /// Exactly this many cells.
    Length(u16),
}

/// `inner` lies within `outer` on both axes.
pub open spec fn inside(outer: Area, inner: Area) -> bool {
    &&& outer.x <= inner.x
    &&& inner.x + inner.width <= outer.x + outer.width
    &&& outer.y <= inner.y
    &&& inner.y + inner.height <= outer.y + outer.height
}

/// `part` is a possible part of `area` cut vertically (`vertical`) or
/// horizontally: it keeps the area's extent across the cut and lies within
/// the area along it.
pub open spec fn part_of(area: Area, vertical: bool, part: Area) -> bool {
    if vertical {
        &&& part.x == area.x
        &&& part.width == area.width
        &&& area.y <= part.y
        &&& part.y + part.height <= area.y + area.height
    } else {
        &&& part.y == area.y
        &&& part.height == area.height
        &&& area.x <= part.x
        &&& part.x + part.width <= area.x + area.width
    }
}

/// The parts ratatui's `Layout::split` may hand back when it cuts `area`
/// vertically (`vertical`) or horizontally by these sizes, in this order.
/// Which of them it picks is left to its solver.
pub uninterp spec fn laid_out(area: Area, vertical: bool, sizes: Seq<Size>, parts: Seq<Area>) -> bool;

/// Calls ratatui's `Layout::split`, vertically or horizontally, with one
/// `Constraint` per size (`Percentage`, `Min` or `Length`). The contract
/// claims what holds of every outcome: the parts are a layout of `area` by
/// these sizes (`laid_out`), one area per constraint, each keeping the
/// whole extent of `area` across the cut and lying within `area` along it
/// (ratatui requires every boundary to stay inside the area and each part
/// to end no earlier than it starts, and builds the rectangles from the
/// area's other coordinates). Not claimed: the sizes ratatui picks (its
/// solver weighs the constraints and may resolve conflicting ones in more
/// than one way), and that the parts follow each other in order (ratatui
/// only prefers that).
#[verifier::external_body]
fn split_area(area: Area, vertical: bool, sizes: Vec<Size>) -> (r: Vec<Area>)
    ensures
        laid_out(area, vertical, sizes@, r@),
        r@.len() == sizes@.len(),
        forall|i: int| 0 <= i < r@.len() ==> part_of(area, vertical, #[trigger] r@[i]),
{
    let direction = if vertical { Direction::Vertical } else { Direction::Horizontal };
    let constraints: Vec<Constraint> = sizes.iter().map(|s| match *s {
        Size::Percentage(p) => Constraint::Percentage(p),
        Size::Min(m) => Constraint::Min(m),
        Size::Length(l) => Constraint::Length(l),
    }).collect();
    let rect = Rect { x: area.x, y: area.y, width: area.width, height: area.height };
    let parts = Layout::default().direction(direction).constraints(constraints).split(rect);
    parts.iter().map(|p| Area { x: p.x, y: p.y, width: p.width, height: p.height }).collect()
}

/// `r` is the middle part of a vertical cut of `area` by `rows`, cut again
/// horizontally by `cols`.
pub open spec fn middle_of_middle(area: Area, rows: Seq<Size>, cols: Seq<Size>, r: Area) -> bool {
    exists|outer: Seq<Area>, inner: Seq<Area>|
        #![trigger laid_out(area, true, rows, outer), laid_out(outer[1], false, cols, inner)]
        {
            &&& laid_out(area, true, rows, outer)
            &&& outer.len() == 3
            &&& laid_out(outer[1], false, cols, inner)
            &&& inner.len() == 3
            &&& r == inner[1]
        }
}

/// A share of `percent` between two equal margins.
pub open spec fn centered_sizes(percent: u16) -> Seq<Size> {
    let margin = ((100 - percent) / 2) as u16;
    seq![Size::Percentage(margin), Size::Percentage(percent), Size::Percentage(margin)]
}

fn sizes3(a: Size, b: Size, c: Size) -> (v: Vec<Size>)
    ensures
        v@ == seq![a, b, c],
{
    let mut v = Vec::new();
    v.push(a);
    v.push(b);
    v.push(c);
    assert(v@ =~= seq![a, b, c]);
    v
}

fn sizes2(a: Size, b: Size) -> (v: Vec<Size>)
    ensures
        v@ == seq![a, b],
{
    let mut v = Vec::new();
    v.push(a);
    v.push(b);
    assert(v@ =~= seq![a, b]);
    v
}

/// The area of a popup: the middle `percent_y` of `area` cut vertically,
/// then the middle `percent_x` of that cut horizontally, with equal margins
/// asked for on both sides. It always lies within `area`.
pub fn centered_rect(percent_x: u16, percent_y: u16, area: Area) -> (r: Area)
    requires
        percent_x <= 100,
        percent_y <= 100,
    ensures
        middle_of_middle(area, centered_sizes(percent_y), centered_sizes(percent_x), r),
        inside(area, r),
{
    let my = (100 - percent_y) / 2;
    let mx = (100 - percent_x) / 2;
    let vs = sizes3(Size::Percentage(my), Size::Percentage(percent_y), Size::Percentage(my));
    let rows = split_area(area, true, vs);
    let row = rows[1];
    assert(part_of(area, true, rows@[1]));
    let hs = sizes3(Size::Percentage(mx), Size::Percentage(percent_x), Size::Percentage(mx));
    let cols = split_area(row, false, hs);
    assert(part_of(row, false, cols@[1]));
    proof {
        assert(vs@ == centered_sizes(percent_y));
        assert(hs@ == centered_sizes(percent_x));
        assert(laid_out(area, true, centered_sizes(percent_y), rows@));
        assert(laid_out(rows@[1], false, centered_sizes(percent_x), cols@));
    }
    cols[1]
}

/// The three panes of the main screen.
#[derive(Debug, Clone, Copy, PartialEq, Eq, Structural)]
pub struct MainLayout {
    pub sidebar: Area,
    pub chat: Area,
    pub input: Area,
}

/// The columns of the main screen: 22% for the sidebar, 78% for the rest.
pub open spec fn main_columns() -> Seq<Size> {
    seq![Size::Percentage(22), Size::Percentage(78)]
}

/// The rows of the right-hand column: the chat takes what is left above an
/// input box three rows high.
pub open spec fn main_rows() -> Seq<Size> {
    seq![Size::Min(0), Size::Length(3)]
}

/// The panes of `l` are those of a layout of `area`: its columns cut by
/// `main_columns`, the sidebar the first, and the second cut by `main_rows`
/// into the chat and the input box.
pub open spec fn main_panes(area: Area, l: MainLayout) -> bool {
    exists|cols: Seq<Area>, rows: Seq<Area>|
        #![trigger laid_out(area, false, main_columns(), cols), laid_out(cols[1], true, main_rows(), rows)]
        {
            &&& laid_out(area, false, main_columns(), cols)
            &&& cols.len() == 2
            &&& laid_out(cols[1], true, main_rows(), rows)
            &&& rows.len() == 2
            &&& l.sidebar == cols[0]
            &&& l.chat == rows[0]
            &&& l.input == rows[1]
        }
}

/// The main screen: a sidebar asking for 22% of the width at full height,
/// and to its right the chat above an input box three rows high, both as
/// wide as the right-hand column.
pub fn main_layout(area: Area) -> (l: MainLayout)
    ensures
        main_panes(area, l),
        part_of(area, false, l.sidebar),
        inside(area, l.chat),
        inside(area, l.input),
        l.chat.x == l.input.x,
        l.chat.width == l.input.width,
{
    let cs = sizes2(Size::Percentage(22), Size::Percentage(78));
    let cols = split_area(area, false, cs);
    let sidebar = cols[0];
    let right = cols[1];
    assert(part_of(area, false, cols@[0]));
    assert(part_of(area, false, cols@[1]));
    let rs = sizes2(Size::Min(0), Size::Length(3));
    let rows = split_area(right, true, rs);
    assert(part_of(right, true, rows@[0]));
    assert(part_of(right, true, rows@[1]));
    let l = MainLayout { sidebar, chat: rows[0], input: rows[1] };
    proof {
        assert(cs@ == main_columns());
        assert(rs@ == main_rows());
        assert(laid_out(area, false, main_columns(), cols@));
        assert(laid_out(cols@[1], true, main_rows(), rows@));
    }
    l
}

/// The rows of the login screen: at least 14 between 30% margins.
pub open spec fn login_rows() -> Seq<Size> {
    seq![Size::Percentage(30), Size::Min(14), Size::Percentage(30)]
}

/// The columns of the login screen: at least 40 between 25% margins.
pub open spec fn login_columns() -> Seq<Size> {
    seq![Size::Percentage(25), Size::Min(40), Size::Percentage(25)]
}

/// The login panel: the middle of `area`, asking for at least 14 rows
/// between 30% margins and at least 40 columns between 25% margins. It
/// always lies within `area`.
pub fn login_panel(area: Area) -> (p: Area)
    ensures
        middle_of_middle(area, login_rows(), login_columns(), p),
        inside(area, p),
{
    let vs = sizes3(Size::Percentage(30), Size::Min(14), Size::Percentage(30));
    let rows = split_area(area, true, vs);
    let row = rows[1];
    assert(part_of(area, true, rows@[1]));
    let hs = sizes3(Size::Percentage(25), Size::Min(40), Size::Percentage(25));
    let cols = split_area(row, false, hs);
    assert(part_of(row, false, cols@[1]));
    proof {
        assert(vs@ == login_rows());
        assert(hs@ == login_columns());
        assert(laid_out(area, true, login_rows(), rows@));
        assert(laid_out(rows@[1], false, login_columns(), cols@));
    }
    cols[1]
}

/// The forms whose rows are laid out top to bottom.
#[derive(Debug, Clone, Copy, PartialEq, Eq, Structural)]
pub enum Form {
    /// Spacer, username, spacer, password, spacer, hint, message.
    Login,
    /// Spacer, name, description, privacy, spacer, hint, error.
    CreateChannel,
    /// Spacer, username, spacer, hint, error.
    AddMember,
    /// A list above a hint line.
    ListWithHint,
    /// Question and hint lines centered between flexible margins.
    Confirm,
}

/// The heights of the rows of a form.
pub open spec fn form_sizes(f: Form) -> Seq<Size> {
    match f {
        Form::Login => seq![
            Size::Length(1),
            Size::Length(3),
            Size::Length(1),
            Size::Length(3),
            Size::Length(1),
            Size::Length(1),
            Size::Length(1),
        ],
        Form::CreateChannel => seq![
            Size::Length(1),
            Size::Length(3),
            Size::Length(3),
            Size::Length(1),
            Size::Length(1),
            Size::Length(1),
            Size::Length(1),
        ],
        Form::AddMember => seq![
            Size::Length(1),
            Size::Length(3),
            Size::Length(1),
            Size::Length(1),
            Size::Length(1),
        ],
        Form::ListWithHint => seq![Size::Min(0), Size::Length(1)],
        Form::Confirm => seq![Size::Min(0), Size::Length(1), Size::Length(1), Size::Min(0)],
    }
}

fn form_size_vec(f: Form) -> (v: Vec<Size>)
    ensures
        v@ == form_sizes(f),
{
    let mut v: Vec<Size> = Vec::new();
    match f {
        Form::Login => {
            v.push(Size::Length(1));
            v.push(Size::Length(3));
            v.push(Size::Length(1));
            v.push(Size::Length(3));
            v.push(Size::Length(1));
            v.push(Size::Length(1));
            v.push(Size::Length(1));
        },
        Form::CreateChannel => {
            v.push(Size::Length(1));
            v.push(Size::Length(3));
            v.push(Size::Length(3));
            v.push(Size::Length(1));
            v.push(Size::Length(1));
            v.push(Size::Length(1));
            v.push(Size::Length(1));
        },
        Form::AddMember => {
            v.push(Size::Length(1));
            v.push(Size::Length(3));
            v.push(Size::Length(1));
            v.push(Size::Length(1));
            v.push(Size::Length(1));
        },
        Form::ListWithHint => {
            v.push(Size::Min(0));
            v.push(Size::Length(1));
        },
        Form::Confirm => {
            v.push(Size::Min(0));
            v.push(Size::Length(1));
            v.push(Size::Length(1));
            v.push(Size::Min(0));
        },
    }
    assert(v@ =~= form_sizes(f));
    v
}

/// The rows of a form laid out top to bottom in `area` by the form's row
/// heights: one per row of the form, each as wide as `area` and within it.
pub fn form_rows(area: Area, form: Form) -> (rows: Vec<Area>)
    ensures
        laid_out(area, true, form_sizes(form), rows@),
        rows@.len() == form_sizes(form).len(),
        forall|i: int| 0 <= i < rows@.len() ==> part_of(area, true, #[trigger] rows@[i]),
{
    split_area(area, true, form_size_vec(form))
}

} // verus!
