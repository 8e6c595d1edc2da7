//! Properties of the client that span several operations or hold of every
//! input, proved over the specifications the operations are verified
//! against.
use vstd::prelude::*;

use crate::events::cursor_down;
use crate::events::cursor_up;
use crate::events::current_index;
use crate::events::is_ctrl;
use crate::events::is_current_at;
use crate::events::lemma_step_mod;
use crate::events::item_conv;
use crate::events::key_post;
use crate::events::navigated;
use crate::events::next_create_field;
use crate::events::next_index;
use crate::events::other_login_field;
use crate::events::KeyCode;
use crate::events::KeyEvent;
use crate::events::KeyOutcome;
use crate::models::Channel;
use crate::models::DirectMessage;
use crate::models::Message;
use crate::models::User;
use crate::models::WsPayload;
use crate::app::ids_except;
use crate::view::channel_with_id;
use crate::view::user_with_id;
use crate::order::lemma_sort_permutes;
use crate::order::lemma_sort_sorted;
use crate::order::sort_by_name;
use crate::order::sorted_by_name;
use crate::state::capped_push;
use crate::state::count_of;
use crate::state::dm_partner;
use crate::state::pop_seq;
use crate::state::queue_of;
use crate::state::queue_views;
use crate::state::user_items;
use crate::state::AppState;
use crate::state::ConversationKind;
use crate::state::CreateChannelField;
use crate::state::LoginField;
use crate::state::Modal;
use crate::state::Screen;
use crate::state::SidebarItem;
use crate::state::MAX_MESSAGES;
use crate::text::all_ws;
use crate::text::is_ws;
use crate::text::trim_end_seq;
use crate::text::trim_seq;
use crate::text::trim_start_seq;

verus! {

// ------------------------------------------------------------------
// Message caches
// ------------------------------------------------------------------

proof fn lemma_queue_after_insert<T>(
    before: Map<i64, std::collections::VecDeque<T>>,
    after: Map<i64, std::collections::VecDeque<T>>,
    id: i64,
    q: Seq<T>,
)
    requires
        queue_views(after) == queue_views(before).insert(id, q),
    ensures
        queue_of(after, id) == q,
        forall|k: i64| k != id ==> queue_of(after, k) == queue_of(before, k),
{
    assert(queue_views(after).contains_key(id));
    assert(queue_views(after)[id] == q);
    assert forall|k: i64| k != id implies queue_of(after, k) == queue_of(before, k) by {
        assert(queue_views(after).contains_key(k) == queue_views(before).contains_key(k));
        if after.contains_key(k) {
            assert(queue_views(after)[k] == queue_views(before)[k]);
        }
    }
}

/// A cache that holds at most `MAX_MESSAGES` messages still does after one
/// more arrives; the newest is last, and the kept messages are the newest
/// ones in their order of arrival.
pub proof fn law_capped_push<T>(q: Seq<T>, x: T)
    requires
        q.len() <= MAX_MESSAGES,
    ensures
        q.len() < MAX_MESSAGES ==> capped_push(q, x) == q.push(x),
        q.len() == MAX_MESSAGES ==> capped_push(q, x) == q.drop_first().push(x),
        capped_push(q, x).len() <= MAX_MESSAGES,
        capped_push(q, x).last() == x,
        capped_push(q, x) == q.push(x).subrange(
            q.push(x).len() - capped_push(q, x).len(),
            q.push(x).len() as int,
        ),
{
    let p = q.push(x);
    if p.len() > MAX_MESSAGES {
        assert(p.drop_first() =~= p.subrange(1, p.len() as int));
        if q.len() == MAX_MESSAGES {
            assert(p.drop_first() =~= q.drop_first().push(x));
        }
    } else {
        assert(p =~= p.subrange(0, p.len() as int));
    }
}

/// A channel message lands in its channel's cache, which stays within
/// `MAX_MESSAGES` and ends with it; no other channel's cache changes.
pub proof fn law_channel_cache(pre: AppState, post: AppState, msg: Message)
    requires
        pre.added_channel_message(post, msg),
        queue_of(pre.channel_messages@, msg.channel_id).len() <= MAX_MESSAGES,
    ensures
        queue_of(post.channel_messages@, msg.channel_id).len() <= MAX_MESSAGES,
        queue_of(post.channel_messages@, msg.channel_id).last() == msg,
        forall|k: i64|
            k != msg.channel_id ==> queue_of(post.channel_messages@, k) == queue_of(
                pre.channel_messages@,
                k,
            ),
{
    let q = queue_of(pre.channel_messages@, msg.channel_id);
    lemma_queue_after_insert(
        pre.channel_messages@,
        post.channel_messages@,
        msg.channel_id,
        capped_push(q, msg),
    );
    law_capped_push(q, msg);
}

/// A direct message lands in the cache of its other party, which stays
/// within `MAX_MESSAGES` and ends with it; no other cache changes.
pub proof fn law_dm_cache(pre: AppState, post: AppState, dm: DirectMessage, me: i64)
    requires
        pre.added_dm_message(post, dm, me),
        queue_of(pre.dm_messages@, dm_partner(dm, me)).len() <= MAX_MESSAGES,
    ensures
        queue_of(post.dm_messages@, dm_partner(dm, me)).len() <= MAX_MESSAGES,
        queue_of(post.dm_messages@, dm_partner(dm, me)).last() == dm,
        forall|k: i64|
            k != dm_partner(dm, me) ==> queue_of(post.dm_messages@, k) == queue_of(
                pre.dm_messages@,
                k,
            ),
{
    let id = dm_partner(dm, me);
    let q = queue_of(pre.dm_messages@, id);
    lemma_queue_after_insert(pre.dm_messages@, post.dm_messages@, id, capped_push(q, dm));
    law_capped_push(q, dm);
}

/// The messages a user sends to a partner and those the partner sends back
/// are filed under the same conversation: the partner's.
pub proof fn law_dm_conversation(sent: DirectMessage, received: DirectMessage, me: i64, other: i64)
    requires
        sent.sender_id == me,
        sent.recipient_id == other,
        received.sender_id == other,
        received.recipient_id == me,
    ensures
        dm_partner(sent, me) == other,
        dm_partner(received, me) == other,
{
}

/// A message to a conversation other than the active one raises its unread
/// count by exactly one and leaves the scroll position alone.
pub proof fn law_unread_counts_once(pre: AppState, post: AppState, msg: Message)
    requires
        pre.added_channel_message(post, msg),
        pre.can_count_channel(msg.channel_id),
        pre.active_conversation != Some(ConversationKind::Channel(msg.channel_id)),
    ensures
        count_of(post.unread_channels@, msg.channel_id) == count_of(
            pre.unread_channels@,
            msg.channel_id,
        ) + 1,
        forall|k: i64|
            k != msg.channel_id ==> count_of(post.unread_channels@, k) == count_of(
                pre.unread_channels@,
                k,
            ),
        post.chat_scroll == pre.chat_scroll,
{
}

/// Selecting a channel marks it read; a message arriving in it afterwards
/// stays read and scrolls the chat to the bottom.
pub proof fn law_selected_channel_stays_read(
    pre: AppState,
    mid: AppState,
    post: AppState,
    msg: Message,
)
    requires
        pre.selected_channel(mid, msg.channel_id),
        mid.added_channel_message(post, msg),
    ensures
        count_of(mid.unread_channels@, msg.channel_id) == 0,
        count_of(post.unread_channels@, msg.channel_id) == 0,
        post.chat_scroll == 0,
        post.active_conversation == Some(ConversationKind::Channel(msg.channel_id)),
{
}

/// Selecting a DM marks it read; a message arriving in it afterwards stays
/// read.
pub proof fn law_selected_dm_stays_read(
    pre: AppState,
    mid: AppState,
    post: AppState,
    dm: DirectMessage,
    me: i64,
)
    requires
        pre.selected_dm(mid, dm_partner(dm, me)),
        mid.added_dm_message(post, dm, me),
    ensures
        count_of(mid.unread_dms@, dm_partner(dm, me)) == 0,
        count_of(post.unread_dms@, dm_partner(dm, me)) == 0,
        post.chat_scroll == 0,
{
}

// ------------------------------------------------------------------
// Input
// ------------------------------------------------------------------

/// Typing a character and deleting it again restores the input line and
/// leaves everything else as it was.
pub proof fn law_push_then_pop(pre: AppState, mid: AppState, post: AppState, c: char)
    requires
        pre.input_now(mid, pre.input_buffer@.push(c)),
        mid.input_now(post, pop_seq(mid.input_buffer@)),
    ensures
        post.input_buffer@ == pre.input_buffer@,
        post == (AppState { input_buffer: post.input_buffer, ..pre }),
{
    assert(pre.input_buffer@.push(c).drop_last() =~= pre.input_buffer@);
}

/// A name made of whitespace only is exactly one that trims to nothing.
pub proof fn law_blank_iff_whitespace(s: Seq<char>)
    ensures
        trim_seq(s).len() == 0 <==> all_ws(s),
    decreases s.len(),
{
    lemma_trim_start_blank(s);
    if trim_start_seq(s).len() > 0 {
        lemma_trim_end_keeps_first(trim_start_seq(s));
    }
}

proof fn lemma_trim_start_blank(s: Seq<char>)
    ensures
        trim_start_seq(s).len() == 0 <==> all_ws(s),
        trim_start_seq(s).len() > 0 ==> !is_ws(trim_start_seq(s)[0]),
    decreases s.len(),
{
    if s.len() > 0 && is_ws(s[0]) {
        lemma_trim_start_blank(s.drop_first());
        if all_ws(s.drop_first()) {
            assert forall|i: int| 0 <= i < s.len() implies is_ws(#[trigger] s[i]) by {
                if i > 0 {
                    assert(s[i] == s.drop_first()[i - 1]);
                }
            }
        } else {
            let k = choose|k: int| 0 <= k < s.drop_first().len() && !is_ws(#[trigger] s.drop_first()[k]);
            assert(!is_ws(s[k + 1]));
        }
    } else if s.len() > 0 {
        assert(!is_ws(s[0]));
    }
}

proof fn lemma_trim_end_keeps_first(s: Seq<char>)
    requires
        s.len() > 0,
        !is_ws(s[0]),
    ensures
        trim_end_seq(s).len() > 0,
    decreases s.len(),
{
    if is_ws(s.last()) {
        assert(s.len() > 1);
        assert(s.drop_last()[0] == s[0]);
        lemma_trim_end_keeps_first(s.drop_last());
    }
}

/// A token without surrounding whitespace is read back from the token file
/// exactly as it was written.
pub proof fn law_token_round_trip(t: Seq<char>)
    requires
        t.len() > 0,
        !is_ws(t[0]),
        !is_ws(t.last()),
    ensures
        trim_seq(t) == t,
        trim_seq(t).len() > 0,
{
    assert(trim_start_seq(t) == t);
}

// ------------------------------------------------------------------
// Keys
// ------------------------------------------------------------------

/// Only Ctrl+C quits, and quitting changes nothing.
pub proof fn law_quit(pre: AppState, key: KeyEvent, online: bool, post: AppState, out: KeyOutcome)
    requires
        key_post(pre, key, online, post, out),
    ensures
        out.quit ==> is_ctrl(key, 'c') && post == pre && out.send is None,
{
}

/// Esc closes whatever popup is open, and nothing else changes.
pub proof fn law_esc_closes_popup(
    pre: AppState,
    key: KeyEvent,
    online: bool,
    post: AppState,
    out: KeyOutcome,
)
    requires
        key_post(pre, key, online, post, out),
        pre.screen == Screen::Main,
        !(pre.modal is Closed),
        key.code == KeyCode::Esc,
    ensures
        post == (AppState { modal: Modal::Closed, ..pre }),
        !out.quit,
        out.send is None,
{
}

/// Tab on the login screen switches between the two fields; twice comes
/// back to the first.
pub proof fn law_login_tab_cycle(f: LoginField)
    ensures
        other_login_field(f) != f,
        other_login_field(other_login_field(f)) == f,
{
}

/// Tab in the channel-creation popup visits the three fields in turn.
pub proof fn law_create_tab_cycle(f: CreateChannelField)
    ensures
        next_create_field(f) != f,
        next_create_field(next_create_field(f)) != f,
        next_create_field(next_create_field(next_create_field(f))) == f,
{
}

/// In a list of `len` rows, moving the cursor down then up (or up then
/// down) comes back to the same row, and the cursor stays on a row.
pub proof fn law_cursor_round_trip(c: usize, len: usize)
    requires
        c < len,
    ensures
        cursor_down(c, len as int) < len,
        cursor_up(c, len as int) < len,
        cursor_up(cursor_down(c, len as int), len as int) == c,
        cursor_down(cursor_up(c, len as int), len as int) == c,
{
    lemma_step_mod(c as int, len as int);
    let d = cursor_down(c, len as int);
    let u = cursor_up(c, len as int);
    lemma_step_mod(u as int, len as int);
}

// ------------------------------------------------------------------
// Sidebar
// ------------------------------------------------------------------

proof fn lemma_user_items_exclude(users: Seq<crate::models::User>, me: i64)
    ensures
        forall|i: int|
            0 <= i < user_items(users, me).len() ==> (#[trigger] user_items(users, me)[i] matches SidebarItem::User(u) && u.id != me),
    decreases users.len(),
{
    if users.len() > 0 {
        lemma_user_items_exclude(users.drop_last(), me);
    }
}

/// The sidebar lists every channel first, and then users, never the
/// logged-in one; while nobody is logged in it lists no user.
pub proof fn law_sidebar_shape(state: AppState)
    ensures
        forall|i: int|
            0 <= i < state.channels@.len() ==> #[trigger] state.sidebar_spec()[i]
                == SidebarItem::Channel(state.channels@[i]),
        forall|i: int|
            state.channels@.len() <= i < state.sidebar_spec().len() ==> (
            #[trigger] state.sidebar_spec()[i] matches SidebarItem::User(u) && state.current_user
                matches Some(me) && u.id != me.id),
{
    match state.current_user {
        Some(me) => {
            lemma_user_items_exclude(state.users@, me.id);
            assert forall|i: int|
                state.channels@.len() <= i < state.sidebar_spec().len() implies (
            #[trigger] state.sidebar_spec()[i] matches SidebarItem::User(u) && state.current_user
                matches Some(me) && u.id != me.id) by {
                assert(state.sidebar_spec()[i] == user_items(state.users@, me.id)[i
                    - state.channels@.len()]);
            }
        },
        None => {},
    }
}

/// Rows standing for pairwise different conversations.
pub open spec fn distinct_rows(items: Seq<SidebarItem>) -> bool {
    forall|i: int, j: int|
        0 <= i < items.len() && 0 <= j < items.len() && i != j ==> item_conv(#[trigger] items[i])
            != item_conv(#[trigger] items[j])
}

proof fn lemma_current_index(items: Seq<SidebarItem>, active: Option<ConversationKind>, i: int)
    requires
        distinct_rows(items),
        0 <= i < items.len(),
        active == Some(item_conv(items[i])),
    ensures
        current_index(items, active) == i,
{
    assert(is_current_at(items, active, i));
    assert forall|k: int| is_current_at(items, active, k) implies k == i by {
        if k != i {
            assert(item_conv(items[k]) != item_conv(items[i]));
        }
    }
}

proof fn lemma_navigated_selects(pre: AppState, post: AppState, delta: int)
    requires
        navigated(pre, post, delta),
        pre.sidebar_spec().len() > 0,
    ensures
        post.sidebar_spec() == pre.sidebar_spec(),
        post.active_conversation == Some(
            item_conv(
                pre.sidebar_spec()[next_index(pre.sidebar_spec(), pre.active_conversation, delta)],
            ),
        ),
{
}

/// Moving down the sidebar and then up again returns to the conversation
/// that was active, provided the rows stand for different conversations
/// and the active one has a row.
pub proof fn law_navigate_round_trip(pre: AppState, mid: AppState, post: AppState, i: int)
    requires
        distinct_rows(pre.sidebar_spec()),
        0 <= i < pre.sidebar_spec().len(),
        pre.active_conversation == Some(item_conv(pre.sidebar_spec()[i])),
        navigated(pre, mid, 1),
        navigated(mid, post, -1),
    ensures
        post.active_conversation == pre.active_conversation,
{
    let items = pre.sidebar_spec();
    let len = items.len() as int;
    lemma_current_index(items, pre.active_conversation, i);
    lemma_step_mod(i, len);
    lemma_navigated_selects(pre, mid, 1);
    let j = (i + 1) % len;
    assert(0 <= j < len);
    lemma_current_index(items, mid.active_conversation, j);
    lemma_step_mod(j, len);
    lemma_navigated_selects(mid, post, -1);
}

// ------------------------------------------------------------------
// Laws stated over the public key handler
// ------------------------------------------------------------------

/// While a popup is open every key goes to the popup: Ctrl+C does not quit
/// and nothing is sent.
pub proof fn law_popup_captures_keys(
    pre: AppState,
    key: KeyEvent,
    online: bool,
    post: AppState,
    out: KeyOutcome,
)
    requires
        key_post(pre, key, online, post, out),
        pre.screen == Screen::Main,
        !(pre.modal is Closed),
    ensures
        !out.quit,
        out.send is None,
        crate::events::modal_key_post(pre, key, post),
{
}

/// In the channel browser and the remove-member popup, Up and Down move
/// the cursor one row with wrap-around, stay on a row, and change nothing
/// else.
pub proof fn law_popup_cursor_wrap(
    pre: AppState,
    key: KeyEvent,
    online: bool,
    post: AppState,
    out: KeyOutcome,
    c: usize,
    n: usize,
)
    requires
        key_post(pre, key, online, post, out),
        pre.screen == Screen::Main,
        key.code == KeyCode::Up || key.code == KeyCode::Down,
        c < n,
        (pre.modal == Modal::ChannelList { cursor: c } && n == pre.channels@.len()) || (
        pre.modal matches Modal::RemoveMember { members, cursor, .. } && cursor == c
            && members@.len() == n),
    ensures
        ({
            let c2: usize = if key.code == KeyCode::Down {
                ((c + 1) % (n as int)) as usize
            } else {
                ((c + n - 1) % (n as int)) as usize
            };
            &&& c2 < n
            &&& match pre.modal {
                Modal::ChannelList { .. } => post == (AppState {
                    modal: Modal::ChannelList { cursor: c2 },
                    ..pre
                }),
                Modal::RemoveMember { channel_id, members, loading, .. } => post == (AppState {
                    modal: Modal::RemoveMember { channel_id, members, cursor: c2, loading },
                    ..pre
                }),
                _ => false,
            }
        }),
{
    lemma_step_mod(c as int, n as int);
    if c > 0 {
        vstd::arithmetic::div_mod::lemma_small_mod((c - 1) as nat, n as nat);
        assert((c + n - 1) % (n as int) == c - 1) by {
            vstd::arithmetic::div_mod::lemma_mod_add_multiples_vanish((c - 1) as int, n as int);
        }
    } else {
        vstd::arithmetic::div_mod::lemma_small_mod((n - 1) as nat, n as nat);
    }
}

/// Channel ids are pairwise different.
pub open spec fn distinct_channel_ids(chs: Seq<Channel>) -> bool {
    forall|i: int, j: int| 0 <= i < j < chs.len() ==> #[trigger] chs[i].id != #[trigger] chs[j].id
}

/// User ids are pairwise different.
pub open spec fn distinct_user_ids(users: Seq<crate::models::User>) -> bool {
    forall|i: int, j: int|
        0 <= i < j < users.len() ==> #[trigger] users[i].id != #[trigger] users[j].id
}

proof fn lemma_user_items_from(users: Seq<crate::models::User>, me: i64)
    ensures
        forall|k: int|
            0 <= k < user_items(users, me).len() ==> exists|j: int|
                0 <= j < users.len() && #[trigger] user_items(users, me)[k] == SidebarItem::User(
                    users[j],
                ),
    decreases users.len(),
{
    if users.len() > 0 {
        let rest = users.drop_last();
        lemma_user_items_from(rest, me);
        assert forall|k: int| 0 <= k < user_items(users, me).len() implies exists|j: int|
            0 <= j < users.len() && #[trigger] user_items(users, me)[k] == SidebarItem::User(
                users[j],
            ) by {
            if k < user_items(rest, me).len() {
                let j = choose|j: int|
                    0 <= j < rest.len() && user_items(rest, me)[k] == SidebarItem::User(rest[j]);
                assert(users[j] == rest[j]);
            } else {
                assert(user_items(users, me)[k] == SidebarItem::User(users[users.len() - 1]));
            }
        }
    }
}

proof fn lemma_user_items_distinct(users: Seq<crate::models::User>, me: i64)
    requires
        distinct_user_ids(users),
    ensures
        forall|i: int, j: int|
            0 <= i < j < user_items(users, me).len() ==> item_conv(
                #[trigger] user_items(users, me)[i],
            ) != item_conv(#[trigger] user_items(users, me)[j]),
    decreases users.len(),
{
    if users.len() > 0 {
        let rest = users.drop_last();
        let last = users[users.len() - 1];
        assert(distinct_user_ids(rest)) by {
            assert forall|i: int, j: int| 0 <= i < j < rest.len() implies #[trigger] rest[i].id
                != #[trigger] rest[j].id by {
                assert(rest[i] == users[i] && rest[j] == users[j]);
            }
        }
        lemma_user_items_distinct(rest, me);
        lemma_user_items_from(rest, me);
        let r = user_items(rest, me);
        assert forall|i: int, j: int|
            0 <= i < j < user_items(users, me).len() implies item_conv(
            #[trigger] user_items(users, me)[i],
        ) != item_conv(#[trigger] user_items(users, me)[j]) by {
            if j >= r.len() {
                let k = choose|k: int| 0 <= k < rest.len() && r[i] == SidebarItem::User(rest[k]);
                assert(users[k] == rest[k]);
                assert(users[k].id != last.id);
            }
        }
    }
}

/// Different channels and different users give sidebar rows that stand for
/// different conversations.
pub proof fn law_distinct_rows(state: AppState)
    requires
        distinct_channel_ids(state.channels@),
        distinct_user_ids(state.users@),
    ensures
        distinct_rows(state.sidebar_spec()),
{
    let items = state.sidebar_spec();
    let nc = state.channels@.len() as int;
    let us = match state.current_user {
        Some(me) => user_items(state.users@, me.id),
        None => Seq::empty(),
    };
    match state.current_user {
        Some(me) => {
            lemma_user_items_distinct(state.users@, me.id);
            lemma_user_items_exclude(state.users@, me.id);
        },
        None => {},
    }
    assert forall|i: int, j: int|
        0 <= i < items.len() && 0 <= j < items.len() && i != j implies item_conv(
        #[trigger] items[i],
    ) != item_conv(#[trigger] items[j]) by {
        if i < nc && j < nc {
            assert(items[i] == SidebarItem::Channel(state.channels@[i]));
            assert(items[j] == SidebarItem::Channel(state.channels@[j]));
        } else if i >= nc && j >= nc {
            assert(items[i] == us[i - nc]);
            assert(items[j] == us[j - nc]);
            if i < j {
                assert(item_conv(us[i - nc]) != item_conv(us[j - nc]));
            } else {
                assert(item_conv(us[j - nc]) != item_conv(us[i - nc]));
            }
        } else if i < nc {
            assert(items[i] == SidebarItem::Channel(state.channels@[i]));
            assert(items[j] == us[j - nc]);
            assert(us[j - nc] is User);
        } else {
            assert(items[j] == SidebarItem::Channel(state.channels@[j]));
            assert(items[i] == us[i - nc]);
            assert(us[i - nc] is User);
        }
    }
}

/// Down then Up on the main screen (input empty, no popup) returns to the
/// conversation that was active, when channel ids and user ids are each
/// unique and the active conversation has a row; the channels, users and
/// logged-in user stay as they were.
pub proof fn law_sidebar_keys_round_trip(
    pre: AppState,
    down: KeyEvent,
    mid: AppState,
    out1: KeyOutcome,
    up: KeyEvent,
    post: AppState,
    out2: KeyOutcome,
    online: bool,
    i: int,
)
    requires
        pre.screen == Screen::Main,
        pre.modal is Closed,
        pre.input_buffer@.len() == 0,
        down.code == KeyCode::Down,
        up.code == KeyCode::Up,
        key_post(pre, down, online, mid, out1),
        key_post(mid, up, online, post, out2),
        distinct_channel_ids(pre.channels@),
        distinct_user_ids(pre.users@),
        0 <= i < pre.sidebar_spec().len(),
        pre.active_conversation == Some(item_conv(pre.sidebar_spec()[i])),
    ensures
        post.active_conversation == pre.active_conversation,
        post.channels == pre.channels,
        post.users == pre.users,
        post.current_user == pre.current_user,
{
    law_distinct_rows(pre);
    assert(navigated(pre, mid, 1));
    assert(mid.screen == Screen::Main && mid.modal is Closed && mid.input_buffer@.len() == 0);
    assert(navigated(mid, post, -1));
    law_navigate_round_trip(pre, mid, post, i);
}

// ------------------------------------------------------------------
// Channel list
// ------------------------------------------------------------------

/// After a channel is created the list is ordered by name and holds the
/// channels it held before plus the new one, each as often as before.
pub proof fn law_created_channel_list(before: Seq<Channel>, ch: Channel)
    ensures
        sorted_by_name(sort_by_name(before.push(ch))),
        sort_by_name(before.push(ch)).to_multiset() == before.to_multiset().insert(ch),
{
    broadcast use vstd::seq_lib::group_to_multiset_ensures;

    lemma_sort_sorted(before.push(ch));
    lemma_sort_permutes(before.push(ch));
}

// ------------------------------------------------------------------
// Who is listed and subscribed to
// ------------------------------------------------------------------

/// Keeps the users whose id is not `me`.
pub open spec fn not_me(me: i64) -> spec_fn(User) -> bool {
    |u: User| u.id != me
}

/// A user's id.
pub open spec fn id_of_user() -> spec_fn(User) -> i64 {
    |u: User| u.id
}

/// The sidebar row of a user.
pub open spec fn user_row() -> spec_fn(User) -> SidebarItem {
    |u: User| SidebarItem::User(u)
}

/// The sidebar row of a channel.
pub open spec fn channel_row() -> spec_fn(Channel) -> SidebarItem {
    |c: Channel| SidebarItem::Channel(c)
}

proof fn lemma_push_map<A, B>(s: Seq<A>, x: A, f: spec_fn(A) -> B)
    ensures
        s.push(x).map_values(f) == s.map_values(f).push(f(x)),
{
    assert(s.push(x).map_values(f) =~= s.map_values(f).push(f(x)));
}

proof fn lemma_ids_except_filter(users: Seq<User>, me: i64)
    ensures
        ids_except(users, me) == users.filter(not_me(me)).map_values(id_of_user()),
    decreases users.len(),
{
    reveal(Seq::filter);
    if users.len() == 0 {
        assert(users.filter(not_me(me)).map_values(id_of_user()) =~= Seq::<i64>::empty());
    } else {
        lemma_ids_except_filter(users.drop_last(), me);
        let kept = users.drop_last().filter(not_me(me));
        assert(users.filter(not_me(me)) == if users.last().id != me {
            kept.push(users.last())
        } else {
            kept
        });
        lemma_push_map(kept, users.last(), id_of_user());
    }
}

proof fn lemma_user_items_filter(users: Seq<User>, me: i64)
    ensures
        user_items(users, me) == users.filter(not_me(me)).map_values(user_row()),
    decreases users.len(),
{
    reveal(Seq::filter);
    if users.len() == 0 {
        assert(users.filter(not_me(me)).map_values(user_row()) =~= Seq::<SidebarItem>::empty());
    } else {
        lemma_user_items_filter(users.drop_last(), me);
        let kept = users.drop_last().filter(not_me(me));
        assert(users.filter(not_me(me)) == if users.last().id != me {
            kept.push(users.last())
        } else {
            kept
        });
        lemma_push_map(kept, users.last(), user_row());
    }
}

/// Every user `users[i]` other than `me` survives the filter, at some place.
proof fn lemma_other_user_kept(users: Seq<User>, me: i64, i: int)
    requires
        0 <= i < users.len(),
        users[i].id != me,
    ensures
        exists|k: int|
            0 <= k < users.filter(not_me(me)).len() && #[trigger] users.filter(not_me(me))[k]
                == users[i],
{
    users.lemma_filter_contains(not_me(me), i);
}

/// The live-update subscription asks for the DMs with exactly the known
/// users other than the logged-in one, in the order they are listed: each
/// of them is there (wherever they stand in the list) and the logged-in
/// user never is.
pub proof fn law_dm_subscriptions_cover_others(state: AppState)
    ensures
        state.dm_user_ids_spec() == state.users@.filter(not_me(state.my_id_spec())).map_values(
            id_of_user(),
        ),
        forall|i: int|
            0 <= i < state.users@.len() && state.users@[i].id != state.my_id_spec()
                ==> state.dm_user_ids_spec().contains(#[trigger] state.users@[i].id),
        forall|k: int|
            0 <= k < state.dm_user_ids_spec().len() ==> #[trigger] state.dm_user_ids_spec()[k]
                != state.my_id_spec(),
{
    let me = state.my_id_spec();
    let users = state.users@;
    lemma_ids_except_filter(users, me);
    let kept = users.filter(not_me(me));
    assert forall|i: int| 0 <= i < users.len() && users[i].id != me implies state.dm_user_ids_spec().contains(
        #[trigger] users[i].id,
    ) by {
        lemma_other_user_kept(users, me, i);
        let k = choose|k: int| 0 <= k < kept.len() && #[trigger] kept[k] == users[i];
        assert(state.dm_user_ids_spec()[k] == users[i].id);
    }
    assert forall|k: int| 0 <= k < state.dm_user_ids_spec().len() implies #[trigger] state.dm_user_ids_spec()[k]
        != me by {
        users.lemma_filter_pred(not_me(me), k);
    }
}

/// The sidebar lists every channel, in order, and then a row for exactly
/// the known users other than the logged-in one, in the order they are
/// listed; every such user has a row, wherever they stand in the list.
/// While nobody is logged in it lists no user.
pub proof fn law_sidebar_lists_every_other_user(state: AppState)
    ensures
        state.sidebar_spec() == state.channels@.map_values(channel_row()) + match state.current_user {
            Some(me) => state.users@.filter(not_me(me.id)).map_values(user_row()),
            None => Seq::empty(),
        },
        forall|i: int|
            0 <= i < state.users@.len() && (state.current_user matches Some(me) && state.users@[i].id
                != me.id) ==> state.sidebar_spec().contains(SidebarItem::User(#[trigger] state.users@[i])),
{
    assert(crate::state::channel_items(state.channels@) =~= state.channels@.map_values(channel_row()));
    match state.current_user {
        Some(me) => {
            let users = state.users@;
            lemma_user_items_filter(users, me.id);
            let kept = users.filter(not_me(me.id));
            let n = state.channels@.len();
            assert forall|i: int| 0 <= i < users.len() && users[i].id != me.id implies state.sidebar_spec().contains(
                SidebarItem::User(#[trigger] users[i]),
            ) by {
                lemma_other_user_kept(users, me.id, i);
                let k = choose|k: int| 0 <= k < kept.len() && #[trigger] kept[k] == users[i];
                assert(state.sidebar_spec()[n + k] == SidebarItem::User(users[i]));
            }
        },
        None => {},
    }
}

// ------------------------------------------------------------------
// Sending, logging out, finding a channel
// ------------------------------------------------------------------

/// On the main screen with no popup open, Enter with a non-empty input
/// and an active conversation, while the socket is open, hands out the
/// envelope that sends the input there (a `message.send` to a channel, a
/// `dm.send` to a user), clears the input, queues nothing and shows no new
/// status.
pub proof fn law_enter_sends_when_online(
    pre: AppState,
    key: KeyEvent,
    post: AppState,
    out: KeyOutcome,
    conv: ConversationKind,
)
    requires
        key_post(pre, key, true, post, out),
        pre.screen == Screen::Main,
        pre.modal is Closed,
        key.code == KeyCode::Enter,
        pre.input_buffer@.len() > 0,
        pre.active_conversation == Some(conv),
    ensures
        !out.quit,
        out.send is Some,
        match conv {
            ConversationKind::Channel(id) => {
                &&& out.send.unwrap().event_type@ == "message.send"@
                &&& out.send.unwrap().payload == WsPayload::MessageSend {
                    channel_id: id,
                    content: pre.input_buffer,
                }
            },
            ConversationKind::DM(id) => {
                &&& out.send.unwrap().event_type@ == "dm.send"@
                &&& out.send.unwrap().payload == WsPayload::DmSend {
                    recipient_id: id,
                    content: pre.input_buffer,
                }
            },
        },
        post.input_buffer@.len() == 0,
        post.pending_ws_outbox@ == pre.pending_ws_outbox@,
        post == (AppState { input_buffer: post.input_buffer, ..pre }),
{
}

/// The same Enter while the socket is closed sends nothing: the envelope
/// for that conversation is queued at the end of the outbox for a retry,
/// the input is cleared and the status says the message was queued.
pub proof fn law_enter_queues_when_offline(
    pre: AppState,
    key: KeyEvent,
    post: AppState,
    out: KeyOutcome,
    conv: ConversationKind,
)
    requires
        key_post(pre, key, false, post, out),
        pre.screen == Screen::Main,
        pre.modal is Closed,
        key.code == KeyCode::Enter,
        pre.input_buffer@.len() > 0,
        pre.active_conversation == Some(conv),
    ensures
        !out.quit,
        out.send is None,
        post.pending_ws_outbox@.len() == pre.pending_ws_outbox@.len() + 1,
        post.pending_ws_outbox@.drop_last() == pre.pending_ws_outbox@,
        match conv {
            ConversationKind::Channel(id) => {
                &&& post.pending_ws_outbox@.last().event_type@ == "message.send"@
                &&& post.pending_ws_outbox@.last().payload == WsPayload::MessageSend {
                    channel_id: id,
                    content: pre.input_buffer,
                }
            },
            ConversationKind::DM(id) => {
                &&& post.pending_ws_outbox@.last().event_type@ == "dm.send"@
                &&& post.pending_ws_outbox@.last().payload == WsPayload::DmSend {
                    recipient_id: id,
                    content: pre.input_buffer,
                }
            },
        },
        post.status_message matches Some(m) && m@ == "Offline: message queued for retry"@,
        post.input_buffer@.len() == 0,
        post == (AppState {
            input_buffer: post.input_buffer,
            pending_ws_outbox: post.pending_ws_outbox,
            status_message: post.status_message,
            ..pre
        }),
{
}

/// In the logout confirmation, `y` or `Y` logs out and closes the popup,
/// `n` or `N` closes it without logging out, and any other character
/// leaves it open with nothing changed.
pub proof fn law_confirm_logout(
    pre: AppState,
    c: char,
    key: KeyEvent,
    online: bool,
    post: AppState,
    out: KeyOutcome,
)
    requires
        key_post(pre, key, online, post, out),
        pre.screen == Screen::Main,
        pre.modal == Modal::ConfirmLogout,
        key.code == KeyCode::Char(c),
    ensures
        !out.quit,
        out.send is None,
        c == 'y' || c == 'Y' ==> post == (AppState {
            pending_logout: true,
            modal: Modal::Closed,
            ..pre
        }),
        c == 'n' || c == 'N' ==> post == (AppState { modal: Modal::Closed, ..pre }),
        !(c == 'y' || c == 'Y' || c == 'n' || c == 'N') ==> post == pre,
{
}

/// The channel looked up by id is the first channel in the list with that
/// id; there is none exactly when no channel has it.
pub proof fn law_channel_lookup(channels: Seq<Channel>, id: i64)
    ensures
        match channel_with_id(channels, id) {
            Some(c) => exists|i: int|
                0 <= i < channels.len() && #[trigger] channels[i] == c && c.id == id && forall|j: int|
                    0 <= j < i ==> #[trigger] channels[j].id != id,
            None => forall|i: int| 0 <= i < channels.len() ==> #[trigger] channels[i].id != id,
        },
    decreases channels.len(),
{
    if channels.len() > 0 {
        let rest = channels.drop_first();
        law_channel_lookup(rest, id);
        if channels[0].id != id {
            match channel_with_id(rest, id) {
                Some(c) => {
                    let i = choose|i: int|
                        0 <= i < rest.len() && #[trigger] rest[i] == c && c.id == id && forall|j: int|
                            0 <= j < i ==> #[trigger] rest[j].id != id;
                    assert(channels[i + 1] == c);
                    assert forall|j: int| 0 <= j < i + 1 implies #[trigger] channels[j].id != id by {
                        if j > 0 {
                            assert(channels[j] == rest[j - 1]);
                        }
                    }
                },
                None => {
                    assert forall|i: int| 0 <= i < channels.len() implies #[trigger] channels[i].id
                        != id by {
                        if i > 0 {
                            assert(channels[i] == rest[i - 1]);
                        }
                    }
                },
            }
        }
    }
}

/// The user looked up by id is the first user in the list with that id;
/// there is none exactly when no user has it.
pub proof fn law_user_lookup(users: Seq<User>, id: i64)
    ensures
        match user_with_id(users, id) {
            Some(u) => exists|i: int|
                0 <= i < users.len() && #[trigger] users[i] == u && u.id == id && forall|j: int|
                    0 <= j < i ==> #[trigger] users[j].id != id,
            None => forall|i: int| 0 <= i < users.len() ==> #[trigger] users[i].id != id,
        },
    decreases users.len(),
{
    if users.len() > 0 {
        let rest = users.drop_first();
        law_user_lookup(rest, id);
        if users[0].id != id {
            match user_with_id(rest, id) {
                Some(u) => {
                    let i = choose|i: int|
                        0 <= i < rest.len() && #[trigger] rest[i] == u && u.id == id && forall|j: int|
                            0 <= j < i ==> #[trigger] rest[j].id != id;
                    assert(users[i + 1] == u);
                    assert forall|j: int| 0 <= j < i + 1 implies #[trigger] users[j].id != id by {
                        if j > 0 {
                            assert(users[j] == rest[j - 1]);
                        }
                    }
                },
                None => {
                    assert forall|i: int| 0 <= i < users.len() implies #[trigger] users[i].id != id by {
                        if i > 0 {
                            assert(users[i] == rest[i - 1]);
                        }
                    }
                },
            }
        }
    }
}

} // verus!
