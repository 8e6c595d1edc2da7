//! The client's state: which screen is shown, the login form, the known
//! channels and users, the message caches with their unread counters,
//! the input line, the open modal and the actions waiting for the network.
use std::collections::HashMap;
use std::collections::VecDeque;
use vstd::prelude::*;

use crate::models::Channel;
use crate::models::ChannelMember;
use crate::models::DirectMessage;
use crate::models::Message;
use crate::models::User;
use crate::models::WsEnvelope;
use crate::text::pop_char;
use crate::text::push_char;
use crate::text::string_of;

verus! {

broadcast use vstd::std_specs::hash::group_hash_axioms;

/// At most this many messages are kept per conversation; the oldest go first.
pub const MAX_MESSAGES: usize = 500;

#[derive(Debug, Clone, Copy, PartialEq, Eq, Structural)]
pub enum Screen {
    Login,
    Main,
}

#[derive(Debug, Clone, Copy, PartialEq, Eq, Structural)]
pub enum ConversationKind {
    Channel(i64),
    /// Keyed by the partner's user id.
    DM(i64),
}

#[derive(Debug, Clone, Copy, PartialEq, Eq, Structural)]
pub enum CreateChannelField {
    Name,
    Description,
    Privacy,
}

#[derive(Debug, Clone, Copy, PartialEq, Eq, Structural)]
pub enum LoginField {
    Username,
    Password,
}

#[derive(Debug, Clone, Copy, PartialEq, Eq, Structural)]
pub enum WsLifecycle {
    Disconnected,
    Connecting,
    Connected,
    Reconnecting,
}

/// The popup that currently captures the keyboard, if any.
#[derive(Debug)]
pub enum Modal {
    Closed,
    CreateChannel {
        name: String,
        description: String,
        is_private: bool,
        field: CreateChannelField,
        error: Option<String>,
    },
    ChannelList { cursor: usize },
    MembersList { channel_id: i64, members: Vec<ChannelMember>, loading: bool },
    AddMember { channel_id: i64, username_input: String, error: Option<String> },
    RemoveMember { channel_id: i64, members: Vec<ChannelMember>, cursor: usize, loading: bool },
    ConfirmLogout,
}

impl Modal {
    /// Whether a popup is shown.
    pub fn is_open(&self) -> (b: bool)
        ensures
            b == !(*self is Closed),
    {
        match self {
            Modal::Closed => false,
            _ => true,
        }
    }
}

/// One row of the sidebar.
#[derive(Debug)]
pub enum SidebarItem {
    Channel(Channel),
    User(User),
}

pub struct AppState {
    pub screen: Screen,
    pub current_user: Option<User>,
    // Login form
    pub login_username: String,
    pub login_password: String,
    pub login_field: LoginField,
    pub login_error: Option<String>,
    pub login_status: Option<String>,
    // Main screen
    pub channels: Vec<Channel>,
    pub users: Vec<User>,
    pub active_conversation: Option<ConversationKind>,
    // Message caches
    pub channel_messages: HashMap<i64, VecDeque<Message>>,
    pub dm_messages: HashMap<i64, VecDeque<DirectMessage>>,
    // Input
    pub input_buffer: String,
    /// Scroll offset of the chat pane, in lines.
    pub chat_scroll: u16,
    // Status bar
    pub status_message: Option<String>,
    pub ws_lifecycle: WsLifecycle,
    // Unread counts
    pub unread_channels: HashMap<i64, usize>,
    pub unread_dms: HashMap<i64, usize>,
    /// Set when a DM is selected whose history has not been loaded yet.
    pub pending_dm_history: Option<i64>,
    pub modal: Modal,
    // Actions requested from modals, carried out around network calls
    pub pending_create_channel: bool,
    pub pending_load_members: Option<i64>,
    pub pending_load_members_remove: Option<i64>,
    pub pending_add_member: Option<(i64, i64)>,
    pub pending_remove_member: Option<(i64, i64)>,
    pub pending_self_join: Option<i64>,
    pub pending_logout: bool,
    pub pending_ws_outbox: VecDeque<WsEnvelope>,
}

// ------------------------------------------------------------------
// Specifications
// ------------------------------------------------------------------

/// The counter kept for `k`, zero when there is none.
pub open spec fn count_of(m: Map<i64, usize>, k: i64) -> int {
    if m.contains_key(k) {
        m[k] as int
    } else {
        0
    }
}

/// The message queues of a cache, each by its contents.
pub open spec fn queue_views<T>(m: Map<i64, VecDeque<T>>) -> Map<i64, Seq<T>> {
    m.map_values(|q: VecDeque<T>| q@)
}

/// The queue kept for `k`, empty when there is none.
pub open spec fn queue_of<T>(m: Map<i64, VecDeque<T>>, k: i64) -> Seq<T> {
    if m.contains_key(k) {
        m[k]@
    } else {
        Seq::empty()
    }
}

/// `q` with `x` appended, and its oldest entry dropped once it holds more
/// than `MAX_MESSAGES` entries.
pub open spec fn capped_push<T>(q: Seq<T>, x: T) -> Seq<T> {
    let p = q.push(x);
    if p.len() > MAX_MESSAGES {
        p.drop_first()
    } else {
        p
    }
}

/// The other party of a direct message, seen from `me`.
pub open spec fn dm_partner(dm: DirectMessage, me: i64) -> i64 {
    if dm.sender_id == me {
        dm.recipient_id
    } else {
        dm.sender_id
    }
}

/// Sidebar rows for the users other than `me`, in order.
pub open spec fn user_items(users: Seq<User>, me: i64) -> Seq<SidebarItem>
    decreases users.len(),
{
    if users.len() == 0 {
        Seq::empty()
    } else {
        let rest = user_items(users.drop_last(), me);
        if users.last().id != me {
            rest.push(SidebarItem::User(users.last()))
        } else {
            rest
        }
    }
}

/// Sidebar rows for the channels, in order.
pub open spec fn channel_items(channels: Seq<Channel>) -> Seq<SidebarItem> {
    Seq::new(channels.len(), |i: int| SidebarItem::Channel(channels[i]))
}


/// The view of an optional message.
pub open spec fn opt_view(o: Option<String>) -> Option<Seq<char>> {
    match o {
        Some(s) => Some(s@),
        None => None,
    }
}

/// `s` without its last character, if it has one (what `String::pop` leaves).
pub open spec fn pop_seq(s: Seq<char>) -> Seq<char> {
    if s.len() == 0 {
        s
    } else {
        s.drop_last()
    }
}

/// `m` is the channel-creation popup with these contents.
pub open spec fn create_modal_is(
    m: Modal,
    name: Seq<char>,
    description: Seq<char>,
    is_private: bool,
    field: CreateChannelField,
    error: Option<Seq<char>>,
) -> bool {
    m matches Modal::CreateChannel { name: n, description: d, is_private: p, field: f, error: e }
        && n@ == name && d@ == description && p == is_private && f == field && opt_view(e)
        == error
}

/// `m` is the add-member popup with these contents.
pub open spec fn add_modal_is(
    m: Modal,
    channel_id: i64,
    input: Seq<char>,
    error: Option<Seq<char>>,
) -> bool {
    m matches Modal::AddMember { channel_id: c, username_input: u, error: e } && c == channel_id
        && u@ == input && opt_view(e) == error
}

/// `m` is the members popup with these contents.
pub open spec fn members_modal_is(
    m: Modal,
    channel_id: i64,
    members: Seq<ChannelMember>,
    loading: bool,
) -> bool {
    m matches Modal::MembersList { channel_id: c, members: v, loading: l } && c == channel_id
        && v@ == members && l == loading
}

/// `m` is the remove-member popup with these contents.
pub open spec fn remove_modal_is(
    m: Modal,
    channel_id: i64,
    members: Seq<ChannelMember>,
    cursor: usize,
    loading: bool,
) -> bool {
    m matches Modal::RemoveMember { channel_id: c, members: v, cursor: k, loading: l } && c
        == channel_id && v@ == members && k == cursor && l == loading
}

impl AppState {
    /// `post` is `self` with only its popup replaced.
    pub open spec fn only_modal_changed(&self, post: AppState) -> bool {
        post == (AppState { modal: post.modal, ..*self })
    }

    /// `post` is `self` with its popup closed.
    pub open spec fn closed_modal(&self, post: AppState) -> bool {
        post == (AppState { modal: Modal::Closed, ..*self })
    }

    /// `post` is `self` with an empty channel-creation popup open.
    pub open spec fn opened_create(&self, post: AppState) -> bool {
        &&& create_modal_is(post.modal, Seq::empty(), Seq::empty(), false, CreateChannelField::Name, None)
        &&& self.only_modal_changed(post)
    }

    /// `post` is `self` with the channel browser open on its first row.
    pub open spec fn opened_channel_list(&self, post: AppState) -> bool {
        post == (AppState { modal: Modal::ChannelList { cursor: 0 }, ..*self })
    }

    /// `post` is `self` with the members popup of `id` loading.
    pub open spec fn opened_members(&self, post: AppState, id: i64) -> bool {
        &&& members_modal_is(post.modal, id, Seq::empty(), true)
        &&& post == (AppState {
            modal: post.modal,
            pending_load_members: Some(id),
            ..*self
        })
    }

    /// `post` is `self` with an empty add-member popup for `id` open.
    pub open spec fn opened_add(&self, post: AppState, id: i64) -> bool {
        &&& add_modal_is(post.modal, id, Seq::empty(), None)
        &&& self.only_modal_changed(post)
    }

    /// `post` is `self` with the remove-member popup of `id` loading.
    pub open spec fn opened_remove(&self, post: AppState, id: i64) -> bool {
        &&& remove_modal_is(post.modal, id, Seq::empty(), 0, true)
        &&& post == (AppState {
            modal: post.modal,
            pending_load_members_remove: Some(id),
            ..*self
        })
    }

    /// `post` is `self` asking to confirm the logout.
    pub open spec fn opened_logout(&self, post: AppState) -> bool {
        post == (AppState { modal: Modal::ConfirmLogout, ..*self })
    }

    /// `post` is `self` showing `msg` in the status bar.
    pub open spec fn status_set(&self, post: AppState, msg: Seq<char>) -> bool {
        &&& opt_view(post.status_message) == Some(msg)
        &&& post == (AppState { status_message: post.status_message, ..*self })
    }

    /// `post` is `self` with its input line replaced by `input`.
    pub open spec fn input_now(&self, post: AppState, input: Seq<char>) -> bool {
        &&& post.input_buffer@ == input
        &&& post == (AppState { input_buffer: post.input_buffer, ..*self })
    }

    /// The sidebar: every channel, then every user other than the logged-in
    /// one (no users at all while nobody is logged in).
    pub open spec fn sidebar_spec(&self) -> Seq<SidebarItem> {
        channel_items(self.channels@) + match self.current_user {
            Some(me) => user_items(self.users@, me.id),
            None => Seq::empty(),
        }
    }

    /// The state of a client that has just started.
    pub open spec fn is_initial(&self) -> bool {
        &&& self.screen == Screen::Login
        &&& self.current_user is None
        &&& self.login_username@.len() == 0
        &&& self.login_password@.len() == 0
        &&& self.login_field == LoginField::Username
        &&& self.login_error is None
        &&& self.login_status is None
        &&& self.channels@.len() == 0
        &&& self.users@.len() == 0
        &&& self.active_conversation is None
        &&& self.channel_messages@ == Map::<i64, VecDeque<Message>>::empty()
        &&& self.dm_messages@ == Map::<i64, VecDeque<DirectMessage>>::empty()
        &&& self.input_buffer@.len() == 0
        &&& self.chat_scroll == 0
        &&& self.status_message is None
        &&& self.ws_lifecycle == WsLifecycle::Disconnected
        &&& self.unread_channels@ == Map::<i64, usize>::empty()
        &&& self.unread_dms@ == Map::<i64, usize>::empty()
        &&& self.pending_dm_history is None
        &&& self.modal is Closed
        &&& !self.pending_create_channel
        &&& self.pending_load_members is None
        &&& self.pending_load_members_remove is None
        &&& self.pending_add_member is None
        &&& self.pending_remove_member is None
        &&& self.pending_self_join is None
        &&& !self.pending_logout
        &&& self.pending_ws_outbox@.len() == 0
    }

    /// The id of the active channel, if a channel is active.
    pub open spec fn active_channel_spec(&self) -> Option<i64> {
        match self.active_conversation {
            Some(ConversationKind::Channel(id)) => Some(id),
            _ => None,
        }
    }

    /// `post` is `self` after the channel `id` was selected.
    pub open spec fn selected_channel(&self, post: AppState, id: i64) -> bool {
        &&& post.unread_channels@ == self.unread_channels@.remove(id)
        &&& post == (AppState {
            active_conversation: Some(ConversationKind::Channel(id)),
            chat_scroll: 0,
            unread_channels: post.unread_channels,
            ..*self
        })
    }

    /// `post` is `self` after the DM with `id` was selected.
    pub open spec fn selected_dm(&self, post: AppState, id: i64) -> bool {
        &&& post.unread_dms@ == self.unread_dms@.remove(id)
        &&& post == (AppState {
            active_conversation: Some(ConversationKind::DM(id)),
            chat_scroll: 0,
            unread_dms: post.unread_dms,
            pending_dm_history: if self.dm_messages@.contains_key(id) {
                self.pending_dm_history
            } else {
                Some(id)
            },
            ..*self
        })
    }

    /// `post` is `self` after the channel message `msg` arrived: it is
    /// appended to its channel's cache (dropping the oldest beyond
    /// `MAX_MESSAGES`), counted unread unless that channel is active, and
    /// the chat scrolls to the bottom if it is.
    pub open spec fn added_channel_message(&self, post: AppState, msg: Message) -> bool {
        let id = msg.channel_id;
        let active = self.active_conversation == Some(ConversationKind::Channel(id));
        &&& queue_views(post.channel_messages@) == queue_views(self.channel_messages@).insert(
            id,
            capped_push(queue_of(self.channel_messages@, id), msg),
        )
        &&& post.unread_channels@ == if active {
            self.unread_channels@
        } else {
            self.unread_channels@.insert(id, (count_of(self.unread_channels@, id) + 1) as usize)
        }
        &&& post == (AppState {
            channel_messages: post.channel_messages,
            unread_channels: post.unread_channels,
            chat_scroll: if active {
                0
            } else {
                self.chat_scroll
            },
            ..*self
        })
    }

    /// `post` is `self` after the direct message `dm` arrived, seen by the
    /// user `me`: it is filed under the other party, counted unread unless
    /// that DM is active, and the chat scrolls to the bottom if it is.
    pub open spec fn added_dm_message(&self, post: AppState, dm: DirectMessage, me: i64) -> bool {
        let id = dm_partner(dm, me);
        let active = self.active_conversation == Some(ConversationKind::DM(id));
        &&& queue_views(post.dm_messages@) == queue_views(self.dm_messages@).insert(
            id,
            capped_push(queue_of(self.dm_messages@, id), dm),
        )
        &&& post.unread_dms@ == if active {
            self.unread_dms@
        } else {
            self.unread_dms@.insert(id, (count_of(self.unread_dms@, id) + 1) as usize)
        }
        &&& post == (AppState {
            dm_messages: post.dm_messages,
            unread_dms: post.unread_dms,
            chat_scroll: if active {
                0
            } else {
                self.chat_scroll
            },
            ..*self
        })
    }

    /// Room for one more unread message on a channel.
    pub open spec fn can_count_channel(&self, id: i64) -> bool {
        count_of(self.unread_channels@, id) < usize::MAX
    }

    /// Room for one more unread message from a DM partner.
    pub open spec fn can_count_dm(&self, id: i64) -> bool {
        count_of(self.unread_dms@, id) < usize::MAX
    }
}

// ------------------------------------------------------------------
// Operations
// ------------------------------------------------------------------

impl AppState {
    pub fn new() -> (s: Self)
        ensures
            s.is_initial(),
    {
        AppState {
            screen: Screen::Login,
            current_user: None,
            login_username: String::new(),
            login_password: String::new(),
            login_field: LoginField::Username,
            login_error: None,
            login_status: None,
            channels: Vec::new(),
            users: Vec::new(),
            active_conversation: None,
            channel_messages: HashMap::new(),
            dm_messages: HashMap::new(),
            input_buffer: String::new(),
            chat_scroll: 0,
            status_message: None,
            ws_lifecycle: WsLifecycle::Disconnected,
            unread_channels: HashMap::new(),
            unread_dms: HashMap::new(),
            pending_dm_history: None,
            modal: Modal::Closed,
            pending_create_channel: false,
            pending_load_members: None,
            pending_load_members_remove: None,
            pending_add_member: None,
            pending_remove_member: None,
            pending_self_join: None,
            pending_logout: false,
            pending_ws_outbox: VecDeque::new(),
        }
    }

    pub fn close_modal(&mut self)
        ensures
            old(self).closed_modal(*final(self)),
    {
        self.modal = Modal::Closed;
    }

    pub fn open_create_channel(&mut self)
        ensures
            old(self).opened_create(*final(self)),
    {
        self.modal =
        Modal::CreateChannel {
            name: String::new(),
            description: String::new(),
            is_private: false,
            field: CreateChannelField::Name,
            error: None,
        };
    }

    pub fn open_channel_list(&mut self)
        ensures
            old(self).opened_channel_list(*final(self)),
    {
        self.modal = Modal::ChannelList { cursor: 0 };
    }

    pub fn open_members_list(&mut self, channel_id: i64)
        ensures
            old(self).opened_members(*final(self), channel_id),
    {
        self.modal = Modal::MembersList { channel_id, members: Vec::new(), loading: true };
        self.pending_load_members = Some(channel_id);
    }

    pub fn open_add_member(&mut self, channel_id: i64)
        ensures
            old(self).opened_add(*final(self), channel_id),
    {
        self.modal = Modal::AddMember { channel_id, username_input: String::new(), error: None };
    }

    pub fn open_remove_member(&mut self, channel_id: i64)
        ensures
            old(self).opened_remove(*final(self), channel_id),
    {
        self.modal =
        Modal::RemoveMember { channel_id, members: Vec::new(), cursor: 0, loading: true };
        self.pending_load_members_remove = Some(channel_id);
    }

    pub fn open_confirm_logout(&mut self)
        ensures
            old(self).opened_logout(*final(self)),
    {
        self.modal = Modal::ConfirmLogout;
    }

    pub fn active_channel_id(&self) -> (r: Option<i64>)
        ensures
            r == self.active_channel_spec(),
    {
        match self.active_conversation {
            Some(ConversationKind::Channel(id)) => Some(id),
            _ => None,
        }
    }

    /// Makes a channel the active conversation and marks it read.
    pub fn select_channel(&mut self, channel_id: i64)
        ensures
            old(self).selected_channel(*final(self), channel_id),
    {
        self.active_conversation = Some(ConversationKind::Channel(channel_id));
        self.chat_scroll = 0;
        self.unread_channels.remove(&channel_id);
    }

    /// Makes a DM the active conversation, marks it read, and asks for its
    /// history when none is cached.
    pub fn select_dm(&mut self, partner_id: i64)
        ensures
            old(self).selected_dm(*final(self), partner_id),
    {
        self.active_conversation = Some(ConversationKind::DM(partner_id));
        self.chat_scroll = 0;
        self.unread_dms.remove(&partner_id);
        if !self.dm_messages.contains_key(&partner_id) {
            self.pending_dm_history = Some(partner_id);
        }
    }

    pub(crate) fn is_active(&self, conv: ConversationKind) -> (b: bool)
        ensures
            b == (self.active_conversation == Some(conv)),
    {
        match self.active_conversation {
            Some(c) => c == conv,
            None => false,
        }
    }

    /// Appends a channel message to its cache; counts it unread unless its
    /// channel is the active conversation, and scrolls to the bottom if it is.
    pub fn add_channel_message(&mut self, msg: Message)
        requires
            old(self).can_count_channel(msg.channel_id),
        ensures
            old(self).added_channel_message(*final(self), msg),
    {
        let id = msg.channel_id;
        let is_active = self.is_active(ConversationKind::Channel(id));
        if !is_active {
            let c: usize = match self.unread_channels.get(&id) {
                Some(c) => *c,
                None => 0,
            };
            self.unread_channels.insert(id, c + 1);
        }
        let mut queue = match self.channel_messages.remove(&id) {
            Some(q) => q,
            None => VecDeque::new(),
        };
        let ghost before = queue@;
        queue.push_back(msg);
        if queue.len() > MAX_MESSAGES {
            queue.pop_front();
        }
        assert(queue@ =~= capped_push(before, msg));
        self.channel_messages.insert(id, queue);
        if is_active {
            self.chat_scroll = 0;
        }
        assert(queue_views(self.channel_messages@) =~= queue_views(
            old(self).channel_messages@,
        ).insert(id, capped_push(queue_of(old(self).channel_messages@, id), msg)));
    }

    /// Appends a direct message to the cache of its partner (the other party
    /// than `my_user_id`); counts it unread unless that DM is active, and
    /// scrolls to the bottom if it is.
    pub fn add_dm_message(&mut self, dm: DirectMessage, my_user_id: i64)
        requires
            old(self).can_count_dm(dm_partner(dm, my_user_id)),
        ensures
            old(self).added_dm_message(*final(self), dm, my_user_id),
    {
        let id = if dm.sender_id == my_user_id {
            dm.recipient_id
        } else {
            dm.sender_id
        };
        let is_active = self.is_active(ConversationKind::DM(id));
        if !is_active {
            let c: usize = match self.unread_dms.get(&id) {
                Some(c) => *c,
                None => 0,
            };
            self.unread_dms.insert(id, c + 1);
        }
        let mut queue = match self.dm_messages.remove(&id) {
            Some(q) => q,
            None => VecDeque::new(),
        };
        let ghost before = queue@;
        queue.push_back(dm);
        if queue.len() > MAX_MESSAGES {
            queue.pop_front();
        }
        assert(queue@ =~= capped_push(before, dm));
        self.dm_messages.insert(id, queue);
        if is_active {
            self.chat_scroll = 0;
        }
        assert(queue_views(self.dm_messages@) =~= queue_views(old(self).dm_messages@).insert(
            id,
            capped_push(queue_of(old(self).dm_messages@, id), dm),
        ));
    }

    pub fn push_input_char(&mut self, c: char)
        ensures
            old(self).input_now(*final(self), old(self).input_buffer@.push(c)),
    {
        push_char(&mut self.input_buffer, c);
    }

    pub fn pop_input_char(&mut self)
        ensures
            old(self).input_now(*final(self), pop_seq(old(self).input_buffer@)),
    {
        pop_char(&mut self.input_buffer);
    }

    /// Hands out the input line and leaves it empty.
    pub fn take_input(&mut self) -> (r: String)
        ensures
            r == old(self).input_buffer,
            old(self).input_now(*final(self), Seq::empty()),
    {
        let mut taken = String::new();
        std::mem::swap(&mut taken, &mut self.input_buffer);
        taken
    }

    pub fn set_status(&mut self, msg: &str)
        ensures
            old(self).status_set(*final(self), msg@),
    {
        self.status_message = Some(string_of(msg));
    }

    pub fn clear_status(&mut self)
        ensures
            *final(self) == (AppState { status_message: None, ..*old(self) }),
    {
        self.status_message = None;
    }

    /// Returns sidebar items: channels then DM users.
    pub fn sidebar_items(&self) -> (items: Vec<SidebarItem>)
        ensures
            items@ == self.sidebar_spec(),
    {
        let mut items: Vec<SidebarItem> = Vec::new();
        let n = self.channels.len();
        let mut i: usize = 0;
        while i < n
            invariant
                n == self.channels@.len(),
                i <= n,
                items@ == channel_items(self.channels@.take(i as int)),
            decreases n - i,
        {
            items.push(SidebarItem::Channel(self.channels[i].clone()));
            i = i + 1;
            assert(items@ =~= channel_items(self.channels@.take(i as int)));
        }
        assert(self.channels@.take(n as int) =~= self.channels@);
        match &self.current_user {
            Some(me) => {
                let ghost base = items@;
                let m = self.users.len();
                let mut j: usize = 0;
                while j < m
                    invariant
                        m == self.users@.len(),
                        j <= m,
                        items@ == base + user_items(self.users@.take(j as int), me.id),
                    decreases m - j,
                {
                    let u = &self.users[j];
                    assert(self.users@.take(j + 1).drop_last() =~= self.users@.take(j as int));
                    if u.id != me.id {
                        items.push(SidebarItem::User(u.clone()));
                    }
                    j = j + 1;
                    assert(items@ =~= base + user_items(self.users@.take(j as int), me.id));
                }
                assert(self.users@.take(m as int) =~= self.users@);
            },
            None => {
                assert(items@ =~= items@ + Seq::<SidebarItem>::empty());
            },
        }
        items
    }
}

} // verus!
