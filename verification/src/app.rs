//! The decisions the client takes around its network round trips: logging
//! in, loading the channel and user lists, subscribing, carrying out the
//! actions requested from popups, and applying what the server pushes.
//! The caller performs each request and hands its outcome back.
use vstd::prelude::*;

use crate::config::Config;
use crate::events::KeyCode;
use crate::events::KeyEvent;
use crate::models::Channel;
use crate::models::ChannelMember;
use crate::models::DirectMessage;
use crate::models::LoginRequest;
use crate::models::Message;
use crate::models::RegisterRequest;
use crate::models::User;
use crate::models::WsEnvelope;
use crate::models::WsPayload;
use crate::order::sort_by_name;
use crate::order::sort_channels_by_name;
use crate::state::dm_partner;
use crate::state::members_modal_is;
use crate::state::opt_view;
use crate::state::queue_of;
use crate::state::queue_views;
use crate::state::remove_modal_is;
use crate::state::add_modal_is;
use crate::state::create_modal_is;
use crate::state::AppState;
use crate::state::ConversationKind;
use crate::state::CreateChannelField;
use crate::state::Modal;
use crate::state::Screen;
use crate::text::str_eq;
use crate::text::string_of;
use crate::text::trim_seq;
use crate::text::trim_string;

verus! {

broadcast use vstd::std_specs::hash::group_hash_axioms;

pub struct App {
    pub config: Config,
}

impl App {
    pub fn new(config: Config) -> (a: App)
        ensures
            a.config == config,
    {
        App { config }
    }
}

/// What a key on the login screen asks for besides its own effect.
#[derive(Debug, Clone, Copy, PartialEq, Eq, Structural)]
pub enum LoginIntent {
    Nothing,
    Login,
    Register,
}

/// On the login screen, Enter asks to log in and Ctrl+R to register.
pub fn login_intent(screen: Screen, key: KeyEvent) -> (r: LoginIntent)
    ensures
        r == if screen != Screen::Login {
            LoginIntent::Nothing
        } else if key.code == KeyCode::Enter {
            LoginIntent::Login
        } else if key.code == KeyCode::Char('r') && key.control {
            LoginIntent::Register
        } else {
            LoginIntent::Nothing
        },
{
    if screen != Screen::Login {
        return LoginIntent::Nothing;
    }
    match key.code {
        KeyCode::Enter => LoginIntent::Login,
        KeyCode::Char(c) => if c == 'r' && key.control {
            LoginIntent::Register
        } else {
            LoginIntent::Nothing
        },
        _ => LoginIntent::Nothing,
    }
}

/// The contents of the channel-creation popup at the time it was submitted.
#[derive(Debug)]
pub struct CreateChannelDraft {
    pub name: String,
    pub description: String,
    pub is_private: bool,
    pub field: CreateChannelField,
}

impl CreateChannelDraft {
    /// The name as sent to the server.
    pub fn trimmed_name(&self) -> (r: String)
        ensures
            r@ == trim_seq(self.name@),
    {
        trim_string(self.name.as_str())
    }

    /// The description as sent to the server.
    pub fn trimmed_description(&self) -> (r: String)
        ensures
            r@ == trim_seq(self.description@),
    {
        trim_string(self.description.as_str())
    }
}

/// The kinds of envelope the server pushes that the client reacts to.
#[derive(Debug, Clone, Copy, PartialEq, Eq, Structural)]
pub enum WsEventKind {
    /// `message.new`
    ChannelMessage,
    /// `dm.new`
    DirectMessage,
    /// `error`
    ServerError,
    Other,
}

/// The kind of a pushed envelope, by its type.
pub fn classify_event(event_type: &str) -> (k: WsEventKind)
    ensures
        k == if event_type@ == "message.new"@ {
            WsEventKind::ChannelMessage
        } else if event_type@ == "dm.new"@ {
            WsEventKind::DirectMessage
        } else if event_type@ == "error"@ {
            WsEventKind::ServerError
        } else {
            WsEventKind::Other
        },
{
    if str_eq(event_type, "message.new") {
        WsEventKind::ChannelMessage
    } else if str_eq(event_type, "dm.new") {
        WsEventKind::DirectMessage
    } else if str_eq(event_type, "error") {
        WsEventKind::ServerError
    } else {
        WsEventKind::Other
    }
}

/// A pushed envelope with its payload read.
#[derive(Debug)]
pub enum IncomingEvent {
    ChannelMessage(Message),
    DirectMessage(DirectMessage),
    /// The `message` of an `error` envelope.
    ServerError(String),
    /// Anything else, or a payload that could not be read.
    Ignored,
}

/// The ids of `users` other than `me`, in order.
pub open spec fn ids_except(users: Seq<User>, me: i64) -> Seq<i64>
    decreases users.len(),
{
    if users.len() == 0 {
        Seq::empty()
    } else {
        let rest = ids_except(users.drop_last(), me);
        if users.last().id != me {
            rest.push(users.last().id)
        } else {
            rest
        }
    }
}

/// `"<prefix><detail>"`
fn prefixed(prefix: &str, detail: &str) -> (r: String)
    ensures
        r@ == prefix@ + detail@,
{
    let mut r = string_of(prefix);
    r.append(detail);
    r
}

impl AppState {
    /// The id of the logged-in user, 0 when nobody is.
    pub open spec fn my_id_spec(&self) -> i64 {
        match self.current_user {
            Some(u) => u.id,
            None => 0,
        }
    }

    /// The counters touched by `ev` have room for one more.
    pub open spec fn event_fits_spec(&self, ev: IncomingEvent) -> bool {
        match ev {
            IncomingEvent::ChannelMessage(m) => self.can_count_channel(m.channel_id),
            IncomingEvent::DirectMessage(dm) => self.can_count_dm(dm_partner(dm, self.my_id_spec())),
            _ => true,
        }
    }

    /// Ids of the known users other than the logged-in one, in order.
    pub open spec fn dm_user_ids_spec(&self) -> Seq<i64> {
        ids_except(self.users@, self.my_id_spec())
    }

    /// Ids of the known channels, in order.
    pub open spec fn channel_ids_spec(&self) -> Seq<i64> {
        self.channels@.map_values(|c: Channel| c.id)
    }

    /// The id of the logged-in user, 0 when nobody is.
    pub fn my_user_id(&self) -> (id: i64)
        ensures
            id == self.my_id_spec(),
    {
        match &self.current_user {
            Some(u) => u.id,
            None => 0,
        }
    }

    /// Hands out the DM partner whose history should be loaded, if any.
    pub fn take_pending_dm_history(&mut self) -> (r: Option<i64>)
        ensures
            r == old(self).pending_dm_history,
            *final(self) == (AppState { pending_dm_history: None, ..*old(self) }),
    {
        let r = self.pending_dm_history;
        self.pending_dm_history = None;
        r
    }

    /// Appends loaded DM history to the partner's cache and, if that DM is
    /// active, scrolls to the bottom.
    pub fn apply_dm_history(&mut self, partner_id: i64, msgs: Vec<DirectMessage>)
        ensures
            queue_views(final(self).dm_messages@) == queue_views(old(self).dm_messages@).insert(
                partner_id,
                queue_of(old(self).dm_messages@, partner_id) + msgs@,
            ),
            *final(self) == (AppState {
                dm_messages: final(self).dm_messages,
                chat_scroll: if old(self).active_conversation == Some(
                    ConversationKind::DM(partner_id),
                ) {
                    0
                } else {
                    old(self).chat_scroll
                },
                ..*old(self)
            }),
    {
        let mut queue = match self.dm_messages.remove(&partner_id) {
            Some(q) => q,
            None => std::collections::VecDeque::new(),
        };
        let ghost before = queue@;
        let n = msgs.len();
        let mut msgs = msgs;
        let mut taken: Vec<DirectMessage> = Vec::new();
        std::mem::swap(&mut taken, &mut msgs);
        let mut i: usize = 0;
        while i < n
            invariant
                n == taken@.len(),
                i <= n,
                queue@ == before + taken@.take(i as int),
            decreases n - i,
        {
            queue.push_back(taken[i].clone());
            i = i + 1;
            assert(queue@ =~= before + taken@.take(i as int));
        }
        assert(taken@.take(n as int) =~= taken@);
        self.dm_messages.insert(partner_id, queue);
        if self.is_active(ConversationKind::DM(partner_id)) {
            self.chat_scroll = 0;
        }
        assert(queue_views(self.dm_messages@) =~= queue_views(old(self).dm_messages@).insert(
            partner_id,
            queue_of(old(self).dm_messages@, partner_id) + taken@,
        ));
    }

    /// Appends loaded channel history to the channel's cache.
    pub fn apply_channel_history(&mut self, channel_id: i64, msgs: Vec<Message>)
        ensures
            queue_views(final(self).channel_messages@) == queue_views(
                old(self).channel_messages@,
            ).insert(channel_id, queue_of(old(self).channel_messages@, channel_id) + msgs@),
            *final(self) == (AppState { channel_messages: final(self).channel_messages, ..*old(self) }),
    {
        let mut queue = match self.channel_messages.remove(&channel_id) {
            Some(q) => q,
            None => std::collections::VecDeque::new(),
        };
        let ghost before = queue@;
        let n = msgs.len();
        let mut i: usize = 0;
        while i < n
            invariant
                n == msgs@.len(),
                i <= n,
                queue@ == before + msgs@.take(i as int),
            decreases n - i,
        {
            queue.push_back(msgs[i].clone());
            i = i + 1;
            assert(queue@ =~= before + msgs@.take(i as int));
        }
        assert(msgs@.take(n as int) =~= msgs@);
        self.channel_messages.insert(channel_id, queue);
        assert(queue_views(self.channel_messages@) =~= queue_views(
            old(self).channel_messages@,
        ).insert(channel_id, queue_of(old(self).channel_messages@, channel_id) + msgs@));
    }

    /// Starts a login: clears the error, shows "Logging in..." and hands out
    /// the typed credentials.
    pub fn begin_login(&mut self) -> (r: LoginRequest)
        ensures
            r.username == old(self).login_username,
            r.password == old(self).login_password,
            opt_view(final(self).login_status) == Some("Logging in..."@),
            *final(self) == (AppState {
                login_error: None,
                login_status: final(self).login_status,
                ..*old(self)
            }),
    {
        self.login_error = None;
        self.login_status = Some(string_of("Logging in..."));
        LoginRequest { username: self.login_username.clone(), password: self.login_password.clone() }
    }

    /// Starts a registration: clears the error, shows "Registering..." and
    /// hands out the typed credentials.
    pub fn begin_register(&mut self) -> (r: RegisterRequest)
        ensures
            r.username == old(self).login_username,
            r.password == old(self).login_password,
            opt_view(final(self).login_status) == Some("Registering..."@),
            *final(self) == (AppState {
                login_error: None,
                login_status: final(self).login_status,
                ..*old(self)
            }),
    {
        self.login_error = None;
        self.login_status = Some(string_of("Registering..."));
        RegisterRequest {
            username: self.login_username.clone(),
            password: self.login_password.clone(),
        }
    }

    /// A login succeeded: the user is signed in and the main screen shows.
    pub fn finish_login(&mut self, user: User)
        ensures
            *final(self) == (AppState {
                current_user: Some(user),
                login_status: None,
                screen: Screen::Main,
                ..*old(self)
            }),
    {
        self.current_user = Some(user);
        self.login_status = None;
        self.screen = Screen::Main;
    }

    /// A login or registration failed with `error`.
    pub fn fail_login(&mut self, error: &str)
        ensures
            opt_view(final(self).login_error) == Some(error@),
            *final(self) == (AppState {
                login_error: final(self).login_error,
                login_status: None,
                ..*old(self)
            }),
    {
        self.login_error = Some(string_of(error));
        self.login_status = None;
    }

    /// Takes the lists that loaded; a list that failed to load is left as it is.
    pub fn apply_directory(&mut self, channels: Option<Vec<Channel>>, users: Option<Vec<User>>)
        ensures
            *final(self) == (AppState {
                channels: match channels {
                    Some(c) => c,
                    None => old(self).channels,
                },
                users: match users {
                    Some(u) => u,
                    None => old(self).users,
                },
                ..*old(self)
            }),
    {
        match channels {
            Some(c) => {
                self.channels = c;
            },
            None => {},
        }
        match users {
            Some(u) => {
                self.users = u;
            },
            None => {},
        }
    }

    /// The ids of the known channels, in order.
    pub fn channel_ids(&self) -> (ids: Vec<i64>)
        ensures
            ids@ == self.channel_ids_spec(),
    {
        let mut ids: Vec<i64> = Vec::new();
        let n = self.channels.len();
        let mut i: usize = 0;
        while i < n
            invariant
                n == self.channels@.len(),
                i <= n,
                ids@ == self.channels@.take(i as int).map_values(|c: Channel| c.id),
            decreases n - i,
        {
            ids.push(self.channels[i].id);
            i = i + 1;
            assert(ids@ =~= self.channels@.take(i as int).map_values(|c: Channel| c.id));
        }
        assert(self.channels@.take(n as int) =~= self.channels@);
        ids
    }

    /// The ids of the known users other than the logged-in one, in order.
    pub fn dm_user_ids(&self) -> (ids: Vec<i64>)
        ensures
            ids@ == self.dm_user_ids_spec(),
    {
        let me = self.my_user_id();
        let mut ids: Vec<i64> = Vec::new();
        let n = self.users.len();
        let mut i: usize = 0;
        while i < n
            invariant
                n == self.users@.len(),
                i <= n,
                me == self.my_id_spec(),
                ids@ == ids_except(self.users@.take(i as int), me),
            decreases n - i,
        {
            let id = self.users[i].id;
            assert(self.users@.take(i + 1).drop_last() =~= self.users@.take(i as int));
            if id != me {
                ids.push(id);
            }
            i = i + 1;
            assert(ids@ =~= ids_except(self.users@.take(i as int), me));
        }
        assert(self.users@.take(n as int) =~= self.users@);
        ids
    }

    /// The envelope that subscribes to every known channel and to the DMs
    /// with every other known user.
    pub fn subscription_envelope(&self) -> (env: WsEnvelope)
        ensures
            env.event_type@ == "subscribe"@,
            env.payload matches WsPayload::Subscribe { channel_ids, dm_user_ids } && channel_ids@
                == self.channel_ids_spec() && dm_user_ids@ == self.dm_user_ids_spec(),
    {
        WsEnvelope::new(
            "subscribe",
            WsPayload::Subscribe { channel_ids: self.channel_ids(), dm_user_ids: self.dm_user_ids() },
        )
    }

    /// Selects the first channel, if there is one.
    pub fn select_first_channel(&mut self)
        ensures
            old(self).channels@.len() == 0 ==> *final(self) == *old(self),
            old(self).channels@.len() > 0 ==> old(self).selected_channel(
                *final(self),
                old(self).channels@[0].id,
            ),
    {
        if self.channels.len() > 0 {
            let id = self.channels[0].id;
            self.select_channel(id);
        }
    }

    /// The WebSocket could not be opened.
    pub fn fail_ws_connect(&mut self, error: &str)
        ensures
            old(self).status_set(*final(self), "WS connect failed: "@ + error@),
    {
        let m = prefixed("WS connect failed: ", error);
        self.set_status(m.as_str());
    }

    /// A message that could not be handed to the WebSocket is queued for a
    /// later retry.
    pub fn queue_unsent(&mut self, env: WsEnvelope)
        ensures
            final(self).pending_ws_outbox@ == old(self).pending_ws_outbox@.push(env),
            opt_view(final(self).status_message) == Some(
                "Connection issue: message queued for retry"@,
            ),
            *final(self) == (AppState {
                pending_ws_outbox: final(self).pending_ws_outbox,
                status_message: final(self).status_message,
                ..*old(self)
            }),
    {
        self.pending_ws_outbox.push_back(env);
        self.set_status("Connection issue: message queued for retry");
    }

    // --------------------------------------------------------------
    // Actions requested from popups
    // --------------------------------------------------------------

    /// Hands out the channel-creation request, if one was submitted and the
    /// creation popup is still open; the request flag is cleared either way.
    pub fn take_create_channel(&mut self) -> (r: Option<CreateChannelDraft>)
        ensures
            *final(self) == (AppState { pending_create_channel: false, ..*old(self) }),
            match r {
                Some(d) => {
                    &&& old(self).pending_create_channel
                    &&& old(self).modal matches Modal::CreateChannel {
                        name,
                        description,
                        is_private,
                        field,
                        ..
                    } && d.name == name && d.description == description && d.is_private
                        == is_private && d.field == field
                },
                None => !old(self).pending_create_channel || !(old(self).modal is CreateChannel),
            },
    {
        if !self.pending_create_channel {
            return None;
        }
        self.pending_create_channel = false;
        match &self.modal {
            Modal::CreateChannel { name, description, is_private, field, .. } => Some(
                CreateChannelDraft {
                    name: name.clone(),
                    description: description.clone(),
                    is_private: *is_private,
                    field: *field,
                },
            ),
            _ => None,
        }
    }

    /// Applies the server's answer to a channel creation. On success the
    /// channel joins the list, which is kept ordered by name, the popup
    /// closes, the channel is selected, and (when `online`) the envelope
    /// subscribing to it is handed out; on failure the popup shows the error.
    pub fn finish_create_channel(
        &mut self,
        draft: CreateChannelDraft,
        result: Result<Channel, String>,
        online: bool,
    ) -> (send: Option<WsEnvelope>)
        ensures
            old(self).no_pending_requests() ==> final(self).no_pending_requests(),
            match result {
                Ok(ch) => {
                    &&& final(self).channels@ == sort_by_name(old(self).channels@.push(ch))
                    &&& opt_view(final(self).status_message) == Some(
                        "Created channel #"@ + draft.name@,
                    )
                    &&& final(self).unread_channels@ == old(self).unread_channels@.remove(ch.id)
                    &&& *final(self) == (AppState {
                        channels: final(self).channels,
                        status_message: final(self).status_message,
                        modal: Modal::Closed,
                        active_conversation: Some(ConversationKind::Channel(ch.id)),
                        chat_scroll: 0,
                        unread_channels: final(self).unread_channels,
                        ..*old(self)
                    })
                    &&& if online {
                        &&& send matches Some(env)
                        &&& send->0.event_type@ == "subscribe"@
                        &&& send->0.payload matches WsPayload::Subscribe { channel_ids, dm_user_ids }
                            && channel_ids@ == seq![ch.id] && dm_user_ids@.len() == 0
                    } else {
                        send is None
                    }
                },
                Err(e) => {
                    &&& send is None
                    &&& create_modal_is(
                        final(self).modal,
                        draft.name@,
                        draft.description@,
                        draft.is_private,
                        draft.field,
                        Some(e@),
                    )
                    &&& old(self).only_modal_changed(*final(self))
                },
            },
    {
        match result {
            Ok(ch) => {
                let id = ch.id;
                self.channels.push(ch);
                sort_channels_by_name(&mut self.channels);
                let m = prefixed("Created channel #", draft.name.as_str());
                self.set_status(m.as_str());
                self.close_modal();
                let send = if online {
                    let mut ids: Vec<i64> = Vec::new();
                    ids.push(id);
                    assert(ids@ =~= seq![id]);
                    Some(
                        WsEnvelope::new(
                            "subscribe",
                            WsPayload::Subscribe { channel_ids: ids, dm_user_ids: Vec::new() },
                        ),
                    )
                } else {
                    None
                };
                self.select_channel(id);
                send
            },
            Err(e) => {
                self.modal =
                Modal::CreateChannel {
                    name: draft.name,
                    description: draft.description,
                    is_private: draft.is_private,
                    field: draft.field,
                    error: Some(e),
                };
                None
            },
        }
    }

    /// Hands out the channel whose members the members popup waits for.
    pub fn take_load_members(&mut self) -> (r: Option<i64>)
        ensures
            r == old(self).pending_load_members,
            *final(self) == (AppState { pending_load_members: None, ..*old(self) }),
    {
        let r = self.pending_load_members;
        self.pending_load_members = None;
        r
    }

    /// Applies the loaded member list of `channel_id`: the members popup of
    /// that channel, if still open, shows it; on failure the popup closes and
    /// the status bar tells why.
    pub fn finish_load_members(&mut self, channel_id: i64, result: Result<Vec<ChannelMember>, String>)
        ensures
            old(self).no_pending_requests() ==> final(self).no_pending_requests(),
            match result {
                Ok(members) => if old(self).modal matches Modal::MembersList { channel_id: c, .. }
                    && c == channel_id {
                    &&& members_modal_is(final(self).modal, channel_id, members@, false)
                    &&& old(self).only_modal_changed(*final(self))
                } else {
                    *final(self) == *old(self)
                },
                Err(e) => {
                    &&& opt_view(final(self).status_message) == Some(
                        "Members load failed: "@ + e@,
                    )
                    &&& *final(self) == (AppState {
                        status_message: final(self).status_message,
                        modal: Modal::Closed,
                        ..*old(self)
                    })
                },
            },
    {
        match result {
            Ok(members) => {
                let same = match &self.modal {
                    Modal::MembersList { channel_id: c, .. } => *c == channel_id,
                    _ => false,
                };
                if same {
                    self.modal = Modal::MembersList { channel_id, members, loading: false };
                }
            },
            Err(e) => {
                let m = prefixed("Members load failed: ", e.as_str());
                self.set_status(m.as_str());
                self.close_modal();
            },
        }
    }

    /// Hands out the channel whose members the remove-member popup waits for.
    pub fn take_load_members_remove(&mut self) -> (r: Option<i64>)
        ensures
            r == old(self).pending_load_members_remove,
            *final(self) == (AppState { pending_load_members_remove: None, ..*old(self) }),
    {
        let r = self.pending_load_members_remove;
        self.pending_load_members_remove = None;
        r
    }

    /// Applies the loaded member list of `channel_id` to the remove-member
    /// popup of that channel, if still open, with the cursor on the first
    /// row; on failure the popup closes and the status bar tells why.
    pub fn finish_load_members_remove(
        &mut self,
        channel_id: i64,
        result: Result<Vec<ChannelMember>, String>,
    )
        ensures
            old(self).no_pending_requests() ==> final(self).no_pending_requests(),
            match result {
                Ok(members) => if old(self).modal matches Modal::RemoveMember { channel_id: c, .. }
                    && c == channel_id {
                    &&& remove_modal_is(final(self).modal, channel_id, members@, 0, false)
                    &&& old(self).only_modal_changed(*final(self))
                } else {
                    *final(self) == *old(self)
                },
                Err(e) => {
                    &&& opt_view(final(self).status_message) == Some(
                        "Members load failed: "@ + e@,
                    )
                    &&& *final(self) == (AppState {
                        status_message: final(self).status_message,
                        modal: Modal::Closed,
                        ..*old(self)
                    })
                },
            },
    {
        match result {
            Ok(members) => {
                let same = match &self.modal {
                    Modal::RemoveMember { channel_id: c, .. } => *c == channel_id,
                    _ => false,
                };
                if same {
                    self.modal =
                    Modal::RemoveMember { channel_id, members, cursor: 0, loading: false };
                }
            },
            Err(e) => {
                let m = prefixed("Members load failed: ", e.as_str());
                self.set_status(m.as_str());
                self.close_modal();
            },
        }
    }

    /// Hands out the (channel, user) pair to add, if one was requested.
    pub fn take_add_member(&mut self) -> (r: Option<(i64, i64)>)
        ensures
            r == old(self).pending_add_member,
            *final(self) == (AppState { pending_add_member: None, ..*old(self) }),
    {
        let r = self.pending_add_member;
        self.pending_add_member = None;
        r
    }

    /// Applies the answer to adding a member to `channel_id`: on success the
    /// popup closes with "User added"; on failure the add-member popup, if
    /// open, shows the error.
    pub fn finish_add_member(&mut self, channel_id: i64, result: Result<(), String>)
        ensures
            old(self).no_pending_requests() ==> final(self).no_pending_requests(),
            match result {
                Ok(_) => {
                    &&& opt_view(final(self).status_message) == Some("User added"@)
                    &&& *final(self) == (AppState {
                        status_message: final(self).status_message,
                        modal: Modal::Closed,
                        ..*old(self)
                    })
                },
                Err(e) => match old(self).modal {
                    Modal::AddMember { username_input, .. } => {
                        &&& add_modal_is(final(self).modal, channel_id, username_input@, Some(e@))
                        &&& old(self).only_modal_changed(*final(self))
                    },
                    _ => *final(self) == *old(self),
                },
            },
    {
        match result {
            Ok(_) => {
                self.set_status("User added");
                self.close_modal();
            },
            Err(e) => {
                let mut modal = Modal::Closed;
                std::mem::swap(&mut modal, &mut self.modal);
                match modal {
                    Modal::AddMember { username_input, .. } => {
                        self.modal = Modal::AddMember { channel_id, username_input, error: Some(e) };
                    },
                    other => {
                        self.modal = other;
                    },
                }
            },
        }
    }

    /// Hands out the (channel, user) pair to remove, if one was requested.
    pub fn take_remove_member(&mut self) -> (r: Option<(i64, i64)>)
        ensures
            r == old(self).pending_remove_member,
            *final(self) == (AppState { pending_remove_member: None, ..*old(self) }),
    {
        let r = self.pending_remove_member;
        self.pending_remove_member = None;
        r
    }

    /// Applies the answer to removing a member; returns whether the member
    /// list should be loaded again.
    pub fn finish_remove_member(&mut self, result: Result<(), String>) -> (refresh: bool)
        ensures
            old(self).no_pending_requests() ==> final(self).no_pending_requests(),
            refresh == (result is Ok),
            match result {
                Ok(_) => old(self).status_set(*final(self), "User removed"@),
                Err(e) => old(self).status_set(*final(self), "Remove failed: "@ + e@),
            },
    {
        match result {
            Ok(_) => {
                self.set_status("User removed");
                true
            },
            Err(e) => {
                let m = prefixed("Remove failed: ", e.as_str());
                self.set_status(m.as_str());
                false
            },
        }
    }

    /// Shows the reloaded member list of `channel_id` in the remove-member
    /// popup, if open, keeping the cursor on a row that still exists.
    pub fn refresh_remove_members(&mut self, channel_id: i64, members: Vec<ChannelMember>)
        ensures
            old(self).no_pending_requests() ==> final(self).no_pending_requests(),
            match old(self).modal {
                Modal::RemoveMember { cursor, .. } => {
                    let last = if members@.len() == 0 {
                        0
                    } else {
                        members@.len() - 1
                    };
                    &&& remove_modal_is(
                        final(self).modal,
                        channel_id,
                        members@,
                        if cursor < last {
                            cursor
                        } else {
                            last as usize
                        },
                        false,
                    )
                    &&& old(self).only_modal_changed(*final(self))
                },
                _ => *final(self) == *old(self),
            },
    {
        let cursor = match &self.modal {
            Modal::RemoveMember { cursor, .. } => Some(*cursor),
            _ => None,
        };
        match cursor {
            Some(c) => {
                let last = members.len().saturating_sub(1);
                let new_cursor = if c < last {
                    c
                } else {
                    last
                };
                self.modal =
                Modal::RemoveMember { channel_id, members, cursor: new_cursor, loading: false };
            },
            None => {},
        }
    }

    /// Hands out the channel to join, if one was requested.
    pub fn take_self_join(&mut self) -> (r: Option<i64>)
        ensures
            r == old(self).pending_self_join,
            *final(self) == (AppState { pending_self_join: None, ..*old(self) }),
    {
        let r = self.pending_self_join;
        self.pending_self_join = None;
        r
    }

    /// Applies the answer to joining a channel.
    pub fn finish_self_join(&mut self, result: Result<(), String>)
        ensures
            old(self).no_pending_requests() ==> final(self).no_pending_requests(),
            match result {
                Ok(_) => old(self).status_set(*final(self), "Joined channel"@),
                Err(e) => old(self).status_set(*final(self), "Join failed: "@ + e@),
            },
    {
        match result {
            Ok(_) => self.set_status("Joined channel"),
            Err(e) => {
                let m = prefixed("Join failed: ", e.as_str());
                self.set_status(m.as_str());
            },
        }
    }

    /// Whether a logout was confirmed; clears the request.
    pub fn take_logout(&mut self) -> (r: bool)
        ensures
            r == old(self).pending_logout,
            *final(self) == (AppState { pending_logout: false, ..*old(self) }),
    {
        let r = self.pending_logout;
        self.pending_logout = false;
        r
    }

    /// Logging out forgets everything and returns to the login screen.
    pub fn finish_logout(&mut self)
        ensures
            old(self).no_pending_requests() ==> final(self).no_pending_requests(),
            final(self).status_message matches Some(m) && m@ == "Logged out"@,
            (AppState { status_message: None, ..*final(self) }).is_initial(),
    {
        *self = AppState::new();
        self.set_status("Logged out");
    }

    // --------------------------------------------------------------
    // Pushed envelopes
    // --------------------------------------------------------------

    /// Whether the counters touched by `ev` have room for one more.
    pub fn event_fits(&self, ev: &IncomingEvent) -> (b: bool)
        ensures
            b == self.event_fits_spec(*ev),
    {
        match ev {
            IncomingEvent::ChannelMessage(m) => match self.unread_channels.get(&m.channel_id) {
                Some(c) => *c < usize::MAX,
                None => true,
            },
            IncomingEvent::DirectMessage(dm) => {
                let me = self.my_user_id();
                let id = if dm.sender_id == me {
                    dm.recipient_id
                } else {
                    dm.sender_id
                };
                match self.unread_dms.get(&id) {
                    Some(c) => *c < usize::MAX,
                    None => true,
                }
            },
            _ => true,
        }
    }

    /// Applies a pushed envelope: new messages go to their caches (see
    /// `add_channel_message` and `add_dm_message`), server errors to the
    /// status bar.
    pub fn apply_ws_event(&mut self, ev: IncomingEvent)
        requires
            old(self).event_fits_spec(ev),
        ensures
            match ev {
                IncomingEvent::ChannelMessage(msg) => old(self).added_channel_message(
                    *final(self),
                    msg,
                ),
                IncomingEvent::DirectMessage(dm) => old(self).added_dm_message(
                    *final(self),
                    dm,
                    old(self).my_id_spec(),
                ),
                IncomingEvent::ServerError(m) => old(self).status_set(
                    *final(self),
                    "Server error: "@ + m@,
                ),
                IncomingEvent::Ignored => *final(self) == *old(self),
            },
    {
        match ev {
            IncomingEvent::ChannelMessage(msg) => self.add_channel_message(msg),
            IncomingEvent::DirectMessage(dm) => {
                let me = self.my_user_id();
                self.add_dm_message(dm, me);
            },
            IncomingEvent::ServerError(m) => {
                let s = prefixed("Server error: ", m.as_str());
                self.set_status(s.as_str());
            },
            IncomingEvent::Ignored => {},
        }
    }
}

/// Every request waiting for the network, taken in one go.
#[derive(Debug)]
pub struct PendingRequests {
    pub create_channel: Option<CreateChannelDraft>,
    pub load_members: Option<i64>,
    pub load_members_remove: Option<i64>,
    pub add_member: Option<(i64, i64)>,
    pub remove_member: Option<(i64, i64)>,
    pub self_join: Option<i64>,
    pub logout: bool,
}

impl AppState {
    /// No request waits for the network.
    pub open spec fn no_pending_requests(&self) -> bool {
        &&& !self.pending_create_channel
        &&& self.pending_load_members is None
        &&& self.pending_load_members_remove is None
        &&& self.pending_add_member is None
        &&& self.pending_remove_member is None
        &&& self.pending_self_join is None
        &&& !self.pending_logout
    }

    /// Hands out every waiting request and clears them all; a request that
    /// was not waiting comes out empty, so no call is made for it. (A
    /// channel creation comes out only while its popup is open.)
    pub fn take_pending_requests(&mut self) -> (r: PendingRequests)
        ensures
            final(self).no_pending_requests(),
            *final(self) == (AppState {
                pending_create_channel: false,
                pending_load_members: None,
                pending_load_members_remove: None,
                pending_add_member: None,
                pending_remove_member: None,
                pending_self_join: None,
                pending_logout: false,
                ..*old(self)
            }),
            match r.create_channel {
                Some(d) => {
                    &&& old(self).pending_create_channel
                    &&& old(self).modal matches Modal::CreateChannel {
                        name,
                        description,
                        is_private,
                        field,
                        ..
                    } && d.name == name && d.description == description && d.is_private
                        == is_private && d.field == field
                },
                None => !old(self).pending_create_channel || !(old(self).modal is CreateChannel),
            },
            r.load_members == old(self).pending_load_members,
            r.load_members_remove == old(self).pending_load_members_remove,
            r.add_member == old(self).pending_add_member,
            r.remove_member == old(self).pending_remove_member,
            r.self_join == old(self).pending_self_join,
            r.logout == old(self).pending_logout,
    {
        let create_channel = self.take_create_channel();
        let load_members = self.take_load_members();
        let load_members_remove = self.take_load_members_remove();
        let add_member = self.take_add_member();
        let remove_member = self.take_remove_member();
        let self_join = self.take_self_join();
        let logout = self.take_logout();
        PendingRequests {
            create_channel,
            load_members,
            load_members_remove,
            add_member,
            remove_member,
            self_join,
            logout,
        }
    }
}

} // verus!
