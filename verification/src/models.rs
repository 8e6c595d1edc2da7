//! The records exchanged with the chat server.
use vstd::prelude::*;

verus! {

/// A registered account.
#[derive(Debug)]
pub struct User {
    pub id: i64,
    pub username: String,
    pub created_at: String,
}

impl Clone for User {
    fn clone(&self) -> (r: Self)
        ensures
            r == *self,
    {
        User { id: self.id, username: self.username.clone(), created_at: self.created_at.clone() }
    }
}

/// A chat room.
#[derive(Debug)]
pub struct Channel {
    pub id: i64,
    pub name: String,
    pub description: String,
    pub owner_id: i64,
    pub is_private: bool,
    pub created_at: String,
}

impl Clone for Channel {
    fn clone(&self) -> (r: Self)
        ensures
            r == *self,
    {
        Channel {
            id: self.id,
            name: self.name.clone(),
            description: self.description.clone(),
            owner_id: self.owner_id,
            is_private: self.is_private,
            created_at: self.created_at.clone(),
        }
    }
}

/// A user's membership of a channel.
#[derive(Debug)]
pub struct ChannelMember {
    pub user_id: i64,
    pub username: String,
    pub joined_at: String,
}

impl Clone for ChannelMember {
    fn clone(&self) -> (r: Self)
        ensures
            r == *self,
    {
        ChannelMember {
            user_id: self.user_id,
            username: self.username.clone(),
            joined_at: self.joined_at.clone(),
        }
    }
}

/// A message posted in a channel.
#[derive(Debug)]
pub struct Message {
    pub id: i64,
    pub channel_id: i64,
    pub author_id: i64,
    pub author_username: String,
    pub content: String,
    pub created_at: String,
}

impl Clone for Message {
    fn clone(&self) -> (r: Self)
        ensures
            r == *self,
    {
        Message {
            id: self.id,
            channel_id: self.channel_id,
            author_id: self.author_id,
            author_username: self.author_username.clone(),
            content: self.content.clone(),
            created_at: self.created_at.clone(),
        }
    }
}

/// A direct message between two users.
#[derive(Debug)]
pub struct DirectMessage {
    pub id: i64,
    pub sender_id: i64,
    pub sender_username: String,
    pub recipient_id: i64,
    pub content: String,
    pub created_at: String,
}

impl Clone for DirectMessage {
    fn clone(&self) -> (r: Self)
        ensures
            r == *self,
    {
        DirectMessage {
            id: self.id,
            sender_id: self.sender_id,
            sender_username: self.sender_username.clone(),
            recipient_id: self.recipient_id,
            content: self.content.clone(),
            created_at: self.created_at.clone(),
        }
    }
}

/// Credentials sent to log in.
#[derive(Debug)]
pub struct LoginRequest {
    pub username: String,
    pub password: String,
}

/// Credentials sent to create an account.
#[derive(Debug)]
pub struct RegisterRequest {
    pub username: String,
    pub password: String,
}

impl RegisterRequest {
    /// Once the account exists, the client logs in with the same
    /// credentials.
    pub fn login_request(&self) -> (r: LoginRequest)
        ensures
            r.username == self.username,
            r.password == self.password,
    {
        LoginRequest { username: self.username.clone(), password: self.password.clone() }
    }
}

/// What a successful login returns: a bearer token and the account.
#[derive(Debug)]
pub struct LoginData {
    pub token: String,
    pub user: User,
}

/// The payload of an envelope that the client sends over the WebSocket.
#[derive(Debug)]
pub enum WsPayload {
    /// `{"channel_id": .., "content": ..}`
    MessageSend { channel_id: i64, content: String },
    /// `{"recipient_id": .., "content": ..}`
    DmSend { recipient_id: i64, content: String },
    /// `{"channel_ids": [..], "dm_user_ids": [..]}`
    Subscribe { channel_ids: Vec<i64>, dm_user_ids: Vec<i64> },
}

/// WebSocket envelope: `{"type":"...","payload":{...}}`.
#[derive(Debug)]
pub struct WsEnvelope {
    pub event_type: String,
    pub payload: WsPayload,
}

impl WsEnvelope {
    /// An envelope of the given type around the given payload.
    pub fn new(event_type: &str, payload: WsPayload) -> (r: Self)
        ensures
            r.event_type@ == event_type@,
            r.payload == payload,
    {
        WsEnvelope { event_type: String::from_str(event_type), payload }
    }
}

} // verus!
