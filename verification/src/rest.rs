//! What the REST client decides: the request paths, the authorization
//! header, and how a response body is turned into a result.
use vstd::prelude::*;

use crate::text::decimal_int;
use crate::text::push_decimal_i64;
use crate::text::string_of;

verus! {

/// The error part of a response body: `{"code": .., "message": ..}`.
#[derive(Debug)]
pub struct ApiError {
    pub code: String,
    pub message: String,
}

/// A response body: `{"data": .., "error": ..}`, both optional.
#[derive(Debug)]
pub struct ApiResponse<T> {
    pub data: Option<T>,
    pub error: Option<ApiError>,
}

/// The address and credentials the REST calls are made with.
pub struct RestClient {
    pub base_url: String,
    pub token: Option<String>,
}

/// The text of an error response: `"<code>: <message>"`.
pub open spec fn api_error_text(e: ApiError) -> Seq<char> {
    e.code@ + ": "@ + e.message@
}

/// The optional `?before=<id>&limit=50` suffix of history requests.
pub open spec fn before_query(before_id: Option<i64>) -> Seq<char> {
    match before_id {
        Some(b) => "?before="@ + decimal_int(b as int) + "&limit=50"@,
        None => Seq::empty(),
    }
}

/// A response body read as a result: its error if it has one, else its
/// data, else the error `empty response`.
pub fn interpret_response<T>(body: ApiResponse<T>) -> (r: Result<T, String>)
    ensures
        match body.error {
            Some(e) => r matches Err(m) && m@ == api_error_text(e),
            None => match body.data {
                Some(d) => r == Ok::<T, String>(d),
                None => r matches Err(m) && m@ == "empty response"@,
            },
        },
{
    match body.error {
        Some(e) => {
            let mut m = e.code;
            m.append(": ");
            m.append(e.message.as_str());
            Err(m)
        },
        None => match body.data {
            Some(d) => Ok(d),
            None => Err(string_of("empty response")),
        },
    }
}

impl RestClient {
    pub fn new(base_url: String) -> (c: Self)
        ensures
            c.base_url == base_url,
            c.token is None,
    {
        RestClient { base_url, token: None }
    }

    pub fn set_token(&mut self, token: String)
        ensures
            final(self).base_url == old(self).base_url,
            final(self).token == Some(token),
    {
        self.token = Some(token);
    }

    /// `Bearer <token>`, with an empty token when none is set.
    pub fn auth_header(&self) -> (h: String)
        ensures
            h@ == "Bearer "@ + match self.token {
                Some(t) => t@,
                None => Seq::empty(),
            },
    {
        let mut h = string_of("Bearer ");
        match &self.token {
            Some(t) => h.append(t.as_str()),
            None => {},
        }
        h
    }

    /// The full address of a request path.
    pub fn url(&self, path: &str) -> (u: String)
        ensures
            u@ == self.base_url@ + path@,
    {
        let mut u = self.base_url.clone();
        u.append(path);
        u
    }
}

/// `/api/channels/<id>/join`
pub fn join_channel_path(channel_id: i64) -> (p: String)
    ensures
        p@ == "/api/channels/"@ + decimal_int(channel_id as int) + "/join"@,
{
    let mut p = string_of("/api/channels/");
    push_decimal_i64(&mut p, channel_id);
    p.append("/join");
    p
}

/// `/api/channels/<id>/members`
pub fn members_path(channel_id: i64) -> (p: String)
    ensures
        p@ == "/api/channels/"@ + decimal_int(channel_id as int) + "/members"@,
{
    let mut p = string_of("/api/channels/");
    push_decimal_i64(&mut p, channel_id);
    p.append("/members");
    p
}

/// `/api/channels/<id>/members/<user id>`
pub fn member_path(channel_id: i64, user_id: i64) -> (p: String)
    ensures
        p@ == "/api/channels/"@ + decimal_int(channel_id as int) + "/members/"@ + decimal_int(
            user_id as int,
        ),
{
    let mut p = string_of("/api/channels/");
    push_decimal_i64(&mut p, channel_id);
    p.append("/members/");
    push_decimal_i64(&mut p, user_id);
    p
}

fn push_before_query(p: &mut String, before_id: Option<i64>)
    ensures
        final(p)@ == old(p)@ + before_query(before_id),
{
    match before_id {
        Some(b) => {
            p.append("?before=");
            push_decimal_i64(p, b);
            p.append("&limit=50");
        },
        None => {
            assert(old(p)@ + before_query(before_id) =~= old(p)@);
        },
    }
}

/// `/api/channels/<id>/messages`, with the history query when paging.
pub fn channel_messages_path(channel_id: i64, before_id: Option<i64>) -> (p: String)
    ensures
        p@ == "/api/channels/"@ + decimal_int(channel_id as int) + "/messages"@ + before_query(
            before_id,
        ),
{
    let mut p = string_of("/api/channels/");
    push_decimal_i64(&mut p, channel_id);
    p.append("/messages");
    push_before_query(&mut p, before_id);
    p
}

/// `/api/dm/<partner id>`, with the history query when paging.
pub fn dm_history_path(partner_id: i64, before_id: Option<i64>) -> (p: String)
    ensures
        p@ == "/api/dm/"@ + decimal_int(partner_id as int) + before_query(before_id),
{
    let mut p = string_of("/api/dm/");
    push_decimal_i64(&mut p, partner_id);
    push_before_query(&mut p, before_id);
    p
}

} // verus!
