//! Outbound delivery to the messaging platform: what each call sends, where,
//! with which credential, and how its response reads.

use vstd::prelude::*;

verus! {

/// One piece of outbound message content.
#[derive(Debug, Clone)]
pub enum Message {
    Text { text: String },
    Image { original_content_url: String, preview_image_url: String },
    Video { original_content_url: String, preview_image_url: String },
    /// A free-form layout, given as JSON text, with its accessibility text.
    Flex { alt_text: String, contents: String },
}

/// The error body that the platform returns.
#[derive(Debug, Clone)]
pub struct LineApiResponse {
    pub message: Option<String>,
}

/// The public profile of a user.
#[derive(Debug, Clone)]
pub struct UserProfile {
    pub user_id: String,
    pub display_name: String,
    pub picture_url: Option<String>,
    pub status_message: Option<String>,
}

/// One outbound call.
#[derive(Debug, Clone)]
pub enum DeliveryRequest {
    Push { to: String, messages: Vec<Message> },
    Reply { reply_token: String, messages: Vec<Message> },
    Broadcast { messages: Vec<Message> },
    Profile { user_id: String },
}

/// The content is plain text and reads `text`.
pub open spec fn is_text_content(m: Message, text: Seq<char>) -> bool {
    match m {
        Message::Text { text: x } => x@ == text,
        _ => false,
    }
}

/// A push of one text to one user.
pub open spec fn is_text_push(r: DeliveryRequest, to: Seq<char>, text: Seq<char>) -> bool {
    match r {
        DeliveryRequest::Push { to: t, messages } => t@ == to && messages@.len() == 1
            && is_text_content(messages@[0], text),
        _ => false,
    }
}

/// A broadcast of one text to every follower.
pub open spec fn is_text_broadcast(r: DeliveryRequest, text: Seq<char>) -> bool {
    match r {
        DeliveryRequest::Broadcast { messages } => messages@.len() == 1
            && is_text_content(messages@[0], text),
        _ => false,
    }
}

/// A request that pushes `text` to `to`.
pub fn text_push(to: String, text: String) -> (r: DeliveryRequest)
    ensures
        is_text_push(r, to@, text@),
{
    DeliveryRequest::Push { to, messages: vec![Message::Text { text }] }
}

/// A request that broadcasts `text`.
pub fn text_broadcast(text: String) -> (r: DeliveryRequest)
    ensures
        is_text_broadcast(r, text@),
{
    DeliveryRequest::Broadcast { messages: vec![Message::Text { text }] }
}

pub open spec fn endpoint_text(r: DeliveryRequest) -> Seq<char> {
    match r {
        DeliveryRequest::Push { .. } => "https://api.line.me/v2/bot/message/push"@,
        DeliveryRequest::Reply { .. } => "https://api.line.me/v2/bot/message/reply"@,
        DeliveryRequest::Broadcast { .. } => "https://api.line.me/v2/bot/message/broadcast"@,
        DeliveryRequest::Profile { user_id } => "https://api.line.me/v2/bot/profile/"@ + user_id@,
    }
}

/// The URL that the request is sent to.
pub fn endpoint(r: &DeliveryRequest) -> (u: String)
    ensures
        u@ == endpoint_text(*r),
{
    match r {
        DeliveryRequest::Push { .. } => String::from_str("https://api.line.me/v2/bot/message/push"),
        DeliveryRequest::Reply { .. } => String::from_str(
            "https://api.line.me/v2/bot/message/reply",
        ),
        DeliveryRequest::Broadcast { .. } => String::from_str(
            "https://api.line.me/v2/bot/message/broadcast",
        ),
        DeliveryRequest::Profile { user_id } => {
            let mut u = String::from_str("https://api.line.me/v2/bot/profile/");
            u.append(user_id.as_str());
            u
        },
    }
}

/// The value of the `Authorization` header that carries the credential.
pub fn bearer(token: &str) -> (h: String)
    ensures
        h@ == "Bearer "@ + token@,
{
    let mut h = String::from_str("Bearer ");
    h.append(token);
    h
}

pub open spec fn is_success_status(status: u16) -> bool {
    200 <= status < 300
}

pub open spec fn api_error_text(body: Seq<char>) -> Seq<char> {
    "LINE API error: "@ + body
}

/// Reads a response: a status in the 2xx range is a success; any other is a
/// delivery failure that carries the response body as opaque diagnostic text.
pub fn delivery_outcome(status: u16, body: &str) -> (r: Result<(), String>)
    ensures
        is_success_status(status) <==> r is Ok,
        r matches Err(e) ==> e@ == api_error_text(body@),
{
    if 200 <= status && status < 300 {
        Ok(())
    } else {
        let mut e = String::from_str("LINE API error: ");
        e.append(body);
        Err(e)
    }
}

/// Why the delivery credential cannot be used.
#[derive(Debug, Clone, Copy, PartialEq, Eq, Structural)]
pub enum CredentialError {
    NotConfigured,
    Empty,
}

pub open spec fn credential_error_text(e: CredentialError) -> Seq<char> {
    match e {
        CredentialError::NotConfigured => "LINE channel access token not configured"@,
        CredentialError::Empty => "LINE channel access token is empty"@,
    }
}

impl CredentialError {
    /// The diagnostic text of this error.
    pub fn message(&self) -> (r: String)
        ensures
            r@ == credential_error_text(*self),
    {
        match self {
            CredentialError::NotConfigured => String::from_str(
                "LINE channel access token not configured",
            ),
            CredentialError::Empty => String::from_str("LINE channel access token is empty"),
        }
    }
}

pub open spec fn credential_check(setting: Option<String>) -> Result<String, CredentialError> {
    match setting {
        None => Err(CredentialError::NotConfigured),
        Some(t) => if t@.len() == 0 {
            Err(CredentialError::Empty)
        } else {
            Ok(t)
        },
    }
}

/// The delivery credential from its configuration entry: absent and empty
/// entries are refused.
pub fn access_token(setting: Option<String>) -> (r: Result<String, CredentialError>)
    ensures
        r == credential_check(setting),
{
    match setting {
        None => Err(CredentialError::NotConfigured),
        Some(t) => if t.as_str().is_empty() {
            Err(CredentialError::Empty)
        } else {
            Ok(t)
        },
    }
}

} // verus!
