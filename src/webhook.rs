//! The inbound event normaliser: an envelope of platform events becomes, per
//! event, an ordered list of effects on the record store and on the alert
//! channels.

use vstd::prelude::*;
use base64::Engine;

verus! {

/// Who an event comes from.
#[derive(Debug, Clone)]
pub struct EventSource {
    pub source_type: String,
    pub user_id: String,
}

/// The content of an inbound message.
#[derive(Debug, Clone)]
pub enum LineMessage {
    Text { id: String, text: String },
    Image { id: String },
    Video { id: String },
    Audio { id: String },
    /// Coordinates are held as the JSON number text of each value.
    Location { id: String, title: String, address: String, latitude: String, longitude: String },
    Sticker { id: String, package_id: String, sticker_id: String },
    /// A content type that is not modelled: accepted, not stored.
    Other,
}

/// One platform event.
#[derive(Debug, Clone)]
pub enum LineEvent {
    Message { reply_token: String, source: EventSource, message: LineMessage, timestamp: i64 },
    Follow { reply_token: String, source: EventSource, timestamp: i64 },
    Unfollow { source: EventSource, timestamp: i64 },
    /// An event type that is not modelled: accepted and ignored.
    Other,
}

/// The envelope of a webhook call.
#[derive(Debug, Clone)]
pub struct LineWebhook {
    pub destination: String,
    pub events: Vec<LineEvent>,
}

/// One effect of an event, to be carried out in order.
#[derive(Debug, Clone)]
pub enum Effect {
    /// Create the user, or refresh it if it exists; no display name is known.
    UpsertUser { line_user_id: String },
    /// Append an inbound message to the log.
    StoreMessage {
        line_user_id: String,
        message_type: String,
        message_text: Option<String>,
        message_data: Option<String>,
    },
    /// Send an alert through the notification fan-out.
    Notify { text: String },
}

/// An effect with its texts as character sequences.
pub enum EffectView {
    UpsertUser(Seq<char>),
    StoreMessage { user: Seq<char>, kind: Seq<char>, text: Option<Seq<char>>, data: Option<Seq<char>> },
    Notify(Seq<char>),
}

pub open spec fn text_view(o: Option<String>) -> Option<Seq<char>> {
    match o {
        Some(s) => Some(s@),
        None => None,
    }
}

impl View for Effect {
    type V = EffectView;

    open spec fn view(&self) -> EffectView {
        match self {
            Effect::UpsertUser { line_user_id } => EffectView::UpsertUser(line_user_id@),
            Effect::StoreMessage { line_user_id, message_type, message_text, message_data } =>
                EffectView::StoreMessage {
                user: line_user_id@,
                kind: message_type@,
                text: text_view(*message_text),
                data: text_view(*message_data),
            },
            Effect::Notify { text } => EffectView::Notify(text@),
        }
    }
}

pub open spec fn effect_views(s: Seq<Effect>) -> Seq<EffectView> {
    s.map_values(|e: Effect| e@)
}

/// The JSON string literal that denotes `s`, quotes and escapes included.
pub uninterp spec fn json_string(s: Seq<char>) -> Seq<char>;

/// Relies on `serde_json::to_string` applied to a `str`: the JSON string
/// literal of the text. Serialising a `str` does not fail.
#[verifier::external_body]
fn json_quote(s: &str) -> (r: String)
    ensures
        r@ == json_string(s@),
{
    match serde_json::to_string(s) {
        Ok(q) => q,
        Err(_) => String::new(),
    }
}

/// The bytes that a standard, padded base64 text decodes to, or `None` when
/// it is not such a text.
pub uninterp spec fn base64_decoded(s: Seq<char>) -> Option<Seq<u8>>;

/// Relies on base64's `Engine::decode` with the `STANDARD` engine.
#[verifier::external_body]
fn decode_base64(s: &str) -> (r: Option<Vec<u8>>)
    ensures
        match r {
            Some(v) => base64_decoded(s@) == Some(v@),
            None => base64_decoded(s@) is None,
        },
{
    match base64::engine::general_purpose::STANDARD.decode(s) {
        Ok(v) => Some(v),
        Err(_) => None,
    }
}

/// Length of an HMAC-SHA256 digest, which the signature header carries.
pub const SIGNATURE_BYTES: usize = 32;

/// The signature header is the base64 text of a digest of the right length.
pub open spec fn signature_well_formed(sig: Seq<char>) -> bool {
    base64_decoded(sig) matches Some(b) && b.len() == SIGNATURE_BYTES
}

/// Whether a signature header value is well formed.
pub fn check_signature(sig: &str) -> (r: bool)
    ensures
        r == signature_well_formed(sig@),
{
    match decode_base64(sig) {
        Some(b) => b.len() == SIGNATURE_BYTES,
        None => false,
    }
}

/// The structured payload of a location: its four fields as a JSON object,
/// keys in lexicographic order.
pub open spec fn location_json(
    title: Seq<char>,
    address: Seq<char>,
    latitude: Seq<char>,
    longitude: Seq<char>,
) -> Seq<char> {
    "{\"address\":"@ + json_string(address) + ",\"latitude\":"@ + latitude + ",\"longitude\":"@
        + longitude + ",\"title\":"@ + json_string(title) + "}"@
}

/// The structured payload of a sticker.
pub open spec fn sticker_json(package_id: Seq<char>, sticker_id: Seq<char>) -> Seq<char> {
    "{\"packageId\":"@ + json_string(package_id) + ",\"stickerId\":"@ + json_string(sticker_id)
        + "}"@
}

/// Renders the payload of a location.
pub fn location_data(title: &str, address: &str, latitude: &str, longitude: &str) -> (r: String)
    ensures
        r@ == location_json(title@, address@, latitude@, longitude@),
{
    let mut s = String::from_str("{\"address\":");
    let a = json_quote(address);
    s.append(a.as_str());
    s.append(",\"latitude\":");
    s.append(latitude);
    s.append(",\"longitude\":");
    s.append(longitude);
    s.append(",\"title\":");
    let t = json_quote(title);
    s.append(t.as_str());
    s.append("}");
    s
}

/// Renders the payload of a sticker.
pub fn sticker_data(package_id: &str, sticker_id: &str) -> (r: String)
    ensures
        r@ == sticker_json(package_id@, sticker_id@),
{
    let mut s = String::from_str("{\"packageId\":");
    let p = json_quote(package_id);
    s.append(p.as_str());
    s.append(",\"stickerId\":");
    let k = json_quote(sticker_id);
    s.append(k.as_str());
    s.append("}");
    s
}

pub open spec fn store(user: Seq<char>, kind: Seq<char>, text: Option<Seq<char>>, data: Option<
    Seq<char>,
>) -> EffectView {
    EffectView::StoreMessage { user, kind, text, data }
}

/// The effects of a message from `user`: the user is upserted first, so that
/// the stored message always has its owner; then the content is stored, and
/// only a text raises an alert.
pub open spec fn message_effects(user: Seq<char>, m: LineMessage) -> Seq<EffectView> {
    seq![EffectView::UpsertUser(user)] + match m {
        LineMessage::Text { text, .. } => seq![
            store(user, "text"@, Some(text@), None),
            EffectView::Notify("New message from "@ + user + ": "@ + text@),
        ],
        LineMessage::Image { .. } => seq![store(user, "image"@, None, None)],
        LineMessage::Video { .. } => seq![store(user, "video"@, None, None)],
        LineMessage::Audio { .. } => seq![store(user, "audio"@, None, None)],
        LineMessage::Location { title, address, latitude, longitude, .. } => seq![
            store(
                user,
                "location"@,
                None,
                Some(location_json(title@, address@, latitude@, longitude@)),
            ),
        ],
        LineMessage::Sticker { package_id, sticker_id, .. } => seq![
            store(user, "sticker"@, None, Some(sticker_json(package_id@, sticker_id@))),
        ],
        LineMessage::Other => seq![],
    }
}

/// The effects of one event.
pub open spec fn event_effects(e: LineEvent) -> Seq<EffectView> {
    match e {
        LineEvent::Message { source, message, .. } => message_effects(source.user_id@, message),
        LineEvent::Follow { source, .. } => seq![
            EffectView::UpsertUser(source.user_id@),
            EffectView::Notify("New follower: "@ + source.user_id@),
        ],
        LineEvent::Unfollow { source, .. } => seq![
            EffectView::Notify("User unfollowed: "@ + source.user_id@),
        ],
        LineEvent::Other => seq![],
    }
}

fn store_effect(user: &str, kind: &str, text: Option<String>, data: Option<String>) -> (r: Effect)
    ensures
        r@ == store(user@, kind@, text_view(text), text_view(data)),
{
    Effect::StoreMessage {
        line_user_id: String::from_str(user),
        message_type: String::from_str(kind),
        message_text: text,
        message_data: data,
    }
}

fn notify_effect(prefix: &str, user: &str, rest: Option<&str>) -> (r: Effect)
    ensures
        r@ == EffectView::Notify(
            match rest {
                Some(t) => prefix@ + user@ + ": "@ + t@,
                None => prefix@ + user@,
            },
        ),
{
    let mut s = String::from_str(prefix);
    s.append(user);
    match rest {
        Some(t) => {
            s.append(": ");
            s.append(t);
        },
        None => {},
    }
    Effect::Notify { text: s }
}

/// The effects of a message from `user_id`.
pub fn handle_message_event(user_id: &str, message: &LineMessage) -> (r: Vec<Effect>)
    ensures
        effect_views(r@) == message_effects(user_id@, *message),
{
    let mut r: Vec<Effect> = Vec::new();
    r.push(Effect::UpsertUser { line_user_id: String::from_str(user_id) });
    match message {
        LineMessage::Text { text, .. } => {
            r.push(store_effect(user_id, "text", Some(text.clone()), None));
            r.push(notify_effect("New message from ", user_id, Some(text.as_str())));
        },
        LineMessage::Image { .. } => {
            r.push(store_effect(user_id, "image", None, None));
        },
        LineMessage::Video { .. } => {
            r.push(store_effect(user_id, "video", None, None));
        },
        LineMessage::Audio { .. } => {
            r.push(store_effect(user_id, "audio", None, None));
        },
        LineMessage::Location { title, address, latitude, longitude, .. } => {
            let data = location_data(
                title.as_str(),
                address.as_str(),
                latitude.as_str(),
                longitude.as_str(),
            );
            r.push(store_effect(user_id, "location", None, Some(data)));
        },
        LineMessage::Sticker { package_id, sticker_id, .. } => {
            let data = sticker_data(package_id.as_str(), sticker_id.as_str());
            r.push(store_effect(user_id, "sticker", None, Some(data)));
        },
        LineMessage::Other => {},
    }
    proof {
        assert(effect_views(r@) =~= message_effects(user_id@, *message));
    }
    r
}

/// The effects of one event.
pub fn process_event(event: &LineEvent) -> (r: Vec<Effect>)
    ensures
        effect_views(r@) == event_effects(*event),
{
    match event {
        LineEvent::Message { source, message, .. } => handle_message_event(
            source.user_id.as_str(),
            message,
        ),
        LineEvent::Follow { source, .. } => {
            let mut r: Vec<Effect> = Vec::new();
            r.push(Effect::UpsertUser { line_user_id: source.user_id.clone() });
            r.push(notify_effect("New follower: ", source.user_id.as_str(), None));
            proof {
                assert(effect_views(r@) =~= event_effects(*event));
            }
            r
        },
        LineEvent::Unfollow { source, .. } => {
            let mut r: Vec<Effect> = Vec::new();
            r.push(notify_effect("User unfollowed: ", source.user_id.as_str(), None));
            proof {
                assert(effect_views(r@) =~= event_effects(*event));
            }
            r
        },
        LineEvent::Other => {
            let r: Vec<Effect> = Vec::new();
            proof {
                assert(effect_views(r@) =~= event_effects(*event));
            }
            r
        },
    }
}

/// The answer to a webhook call.
#[derive(Debug)]
pub enum WebhookResponse {
    /// The signature header is missing or malformed: nothing is processed.
    Unauthorized,
    /// The effects of each event, in the envelope's order. Each list is
    /// carried out on its own: a failure in one does not stop the others.
    Accepted(Vec<Vec<Effect>>),
}

impl WebhookResponse {
    /// The HTTP status of the answer; per-event failures never change it.
    pub fn status_code(&self) -> (r: u16)
        ensures
            r == (if *self is Unauthorized {
                401u16
            } else {
                200u16
            }),
    {
        match self {
            WebhookResponse::Unauthorized => 401,
            WebhookResponse::Accepted(_) => 200,
        }
    }
}

/// The effects of every event of the envelope, or a rejection of the whole
/// envelope when its signature header is missing or malformed.
pub open spec fn is_webhook_response(
    signature: Option<Seq<char>>,
    events: Seq<LineEvent>,
    r: WebhookResponse,
) -> bool {
    match r {
        WebhookResponse::Unauthorized => !(signature matches Some(s) && signature_well_formed(s)),
        WebhookResponse::Accepted(effects) => signature matches Some(s) && signature_well_formed(s)
            && effects@.len() == events.len() && forall|k: int|
            0 <= k < events.len() ==> effect_views(#[trigger] effects@[k]@) == event_effects(events[k]),
    }
}

/// Handles a webhook call with the value of its signature header.
pub fn handle_webhook(signature: Option<&str>, envelope: &LineWebhook) -> (r: WebhookResponse)
    ensures
        is_webhook_response(
            match signature {
                Some(s) => Some(s@),
                None => None,
            },
            envelope.events@,
            r,
        ),
{
    let well_formed = match signature {
        Some(s) => check_signature(s),
        None => false,
    };
    if !well_formed {
        return WebhookResponse::Unauthorized;
    }
    let mut all: Vec<Vec<Effect>> = Vec::new();
    let mut i: usize = 0;
    while i < envelope.events.len()
        invariant
            i <= envelope.events.len(),
            all.len() == i,
            forall|k: int|
                0 <= k < i ==> effect_views(#[trigger] all@[k]@) == event_effects(
                    envelope.events@[k],
                ),
        decreases envelope.events.len() - i,
    {
        let effects = process_event(&envelope.events[i]);
        all.push(effects);
        i = i + 1;
    }
    WebhookResponse::Accepted(all)
}

} // verus!
