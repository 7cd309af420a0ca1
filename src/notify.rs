//! Notification fan-out: which alert channels are configured, and the audit
//! record of each attempt. Channels are attempted independently.

use vstd::prelude::*;
use crate::timing::{decimal, decimal_text};

verus! {

/// An external alerting channel.
#[derive(Debug, Clone, Copy, PartialEq, Eq, Structural)]
pub enum Channel {
    /// Chat-notify service: token based, form-encoded body.
    LineNotify,
    /// Team-chat webhook: URL based, JSON body.
    Slack,
}

/// The configuration entries of the channels; an absent or empty entry
/// leaves that channel out.
#[derive(Debug, Clone)]
pub struct ChannelSettings {
    pub line_notify_token: Option<String>,
    pub slack_webhook_url: Option<String>,
}

/// One configured channel with its credential or address.
#[derive(Debug, Clone)]
pub struct NotifyTarget {
    pub channel: Channel,
    pub address: String,
}

/// What is appended to the notification log for one attempt.
#[derive(Debug, Clone)]
pub struct NotificationRecord {
    pub notification_type: String,
    pub recipient: String,
    pub message: String,
    pub status: String,
    pub error_message: Option<String>,
}

pub open spec fn is_configured(entry: Option<String>) -> bool {
    entry matches Some(v) && v@.len() > 0
}

/// The target of a configured entry.
pub open spec fn target_of(channel: Channel, entry: Option<String>) -> NotifyTarget {
    NotifyTarget { channel, address: entry->0 }
}

/// The configured channels, the chat-notify service first.
pub open spec fn configured_targets(s: ChannelSettings) -> Seq<NotifyTarget> {
    let first = if is_configured(s.line_notify_token) {
        seq![target_of(Channel::LineNotify, s.line_notify_token)]
    } else {
        seq![]
    };
    if is_configured(s.slack_webhook_url) {
        first.push(target_of(Channel::Slack, s.slack_webhook_url))
    } else {
        first
    }
}

/// The channels that a notification goes to.
pub fn notification_targets(s: &ChannelSettings) -> (r: Vec<NotifyTarget>)
    ensures
        r@ == configured_targets(*s),
{
    let mut r: Vec<NotifyTarget> = Vec::new();
    match &s.line_notify_token {
        Some(t) => if !t.as_str().is_empty() {
            r.push(NotifyTarget { channel: Channel::LineNotify, address: t.clone() });
        },
        None => {},
    }
    match &s.slack_webhook_url {
        Some(u) => if !u.as_str().is_empty() {
            r.push(NotifyTarget { channel: Channel::Slack, address: u.clone() });
        },
        None => {},
    }
    proof {
        assert(r@ =~= configured_targets(*s));
    }
    r
}

pub open spec fn channel_text(c: Channel) -> Seq<char> {
    match c {
        Channel::LineNotify => "line_notify"@,
        Channel::Slack => "slack"@,
    }
}

/// The visible part of a credential: at most ten characters, and never more
/// than half of it.
pub open spec fn masked(token: Seq<char>) -> Seq<char> {
    let half = token.len() / 2;
    token.take(if half < 10 { half as int } else { 10 })
}

/// The recipient written to the log: a masked token, or `webhook` for a
/// channel addressed by URL.
pub open spec fn recipient_text(t: NotifyTarget) -> Seq<char> {
    match t.channel {
        Channel::LineNotify => masked(t.address@),
        Channel::Slack => "webhook"@,
    }
}

/// The visible part of a credential.
pub fn mask_token(token: &str) -> (r: String)
    ensures
        r@ == masked(token@),
{
    let n = token.unicode_len();
    let half = n / 2;
    let k = if half < 10 {
        half
    } else {
        10
    };
    String::from_str(token.substring_char(0, k))
}

/// The recipient written to the log for a target.
pub fn recipient(t: &NotifyTarget) -> (r: String)
    ensures
        r@ == recipient_text(*t),
{
    match t.channel {
        Channel::LineNotify => mask_token(t.address.as_str()),
        Channel::Slack => String::from_str("webhook"),
    }
}

pub open spec fn failure_prefix(c: Channel) -> Seq<char> {
    match c {
        Channel::LineNotify => "LINE Notify failed with status: "@,
        Channel::Slack => "Slack notification failed with status: "@,
    }
}

/// Reads the status of a channel's response: 2xx is a success, any other
/// status a failure whose text names the channel and the status.
pub fn channel_outcome(c: Channel, status: u16) -> (r: Result<(), String>)
    ensures
        (200 <= status < 300) <==> r is Ok,
        r matches Err(e) ==> e@ == failure_prefix(c) + decimal(status as nat),
{
    if 200 <= status && status < 300 {
        Ok(())
    } else {
        let mut e = match c {
            Channel::LineNotify => String::from_str("LINE Notify failed with status: "),
            Channel::Slack => String::from_str("Slack notification failed with status: "),
        };
        let code = decimal_text(status as u64);
        e.append(code.as_str());
        Err(e)
    }
}

/// The log record of one attempt.
pub open spec fn is_record_of(
    r: NotificationRecord,
    t: NotifyTarget,
    message: Seq<char>,
    outcome: Result<(), String>,
) -> bool {
    &&& r.notification_type@ == channel_text(t.channel)
    &&& r.recipient@ == recipient_text(t)
    &&& r.message@ == message
    &&& r.status@ == (if outcome is Ok {
        "success"@
    } else {
        "failed"@
    })
    &&& r.error_message == match outcome {
        Ok(_) => None,
        Err(e) => Some(e),
    }
}

/// The log record of one attempt on `t`.
pub fn attempt_record(t: &NotifyTarget, message: &str, outcome: &Result<(), String>) -> (r:
    NotificationRecord)
    ensures
        is_record_of(r, *t, message@, *outcome),
{
    let (status, error_message) = match outcome {
        Ok(_) => (String::from_str("success"), None),
        Err(e) => (String::from_str("failed"), Some(e.clone())),
    };
    NotificationRecord {
        notification_type: match t.channel {
            Channel::LineNotify => String::from_str("line_notify"),
            Channel::Slack => String::from_str("slack"),
        },
        recipient: recipient(t),
        message: String::from_str(message),
        status,
        error_message,
    }
}

/// One record per target, each carrying the outcome of that target's own
/// attempt.
pub open spec fn is_fan_out(
    targets: Seq<NotifyTarget>,
    message: Seq<char>,
    outcomes: Seq<Result<(), String>>,
    records: Seq<NotificationRecord>,
) -> bool {
    &&& records.len() == targets.len()
    &&& forall|k: int|
        0 <= k < targets.len() ==> is_record_of(
            #[trigger] records[k],
            targets[k],
            message,
            outcomes[k],
        )
}

/// The log records of a fan-out, given the outcome of each target's attempt.
pub fn fan_out_records(
    targets: &Vec<NotifyTarget>,
    message: &str,
    outcomes: &Vec<Result<(), String>>,
) -> (r: Vec<NotificationRecord>)
    requires
        outcomes.len() == targets.len(),
    ensures
        is_fan_out(targets@, message@, outcomes@, r@),
{
    let mut r: Vec<NotificationRecord> = Vec::new();
    let mut i: usize = 0;
    while i < targets.len()
        invariant
            i <= targets.len(),
            outcomes.len() == targets.len(),
            r.len() == i,
            forall|k: int|
                0 <= k < i ==> is_record_of(#[trigger] r@[k], targets@[k], message@, outcomes@[k]),
        decreases targets.len() - i,
    {
        let rec = attempt_record(&targets[i], message, &outcomes[i]);
        r.push(rec);
        i = i + 1;
    }
    r
}

/// Channels do not affect each other: the record of a channel depends on
/// that channel's own outcome only, and every channel gets its record
/// whatever the others' outcomes are.
pub proof fn fan_out_channels_are_independent(
    targets: Seq<NotifyTarget>,
    message: Seq<char>,
    outcomes1: Seq<Result<(), String>>,
    records1: Seq<NotificationRecord>,
    outcomes2: Seq<Result<(), String>>,
    records2: Seq<NotificationRecord>,
    k: int,
)
    requires
        is_fan_out(targets, message, outcomes1, records1),
        is_fan_out(targets, message, outcomes2, records2),
        0 <= k < targets.len(),
        outcomes1[k] == outcomes2[k],
    ensures
        records1.len() == records2.len(),
        records1[k].status@ == records2[k].status@,
        records1[k].error_message == records2[k].error_message,
        records1[k].notification_type@ == records2[k].notification_type@,
        records1[k].recipient@ == records2[k].recipient@,
{
    assert(is_record_of(records1[k], targets[k], message, outcomes1[k]));
    assert(is_record_of(records2[k], targets[k], message, outcomes2[k]));
}

} // verus!
