//! Records held by the record store, and the shapes of the dashboard figures.

use vstd::prelude::*;

verus! {

/// One remote chat identity.
#[derive(Debug, Clone)]
pub struct User {
    pub id: i64,
    pub line_user_id: String,
    pub display_name: Option<String>,
    pub picture_url: Option<String>,
    pub status_message: Option<String>,
    pub created_at: String,
    pub updated_at: String,
}

/// One received message, as it was stored.
#[derive(Debug, Clone)]
pub struct Message {
    pub id: i64,
    pub line_user_id: String,
    pub message_type: String,
    pub message_text: Option<String>,
    pub message_data: Option<String>,
    pub timestamp: String,
}

/// Lifecycle of a scheduled message. Only `Pending` is ever scanned for
/// delivery; the three others are terminal.
#[derive(Debug, Clone, Copy, PartialEq, Eq, Structural)]
pub enum MessageStatus {
    Pending,
    Sent,
    Failed,
    Cancelled,
}

pub open spec fn is_terminal(s: MessageStatus) -> bool {
    s != MessageStatus::Pending
}

/// The text under which a status is stored.
pub open spec fn status_text(s: MessageStatus) -> Seq<char> {
    match s {
        MessageStatus::Pending => "pending"@,
        MessageStatus::Sent => "sent"@,
        MessageStatus::Failed => "failed"@,
        MessageStatus::Cancelled => "cancelled"@,
    }
}

impl MessageStatus {
    /// The text under which this status is stored.
    pub fn as_str(&self) -> (r: &'static str)
        ensures
            r@ == status_text(*self),
    {
        match self {
            MessageStatus::Pending => "pending",
            MessageStatus::Sent => "sent",
            MessageStatus::Failed => "failed",
            MessageStatus::Cancelled => "cancelled",
        }
    }

    /// Whether no automatic transition leaves this status.
    pub fn is_terminal(&self) -> (r: bool)
        ensures
            r == is_terminal(*self),
    {
        !matches!(self, MessageStatus::Pending)
    }
}

/// A unit of deferred outbound delivery. With no target user the text is
/// broadcast to every follower.
#[derive(Debug, Clone)]
pub struct ScheduledMessage {
    pub id: i64,
    pub line_user_id: Option<String>,
    pub message_text: String,
    pub schedule_time: String,
    pub cron_expression: Option<String>,
    pub status: MessageStatus,
    pub sent_at: Option<String>,
    pub error_message: Option<String>,
    pub created_at: String,
    pub updated_at: String,
}

/// One configuration entry.
#[derive(Debug, Clone)]
pub struct Setting {
    pub key: String,
    pub value: String,
    pub description: Option<String>,
    pub created_at: String,
    pub updated_at: String,
}

/// A reminder-bearing appointment. `reminder_sent` never goes back to false.
#[derive(Debug, Clone)]
pub struct Calendar {
    pub id: i64,
    pub line_user_id: String,
    pub event_title: String,
    pub event_description: Option<String>,
    pub event_time: String,
    pub reminder_sent: bool,
    pub created_at: String,
    pub updated_at: String,
}

/// Audit record of one fan-out attempt.
#[derive(Debug, Clone)]
pub struct NotificationLog {
    pub id: i64,
    pub notification_type: String,
    pub recipient: String,
    pub message: String,
    pub status: String,
    pub error_message: Option<String>,
    pub sent_at: String,
}

/// Figures shown on the dashboard.
#[derive(Debug, Clone)]
pub struct DashboardStats {
    pub total_users: i64,
    pub total_messages: i64,
    pub messages_today: i64,
    pub new_users_this_week: i64,
    pub pending_scheduled_messages: i64,
    pub upcoming_calendar_events: i64,
    pub message_types: Vec<MessageTypeCount>,
    pub hourly_activity: Vec<HourlyActivity>,
}

/// Number of stored messages of one type.
#[derive(Debug, Clone)]
pub struct MessageTypeCount {
    pub message_type: String,
    pub count: i64,
}

/// Number of stored messages received in one hour of the day.
#[derive(Debug, Clone)]
pub struct HourlyActivity {
    pub hour: i32,
    pub count: i64,
}

/// Figures about one user.
#[derive(Debug, Clone)]
pub struct UserStats {
    pub user_id: String,
    pub display_name: Option<String>,
    pub message_count: i64,
    pub first_message: Option<String>,
    pub last_message: Option<String>,
    pub most_used_message_type: Option<String>,
}

} // verus!
