//! The scheduled-message dispatch engine: which pending rows a tick sends, in
//! which order, what it sends for each, and how each row's status moves.

use vstd::prelude::*;
use crate::delivery::{DeliveryRequest, is_text_push, is_text_broadcast, text_push, text_broadcast};
use crate::models::{ScheduledMessage, MessageStatus, is_terminal};
use crate::order::{is_time_order, order_by_time};
use crate::tick::{TickStart, is_tick_start, start_tick};
use crate::timing::{rfc3339_millis, parse_instant, now_millis};

verus! {

/// The row is pending and its send time, which parses, is not after `now`.
pub open spec fn is_due(m: ScheduledMessage, now: i64) -> bool {
    &&& m.status == MessageStatus::Pending
    &&& rfc3339_millis(m.schedule_time@) matches Some(t) && t <= now
}

/// The send time of a due row; `None` for a row that the tick leaves alone.
pub open spec fn dispatch_key(m: ScheduledMessage, now: i64) -> Option<i64> {
    if is_due(m, now) {
        rfc3339_millis(m.schedule_time@)
    } else {
        None
    }
}

pub open spec fn dispatch_keys(rows: Seq<ScheduledMessage>, now: i64) -> Seq<Option<i64>> {
    rows.map_values(|m: ScheduledMessage| dispatch_key(m, now))
}

/// `plan` holds the positions of exactly the due rows, earliest send time
/// first, rows with equal send times in their input order.
pub open spec fn is_dispatch_plan(rows: Seq<ScheduledMessage>, now: i64, plan: Seq<usize>) -> bool {
    is_time_order(dispatch_keys(rows, now), plan)
}

/// The send time of the row if the tick at `now` is to send it.
pub fn due_instant(m: &ScheduledMessage, now: i64) -> (r: Option<i64>)
    ensures
        r == dispatch_key(*m, now),
{
    if !matches!(m.status, MessageStatus::Pending) {
        return None;
    }
    match parse_instant(m.schedule_time.as_str()) {
        Some(t) => if t <= now {
            Some(t)
        } else {
            None
        },
        None => None,
    }
}

fn dispatch_keys_of(rows: &Vec<ScheduledMessage>, now: i64) -> (keys: Vec<Option<i64>>)
    ensures
        keys@ == dispatch_keys(rows@, now),
{
    let mut keys: Vec<Option<i64>> = Vec::new();
    let mut i: usize = 0;
    while i < rows.len()
        invariant
            i <= rows.len(),
            keys@ == dispatch_keys(rows@.take(i as int), now),
        decreases rows.len() - i,
    {
        let k = due_instant(&rows[i], now);
        keys.push(k);
        i = i + 1;
        proof {
            assert(rows@.take(i as int) == rows@.take(i - 1).push(rows@[i - 1]));
        }
    }
    proof {
        assert(rows@.take(rows@.len() as int) == rows@);
    }
    keys
}

/// The positions of the rows that a tick at `now` sends, in sending order.
pub fn plan_dispatch(rows: &Vec<ScheduledMessage>, now: i64) -> (plan: Vec<usize>)
    ensures
        is_dispatch_plan(rows@, now, plan@),
{
    let keys = dispatch_keys_of(rows, now);
    order_by_time(&keys)
}

/// How a dispatch tick at `now` starts, given the snapshot of pending rows and
/// the configuration entry of the delivery credential.
pub fn start_dispatch_tick(rows: &Vec<ScheduledMessage>, now: i64, setting: Option<String>) -> (r:
    TickStart)
    ensures
        is_tick_start(dispatch_keys(rows@, now), setting, r),
{
    let keys = dispatch_keys_of(rows, now);
    start_tick(&keys, setting)
}

/// How a dispatch tick starts at the current time. Whatever the clock reads,
/// the result is the start of a tick at some instant.
pub fn start_dispatch_tick_now(rows: &Vec<ScheduledMessage>, setting: Option<String>) -> (r: (
    i64,
    TickStart,
))
    ensures
        is_tick_start(dispatch_keys(rows@, r.0), setting, r.1),
{
    let now = now_millis();
    (now, start_dispatch_tick(rows, now, setting))
}

/// What a due row sends: a push of its text to its target user, or, with no
/// target, a broadcast of its text.
pub open spec fn is_scheduled_request(m: ScheduledMessage, r: DeliveryRequest) -> bool {
    match m.line_user_id {
        Some(u) => is_text_push(r, u@, m.message_text@),
        None => is_text_broadcast(r, m.message_text@),
    }
}

/// The outbound call that delivers the row.
pub fn scheduled_request(m: &ScheduledMessage) -> (r: DeliveryRequest)
    ensures
        is_scheduled_request(*m, r),
{
    match &m.line_user_id {
        Some(u) => text_push(u.clone(), m.message_text.clone()),
        None => text_broadcast(m.message_text.clone()),
    }
}

/// The row after a delivery attempt with outcome `outcome` at time `at`. A
/// row that is no longer pending is left as it is.
pub open spec fn after_delivery(m: ScheduledMessage, outcome: Result<(), String>, at: String) -> ScheduledMessage {
    if is_terminal(m.status) {
        m
    } else {
        match outcome {
            Ok(_) => ScheduledMessage {
                status: MessageStatus::Sent,
                sent_at: Some(at),
                error_message: None,
                updated_at: at,
                ..m
            },
            Err(e) => ScheduledMessage {
                status: MessageStatus::Failed,
                error_message: Some(e),
                updated_at: at,
                ..m
            },
        }
    }
}

/// Records the outcome of a delivery attempt: a pending row becomes `Sent`
/// with its sent time on success, `Failed` with the diagnostic text on
/// failure. Both are terminal. A row that is no longer pending (cancelled
/// meanwhile, or already recorded) is not touched.
pub fn record_delivery(m: &mut ScheduledMessage, outcome: Result<(), String>, at: String)
    ensures
        *final(m) == after_delivery(*old(m), outcome, at),
{
    if m.status.is_terminal() {
        return;
    }
    match outcome {
        Ok(_) => {
            m.status = MessageStatus::Sent;
            m.sent_at = Some(at.clone());
            m.error_message = None;
            m.updated_at = at;
        },
        Err(e) => {
            m.status = MessageStatus::Failed;
            m.error_message = Some(e);
            m.updated_at = at;
        },
    }
}

/// The row after an administrative cancellation at time `at`: only a
/// pending row can be cancelled.
pub open spec fn after_cancel(m: ScheduledMessage, at: String) -> ScheduledMessage {
    if is_terminal(m.status) {
        m
    } else {
        ScheduledMessage { status: MessageStatus::Cancelled, updated_at: at, ..m }
    }
}

/// Cancels a pending row, so that no later tick selects it. A row that was
/// already sent, failed or cancelled is left as it is. Returns whether the
/// row changed.
pub fn cancel_scheduled_message(m: &mut ScheduledMessage, at: String) -> (changed: bool)
    ensures
        *final(m) == after_cancel(*old(m), at),
        changed == !is_terminal(old(m).status),
{
    if m.status.is_terminal() {
        return false;
    }
    m.status = MessageStatus::Cancelled;
    m.updated_at = at;
    true
}

/// Terminal states are final: a row that is sent, failed or cancelled is
/// never selected by a tick, and recording any outcome on it changes nothing.
pub proof fn terminal_rows_are_left_alone(
    rows: Seq<ScheduledMessage>,
    now: i64,
    plan: Seq<usize>,
    j: usize,
    outcome: Result<(), String>,
    at: String,
)
    requires
        j < rows.len(),
        is_terminal(rows[j as int].status),
        is_dispatch_plan(rows, now, plan),
    ensures
        !plan.contains(j),
        after_delivery(rows[j as int], outcome, at) == rows[j as int],
{
    assert(dispatch_keys(rows, now)[j as int] is None);
    if plan.contains(j) {
        let k = choose|k: int| 0 <= k < plan.len() && plan[k] == j;
        assert(dispatch_keys(rows, now)[plan[k] as int] is Some);
    }
}

/// A row is delivered at most once: whatever the outcome of an attempt on a
/// pending row, the row is terminal afterwards, and no later tick selects it.
pub proof fn delivered_rows_are_not_sent_again(
    m: ScheduledMessage,
    outcome: Result<(), String>,
    at: String,
    later: Seq<ScheduledMessage>,
    now: i64,
    plan: Seq<usize>,
    j: usize,
)
    requires
        m.status == MessageStatus::Pending,
        j < later.len(),
        later[j as int] == after_delivery(m, outcome, at),
        is_dispatch_plan(later, now, plan),
    ensures
        is_terminal(later[j as int].status),
        !plan.contains(j),
{
    terminal_rows_are_left_alone(later, now, plan, j, outcome, at);
}

/// A tick sends its rows in non-decreasing order of send time.
pub proof fn dispatch_follows_send_time(
    rows: Seq<ScheduledMessage>,
    now: i64,
    plan: Seq<usize>,
    a: int,
    b: int,
)
    requires
        is_dispatch_plan(rows, now, plan),
        0 <= a < b < plan.len(),
    ensures
        rfc3339_millis(rows[plan[a] as int].schedule_time@) is Some,
        rfc3339_millis(rows[plan[b] as int].schedule_time@) is Some,
        rfc3339_millis(rows[plan[a] as int].schedule_time@)->0 <= rfc3339_millis(
            rows[plan[b] as int].schedule_time@,
        )->0,
{
    let keys = dispatch_keys(rows, now);
    assert(keys[plan[a] as int] is Some);
    assert(keys[plan[b] as int] is Some);
    assert(crate::order::precedes(keys, plan, a, b));
}

/// A row whose send time does not parse is neither sent nor failed: no tick
/// selects it, so its status stays as it is.
pub proof fn malformed_time_is_never_sent(
    rows: Seq<ScheduledMessage>,
    now: i64,
    plan: Seq<usize>,
    j: usize,
)
    requires
        j < rows.len(),
        rfc3339_millis(rows[j as int].schedule_time@) is None,
        is_dispatch_plan(rows, now, plan),
    ensures
        !plan.contains(j),
{
    assert(dispatch_keys(rows, now)[j as int] is None);
    if plan.contains(j) {
        let k = choose|k: int| 0 <= k < plan.len() && plan[k] == j;
        assert(dispatch_keys(rows, now)[plan[k] as int] is Some);
    }
}

} // verus!
