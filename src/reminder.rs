//! The calendar reminder engine: which events a tick reminds, in which order,
//! what the reminder says, and how the idempotency flag moves.

use vstd::prelude::*;
use crate::delivery::{DeliveryRequest, is_text_push, text_push};
use crate::models::Calendar;
use crate::order::order_by_time;
use crate::tick::{TickStart, is_tick_start, start_tick};
use crate::timing::{
    rfc3339_millis, parse_instant, now_millis, decimal, decimal_text, HOUR_MS, MINUTE_MS,
    REMINDER_WINDOW_MS,
};

verus! {

/// The event is still unreminded and its time, which parses, lies within
/// `[now, now + 24 hours]`.
pub open spec fn in_reminder_window(ev: Calendar, now: i64) -> bool {
    &&& !ev.reminder_sent
    &&& rfc3339_millis(ev.event_time@) matches Some(t) && now <= t && t <= now + REMINDER_WINDOW_MS
}

/// The event time of an event that the tick at `now` reminds.
pub open spec fn reminder_key(ev: Calendar, now: i64) -> Option<i64> {
    if in_reminder_window(ev, now) {
        rfc3339_millis(ev.event_time@)
    } else {
        None
    }
}

pub open spec fn reminder_keys(events: Seq<Calendar>, now: i64) -> Seq<Option<i64>> {
    events.map_values(|ev: Calendar| reminder_key(ev, now))
}

/// The event time of the event if the tick at `now` is to remind it.
pub fn reminder_instant(ev: &Calendar, now: i64) -> (r: Option<i64>)
    ensures
        r == reminder_key(*ev, now),
{
    if ev.reminder_sent {
        return None;
    }
    match parse_instant(ev.event_time.as_str()) {
        Some(t) => if now <= t && (t as i128) <= (now as i128) + (REMINDER_WINDOW_MS as i128) {
            Some(t)
        } else {
            None
        },
        None => None,
    }
}

fn reminder_keys_of(events: &Vec<Calendar>, now: i64) -> (keys: Vec<Option<i64>>)
    ensures
        keys@ == reminder_keys(events@, now),
{
    let mut keys: Vec<Option<i64>> = Vec::new();
    let mut i: usize = 0;
    while i < events.len()
        invariant
            i <= events.len(),
            keys@ == reminder_keys(events@.take(i as int), now),
        decreases events.len() - i,
    {
        let k = reminder_instant(&events[i], now);
        keys.push(k);
        i = i + 1;
        proof {
            assert(events@.take(i as int) == events@.take(i - 1).push(events@[i - 1]));
        }
    }
    proof {
        assert(events@.take(events@.len() as int) == events@);
    }
    keys
}

/// The positions of the events that a tick at `now` reminds, earliest first.
pub fn plan_reminders(events: &Vec<Calendar>, now: i64) -> (plan: Vec<usize>)
    ensures
        crate::order::is_time_order(reminder_keys(events@, now), plan@),
{
    let keys = reminder_keys_of(events, now);
    order_by_time(&keys)
}

/// How a reminder tick at `now` starts: with no event in the window it does
/// nothing; with events but no usable credential it skips the whole tick.
pub fn start_reminder_tick(events: &Vec<Calendar>, now: i64, setting: Option<String>) -> (r:
    TickStart)
    ensures
        is_tick_start(reminder_keys(events@, now), setting, r),
{
    let keys = reminder_keys_of(events, now);
    start_tick(&keys, setting)
}

/// How a reminder tick starts at the current time. Whatever the clock reads,
/// the result is the start of a tick at some instant.
pub fn start_reminder_tick_now(events: &Vec<Calendar>, setting: Option<String>) -> (r: (
    i64,
    TickStart,
))
    ensures
        is_tick_start(reminder_keys(events@, r.0), setting, r.1),
{
    let now = now_millis();
    (now, start_reminder_tick(events, now, setting))
}

/// The coarse phrase for the time left: whole hours when at least one hour
/// remains, whole minutes otherwise.
pub open spec fn time_phrase(ms: nat) -> Seq<char> {
    if ms / (HOUR_MS as nat) >= 1 {
        decimal(ms / (HOUR_MS as nat)) + "時間後"@
    } else {
        decimal(ms / (MINUTE_MS as nat)) + "分後"@
    }
}

pub open spec fn description_or_placeholder(description: Option<String>) -> Seq<char> {
    match description {
        Some(d) => d@,
        None => "詳細なし"@,
    }
}

/// The reminder sent for an event titled `title` that starts in `ms`
/// milliseconds.
pub open spec fn reminder_text(title: Seq<char>, description: Option<String>, ms: nat) -> Seq<char> {
    "📅 イベントリマインダー\n\n「"@ + title + "」が"@ + time_phrase(ms) + "に開始されます。\n\n"@
        + description_or_placeholder(description)
}

/// Renders the phrase for the time left.
pub fn time_phrase_text(ms: u64) -> (r: String)
    ensures
        r@ == time_phrase(ms as nat),
{
    let hours = ms / (HOUR_MS as u64);
    if hours >= 1 {
        let mut s = decimal_text(hours);
        s.append("時間後");
        s
    } else {
        let mut s = decimal_text(ms / (MINUTE_MS as u64));
        s.append("分後");
        s
    }
}

/// Renders the reminder for an event that starts in `ms` milliseconds.
pub fn reminder_message(title: &str, description: &Option<String>, ms: u64) -> (r: String)
    ensures
        r@ == reminder_text(title@, *description, ms as nat),
{
    let mut s = String::from_str("📅 イベントリマインダー\n\n「");
    s.append(title);
    s.append("」が");
    let phrase = time_phrase_text(ms);
    s.append(phrase.as_str());
    s.append("に開始されます。\n\n");
    match description {
        Some(d) => s.append(d.as_str()),
        None => s.append("詳細なし"),
    }
    s
}

/// The push that reminds the event's owner, for a tick at `now`; `None` when
/// the event is not one that the tick reminds.
pub fn reminder_request(ev: &Calendar, now: i64) -> (r: Option<DeliveryRequest>)
    ensures
        r is Some <==> in_reminder_window(*ev, now),
        r matches Some(q) ==> is_text_push(
            q,
            ev.line_user_id@,
            reminder_text(
                ev.event_title@,
                ev.event_description,
                (rfc3339_millis(ev.event_time@)->0 - now) as nat,
            ),
        ),
{
    match reminder_instant(ev, now) {
        None => None,
        Some(t) => {
            let ms = (t as i128 - now as i128) as u64;
            let text = reminder_message(ev.event_title.as_str(), &ev.event_description, ms);
            Some(text_push(ev.line_user_id.clone(), text))
        },
    }
}

/// The event after a reminder attempt: the flag is set by a delivered
/// reminder and by nothing else, and is never cleared.
pub open spec fn after_reminder(ev: Calendar, delivered: bool) -> Calendar {
    Calendar { reminder_sent: ev.reminder_sent || delivered, ..ev }
}

/// Records the outcome of a reminder attempt. A failed attempt leaves the
/// event eligible for the next tick.
pub fn record_reminder(ev: &mut Calendar, delivered: bool)
    ensures
        *final(ev) == after_reminder(*old(ev), delivered),
{
    if delivered {
        ev.reminder_sent = true;
    }
}

/// A failed attempt changes nothing, so an event still inside the window is
/// selected again by the next tick.
pub proof fn failed_reminder_stays_eligible(ev: Calendar, now: i64)
    ensures
        after_reminder(ev, false) == ev,
        reminder_key(after_reminder(ev, false), now) == reminder_key(ev, now),
{
}

/// The event after a run of reminder attempts with these outcomes.
pub open spec fn after_reminders(ev: Calendar, deliveries: Seq<bool>) -> Calendar
    decreases deliveries.len(),
{
    if deliveries.len() == 0 {
        ev
    } else {
        after_reminder(after_reminders(ev, deliveries.drop_last()), deliveries.last())
    }
}

/// The flag goes from false to true at attempt `k` of the run.
pub open spec fn flips_at(ev: Calendar, deliveries: Seq<bool>, k: int) -> bool {
    !after_reminders(ev, deliveries.take(k)).reminder_sent && after_reminders(
        ev,
        deliveries.take(k + 1),
    ).reminder_sent
}

proof fn flag_stays_set(ev: Calendar, deliveries: Seq<bool>, i: int, j: int)
    requires
        0 <= i <= j <= deliveries.len(),
        after_reminders(ev, deliveries.take(i)).reminder_sent,
    ensures
        after_reminders(ev, deliveries.take(j)).reminder_sent,
    decreases j - i,
{
    if i < j {
        flag_stays_set(ev, deliveries, i, j - 1);
        assert(deliveries.take(j).drop_last() == deliveries.take(j - 1));
    }
}

/// Over any run of attempts, the reminder flag goes from false to true at
/// most once, and only at an attempt whose delivery succeeded.
pub proof fn reminder_flag_flips_once(ev: Calendar, deliveries: Seq<bool>, k1: int, k2: int)
    requires
        0 <= k1 < deliveries.len(),
        0 <= k2 < deliveries.len(),
        flips_at(ev, deliveries, k1),
        flips_at(ev, deliveries, k2),
    ensures
        k1 == k2,
        deliveries[k1],
{
    assert(deliveries.take(k1 + 1).drop_last() == deliveries.take(k1));
    if k1 < k2 {
        flag_stays_set(ev, deliveries, k1 + 1, k2);
    } else if k2 < k1 {
        flag_stays_set(ev, deliveries, k2 + 1, k1);
    }
}

} // verus!
