use line_admin::webhook::{
    check_signature, handle_message_event, handle_webhook, location_data, process_event,
    sticker_data, Effect, EventSource, LineEvent, LineMessage, LineWebhook,
};

const SIG: &str = "AAAAAAAAAAAAAAAAAAAAAAAAAAAAAAAAAAAAAAAAAAA=";

fn source(u: &str) -> EventSource {
    EventSource { source_type: "user".to_string(), user_id: u.to_string() }
}

fn message_event(u: &str, m: LineMessage) -> LineEvent {
    LineEvent::Message { reply_token: "r".to_string(), source: source(u), message: m, timestamp: 1 }
}

fn envelope(events: Vec<LineEvent>) -> LineWebhook {
    LineWebhook { destination: "Ubot".to_string(), events }
}

#[test]
fn missing_signature_is_unauthorized_and_nothing_is_processed() {
    let env = envelope(vec![
        message_event("U1", LineMessage::Text { id: "1".to_string(), text: "hi".to_string() }),
        LineEvent::Follow { reply_token: "r".to_string(), source: source("U2"), timestamp: 2 },
    ]);
    let r = handle_webhook(None, &env);
    assert_eq!(r.status_code(), 401);
    assert!(matches!(r, line_admin::webhook::WebhookResponse::Unauthorized));
}

#[test]
fn malformed_signature_is_unauthorized() {
    let env = envelope(vec![LineEvent::Other]);
    assert_eq!(handle_webhook(Some("not base64!"), &env).status_code(), 401);
    assert_eq!(handle_webhook(Some("AAAA"), &env).status_code(), 401);
    assert_eq!(handle_webhook(Some(""), &env).status_code(), 401);
    assert!(check_signature(SIG));
    assert!(!check_signature("AAAA"));
}

#[test]
fn image_message_stores_one_row_and_sends_no_alert() {
    let env = envelope(vec![message_event("U1", LineMessage::Image { id: "9".to_string() })]);
    let r = handle_webhook(Some(SIG), &env);
    assert_eq!(r.status_code(), 200);
    let all = match r {
        line_admin::webhook::WebhookResponse::Accepted(all) => all,
        other => panic!("unexpected response {:?}", other),
    };
    assert_eq!(all.len(), 1);
    let effects = &all[0];
    let stores: Vec<&Effect> =
        effects.iter().filter(|e| matches!(e, Effect::StoreMessage { .. })).collect();
    assert_eq!(stores.len(), 1);
    match stores[0] {
        Effect::StoreMessage { line_user_id, message_type, message_text, message_data } => {
            assert_eq!(line_user_id, "U1");
            assert_eq!(message_type, "image");
            assert_eq!(*message_text, None);
            assert_eq!(*message_data, None);
        }
        other => panic!("unexpected effect {:?}", other),
    }
    assert!(!effects.iter().any(|e| matches!(e, Effect::Notify { .. })));
    assert!(matches!(&effects[0], Effect::UpsertUser { line_user_id } if line_user_id == "U1"));
}

#[test]
fn text_message_is_stored_and_alerted() {
    let e = handle_message_event("U7", &LineMessage::Text { id: "1".to_string(), text: "hello".to_string() });
    assert_eq!(e.len(), 3);
    assert!(matches!(&e[0], Effect::UpsertUser { line_user_id } if line_user_id == "U7"));
    match &e[1] {
        Effect::StoreMessage { message_type, message_text, message_data, .. } => {
            assert_eq!(message_type, "text");
            assert_eq!(message_text.as_deref(), Some("hello"));
            assert_eq!(*message_data, None);
        }
        other => panic!("unexpected effect {:?}", other),
    }
    assert!(matches!(&e[2], Effect::Notify { text } if text == "New message from U7: hello"));
}

#[test]
fn media_kinds_are_stored_without_alert() {
    for (m, kind) in [
        (LineMessage::Video { id: "v".to_string() }, "video"),
        (LineMessage::Audio { id: "a".to_string() }, "audio"),
    ] {
        let e = handle_message_event("U1", &m);
        assert_eq!(e.len(), 2);
        assert!(matches!(&e[1], Effect::StoreMessage { message_type, .. } if message_type == kind));
    }
}

#[test]
fn location_and_sticker_carry_structured_payloads() {
    let e = handle_message_event(
        "U1",
        &LineMessage::Location {
            id: "l".to_string(),
            title: "Tower".to_string(),
            address: "1 \"Main\" St".to_string(),
            latitude: "35.6586".to_string(),
            longitude: "139.7454".to_string(),
        },
    );
    assert_eq!(e.len(), 2);
    match &e[1] {
        Effect::StoreMessage { message_type, message_text, message_data, .. } => {
            assert_eq!(message_type, "location");
            assert_eq!(*message_text, None);
            assert_eq!(
                message_data.as_deref(),
                Some("{\"address\":\"1 \\\"Main\\\" St\",\"latitude\":35.6586,\"longitude\":139.7454,\"title\":\"Tower\"}")
            );
        }
        other => panic!("unexpected effect {:?}", other),
    }
    let e = handle_message_event(
        "U1",
        &LineMessage::Sticker { id: "s".to_string(), package_id: "446".to_string(), sticker_id: "1988".to_string() },
    );
    match &e[1] {
        Effect::StoreMessage { message_type, message_data, .. } => {
            assert_eq!(message_type, "sticker");
            assert_eq!(message_data.as_deref(), Some("{\"packageId\":\"446\",\"stickerId\":\"1988\"}"));
        }
        other => panic!("unexpected effect {:?}", other),
    }
}

#[test]
fn payload_matches_serde_json_rendering() {
    let data = location_data("a\nb", "x", "1.5", "-2.25");
    let ours: serde_json::Value = serde_json::from_str(&data).unwrap();
    assert_eq!(ours["title"], "a\nb");
    assert_eq!(ours["latitude"], 1.5);
    assert_eq!(ours["longitude"], -2.25);
    assert_eq!(sticker_data("p", "s"), "{\"packageId\":\"p\",\"stickerId\":\"s\"}");
}

#[test]
fn follow_unfollow_and_other_events() {
    let f = process_event(&LineEvent::Follow { reply_token: "r".to_string(), source: source("U3"), timestamp: 5 });
    assert_eq!(f.len(), 2);
    assert!(matches!(&f[0], Effect::UpsertUser { line_user_id } if line_user_id == "U3"));
    assert!(matches!(&f[1], Effect::Notify { text } if text == "New follower: U3"));
    let u = process_event(&LineEvent::Unfollow { source: source("U3"), timestamp: 6 });
    assert_eq!(u.len(), 1);
    assert!(matches!(&u[0], Effect::Notify { text } if text == "User unfollowed: U3"));
    assert!(process_event(&LineEvent::Other).is_empty());
    let o = handle_message_event("U4", &LineMessage::Other);
    assert_eq!(o.len(), 1);
    assert!(matches!(&o[0], Effect::UpsertUser { .. }));
}

#[test]
fn each_event_gets_its_own_effects() {
    let env = envelope(vec![
        LineEvent::Other,
        LineEvent::Unfollow { source: source("U5"), timestamp: 1 },
        message_event("U6", LineMessage::Audio { id: "a".to_string() }),
    ]);
    match handle_webhook(Some(SIG), &env) {
        line_admin::webhook::WebhookResponse::Accepted(all) => {
            assert_eq!(all.len(), 3);
            assert!(all[0].is_empty());
            assert_eq!(all[1].len(), 1);
            assert_eq!(all[2].len(), 2);
        }
        other => panic!("unexpected response {:?}", other),
    }
}
