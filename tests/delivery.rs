use line_admin::delivery::{
    access_token, bearer, delivery_outcome, endpoint, text_push, CredentialError, DeliveryRequest,
};
use line_admin::models::MessageStatus;
use line_admin::timing::decimal_text;

#[test]
fn endpoints_of_each_call() {
    assert_eq!(endpoint(&text_push("U1".to_string(), "x".to_string())), "https://api.line.me/v2/bot/message/push");
    assert_eq!(
        endpoint(&DeliveryRequest::Reply { reply_token: "t".to_string(), messages: vec![] }),
        "https://api.line.me/v2/bot/message/reply"
    );
    assert_eq!(
        endpoint(&DeliveryRequest::Broadcast { messages: vec![] }),
        "https://api.line.me/v2/bot/message/broadcast"
    );
    assert_eq!(
        endpoint(&DeliveryRequest::Profile { user_id: "U42".to_string() }),
        "https://api.line.me/v2/bot/profile/U42"
    );
}

#[test]
fn credential_is_carried_as_bearer() {
    assert_eq!(bearer("abc"), "Bearer abc");
}

#[test]
fn non_success_response_carries_body() {
    assert_eq!(delivery_outcome(200, "{}"), Ok(()));
    assert_eq!(delivery_outcome(299, ""), Ok(()));
    assert_eq!(delivery_outcome(400, "{\"message\":\"bad\"}"), Err("LINE API error: {\"message\":\"bad\"}".to_string()));
    assert_eq!(delivery_outcome(500, ""), Err("LINE API error: ".to_string()));
}

#[test]
fn credential_errors() {
    assert_eq!(access_token(None).unwrap_err(), CredentialError::NotConfigured);
    assert_eq!(access_token(Some(String::new())).unwrap_err(), CredentialError::Empty);
    assert_eq!(access_token(Some("t".to_string())).unwrap(), "t");
    assert_eq!(CredentialError::NotConfigured.message(), "LINE channel access token not configured");
    assert_eq!(CredentialError::Empty.message(), "LINE channel access token is empty");
}

#[test]
fn status_texts_and_decimals() {
    assert_eq!(MessageStatus::Pending.as_str(), "pending");
    assert_eq!(MessageStatus::Sent.as_str(), "sent");
    assert_eq!(MessageStatus::Failed.as_str(), "failed");
    assert_eq!(MessageStatus::Cancelled.as_str(), "cancelled");
    assert!(!MessageStatus::Pending.is_terminal());
    assert!(MessageStatus::Cancelled.is_terminal());
    assert_eq!(decimal_text(0), "0");
    assert_eq!(decimal_text(1234567), "1234567");
    assert_eq!(decimal_text(u64::MAX), "18446744073709551615");
}
