use line_admin::notify::{
    attempt_record, channel_outcome, fan_out_records, mask_token, notification_targets, recipient,
    Channel, ChannelSettings, NotifyTarget,
};

fn both() -> ChannelSettings {
    ChannelSettings {
        line_notify_token: Some("abcdefghijklmnopqrstuvwxyz".to_string()),
        slack_webhook_url: Some("https://hooks.example/T1".to_string()),
    }
}

#[test]
fn one_failing_channel_does_not_suppress_the_other() {
    let targets = notification_targets(&both());
    assert_eq!(targets.len(), 2);
    let outcomes = vec![channel_outcome(Channel::LineNotify, 500), channel_outcome(Channel::Slack, 200)];
    let records = fan_out_records(&targets, "New follower: U1", &outcomes);
    assert_eq!(records.len(), 2);
    assert_eq!(records[0].notification_type, "line_notify");
    assert_eq!(records[0].recipient, "abcdefghij");
    assert_eq!(records[0].status, "failed");
    assert_eq!(records[0].error_message.as_deref(), Some("LINE Notify failed with status: 500"));
    assert_eq!(records[0].message, "New follower: U1");
    assert_eq!(records[1].notification_type, "slack");
    assert_eq!(records[1].recipient, "webhook");
    assert_eq!(records[1].status, "success");
    assert_eq!(records[1].error_message, None);
    assert_eq!(records[1].message, "New follower: U1");
}

#[test]
fn unconfigured_channels_are_silent() {
    let none = ChannelSettings { line_notify_token: None, slack_webhook_url: Some(String::new()) };
    assert!(notification_targets(&none).is_empty());
    let slack_only = ChannelSettings {
        line_notify_token: Some(String::new()),
        slack_webhook_url: Some("https://hooks.example/T2".to_string()),
    };
    let t = notification_targets(&slack_only);
    assert_eq!(t.len(), 1);
    assert_eq!(t[0].channel, Channel::Slack);
    assert_eq!(t[0].address, "https://hooks.example/T2");
    let both = notification_targets(&both());
    assert_eq!(both[0].channel, Channel::LineNotify);
    assert_eq!(both[1].channel, Channel::Slack);
}

#[test]
fn tokens_are_masked_in_the_log() {
    assert_eq!(mask_token("abcdefghijklmnopqrstuvwxyz"), "abcdefghij");
    assert_eq!(mask_token("abcdefgh"), "abcd");
    assert_eq!(mask_token("x"), "");
    assert_eq!(mask_token(""), "");
    assert_eq!(mask_token("トークンの値です"), "トークン");
    let t = NotifyTarget { channel: Channel::LineNotify, address: "0123456789abcdefghij".to_string() };
    assert_eq!(recipient(&t), "0123456789");
}

#[test]
fn channel_outcome_reads_the_status() {
    assert!(channel_outcome(Channel::Slack, 204).is_ok());
    assert_eq!(
        channel_outcome(Channel::Slack, 404),
        Err("Slack notification failed with status: 404".to_string())
    );
    assert_eq!(
        channel_outcome(Channel::LineNotify, 199),
        Err("LINE Notify failed with status: 199".to_string())
    );
    assert!(channel_outcome(Channel::LineNotify, 300).is_err());
}

#[test]
fn transport_failure_is_recorded_too() {
    let t = NotifyTarget { channel: Channel::Slack, address: "https://hooks.example/T3".to_string() };
    let rec = attempt_record(&t, "hi", &Err("connection refused".to_string()));
    assert_eq!(rec.status, "failed");
    assert_eq!(rec.error_message.as_deref(), Some("connection refused"));
}
