use betteruptime::email::{compose_alert_email, EmailError};
use betteruptime::alerts::{
    after_delivery, after_retry, decode_alert, email_body, email_subject, parse_retry_entry,
    retry_entry, AlertDecode, DeliveryFollowUp, RetryFollowUp,
};
use betteruptime::jobs::alert_fields;
use betteruptime::stream::{FieldValue, StreamEntry};

fn entry_of(fields: Vec<(String, String)>) -> StreamEntry {
    StreamEntry {
        id: "5-1".to_string(),
        fields: fields.into_iter().map(|(k, v)| (k, FieldValue::Data(v.into_bytes()))).collect(),
    }
}

#[test]
fn alert_written_is_alert_read() {
    let e = entry_of(alert_fields("https://a.b", "Status: 503 Service Unavailable", "me@x.y"));
    assert_eq!(
        decode_alert(&e),
        AlertDecode::Alert {
            url: "https://a.b".to_string(),
            email: "me@x.y".to_string(),
            reason: "Status: 503 Service Unavailable".to_string(),
        }
    );
}

#[test]
fn incomplete_alert_is_skipped() {
    let mut e = entry_of(alert_fields("https://a.b", "r", "me@x.y"));
    e.fields.pop();
    assert_eq!(decode_alert(&e), AlertDecode::Skip);
    let mut e = entry_of(alert_fields("https://a.b", "r", "me@x.y"));
    e.fields[1].1 = FieldValue::Other;
    assert_eq!(decode_alert(&e), AlertDecode::Skip);
}

#[test]
fn alert_with_invalid_text() {
    let mut e = entry_of(alert_fields("https://a.b", "r", "me@x.y"));
    e.fields[2].1 = FieldValue::Data(vec![0xc3]);
    assert_eq!(decode_alert(&e), AlertDecode::InvalidText);
}

#[test]
fn email_text() {
    assert_eq!(email_subject("https://a.b"), "DOWN ALERT: https://a.b");
    assert_eq!(email_body("https://a.b", "timeout"), "Your Website https://a.b is down. \nReason: timeout");
}

#[test]
fn retry_entries_round_trip() {
    let item = retry_entry("me@x.y", "https://a.b", "Status: 500 Internal Server Error");
    assert_eq!(item, "me@x.y|https://a.b|Status: 500 Internal Server Error");
    assert_eq!(
        parse_retry_entry(&item),
        Some(("me@x.y".to_string(), "https://a.b".to_string(), "Status: 500 Internal Server Error".to_string()))
    );
    assert_eq!(parse_retry_entry("||"), Some((String::new(), String::new(), String::new())));
}

#[test]
fn malformed_retry_entries() {
    assert_eq!(parse_retry_entry("a|b"), None);
    assert_eq!(parse_retry_entry("a|b|c|d"), None);
    assert_eq!(parse_retry_entry(""), None);
    // a reason holding a bar no longer reads back
    assert_eq!(parse_retry_entry(&retry_entry("e", "u", "a|b")), None);
}

#[test]
fn follow_ups() {
    assert_eq!(after_delivery(true, "e", "u", "r", 1000), DeliveryFollowUp::AcknowledgeAndDelete);
    assert_eq!(
        after_delivery(false, "e", "u", "r", 1000),
        DeliveryFollowUp::ScheduleRetry { entry: "e|u|r".to_string(), retry_at: 1060 }
    );
    assert_eq!(after_retry(true, 1000), RetryFollowUp::Remove);
    assert_eq!(after_retry(false, 1000), RetryFollowUp::Reschedule { retry_at: 1300 });
}

#[test]
fn alert_email_composition() {
    let email = compose_alert_email("me@x.y", "https://a.b", "timeout").unwrap();
    assert_eq!(email.from, "Uptime Bot <pandey@uptime.com>");
    assert_eq!(email.to, "me@x.y");
    assert_eq!(email.subject, "DOWN ALERT: https://a.b");
    assert_eq!(email.body, "Your Website https://a.b is down. \nReason: timeout");
    assert!(compose_alert_email("Owner <owner@example.com>", "https://a.b", "timeout").is_ok());
    assert_eq!(compose_alert_email("not an address", "https://a.b", "timeout").err(), Some(EmailError::InvalidRecipient));
    assert_eq!(compose_alert_email("", "https://a.b", "timeout").err(), Some(EmailError::InvalidRecipient));
}
