use betteruptime::analytics::{plan_check_result, CheckResult, StoreOp};
use betteruptime::jobs::{
    alert_fields, alert_reason, check_result_for, last_status_or_default, parse_ping_job,
    status_action, status_key, website_check_outcome, HttpOutcome, PingResult, StatusAction, ALERT_STREAM,
};
use betteruptime::stream::{find_field, FieldValue, StreamEntry};

fn entry(fields: Vec<(&str, FieldValue)>) -> StreamEntry {
    StreamEntry { id: "1-0".to_string(), fields: fields.into_iter().map(|(k, v)| (k.to_string(), v)).collect() }
}

fn data(s: &str) -> FieldValue {
    FieldValue::Data(s.as_bytes().to_vec())
}

#[test]
fn job_is_read_from_its_fields() {
    let e = entry(vec![("id", data("i1")), ("website_id", data("w1")), ("url", data("https://a.b")), ("user_id", data("u1"))]);
    let job = parse_ping_job(&e);
    assert_eq!(job.job_id, "1-0");
    assert_eq!(job.website_id, "w1");
    assert_eq!(job.url, "https://a.b");
    assert_eq!(job.user_id, "u1");
    assert!(job.is_valid());
}

#[test]
fn website_id_falls_back_to_id() {
    let e = entry(vec![("id", data("i1")), ("url", data("https://a.b"))]);
    let job = parse_ping_job(&e);
    assert_eq!(job.website_id, "i1");
    assert_eq!(job.user_id, "");
    assert!(job.is_valid());
}

#[test]
fn non_data_field_reads_as_empty() {
    let e = entry(vec![("website_id", FieldValue::Other), ("id", data("i1")), ("url", data("x"))]);
    let job = parse_ping_job(&e);
    assert_eq!(job.website_id, "");
    assert!(!job.is_valid());
}

#[test]
fn invalid_bytes_are_replaced() {
    let e = entry(vec![("website_id", FieldValue::Data(vec![b'w', 0xff])), ("url", data("x"))]);
    let job = parse_ping_job(&e);
    assert_eq!(job.website_id, "w\u{FFFD}");
}

#[test]
fn job_without_url_is_invalid() {
    let job = parse_ping_job(&entry(vec![("website_id", data("w1"))]));
    assert!(!job.is_valid());
    let job = parse_ping_job(&entry(vec![]));
    assert_eq!(job.website_id, "");
    assert!(!job.is_valid());
}

#[test]
fn field_search() {
    let e = entry(vec![("a", data("1")), ("b", data("2"))]);
    assert_eq!(find_field(&e, "b"), Some(1));
    assert_eq!(find_field(&e, "c"), None);
}

#[test]
fn http_outcomes() {
    assert_eq!(website_check_outcome(HttpOutcome::Response { status_code: 200 }), (true, None));
    assert_eq!(website_check_outcome(HttpOutcome::Response { status_code: 204 }), (true, None));
    assert_eq!(
        website_check_outcome(HttpOutcome::Response { status_code: 404 }),
        (false, Some("Status: 404 Not Found".to_string()))
    );
    assert_eq!(
        website_check_outcome(HttpOutcome::Response { status_code: 301 }),
        (false, Some("Status: 301 Moved Permanently".to_string()))
    );
    assert_eq!(
        website_check_outcome(HttpOutcome::Response { status_code: 599 }),
        (false, Some("Status: 599 <unknown status code>".to_string()))
    );
    assert_eq!(
        website_check_outcome(HttpOutcome::Failed { message: "timed out".to_string() }),
        (false, Some("timed out".to_string()))
    );
}

#[test]
fn status_cache_keys_and_defaults() {
    assert_eq!(status_key("w1"), "betteruptime::status:w1");
    assert_eq!(last_status_or_default(None), "UP");
    assert_eq!(last_status_or_default(Some("DOWN".to_string())), "DOWN");
}

#[test]
fn status_actions() {
    assert_eq!(status_action(true, "DOWN"), StatusAction::MarkUp);
    assert_eq!(status_action(true, "UP"), StatusAction::Keep);
    assert_eq!(status_action(false, "UP"), StatusAction::MarkDownAndAlert);
    assert_eq!(status_action(false, "DOWN"), StatusAction::Keep);
    assert_eq!(status_action(false, "other"), StatusAction::Keep);
}

fn stored_after(last: &str, action: StatusAction) -> String {
    match action {
        StatusAction::Keep => last.to_string(),
        StatusAction::MarkUp => "UP".to_string(),
        StatusAction::MarkDownAndAlert => "DOWN".to_string(),
    }
}

#[test]
fn one_alert_per_outage() {
    let mut stored = last_status_or_default(None);
    let mut alerts = 0;
    for is_up in [false, false, false, true, true, false, false] {
        let action = status_action(is_up, &stored);
        if action == StatusAction::MarkDownAndAlert {
            alerts += 1;
        }
        stored = stored_after(&stored, action);
        assert_eq!(stored, if is_up { "UP" } else { "DOWN" });
    }
    assert_eq!(alerts, 2);
}

#[test]
fn alert_contents() {
    assert_eq!(alert_reason(None), "Unknown Error");
    assert_eq!(alert_reason(Some("Status: 500 Internal Server Error".to_string())), "Status: 500 Internal Server Error");
    assert_eq!(ALERT_STREAM, "betteruptime:alerts");
    let fields = alert_fields("https://a.b", "timeout", "me@x.y");
    assert_eq!(
        fields,
        vec![
            ("website_url".to_string(), "https://a.b".to_string()),
            ("user_email".to_string(), "me@x.y".to_string()),
            ("reason".to_string(), "timeout".to_string()),
        ]
    );
}

#[test]
fn check_result_of_a_ping() {
    let ping = PingResult {
        job_id: "1-0".to_string(),
        website_id: "w1".to_string(),
        url: "https://a.b".to_string(),
        user_id: "u1".to_string(),
        is_up: false,
        latency_ms: 812,
        error_msg: Some("timeout".to_string()),
    };
    let r = check_result_for(&ping, &"UP".to_string());
    assert_eq!(r.website_id, "w1");
    assert!(!r.is_up);
    assert_eq!(r.response_time_ms, 812);
    assert_eq!(r.error_msg, Some("timeout".to_string()));
    assert_eq!(r.previous_status, "UP");
}

#[test]
fn job_written_is_job_read() {
    let written = betteruptime::schedule::website_job_fields("id7", "w7", "https://site.example/ü", "u7");
    let e = StreamEntry {
        id: "9-0".to_string(),
        fields: written.into_iter().map(|(k, v)| (k, FieldValue::Data(v.into_bytes()))).collect(),
    };
    let job = parse_ping_job(&e);
    assert_eq!(job.website_id, "w7");
    assert_eq!(job.url, "https://site.example/ü");
    assert_eq!(job.user_id, "u7");
    assert!(job.is_valid());
}

#[test]
fn incident_logged_exactly_when_status_changes() {
    for previous in ["UP", "DOWN"] {
        for is_up in [true, false] {
            for minute in [0u32, 7] {
                let result = CheckResult {
                    website_id: "w".to_string(),
                    is_up,
                    response_time_ms: 1,
                    error_msg: None,
                    previous_status: previous.to_string(),
                };
                let ops = plan_check_result(result, minute);
                let logged = matches!(ops.first(), Some(StoreOp::LogIncident { .. }));
                assert_eq!(logged, status_action(is_up, previous) != StatusAction::Keep);
            }
        }
    }
}
