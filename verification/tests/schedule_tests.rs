use betteruptime::jobs::parse_ping_job;
use betteruptime::schedule::{after_publish_pass, PublisherStep, PUBLISH_PAUSE_MS};
use betteruptime::schedule::{
    next_run, next_run_fits, plan_due_website, read_interval, site_fields, site_key, website_job_fields, DueAction,
    CHECKER_GROUP, SCHEDULE_KEY, WEBSITE_STREAM,
};
use betteruptime::stream::{FieldValue, StreamEntry};

fn pairs(v: &[(&str, &str)]) -> Vec<(String, String)> {
    v.iter().map(|(a, b)| (a.to_string(), b.to_string())).collect()
}

#[test]
fn keys_of_the_schedule() {
    assert_eq!(site_key("w1"), "betteruptime:site:w1");
    assert_eq!(SCHEDULE_KEY, "betteruptime:schedule");
    assert_eq!(WEBSITE_STREAM, "betteruptime:website");
    assert_eq!(CHECKER_GROUP, "uptime-checkers");
}

#[test]
fn schedule_details_of_a_site() {
    assert_eq!(
        site_fields("w1", "https://example.com", 60, "u1"),
        pairs(&[("id", "w1"), ("url", "https://example.com"), ("interval", "60"), ("user_id", "u1")])
    );
    assert_eq!(site_fields("w2", "x", -15, "u2")[2], ("interval".to_string(), "-15".to_string()));
}

#[test]
fn fields_of_a_check_job() {
    assert_eq!(
        website_job_fields("id1", "w1", "https://a.b", "u1"),
        pairs(&[("id", "id1"), ("website_id", "w1"), ("url", "https://a.b"), ("user_id", "u1")])
    );
}

#[test]
fn due_site_with_details_is_queued() {
    let action = plan_due_website(
        "w1".to_string(),
        Some("https://a.b".to_string()),
        Some(30),
        Some("id9".to_string()),
        Some("u1".to_string()),
    );
    assert_eq!(
        action,
        DueAction::Enqueue {
            id: "id9".to_string(),
            website_id: "w1".to_string(),
            url: "https://a.b".to_string(),
            user_id: "u1".to_string(),
            interval: 30,
        }
    );
    assert_eq!(next_run(1_000, 30), 1_030);
}

#[test]
fn due_site_defaults() {
    let action = plan_due_website("w1".to_string(), Some("u".to_string()), None, None, Some("u1".to_string()));
    assert_eq!(
        action,
        DueAction::Enqueue {
            id: "w1".to_string(),
            website_id: "w1".to_string(),
            url: "u".to_string(),
            user_id: "u1".to_string(),
            interval: 60,
        }
    );
    assert_eq!(next_run(500, 60), 560);
}

#[test]
fn incomplete_site_is_unscheduled() {
    assert_eq!(plan_due_website("w1".to_string(), None, Some(5), None, Some("u1".to_string())), DueAction::Unschedule);
    assert_eq!(plan_due_website("w1".to_string(), Some("u".to_string()), Some(5), Some("i".to_string()), None), DueAction::Unschedule);
    // whatever the interval: no arithmetic is done for an unscheduled site
    assert_eq!(plan_due_website("w1".to_string(), None, Some(u64::MAX), None, None), DueAction::Unschedule);
}

#[test]
fn next_run_overflow() {
    assert!(next_run_fits(0, 60));
    assert!(!next_run_fits(i64::MAX - 10, 60));
    assert!(next_run_fits(i64::MAX - 60, 60));
    // an interval above i64::MAX is taken as a negative i64, as a cast does
    assert!(next_run_fits(100, u64::MAX));
    assert_eq!(next_run(100, u64::MAX), 99);
}

#[test]
fn scheduled_site_becomes_job() {
    let fields = site_fields("w1", "https://a.b", 45, "u1");
    let stored = |name: &str| fields.iter().find(|(k, _)| k == name).map(|(_, v)| v.clone());
    let interval = read_interval(stored("interval")).unwrap();
    let action = plan_due_website("w1".to_string(), stored("url"), interval, stored("id"), stored("user_id"));
    let (id, website_id, url, user_id, interval) = match action {
        DueAction::Enqueue { id, website_id, url, user_id, interval } => (id, website_id, url, user_id, interval),
        DueAction::Unschedule => panic!("site was unscheduled"),
    };
    assert_eq!(next_run(1_700_000_000, interval), 1_700_000_045);
    let job_fields = website_job_fields(&id, &website_id, &url, &user_id);
    let entry = StreamEntry {
        id: "1-0".to_string(),
        fields: job_fields.into_iter().map(|(k, v)| (k, FieldValue::Data(v.into_bytes()))).collect(),
    };
    let job = parse_ping_job(&entry);
    assert_eq!((job.website_id.as_str(), job.url.as_str(), job.user_id.as_str()), ("w1", "https://a.b", "u1"));
}

#[test]
fn publisher_steps() {
    assert_eq!(after_publish_pass(true), PublisherStep::PauseThenNextPass);
    assert_eq!(after_publish_pass(false), PublisherStep::Stop);
    assert_eq!(PUBLISH_PAUSE_MS, 500);
}
