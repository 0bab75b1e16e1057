//! The check schedule: a sorted set of website ids by due time, one hash of
//! details per website, and the stream of check jobs fed from it.
use vstd::prelude::*;
use crate::text::{int_text, int_to_text, law_decimal_round_trip, parse_u64, parse_u64_spec};

verus! {

/// Sorted set of website ids, scored by the timestamp of their next check.
pub const SCHEDULE_KEY: &'static str = "betteruptime:schedule";

/// Stream of check jobs read by the workers.
pub const WEBSITE_STREAM: &'static str = "betteruptime:website";

/// Consumer group of the workers on the job stream.
pub const CHECKER_GROUP: &'static str = "uptime-checkers";

/// Jobs a worker reads from the stream at a time.
pub const JOBS_PER_READ: usize = 10;

/// Seconds between checks of a website whose interval is not stored.
pub const DEFAULT_INTERVAL_SECS: u64 = 60;

/// A field name and value pair as written to a Redis hash or stream entry.
pub open spec fn pair_view(p: (String, String)) -> (Seq<char>, Seq<char>) {
    (p.0@, p.1@)
}

/// The character views of written pairs.
pub open spec fn pairs_view(pairs: Seq<(String, String)>) -> Seq<(Seq<char>, Seq<char>)> {
    pairs.map_values(|p: (String, String)| pair_view(p))
}

/// The key of the hash that holds a website's schedule details.
pub fn site_key(id: &str) -> (key: String)
    ensures key@ == "betteruptime:site:"@ + id@,
{
    String::from_str("betteruptime:site:").concat(id)
}

fn pair(name: &str, value: &str) -> (p: (String, String))
    ensures pair_view(p) == (name@, value@),
{
    (String::from_str(name), String::from_str(value))
}

/// The schedule details of a website, as stored in its hash: id, url, the check
/// interval in decimal, and the owner.
pub fn site_fields(id: &str, website_url: &str, interval_sec: i32, user_id: &str) -> (fields: Vec<(String, String)>)
    ensures
        pairs_view(fields@) == seq![
            ("id"@, id@),
            ("url"@, website_url@),
            ("interval"@, int_text(interval_sec as int)),
            ("user_id"@, user_id@),
        ],
{
    let interval = int_to_text(interval_sec);
    let mut fields: Vec<(String, String)> = Vec::new();
    fields.push(pair("id", id));
    fields.push(pair("url", website_url));
    fields.push(pair("interval", interval.as_str()));
    fields.push(pair("user_id", user_id));
    assert(pairs_view(fields@) =~= seq![
        ("id"@, id@),
        ("url"@, website_url@),
        ("interval"@, int_text(interval_sec as int)),
        ("user_id"@, user_id@),
    ]);
    fields
}

/// The fields of a check job on the job stream.
pub open spec fn job_fields_spec(id: Seq<char>, website_id: Seq<char>, website: Seq<char>, user_id: Seq<char>) -> Seq<(Seq<char>, Seq<char>)> {
    seq![("id"@, id), ("website_id"@, website_id), ("url"@, website), ("user_id"@, user_id)]
}

/// The fields of a check job on the job stream: id, website id, url and owner.
pub fn website_job_fields(id: &str, website_id: &str, website: &str, user_id: &str) -> (fields: Vec<(String, String)>)
    ensures
        pairs_view(fields@) == job_fields_spec(id@, website_id@, website@, user_id@),
{
    let mut fields: Vec<(String, String)> = Vec::new();
    fields.push(pair("id", id));
    fields.push(pair("website_id", website_id));
    fields.push(pair("url", website));
    fields.push(pair("user_id", user_id));
    assert(pairs_view(fields@) =~= job_fields_spec(id@, website_id@, website@, user_id@));
    fields
}

/// Why the stored schedule details of a website cannot be used.
#[derive(Clone, Copy, Debug, PartialEq, Eq, Structural)]
pub enum ScheduleError {
    /// The stored interval is not an unsigned 64-bit number.
    IntervalNotANumber,
}

/// The interval stored for a website, read as Redis reads a `u64`: absent stays
/// absent, a number in decimal (with an optional `+`) is read, anything else is an error.
pub open spec fn read_interval_spec(stored: Option<Seq<char>>) -> Result<Option<u64>, ScheduleError> {
    match stored {
        None => Ok(None),
        Some(t) => match parse_u64_spec(t) {
            Some(v) => Ok(Some(v)),
            None => Err(ScheduleError::IntervalNotANumber),
        },
    }
}

/// Reads the interval field of a website's schedule details.
pub fn read_interval(stored: Option<String>) -> (interval: Result<Option<u64>, ScheduleError>)
    ensures
        interval == read_interval_spec(match stored { Some(t) => Some(t@), None => None }),
{
    match stored {
        None => Ok(None),
        Some(t) => match parse_u64(t.as_str()) {
            Some(v) => Ok(Some(v)),
            None => Err(ScheduleError::IntervalNotANumber),
        },
    }
}

/// What to do with a website whose check is due.
#[derive(Debug, PartialEq, Eq)]
pub enum DueAction {
    /// Put a check job on the stream, take the website off the schedule and put it
    /// back `interval` seconds on (see `next_run`).
    Enqueue { id: String, website_id: String, url: String, user_id: String, interval: u64 },
    /// Its details are incomplete: take it off the schedule.
    Unschedule,
}

/// The interval used for a due website: the stored one, or the default.
pub open spec fn interval_or_default(interval: Option<u64>) -> u64 {
    match interval {
        Some(v) => v,
        None => 60,
    }
}

/// What follows from the details stored for a due website: without url or owner
/// it is unscheduled; otherwise a job is queued under the stored id (or the schedule
/// member when none is stored), and the website is due again one interval on.
pub open spec fn due_plan(
    website_id: String,
    url: Option<String>,
    interval: Option<u64>,
    id: Option<String>,
    user_id: Option<String>,
) -> DueAction {
    match (url, user_id) {
        (Some(u), Some(uid)) => DueAction::Enqueue {
            id: match id { Some(i) => i, None => website_id },
            website_id: website_id,
            url: u,
            user_id: uid,
            interval: interval_or_default(interval),
        },
        _ => DueAction::Unschedule,
    }
}

/// What follows from the details stored for a due website.
pub fn plan_due_website(
    website_id: String,
    url: Option<String>,
    interval: Option<u64>,
    id: Option<String>,
    user_id: Option<String>,
) -> (action: DueAction)
    ensures
        action == due_plan(website_id, url, interval, id, user_id),
{
    match (url, user_id) {
        (Some(u), Some(uid)) => {
            let actual_id = match id {
                Some(i) => i,
                None => website_id.clone(),
            };
            let interval_val: u64 = match interval {
                Some(v) => v,
                None => DEFAULT_INTERVAL_SECS,
            };
            DueAction::Enqueue { id: actual_id, website_id, url: u, user_id: uid, interval: interval_val }
        },
        _ => DueAction::Unschedule,
    }
}

/// The next due time of a queued website: `now` plus its interval taken as an `i64`.
pub open spec fn next_run_at(now: i64, interval: u64) -> int {
    now + (interval as i64)
}

/// Whether the next due time of a queued website can be computed without overflow.
pub fn next_run_fits(now: i64, interval: u64) -> (fits: bool)
    ensures
        fits == (i64::MIN <= next_run_at(now, interval) <= i64::MAX),
{
    now.checked_add(interval as i64).is_some()
}

/// The next due time of a queued website.
pub fn next_run(now: i64, interval: u64) -> (next: i64)
    requires
        i64::MIN <= next_run_at(now, interval) <= i64::MAX,
    ensures
        next == next_run_at(now, interval),
{
    now + interval as i64
}

/// Milliseconds the publisher waits between passes over the due websites.
pub const PUBLISH_PAUSE_MS: u64 = 500;

/// What the publisher does after a pass over the due websites.
#[derive(Clone, Copy, Debug, PartialEq, Eq, Structural)]
pub enum PublisherStep {
    /// The pass succeeded: wait `PUBLISH_PAUSE_MS` and make the next pass.
    PauseThenNextPass,
    /// The pass failed: stop publishing (the connection is taken as lost).
    Stop,
}

/// What the publisher does after a pass that did or did not succeed.
pub fn after_publish_pass(succeeded: bool) -> (step: PublisherStep)
    ensures
        step == (if succeeded { PublisherStep::PauseThenNextPass } else { PublisherStep::Stop }),
{
    if succeeded { PublisherStep::PauseThenNextPass } else { PublisherStep::Stop }
}

/// A queued website is next due one interval after now: its stored interval, or
/// sixty seconds when none is stored.
pub proof fn law_next_run_one_interval_on(now: i64, interval: Option<u64>)
    requires
        interval matches Some(v) ==> v <= i64::MAX,
    ensures
        next_run_at(now, interval_or_default(interval)) == now + match interval {
            Some(v) => v as int,
            None => 60,
        },
{
}

/// The interval written to a website's schedule details reads back as the same
/// number of seconds, for any interval that is not negative.
pub proof fn law_interval_read_back(interval_sec: i32)
    requires
        interval_sec >= 0,
    ensures
        read_interval_spec(Some(int_text(interval_sec as int))) == Ok::<Option<u64>, ScheduleError>(Some(interval_sec as u64)),
{
    law_decimal_round_trip(interval_sec as int);
}

} // verus!
