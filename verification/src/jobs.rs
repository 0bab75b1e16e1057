//! The worker side of a check: reading a job off the stream, judging the HTTP
//! answer, and deciding what the stored status and the alert stream receive.
use vstd::prelude::*;
use vstd::utf8::{encode_utf8, encode_utf8_decode_utf8, encode_utf8_valid_utf8};
use crate::analytics::{CheckResult, check_result_plan};
use crate::bytes::{lossy_decode, text_from_bytes_lossy};
use crate::http::{http_reason_phrase, status_is_success, status_line, valid_status_code};
use crate::schedule::{
    DueAction, ScheduleError, due_plan, job_fields_spec, law_interval_read_back, next_run_at, pairs_view,
    read_interval_spec,
};
use crate::text::int_text;
use crate::status::{Status, status_of, status_text};
use crate::stream::{FieldValue, StreamEntry, find_field, lookup, stored_fields};
use crate::text::nat_digits;

verus! {

/// Stream of alerts read by the notifier.
pub const ALERT_STREAM: &'static str = "betteruptime:alerts";

/// A check job as read off the job stream.
#[derive(Debug, PartialEq, Eq)]
pub struct PingJob {
    pub job_id: String,
    pub website_id: String,
    pub url: String,
    pub user_id: String,
}

/// The bytes of a present field: its data, or nothing when it holds another kind of reply.
pub open spec fn bytes_or_empty(value: Option<Seq<u8>>) -> Seq<u8> {
    match value {
        Some(bytes) => bytes,
        None => Seq::<u8>::empty(),
    }
}

/// The lossily decoded text of the field named `name`, if the entry has one.
pub open spec fn field_text(fields: Seq<(Seq<char>, Option<Seq<u8>>)>, name: Seq<char>) -> Option<Seq<char>> {
    match lookup(fields, name) {
        Some(value) => Some(lossy_decode(bytes_or_empty(value))),
        None => None,
    }
}

/// A text, or the empty text.
pub open spec fn or_empty(text: Option<Seq<char>>) -> Seq<char> {
    match text {
        Some(t) => t,
        None => Seq::<char>::empty(),
    }
}

/// The website id of a job: its `website_id` field, else its `id` field, else empty.
pub open spec fn job_website_id(fields: Seq<(Seq<char>, Option<Seq<u8>>)>) -> Seq<char> {
    match field_text(fields, "website_id"@) {
        Some(t) => t,
        None => or_empty(field_text(fields, "id"@)),
    }
}

fn lossy_field(entry: &StreamEntry, name: &str) -> (text: Option<String>)
    ensures
        match text {
            Some(t) => field_text(entry.fields_view(), name@) == Some(t@),
            None => field_text(entry.fields_view(), name@) is None,
        },
{
    match find_field(entry, name) {
        Some(i) => {
            let text = match &entry.fields[i].1 {
                FieldValue::Data(bytes) => text_from_bytes_lossy(bytes.as_slice()),
                FieldValue::Other => {
                    let nothing: Vec<u8> = Vec::new();
                    text_from_bytes_lossy(nothing.as_slice())
                },
            };
            assert(entry.fields_view()[i as int] == crate::stream::field_view(entry.fields@[i as int]));
            Some(text)
        },
        None => None,
    }
}

/// Reads a check job from a stream entry. Missing fields read as empty text, and
/// the website id falls back to the `id` field.
pub fn parse_ping_job(entry: &StreamEntry) -> (job: PingJob)
    ensures
        job.job_id@ == entry.id@,
        job.website_id@ == job_website_id(entry.fields_view()),
        job.url@ == or_empty(field_text(entry.fields_view(), "url"@)),
        job.user_id@ == or_empty(field_text(entry.fields_view(), "user_id"@)),
{
    let website_id = match lossy_field(entry, "website_id") {
        Some(t) => t,
        None => match lossy_field(entry, "id") {
            Some(t) => t,
            None => String::new(),
        },
    };
    let url = match lossy_field(entry, "url") {
        Some(t) => t,
        None => String::new(),
    };
    let user_id = match lossy_field(entry, "user_id") {
        Some(t) => t,
        None => String::new(),
    };
    PingJob { job_id: entry.id.clone(), website_id, url, user_id }
}

impl PingJob {
    /// A job can be checked only when it names a website and a url; others are
    /// acknowledged and skipped.
    pub fn is_valid(&self) -> (valid: bool)
        ensures valid == (self.website_id@.len() > 0 && self.url@.len() > 0),
    {
        !self.website_id.as_str().is_empty() && !self.url.as_str().is_empty()
    }
}

/// What an HTTP check of a website came to.
#[derive(Debug, PartialEq, Eq)]
pub enum HttpOutcome {
    /// The site answered with this status code.
    Response { status_code: u16 },
    /// The request failed (timeout, connection error, ...) with this message.
    Failed { message: String },
}

/// The error text of an answer that is not a success: `Status: ` and the status line.
pub open spec fn status_error_text(code: u16) -> Seq<char> {
    "Status: "@ + nat_digits(code as nat) + seq![' '] + http_reason_phrase(code)
}

/// Judges a check: a site is up exactly when it answered with a 2xx status; an
/// answer outside 2xx is reported with its status line, a failure with its message.
pub fn website_check_outcome(outcome: HttpOutcome) -> (judged: (bool, Option<String>))
    requires
        outcome matches HttpOutcome::Response { status_code } ==> valid_status_code(status_code),
    ensures
        match outcome {
            HttpOutcome::Response { status_code } => {
                &&& judged.0 == (200 <= status_code < 300)
                &&& judged.0 ==> judged.1 is None
                &&& !judged.0 ==> (judged.1 matches Some(e) && e@ == status_error_text(status_code))
            },
            HttpOutcome::Failed { message } => judged.0 == false && judged.1 == Some(message),
        },
{
    match outcome {
        HttpOutcome::Response { status_code } => {
            let is_up = status_is_success(status_code);
            if is_up {
                (true, None)
            } else {
                let line = status_line(status_code);
                let error = String::from_str("Status: ").concat(line.as_str());
                assert(error@ =~= status_error_text(status_code));
                (false, Some(error))
            }
        },
        HttpOutcome::Failed { message } => (false, Some(message)),
    }
}

/// The result of checking one job.
pub struct PingResult {
    pub job_id: String,
    pub website_id: String,
    pub url: String,
    pub user_id: String,
    pub is_up: bool,
    pub latency_ms: u64,
    pub error_msg: Option<String>,
}

fn clone_text(text: &Option<String>) -> (copy: Option<String>)
    ensures copy == *text,
{
    match text {
        Some(t) => Some(t.clone()),
        None => None,
    }
}

/// The key under which a website's last known status is kept.
pub fn status_key(website_id: &str) -> (key: String)
    ensures key@ == "betteruptime::status:"@ + website_id@,
{
    String::from_str("betteruptime::status:").concat(website_id)
}

/// The stored status of a website, or `UP` when none is stored yet.
pub fn last_status_or_default(stored: Option<String>) -> (last: String)
    ensures
        last@ == match stored {
            Some(s) => s@,
            None => status_text(Status::Up),
        },
{
    match stored {
        Some(s) => s,
        None => String::from_str(Status::Up.as_str()),
    }
}

/// The check result handed to the analytics for a ping, given the last stored status.
pub fn check_result_for(ping: &PingResult, last_status: &String) -> (result: CheckResult)
    ensures
        result.website_id == ping.website_id,
        result.is_up == ping.is_up,
        result.response_time_ms == ping.latency_ms,
        result.error_msg == ping.error_msg,
        result.previous_status == *last_status,
{
    CheckResult {
        website_id: ping.website_id.clone(),
        is_up: ping.is_up,
        response_time_ms: ping.latency_ms,
        error_msg: clone_text(&ping.error_msg),
        previous_status: last_status.clone(),
    }
}

/// What a ping does to the stored status and the alert stream.
#[derive(Clone, Copy, Debug, PartialEq, Eq, Structural)]
pub enum StatusAction {
    /// Leave the stored status as it is.
    Keep,
    /// The site is back: store `UP`.
    MarkUp,
    /// The site went down: store `DOWN` and alert its owner.
    MarkDownAndAlert,
}

/// A recovery is stored when an answering site was stored `DOWN`; a crash is stored
/// and alerted when a silent site was stored `UP`; nothing happens otherwise.
pub open spec fn status_action_spec(is_up: bool, last_status: Seq<char>) -> StatusAction {
    if is_up {
        if last_status == status_text(Status::Down) { StatusAction::MarkUp } else { StatusAction::Keep }
    } else {
        if last_status == status_text(Status::Up) { StatusAction::MarkDownAndAlert } else { StatusAction::Keep }
    }
}

/// The stored status after an action.
pub open spec fn stored_after(last_status: Seq<char>, action: StatusAction) -> Seq<char> {
    match action {
        StatusAction::Keep => last_status,
        StatusAction::MarkUp => status_text(Status::Up),
        StatusAction::MarkDownAndAlert => status_text(Status::Down),
    }
}

/// What a ping does to the stored status and the alert stream.
pub fn status_action(is_up: bool, last_status: &str) -> (action: StatusAction)
    ensures action == status_action_spec(is_up, last_status@),
{
    if is_up {
        if Status::Down.is_stored_as(last_status) { StatusAction::MarkUp } else { StatusAction::Keep }
    } else {
        if Status::Up.is_stored_as(last_status) { StatusAction::MarkDownAndAlert } else { StatusAction::Keep }
    }
}

/// The reason given in an alert: the check's error, or `Unknown Error`.
pub fn alert_reason(error_msg: Option<String>) -> (reason: String)
    ensures
        reason@ == match error_msg {
            Some(e) => e@,
            None => "Unknown Error"@,
        },
{
    match error_msg {
        Some(e) => e,
        None => String::from_str("Unknown Error"),
    }
}

/// The fields of an alert on the alert stream.
pub open spec fn alert_fields_spec(website_url: Seq<char>, reason: Seq<char>, user_email: Seq<char>) -> Seq<(Seq<char>, Seq<char>)> {
    seq![("website_url"@, website_url), ("user_email"@, user_email), ("reason"@, reason)]
}

/// The fields of an alert on the alert stream: url, owner's email and reason.
pub fn alert_fields(website_url: &str, reason: &str, user_email: &str) -> (fields: Vec<(String, String)>)
    ensures pairs_view(fields@) == alert_fields_spec(website_url@, reason@, user_email@),
{
    let mut fields: Vec<(String, String)> = Vec::new();
    fields.push((String::from_str("website_url"), String::from_str(website_url)));
    fields.push((String::from_str("user_email"), String::from_str(user_email)));
    fields.push((String::from_str("reason"), String::from_str(reason)));
    assert(pairs_view(fields@) =~= alert_fields_spec(website_url@, reason@, user_email@));
    fields
}

/// A job written to the job stream reads back, on the worker's side, as the same
/// website id, url and owner, and its own `website_id` field wins over its `id` field.
pub proof fn law_job_read_back(id: Seq<char>, website_id: Seq<char>, website: Seq<char>, user_id: Seq<char>)
    ensures
        job_website_id(stored_fields(job_fields_spec(id, website_id, website, user_id))) == website_id,
        or_empty(field_text(stored_fields(job_fields_spec(id, website_id, website, user_id)), "url"@)) == website,
        or_empty(field_text(stored_fields(job_fields_spec(id, website_id, website, user_id)), "user_id"@)) == user_id,
{
    reveal_strlit("id");
    reveal_strlit("website_id");
    reveal_strlit("url");
    reveal_strlit("user_id");
    reveal_with_fuel(lookup, 5);
    let f = stored_fields(job_fields_spec(id, website_id, website, user_id));
    assert("id"@.len() == 2);
    assert("website_id"@.len() == 10);
    assert("url"@.len() == 3);
    assert("user_id"@.len() == 7);
    assert(f[0] == ("id"@, Some(encode_utf8(id))));
    assert(f[1] == ("website_id"@, Some(encode_utf8(website_id))));
    assert(f[2] == ("url"@, Some(encode_utf8(website))));
    assert(f[3] == ("user_id"@, Some(encode_utf8(user_id))));
    assert(f.drop_first()[0] == f[1]);
    assert(f.drop_first().drop_first()[0] == f[2]);
    assert(f.drop_first().drop_first().drop_first()[0] == f[3]);
    assert(lookup(f, "website_id"@) == Some(Some(encode_utf8(website_id))));
    assert(lookup(f, "url"@) == Some(Some(encode_utf8(website))));
    assert(lookup(f, "user_id"@) == Some(Some(encode_utf8(user_id))));
    encode_utf8_valid_utf8(website_id);
    encode_utf8_valid_utf8(website);
    encode_utf8_valid_utf8(user_id);
    encode_utf8_decode_utf8(website_id);
    encode_utf8_decode_utf8(website);
    encode_utf8_decode_utf8(user_id);
}

/// A stored status is one of the two status texts.
pub open spec fn is_status_text(text: Seq<char>) -> bool {
    text == status_text(Status::Up) || text == status_text(Status::Down)
}

/// After a ping the stored status is the status the ping observed, and an alert
/// is raised exactly when a website stored as up is found down.
pub proof fn law_stored_status_follows_ping(is_up: bool, last_status: Seq<char>)
    requires
        is_status_text(last_status),
    ensures
        stored_after(last_status, status_action_spec(is_up, last_status)) == status_text(status_of(is_up)),
        (status_action_spec(is_up, last_status) == StatusAction::MarkDownAndAlert)
            == (!is_up && last_status == status_text(Status::Up)),
{
    assert(status_text(Status::Up) != status_text(Status::Down)) by {
        assert(status_text(Status::Up).len() != status_text(Status::Down).len());
    }
}

/// An outage is alerted once: a second failed ping in a row raises no alert,
/// while a failed ping after a recovery alerts again.
pub proof fn law_one_alert_per_outage(last_status: Seq<char>)
    requires
        is_status_text(last_status),
    ensures
        status_action_spec(false, stored_after(last_status, status_action_spec(false, last_status)))
            != StatusAction::MarkDownAndAlert,
        status_action_spec(false, stored_after(last_status, status_action_spec(true, last_status)))
            == StatusAction::MarkDownAndAlert,
{
    law_stored_status_follows_ping(false, last_status);
    law_stored_status_follows_ping(true, last_status);
    assert(status_text(Status::Up) != status_text(Status::Down)) by {
        assert(status_text(Status::Up).len() != status_text(Status::Down).len());
    }
}

/// The store and the status cache agree: with a stored status text, the analytics
/// log a status change (an incident first) exactly when the worker changes the stored status.
pub proof fn law_incident_iff_status_changes(result: crate::analytics::CheckResult, minute: int)
    requires
        is_status_text(result.previous_status@),
    ensures
        (check_result_plan(result, minute).len() > 0 && check_result_plan(result, minute)[0] is LogIncident)
            == (status_action_spec(result.is_up, result.previous_status@) != StatusAction::Keep),
{
    assert(status_text(Status::Up) != status_text(Status::Down)) by {
        assert(status_text(Status::Up).len() != status_text(Status::Down).len());
    }
}

/// A website scheduled under `id` with url, interval and owner, and then found due
/// at `now`: the interval stored in decimal reads back as itself, exactly one job is
/// queued carrying the id, url and owner, the website is due again one interval
/// later, and the worker reads that job back as the same website, url and owner.
pub proof fn law_scheduled_site_becomes_job(id: String, url: String, interval_sec: i32, user_id: String, now: i64)
    requires
        interval_sec > 0,
        now + interval_sec <= i64::MAX,
    ensures
        read_interval_spec(Some(int_text(interval_sec as int)))
            == Ok::<Option<u64>, ScheduleError>(Some(interval_sec as u64)),
        due_plan(id, Some(url), Some(interval_sec as u64), Some(id), Some(user_id)) == (DueAction::Enqueue {
            id: id,
            website_id: id,
            url: url,
            user_id: user_id,
            interval: interval_sec as u64,
        }),
        next_run_at(now, interval_sec as u64) == now + interval_sec,
        job_website_id(stored_fields(job_fields_spec(id@, id@, url@, user_id@))) == id@,
        or_empty(field_text(stored_fields(job_fields_spec(id@, id@, url@, user_id@)), "url"@)) == url@,
        or_empty(field_text(stored_fields(job_fields_spec(id@, id@, url@, user_id@)), "user_id"@)) == user_id@,
{
    law_interval_read_back(interval_sec);
    law_job_read_back(id@, id@, url@, user_id@);
}

} // verus!
