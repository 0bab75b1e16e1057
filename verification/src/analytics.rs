//! What the store is told after each website check: incidents and status changes
//! at once, routine bookkeeping only on five-minute marks.
use vstd::prelude::*;
use crate::clock::{in_calendar_range, minute_of, utc_minute_of};
use crate::status::{Status, status_of, status_text};

verus! {

/// Seconds of up- or downtime credited when a website changes status.
pub const STATUS_CHANGE_CREDIT_SECS: i64 = 60;

/// Seconds of up- or downtime credited on a routine five-minute sync.
pub const ROUTINE_SYNC_CREDIT_SECS: i64 = 300;

/// Routine syncs happen on minutes that are multiples of this.
pub const SYNC_EVERY_MINUTES: u32 = 5;

/// The outcome of one check of one website, with the status stored before it.
#[derive(Debug, PartialEq, Eq)]
pub struct CheckResult {
    pub website_id: String,
    pub is_up: bool,
    pub response_time_ms: u64,
    pub error_msg: Option<String>,
    pub previous_status: String,
}

/// One write to the store, in the order the plan lists them.
#[derive(Debug, PartialEq, Eq)]
pub enum StoreOp {
    /// Open or close the website's incident for the new status.
    LogIncident { website_id: String, status: Status, error_msg: Option<String> },
    /// Record a status change: status and last-checked time of the website,
    /// and the accumulated totals of the status it leaves.
    RecordStatusChange { website_id: String, status: Status },
    /// Credit seconds to today's uptime (`is_up`) or downtime.
    AddReliability { website_id: String, is_up: bool, seconds: i64 },
    /// Refresh the website's status and last-checked time.
    RefreshLastChecked { website_id: String, status: Status },
}

/// Whether a minute of the hour is a routine sync mark.
pub open spec fn is_sync_minute_spec(minute: int) -> bool {
    minute % 5 == 0
}

/// The writes that follow a check result, given the minute of the hour.
pub open spec fn check_result_plan(result: CheckResult, minute: int) -> Seq<StoreOp> {
    let current = status_of(result.is_up);
    if result.previous_status@ != status_text(current) {
        seq![
            StoreOp::LogIncident {
                website_id: result.website_id,
                status: current,
                error_msg: result.error_msg,
            },
            StoreOp::RecordStatusChange { website_id: result.website_id, status: current },
            StoreOp::AddReliability {
                website_id: result.website_id,
                is_up: result.is_up,
                seconds: 60,
            },
        ]
    } else if is_sync_minute_spec(minute) {
        seq![
            StoreOp::RefreshLastChecked { website_id: result.website_id, status: current },
            StoreOp::AddReliability {
                website_id: result.website_id,
                is_up: result.is_up,
                seconds: 300,
            },
        ]
    } else {
        seq![]
    }
}

/// Whether a write reports the status a check observed: `Up` for a check that was
/// answered, `Down` for one that was not, and reliability credited to that side.
pub open spec fn reports_observed_status(op: StoreOp, is_up: bool) -> bool {
    match op {
        StoreOp::LogIncident { status, .. } => (is_up ==> status == Status::Up) && (!is_up ==> status == Status::Down),
        StoreOp::RecordStatusChange { status, .. } => (is_up ==> status == Status::Up) && (!is_up ==> status == Status::Down),
        StoreOp::RefreshLastChecked { status, .. } => (is_up ==> status == Status::Up) && (!is_up ==> status == Status::Down),
        StoreOp::AddReliability { is_up: credited_up, .. } => credited_up == is_up,
    }
}

/// Whether a minute of the hour is a routine sync mark.
pub fn is_sync_minute(minute: u32) -> (sync: bool)
    ensures sync == is_sync_minute_spec(minute as int),
{
    minute % SYNC_EVERY_MINUTES == 0
}

/// The writes that follow a check result, given the minute of the hour at which
/// it is processed: a status change is logged at once with a one-minute credit;
/// an unchanged status is written only on five-minute marks, with a five-minute credit.
pub fn plan_check_result(result: CheckResult, minute: u32) -> (ops: Vec<StoreOp>)
    ensures
        ops@ == check_result_plan(result, minute as int),
        forall|i: int| 0 <= i < ops@.len() ==> reports_observed_status(#[trigger] ops@[i], result.is_up),
{
    proof { law_writes_report_observed_status(result, minute as int); }
    let ghost given = result;
    let current = Status::from_check(result.is_up);
    let mut ops: Vec<StoreOp> = Vec::new();
    if !current.is_stored_as(result.previous_status.as_str()) {
        ops.push(StoreOp::LogIncident {
            website_id: result.website_id.clone(),
            status: current,
            error_msg: result.error_msg,
        });
        ops.push(StoreOp::RecordStatusChange { website_id: result.website_id.clone(), status: current });
        ops.push(StoreOp::AddReliability {
            website_id: result.website_id,
            is_up: result.is_up,
            seconds: STATUS_CHANGE_CREDIT_SECS,
        });
        assert(ops@ =~= check_result_plan(given, minute as int));
    } else if is_sync_minute(minute) {
        ops.push(StoreOp::RefreshLastChecked { website_id: result.website_id.clone(), status: current });
        ops.push(StoreOp::AddReliability {
            website_id: result.website_id,
            is_up: result.is_up,
            seconds: ROUTINE_SYNC_CREDIT_SECS,
        });
        assert(ops@ =~= check_result_plan(given, minute as int));
    } else {
        assert(ops@ =~= check_result_plan(given, minute as int));
    }
    ops
}

/// The writes that follow a check result processed at UTC timestamp `now`:
/// the plan of `plan_check_result` for the minute of the hour of `now`.
pub fn process_check_result(result: CheckResult, now: i64) -> (ops: Vec<StoreOp>)
    requires
        in_calendar_range(now as int),
    ensures
        ops@ == check_result_plan(result, minute_of(now as int)),
        forall|i: int| 0 <= i < ops@.len() ==> reports_observed_status(#[trigger] ops@[i], result.is_up),
{
    let minute = utc_minute_of(now);
    plan_check_result(result, minute)
}

/// The (uptime, downtime) increments for crediting `seconds` to a check that did
/// or did not answer.
pub fn reliability_increments(is_up: bool, seconds: i64) -> (increments: (i64, i64))
    ensures
        increments == (if is_up { (seconds, 0i64) } else { (0i64, seconds) }),
{
    if is_up { (seconds, 0) } else { (0, seconds) }
}

/// The first thing to do when logging an incident for a new status.
#[derive(Clone, Copy, Debug, PartialEq, Eq, Structural)]
pub enum IncidentStep {
    /// The website went down: look for an incident that is still open.
    FindOpenIncident,
    /// Any other status: close every open incident of the website.
    CloseOpenIncidents,
}

/// Whether the new status is the `DOWN` text.
pub open spec fn is_down_text(new_status: Seq<char>) -> bool {
    new_status == status_text(Status::Down)
}

/// How logging an incident for a new status begins.
pub open spec fn incident_step_spec(new_status: Seq<char>) -> IncidentStep {
    if is_down_text(new_status) { IncidentStep::FindOpenIncident } else { IncidentStep::CloseOpenIncidents }
}

/// How logging an incident for `new_status` begins.
pub fn incident_step(new_status: &str) -> (step: IncidentStep)
    ensures
        step == incident_step_spec(new_status@),
{
    if Status::Down.is_stored_as(new_status) {
        IncidentStep::FindOpenIncident
    } else {
        IncidentStep::CloseOpenIncidents
    }
}

/// Whether a website that went down needs a new incident: only when none is open.
pub open spec fn opens_incident_spec(open_incident_found: bool) -> bool {
    !open_incident_found
}

/// Whether a website that went down needs a new incident: only when none is open.
pub fn opens_incident(open_incident_found: bool) -> (open_new: bool)
    ensures open_new == opens_incident_spec(open_incident_found),
{
    !open_incident_found
}

/// Every write of a plan is about the checked website, and reliability is credited
/// to the status the check observed: 60 seconds on a change, 300 on a routine sync.
pub proof fn law_credit_follows_observed_status(result: CheckResult, minute: int)
    ensures
        forall|i: int| 0 <= i < check_result_plan(result, minute).len() ==>
            match #[trigger] check_result_plan(result, minute)[i] {
                StoreOp::AddReliability { website_id, is_up, seconds } =>
                    website_id == result.website_id && is_up == result.is_up
                    && (seconds == 60 || seconds == 300)
                    && (seconds == 60 <==> result.previous_status@ != status_text(status_of(result.is_up))),
                StoreOp::LogIncident { website_id, .. } => website_id == result.website_id,
                StoreOp::RecordStatusChange { website_id, .. } => website_id == result.website_id,
                StoreOp::RefreshLastChecked { website_id, .. } => website_id == result.website_id,
            },
{
}

/// Every write that follows a check reports the status the check observed: the
/// incident, the status change and the routine refresh carry `Up` after an answered
/// check and `Down` after an unanswered one, and reliability goes to that side.
pub proof fn law_writes_report_observed_status(result: CheckResult, minute: int)
    ensures
        forall|i: int| 0 <= i < check_result_plan(result, minute).len() ==>
            reports_observed_status(#[trigger] check_result_plan(result, minute)[i], result.is_up),
        result.is_up ==> forall|i: int| 0 <= i < check_result_plan(result, minute).len() ==>
            !(#[trigger] check_result_plan(result, minute)[i] matches StoreOp::RecordStatusChange { status: Status::Down, .. }),
{
}

/// A status change is written at once, whatever the minute; an unchanged status
/// is written only on five-minute marks.
pub proof fn law_changes_are_not_deferred(result: CheckResult, minute: int, other_minute: int)
    ensures
        result.previous_status@ != status_text(status_of(result.is_up)) ==>
            check_result_plan(result, minute) == check_result_plan(result, other_minute),
        result.previous_status@ == status_text(status_of(result.is_up)) ==>
            (check_result_plan(result, minute).len() == 0 <==> minute % 5 != 0),
{
}

/// The open incidents of a website (each with the error it was opened with) after
/// an incident is logged for `new_status`, following the steps above: for `DOWN`
/// the lookup finds an incident when any is open, and a new one is inserted only
/// when none is; for any other status every open incident is closed.
pub open spec fn open_incidents_after(
    open: Seq<Option<Seq<char>>>,
    new_status: Seq<char>,
    error_msg: Option<Seq<char>>,
) -> Seq<Option<Seq<char>>> {
    match incident_step_spec(new_status) {
        IncidentStep::FindOpenIncident => if opens_incident_spec(open.len() > 0) { open.push(error_msg) } else { open },
        IncidentStep::CloseOpenIncidents => Seq::<Option<Seq<char>>>::empty(),
    }
}

/// Logging `DOWN` a second time writes nothing: the incident opened (or found) by
/// the first call stays as it is, and the second error is not stored.
pub proof fn law_second_down_writes_nothing(
    open: Seq<Option<Seq<char>>>,
    first_error: Option<Seq<char>>,
    second_error: Option<Seq<char>>,
)
    ensures
        open_incidents_after(open_incidents_after(open, status_text(Status::Down), first_error), status_text(Status::Down), second_error)
            == open_incidents_after(open, status_text(Status::Down), first_error),
{
}

/// A website never has more than one open incident: from at most one, logging
/// `DOWN` leaves exactly one open and logging any other status leaves none.
pub proof fn law_at_most_one_open_incident(
    open: Seq<Option<Seq<char>>>,
    new_status: Seq<char>,
    error_msg: Option<Seq<char>>,
)
    requires
        open.len() <= 1,
    ensures
        open_incidents_after(open, new_status, error_msg).len() == (if is_down_text(new_status) { 1int } else { 0int }),
{
}

} // verus!
