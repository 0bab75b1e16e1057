//! The notifier: alerts read off the alert stream, the e-mail they become, and
//! the retry set that holds alerts whose e-mail could not be sent.
use vstd::prelude::*;
use vstd::utf8::{decode_utf8, encode_utf8, encode_utf8_decode_utf8, encode_utf8_valid_utf8, valid_utf8};
use crate::bytes::text_from_bytes;
use crate::jobs::alert_fields_spec;
use crate::stream::{FieldValue, StreamEntry, find_field, lookup, stored_fields};
use crate::text::{lemma_split_nonempty, split_bar, split_on_bar, views};

verus! {

/// Consumer group of the notifiers on the alert stream.
pub const ALERT_GROUP: &'static str = "alert-checker";

/// Sorted set of alerts waiting for another delivery attempt, scored by due time.
pub const RETRY_SET: &'static str = "betteruptime:retry_alerts";

/// Alerts the notifier reads at a time.
pub const ALERTS_PER_READ: usize = 10;

/// Milliseconds a read of the alert stream waits for new alerts.
pub const ALERT_READ_BLOCK_MS: usize = 2000;

/// Seconds before a failed alert is tried again.
pub const FIRST_RETRY_DELAY_SECS: i64 = 60;

/// Seconds before an alert that failed again is tried again.
pub const RETRY_BACKOFF_SECS: i64 = 300;

/// What an entry of the alert stream holds.
#[derive(Debug, PartialEq, Eq)]
pub enum AlertDecode {
    /// Not all of url, e-mail and reason are present as data: the entry is left alone.
    Skip,
    /// The three fields are there but one of them is not UTF-8 text.
    InvalidText,
    /// An alert to deliver.
    Alert { url: String, email: String, reason: String },
}

/// The bytes of a field that is present and holds data.
pub open spec fn data_field(fields: Seq<(Seq<char>, Option<Seq<u8>>)>, name: Seq<char>) -> Option<Seq<u8>> {
    match lookup(fields, name) {
        Some(Some(bytes)) => Some(bytes),
        _ => None,
    }
}

/// How an alert entry is read: url, e-mail and reason must all hold data, and
/// all three must be UTF-8 text.
pub open spec fn alert_decode_kind(fields: Seq<(Seq<char>, Option<Seq<u8>>)>) -> int {
    match (data_field(fields, "website_url"@), data_field(fields, "user_email"@), data_field(fields, "reason"@)) {
        (Some(u), Some(e), Some(r)) => if valid_utf8(u) && valid_utf8(e) && valid_utf8(r) { 2 } else { 1 },
        _ => 0,
    }
}

/// The url, e-mail and reason of an alert entry whose three fields hold UTF-8 text.
pub open spec fn alert_of(fields: Seq<(Seq<char>, Option<Seq<u8>>)>) -> Option<(Seq<char>, Seq<char>, Seq<char>)> {
    match (data_field(fields, "website_url"@), data_field(fields, "user_email"@), data_field(fields, "reason"@)) {
        (Some(u), Some(e), Some(r)) => if valid_utf8(u) && valid_utf8(e) && valid_utf8(r) {
            Some((decode_utf8(u), decode_utf8(e), decode_utf8(r)))
        } else {
            None
        },
        _ => None,
    }
}

fn data_of<'a>(entry: &'a StreamEntry, name: &str) -> (bytes: Option<&'a Vec<u8>>)
    ensures
        match bytes {
            Some(b) => data_field(entry.fields_view(), name@) == Some(b@),
            None => data_field(entry.fields_view(), name@) is None,
        },
{
    match find_field(entry, name) {
        Some(i) => {
            assert(entry.fields_view()[i as int] == crate::stream::field_view(entry.fields@[i as int]));
            match &entry.fields[i].1 {
                FieldValue::Data(bytes) => Some(bytes),
                FieldValue::Other => None,
            }
        },
        None => None,
    }
}

/// Reads an entry of the alert stream.
pub fn decode_alert(entry: &StreamEntry) -> (decoded: AlertDecode)
    ensures
        alert_decode_kind(entry.fields_view()) == 0 <==> decoded is Skip,
        alert_decode_kind(entry.fields_view()) == 1 <==> decoded is InvalidText,
        decoded matches AlertDecode::Alert { url, email, reason } ==>
            alert_of(entry.fields_view()) == Some((url@, email@, reason@)),
{
    let u = data_of(entry, "website_url");
    let e = data_of(entry, "user_email");
    let r = data_of(entry, "reason");
    match (u, e, r) {
        (Some(u), Some(e), Some(r)) => {
            match (text_from_bytes(u.as_slice()), text_from_bytes(e.as_slice()), text_from_bytes(r.as_slice())) {
                (Some(url), Some(email), Some(reason)) => AlertDecode::Alert { url, email, reason },
                _ => AlertDecode::InvalidText,
            }
        },
        _ => AlertDecode::Skip,
    }
}

/// The subject of an alert e-mail about a website.
pub open spec fn email_subject_spec(website_url: Seq<char>) -> Seq<char> {
    "DOWN ALERT: "@ + website_url
}

/// The body of an alert e-mail about a website that is down for a reason.
pub open spec fn email_body_spec(website_url: Seq<char>, reason: Seq<char>) -> Seq<char> {
    "Your Website "@ + website_url + " is down. \nReason: "@ + reason
}

/// The subject of an alert e-mail.
pub fn email_subject(website_url: &str) -> (subject: String)
    ensures
        subject@ == email_subject_spec(website_url@),
        subject@ == "DOWN ALERT: "@ + website_url@,
{
    String::from_str("DOWN ALERT: ").concat(website_url)
}

/// The body of an alert e-mail.
pub fn email_body(website_url: &str, reason: &str) -> (body: String)
    ensures
        body@ == email_body_spec(website_url@, reason@),
        body@ == "Your Website "@ + website_url@ + " is down. \nReason: "@ + reason@,
{
    String::from_str("Your Website ").concat(website_url).concat(" is down. \nReason: ").concat(reason)
}

/// The member of the retry set for an alert: e-mail, url and reason joined by `|`.
pub open spec fn retry_entry_spec(email: Seq<char>, url: Seq<char>, reason: Seq<char>) -> Seq<char> {
    email + seq!['|'] + url + seq!['|'] + reason
}

fn bar_str() -> (s: &'static str)
    ensures s@ == seq!['|'],
{
    proof { reveal_strlit("|"); }
    let s = "|";
    assert(s@ =~= seq!['|']);
    s
}

/// The member of the retry set for an alert.
pub fn retry_entry(email: &str, url: &str, reason: &str) -> (entry: String)
    ensures entry@ == retry_entry_spec(email@, url@, reason@),
{
    String::from_str(email).concat(bar_str()).concat(url).concat(bar_str()).concat(reason)
}

/// What a member of the retry set reads as: e-mail, url and reason when it splits
/// into exactly three pieces at `|`, nothing otherwise.
pub open spec fn parse_retry_spec(item: Seq<char>) -> Option<(Seq<char>, Seq<char>, Seq<char>)> {
    let pieces = split_on_bar(item);
    if pieces.len() == 3 { Some((pieces[0], pieces[1], pieces[2])) } else { None }
}

/// Reads a member of the retry set back into e-mail, url and reason.
pub fn parse_retry_entry(item: &str) -> (parsed: Option<(String, String, String)>)
    ensures
        match parsed {
            Some((email, url, reason)) => parse_retry_spec(item@) == Some((email@, url@, reason@)),
            None => parse_retry_spec(item@) is None,
        },
{
    let mut pieces = split_bar(item);
    if pieces.len() == 3 {
        let ghost all = views(pieces@);
        let reason = pieces.pop().unwrap();
        let url = pieces.pop().unwrap();
        let email = pieces.pop().unwrap();
        assert(all[0] == email@ && all[1] == url@ && all[2] == reason@);
        Some((email, url, reason))
    } else {
        None
    }
}

/// What follows a delivery attempt of an alert read off the stream.
#[derive(Debug, PartialEq, Eq)]
pub enum DeliveryFollowUp {
    /// Sent: acknowledge and delete the stream entry.
    AcknowledgeAndDelete,
    /// Not sent: put `entry` in the retry set, due at `retry_at`, and acknowledge.
    ScheduleRetry { entry: String, retry_at: i64 },
}

/// What follows a delivery attempt made at `now`: a failed alert is retried a minute later.
pub fn after_delivery(sent: bool, email: &str, url: &str, reason: &str, now: i64) -> (follow_up: DeliveryFollowUp)
    requires
        now + FIRST_RETRY_DELAY_SECS <= i64::MAX,
    ensures
        sent ==> follow_up is AcknowledgeAndDelete,
        !sent ==> (follow_up matches DeliveryFollowUp::ScheduleRetry { entry, retry_at }
            && entry@ == retry_entry_spec(email@, url@, reason@) && retry_at == now + 60),
{
    if sent {
        DeliveryFollowUp::AcknowledgeAndDelete
    } else {
        DeliveryFollowUp::ScheduleRetry {
            entry: retry_entry(email, url, reason),
            retry_at: now + FIRST_RETRY_DELAY_SECS,
        }
    }
}

/// What follows a retried delivery.
#[derive(Debug, PartialEq, Eq)]
pub enum RetryFollowUp {
    /// Sent: remove the member from the retry set.
    Remove,
    /// Not sent again: keep the member, due at `retry_at`.
    Reschedule { retry_at: i64 },
}

/// What follows a retried delivery made at `now`: five more minutes on failure.
pub fn after_retry(sent: bool, now: i64) -> (follow_up: RetryFollowUp)
    requires
        now + RETRY_BACKOFF_SECS <= i64::MAX,
    ensures
        sent ==> follow_up is Remove,
        !sent ==> follow_up == (RetryFollowUp::Reschedule { retry_at: (now + 300) as i64 }),
{
    if sent {
        RetryFollowUp::Remove
    } else {
        RetryFollowUp::Reschedule { retry_at: now + RETRY_BACKOFF_SECS }
    }
}

/// No character of the text is `|`.
pub open spec fn bar_free(text: Seq<char>) -> bool {
    forall|i: int| 0 <= i < text.len() ==> text[i] != '|'
}

proof fn lemma_split_append_plain(p: Seq<char>, s: Seq<char>)
    requires
        bar_free(s),
    ensures
        split_on_bar(p + s) == split_on_bar(p).update(split_on_bar(p).len() - 1, split_on_bar(p).last() + s),
    decreases s.len(),
{
    lemma_split_nonempty(p);
    let pieces = split_on_bar(p);
    if s.len() == 0 {
        assert(p + s =~= p);
        assert(pieces.last() + s =~= pieces.last());
        assert(pieces.update(pieces.len() - 1, pieces.last() + s) =~= pieces);
    } else {
        let s0 = s.drop_last();
        assert(bar_free(s0)) by {
            assert forall|i: int| 0 <= i < s0.len() implies s0[i] != '|' by {
                assert(s0[i] == s[i]);
            }
        }
        lemma_split_append_plain(p, s0);
        assert((p + s).drop_last() =~= p + s0);
        assert((p + s).last() == s.last());
        assert(s.last() == s[s.len() - 1]);
        assert((pieces.last() + s0).push(s.last()) =~= pieces.last() + s);
        assert(split_on_bar(p + s) =~= pieces.update(pieces.len() - 1, pieces.last() + s));
    }
}

proof fn lemma_split_append_bar(p: Seq<char>)
    ensures
        split_on_bar(p.push('|')) == split_on_bar(p).push(Seq::<char>::empty()),
{
    assert(p.push('|').drop_last() =~= p);
}

/// A member of the retry set reads back as the e-mail, url and reason it was made
/// of, provided none of them holds a `|`.
pub proof fn law_retry_entry_round_trip(email: Seq<char>, url: Seq<char>, reason: Seq<char>)
    requires
        bar_free(email),
        bar_free(url),
        bar_free(reason),
    ensures
        parse_retry_spec(retry_entry_spec(email, url, reason)) == Some((email, url, reason)),
{
    let empty = Seq::<char>::empty();
    lemma_split_append_plain(empty, email);
    assert(empty + email =~= email);
    assert(split_on_bar(email) =~= seq![email]);
    let a = email + seq!['|'];
    assert(email.push('|') =~= a);
    lemma_split_append_bar(email);
    assert(split_on_bar(a) =~= seq![email, empty]);
    lemma_split_append_plain(a, url);
    assert(empty + url =~= url);
    assert(split_on_bar(a + url) =~= seq![email, url]);
    let b = a + url + seq!['|'];
    assert((a + url).push('|') =~= b);
    lemma_split_append_bar(a + url);
    assert(split_on_bar(b) =~= seq![email, url, empty]);
    lemma_split_append_plain(b, reason);
    assert(split_on_bar(b + reason) =~= seq![email, url, reason]);
    assert(b + reason =~= retry_entry_spec(email, url, reason));
}

/// An alert written to the alert stream reads back, on the notifier's side, as
/// the same url, e-mail and reason.
pub proof fn law_alert_read_back(website_url: Seq<char>, reason: Seq<char>, user_email: Seq<char>)
    ensures
        alert_decode_kind(stored_fields(alert_fields_spec(website_url, reason, user_email))) == 2,
        alert_of(stored_fields(alert_fields_spec(website_url, reason, user_email)))
            == Some((website_url, user_email, reason)),
{
    reveal_strlit("website_url");
    reveal_strlit("user_email");
    reveal_strlit("reason");
    let f = stored_fields(alert_fields_spec(website_url, reason, user_email));
    assert(f.len() == 3);
    assert(f[0] == ("website_url"@, Some(encode_utf8(website_url))));
    assert(f[1] == ("user_email"@, Some(encode_utf8(user_email))));
    assert(f[2] == ("reason"@, Some(encode_utf8(reason))));
    assert("website_url"@.len() == 11);
    assert("user_email"@.len() == 10);
    assert("reason"@.len() == 6);
    assert("website_url"@ != "user_email"@);
    assert("website_url"@ != "reason"@);
    assert("user_email"@ != "reason"@);
    assert(f.drop_first()[0] == f[1]);
    assert(f.drop_first().drop_first()[0] == f[2]);
    reveal_with_fuel(lookup, 4);
    assert(lookup(f, "website_url"@) == Some(Some(encode_utf8(website_url))));
    assert(lookup(f, "user_email"@) == Some(Some(encode_utf8(user_email))));
    assert(lookup(f, "reason"@) == Some(Some(encode_utf8(reason))));
    encode_utf8_valid_utf8(website_url);
    encode_utf8_valid_utf8(user_email);
    encode_utf8_valid_utf8(reason);
    encode_utf8_decode_utf8(website_url);
    encode_utf8_decode_utf8(user_email);
    encode_utf8_decode_utf8(reason);
}

/// The subject of an alert e-mail is `DOWN ALERT: ` followed by the whole url: its
/// length is the prefix's plus the url's, and what follows the prefix is the url.
pub proof fn law_subject_names_whole_url(website_url: Seq<char>)
    ensures
        email_subject_spec(website_url) == "DOWN ALERT: "@ + website_url,
        email_subject_spec(website_url).len() == "DOWN ALERT: "@.len() + website_url.len(),
        email_subject_spec(website_url).subrange(0, "DOWN ALERT: "@.len() as int) == "DOWN ALERT: "@,
        email_subject_spec(website_url).subrange("DOWN ALERT: "@.len() as int, email_subject_spec(website_url).len() as int)
            == website_url,
{
    let p = "DOWN ALERT: "@;
    let s = email_subject_spec(website_url);
    assert(s.subrange(0, p.len() as int) =~= p);
    assert(s.subrange(p.len() as int, s.len() as int) =~= website_url);
}

/// The body of an alert e-mail is `Your Website `, the whole url, ` is down. \nReason: `
/// and the whole reason: the url follows the opening words, and the body ends with the
/// reason unchanged.
pub proof fn law_body_names_whole_reason(website_url: Seq<char>, reason: Seq<char>)
    ensures
        email_body_spec(website_url, reason) == "Your Website "@ + website_url + " is down. \nReason: "@ + reason,
        email_body_spec(website_url, reason).len()
            == "Your Website "@.len() + website_url.len() + " is down. \nReason: "@.len() + reason.len(),
        email_body_spec(website_url, reason).subrange(
            "Your Website "@.len() as int,
            ("Your Website "@.len() + website_url.len()) as int,
        ) == website_url,
        email_body_spec(website_url, reason).subrange(
            email_body_spec(website_url, reason).len() - reason.len(),
            email_body_spec(website_url, reason).len() as int,
        ) == reason,
{
    let a = "Your Website "@;
    let b = " is down. \nReason: "@;
    let s = email_body_spec(website_url, reason);
    assert(s =~= a + website_url + b + reason);
    assert(s.subrange(a.len() as int, (a.len() + website_url.len()) as int) =~= website_url);
    assert(s.subrange(s.len() - reason.len(), s.len() as int) =~= reason);
}

} // verus!
