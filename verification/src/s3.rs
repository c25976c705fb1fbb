//! Key derivation and the merge engine's decisions: where a job's document
//! lives in the object store, and what to do with the bytes found there.
//!
//! The store itself is an external collaborator; fetching and writing stay
//! outside the core, which only decides. The storage key is a pure function
//! of prefix, device name and the UTC calendar day at processing time.

use vstd::prelude::*;
use vstd::string::StringExecFns;
use crate::error::Error;
use crate::json::{merge_json, spec_merge, JsonValue};
use crate::text::push_char;

verus! {

/// The characters that may not appear in a key's device segment.
pub open spec fn spec_reserved(c: char) -> bool {
    c == '/' || c == '\\' || c == '?' || c == '#' || c == '%' || c == '"' || c == '<' || c == '>'
        || c == '|' || c == ':'
}

/// One step of sanitization: a reserved character becomes `_`, any other
/// character passes through unchanged.
pub open spec fn spec_sanitize_char(c: char) -> char {
    if spec_reserved(c) {
        '_'
    } else {
        c
    }
}

/// Sanitization of a whole device name, character by character.
pub open spec fn spec_sanitize(s: Seq<char>) -> Seq<char> {
    s.map_values(|c: char| spec_sanitize_char(c))
}

/// Replaces each reserved character of a device name with `_`, keeping
/// everything else, the length included.
pub fn sanitize_path_segment(s: &str) -> (out: String)
    ensures
        out@ == spec_sanitize(s@),
{
    let mut out = String::new();
    proof {
        assert(out@ =~= spec_sanitize(s@.take(0)));
    }
    for ch in it: s.chars()
        invariant
            it.seq() == s@,
            out@ == spec_sanitize(s@.take(it.index() as int)),
    {
        let ghost i = it.index() as int;
        match ch {
            '/' | '\\' | '?' | '#' | '%' | '"' | '<' | '>' | '|' | ':' => {
                push_char(&mut out, '_');
            },
            _ => {
                push_char(&mut out, ch);
            },
        }
        proof {
            assert(ch == s@[i]);
            assert(out@ =~= spec_sanitize(s@.take(i + 1)));
        }
    }
    proof {
        assert(s@.take(s@.len() as int) =~= s@);
    }
    out
}

/// Law: sanitization is idempotent; a sanitized name passes through a second
/// sanitization unchanged.
pub proof fn lemma_sanitize_idempotent(s: Seq<char>)
    ensures
        spec_sanitize(spec_sanitize(s)) == spec_sanitize(s),
{
    assert(spec_sanitize(spec_sanitize(s)) =~= spec_sanitize(s));
}

/// A UTC calendar day, as plain values. The clock that reads the current day
/// lives outside the core; the core only formats and combines.
#[derive(Debug, Clone, Copy, PartialEq, Eq, Structural)]
pub struct Date {
    pub year: u32,
    pub month: u32,
    pub day: u32,
}

impl Date {
    /// The day fits the `YYYY-MM-DD` key format and the calendar ranges.
    pub open spec fn wf(&self) -> bool {
        self.year <= 9999 && 1 <= self.month <= 12 && 1 <= self.day <= 31
    }
}

/// The decimal digit character for one digit value.
pub open spec fn spec_digit_char(d: int) -> char {
    if d == 0 {
        '0'
    } else if d == 1 {
        '1'
    } else if d == 2 {
        '2'
    } else if d == 3 {
        '3'
    } else if d == 4 {
        '4'
    } else if d == 5 {
        '5'
    } else if d == 6 {
        '6'
    } else if d == 7 {
        '7'
    } else if d == 8 {
        '8'
    } else {
        '9'
    }
}

/// A value below one hundred, as two zero-padded decimal digits.
pub open spec fn spec_two_digits(v: int) -> Seq<char> {
    seq![spec_digit_char(v / 10), spec_digit_char(v % 10)]
}

/// A value below ten thousand, as four zero-padded decimal digits.
pub open spec fn spec_four_digits(v: int) -> Seq<char> {
    seq![
        spec_digit_char(v / 1000),
        spec_digit_char((v / 100) % 10),
        spec_digit_char((v / 10) % 10),
        spec_digit_char(v % 10),
    ]
}

/// The file name a day's document is stored under: `YYYY-MM-DD.json`.
pub open spec fn spec_date_filename(d: Date) -> Seq<char> {
    spec_four_digits(d.year as int) + seq!['-'] + spec_two_digits(d.month as int) + seq!['-']
        + spec_two_digits(d.day as int) + ".json"@
}

fn digit_char(d: u32) -> (c: char)
    requires
        d <= 9,
    ensures
        c == spec_digit_char(d as int),
{
    match d {
        0 => '0',
        1 => '1',
        2 => '2',
        3 => '3',
        4 => '4',
        5 => '5',
        6 => '6',
        7 => '7',
        8 => '8',
        _ => '9',
    }
}

fn push_two_digits(out: &mut String, v: u32)
    requires
        v <= 99,
    ensures
        final(out)@ == old(out)@ + spec_two_digits(v as int),
{
    push_char(out, digit_char(v / 10));
    push_char(out, digit_char(v % 10));
    proof {
        assert(out@ =~= old(out)@ + spec_two_digits(v as int));
    }
}

fn push_four_digits(out: &mut String, v: u32)
    requires
        v <= 9999,
    ensures
        final(out)@ == old(out)@ + spec_four_digits(v as int),
{
    push_char(out, digit_char(v / 1000));
    push_char(out, digit_char((v / 100) % 10));
    push_char(out, digit_char((v / 10) % 10));
    push_char(out, digit_char(v % 10));
    proof {
        assert(out@ =~= old(out)@ + spec_four_digits(v as int));
    }
}

/// The storage key for a device and a day: the raw prefix (empty when
/// absent), the sanitized device segment, a separator, and the day's
/// file name.
pub open spec fn spec_key(prefix: Option<Seq<char>>, device: Seq<char>, date: Date) -> Seq<char> {
    (match prefix {
        Option::None => Seq::<char>::empty(),
        Option::Some(p) => p,
    }) + spec_sanitize(device) + seq!['/'] + spec_date_filename(date)
}

/// Derives the storage key for one device on one day. A pure function of its
/// arguments: the same prefix, device name and day always give the same key.
pub fn s3_key_for_device_date(prefix: &Option<String>, device_name: &str, date: Date) -> (key:
    String)
    requires
        date.wf(),
    ensures
        key@ == spec_key(
            match prefix {
                Option::None => None,
                Option::Some(p) => Some(p@),
            },
            device_name@,
            date,
        ),
{
    let mut key = String::new();
    match prefix {
        Option::Some(p) => key.append(p.as_str()),
        Option::None => {},
    }
    let dev = sanitize_path_segment(device_name);
    key.append(dev.as_str());
    push_char(&mut key, '/');
    push_four_digits(&mut key, date.year);
    push_char(&mut key, '-');
    push_two_digits(&mut key, date.month);
    push_char(&mut key, '-');
    push_two_digits(&mut key, date.day);
    key.append(".json");
    proof {
        assert(key@ =~= spec_key(
            match prefix {
                Option::None => None,
                Option::Some(p) => Some(p@),
            },
            device_name@,
            date,
        ));
    }
    key
}

/// The unit of work carried from admission to storage: one device's batch of
/// payload items.
#[derive(Debug)]
pub struct IngestJob {
    pub device_name: String,
    pub payload: JsonValue,
}

/// What a worker learned by fetching the stored object at a job's key.
#[derive(Debug)]
pub enum FetchOutcome {
    /// The object exists and parsed as JSON.
    Existing(JsonValue),
    /// No object is stored under the key; a normal branch, not an error.
    Absent,
    /// An object exists but its content is not valid JSON.
    Unreadable,
    /// The fetch itself failed for some other reason.
    Unavailable,
}

/// The merge engine's verdict for one job: write a merged document back, or
/// drop the job with a terminal error.
#[derive(Debug)]
pub enum JobStep {
    Store(JsonValue),
    Discard(Error),
}

/// Decides one job from its fetch outcome: an existing document absorbs the
/// payload by the merge rule, an absent one is created from the payload
/// unchanged, and an unreadable or unreachable one aborts the job — no
/// retry, no dead-letter queue.
pub fn plan_job_step(fetched: FetchOutcome, incoming: JsonValue) -> (step: JobStep)
    ensures
        match fetched {
            FetchOutcome::Existing(e) => step matches JobStep::Store(m) && m.model() == spec_merge(
                e.model(),
                incoming.model(),
            ),
            FetchOutcome::Absent => step == JobStep::Store(incoming),
            FetchOutcome::Unreadable => step == JobStep::Discard(Error::ParseError),
            FetchOutcome::Unavailable => step == JobStep::Discard(Error::FetchError),
        },
{
    match fetched {
        FetchOutcome::Existing(e) => JobStep::Store(merge_json(e, incoming)),
        FetchOutcome::Absent => JobStep::Store(incoming),
        FetchOutcome::Unreadable => JobStep::Discard(Error::ParseError),
        FetchOutcome::Unavailable => JobStep::Discard(Error::FetchError),
    }
}

/// Relies on chrono's `Utc::now` and `NaiveDate` accessors: the current UTC
/// calendar day, whose month lies in 1..=12 and day in 1..=31.
#[verifier::external_body]
fn utc_today_parts() -> (r: (i32, u32, u32))
    ensures
        1 <= r.1 <= 12,
        1 <= r.2 <= 31,
{
    let d = chrono::Utc::now().date_naive();
    (chrono::Datelike::year(&d), chrono::Datelike::month(&d), chrono::Datelike::day(&d))
}

/// Turns a clock reading into a well-formed [`Date`]: exactly the years the
/// `YYYY-MM-DD` key format covers are accepted, and an accepted reading is
/// carried over unchanged.
pub fn date_from_parts(y: i32, m: u32, d: u32) -> (r: Option<Date>)
    requires
        1 <= m <= 12,
        1 <= d <= 31,
    ensures
        (r is Some) <==> (0 <= y <= 9999),
        r matches Some(dt) ==> dt == (Date { year: y as u32, month: m, day: d }),
        r matches Some(dt) ==> dt.wf(),
{
    if 0 <= y && y <= 9999 {
        Some(Date { year: y as u32, month: m, day: d })
    } else {
        None
    }
}

/// The current UTC calendar day, when it falls inside the years the key
/// format covers; days outside that range are reported as absent rather
/// than formatted wrongly. What is returned for each clock reading is fixed
/// by [`date_from_parts`].
pub fn today_utc() -> (r: Option<Date>)
    ensures
        r matches Some(d) ==> d.wf(),
{
    let (y, m, d) = utc_today_parts();
    date_from_parts(y, m, d)
}

} // verus!
