//! Local wall-clock stamps for persisted records and log lines. Only the
//! clock reading itself is trusted; what is built around the stamp is exact
//! relative to the stamp returned.

use vstd::prelude::*;
use crate::dedup::record_block;
use crate::dedup::record_block_text;
use crate::ident::is_ascii_digit;
use crate::logbuf::format_log_entry;

verus! {

/// Relies on chrono::Local::now and DateTime::format: the local time,
/// rendered as `YYYY-MM-DD HH:MM:SS`. The stamp itself depends on the clock;
/// its shape does not: a year of at least four characters, then zero-padded
/// two-digit fields with fixed `-`, space and `:` separators.
#[verifier::external_body]
fn timestamp_full() -> (r: String)
    ensures
        r@.len() >= 19,
        ({
            let n = r@.len() as int;
            &&& r@[n - 15] == '-' && r@[n - 12] == '-'
            &&& r@[n - 9] == ' '
            &&& r@[n - 6] == ':' && r@[n - 3] == ':'
            &&& forall|i: int|
                n - 14 <= i < n && i != n - 12 && i != n - 9 && i != n - 6 && i != n - 3
                    ==> is_ascii_digit(#[trigger] r@[i])
        }),
{
    chrono::Local::now().format("%Y-%m-%d %H:%M:%S").to_string()
}

/// Relies on chrono::Local::now and DateTime::format: the local time of
/// day, rendered as `HH:MM:SS` — eight characters, zero-padded two-digit
/// fields around fixed colons.
#[verifier::external_body]
fn timestamp_hms() -> (r: String)
    ensures
        r@.len() == 8,
        r@[2] == ':' && r@[5] == ':',
        forall|i: int|
            0 <= i < 8 && i != 2 && i != 5 ==> is_ascii_digit(#[trigger] r@[i]),
{
    chrono::Local::now().format("%H:%M:%S").to_string()
}

/// One persisted record, stamped with the local time: the stamp used and the
/// block built from it.
pub fn stamped_record_block(
    doi: Option<&String>,
    title: &str,
    url: &str,
    score: i64,
    abstract_text: &str,
) -> (r: (String, String))
    requires
        score > i64::MIN,
    ensures
        r.1@ == record_block_text(
            match doi {
                Some(d) => Some(d@),
                None => None,
            },
            title@,
            url@,
            score as int,
            r.0@,
            abstract_text@,
        ),
{
    let ts = timestamp_full();
    let block = record_block(doi, title, url, score, ts.as_str(), abstract_text);
    (ts, block)
}

/// One log line, stamped with the local time of day: the stamp used and the
/// line built from it.
pub fn stamped_log_entry(message: &str) -> (r: (String, String))
    ensures
        r.1@ == "["@ + r.0@ + "] "@ + message@,
{
    let ts = timestamp_hms();
    let entry = format_log_entry(ts.as_str(), message);
    (ts, entry)
}

} // verus!
