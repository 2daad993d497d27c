//! Usage metrics: flattening the exported event tree and the date range
//! filter of the daily usage query.
use vstd::prelude::*;
use crate::text::{int_decimal, push_int_decimal};
use vstd::string::StringExecFns;

#[allow(unused_imports)]
use chrono::TimeZone;

verus! {

/// The events under one timestamp: their handles when the node is an object,
/// `None` when it is any other JSON value.
pub open spec fn timestamp_events(t: Option<Vec<u64>>) -> Seq<u64> {
    match t {
        Some(v) => v@,
        None => Seq::empty(),
    }
}

/// The events of one device, timestamp by timestamp; none when the device
/// node is not an object.
pub open spec fn device_events(d: Option<Vec<Option<Vec<u64>>>>) -> Seq<u64> {
    match d {
        Some(v) => v@.map_values(|t: Option<Vec<u64>>| timestamp_events(t)).flatten(),
        None => Seq::empty(),
    }
}

/// The events of all devices, device by device; none when the `device` node is
/// missing or not an object.
pub open spec fn all_device_events(devices: Option<Vec<Option<Vec<Option<Vec<u64>>>>>>) -> Seq<u64> {
    match devices {
        Some(v) => v@.map_values(|d: Option<Vec<Option<Vec<u64>>>>| device_events(d)).flatten(),
        None => Seq::empty(),
    }
}

fn timestamp_events_into(out: &mut Vec<u64>, t: &Option<Vec<u64>>)
    ensures
        final(out)@ == old(out)@ + timestamp_events(*t),
{
    if let Some(events) = t {
        let mut k: usize = 0;
        while k < events.len()
            invariant
                k <= events.len(),
                out@ == old(out)@ + events@.subrange(0, k as int),
            decreases events.len() - k,
        {
            out.push(events[k]);
            k = k + 1;
            assert(out@ =~= old(out)@ + events@.subrange(0, k as int));
        }
        assert(events@.subrange(0, events.len() as int) =~= events@);
    } else {
        assert(out@ =~= old(out)@ + timestamp_events(*t));
    }
}

fn device_events_into(out: &mut Vec<u64>, d: &Option<Vec<Option<Vec<u64>>>>)
    ensures
        final(out)@ == old(out)@ + device_events(*d),
{
    if let Some(timestamps) = d {
        let ghost f = |t: Option<Vec<u64>>| timestamp_events(t);
        let mut j: usize = 0;
        while j < timestamps.len()
            invariant
                j <= timestamps.len(),
                f == (|t: Option<Vec<u64>>| timestamp_events(t)),
                out@ == old(out)@ + timestamps@.subrange(0, j as int).map_values(f).flatten(),
            decreases timestamps.len() - j,
        {
            timestamp_events_into(out, &timestamps[j]);
            proof {
                let pre = timestamps@.subrange(0, j as int).map_values(f);
                assert(timestamps@.subrange(0, j + 1).map_values(f) =~= pre.push(f(timestamps@[j as int])));
                pre.lemma_flatten_push(f(timestamps@[j as int]));
            }
            j = j + 1;
        }
        assert(timestamps@.subrange(0, timestamps.len() as int) =~= timestamps@);
    } else {
        assert(out@ =~= old(out)@ + device_events(*d));
    }
}

/// Lists every event of every device, device by device and timestamp by
/// timestamp, in the order of the export.
pub fn flatten_device_events(devices: &Option<Vec<Option<Vec<Option<Vec<u64>>>>>>) -> (r: Vec<u64>)
    ensures
        r@ == all_device_events(*devices),
{
    let mut out: Vec<u64> = Vec::new();
    if let Some(ds) = devices {
        let ghost f = |d: Option<Vec<Option<Vec<u64>>>>| device_events(d);
        let mut i: usize = 0;
        while i < ds.len()
            invariant
                i <= ds.len(),
                f == (|d: Option<Vec<Option<Vec<u64>>>>| device_events(d)),
                out@ == ds@.subrange(0, i as int).map_values(f).flatten(),
            decreases ds.len() - i,
        {
            device_events_into(&mut out, &ds[i]);
            proof {
                let pre = ds@.subrange(0, i as int).map_values(f);
                assert(ds@.subrange(0, i + 1).map_values(f) =~= pre.push(f(ds@[i as int])));
                pre.lemma_flatten_push(f(ds@[i as int]));
            }
            i = i + 1;
        }
        assert(ds@.subrange(0, ds.len() as int) =~= ds@);
    } else {
        assert(out@ =~= all_device_events(*devices));
    }
    out
}

/// Milliseconds since the epoch of a `%Y-%m-%d %H:%M:%S` date and time read
/// as UTC, as chrono parses it; `None` when chrono rejects the text.
pub uninterp spec fn utc_datetime_millis(text: Seq<char>) -> Option<i64>;

/// Parses a `%Y-%m-%d %H:%M:%S` date and time with chrono
/// (`NaiveDateTime::parse_from_str`, read as UTC by `Utc.from_utc_datetime`,
/// then `timestamp_millis`). The result is named, not described: it depends on
/// the text alone.
#[verifier::external_body]
fn parse_utc_datetime(text: &str) -> (r: Option<i64>)
    ensures
        r == utc_datetime_millis(text@),
{
    match chrono::NaiveDateTime::parse_from_str(text, "%Y-%m-%d %H:%M:%S") {
        Ok(naive) => Some(chrono::Utc.from_utc_datetime(&naive).timestamp_millis()),
        Err(_) => None,
    }
}

/// Milliseconds since the epoch of the start of a `YYYY-MM-DD` day (midnight
/// UTC); `None` when the date is rejected.
pub open spec fn day_start_millis(date: Seq<char>) -> Option<i64> {
    utc_datetime_millis(date + " 00:00:00"@)
}

/// The start of a `YYYY-MM-DD` day in milliseconds (see `day_start_millis`).
fn parse_date_arg(date: &str) -> (r: Option<i64>)
    ensures
        r == day_start_millis(date@),
{
    let mut text = date.to_owned();
    text.append(" 00:00:00");
    parse_utc_datetime(text.as_str())
}

/// Milliseconds in a day: the end date is included up to its last millisecond.
pub const DAY_MILLIS: i64 = 86400000;

/// The `WHERE` clause that keeps events from `start_ts` (inclusive) to the day
/// after `end_ts` (exclusive); empty when neither bound is given.
pub open spec fn filter_clause(start_ts: Option<i64>, end_ts: Option<i64>) -> Seq<char> {
    match (start_ts, end_ts) {
        (Some(s), Some(e)) => "WHERE event_time >= "@ + int_decimal(s as int) + " AND event_time < "@
            + int_decimal(e + DAY_MILLIS),
        (Some(s), None) => "WHERE event_time >= "@ + int_decimal(s as int),
        (None, Some(e)) => "WHERE event_time < "@ + int_decimal(e + DAY_MILLIS),
        (None, None) => Seq::empty(),
    }
}

/// The date filter of the usage query for parsed bounds.
pub fn date_filter_clause(start_ts: Option<i64>, end_ts: Option<i64>) -> (s: String)
    requires
        end_ts matches Some(e) ==> e + DAY_MILLIS <= i64::MAX,
    ensures
        s@ == filter_clause(start_ts, end_ts),
{
    let mut s = String::new();
    match (start_ts, end_ts) {
        (Some(st), Some(e)) => {
            s.append("WHERE event_time >= ");
            push_int_decimal(&mut s, st);
            s.append(" AND event_time < ");
            push_int_decimal(&mut s, e + DAY_MILLIS);
        },
        (Some(st), None) => {
            s.append("WHERE event_time >= ");
            push_int_decimal(&mut s, st);
        },
        (None, Some(e)) => {
            s.append("WHERE event_time < ");
            push_int_decimal(&mut s, e + DAY_MILLIS);
        },
        (None, None) => {},
    }
    assert(s@ =~= filter_clause(start_ts, end_ts));
    s
}

/// Why the date range of the usage query was refused.
#[derive(Clone, Copy, Debug, PartialEq, Eq, Structural)]
pub enum DateFilterError {
    /// The start date is not a `YYYY-MM-DD` date.
    InvalidStartDate,
    /// The end date is not a `YYYY-MM-DD` date.
    InvalidEndDate,
    /// The day after the end date cannot be expressed in milliseconds.
    EndDateOutOfRange,
}

/// The date filter of the usage query for optional `YYYY-MM-DD` bounds. The
/// start date is checked before the end date.
pub fn date_filter(start_date: Option<&str>, end_date: Option<&str>) -> (r: Result<String, DateFilterError>)
    ensures
        (start_date matches Some(s) && day_start_millis(s@) is None) ==> r == Err::<String, DateFilterError>(
            DateFilterError::InvalidStartDate,
        ),
        !(start_date matches Some(s) && day_start_millis(s@) is None) ==> {
            &&& (end_date matches Some(e) && day_start_millis(e@) is None) ==> r == Err::<String, DateFilterError>(
                DateFilterError::InvalidEndDate,
            )
            &&& (end_date matches Some(e) && day_start_millis(e@) matches Some(ms) && ms + DAY_MILLIS > i64::MAX)
                ==> r == Err::<String, DateFilterError>(DateFilterError::EndDateOutOfRange)
            &&& (end_date matches Some(e) ==> (day_start_millis(e@) matches Some(ms) && ms + DAY_MILLIS <= i64::MAX))
                ==> (r matches Ok(s) && s@ == filter_clause(
                match start_date {
                    Some(d) => day_start_millis(d@),
                    None => None,
                },
                match end_date {
                    Some(d) => day_start_millis(d@),
                    None => None,
                },
            ))
        },
{
    let start_ts: Option<i64> = match start_date {
        Some(d) => match parse_date_arg(d) {
            Some(ms) => Some(ms),
            None => {
                return Err(DateFilterError::InvalidStartDate);
            },
        },
        None => None,
    };
    let end_ts: Option<i64> = match end_date {
        Some(d) => match parse_date_arg(d) {
            Some(ms) => {
                if ms > i64::MAX - DAY_MILLIS {
                    return Err(DateFilterError::EndDateOutOfRange);
                }
                Some(ms)
            },
            None => {
                return Err(DateFilterError::InvalidEndDate);
            },
        },
        None => None,
    };
    Ok(date_filter_clause(start_ts, end_ts))
}

} // verus!
