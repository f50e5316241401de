//! Helpers that present file data to people.
use vstd::prelude::*;
use chrono::TimeZone;

verus! {

/// A byte that marks data as binary: a control byte other than line feed,
/// carriage return and tab.
pub open spec fn is_binary_byte(b: u8) -> bool {
    b < 32 && b != 10 && b != 13 && b != 9
}

/// Whether the first `max_check` bytes of `data` (all of it when shorter)
/// hold no binary byte.
pub fn is_text(data: &[u8], max_check: usize) -> (r: bool)
    ensures
        r == forall|i: int| 0 <= i < data@.len() && i < max_check ==> !is_binary_byte(#[trigger] data@[i]),
{
    let check_len = if data.len() < max_check { data.len() } else { max_check };
    let mut i: usize = 0;
    while i < check_len
        invariant
            check_len <= data@.len(),
            check_len <= max_check,
            check_len == data@.len() || check_len == max_check,
            i <= check_len,
            forall|k: int| 0 <= k < i ==> !is_binary_byte(#[trigger] data@[k]),
        decreases check_len - i,
    {
        let b = data[i];
        if b < 32 && b != 10 && b != 13 && b != 9 {
            assert(is_binary_byte(data@[i as int]));
            return false;
        }
        i = i + 1;
    }
    true
}

/// The UTC calendar time `%Y-%m-%d %H:%M:%S` of `secs` seconds after the
/// Unix epoch, or `None` when out of range.
pub uninterp spec fn utc_datetime_text(secs: i64) -> Option<Seq<char>>;

/// Formats epoch seconds as a UTC date and time.
///
/// Calls `chrono::Utc.timestamp_opt(secs, 0)` and, for a single result,
/// formats it with `%Y-%m-%d %H:%M:%S`.  The contract claims only that the
/// result is a function of `secs`.
#[verifier::external_body]
fn utc_text(secs: i64) -> (r: Option<String>)
    ensures
        r.deep_view() == utc_datetime_text(secs),
{
    match chrono::Utc.timestamp_opt(secs, 0) {
        chrono::LocalResult::Single(dt) => Some(dt.format("%Y-%m-%d %H:%M:%S").to_string()),
        _ => None,
    }
}

/// The display text of a modification time: `N/A` for 0 or a time out of
/// range, the UTC date and time otherwise.
pub fn format_time(timestamp: u64) -> (r: String)
    ensures
        r@ == if timestamp == 0 {
            "N/A"@
        } else {
            match utc_datetime_text(timestamp as i64) {
                Some(t) => t,
                None => "N/A"@,
            }
        },
{
    if timestamp == 0 {
        return "N/A".to_owned();
    }
    time_text(utc_text(timestamp as i64))
}

/// The display text of a formatted time: the text, or `N/A` when the time
/// could not be formatted.
pub fn time_text(formatted: Option<String>) -> (r: String)
    ensures
        r@ == match formatted {
            Some(t) => t@,
            None => "N/A"@,
        },
{
    match formatted {
        Some(t) => t,
        None => "N/A".to_owned(),
    }
}

} // verus!
