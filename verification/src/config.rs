//! Modpack configuration (the part that lives outside the in-game menu) and
//! the UTC timestamp format that the updater section records.
use vstd::prelude::*;
use crate::text::{push_char, push_zero_padded, zero_padded};

verus! {

/// Top level configuration of the modpack (not the in-game menu settings).
/// Each field is one section of `training_modpack.toml`.
pub struct TrainingModpackConfig {
    pub update: UpdaterConfig,
}

/// Configuration section of the automatic updater.
pub struct UpdaterConfig {
    pub last_update_version: String,
}

// ---------------------------------------------------------------------------
// Calendar model
// ---------------------------------------------------------------------------

/// Gregorian leap year rule.
pub open spec fn is_leap_year(y: int) -> bool {
    y % 4 == 0 && (y % 100 != 0 || y % 400 == 0)
}

/// Number of days in year `y`.
pub open spec fn year_length(y: int) -> int {
    if is_leap_year(y) { 366 } else { 365 }
}

/// Number of days in month `m` (0 = January) of a leap or common year.
pub open spec fn month_length(leap: bool, m: int) -> int {
    if m == 1 {
        if leap { 29 } else { 28 }
    } else if m == 3 || m == 5 || m == 8 || m == 10 {
        30
    } else {
        31
    }
}

/// Days from 1970-01-01 to the first day of year `y`.
pub open spec fn days_before_year(y: int) -> int
    decreases y - 1970,
{
    if y <= 1970 { 0 } else { days_before_year(y - 1) + year_length(y - 1) }
}

/// Days from the first day of a year to the first day of its month `m`.
pub open spec fn days_before_month(leap: bool, m: int) -> int
    decreases m,
{
    if m <= 0 { 0 } else { days_before_month(leap, m - 1) + month_length(leap, m - 1) }
}

/// `y` is the year in which day number `days` (counted from 1970-01-01) falls.
pub open spec fn is_year_of(days: int, y: int) -> bool {
    1970 <= y && days_before_year(y) <= days < days_before_year(y + 1)
}

/// `m` (0 = January) is the month in which day `doy` of a year falls.
pub open spec fn is_month_of(leap: bool, doy: int, m: int) -> bool {
    0 <= m < 12 && days_before_month(leap, m) <= doy < days_before_month(leap, m + 1)
}

/// The year of day number `days`.
pub open spec fn civil_year(days: int) -> int {
    choose|y: int| is_year_of(days, y)
}

/// The month (0 = January) of day `doy` of a year.
pub open spec fn civil_month(leap: bool, doy: int) -> int {
    choose|m: int| is_month_of(leap, doy, m)
}

/// `seconds` after the Unix epoch as `YYYY-MM-DDTHH:MM:SSZ` (UTC).
pub open spec fn time_string(seconds: u64) -> Seq<char> {
    let days = seconds / 86400;
    let in_day = seconds % 86400;
    let y = civil_year(days as int);
    let doy = days - days_before_year(y);
    let leap = is_leap_year(y);
    let m = civil_month(leap, doy);
    let d = doy - days_before_month(leap, m);
    zero_padded(y as nat, 4) + seq!['-'] + zero_padded((m + 1) as nat, 2) + seq!['-']
        + zero_padded((d + 1) as nat, 2) + seq!['T'] + zero_padded((in_day / 3600) as nat, 2)
        + seq![':'] + zero_padded(((in_day % 3600) / 60) as nat, 2) + seq![':']
        + zero_padded((in_day % 60) as nat, 2) + seq!['Z']
}

// ---------------------------------------------------------------------------
// Calendar lemmas
// ---------------------------------------------------------------------------

/// Later years start later: the start of year `a + 1` is not after the start of year `b > a`.
pub proof fn lemma_days_before_year_monotone(a: int, b: int)
    requires
        1970 <= a < b,
    ensures
        days_before_year(a + 1) <= days_before_year(b),
        days_before_year(a) < days_before_year(b),
    decreases b - a,
{
    if b > a + 1 {
        lemma_days_before_year_monotone(a, b - 1);
    }
}

/// Every day number from 1970 on falls in exactly one year.
pub proof fn lemma_year_unique(days: int, y1: int, y2: int)
    requires
        is_year_of(days, y1),
        is_year_of(days, y2),
    ensures
        y1 == y2,
{
    if y1 < y2 {
        lemma_days_before_year_monotone(y1, y2);
    } else if y2 < y1 {
        lemma_days_before_year_monotone(y2, y1);
    }
}

/// The months of a year add up to the year.
pub proof fn lemma_months_fill_year(y: int)
    ensures
        days_before_month(is_leap_year(y), 12) == year_length(y),
{
    reveal_with_fuel(days_before_month, 13);
}

/// Later months start later.
pub proof fn lemma_days_before_month_monotone(leap: bool, a: int, b: int)
    requires
        0 <= a < b,
    ensures
        days_before_month(leap, a + 1) <= days_before_month(leap, b),
        days_before_month(leap, a) < days_before_month(leap, b),
    decreases b - a,
{
    if b > a + 1 {
        lemma_days_before_month_monotone(leap, a, b - 1);
    }
}

/// Every day of a year falls in exactly one month.
pub proof fn lemma_month_unique(leap: bool, doy: int, m1: int, m2: int)
    requires
        is_month_of(leap, doy, m1),
        is_month_of(leap, doy, m2),
    ensures
        m1 == m2,
{
    if m1 < m2 {
        lemma_days_before_month_monotone(leap, m1, m2);
    } else if m2 < m1 {
        lemma_days_before_month_monotone(leap, m2, m1);
    }
}

/// From the start of year `y` on, every day number falls in some later year.
proof fn lemma_year_exists_from(days: int, y: int)
    requires
        1970 <= y,
        days_before_year(y) <= days,
    ensures
        exists|z: int| is_year_of(days, z),
    decreases days - days_before_year(y),
{
    if days < days_before_year(y + 1) {
        assert(is_year_of(days, y));
    } else {
        lemma_year_exists_from(days, y + 1);
    }
}

/// Every day of a year falls in some month.
proof fn lemma_month_exists_from(leap: bool, doy: int, m: int)
    requires
        0 <= m < 12,
        days_before_month(leap, m) <= doy < days_before_month(leap, 12),
    ensures
        exists|z: int| is_month_of(leap, doy, z),
    decreases 12 - m,
{
    if doy < days_before_month(leap, m + 1) {
        assert(is_month_of(leap, doy, m));
    } else {
        lemma_month_exists_from(leap, doy, m + 1);
    }
}

/// Every day number from 1970-01-01 on has exactly one calendar date: a year
/// from 1970 on, a month of that year and a day of that month.
pub proof fn lemma_civil_date(days: int)
    requires
        days >= 0,
    ensures
        is_year_of(days, civil_year(days)),
        is_month_of(
            is_leap_year(civil_year(days)),
            days - days_before_year(civil_year(days)),
            civil_month(is_leap_year(civil_year(days)), days - days_before_year(civil_year(days))),
        ),
        ({
            let y = civil_year(days);
            let leap = is_leap_year(y);
            let doy = days - days_before_year(y);
            let d = doy - days_before_month(leap, civil_month(leap, doy));
            0 <= d < month_length(leap, civil_month(leap, doy))
        }),
{
    lemma_year_exists_from(days, 1970);
    let y = civil_year(days);
    lemma_months_fill_year(y);
    let leap = is_leap_year(y);
    let doy = days - days_before_year(y);
    lemma_month_exists_from(leap, doy, 0);
}

// ---------------------------------------------------------------------------
// Executable formatting
// ---------------------------------------------------------------------------

/// The number of days in month `month` (0 = January) of a leap or common year.
fn month_days(leap: bool, month: usize) -> (d: u64)
    requires
        month < 12,
    ensures
        d == month_length(leap, month as int),
{
    match month {
        1 => if leap { 29 } else { 28 },
        3 | 5 | 8 | 10 => 30,
        _ => 31,
    }
}

fn leap_year(year: u64) -> (b: bool)
    ensures
        b == is_leap_year(year as int),
{
    year % 4 == 0 && (year % 100 != 0 || year % 400 == 0)
}

/// Formats `seconds` after the Unix epoch as a UTC date and time,
/// `YYYY-MM-DDTHH:MM:SSZ`, with the year padded to four digits.
pub fn format_time_string(seconds: u64) -> (s: String)
    ensures
        s@ == time_string(seconds),
{
    let mut year: u64 = 1970;
    let seconds_in_day = seconds % 86400;
    let mut day_number = seconds / 86400;
    let ghost days = (seconds / 86400) as int;

    let sec = seconds_in_day % 60;
    let min = (seconds_in_day % 3600) / 60;
    let hours = seconds_in_day / 3600;
    loop
        invariant_except_break
            1970 <= year,
            year <= 1970 + (days - day_number),
            days_before_year(year as int) + day_number == days,
            days <= u64::MAX / 86400,
        ensures
            is_year_of(days, year as int),
            days_before_year(year as int) + day_number == days,
        decreases day_number,
    {
        let year_length: u64 = if leap_year(year) { 366 } else { 365 };
        if day_number >= year_length {
            day_number = day_number - year_length;
            year = year + 1;
        } else {
            break;
        }
    }
    proof {
        lemma_months_fill_year(year as int);
    }
    let leap = leap_year(year);
    let ghost doy = day_number as int;
    let mut month: usize = 0;
    while day_number >= month_days(leap, month)
        invariant
            month < 12,
            days_before_month(leap, month as int) + day_number == doy,
            0 <= doy < days_before_month(leap, 12),
        decreases 12 - month,
    {
        day_number = day_number - month_days(leap, month);
        month = month + 1;
        proof {
            if month >= 12 {
                if month > 12 {
                    lemma_days_before_month_monotone(leap, 12, month as int);
                }
                assert(false);
            }
        }
    }
    proof {
        assert(is_year_of(days, year as int));
        lemma_year_unique(days, year as int, civil_year(days));
        assert(is_month_of(leap, doy, month as int));
        lemma_month_unique(leap, doy, month as int, civil_month(leap, doy));
    }

    let mut s = String::new();
    push_zero_padded(&mut s, year, 4);
    push_char(&mut s, '-');
    push_zero_padded(&mut s, (month + 1) as u64, 2);
    push_char(&mut s, '-');
    push_zero_padded(&mut s, day_number + 1, 2);
    push_char(&mut s, 'T');
    push_zero_padded(&mut s, hours, 2);
    push_char(&mut s, ':');
    push_zero_padded(&mut s, min, 2);
    push_char(&mut s, ':');
    push_zero_padded(&mut s, sec, 2);
    push_char(&mut s, 'Z');
    s
}

/// Seconds since the Unix epoch by the system clock
/// (`SystemTime::now().duration_since(UNIX_EPOCH)`, then `as_secs`), or `None`
/// when the clock reads a time before the epoch. Nothing more is stated of the
/// value: it is whatever the clock reads.
#[verifier::external_body]
fn epoch_seconds_now() -> Option<u64> {
    match std::time::SystemTime::now().duration_since(std::time::UNIX_EPOCH) {
        Ok(d) => Some(d.as_secs()),
        Err(_) => None,
    }
}

/// The current UTC time, formatted by `format_time_string`; a clock that
/// reads a time before the epoch gives the epoch itself.
pub fn now_utc() -> (s: String)
    ensures
        exists|secs: u64| s@ == time_string(secs),
{
    let secs = match epoch_seconds_now() {
        Some(t) => t,
        None => 0,
    };
    format_time_string(secs)
}

impl UpdaterConfig {
    /// The updater section as first written: the last update is "now".
    pub fn default() -> (c: UpdaterConfig)
        ensures
            exists|secs: u64| c.last_update_version@ == time_string(secs),
    {
        UpdaterConfig { last_update_version: now_utc() }
    }
}

impl TrainingModpackConfig {
    /// The default configuration.
    pub fn new() -> (c: TrainingModpackConfig)
        ensures
            exists|secs: u64| c.update.last_update_version@ == time_string(secs),
    {
        TrainingModpackConfig { update: UpdaterConfig::default() }
    }
}

/// Why loading the configuration file failed.
#[derive(Clone, Copy, Debug, PartialEq, Eq, Structural)]
pub enum ConfigLoadError {
    /// No configuration file exists.
    NotFound,
    /// The file exists but is not valid TOML for the configuration.
    Malformed,
    /// Any other failure (reading the file, permissions, ...).
    Other,
}

/// What `load_or_create` does after a failed load.
#[derive(Clone, Copy, Debug, PartialEq, Eq, Structural)]
pub enum ConfigRecovery {
    /// Write the default configuration, then load again.
    CreateDefaultThenLoad,
    /// Remove the malformed file, write the default configuration, then load again.
    ReplaceWithDefaultThenLoad,
    /// Give the error back to the caller.
    Propagate,
}

/// The recovery step of `load_or_create` for a failed load: a missing file is
/// created with the defaults, a malformed one is replaced by the defaults, and
/// any other error is re-raised.
pub fn recovery_for(err: ConfigLoadError) -> (r: ConfigRecovery)
    ensures
        err == ConfigLoadError::NotFound <==> r == ConfigRecovery::CreateDefaultThenLoad,
        err == ConfigLoadError::Malformed <==> r == ConfigRecovery::ReplaceWithDefaultThenLoad,
        err == ConfigLoadError::Other <==> r == ConfigRecovery::Propagate,
{
    match err {
        ConfigLoadError::NotFound => ConfigRecovery::CreateDefaultThenLoad,
        ConfigLoadError::Malformed => ConfigRecovery::ReplaceWithDefaultThenLoad,
        ConfigLoadError::Other => ConfigRecovery::Propagate,
    }
}

} // verus!
