//! Timezones and working patterns: UTC offsets, conversions between zones,
//! the common working window of participants in several zones, work weeks
//! and buffers.
//!
//! Offsets are whole minutes east of UTC (every zone the scheduler knows is a
//! whole number of half hours away from UTC). A zone outside the table is
//! read as UTC (offset 0).

use vstd::prelude::*;
use vstd::string::*;
use crate::inputs::{BufferInput, OverlapInput, Participant, TimezoneConvertInput, WorkWeekInput};
use crate::server::SchedulingServer;
use crate::text::{join_text, same_text, texts};

verus! {

/// The zones the scheduler knows, with their offsets in minutes.
pub open spec fn tz_table() -> Seq<(Seq<char>, i32)> {
    seq![
        ("UTC"@, 0i32), ("GMT"@, 0i32),
        ("Africa/Nairobi"@, 180i32), ("Africa/Lagos"@, 60i32), ("Africa/Cairo"@, 120i32),
        ("Africa/Johannesburg"@, 120i32), ("Africa/Addis_Ababa"@, 180i32), ("Africa/Kigali"@, 120i32),
        ("Africa/Dar_es_Salaam"@, 180i32), ("Africa/Kampala"@, 180i32),
        ("Europe/London"@, 0i32), ("Europe/Paris"@, 60i32), ("Europe/Berlin"@, 60i32),
        ("Europe/Rome"@, 60i32), ("Europe/Madrid"@, 60i32), ("Europe/Amsterdam"@, 60i32),
        ("Europe/Stockholm"@, 60i32), ("Europe/Oslo"@, 60i32), ("Europe/Zurich"@, 60i32),
        ("America/New_York"@, -300i32), ("America/Chicago"@, -360i32), ("America/Denver"@, -420i32),
        ("America/Los_Angeles"@, -480i32), ("America/Toronto"@, -300i32), ("America/Sao_Paulo"@, -180i32),
        ("Asia/Dubai"@, 240i32), ("Asia/Riyadh"@, 180i32), ("Asia/Kolkata"@, 330i32),
        ("Asia/Mumbai"@, 330i32), ("Asia/Shanghai"@, 480i32), ("Asia/Tokyo"@, 540i32),
        ("Asia/Singapore"@, 480i32), ("Asia/Hong_Kong"@, 480i32), ("Asia/Seoul"@, 540i32),
        ("Asia/Bangkok"@, 420i32), ("Asia/Jakarta"@, 420i32), ("Asia/Manila"@, 480i32),
        ("Asia/Ho_Chi_Minh"@, 420i32), ("Asia/Kuala_Lumpur"@, 480i32),
        ("Australia/Sydney"@, 660i32), ("Australia/Melbourne"@, 660i32), ("Pacific/Auckland"@, 720i32),
    ]
}

/// The offset listed for `tz` in `t`, if any.
pub open spec fn offset_in(t: Seq<(Seq<char>, i32)>, tz: Seq<char>) -> Option<i32>
    decreases t.len(),
{
    if t.len() == 0 {
        None
    } else if t[0].0 == tz {
        Some(t[0].1)
    } else {
        offset_in(t.drop_first(), tz)
    }
}

/// The offset of `tz` in minutes: its entry in the table, 0 (UTC) for a zone
/// outside the table.
pub open spec fn utc_offset_minutes(tz: Seq<char>) -> i32 {
    match offset_in(tz_table(), tz) {
        Some(m) => m,
        None => 0,
    }
}

/// The table of known zones.
fn get_tz_offsets() -> (r: Vec<(&'static str, i32)>)
    ensures
        r@.map_values(|p: (&'static str, i32)| (p.0@, p.1)) == tz_table(),
{
    let r = vec![
        ("UTC", 0i32), ("GMT", 0i32),
        ("Africa/Nairobi", 180i32), ("Africa/Lagos", 60i32), ("Africa/Cairo", 120i32),
        ("Africa/Johannesburg", 120i32), ("Africa/Addis_Ababa", 180i32), ("Africa/Kigali", 120i32),
        ("Africa/Dar_es_Salaam", 180i32), ("Africa/Kampala", 180i32),
        ("Europe/London", 0i32), ("Europe/Paris", 60i32), ("Europe/Berlin", 60i32),
        ("Europe/Rome", 60i32), ("Europe/Madrid", 60i32), ("Europe/Amsterdam", 60i32),
        ("Europe/Stockholm", 60i32), ("Europe/Oslo", 60i32), ("Europe/Zurich", 60i32),
        ("America/New_York", -300i32), ("America/Chicago", -360i32), ("America/Denver", -420i32),
        ("America/Los_Angeles", -480i32), ("America/Toronto", -300i32), ("America/Sao_Paulo", -180i32),
        ("Asia/Dubai", 240i32), ("Asia/Riyadh", 180i32), ("Asia/Kolkata", 330i32),
        ("Asia/Mumbai", 330i32), ("Asia/Shanghai", 480i32), ("Asia/Tokyo", 540i32),
        ("Asia/Singapore", 480i32), ("Asia/Hong_Kong", 480i32), ("Asia/Seoul", 540i32),
        ("Asia/Bangkok", 420i32), ("Asia/Jakarta", 420i32), ("Asia/Manila", 480i32),
        ("Asia/Ho_Chi_Minh", 420i32), ("Asia/Kuala_Lumpur", 480i32),
        ("Australia/Sydney", 660i32), ("Australia/Melbourne", 660i32), ("Pacific/Auckland", 720i32),
    ];
    assert(r@.map_values(|p: (&'static str, i32)| (p.0@, p.1)) =~= tz_table());
    r
}

/// The offset of `tz` in minutes; 0 (UTC) for a zone outside the table.
pub fn utc_offset(tz: &str) -> (r: i32)
    ensures
        r == utc_offset_minutes(tz@),
{
    let table = get_tz_offsets();
    let ghost tv = table@.map_values(|p: (&'static str, i32)| (p.0@, p.1));
    let mut i: usize = 0;
    assert(tv.skip(0) =~= tv);
    while i < table.len()
        invariant
            i <= table@.len(),
            tv == table@.map_values(|p: (&'static str, i32)| (p.0@, p.1)),
            tv == tz_table(),
            offset_in(tv, tz@) == offset_in(tv.skip(i as int), tz@),
        decreases table@.len() - i,
    {
        let (name, minutes) = table[i];
        assert(tv.skip(i as int)[0] == (name@, minutes));
        assert(tv.skip(i as int).drop_first() =~= tv.skip(i + 1));
        if same_text(name, tz) {
            return minutes;
        }
        i = i + 1;
    }
    0
}

/// One target zone of `timezone_convert`.
#[derive(Debug)]
pub struct TzConversion {
    pub timezone: String,
    /// The zone's offset from UTC, in minutes.
    pub offset_minutes: i32,
    /// The zone's offset minus the source zone's, in minutes.
    pub difference_minutes: i64,
}

/// One participant's share of the common window, in its local time.
#[derive(Debug)]
pub struct LocalWindow {
    pub name: String,
    pub timezone: String,
    /// Minutes after local midnight at which the common window opens.
    pub start_minutes: i64,
    /// Minutes after local midnight at which the common window closes.
    pub end_minutes: i64,
}

/// What `find_overlap` reports.
#[derive(Debug)]
pub struct OverlapReport {
    /// The common window is at least as long as the meeting.
    pub feasible: bool,
    /// The common window in minutes after UTC midnight; absent when there are
    /// no participants (the window is then unbounded).
    pub window: Option<(i64, i64)>,
    /// The length of the common window in minutes, 0 when the windows do not
    /// meet; absent (unbounded) when there are no participants.
    pub overlap_minutes: Option<i64>,
    pub local_times: Vec<LocalWindow>,
}

/// What `work_week_set` records.
#[derive(Debug)]
pub struct WorkWeek {
    pub work_days: Vec<String>,
    /// `start-end`.
    pub hours: String,
    /// `break_start-break_end` (the end defaulting to `13:00`), when a break is given.
    pub break_window: Option<String>,
}

/// What `buffer_set` records.
#[derive(Debug, Clone, Copy, PartialEq, Eq, Structural)]
pub struct BufferSetting {
    pub before_minutes: u32,
    pub after_minutes: u32,
}

/// The zone of a participant: its `timezone`, else `UTC`.
pub open spec fn participant_zone(p: Participant) -> Seq<char> {
    match p.timezone {
        Some(t) => t@,
        None => "UTC"@,
    }
}

/// The name of a participant: its `name`, else `?`.
pub open spec fn participant_name(p: Participant) -> Seq<char> {
    match p.name {
        Some(n) => n@,
        None => "?"@,
    }
}

/// Local hour `hour` of participant `p`, in minutes after UTC midnight.
pub open spec fn utc_minute(p: Participant, hour: u32) -> int {
    hour * 60 - utc_offset_minutes(participant_zone(p))
}

/// The latest of the participants' window starts (0 when there are none).
pub open spec fn latest_open(ps: Seq<Participant>, hour: u32) -> int
    decreases ps.len(),
{
    if ps.len() == 0 {
        0
    } else if ps.len() == 1 {
        utc_minute(ps[0], hour)
    } else {
        let a = latest_open(ps.drop_last(), hour);
        let b = utc_minute(ps.last(), hour);
        if a >= b { a } else { b }
    }
}

/// The earliest of the participants' window ends (0 when there are none).
pub open spec fn earliest_close(ps: Seq<Participant>, hour: u32) -> int
    decreases ps.len(),
{
    if ps.len() == 0 {
        0
    } else if ps.len() == 1 {
        utc_minute(ps[0], hour)
    } else {
        let a = earliest_close(ps.drop_last(), hour);
        let b = utc_minute(ps.last(), hour);
        if a <= b { a } else { b }
    }
}

/// The hours `find_overlap` uses: the given ones, else 8 and 18.
pub open spec fn overlap_hours(input: OverlapInput) -> (u32, u32) {
    (
        match input.earliest_hour {
            Some(h) => h,
            None => 8,
        },
        match input.latest_hour {
            Some(h) => h,
            None => 18,
        },
    )
}

/// The work days of a pattern: the four named patterns, else the
/// comma-separated parts of the pattern, each trimmed.
pub open spec fn work_days_of(pattern: Seq<char>) -> Seq<Seq<char>> {
    if pattern == "mon-fri"@ {
        seq!["mon"@, "tue"@, "wed"@, "thu"@, "fri"@]
    } else if pattern == "sun-thu"@ {
        seq!["sun"@, "mon"@, "tue"@, "wed"@, "thu"@]
    } else if pattern == "mon-sat"@ {
        seq!["mon"@, "tue"@, "wed"@, "thu"@, "fri"@, "sat"@]
    } else if pattern == "sat-thu"@ {
        seq!["sat"@, "sun"@, "mon"@, "tue"@, "wed"@, "thu"@]
    } else {
        split_commas(pattern).map_values(|part: Seq<char>| trimmed_text(part))
    }
}

/// The parts of `s` between commas, as `str::split(',')` gives them.
pub open spec fn split_commas(s: Seq<char>) -> Seq<Seq<char>>
    decreases s.len(),
{
    if s.len() == 0 {
        seq![Seq::<char>::empty()]
    } else {
        let prev = split_commas(s.drop_last());
        if s.last() == ',' {
            prev.push(Seq::<char>::empty())
        } else {
            prev.update(prev.len() - 1, prev.last().push(s.last()))
        }
    }
}

/// A character with Unicode's `White_Space` property, the whitespace of
/// `char::is_whitespace` and `str::trim`.
pub open spec fn is_white_space(c: char) -> bool {
    let u = c as u32;
    ||| 0x9 <= u <= 0xD
    ||| u == 0x20
    ||| u == 0x85
    ||| u == 0xA0
    ||| u == 0x1680
    ||| 0x2000 <= u <= 0x200A
    ||| u == 0x2028
    ||| u == 0x2029
    ||| u == 0x202F
    ||| u == 0x205F
    ||| u == 0x3000
}

/// `s` without leading whitespace.
pub open spec fn trim_start_text(s: Seq<char>) -> Seq<char>
    decreases s.len(),
{
    if s.len() > 0 && is_white_space(s[0]) {
        trim_start_text(s.drop_first())
    } else {
        s
    }
}

/// `s` without trailing whitespace.
pub open spec fn trim_end_text(s: Seq<char>) -> Seq<char>
    decreases s.len(),
{
    if s.len() > 0 && is_white_space(s.last()) {
        trim_end_text(s.drop_last())
    } else {
        s
    }
}

/// `s` without leading and trailing whitespace, as `str::trim` gives it.
pub open spec fn trimmed_text(s: Seq<char>) -> Seq<char> {
    trim_end_text(trim_start_text(s))
}

/// Whether `c` has Unicode's `White_Space` property.
fn white_space(c: char) -> (r: bool)
    ensures
        r == is_white_space(c),
{
    let u = c as u32;
    (0x9 <= u && u <= 0xD) || u == 0x20 || u == 0x85 || u == 0xA0 || u == 0x1680 || (0x2000 <= u && u <= 0x200A)
        || u == 0x2028 || u == 0x2029 || u == 0x202F || u == 0x205F || u == 0x3000
}

/// `s` without leading and trailing whitespace.
pub fn trim_text(s: &str) -> (r: &str)
    ensures
        r@ == trimmed_text(s@),
{
    let n = s.unicode_len();
    let mut i: usize = 0;
    assert(s@.subrange(0, n as int) =~= s@);
    while i < n && white_space(s.get_char(i))
        invariant
            n == s@.len(),
            i <= n,
            trim_start_text(s@) == trim_start_text(s@.subrange(i as int, n as int)),
        decreases n - i,
    {
        assert(s@.subrange(i as int, n as int).drop_first() =~= s@.subrange(i + 1, n as int));
        i = i + 1;
    }
    let ghost mid = s@.subrange(i as int, n as int);
    let mut j: usize = n;
    while j > i && white_space(s.get_char(j - 1))
        invariant
            n == s@.len(),
            i <= j <= n,
            mid == trim_start_text(s@),
            trim_end_text(mid) == trim_end_text(s@.subrange(i as int, j as int)),
        decreases j - i,
    {
        assert(s@.subrange(i as int, j as int).drop_last() =~= s@.subrange(i as int, j - 1));
        j = j - 1;
    }
    s.substring_char(i, j)
}

/// The comma-separated parts of `s`, each trimmed.
fn split_and_trim(s: &str) -> (r: Vec<String>)
    ensures
        texts(r@) == split_commas(s@).map_values(|part: Seq<char>| trimmed_text(part)),
{
    let n = s.unicode_len();
    let mut parts: Vec<String> = Vec::new();
    let ghost mut done: Seq<Seq<char>> = Seq::empty();
    let mut start: usize = 0;
    let mut i: usize = 0;
    assert(s@.take(0) =~= Seq::<char>::empty());
    assert(s@.subrange(0, 0) =~= Seq::<char>::empty());
    assert(split_commas(s@.take(0)) =~= done.push(s@.subrange(0, 0)));
    while i < n
        invariant
            n == s@.len(),
            start <= i <= n,
            split_commas(s@.take(i as int)) == done.push(s@.subrange(start as int, i as int)),
            parts@.len() == done.len(),
            forall|k: int| 0 <= k < parts@.len() ==> #[trigger] parts@[k]@ == trimmed_text(done[k]),
        decreases n - i,
    {
        let c = s.get_char(i);
        proof {
            let t = s@.take(i + 1);
            assert(t.drop_last() =~= s@.take(i as int));
            assert(t.last() == c);
        }
        if c == ',' {
            let piece = trim_text(s.substring_char(start, i)).to_owned();
            parts.push(piece);
            proof {
                done = done.push(s@.subrange(start as int, i as int));
            }
            start = i + 1;
            assert(s@.subrange(start as int, i + 1) =~= Seq::<char>::empty());
        } else {
            assert(s@.subrange(start as int, i + 1) =~= s@.subrange(start as int, i as int).push(c));
        }
        i = i + 1;
    }
    let last = trim_text(s.substring_char(start, n)).to_owned();
    parts.push(last);
    proof {
        assert(s@.take(n as int) =~= s@);
        done = done.push(s@.subrange(start as int, n as int));
    }
    assert(texts(parts@) =~= split_commas(s@).map_values(|part: Seq<char>| trimmed_text(part)));
    parts
}

impl SchedulingServer {
    /// The offset of each target zone and its difference from the source
    /// zone (a zone outside the table counts as UTC).
    pub fn timezone_convert(&self, input: &TimezoneConvertInput) -> (r: Vec<TzConversion>)
        ensures
            r@.len() == input.to_tz@.len(),
            forall|i: int|
                0 <= i < r@.len() ==> {
                    &&& (#[trigger] r@[i]).timezone@ == input.to_tz@[i]@
                    &&& r@[i].offset_minutes == utc_offset_minutes(input.to_tz@[i]@)
                    &&& r@[i].difference_minutes == utc_offset_minutes(input.to_tz@[i]@) - utc_offset_minutes(
                        input.from_tz@,
                    )
                },
    {
        let from_offset = utc_offset(input.from_tz.as_str());
        let mut r: Vec<TzConversion> = Vec::new();
        let mut i: usize = 0;
        while i < input.to_tz.len()
            invariant
                i <= input.to_tz@.len(),
                from_offset == utc_offset_minutes(input.from_tz@),
                r@.len() == i,
                forall|k: int|
                    0 <= k < i ==> {
                        &&& (#[trigger] r@[k]).timezone@ == input.to_tz@[k]@
                        &&& r@[k].offset_minutes == utc_offset_minutes(input.to_tz@[k]@)
                        &&& r@[k].difference_minutes == utc_offset_minutes(input.to_tz@[k]@) - utc_offset_minutes(
                            input.from_tz@,
                        )
                    },
            decreases input.to_tz@.len() - i,
        {
            let tz = &input.to_tz[i];
            let to_offset = utc_offset(tz.as_str());
            r.push(TzConversion {
                timezone: tz.clone(),
                offset_minutes: to_offset,
                difference_minutes: to_offset as i64 - from_offset as i64,
            });
            i = i + 1;
        }
        r
    }

    /// The window of UTC time inside every participant's local working hours,
    /// whether it fits the meeting, and where it falls in each local time (a
    /// zone outside the table counts as UTC).
    pub fn find_overlap(&self, input: &OverlapInput) -> (r: OverlapReport)
        ensures
            ({
                let ps = input.participants@;
                let (e, l) = overlap_hours(*input);
                let open = latest_open(ps, e);
                let close = earliest_close(ps, l);
                if ps.len() == 0 {
                    &&& r.window is None
                    &&& r.overlap_minutes is None
                    &&& r.feasible
                    &&& r.local_times@.len() == 0
                } else {
                    &&& r.window matches Some(w) && w.0 == open && w.1 == close
                    &&& r.overlap_minutes matches Some(m) && m == (if close >= open { close - open } else { 0 })
                    &&& r.feasible == ((if close >= open { close - open } else { 0 }) >= input.duration_minutes)
                    &&& r.local_times@.len() == ps.len()
                    &&& forall|i: int|
                        0 <= i < ps.len() ==> {
                            let lt = #[trigger] r.local_times@[i];
                            let off = utc_offset_minutes(participant_zone(ps[i]));
                            &&& lt.name@ == participant_name(ps[i])
                            &&& lt.timezone@ == participant_zone(ps[i])
                            &&& lt.start_minutes == open + off
                            &&& lt.end_minutes == close + off
                        }
                }
            }),
    {
        let e: u32 = match input.earliest_hour {
            Some(h) => h,
            None => 8,
        };
        let l: u32 = match input.latest_hour {
            Some(h) => h,
            None => 18,
        };
        let ghost ps = input.participants@;
        let n = input.participants.len();
        if n == 0 {
            return OverlapReport { feasible: true, window: None, overlap_minutes: None, local_times: Vec::new() };
        }
        let mut open: i64 = 0;
        let mut close: i64 = 0;
        let mut zones: Vec<String> = Vec::new();
        let mut offsets: Vec<i32> = Vec::new();
        let mut i: usize = 0;
        while i < n
            invariant
                n == ps.len(),
                ps == input.participants@,
                (e, l) == overlap_hours(*input),
                i <= n,
                zones@.len() == i,
                offsets@.len() == i,
                forall|k: int| 0 <= k < i ==> (#[trigger] zones@[k])@ == participant_zone(ps[k]),
                forall|k: int| 0 <= k < i ==> #[trigger] offsets@[k] == utc_offset_minutes(participant_zone(ps[k])),
                i > 0 ==> open == latest_open(ps.take(i as int), e),
                i > 0 ==> close == earliest_close(ps.take(i as int), l),
                i > 0 ==> -0x1_0000_0000_0000 < open < 0x1_0000_0000_0000,
                i > 0 ==> -0x1_0000_0000_0000 < close < 0x1_0000_0000_0000,
            decreases n - i,
        {
            let p = &input.participants[i];
            let zone = match &p.timezone {
                Some(t) => t.clone(),
                None => String::from_str("UTC"),
            };
            let off = utc_offset(zone.as_str());
            let a: i64 = e as i64 * 60 - off as i64;
            let b: i64 = l as i64 * 60 - off as i64;
            proof {
                let t = ps.take(i + 1);
                assert(t.drop_last() =~= ps.take(i as int));
                assert(t.last() == *p);
                assert(t.len() == i + 1);
                if i == 0 {
                    assert(t[0] == *p);
                }
            }
            if i == 0 {
                open = a;
                close = b;
            } else {
                if a > open {
                    open = a;
                }
                if b < close {
                    close = b;
                }
            }
            zones.push(zone);
            offsets.push(off);
            i = i + 1;
        }
        assert(ps.take(n as int) =~= ps);
        let overlap: i64 = if close >= open { close - open } else { 0 };
        let mut local_times: Vec<LocalWindow> = Vec::new();
        let mut k: usize = 0;
        while k < n
            invariant
                n == ps.len(),
                ps == input.participants@,
                zones@.len() == n,
                offsets@.len() == n,
                forall|j: int| 0 <= j < n ==> (#[trigger] zones@[j])@ == participant_zone(ps[j]),
                forall|j: int| 0 <= j < n ==> #[trigger] offsets@[j] == utc_offset_minutes(participant_zone(ps[j])),
                open == latest_open(ps, e),
                close == earliest_close(ps, l),
                -0x1_0000_0000_0000 < open < 0x1_0000_0000_0000,
                -0x1_0000_0000_0000 < close < 0x1_0000_0000_0000,
                k <= n,
                local_times@.len() == k,
                forall|j: int|
                    0 <= j < k ==> {
                        let lt = #[trigger] local_times@[j];
                        let off = utc_offset_minutes(participant_zone(ps[j]));
                        &&& lt.name@ == participant_name(ps[j])
                        &&& lt.timezone@ == participant_zone(ps[j])
                        &&& lt.start_minutes == open + off
                        &&& lt.end_minutes == close + off
                    },
            decreases n - k,
        {
            let p = &input.participants[k];
            let name = match &p.name {
                Some(x) => x.clone(),
                None => String::from_str("?"),
            };
            let off = offsets[k];
            local_times.push(LocalWindow {
                name: name,
                timezone: zones[k].clone(),
                start_minutes: open + off as i64,
                end_minutes: close + off as i64,
            });
            k = k + 1;
        }
        OverlapReport {
            feasible: overlap >= input.duration_minutes as i64,
            window: Some((open, close)),
            overlap_minutes: Some(overlap),
            local_times: local_times,
        }
    }

    /// The work days, daily hours and break of a work week pattern.
    pub fn work_week_set(&self, input: &WorkWeekInput) -> (r: WorkWeek)
        ensures
            texts(r.work_days@) == work_days_of(input.pattern@),
            r.hours@ == input.start_time@ + "-"@ + input.end_time@,
            match input.break_start {
                Some(b) => r.break_window matches Some(w) && w@ == b@ + "-"@ + match input.break_end {
                    Some(x) => x@,
                    None => "13:00"@,
                },
                None => r.break_window is None,
            },
    {
        let p = input.pattern.as_str();
        let days: Vec<String> = if same_text(p, "mon-fri") {
            let v = vec![String::from_str("mon"), String::from_str("tue"), String::from_str("wed"),
                String::from_str("thu"), String::from_str("fri")];
            assert(texts(v@) =~= work_days_of(input.pattern@));
            v
        } else if same_text(p, "sun-thu") {
            let v = vec![String::from_str("sun"), String::from_str("mon"), String::from_str("tue"),
                String::from_str("wed"), String::from_str("thu")];
            assert(texts(v@) =~= work_days_of(input.pattern@));
            v
        } else if same_text(p, "mon-sat") {
            let v = vec![String::from_str("mon"), String::from_str("tue"), String::from_str("wed"),
                String::from_str("thu"), String::from_str("fri"), String::from_str("sat")];
            assert(texts(v@) =~= work_days_of(input.pattern@));
            v
        } else if same_text(p, "sat-thu") {
            let v = vec![String::from_str("sat"), String::from_str("sun"), String::from_str("mon"),
                String::from_str("tue"), String::from_str("wed"), String::from_str("thu")];
            assert(texts(v@) =~= work_days_of(input.pattern@));
            v
        } else {
            split_and_trim(p)
        };
        let head = join_text(input.start_time.as_str(), "-");
        let hours = join_text(head.as_str(), input.end_time.as_str());
        let break_window = match &input.break_start {
            Some(b) => {
                let end = match &input.break_end {
                    Some(x) => x.as_str(),
                    None => "13:00",
                };
                let h = join_text(b.as_str(), "-");
                Some(join_text(h.as_str(), end))
            },
            None => None,
        };
        WorkWeek { work_days: days, hours: hours, break_window: break_window }
    }

    /// The buffer minutes before and after bookings, 0 when not given.
    pub fn buffer_set(&self, input: &BufferInput) -> (r: BufferSetting)
        ensures
            r.before_minutes == match input.before_minutes {
                Some(m) => m,
                None => 0,
            },
            r.after_minutes == match input.after_minutes {
                Some(m) => m,
                None => 0,
            },
    {
        BufferSetting {
            before_minutes: match input.before_minutes {
                Some(m) => m,
                None => 0,
            },
            after_minutes: match input.after_minutes {
                Some(m) => m,
                None => 0,
            },
        }
    }
}

/// The first entry of `t` named `tz` is at `k`: the lookup gives its offset.
proof fn lemma_first_entry(t: Seq<(Seq<char>, i32)>, tz: Seq<char>, k: int)
    requires
        0 <= k < t.len(),
        t[k].0 == tz,
        forall|j: int| 0 <= j < k ==> t[j].0 != tz,
    ensures
        offset_in(t, tz) == Some(t[k].1),
    decreases k,
{
    if k > 0 {
        assert forall|j: int| 0 <= j < k - 1 implies t.drop_first()[j].0 != tz by {
            assert(t.drop_first()[j] == t[j + 1]);
        }
        lemma_first_entry(t.drop_first(), tz, k - 1);
    }
}

/// The offsets of `UTC`, `GMT` and the African zones, in minutes east of UTC: UTC +0h, GMT
/// +0h, Africa/Nairobi +3h, Africa/Lagos +1h, Africa/Cairo +2h, Africa/Johannesburg +2h,
/// Africa/Addis_Ababa +3h, Africa/Kigali +2h, Africa/Dar_es_Salaam +3h, Africa/Kampala +3h.
pub proof fn law_offsets_utc_and_africa()
    ensures
        utc_offset_minutes("UTC"@) == 0,
        utc_offset_minutes("GMT"@) == 0,
        utc_offset_minutes("Africa/Nairobi"@) == 180,
        utc_offset_minutes("Africa/Lagos"@) == 60,
        utc_offset_minutes("Africa/Cairo"@) == 120,
        utc_offset_minutes("Africa/Johannesburg"@) == 120,
        utc_offset_minutes("Africa/Addis_Ababa"@) == 180,
        utc_offset_minutes("Africa/Kigali"@) == 120,
        utc_offset_minutes("Africa/Dar_es_Salaam"@) == 180,
        utc_offset_minutes("Africa/Kampala"@) == 180,
{
    reveal_strlit("UTC");
    reveal_strlit("GMT");
    reveal_strlit("Africa/Nairobi");
    reveal_strlit("Africa/Lagos");
    reveal_strlit("Africa/Cairo");
    reveal_strlit("Africa/Johannesburg");
    reveal_strlit("Africa/Addis_Ababa");
    reveal_strlit("Africa/Kigali");
    reveal_strlit("Africa/Dar_es_Salaam");
    reveal_strlit("Africa/Kampala");
    let t = tz_table();
    assert(t[0].0 == "UTC"@ && t[0].1 == 0);
    lemma_first_entry(t, "UTC"@, 0);
    assert forall|j: int| 0 <= j < 1 implies t[j].0 != "GMT"@ by {
        if j == 0 {
            assert(t[0].0 == "UTC"@);
            assert("UTC"@[0] != "GMT"@[0]);
        }
    }
    assert(t[1].0 == "GMT"@ && t[1].1 == 0);
    lemma_first_entry(t, "GMT"@, 1);
    assert forall|j: int| 0 <= j < 2 implies t[j].0 != "Africa/Nairobi"@ by {
        if j == 0 {
            assert(t[0].0 == "UTC"@);
            assert("UTC"@.len() != "Africa/Nairobi"@.len());
        } else if j == 1 {
            assert(t[1].0 == "GMT"@);
            assert("GMT"@.len() != "Africa/Nairobi"@.len());
        }
    }
    assert(t[2].0 == "Africa/Nairobi"@ && t[2].1 == 180);
    lemma_first_entry(t, "Africa/Nairobi"@, 2);
    assert forall|j: int| 0 <= j < 3 implies t[j].0 != "Africa/Lagos"@ by {
        if j == 0 {
            assert(t[0].0 == "UTC"@);
            assert("UTC"@.len() != "Africa/Lagos"@.len());
        } else if j == 1 {
            assert(t[1].0 == "GMT"@);
            assert("GMT"@.len() != "Africa/Lagos"@.len());
        } else if j == 2 {
            assert(t[2].0 == "Africa/Nairobi"@);
            assert("Africa/Nairobi"@.len() != "Africa/Lagos"@.len());
        }
    }
    assert(t[3].0 == "Africa/Lagos"@ && t[3].1 == 60);
    lemma_first_entry(t, "Africa/Lagos"@, 3);
    assert forall|j: int| 0 <= j < 4 implies t[j].0 != "Africa/Cairo"@ by {
        if j == 0 {
            assert(t[0].0 == "UTC"@);
            assert("UTC"@.len() != "Africa/Cairo"@.len());
        } else if j == 1 {
            assert(t[1].0 == "GMT"@);
            assert("GMT"@.len() != "Africa/Cairo"@.len());
        } else if j == 2 {
            assert(t[2].0 == "Africa/Nairobi"@);
            assert("Africa/Nairobi"@.len() != "Africa/Cairo"@.len());
        } else if j == 3 {
            assert(t[3].0 == "Africa/Lagos"@);
            assert("Africa/Lagos"@[7] != "Africa/Cairo"@[7]);
        }
    }
    assert(t[4].0 == "Africa/Cairo"@ && t[4].1 == 120);
    lemma_first_entry(t, "Africa/Cairo"@, 4);
    assert forall|j: int| 0 <= j < 5 implies t[j].0 != "Africa/Johannesburg"@ by {
        if j == 0 {
            assert(t[0].0 == "UTC"@);
            assert("UTC"@.len() != "Africa/Johannesburg"@.len());
        } else if j == 1 {
            assert(t[1].0 == "GMT"@);
            assert("GMT"@.len() != "Africa/Johannesburg"@.len());
        } else if j == 2 {
            assert(t[2].0 == "Africa/Nairobi"@);
            assert("Africa/Nairobi"@.len() != "Africa/Johannesburg"@.len());
        } else if j == 3 {
            assert(t[3].0 == "Africa/Lagos"@);
            assert("Africa/Lagos"@.len() != "Africa/Johannesburg"@.len());
        } else if j == 4 {
            assert(t[4].0 == "Africa/Cairo"@);
            assert("Africa/Cairo"@.len() != "Africa/Johannesburg"@.len());
        }
    }
    assert(t[5].0 == "Africa/Johannesburg"@ && t[5].1 == 120);
    lemma_first_entry(t, "Africa/Johannesburg"@, 5);
    assert forall|j: int| 0 <= j < 6 implies t[j].0 != "Africa/Addis_Ababa"@ by {
        if j == 0 {
            assert(t[0].0 == "UTC"@);
            assert("UTC"@.len() != "Africa/Addis_Ababa"@.len());
        } else if j == 1 {
            assert(t[1].0 == "GMT"@);
            assert("GMT"@.len() != "Africa/Addis_Ababa"@.len());
        } else if j == 2 {
            assert(t[2].0 == "Africa/Nairobi"@);
            assert("Africa/Nairobi"@.len() != "Africa/Addis_Ababa"@.len());
        } else if j == 3 {
            assert(t[3].0 == "Africa/Lagos"@);
            assert("Africa/Lagos"@.len() != "Africa/Addis_Ababa"@.len());
        } else if j == 4 {
            assert(t[4].0 == "Africa/Cairo"@);
            assert("Africa/Cairo"@.len() != "Africa/Addis_Ababa"@.len());
        } else if j == 5 {
            assert(t[5].0 == "Africa/Johannesburg"@);
            assert("Africa/Johannesburg"@.len() != "Africa/Addis_Ababa"@.len());
        }
    }
    assert(t[6].0 == "Africa/Addis_Ababa"@ && t[6].1 == 180);
    lemma_first_entry(t, "Africa/Addis_Ababa"@, 6);
    assert forall|j: int| 0 <= j < 7 implies t[j].0 != "Africa/Kigali"@ by {
        if j == 0 {
            assert(t[0].0 == "UTC"@);
            assert("UTC"@.len() != "Africa/Kigali"@.len());
        } else if j == 1 {
            assert(t[1].0 == "GMT"@);
            assert("GMT"@.len() != "Africa/Kigali"@.len());
        } else if j == 2 {
            assert(t[2].0 == "Africa/Nairobi"@);
            assert("Africa/Nairobi"@.len() != "Africa/Kigali"@.len());
        } else if j == 3 {
            assert(t[3].0 == "Africa/Lagos"@);
            assert("Africa/Lagos"@.len() != "Africa/Kigali"@.len());
        } else if j == 4 {
            assert(t[4].0 == "Africa/Cairo"@);
            assert("Africa/Cairo"@.len() != "Africa/Kigali"@.len());
        } else if j == 5 {
            assert(t[5].0 == "Africa/Johannesburg"@);
            assert("Africa/Johannesburg"@.len() != "Africa/Kigali"@.len());
        } else if j == 6 {
            assert(t[6].0 == "Africa/Addis_Ababa"@);
            assert("Africa/Addis_Ababa"@.len() != "Africa/Kigali"@.len());
        }
    }
    assert(t[7].0 == "Africa/Kigali"@ && t[7].1 == 120);
    lemma_first_entry(t, "Africa/Kigali"@, 7);
    assert forall|j: int| 0 <= j < 8 implies t[j].0 != "Africa/Dar_es_Salaam"@ by {
        if j == 0 {
            assert(t[0].0 == "UTC"@);
            assert("UTC"@.len() != "Africa/Dar_es_Salaam"@.len());
        } else if j == 1 {
            assert(t[1].0 == "GMT"@);
            assert("GMT"@.len() != "Africa/Dar_es_Salaam"@.len());
        } else if j == 2 {
            assert(t[2].0 == "Africa/Nairobi"@);
            assert("Africa/Nairobi"@.len() != "Africa/Dar_es_Salaam"@.len());
        } else if j == 3 {
            assert(t[3].0 == "Africa/Lagos"@);
            assert("Africa/Lagos"@.len() != "Africa/Dar_es_Salaam"@.len());
        } else if j == 4 {
            assert(t[4].0 == "Africa/Cairo"@);
            assert("Africa/Cairo"@.len() != "Africa/Dar_es_Salaam"@.len());
        } else if j == 5 {
            assert(t[5].0 == "Africa/Johannesburg"@);
            assert("Africa/Johannesburg"@.len() != "Africa/Dar_es_Salaam"@.len());
        } else if j == 6 {
            assert(t[6].0 == "Africa/Addis_Ababa"@);
            assert("Africa/Addis_Ababa"@.len() != "Africa/Dar_es_Salaam"@.len());
        } else if j == 7 {
            assert(t[7].0 == "Africa/Kigali"@);
            assert("Africa/Kigali"@.len() != "Africa/Dar_es_Salaam"@.len());
        }
    }
    assert(t[8].0 == "Africa/Dar_es_Salaam"@ && t[8].1 == 180);
    lemma_first_entry(t, "Africa/Dar_es_Salaam"@, 8);
    assert forall|j: int| 0 <= j < 9 implies t[j].0 != "Africa/Kampala"@ by {
        if j == 0 {
            assert(t[0].0 == "UTC"@);
            assert("UTC"@.len() != "Africa/Kampala"@.len());
        } else if j == 1 {
            assert(t[1].0 == "GMT"@);
            assert("GMT"@.len() != "Africa/Kampala"@.len());
        } else if j == 2 {
            assert(t[2].0 == "Africa/Nairobi"@);
            assert("Africa/Nairobi"@[7] != "Africa/Kampala"@[7]);
        } else if j == 3 {
            assert(t[3].0 == "Africa/Lagos"@);
            assert("Africa/Lagos"@.len() != "Africa/Kampala"@.len());
        } else if j == 4 {
            assert(t[4].0 == "Africa/Cairo"@);
            assert("Africa/Cairo"@.len() != "Africa/Kampala"@.len());
        } else if j == 5 {
            assert(t[5].0 == "Africa/Johannesburg"@);
            assert("Africa/Johannesburg"@.len() != "Africa/Kampala"@.len());
        } else if j == 6 {
            assert(t[6].0 == "Africa/Addis_Ababa"@);
            assert("Africa/Addis_Ababa"@.len() != "Africa/Kampala"@.len());
        } else if j == 7 {
            assert(t[7].0 == "Africa/Kigali"@);
            assert("Africa/Kigali"@.len() != "Africa/Kampala"@.len());
        } else if j == 8 {
            assert(t[8].0 == "Africa/Dar_es_Salaam"@);
            assert("Africa/Dar_es_Salaam"@.len() != "Africa/Kampala"@.len());
        }
    }
    assert(t[9].0 == "Africa/Kampala"@ && t[9].1 == 180);
    lemma_first_entry(t, "Africa/Kampala"@, 9);
}

/// The offsets of the European zones, in minutes east of UTC: Europe/London +0h, Europe/Paris
/// +1h, Europe/Berlin +1h, Europe/Rome +1h, Europe/Madrid +1h, Europe/Amsterdam +1h,
/// Europe/Stockholm +1h, Europe/Oslo +1h, Europe/Zurich +1h.
pub proof fn law_offsets_europe()
    ensures
        utc_offset_minutes("Europe/London"@) == 0,
        utc_offset_minutes("Europe/Paris"@) == 60,
        utc_offset_minutes("Europe/Berlin"@) == 60,
        utc_offset_minutes("Europe/Rome"@) == 60,
        utc_offset_minutes("Europe/Madrid"@) == 60,
        utc_offset_minutes("Europe/Amsterdam"@) == 60,
        utc_offset_minutes("Europe/Stockholm"@) == 60,
        utc_offset_minutes("Europe/Oslo"@) == 60,
        utc_offset_minutes("Europe/Zurich"@) == 60,
{
    reveal_strlit("UTC");
    reveal_strlit("GMT");
    reveal_strlit("Africa/Nairobi");
    reveal_strlit("Africa/Lagos");
    reveal_strlit("Africa/Cairo");
    reveal_strlit("Africa/Johannesburg");
    reveal_strlit("Africa/Addis_Ababa");
    reveal_strlit("Africa/Kigali");
    reveal_strlit("Africa/Dar_es_Salaam");
    reveal_strlit("Africa/Kampala");
    reveal_strlit("Europe/London");
    reveal_strlit("Europe/Paris");
    reveal_strlit("Europe/Berlin");
    reveal_strlit("Europe/Rome");
    reveal_strlit("Europe/Madrid");
    reveal_strlit("Europe/Amsterdam");
    reveal_strlit("Europe/Stockholm");
    reveal_strlit("Europe/Oslo");
    reveal_strlit("Europe/Zurich");
    let t = tz_table();
    assert forall|j: int| 0 <= j < 10 implies t[j].0 != "Europe/London"@ by {
        if j == 0 {
            assert(t[0].0 == "UTC"@);
            assert("UTC"@.len() != "Europe/London"@.len());
        } else if j == 1 {
            assert(t[1].0 == "GMT"@);
            assert("GMT"@.len() != "Europe/London"@.len());
        } else if j == 2 {
            assert(t[2].0 == "Africa/Nairobi"@);
            assert("Africa/Nairobi"@.len() != "Europe/London"@.len());
        } else if j == 3 {
            assert(t[3].0 == "Africa/Lagos"@);
            assert("Africa/Lagos"@.len() != "Europe/London"@.len());
        } else if j == 4 {
            assert(t[4].0 == "Africa/Cairo"@);
            assert("Africa/Cairo"@.len() != "Europe/London"@.len());
        } else if j == 5 {
            assert(t[5].0 == "Africa/Johannesburg"@);
            assert("Africa/Johannesburg"@.len() != "Europe/London"@.len());
        } else if j == 6 {
            assert(t[6].0 == "Africa/Addis_Ababa"@);
            assert("Africa/Addis_Ababa"@.len() != "Europe/London"@.len());
        } else if j == 7 {
            assert(t[7].0 == "Africa/Kigali"@);
            assert("Africa/Kigali"@[0] != "Europe/London"@[0]);
        } else if j == 8 {
            assert(t[8].0 == "Africa/Dar_es_Salaam"@);
            assert("Africa/Dar_es_Salaam"@.len() != "Europe/London"@.len());
        } else if j == 9 {
            assert(t[9].0 == "Africa/Kampala"@);
            assert("Africa/Kampala"@.len() != "Europe/London"@.len());
        }
    }
    assert(t[10].0 == "Europe/London"@ && t[10].1 == 0);
    lemma_first_entry(t, "Europe/London"@, 10);
    assert forall|j: int| 0 <= j < 11 implies t[j].0 != "Europe/Paris"@ by {
        if j == 0 {
            assert(t[0].0 == "UTC"@);
            assert("UTC"@.len() != "Europe/Paris"@.len());
        } else if j == 1 {
            assert(t[1].0 == "GMT"@);
            assert("GMT"@.len() != "Europe/Paris"@.len());
        } else if j == 2 {
            assert(t[2].0 == "Africa/Nairobi"@);
            assert("Africa/Nairobi"@.len() != "Europe/Paris"@.len());
        } else if j == 3 {
            assert(t[3].0 == "Africa/Lagos"@);
            assert("Africa/Lagos"@[0] != "Europe/Paris"@[0]);
        } else if j == 4 {
            assert(t[4].0 == "Africa/Cairo"@);
            assert("Africa/Cairo"@[0] != "Europe/Paris"@[0]);
        } else if j == 5 {
            assert(t[5].0 == "Africa/Johannesburg"@);
            assert("Africa/Johannesburg"@.len() != "Europe/Paris"@.len());
        } else if j == 6 {
            assert(t[6].0 == "Africa/Addis_Ababa"@);
            assert("Africa/Addis_Ababa"@.len() != "Europe/Paris"@.len());
        } else if j == 7 {
            assert(t[7].0 == "Africa/Kigali"@);
            assert("Africa/Kigali"@.len() != "Europe/Paris"@.len());
        } else if j == 8 {
            assert(t[8].0 == "Africa/Dar_es_Salaam"@);
            assert("Africa/Dar_es_Salaam"@.len() != "Europe/Paris"@.len());
        } else if j == 9 {
            assert(t[9].0 == "Africa/Kampala"@);
            assert("Africa/Kampala"@.len() != "Europe/Paris"@.len());
        } else if j == 10 {
            assert(t[10].0 == "Europe/London"@);
            assert("Europe/London"@.len() != "Europe/Paris"@.len());
        }
    }
    assert(t[11].0 == "Europe/Paris"@ && t[11].1 == 60);
    lemma_first_entry(t, "Europe/Paris"@, 11);
    assert forall|j: int| 0 <= j < 12 implies t[j].0 != "Europe/Berlin"@ by {
        if j == 0 {
            assert(t[0].0 == "UTC"@);
            assert("UTC"@.len() != "Europe/Berlin"@.len());
        } else if j == 1 {
            assert(t[1].0 == "GMT"@);
            assert("GMT"@.len() != "Europe/Berlin"@.len());
        } else if j == 2 {
            assert(t[2].0 == "Africa/Nairobi"@);
            assert("Africa/Nairobi"@.len() != "Europe/Berlin"@.len());
        } else if j == 3 {
            assert(t[3].0 == "Africa/Lagos"@);
            assert("Africa/Lagos"@.len() != "Europe/Berlin"@.len());
        } else if j == 4 {
            assert(t[4].0 == "Africa/Cairo"@);
            assert("Africa/Cairo"@.len() != "Europe/Berlin"@.len());
        } else if j == 5 {
            assert(t[5].0 == "Africa/Johannesburg"@);
            assert("Africa/Johannesburg"@.len() != "Europe/Berlin"@.len());
        } else if j == 6 {
            assert(t[6].0 == "Africa/Addis_Ababa"@);
            assert("Africa/Addis_Ababa"@.len() != "Europe/Berlin"@.len());
        } else if j == 7 {
            assert(t[7].0 == "Africa/Kigali"@);
            assert("Africa/Kigali"@[0] != "Europe/Berlin"@[0]);
        } else if j == 8 {
            assert(t[8].0 == "Africa/Dar_es_Salaam"@);
            assert("Africa/Dar_es_Salaam"@.len() != "Europe/Berlin"@.len());
        } else if j == 9 {
            assert(t[9].0 == "Africa/Kampala"@);
            assert("Africa/Kampala"@.len() != "Europe/Berlin"@.len());
        } else if j == 10 {
            assert(t[10].0 == "Europe/London"@);
            assert("Europe/London"@[7] != "Europe/Berlin"@[7]);
        } else if j == 11 {
            assert(t[11].0 == "Europe/Paris"@);
            assert("Europe/Paris"@.len() != "Europe/Berlin"@.len());
        }
    }
    assert(t[12].0 == "Europe/Berlin"@ && t[12].1 == 60);
    lemma_first_entry(t, "Europe/Berlin"@, 12);
    assert forall|j: int| 0 <= j < 13 implies t[j].0 != "Europe/Rome"@ by {
        if j == 0 {
            assert(t[0].0 == "UTC"@);
            assert("UTC"@.len() != "Europe/Rome"@.len());
        } else if j == 1 {
            assert(t[1].0 == "GMT"@);
            assert("GMT"@.len() != "Europe/Rome"@.len());
        } else if j == 2 {
            assert(t[2].0 == "Africa/Nairobi"@);
            assert("Africa/Nairobi"@.len() != "Europe/Rome"@.len());
        } else if j == 3 {
            assert(t[3].0 == "Africa/Lagos"@);
            assert("Africa/Lagos"@.len() != "Europe/Rome"@.len());
        } else if j == 4 {
            assert(t[4].0 == "Africa/Cairo"@);
            assert("Africa/Cairo"@.len() != "Europe/Rome"@.len());
        } else if j == 5 {
            assert(t[5].0 == "Africa/Johannesburg"@);
            assert("Africa/Johannesburg"@.len() != "Europe/Rome"@.len());
        } else if j == 6 {
            assert(t[6].0 == "Africa/Addis_Ababa"@);
            assert("Africa/Addis_Ababa"@.len() != "Europe/Rome"@.len());
        } else if j == 7 {
            assert(t[7].0 == "Africa/Kigali"@);
            assert("Africa/Kigali"@.len() != "Europe/Rome"@.len());
        } else if j == 8 {
            assert(t[8].0 == "Africa/Dar_es_Salaam"@);
            assert("Africa/Dar_es_Salaam"@.len() != "Europe/Rome"@.len());
        } else if j == 9 {
            assert(t[9].0 == "Africa/Kampala"@);
            assert("Africa/Kampala"@.len() != "Europe/Rome"@.len());
        } else if j == 10 {
            assert(t[10].0 == "Europe/London"@);
            assert("Europe/London"@.len() != "Europe/Rome"@.len());
        } else if j == 11 {
            assert(t[11].0 == "Europe/Paris"@);
            assert("Europe/Paris"@.len() != "Europe/Rome"@.len());
        } else if j == 12 {
            assert(t[12].0 == "Europe/Berlin"@);
            assert("Europe/Berlin"@.len() != "Europe/Rome"@.len());
        }
    }
    assert(t[13].0 == "Europe/Rome"@ && t[13].1 == 60);
    lemma_first_entry(t, "Europe/Rome"@, 13);
    assert forall|j: int| 0 <= j < 14 implies t[j].0 != "Europe/Madrid"@ by {
        if j == 0 {
            assert(t[0].0 == "UTC"@);
            assert("UTC"@.len() != "Europe/Madrid"@.len());
        } else if j == 1 {
            assert(t[1].0 == "GMT"@);
            assert("GMT"@.len() != "Europe/Madrid"@.len());
        } else if j == 2 {
            assert(t[2].0 == "Africa/Nairobi"@);
            assert("Africa/Nairobi"@.len() != "Europe/Madrid"@.len());
        } else if j == 3 {
            assert(t[3].0 == "Africa/Lagos"@);
            assert("Africa/Lagos"@.len() != "Europe/Madrid"@.len());
        } else if j == 4 {
            assert(t[4].0 == "Africa/Cairo"@);
            assert("Africa/Cairo"@.len() != "Europe/Madrid"@.len());
        } else if j == 5 {
            assert(t[5].0 == "Africa/Johannesburg"@);
            assert("Africa/Johannesburg"@.len() != "Europe/Madrid"@.len());
        } else if j == 6 {
            assert(t[6].0 == "Africa/Addis_Ababa"@);
            assert("Africa/Addis_Ababa"@.len() != "Europe/Madrid"@.len());
        } else if j == 7 {
            assert(t[7].0 == "Africa/Kigali"@);
            assert("Africa/Kigali"@[0] != "Europe/Madrid"@[0]);
        } else if j == 8 {
            assert(t[8].0 == "Africa/Dar_es_Salaam"@);
            assert("Africa/Dar_es_Salaam"@.len() != "Europe/Madrid"@.len());
        } else if j == 9 {
            assert(t[9].0 == "Africa/Kampala"@);
            assert("Africa/Kampala"@.len() != "Europe/Madrid"@.len());
        } else if j == 10 {
            assert(t[10].0 == "Europe/London"@);
            assert("Europe/London"@[7] != "Europe/Madrid"@[7]);
        } else if j == 11 {
            assert(t[11].0 == "Europe/Paris"@);
            assert("Europe/Paris"@.len() != "Europe/Madrid"@.len());
        } else if j == 12 {
            assert(t[12].0 == "Europe/Berlin"@);
            assert("Europe/Berlin"@[7] != "Europe/Madrid"@[7]);
        } else if j == 13 {
            assert(t[13].0 == "Europe/Rome"@);
            assert("Europe/Rome"@.len() != "Europe/Madrid"@.len());
        }
    }
    assert(t[14].0 == "Europe/Madrid"@ && t[14].1 == 60);
    lemma_first_entry(t, "Europe/Madrid"@, 14);
    assert forall|j: int| 0 <= j < 15 implies t[j].0 != "Europe/Amsterdam"@ by {
        if j == 0 {
            assert(t[0].0 == "UTC"@);
            assert("UTC"@.len() != "Europe/Amsterdam"@.len());
        } else if j == 1 {
            assert(t[1].0 == "GMT"@);
            assert("GMT"@.len() != "Europe/Amsterdam"@.len());
        } else if j == 2 {
            assert(t[2].0 == "Africa/Nairobi"@);
            assert("Africa/Nairobi"@.len() != "Europe/Amsterdam"@.len());
        } else if j == 3 {
            assert(t[3].0 == "Africa/Lagos"@);
            assert("Africa/Lagos"@.len() != "Europe/Amsterdam"@.len());
        } else if j == 4 {
            assert(t[4].0 == "Africa/Cairo"@);
            assert("Africa/Cairo"@.len() != "Europe/Amsterdam"@.len());
        } else if j == 5 {
            assert(t[5].0 == "Africa/Johannesburg"@);
            assert("Africa/Johannesburg"@.len() != "Europe/Amsterdam"@.len());
        } else if j == 6 {
            assert(t[6].0 == "Africa/Addis_Ababa"@);
            assert("Africa/Addis_Ababa"@.len() != "Europe/Amsterdam"@.len());
        } else if j == 7 {
            assert(t[7].0 == "Africa/Kigali"@);
            assert("Africa/Kigali"@.len() != "Europe/Amsterdam"@.len());
        } else if j == 8 {
            assert(t[8].0 == "Africa/Dar_es_Salaam"@);
            assert("Africa/Dar_es_Salaam"@.len() != "Europe/Amsterdam"@.len());
        } else if j == 9 {
            assert(t[9].0 == "Africa/Kampala"@);
            assert("Africa/Kampala"@.len() != "Europe/Amsterdam"@.len());
        } else if j == 10 {
            assert(t[10].0 == "Europe/London"@);
            assert("Europe/London"@.len() != "Europe/Amsterdam"@.len());
        } else if j == 11 {
            assert(t[11].0 == "Europe/Paris"@);
            assert("Europe/Paris"@.len() != "Europe/Amsterdam"@.len());
        } else if j == 12 {
            assert(t[12].0 == "Europe/Berlin"@);
            assert("Europe/Berlin"@.len() != "Europe/Amsterdam"@.len());
        } else if j == 13 {
            assert(t[13].0 == "Europe/Rome"@);
            assert("Europe/Rome"@.len() != "Europe/Amsterdam"@.len());
        } else if j == 14 {
            assert(t[14].0 == "Europe/Madrid"@);
            assert("Europe/Madrid"@.len() != "Europe/Amsterdam"@.len());
        }
    }
    assert(t[15].0 == "Europe/Amsterdam"@ && t[15].1 == 60);
    lemma_first_entry(t, "Europe/Amsterdam"@, 15);
    assert forall|j: int| 0 <= j < 16 implies t[j].0 != "Europe/Stockholm"@ by {
        if j == 0 {
            assert(t[0].0 == "UTC"@);
            assert("UTC"@.len() != "Europe/Stockholm"@.len());
        } else if j == 1 {
            assert(t[1].0 == "GMT"@);
            assert("GMT"@.len() != "Europe/Stockholm"@.len());
        } else if j == 2 {
            assert(t[2].0 == "Africa/Nairobi"@);
            assert("Africa/Nairobi"@.len() != "Europe/Stockholm"@.len());
        } else if j == 3 {
            assert(t[3].0 == "Africa/Lagos"@);
            assert("Africa/Lagos"@.len() != "Europe/Stockholm"@.len());
        } else if j == 4 {
            assert(t[4].0 == "Africa/Cairo"@);
            assert("Africa/Cairo"@.len() != "Europe/Stockholm"@.len());
        } else if j == 5 {
            assert(t[5].0 == "Africa/Johannesburg"@);
            assert("Africa/Johannesburg"@.len() != "Europe/Stockholm"@.len());
        } else if j == 6 {
            assert(t[6].0 == "Africa/Addis_Ababa"@);
            assert("Africa/Addis_Ababa"@.len() != "Europe/Stockholm"@.len());
        } else if j == 7 {
            assert(t[7].0 == "Africa/Kigali"@);
            assert("Africa/Kigali"@.len() != "Europe/Stockholm"@.len());
        } else if j == 8 {
            assert(t[8].0 == "Africa/Dar_es_Salaam"@);
            assert("Africa/Dar_es_Salaam"@.len() != "Europe/Stockholm"@.len());
        } else if j == 9 {
            assert(t[9].0 == "Africa/Kampala"@);
            assert("Africa/Kampala"@.len() != "Europe/Stockholm"@.len());
        } else if j == 10 {
            assert(t[10].0 == "Europe/London"@);
            assert("Europe/London"@.len() != "Europe/Stockholm"@.len());
        } else if j == 11 {
            assert(t[11].0 == "Europe/Paris"@);
            assert("Europe/Paris"@.len() != "Europe/Stockholm"@.len());
        } else if j == 12 {
            assert(t[12].0 == "Europe/Berlin"@);
            assert("Europe/Berlin"@.len() != "Europe/Stockholm"@.len());
        } else if j == 13 {
            assert(t[13].0 == "Europe/Rome"@);
            assert("Europe/Rome"@.len() != "Europe/Stockholm"@.len());
        } else if j == 14 {
            assert(t[14].0 == "Europe/Madrid"@);
            assert("Europe/Madrid"@.len() != "Europe/Stockholm"@.len());
        } else if j == 15 {
            assert(t[15].0 == "Europe/Amsterdam"@);
            assert("Europe/Amsterdam"@[7] != "Europe/Stockholm"@[7]);
        }
    }
    assert(t[16].0 == "Europe/Stockholm"@ && t[16].1 == 60);
    lemma_first_entry(t, "Europe/Stockholm"@, 16);
    assert forall|j: int| 0 <= j < 17 implies t[j].0 != "Europe/Oslo"@ by {
        if j == 0 {
            assert(t[0].0 == "UTC"@);
            assert("UTC"@.len() != "Europe/Oslo"@.len());
        } else if j == 1 {
            assert(t[1].0 == "GMT"@);
            assert("GMT"@.len() != "Europe/Oslo"@.len());
        } else if j == 2 {
            assert(t[2].0 == "Africa/Nairobi"@);
            assert("Africa/Nairobi"@.len() != "Europe/Oslo"@.len());
        } else if j == 3 {
            assert(t[3].0 == "Africa/Lagos"@);
            assert("Africa/Lagos"@.len() != "Europe/Oslo"@.len());
        } else if j == 4 {
            assert(t[4].0 == "Africa/Cairo"@);
            assert("Africa/Cairo"@.len() != "Europe/Oslo"@.len());
        } else if j == 5 {
            assert(t[5].0 == "Africa/Johannesburg"@);
            assert("Africa/Johannesburg"@.len() != "Europe/Oslo"@.len());
        } else if j == 6 {
            assert(t[6].0 == "Africa/Addis_Ababa"@);
            assert("Africa/Addis_Ababa"@.len() != "Europe/Oslo"@.len());
        } else if j == 7 {
            assert(t[7].0 == "Africa/Kigali"@);
            assert("Africa/Kigali"@.len() != "Europe/Oslo"@.len());
        } else if j == 8 {
            assert(t[8].0 == "Africa/Dar_es_Salaam"@);
            assert("Africa/Dar_es_Salaam"@.len() != "Europe/Oslo"@.len());
        } else if j == 9 {
            assert(t[9].0 == "Africa/Kampala"@);
            assert("Africa/Kampala"@.len() != "Europe/Oslo"@.len());
        } else if j == 10 {
            assert(t[10].0 == "Europe/London"@);
            assert("Europe/London"@.len() != "Europe/Oslo"@.len());
        } else if j == 11 {
            assert(t[11].0 == "Europe/Paris"@);
            assert("Europe/Paris"@.len() != "Europe/Oslo"@.len());
        } else if j == 12 {
            assert(t[12].0 == "Europe/Berlin"@);
            assert("Europe/Berlin"@.len() != "Europe/Oslo"@.len());
        } else if j == 13 {
            assert(t[13].0 == "Europe/Rome"@);
            assert("Europe/Rome"@[7] != "Europe/Oslo"@[7]);
        } else if j == 14 {
            assert(t[14].0 == "Europe/Madrid"@);
            assert("Europe/Madrid"@.len() != "Europe/Oslo"@.len());
        } else if j == 15 {
            assert(t[15].0 == "Europe/Amsterdam"@);
            assert("Europe/Amsterdam"@.len() != "Europe/Oslo"@.len());
        } else if j == 16 {
            assert(t[16].0 == "Europe/Stockholm"@);
            assert("Europe/Stockholm"@.len() != "Europe/Oslo"@.len());
        }
    }
    assert(t[17].0 == "Europe/Oslo"@ && t[17].1 == 60);
    lemma_first_entry(t, "Europe/Oslo"@, 17);
    assert forall|j: int| 0 <= j < 18 implies t[j].0 != "Europe/Zurich"@ by {
        if j == 0 {
            assert(t[0].0 == "UTC"@);
            assert("UTC"@.len() != "Europe/Zurich"@.len());
        } else if j == 1 {
            assert(t[1].0 == "GMT"@);
            assert("GMT"@.len() != "Europe/Zurich"@.len());
        } else if j == 2 {
            assert(t[2].0 == "Africa/Nairobi"@);
            assert("Africa/Nairobi"@.len() != "Europe/Zurich"@.len());
        } else if j == 3 {
            assert(t[3].0 == "Africa/Lagos"@);
            assert("Africa/Lagos"@.len() != "Europe/Zurich"@.len());
        } else if j == 4 {
            assert(t[4].0 == "Africa/Cairo"@);
            assert("Africa/Cairo"@.len() != "Europe/Zurich"@.len());
        } else if j == 5 {
            assert(t[5].0 == "Africa/Johannesburg"@);
            assert("Africa/Johannesburg"@.len() != "Europe/Zurich"@.len());
        } else if j == 6 {
            assert(t[6].0 == "Africa/Addis_Ababa"@);
            assert("Africa/Addis_Ababa"@.len() != "Europe/Zurich"@.len());
        } else if j == 7 {
            assert(t[7].0 == "Africa/Kigali"@);
            assert("Africa/Kigali"@[0] != "Europe/Zurich"@[0]);
        } else if j == 8 {
            assert(t[8].0 == "Africa/Dar_es_Salaam"@);
            assert("Africa/Dar_es_Salaam"@.len() != "Europe/Zurich"@.len());
        } else if j == 9 {
            assert(t[9].0 == "Africa/Kampala"@);
            assert("Africa/Kampala"@.len() != "Europe/Zurich"@.len());
        } else if j == 10 {
            assert(t[10].0 == "Europe/London"@);
            assert("Europe/London"@[7] != "Europe/Zurich"@[7]);
        } else if j == 11 {
            assert(t[11].0 == "Europe/Paris"@);
            assert("Europe/Paris"@.len() != "Europe/Zurich"@.len());
        } else if j == 12 {
            assert(t[12].0 == "Europe/Berlin"@);
            assert("Europe/Berlin"@[7] != "Europe/Zurich"@[7]);
        } else if j == 13 {
            assert(t[13].0 == "Europe/Rome"@);
            assert("Europe/Rome"@.len() != "Europe/Zurich"@.len());
        } else if j == 14 {
            assert(t[14].0 == "Europe/Madrid"@);
            assert("Europe/Madrid"@[7] != "Europe/Zurich"@[7]);
        } else if j == 15 {
            assert(t[15].0 == "Europe/Amsterdam"@);
            assert("Europe/Amsterdam"@.len() != "Europe/Zurich"@.len());
        } else if j == 16 {
            assert(t[16].0 == "Europe/Stockholm"@);
            assert("Europe/Stockholm"@.len() != "Europe/Zurich"@.len());
        } else if j == 17 {
            assert(t[17].0 == "Europe/Oslo"@);
            assert("Europe/Oslo"@.len() != "Europe/Zurich"@.len());
        }
    }
    assert(t[18].0 == "Europe/Zurich"@ && t[18].1 == 60);
    lemma_first_entry(t, "Europe/Zurich"@, 18);
}

/// The offsets of the zones of the Americas, in minutes east of UTC: America/New_York -5h,
/// America/Chicago -6h, America/Denver -7h, America/Los_Angeles -8h, America/Toronto -5h,
/// America/Sao_Paulo -3h.
pub proof fn law_offsets_americas()
    ensures
        utc_offset_minutes("America/New_York"@) == -300,
        utc_offset_minutes("America/Chicago"@) == -360,
        utc_offset_minutes("America/Denver"@) == -420,
        utc_offset_minutes("America/Los_Angeles"@) == -480,
        utc_offset_minutes("America/Toronto"@) == -300,
        utc_offset_minutes("America/Sao_Paulo"@) == -180,
{
    reveal_strlit("UTC");
    reveal_strlit("GMT");
    reveal_strlit("Africa/Nairobi");
    reveal_strlit("Africa/Lagos");
    reveal_strlit("Africa/Cairo");
    reveal_strlit("Africa/Johannesburg");
    reveal_strlit("Africa/Addis_Ababa");
    reveal_strlit("Africa/Kigali");
    reveal_strlit("Africa/Dar_es_Salaam");
    reveal_strlit("Africa/Kampala");
    reveal_strlit("Europe/London");
    reveal_strlit("Europe/Paris");
    reveal_strlit("Europe/Berlin");
    reveal_strlit("Europe/Rome");
    reveal_strlit("Europe/Madrid");
    reveal_strlit("Europe/Amsterdam");
    reveal_strlit("Europe/Stockholm");
    reveal_strlit("Europe/Oslo");
    reveal_strlit("Europe/Zurich");
    reveal_strlit("America/New_York");
    reveal_strlit("America/Chicago");
    reveal_strlit("America/Denver");
    reveal_strlit("America/Los_Angeles");
    reveal_strlit("America/Toronto");
    reveal_strlit("America/Sao_Paulo");
    let t = tz_table();
    assert forall|j: int| 0 <= j < 19 implies t[j].0 != "America/New_York"@ by {
        if j == 0 {
            assert(t[0].0 == "UTC"@);
            assert("UTC"@.len() != "America/New_York"@.len());
        } else if j == 1 {
            assert(t[1].0 == "GMT"@);
            assert("GMT"@.len() != "America/New_York"@.len());
        } else if j == 2 {
            assert(t[2].0 == "Africa/Nairobi"@);
            assert("Africa/Nairobi"@.len() != "America/New_York"@.len());
        } else if j == 3 {
            assert(t[3].0 == "Africa/Lagos"@);
            assert("Africa/Lagos"@.len() != "America/New_York"@.len());
        } else if j == 4 {
            assert(t[4].0 == "Africa/Cairo"@);
            assert("Africa/Cairo"@.len() != "America/New_York"@.len());
        } else if j == 5 {
            assert(t[5].0 == "Africa/Johannesburg"@);
            assert("Africa/Johannesburg"@.len() != "America/New_York"@.len());
        } else if j == 6 {
            assert(t[6].0 == "Africa/Addis_Ababa"@);
            assert("Africa/Addis_Ababa"@.len() != "America/New_York"@.len());
        } else if j == 7 {
            assert(t[7].0 == "Africa/Kigali"@);
            assert("Africa/Kigali"@.len() != "America/New_York"@.len());
        } else if j == 8 {
            assert(t[8].0 == "Africa/Dar_es_Salaam"@);
            assert("Africa/Dar_es_Salaam"@.len() != "America/New_York"@.len());
        } else if j == 9 {
            assert(t[9].0 == "Africa/Kampala"@);
            assert("Africa/Kampala"@.len() != "America/New_York"@.len());
        } else if j == 10 {
            assert(t[10].0 == "Europe/London"@);
            assert("Europe/London"@.len() != "America/New_York"@.len());
        } else if j == 11 {
            assert(t[11].0 == "Europe/Paris"@);
            assert("Europe/Paris"@.len() != "America/New_York"@.len());
        } else if j == 12 {
            assert(t[12].0 == "Europe/Berlin"@);
            assert("Europe/Berlin"@.len() != "America/New_York"@.len());
        } else if j == 13 {
            assert(t[13].0 == "Europe/Rome"@);
            assert("Europe/Rome"@.len() != "America/New_York"@.len());
        } else if j == 14 {
            assert(t[14].0 == "Europe/Madrid"@);
            assert("Europe/Madrid"@.len() != "America/New_York"@.len());
        } else if j == 15 {
            assert(t[15].0 == "Europe/Amsterdam"@);
            assert("Europe/Amsterdam"@[0] != "America/New_York"@[0]);
        } else if j == 16 {
            assert(t[16].0 == "Europe/Stockholm"@);
            assert("Europe/Stockholm"@[0] != "America/New_York"@[0]);
        } else if j == 17 {
            assert(t[17].0 == "Europe/Oslo"@);
            assert("Europe/Oslo"@.len() != "America/New_York"@.len());
        } else if j == 18 {
            assert(t[18].0 == "Europe/Zurich"@);
            assert("Europe/Zurich"@.len() != "America/New_York"@.len());
        }
    }
    assert(t[19].0 == "America/New_York"@ && t[19].1 == -300);
    lemma_first_entry(t, "America/New_York"@, 19);
    assert forall|j: int| 0 <= j < 20 implies t[j].0 != "America/Chicago"@ by {
        if j == 0 {
            assert(t[0].0 == "UTC"@);
            assert("UTC"@.len() != "America/Chicago"@.len());
        } else if j == 1 {
            assert(t[1].0 == "GMT"@);
            assert("GMT"@.len() != "America/Chicago"@.len());
        } else if j == 2 {
            assert(t[2].0 == "Africa/Nairobi"@);
            assert("Africa/Nairobi"@.len() != "America/Chicago"@.len());
        } else if j == 3 {
            assert(t[3].0 == "Africa/Lagos"@);
            assert("Africa/Lagos"@.len() != "America/Chicago"@.len());
        } else if j == 4 {
            assert(t[4].0 == "Africa/Cairo"@);
            assert("Africa/Cairo"@.len() != "America/Chicago"@.len());
        } else if j == 5 {
            assert(t[5].0 == "Africa/Johannesburg"@);
            assert("Africa/Johannesburg"@.len() != "America/Chicago"@.len());
        } else if j == 6 {
            assert(t[6].0 == "Africa/Addis_Ababa"@);
            assert("Africa/Addis_Ababa"@.len() != "America/Chicago"@.len());
        } else if j == 7 {
            assert(t[7].0 == "Africa/Kigali"@);
            assert("Africa/Kigali"@.len() != "America/Chicago"@.len());
        } else if j == 8 {
            assert(t[8].0 == "Africa/Dar_es_Salaam"@);
            assert("Africa/Dar_es_Salaam"@.len() != "America/Chicago"@.len());
        } else if j == 9 {
            assert(t[9].0 == "Africa/Kampala"@);
            assert("Africa/Kampala"@.len() != "America/Chicago"@.len());
        } else if j == 10 {
            assert(t[10].0 == "Europe/London"@);
            assert("Europe/London"@.len() != "America/Chicago"@.len());
        } else if j == 11 {
            assert(t[11].0 == "Europe/Paris"@);
            assert("Europe/Paris"@.len() != "America/Chicago"@.len());
        } else if j == 12 {
            assert(t[12].0 == "Europe/Berlin"@);
            assert("Europe/Berlin"@.len() != "America/Chicago"@.len());
        } else if j == 13 {
            assert(t[13].0 == "Europe/Rome"@);
            assert("Europe/Rome"@.len() != "America/Chicago"@.len());
        } else if j == 14 {
            assert(t[14].0 == "Europe/Madrid"@);
            assert("Europe/Madrid"@.len() != "America/Chicago"@.len());
        } else if j == 15 {
            assert(t[15].0 == "Europe/Amsterdam"@);
            assert("Europe/Amsterdam"@.len() != "America/Chicago"@.len());
        } else if j == 16 {
            assert(t[16].0 == "Europe/Stockholm"@);
            assert("Europe/Stockholm"@.len() != "America/Chicago"@.len());
        } else if j == 17 {
            assert(t[17].0 == "Europe/Oslo"@);
            assert("Europe/Oslo"@.len() != "America/Chicago"@.len());
        } else if j == 18 {
            assert(t[18].0 == "Europe/Zurich"@);
            assert("Europe/Zurich"@.len() != "America/Chicago"@.len());
        } else if j == 19 {
            assert(t[19].0 == "America/New_York"@);
            assert("America/New_York"@.len() != "America/Chicago"@.len());
        }
    }
    assert(t[20].0 == "America/Chicago"@ && t[20].1 == -360);
    lemma_first_entry(t, "America/Chicago"@, 20);
    assert forall|j: int| 0 <= j < 21 implies t[j].0 != "America/Denver"@ by {
        if j == 0 {
            assert(t[0].0 == "UTC"@);
            assert("UTC"@.len() != "America/Denver"@.len());
        } else if j == 1 {
            assert(t[1].0 == "GMT"@);
            assert("GMT"@.len() != "America/Denver"@.len());
        } else if j == 2 {
            assert(t[2].0 == "Africa/Nairobi"@);
            assert("Africa/Nairobi"@[1] != "America/Denver"@[1]);
        } else if j == 3 {
            assert(t[3].0 == "Africa/Lagos"@);
            assert("Africa/Lagos"@.len() != "America/Denver"@.len());
        } else if j == 4 {
            assert(t[4].0 == "Africa/Cairo"@);
            assert("Africa/Cairo"@.len() != "America/Denver"@.len());
        } else if j == 5 {
            assert(t[5].0 == "Africa/Johannesburg"@);
            assert("Africa/Johannesburg"@.len() != "America/Denver"@.len());
        } else if j == 6 {
            assert(t[6].0 == "Africa/Addis_Ababa"@);
            assert("Africa/Addis_Ababa"@.len() != "America/Denver"@.len());
        } else if j == 7 {
            assert(t[7].0 == "Africa/Kigali"@);
            assert("Africa/Kigali"@.len() != "America/Denver"@.len());
        } else if j == 8 {
            assert(t[8].0 == "Africa/Dar_es_Salaam"@);
            assert("Africa/Dar_es_Salaam"@.len() != "America/Denver"@.len());
        } else if j == 9 {
            assert(t[9].0 == "Africa/Kampala"@);
            assert("Africa/Kampala"@[1] != "America/Denver"@[1]);
        } else if j == 10 {
            assert(t[10].0 == "Europe/London"@);
            assert("Europe/London"@.len() != "America/Denver"@.len());
        } else if j == 11 {
            assert(t[11].0 == "Europe/Paris"@);
            assert("Europe/Paris"@.len() != "America/Denver"@.len());
        } else if j == 12 {
            assert(t[12].0 == "Europe/Berlin"@);
            assert("Europe/Berlin"@.len() != "America/Denver"@.len());
        } else if j == 13 {
            assert(t[13].0 == "Europe/Rome"@);
            assert("Europe/Rome"@.len() != "America/Denver"@.len());
        } else if j == 14 {
            assert(t[14].0 == "Europe/Madrid"@);
            assert("Europe/Madrid"@.len() != "America/Denver"@.len());
        } else if j == 15 {
            assert(t[15].0 == "Europe/Amsterdam"@);
            assert("Europe/Amsterdam"@.len() != "America/Denver"@.len());
        } else if j == 16 {
            assert(t[16].0 == "Europe/Stockholm"@);
            assert("Europe/Stockholm"@.len() != "America/Denver"@.len());
        } else if j == 17 {
            assert(t[17].0 == "Europe/Oslo"@);
            assert("Europe/Oslo"@.len() != "America/Denver"@.len());
        } else if j == 18 {
            assert(t[18].0 == "Europe/Zurich"@);
            assert("Europe/Zurich"@.len() != "America/Denver"@.len());
        } else if j == 19 {
            assert(t[19].0 == "America/New_York"@);
            assert("America/New_York"@.len() != "America/Denver"@.len());
        } else if j == 20 {
            assert(t[20].0 == "America/Chicago"@);
            assert("America/Chicago"@.len() != "America/Denver"@.len());
        }
    }
    assert(t[21].0 == "America/Denver"@ && t[21].1 == -420);
    lemma_first_entry(t, "America/Denver"@, 21);
    assert forall|j: int| 0 <= j < 22 implies t[j].0 != "America/Los_Angeles"@ by {
        if j == 0 {
            assert(t[0].0 == "UTC"@);
            assert("UTC"@.len() != "America/Los_Angeles"@.len());
        } else if j == 1 {
            assert(t[1].0 == "GMT"@);
            assert("GMT"@.len() != "America/Los_Angeles"@.len());
        } else if j == 2 {
            assert(t[2].0 == "Africa/Nairobi"@);
            assert("Africa/Nairobi"@.len() != "America/Los_Angeles"@.len());
        } else if j == 3 {
            assert(t[3].0 == "Africa/Lagos"@);
            assert("Africa/Lagos"@.len() != "America/Los_Angeles"@.len());
        } else if j == 4 {
            assert(t[4].0 == "Africa/Cairo"@);
            assert("Africa/Cairo"@.len() != "America/Los_Angeles"@.len());
        } else if j == 5 {
            assert(t[5].0 == "Africa/Johannesburg"@);
            assert("Africa/Johannesburg"@[1] != "America/Los_Angeles"@[1]);
        } else if j == 6 {
            assert(t[6].0 == "Africa/Addis_Ababa"@);
            assert("Africa/Addis_Ababa"@.len() != "America/Los_Angeles"@.len());
        } else if j == 7 {
            assert(t[7].0 == "Africa/Kigali"@);
            assert("Africa/Kigali"@.len() != "America/Los_Angeles"@.len());
        } else if j == 8 {
            assert(t[8].0 == "Africa/Dar_es_Salaam"@);
            assert("Africa/Dar_es_Salaam"@.len() != "America/Los_Angeles"@.len());
        } else if j == 9 {
            assert(t[9].0 == "Africa/Kampala"@);
            assert("Africa/Kampala"@.len() != "America/Los_Angeles"@.len());
        } else if j == 10 {
            assert(t[10].0 == "Europe/London"@);
            assert("Europe/London"@.len() != "America/Los_Angeles"@.len());
        } else if j == 11 {
            assert(t[11].0 == "Europe/Paris"@);
            assert("Europe/Paris"@.len() != "America/Los_Angeles"@.len());
        } else if j == 12 {
            assert(t[12].0 == "Europe/Berlin"@);
            assert("Europe/Berlin"@.len() != "America/Los_Angeles"@.len());
        } else if j == 13 {
            assert(t[13].0 == "Europe/Rome"@);
            assert("Europe/Rome"@.len() != "America/Los_Angeles"@.len());
        } else if j == 14 {
            assert(t[14].0 == "Europe/Madrid"@);
            assert("Europe/Madrid"@.len() != "America/Los_Angeles"@.len());
        } else if j == 15 {
            assert(t[15].0 == "Europe/Amsterdam"@);
            assert("Europe/Amsterdam"@.len() != "America/Los_Angeles"@.len());
        } else if j == 16 {
            assert(t[16].0 == "Europe/Stockholm"@);
            assert("Europe/Stockholm"@.len() != "America/Los_Angeles"@.len());
        } else if j == 17 {
            assert(t[17].0 == "Europe/Oslo"@);
            assert("Europe/Oslo"@.len() != "America/Los_Angeles"@.len());
        } else if j == 18 {
            assert(t[18].0 == "Europe/Zurich"@);
            assert("Europe/Zurich"@.len() != "America/Los_Angeles"@.len());
        } else if j == 19 {
            assert(t[19].0 == "America/New_York"@);
            assert("America/New_York"@.len() != "America/Los_Angeles"@.len());
        } else if j == 20 {
            assert(t[20].0 == "America/Chicago"@);
            assert("America/Chicago"@.len() != "America/Los_Angeles"@.len());
        } else if j == 21 {
            assert(t[21].0 == "America/Denver"@);
            assert("America/Denver"@.len() != "America/Los_Angeles"@.len());
        }
    }
    assert(t[22].0 == "America/Los_Angeles"@ && t[22].1 == -480);
    lemma_first_entry(t, "America/Los_Angeles"@, 22);
    assert forall|j: int| 0 <= j < 23 implies t[j].0 != "America/Toronto"@ by {
        if j == 0 {
            assert(t[0].0 == "UTC"@);
            assert("UTC"@.len() != "America/Toronto"@.len());
        } else if j == 1 {
            assert(t[1].0 == "GMT"@);
            assert("GMT"@.len() != "America/Toronto"@.len());
        } else if j == 2 {
            assert(t[2].0 == "Africa/Nairobi"@);
            assert("Africa/Nairobi"@.len() != "America/Toronto"@.len());
        } else if j == 3 {
            assert(t[3].0 == "Africa/Lagos"@);
            assert("Africa/Lagos"@.len() != "America/Toronto"@.len());
        } else if j == 4 {
            assert(t[4].0 == "Africa/Cairo"@);
            assert("Africa/Cairo"@.len() != "America/Toronto"@.len());
        } else if j == 5 {
            assert(t[5].0 == "Africa/Johannesburg"@);
            assert("Africa/Johannesburg"@.len() != "America/Toronto"@.len());
        } else if j == 6 {
            assert(t[6].0 == "Africa/Addis_Ababa"@);
            assert("Africa/Addis_Ababa"@.len() != "America/Toronto"@.len());
        } else if j == 7 {
            assert(t[7].0 == "Africa/Kigali"@);
            assert("Africa/Kigali"@.len() != "America/Toronto"@.len());
        } else if j == 8 {
            assert(t[8].0 == "Africa/Dar_es_Salaam"@);
            assert("Africa/Dar_es_Salaam"@.len() != "America/Toronto"@.len());
        } else if j == 9 {
            assert(t[9].0 == "Africa/Kampala"@);
            assert("Africa/Kampala"@.len() != "America/Toronto"@.len());
        } else if j == 10 {
            assert(t[10].0 == "Europe/London"@);
            assert("Europe/London"@.len() != "America/Toronto"@.len());
        } else if j == 11 {
            assert(t[11].0 == "Europe/Paris"@);
            assert("Europe/Paris"@.len() != "America/Toronto"@.len());
        } else if j == 12 {
            assert(t[12].0 == "Europe/Berlin"@);
            assert("Europe/Berlin"@.len() != "America/Toronto"@.len());
        } else if j == 13 {
            assert(t[13].0 == "Europe/Rome"@);
            assert("Europe/Rome"@.len() != "America/Toronto"@.len());
        } else if j == 14 {
            assert(t[14].0 == "Europe/Madrid"@);
            assert("Europe/Madrid"@.len() != "America/Toronto"@.len());
        } else if j == 15 {
            assert(t[15].0 == "Europe/Amsterdam"@);
            assert("Europe/Amsterdam"@.len() != "America/Toronto"@.len());
        } else if j == 16 {
            assert(t[16].0 == "Europe/Stockholm"@);
            assert("Europe/Stockholm"@.len() != "America/Toronto"@.len());
        } else if j == 17 {
            assert(t[17].0 == "Europe/Oslo"@);
            assert("Europe/Oslo"@.len() != "America/Toronto"@.len());
        } else if j == 18 {
            assert(t[18].0 == "Europe/Zurich"@);
            assert("Europe/Zurich"@.len() != "America/Toronto"@.len());
        } else if j == 19 {
            assert(t[19].0 == "America/New_York"@);
            assert("America/New_York"@.len() != "America/Toronto"@.len());
        } else if j == 20 {
            assert(t[20].0 == "America/Chicago"@);
            assert("America/Chicago"@[8] != "America/Toronto"@[8]);
        } else if j == 21 {
            assert(t[21].0 == "America/Denver"@);
            assert("America/Denver"@.len() != "America/Toronto"@.len());
        } else if j == 22 {
            assert(t[22].0 == "America/Los_Angeles"@);
            assert("America/Los_Angeles"@.len() != "America/Toronto"@.len());
        }
    }
    assert(t[23].0 == "America/Toronto"@ && t[23].1 == -300);
    lemma_first_entry(t, "America/Toronto"@, 23);
    assert forall|j: int| 0 <= j < 24 implies t[j].0 != "America/Sao_Paulo"@ by {
        if j == 0 {
            assert(t[0].0 == "UTC"@);
            assert("UTC"@.len() != "America/Sao_Paulo"@.len());
        } else if j == 1 {
            assert(t[1].0 == "GMT"@);
            assert("GMT"@.len() != "America/Sao_Paulo"@.len());
        } else if j == 2 {
            assert(t[2].0 == "Africa/Nairobi"@);
            assert("Africa/Nairobi"@.len() != "America/Sao_Paulo"@.len());
        } else if j == 3 {
            assert(t[3].0 == "Africa/Lagos"@);
            assert("Africa/Lagos"@.len() != "America/Sao_Paulo"@.len());
        } else if j == 4 {
            assert(t[4].0 == "Africa/Cairo"@);
            assert("Africa/Cairo"@.len() != "America/Sao_Paulo"@.len());
        } else if j == 5 {
            assert(t[5].0 == "Africa/Johannesburg"@);
            assert("Africa/Johannesburg"@.len() != "America/Sao_Paulo"@.len());
        } else if j == 6 {
            assert(t[6].0 == "Africa/Addis_Ababa"@);
            assert("Africa/Addis_Ababa"@.len() != "America/Sao_Paulo"@.len());
        } else if j == 7 {
            assert(t[7].0 == "Africa/Kigali"@);
            assert("Africa/Kigali"@.len() != "America/Sao_Paulo"@.len());
        } else if j == 8 {
            assert(t[8].0 == "Africa/Dar_es_Salaam"@);
            assert("Africa/Dar_es_Salaam"@.len() != "America/Sao_Paulo"@.len());
        } else if j == 9 {
            assert(t[9].0 == "Africa/Kampala"@);
            assert("Africa/Kampala"@.len() != "America/Sao_Paulo"@.len());
        } else if j == 10 {
            assert(t[10].0 == "Europe/London"@);
            assert("Europe/London"@.len() != "America/Sao_Paulo"@.len());
        } else if j == 11 {
            assert(t[11].0 == "Europe/Paris"@);
            assert("Europe/Paris"@.len() != "America/Sao_Paulo"@.len());
        } else if j == 12 {
            assert(t[12].0 == "Europe/Berlin"@);
            assert("Europe/Berlin"@.len() != "America/Sao_Paulo"@.len());
        } else if j == 13 {
            assert(t[13].0 == "Europe/Rome"@);
            assert("Europe/Rome"@.len() != "America/Sao_Paulo"@.len());
        } else if j == 14 {
            assert(t[14].0 == "Europe/Madrid"@);
            assert("Europe/Madrid"@.len() != "America/Sao_Paulo"@.len());
        } else if j == 15 {
            assert(t[15].0 == "Europe/Amsterdam"@);
            assert("Europe/Amsterdam"@.len() != "America/Sao_Paulo"@.len());
        } else if j == 16 {
            assert(t[16].0 == "Europe/Stockholm"@);
            assert("Europe/Stockholm"@.len() != "America/Sao_Paulo"@.len());
        } else if j == 17 {
            assert(t[17].0 == "Europe/Oslo"@);
            assert("Europe/Oslo"@.len() != "America/Sao_Paulo"@.len());
        } else if j == 18 {
            assert(t[18].0 == "Europe/Zurich"@);
            assert("Europe/Zurich"@.len() != "America/Sao_Paulo"@.len());
        } else if j == 19 {
            assert(t[19].0 == "America/New_York"@);
            assert("America/New_York"@.len() != "America/Sao_Paulo"@.len());
        } else if j == 20 {
            assert(t[20].0 == "America/Chicago"@);
            assert("America/Chicago"@.len() != "America/Sao_Paulo"@.len());
        } else if j == 21 {
            assert(t[21].0 == "America/Denver"@);
            assert("America/Denver"@.len() != "America/Sao_Paulo"@.len());
        } else if j == 22 {
            assert(t[22].0 == "America/Los_Angeles"@);
            assert("America/Los_Angeles"@.len() != "America/Sao_Paulo"@.len());
        } else if j == 23 {
            assert(t[23].0 == "America/Toronto"@);
            assert("America/Toronto"@.len() != "America/Sao_Paulo"@.len());
        }
    }
    assert(t[24].0 == "America/Sao_Paulo"@ && t[24].1 == -180);
    lemma_first_entry(t, "America/Sao_Paulo"@, 24);
}

/// The offsets of the zones of Asia and the Pacific, in minutes east of UTC: Asia/Dubai +4h,
/// Asia/Riyadh +3h, Asia/Kolkata +5.5h, Asia/Mumbai +5.5h, Asia/Shanghai +8h, Asia/Tokyo +9h,
/// Asia/Singapore +8h, Asia/Hong_Kong +8h, Asia/Seoul +9h, Asia/Bangkok +7h, Asia/Jakarta
/// +7h, Asia/Manila +8h, Asia/Ho_Chi_Minh +7h, Asia/Kuala_Lumpur +8h, Australia/Sydney +11h,
/// Australia/Melbourne +11h, Pacific/Auckland +12h.
pub proof fn law_offsets_asia_pacific()
    ensures
        utc_offset_minutes("Asia/Dubai"@) == 240,
        utc_offset_minutes("Asia/Riyadh"@) == 180,
        utc_offset_minutes("Asia/Kolkata"@) == 330,
        utc_offset_minutes("Asia/Mumbai"@) == 330,
        utc_offset_minutes("Asia/Shanghai"@) == 480,
        utc_offset_minutes("Asia/Tokyo"@) == 540,
        utc_offset_minutes("Asia/Singapore"@) == 480,
        utc_offset_minutes("Asia/Hong_Kong"@) == 480,
        utc_offset_minutes("Asia/Seoul"@) == 540,
        utc_offset_minutes("Asia/Bangkok"@) == 420,
        utc_offset_minutes("Asia/Jakarta"@) == 420,
        utc_offset_minutes("Asia/Manila"@) == 480,
        utc_offset_minutes("Asia/Ho_Chi_Minh"@) == 420,
        utc_offset_minutes("Asia/Kuala_Lumpur"@) == 480,
        utc_offset_minutes("Australia/Sydney"@) == 660,
        utc_offset_minutes("Australia/Melbourne"@) == 660,
        utc_offset_minutes("Pacific/Auckland"@) == 720,
{
    reveal_strlit("UTC");
    reveal_strlit("GMT");
    reveal_strlit("Africa/Nairobi");
    reveal_strlit("Africa/Lagos");
    reveal_strlit("Africa/Cairo");
    reveal_strlit("Africa/Johannesburg");
    reveal_strlit("Africa/Addis_Ababa");
    reveal_strlit("Africa/Kigali");
    reveal_strlit("Africa/Dar_es_Salaam");
    reveal_strlit("Africa/Kampala");
    reveal_strlit("Europe/London");
    reveal_strlit("Europe/Paris");
    reveal_strlit("Europe/Berlin");
    reveal_strlit("Europe/Rome");
    reveal_strlit("Europe/Madrid");
    reveal_strlit("Europe/Amsterdam");
    reveal_strlit("Europe/Stockholm");
    reveal_strlit("Europe/Oslo");
    reveal_strlit("Europe/Zurich");
    reveal_strlit("America/New_York");
    reveal_strlit("America/Chicago");
    reveal_strlit("America/Denver");
    reveal_strlit("America/Los_Angeles");
    reveal_strlit("America/Toronto");
    reveal_strlit("America/Sao_Paulo");
    reveal_strlit("Asia/Dubai");
    reveal_strlit("Asia/Riyadh");
    reveal_strlit("Asia/Kolkata");
    reveal_strlit("Asia/Mumbai");
    reveal_strlit("Asia/Shanghai");
    reveal_strlit("Asia/Tokyo");
    reveal_strlit("Asia/Singapore");
    reveal_strlit("Asia/Hong_Kong");
    reveal_strlit("Asia/Seoul");
    reveal_strlit("Asia/Bangkok");
    reveal_strlit("Asia/Jakarta");
    reveal_strlit("Asia/Manila");
    reveal_strlit("Asia/Ho_Chi_Minh");
    reveal_strlit("Asia/Kuala_Lumpur");
    reveal_strlit("Australia/Sydney");
    reveal_strlit("Australia/Melbourne");
    reveal_strlit("Pacific/Auckland");
    let t = tz_table();
    assert forall|j: int| 0 <= j < 25 implies t[j].0 != "Asia/Dubai"@ by {
        if j == 0 {
            assert(t[0].0 == "UTC"@);
            assert("UTC"@.len() != "Asia/Dubai"@.len());
        } else if j == 1 {
            assert(t[1].0 == "GMT"@);
            assert("GMT"@.len() != "Asia/Dubai"@.len());
        } else if j == 2 {
            assert(t[2].0 == "Africa/Nairobi"@);
            assert("Africa/Nairobi"@.len() != "Asia/Dubai"@.len());
        } else if j == 3 {
            assert(t[3].0 == "Africa/Lagos"@);
            assert("Africa/Lagos"@.len() != "Asia/Dubai"@.len());
        } else if j == 4 {
            assert(t[4].0 == "Africa/Cairo"@);
            assert("Africa/Cairo"@.len() != "Asia/Dubai"@.len());
        } else if j == 5 {
            assert(t[5].0 == "Africa/Johannesburg"@);
            assert("Africa/Johannesburg"@.len() != "Asia/Dubai"@.len());
        } else if j == 6 {
            assert(t[6].0 == "Africa/Addis_Ababa"@);
            assert("Africa/Addis_Ababa"@.len() != "Asia/Dubai"@.len());
        } else if j == 7 {
            assert(t[7].0 == "Africa/Kigali"@);
            assert("Africa/Kigali"@.len() != "Asia/Dubai"@.len());
        } else if j == 8 {
            assert(t[8].0 == "Africa/Dar_es_Salaam"@);
            assert("Africa/Dar_es_Salaam"@.len() != "Asia/Dubai"@.len());
        } else if j == 9 {
            assert(t[9].0 == "Africa/Kampala"@);
            assert("Africa/Kampala"@.len() != "Asia/Dubai"@.len());
        } else if j == 10 {
            assert(t[10].0 == "Europe/London"@);
            assert("Europe/London"@.len() != "Asia/Dubai"@.len());
        } else if j == 11 {
            assert(t[11].0 == "Europe/Paris"@);
            assert("Europe/Paris"@.len() != "Asia/Dubai"@.len());
        } else if j == 12 {
            assert(t[12].0 == "Europe/Berlin"@);
            assert("Europe/Berlin"@.len() != "Asia/Dubai"@.len());
        } else if j == 13 {
            assert(t[13].0 == "Europe/Rome"@);
            assert("Europe/Rome"@.len() != "Asia/Dubai"@.len());
        } else if j == 14 {
            assert(t[14].0 == "Europe/Madrid"@);
            assert("Europe/Madrid"@.len() != "Asia/Dubai"@.len());
        } else if j == 15 {
            assert(t[15].0 == "Europe/Amsterdam"@);
            assert("Europe/Amsterdam"@.len() != "Asia/Dubai"@.len());
        } else if j == 16 {
            assert(t[16].0 == "Europe/Stockholm"@);
            assert("Europe/Stockholm"@.len() != "Asia/Dubai"@.len());
        } else if j == 17 {
            assert(t[17].0 == "Europe/Oslo"@);
            assert("Europe/Oslo"@.len() != "Asia/Dubai"@.len());
        } else if j == 18 {
            assert(t[18].0 == "Europe/Zurich"@);
            assert("Europe/Zurich"@.len() != "Asia/Dubai"@.len());
        } else if j == 19 {
            assert(t[19].0 == "America/New_York"@);
            assert("America/New_York"@.len() != "Asia/Dubai"@.len());
        } else if j == 20 {
            assert(t[20].0 == "America/Chicago"@);
            assert("America/Chicago"@.len() != "Asia/Dubai"@.len());
        } else if j == 21 {
            assert(t[21].0 == "America/Denver"@);
            assert("America/Denver"@.len() != "Asia/Dubai"@.len());
        } else if j == 22 {
            assert(t[22].0 == "America/Los_Angeles"@);
            assert("America/Los_Angeles"@.len() != "Asia/Dubai"@.len());
        } else if j == 23 {
            assert(t[23].0 == "America/Toronto"@);
            assert("America/Toronto"@.len() != "Asia/Dubai"@.len());
        } else if j == 24 {
            assert(t[24].0 == "America/Sao_Paulo"@);
            assert("America/Sao_Paulo"@.len() != "Asia/Dubai"@.len());
        }
    }
    assert(t[25].0 == "Asia/Dubai"@ && t[25].1 == 240);
    lemma_first_entry(t, "Asia/Dubai"@, 25);
    assert forall|j: int| 0 <= j < 26 implies t[j].0 != "Asia/Riyadh"@ by {
        if j == 0 {
            assert(t[0].0 == "UTC"@);
            assert("UTC"@.len() != "Asia/Riyadh"@.len());
        } else if j == 1 {
            assert(t[1].0 == "GMT"@);
            assert("GMT"@.len() != "Asia/Riyadh"@.len());
        } else if j == 2 {
            assert(t[2].0 == "Africa/Nairobi"@);
            assert("Africa/Nairobi"@.len() != "Asia/Riyadh"@.len());
        } else if j == 3 {
            assert(t[3].0 == "Africa/Lagos"@);
            assert("Africa/Lagos"@.len() != "Asia/Riyadh"@.len());
        } else if j == 4 {
            assert(t[4].0 == "Africa/Cairo"@);
            assert("Africa/Cairo"@.len() != "Asia/Riyadh"@.len());
        } else if j == 5 {
            assert(t[5].0 == "Africa/Johannesburg"@);
            assert("Africa/Johannesburg"@.len() != "Asia/Riyadh"@.len());
        } else if j == 6 {
            assert(t[6].0 == "Africa/Addis_Ababa"@);
            assert("Africa/Addis_Ababa"@.len() != "Asia/Riyadh"@.len());
        } else if j == 7 {
            assert(t[7].0 == "Africa/Kigali"@);
            assert("Africa/Kigali"@.len() != "Asia/Riyadh"@.len());
        } else if j == 8 {
            assert(t[8].0 == "Africa/Dar_es_Salaam"@);
            assert("Africa/Dar_es_Salaam"@.len() != "Asia/Riyadh"@.len());
        } else if j == 9 {
            assert(t[9].0 == "Africa/Kampala"@);
            assert("Africa/Kampala"@.len() != "Asia/Riyadh"@.len());
        } else if j == 10 {
            assert(t[10].0 == "Europe/London"@);
            assert("Europe/London"@.len() != "Asia/Riyadh"@.len());
        } else if j == 11 {
            assert(t[11].0 == "Europe/Paris"@);
            assert("Europe/Paris"@.len() != "Asia/Riyadh"@.len());
        } else if j == 12 {
            assert(t[12].0 == "Europe/Berlin"@);
            assert("Europe/Berlin"@.len() != "Asia/Riyadh"@.len());
        } else if j == 13 {
            assert(t[13].0 == "Europe/Rome"@);
            assert("Europe/Rome"@[0] != "Asia/Riyadh"@[0]);
        } else if j == 14 {
            assert(t[14].0 == "Europe/Madrid"@);
            assert("Europe/Madrid"@.len() != "Asia/Riyadh"@.len());
        } else if j == 15 {
            assert(t[15].0 == "Europe/Amsterdam"@);
            assert("Europe/Amsterdam"@.len() != "Asia/Riyadh"@.len());
        } else if j == 16 {
            assert(t[16].0 == "Europe/Stockholm"@);
            assert("Europe/Stockholm"@.len() != "Asia/Riyadh"@.len());
        } else if j == 17 {
            assert(t[17].0 == "Europe/Oslo"@);
            assert("Europe/Oslo"@[0] != "Asia/Riyadh"@[0]);
        } else if j == 18 {
            assert(t[18].0 == "Europe/Zurich"@);
            assert("Europe/Zurich"@.len() != "Asia/Riyadh"@.len());
        } else if j == 19 {
            assert(t[19].0 == "America/New_York"@);
            assert("America/New_York"@.len() != "Asia/Riyadh"@.len());
        } else if j == 20 {
            assert(t[20].0 == "America/Chicago"@);
            assert("America/Chicago"@.len() != "Asia/Riyadh"@.len());
        } else if j == 21 {
            assert(t[21].0 == "America/Denver"@);
            assert("America/Denver"@.len() != "Asia/Riyadh"@.len());
        } else if j == 22 {
            assert(t[22].0 == "America/Los_Angeles"@);
            assert("America/Los_Angeles"@.len() != "Asia/Riyadh"@.len());
        } else if j == 23 {
            assert(t[23].0 == "America/Toronto"@);
            assert("America/Toronto"@.len() != "Asia/Riyadh"@.len());
        } else if j == 24 {
            assert(t[24].0 == "America/Sao_Paulo"@);
            assert("America/Sao_Paulo"@.len() != "Asia/Riyadh"@.len());
        } else if j == 25 {
            assert(t[25].0 == "Asia/Dubai"@);
            assert("Asia/Dubai"@.len() != "Asia/Riyadh"@.len());
        }
    }
    assert(t[26].0 == "Asia/Riyadh"@ && t[26].1 == 180);
    lemma_first_entry(t, "Asia/Riyadh"@, 26);
    assert forall|j: int| 0 <= j < 27 implies t[j].0 != "Asia/Kolkata"@ by {
        if j == 0 {
            assert(t[0].0 == "UTC"@);
            assert("UTC"@.len() != "Asia/Kolkata"@.len());
        } else if j == 1 {
            assert(t[1].0 == "GMT"@);
            assert("GMT"@.len() != "Asia/Kolkata"@.len());
        } else if j == 2 {
            assert(t[2].0 == "Africa/Nairobi"@);
            assert("Africa/Nairobi"@.len() != "Asia/Kolkata"@.len());
        } else if j == 3 {
            assert(t[3].0 == "Africa/Lagos"@);
            assert("Africa/Lagos"@[1] != "Asia/Kolkata"@[1]);
        } else if j == 4 {
            assert(t[4].0 == "Africa/Cairo"@);
            assert("Africa/Cairo"@[1] != "Asia/Kolkata"@[1]);
        } else if j == 5 {
            assert(t[5].0 == "Africa/Johannesburg"@);
            assert("Africa/Johannesburg"@.len() != "Asia/Kolkata"@.len());
        } else if j == 6 {
            assert(t[6].0 == "Africa/Addis_Ababa"@);
            assert("Africa/Addis_Ababa"@.len() != "Asia/Kolkata"@.len());
        } else if j == 7 {
            assert(t[7].0 == "Africa/Kigali"@);
            assert("Africa/Kigali"@.len() != "Asia/Kolkata"@.len());
        } else if j == 8 {
            assert(t[8].0 == "Africa/Dar_es_Salaam"@);
            assert("Africa/Dar_es_Salaam"@.len() != "Asia/Kolkata"@.len());
        } else if j == 9 {
            assert(t[9].0 == "Africa/Kampala"@);
            assert("Africa/Kampala"@.len() != "Asia/Kolkata"@.len());
        } else if j == 10 {
            assert(t[10].0 == "Europe/London"@);
            assert("Europe/London"@.len() != "Asia/Kolkata"@.len());
        } else if j == 11 {
            assert(t[11].0 == "Europe/Paris"@);
            assert("Europe/Paris"@[0] != "Asia/Kolkata"@[0]);
        } else if j == 12 {
            assert(t[12].0 == "Europe/Berlin"@);
            assert("Europe/Berlin"@.len() != "Asia/Kolkata"@.len());
        } else if j == 13 {
            assert(t[13].0 == "Europe/Rome"@);
            assert("Europe/Rome"@.len() != "Asia/Kolkata"@.len());
        } else if j == 14 {
            assert(t[14].0 == "Europe/Madrid"@);
            assert("Europe/Madrid"@.len() != "Asia/Kolkata"@.len());
        } else if j == 15 {
            assert(t[15].0 == "Europe/Amsterdam"@);
            assert("Europe/Amsterdam"@.len() != "Asia/Kolkata"@.len());
        } else if j == 16 {
            assert(t[16].0 == "Europe/Stockholm"@);
            assert("Europe/Stockholm"@.len() != "Asia/Kolkata"@.len());
        } else if j == 17 {
            assert(t[17].0 == "Europe/Oslo"@);
            assert("Europe/Oslo"@.len() != "Asia/Kolkata"@.len());
        } else if j == 18 {
            assert(t[18].0 == "Europe/Zurich"@);
            assert("Europe/Zurich"@.len() != "Asia/Kolkata"@.len());
        } else if j == 19 {
            assert(t[19].0 == "America/New_York"@);
            assert("America/New_York"@.len() != "Asia/Kolkata"@.len());
        } else if j == 20 {
            assert(t[20].0 == "America/Chicago"@);
            assert("America/Chicago"@.len() != "Asia/Kolkata"@.len());
        } else if j == 21 {
            assert(t[21].0 == "America/Denver"@);
            assert("America/Denver"@.len() != "Asia/Kolkata"@.len());
        } else if j == 22 {
            assert(t[22].0 == "America/Los_Angeles"@);
            assert("America/Los_Angeles"@.len() != "Asia/Kolkata"@.len());
        } else if j == 23 {
            assert(t[23].0 == "America/Toronto"@);
            assert("America/Toronto"@.len() != "Asia/Kolkata"@.len());
        } else if j == 24 {
            assert(t[24].0 == "America/Sao_Paulo"@);
            assert("America/Sao_Paulo"@.len() != "Asia/Kolkata"@.len());
        } else if j == 25 {
            assert(t[25].0 == "Asia/Dubai"@);
            assert("Asia/Dubai"@.len() != "Asia/Kolkata"@.len());
        } else if j == 26 {
            assert(t[26].0 == "Asia/Riyadh"@);
            assert("Asia/Riyadh"@.len() != "Asia/Kolkata"@.len());
        }
    }
    assert(t[27].0 == "Asia/Kolkata"@ && t[27].1 == 330);
    lemma_first_entry(t, "Asia/Kolkata"@, 27);
    assert forall|j: int| 0 <= j < 28 implies t[j].0 != "Asia/Mumbai"@ by {
        if j == 0 {
            assert(t[0].0 == "UTC"@);
            assert("UTC"@.len() != "Asia/Mumbai"@.len());
        } else if j == 1 {
            assert(t[1].0 == "GMT"@);
            assert("GMT"@.len() != "Asia/Mumbai"@.len());
        } else if j == 2 {
            assert(t[2].0 == "Africa/Nairobi"@);
            assert("Africa/Nairobi"@.len() != "Asia/Mumbai"@.len());
        } else if j == 3 {
            assert(t[3].0 == "Africa/Lagos"@);
            assert("Africa/Lagos"@.len() != "Asia/Mumbai"@.len());
        } else if j == 4 {
            assert(t[4].0 == "Africa/Cairo"@);
            assert("Africa/Cairo"@.len() != "Asia/Mumbai"@.len());
        } else if j == 5 {
            assert(t[5].0 == "Africa/Johannesburg"@);
            assert("Africa/Johannesburg"@.len() != "Asia/Mumbai"@.len());
        } else if j == 6 {
            assert(t[6].0 == "Africa/Addis_Ababa"@);
            assert("Africa/Addis_Ababa"@.len() != "Asia/Mumbai"@.len());
        } else if j == 7 {
            assert(t[7].0 == "Africa/Kigali"@);
            assert("Africa/Kigali"@.len() != "Asia/Mumbai"@.len());
        } else if j == 8 {
            assert(t[8].0 == "Africa/Dar_es_Salaam"@);
            assert("Africa/Dar_es_Salaam"@.len() != "Asia/Mumbai"@.len());
        } else if j == 9 {
            assert(t[9].0 == "Africa/Kampala"@);
            assert("Africa/Kampala"@.len() != "Asia/Mumbai"@.len());
        } else if j == 10 {
            assert(t[10].0 == "Europe/London"@);
            assert("Europe/London"@.len() != "Asia/Mumbai"@.len());
        } else if j == 11 {
            assert(t[11].0 == "Europe/Paris"@);
            assert("Europe/Paris"@.len() != "Asia/Mumbai"@.len());
        } else if j == 12 {
            assert(t[12].0 == "Europe/Berlin"@);
            assert("Europe/Berlin"@.len() != "Asia/Mumbai"@.len());
        } else if j == 13 {
            assert(t[13].0 == "Europe/Rome"@);
            assert("Europe/Rome"@[0] != "Asia/Mumbai"@[0]);
        } else if j == 14 {
            assert(t[14].0 == "Europe/Madrid"@);
            assert("Europe/Madrid"@.len() != "Asia/Mumbai"@.len());
        } else if j == 15 {
            assert(t[15].0 == "Europe/Amsterdam"@);
            assert("Europe/Amsterdam"@.len() != "Asia/Mumbai"@.len());
        } else if j == 16 {
            assert(t[16].0 == "Europe/Stockholm"@);
            assert("Europe/Stockholm"@.len() != "Asia/Mumbai"@.len());
        } else if j == 17 {
            assert(t[17].0 == "Europe/Oslo"@);
            assert("Europe/Oslo"@[0] != "Asia/Mumbai"@[0]);
        } else if j == 18 {
            assert(t[18].0 == "Europe/Zurich"@);
            assert("Europe/Zurich"@.len() != "Asia/Mumbai"@.len());
        } else if j == 19 {
            assert(t[19].0 == "America/New_York"@);
            assert("America/New_York"@.len() != "Asia/Mumbai"@.len());
        } else if j == 20 {
            assert(t[20].0 == "America/Chicago"@);
            assert("America/Chicago"@.len() != "Asia/Mumbai"@.len());
        } else if j == 21 {
            assert(t[21].0 == "America/Denver"@);
            assert("America/Denver"@.len() != "Asia/Mumbai"@.len());
        } else if j == 22 {
            assert(t[22].0 == "America/Los_Angeles"@);
            assert("America/Los_Angeles"@.len() != "Asia/Mumbai"@.len());
        } else if j == 23 {
            assert(t[23].0 == "America/Toronto"@);
            assert("America/Toronto"@.len() != "Asia/Mumbai"@.len());
        } else if j == 24 {
            assert(t[24].0 == "America/Sao_Paulo"@);
            assert("America/Sao_Paulo"@.len() != "Asia/Mumbai"@.len());
        } else if j == 25 {
            assert(t[25].0 == "Asia/Dubai"@);
            assert("Asia/Dubai"@.len() != "Asia/Mumbai"@.len());
        } else if j == 26 {
            assert(t[26].0 == "Asia/Riyadh"@);
            assert("Asia/Riyadh"@[5] != "Asia/Mumbai"@[5]);
        } else if j == 27 {
            assert(t[27].0 == "Asia/Kolkata"@);
            assert("Asia/Kolkata"@.len() != "Asia/Mumbai"@.len());
        }
    }
    assert(t[28].0 == "Asia/Mumbai"@ && t[28].1 == 330);
    lemma_first_entry(t, "Asia/Mumbai"@, 28);
    assert forall|j: int| 0 <= j < 29 implies t[j].0 != "Asia/Shanghai"@ by {
        if j == 0 {
            assert(t[0].0 == "UTC"@);
            assert("UTC"@.len() != "Asia/Shanghai"@.len());
        } else if j == 1 {
            assert(t[1].0 == "GMT"@);
            assert("GMT"@.len() != "Asia/Shanghai"@.len());
        } else if j == 2 {
            assert(t[2].0 == "Africa/Nairobi"@);
            assert("Africa/Nairobi"@.len() != "Asia/Shanghai"@.len());
        } else if j == 3 {
            assert(t[3].0 == "Africa/Lagos"@);
            assert("Africa/Lagos"@.len() != "Asia/Shanghai"@.len());
        } else if j == 4 {
            assert(t[4].0 == "Africa/Cairo"@);
            assert("Africa/Cairo"@.len() != "Asia/Shanghai"@.len());
        } else if j == 5 {
            assert(t[5].0 == "Africa/Johannesburg"@);
            assert("Africa/Johannesburg"@.len() != "Asia/Shanghai"@.len());
        } else if j == 6 {
            assert(t[6].0 == "Africa/Addis_Ababa"@);
            assert("Africa/Addis_Ababa"@.len() != "Asia/Shanghai"@.len());
        } else if j == 7 {
            assert(t[7].0 == "Africa/Kigali"@);
            assert("Africa/Kigali"@[1] != "Asia/Shanghai"@[1]);
        } else if j == 8 {
            assert(t[8].0 == "Africa/Dar_es_Salaam"@);
            assert("Africa/Dar_es_Salaam"@.len() != "Asia/Shanghai"@.len());
        } else if j == 9 {
            assert(t[9].0 == "Africa/Kampala"@);
            assert("Africa/Kampala"@.len() != "Asia/Shanghai"@.len());
        } else if j == 10 {
            assert(t[10].0 == "Europe/London"@);
            assert("Europe/London"@[0] != "Asia/Shanghai"@[0]);
        } else if j == 11 {
            assert(t[11].0 == "Europe/Paris"@);
            assert("Europe/Paris"@.len() != "Asia/Shanghai"@.len());
        } else if j == 12 {
            assert(t[12].0 == "Europe/Berlin"@);
            assert("Europe/Berlin"@[0] != "Asia/Shanghai"@[0]);
        } else if j == 13 {
            assert(t[13].0 == "Europe/Rome"@);
            assert("Europe/Rome"@.len() != "Asia/Shanghai"@.len());
        } else if j == 14 {
            assert(t[14].0 == "Europe/Madrid"@);
            assert("Europe/Madrid"@[0] != "Asia/Shanghai"@[0]);
        } else if j == 15 {
            assert(t[15].0 == "Europe/Amsterdam"@);
            assert("Europe/Amsterdam"@.len() != "Asia/Shanghai"@.len());
        } else if j == 16 {
            assert(t[16].0 == "Europe/Stockholm"@);
            assert("Europe/Stockholm"@.len() != "Asia/Shanghai"@.len());
        } else if j == 17 {
            assert(t[17].0 == "Europe/Oslo"@);
            assert("Europe/Oslo"@.len() != "Asia/Shanghai"@.len());
        } else if j == 18 {
            assert(t[18].0 == "Europe/Zurich"@);
            assert("Europe/Zurich"@[0] != "Asia/Shanghai"@[0]);
        } else if j == 19 {
            assert(t[19].0 == "America/New_York"@);
            assert("America/New_York"@.len() != "Asia/Shanghai"@.len());
        } else if j == 20 {
            assert(t[20].0 == "America/Chicago"@);
            assert("America/Chicago"@.len() != "Asia/Shanghai"@.len());
        } else if j == 21 {
            assert(t[21].0 == "America/Denver"@);
            assert("America/Denver"@.len() != "Asia/Shanghai"@.len());
        } else if j == 22 {
            assert(t[22].0 == "America/Los_Angeles"@);
            assert("America/Los_Angeles"@.len() != "Asia/Shanghai"@.len());
        } else if j == 23 {
            assert(t[23].0 == "America/Toronto"@);
            assert("America/Toronto"@.len() != "Asia/Shanghai"@.len());
        } else if j == 24 {
            assert(t[24].0 == "America/Sao_Paulo"@);
            assert("America/Sao_Paulo"@.len() != "Asia/Shanghai"@.len());
        } else if j == 25 {
            assert(t[25].0 == "Asia/Dubai"@);
            assert("Asia/Dubai"@.len() != "Asia/Shanghai"@.len());
        } else if j == 26 {
            assert(t[26].0 == "Asia/Riyadh"@);
            assert("Asia/Riyadh"@.len() != "Asia/Shanghai"@.len());
        } else if j == 27 {
            assert(t[27].0 == "Asia/Kolkata"@);
            assert("Asia/Kolkata"@.len() != "Asia/Shanghai"@.len());
        } else if j == 28 {
            assert(t[28].0 == "Asia/Mumbai"@);
            assert("Asia/Mumbai"@.len() != "Asia/Shanghai"@.len());
        }
    }
    assert(t[29].0 == "Asia/Shanghai"@ && t[29].1 == 480);
    lemma_first_entry(t, "Asia/Shanghai"@, 29);
    assert forall|j: int| 0 <= j < 30 implies t[j].0 != "Asia/Tokyo"@ by {
        if j == 0 {
            assert(t[0].0 == "UTC"@);
            assert("UTC"@.len() != "Asia/Tokyo"@.len());
        } else if j == 1 {
            assert(t[1].0 == "GMT"@);
            assert("GMT"@.len() != "Asia/Tokyo"@.len());
        } else if j == 2 {
            assert(t[2].0 == "Africa/Nairobi"@);
            assert("Africa/Nairobi"@.len() != "Asia/Tokyo"@.len());
        } else if j == 3 {
            assert(t[3].0 == "Africa/Lagos"@);
            assert("Africa/Lagos"@.len() != "Asia/Tokyo"@.len());
        } else if j == 4 {
            assert(t[4].0 == "Africa/Cairo"@);
            assert("Africa/Cairo"@.len() != "Asia/Tokyo"@.len());
        } else if j == 5 {
            assert(t[5].0 == "Africa/Johannesburg"@);
            assert("Africa/Johannesburg"@.len() != "Asia/Tokyo"@.len());
        } else if j == 6 {
            assert(t[6].0 == "Africa/Addis_Ababa"@);
            assert("Africa/Addis_Ababa"@.len() != "Asia/Tokyo"@.len());
        } else if j == 7 {
            assert(t[7].0 == "Africa/Kigali"@);
            assert("Africa/Kigali"@.len() != "Asia/Tokyo"@.len());
        } else if j == 8 {
            assert(t[8].0 == "Africa/Dar_es_Salaam"@);
            assert("Africa/Dar_es_Salaam"@.len() != "Asia/Tokyo"@.len());
        } else if j == 9 {
            assert(t[9].0 == "Africa/Kampala"@);
            assert("Africa/Kampala"@.len() != "Asia/Tokyo"@.len());
        } else if j == 10 {
            assert(t[10].0 == "Europe/London"@);
            assert("Europe/London"@.len() != "Asia/Tokyo"@.len());
        } else if j == 11 {
            assert(t[11].0 == "Europe/Paris"@);
            assert("Europe/Paris"@.len() != "Asia/Tokyo"@.len());
        } else if j == 12 {
            assert(t[12].0 == "Europe/Berlin"@);
            assert("Europe/Berlin"@.len() != "Asia/Tokyo"@.len());
        } else if j == 13 {
            assert(t[13].0 == "Europe/Rome"@);
            assert("Europe/Rome"@.len() != "Asia/Tokyo"@.len());
        } else if j == 14 {
            assert(t[14].0 == "Europe/Madrid"@);
            assert("Europe/Madrid"@.len() != "Asia/Tokyo"@.len());
        } else if j == 15 {
            assert(t[15].0 == "Europe/Amsterdam"@);
            assert("Europe/Amsterdam"@.len() != "Asia/Tokyo"@.len());
        } else if j == 16 {
            assert(t[16].0 == "Europe/Stockholm"@);
            assert("Europe/Stockholm"@.len() != "Asia/Tokyo"@.len());
        } else if j == 17 {
            assert(t[17].0 == "Europe/Oslo"@);
            assert("Europe/Oslo"@.len() != "Asia/Tokyo"@.len());
        } else if j == 18 {
            assert(t[18].0 == "Europe/Zurich"@);
            assert("Europe/Zurich"@.len() != "Asia/Tokyo"@.len());
        } else if j == 19 {
            assert(t[19].0 == "America/New_York"@);
            assert("America/New_York"@.len() != "Asia/Tokyo"@.len());
        } else if j == 20 {
            assert(t[20].0 == "America/Chicago"@);
            assert("America/Chicago"@.len() != "Asia/Tokyo"@.len());
        } else if j == 21 {
            assert(t[21].0 == "America/Denver"@);
            assert("America/Denver"@.len() != "Asia/Tokyo"@.len());
        } else if j == 22 {
            assert(t[22].0 == "America/Los_Angeles"@);
            assert("America/Los_Angeles"@.len() != "Asia/Tokyo"@.len());
        } else if j == 23 {
            assert(t[23].0 == "America/Toronto"@);
            assert("America/Toronto"@.len() != "Asia/Tokyo"@.len());
        } else if j == 24 {
            assert(t[24].0 == "America/Sao_Paulo"@);
            assert("America/Sao_Paulo"@.len() != "Asia/Tokyo"@.len());
        } else if j == 25 {
            assert(t[25].0 == "Asia/Dubai"@);
            assert("Asia/Dubai"@[5] != "Asia/Tokyo"@[5]);
        } else if j == 26 {
            assert(t[26].0 == "Asia/Riyadh"@);
            assert("Asia/Riyadh"@.len() != "Asia/Tokyo"@.len());
        } else if j == 27 {
            assert(t[27].0 == "Asia/Kolkata"@);
            assert("Asia/Kolkata"@.len() != "Asia/Tokyo"@.len());
        } else if j == 28 {
            assert(t[28].0 == "Asia/Mumbai"@);
            assert("Asia/Mumbai"@.len() != "Asia/Tokyo"@.len());
        } else if j == 29 {
            assert(t[29].0 == "Asia/Shanghai"@);
            assert("Asia/Shanghai"@.len() != "Asia/Tokyo"@.len());
        }
    }
    assert(t[30].0 == "Asia/Tokyo"@ && t[30].1 == 540);
    lemma_first_entry(t, "Asia/Tokyo"@, 30);
    assert forall|j: int| 0 <= j < 31 implies t[j].0 != "Asia/Singapore"@ by {
        if j == 0 {
            assert(t[0].0 == "UTC"@);
            assert("UTC"@.len() != "Asia/Singapore"@.len());
        } else if j == 1 {
            assert(t[1].0 == "GMT"@);
            assert("GMT"@.len() != "Asia/Singapore"@.len());
        } else if j == 2 {
            assert(t[2].0 == "Africa/Nairobi"@);
            assert("Africa/Nairobi"@[1] != "Asia/Singapore"@[1]);
        } else if j == 3 {
            assert(t[3].0 == "Africa/Lagos"@);
            assert("Africa/Lagos"@.len() != "Asia/Singapore"@.len());
        } else if j == 4 {
            assert(t[4].0 == "Africa/Cairo"@);
            assert("Africa/Cairo"@.len() != "Asia/Singapore"@.len());
        } else if j == 5 {
            assert(t[5].0 == "Africa/Johannesburg"@);
            assert("Africa/Johannesburg"@.len() != "Asia/Singapore"@.len());
        } else if j == 6 {
            assert(t[6].0 == "Africa/Addis_Ababa"@);
            assert("Africa/Addis_Ababa"@.len() != "Asia/Singapore"@.len());
        } else if j == 7 {
            assert(t[7].0 == "Africa/Kigali"@);
            assert("Africa/Kigali"@.len() != "Asia/Singapore"@.len());
        } else if j == 8 {
            assert(t[8].0 == "Africa/Dar_es_Salaam"@);
            assert("Africa/Dar_es_Salaam"@.len() != "Asia/Singapore"@.len());
        } else if j == 9 {
            assert(t[9].0 == "Africa/Kampala"@);
            assert("Africa/Kampala"@[1] != "Asia/Singapore"@[1]);
        } else if j == 10 {
            assert(t[10].0 == "Europe/London"@);
            assert("Europe/London"@.len() != "Asia/Singapore"@.len());
        } else if j == 11 {
            assert(t[11].0 == "Europe/Paris"@);
            assert("Europe/Paris"@.len() != "Asia/Singapore"@.len());
        } else if j == 12 {
            assert(t[12].0 == "Europe/Berlin"@);
            assert("Europe/Berlin"@.len() != "Asia/Singapore"@.len());
        } else if j == 13 {
            assert(t[13].0 == "Europe/Rome"@);
            assert("Europe/Rome"@.len() != "Asia/Singapore"@.len());
        } else if j == 14 {
            assert(t[14].0 == "Europe/Madrid"@);
            assert("Europe/Madrid"@.len() != "Asia/Singapore"@.len());
        } else if j == 15 {
            assert(t[15].0 == "Europe/Amsterdam"@);
            assert("Europe/Amsterdam"@.len() != "Asia/Singapore"@.len());
        } else if j == 16 {
            assert(t[16].0 == "Europe/Stockholm"@);
            assert("Europe/Stockholm"@.len() != "Asia/Singapore"@.len());
        } else if j == 17 {
            assert(t[17].0 == "Europe/Oslo"@);
            assert("Europe/Oslo"@.len() != "Asia/Singapore"@.len());
        } else if j == 18 {
            assert(t[18].0 == "Europe/Zurich"@);
            assert("Europe/Zurich"@.len() != "Asia/Singapore"@.len());
        } else if j == 19 {
            assert(t[19].0 == "America/New_York"@);
            assert("America/New_York"@.len() != "Asia/Singapore"@.len());
        } else if j == 20 {
            assert(t[20].0 == "America/Chicago"@);
            assert("America/Chicago"@.len() != "Asia/Singapore"@.len());
        } else if j == 21 {
            assert(t[21].0 == "America/Denver"@);
            assert("America/Denver"@[1] != "Asia/Singapore"@[1]);
        } else if j == 22 {
            assert(t[22].0 == "America/Los_Angeles"@);
            assert("America/Los_Angeles"@.len() != "Asia/Singapore"@.len());
        } else if j == 23 {
            assert(t[23].0 == "America/Toronto"@);
            assert("America/Toronto"@.len() != "Asia/Singapore"@.len());
        } else if j == 24 {
            assert(t[24].0 == "America/Sao_Paulo"@);
            assert("America/Sao_Paulo"@.len() != "Asia/Singapore"@.len());
        } else if j == 25 {
            assert(t[25].0 == "Asia/Dubai"@);
            assert("Asia/Dubai"@.len() != "Asia/Singapore"@.len());
        } else if j == 26 {
            assert(t[26].0 == "Asia/Riyadh"@);
            assert("Asia/Riyadh"@.len() != "Asia/Singapore"@.len());
        } else if j == 27 {
            assert(t[27].0 == "Asia/Kolkata"@);
            assert("Asia/Kolkata"@.len() != "Asia/Singapore"@.len());
        } else if j == 28 {
            assert(t[28].0 == "Asia/Mumbai"@);
            assert("Asia/Mumbai"@.len() != "Asia/Singapore"@.len());
        } else if j == 29 {
            assert(t[29].0 == "Asia/Shanghai"@);
            assert("Asia/Shanghai"@.len() != "Asia/Singapore"@.len());
        } else if j == 30 {
            assert(t[30].0 == "Asia/Tokyo"@);
            assert("Asia/Tokyo"@.len() != "Asia/Singapore"@.len());
        }
    }
    assert(t[31].0 == "Asia/Singapore"@ && t[31].1 == 480);
    lemma_first_entry(t, "Asia/Singapore"@, 31);
    assert forall|j: int| 0 <= j < 32 implies t[j].0 != "Asia/Hong_Kong"@ by {
        if j == 0 {
            assert(t[0].0 == "UTC"@);
            assert("UTC"@.len() != "Asia/Hong_Kong"@.len());
        } else if j == 1 {
            assert(t[1].0 == "GMT"@);
            assert("GMT"@.len() != "Asia/Hong_Kong"@.len());
        } else if j == 2 {
            assert(t[2].0 == "Africa/Nairobi"@);
            assert("Africa/Nairobi"@[1] != "Asia/Hong_Kong"@[1]);
        } else if j == 3 {
            assert(t[3].0 == "Africa/Lagos"@);
            assert("Africa/Lagos"@.len() != "Asia/Hong_Kong"@.len());
        } else if j == 4 {
            assert(t[4].0 == "Africa/Cairo"@);
            assert("Africa/Cairo"@.len() != "Asia/Hong_Kong"@.len());
        } else if j == 5 {
            assert(t[5].0 == "Africa/Johannesburg"@);
            assert("Africa/Johannesburg"@.len() != "Asia/Hong_Kong"@.len());
        } else if j == 6 {
            assert(t[6].0 == "Africa/Addis_Ababa"@);
            assert("Africa/Addis_Ababa"@.len() != "Asia/Hong_Kong"@.len());
        } else if j == 7 {
            assert(t[7].0 == "Africa/Kigali"@);
            assert("Africa/Kigali"@.len() != "Asia/Hong_Kong"@.len());
        } else if j == 8 {
            assert(t[8].0 == "Africa/Dar_es_Salaam"@);
            assert("Africa/Dar_es_Salaam"@.len() != "Asia/Hong_Kong"@.len());
        } else if j == 9 {
            assert(t[9].0 == "Africa/Kampala"@);
            assert("Africa/Kampala"@[1] != "Asia/Hong_Kong"@[1]);
        } else if j == 10 {
            assert(t[10].0 == "Europe/London"@);
            assert("Europe/London"@.len() != "Asia/Hong_Kong"@.len());
        } else if j == 11 {
            assert(t[11].0 == "Europe/Paris"@);
            assert("Europe/Paris"@.len() != "Asia/Hong_Kong"@.len());
        } else if j == 12 {
            assert(t[12].0 == "Europe/Berlin"@);
            assert("Europe/Berlin"@.len() != "Asia/Hong_Kong"@.len());
        } else if j == 13 {
            assert(t[13].0 == "Europe/Rome"@);
            assert("Europe/Rome"@.len() != "Asia/Hong_Kong"@.len());
        } else if j == 14 {
            assert(t[14].0 == "Europe/Madrid"@);
            assert("Europe/Madrid"@.len() != "Asia/Hong_Kong"@.len());
        } else if j == 15 {
            assert(t[15].0 == "Europe/Amsterdam"@);
            assert("Europe/Amsterdam"@.len() != "Asia/Hong_Kong"@.len());
        } else if j == 16 {
            assert(t[16].0 == "Europe/Stockholm"@);
            assert("Europe/Stockholm"@.len() != "Asia/Hong_Kong"@.len());
        } else if j == 17 {
            assert(t[17].0 == "Europe/Oslo"@);
            assert("Europe/Oslo"@.len() != "Asia/Hong_Kong"@.len());
        } else if j == 18 {
            assert(t[18].0 == "Europe/Zurich"@);
            assert("Europe/Zurich"@.len() != "Asia/Hong_Kong"@.len());
        } else if j == 19 {
            assert(t[19].0 == "America/New_York"@);
            assert("America/New_York"@.len() != "Asia/Hong_Kong"@.len());
        } else if j == 20 {
            assert(t[20].0 == "America/Chicago"@);
            assert("America/Chicago"@.len() != "Asia/Hong_Kong"@.len());
        } else if j == 21 {
            assert(t[21].0 == "America/Denver"@);
            assert("America/Denver"@[1] != "Asia/Hong_Kong"@[1]);
        } else if j == 22 {
            assert(t[22].0 == "America/Los_Angeles"@);
            assert("America/Los_Angeles"@.len() != "Asia/Hong_Kong"@.len());
        } else if j == 23 {
            assert(t[23].0 == "America/Toronto"@);
            assert("America/Toronto"@.len() != "Asia/Hong_Kong"@.len());
        } else if j == 24 {
            assert(t[24].0 == "America/Sao_Paulo"@);
            assert("America/Sao_Paulo"@.len() != "Asia/Hong_Kong"@.len());
        } else if j == 25 {
            assert(t[25].0 == "Asia/Dubai"@);
            assert("Asia/Dubai"@.len() != "Asia/Hong_Kong"@.len());
        } else if j == 26 {
            assert(t[26].0 == "Asia/Riyadh"@);
            assert("Asia/Riyadh"@.len() != "Asia/Hong_Kong"@.len());
        } else if j == 27 {
            assert(t[27].0 == "Asia/Kolkata"@);
            assert("Asia/Kolkata"@.len() != "Asia/Hong_Kong"@.len());
        } else if j == 28 {
            assert(t[28].0 == "Asia/Mumbai"@);
            assert("Asia/Mumbai"@.len() != "Asia/Hong_Kong"@.len());
        } else if j == 29 {
            assert(t[29].0 == "Asia/Shanghai"@);
            assert("Asia/Shanghai"@.len() != "Asia/Hong_Kong"@.len());
        } else if j == 30 {
            assert(t[30].0 == "Asia/Tokyo"@);
            assert("Asia/Tokyo"@.len() != "Asia/Hong_Kong"@.len());
        } else if j == 31 {
            assert(t[31].0 == "Asia/Singapore"@);
            assert("Asia/Singapore"@[5] != "Asia/Hong_Kong"@[5]);
        }
    }
    assert(t[32].0 == "Asia/Hong_Kong"@ && t[32].1 == 480);
    lemma_first_entry(t, "Asia/Hong_Kong"@, 32);
    assert forall|j: int| 0 <= j < 33 implies t[j].0 != "Asia/Seoul"@ by {
        if j == 0 {
            assert(t[0].0 == "UTC"@);
            assert("UTC"@.len() != "Asia/Seoul"@.len());
        } else if j == 1 {
            assert(t[1].0 == "GMT"@);
            assert("GMT"@.len() != "Asia/Seoul"@.len());
        } else if j == 2 {
            assert(t[2].0 == "Africa/Nairobi"@);
            assert("Africa/Nairobi"@.len() != "Asia/Seoul"@.len());
        } else if j == 3 {
            assert(t[3].0 == "Africa/Lagos"@);
            assert("Africa/Lagos"@.len() != "Asia/Seoul"@.len());
        } else if j == 4 {
            assert(t[4].0 == "Africa/Cairo"@);
            assert("Africa/Cairo"@.len() != "Asia/Seoul"@.len());
        } else if j == 5 {
            assert(t[5].0 == "Africa/Johannesburg"@);
            assert("Africa/Johannesburg"@.len() != "Asia/Seoul"@.len());
        } else if j == 6 {
            assert(t[6].0 == "Africa/Addis_Ababa"@);
            assert("Africa/Addis_Ababa"@.len() != "Asia/Seoul"@.len());
        } else if j == 7 {
            assert(t[7].0 == "Africa/Kigali"@);
            assert("Africa/Kigali"@.len() != "Asia/Seoul"@.len());
        } else if j == 8 {
            assert(t[8].0 == "Africa/Dar_es_Salaam"@);
            assert("Africa/Dar_es_Salaam"@.len() != "Asia/Seoul"@.len());
        } else if j == 9 {
            assert(t[9].0 == "Africa/Kampala"@);
            assert("Africa/Kampala"@.len() != "Asia/Seoul"@.len());
        } else if j == 10 {
            assert(t[10].0 == "Europe/London"@);
            assert("Europe/London"@.len() != "Asia/Seoul"@.len());
        } else if j == 11 {
            assert(t[11].0 == "Europe/Paris"@);
            assert("Europe/Paris"@.len() != "Asia/Seoul"@.len());
        } else if j == 12 {
            assert(t[12].0 == "Europe/Berlin"@);
            assert("Europe/Berlin"@.len() != "Asia/Seoul"@.len());
        } else if j == 13 {
            assert(t[13].0 == "Europe/Rome"@);
            assert("Europe/Rome"@.len() != "Asia/Seoul"@.len());
        } else if j == 14 {
            assert(t[14].0 == "Europe/Madrid"@);
            assert("Europe/Madrid"@.len() != "Asia/Seoul"@.len());
        } else if j == 15 {
            assert(t[15].0 == "Europe/Amsterdam"@);
            assert("Europe/Amsterdam"@.len() != "Asia/Seoul"@.len());
        } else if j == 16 {
            assert(t[16].0 == "Europe/Stockholm"@);
            assert("Europe/Stockholm"@.len() != "Asia/Seoul"@.len());
        } else if j == 17 {
            assert(t[17].0 == "Europe/Oslo"@);
            assert("Europe/Oslo"@.len() != "Asia/Seoul"@.len());
        } else if j == 18 {
            assert(t[18].0 == "Europe/Zurich"@);
            assert("Europe/Zurich"@.len() != "Asia/Seoul"@.len());
        } else if j == 19 {
            assert(t[19].0 == "America/New_York"@);
            assert("America/New_York"@.len() != "Asia/Seoul"@.len());
        } else if j == 20 {
            assert(t[20].0 == "America/Chicago"@);
            assert("America/Chicago"@.len() != "Asia/Seoul"@.len());
        } else if j == 21 {
            assert(t[21].0 == "America/Denver"@);
            assert("America/Denver"@.len() != "Asia/Seoul"@.len());
        } else if j == 22 {
            assert(t[22].0 == "America/Los_Angeles"@);
            assert("America/Los_Angeles"@.len() != "Asia/Seoul"@.len());
        } else if j == 23 {
            assert(t[23].0 == "America/Toronto"@);
            assert("America/Toronto"@.len() != "Asia/Seoul"@.len());
        } else if j == 24 {
            assert(t[24].0 == "America/Sao_Paulo"@);
            assert("America/Sao_Paulo"@.len() != "Asia/Seoul"@.len());
        } else if j == 25 {
            assert(t[25].0 == "Asia/Dubai"@);
            assert("Asia/Dubai"@[5] != "Asia/Seoul"@[5]);
        } else if j == 26 {
            assert(t[26].0 == "Asia/Riyadh"@);
            assert("Asia/Riyadh"@.len() != "Asia/Seoul"@.len());
        } else if j == 27 {
            assert(t[27].0 == "Asia/Kolkata"@);
            assert("Asia/Kolkata"@.len() != "Asia/Seoul"@.len());
        } else if j == 28 {
            assert(t[28].0 == "Asia/Mumbai"@);
            assert("Asia/Mumbai"@.len() != "Asia/Seoul"@.len());
        } else if j == 29 {
            assert(t[29].0 == "Asia/Shanghai"@);
            assert("Asia/Shanghai"@.len() != "Asia/Seoul"@.len());
        } else if j == 30 {
            assert(t[30].0 == "Asia/Tokyo"@);
            assert("Asia/Tokyo"@[5] != "Asia/Seoul"@[5]);
        } else if j == 31 {
            assert(t[31].0 == "Asia/Singapore"@);
            assert("Asia/Singapore"@.len() != "Asia/Seoul"@.len());
        } else if j == 32 {
            assert(t[32].0 == "Asia/Hong_Kong"@);
            assert("Asia/Hong_Kong"@.len() != "Asia/Seoul"@.len());
        }
    }
    assert(t[33].0 == "Asia/Seoul"@ && t[33].1 == 540);
    lemma_first_entry(t, "Asia/Seoul"@, 33);
    assert forall|j: int| 0 <= j < 34 implies t[j].0 != "Asia/Bangkok"@ by {
        if j == 0 {
            assert(t[0].0 == "UTC"@);
            assert("UTC"@.len() != "Asia/Bangkok"@.len());
        } else if j == 1 {
            assert(t[1].0 == "GMT"@);
            assert("GMT"@.len() != "Asia/Bangkok"@.len());
        } else if j == 2 {
            assert(t[2].0 == "Africa/Nairobi"@);
            assert("Africa/Nairobi"@.len() != "Asia/Bangkok"@.len());
        } else if j == 3 {
            assert(t[3].0 == "Africa/Lagos"@);
            assert("Africa/Lagos"@[1] != "Asia/Bangkok"@[1]);
        } else if j == 4 {
            assert(t[4].0 == "Africa/Cairo"@);
            assert("Africa/Cairo"@[1] != "Asia/Bangkok"@[1]);
        } else if j == 5 {
            assert(t[5].0 == "Africa/Johannesburg"@);
            assert("Africa/Johannesburg"@.len() != "Asia/Bangkok"@.len());
        } else if j == 6 {
            assert(t[6].0 == "Africa/Addis_Ababa"@);
            assert("Africa/Addis_Ababa"@.len() != "Asia/Bangkok"@.len());
        } else if j == 7 {
            assert(t[7].0 == "Africa/Kigali"@);
            assert("Africa/Kigali"@.len() != "Asia/Bangkok"@.len());
        } else if j == 8 {
            assert(t[8].0 == "Africa/Dar_es_Salaam"@);
            assert("Africa/Dar_es_Salaam"@.len() != "Asia/Bangkok"@.len());
        } else if j == 9 {
            assert(t[9].0 == "Africa/Kampala"@);
            assert("Africa/Kampala"@.len() != "Asia/Bangkok"@.len());
        } else if j == 10 {
            assert(t[10].0 == "Europe/London"@);
            assert("Europe/London"@.len() != "Asia/Bangkok"@.len());
        } else if j == 11 {
            assert(t[11].0 == "Europe/Paris"@);
            assert("Europe/Paris"@[0] != "Asia/Bangkok"@[0]);
        } else if j == 12 {
            assert(t[12].0 == "Europe/Berlin"@);
            assert("Europe/Berlin"@.len() != "Asia/Bangkok"@.len());
        } else if j == 13 {
            assert(t[13].0 == "Europe/Rome"@);
            assert("Europe/Rome"@.len() != "Asia/Bangkok"@.len());
        } else if j == 14 {
            assert(t[14].0 == "Europe/Madrid"@);
            assert("Europe/Madrid"@.len() != "Asia/Bangkok"@.len());
        } else if j == 15 {
            assert(t[15].0 == "Europe/Amsterdam"@);
            assert("Europe/Amsterdam"@.len() != "Asia/Bangkok"@.len());
        } else if j == 16 {
            assert(t[16].0 == "Europe/Stockholm"@);
            assert("Europe/Stockholm"@.len() != "Asia/Bangkok"@.len());
        } else if j == 17 {
            assert(t[17].0 == "Europe/Oslo"@);
            assert("Europe/Oslo"@.len() != "Asia/Bangkok"@.len());
        } else if j == 18 {
            assert(t[18].0 == "Europe/Zurich"@);
            assert("Europe/Zurich"@.len() != "Asia/Bangkok"@.len());
        } else if j == 19 {
            assert(t[19].0 == "America/New_York"@);
            assert("America/New_York"@.len() != "Asia/Bangkok"@.len());
        } else if j == 20 {
            assert(t[20].0 == "America/Chicago"@);
            assert("America/Chicago"@.len() != "Asia/Bangkok"@.len());
        } else if j == 21 {
            assert(t[21].0 == "America/Denver"@);
            assert("America/Denver"@.len() != "Asia/Bangkok"@.len());
        } else if j == 22 {
            assert(t[22].0 == "America/Los_Angeles"@);
            assert("America/Los_Angeles"@.len() != "Asia/Bangkok"@.len());
        } else if j == 23 {
            assert(t[23].0 == "America/Toronto"@);
            assert("America/Toronto"@.len() != "Asia/Bangkok"@.len());
        } else if j == 24 {
            assert(t[24].0 == "America/Sao_Paulo"@);
            assert("America/Sao_Paulo"@.len() != "Asia/Bangkok"@.len());
        } else if j == 25 {
            assert(t[25].0 == "Asia/Dubai"@);
            assert("Asia/Dubai"@.len() != "Asia/Bangkok"@.len());
        } else if j == 26 {
            assert(t[26].0 == "Asia/Riyadh"@);
            assert("Asia/Riyadh"@.len() != "Asia/Bangkok"@.len());
        } else if j == 27 {
            assert(t[27].0 == "Asia/Kolkata"@);
            assert("Asia/Kolkata"@[5] != "Asia/Bangkok"@[5]);
        } else if j == 28 {
            assert(t[28].0 == "Asia/Mumbai"@);
            assert("Asia/Mumbai"@.len() != "Asia/Bangkok"@.len());
        } else if j == 29 {
            assert(t[29].0 == "Asia/Shanghai"@);
            assert("Asia/Shanghai"@.len() != "Asia/Bangkok"@.len());
        } else if j == 30 {
            assert(t[30].0 == "Asia/Tokyo"@);
            assert("Asia/Tokyo"@.len() != "Asia/Bangkok"@.len());
        } else if j == 31 {
            assert(t[31].0 == "Asia/Singapore"@);
            assert("Asia/Singapore"@.len() != "Asia/Bangkok"@.len());
        } else if j == 32 {
            assert(t[32].0 == "Asia/Hong_Kong"@);
            assert("Asia/Hong_Kong"@.len() != "Asia/Bangkok"@.len());
        } else if j == 33 {
            assert(t[33].0 == "Asia/Seoul"@);
            assert("Asia/Seoul"@.len() != "Asia/Bangkok"@.len());
        }
    }
    assert(t[34].0 == "Asia/Bangkok"@ && t[34].1 == 420);
    lemma_first_entry(t, "Asia/Bangkok"@, 34);
    assert forall|j: int| 0 <= j < 35 implies t[j].0 != "Asia/Jakarta"@ by {
        if j == 0 {
            assert(t[0].0 == "UTC"@);
            assert("UTC"@.len() != "Asia/Jakarta"@.len());
        } else if j == 1 {
            assert(t[1].0 == "GMT"@);
            assert("GMT"@.len() != "Asia/Jakarta"@.len());
        } else if j == 2 {
            assert(t[2].0 == "Africa/Nairobi"@);
            assert("Africa/Nairobi"@.len() != "Asia/Jakarta"@.len());
        } else if j == 3 {
            assert(t[3].0 == "Africa/Lagos"@);
            assert("Africa/Lagos"@[1] != "Asia/Jakarta"@[1]);
        } else if j == 4 {
            assert(t[4].0 == "Africa/Cairo"@);
            assert("Africa/Cairo"@[1] != "Asia/Jakarta"@[1]);
        } else if j == 5 {
            assert(t[5].0 == "Africa/Johannesburg"@);
            assert("Africa/Johannesburg"@.len() != "Asia/Jakarta"@.len());
        } else if j == 6 {
            assert(t[6].0 == "Africa/Addis_Ababa"@);
            assert("Africa/Addis_Ababa"@.len() != "Asia/Jakarta"@.len());
        } else if j == 7 {
            assert(t[7].0 == "Africa/Kigali"@);
            assert("Africa/Kigali"@.len() != "Asia/Jakarta"@.len());
        } else if j == 8 {
            assert(t[8].0 == "Africa/Dar_es_Salaam"@);
            assert("Africa/Dar_es_Salaam"@.len() != "Asia/Jakarta"@.len());
        } else if j == 9 {
            assert(t[9].0 == "Africa/Kampala"@);
            assert("Africa/Kampala"@.len() != "Asia/Jakarta"@.len());
        } else if j == 10 {
            assert(t[10].0 == "Europe/London"@);
            assert("Europe/London"@.len() != "Asia/Jakarta"@.len());
        } else if j == 11 {
            assert(t[11].0 == "Europe/Paris"@);
            assert("Europe/Paris"@[0] != "Asia/Jakarta"@[0]);
        } else if j == 12 {
            assert(t[12].0 == "Europe/Berlin"@);
            assert("Europe/Berlin"@.len() != "Asia/Jakarta"@.len());
        } else if j == 13 {
            assert(t[13].0 == "Europe/Rome"@);
            assert("Europe/Rome"@.len() != "Asia/Jakarta"@.len());
        } else if j == 14 {
            assert(t[14].0 == "Europe/Madrid"@);
            assert("Europe/Madrid"@.len() != "Asia/Jakarta"@.len());
        } else if j == 15 {
            assert(t[15].0 == "Europe/Amsterdam"@);
            assert("Europe/Amsterdam"@.len() != "Asia/Jakarta"@.len());
        } else if j == 16 {
            assert(t[16].0 == "Europe/Stockholm"@);
            assert("Europe/Stockholm"@.len() != "Asia/Jakarta"@.len());
        } else if j == 17 {
            assert(t[17].0 == "Europe/Oslo"@);
            assert("Europe/Oslo"@.len() != "Asia/Jakarta"@.len());
        } else if j == 18 {
            assert(t[18].0 == "Europe/Zurich"@);
            assert("Europe/Zurich"@.len() != "Asia/Jakarta"@.len());
        } else if j == 19 {
            assert(t[19].0 == "America/New_York"@);
            assert("America/New_York"@.len() != "Asia/Jakarta"@.len());
        } else if j == 20 {
            assert(t[20].0 == "America/Chicago"@);
            assert("America/Chicago"@.len() != "Asia/Jakarta"@.len());
        } else if j == 21 {
            assert(t[21].0 == "America/Denver"@);
            assert("America/Denver"@.len() != "Asia/Jakarta"@.len());
        } else if j == 22 {
            assert(t[22].0 == "America/Los_Angeles"@);
            assert("America/Los_Angeles"@.len() != "Asia/Jakarta"@.len());
        } else if j == 23 {
            assert(t[23].0 == "America/Toronto"@);
            assert("America/Toronto"@.len() != "Asia/Jakarta"@.len());
        } else if j == 24 {
            assert(t[24].0 == "America/Sao_Paulo"@);
            assert("America/Sao_Paulo"@.len() != "Asia/Jakarta"@.len());
        } else if j == 25 {
            assert(t[25].0 == "Asia/Dubai"@);
            assert("Asia/Dubai"@.len() != "Asia/Jakarta"@.len());
        } else if j == 26 {
            assert(t[26].0 == "Asia/Riyadh"@);
            assert("Asia/Riyadh"@.len() != "Asia/Jakarta"@.len());
        } else if j == 27 {
            assert(t[27].0 == "Asia/Kolkata"@);
            assert("Asia/Kolkata"@[5] != "Asia/Jakarta"@[5]);
        } else if j == 28 {
            assert(t[28].0 == "Asia/Mumbai"@);
            assert("Asia/Mumbai"@.len() != "Asia/Jakarta"@.len());
        } else if j == 29 {
            assert(t[29].0 == "Asia/Shanghai"@);
            assert("Asia/Shanghai"@.len() != "Asia/Jakarta"@.len());
        } else if j == 30 {
            assert(t[30].0 == "Asia/Tokyo"@);
            assert("Asia/Tokyo"@.len() != "Asia/Jakarta"@.len());
        } else if j == 31 {
            assert(t[31].0 == "Asia/Singapore"@);
            assert("Asia/Singapore"@.len() != "Asia/Jakarta"@.len());
        } else if j == 32 {
            assert(t[32].0 == "Asia/Hong_Kong"@);
            assert("Asia/Hong_Kong"@.len() != "Asia/Jakarta"@.len());
        } else if j == 33 {
            assert(t[33].0 == "Asia/Seoul"@);
            assert("Asia/Seoul"@.len() != "Asia/Jakarta"@.len());
        } else if j == 34 {
            assert(t[34].0 == "Asia/Bangkok"@);
            assert("Asia/Bangkok"@[5] != "Asia/Jakarta"@[5]);
        }
    }
    assert(t[35].0 == "Asia/Jakarta"@ && t[35].1 == 420);
    lemma_first_entry(t, "Asia/Jakarta"@, 35);
    assert forall|j: int| 0 <= j < 36 implies t[j].0 != "Asia/Manila"@ by {
        if j == 0 {
            assert(t[0].0 == "UTC"@);
            assert("UTC"@.len() != "Asia/Manila"@.len());
        } else if j == 1 {
            assert(t[1].0 == "GMT"@);
            assert("GMT"@.len() != "Asia/Manila"@.len());
        } else if j == 2 {
            assert(t[2].0 == "Africa/Nairobi"@);
            assert("Africa/Nairobi"@.len() != "Asia/Manila"@.len());
        } else if j == 3 {
            assert(t[3].0 == "Africa/Lagos"@);
            assert("Africa/Lagos"@.len() != "Asia/Manila"@.len());
        } else if j == 4 {
            assert(t[4].0 == "Africa/Cairo"@);
            assert("Africa/Cairo"@.len() != "Asia/Manila"@.len());
        } else if j == 5 {
            assert(t[5].0 == "Africa/Johannesburg"@);
            assert("Africa/Johannesburg"@.len() != "Asia/Manila"@.len());
        } else if j == 6 {
            assert(t[6].0 == "Africa/Addis_Ababa"@);
            assert("Africa/Addis_Ababa"@.len() != "Asia/Manila"@.len());
        } else if j == 7 {
            assert(t[7].0 == "Africa/Kigali"@);
            assert("Africa/Kigali"@.len() != "Asia/Manila"@.len());
        } else if j == 8 {
            assert(t[8].0 == "Africa/Dar_es_Salaam"@);
            assert("Africa/Dar_es_Salaam"@.len() != "Asia/Manila"@.len());
        } else if j == 9 {
            assert(t[9].0 == "Africa/Kampala"@);
            assert("Africa/Kampala"@.len() != "Asia/Manila"@.len());
        } else if j == 10 {
            assert(t[10].0 == "Europe/London"@);
            assert("Europe/London"@.len() != "Asia/Manila"@.len());
        } else if j == 11 {
            assert(t[11].0 == "Europe/Paris"@);
            assert("Europe/Paris"@.len() != "Asia/Manila"@.len());
        } else if j == 12 {
            assert(t[12].0 == "Europe/Berlin"@);
            assert("Europe/Berlin"@.len() != "Asia/Manila"@.len());
        } else if j == 13 {
            assert(t[13].0 == "Europe/Rome"@);
            assert("Europe/Rome"@[0] != "Asia/Manila"@[0]);
        } else if j == 14 {
            assert(t[14].0 == "Europe/Madrid"@);
            assert("Europe/Madrid"@.len() != "Asia/Manila"@.len());
        } else if j == 15 {
            assert(t[15].0 == "Europe/Amsterdam"@);
            assert("Europe/Amsterdam"@.len() != "Asia/Manila"@.len());
        } else if j == 16 {
            assert(t[16].0 == "Europe/Stockholm"@);
            assert("Europe/Stockholm"@.len() != "Asia/Manila"@.len());
        } else if j == 17 {
            assert(t[17].0 == "Europe/Oslo"@);
            assert("Europe/Oslo"@[0] != "Asia/Manila"@[0]);
        } else if j == 18 {
            assert(t[18].0 == "Europe/Zurich"@);
            assert("Europe/Zurich"@.len() != "Asia/Manila"@.len());
        } else if j == 19 {
            assert(t[19].0 == "America/New_York"@);
            assert("America/New_York"@.len() != "Asia/Manila"@.len());
        } else if j == 20 {
            assert(t[20].0 == "America/Chicago"@);
            assert("America/Chicago"@.len() != "Asia/Manila"@.len());
        } else if j == 21 {
            assert(t[21].0 == "America/Denver"@);
            assert("America/Denver"@.len() != "Asia/Manila"@.len());
        } else if j == 22 {
            assert(t[22].0 == "America/Los_Angeles"@);
            assert("America/Los_Angeles"@.len() != "Asia/Manila"@.len());
        } else if j == 23 {
            assert(t[23].0 == "America/Toronto"@);
            assert("America/Toronto"@.len() != "Asia/Manila"@.len());
        } else if j == 24 {
            assert(t[24].0 == "America/Sao_Paulo"@);
            assert("America/Sao_Paulo"@.len() != "Asia/Manila"@.len());
        } else if j == 25 {
            assert(t[25].0 == "Asia/Dubai"@);
            assert("Asia/Dubai"@.len() != "Asia/Manila"@.len());
        } else if j == 26 {
            assert(t[26].0 == "Asia/Riyadh"@);
            assert("Asia/Riyadh"@[5] != "Asia/Manila"@[5]);
        } else if j == 27 {
            assert(t[27].0 == "Asia/Kolkata"@);
            assert("Asia/Kolkata"@.len() != "Asia/Manila"@.len());
        } else if j == 28 {
            assert(t[28].0 == "Asia/Mumbai"@);
            assert("Asia/Mumbai"@[6] != "Asia/Manila"@[6]);
        } else if j == 29 {
            assert(t[29].0 == "Asia/Shanghai"@);
            assert("Asia/Shanghai"@.len() != "Asia/Manila"@.len());
        } else if j == 30 {
            assert(t[30].0 == "Asia/Tokyo"@);
            assert("Asia/Tokyo"@.len() != "Asia/Manila"@.len());
        } else if j == 31 {
            assert(t[31].0 == "Asia/Singapore"@);
            assert("Asia/Singapore"@.len() != "Asia/Manila"@.len());
        } else if j == 32 {
            assert(t[32].0 == "Asia/Hong_Kong"@);
            assert("Asia/Hong_Kong"@.len() != "Asia/Manila"@.len());
        } else if j == 33 {
            assert(t[33].0 == "Asia/Seoul"@);
            assert("Asia/Seoul"@.len() != "Asia/Manila"@.len());
        } else if j == 34 {
            assert(t[34].0 == "Asia/Bangkok"@);
            assert("Asia/Bangkok"@.len() != "Asia/Manila"@.len());
        } else if j == 35 {
            assert(t[35].0 == "Asia/Jakarta"@);
            assert("Asia/Jakarta"@.len() != "Asia/Manila"@.len());
        }
    }
    assert(t[36].0 == "Asia/Manila"@ && t[36].1 == 480);
    lemma_first_entry(t, "Asia/Manila"@, 36);
    assert forall|j: int| 0 <= j < 37 implies t[j].0 != "Asia/Ho_Chi_Minh"@ by {
        if j == 0 {
            assert(t[0].0 == "UTC"@);
            assert("UTC"@.len() != "Asia/Ho_Chi_Minh"@.len());
        } else if j == 1 {
            assert(t[1].0 == "GMT"@);
            assert("GMT"@.len() != "Asia/Ho_Chi_Minh"@.len());
        } else if j == 2 {
            assert(t[2].0 == "Africa/Nairobi"@);
            assert("Africa/Nairobi"@.len() != "Asia/Ho_Chi_Minh"@.len());
        } else if j == 3 {
            assert(t[3].0 == "Africa/Lagos"@);
            assert("Africa/Lagos"@.len() != "Asia/Ho_Chi_Minh"@.len());
        } else if j == 4 {
            assert(t[4].0 == "Africa/Cairo"@);
            assert("Africa/Cairo"@.len() != "Asia/Ho_Chi_Minh"@.len());
        } else if j == 5 {
            assert(t[5].0 == "Africa/Johannesburg"@);
            assert("Africa/Johannesburg"@.len() != "Asia/Ho_Chi_Minh"@.len());
        } else if j == 6 {
            assert(t[6].0 == "Africa/Addis_Ababa"@);
            assert("Africa/Addis_Ababa"@.len() != "Asia/Ho_Chi_Minh"@.len());
        } else if j == 7 {
            assert(t[7].0 == "Africa/Kigali"@);
            assert("Africa/Kigali"@.len() != "Asia/Ho_Chi_Minh"@.len());
        } else if j == 8 {
            assert(t[8].0 == "Africa/Dar_es_Salaam"@);
            assert("Africa/Dar_es_Salaam"@.len() != "Asia/Ho_Chi_Minh"@.len());
        } else if j == 9 {
            assert(t[9].0 == "Africa/Kampala"@);
            assert("Africa/Kampala"@.len() != "Asia/Ho_Chi_Minh"@.len());
        } else if j == 10 {
            assert(t[10].0 == "Europe/London"@);
            assert("Europe/London"@.len() != "Asia/Ho_Chi_Minh"@.len());
        } else if j == 11 {
            assert(t[11].0 == "Europe/Paris"@);
            assert("Europe/Paris"@.len() != "Asia/Ho_Chi_Minh"@.len());
        } else if j == 12 {
            assert(t[12].0 == "Europe/Berlin"@);
            assert("Europe/Berlin"@.len() != "Asia/Ho_Chi_Minh"@.len());
        } else if j == 13 {
            assert(t[13].0 == "Europe/Rome"@);
            assert("Europe/Rome"@.len() != "Asia/Ho_Chi_Minh"@.len());
        } else if j == 14 {
            assert(t[14].0 == "Europe/Madrid"@);
            assert("Europe/Madrid"@.len() != "Asia/Ho_Chi_Minh"@.len());
        } else if j == 15 {
            assert(t[15].0 == "Europe/Amsterdam"@);
            assert("Europe/Amsterdam"@[0] != "Asia/Ho_Chi_Minh"@[0]);
        } else if j == 16 {
            assert(t[16].0 == "Europe/Stockholm"@);
            assert("Europe/Stockholm"@[0] != "Asia/Ho_Chi_Minh"@[0]);
        } else if j == 17 {
            assert(t[17].0 == "Europe/Oslo"@);
            assert("Europe/Oslo"@.len() != "Asia/Ho_Chi_Minh"@.len());
        } else if j == 18 {
            assert(t[18].0 == "Europe/Zurich"@);
            assert("Europe/Zurich"@.len() != "Asia/Ho_Chi_Minh"@.len());
        } else if j == 19 {
            assert(t[19].0 == "America/New_York"@);
            assert("America/New_York"@[1] != "Asia/Ho_Chi_Minh"@[1]);
        } else if j == 20 {
            assert(t[20].0 == "America/Chicago"@);
            assert("America/Chicago"@.len() != "Asia/Ho_Chi_Minh"@.len());
        } else if j == 21 {
            assert(t[21].0 == "America/Denver"@);
            assert("America/Denver"@.len() != "Asia/Ho_Chi_Minh"@.len());
        } else if j == 22 {
            assert(t[22].0 == "America/Los_Angeles"@);
            assert("America/Los_Angeles"@.len() != "Asia/Ho_Chi_Minh"@.len());
        } else if j == 23 {
            assert(t[23].0 == "America/Toronto"@);
            assert("America/Toronto"@.len() != "Asia/Ho_Chi_Minh"@.len());
        } else if j == 24 {
            assert(t[24].0 == "America/Sao_Paulo"@);
            assert("America/Sao_Paulo"@.len() != "Asia/Ho_Chi_Minh"@.len());
        } else if j == 25 {
            assert(t[25].0 == "Asia/Dubai"@);
            assert("Asia/Dubai"@.len() != "Asia/Ho_Chi_Minh"@.len());
        } else if j == 26 {
            assert(t[26].0 == "Asia/Riyadh"@);
            assert("Asia/Riyadh"@.len() != "Asia/Ho_Chi_Minh"@.len());
        } else if j == 27 {
            assert(t[27].0 == "Asia/Kolkata"@);
            assert("Asia/Kolkata"@.len() != "Asia/Ho_Chi_Minh"@.len());
        } else if j == 28 {
            assert(t[28].0 == "Asia/Mumbai"@);
            assert("Asia/Mumbai"@.len() != "Asia/Ho_Chi_Minh"@.len());
        } else if j == 29 {
            assert(t[29].0 == "Asia/Shanghai"@);
            assert("Asia/Shanghai"@.len() != "Asia/Ho_Chi_Minh"@.len());
        } else if j == 30 {
            assert(t[30].0 == "Asia/Tokyo"@);
            assert("Asia/Tokyo"@.len() != "Asia/Ho_Chi_Minh"@.len());
        } else if j == 31 {
            assert(t[31].0 == "Asia/Singapore"@);
            assert("Asia/Singapore"@.len() != "Asia/Ho_Chi_Minh"@.len());
        } else if j == 32 {
            assert(t[32].0 == "Asia/Hong_Kong"@);
            assert("Asia/Hong_Kong"@.len() != "Asia/Ho_Chi_Minh"@.len());
        } else if j == 33 {
            assert(t[33].0 == "Asia/Seoul"@);
            assert("Asia/Seoul"@.len() != "Asia/Ho_Chi_Minh"@.len());
        } else if j == 34 {
            assert(t[34].0 == "Asia/Bangkok"@);
            assert("Asia/Bangkok"@.len() != "Asia/Ho_Chi_Minh"@.len());
        } else if j == 35 {
            assert(t[35].0 == "Asia/Jakarta"@);
            assert("Asia/Jakarta"@.len() != "Asia/Ho_Chi_Minh"@.len());
        } else if j == 36 {
            assert(t[36].0 == "Asia/Manila"@);
            assert("Asia/Manila"@.len() != "Asia/Ho_Chi_Minh"@.len());
        }
    }
    assert(t[37].0 == "Asia/Ho_Chi_Minh"@ && t[37].1 == 420);
    lemma_first_entry(t, "Asia/Ho_Chi_Minh"@, 37);
    assert forall|j: int| 0 <= j < 38 implies t[j].0 != "Asia/Kuala_Lumpur"@ by {
        if j == 0 {
            assert(t[0].0 == "UTC"@);
            assert("UTC"@.len() != "Asia/Kuala_Lumpur"@.len());
        } else if j == 1 {
            assert(t[1].0 == "GMT"@);
            assert("GMT"@.len() != "Asia/Kuala_Lumpur"@.len());
        } else if j == 2 {
            assert(t[2].0 == "Africa/Nairobi"@);
            assert("Africa/Nairobi"@.len() != "Asia/Kuala_Lumpur"@.len());
        } else if j == 3 {
            assert(t[3].0 == "Africa/Lagos"@);
            assert("Africa/Lagos"@.len() != "Asia/Kuala_Lumpur"@.len());
        } else if j == 4 {
            assert(t[4].0 == "Africa/Cairo"@);
            assert("Africa/Cairo"@.len() != "Asia/Kuala_Lumpur"@.len());
        } else if j == 5 {
            assert(t[5].0 == "Africa/Johannesburg"@);
            assert("Africa/Johannesburg"@.len() != "Asia/Kuala_Lumpur"@.len());
        } else if j == 6 {
            assert(t[6].0 == "Africa/Addis_Ababa"@);
            assert("Africa/Addis_Ababa"@.len() != "Asia/Kuala_Lumpur"@.len());
        } else if j == 7 {
            assert(t[7].0 == "Africa/Kigali"@);
            assert("Africa/Kigali"@.len() != "Asia/Kuala_Lumpur"@.len());
        } else if j == 8 {
            assert(t[8].0 == "Africa/Dar_es_Salaam"@);
            assert("Africa/Dar_es_Salaam"@.len() != "Asia/Kuala_Lumpur"@.len());
        } else if j == 9 {
            assert(t[9].0 == "Africa/Kampala"@);
            assert("Africa/Kampala"@.len() != "Asia/Kuala_Lumpur"@.len());
        } else if j == 10 {
            assert(t[10].0 == "Europe/London"@);
            assert("Europe/London"@.len() != "Asia/Kuala_Lumpur"@.len());
        } else if j == 11 {
            assert(t[11].0 == "Europe/Paris"@);
            assert("Europe/Paris"@.len() != "Asia/Kuala_Lumpur"@.len());
        } else if j == 12 {
            assert(t[12].0 == "Europe/Berlin"@);
            assert("Europe/Berlin"@.len() != "Asia/Kuala_Lumpur"@.len());
        } else if j == 13 {
            assert(t[13].0 == "Europe/Rome"@);
            assert("Europe/Rome"@.len() != "Asia/Kuala_Lumpur"@.len());
        } else if j == 14 {
            assert(t[14].0 == "Europe/Madrid"@);
            assert("Europe/Madrid"@.len() != "Asia/Kuala_Lumpur"@.len());
        } else if j == 15 {
            assert(t[15].0 == "Europe/Amsterdam"@);
            assert("Europe/Amsterdam"@.len() != "Asia/Kuala_Lumpur"@.len());
        } else if j == 16 {
            assert(t[16].0 == "Europe/Stockholm"@);
            assert("Europe/Stockholm"@.len() != "Asia/Kuala_Lumpur"@.len());
        } else if j == 17 {
            assert(t[17].0 == "Europe/Oslo"@);
            assert("Europe/Oslo"@.len() != "Asia/Kuala_Lumpur"@.len());
        } else if j == 18 {
            assert(t[18].0 == "Europe/Zurich"@);
            assert("Europe/Zurich"@.len() != "Asia/Kuala_Lumpur"@.len());
        } else if j == 19 {
            assert(t[19].0 == "America/New_York"@);
            assert("America/New_York"@.len() != "Asia/Kuala_Lumpur"@.len());
        } else if j == 20 {
            assert(t[20].0 == "America/Chicago"@);
            assert("America/Chicago"@.len() != "Asia/Kuala_Lumpur"@.len());
        } else if j == 21 {
            assert(t[21].0 == "America/Denver"@);
            assert("America/Denver"@.len() != "Asia/Kuala_Lumpur"@.len());
        } else if j == 22 {
            assert(t[22].0 == "America/Los_Angeles"@);
            assert("America/Los_Angeles"@.len() != "Asia/Kuala_Lumpur"@.len());
        } else if j == 23 {
            assert(t[23].0 == "America/Toronto"@);
            assert("America/Toronto"@.len() != "Asia/Kuala_Lumpur"@.len());
        } else if j == 24 {
            assert(t[24].0 == "America/Sao_Paulo"@);
            assert("America/Sao_Paulo"@[1] != "Asia/Kuala_Lumpur"@[1]);
        } else if j == 25 {
            assert(t[25].0 == "Asia/Dubai"@);
            assert("Asia/Dubai"@.len() != "Asia/Kuala_Lumpur"@.len());
        } else if j == 26 {
            assert(t[26].0 == "Asia/Riyadh"@);
            assert("Asia/Riyadh"@.len() != "Asia/Kuala_Lumpur"@.len());
        } else if j == 27 {
            assert(t[27].0 == "Asia/Kolkata"@);
            assert("Asia/Kolkata"@.len() != "Asia/Kuala_Lumpur"@.len());
        } else if j == 28 {
            assert(t[28].0 == "Asia/Mumbai"@);
            assert("Asia/Mumbai"@.len() != "Asia/Kuala_Lumpur"@.len());
        } else if j == 29 {
            assert(t[29].0 == "Asia/Shanghai"@);
            assert("Asia/Shanghai"@.len() != "Asia/Kuala_Lumpur"@.len());
        } else if j == 30 {
            assert(t[30].0 == "Asia/Tokyo"@);
            assert("Asia/Tokyo"@.len() != "Asia/Kuala_Lumpur"@.len());
        } else if j == 31 {
            assert(t[31].0 == "Asia/Singapore"@);
            assert("Asia/Singapore"@.len() != "Asia/Kuala_Lumpur"@.len());
        } else if j == 32 {
            assert(t[32].0 == "Asia/Hong_Kong"@);
            assert("Asia/Hong_Kong"@.len() != "Asia/Kuala_Lumpur"@.len());
        } else if j == 33 {
            assert(t[33].0 == "Asia/Seoul"@);
            assert("Asia/Seoul"@.len() != "Asia/Kuala_Lumpur"@.len());
        } else if j == 34 {
            assert(t[34].0 == "Asia/Bangkok"@);
            assert("Asia/Bangkok"@.len() != "Asia/Kuala_Lumpur"@.len());
        } else if j == 35 {
            assert(t[35].0 == "Asia/Jakarta"@);
            assert("Asia/Jakarta"@.len() != "Asia/Kuala_Lumpur"@.len());
        } else if j == 36 {
            assert(t[36].0 == "Asia/Manila"@);
            assert("Asia/Manila"@.len() != "Asia/Kuala_Lumpur"@.len());
        } else if j == 37 {
            assert(t[37].0 == "Asia/Ho_Chi_Minh"@);
            assert("Asia/Ho_Chi_Minh"@.len() != "Asia/Kuala_Lumpur"@.len());
        }
    }
    assert(t[38].0 == "Asia/Kuala_Lumpur"@ && t[38].1 == 480);
    lemma_first_entry(t, "Asia/Kuala_Lumpur"@, 38);
    assert forall|j: int| 0 <= j < 39 implies t[j].0 != "Australia/Sydney"@ by {
        if j == 0 {
            assert(t[0].0 == "UTC"@);
            assert("UTC"@.len() != "Australia/Sydney"@.len());
        } else if j == 1 {
            assert(t[1].0 == "GMT"@);
            assert("GMT"@.len() != "Australia/Sydney"@.len());
        } else if j == 2 {
            assert(t[2].0 == "Africa/Nairobi"@);
            assert("Africa/Nairobi"@.len() != "Australia/Sydney"@.len());
        } else if j == 3 {
            assert(t[3].0 == "Africa/Lagos"@);
            assert("Africa/Lagos"@.len() != "Australia/Sydney"@.len());
        } else if j == 4 {
            assert(t[4].0 == "Africa/Cairo"@);
            assert("Africa/Cairo"@.len() != "Australia/Sydney"@.len());
        } else if j == 5 {
            assert(t[5].0 == "Africa/Johannesburg"@);
            assert("Africa/Johannesburg"@.len() != "Australia/Sydney"@.len());
        } else if j == 6 {
            assert(t[6].0 == "Africa/Addis_Ababa"@);
            assert("Africa/Addis_Ababa"@.len() != "Australia/Sydney"@.len());
        } else if j == 7 {
            assert(t[7].0 == "Africa/Kigali"@);
            assert("Africa/Kigali"@.len() != "Australia/Sydney"@.len());
        } else if j == 8 {
            assert(t[8].0 == "Africa/Dar_es_Salaam"@);
            assert("Africa/Dar_es_Salaam"@.len() != "Australia/Sydney"@.len());
        } else if j == 9 {
            assert(t[9].0 == "Africa/Kampala"@);
            assert("Africa/Kampala"@.len() != "Australia/Sydney"@.len());
        } else if j == 10 {
            assert(t[10].0 == "Europe/London"@);
            assert("Europe/London"@.len() != "Australia/Sydney"@.len());
        } else if j == 11 {
            assert(t[11].0 == "Europe/Paris"@);
            assert("Europe/Paris"@.len() != "Australia/Sydney"@.len());
        } else if j == 12 {
            assert(t[12].0 == "Europe/Berlin"@);
            assert("Europe/Berlin"@.len() != "Australia/Sydney"@.len());
        } else if j == 13 {
            assert(t[13].0 == "Europe/Rome"@);
            assert("Europe/Rome"@.len() != "Australia/Sydney"@.len());
        } else if j == 14 {
            assert(t[14].0 == "Europe/Madrid"@);
            assert("Europe/Madrid"@.len() != "Australia/Sydney"@.len());
        } else if j == 15 {
            assert(t[15].0 == "Europe/Amsterdam"@);
            assert("Europe/Amsterdam"@[0] != "Australia/Sydney"@[0]);
        } else if j == 16 {
            assert(t[16].0 == "Europe/Stockholm"@);
            assert("Europe/Stockholm"@[0] != "Australia/Sydney"@[0]);
        } else if j == 17 {
            assert(t[17].0 == "Europe/Oslo"@);
            assert("Europe/Oslo"@.len() != "Australia/Sydney"@.len());
        } else if j == 18 {
            assert(t[18].0 == "Europe/Zurich"@);
            assert("Europe/Zurich"@.len() != "Australia/Sydney"@.len());
        } else if j == 19 {
            assert(t[19].0 == "America/New_York"@);
            assert("America/New_York"@[1] != "Australia/Sydney"@[1]);
        } else if j == 20 {
            assert(t[20].0 == "America/Chicago"@);
            assert("America/Chicago"@.len() != "Australia/Sydney"@.len());
        } else if j == 21 {
            assert(t[21].0 == "America/Denver"@);
            assert("America/Denver"@.len() != "Australia/Sydney"@.len());
        } else if j == 22 {
            assert(t[22].0 == "America/Los_Angeles"@);
            assert("America/Los_Angeles"@.len() != "Australia/Sydney"@.len());
        } else if j == 23 {
            assert(t[23].0 == "America/Toronto"@);
            assert("America/Toronto"@.len() != "Australia/Sydney"@.len());
        } else if j == 24 {
            assert(t[24].0 == "America/Sao_Paulo"@);
            assert("America/Sao_Paulo"@.len() != "Australia/Sydney"@.len());
        } else if j == 25 {
            assert(t[25].0 == "Asia/Dubai"@);
            assert("Asia/Dubai"@.len() != "Australia/Sydney"@.len());
        } else if j == 26 {
            assert(t[26].0 == "Asia/Riyadh"@);
            assert("Asia/Riyadh"@.len() != "Australia/Sydney"@.len());
        } else if j == 27 {
            assert(t[27].0 == "Asia/Kolkata"@);
            assert("Asia/Kolkata"@.len() != "Australia/Sydney"@.len());
        } else if j == 28 {
            assert(t[28].0 == "Asia/Mumbai"@);
            assert("Asia/Mumbai"@.len() != "Australia/Sydney"@.len());
        } else if j == 29 {
            assert(t[29].0 == "Asia/Shanghai"@);
            assert("Asia/Shanghai"@.len() != "Australia/Sydney"@.len());
        } else if j == 30 {
            assert(t[30].0 == "Asia/Tokyo"@);
            assert("Asia/Tokyo"@.len() != "Australia/Sydney"@.len());
        } else if j == 31 {
            assert(t[31].0 == "Asia/Singapore"@);
            assert("Asia/Singapore"@.len() != "Australia/Sydney"@.len());
        } else if j == 32 {
            assert(t[32].0 == "Asia/Hong_Kong"@);
            assert("Asia/Hong_Kong"@.len() != "Australia/Sydney"@.len());
        } else if j == 33 {
            assert(t[33].0 == "Asia/Seoul"@);
            assert("Asia/Seoul"@.len() != "Australia/Sydney"@.len());
        } else if j == 34 {
            assert(t[34].0 == "Asia/Bangkok"@);
            assert("Asia/Bangkok"@.len() != "Australia/Sydney"@.len());
        } else if j == 35 {
            assert(t[35].0 == "Asia/Jakarta"@);
            assert("Asia/Jakarta"@.len() != "Australia/Sydney"@.len());
        } else if j == 36 {
            assert(t[36].0 == "Asia/Manila"@);
            assert("Asia/Manila"@.len() != "Australia/Sydney"@.len());
        } else if j == 37 {
            assert(t[37].0 == "Asia/Ho_Chi_Minh"@);
            assert("Asia/Ho_Chi_Minh"@[1] != "Australia/Sydney"@[1]);
        } else if j == 38 {
            assert(t[38].0 == "Asia/Kuala_Lumpur"@);
            assert("Asia/Kuala_Lumpur"@.len() != "Australia/Sydney"@.len());
        }
    }
    assert(t[39].0 == "Australia/Sydney"@ && t[39].1 == 660);
    lemma_first_entry(t, "Australia/Sydney"@, 39);
    assert forall|j: int| 0 <= j < 40 implies t[j].0 != "Australia/Melbourne"@ by {
        if j == 0 {
            assert(t[0].0 == "UTC"@);
            assert("UTC"@.len() != "Australia/Melbourne"@.len());
        } else if j == 1 {
            assert(t[1].0 == "GMT"@);
            assert("GMT"@.len() != "Australia/Melbourne"@.len());
        } else if j == 2 {
            assert(t[2].0 == "Africa/Nairobi"@);
            assert("Africa/Nairobi"@.len() != "Australia/Melbourne"@.len());
        } else if j == 3 {
            assert(t[3].0 == "Africa/Lagos"@);
            assert("Africa/Lagos"@.len() != "Australia/Melbourne"@.len());
        } else if j == 4 {
            assert(t[4].0 == "Africa/Cairo"@);
            assert("Africa/Cairo"@.len() != "Australia/Melbourne"@.len());
        } else if j == 5 {
            assert(t[5].0 == "Africa/Johannesburg"@);
            assert("Africa/Johannesburg"@[1] != "Australia/Melbourne"@[1]);
        } else if j == 6 {
            assert(t[6].0 == "Africa/Addis_Ababa"@);
            assert("Africa/Addis_Ababa"@.len() != "Australia/Melbourne"@.len());
        } else if j == 7 {
            assert(t[7].0 == "Africa/Kigali"@);
            assert("Africa/Kigali"@.len() != "Australia/Melbourne"@.len());
        } else if j == 8 {
            assert(t[8].0 == "Africa/Dar_es_Salaam"@);
            assert("Africa/Dar_es_Salaam"@.len() != "Australia/Melbourne"@.len());
        } else if j == 9 {
            assert(t[9].0 == "Africa/Kampala"@);
            assert("Africa/Kampala"@.len() != "Australia/Melbourne"@.len());
        } else if j == 10 {
            assert(t[10].0 == "Europe/London"@);
            assert("Europe/London"@.len() != "Australia/Melbourne"@.len());
        } else if j == 11 {
            assert(t[11].0 == "Europe/Paris"@);
            assert("Europe/Paris"@.len() != "Australia/Melbourne"@.len());
        } else if j == 12 {
            assert(t[12].0 == "Europe/Berlin"@);
            assert("Europe/Berlin"@.len() != "Australia/Melbourne"@.len());
        } else if j == 13 {
            assert(t[13].0 == "Europe/Rome"@);
            assert("Europe/Rome"@.len() != "Australia/Melbourne"@.len());
        } else if j == 14 {
            assert(t[14].0 == "Europe/Madrid"@);
            assert("Europe/Madrid"@.len() != "Australia/Melbourne"@.len());
        } else if j == 15 {
            assert(t[15].0 == "Europe/Amsterdam"@);
            assert("Europe/Amsterdam"@.len() != "Australia/Melbourne"@.len());
        } else if j == 16 {
            assert(t[16].0 == "Europe/Stockholm"@);
            assert("Europe/Stockholm"@.len() != "Australia/Melbourne"@.len());
        } else if j == 17 {
            assert(t[17].0 == "Europe/Oslo"@);
            assert("Europe/Oslo"@.len() != "Australia/Melbourne"@.len());
        } else if j == 18 {
            assert(t[18].0 == "Europe/Zurich"@);
            assert("Europe/Zurich"@.len() != "Australia/Melbourne"@.len());
        } else if j == 19 {
            assert(t[19].0 == "America/New_York"@);
            assert("America/New_York"@.len() != "Australia/Melbourne"@.len());
        } else if j == 20 {
            assert(t[20].0 == "America/Chicago"@);
            assert("America/Chicago"@.len() != "Australia/Melbourne"@.len());
        } else if j == 21 {
            assert(t[21].0 == "America/Denver"@);
            assert("America/Denver"@.len() != "Australia/Melbourne"@.len());
        } else if j == 22 {
            assert(t[22].0 == "America/Los_Angeles"@);
            assert("America/Los_Angeles"@[1] != "Australia/Melbourne"@[1]);
        } else if j == 23 {
            assert(t[23].0 == "America/Toronto"@);
            assert("America/Toronto"@.len() != "Australia/Melbourne"@.len());
        } else if j == 24 {
            assert(t[24].0 == "America/Sao_Paulo"@);
            assert("America/Sao_Paulo"@.len() != "Australia/Melbourne"@.len());
        } else if j == 25 {
            assert(t[25].0 == "Asia/Dubai"@);
            assert("Asia/Dubai"@.len() != "Australia/Melbourne"@.len());
        } else if j == 26 {
            assert(t[26].0 == "Asia/Riyadh"@);
            assert("Asia/Riyadh"@.len() != "Australia/Melbourne"@.len());
        } else if j == 27 {
            assert(t[27].0 == "Asia/Kolkata"@);
            assert("Asia/Kolkata"@.len() != "Australia/Melbourne"@.len());
        } else if j == 28 {
            assert(t[28].0 == "Asia/Mumbai"@);
            assert("Asia/Mumbai"@.len() != "Australia/Melbourne"@.len());
        } else if j == 29 {
            assert(t[29].0 == "Asia/Shanghai"@);
            assert("Asia/Shanghai"@.len() != "Australia/Melbourne"@.len());
        } else if j == 30 {
            assert(t[30].0 == "Asia/Tokyo"@);
            assert("Asia/Tokyo"@.len() != "Australia/Melbourne"@.len());
        } else if j == 31 {
            assert(t[31].0 == "Asia/Singapore"@);
            assert("Asia/Singapore"@.len() != "Australia/Melbourne"@.len());
        } else if j == 32 {
            assert(t[32].0 == "Asia/Hong_Kong"@);
            assert("Asia/Hong_Kong"@.len() != "Australia/Melbourne"@.len());
        } else if j == 33 {
            assert(t[33].0 == "Asia/Seoul"@);
            assert("Asia/Seoul"@.len() != "Australia/Melbourne"@.len());
        } else if j == 34 {
            assert(t[34].0 == "Asia/Bangkok"@);
            assert("Asia/Bangkok"@.len() != "Australia/Melbourne"@.len());
        } else if j == 35 {
            assert(t[35].0 == "Asia/Jakarta"@);
            assert("Asia/Jakarta"@.len() != "Australia/Melbourne"@.len());
        } else if j == 36 {
            assert(t[36].0 == "Asia/Manila"@);
            assert("Asia/Manila"@.len() != "Australia/Melbourne"@.len());
        } else if j == 37 {
            assert(t[37].0 == "Asia/Ho_Chi_Minh"@);
            assert("Asia/Ho_Chi_Minh"@.len() != "Australia/Melbourne"@.len());
        } else if j == 38 {
            assert(t[38].0 == "Asia/Kuala_Lumpur"@);
            assert("Asia/Kuala_Lumpur"@.len() != "Australia/Melbourne"@.len());
        } else if j == 39 {
            assert(t[39].0 == "Australia/Sydney"@);
            assert("Australia/Sydney"@.len() != "Australia/Melbourne"@.len());
        }
    }
    assert(t[40].0 == "Australia/Melbourne"@ && t[40].1 == 660);
    lemma_first_entry(t, "Australia/Melbourne"@, 40);
    assert forall|j: int| 0 <= j < 41 implies t[j].0 != "Pacific/Auckland"@ by {
        if j == 0 {
            assert(t[0].0 == "UTC"@);
            assert("UTC"@.len() != "Pacific/Auckland"@.len());
        } else if j == 1 {
            assert(t[1].0 == "GMT"@);
            assert("GMT"@.len() != "Pacific/Auckland"@.len());
        } else if j == 2 {
            assert(t[2].0 == "Africa/Nairobi"@);
            assert("Africa/Nairobi"@.len() != "Pacific/Auckland"@.len());
        } else if j == 3 {
            assert(t[3].0 == "Africa/Lagos"@);
            assert("Africa/Lagos"@.len() != "Pacific/Auckland"@.len());
        } else if j == 4 {
            assert(t[4].0 == "Africa/Cairo"@);
            assert("Africa/Cairo"@.len() != "Pacific/Auckland"@.len());
        } else if j == 5 {
            assert(t[5].0 == "Africa/Johannesburg"@);
            assert("Africa/Johannesburg"@.len() != "Pacific/Auckland"@.len());
        } else if j == 6 {
            assert(t[6].0 == "Africa/Addis_Ababa"@);
            assert("Africa/Addis_Ababa"@.len() != "Pacific/Auckland"@.len());
        } else if j == 7 {
            assert(t[7].0 == "Africa/Kigali"@);
            assert("Africa/Kigali"@.len() != "Pacific/Auckland"@.len());
        } else if j == 8 {
            assert(t[8].0 == "Africa/Dar_es_Salaam"@);
            assert("Africa/Dar_es_Salaam"@.len() != "Pacific/Auckland"@.len());
        } else if j == 9 {
            assert(t[9].0 == "Africa/Kampala"@);
            assert("Africa/Kampala"@.len() != "Pacific/Auckland"@.len());
        } else if j == 10 {
            assert(t[10].0 == "Europe/London"@);
            assert("Europe/London"@.len() != "Pacific/Auckland"@.len());
        } else if j == 11 {
            assert(t[11].0 == "Europe/Paris"@);
            assert("Europe/Paris"@.len() != "Pacific/Auckland"@.len());
        } else if j == 12 {
            assert(t[12].0 == "Europe/Berlin"@);
            assert("Europe/Berlin"@.len() != "Pacific/Auckland"@.len());
        } else if j == 13 {
            assert(t[13].0 == "Europe/Rome"@);
            assert("Europe/Rome"@.len() != "Pacific/Auckland"@.len());
        } else if j == 14 {
            assert(t[14].0 == "Europe/Madrid"@);
            assert("Europe/Madrid"@.len() != "Pacific/Auckland"@.len());
        } else if j == 15 {
            assert(t[15].0 == "Europe/Amsterdam"@);
            assert("Europe/Amsterdam"@[0] != "Pacific/Auckland"@[0]);
        } else if j == 16 {
            assert(t[16].0 == "Europe/Stockholm"@);
            assert("Europe/Stockholm"@[0] != "Pacific/Auckland"@[0]);
        } else if j == 17 {
            assert(t[17].0 == "Europe/Oslo"@);
            assert("Europe/Oslo"@.len() != "Pacific/Auckland"@.len());
        } else if j == 18 {
            assert(t[18].0 == "Europe/Zurich"@);
            assert("Europe/Zurich"@.len() != "Pacific/Auckland"@.len());
        } else if j == 19 {
            assert(t[19].0 == "America/New_York"@);
            assert("America/New_York"@[0] != "Pacific/Auckland"@[0]);
        } else if j == 20 {
            assert(t[20].0 == "America/Chicago"@);
            assert("America/Chicago"@.len() != "Pacific/Auckland"@.len());
        } else if j == 21 {
            assert(t[21].0 == "America/Denver"@);
            assert("America/Denver"@.len() != "Pacific/Auckland"@.len());
        } else if j == 22 {
            assert(t[22].0 == "America/Los_Angeles"@);
            assert("America/Los_Angeles"@.len() != "Pacific/Auckland"@.len());
        } else if j == 23 {
            assert(t[23].0 == "America/Toronto"@);
            assert("America/Toronto"@.len() != "Pacific/Auckland"@.len());
        } else if j == 24 {
            assert(t[24].0 == "America/Sao_Paulo"@);
            assert("America/Sao_Paulo"@.len() != "Pacific/Auckland"@.len());
        } else if j == 25 {
            assert(t[25].0 == "Asia/Dubai"@);
            assert("Asia/Dubai"@.len() != "Pacific/Auckland"@.len());
        } else if j == 26 {
            assert(t[26].0 == "Asia/Riyadh"@);
            assert("Asia/Riyadh"@.len() != "Pacific/Auckland"@.len());
        } else if j == 27 {
            assert(t[27].0 == "Asia/Kolkata"@);
            assert("Asia/Kolkata"@.len() != "Pacific/Auckland"@.len());
        } else if j == 28 {
            assert(t[28].0 == "Asia/Mumbai"@);
            assert("Asia/Mumbai"@.len() != "Pacific/Auckland"@.len());
        } else if j == 29 {
            assert(t[29].0 == "Asia/Shanghai"@);
            assert("Asia/Shanghai"@.len() != "Pacific/Auckland"@.len());
        } else if j == 30 {
            assert(t[30].0 == "Asia/Tokyo"@);
            assert("Asia/Tokyo"@.len() != "Pacific/Auckland"@.len());
        } else if j == 31 {
            assert(t[31].0 == "Asia/Singapore"@);
            assert("Asia/Singapore"@.len() != "Pacific/Auckland"@.len());
        } else if j == 32 {
            assert(t[32].0 == "Asia/Hong_Kong"@);
            assert("Asia/Hong_Kong"@.len() != "Pacific/Auckland"@.len());
        } else if j == 33 {
            assert(t[33].0 == "Asia/Seoul"@);
            assert("Asia/Seoul"@.len() != "Pacific/Auckland"@.len());
        } else if j == 34 {
            assert(t[34].0 == "Asia/Bangkok"@);
            assert("Asia/Bangkok"@.len() != "Pacific/Auckland"@.len());
        } else if j == 35 {
            assert(t[35].0 == "Asia/Jakarta"@);
            assert("Asia/Jakarta"@.len() != "Pacific/Auckland"@.len());
        } else if j == 36 {
            assert(t[36].0 == "Asia/Manila"@);
            assert("Asia/Manila"@.len() != "Pacific/Auckland"@.len());
        } else if j == 37 {
            assert(t[37].0 == "Asia/Ho_Chi_Minh"@);
            assert("Asia/Ho_Chi_Minh"@[0] != "Pacific/Auckland"@[0]);
        } else if j == 38 {
            assert(t[38].0 == "Asia/Kuala_Lumpur"@);
            assert("Asia/Kuala_Lumpur"@.len() != "Pacific/Auckland"@.len());
        } else if j == 39 {
            assert(t[39].0 == "Australia/Sydney"@);
            assert("Australia/Sydney"@[0] != "Pacific/Auckland"@[0]);
        } else if j == 40 {
            assert(t[40].0 == "Australia/Melbourne"@);
            assert("Australia/Melbourne"@.len() != "Pacific/Auckland"@.len());
        }
    }
    assert(t[41].0 == "Pacific/Auckland"@ && t[41].1 == 720);
    lemma_first_entry(t, "Pacific/Auckland"@, 41);
}

/// A lookup in a table without the name finds nothing.
proof fn lemma_no_entry(t: Seq<(Seq<char>, i32)>, tz: Seq<char>)
    requires
        forall|j: int| 0 <= j < t.len() ==> t[j].0 != tz,
    ensures
        offset_in(t, tz) is None,
    decreases t.len(),
{
    if t.len() > 0 {
        assert forall|j: int| 0 <= j < t.len() - 1 implies t.drop_first()[j].0 != tz by {
            assert(t.drop_first()[j] == t[j + 1]);
        }
        lemma_no_entry(t.drop_first(), tz);
    }
}

/// A zone that no entry of the table names is read as UTC: offset 0.
pub proof fn law_unlisted_zones_read_as_utc(tz: Seq<char>)
    requires
        forall|j: int| 0 <= j < tz_table().len() ==> tz_table()[j].0 != tz,
    ensures
        utc_offset_minutes(tz) == 0,
{
    lemma_no_entry(tz_table(), tz);
}

/// The parts joined back together, with a comma between each two.
pub open spec fn joined_by_commas(parts: Seq<Seq<char>>) -> Seq<char>
    decreases parts.len(),
{
    if parts.len() == 0 {
        Seq::empty()
    } else if parts.len() == 1 {
        parts[0]
    } else {
        joined_by_commas(parts.drop_last()) + seq![','] + parts.last()
    }
}

/// Splitting at commas loses nothing and adds nothing: there is at least one
/// part, no part holds a comma, and joining the parts with commas gives the
/// text back.
pub proof fn law_split_commas_rejoins(s: Seq<char>)
    ensures
        split_commas(s).len() >= 1,
        forall|i: int, k: int|
            0 <= i < split_commas(s).len() && 0 <= k < split_commas(s)[i].len() ==> #[trigger] split_commas(s)[i][k]
                != ',',
        joined_by_commas(split_commas(s)) == s,
    decreases s.len(),
{
    if s.len() > 0 {
        let t = s.drop_last();
        law_split_commas_rejoins(t);
        let prev = split_commas(t);
        let parts = split_commas(s);
        let c = s.last();
        assert(t.push(c) =~= s);
        if c == ',' {
            assert(parts.drop_last() =~= prev);
            assert(joined_by_commas(parts) =~= t + seq![','] + Seq::<char>::empty());
            assert forall|i: int, k: int| 0 <= i < parts.len() && 0 <= k < parts[i].len() implies #[trigger] parts[i][k]
                != ',' by {
                assert(i < prev.len());
                assert(prev[i][k] != ',');
            }
        } else {
            let n = prev.len();
            assert forall|i: int, k: int| 0 <= i < parts.len() && 0 <= k < parts[i].len() implies #[trigger] parts[i][k]
                != ',' by {
                if i == n - 1 && k == prev[i].len() {
                } else if i == n - 1 {
                    assert(parts[i][k] == prev[i][k]);
                    assert(prev[i][k] != ',');
                } else {
                    assert(prev[i][k] != ',');
                }
            }
            if n == 1 {
                assert(joined_by_commas(parts) =~= s);
            } else {
                assert(parts.drop_last() =~= prev.drop_last());
                assert(joined_by_commas(parts) =~= joined_by_commas(prev.drop_last()) + seq![','] + prev.last().push(c));
                assert(joined_by_commas(parts) =~= joined_by_commas(prev).push(c));
            }
        }
    }
}

/// Trimming the start drops the leading white space, up to the first other
/// character.
proof fn lemma_trim_start(s: Seq<char>) -> (i: int)
    ensures
        0 <= i <= s.len(),
        trim_start_text(s) == s.subrange(i, s.len() as int),
        forall|k: int| 0 <= k < i ==> is_white_space(#[trigger] s[k]),
        i < s.len() ==> !is_white_space(s[i]),
    decreases s.len(),
{
    if s.len() > 0 && is_white_space(s[0]) {
        let j = lemma_trim_start(s.drop_first());
        assert(s.drop_first().subrange(j, s.len() - 1) =~= s.subrange(j + 1, s.len() as int));
        assert forall|k: int| 0 <= k < j + 1 implies is_white_space(#[trigger] s[k]) by {
            if k > 0 {
                assert(s[k] == s.drop_first()[k - 1]);
            }
        }
        assert(j < s.len() - 1 ==> s[j + 1] == s.drop_first()[j]);
        j + 1
    } else {
        assert(s.subrange(0, s.len() as int) =~= s);
        0
    }
}

/// Trimming the end drops the trailing white space, back to the last other
/// character.
proof fn lemma_trim_end(s: Seq<char>) -> (j: int)
    ensures
        0 <= j <= s.len(),
        trim_end_text(s) == s.subrange(0, j),
        forall|k: int| j <= k < s.len() ==> is_white_space(#[trigger] s[k]),
        j > 0 ==> !is_white_space(s[j - 1]),
    decreases s.len(),
{
    if s.len() > 0 && is_white_space(s.last()) {
        let j = lemma_trim_end(s.drop_last());
        assert(s.drop_last().subrange(0, j) =~= s.subrange(0, j));
        assert forall|k: int| j <= k < s.len() implies is_white_space(#[trigger] s[k]) by {
            if k < s.len() - 1 {
                assert(s[k] == s.drop_last()[k]);
            }
        }
        assert(j > 0 ==> s[j - 1] == s.drop_last()[j - 1]);
        j
    } else {
        assert(s.subrange(0, s.len() as int) =~= s);
        s.len() as int
    }
}

/// Trimming keeps the text between the first and the last character that is
/// not white space, and drops only white space around it.
pub proof fn law_trim_drops_only_outer_white_space(s: Seq<char>)
    ensures
        exists|i: int, j: int|
            0 <= i <= j <= s.len() && trimmed_text(s) == s.subrange(i, j) && (forall|k: int|
                0 <= k < i ==> is_white_space(#[trigger] s[k])) && (forall|k: int|
                j <= k < s.len() ==> is_white_space(#[trigger] s[k])) && (i < j ==> !is_white_space(s[i])
                && !is_white_space(s[j - 1])),
{
    let i = lemma_trim_start(s);
    let t = s.subrange(i, s.len() as int);
    let j = lemma_trim_end(t);
    assert(t.subrange(0, j) =~= s.subrange(i, i + j));
    assert forall|k: int| i + j <= k < s.len() implies is_white_space(#[trigger] s[k]) by {
        assert(s[k] == t[k - i]);
    }
    if j > 0 {
        assert(s[i] == t[0]);
        assert(s[i + j - 1] == t[j - 1]);
        assert(!is_white_space(t[0])) by {
            if is_white_space(t[0]) {
                assert(t.len() > 0);
            }
        }
    }
    assert(0 <= i <= i + j <= s.len() && trimmed_text(s) == s.subrange(i, i + j));
}

} // verus!
