use mcp_scheduling::holidays::{decimal_text, get_holidays, holidays_for_code};
use mcp_scheduling::inputs::{BufferInput, HolidaysInput, OverlapInput, Participant, TimezoneConvertInput, WorkWeekInput};
use mcp_scheduling::server::SchedulingServer;
use mcp_scheduling::text::{date_part, same_text, text_has_prefix, text_less};
use mcp_scheduling::zones::{trim_text, utc_offset};
use mcp_scheduling::clock::read_stamp;

fn person(name: &str, tz: &str) -> Participant {
    Participant { name: Some(name.to_string()), timezone: Some(tz.to_string()) }
}

#[test]
fn text_order_is_byte_order() {
    assert!(text_less("2026-06-15T09:00:00", "2026-06-15T10:00:00"));
    assert!(!text_less("b", "b"));
    assert!(text_less("", "a"));
    assert!(text_less("ab", "b"));
    assert!(text_less("Z", "a"));
    assert!(text_has_prefix("2026-06-15T09:00", "2026-06-15"));
    assert!(!text_has_prefix("2026-06", "2026-06-15"));
    assert!(same_text("x", "x"));
    assert!(!same_text("x", "X"));
    assert_eq!(date_part("2026-06-15T09:00:00+03:00"), "2026-06-15");
}

#[test]
fn decimal_years() {
    assert_eq!(decimal_text(0), "0");
    assert_eq!(decimal_text(2026), "2026");
    assert_eq!(decimal_text(4294967295), "4294967295");
}

#[test]
fn holidays_kenya_lower_case_code() {
    let s = SchedulingServer::new();
    let list = s.holidays_list(&HolidaysInput { country: "ke".to_string(), year: None }, 2026);
    assert_eq!(list.year, 2026);
    assert_eq!(list.holidays.len(), 10);
    assert_eq!(list.holidays[0].date, "2026-01-01");
    assert_eq!(list.holidays[0].name, "New Year's Day");
    assert_eq!(list.holidays[9].date, "2026-12-26");
    assert_eq!(list.holidays[9].name, "Boxing Day");
}

#[test]
fn holidays_aliases_and_default() {
    let uk = holidays_for_code("UK", 2030);
    let gb = holidays_for_code("GB", 2030);
    assert_eq!(uk.len(), 8);
    assert_eq!(gb.len(), 8);
    assert_eq!(uk[7].date, "2030-12-26");
    let sa = holidays_for_code("SA", 2025);
    assert_eq!(sa[8].name, "UAE National Day");
    let other = holidays_for_code("ZZ", 2025);
    assert_eq!(other.len(), 3);
    assert_eq!(other[1].date, "2025-05-01");
    assert_eq!(other[1].name, "Labour Day");
    let jp = holidays_for_code("JP", 2026);
    assert_eq!(jp.len(), 9);
    assert_eq!(jp[0].name, "元日 (New Year)");
}

#[test]
fn holidays_explicit_year() {
    let s = SchedulingServer::new();
    let list = s.holidays_list(&HolidaysInput { country: "Fr".to_string(), year: Some(2027) }, 2031);
    assert_eq!(list.year, 2027);
    assert_eq!(list.holidays.len(), 8);
    assert_eq!(list.holidays[3].date, "2027-07-14");
    assert_eq!(list.holidays[3].name, "Fête Nationale");
}

#[test]
fn timezone_offsets_in_minutes() {
    assert_eq!(utc_offset("Africa/Nairobi"), 180);
    assert_eq!(utc_offset("Asia/Kolkata"), 330);
    assert_eq!(utc_offset("America/Los_Angeles"), -480);
    assert_eq!(utc_offset("Mars/Olympus"), 0);
}

#[test]
fn timezone_convert_differences() {
    let s = SchedulingServer::new();
    let r = s.timezone_convert(&TimezoneConvertInput {
        time: "09:00".to_string(),
        from_tz: "Africa/Nairobi".to_string(),
        to_tz: vec!["America/New_York".to_string(), "Asia/Kolkata".to_string(), "UTC".to_string()],
    });
    assert_eq!(r.len(), 3);
    assert_eq!(r[0].timezone, "America/New_York");
    assert_eq!(r[0].offset_minutes, -300);
    assert_eq!(r[0].difference_minutes, -480);
    assert_eq!(r[1].difference_minutes, 150);
    assert_eq!(r[2].offset_minutes, 0);
    assert_eq!(r[2].difference_minutes, -180);
    // and back again
    let back = s.timezone_convert(&TimezoneConvertInput {
        time: "09:00".to_string(),
        from_tz: "America/New_York".to_string(),
        to_tz: vec!["Africa/Nairobi".to_string()],
    });
    assert_eq!(back[0].difference_minutes, 480);
}

#[test]
fn find_overlap_three_zones() {
    let s = SchedulingServer::new();
    let r = s.find_overlap(&OverlapInput {
        participants: vec![
            person("James", "Africa/Nairobi"),
            person("Sarah", "America/New_York"),
            person("Wei", "Asia/Singapore"),
        ],
        duration_minutes: 60,
        date: "2026-06-15".to_string(),
        earliest_hour: None,
        latest_hour: None,
    });
    // Nairobi 05-15 UTC, New York 13-23 UTC, Singapore 00-10 UTC: no common time
    assert_eq!(r.window, Some((13 * 60, 10 * 60)));
    assert_eq!(r.overlap_minutes, Some(0));
    assert!(!r.feasible);
    assert_eq!(r.local_times.len(), 3);
    assert_eq!(r.local_times[1].name, "Sarah");
    assert_eq!(r.local_times[1].start_minutes, 8 * 60);
}

#[test]
fn find_overlap_feasible_and_defaults() {
    let s = SchedulingServer::new();
    let r = s.find_overlap(&OverlapInput {
        participants: vec![
            person("A", "Africa/Nairobi"),
            person("B", "Europe/London"),
            Participant { name: None, timezone: None },
        ],
        duration_minutes: 300,
        date: "2026-06-15".to_string(),
        earliest_hour: Some(9),
        latest_hour: Some(17),
    });
    // Nairobi 06-14 UTC, London and UTC 09-17: common 09-14 UTC, 5 hours
    assert_eq!(r.window, Some((9 * 60, 14 * 60)));
    assert_eq!(r.overlap_minutes, Some(300));
    assert!(r.feasible);
    assert_eq!(r.local_times[0].start_minutes, 12 * 60);
    assert_eq!(r.local_times[2].name, "?");
    assert_eq!(r.local_times[2].timezone, "UTC");
}

#[test]
fn find_overlap_without_participants() {
    let s = SchedulingServer::new();
    let r = s.find_overlap(&OverlapInput {
        participants: vec![],
        duration_minutes: 60,
        date: "2026-06-15".to_string(),
        earliest_hour: None,
        latest_hour: None,
    });
    assert!(r.feasible);
    assert_eq!(r.window, None);
    assert_eq!(r.overlap_minutes, None);
    assert!(r.local_times.is_empty());
}

#[test]
fn work_week_patterns() {
    let s = SchedulingServer::new();
    let mk = |p: &str, bs: Option<&str>, be: Option<&str>| WorkWeekInput {
        resource_id: "r".to_string(),
        pattern: p.to_string(),
        start_time: "08:00".to_string(),
        end_time: "17:00".to_string(),
        break_start: bs.map(|x| x.to_string()),
        break_end: be.map(|x| x.to_string()),
    };
    let w = s.work_week_set(&mk("sun-thu", Some("12:00"), None));
    assert_eq!(w.work_days, vec!["sun", "mon", "tue", "wed", "thu"]);
    assert_eq!(w.hours, "08:00-17:00");
    assert_eq!(w.break_window.as_deref(), Some("12:00-13:00"));
    let w = s.work_week_set(&mk(" mon , wed,fri ", None, Some("14:00")));
    assert_eq!(w.work_days, vec!["mon", "wed", "fri"]);
    assert_eq!(w.break_window, None);
    let w = s.work_week_set(&mk("a,,b,", Some("12:30"), Some("13:30")));
    assert_eq!(w.work_days, vec!["a", "", "b", ""]);
    assert_eq!(w.break_window.as_deref(), Some("12:30-13:30"));
}

#[test]
fn buffer_defaults_to_zero() {
    let s = SchedulingServer::new();
    let b = s.buffer_set(&BufferInput { resource_id: "r".to_string(), before_minutes: Some(15), after_minutes: None });
    assert_eq!(b.before_minutes, 15);
    assert_eq!(b.after_minutes, 0);
}

#[test]
fn holidays_default_to_the_given_current_year() {
    let s = SchedulingServer::new();
    let list = s.holidays_list(&HolidaysInput { country: "de".to_string(), year: None }, 2031);
    assert_eq!(list.year, 2031);
    assert_eq!(list.holidays[0].date, "2031-01-01");
    assert_eq!(list.holidays[0].name, "Neujahr");
}

#[test]
fn holidays_any_case_and_aliases_agree() {
    let s = SchedulingServer::new();
    let names = |c: &str| -> Vec<(String, String)> {
        s.holidays_list(&HolidaysInput { country: c.to_string(), year: Some(2026) }, 2026)
            .holidays
            .iter()
            .map(|h| (h.date.clone(), h.name.clone()))
            .collect()
    };
    assert_eq!(names("uk"), names("GB"));
    assert_eq!(names("Gb"), names("gB"));
    assert_eq!(names("sa"), names("AE"));
    assert_eq!(names("ng"), names("NG"));
}

#[test]
fn zones_outside_the_table_read_as_utc() {
    let s = SchedulingServer::new();
    let r = s.timezone_convert(&TimezoneConvertInput {
        time: "09:00".to_string(),
        from_tz: "Africa/Nairobi".to_string(),
        to_tz: vec!["Asia/Tokyo".to_string(), "America/Phoenix".to_string()],
    });
    assert_eq!(r.len(), 2);
    assert_eq!(r[0].difference_minutes, 360);
    assert_eq!(r[1].timezone, "America/Phoenix");
    assert_eq!(r[1].offset_minutes, 0);
    assert_eq!(r[1].difference_minutes, -180);
    let r = s.timezone_convert(&TimezoneConvertInput {
        time: "09:00".to_string(),
        from_tz: "Nowhere".to_string(),
        to_tz: vec!["Asia/Kolkata".to_string()],
    });
    assert_eq!(r[0].difference_minutes, 330);
    let r = s.find_overlap(&OverlapInput {
        participants: vec![person("A", "Africa/Nairobi"), person("B", "Atlantis/Capital")],
        duration_minutes: 30,
        date: "2026-06-15".to_string(),
        earliest_hour: None,
        latest_hour: None,
    });
    // Nairobi 05-15 UTC, the unknown zone 08-18 UTC: common 08-15 UTC
    assert_eq!(r.window, Some((8 * 60, 15 * 60)));
    assert_eq!(r.overlap_minutes, Some(420));
    assert!(r.feasible);
    assert_eq!(r.local_times[1].timezone, "Atlantis/Capital");
    assert_eq!(r.local_times[1].start_minutes, 8 * 60);
}

#[test]
fn overlap_ignores_order_and_never_widens() {
    let s = SchedulingServer::new();
    let run = |ps: Vec<Participant>| {
        s.find_overlap(&OverlapInput {
            participants: ps,
            duration_minutes: 60,
            date: "2026-06-15".to_string(),
            earliest_hour: None,
            latest_hour: None,
        })
    };
    let a = run(vec![person("A", "Europe/London"), person("B", "Africa/Nairobi")]);
    let b = run(vec![person("B", "Africa/Nairobi"), person("A", "Europe/London")]);
    assert_eq!(a.window, b.window);
    assert_eq!(a.overlap_minutes, Some(420));
    let c = run(vec![person("A", "Europe/London"), person("C", "America/New_York"), person("B", "Africa/Nairobi")]);
    assert!(c.overlap_minutes.unwrap() <= a.overlap_minutes.unwrap());
    // New York is 13-23 UTC: the common window shrinks to 13-15 UTC
    assert_eq!(c.overlap_minutes, Some(120));
    assert_eq!(c.window, Some((13 * 60, 15 * 60)));
}

#[test]
fn trim_strips_unicode_whitespace() {
    assert_eq!(trim_text("  mon\t"), "mon");
    assert_eq!(trim_text("\u{3000}tue\u{2003}"), "tue");
    assert_eq!(trim_text("   "), "");
    assert_eq!(trim_text("a b"), "a b");
    assert_eq!(trim_text("x\u{200B}"), "x\u{200B}");
}

#[test]
fn stamps_read_as_seconds() {
    let a = read_stamp("2026-06-15T09:00:00").unwrap();
    let b = read_stamp("2026-06-15T10:30").unwrap();
    assert_eq!(b - a, 90 * 60);
    let c = read_stamp("2026-06-16T00:00:00+03:00").unwrap();
    assert_eq!(c - a, 15 * 3600);
    let mar1 = read_stamp("2024-03-01T00:00").unwrap();
    let feb28 = read_stamp("2024-02-28T00:00").unwrap();
    assert_eq!(mar1 - feb28, 2 * 86400);
    let y1 = read_stamp("2027-01-01T00:00").unwrap();
    let y0 = read_stamp("2026-01-01T00:00").unwrap();
    assert_eq!(y1 - y0, 365 * 86400);
    assert_eq!(read_stamp("2026-06-15"), None);
    assert_eq!(read_stamp("2026-13-01T00:00"), None);
    assert_eq!(read_stamp("2026-06-15T09:00:6"), None);
}

#[test]
fn another_year_changes_only_the_year() {
    let a = get_holidays("ke", 2026);
    let b = get_holidays("KE", 987);
    assert_eq!(a.len(), 10);
    assert_eq!(a.len(), b.len());
    for (x, y) in a.iter().zip(b.iter()) {
        assert_eq!(x.name, y.name);
        assert_eq!(&x.date[4..], &y.date[3..]);
    }
    assert_eq!(a[4].date, "2026-06-01");
    assert_eq!(b[4].date, "987-06-01");
}
