//! The arguments of the scheduler's tools.

use vstd::prelude::*;

verus! {

/// Arguments of `resource_create`.
#[derive(Debug)]
pub struct ResourceInput {
    pub name: String,
    pub resource_type: String,
    pub capacity: Option<u32>,
    pub timezone: Option<String>,
    pub tags: Option<Vec<String>>,
}

/// Arguments of `booking_create`.
#[derive(Debug)]
pub struct BookingInput {
    pub resource_id: String,
    pub title: String,
    pub start: String,
    pub end: String,
    pub booked_by: String,
    pub attendees: Option<Vec<String>>,
    pub recurrence: Option<String>,
    pub notes: Option<String>,
}

/// Arguments of `booking_cancel`.
#[derive(Debug)]
pub struct BookingIdInput {
    pub booking_id: String,
}

/// Arguments of `booking_reschedule`.
#[derive(Debug)]
pub struct RescheduleInput {
    pub booking_id: String,
    pub new_start: String,
    pub new_end: String,
}

/// Arguments of `availability_check` and `schedule_summary`.
#[derive(Debug)]
pub struct AvailabilityInput {
    pub resource_id: String,
    pub date: String,
    pub duration_minutes: Option<u32>,
}

/// Arguments of `shift_create`.
#[derive(Debug)]
pub struct ShiftInput {
    pub resource_id: String,
    pub role: String,
    pub start: String,
    pub end: String,
    pub break_minutes: Option<u32>,
    pub notes: Option<String>,
}

/// Arguments of `shift_update`.
#[derive(Debug)]
pub struct ShiftIdInput {
    pub shift_id: String,
    pub status: String,
}

/// Arguments of `time_off_request`.
#[derive(Debug)]
pub struct TimeOffInput {
    pub resource_id: String,
    pub start_date: String,
    pub end_date: String,
    pub reason: String,
}

/// Arguments of `time_off_decide`.
#[derive(Debug)]
pub struct TimeOffDecideInput {
    pub time_off_id: String,
    pub decision: String,
}

/// Arguments of `time_off_list`.
#[derive(Debug)]
pub struct ResourceIdInput {
    pub resource_id: String,
}

/// Arguments of `booking_list` and `shift_list`.
#[derive(Debug)]
pub struct DateRangeInput {
    pub resource_id: Option<String>,
    pub start: String,
    pub end: String,
}

/// Arguments of `find_slot`.
#[derive(Debug)]
pub struct FindSlotInput {
    pub resource_ids: Vec<String>,
    pub duration_minutes: u32,
    pub date: String,
    pub earliest: Option<String>,
    pub latest: Option<String>,
}

/// Arguments of `holidays_list`: an ISO 3166-1 alpha-2 country code and a year
/// (the current year when absent).
#[derive(Debug)]
pub struct HolidaysInput {
    pub country: String,
    pub year: Option<u32>,
}

/// Arguments of `timezone_convert`: a time, its IANA timezone, and the
/// timezones to convert to.
#[derive(Debug)]
pub struct TimezoneConvertInput {
    pub time: String,
    pub from_tz: String,
    pub to_tz: Vec<String>,
}

/// One participant of `find_overlap`: the `name` and `timezone` texts it
/// was given, each absent when it was missing or not a text.
#[derive(Debug)]
pub struct Participant {
    pub name: Option<String>,
    pub timezone: Option<String>,
}

/// Arguments of `find_overlap`: participants, the meeting length, the date,
/// and the acceptable local hours (8 to 18 when absent).
#[derive(Debug)]
pub struct OverlapInput {
    pub participants: Vec<Participant>,
    pub duration_minutes: u32,
    pub date: String,
    pub earliest_hour: Option<u32>,
    pub latest_hour: Option<u32>,
}

/// Arguments of `work_week_set`: a pattern (`mon-fri`, `sun-thu`, `mon-sat`,
/// `sat-thu`, or a comma-separated list of days), daily hours and a break.
#[derive(Debug)]
pub struct WorkWeekInput {
    pub resource_id: String,
    pub pattern: String,
    pub start_time: String,
    pub end_time: String,
    pub break_start: Option<String>,
    pub break_end: Option<String>,
}

/// Arguments of `buffer_set`: minutes kept free before and after bookings.
#[derive(Debug)]
pub struct BufferInput {
    pub resource_id: String,
    pub before_minutes: Option<u32>,
    pub after_minutes: Option<u32>,
}

/// Arguments of `blackout_set`: a resource (or `all`), a date range and a reason.
#[derive(Debug)]
pub struct BlackoutInput {
    pub resource_id: String,
    pub start_date: String,
    pub end_date: String,
    pub reason: String,
}

} // verus!
