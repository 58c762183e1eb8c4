//! The records the scheduler keeps: resources, bookings, shifts and time off.

use vstd::prelude::*;
use crate::text::{copy_opt_text, copy_texts, opt_text, texts};

verus! {

/// Daily working hours, one optional `(start, end)` pair per weekday.
#[derive(Debug)]
pub struct WorkingHours {
    pub monday: Option<(String, String)>,
    pub tuesday: Option<(String, String)>,
    pub wednesday: Option<(String, String)>,
    pub thursday: Option<(String, String)>,
    pub friday: Option<(String, String)>,
    pub saturday: Option<(String, String)>,
    pub sunday: Option<(String, String)>,
}

/// The characters of an optional pair of texts.
pub open spec fn opt_pair(o: Option<(String, String)>) -> Option<(Seq<char>, Seq<char>)> {
    match o {
        Some(p) => Some((p.0@, p.1@)),
        None => None,
    }
}

/// A copy of an optional pair of texts.
pub fn copy_opt_pair(o: &Option<(String, String)>) -> (r: Option<(String, String)>)
    ensures
        opt_pair(r) == opt_pair(*o),
{
    match o {
        Some(p) => Some((p.0.clone(), p.1.clone())),
        None => None,
    }
}

/// The abstract value of [`WorkingHours`].
pub struct WorkingHoursView {
    pub monday: Option<(Seq<char>, Seq<char>)>,
    pub tuesday: Option<(Seq<char>, Seq<char>)>,
    pub wednesday: Option<(Seq<char>, Seq<char>)>,
    pub thursday: Option<(Seq<char>, Seq<char>)>,
    pub friday: Option<(Seq<char>, Seq<char>)>,
    pub saturday: Option<(Seq<char>, Seq<char>)>,
    pub sunday: Option<(Seq<char>, Seq<char>)>,
}

impl View for WorkingHours {
    type V = WorkingHoursView;

    open spec fn view(&self) -> WorkingHoursView {
        WorkingHoursView {
            monday: opt_pair(self.monday),
            tuesday: opt_pair(self.tuesday),
            wednesday: opt_pair(self.wednesday),
            thursday: opt_pair(self.thursday),
            friday: opt_pair(self.friday),
            saturday: opt_pair(self.saturday),
            sunday: opt_pair(self.sunday),
        }
    }
}

impl WorkingHours {
    /// A copy with the same value.
    pub fn copied(&self) -> (r: WorkingHours)
        ensures
            r@ == self@,
    {
        WorkingHours {
            monday: copy_opt_pair(&self.monday),
            tuesday: copy_opt_pair(&self.tuesday),
            wednesday: copy_opt_pair(&self.wednesday),
            thursday: copy_opt_pair(&self.thursday),
            friday: copy_opt_pair(&self.friday),
            saturday: copy_opt_pair(&self.saturday),
            sunday: copy_opt_pair(&self.sunday),
        }
    }
}

/// A schedulable resource: a person, room, piece of equipment or vehicle.
#[derive(Debug)]
pub struct Resource {
    pub id: String,
    pub name: String,
    pub resource_type: String,
    pub capacity: Option<u32>,
    pub timezone: String,
    pub working_hours: Option<WorkingHours>,
    pub tags: Vec<String>,
}

/// The abstract value of [`Resource`].
pub struct ResourceView {
    pub id: Seq<char>,
    pub name: Seq<char>,
    pub resource_type: Seq<char>,
    pub capacity: Option<u32>,
    pub timezone: Seq<char>,
    pub working_hours: Option<WorkingHoursView>,
    pub tags: Seq<Seq<char>>,
}

impl View for Resource {
    type V = ResourceView;

    open spec fn view(&self) -> ResourceView {
        ResourceView {
            id: self.id@,
            name: self.name@,
            resource_type: self.resource_type@,
            capacity: self.capacity,
            timezone: self.timezone@,
            working_hours: match self.working_hours {
                Some(w) => Some(w@),
                None => None,
            },
            tags: texts(self.tags@),
        }
    }
}

impl Resource {
    /// A copy with the same value.
    pub fn copied(&self) -> (r: Resource)
        ensures
            r@ == self@,
    {
        Resource {
            id: self.id.clone(),
            name: self.name.clone(),
            resource_type: self.resource_type.clone(),
            capacity: self.capacity,
            timezone: self.timezone.clone(),
            working_hours: match &self.working_hours {
                Some(w) => Some(w.copied()),
                None => None,
            },
            tags: copy_texts(&self.tags),
        }
    }
}

/// A booking (appointment) of one resource from `start` to `end`.
#[derive(Debug)]
pub struct Booking {
    pub id: String,
    pub resource_id: String,
    pub title: String,
    pub start: String,
    pub end: String,
    pub status: String,
    pub booked_by: String,
    pub attendees: Vec<String>,
    pub recurrence: Option<String>,
    pub notes: Option<String>,
}

/// The abstract value of [`Booking`].
pub struct BookingView {
    pub id: Seq<char>,
    pub resource_id: Seq<char>,
    pub title: Seq<char>,
    pub start: Seq<char>,
    pub end: Seq<char>,
    pub status: Seq<char>,
    pub booked_by: Seq<char>,
    pub attendees: Seq<Seq<char>>,
    pub recurrence: Option<Seq<char>>,
    pub notes: Option<Seq<char>>,
}

impl View for Booking {
    type V = BookingView;

    open spec fn view(&self) -> BookingView {
        BookingView {
            id: self.id@,
            resource_id: self.resource_id@,
            title: self.title@,
            start: self.start@,
            end: self.end@,
            status: self.status@,
            booked_by: self.booked_by@,
            attendees: texts(self.attendees@),
            recurrence: opt_text(self.recurrence),
            notes: opt_text(self.notes),
        }
    }
}

impl Booking {
    /// A copy with the same value.
    pub fn copied(&self) -> (r: Booking)
        ensures
            r@ == self@,
    {
        Booking {
            id: self.id.clone(),
            resource_id: self.resource_id.clone(),
            title: self.title.clone(),
            start: self.start.clone(),
            end: self.end.clone(),
            status: self.status.clone(),
            booked_by: self.booked_by.clone(),
            attendees: copy_texts(&self.attendees),
            recurrence: copy_opt_text(&self.recurrence),
            notes: copy_opt_text(&self.notes),
        }
    }
}

/// A work shift of one resource (an employee).
#[derive(Debug)]
pub struct Shift {
    pub id: String,
    pub resource_id: String,
    pub role: String,
    pub start: String,
    pub end: String,
    pub status: String,
    pub break_minutes: u32,
    pub notes: Option<String>,
}

/// The abstract value of [`Shift`].
pub struct ShiftView {
    pub id: Seq<char>,
    pub resource_id: Seq<char>,
    pub role: Seq<char>,
    pub start: Seq<char>,
    pub end: Seq<char>,
    pub status: Seq<char>,
    pub break_minutes: u32,
    pub notes: Option<Seq<char>>,
}

impl View for Shift {
    type V = ShiftView;

    open spec fn view(&self) -> ShiftView {
        ShiftView {
            id: self.id@,
            resource_id: self.resource_id@,
            role: self.role@,
            start: self.start@,
            end: self.end@,
            status: self.status@,
            break_minutes: self.break_minutes,
            notes: opt_text(self.notes),
        }
    }
}

impl Shift {
    /// A copy with the same value.
    pub fn copied(&self) -> (r: Shift)
        ensures
            r@ == self@,
    {
        Shift {
            id: self.id.clone(),
            resource_id: self.resource_id.clone(),
            role: self.role.clone(),
            start: self.start.clone(),
            end: self.end.clone(),
            status: self.status.clone(),
            break_minutes: self.break_minutes,
            notes: copy_opt_text(&self.notes),
        }
    }
}

/// A leave request (or a blackout) of one resource over a range of dates.
#[derive(Debug)]
pub struct TimeOff {
    pub id: String,
    pub resource_id: String,
    pub start_date: String,
    pub end_date: String,
    pub reason: String,
    pub status: String,
}

/// The abstract value of [`TimeOff`].
pub struct TimeOffView {
    pub id: Seq<char>,
    pub resource_id: Seq<char>,
    pub start_date: Seq<char>,
    pub end_date: Seq<char>,
    pub reason: Seq<char>,
    pub status: Seq<char>,
}

impl View for TimeOff {
    type V = TimeOffView;

    open spec fn view(&self) -> TimeOffView {
        TimeOffView {
            id: self.id@,
            resource_id: self.resource_id@,
            start_date: self.start_date@,
            end_date: self.end_date@,
            reason: self.reason@,
            status: self.status@,
        }
    }
}

impl TimeOff {
    /// A copy with the same value.
    pub fn copied(&self) -> (r: TimeOff)
        ensures
            r@ == self@,
    {
        TimeOff {
            id: self.id.clone(),
            resource_id: self.resource_id.clone(),
            start_date: self.start_date.clone(),
            end_date: self.end_date.clone(),
            reason: self.reason.clone(),
            status: self.status.clone(),
        }
    }
}

} // verus!
