//! The scheduler's tools over resources, bookings, shifts and time off.
//! Each tool that makes a record has two forms: one that draws a fresh
//! identifier and one that is handed the identifier to use.

use vstd::prelude::*;
use vstd::string::*;
use crate::inputs::{
    BlackoutInput, BookingIdInput, BookingInput, DateRangeInput, RescheduleInput, ResourceIdInput,
    ResourceInput, ShiftIdInput, ShiftInput, TimeOffDecideInput, TimeOffInput,
};
use crate::store::{conflict_in, is_active, is_id_with_prefix, on_leave, shift_conflict_in, Store, StoreView};
use crate::text::{date_part, date_prefix, day_of, day_part, has_date_prefix, join_text, opt_text, same_text, text_le, texts};
use crate::types::{Booking, BookingView, Resource, ResourceView, Shift, ShiftView, TimeOff, TimeOffView};

verus! {

/// Why a tool refused a request.
#[derive(Debug, Clone, Copy, PartialEq, Eq, Structural)]
pub enum ScheduleError {
    /// The resource is already booked (or, for a shift, on shift) at that time.
    Conflict,
    /// The resource is on approved time off that day.
    TimeOff,
    /// No booking has that id.
    BookingNotFound,
    /// No shift has that id.
    ShiftNotFound,
    /// No time-off entry has that id.
    TimeOffNotFound,
}

/// The scheduling engine behind the tools.
pub struct SchedulingServer {
    pub store: Store,
}

/// The texts of an optional list, empty when absent.
pub open spec fn opt_texts(o: Option<Vec<String>>) -> Seq<Seq<char>> {
    match o {
        Some(v) => texts(v@),
        None => Seq::empty(),
    }
}

/// `i` is the first position of `id` in `ids`.
pub open spec fn first_at(ids: Seq<Seq<char>>, id: Seq<char>, i: int) -> bool {
    &&& 0 <= i < ids.len()
    &&& ids[i] == id
    &&& forall|k: int| 0 <= k < i ==> ids[k] != id
}

/// `id` does not occur in `ids`.
pub open spec fn absent(ids: Seq<Seq<char>>, id: Seq<char>) -> bool {
    forall|k: int| 0 <= k < ids.len() ==> ids[k] != id
}

/// The first position of `id` in `ids` (meaningful when it occurs).
pub open spec fn first_index(ids: Seq<Seq<char>>, id: Seq<char>) -> int {
    choose|i: int| first_at(ids, id, i)
}

/// There is one first position.
pub proof fn lemma_first_at_unique(ids: Seq<Seq<char>>, id: Seq<char>, i: int, j: int)
    requires
        first_at(ids, id, i),
        first_at(ids, id, j),
    ensures
        i == j,
{
    if i < j {
        assert(ids[i] != id);
    } else if j < i {
        assert(ids[j] != id);
    }
}

/// Some position holds `id`, so there is a first one.
proof fn lemma_first_from(ids: Seq<Seq<char>>, id: Seq<char>, k: int)
    requires
        0 <= k < ids.len(),
        ids[k] == id,
    ensures
        exists|i: int| first_at(ids, id, i),
    decreases k,
{
    if forall|j: int| 0 <= j < k ==> ids[j] != id {
        assert(first_at(ids, id, k));
    } else {
        let j = choose|j: int| 0 <= j < k && ids[j] == id;
        lemma_first_from(ids, id, j);
    }
}

/// When `id` occurs in `ids`, [`first_index`] is its first position.
pub proof fn lemma_first_index(ids: Seq<Seq<char>>, id: Seq<char>)
    requires
        !absent(ids, id),
    ensures
        first_at(ids, id, first_index(ids, id)),
{
    let k = choose|k: int| 0 <= k < ids.len() && ids[k] == id;
    lemma_first_from(ids, id, k);
}

/// The ids of resources, in order.
pub open spec fn resource_ids(rs: Seq<ResourceView>) -> Seq<Seq<char>> {
    rs.map_values(|r: ResourceView| r.id)
}

/// The ids of bookings, in order.
pub open spec fn booking_ids(bs: Seq<BookingView>) -> Seq<Seq<char>> {
    bs.map_values(|b: BookingView| b.id)
}

/// The ids of shifts, in order.
pub open spec fn shift_ids(ss: Seq<ShiftView>) -> Seq<Seq<char>> {
    ss.map_values(|s: ShiftView| s.id)
}

/// The ids of time-off entries, in order.
pub open spec fn time_off_ids(ts: Seq<TimeOffView>) -> Seq<Seq<char>> {
    ts.map_values(|t: TimeOffView| t.id)
}

/// No two resources share an id (resources are keyed by id).
pub open spec fn resources_keyed(rs: Seq<ResourceView>) -> bool {
    forall|i: int, j: int| 0 <= i < j < rs.len() ==> rs[i].id != rs[j].id
}

/// The resource that `resource_create` makes under `id`.
pub open spec fn resource_from(id: Seq<char>, input: ResourceInput) -> ResourceView {
    ResourceView {
        id: id,
        name: input.name@,
        resource_type: input.resource_type@,
        capacity: input.capacity,
        timezone: match input.timezone {
            Some(t) => t@,
            None => "UTC"@,
        },
        working_hours: None,
        tags: opt_texts(input.tags),
    }
}

/// `rs` with `r` stored under its id: replacing the resource with that id,
/// or added at the end when there is none.
pub open spec fn put_resource(rs: Seq<ResourceView>, r: ResourceView) -> Seq<ResourceView> {
    if absent(resource_ids(rs), r.id) {
        rs.push(r)
    } else {
        rs.update(first_index(resource_ids(rs), r.id), r)
    }
}

/// The resources keyed by id: each id that occurs, with the first resource
/// that has it.
pub open spec fn resource_map(rs: Seq<ResourceView>) -> Map<Seq<char>, ResourceView> {
    Map::new(|k: Seq<char>| !absent(resource_ids(rs), k), |k: Seq<char>| rs[first_index(resource_ids(rs), k)])
}

/// The booking that `booking_create` makes under `id`.
pub open spec fn booking_from(id: Seq<char>, input: BookingInput) -> BookingView {
    BookingView {
        id: id,
        resource_id: input.resource_id@,
        title: input.title@,
        start: input.start@,
        end: input.end@,
        status: "confirmed"@,
        booked_by: input.booked_by@,
        attendees: opt_texts(input.attendees),
        recurrence: opt_text(input.recurrence),
        notes: opt_text(input.notes),
    }
}

/// What `booking_create` does with identifier `id`: refuse on a conflict,
/// then refuse when the start date is on approved leave, else add the
/// booking, confirmed.
pub open spec fn booking_created(
    pre: StoreView,
    id: Seq<char>,
    input: BookingInput,
    post: StoreView,
    r: Result<String, ScheduleError>,
) -> bool {
    if conflict_in(pre.bookings, input.resource_id@, input.start@, input.end@, None) {
        r matches Err(ScheduleError::Conflict) && post == pre
    } else if on_leave(pre.time_off, input.resource_id@, date_prefix(input.start@)) {
        r matches Err(ScheduleError::TimeOff) && post == pre
    } else {
        &&& r matches Ok(bid) && bid@ == id
        &&& post == StoreView { bookings: pre.bookings.push(booking_from(id, input)), ..pre }
    }
}

/// What `booking_cancel` does: mark the first booking with the id cancelled.
pub open spec fn booking_cancelled(pre: StoreView, id: Seq<char>, post: StoreView, r: Result<(), ScheduleError>) -> bool {
    if absent(booking_ids(pre.bookings), id) {
        r matches Err(ScheduleError::BookingNotFound) && post == pre
    } else {
        let i = first_index(booking_ids(pre.bookings), id);
        &&& r matches Ok(_)
        &&& post == StoreView {
            bookings: pre.bookings.update(i, BookingView { status: "cancelled"@, ..pre.bookings[i] }),
            ..pre
        }
    }
}

/// What `booking_reschedule` does: find the first booking with the id, refuse
/// when another active booking of its resource (one with a different id)
/// overlaps the new times, refuse when approved time off of its resource
/// covers the day of the new start (see [`day_of`]), else move it to the new
/// times.
pub open spec fn booking_rescheduled(
    pre: StoreView,
    input: RescheduleInput,
    post: StoreView,
    r: Result<(), ScheduleError>,
) -> bool {
    let id = input.booking_id@;
    if absent(booking_ids(pre.bookings), id) {
        r matches Err(ScheduleError::BookingNotFound) && post == pre
    } else {
        let i = first_index(booking_ids(pre.bookings), id);
        let b = pre.bookings[i];
        if conflict_in(pre.bookings, b.resource_id, input.new_start@, input.new_end@, Some(id)) {
            r matches Err(ScheduleError::Conflict) && post == pre
        } else if on_leave(pre.time_off, b.resource_id, day_of(input.new_start@)) {
            r matches Err(ScheduleError::TimeOff) && post == pre
        } else {
            &&& r matches Ok(_)
            &&& post == StoreView {
                bookings: pre.bookings.update(i, BookingView { start: input.new_start@, end: input.new_end@, ..b }),
                ..pre
            }
        }
    }
}

/// The shift that `shift_create` makes under `id`: scheduled, with a
/// 30-minute break unless another length is given.
pub open spec fn shift_from(id: Seq<char>, input: ShiftInput) -> ShiftView {
    ShiftView {
        id: id,
        resource_id: input.resource_id@,
        role: input.role@,
        start: input.start@,
        end: input.end@,
        status: "scheduled"@,
        break_minutes: match input.break_minutes {
            Some(m) => m,
            None => 30,
        },
        notes: opt_text(input.notes),
    }
}

/// What `shift_create` does with identifier `id`: refuse when the start date
/// is on approved leave, refuse when another shift of the resource overlaps
/// the new one, else add the shift.
pub open spec fn shift_created(
    pre: StoreView,
    id: Seq<char>,
    input: ShiftInput,
    post: StoreView,
    r: Result<String, ScheduleError>,
) -> bool {
    if on_leave(pre.time_off, input.resource_id@, date_prefix(input.start@)) {
        r matches Err(ScheduleError::TimeOff) && post == pre
    } else if shift_conflict_in(pre.shifts, input.resource_id@, input.start@, input.end@) {
        r matches Err(ScheduleError::Conflict) && post == pre
    } else {
        &&& r matches Ok(sid) && sid@ == id
        &&& post == StoreView { shifts: pre.shifts.push(shift_from(id, input)), ..pre }
    }
}

/// What `shift_update` does: set the status of the first shift with the id.
pub open spec fn shift_updated(pre: StoreView, input: ShiftIdInput, post: StoreView, r: Result<(), ScheduleError>) -> bool {
    let id = input.shift_id@;
    if absent(shift_ids(pre.shifts), id) {
        r matches Err(ScheduleError::ShiftNotFound) && post == pre
    } else {
        let i = first_index(shift_ids(pre.shifts), id);
        &&& r matches Ok(_)
        &&& post == StoreView {
            shifts: pre.shifts.update(i, ShiftView { status: input.status@, ..pre.shifts[i] }),
            ..pre
        }
    }
}

/// The pending request that `time_off_request` makes under `id`.
pub open spec fn time_off_from(id: Seq<char>, input: TimeOffInput) -> TimeOffView {
    TimeOffView {
        id: id,
        resource_id: input.resource_id@,
        start_date: input.start_date@,
        end_date: input.end_date@,
        reason: input.reason@,
        status: "pending"@,
    }
}

/// What `time_off_decide` does: set the status of the first entry with the id
/// to the decision.
pub open spec fn time_off_decided(
    pre: StoreView,
    input: TimeOffDecideInput,
    post: StoreView,
    r: Result<(), ScheduleError>,
) -> bool {
    let id = input.time_off_id@;
    if absent(time_off_ids(pre.time_off), id) {
        r matches Err(ScheduleError::TimeOffNotFound) && post == pre
    } else {
        let i = first_index(time_off_ids(pre.time_off), id);
        &&& r matches Ok(_)
        &&& post == StoreView {
            time_off: pre.time_off.update(i, TimeOffView { status: input.decision@, ..pre.time_off[i] }),
            ..pre
        }
    }
}

/// The approved entry that `blackout_set` makes under `id`, its reason
/// prefixed with `blackout: `.
pub open spec fn blackout_from(id: Seq<char>, input: BlackoutInput) -> TimeOffView {
    TimeOffView {
        id: id,
        resource_id: input.resource_id@,
        start_date: input.start_date@,
        end_date: input.end_date@,
        reason: "blackout: "@ + input.reason@,
        status: "approved"@,
    }
}

/// `booking_list` keeps a booking when it is of the given resource (if one is
/// given), starts within `[start, end]`, and is not cancelled.
pub open spec fn booking_listed(b: BookingView, input: DateRangeInput) -> bool {
    &&& match input.resource_id {
        Some(r) => b.resource_id == r@,
        None => true,
    }
    &&& text_le(input.start@, b.start)
    &&& text_le(b.start, input.end@)
    &&& is_active(b)
}

/// `shift_list` keeps a shift when it is of the given resource (if one is
/// given) and starts within `[start, end]`.
pub open spec fn shift_listed(s: ShiftView, input: DateRangeInput) -> bool {
    &&& match input.resource_id {
        Some(r) => s.resource_id == r@,
        None => true,
    }
    &&& text_le(input.start@, s.start)
    &&& text_le(s.start, input.end@)
}

impl Store {
    /// The first booking with id `id`.
    pub fn find_booking(&self, id: &str) -> (r: Option<usize>)
        ensures
            match r {
                Some(i) => first_at(booking_ids(self@.bookings), id@, i as int),
                None => absent(booking_ids(self@.bookings), id@),
            },
    {
        let mut i: usize = 0;
        while i < self.bookings.len()
            invariant
                i <= self.bookings@.len(),
                forall|k: int| 0 <= k < i ==> booking_ids(self@.bookings)[k] != id@,
            decreases self.bookings@.len() - i,
        {
            if same_text(self.bookings[i].id.as_str(), id) {
                return Some(i);
            }
            i = i + 1;
        }
        None
    }

    /// The first shift with id `id`.
    pub fn find_shift(&self, id: &str) -> (r: Option<usize>)
        ensures
            match r {
                Some(i) => first_at(shift_ids(self@.shifts), id@, i as int),
                None => absent(shift_ids(self@.shifts), id@),
            },
    {
        let mut i: usize = 0;
        while i < self.shifts.len()
            invariant
                i <= self.shifts@.len(),
                forall|k: int| 0 <= k < i ==> shift_ids(self@.shifts)[k] != id@,
            decreases self.shifts@.len() - i,
        {
            if same_text(self.shifts[i].id.as_str(), id) {
                return Some(i);
            }
            i = i + 1;
        }
        None
    }

    /// The first time-off entry with id `id`.
    pub fn find_time_off(&self, id: &str) -> (r: Option<usize>)
        ensures
            match r {
                Some(i) => first_at(time_off_ids(self@.time_off), id@, i as int),
                None => absent(time_off_ids(self@.time_off), id@),
            },
    {
        let mut i: usize = 0;
        while i < self.time_off.len()
            invariant
                i <= self.time_off@.len(),
                forall|k: int| 0 <= k < i ==> time_off_ids(self@.time_off)[k] != id@,
            decreases self.time_off@.len() - i,
        {
            if same_text(self.time_off[i].id.as_str(), id) {
                return Some(i);
            }
            i = i + 1;
        }
        None
    }

    /// The resource with id `id`.
    pub fn find_resource(&self, id: &str) -> (r: Option<usize>)
        ensures
            match r {
                Some(i) => first_at(resource_ids(self@.resources), id@, i as int),
                None => absent(resource_ids(self@.resources), id@),
            },
    {
        let mut i: usize = 0;
        while i < self.resources.len()
            invariant
                i <= self.resources@.len(),
                forall|k: int| 0 <= k < i ==> resource_ids(self@.resources)[k] != id@,
            decreases self.resources@.len() - i,
        {
            if same_text(self.resources[i].id.as_str(), id) {
                return Some(i);
            }
            i = i + 1;
        }
        None
    }
}

impl SchedulingServer {
    /// A scheduler with an empty store.
    pub fn new() -> (s: SchedulingServer)
        ensures
            s.store@.resources.len() == 0,
            s.store@.bookings.len() == 0,
            s.store@.shifts.len() == 0,
            s.store@.time_off.len() == 0,
    {
        SchedulingServer { store: Store::new() }
    }

    /// `resource_create` with a given identifier: stores the resource under
    /// `id` (timezone `UTC` and no tags unless given) and returns `id`.
    pub fn create_resource_as(&mut self, id: String, input: ResourceInput) -> (r: String)
        ensures
            r@ == id@,
            final(self).store@ == (StoreView {
                resources: put_resource(old(self).store@.resources, resource_from(id@, input)),
                ..old(self).store@
            }),
            resources_keyed(old(self).store@.resources) ==> resources_keyed(final(self).store@.resources),
    {
        let ghost pre = self.store@;
        let ghost new_view = resource_from(id@, input);
        let timezone = match input.timezone {
            Some(t) => t,
            None => String::from_str("UTC"),
        };
        let tags = match input.tags {
            Some(v) => v,
            None => Vec::new(),
        };
        let found = self.store.find_resource(id.as_str());
        let res = Resource {
            id: id.clone(),
            name: input.name,
            resource_type: input.resource_type,
            capacity: input.capacity,
            timezone: timezone,
            working_hours: None,
            tags: tags,
        };
        assert(res@ == new_view) by {
            assert(res@.tags =~= new_view.tags);
        }
        match found {
            Some(i) => {
                self.store.resources.set(i, res);
                proof {
                    assert(!absent(resource_ids(pre.resources), id@));
                    lemma_first_at_unique(resource_ids(pre.resources), id@, i as int, first_index(resource_ids(pre.resources), id@));
                    assert(self.store@.resources =~= put_resource(pre.resources, new_view));
                    assert forall|a: int, b: int| resources_keyed(pre.resources) && 0 <= a < b < self.store@.resources.len()
                        implies self.store@.resources[a].id != self.store@.resources[b].id by {
                        assert(resource_ids(pre.resources)[a] == pre.resources[a].id);
                        assert(resource_ids(pre.resources)[b] == pre.resources[b].id);
                    }
                }
            },
            None => {
                self.store.resources.push(res);
                proof {
                    assert(self.store@.resources =~= put_resource(pre.resources, new_view));
                    assert forall|a: int, b: int| resources_keyed(pre.resources) && 0 <= a < b < self.store@.resources.len()
                        implies self.store@.resources[a].id != self.store@.resources[b].id by {
                        assert(resource_ids(pre.resources)[a] == pre.resources[a].id);
                    }
                }
            },
        }
        id
    }

    /// Creates a resource under a fresh identifier `res_xxxxxxxx` and returns it.
    pub fn resource_create(&mut self, input: ResourceInput) -> (r: String)
        ensures
            is_id_with_prefix(r@, "res"@),
            final(self).store@ == (StoreView {
                resources: put_resource(old(self).store@.resources, resource_from(r@, input)),
                ..old(self).store@
            }),
            resources_keyed(old(self).store@.resources) ==> resources_keyed(final(self).store@.resources),
    {
        let id = Store::new_id("res");
        self.create_resource_as(id, input)
    }

    /// All resources.
    pub fn resource_list(&self) -> (r: Vec<Resource>)
        ensures
            r@.map_values(|x: Resource| x@) == self.store@.resources,
    {
        let mut r: Vec<Resource> = Vec::new();
        let mut i: usize = 0;
        while i < self.store.resources.len()
            invariant
                i <= self.store@.resources.len(),
                r@.len() == i,
                forall|k: int| 0 <= k < i ==> #[trigger] r@[k]@ == self.store@.resources[k],
            decreases self.store@.resources.len() - i,
        {
            r.push(self.store.resources[i].copied());
            i = i + 1;
        }
        assert(r@.map_values(|x: Resource| x@) =~= self.store@.resources);
        r
    }

    /// `booking_create` with a given identifier (see [`booking_created`]).
    pub fn create_booking_as(&mut self, id: String, input: BookingInput) -> (r: Result<String, ScheduleError>)
        requires
            conflict_in(old(self).store@.bookings, input.resource_id@, input.start@, input.end@, None)
                || has_date_prefix(input.start@),
        ensures
            booking_created(old(self).store@, id@, input, final(self).store@, r),
    {
        let ghost pre = self.store@;
        if self.store.has_conflict(input.resource_id.as_str(), input.start.as_str(), input.end.as_str(), None) {
            return Err(ScheduleError::Conflict);
        }
        let day = date_part(input.start.as_str());
        if self.store.is_on_time_off(input.resource_id.as_str(), day) {
            return Err(ScheduleError::TimeOff);
        }
        let ghost new_view = booking_from(id@, input);
        let attendees = match input.attendees {
            Some(v) => v,
            None => Vec::new(),
        };
        let booking = Booking {
            id: id.clone(),
            resource_id: input.resource_id,
            title: input.title,
            start: input.start,
            end: input.end,
            status: String::from_str("confirmed"),
            booked_by: input.booked_by,
            attendees: attendees,
            recurrence: input.recurrence,
            notes: input.notes,
        };
        assert(booking@ == new_view) by {
            assert(booking@.attendees =~= new_view.attendees);
        }
        self.store.bookings.push(booking);
        assert(self.store@.bookings =~= pre.bookings.push(new_view));
        Ok(id)
    }

    /// Books a resource under a fresh identifier `bk_xxxxxxxx`, refusing when
    /// it is already booked at that time or on approved leave that day.
    pub fn booking_create(&mut self, input: BookingInput) -> (r: Result<String, ScheduleError>)
        requires
            conflict_in(old(self).store@.bookings, input.resource_id@, input.start@, input.end@, None)
                || has_date_prefix(input.start@),
        ensures
            exists|id: Seq<char>|
                is_id_with_prefix(id, "bk"@) && booking_created(old(self).store@, id, input, final(self).store@, r),
    {
        let id = Store::new_id("bk");
        let ghost gid = id@;
        let r = self.create_booking_as(id, input);
        assert(is_id_with_prefix(gid, "bk"@));
        r
    }

    /// Cancels the first booking with the given id.
    pub fn booking_cancel(&mut self, input: BookingIdInput) -> (r: Result<(), ScheduleError>)
        ensures
            booking_cancelled(old(self).store@, input.booking_id@, final(self).store@, r),
    {
        let ghost pre = self.store@;
        match self.store.find_booking(input.booking_id.as_str()) {
            None => Err(ScheduleError::BookingNotFound),
            Some(i) => {
                let mut b = self.store.bookings[i].copied();
                b.status = String::from_str("cancelled");
                self.store.bookings.set(i, b);
                proof {
                    lemma_first_at_unique(booking_ids(pre.bookings), input.booking_id@, i as int,
                        first_index(booking_ids(pre.bookings), input.booking_id@));
                    assert(self.store@.bookings =~= pre.bookings.update(i as int,
                        BookingView { status: "cancelled"@, ..pre.bookings[i as int] }));
                }
                Ok(())
            },
        }
    }

    /// Moves the first booking with the given id to new times, refusing when
    /// another active booking of its resource overlaps them or when its
    /// resource is on approved time off that day.
    pub fn booking_reschedule(&mut self, input: RescheduleInput) -> (r: Result<(), ScheduleError>)
        ensures
            booking_rescheduled(old(self).store@, input, final(self).store@, r),
    {
        let ghost pre = self.store@;
        let i = match self.store.find_booking(input.booking_id.as_str()) {
            None => { return Err(ScheduleError::BookingNotFound); },
            Some(i) => i,
        };
        proof {
            lemma_first_at_unique(booking_ids(pre.bookings), input.booking_id@, i as int,
                first_index(booking_ids(pre.bookings), input.booking_id@));
        }
        let resource_id = self.store.bookings[i].resource_id.clone();
        if self.store.has_conflict(resource_id.as_str(), input.new_start.as_str(), input.new_end.as_str(),
            Some(input.booking_id.as_str())) {
            return Err(ScheduleError::Conflict);
        }
        if self.store.is_on_time_off(resource_id.as_str(), day_part(input.new_start.as_str())) {
            return Err(ScheduleError::TimeOff);
        }
        let mut b = self.store.bookings[i].copied();
        b.start = input.new_start;
        b.end = input.new_end;
        self.store.bookings.set(i, b);
        assert(self.store@.bookings =~= pre.bookings.update(i as int,
            BookingView { start: input.new_start@, end: input.new_end@, ..pre.bookings[i as int] }));
        Ok(())
    }

    /// Active bookings of the given resource (or of all) starting within the range.
    pub fn booking_list(&self, input: DateRangeInput) -> (r: Vec<Booking>)
        ensures
            r@.map_values(|x: Booking| x@) == self.store@.bookings.filter(|b: BookingView| booking_listed(b, input)),
    {
        let ghost pred = |b: BookingView| booking_listed(b, input);
        let mut r: Vec<Booking> = Vec::new();
        let mut i: usize = 0;
        while i < self.store.bookings.len()
            invariant
                i <= self.store@.bookings.len(),
                pred == (|b: BookingView| booking_listed(b, input)),
                r@.map_values(|x: Booking| x@) == self.store@.bookings.take(i as int).filter(pred),
            decreases self.store@.bookings.len() - i,
        {
            let b = &self.store.bookings[i];
            let keep_resource = match &input.resource_id {
                Some(rid) => same_text(b.resource_id.as_str(), rid.as_str()),
                None => true,
            };
            let keep = keep_resource && !crate::text::text_less(b.start.as_str(), input.start.as_str())
                && !crate::text::text_less(input.end.as_str(), b.start.as_str())
                && !same_text(b.status.as_str(), "cancelled");
            proof {
                assert(self.store@.bookings.take(i + 1) =~= self.store@.bookings.take(i as int).push(b@));
                self.store@.bookings.take(i as int).lemma_filter_push(b@, pred);
                assert(keep == pred(b@));
            }
            if keep {
                let ghost before = r@;
                r.push(b.copied());
                assert(r@.map_values(|x: Booking| x@) =~= before.map_values(|x: Booking| x@).push(b@));
            }
            i = i + 1;
        }
        assert(self.store@.bookings.take(self.store@.bookings.len() as int) =~= self.store@.bookings);
        r
    }

    /// `shift_create` with a given identifier (see [`shift_created`]).
    pub fn create_shift_as(&mut self, id: String, input: ShiftInput) -> (r: Result<String, ScheduleError>)
        requires
            has_date_prefix(input.start@),
        ensures
            shift_created(old(self).store@, id@, input, final(self).store@, r),
    {
        let ghost pre = self.store@;
        let day = date_part(input.start.as_str());
        if self.store.is_on_time_off(input.resource_id.as_str(), day) {
            return Err(ScheduleError::TimeOff);
        }
        if self.store.has_shift_conflict(input.resource_id.as_str(), input.start.as_str(), input.end.as_str()) {
            return Err(ScheduleError::Conflict);
        }
        let ghost new_view = shift_from(id@, input);
        let break_minutes = match input.break_minutes {
            Some(m) => m,
            None => 30,
        };
        let shift = Shift {
            id: id.clone(),
            resource_id: input.resource_id,
            role: input.role,
            start: input.start,
            end: input.end,
            status: String::from_str("scheduled"),
            break_minutes: break_minutes,
            notes: input.notes,
        };
        assert(shift@ == new_view);
        self.store.shifts.push(shift);
        assert(self.store@.shifts =~= pre.shifts.push(new_view));
        Ok(id)
    }

    /// Schedules a shift under a fresh identifier `sh_xxxxxxxx`, refusing when
    /// the resource is on approved leave that day or already has a shift
    /// overlapping it.
    pub fn shift_create(&mut self, input: ShiftInput) -> (r: Result<String, ScheduleError>)
        requires
            has_date_prefix(input.start@),
        ensures
            exists|id: Seq<char>|
                is_id_with_prefix(id, "sh"@) && shift_created(old(self).store@, id, input, final(self).store@, r),
    {
        let id = Store::new_id("sh");
        let ghost gid = id@;
        let r = self.create_shift_as(id, input);
        assert(is_id_with_prefix(gid, "sh"@));
        r
    }

    /// Sets the status of the first shift with the given id.
    pub fn shift_update(&mut self, input: ShiftIdInput) -> (r: Result<(), ScheduleError>)
        ensures
            shift_updated(old(self).store@, input, final(self).store@, r),
    {
        let ghost pre = self.store@;
        match self.store.find_shift(input.shift_id.as_str()) {
            None => Err(ScheduleError::ShiftNotFound),
            Some(i) => {
                let mut sh = self.store.shifts[i].copied();
                sh.status = input.status.clone();
                self.store.shifts.set(i, sh);
                proof {
                    lemma_first_at_unique(shift_ids(pre.shifts), input.shift_id@, i as int,
                        first_index(shift_ids(pre.shifts), input.shift_id@));
                    assert(self.store@.shifts =~= pre.shifts.update(i as int,
                        ShiftView { status: input.status@, ..pre.shifts[i as int] }));
                }
                Ok(())
            },
        }
    }

    /// Shifts of the given resource (or of all) starting within the range.
    pub fn shift_list(&self, input: DateRangeInput) -> (r: Vec<Shift>)
        ensures
            r@.map_values(|x: Shift| x@) == self.store@.shifts.filter(|s: ShiftView| shift_listed(s, input)),
    {
        let ghost pred = |s: ShiftView| shift_listed(s, input);
        let mut r: Vec<Shift> = Vec::new();
        let mut i: usize = 0;
        while i < self.store.shifts.len()
            invariant
                i <= self.store@.shifts.len(),
                pred == (|s: ShiftView| shift_listed(s, input)),
                r@.map_values(|x: Shift| x@) == self.store@.shifts.take(i as int).filter(pred),
            decreases self.store@.shifts.len() - i,
        {
            let sh = &self.store.shifts[i];
            let keep_resource = match &input.resource_id {
                Some(rid) => same_text(sh.resource_id.as_str(), rid.as_str()),
                None => true,
            };
            let keep = keep_resource && !crate::text::text_less(sh.start.as_str(), input.start.as_str())
                && !crate::text::text_less(input.end.as_str(), sh.start.as_str());
            proof {
                assert(self.store@.shifts.take(i + 1) =~= self.store@.shifts.take(i as int).push(sh@));
                self.store@.shifts.take(i as int).lemma_filter_push(sh@, pred);
                assert(keep == pred(sh@));
            }
            if keep {
                let ghost before = r@;
                r.push(sh.copied());
                assert(r@.map_values(|x: Shift| x@) =~= before.map_values(|x: Shift| x@).push(sh@));
            }
            i = i + 1;
        }
        assert(self.store@.shifts.take(self.store@.shifts.len() as int) =~= self.store@.shifts);
        r
    }

    /// `time_off_request` with a given identifier: adds a pending request.
    pub fn request_time_off_as(&mut self, id: String, input: TimeOffInput) -> (r: String)
        ensures
            r@ == id@,
            final(self).store@ == (StoreView {
                time_off: old(self).store@.time_off.push(time_off_from(id@, input)),
                ..old(self).store@
            }),
    {
        let ghost pre = self.store@;
        let t = TimeOff {
            id: id.clone(),
            resource_id: input.resource_id,
            start_date: input.start_date,
            end_date: input.end_date,
            reason: input.reason,
            status: String::from_str("pending"),
        };
        self.store.time_off.push(t);
        assert(self.store@.time_off =~= pre.time_off.push(time_off_from(id@, input)));
        id
    }

    /// Files a pending time-off request under a fresh identifier `to_xxxxxxxx`.
    pub fn time_off_request(&mut self, input: TimeOffInput) -> (r: String)
        ensures
            is_id_with_prefix(r@, "to"@),
            final(self).store@ == (StoreView {
                time_off: old(self).store@.time_off.push(time_off_from(r@, input)),
                ..old(self).store@
            }),
    {
        let id = Store::new_id("to");
        self.request_time_off_as(id, input)
    }

    /// Records the decision (its text becomes the status) on the first
    /// time-off entry with the given id.
    pub fn time_off_decide(&mut self, input: TimeOffDecideInput) -> (r: Result<(), ScheduleError>)
        ensures
            time_off_decided(old(self).store@, input, final(self).store@, r),
    {
        let ghost pre = self.store@;
        match self.store.find_time_off(input.time_off_id.as_str()) {
            None => Err(ScheduleError::TimeOffNotFound),
            Some(i) => {
                let mut t = self.store.time_off[i].copied();
                t.status = input.decision.clone();
                self.store.time_off.set(i, t);
                proof {
                    lemma_first_at_unique(time_off_ids(pre.time_off), input.time_off_id@, i as int,
                        first_index(time_off_ids(pre.time_off), input.time_off_id@));
                    assert(self.store@.time_off =~= pre.time_off.update(i as int,
                        TimeOffView { status: input.decision@, ..pre.time_off[i as int] }));
                }
                Ok(())
            },
        }
    }

    /// The time-off entries of a resource.
    pub fn time_off_list(&self, input: ResourceIdInput) -> (r: Vec<TimeOff>)
        ensures
            r@.map_values(|x: TimeOff| x@) == self.store@.time_off.filter(
                |t: TimeOffView| t.resource_id == input.resource_id@,
            ),
    {
        let ghost pred = |t: TimeOffView| t.resource_id == input.resource_id@;
        let mut r: Vec<TimeOff> = Vec::new();
        let mut i: usize = 0;
        while i < self.store.time_off.len()
            invariant
                i <= self.store@.time_off.len(),
                pred == (|t: TimeOffView| t.resource_id == input.resource_id@),
                r@.map_values(|x: TimeOff| x@) == self.store@.time_off.take(i as int).filter(pred),
            decreases self.store@.time_off.len() - i,
        {
            let t = &self.store.time_off[i];
            let keep = same_text(t.resource_id.as_str(), input.resource_id.as_str());
            proof {
                assert(self.store@.time_off.take(i + 1) =~= self.store@.time_off.take(i as int).push(t@));
                self.store@.time_off.take(i as int).lemma_filter_push(t@, pred);
            }
            if keep {
                let ghost before = r@;
                r.push(t.copied());
                assert(r@.map_values(|x: TimeOff| x@) =~= before.map_values(|x: TimeOff| x@).push(t@));
            }
            i = i + 1;
        }
        assert(self.store@.time_off.take(self.store@.time_off.len() as int) =~= self.store@.time_off);
        r
    }

    /// `blackout_set` with a given identifier: adds approved time off whose
    /// reason is `blackout: ` and the given reason.
    pub fn set_blackout_as(&mut self, id: String, input: BlackoutInput) -> (r: String)
        ensures
            r@ == id@,
            final(self).store@ == (StoreView {
                time_off: old(self).store@.time_off.push(blackout_from(id@, input)),
                ..old(self).store@
            }),
    {
        let ghost pre = self.store@;
        let reason = join_text("blackout: ", input.reason.as_str());
        let t = TimeOff {
            id: id.clone(),
            resource_id: input.resource_id,
            start_date: input.start_date,
            end_date: input.end_date,
            reason: reason,
            status: String::from_str("approved"),
        };
        self.store.time_off.push(t);
        assert(self.store@.time_off =~= pre.time_off.push(blackout_from(id@, input)));
        id
    }

    /// Blocks a date range for a resource under a fresh identifier `blk_xxxxxxxx`.
    pub fn blackout_set(&mut self, input: BlackoutInput) -> (r: String)
        ensures
            is_id_with_prefix(r@, "blk"@),
            final(self).store@ == (StoreView {
                time_off: old(self).store@.time_off.push(blackout_from(r@, input)),
                ..old(self).store@
            }),
    {
        let id = Store::new_id("blk");
        self.set_blackout_as(id, input)
    }
}

} // verus!
