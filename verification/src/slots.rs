//! Free time: the bookings of a resource on a day, sorted by start, and the
//! windows between them (`availability_check`, `find_slot`), plus the daily
//! overview (`schedule_summary`).

use vstd::prelude::*;
use vstd::string::*;
use crate::inputs::{AvailabilityInput, FindSlotInput};
use crate::server::SchedulingServer;
use crate::store::{is_active, on_leave, Store};
use crate::text::{join_text, same_text, text_has_prefix, text_le, text_less, text_lt, text_starts_with, utf8};
use crate::types::{Booking, BookingView, Shift, ShiftView};
use crate::clock::{lasts, lasts_at_least};

verus! {

/// A free window `[start, end)`.
#[derive(Debug)]
pub struct Slot {
    pub start: String,
    pub end: String,
}

/// A free window of one resource, found by `find_slot`.
#[derive(Debug)]
pub struct SlotOption {
    pub resource_id: String,
    pub start: String,
    pub end: String,
}

/// What `availability_check` reports of a resource on a day.
pub struct AvailabilityReport {
    /// Approved time off covers the day.
    pub on_leave: bool,
    /// The number of active bookings that start on the day.
    pub booked_slots: usize,
    /// The free windows between 08:00 and 18:00.
    pub slots: Vec<Slot>,
}

/// What `schedule_summary` reports of a resource on a day.
pub struct ScheduleSummary {
    pub on_leave: bool,
    pub bookings: Vec<Booking>,
    pub shifts: Vec<Shift>,
}

/// The values of a list of bookings.
pub open spec fn booking_views(v: Seq<Booking>) -> Seq<BookingView> {
    v.map_values(|b: Booking| b@)
}

/// The values of a list of shifts.
pub open spec fn shift_views(v: Seq<Shift>) -> Seq<ShiftView> {
    v.map_values(|s: Shift| s@)
}

/// The `(start, end)` texts of a list of windows.
pub open spec fn slot_views(v: Seq<Slot>) -> Seq<(Seq<char>, Seq<char>)> {
    v.map_values(|s: Slot| (s.start@, s.end@))
}

/// The `(resource, start, end)` texts of a list of options.
pub open spec fn option_views(v: Seq<SlotOption>) -> Seq<(Seq<char>, Seq<char>, Seq<char>)> {
    v.map_values(|s: SlotOption| (s.resource_id@, s.start@, s.end@))
}

/// Booking `b` counts for resource `rid` on day `date`: same resource, not
/// cancelled, and its start begins with the date.
pub open spec fn on_day(b: BookingView, rid: Seq<char>, date: Seq<char>) -> bool {
    &&& b.resource_id == rid
    &&& is_active(b)
    &&& text_starts_with(b.start, date)
}

/// The bookings of `rid` on `date`, in stored order.
pub open spec fn day_bookings(bs: Seq<BookingView>, rid: Seq<char>, date: Seq<char>) -> Seq<BookingView> {
    bs.filter(|b: BookingView| on_day(b, rid, date))
}

/// `s` with `x` placed after every element whose start is not after `x`'s.
pub open spec fn insert_by_start(s: Seq<BookingView>, x: BookingView) -> Seq<BookingView>
    decreases s.len(),
{
    if s.len() == 0 {
        seq![x]
    } else if text_lt(x.start, s.last().start) {
        insert_by_start(s.drop_last(), x).push(s.last())
    } else {
        s.push(x)
    }
}

/// `s` stably sorted by start: by start text, and in stored order among
/// equal starts.
pub open spec fn sort_by_start(s: Seq<BookingView>) -> Seq<BookingView>
    decreases s.len(),
{
    if s.len() == 0 {
        s
    } else {
        insert_by_start(sort_by_start(s.drop_last()), s.last())
    }
}

/// Where a walk through the day stands after booking `b`: its end when that
/// is later than `cur`.
pub open spec fn after(cur: Seq<char>, b: BookingView) -> Seq<char> {
    if text_lt(cur, b.end) {
        b.end
    } else {
        cur
    }
}

/// The free windows from `cur` to `day_end` around the start-sorted bookings
/// `s`: before each booking that starts after the walk, and at the end when
/// the walk stops before `day_end`.
pub open spec fn free_windows(cur: Seq<char>, day_end: Seq<char>, s: Seq<BookingView>) -> Seq<(Seq<char>, Seq<char>)>
    decreases s.len(),
{
    if s.len() == 0 {
        if text_lt(cur, day_end) {
            seq![(cur, day_end)]
        } else {
            seq![]
        }
    } else {
        (if text_lt(cur, s[0].start) {
            seq![(cur, s[0].start)]
        } else {
            seq![]
        }) + free_windows(after(cur, s[0]), day_end, s.drop_first())
    }
}

/// Like [`free_windows`] for `find_slot`, with the search stopping at
/// `latest`: bookings that start at or after `latest` end the walk, and the
/// last window runs to `latest`.
pub open spec fn slot_windows(cur: Seq<char>, latest: Seq<char>, s: Seq<BookingView>) -> Seq<(Seq<char>, Seq<char>)>
    decreases s.len(),
{
    if s.len() == 0 || !text_lt(s[0].start, latest) {
        if text_lt(cur, latest) {
            seq![(cur, latest)]
        } else {
            seq![]
        }
    } else {
        (if text_lt(cur, s[0].start) {
            seq![(cur, s[0].start)]
        } else {
            seq![]
        }) + slot_windows(after(cur, s[0]), latest, s.drop_first())
    }
}

/// `date` followed by `T08:00:00`, the start of the working day.
pub open spec fn day_start_of(date: Seq<char>) -> Seq<char> {
    date + "T08:00:00"@
}

/// `date` followed by `T18:00:00`, the end of the working day.
pub open spec fn day_end_of(date: Seq<char>) -> Seq<char> {
    date + "T18:00:00"@
}

/// The options `find_slot` gives for one resource: none when it is on leave
/// that day, else the windows from `earliest` to `latest` around its
/// start-sorted bookings of the day that last at least `minutes`.
pub open spec fn resource_options(
    store: crate::store::StoreView,
    rid: Seq<char>,
    date: Seq<char>,
    earliest: Seq<char>,
    latest: Seq<char>,
    minutes: u32,
) -> Seq<(Seq<char>, Seq<char>, Seq<char>)> {
    if on_leave(store.time_off, rid, utf8(date)) {
        seq![]
    } else {
        slot_windows(earliest, latest, sort_by_start(day_bookings(store.bookings, rid, date))).filter(
            |w: (Seq<char>, Seq<char>)| lasts_at_least(w.0, w.1, minutes),
        ).map_values(|w: (Seq<char>, Seq<char>)| (rid, w.0, w.1))
    }
}

/// The options of each resource in turn.
pub open spec fn all_options(
    store: crate::store::StoreView,
    rids: Seq<Seq<char>>,
    date: Seq<char>,
    earliest: Seq<char>,
    latest: Seq<char>,
    minutes: u32,
) -> Seq<(Seq<char>, Seq<char>, Seq<char>)>
    decreases rids.len(),
{
    if rids.len() == 0 {
        seq![]
    } else {
        all_options(store, rids.drop_last(), date, earliest, latest, minutes) + resource_options(
            store,
            rids.last(),
            date,
            earliest,
            latest,
            minutes,
        )
    }
}

/// The window bounds `find_slot` uses: the given ones, else 08:00 and 18:00
/// of the date.
pub open spec fn search_bounds(input: FindSlotInput) -> (Seq<char>, Seq<char>) {
    (
        match input.earliest {
            Some(e) => e@,
            None => day_start_of(input.date@),
        },
        match input.latest {
            Some(l) => l@,
            None => day_end_of(input.date@),
        },
    )
}

/// Inserting by the scan from the end gives [`insert_by_start`].
proof fn lemma_insert_by_start(s: Seq<BookingView>, x: BookingView, j: int)
    requires
        0 <= j <= s.len(),
        forall|k: int| j <= k < s.len() ==> text_lt(x.start, #[trigger] s[k].start),
        j == 0 || !text_lt(x.start, s[j - 1].start),
    ensures
        insert_by_start(s, x) == s.insert(j, x),
    decreases s.len(),
{
    if s.len() == 0 {
        assert(s.insert(j, x) =~= seq![x]);
    } else if text_lt(x.start, s.last().start) {
        if j == s.len() {
            assert(false);
        }
        lemma_insert_by_start(s.drop_last(), x, j);
        assert(s.drop_last().insert(j, x).push(s.last()) =~= s.insert(j, x));
    } else {
        if j < s.len() {
            assert(text_lt(x.start, s[s.len() - 1].start));
        }
        assert(s.push(x) =~= s.insert(j, x));
    }
}

/// `v` stably sorted by start.
pub fn sorted_by_start(v: &Vec<Booking>) -> (r: Vec<Booking>)
    ensures
        booking_views(r@) == sort_by_start(booking_views(v@)),
{
    let mut r: Vec<Booking> = Vec::new();
    let mut i: usize = 0;
    assert(booking_views(v@).take(0) =~= Seq::<BookingView>::empty());
    while i < v.len()
        invariant
            i <= v@.len(),
            booking_views(r@) == sort_by_start(booking_views(v@).take(i as int)),
        decreases v@.len() - i,
    {
        let x = v[i].copied();
        let mut j: usize = r.len();
        while j > 0 && text_less(x.start.as_str(), r[j - 1].start.as_str())
            invariant
                j <= r@.len(),
                forall|k: int| j <= k < r@.len() ==> text_lt(x@.start, #[trigger] booking_views(r@)[k].start),
            decreases j,
        {
            j = j - 1;
        }
        let ghost before = booking_views(r@);
        proof {
            lemma_insert_by_start(before, x@, j as int);
            let t = booking_views(v@).take(i + 1);
            assert(t.drop_last() =~= booking_views(v@).take(i as int));
            assert(t.last() == x@);
        }
        r.insert(j, x);
        assert(booking_views(r@) =~= before.insert(j as int, x@));
        i = i + 1;
    }
    assert(booking_views(v@).take(v@.len() as int) =~= booking_views(v@));
    r
}

impl Store {
    /// The active bookings of `resource_id` whose start begins with `date`.
    pub fn bookings_on_day(&self, resource_id: &str, date: &str) -> (r: Vec<Booking>)
        ensures
            booking_views(r@) == day_bookings(self@.bookings, resource_id@, date@),
    {
        let ghost pred = |b: BookingView| on_day(b, resource_id@, date@);
        let mut r: Vec<Booking> = Vec::new();
        let mut i: usize = 0;
        while i < self.bookings.len()
            invariant
                i <= self@.bookings.len(),
                pred == (|b: BookingView| on_day(b, resource_id@, date@)),
                booking_views(r@) == self@.bookings.take(i as int).filter(pred),
            decreases self@.bookings.len() - i,
        {
            let b = &self.bookings[i];
            let keep = same_text(b.resource_id.as_str(), resource_id) && !same_text(b.status.as_str(), "cancelled")
                && text_has_prefix(b.start.as_str(), date);
            proof {
                assert(self@.bookings.take(i + 1) =~= self@.bookings.take(i as int).push(b@));
                self@.bookings.take(i as int).lemma_filter_push(b@, pred);
                assert(keep == pred(b@));
            }
            if keep {
                let ghost before = r@;
                r.push(b.copied());
                assert(booking_views(r@) =~= booking_views(before).push(b@));
            }
            i = i + 1;
        }
        assert(self@.bookings.take(self@.bookings.len() as int) =~= self@.bookings);
        r
    }

    /// The shifts of `resource_id` whose start begins with `date`.
    pub fn shifts_on_day(&self, resource_id: &str, date: &str) -> (r: Vec<Shift>)
        ensures
            shift_views(r@) == self@.shifts.filter(
                |s: ShiftView| s.resource_id == resource_id@ && text_starts_with(s.start, date@),
            ),
    {
        let ghost pred = |s: ShiftView| s.resource_id == resource_id@ && text_starts_with(s.start, date@);
        let mut r: Vec<Shift> = Vec::new();
        let mut i: usize = 0;
        while i < self.shifts.len()
            invariant
                i <= self@.shifts.len(),
                pred == (|s: ShiftView| s.resource_id == resource_id@ && text_starts_with(s.start, date@)),
                shift_views(r@) == self@.shifts.take(i as int).filter(pred),
            decreases self@.shifts.len() - i,
        {
            let sh = &self.shifts[i];
            let keep = same_text(sh.resource_id.as_str(), resource_id) && text_has_prefix(sh.start.as_str(), date);
            proof {
                assert(self@.shifts.take(i + 1) =~= self@.shifts.take(i as int).push(sh@));
                self@.shifts.take(i as int).lemma_filter_push(sh@, pred);
            }
            if keep {
                let ghost before = r@;
                r.push(sh.copied());
                assert(shift_views(r@) =~= shift_views(before).push(sh@));
            }
            i = i + 1;
        }
        assert(self@.shifts.take(self@.shifts.len() as int) =~= self@.shifts);
        r
    }
}

/// The free windows from `day_start` to `day_end` around the start-sorted
/// bookings `sorted` (see [`free_windows`]).
pub fn windows_between(day_start: &String, day_end: &String, sorted: &Vec<Booking>) -> (r: Vec<Slot>)
    ensures
        slot_views(r@) == free_windows(day_start@, day_end@, booking_views(sorted@)),
{
    let ghost all = booking_views(sorted@);
    let mut slots: Vec<Slot> = Vec::new();
    let mut current = day_start.clone();
    let mut i: usize = 0;
    assert(all.skip(0) =~= all);
    while i < sorted.len()
        invariant
            i <= sorted@.len(),
            all == booking_views(sorted@),
            slot_views(slots@) + free_windows(current@, day_end@, all.skip(i as int))
                == free_windows(day_start@, day_end@, all),
        decreases sorted@.len() - i,
    {
        let b = &sorted[i];
        let ghost rest = all.skip(i as int);
        assert(rest[0] == b@);
        assert(rest.drop_first() =~= all.skip(i + 1));
        let ghost before = slot_views(slots@);
        if text_less(current.as_str(), b.start.as_str()) {
            slots.push(Slot { start: current.clone(), end: b.start.clone() });
            assert(slot_views(slots@) =~= before + seq![(current@, b@.start)]);
        } else {
            assert(slot_views(slots@) =~= before + Seq::<(Seq<char>, Seq<char>)>::empty());
        }
        if text_less(current.as_str(), b.end.as_str()) {
            current = b.end.clone();
        }
        i = i + 1;
    }
    let ghost before = slot_views(slots@);
    assert(all.skip(i as int) =~= Seq::<BookingView>::empty());
    if text_less(current.as_str(), day_end.as_str()) {
        slots.push(Slot { start: current.clone(), end: day_end.clone() });
        assert(slot_views(slots@) =~= before + seq![(current@, day_end@)]);
    } else {
        assert(before + free_windows(current@, day_end@, all.skip(i as int)) =~= before);
    }
    slots
}

/// The windows `find_slot` walks from `earliest` to `latest` around the
/// start-sorted bookings `sorted` (see [`slot_windows`]).
pub fn windows_within(earliest: &String, latest: &String, sorted: &Vec<Booking>) -> (r: Vec<Slot>)
    ensures
        slot_views(r@) == slot_windows(earliest@, latest@, booking_views(sorted@)),
{
    let ghost all = booking_views(sorted@);
    let mut slots: Vec<Slot> = Vec::new();
    let mut current = earliest.clone();
    let mut i: usize = 0;
    assert(all.skip(0) =~= all);
    while i < sorted.len() && text_less(sorted[i].start.as_str(), latest.as_str())
        invariant
            i <= sorted@.len(),
            all == booking_views(sorted@),
            slot_views(slots@) + slot_windows(current@, latest@, all.skip(i as int))
                == slot_windows(earliest@, latest@, all),
        decreases sorted@.len() - i,
    {
        let b = &sorted[i];
        let ghost rest = all.skip(i as int);
        assert(rest[0] == b@);
        assert(rest.drop_first() =~= all.skip(i + 1));
        let ghost before = slot_views(slots@);
        if text_less(current.as_str(), b.start.as_str()) {
            slots.push(Slot { start: current.clone(), end: b.start.clone() });
            assert(slot_views(slots@) =~= before + seq![(current@, b@.start)]);
        } else {
            assert(slot_views(slots@) =~= before + Seq::<(Seq<char>, Seq<char>)>::empty());
        }
        if text_less(current.as_str(), b.end.as_str()) {
            current = b.end.clone();
        }
        i = i + 1;
    }
    let ghost before = slot_views(slots@);
    proof {
        if i < sorted@.len() {
            assert(all.skip(i as int)[0] == all[i as int]);
        }
    }
    if text_less(current.as_str(), latest.as_str()) {
        slots.push(Slot { start: current.clone(), end: latest.clone() });
        assert(slot_views(slots@) =~= before + seq![(current@, latest@)]);
    } else {
        assert(before + slot_windows(current@, latest@, all.skip(i as int)) =~= before);
    }
    slots
}

impl SchedulingServer {
    /// The free windows of a resource between 08:00 and 18:00 of a day, around
    /// its active bookings that start that day, with the number of those
    /// bookings and whether approved time off covers the day.
    pub fn availability_check(&self, input: &AvailabilityInput) -> (r: AvailabilityReport)
        ensures
            r.on_leave == on_leave(self.store@.time_off, input.resource_id@, utf8(input.date@)),
            r.booked_slots == day_bookings(self.store@.bookings, input.resource_id@, input.date@).len(),
            slot_views(r.slots@) == free_windows(
                day_start_of(input.date@),
                day_end_of(input.date@),
                sort_by_start(day_bookings(self.store@.bookings, input.resource_id@, input.date@)),
            ),
    {
        let date = input.date.as_str();
        let day = self.store.bookings_on_day(input.resource_id.as_str(), date);
        let day_start = join_text(date, "T08:00:00");
        let day_end = join_text(date, "T18:00:00");
        let sorted = sorted_by_start(&day);
        let slots = windows_between(&day_start, &day_end, &sorted);
        let on_leave = self.store.is_on_time_off(input.resource_id.as_str(), date);
        AvailabilityReport { on_leave: on_leave, booked_slots: day.len(), slots: slots }
    }

    /// Free windows of at least the requested duration across several
    /// resources on a day, resource by resource, skipping those on approved
    /// leave.
    pub fn find_slot(&self, input: &FindSlotInput) -> (r: Vec<SlotOption>)
        ensures
            option_views(r@) == all_options(
                self.store@,
                crate::text::texts(input.resource_ids@),
                input.date@,
                search_bounds(*input).0,
                search_bounds(*input).1,
                input.duration_minutes,
            ),
    {
        let date = input.date.as_str();
        let earliest = match &input.earliest {
            Some(e) => e.clone(),
            None => join_text(date, "T08:00:00"),
        };
        let latest = match &input.latest {
            Some(l) => l.clone(),
            None => join_text(date, "T18:00:00"),
        };
        let ghost rids = crate::text::texts(input.resource_ids@);
        let mut results: Vec<SlotOption> = Vec::new();
        let mut n: usize = 0;
        assert(rids.take(0) =~= Seq::<Seq<char>>::empty());
        while n < input.resource_ids.len()
            invariant
                n <= input.resource_ids@.len(),
                rids == crate::text::texts(input.resource_ids@),
                earliest@ == search_bounds(*input).0,
                latest@ == search_bounds(*input).1,
                option_views(results@) == all_options(
                    self.store@,
                    rids.take(n as int),
                    date@,
                    earliest@,
                    latest@,
                    input.duration_minutes,
                ),
            decreases input.resource_ids@.len() - n,
        {
            let rid = &input.resource_ids[n];
            let ghost before = option_views(results@);
            proof {
                let t = rids.take(n + 1);
                assert(t.drop_last() =~= rids.take(n as int));
                assert(t.last() == rid@);
            }
            if self.store.is_on_time_off(rid.as_str(), date) {
                assert(option_views(results@) =~= before + Seq::<(Seq<char>, Seq<char>, Seq<char>)>::empty());
            } else {
                let day = self.store.bookings_on_day(rid.as_str(), date);
                let sorted = sorted_by_start(&day);
                let windows = windows_within(&earliest, &latest, &sorted);
                let ghost wv = slot_views(windows@);
                let ghost keep = |w: (Seq<char>, Seq<char>)| lasts_at_least(w.0, w.1, input.duration_minutes);
                let ghost tag = |w: (Seq<char>, Seq<char>)| (rid@, w.0, w.1);
                let mut k: usize = 0;
                while k < windows.len()
                    invariant
                        k <= windows@.len(),
                        wv == slot_views(windows@),
                        keep == (|w: (Seq<char>, Seq<char>)| lasts_at_least(w.0, w.1, input.duration_minutes)),
                        tag == (|w: (Seq<char>, Seq<char>)| (rid@, w.0, w.1)),
                        option_views(results@) == before + wv.take(k as int).filter(keep).map_values(tag),
                    decreases windows@.len() - k,
                {
                    let ghost prev = option_views(results@);
                    let w = &windows[k];
                    assert(wv[k as int] == (w.start@, w.end@));
                    assert(wv.take(k + 1) =~= wv.take(k as int).push(wv[k as int]));
                    proof {
                        wv.take(k as int).lemma_filter_push(wv[k as int], keep);
                    }
                    if lasts(w.start.as_str(), w.end.as_str(), input.duration_minutes) {
                        results.push(SlotOption { resource_id: rid.clone(), start: w.start.clone(), end: w.end.clone() });
                        assert(option_views(results@) =~= prev.push((rid@, wv[k as int].0, wv[k as int].1)));
                        assert(wv.take(k as int).filter(keep).push(wv[k as int]).map_values(tag) =~= wv.take(
                            k as int,
                        ).filter(keep).map_values(tag).push(tag(wv[k as int])));
                    }
                    k = k + 1;
                }
                assert(wv.take(windows@.len() as int) =~= wv);
            }
            n = n + 1;
        }
        assert(rids.take(input.resource_ids@.len() as int) =~= rids);
        results
    }

    /// The active bookings and the shifts of a resource that start on a day,
    /// and whether approved time off covers the day.
    pub fn schedule_summary(&self, input: &AvailabilityInput) -> (r: ScheduleSummary)
        ensures
            r.on_leave == on_leave(self.store@.time_off, input.resource_id@, utf8(input.date@)),
            booking_views(r.bookings@) == day_bookings(self.store@.bookings, input.resource_id@, input.date@),
            shift_views(r.shifts@) == self.store@.shifts.filter(
                |s: ShiftView| s.resource_id == input.resource_id@ && text_starts_with(s.start, input.date@),
            ),
    {
        let date = input.date.as_str();
        let bookings = self.store.bookings_on_day(input.resource_id.as_str(), date);
        let shifts = self.store.shifts_on_day(input.resource_id.as_str(), date);
        let on_leave = self.store.is_on_time_off(input.resource_id.as_str(), date);
        ScheduleSummary { on_leave: on_leave, bookings: bookings, shifts: shifts }
    }
}

} // verus!
