//! What holds of the scheduler across its operations.

use vstd::prelude::*;
use crate::inputs::{BlackoutInput, BookingInput, FindSlotInput, Participant, RescheduleInput, ShiftInput, TimeOffDecideInput};
use crate::server::{
    absent, blackout_from, booking_cancelled, booking_created, booking_from, booking_ids, booking_rescheduled,
    first_at, first_index, lemma_first_at_unique, lemma_first_index, put_resource, resource_ids, resource_map,
    shift_created, time_off_decided, time_off_ids, ScheduleError,
};
use crate::slots::{after, all_options, day_bookings, on_day, resource_options, search_bounds, day_end_of, day_start_of, free_windows, insert_by_start, slot_windows, sort_by_start};
use crate::store::{blocks, conflict_in, covers, is_active, on_leave, shift_clashes, shift_conflict_in, StoreView};
use crate::text::{
    bytes_lt, date_prefix, day_of, lemma_bytes_lt_irreflexive, lemma_text_le_reflexive, lemma_text_le_transitive,
    lemma_text_lt_implies_le, text_le, text_lt, utf8,
};
use crate::types::{BookingView, ResourceView, ShiftView, TimeOffView};
use crate::zones::{earliest_close, latest_open, utc_minute};
use crate::clock::{clock_seconds, lasts_at_least, law_same_day_times_differ_by_their_clocks, written_date_time};
use crate::text::texts;

verus! {

/// No two active bookings of the same resource overlap.
pub open spec fn bookings_apart(bs: Seq<BookingView>) -> bool {
    forall|i: int, j: int|
        0 <= i < bs.len() && 0 <= j < bs.len() && i != j && bs[i].resource_id == bs[j].resource_id
            && is_active(bs[i]) && is_active(bs[j]) ==> !(text_lt(bs[i].start, bs[j].end) && text_lt(
            bs[j].start,
            bs[i].end,
        ))
}

/// No two bookings share an id.
pub open spec fn ids_distinct(bs: Seq<BookingView>) -> bool {
    forall|i: int, j: int| 0 <= i < bs.len() && 0 <= j < bs.len() && i != j ==> bs[i].id != bs[j].id
}

/// Storing a resource is inserting it into a map keyed by id: after
/// `resource_create` (see [`put_resource`]) the resources, taken by id, are
/// the earlier ones with the new one stored under its id, replacing any
/// earlier resource with that id.
pub proof fn law_resources_form_a_map(rs: Seq<ResourceView>, r: ResourceView)
    ensures
        resource_map(put_resource(rs, r)) == resource_map(rs).insert(r.id, r),
{
    let ids = resource_ids(rs);
    let rs2 = put_resource(rs, r);
    let ids2 = resource_ids(rs2);
    let n = rs.len() as int;
    let p: int = if absent(ids, r.id) { n } else { first_index(ids, r.id) };
    if !absent(ids, r.id) {
        lemma_first_index(ids, r.id);
    }
    assert(rs2[p] == r);
    assert(first_at(ids2, r.id, p)) by {
        assert(ids2[p] == rs2[p].id);
        assert forall|k: int| 0 <= k < p implies ids2[k] != r.id by {
            assert(ids2[k] == rs2[k].id);
            assert(ids[k] == rs[k].id);
        }
    }
    lemma_first_index(ids2, r.id);
    lemma_first_at_unique(ids2, r.id, first_index(ids2, r.id), p);
    assert forall|k: Seq<char>| k != r.id implies {
        &&& absent(ids2, k) == absent(ids, k)
        &&& !absent(ids, k) ==> rs2[first_index(ids2, k)] == rs[first_index(ids, k)]
    } by {
        assert forall|j: int| 0 <= j < ids2.len() implies (ids2[j] == k <==> (j < n && ids[j] == k)) by {
            assert(ids2[j] == rs2[j].id);
            if j < n {
                assert(ids[j] == rs[j].id);
            }
        }
        if !absent(ids, k) {
            lemma_first_index(ids, k);
            let i = first_index(ids, k);
            assert(ids2[i] == k);
            assert(!absent(ids2, k));
            assert(first_at(ids2, k, i));
            lemma_first_index(ids2, k);
            lemma_first_at_unique(ids2, k, first_index(ids2, k), i);
            assert(i != p) by {
                assert(ids[i] == rs[i].id);
            }
        } else {
            assert forall|j: int| 0 <= j < ids2.len() implies ids2[j] != k by {
                if j < n {
                    assert(ids[j] != k);
                }
            }
        }
    }
    assert(resource_map(rs2) =~= resource_map(rs).insert(r.id, r)) by {
        assert(!absent(ids2, r.id));
    }
}

/// Creating a booking never double-books a resource: when no two active
/// bookings of a resource overlapped before, none do after.
pub proof fn law_create_keeps_bookings_apart(
    pre: StoreView,
    id: Seq<char>,
    input: BookingInput,
    post: StoreView,
    r: Result<String, ScheduleError>,
)
    requires
        bookings_apart(pre.bookings),
        booking_created(pre, id, input, post, r),
    ensures
        bookings_apart(post.bookings),
{
    let bs = pre.bookings;
    if !conflict_in(bs, input.resource_id@, input.start@, input.end@, None)
        && !on_leave(pre.time_off, input.resource_id@, date_prefix(input.start@)) {
        let ps = post.bookings;
        let n = bs.len() as int;
        assert forall|i: int, j: int|
            0 <= i < ps.len() && 0 <= j < ps.len() && i != j && ps[i].resource_id == ps[j].resource_id
                && is_active(ps[i]) && is_active(ps[j]) implies !(text_lt(ps[i].start, ps[j].end) && text_lt(
            ps[j].start,
            ps[i].end,
        )) by {
            if i == n {
                assert(!blocks(bs[j], input.resource_id@, input.start@, input.end@, None));
            } else if j == n {
                assert(!blocks(bs[i], input.resource_id@, input.start@, input.end@, None));
            } else {
                assert(ps[i] == bs[i] && ps[j] == bs[j]);
            }
        }
    }
}

/// A confirmed booking takes its slot: once a booking from `start` to `end`
/// (with `start < end`) is confirmed, the same request is refused as a
/// conflict.
pub proof fn law_booked_slot_is_taken(
    pre: StoreView,
    id: Seq<char>,
    input: BookingInput,
    post: StoreView,
    r: Result<String, ScheduleError>,
)
    requires
        booking_created(pre, id, input, post, r),
        r is Ok,
        text_lt(input.start@, input.end@),
    ensures
        conflict_in(post.bookings, input.resource_id@, input.start@, input.end@, None),
{
    reveal_strlit("confirmed");
    reveal_strlit("cancelled");
    let k = pre.bookings.len() as int;
    assert(post.bookings[k].status != "cancelled"@) by {
        assert(post.bookings[k].status[1] != "cancelled"@[1]);
    }
    assert(blocks(post.bookings[k], input.resource_id@, input.start@, input.end@, None));
}

/// Of two overlapping requests for one resource, the second is refused: once
/// a booking is confirmed, a later request for the same resource whose times
/// overlap it is refused as a conflict. (The store is changed through an
/// exclusive reference, so requests are always taken one after the other.)
pub proof fn law_confirmed_booking_refuses_overlaps(
    s0: StoreView,
    id: Seq<char>,
    first: BookingInput,
    s1: StoreView,
    r1: Result<String, ScheduleError>,
    id2: Seq<char>,
    second: BookingInput,
    s2: StoreView,
    r2: Result<String, ScheduleError>,
)
    requires
        booking_created(s0, id, first, s1, r1),
        r1 is Ok,
        second.resource_id@ == first.resource_id@,
        text_lt(first.start@, second.end@),
        text_lt(second.start@, first.end@),
        booking_created(s1, id2, second, s2, r2),
    ensures
        r2 matches Err(ScheduleError::Conflict),
        s2 == s1,
{
    reveal_strlit("confirmed");
    reveal_strlit("cancelled");
    let k = s0.bookings.len() as int;
    assert(s1.bookings[k].status != "cancelled"@) by {
        assert(s1.bookings[k].status[1] != "cancelled"@[1]);
    }
    assert(blocks(s1.bookings[k], second.resource_id@, second.start@, second.end@, None));
}

/// Cancelling keeps bookings apart: it only takes a booking out of use.
pub proof fn law_cancel_keeps_bookings_apart(
    pre: StoreView,
    id: Seq<char>,
    post: StoreView,
    r: Result<(), ScheduleError>,
)
    requires
        bookings_apart(pre.bookings),
        booking_cancelled(pre, id, post, r),
    ensures
        bookings_apart(post.bookings),
{
    if !absent(booking_ids(pre.bookings), id) {
        let k = first_index(booking_ids(pre.bookings), id);
        lemma_first_index(booking_ids(pre.bookings), id);
        let ps = post.bookings;
        let bs = pre.bookings;
        assert forall|i: int, j: int|
            0 <= i < ps.len() && 0 <= j < ps.len() && i != j && ps[i].resource_id == ps[j].resource_id
                && is_active(ps[i]) && is_active(ps[j]) implies !(text_lt(ps[i].start, ps[j].end) && text_lt(
            ps[j].start,
            ps[i].end,
        )) by {
            assert(i != k && j != k);
            assert(ps[i] == bs[i] && ps[j] == bs[j]);
        }
    }
}

/// Rescheduling keeps bookings apart when booking ids are distinct: the
/// moved booking was checked against every other active booking of its
/// resource at the new times.
pub proof fn law_reschedule_keeps_bookings_apart(
    pre: StoreView,
    input: RescheduleInput,
    post: StoreView,
    r: Result<(), ScheduleError>,
)
    requires
        bookings_apart(pre.bookings),
        ids_distinct(pre.bookings),
        booking_rescheduled(pre, input, post, r),
    ensures
        bookings_apart(post.bookings),
{
    let id = input.booking_id@;
    let bs = pre.bookings;
    if !absent(booking_ids(bs), id) {
        let k = first_index(booking_ids(bs), id);
        lemma_first_index(booking_ids(bs), id);
        let b = bs[k];
        if !conflict_in(bs, b.resource_id, input.new_start@, input.new_end@, Some(id)) {
            let ps = post.bookings;
            assert forall|i: int, j: int|
                0 <= i < ps.len() && 0 <= j < ps.len() && i != j && ps[i].resource_id == ps[j].resource_id
                    && is_active(ps[i]) && is_active(ps[j]) implies !(text_lt(ps[i].start, ps[j].end)
                && text_lt(ps[j].start, ps[i].end)) by {
                if i == k {
                    assert(bs[j].id != id);
                    assert(!blocks(bs[j], b.resource_id, input.new_start@, input.new_end@, Some(id)));
                } else if j == k {
                    assert(bs[i].id != id);
                    assert(!blocks(bs[i], b.resource_id, input.new_start@, input.new_end@, Some(id)));
                } else {
                    assert(ps[i] == bs[i] && ps[j] == bs[j]);
                }
            }
        }
    }
}

/// A cancelled booking no longer blocks anything: after a successful
/// cancellation (with distinct booking ids), no active booking has that id.
pub proof fn law_cancelled_booking_stops_blocking(
    pre: StoreView,
    id: Seq<char>,
    post: StoreView,
    r: Result<(), ScheduleError>,
)
    requires
        ids_distinct(pre.bookings),
        booking_cancelled(pre, id, post, r),
        r is Ok,
    ensures
        forall|k: int| 0 <= k < post.bookings.len() && post.bookings[k].id == id ==> !is_active(#[trigger] post.bookings[k]),
{
    let bs = pre.bookings;
    let i = first_index(booking_ids(bs), id);
    lemma_first_index(booking_ids(bs), id);
    assert forall|k: int| 0 <= k < post.bookings.len() && post.bookings[k].id == id implies !is_active(
        #[trigger] post.bookings[k],
    ) by {
        if k != i {
            assert(bs[k].id == id);
            assert(bs[i].id == booking_ids(bs)[i]);
        }
    }
}

/// Creating a booking and then cancelling it leaves availability as it was:
/// when the new booking's id was not in use, the cancellation finds the new
/// booking, the time off is unchanged, and every resource has the same active
/// bookings on every day as before the two calls (so `availability_check`
/// reports the same leave, count and free windows).
pub proof fn law_create_then_cancel_restores_availability(
    s0: StoreView,
    id: Seq<char>,
    input: BookingInput,
    s1: StoreView,
    r1: Result<String, ScheduleError>,
    s2: StoreView,
    r2: Result<(), ScheduleError>,
)
    requires
        absent(booking_ids(s0.bookings), id),
        booking_created(s0, id, input, s1, r1),
        r1 is Ok,
        booking_cancelled(s1, id, s2, r2),
    ensures
        r2 is Ok,
        s2.time_off == s0.time_off,
        forall|rid: Seq<char>, date: Seq<char>|
            #[trigger] day_bookings(s2.bookings, rid, date) == day_bookings(s0.bookings, rid, date),
{
    let b = booking_from(id, input);
    let n = s0.bookings.len();
    let ids1 = booking_ids(s1.bookings);
    assert(s1.bookings == s0.bookings.push(b));
    assert(ids1[n as int] == id);
    assert(!absent(ids1, id));
    assert(first_at(ids1, id, n as int)) by {
        assert forall|k: int| 0 <= k < n implies ids1[k] != id by {
            assert(ids1[k] == booking_ids(s0.bookings)[k]);
        }
    }
    lemma_first_index(ids1, id);
    lemma_first_at_unique(ids1, id, first_index(ids1, id), n as int);
    let c = BookingView { status: "cancelled"@, ..b };
    assert(s2.bookings =~= s0.bookings.push(c));
    assert(!is_active(c));
    assert forall|rid: Seq<char>, date: Seq<char>|
        #[trigger] day_bookings(s2.bookings, rid, date) == day_bookings(s0.bookings, rid, date) by {
        let pred = |x: BookingView| on_day(x, rid, date);
        s0.bookings.lemma_filter_push(c, pred);
    }
}

/// Approved leave refuses bookings: once a request for resource `rid` over
/// `[start_date, end_date]` is approved, a booking of `rid` that starts on a
/// day in that range is refused (for a conflict or for the leave).
pub proof fn law_approved_leave_refuses_bookings(
    s0: StoreView,
    decision: TimeOffDecideInput,
    s1: StoreView,
    r1: Result<(), ScheduleError>,
    id: Seq<char>,
    input: BookingInput,
    s2: StoreView,
    r2: Result<String, ScheduleError>,
)
    requires
        time_off_decided(s0, decision, s1, r1),
        r1 is Ok,
        decision.decision@ == "approved"@,
        ({
            let t = s0.time_off[first_index(time_off_ids(s0.time_off), decision.time_off_id@)];
            &&& t.resource_id == input.resource_id@
            &&& !bytes_lt(date_prefix(input.start@), utf8(t.start_date))
            &&& !bytes_lt(utf8(t.end_date), date_prefix(input.start@))
        }),
        booking_created(s1, id, input, s2, r2),
    ensures
        r2 is Err,
{
    let k = first_index(time_off_ids(s0.time_off), decision.time_off_id@);
    lemma_first_index(time_off_ids(s0.time_off), decision.time_off_id@);
    assert(covers(s1.time_off[k], input.resource_id@, date_prefix(input.start@)));
}

/// A blackout refuses bookings: after `blackout_set` for resource `rid` (or
/// for `all`, company-wide) over `[start_date, end_date]`, a booking of `rid`
/// (of any resource) that starts on a day in that range is refused.
pub proof fn law_blackout_refuses_bookings(
    s0: StoreView,
    blackout_id: Seq<char>,
    blackout: BlackoutInput,
    s1: StoreView,
    id: Seq<char>,
    input: BookingInput,
    s2: StoreView,
    r2: Result<String, ScheduleError>,
)
    requires
        s1 == (StoreView { time_off: s0.time_off.push(blackout_from(blackout_id, blackout)), ..s0 }),
        blackout.resource_id@ == input.resource_id@ || blackout.resource_id@ == "all"@,
        !bytes_lt(date_prefix(input.start@), utf8(blackout.start_date@)),
        !bytes_lt(utf8(blackout.end_date@), date_prefix(input.start@)),
        booking_created(s1, id, input, s2, r2),
    ensures
        r2 is Err,
{
    assert(covers(s1.time_off[s0.time_off.len() as int], input.resource_id@, date_prefix(input.start@)));
}

/// No two shifts of the same resource overlap.
pub open spec fn shifts_apart(ss: Seq<ShiftView>) -> bool {
    forall|i: int, j: int|
        0 <= i < ss.len() && 0 <= j < ss.len() && i != j && ss[i].resource_id == ss[j].resource_id ==> !(
        text_lt(ss[i].start, ss[j].end) && text_lt(ss[j].start, ss[i].end))
}

/// Scheduling a shift never double-books an employee: when no two shifts of
/// a resource overlapped before, none do after.
pub proof fn law_shift_create_keeps_shifts_apart(
    pre: StoreView,
    id: Seq<char>,
    input: ShiftInput,
    post: StoreView,
    r: Result<String, ScheduleError>,
)
    requires
        shifts_apart(pre.shifts),
        shift_created(pre, id, input, post, r),
    ensures
        shifts_apart(post.shifts),
{
    let ss = pre.shifts;
    if !on_leave(pre.time_off, input.resource_id@, date_prefix(input.start@))
        && !shift_conflict_in(ss, input.resource_id@, input.start@, input.end@) {
        let ps = post.shifts;
        let n = ss.len() as int;
        assert forall|i: int, j: int|
            0 <= i < ps.len() && 0 <= j < ps.len() && i != j && ps[i].resource_id == ps[j].resource_id implies !(
            text_lt(ps[i].start, ps[j].end) && text_lt(ps[j].start, ps[i].end)) by {
            if i == n {
                assert(!shift_clashes(ss[j], input.resource_id@, input.start@, input.end@));
            } else if j == n {
                assert(!shift_clashes(ss[i], input.resource_id@, input.start@, input.end@));
            } else {
                assert(ps[i] == ss[i] && ps[j] == ss[j]);
            }
        }
    }
}

/// Rescheduling respects leave: a booking is not moved onto a day on which
/// approved time off (or a blackout) covers its resource.
pub proof fn law_reschedule_respects_leave(
    pre: StoreView,
    input: RescheduleInput,
    post: StoreView,
    r: Result<(), ScheduleError>,
)
    requires
        !absent(booking_ids(pre.bookings), input.booking_id@),
        on_leave(
            pre.time_off,
            pre.bookings[first_index(booking_ids(pre.bookings), input.booking_id@)].resource_id,
            day_of(input.new_start@),
        ),
        booking_rescheduled(pre, input, post, r),
    ensures
        r is Err,
        post == pre,
{
}

/// Leave refuses shifts too: a shift that starts on a day covered by
/// approved time off of its resource is not scheduled.
pub proof fn law_leave_refuses_shifts(
    pre: StoreView,
    id: Seq<char>,
    input: ShiftInput,
    post: StoreView,
    r: Result<String, ScheduleError>,
)
    requires
        on_leave(pre.time_off, input.resource_id@, date_prefix(input.start@)),
        shift_created(pre, id, input, post, r),
    ensures
        r matches Err(ScheduleError::TimeOff),
        post == pre,
{
}

/// Bookings in order of start.
pub open spec fn starts_sorted(s: Seq<BookingView>) -> bool {
    forall|i: int, j: int| 0 <= i < j < s.len() ==> text_le(s[i].start, s[j].start)
}

/// Every start in `s` is at most `m`.
pub open spec fn starts_at_most(s: Seq<BookingView>, m: Seq<char>) -> bool {
    forall|i: int| 0 <= i < s.len() ==> text_le(#[trigger] s[i].start, m)
}

proof fn lemma_insert_bounded(s: Seq<BookingView>, x: BookingView, m: Seq<char>)
    requires
        starts_at_most(s, m),
        text_le(x.start, m),
    ensures
        starts_at_most(insert_by_start(s, x), m),
    decreases s.len(),
{
    if s.len() > 0 && text_lt(x.start, s.last().start) {
        lemma_insert_bounded(s.drop_last(), x, m);
        let r = insert_by_start(s.drop_last(), x).push(s.last());
        assert forall|i: int| 0 <= i < r.len() implies text_le(#[trigger] r[i].start, m) by {
            if i == r.len() - 1 {
                assert(s.last() == s[s.len() - 1]);
            }
        }
    }
}

proof fn lemma_insert_sorted(s: Seq<BookingView>, x: BookingView)
    requires
        starts_sorted(s),
    ensures
        starts_sorted(insert_by_start(s, x)),
        insert_by_start(s, x).to_multiset() == s.to_multiset().insert(x),
    decreases s.len(),
{
    broadcast use vstd::seq_lib::group_to_multiset_ensures;

    if s.len() == 0 {
        assert(seq![x] =~= Seq::<BookingView>::empty().push(x));
    } else if text_lt(x.start, s.last().start) {
        let last = s.last();
        let d = s.drop_last();
        lemma_insert_sorted(d, x);
        assert forall|i: int| 0 <= i < d.len() implies text_le(#[trigger] d[i].start, last.start) by {
            assert(d[i] == s[i]);
            if i < s.len() - 1 {
                assert(text_le(s[i].start, s[s.len() - 1].start));
            }
        }
        lemma_text_lt_implies_le(x.start, last.start);
        lemma_insert_bounded(d, x, last.start);
        let r = insert_by_start(d, x);
        assert forall|i: int, j: int| 0 <= i < j < r.push(last).len() implies text_le(
            r.push(last)[i].start,
            r.push(last)[j].start,
        ) by {
            if j == r.len() {
                assert(text_le(r[i].start, last.start));
            } else {
                assert(text_le(r[i].start, r[j].start));
            }
        }
        assert(s =~= d.push(last));
    } else {
        let last = s.last();
        assert forall|i: int, j: int| 0 <= i < j < s.push(x).len() implies text_le(
            s.push(x)[i].start,
            s.push(x)[j].start,
        ) by {
            if j == s.len() {
                if i < s.len() - 1 {
                    assert(text_le(s[i].start, s[s.len() - 1].start));
                    lemma_text_le_transitive(s[i].start, last.start, x.start);
                }
            }
        }
    }
}

/// Sorting by start gives bookings in order of start, and the same bookings.
pub proof fn law_sort_by_start(s: Seq<BookingView>)
    ensures
        starts_sorted(sort_by_start(s)),
        sort_by_start(s).to_multiset() == s.to_multiset(),
    decreases s.len(),
{
    broadcast use vstd::seq_lib::group_to_multiset_ensures;

    if s.len() > 0 {
        law_sort_by_start(s.drop_last());
        lemma_insert_sorted(sort_by_start(s.drop_last()), s.last());
        assert(s =~= s.drop_last().push(s.last()));
    }
}

/// Over bookings in order of start, every free window is non-empty, starts no
/// earlier than the walk, and overlaps none of the bookings.
pub proof fn law_free_windows_avoid_bookings(cur: Seq<char>, day_end: Seq<char>, s: Seq<BookingView>)
    requires
        starts_sorted(s),
    ensures
        forall|k: int| 0 <= k < free_windows(cur, day_end, s).len() ==> {
            let w = #[trigger] free_windows(cur, day_end, s)[k];
            &&& text_lt(w.0, w.1)
            &&& text_le(cur, w.0)
            &&& forall|d: int| 0 <= d < s.len() ==> !(text_lt(w.0, #[trigger] s[d].end) && text_lt(s[d].start, w.1))
        },
    decreases s.len(),
{
    lemma_text_le_reflexive(cur);
    if s.len() > 0 {
        let b = s[0];
        let rest = s.drop_first();
        let nxt = after(cur, b);
        assert(starts_sorted(rest)) by {
            assert forall|i: int, j: int| 0 <= i < j < rest.len() implies text_le(rest[i].start, rest[j].start) by {
                assert(text_le(s[i + 1].start, s[j + 1].start));
            }
        }
        law_free_windows_avoid_bookings(nxt, day_end, rest);
        // the walk only moves forward, and past the end of `b`
        if text_lt(cur, b.end) {
            lemma_text_lt_implies_le(cur, b.end);
        }
        lemma_text_le_reflexive(b.end);
        assert(text_le(cur, nxt));
        assert(text_le(b.end, nxt));
        let here: Seq<(Seq<char>, Seq<char>)> = if text_lt(cur, b.start) {
            seq![(cur, b.start)]
        } else {
            seq![]
        };
        let ws = free_windows(cur, day_end, s);
        let tail = free_windows(nxt, day_end, rest);
        assert(ws == here + tail);
        assert forall|k: int| 0 <= k < ws.len() implies {
            let w = #[trigger] ws[k];
            &&& text_lt(w.0, w.1)
            &&& text_le(cur, w.0)
            &&& forall|d: int| 0 <= d < s.len() ==> !(text_lt(w.0, #[trigger] s[d].end) && text_lt(s[d].start, w.1))
        } by {
            let w = ws[k];
            if k < here.len() {
                assert(w == (cur, b.start));
                assert forall|d: int| 0 <= d < s.len() implies !(text_lt(w.0, #[trigger] s[d].end) && text_lt(
                    s[d].start,
                    w.1,
                )) by {
                    if d > 0 {
                        assert(text_le(s[0].start, s[d].start));
                    } else {
                        lemma_bytes_lt_irreflexive(utf8(b.start));
                    }
                }
            } else {
                let t = tail[k - here.len()];
                assert(w == t);
                assert(text_le(nxt, w.0));
                lemma_text_le_transitive(cur, nxt, w.0);
                assert forall|d: int| 0 <= d < s.len() implies !(text_lt(w.0, #[trigger] s[d].end) && text_lt(
                    s[d].start,
                    w.1,
                )) by {
                    if d > 0 {
                        assert(rest[d - 1] == s[d]);
                    } else {
                        lemma_text_le_transitive(b.end, nxt, w.0);
                    }
                }
            }
        }
    }
}

/// The free windows that `availability_check` reports overlap none of the
/// resource's active bookings that start that day.
pub proof fn law_available_slots_are_free(store: StoreView, rid: Seq<char>, date: Seq<char>)
    ensures
        ({
            let day = day_bookings(store.bookings, rid, date);
            let ws = free_windows(
                day_start_of(date),
                day_end_of(date),
                sort_by_start(day),
            );
            forall|k: int, d: int| 0 <= k < ws.len() && 0 <= d < day.len() ==> {
                &&& text_lt((#[trigger] ws[k]).0, ws[k].1)
                &&& !(text_lt(ws[k].0, (#[trigger] day[d]).end) && text_lt(day[d].start, ws[k].1))
            }
        }),
{
    broadcast use vstd::seq_lib::group_to_multiset_ensures;

    let day = day_bookings(store.bookings, rid, date);
    let sorted = sort_by_start(day);
    law_sort_by_start(day);
    law_free_windows_avoid_bookings(day_start_of(date), day_end_of(date), sorted);
    let ws = free_windows(day_start_of(date), day_end_of(date), sorted);
    assert forall|k: int, d: int| 0 <= k < ws.len() && 0 <= d < day.len() implies {
        &&& text_lt((#[trigger] ws[k]).0, ws[k].1)
        &&& !(text_lt(ws[k].0, (#[trigger] day[d]).end) && text_lt(day[d].start, ws[k].1))
    } by {
        assert(day.contains(day[d]));
        assert(day.to_multiset().count(day[d]) > 0);
        assert(sorted.contains(day[d]));
        let e = choose|e: int| 0 <= e < sorted.len() && sorted[e] == day[d];
        assert(sorted[e] == day[d]);
    }
}

/// Over bookings in order of start, every window of `find_slot`'s walk is
/// non-empty, starts no earlier than the walk, ends no later than `latest`,
/// and overlaps none of the bookings.
pub proof fn law_slot_windows_avoid_bookings(cur: Seq<char>, latest: Seq<char>, s: Seq<BookingView>)
    requires
        starts_sorted(s),
    ensures
        forall|k: int| 0 <= k < slot_windows(cur, latest, s).len() ==> {
            let w = #[trigger] slot_windows(cur, latest, s)[k];
            &&& text_lt(w.0, w.1)
            &&& text_le(cur, w.0)
            &&& text_le(w.1, latest)
            &&& forall|d: int| 0 <= d < s.len() ==> !(text_lt(w.0, #[trigger] s[d].end) && text_lt(s[d].start, w.1))
        },
    decreases s.len(),
{
    lemma_text_le_reflexive(cur);
    lemma_text_le_reflexive(latest);
    let ws = slot_windows(cur, latest, s);
    if s.len() > 0 {
        lemma_text_le_reflexive(s[0].start);
    }
    if s.len() == 0 || !text_lt(s[0].start, latest) {
        assert forall|k: int| 0 <= k < ws.len() implies {
            let w = #[trigger] ws[k];
            &&& text_lt(w.0, w.1)
            &&& text_le(cur, w.0)
            &&& text_le(w.1, latest)
            &&& forall|d: int| 0 <= d < s.len() ==> !(text_lt(w.0, #[trigger] s[d].end) && text_lt(s[d].start, w.1))
        } by {
            assert(ws[k] == (cur, latest));
            assert forall|d: int| 0 <= d < s.len() implies !(text_lt(cur, #[trigger] s[d].end) && text_lt(
                s[d].start,
                latest,
            )) by {
                if d > 0 {
                    assert(text_le(s[0].start, s[d].start));
                }
                lemma_text_le_transitive(latest, s[0].start, s[d].start);
            }
        }
    } else {
        let b = s[0];
        let rest = s.drop_first();
        let nxt = after(cur, b);
        assert(starts_sorted(rest)) by {
            assert forall|i: int, j: int| 0 <= i < j < rest.len() implies text_le(rest[i].start, rest[j].start) by {
                assert(text_le(s[i + 1].start, s[j + 1].start));
            }
        }
        law_slot_windows_avoid_bookings(nxt, latest, rest);
        if text_lt(cur, b.end) {
            lemma_text_lt_implies_le(cur, b.end);
        }
        lemma_text_le_reflexive(b.end);
        lemma_text_lt_implies_le(b.start, latest);
        let here: Seq<(Seq<char>, Seq<char>)> = if text_lt(cur, b.start) {
            seq![(cur, b.start)]
        } else {
            seq![]
        };
        let tail = slot_windows(nxt, latest, rest);
        assert(ws == here + tail);
        assert forall|k: int| 0 <= k < ws.len() implies {
            let w = #[trigger] ws[k];
            &&& text_lt(w.0, w.1)
            &&& text_le(cur, w.0)
            &&& text_le(w.1, latest)
            &&& forall|d: int| 0 <= d < s.len() ==> !(text_lt(w.0, #[trigger] s[d].end) && text_lt(s[d].start, w.1))
        } by {
            let w = ws[k];
            if k < here.len() {
                assert(w == (cur, b.start));
                assert forall|d: int| 0 <= d < s.len() implies !(text_lt(w.0, #[trigger] s[d].end) && text_lt(
                    s[d].start,
                    w.1,
                )) by {
                    if d > 0 {
                        assert(text_le(s[0].start, s[d].start));
                    } else {
                        lemma_bytes_lt_irreflexive(utf8(b.start));
                    }
                }
            } else {
                let t = tail[k - here.len()];
                assert(w == t);
                lemma_text_le_transitive(cur, nxt, w.0);
                assert forall|d: int| 0 <= d < s.len() implies !(text_lt(w.0, #[trigger] s[d].end) && text_lt(
                    s[d].start,
                    w.1,
                )) by {
                    if d > 0 {
                        assert(rest[d - 1] == s[d]);
                    } else {
                        lemma_text_le_transitive(b.end, nxt, w.0);
                    }
                }
            }
        }
    }
}

/// The windows `find_slot` offers for a resource lie between `earliest` and
/// `latest`, last at least the requested duration, and overlap none of its
/// active bookings that start that day.
pub proof fn law_found_slots_are_free(
    store: StoreView,
    rid: Seq<char>,
    date: Seq<char>,
    earliest: Seq<char>,
    latest: Seq<char>,
    minutes: u32,
)
    ensures
        ({
            let day = day_bookings(store.bookings, rid, date);
            let ws = slot_windows(earliest, latest, sort_by_start(day)).filter(
                |w: (Seq<char>, Seq<char>)| lasts_at_least(w.0, w.1, minutes),
            );
            forall|k: int| 0 <= k < ws.len() ==> {
                &&& text_lt((#[trigger] ws[k]).0, ws[k].1)
                &&& text_le(earliest, ws[k].0)
                &&& text_le(ws[k].1, latest)
                &&& lasts_at_least(ws[k].0, ws[k].1, minutes)
                &&& forall|d: int|
                    0 <= d < day.len() ==> !(text_lt(ws[k].0, (#[trigger] day[d]).end) && text_lt(day[d].start, ws[k].1))
            }
        }),
{
    broadcast use vstd::seq_lib::group_to_multiset_ensures;
    broadcast use vstd::seq_lib::group_filter_ensures;

    let day = day_bookings(store.bookings, rid, date);
    let sorted = sort_by_start(day);
    let keep = |w: (Seq<char>, Seq<char>)| lasts_at_least(w.0, w.1, minutes);
    law_sort_by_start(day);
    law_slot_windows_avoid_bookings(earliest, latest, sorted);
    let all = slot_windows(earliest, latest, sorted);
    let ws = all.filter(keep);
    assert forall|k: int| 0 <= k < ws.len() implies {
        &&& text_lt((#[trigger] ws[k]).0, ws[k].1)
        &&& text_le(earliest, ws[k].0)
        &&& text_le(ws[k].1, latest)
        &&& lasts_at_least(ws[k].0, ws[k].1, minutes)
        &&& forall|d: int|
            0 <= d < day.len() ==> !(text_lt(ws[k].0, (#[trigger] day[d]).end) && text_lt(day[d].start, ws[k].1))
    } by {
        assert(ws.contains(ws[k]));
        all.lemma_filter_contains_rev(keep, ws[k]);
        assert(all.contains(ws[k]));
        let j = choose|j: int| 0 <= j < all.len() && all[j] == ws[k];
        assert(all[j] == ws[k]);
        assert forall|d: int| 0 <= d < day.len() implies !(text_lt(ws[k].0, (#[trigger] day[d]).end) && text_lt(
            day[d].start,
            ws[k].1,
        )) by {
            assert(day.contains(day[d]));
            assert(day.to_multiset().count(day[d]) > 0);
            assert(sorted.contains(day[d]));
            let e = choose|e: int| 0 <= e < sorted.len() && sorted[e] == day[d];
            assert(sorted[e] == day[d]);
        }
    }
}

proof fn lemma_clear_walk(e: Seq<char>, l: Seq<char>, s: Seq<BookingView>)
    requires
        text_lt(e, l),
        forall|i: int|
            0 <= i < s.len() ==> text_le(l, #[trigger] s[i].start) || (text_le(s[i].start, s[i].end) && text_le(
                s[i].end,
                e,
            )),
    ensures
        slot_windows(e, l, s) == seq![(e, l)],
    decreases s.len(),
{
    if s.len() > 0 && text_lt(s[0].start, l) {
        let b = s[0];
        lemma_text_le_transitive(b.start, b.end, e);
        assert(after(e, b) == e);
        assert forall|i: int| 0 <= i < s.drop_first().len() implies text_le(l, #[trigger] s.drop_first()[i].start)
            || (text_le(s.drop_first()[i].start, s.drop_first()[i].end) && text_le(s.drop_first()[i].end, e)) by {
            assert(s.drop_first()[i] == s[i + 1]);
        }
        lemma_clear_walk(e, l, s.drop_first());
        assert(slot_windows(e, l, s) =~= Seq::<(Seq<char>, Seq<char>)>::empty() + seq![(e, l)]);
    }
}

/// A resource that is free over the whole search window is offered it: when
/// `earliest < latest` and every active booking of the resource that starts
/// that day either starts at or after `latest` or ends (no earlier than it
/// starts) by `earliest`, the walk gives the single window from `earliest`
/// to `latest`.
pub proof fn law_free_resource_is_offered(
    store: StoreView,
    rid: Seq<char>,
    date: Seq<char>,
    earliest: Seq<char>,
    latest: Seq<char>,
)
    requires
        text_lt(earliest, latest),
        ({
            let day = day_bookings(store.bookings, rid, date);
            forall|i: int|
                0 <= i < day.len() ==> text_le(latest, #[trigger] day[i].start) || (text_le(day[i].start, day[i].end)
                    && text_le(day[i].end, earliest))
        }),
    ensures
        slot_windows(earliest, latest, sort_by_start(day_bookings(store.bookings, rid, date))) == seq![(earliest, latest)],
{
    broadcast use vstd::seq_lib::group_to_multiset_ensures;

    let day = day_bookings(store.bookings, rid, date);
    let sorted = sort_by_start(day);
    law_sort_by_start(day);
    assert forall|i: int| 0 <= i < sorted.len() implies text_le(latest, #[trigger] sorted[i].start) || (text_le(
        sorted[i].start,
        sorted[i].end,
    ) && text_le(sorted[i].end, earliest)) by {
        assert(sorted.contains(sorted[i]));
        assert(sorted.to_multiset().count(sorted[i]) > 0);
        assert(day.contains(sorted[i]));
        let j = choose|j: int| 0 <= j < day.len() && day[j] == sorted[i];
        assert(day[j] == sorted[i]);
    }
    lemma_clear_walk(earliest, latest, sorted);
}

/// The common window of `find_overlap` is the intersection of the
/// participants' windows: it opens at the latest local start and closes at
/// the earliest local end, each taken by some participant.
pub proof fn law_overlap_is_intersection(ps: Seq<Participant>, earliest: u32, latest: u32)
    requires
        ps.len() > 0,
    ensures
        forall|i: int| 0 <= i < ps.len() ==> latest_open(ps, earliest) >= #[trigger] utc_minute(ps[i], earliest),
        forall|i: int| 0 <= i < ps.len() ==> earliest_close(ps, latest) <= #[trigger] utc_minute(ps[i], latest),
        exists|i: int| 0 <= i < ps.len() && latest_open(ps, earliest) == #[trigger] utc_minute(ps[i], earliest),
        exists|i: int| 0 <= i < ps.len() && earliest_close(ps, latest) == #[trigger] utc_minute(ps[i], latest),
    decreases ps.len(),
{
    if ps.len() == 1 {
        assert(utc_minute(ps[0], earliest) == latest_open(ps, earliest));
        assert(utc_minute(ps[0], latest) == earliest_close(ps, latest));
    } else {
        let d = ps.drop_last();
        law_overlap_is_intersection(d, earliest, latest);
        let n = ps.len() - 1;
        assert forall|i: int| 0 <= i < ps.len() implies latest_open(ps, earliest) >= #[trigger] utc_minute(
            ps[i],
            earliest,
        ) by {
            if i < n {
                assert(d[i] == ps[i]);
            }
        }
        assert forall|i: int| 0 <= i < ps.len() implies earliest_close(ps, latest) <= #[trigger] utc_minute(
            ps[i],
            latest,
        ) by {
            if i < n {
                assert(d[i] == ps[i]);
            }
        }
        if latest_open(d, earliest) >= utc_minute(ps.last(), earliest) {
            let i = choose|i: int| 0 <= i < d.len() && latest_open(d, earliest) == #[trigger] utc_minute(d[i], earliest);
            assert(d[i] == ps[i]);
        } else {
            assert(utc_minute(ps[n], earliest) == latest_open(ps, earliest));
        }
        if earliest_close(d, latest) <= utc_minute(ps.last(), latest) {
            let i = choose|i: int| 0 <= i < d.len() && earliest_close(d, latest) == #[trigger] utc_minute(d[i], latest);
            assert(d[i] == ps[i]);
        } else {
            assert(utc_minute(ps[n], latest) == earliest_close(ps, latest));
        }
    }
}

/// The order of the participants does not matter: participants with the
/// same zones in another order give the same common window.
pub proof fn law_overlap_ignores_order(p1: Seq<Participant>, p2: Seq<Participant>, earliest: u32, latest: u32)
    requires
        p1.len() > 0,
        p1.to_multiset() == p2.to_multiset(),
    ensures
        latest_open(p1, earliest) == latest_open(p2, earliest),
        earliest_close(p1, latest) == earliest_close(p2, latest),
{
    broadcast use vstd::seq_lib::group_to_multiset_ensures;

    assert(p2.len() > 0) by {
        assert(p1.contains(p1[0]));
        assert(p1.to_multiset().count(p1[0]) > 0);
    }
    law_overlap_is_intersection(p1, earliest, latest);
    law_overlap_is_intersection(p2, earliest, latest);
    let j2 = choose|j: int| 0 <= j < p2.len() && latest_open(p2, earliest) == #[trigger] utc_minute(p2[j], earliest);
    assert(p2.contains(p2[j2]));
    assert(p2.to_multiset().count(p2[j2]) > 0);
    let i2 = choose|i: int| 0 <= i < p1.len() && p1[i] == p2[j2];
    assert(utc_minute(p1[i2], earliest) == latest_open(p2, earliest));
    let j1 = choose|j: int| 0 <= j < p1.len() && latest_open(p1, earliest) == #[trigger] utc_minute(p1[j], earliest);
    assert(p1.contains(p1[j1]));
    assert(p1.to_multiset().count(p1[j1]) > 0);
    let i1 = choose|i: int| 0 <= i < p2.len() && p2[i] == p1[j1];
    assert(utc_minute(p2[i1], earliest) == latest_open(p1, earliest));
    let k2 = choose|j: int| 0 <= j < p2.len() && earliest_close(p2, latest) == #[trigger] utc_minute(p2[j], latest);
    assert(p2.contains(p2[k2]));
    assert(p2.to_multiset().count(p2[k2]) > 0);
    let m2 = choose|i: int| 0 <= i < p1.len() && p1[i] == p2[k2];
    assert(utc_minute(p1[m2], latest) == earliest_close(p2, latest));
    let k1 = choose|j: int| 0 <= j < p1.len() && earliest_close(p1, latest) == #[trigger] utc_minute(p1[j], latest);
    assert(p1.contains(p1[k1]));
    assert(p1.to_multiset().count(p1[k1]) > 0);
    let m1 = choose|i: int| 0 <= i < p2.len() && p2[i] == p1[k1];
    assert(utc_minute(p2[m1], latest) == earliest_close(p1, latest));
}

/// One more participant never widens the common window: it opens no earlier,
/// closes no later, so the overlap is no longer and a meeting that fits with
/// the extra participant fits without.
pub proof fn law_more_participants_never_widen(
    ps: Seq<Participant>,
    extra: Participant,
    at: int,
    earliest: u32,
    latest: u32,
    duration: u32,
)
    requires
        ps.len() > 0,
        0 <= at <= ps.len(),
    ensures
        ({
            let qs = ps.insert(at, extra);
            let (o1, c1) = (latest_open(ps, earliest), earliest_close(ps, latest));
            let (o2, c2) = (latest_open(qs, earliest), earliest_close(qs, latest));
            let len1 = if c1 >= o1 { c1 - o1 } else { 0 };
            let len2 = if c2 >= o2 { c2 - o2 } else { 0 };
            &&& o2 >= o1
            &&& c2 <= c1
            &&& len2 <= len1
            &&& (len2 >= duration ==> len1 >= duration)
        }),
{
    let qs = ps.insert(at, extra);
    law_overlap_is_intersection(ps, earliest, latest);
    law_overlap_is_intersection(qs, earliest, latest);
    let j = choose|j: int| 0 <= j < ps.len() && latest_open(ps, earliest) == #[trigger] utc_minute(ps[j], earliest);
    let jq = if j < at { j } else { j + 1 };
    assert(qs[jq] == ps[j]);
    assert(latest_open(qs, earliest) >= utc_minute(qs[jq], earliest));
    let k = choose|k: int| 0 <= k < ps.len() && earliest_close(ps, latest) == #[trigger] utc_minute(ps[k], latest);
    let kq = if k < at { k } else { k + 1 };
    assert(qs[kq] == ps[k]);
    assert(earliest_close(qs, latest) <= utc_minute(qs[kq], latest));
}

/// The bookings of a resource on a day are exactly its stored bookings, in
/// stored order, that are not cancelled and whose start text begins with the
/// date (`start.starts_with(date)` on the bytes).
pub proof fn law_day_bookings_are_the_days_active_bookings(bs: Seq<BookingView>, rid: Seq<char>, date: Seq<char>)
    ensures
        day_bookings(bs, rid, date) == bs.filter(
            |b: BookingView|
                b.resource_id == rid && b.status != "cancelled"@ && utf8(date).is_prefix_of(utf8(b.start)),
        ),
{
    let p1 = |b: BookingView| on_day(b, rid, date);
    let p2 = |b: BookingView|
        b.resource_id == rid && b.status != "cancelled"@ && utf8(date).is_prefix_of(utf8(b.start));
    assert(p1 =~= p2);
}

/// A resource is on leave on a day exactly when an approved entry for it, or
/// for `all`, starts on or before that day and ends on or after it.
pub proof fn law_leave_is_an_approved_entry_spanning_the_day(ts: Seq<TimeOffView>, rid: Seq<char>, date: Seq<u8>)
    ensures
        on_leave(ts, rid, date) <==> exists|i: int|
            0 <= i < ts.len() && (#[trigger] ts[i]).status == "approved"@ && (ts[i].resource_id == rid
                || ts[i].resource_id == "all"@) && !bytes_lt(date, utf8(ts[i].start_date)) && !bytes_lt(
                utf8(ts[i].end_date),
                date,
            ),
{
    if on_leave(ts, rid, date) {
        let i = choose|i: int| 0 <= i < ts.len() && #[trigger] covers(ts[i], rid, date);
        assert(ts[i].status == "approved"@);
    }
    if exists|i: int|
        0 <= i < ts.len() && (#[trigger] ts[i]).status == "approved"@ && (ts[i].resource_id == rid
            || ts[i].resource_id == "all"@) && !bytes_lt(date, utf8(ts[i].start_date)) && !bytes_lt(
            utf8(ts[i].end_date),
            date,
        ) {
        let i = choose|i: int|
            0 <= i < ts.len() && (#[trigger] ts[i]).status == "approved"@ && (ts[i].resource_id == rid
                || ts[i].resource_id == "all"@) && !bytes_lt(date, utf8(ts[i].start_date)) && !bytes_lt(
                utf8(ts[i].end_date),
                date,
            );
        assert(covers(ts[i], rid, date));
    }
}

/// A booking on a day before the start of every approved leave of its
/// resource (and of every company-wide one) that clashes with no active
/// booking is confirmed under the given id.
pub proof fn law_booking_before_leave_is_confirmed(
    pre: StoreView,
    id: Seq<char>,
    input: BookingInput,
    post: StoreView,
    r: Result<String, ScheduleError>,
)
    requires
        booking_created(pre, id, input, post, r),
        !conflict_in(pre.bookings, input.resource_id@, input.start@, input.end@, None),
        forall|i: int|
            0 <= i < pre.time_off.len() && (#[trigger] pre.time_off[i]).status == "approved"@ && (
            pre.time_off[i].resource_id == input.resource_id@ || pre.time_off[i].resource_id == "all"@) ==> bytes_lt(
                date_prefix(input.start@),
                utf8(pre.time_off[i].start_date),
            ),
    ensures
        r matches Ok(bid) && bid@ == id,
        post.bookings == pre.bookings.push(booking_from(id, input)),
        post.time_off == pre.time_off,
{
    let (rid, day) = (input.resource_id@, date_prefix(input.start@));
    if on_leave(pre.time_off, rid, day) {
        let i = choose|i: int| 0 <= i < pre.time_off.len() && #[trigger] covers(pre.time_off[i], rid, day);
        assert(pre.time_off[i].status == "approved"@);
    }
}

/// A shift clashes exactly when the same resource already has a shift that
/// starts before the new one ends and ends after it starts: shifts of other
/// resources never clash.
pub proof fn law_shift_conflict_is_an_own_overlap(ss: Seq<ShiftView>, rid: Seq<char>, start: Seq<char>, end: Seq<char>)
    ensures
        shift_conflict_in(ss, rid, start, end) <==> exists|i: int|
            0 <= i < ss.len() && (#[trigger] ss[i]).resource_id == rid && text_lt(ss[i].start, end) && text_lt(
                start,
                ss[i].end,
            ),
{
    if shift_conflict_in(ss, rid, start, end) {
        let i = choose|i: int| 0 <= i < ss.len() && #[trigger] shift_clashes(ss[i], rid, start, end);
        assert(ss[i].resource_id == rid);
    }
    if exists|i: int|
        0 <= i < ss.len() && (#[trigger] ss[i]).resource_id == rid && text_lt(ss[i].start, end) && text_lt(
            start,
            ss[i].end,
        ) {
        let i = choose|i: int|
            0 <= i < ss.len() && (#[trigger] ss[i]).resource_id == rid && text_lt(ss[i].start, end) && text_lt(
                start,
                ss[i].end,
            );
        assert(shift_clashes(ss[i], rid, start, end));
    }
}

/// `shift_create` refuses for a conflict only over a shift of the same
/// resource: when none of the resource's own shifts overlaps the new one, the
/// shift is scheduled unless the resource is on leave, whatever shifts other
/// resources have.
pub proof fn law_other_resources_shifts_never_refuse(
    pre: StoreView,
    id: Seq<char>,
    input: ShiftInput,
    post: StoreView,
    r: Result<String, ScheduleError>,
)
    requires
        shift_created(pre, id, input, post, r),
        forall|i: int|
            0 <= i < pre.shifts.len() && (#[trigger] pre.shifts[i]).resource_id == input.resource_id@ ==> !(text_lt(
                pre.shifts[i].start,
                input.end@,
            ) && text_lt(input.start@, pre.shifts[i].end)),
    ensures
        !(r matches Err(ScheduleError::Conflict)),
        !on_leave(pre.time_off, input.resource_id@, date_prefix(input.start@)) ==> (r matches Ok(sid) && sid@ == id),
{
    let (rid, start, end) = (input.resource_id@, input.start@, input.end@);
    if shift_conflict_in(pre.shifts, rid, start, end) {
        let i = choose|i: int| 0 <= i < pre.shifts.len() && #[trigger] shift_clashes(pre.shifts[i], rid, start, end);
        assert(pre.shifts[i].resource_id == rid);
    }
}

/// `d` is a date written `YYYY-MM-DD`, with a month from 1 to 12 and a day
/// from 1 to 31.
pub open spec fn written_date(d: Seq<char>) -> bool {
    &&& d.len() == 10
    &&& forall|i: int| 0 <= i < 10 && i != 4 && i != 7 ==> '0' <= #[trigger] d[i] <= '9'
    &&& d[4] == '-' && d[7] == '-'
    &&& 1 <= (d[5] as int - 48) * 10 + (d[6] as int - 48) <= 12
    &&& 1 <= (d[8] as int - 48) * 10 + (d[9] as int - 48) <= 31
}

/// Bytes that agree before `k` and differ upward at `k` are in order.
proof fn lemma_bytes_lt_at(a: Seq<u8>, b: Seq<u8>, k: int)
    requires
        0 <= k < a.len(),
        k < b.len(),
        forall|i: int| 0 <= i < k ==> a[i] == b[i],
        a[k] < b[k],
    ensures
        bytes_lt(a, b),
    decreases k,
{
    if k > 0 {
        assert(a[0] == b[0]);
        assert forall|i: int| 0 <= i < k - 1 implies a.drop_first()[i] == b.drop_first()[i] by {
            assert(a[i + 1] == b[i + 1]);
        }
        lemma_bytes_lt_at(a.drop_first(), b.drop_first(), k - 1);
    }
}

/// A filter that keeps nothing of `s` gives the empty sequence.
proof fn lemma_filter_keeps_none<A>(s: Seq<A>, p: spec_fn(A) -> bool)
    requires
        forall|i: int| 0 <= i < s.len() ==> !p(#[trigger] s[i]),
    ensures
        s.filter(p) == Seq::<A>::empty(),
    decreases s.len(),
{
    reveal(Seq::filter);
    if s.len() > 0 {
        assert forall|i: int| 0 <= i < s.drop_last().len() implies !p(#[trigger] s.drop_last()[i]) by {
            assert(s.drop_last()[i] == s[i]);
        }
        lemma_filter_keeps_none(s.drop_last(), p);
        assert(!p(s[s.len() - 1]));
    }
}

/// The bytes of a written date followed by a time `Thh:00:00` form a written
/// date-time whose date bytes are the date's characters.
proof fn lemma_day_time_bytes(d: Seq<char>, lit: Seq<char>, h: int)
    requires
        written_date(d),
        lit.len() == 9,
        lit[0] == 'T' && lit[3] == ':' && lit[4] == '0' && lit[5] == '0' && lit[6] == ':' && lit[7] == '0' && lit[8]
            == '0',
        '0' <= lit[1] <= '2' && '0' <= lit[2] <= '9',
        h == (lit[1] as int - 48) * 10 + (lit[2] as int - 48),
        h <= 23,
    ensures
        written_date_time(utf8(d + lit)),
        utf8(d + lit).len() == 19,
        forall|i: int| 0 <= i < 10 ==> utf8(d + lit)[i] == d[i] as u8,
        utf8(d + lit)[11] == lit[1] as u8,
        clock_seconds(utf8(d + lit)) == h * 3600,
{
    let c = d + lit;
    assert(vstd::utf8::is_ascii_chars(c)) by {
        assert forall|i: int| 0 <= i < c.len() implies '\0' <= #[trigger] c[i] <= '\u{7f}' by {
            if i < 10 {
                assert(c[i] == d[i]);
                if i != 4 && i != 7 {
                    assert('0' <= d[i] <= '9');
                }
            } else {
                assert(c[i] == lit[i - 10]);
            }
        }
    }
    vstd::utf8::is_ascii_chars_encode_utf8(c);
    let b = utf8(c);
    assert forall|i: int| 0 <= i < 10 implies b[i] == d[i] as u8 by {
        assert(c[i] == d[i]);
    }
    assert forall|i: int| 10 <= i < 19 implies b[i] == lit[i - 10] as u8 by {
        assert(c[i] == lit[i - 10]);
    }
    assert(b[10] == lit[0] as u8);
    assert(b[11] == lit[1] as u8);
    assert(b[12] == lit[2] as u8);
    assert(b[13] == lit[3] as u8);
    assert(b[14] == lit[4] as u8);
    assert(b[15] == lit[5] as u8);
    assert(b[16] == lit[6] as u8);
    assert(b[17] == lit[7] as u8);
    assert(b[18] == lit[8] as u8);
    assert('0' <= d[0] <= '9' && '0' <= d[1] <= '9' && '0' <= d[2] <= '9' && '0' <= d[3] <= '9');
    assert('0' <= d[5] <= '9' && '0' <= d[6] <= '9' && '0' <= d[8] <= '9' && '0' <= d[9] <= '9');
}

/// A resource with no active bookings and no approved leave (of its own or
/// company-wide) is offered the whole working day by `find_slot` when no
/// bounds are given: the single window from 08:00 to 18:00 of any written
/// date, for any duration up to the ten hours it lasts.
pub proof fn law_free_resource_gets_the_working_day(store: StoreView, input: FindSlotInput)
    requires
        input.resource_ids@.len() == 1,
        input.earliest is None,
        input.latest is None,
        input.duration_minutes <= 600,
        written_date(input.date@),
        forall|k: int|
            0 <= k < store.bookings.len() && (#[trigger] store.bookings[k]).resource_id == input.resource_ids@[0]@
                ==> store.bookings[k].status == "cancelled"@,
        forall|k: int|
            0 <= k < store.time_off.len() && (#[trigger] store.time_off[k]).status == "approved"@
                ==> store.time_off[k].resource_id != input.resource_ids@[0]@ && store.time_off[k].resource_id != "all"@,
    ensures
        all_options(
            store,
            texts(input.resource_ids@),
            input.date@,
            search_bounds(input).0,
            search_bounds(input).1,
            input.duration_minutes,
        ) == seq![(input.resource_ids@[0]@, input.date@ + "T08:00:00"@, input.date@ + "T18:00:00"@)],
{
    reveal_strlit("T08:00:00");
    reveal_strlit("T18:00:00");
    let rid = input.resource_ids@[0]@;
    let d = input.date@;
    let e = d + "T08:00:00"@;
    let l = d + "T18:00:00"@;
    let m = input.duration_minutes;
    assert(search_bounds(input) == (e, l));
    let rids = texts(input.resource_ids@);
    assert(rids =~= seq![rid]);
    assert(rids.drop_last() =~= Seq::<Seq<char>>::empty());
    assert(!on_leave(store.time_off, rid, utf8(d))) by {
        if on_leave(store.time_off, rid, utf8(d)) {
            let i = choose|i: int| 0 <= i < store.time_off.len() && #[trigger] covers(store.time_off[i], rid, utf8(d));
            assert(store.time_off[i].status == "approved"@);
        }
    }
    let on = |b: BookingView| on_day(b, rid, d);
    assert forall|i: int| 0 <= i < store.bookings.len() implies !on(#[trigger] store.bookings[i]) by {
        if store.bookings[i].resource_id == rid {
            assert(store.bookings[i].status == "cancelled"@);
        }
    }
    lemma_filter_keeps_none(store.bookings, on);
    assert(day_bookings(store.bookings, rid, d) == Seq::<BookingView>::empty());
    assert(sort_by_start(Seq::<BookingView>::empty()) == Seq::<BookingView>::empty());
    lemma_day_time_bytes(d, "T08:00:00"@, 8);
    lemma_day_time_bytes(d, "T18:00:00"@, 18);
    let be = utf8(e);
    let bl = utf8(l);
    assert(be.subrange(0, 10) =~= bl.subrange(0, 10));
    law_same_day_times_differ_by_their_clocks(be, bl);
    assert(lasts_at_least(e, l, m));
    assert(text_lt(e, l)) by {
        lemma_bytes_lt_at(be, bl, 11);
    }
    assert(slot_windows(e, l, Seq::<BookingView>::empty()) == seq![(e, l)]);
    let keep = |w: (Seq<char>, Seq<char>)| lasts_at_least(w.0, w.1, m);
    lemma_filter_keeps_none(Seq::<(Seq<char>, Seq<char>)>::empty(), keep);
    Seq::<(Seq<char>, Seq<char>)>::empty().lemma_filter_push((e, l), keep);
    assert(seq![(e, l)] =~= Seq::<(Seq<char>, Seq<char>)>::empty().push((e, l)));
    assert(seq![(e, l)].filter(keep) == seq![(e, l)]);
    let tagged = seq![(e, l)].map_values(|w: (Seq<char>, Seq<char>)| (rid, w.0, w.1));
    assert(tagged =~= seq![(rid, e, l)]);
    assert(resource_options(store, rid, d, e, l, m) == seq![(rid, e, l)]);
    assert(rids.last() == rid);
    assert(all_options(store, Seq::<Seq<char>>::empty(), d, e, l, m) == Seq::<(Seq<char>, Seq<char>, Seq<char>)>::empty());
    assert(all_options(store, rids, d, e, l, m) =~= Seq::<(Seq<char>, Seq<char>, Seq<char>)>::empty() + seq![
        (rid, e, l),
    ]);
}

/// A booking is refused for a conflict exactly when another booking of the
/// same resource that is not cancelled (and, when one is excluded, has
/// another id) starts before the requested end and ends after the requested
/// start: touching intervals, cancelled bookings and other resources never
/// conflict.
pub proof fn law_conflict_is_an_active_overlap(
    bs: Seq<BookingView>,
    rid: Seq<char>,
    start: Seq<char>,
    end: Seq<char>,
    exclude: Option<Seq<char>>,
)
    ensures
        conflict_in(bs, rid, start, end, exclude) <==> exists|i: int|
            0 <= i < bs.len() && (#[trigger] bs[i]).resource_id == rid && bs[i].status != "cancelled"@ && (match exclude {
                Some(e) => bs[i].id != e,
                None => true,
            }) && text_lt(bs[i].start, end) && text_lt(start, bs[i].end),
{
    if conflict_in(bs, rid, start, end, exclude) {
        let i = choose|i: int| 0 <= i < bs.len() && #[trigger] blocks(bs[i], rid, start, end, exclude);
        assert(bs[i].resource_id == rid);
    }
    if exists|i: int|
        0 <= i < bs.len() && (#[trigger] bs[i]).resource_id == rid && bs[i].status != "cancelled"@ && (match exclude {
            Some(e) => bs[i].id != e,
            None => true,
        }) && text_lt(bs[i].start, end) && text_lt(start, bs[i].end) {
        let i = choose|i: int|
            0 <= i < bs.len() && (#[trigger] bs[i]).resource_id == rid && bs[i].status != "cancelled"@ && (match exclude {
                Some(e) => bs[i].id != e,
                None => true,
            }) && text_lt(bs[i].start, end) && text_lt(start, bs[i].end);
        assert(blocks(bs[i], rid, start, end, exclude));
    }
}

} // verus!
