//! The scheduler's store: resources, bookings, shifts and time off, with the
//! two checks every booking goes through (conflicts and approved leave) and
//! the generator of record identifiers.

use vstd::prelude::*;
use vstd::string::*;
use crate::text::{bytes_lt, join_text, same_text, text_less, text_lt, utf8};
use crate::types::{Booking, BookingView, Resource, ResourceView, Shift, ShiftView, TimeOff, TimeOffView};

verus! {

/// Everything the scheduler knows.
pub struct Store {
    pub resources: Vec<Resource>,
    pub bookings: Vec<Booking>,
    pub shifts: Vec<Shift>,
    pub time_off: Vec<TimeOff>,
}

/// The abstract value of a [`Store`]: its four lists, in order.
pub struct StoreView {
    pub resources: Seq<ResourceView>,
    pub bookings: Seq<BookingView>,
    pub shifts: Seq<ShiftView>,
    pub time_off: Seq<TimeOffView>,
}

impl View for Store {
    type V = StoreView;

    open spec fn view(&self) -> StoreView {
        StoreView {
            resources: self.resources@.map_values(|r: Resource| r@),
            bookings: self.bookings@.map_values(|b: Booking| b@),
            shifts: self.shifts@.map_values(|s: Shift| s@),
            time_off: self.time_off@.map_values(|t: TimeOff| t@),
        }
    }
}

/// A booking takes part in conflict checks unless it is cancelled.
pub open spec fn is_active(b: BookingView) -> bool {
    b.status != "cancelled"@
}

/// The optional text of an optional string slice.
pub open spec fn opt_str(o: Option<&str>) -> Option<Seq<char>> {
    match o {
        Some(s) => Some(s@),
        None => None,
    }
}

/// Booking `b` stands in the way of booking resource `rid` from `start` to `end`:
/// same resource, not cancelled, not the excluded booking, and the two
/// intervals overlap (`b.start < end` and `b.end > start`).
pub open spec fn blocks(
    b: BookingView,
    rid: Seq<char>,
    start: Seq<char>,
    end: Seq<char>,
    exclude: Option<Seq<char>>,
) -> bool {
    &&& b.resource_id == rid
    &&& is_active(b)
    &&& match exclude {
        Some(e) => b.id != e,
        None => true,
    }
    &&& text_lt(b.start, end)
    &&& text_lt(start, b.end)
}

/// Some booking in `bs` stands in the way (see [`blocks`]).
pub open spec fn conflict_in(
    bs: Seq<BookingView>,
    rid: Seq<char>,
    start: Seq<char>,
    end: Seq<char>,
    exclude: Option<Seq<char>>,
) -> bool {
    exists|i: int| 0 <= i < bs.len() && #[trigger] blocks(bs[i], rid, start, end, exclude)
}

/// Time off `t` keeps resource `rid` away on the day whose bytes are `date`:
/// it is for that resource or for `all` (company-wide), approved, and
/// `start_date <= date <= end_date`.
pub open spec fn covers(t: TimeOffView, rid: Seq<char>, date: Seq<u8>) -> bool {
    &&& (t.resource_id == rid || t.resource_id == "all"@)
    &&& t.status == "approved"@
    &&& !bytes_lt(date, utf8(t.start_date))
    &&& !bytes_lt(utf8(t.end_date), date)
}

/// Some entry of `ts` keeps `rid` away on `date` (see [`covers`]).
pub open spec fn on_leave(ts: Seq<TimeOffView>, rid: Seq<char>, date: Seq<u8>) -> bool {
    exists|i: int| 0 <= i < ts.len() && #[trigger] covers(ts[i], rid, date)
}

/// Shift `sh` of resource `rid` overlaps the time from `start` to `end`
/// (`sh.start < end` and `sh.end > start`).
pub open spec fn shift_clashes(sh: ShiftView, rid: Seq<char>, start: Seq<char>, end: Seq<char>) -> bool {
    &&& sh.resource_id == rid
    &&& text_lt(sh.start, end)
    &&& text_lt(start, sh.end)
}

/// Some shift in `ss` overlaps (see [`shift_clashes`]).
pub open spec fn shift_conflict_in(ss: Seq<ShiftView>, rid: Seq<char>, start: Seq<char>, end: Seq<char>) -> bool {
    exists|i: int| 0 <= i < ss.len() && #[trigger] shift_clashes(ss[i], rid, start, end)
}

/// A lower-case hexadecimal digit.
pub open spec fn is_lower_hex(c: char) -> bool {
    ('0' <= c && c <= '9') || ('a' <= c && c <= 'f')
}

/// The hyphenated lower-case text of a version-4 UUID,
/// `xxxxxxxx-xxxx-4xxx-Yxxx-xxxxxxxxxxxx` with `Y` one of `8 9 a b`.
pub open spec fn is_v4_uuid_text(s: Seq<char>) -> bool {
    &&& s.len() == 36
    &&& forall|i: int|
        0 <= i < 36 ==> if i == 8 || i == 13 || i == 18 || i == 23 {
            s[i] == '-'
        } else {
            is_lower_hex(#[trigger] s[i])
        }
    &&& s[14] == '4'
    &&& (s[19] == '8' || s[19] == '9' || s[19] == 'a' || s[19] == 'b')
}

/// An identifier made by [`Store::new_id`] from `prefix`: the prefix, `_`,
/// and eight lower-case hexadecimal digits.
pub open spec fn is_id_with_prefix(id: Seq<char>, prefix: Seq<char>) -> bool {
    &&& id.len() == prefix.len() + 9
    &&& id.subrange(0, prefix.len() as int) == prefix
    &&& id[prefix.len() as int] == '_'
    &&& forall|k: int| prefix.len() + 1 <= k < id.len() ==> is_lower_hex(#[trigger] id[k])
}

/// Calls `uuid::Uuid::new_v4()` and renders the UUID with its `Display` impl.
/// The bits come from the operating system's random source, so nothing ties
/// two results together; the contract states the hyphenated lower-case v4
/// format that `Uuid::new_v4` and `Uuid`'s `Display` produce. (`new_v4`
/// panics when the operating system has no random bytes to give.)
#[verifier::external_body]
fn random_uuid_text() -> (s: String)
    ensures
        is_v4_uuid_text(s@),
{
    uuid::Uuid::new_v4().to_string()
}

/// The first eight hexadecimal digits of a fresh random UUID.
fn uid() -> (r: String)
    ensures
        r@.len() == 8,
        forall|k: int| 0 <= k < 8 ==> is_lower_hex(#[trigger] r@[k]),
{
    let t = random_uuid_text();
    let ts = t.as_str();
    assert(ts.is_ascii()) by {
        assert forall|i: int| 0 <= i < ts@.len() implies '\0' <= #[trigger] ts@[i] <= '\u{7f}' by {
            if i == 8 || i == 13 || i == 18 || i == 23 {
            } else {
                assert(is_lower_hex(ts@[i]));
            }
        }
    }
    let head = ts.substring_ascii(0, 8);
    let r = head.to_owned();
    assert forall|k: int| 0 <= k < 8 implies is_lower_hex(#[trigger] r@[k]) by {
        assert(r@[k] == t@[k]);
        assert(k != 8 && k != 13 && k != 18 && k != 23);
    }
    r
}

impl Store {
    /// An empty store.
    pub fn new() -> (s: Store)
        ensures
            s@.resources.len() == 0,
            s@.bookings.len() == 0,
            s@.shifts.len() == 0,
            s@.time_off.len() == 0,
    {
        Store { resources: Vec::new(), bookings: Vec::new(), shifts: Vec::new(), time_off: Vec::new() }
    }

    /// Whether a booking of `resource_id` from `start` to `end` would overlap an
    /// active booking of the same resource, leaving out the booking whose id
    /// is `exclude_id`.
    pub fn has_conflict(&self, resource_id: &str, start: &str, end: &str, exclude_id: Option<&str>) -> (r: bool)
        ensures
            r == conflict_in(self@.bookings, resource_id@, start@, end@, opt_str(exclude_id)),
    {
        let mut i: usize = 0;
        while i < self.bookings.len()
            invariant
                i <= self.bookings@.len(),
                forall|k: int| 0 <= k < i ==> !#[trigger] blocks(self@.bookings[k], resource_id@, start@, end@, opt_str(exclude_id)),
            decreases self.bookings@.len() - i,
        {
            let b = &self.bookings[i];
            assert(self@.bookings[i as int] == b@);
            let excluded = match exclude_id {
                Some(eid) => same_text(b.id.as_str(), eid),
                None => false,
            };
            if same_text(b.resource_id.as_str(), resource_id) && !same_text(b.status.as_str(), "cancelled")
                && !excluded && text_less(b.start.as_str(), end) && text_less(start, b.end.as_str()) {
                assert(blocks(self@.bookings[i as int], resource_id@, start@, end@, opt_str(exclude_id)));
                return true;
            }
            i = i + 1;
        }
        false
    }

    /// Whether a shift of `resource_id` overlaps the time from `start` to `end`.
    pub fn has_shift_conflict(&self, resource_id: &str, start: &str, end: &str) -> (r: bool)
        ensures
            r == shift_conflict_in(self@.shifts, resource_id@, start@, end@),
    {
        let mut i: usize = 0;
        while i < self.shifts.len()
            invariant
                i <= self.shifts@.len(),
                forall|k: int| 0 <= k < i ==> !#[trigger] shift_clashes(self@.shifts[k], resource_id@, start@, end@),
            decreases self.shifts@.len() - i,
        {
            let sh = &self.shifts[i];
            assert(self@.shifts[i as int] == sh@);
            if same_text(sh.resource_id.as_str(), resource_id) && text_less(sh.start.as_str(), end)
                && text_less(start, sh.end.as_str()) {
                assert(shift_clashes(self@.shifts[i as int], resource_id@, start@, end@));
                return true;
            }
            i = i + 1;
        }
        false
    }

    /// Whether approved time off keeps `resource_id` away on `date`.
    pub fn is_on_time_off(&self, resource_id: &str, date: &str) -> (r: bool)
        ensures
            r == on_leave(self@.time_off, resource_id@, utf8(date@)),
    {
        let db = date.as_bytes();
        let mut i: usize = 0;
        while i < self.time_off.len()
            invariant
                i <= self.time_off@.len(),
                db@ == utf8(date@),
                forall|k: int| 0 <= k < i ==> !#[trigger] covers(self@.time_off[k], resource_id@, utf8(date@)),
            decreases self.time_off@.len() - i,
        {
            let t = &self.time_off[i];
            assert(self@.time_off[i as int] == t@);
            if (same_text(t.resource_id.as_str(), resource_id) || same_text(t.resource_id.as_str(), "all"))
                && same_text(t.status.as_str(), "approved")
                && !crate::text::less_bytes(db, t.start_date.as_str().as_bytes())
                && !crate::text::less_bytes(t.end_date.as_str().as_bytes(), db) {
                assert(covers(self@.time_off[i as int], resource_id@, utf8(date@)));
                return true;
            }
            i = i + 1;
        }
        false
    }

    /// A fresh identifier: `prefix`, `_`, and eight random hexadecimal digits.
    pub fn new_id(prefix: &str) -> (r: String)
        ensures
            is_id_with_prefix(r@, prefix@),
    {
        let u = uid();
        let head = join_text(prefix, "_");
        let r = join_text(head.as_str(), u.as_str());
        proof {
            reveal_strlit("_");
            assert(r@.subrange(0, prefix@.len() as int) =~= prefix@);
            assert forall|k: int| prefix@.len() + 1 <= k < r@.len() implies is_lower_hex(#[trigger] r@[k]) by {
                assert(r@[k] == u@[k - prefix@.len() - 1]);
            }
        }
        r
    }
}

} // verus!
