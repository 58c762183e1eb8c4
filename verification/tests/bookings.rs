use mcp_scheduling::inputs::{
    AvailabilityInput, BlackoutInput, BookingIdInput, BookingInput, DateRangeInput, FindSlotInput,
    RescheduleInput, ResourceIdInput, ResourceInput, ShiftIdInput, ShiftInput, TimeOffDecideInput,
    TimeOffInput,
};
use mcp_scheduling::server::{ScheduleError, SchedulingServer};
use mcp_scheduling::store::Store;

fn booking(resource: &str, start: &str, end: &str) -> BookingInput {
    BookingInput {
        resource_id: resource.to_string(),
        title: "Meeting".to_string(),
        start: start.to_string(),
        end: end.to_string(),
        booked_by: "james".to_string(),
        attendees: None,
        recurrence: None,
        notes: None,
    }
}

fn is_id(id: &str, prefix: &str) -> bool {
    id.len() == prefix.len() + 9
        && id.starts_with(prefix)
        && id.as_bytes()[prefix.len()] == b'_'
        && id[prefix.len() + 1..].chars().all(|c| c.is_ascii_digit() || ('a'..='f').contains(&c))
}

fn request_leave(s: &mut SchedulingServer, resource: &str, from: &str, to: &str) -> String {
    s.time_off_request(TimeOffInput {
        resource_id: resource.to_string(),
        start_date: from.to_string(),
        end_date: to.to_string(),
        reason: "vacation".to_string(),
    })
}

#[test]
fn new_ids_have_prefix_and_eight_hex_digits() {
    let a = Store::new_id("bk");
    let b = Store::new_id("res");
    assert!(is_id(&a, "bk"), "{}", a);
    assert!(is_id(&b, "res"), "{}", b);
    assert_ne!(a, b);
}

#[test]
fn resource_create_defaults_timezone_and_tags() {
    let mut s = SchedulingServer::new();
    let id = s.resource_create(ResourceInput {
        name: "Conference Room A".to_string(),
        resource_type: "room".to_string(),
        capacity: Some(12),
        timezone: None,
        tags: None,
    });
    assert!(is_id(&id, "res"));
    let list = s.resource_list();
    assert_eq!(list.len(), 1);
    assert_eq!(list[0].id, id);
    assert_eq!(list[0].timezone, "UTC");
    assert_eq!(list[0].capacity, Some(12));
    assert!(list[0].tags.is_empty());
    assert!(list[0].working_hours.is_none());
}

#[test]
fn resource_create_as_replaces_same_id() {
    let mut s = SchedulingServer::new();
    let mk = |name: &str| ResourceInput {
        name: name.to_string(),
        resource_type: "person".to_string(),
        capacity: None,
        timezone: Some("Africa/Nairobi".to_string()),
        tags: Some(vec!["doctor".to_string()]),
    };
    s.create_resource_as("res_1".to_string(), mk("Dr. Amina"));
    s.create_resource_as("res_2".to_string(), mk("Dr. Baraka"));
    s.create_resource_as("res_1".to_string(), mk("Dr. Chebet"));
    let list = s.resource_list();
    assert_eq!(list.len(), 2);
    assert_eq!(list[0].name, "Dr. Chebet");
    assert_eq!(list[1].name, "Dr. Baraka");
    assert_eq!(list[0].tags, vec!["doctor".to_string()]);
}

#[test]
fn booking_create_confirms_and_rejects_overlap() {
    let mut s = SchedulingServer::new();
    let id = s.booking_create(booking("res_abc", "2026-06-15T09:00:00", "2026-06-15T10:00:00")).unwrap();
    assert!(is_id(&id, "bk"));
    assert_eq!(s.store.bookings[0].status, "confirmed");
    // overlapping
    assert_eq!(
        s.booking_create(booking("res_abc", "2026-06-15T09:30:00", "2026-06-15T10:30:00")),
        Err(ScheduleError::Conflict)
    );
    // touching at the end is no overlap
    assert!(s.booking_create(booking("res_abc", "2026-06-15T10:00:00", "2026-06-15T11:00:00")).is_ok());
    // another resource is free
    assert!(s.booking_create(booking("res_other", "2026-06-15T09:00:00", "2026-06-15T10:00:00")).is_ok());
    assert_eq!(s.store.bookings.len(), 3);
}

#[test]
fn booking_create_refused_on_approved_leave_only() {
    let mut s = SchedulingServer::new();
    let to = request_leave(&mut s, "res_1", "2026-06-10", "2026-06-20");
    // pending leave does not block
    assert!(s.create_booking_as("bk_a".to_string(), booking("res_1", "2026-06-15T09:00:00", "2026-06-15T10:00:00")).is_ok());
    s.time_off_decide(TimeOffDecideInput { time_off_id: to.clone(), decision: "approved".to_string() }).unwrap();
    assert_eq!(
        s.booking_create(booking("res_1", "2026-06-16T09:00:00", "2026-06-16T10:00:00")),
        Err(ScheduleError::TimeOff)
    );
    // the day after the range is free again
    assert!(s.booking_create(booking("res_1", "2026-06-21T09:00:00", "2026-06-21T10:00:00")).is_ok());
    // a conflict is reported before leave
    assert_eq!(
        s.booking_create(booking("res_1", "2026-06-15T09:00:00", "2026-06-15T09:30:00")),
        Err(ScheduleError::Conflict)
    );
}

#[test]
fn cancelled_booking_frees_the_slot() {
    let mut s = SchedulingServer::new();
    s.create_booking_as("bk_1".to_string(), booking("r", "2026-06-15T09:00:00", "2026-06-15T10:00:00")).unwrap();
    assert_eq!(s.booking_cancel(BookingIdInput { booking_id: "bk_1".to_string() }), Ok(()));
    assert_eq!(s.store.bookings[0].status, "cancelled");
    assert!(s.booking_create(booking("r", "2026-06-15T09:00:00", "2026-06-15T10:00:00")).is_ok());
    assert_eq!(
        s.booking_cancel(BookingIdInput { booking_id: "bk_missing".to_string() }),
        Err(ScheduleError::BookingNotFound)
    );
}

#[test]
fn reschedule_moves_and_checks_conflicts() {
    let mut s = SchedulingServer::new();
    s.create_booking_as("bk_1".to_string(), booking("r", "2026-06-15T09:00:00", "2026-06-15T10:00:00")).unwrap();
    s.create_booking_as("bk_2".to_string(), booking("r", "2026-06-15T11:00:00", "2026-06-15T12:00:00")).unwrap();
    // overlapping itself is fine
    let r = s.booking_reschedule(RescheduleInput {
        booking_id: "bk_1".to_string(),
        new_start: "2026-06-15T09:30:00".to_string(),
        new_end: "2026-06-15T10:30:00".to_string(),
    });
    assert_eq!(r, Ok(()));
    assert_eq!(s.store.bookings[0].start, "2026-06-15T09:30:00");
    assert_eq!(s.store.bookings[0].end, "2026-06-15T10:30:00");
    let r = s.booking_reschedule(RescheduleInput {
        booking_id: "bk_1".to_string(),
        new_start: "2026-06-15T11:30:00".to_string(),
        new_end: "2026-06-15T12:30:00".to_string(),
    });
    assert_eq!(r, Err(ScheduleError::Conflict));
    assert_eq!(s.store.bookings[0].start, "2026-06-15T09:30:00");
    let r = s.booking_reschedule(RescheduleInput {
        booking_id: "nope".to_string(),
        new_start: "a".to_string(),
        new_end: "b".to_string(),
    });
    assert_eq!(r, Err(ScheduleError::BookingNotFound));
}

#[test]
fn booking_list_filters_range_resource_and_cancelled() {
    let mut s = SchedulingServer::new();
    s.create_booking_as("bk_1".to_string(), booking("a", "2026-06-15T09:00:00", "2026-06-15T10:00:00")).unwrap();
    s.create_booking_as("bk_2".to_string(), booking("b", "2026-06-16T09:00:00", "2026-06-16T10:00:00")).unwrap();
    s.create_booking_as("bk_3".to_string(), booking("a", "2026-06-17T09:00:00", "2026-06-17T10:00:00")).unwrap();
    s.create_booking_as("bk_4".to_string(), booking("a", "2026-06-18T09:00:00", "2026-06-18T10:00:00")).unwrap();
    s.booking_cancel(BookingIdInput { booking_id: "bk_3".to_string() }).unwrap();
    let all = s.booking_list(DateRangeInput { resource_id: None, start: "2026-06-15".to_string(), end: "2026-06-17".to_string() });
    let ids: Vec<_> = all.iter().map(|b| b.id.clone()).collect();
    assert_eq!(ids, vec!["bk_1", "bk_2"]);
    let a = s.booking_list(DateRangeInput {
        resource_id: Some("a".to_string()),
        start: "2026-06-01".to_string(),
        end: "2026-06-30".to_string(),
    });
    let ids: Vec<_> = a.iter().map(|b| b.id.clone()).collect();
    assert_eq!(ids, vec!["bk_1", "bk_4"]);
}

#[test]
fn shifts_create_update_list() {
    let mut s = SchedulingServer::new();
    let id = s
        .shift_create(ShiftInput {
            resource_id: "emp".to_string(),
            role: "nurse".to_string(),
            start: "2026-06-15T08:00:00".to_string(),
            end: "2026-06-15T16:00:00".to_string(),
            break_minutes: None,
            notes: None,
        })
        .unwrap();
    assert!(is_id(&id, "sh"));
    assert_eq!(s.store.shifts[0].break_minutes, 30);
    assert_eq!(s.store.shifts[0].status, "scheduled");
    assert_eq!(s.shift_update(ShiftIdInput { shift_id: id.clone(), status: "started".to_string() }), Ok(()));
    assert_eq!(s.store.shifts[0].status, "started");
    assert_eq!(
        s.shift_update(ShiftIdInput { shift_id: "x".to_string(), status: "started".to_string() }),
        Err(ScheduleError::ShiftNotFound)
    );
    let listed = s.shift_list(DateRangeInput {
        resource_id: Some("emp".to_string()),
        start: "2026-06-15".to_string(),
        end: "2026-06-16".to_string(),
    });
    assert_eq!(listed.len(), 1);
    let none = s.shift_list(DateRangeInput {
        resource_id: Some("other".to_string()),
        start: "2026-06-15".to_string(),
        end: "2026-06-16".to_string(),
    });
    assert!(none.is_empty());
}

#[test]
fn shift_refused_on_leave() {
    let mut s = SchedulingServer::new();
    let to = request_leave(&mut s, "emp", "2026-06-15", "2026-06-15");
    s.time_off_decide(TimeOffDecideInput { time_off_id: to, decision: "approved".to_string() }).unwrap();
    let r = s.shift_create(ShiftInput {
        resource_id: "emp".to_string(),
        role: "nurse".to_string(),
        start: "2026-06-15T08:00:00".to_string(),
        end: "2026-06-15T16:00:00".to_string(),
        break_minutes: Some(45),
        notes: None,
    });
    assert_eq!(r, Err(ScheduleError::TimeOff));
    assert!(s.store.shifts.is_empty());
}

#[test]
fn time_off_request_decide_list() {
    let mut s = SchedulingServer::new();
    let id = request_leave(&mut s, "emp", "2026-07-01", "2026-07-05");
    assert!(is_id(&id, "to"));
    assert_eq!(s.store.time_off[0].status, "pending");
    request_leave(&mut s, "other", "2026-07-01", "2026-07-05");
    assert_eq!(s.time_off_decide(TimeOffDecideInput { time_off_id: id.clone(), decision: "rejected".to_string() }), Ok(()));
    assert_eq!(s.store.time_off[0].status, "rejected");
    assert_eq!(
        s.time_off_decide(TimeOffDecideInput { time_off_id: "zz".to_string(), decision: "approved".to_string() }),
        Err(ScheduleError::TimeOffNotFound)
    );
    let mine = s.time_off_list(ResourceIdInput { resource_id: "emp".to_string() });
    assert_eq!(mine.len(), 1);
    assert_eq!(mine[0].id, id);
    assert!(!s.store.is_on_time_off("emp", "2026-07-02"));
}

#[test]
fn blackout_blocks_bookings() {
    let mut s = SchedulingServer::new();
    let id = s.blackout_set(BlackoutInput {
        resource_id: "room".to_string(),
        start_date: "2026-12-24".to_string(),
        end_date: "2026-12-26".to_string(),
        reason: "holiday closure".to_string(),
    });
    assert!(is_id(&id, "blk"));
    assert_eq!(s.store.time_off[0].reason, "blackout: holiday closure");
    assert_eq!(s.store.time_off[0].status, "approved");
    assert!(s.store.is_on_time_off("room", "2026-12-25"));
    assert!(!s.store.is_on_time_off("room", "2026-12-27"));
    assert_eq!(
        s.booking_create(booking("room", "2026-12-25T10:00:00", "2026-12-25T11:00:00")),
        Err(ScheduleError::TimeOff)
    );
}

#[test]
fn has_conflict_excludes_given_id_and_cancelled() {
    let mut s = SchedulingServer::new();
    s.create_booking_as("bk_1".to_string(), booking("r", "2026-06-15T09:00:00", "2026-06-15T10:00:00")).unwrap();
    assert!(s.store.has_conflict("r", "2026-06-15T09:59:00", "2026-06-15T11:00:00", None));
    assert!(!s.store.has_conflict("r", "2026-06-15T09:59:00", "2026-06-15T11:00:00", Some("bk_1")));
    assert!(!s.store.has_conflict("r", "2026-06-15T08:00:00", "2026-06-15T09:00:00", None));
    s.booking_cancel(BookingIdInput { booking_id: "bk_1".to_string() }).unwrap();
    assert!(!s.store.has_conflict("r", "2026-06-15T09:00:00", "2026-06-15T10:00:00", None));
}

#[test]
fn availability_check_gaps() {
    let mut s = SchedulingServer::new();
    s.create_booking_as("bk_2".to_string(), booking("r", "2026-06-15T13:00:00", "2026-06-15T14:00:00")).unwrap();
    s.create_booking_as("bk_1".to_string(), booking("r", "2026-06-15T09:00:00", "2026-06-15T10:30:00")).unwrap();
    s.create_booking_as("bk_3".to_string(), booking("r", "2026-06-16T09:00:00", "2026-06-16T10:00:00")).unwrap();
    let rep = s.availability_check(&AvailabilityInput {
        resource_id: "r".to_string(),
        date: "2026-06-15".to_string(),
        duration_minutes: None,
    });
    assert!(!rep.on_leave);
    assert_eq!(rep.booked_slots, 2);
    let slots: Vec<(String, String)> = rep.slots.iter().map(|w| (w.start.clone(), w.end.clone())).collect();
    assert_eq!(
        slots,
        vec![
            ("2026-06-15T08:00:00".to_string(), "2026-06-15T09:00:00".to_string()),
            ("2026-06-15T10:30:00".to_string(), "2026-06-15T13:00:00".to_string()),
            ("2026-06-15T14:00:00".to_string(), "2026-06-15T18:00:00".to_string()),
        ]
    );
}

#[test]
fn availability_check_empty_day_is_one_window() {
    let s = SchedulingServer::new();
    let rep = s.availability_check(&AvailabilityInput {
        resource_id: "r".to_string(),
        date: "2026-06-15".to_string(),
        duration_minutes: Some(30),
    });
    assert_eq!(rep.booked_slots, 0);
    assert_eq!(rep.slots.len(), 1);
    assert_eq!(rep.slots[0].start, "2026-06-15T08:00:00");
    assert_eq!(rep.slots[0].end, "2026-06-15T18:00:00");
}

#[test]
fn find_slot_skips_leave_and_lists_windows() {
    let mut s = SchedulingServer::new();
    s.create_booking_as("bk_1".to_string(), booking("a", "2026-06-15T09:00:00", "2026-06-15T17:00:00")).unwrap();
    let to = request_leave(&mut s, "b", "2026-06-15", "2026-06-15");
    s.time_off_decide(TimeOffDecideInput { time_off_id: to, decision: "approved".to_string() }).unwrap();
    let found = s.find_slot(&FindSlotInput {
        resource_ids: vec!["a".to_string(), "b".to_string(), "c".to_string()],
        duration_minutes: 60,
        date: "2026-06-15".to_string(),
        earliest: None,
        latest: None,
    });
    let got: Vec<(String, String, String)> =
        found.iter().map(|o| (o.resource_id.clone(), o.start.clone(), o.end.clone())).collect();
    assert_eq!(
        got,
        vec![
            ("a".to_string(), "2026-06-15T08:00:00".to_string(), "2026-06-15T09:00:00".to_string()),
            ("a".to_string(), "2026-06-15T17:00:00".to_string(), "2026-06-15T18:00:00".to_string()),
            ("c".to_string(), "2026-06-15T08:00:00".to_string(), "2026-06-15T18:00:00".to_string()),
        ]
    );
}

#[test]
fn schedule_summary_of_a_day() {
    let mut s = SchedulingServer::new();
    s.create_booking_as("bk_1".to_string(), booking("r", "2026-06-15T09:00:00", "2026-06-15T10:00:00")).unwrap();
    s.create_booking_as("bk_2".to_string(), booking("r", "2026-06-15T11:00:00", "2026-06-15T12:00:00")).unwrap();
    s.booking_cancel(BookingIdInput { booking_id: "bk_2".to_string() }).unwrap();
    s.create_shift_as(
        "sh_1".to_string(),
        ShiftInput {
            resource_id: "r".to_string(),
            role: "host".to_string(),
            start: "2026-06-15T08:00:00".to_string(),
            end: "2026-06-15T12:00:00".to_string(),
            break_minutes: Some(15),
            notes: Some("front desk".to_string()),
        },
    )
    .unwrap();
    let sum = s.schedule_summary(&AvailabilityInput {
        resource_id: "r".to_string(),
        date: "2026-06-15".to_string(),
        duration_minutes: None,
    });
    assert!(!sum.on_leave);
    assert_eq!(sum.bookings.len(), 1);
    assert_eq!(sum.bookings[0].id, "bk_1");
    assert_eq!(sum.shifts.len(), 1);
    assert_eq!(sum.shifts[0].break_minutes, 15);
}

#[test]
fn availability_keeps_stored_order_among_equal_starts() {
    let mut s = SchedulingServer::new();
    // a booking whose end precedes its start blocks nothing, so both are accepted
    s.create_booking_as("bk_a".to_string(), booking("r", "2026-06-15T10:00:00", "2026-06-15T09:00:00")).unwrap();
    s.create_booking_as("bk_b".to_string(), booking("r", "2026-06-15T10:00:00", "2026-06-15T11:00:00")).unwrap();
    let rep = s.availability_check(&AvailabilityInput {
        resource_id: "r".to_string(),
        date: "2026-06-15".to_string(),
        duration_minutes: None,
    });
    let slots: Vec<(String, String)> = rep.slots.iter().map(|w| (w.start.clone(), w.end.clone())).collect();
    assert_eq!(
        slots,
        vec![
            ("2026-06-15T08:00:00".to_string(), "2026-06-15T10:00:00".to_string()),
            ("2026-06-15T09:00:00".to_string(), "2026-06-15T10:00:00".to_string()),
            ("2026-06-15T11:00:00".to_string(), "2026-06-15T18:00:00".to_string()),
        ]
    );
}

#[test]
fn conflict_is_reported_even_for_a_short_start() {
    let mut s = SchedulingServer::new();
    s.create_booking_as("bk_1".to_string(), booking("r", "2026-06-15T09:00:00", "2026-06-15T10:00:00")).unwrap();
    // "2026" sorts before the existing start and "2026-06-15T09:30" after it
    assert_eq!(s.booking_create(booking("r", "2026", "2026-06-15T09:30")), Err(ScheduleError::Conflict));
}

#[test]
fn same_booking_twice_is_refused() {
    let mut s = SchedulingServer::new();
    let req = || booking("res_abc", "2026-06-15T09:00:00+03:00", "2026-06-15T10:00:00+03:00");
    assert!(s.booking_create(req()).is_ok());
    assert_eq!(s.booking_create(req()), Err(ScheduleError::Conflict));
    assert_eq!(s.store.bookings.len(), 1);
}

#[test]
fn overlapping_shift_is_refused() {
    let mut s = SchedulingServer::new();
    let mk = |start: &str, end: &str| ShiftInput {
        resource_id: "emp".to_string(),
        role: "nurse".to_string(),
        start: start.to_string(),
        end: end.to_string(),
        break_minutes: None,
        notes: None,
    };
    assert!(s.create_shift_as("sh_1".to_string(), mk("2026-06-15T08:00:00", "2026-06-15T16:00:00")).is_ok());
    assert_eq!(
        s.create_shift_as("sh_2".to_string(), mk("2026-06-15T12:00:00", "2026-06-15T20:00:00")),
        Err(ScheduleError::Conflict)
    );
    assert!(s.create_shift_as("sh_3".to_string(), mk("2026-06-15T16:00:00", "2026-06-15T20:00:00")).is_ok());
    assert_eq!(s.store.shifts.len(), 2);
}

#[test]
fn reschedule_onto_leave_is_refused() {
    let mut s = SchedulingServer::new();
    s.create_booking_as("bk_1".to_string(), booking("r", "2026-06-15T09:00:00", "2026-06-15T10:00:00")).unwrap();
    s.blackout_set(BlackoutInput {
        resource_id: "r".to_string(),
        start_date: "2026-06-20".to_string(),
        end_date: "2026-06-21".to_string(),
        reason: "maintenance".to_string(),
    });
    let r = s.booking_reschedule(RescheduleInput {
        booking_id: "bk_1".to_string(),
        new_start: "2026-06-20T09:00:00".to_string(),
        new_end: "2026-06-20T10:00:00".to_string(),
    });
    assert_eq!(r, Err(ScheduleError::TimeOff));
    assert_eq!(s.store.bookings[0].start, "2026-06-15T09:00:00");
    let r = s.booking_reschedule(RescheduleInput {
        booking_id: "bk_1".to_string(),
        new_start: "2026-06-22T09:00:00".to_string(),
        new_end: "2026-06-22T10:00:00".to_string(),
    });
    assert_eq!(r, Ok(()));
}

#[test]
fn company_wide_blackout_blocks_every_resource() {
    let mut s = SchedulingServer::new();
    s.blackout_set(BlackoutInput {
        resource_id: "all".to_string(),
        start_date: "2026-12-24".to_string(),
        end_date: "2026-12-26".to_string(),
        reason: "closure".to_string(),
    });
    assert!(s.store.is_on_time_off("room_a", "2026-12-25"));
    assert!(s.store.is_on_time_off("dr_amina", "2026-12-24"));
    assert!(!s.store.is_on_time_off("room_a", "2026-12-27"));
    assert_eq!(
        s.booking_create(booking("room_b", "2026-12-26T10:00:00", "2026-12-26T11:00:00")),
        Err(ScheduleError::TimeOff)
    );
}

#[test]
fn find_slot_leaves_out_short_gaps() {
    let mut s = SchedulingServer::new();
    s.create_booking_as("bk_1".to_string(), booking("a", "2026-06-15T08:15:00", "2026-06-15T12:00:00")).unwrap();
    s.create_booking_as("bk_2".to_string(), booking("a", "2026-06-15T12:30:00", "2026-06-15T17:30:00")).unwrap();
    let run = |s: &SchedulingServer, minutes: u32| -> Vec<(String, String)> {
        s.find_slot(&FindSlotInput {
            resource_ids: vec!["a".to_string()],
            duration_minutes: minutes,
            date: "2026-06-15".to_string(),
            earliest: None,
            latest: None,
        })
        .iter()
        .map(|o| (o.start.clone(), o.end.clone()))
        .collect()
    };
    assert_eq!(run(&s, 15).len(), 3);
    assert_eq!(
        run(&s, 30),
        vec![
            ("2026-06-15T12:00:00".to_string(), "2026-06-15T12:30:00".to_string()),
            ("2026-06-15T17:30:00".to_string(), "2026-06-15T18:00:00".to_string()),
        ]
    );
    assert!(run(&s, 31).is_empty());
}

#[test]
fn find_slot_offers_free_resource_despite_late_booking() {
    let mut s = SchedulingServer::new();
    s.create_booking_as("bk_1".to_string(), booking("a", "2026-06-15T15:00:00", "2026-06-15T16:00:00")).unwrap();
    let found = s.find_slot(&FindSlotInput {
        resource_ids: vec!["a".to_string()],
        duration_minutes: 30,
        date: "2026-06-15".to_string(),
        earliest: Some("2026-06-15T10:00:00".to_string()),
        latest: Some("2026-06-15T12:00:00".to_string()),
    });
    assert_eq!(found.len(), 1);
    assert_eq!(found[0].start, "2026-06-15T10:00:00");
    assert_eq!(found[0].end, "2026-06-15T12:00:00");
}

#[test]
fn find_slot_keeps_unmeasured_windows_only_for_zero_duration() {
    let s = SchedulingServer::new();
    let run = |minutes: u32| {
        s.find_slot(&FindSlotInput {
            resource_ids: vec!["a".to_string()],
            duration_minutes: minutes,
            date: "2026-06-15".to_string(),
            earliest: Some("dawn".to_string()),
            latest: Some("dusk".to_string()),
        })
    };
    let found = run(0);
    assert_eq!(found.len(), 1);
    assert_eq!(found[0].start, "dawn");
    assert_eq!(found[0].end, "dusk");
    assert!(run(30).is_empty());
}

#[test]
fn create_then_cancel_leaves_availability_unchanged() {
    let mut s = SchedulingServer::new();
    s.create_booking_as("bk_1".to_string(), booking("r", "2026-06-15T09:00:00", "2026-06-15T10:00:00")).unwrap();
    let check = |s: &SchedulingServer| {
        let rep = s.availability_check(&AvailabilityInput {
            resource_id: "r".to_string(),
            date: "2026-06-15".to_string(),
            duration_minutes: None,
        });
        let slots: Vec<(String, String)> = rep.slots.iter().map(|w| (w.start.clone(), w.end.clone())).collect();
        (rep.on_leave, rep.booked_slots, slots)
    };
    let before = check(&s);
    let id = s.booking_create(booking("r", "2026-06-15T13:00:00", "2026-06-15T14:30:00")).unwrap();
    assert_eq!(check(&s).1, 2);
    assert_eq!(s.booking_cancel(BookingIdInput { booking_id: id }), Ok(()));
    assert_eq!(check(&s), before);
    assert_eq!(before.1, 1);
    assert_eq!(before.2.len(), 2);
}
