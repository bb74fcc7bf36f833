use calendar_core::event::{CalendarEvent, Coordinates, Location, ReminderConfig};
use calendar_core::models::{Category, EventStatus, LocationType, Priority, RecurrenceFrequency, Visibility};
use calendar_core::recurrence::RecurrenceConfig;
use calendar_core::repository::{check_conflicts, expand_range, get_by_date, get_by_date_range};
use calendar_core::rows::{decode_id, decode_timestamp, event_to_row, row_to_event};
use calendar_core::sorting::{event_before, sort_events};

fn create_test_event(title: &str, date: &str) -> CalendarEvent {
    let mut event = CalendarEvent::new(title.to_string(), date.to_string());
    event.time = Some("14:00".to_string());
    event.end_time = Some("15:00".to_string());
    event
}

fn timed(title: &str, date: &str, time: &str, end_time: &str) -> CalendarEvent {
    let mut event = CalendarEvent::new(title.to_string(), date.to_string());
    event.time = Some(time.to_string());
    event.end_time = Some(end_time.to_string());
    event
}

fn titles(events: &[CalendarEvent]) -> Vec<String> {
    events.iter().map(|e| e.event.clone()).collect()
}

#[test]
fn test_date_range_query() {
    let rows = vec![
        create_test_event("Event 1", "2026-01-20"),
        create_test_event("Event 2", "2026-01-21"),
        create_test_event("Event 3", "2026-01-25"),
    ];

    let events = get_by_date_range(&rows, "2026-01-20", "2026-01-22");
    assert_eq!(events.len(), 2);
}

#[test]
fn test_conflict_detection_overlapping() {
    let mut event1 = create_test_event("Event 1", "2026-01-20");
    event1.time = Some("14:00".to_string());
    event1.end_time = Some("15:00".to_string());
    let rows = vec![event1.clone()];

    let mut event2 = create_test_event("Event 2", "2026-01-20");
    event2.time = Some("14:30".to_string());
    event2.end_time = Some("15:30".to_string());

    let conflicts = check_conflicts(&event2, &rows);
    assert!(conflicts.contains(&event1.id.to_string()));
}

#[test]
fn test_conflict_detection_no_overlap() {
    let mut event1 = create_test_event("Event 1", "2026-01-20");
    event1.time = Some("14:00".to_string());
    event1.end_time = Some("15:00".to_string());
    let rows = vec![event1];

    let mut event2 = create_test_event("Event 2", "2026-01-20");
    event2.time = Some("15:00".to_string());
    event2.end_time = Some("16:00".to_string());

    let conflicts = check_conflicts(&event2, &rows);
    assert_eq!(conflicts.len(), 0);
}

#[test]
fn test_recurring_events_in_date_range() {
    let mut recurring_event = create_test_event("Weekly Meeting", "2026-01-20");
    recurring_event.recurring = Some(RecurrenceConfig {
        frequency: RecurrenceFrequency::Weekly,
        interval: 1,
        days_of_week: vec![],
        end_date: None,
        occurrences: Some(4),
        except_dates: vec![],
    });
    let rows = vec![recurring_event];

    let events = get_by_date_range(&rows, "2026-01-01", "2026-02-28");

    let meeting_events: Vec<_> = events.iter().filter(|e| e.event == "Weekly Meeting").collect();

    assert_eq!(meeting_events.len(), 4);

    assert_eq!(meeting_events[0].date, "2026-01-20");
    assert_eq!(meeting_events[1].date, "2026-01-27");
}

#[test]
fn conflicts_are_symmetric() {
    let a = timed("A", "2026-01-20", "14:00", "15:00");
    let b = timed("B", "2026-01-20", "14:30", "15:30");
    assert_eq!(check_conflicts(&a, &vec![a.clone(), b.clone()]), vec![b.id.clone()]);
    assert_eq!(check_conflicts(&b, &vec![a.clone(), b.clone()]), vec![a.id.clone()]);
}

#[test]
fn touching_windows_do_not_conflict_either_way() {
    let a = timed("A", "2026-01-20", "14:00", "15:00");
    let b = timed("B", "2026-01-20", "15:00", "16:00");
    assert!(check_conflicts(&a, &vec![b.clone()]).is_empty());
    assert!(check_conflicts(&b, &vec![a.clone()]).is_empty());
}

#[test]
fn conflicts_need_the_same_day_another_id_and_times() {
    let a = timed("A", "2026-01-20", "14:00", "15:00");
    let other_day = timed("B", "2026-01-21", "14:00", "15:00");
    let mut untimed = timed("C", "2026-01-20", "14:00", "15:00");
    untimed.end_time = None;
    let inside = timed("D", "2026-01-20", "14:15", "14:45");
    let around = timed("E", "2026-01-20", "13:00", "16:00");
    let rows = vec![a.clone(), other_day, untimed.clone(), inside.clone(), around.clone()];
    assert_eq!(check_conflicts(&a, &rows), vec![inside.id.clone(), around.id.clone()]);
    assert!(check_conflicts(&untimed, &rows).is_empty());
    let mut all_day = a.clone();
    all_day.time = None;
    assert!(check_conflicts(&all_day, &rows).is_empty());
}

#[test]
fn both_ends_of_a_range_are_included() {
    let rows = vec![
        create_test_event("before", "2026-01-19"),
        create_test_event("start", "2026-01-20"),
        create_test_event("end", "2026-01-22"),
        create_test_event("after", "2026-01-23"),
    ];
    let events = get_by_date_range(&rows, "2026-01-20", "2026-01-22");
    assert_eq!(titles(&events), vec!["start", "end"]);
    let single = get_by_date_range(&rows, "2026-01-20", "2026-01-20");
    assert_eq!(titles(&single), vec!["start"]);
    assert!(get_by_date_range(&rows, "2026-01-22", "2026-01-20").is_empty());
}

#[test]
fn rows_that_do_not_recur_keep_their_identifier() {
    let rows = vec![create_test_event("one", "2026-01-20")];
    let events = get_by_date_range(&rows, "2026-01-01", "2026-01-31");
    assert_eq!(events, rows);
}

#[test]
fn range_results_are_ordered_by_date_then_time() {
    let mut untimed = CalendarEvent::new("untimed".to_string(), "2026-01-21".to_string());
    untimed.time = None;
    let rows = vec![
        timed("late", "2026-01-21", "18:00", "19:00"),
        timed("other day", "2026-01-22", "08:00", "09:00"),
        untimed,
        timed("early", "2026-01-21", "00:30", "01:00"),
        timed("first", "2026-01-20", "23:00", "23:30"),
    ];
    let events = get_by_date_range(&rows, "2026-01-20", "2026-01-22");
    assert_eq!(titles(&events), vec!["first", "untimed", "early", "late", "other day"]);
}

#[test]
fn instances_copy_the_base_row_with_a_new_date_and_identifier() {
    let mut base = create_test_event("Standup", "2026-01-20");
    base.tags = vec!["team".to_string()];
    base.recurring = Some(RecurrenceConfig {
        frequency: RecurrenceFrequency::Daily,
        interval: 1,
        days_of_week: vec![],
        end_date: None,
        occurrences: Some(10),
        except_dates: vec!["2026-01-22".to_string()],
    });
    let rows = vec![base.clone()];
    let events = get_by_date_range(&rows, "2026-01-21", "2026-01-23");
    assert_eq!(events.len(), 2);
    assert_eq!(events[0].date, "2026-01-21");
    assert_eq!(events[1].date, "2026-01-23");
    for e in &events {
        assert_ne!(e.id, base.id);
        let mut same = e.clone();
        same.id = base.id.clone();
        same.date = base.date.clone();
        assert_eq!(same, base);
    }
    assert_ne!(events[0].id, events[1].id);
    assert_eq!(rows.len(), 1);
}

#[test]
fn a_recurring_row_outside_the_range_still_contributes() {
    let mut base = create_test_event("Yearly", "2020-03-01");
    base.recurring = Some(RecurrenceConfig {
        frequency: RecurrenceFrequency::Yearly,
        interval: 1,
        days_of_week: vec![],
        end_date: None,
        occurrences: None,
        except_dates: vec![],
    });
    let events = get_by_date_range(&vec![base], "2026-01-01", "2026-12-31");
    assert_eq!(events.len(), 1);
    assert_eq!(events[0].date, "2026-03-01");
    let unsorted = expand_range(&vec![], "2026-01-01", "2026-12-31");
    assert!(unsorted.is_empty());
}

#[test]
fn events_of_a_day_come_untimed_first_then_by_time() {
    let mut untimed = CalendarEvent::new("untimed".to_string(), "2026-01-20".to_string());
    untimed.time = None;
    let rows = vec![
        timed("noon", "2026-01-20", "12:00", "13:00"),
        timed("elsewhere", "2026-01-21", "08:00", "09:00"),
        timed("midnight", "2026-01-20", "00:00", "01:00"),
        untimed,
        timed("morning", "2026-01-20", "09:00", "10:00"),
    ];
    let events = get_by_date(&rows, "2026-01-20");
    assert_eq!(titles(&events), vec!["untimed", "midnight", "morning", "noon"]);
    assert!(get_by_date(&rows, "2026-01-19").is_empty());
}

#[test]
fn sorting_keeps_every_event_and_the_order_of_equals() {
    let a = timed("a", "2026-01-20", "10:00", "11:00");
    let b = timed("b", "2026-01-20", "10:00", "11:00");
    let c = timed("c", "2026-01-19", "10:00", "11:00");
    let sorted = sort_events(vec![a.clone(), b.clone(), c.clone()], true);
    assert_eq!(sorted, vec![c.clone(), a.clone(), b.clone()]);
    assert!(event_before(&c, &a, true));
    assert!(!event_before(&a, &b, true) && !event_before(&b, &a, true));
}

#[test]
fn a_stored_event_reads_back_equal_in_every_field() {
    let mut event = create_test_event("Full", "2026-01-20");
    event.notes = Some("notes".to_string());
    event.priority = Priority::Urgent;
    event.category = Category::Finance;
    event.status = EventStatus::Tentative;
    event.visibility = Visibility::Public;
    event.color = Some("#123456".to_string());
    event.tags = vec!["a".to_string(), "b".to_string()];
    event.metadata = "{\"source\":\"test\"}".to_string();
    event.recurring = Some(RecurrenceConfig {
        frequency: RecurrenceFrequency::Weekly,
        interval: 1,
        days_of_week: vec![1, 3, 5],
        end_date: Some("2026-12-31".to_string()),
        occurrences: None,
        except_dates: vec!["2026-02-10".to_string()],
    });
    event.reminder = Some(ReminderConfig { minutes_before: 30, repeat_minutes: Some(10), max_reminders: 5 });
    event.location = Some(Location {
        location_type: LocationType::Physical,
        address: "123 Main St".to_string(),
        coordinates: Some(Coordinates { lat_bits: 48.5f64.to_bits(), lng_bits: 2.25f64.to_bits() }),
    });
    let row = event_to_row(&event);
    assert_eq!(row.priority, "urgent");
    assert_eq!(row.category, "finance");
    assert_eq!(row.status, "tentative");
    assert_eq!(row.visibility, "public");
    assert_eq!(row.tags, Some(vec!["a".to_string(), "b".to_string()]));
    assert_eq!(row.metadata, Some("{\"source\":\"test\"}".to_string()));
    assert_eq!(row_to_event(row), event);
}

#[test]
fn a_row_decodes_leniently() {
    let mut row = event_to_row(&create_test_event("Lenient", "2026-01-20"));
    row.id = "not an identifier".to_string();
    row.created_at = "yesterday".to_string();
    row.updated_at = "2026-01-20T10:00:00Z".to_string();
    row.priority = "???".to_string();
    row.category = "".to_string();
    row.status = "DONE".to_string();
    row.visibility = "hidden".to_string();
    row.tags = None;
    row.metadata = None;
    let event = row_to_event(row);
    assert!(uuid::Uuid::parse_str(&event.id).is_ok());
    assert!(event.created_at.parse::<chrono::DateTime<chrono::Utc>>().is_ok());
    assert_eq!(event.updated_at, "2026-01-20T10:00:00+00:00");
    assert_eq!(event.priority, Priority::Medium);
    assert_eq!(event.category, Category::Other);
    assert_eq!(event.status, EventStatus::Confirmed);
    assert_eq!(event.visibility, Visibility::Private);
    assert!(event.tags.is_empty());
    assert_eq!(event.metadata, "{}");
    assert_eq!(event.recurring, None);
}

#[test]
fn identifiers_and_timestamps_are_read_into_canonical_form() {
    assert_eq!(
        decode_id("550E8400E29B41D4A716446655440000"),
        "550e8400-e29b-41d4-a716-446655440000"
    );
    assert_eq!(
        decode_id("550e8400-e29b-41d4-a716-446655440000"),
        "550e8400-e29b-41d4-a716-446655440000"
    );
    assert_eq!(decode_timestamp("2026-01-20T12:00:00+02:00"), "2026-01-20T10:00:00+00:00");
    assert_ne!(decode_id("x"), "x");
    assert_ne!(decode_timestamp("x"), "x");
}

#[test]
fn saving_rewrites_the_time_of_the_last_change() {
    let mut event = create_test_event("Saved", "2026-01-20");
    event.updated_at = "2000-01-01T00:00:00+00:00".to_string();
    let row = calendar_core::rows::row_for_save(&event);
    assert_ne!(row.updated_at, event.updated_at);
    assert!(row.updated_at.parse::<chrono::DateTime<chrono::Utc>>().is_ok());
    let mut expected = event_to_row(&event);
    expected.updated_at = row.updated_at.clone();
    assert_eq!(row, expected);
    assert_eq!(row.created_at, event.created_at);
}
