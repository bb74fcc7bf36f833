use calendar_core::event::CalendarEvent;
use calendar_core::export::{replace_char, Exporter};
use calendar_core::models::{Category, EventStatus, Priority};

fn create_test_events() -> Vec<CalendarEvent> {
    vec![
        {
            let mut e = CalendarEvent::new("Event 1".to_string(), "2026-01-20".to_string());
            e.time = Some("14:00".to_string());
            e.priority = Priority::High;
            e.category = Category::Work;
            e
        },
        {
            let mut e = CalendarEvent::new("Event 2".to_string(), "2026-01-21".to_string());
            e.time = Some("12:00".to_string());
            e.notes = Some("Lunch notes".to_string());
            e
        },
    ]
}

#[test]
fn test_export_csv() {
    let events = create_test_events();

    let content = Exporter::csv_text(&events);
    assert!(content.contains("Date,Time,Event,Category,Priority,Notes"));
    assert!(content.contains("Event 1"));
    assert!(content.contains("14:00"));
}

#[test]
fn test_export_ics() {
    let events = create_test_events();

    let content = Exporter::ics_text(&events);
    assert!(content.contains("BEGIN:VCALENDAR"));
    assert!(content.contains("BEGIN:VEVENT"));
    assert!(content.contains("SUMMARY:Event 1"));
    assert!(content.contains("END:VCALENDAR"));
}

#[test]
fn the_csv_document_is_exact() {
    let mut events = create_test_events();
    events[1].event = "Say \"hi\"".to_string();
    events[1].notes = Some("a, b, c".to_string());
    events[0].time = None;
    assert_eq!(
        Exporter::csv_text(&events),
        "Date,Time,Event,Category,Priority,Notes\n\
         2026-01-20,,\"Event 1\",work,high,\"\"\n\
         2026-01-21,12:00,\"Say \"\"hi\"\"\",other,medium,\"a; b; c\"\n"
    );
    assert_eq!(Exporter::csv_text(&vec![]), "Date,Time,Event,Category,Priority,Notes\n");
}

#[test]
fn the_ics_document_is_exact() {
    let mut events = create_test_events();
    events.truncate(1);
    events[0].id = "id-1".to_string();
    events[0].end_time = Some("15:30".to_string());
    events[0].notes = Some("bring; cake".to_string());
    events[0].status = EventStatus::Tentative;
    assert_eq!(
        Exporter::ics_text(&events),
        "BEGIN:VCALENDAR\nVERSION:2.0\nPRODID:-//UberCalendurr//EN\n\
         BEGIN:VEVENT\nUID:id-1\nDTSTART:20260120T140000\nDTEND:20260120T153000\n\
         SUMMARY:Event 1\nDESCRIPTION:bring\\; cake\nSTATUS:TENTATIVE\nEND:VEVENT\n\
         END:VCALENDAR\n"
    );
    events[0].end_time = None;
    events[0].notes = None;
    events[0].time = None;
    assert_eq!(
        Exporter::ics_event_text(&events[0]),
        "BEGIN:VEVENT\nUID:id-1\nDTSTART:20260120T000000\nSUMMARY:Event 1\n\
         STATUS:TENTATIVE\nEND:VEVENT\n"
    );
    assert_eq!(
        Exporter::ics_text(&vec![]),
        "BEGIN:VCALENDAR\nVERSION:2.0\nPRODID:-//UberCalendurr//EN\nEND:VCALENDAR\n"
    );
    assert_eq!(Exporter::status_name(EventStatus::Confirmed), "CONFIRMED");
    assert_eq!(Exporter::status_name(EventStatus::Cancelled), "CANCELLED");
    assert_eq!(Exporter::status_name(EventStatus::Completed), "COMPLETED");
}

#[test]
fn test_ics_datetime_formatting() {
    assert_eq!(
        Exporter::format_ics_datetime("2026-01-20", Some("14:00")),
        "20260120T140000"
    );
    assert_eq!(
        Exporter::format_ics_datetime("2026-01-20", None),
        "20260120T000000"
    );
}

#[test]
fn test_ics_text_escaping() {
    assert_eq!(Exporter::escape_ics_text("Hello, world"), "Hello\\, world");
    assert_eq!(Exporter::escape_ics_text("Line1\nLine2"), "Line1\\nLine2");
    assert_eq!(Exporter::escape_ics_text("Path\\to\\file"), "Path\\\\to\\\\file");
}

#[test]
fn escaping_handles_every_special_character() {
    assert_eq!(Exporter::escape_ics_text("a;b"), "a\\;b");
    assert_eq!(Exporter::escape_ics_text(""), "");
    assert_eq!(Exporter::escape_ics_text("\\,;\n"), "\\\\\\,\\;\\n");
    assert_eq!(Exporter::escape_ics_text("caf\u{e9}, \u{1F7E2}"), "caf\u{e9}\\, \u{1F7E2}");
}

#[test]
fn replacing_reaches_every_occurrence() {
    assert_eq!(replace_char("2026-01-20", '-', ""), "20260120");
    assert_eq!(replace_char("---", '-', ""), "");
    assert_eq!(replace_char("14:00", '-', ""), "14:00");
    assert_eq!(replace_char("a,b,,c", ',', ";"), "a;b;;c");
    assert_eq!(replace_char("\"x\"", '"', "\"\""), "\"\"x\"\"");
}
