use calendar_core::event::{CalendarEvent, Location, ReminderConfig};
use calendar_core::models::LocationType;
use calendar_core::migrations::Migrations;
use calendar_core::models::RecurrenceFrequency;
use calendar_core::recurrence::RecurrenceConfig;
use calendar_core::repository::{check_conflicts, get_by_date_range};
use calendar_core::rows::{row_for_save, row_to_event, StoredRow};
use rusqlite::Connection;
use serde_json::Value;

fn open_store() -> Connection {
    let conn = Connection::open_in_memory().unwrap();
    for pragma in Migrations::get_pragmas() {
        conn.pragma_update(None, pragma.name, pragma.value).unwrap();
    }
    for migration in Migrations::get_migrations() {
        conn.execute_batch(migration).unwrap();
    }
    conn
}

fn rule_to_json(rule: &RecurrenceConfig) -> String {
    let mut m = serde_json::Map::new();
    m.insert("frequency".to_string(), Value::from(rule.frequency.as_str()));
    m.insert("interval".to_string(), Value::from(rule.interval));
    m.insert("daysOfWeek".to_string(), Value::from(rule.days_of_week.clone()));
    m.insert("endDate".to_string(), Value::from(rule.end_date.clone()));
    m.insert("occurrences".to_string(), Value::from(rule.occurrences));
    m.insert("exceptDates".to_string(), Value::from(rule.except_dates.clone()));
    Value::Object(m).to_string()
}

fn rule_from_json(text: &str) -> Option<RecurrenceConfig> {
    let v: Value = serde_json::from_str(text).ok()?;
    let frequency = match v.get("frequency")?.as_str()? {
        "none" => RecurrenceFrequency::Never,
        "daily" => RecurrenceFrequency::Daily,
        "weekly" => RecurrenceFrequency::Weekly,
        "biweekly" => RecurrenceFrequency::Biweekly,
        "monthly" => RecurrenceFrequency::Monthly,
        "yearly" => RecurrenceFrequency::Yearly,
        "custom" => RecurrenceFrequency::Custom,
        _ => return None,
    };
    Some(RecurrenceConfig {
        frequency,
        interval: v.get("interval")?.as_u64()? as u32,
        days_of_week: v.get("daysOfWeek")?.as_array()?.iter().filter_map(|d| d.as_u64()).map(|d| d as u8).collect(),
        end_date: v.get("endDate")?.as_str().map(|s| s.to_string()),
        occurrences: v.get("occurrences")?.as_u64().map(|n| n as u32),
        except_dates: v.get("exceptDates")?.as_array()?.iter().filter_map(|d| d.as_str()).map(|s| s.to_string()).collect(),
    })
}

fn reminder_to_json(r: &ReminderConfig) -> String {
    let mut m = serde_json::Map::new();
    m.insert("minutesBefore".to_string(), Value::from(r.minutes_before));
    m.insert("repeatMinutes".to_string(), Value::from(r.repeat_minutes));
    m.insert("maxReminders".to_string(), Value::from(r.max_reminders));
    Value::Object(m).to_string()
}

fn reminder_from_json(text: &str) -> Option<ReminderConfig> {
    let v: Value = serde_json::from_str(text).ok()?;
    Some(ReminderConfig {
        minutes_before: v.get("minutesBefore")?.as_u64()? as u32,
        repeat_minutes: v.get("repeatMinutes")?.as_u64().map(|n| n as u32),
        max_reminders: v.get("maxReminders")?.as_u64()? as u32,
    })
}

fn location_to_json(l: &Location) -> String {
    let mut m = serde_json::Map::new();
    m.insert("locationType".to_string(), Value::from(l.location_type.as_str()));
    m.insert("address".to_string(), Value::from(l.address.clone()));
    m.insert("coordinates".to_string(), Value::Null);
    Value::Object(m).to_string()
}

fn location_from_json(text: &str) -> Option<Location> {
    let v: Value = serde_json::from_str(text).ok()?;
    let location_type = match v.get("locationType")?.as_str()? {
        "physical" => LocationType::Physical,
        "virtual" => LocationType::Virtual,
        _ => return None,
    };
    Some(Location {
        location_type,
        address: v.get("address")?.as_str()?.to_string(),
        coordinates: None,
    })
}

fn save_event(conn: &Connection, event: &CalendarEvent) {
    let row = row_for_save(event);
    let columns: Vec<Option<String>> = vec![
        Some(row.id),
        Some(row.created_at),
        Some(row.updated_at),
        Some(row.date),
        row.time,
        row.end_time,
        Some(row.event),
        row.notes,
        Some(row.priority),
        Some(row.category),
        row.color,
        row.tags.map(|t| serde_json::to_string(&t).unwrap()),
        Some(row.status),
        Some(row.visibility),
        row.recurring.as_ref().map(rule_to_json),
        row.reminder.as_ref().map(reminder_to_json),
        row.location.as_ref().map(location_to_json),
        row.metadata,
    ];
    conn.execute(
        "INSERT OR REPLACE INTO events (id, created_at, updated_at, date, time, end_time, event, \
         notes, priority, category, color, tags, status, visibility, recurring, reminder, \
         location, metadata) VALUES (?1, ?2, ?3, ?4, ?5, ?6, ?7, ?8, ?9, ?10, ?11, ?12, ?13, \
         ?14, ?15, ?16, ?17, ?18)",
        rusqlite::params_from_iter(columns.iter()),
    )
    .unwrap();
}

fn load(conn: &Connection, condition: &str, args: &[&str]) -> Vec<CalendarEvent> {
    let sql = format!(
        "SELECT id, created_at, updated_at, date, time, end_time, event, notes, priority, \
         category, color, tags, status, visibility, recurring, reminder, location, metadata \
         FROM events WHERE {}",
        condition
    );
    let mut statement = conn.prepare(&sql).unwrap();
    let rows = statement
        .query_map(rusqlite::params_from_iter(args.iter()), |row| {
            let tags: Option<String> = row.get(11)?;
            let recurring: Option<String> = row.get(14)?;
            let reminder: Option<String> = row.get(15)?;
            let location: Option<String> = row.get(16)?;
            Ok(StoredRow {
                id: row.get(0)?,
                created_at: row.get(1)?,
                updated_at: row.get(2)?,
                date: row.get(3)?,
                time: row.get(4)?,
                end_time: row.get(5)?,
                event: row.get(6)?,
                notes: row.get(7)?,
                priority: row.get(8)?,
                category: row.get(9)?,
                color: row.get(10)?,
                tags: tags.and_then(|t| serde_json::from_str(&t).ok()),
                status: row.get(12)?,
                visibility: row.get(13)?,
                recurring: recurring.and_then(|t| rule_from_json(&t)),
                reminder: reminder.and_then(|t| reminder_from_json(&t)),
                location: location.and_then(|t| location_from_json(&t)),
                metadata: row.get(17)?,
            })
        })
        .unwrap();
    rows.map(|row| row_to_event(row.unwrap())).collect()
}

fn get_by_id(conn: &Connection, id: &str) -> Option<CalendarEvent> {
    load(conn, "id = ?1", &[id]).into_iter().next()
}

fn delete_event(conn: &Connection, id: &str) -> bool {
    conn.execute("DELETE FROM events WHERE id = ?1", [id]).unwrap() > 0
}

fn count(conn: &Connection) -> i64 {
    conn.query_row("SELECT COUNT(*) FROM events", [], |row| row.get(0)).unwrap()
}

fn full_event() -> CalendarEvent {
    let mut event = CalendarEvent::new("Review".to_string(), "2026-01-20".to_string());
    event.time = Some("14:00".to_string());
    event.end_time = Some("15:00".to_string());
    event.notes = Some("quarterly".to_string());
    event.tags = vec!["work".to_string(), "q1".to_string()];
    event.metadata = "{\"source\":\"test\"}".to_string();
    event.recurring = Some(RecurrenceConfig {
        frequency: RecurrenceFrequency::Daily,
        interval: 1,
        days_of_week: vec![1, 3, 5],
        end_date: Some("2026-12-31".to_string()),
        occurrences: Some(10),
        except_dates: vec!["2026-01-22".to_string()],
    });
    event.reminder = Some(ReminderConfig { minutes_before: 30, repeat_minutes: Some(10), max_reminders: 5 });
    event
}

#[test]
fn a_saved_event_is_fetched_equal_in_every_field() {
    let conn = open_store();
    let event = full_event();
    save_event(&conn, &event);
    let fetched = get_by_id(&conn, &event.id).unwrap();
    let mut expected = event.clone();
    expected.updated_at = fetched.updated_at.clone();
    assert_eq!(fetched, expected);
}

#[test]
fn saving_twice_leaves_one_row_unchanged_but_for_the_time_of_change() {
    let conn = open_store();
    let event = full_event();
    save_event(&conn, &event);
    let first = get_by_id(&conn, &event.id).unwrap();
    save_event(&conn, &event);
    let mut second = get_by_id(&conn, &event.id).unwrap();
    assert_eq!(count(&conn), 1);
    second.updated_at = first.updated_at.clone();
    assert_eq!(second, first);
}

#[test]
fn deleting_removes_a_row_and_misses_quietly() {
    let conn = open_store();
    let event = full_event();
    assert!(!delete_event(&conn, &event.id));
    save_event(&conn, &event);
    assert!(delete_event(&conn, &event.id));
    assert_eq!(get_by_id(&conn, &event.id), None);
    assert!(!delete_event(&conn, &event.id));
}

#[test]
fn the_count_is_of_base_rows_only() {
    let conn = open_store();
    assert_eq!(count(&conn), 0);
    save_event(&conn, &full_event());
    assert_eq!(count(&conn), 1);
    let rows = load(&conn, "(date >= ?1 AND date <= ?2) OR recurring IS NOT NULL", &["2026-01-01", "2026-12-31"]);
    let shown = get_by_date_range(&rows, "2026-01-01", "2026-12-31");
    assert_eq!(shown.len(), 10);
    assert_eq!(shown[2].date, "2026-01-23");
    assert_eq!(count(&conn), 1);
}

#[test]
fn conflicts_are_found_among_the_stored_rows_of_the_day() {
    let conn = open_store();
    let mut first = CalendarEvent::new("Event 1".to_string(), "2026-01-20".to_string());
    first.time = Some("14:00".to_string());
    first.end_time = Some("15:00".to_string());
    save_event(&conn, &first);
    let mut second = CalendarEvent::new("Event 2".to_string(), "2026-01-20".to_string());
    second.time = Some("14:30".to_string());
    second.end_time = Some("15:30".to_string());
    save_event(&conn, &second);
    let day = load(&conn, "date = ?1", &["2026-01-20"]);
    assert_eq!(check_conflicts(&second, &day), vec![first.id.clone()]);
    assert_eq!(check_conflicts(&first, &day), vec![second.id.clone()]);
    second.time = Some("15:00".to_string());
    second.end_time = Some("16:00".to_string());
    save_event(&conn, &second);
    let day = load(&conn, "date = ?1", &["2026-01-20"]);
    assert!(check_conflicts(&second, &day).is_empty());
    assert!(check_conflicts(&first, &day).is_empty());
}

fn create_test_event(title: &str, date: &str) -> CalendarEvent {
    let mut event = CalendarEvent::new(title.to_string(), date.to_string());
    event.time = Some("14:00".to_string());
    event.end_time = Some("15:00".to_string());
    event
}

#[test]
fn test_crud_lifecycle() {
    let repo = open_store();
    let event = create_test_event("Test", "2026-01-20");

    save_event(&repo, &event);

    let retrieved = get_by_id(&repo, &event.id.to_string());
    assert!(retrieved.is_some());
    assert_eq!(retrieved.as_ref().unwrap().event, "Test");

    let mut updated = retrieved.unwrap();
    updated.event = "Updated Test".to_string();
    save_event(&repo, &updated);

    let retrieved2 = get_by_id(&repo, &updated.id.to_string());
    assert_eq!(retrieved2.unwrap().event, "Updated Test");

    let deleted = delete_event(&repo, &updated.id.to_string());
    assert!(deleted);

    let retrieved3 = get_by_id(&repo, &updated.id.to_string());
    assert!(retrieved3.is_none());
}

#[test]
fn test_recurring_json_roundtrip() {
    let repo = open_store();
    let mut event = create_test_event("Recurring", "2026-01-20");

    event.recurring = Some(RecurrenceConfig {
        frequency: RecurrenceFrequency::Weekly,
        interval: 1,
        days_of_week: vec![1, 3, 5],
        end_date: Some("2026-12-31".to_string()),
        occurrences: None,
        except_dates: vec!["2026-02-10".to_string()],
    });

    save_event(&repo, &event);
    let retrieved = get_by_id(&repo, &event.id.to_string()).unwrap();

    assert!(retrieved.recurring.is_some());
    let rec = retrieved.recurring.unwrap();
    assert_eq!(rec.frequency, RecurrenceFrequency::Weekly);
    assert_eq!(rec.days_of_week, vec![1, 3, 5]);
    assert_eq!(rec.except_dates, vec!["2026-02-10".to_string()]);
}

#[test]
fn test_reminder_json_roundtrip() {
    let repo = open_store();
    let mut event = create_test_event("With Reminder", "2026-01-20");

    event.reminder = Some(ReminderConfig {
        minutes_before: 30,
        repeat_minutes: Some(10),
        max_reminders: 5,
    });

    save_event(&repo, &event);
    let retrieved = get_by_id(&repo, &event.id.to_string()).unwrap();

    assert!(retrieved.reminder.is_some());
    let rem = retrieved.reminder.unwrap();
    assert_eq!(rem.minutes_before, 30);
    assert_eq!(rem.repeat_minutes, Some(10));
}

#[test]
fn test_location_json_roundtrip() {
    let repo = open_store();
    let mut event = create_test_event("With Location", "2026-01-20");

    event.location = Some(Location {
        location_type: LocationType::Physical,
        address: "123 Main St".to_string(),
        coordinates: None,
    });

    save_event(&repo, &event);
    let retrieved = get_by_id(&repo, &event.id.to_string()).unwrap();

    assert!(retrieved.location.is_some());
    assert_eq!(retrieved.location.unwrap().address, "123 Main St");
}

#[test]
fn test_count() {
    let repo = open_store();

    assert_eq!(count(&repo), 0);

    save_event(&repo, &create_test_event("Event 1", "2026-01-20"));
    save_event(&repo, &create_test_event("Event 2", "2026-01-21"));

    assert_eq!(count(&repo), 2);
}
