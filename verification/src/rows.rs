//! The stored form of an event: one row of the events table, and the
//! conversions between a row and an event.

use vstd::prelude::*;
use crate::event::{
    canonical_timestamp, canonical_timestamp_text, canonical_uuid, canonical_uuid_text, fresh_id,
    now_text, opt_location, opt_rule, CalendarEvent, EventModel, Location, LocationModel,
    ReminderConfig,
};
use crate::models::{Category, EventStatus, Priority, Visibility};
use crate::recurrence::{RecurrenceConfig, RecurrenceRule};
use crate::text::{copy_opt_text, copy_texts, opt_text, texts};

verus! {

/// One row of the events table. The enumerations are held as their wire
/// text. A nested column holds its decoded value, or nothing where the
/// column is null or its text does not decode.
#[derive(Debug, Clone, PartialEq, Eq)]
pub struct StoredRow {
    pub id: String,
    pub created_at: String,
    pub updated_at: String,
    pub date: String,
    pub time: Option<String>,
    pub end_time: Option<String>,
    pub event: String,
    pub notes: Option<String>,
    pub priority: String,
    pub category: String,
    pub color: Option<String>,
    pub tags: Option<Vec<String>>,
    pub status: String,
    pub visibility: String,
    pub recurring: Option<RecurrenceConfig>,
    pub reminder: Option<ReminderConfig>,
    pub location: Option<Location>,
    pub metadata: Option<String>,
}

/// The mathematical content of a stored row.
pub struct RowModel {
    pub id: Seq<char>,
    pub created_at: Seq<char>,
    pub updated_at: Seq<char>,
    pub date: Seq<char>,
    pub time: Option<Seq<char>>,
    pub end_time: Option<Seq<char>>,
    pub event: Seq<char>,
    pub notes: Option<Seq<char>>,
    pub priority: Seq<char>,
    pub category: Seq<char>,
    pub color: Option<Seq<char>>,
    pub tags: Option<Seq<Seq<char>>>,
    pub status: Seq<char>,
    pub visibility: Seq<char>,
    pub recurring: Option<RecurrenceRule>,
    pub reminder: Option<ReminderConfig>,
    pub location: Option<LocationModel>,
    pub metadata: Option<Seq<char>>,
}

impl View for StoredRow {
    type V = RowModel;

    open spec fn view(&self) -> RowModel {
        RowModel {
            id: self.id@,
            created_at: self.created_at@,
            updated_at: self.updated_at@,
            date: self.date@,
            time: opt_text(self.time),
            end_time: opt_text(self.end_time),
            event: self.event@,
            notes: opt_text(self.notes),
            priority: self.priority@,
            category: self.category@,
            color: opt_text(self.color),
            tags: match self.tags {
                Some(t) => Some(texts(t@)),
                None => None,
            },
            status: self.status@,
            visibility: self.visibility@,
            recurring: opt_rule(self.recurring),
            reminder: self.reminder,
            location: opt_location(self.location),
            metadata: opt_text(self.metadata),
        }
    }
}

/// A stored text where it reads as the canonical form `canonical` gives,
/// else the fallback.
pub open spec fn or_fallback(canonical: Option<Seq<char>>, fallback: Seq<char>) -> Seq<char> {
    match canonical {
        Some(t) => t,
        None => fallback,
    }
}

/// The event that a row decodes to. Text that names no variant of an
/// enumeration gives the variant's default; absent tags give none and
/// absent metadata gives the empty object. An identifier or a timestamp
/// that does not read as one is replaced by the fallback given for it.
pub open spec fn decoded(
    row: RowModel,
    id_fallback: Seq<char>,
    created_fallback: Seq<char>,
    updated_fallback: Seq<char>,
) -> EventModel {
    EventModel {
        id: or_fallback(canonical_uuid_text(row.id), id_fallback),
        created_at: or_fallback(canonical_timestamp_text(row.created_at), created_fallback),
        updated_at: or_fallback(canonical_timestamp_text(row.updated_at), updated_fallback),
        date: row.date,
        time: row.time,
        end_time: row.end_time,
        event: row.event,
        notes: row.notes,
        priority: match Priority::of_text(row.priority) {
            Some(p) => p,
            None => Priority::Medium,
        },
        recurring: row.recurring,
        reminder: row.reminder,
        location: row.location,
        category: match Category::of_text(row.category) {
            Some(c) => c,
            None => Category::Other,
        },
        color: row.color,
        tags: match row.tags {
            Some(t) => t,
            None => Seq::empty(),
        },
        status: match EventStatus::of_text(row.status) {
            Some(s) => s,
            None => EventStatus::Confirmed,
        },
        visibility: match Visibility::of_text(row.visibility) {
            Some(v) => v,
            None => Visibility::Private,
        },
        metadata: match row.metadata {
            Some(m) => m,
            None => "{}"@,
        },
    }
}

/// The row that an event is stored as: every column written, an absent
/// optional value as null.
pub open spec fn encoded(e: EventModel) -> RowModel {
    RowModel {
        id: e.id,
        created_at: e.created_at,
        updated_at: e.updated_at,
        date: e.date,
        time: e.time,
        end_time: e.end_time,
        event: e.event,
        notes: e.notes,
        priority: e.priority.wire_text(),
        category: e.category.wire_text(),
        color: e.color,
        tags: Some(e.tags),
        status: e.status.wire_text(),
        visibility: e.visibility.wire_text(),
        recurring: e.recurring,
        reminder: e.reminder,
        location: e.location,
        metadata: Some(e.metadata),
    }
}

/// An event whose identifier and timestamps are in canonical form reads
/// back from its row equal in every field, the nested values and the
/// metadata included, whatever the fallbacks.
pub proof fn stored_event_reads_back(
    e: EventModel,
    id_fallback: Seq<char>,
    created_fallback: Seq<char>,
    updated_fallback: Seq<char>,
)
    ensures
        canonical_uuid_text(e.id) == Some(e.id) && canonical_timestamp_text(e.created_at) == Some(
            e.created_at,
        ) && canonical_timestamp_text(e.updated_at) == Some(e.updated_at) ==> decoded(
            encoded(e),
            id_fallback,
            created_fallback,
            updated_fallback,
        ) == e,
{
    e.priority.wire_text_round_trips();
    e.category.wire_text_round_trips();
    e.status.wire_text_round_trips();
    e.visibility.wire_text_round_trips();
}

/// Whatever the identifier and the timestamps are, every other field of an
/// event reads back from its row as it was stored.
pub proof fn stored_fields_read_back(
    e: EventModel,
    id_fallback: Seq<char>,
    created_fallback: Seq<char>,
    updated_fallback: Seq<char>,
)
    ensures
        decoded(encoded(e), id_fallback, created_fallback, updated_fallback) == (EventModel {
            id: or_fallback(canonical_uuid_text(e.id), id_fallback),
            created_at: or_fallback(canonical_timestamp_text(e.created_at), created_fallback),
            updated_at: or_fallback(canonical_timestamp_text(e.updated_at), updated_fallback),
            ..e
        }),
{
    e.priority.wire_text_round_trips();
    e.category.wire_text_round_trips();
    e.status.wire_text_round_trips();
    e.visibility.wire_text_round_trips();
}

/// Decodes the text of an identifier column: its canonical form, or a new
/// identifier where the text is none.
pub fn decode_id(text: &str) -> (result: String)
    ensures
        result@ == or_fallback(canonical_uuid_text(text@), result@),
{
    match canonical_uuid(text) {
        Some(id) => id,
        None => fresh_id(),
    }
}

/// Decodes the text of a timestamp column: its canonical form, or the
/// present moment where the text is none.
pub fn decode_timestamp(text: &str) -> (result: String)
    ensures
        result@ == or_fallback(canonical_timestamp_text(text@), result@),
{
    match canonical_timestamp(text) {
        Some(at) => at,
        None => now_text(),
    }
}

/// Decodes a stored row into an event, leniently: no row fails to decode.
pub fn row_to_event(row: StoredRow) -> (out: CalendarEvent)
    ensures
        out@ == decoded(row@, out@.id, out@.created_at, out@.updated_at),
{
    let id = decode_id(row.id.as_str());
    let created_at = decode_timestamp(row.created_at.as_str());
    let updated_at = decode_timestamp(row.updated_at.as_str());
    let priority = Priority::from_wire_or_default(row.priority.as_str());
    let category = Category::from_wire_or_default(row.category.as_str());
    let status = EventStatus::from_wire_or_default(row.status.as_str());
    let visibility = Visibility::from_wire_or_default(row.visibility.as_str());
    let tags: Vec<String> = match row.tags {
        Some(t) => t,
        None => {
            let none: Vec<String> = Vec::new();
            assert(texts(none@) =~= Seq::<Seq<char>>::empty());
            none
        },
    };
    let metadata: String = match row.metadata {
        Some(m) => m,
        None => "{}".to_owned(),
    };
    CalendarEvent {
        id,
        created_at,
        updated_at,
        date: row.date,
        time: row.time,
        end_time: row.end_time,
        event: row.event,
        notes: row.notes,
        priority,
        recurring: row.recurring,
        reminder: row.reminder,
        location: row.location,
        category,
        color: row.color,
        tags,
        status,
        visibility,
        metadata,
    }
}

/// The row that saving an event writes: the event's row with the present
/// moment as the time of its last change.
pub fn row_for_save(event: &CalendarEvent) -> (out: StoredRow)
    ensures
        out@ == (RowModel { updated_at: out@.updated_at, ..encoded(event@) }),
{
    let mut row = event_to_row(event);
    row.updated_at = now_text();
    row
}

/// The row that an event is stored as.
pub fn event_to_row(event: &CalendarEvent) -> (out: StoredRow)
    ensures
        out@ == encoded(event@),
{
    StoredRow {
        id: event.id.clone(),
        created_at: event.created_at.clone(),
        updated_at: event.updated_at.clone(),
        date: event.date.clone(),
        time: copy_opt_text(&event.time),
        end_time: copy_opt_text(&event.end_time),
        event: event.event.clone(),
        notes: copy_opt_text(&event.notes),
        priority: event.priority.as_str().to_owned(),
        category: event.category.as_str().to_owned(),
        color: copy_opt_text(&event.color),
        tags: Some(copy_texts(&event.tags)),
        status: event.status.as_str().to_owned(),
        visibility: event.visibility.as_str().to_owned(),
        recurring: match &event.recurring {
            Some(r) => Some(r.duplicate()),
            None => None,
        },
        reminder: event.reminder,
        location: match &event.location {
            Some(l) => Some(l.duplicate()),
            None => None,
        },
        metadata: Some(event.metadata.clone()),
    }
}

} // verus!
