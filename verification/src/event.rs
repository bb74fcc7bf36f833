//! The calendar event with its reminder and location, and the mathematical
//! model that the contracts of the library speak of.

use vstd::prelude::*;
use crate::errors::CoreError;
use crate::models::{Category, EventStatus, LocationType, Priority, Visibility};
use crate::recurrence::{RecurrenceConfig, RecurrenceRule};
use crate::text::{copy_opt_text, copy_texts, opt_text, texts, trim_str, trimmed_text};

verus! {

/// When and how often to remind of an event.
#[derive(Debug, Clone, Copy, PartialEq, Eq)]
pub struct ReminderConfig {
    pub minutes_before: u32,
    pub repeat_minutes: Option<u32>,
    pub max_reminders: u32,
}

/// A point on the globe. Latitude and longitude are held as the bit
/// patterns of their IEEE 754 double values.
#[derive(Debug, Clone, Copy, PartialEq, Eq)]
pub struct Coordinates {
    pub lat_bits: u64,
    pub lng_bits: u64,
}

/// Where an event takes place.
#[derive(Debug, Clone, PartialEq, Eq)]
pub struct Location {
    pub location_type: LocationType,
    pub address: String,
    pub coordinates: Option<Coordinates>,
}

/// The mathematical content of a location.
pub struct LocationModel {
    pub location_type: LocationType,
    pub address: Seq<char>,
    pub coordinates: Option<Coordinates>,
}

/// One calendar entry. The identifier and the two timestamps are held in
/// their text form, the metadata as JSON text.
#[derive(Debug, Clone, PartialEq, Eq)]
pub struct CalendarEvent {
    pub id: String,
    pub created_at: String,
    pub updated_at: String,
    pub date: String,
    pub time: Option<String>,
    pub end_time: Option<String>,
    pub event: String,
    pub notes: Option<String>,
    pub priority: Priority,
    pub recurring: Option<RecurrenceConfig>,
    pub reminder: Option<ReminderConfig>,
    pub location: Option<Location>,
    pub category: Category,
    pub color: Option<String>,
    pub tags: Vec<String>,
    pub status: EventStatus,
    pub visibility: Visibility,
    pub metadata: String,
}

/// The mathematical content of a calendar event.
pub struct EventModel {
    pub id: Seq<char>,
    pub created_at: Seq<char>,
    pub updated_at: Seq<char>,
    pub date: Seq<char>,
    pub time: Option<Seq<char>>,
    pub end_time: Option<Seq<char>>,
    pub event: Seq<char>,
    pub notes: Option<Seq<char>>,
    pub priority: Priority,
    pub recurring: Option<RecurrenceRule>,
    pub reminder: Option<ReminderConfig>,
    pub location: Option<LocationModel>,
    pub category: Category,
    pub color: Option<Seq<char>>,
    pub tags: Seq<Seq<char>>,
    pub status: EventStatus,
    pub visibility: Visibility,
    pub metadata: Seq<char>,
}

/// The canonical text of the identifier that `uuid::Uuid::parse_str` reads
/// from a text, or nothing where it reads none.
pub uninterp spec fn canonical_uuid_text(text: Seq<char>) -> Option<Seq<char>>;

/// The RFC 3339 text of the UTC timestamp that `chrono` reads from a text,
/// or nothing where it reads none.
pub uninterp spec fn canonical_timestamp_text(text: Seq<char>) -> Option<Seq<char>>;

/// Whether the JSON object that `serde_json` reads from a text holds `key`;
/// nothing where the text is no JSON object.
pub uninterp spec fn json_object_holds(text: Seq<char>, key: Seq<char>) -> Option<bool>;

/// The text that `serde_json` writes for the JSON object read from a text
/// once the entry of `key` is set to the string `value`; the text itself
/// where it is no JSON object.
pub uninterp spec fn json_with_entry(text: Seq<char>, key: Seq<char>, value: Seq<char>) -> Seq<
    char,
>;

/// The metadata of an event made from parsed input: the given metadata
/// where it is a JSON object that names its source, else with `Parsed`
/// entered as the source, into the empty object where the given text is no
/// JSON object.
pub open spec fn sourced_metadata(metadata: Seq<char>) -> Seq<char> {
    match json_object_holds(metadata, "source"@) {
        Some(true) => metadata,
        Some(false) => json_with_entry(metadata, "source"@, "Parsed"@),
        None => json_with_entry("{}"@, "source"@, "Parsed"@),
    }
}

/// The content of a repeat rule that may be absent.
pub open spec fn opt_rule(value: Option<RecurrenceConfig>) -> Option<RecurrenceRule> {
    match value {
        Some(r) => Some(r@),
        None => None,
    }
}

/// The content of a location that may be absent.
pub open spec fn opt_location(value: Option<Location>) -> Option<LocationModel> {
    match value {
        Some(l) => Some(l@),
        None => None,
    }
}

/// The views of a list of events, one per entry.
pub open spec fn views(events: Seq<CalendarEvent>) -> Seq<EventModel> {
    Seq::new(events.len(), |i: int| events[i]@)
}

/// The event that `CalendarEvent::new` makes of a title and a date, given
/// the identifier and the time of its making.
pub open spec fn fresh_event(
    event: Seq<char>,
    date: Seq<char>,
    id: Seq<char>,
    now: Seq<char>,
) -> EventModel {
    EventModel {
        id,
        created_at: now,
        updated_at: now,
        date,
        time: None,
        end_time: None,
        event,
        notes: None,
        priority: Priority::Medium,
        recurring: None,
        reminder: None,
        location: None,
        category: Category::Other,
        color: None,
        tags: Seq::empty(),
        status: EventStatus::Confirmed,
        visibility: Visibility::Private,
        metadata: "{}"@,
    }
}

/// A new random identifier from `uuid::Uuid::new_v4`, as text. Trusted, and
/// nothing is claimed of the text: it is random.
#[verifier::external_body]
pub(crate) fn fresh_id() -> (result: String) {
    uuid::Uuid::new_v4().to_string()
}

/// The present moment from `chrono::Utc::now`, as RFC 3339 text. Trusted,
/// and nothing is claimed of the text: it depends on the clock.
#[verifier::external_body]
pub(crate) fn now_text() -> (result: String) {
    chrono::Utc::now().to_rfc3339()
}

/// Reads an identifier with `uuid::Uuid::parse_str` and writes it back in
/// its canonical form. Trusted: the result is what `uuid` reads and writes.
#[verifier::external_body]
pub(crate) fn canonical_uuid(text: &str) -> (result: Option<String>)
    ensures
        opt_text(result) == canonical_uuid_text(text@),
{
    match uuid::Uuid::parse_str(text) {
        Ok(id) => Some(id.to_string()),
        Err(_) => None,
    }
}

/// Reads a UTC timestamp with `chrono`'s `FromStr` for `DateTime<Utc>` and
/// writes it back with `to_rfc3339`. Trusted: the result is what `chrono`
/// reads and writes.
#[verifier::external_body]
pub(crate) fn canonical_timestamp(text: &str) -> (result: Option<String>)
    ensures
        opt_text(result) == canonical_timestamp_text(text@),
{
    match text.parse::<chrono::DateTime<chrono::Utc>>() {
        Ok(at) => Some(at.to_rfc3339()),
        Err(_) => None,
    }
}

/// Reads a text with `serde_json::from_str` and asks the object it holds
/// for a key. Trusted: the result is whether the object holds the key, and
/// nothing where `serde_json` reads no object from the text.
#[verifier::external_body]
pub(crate) fn json_has_key(text: &str, key: &str) -> (result: Option<bool>)
    ensures
        result == json_object_holds(text@, key@),
{
    match serde_json::from_str::<serde_json::Value>(text) {
        Ok(serde_json::Value::Object(entries)) => Some(entries.contains_key(key)),
        _ => None,
    }
}

/// Sets an entry of the JSON object that `serde_json::from_str` reads from
/// a text and writes the object back in `serde_json`'s compact form.
/// Trusted: the result is the text that `serde_json` writes, and the given
/// text where it holds no object.
#[verifier::external_body]
pub(crate) fn json_set_entry(text: &str, key: &str, value: &str) -> (result: String)
    ensures
        result@ == json_with_entry(text@, key@, value@),
{
    match serde_json::from_str::<serde_json::Value>(text) {
        Ok(serde_json::Value::Object(mut entries)) => {
            entries.insert(key.to_owned(), serde_json::Value::String(value.to_owned()));
            serde_json::Value::Object(entries).to_string()
        },
        _ => text.to_owned(),
    }
}

impl Default for ReminderConfig {
    fn default() -> (result: ReminderConfig)
        ensures
            result == (ReminderConfig {
                minutes_before: 15,
                repeat_minutes: None,
                max_reminders: 3,
            }),
    {
        ReminderConfig { minutes_before: 15, repeat_minutes: None, max_reminders: 3 }
    }
}

impl View for Location {
    type V = LocationModel;

    open spec fn view(&self) -> LocationModel {
        LocationModel {
            location_type: self.location_type,
            address: self.address@,
            coordinates: self.coordinates,
        }
    }
}

impl Location {
    /// A copy of the location.
    pub fn duplicate(&self) -> (result: Location)
        ensures
            result@ == self@,
    {
        Location {
            location_type: self.location_type,
            address: self.address.clone(),
            coordinates: self.coordinates,
        }
    }
}

impl View for CalendarEvent {
    type V = EventModel;

    open spec fn view(&self) -> EventModel {
        EventModel {
            id: self.id@,
            created_at: self.created_at@,
            updated_at: self.updated_at@,
            date: self.date@,
            time: opt_text(self.time),
            end_time: opt_text(self.end_time),
            event: self.event@,
            notes: opt_text(self.notes),
            priority: self.priority,
            recurring: opt_rule(self.recurring),
            reminder: self.reminder,
            location: opt_location(self.location),
            category: self.category,
            color: opt_text(self.color),
            tags: texts(self.tags@),
            status: self.status,
            visibility: self.visibility,
            metadata: self.metadata@,
        }
    }
}

impl EventModel {
    /// The colour shown for the event: its own where it has one, else its
    /// category's.
    pub open spec fn effective_color(self) -> Seq<char> {
        match self.color {
            Some(c) => c,
            None => self.category.color_text(),
        }
    }

    /// The title holds something besides white space.
    pub open spec fn has_title(self) -> bool {
        trimmed_text(self.event).len() > 0
    }
}

impl CalendarEvent {
    /// A confirmed, private event of medium priority with the given title
    /// and date, a new identifier, and the present moment as the time of its
    /// making and of its last change.
    pub fn new(event: String, date: String) -> (result: CalendarEvent)
        ensures
            result@ == fresh_event(event@, date@, result@.id, result@.created_at),
    {
        let now = now_text();
        let result = CalendarEvent {
            id: fresh_id(),
            created_at: now.clone(),
            updated_at: now,
            date,
            time: None,
            end_time: None,
            event,
            notes: None,
            priority: Priority::Medium,
            recurring: None,
            reminder: None,
            location: None,
            category: Category::Other,
            color: None,
            tags: Vec::new(),
            status: EventStatus::Confirmed,
            visibility: Visibility::Private,
            metadata: "{}".to_owned(),
        };
        assert(texts(result.tags@) =~= Seq::<Seq<char>>::empty());
        result
    }

    /// The metadata with its source named, given whether it is a JSON
    /// object and names one.
    pub fn metadata_with_source(metadata: String, names_source: Option<bool>) -> (result: String)
        ensures
            result@ == match names_source {
                Some(true) => metadata@,
                Some(false) => json_with_entry(metadata@, "source"@, "Parsed"@),
                None => json_with_entry("{}"@, "source"@, "Parsed"@),
            },
    {
        match names_source {
            Some(true) => metadata,
            Some(false) => json_set_entry(metadata.as_str(), "source", "Parsed"),
            None => json_set_entry("{}", "source", "Parsed"),
        }
    }

    /// An event from parsed input: confirmed and private, with a new
    /// identifier and the present moment as the time of its making. A
    /// priority or category text that names none gives medium and other.
    /// Metadata that is no JSON object is replaced by the empty object, and
    /// `Parsed` is entered as the source where none is named.
    pub fn from_parsed(
        event: String,
        date: String,
        time: Option<String>,
        end_time: Option<String>,
        notes: Option<String>,
        priority: String,
        category: String,
        tags: Vec<String>,
        metadata: String,
        recurring: Option<RecurrenceConfig>,
    ) -> (result: CalendarEvent)
        ensures
            result@ == (EventModel {
                id: result@.id,
                created_at: result@.created_at,
                updated_at: result@.created_at,
                date: date@,
                time: opt_text(time),
                end_time: opt_text(end_time),
                event: event@,
                notes: opt_text(notes),
                priority: match Priority::of_text(priority@) {
                    Some(p) => p,
                    None => Priority::Medium,
                },
                recurring: opt_rule(recurring),
                reminder: None,
                location: None,
                category: match Category::of_text(category@) {
                    Some(c) => c,
                    None => Category::Other,
                },
                color: None,
                tags: texts(tags@),
                status: EventStatus::Confirmed,
                visibility: Visibility::Private,
                metadata: sourced_metadata(metadata@),
            }),
    {
        let now = now_text();
        let names_source = json_has_key(metadata.as_str(), "source");
        CalendarEvent {
            id: fresh_id(),
            created_at: now.clone(),
            updated_at: now,
            date,
            time,
            end_time,
            event,
            notes,
            priority: Priority::from_wire_or_default(priority.as_str()),
            recurring,
            reminder: None,
            location: None,
            category: Category::from_wire_or_default(category.as_str()),
            color: None,
            tags,
            status: EventStatus::Confirmed,
            visibility: Visibility::Private,
            metadata: CalendarEvent::metadata_with_source(metadata, names_source),
        }
    }

    /// Accepts the event if its title holds something besides white space.
    pub fn validate(&self) -> (result: Result<(), CoreError>)
        ensures
            result is Ok <==> self@.has_title(),
            result matches Err(e) ==> e matches CoreError::ValidationError(m) && m@
                == "Event title cannot be empty"@,
    {
        if trim_str(self.event.as_str()).is_empty() {
            Err(CoreError::ValidationError("Event title cannot be empty".to_owned()))
        } else {
            Ok(())
        }
    }

    /// The colour shown for the event.
    pub fn effective_color(&self) -> (result: &str)
        ensures
            result@ == self@.effective_color(),
    {
        match &self.color {
            Some(c) => c.as_str(),
            None => self.category.color(),
        }
    }

    /// A copy of the event, equal in every field.
    pub fn duplicate(&self) -> (result: CalendarEvent)
        ensures
            result@ == self@,
    {
        CalendarEvent {
            id: self.id.clone(),
            created_at: self.created_at.clone(),
            updated_at: self.updated_at.clone(),
            date: self.date.clone(),
            time: copy_opt_text(&self.time),
            end_time: copy_opt_text(&self.end_time),
            event: self.event.clone(),
            notes: copy_opt_text(&self.notes),
            priority: self.priority,
            recurring: match &self.recurring {
                Some(r) => Some(r.duplicate()),
                None => None,
            },
            reminder: self.reminder,
            location: match &self.location {
                Some(l) => Some(l.duplicate()),
                None => None,
            },
            category: self.category,
            color: copy_opt_text(&self.color),
            tags: copy_texts(&self.tags),
            status: self.status,
            visibility: self.visibility,
            metadata: self.metadata.clone(),
        }
    }
}

} // verus!
