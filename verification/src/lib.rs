//! Calendar events: the data model, the expansion of repeat rules into
//! dates, and the logic of the event store's queries over its rows.
//!
//! - [`models`], [`event`]: the event, its enumerations with their wire
//!   text, and the mathematical model that contracts speak of.
//! - [`dates`], [`recurrence`]: calendar dates, and the walk that expands a
//!   repeat rule into its occurrence dates.
//! - [`rows`], [`repository`], [`sorting`]: the stored form of an event,
//!   and what the store's queries make of the rows they read: the events
//!   of a day, the expanded and sorted list of a date range, and the
//!   conflicts of an event.
//! - [`migrations`]: the schema of the store.
//! - [`validation`], [`input`], [`export`], [`text`], [`errors`]: checks on
//!   text fields, the command line of the widget, the text of exports, and
//!   helpers.
//!
//! Storage itself is left to the caller: the library takes rows and gives
//! rows. Calendar arithmetic is `chrono`'s, identifiers are `uuid`'s.

pub mod dates;
pub mod errors;
pub mod event;
pub mod export;
pub mod input;
pub mod migrations;
pub mod models;
pub mod recurrence;
pub mod repository;
pub mod rows;
pub mod sorting;
pub mod text;
pub mod validation;

pub use crate::dates::Date;
pub use crate::errors::{CoreError, StorageError};
pub use crate::event::{CalendarEvent, Coordinates, Location, ReminderConfig};
pub use crate::export::Exporter;
pub use crate::input::{Command, CommandParser, InputHandler, InputResult, ParserStrategy};
pub use crate::migrations::Migrations;
pub use crate::models::{
    Category, EventStatus, LocationType, Priority, RecurrenceFrequency, Visibility,
};
pub use crate::recurrence::RecurrenceConfig;
pub use crate::rows::StoredRow;
pub use crate::validation::Validator;
