//! The calendar event and its value objects, each with its canonical
//! lowercase wire text.

use vstd::prelude::*;
use crate::errors::CoreError;
use crate::text::str_eq;

verus! {

/// How pressing an event is.
#[derive(Debug, Clone, Copy, PartialEq, Eq, Hash, Structural)]
pub enum Priority {
    Low,
    Medium,
    High,
    Urgent,
}

/// The kind of an event.
#[derive(Debug, Clone, Copy, PartialEq, Eq, Hash, Structural)]
pub enum Category {
    Work,
    Personal,
    Health,
    Social,
    Finance,
    Education,
    Other,
}

/// Where an event stands in its life.
#[derive(Debug, Clone, Copy, PartialEq, Eq, Hash, Structural)]
pub enum EventStatus {
    Tentative,
    Confirmed,
    Cancelled,
    Completed,
}

/// Who may see an event.
#[derive(Debug, Clone, Copy, PartialEq, Eq, Hash, Structural)]
pub enum Visibility {
    Public,
    Private,
}

/// How often a repeat rule fires.
#[derive(Debug, Clone, Copy, PartialEq, Eq, Hash, Structural)]
pub enum RecurrenceFrequency {
    Never,
    Daily,
    Weekly,
    Biweekly,
    Monthly,
    Yearly,
    Custom,
}

/// Whether a location is a place or a link.
#[derive(Debug, Clone, Copy, PartialEq, Eq, Hash, Structural)]
pub enum LocationType {
    Physical,
    Virtual,
}

impl Priority {
    /// The wire text of the priority.
    pub open spec fn wire_text(self) -> Seq<char> {
        match self {
            Priority::Low => "low"@,
            Priority::Medium => "medium"@,
            Priority::High => "high"@,
            Priority::Urgent => "urgent"@,
        }
    }

    /// The priority that a wire text names, if any.
    pub open spec fn of_text(text: Seq<char>) -> Option<Priority> {
        if text == "low"@ {
            Some(Priority::Low)
        } else if text == "medium"@ {
            Some(Priority::Medium)
        } else if text == "high"@ {
            Some(Priority::High)
        } else if text == "urgent"@ {
            Some(Priority::Urgent)
        } else {
            None
        }
    }

    /// The rank of the priority, from 0 for low to 3 for urgent.
    pub open spec fn rank(self) -> u8 {
        match self {
            Priority::Low => 0,
            Priority::Medium => 1,
            Priority::High => 2,
            Priority::Urgent => 3,
        }
    }

    /// The coloured circle shown for the priority.
    pub open spec fn emoji_text(self) -> Seq<char> {
        match self {
            Priority::Low => "\u{1F7E2}"@,
            Priority::Medium => "\u{1F7E1}"@,
            Priority::High => "\u{1F7E0}"@,
            Priority::Urgent => "\u{1F534}"@,
        }
    }

    pub fn level(&self) -> (result: u8)
        ensures
            result == self.rank(),
    {
        match self {
            Priority::Low => 0,
            Priority::Medium => 1,
            Priority::High => 2,
            Priority::Urgent => 3,
        }
    }

    pub fn emoji(&self) -> (result: &'static str)
        ensures
            result@ == self.emoji_text(),
    {
        match self {
            Priority::Low => "\u{1F7E2}",
            Priority::Medium => "\u{1F7E1}",
            Priority::High => "\u{1F7E0}",
            Priority::Urgent => "\u{1F534}",
        }
    }

    pub fn as_str(&self) -> (result: &'static str)
        ensures
            result@ == self.wire_text(),
    {
        match self {
            Priority::Low => "low",
            Priority::Medium => "medium",
            Priority::High => "high",
            Priority::Urgent => "urgent",
        }
    }

    /// Reads a priority from its wire text; nothing for any other text.
    pub fn from_wire(text: &str) -> (result: Option<Priority>)
        ensures
            result == Priority::of_text(text@),
    {
        if str_eq(text, "low") {
            Some(Priority::Low)
        } else if str_eq(text, "medium") {
            Some(Priority::Medium)
        } else if str_eq(text, "high") {
            Some(Priority::High)
        } else if str_eq(text, "urgent") {
            Some(Priority::Urgent)
        } else {
            None
        }
    }

    /// Reads a stored priority, taking medium for a text that names none.
    pub fn from_wire_or_default(text: &str) -> (result: Priority)
        ensures
            result == match Priority::of_text(text@) {
                Some(p) => p,
                None => Priority::Medium,
            },
    {
        match Priority::from_wire(text) {
            Some(p) => p,
            None => Priority::Medium,
        }
    }

    /// Reading the wire text of a priority gives the priority back.
    pub proof fn wire_text_round_trips(self)
        ensures
            Priority::of_text(self.wire_text()) == Some(self),
    {
        reveal_strlit("low");
        reveal_strlit("medium");
        reveal_strlit("high");
        reveal_strlit("urgent");
        assert("low"@.len() == 3 && "medium"@.len() == 6 && "high"@.len() == 4);
        assert("urgent"@.len() == 6 && "urgent"@[0] == 'u' && "medium"@[0] == 'm');
    }
}

impl Default for Priority {
    fn default() -> (result: Priority)
        ensures
            result == Priority::Medium,
    {
        Priority::Medium
    }
}

impl std::str::FromStr for Priority {
    type Err = CoreError;

    /// Reads a priority from its wire text, and rejects any other text as
    /// a parse error.
    fn from_str(text: &str) -> (result: Result<Priority, CoreError>)
        ensures
            match Priority::of_text(text@) {
                Some(p) => result == Ok::<Priority, CoreError>(p),
                None => result matches Err(CoreError::ParseError(m)) && m@
                    == "unknown priority"@,
            },
    {
        match Priority::from_wire(text) {
            Some(p) => Ok(p),
            None => Err(CoreError::ParseError("unknown priority".to_owned())),
        }
    }
}

impl Category {
    /// The wire text of the category.
    pub open spec fn wire_text(self) -> Seq<char> {
        match self {
            Category::Work => "work"@,
            Category::Personal => "personal"@,
            Category::Health => "health"@,
            Category::Social => "social"@,
            Category::Finance => "finance"@,
            Category::Education => "education"@,
            Category::Other => "other"@,
        }
    }

    /// The category that a wire text names, if any.
    pub open spec fn of_text(text: Seq<char>) -> Option<Category> {
        if text == "work"@ {
            Some(Category::Work)
        } else if text == "personal"@ {
            Some(Category::Personal)
        } else if text == "health"@ {
            Some(Category::Health)
        } else if text == "social"@ {
            Some(Category::Social)
        } else if text == "finance"@ {
            Some(Category::Finance)
        } else if text == "education"@ {
            Some(Category::Education)
        } else if text == "other"@ {
            Some(Category::Other)
        } else {
            None
        }
    }

    /// The default display colour of the category, as a hex code.
    pub open spec fn color_text(self) -> Seq<char> {
        match self {
            Category::Work => "#3B82F6"@,
            Category::Personal => "#10B981"@,
            Category::Health => "#EF4444"@,
            Category::Social => "#8B5CF6"@,
            Category::Finance => "#F59E0B"@,
            Category::Education => "#6366F1"@,
            Category::Other => "#6B7280"@,
        }
    }

    /// The name shown for the category.
    pub open spec fn display_text(self) -> Seq<char> {
        match self {
            Category::Work => "Work"@,
            Category::Personal => "Personal"@,
            Category::Health => "Health"@,
            Category::Social => "Social"@,
            Category::Finance => "Finance"@,
            Category::Education => "Education"@,
            Category::Other => "Other"@,
        }
    }

    pub fn color(&self) -> (result: &'static str)
        ensures
            result@ == self.color_text(),
    {
        match self {
            Category::Work => "#3B82F6",
            Category::Personal => "#10B981",
            Category::Health => "#EF4444",
            Category::Social => "#8B5CF6",
            Category::Finance => "#F59E0B",
            Category::Education => "#6366F1",
            Category::Other => "#6B7280",
        }
    }

    pub fn display_name(&self) -> (result: &'static str)
        ensures
            result@ == self.display_text(),
    {
        match self {
            Category::Work => "Work",
            Category::Personal => "Personal",
            Category::Health => "Health",
            Category::Social => "Social",
            Category::Finance => "Finance",
            Category::Education => "Education",
            Category::Other => "Other",
        }
    }

    pub fn as_str(&self) -> (result: &'static str)
        ensures
            result@ == self.wire_text(),
    {
        match self {
            Category::Work => "work",
            Category::Personal => "personal",
            Category::Health => "health",
            Category::Social => "social",
            Category::Finance => "finance",
            Category::Education => "education",
            Category::Other => "other",
        }
    }

    /// Reads a category from its wire text; nothing for any other text.
    pub fn from_wire(text: &str) -> (result: Option<Category>)
        ensures
            result == Category::of_text(text@),
    {
        if str_eq(text, "work") {
            Some(Category::Work)
        } else if str_eq(text, "personal") {
            Some(Category::Personal)
        } else if str_eq(text, "health") {
            Some(Category::Health)
        } else if str_eq(text, "social") {
            Some(Category::Social)
        } else if str_eq(text, "finance") {
            Some(Category::Finance)
        } else if str_eq(text, "education") {
            Some(Category::Education)
        } else if str_eq(text, "other") {
            Some(Category::Other)
        } else {
            None
        }
    }

    /// Reads a stored category, taking other for a text that names none.
    pub fn from_wire_or_default(text: &str) -> (result: Category)
        ensures
            result == match Category::of_text(text@) {
                Some(c) => c,
                None => Category::Other,
            },
    {
        match Category::from_wire(text) {
            Some(c) => c,
            None => Category::Other,
        }
    }

    /// Reading the wire text of a category gives the category back.
    pub proof fn wire_text_round_trips(self)
        ensures
            Category::of_text(self.wire_text()) == Some(self),
    {
        reveal_strlit("work");
        reveal_strlit("personal");
        reveal_strlit("health");
        reveal_strlit("social");
        reveal_strlit("finance");
        reveal_strlit("education");
        reveal_strlit("other");
        assert("work"@.len() == 4 && "personal"@.len() == 8 && "health"@.len() == 6);
        assert("social"@.len() == 6 && "finance"@.len() == 7 && "education"@.len() == 9);
        assert("other"@.len() == 5 && "health"@[0] == 'h' && "social"@[0] == 's');
    }
}

impl Default for Category {
    fn default() -> (result: Category)
        ensures
            result == Category::Other,
    {
        Category::Other
    }
}

impl std::str::FromStr for Category {
    type Err = CoreError;

    /// Reads a category from its wire text, and rejects any other text as
    /// a parse error.
    fn from_str(text: &str) -> (result: Result<Category, CoreError>)
        ensures
            match Category::of_text(text@) {
                Some(c) => result == Ok::<Category, CoreError>(c),
                None => result matches Err(CoreError::ParseError(m)) && m@
                    == "unknown category"@,
            },
    {
        match Category::from_wire(text) {
            Some(c) => Ok(c),
            None => Err(CoreError::ParseError("unknown category".to_owned())),
        }
    }
}

impl EventStatus {
    /// The wire text of the status.
    pub open spec fn wire_text(self) -> Seq<char> {
        match self {
            EventStatus::Tentative => "tentative"@,
            EventStatus::Confirmed => "confirmed"@,
            EventStatus::Cancelled => "cancelled"@,
            EventStatus::Completed => "completed"@,
        }
    }

    /// The status that a wire text names, if any.
    pub open spec fn of_text(text: Seq<char>) -> Option<EventStatus> {
        if text == "tentative"@ {
            Some(EventStatus::Tentative)
        } else if text == "confirmed"@ {
            Some(EventStatus::Confirmed)
        } else if text == "cancelled"@ {
            Some(EventStatus::Cancelled)
        } else if text == "completed"@ {
            Some(EventStatus::Completed)
        } else {
            None
        }
    }

    pub fn as_str(&self) -> (result: &'static str)
        ensures
            result@ == self.wire_text(),
    {
        match self {
            EventStatus::Tentative => "tentative",
            EventStatus::Confirmed => "confirmed",
            EventStatus::Cancelled => "cancelled",
            EventStatus::Completed => "completed",
        }
    }

    /// Reads a status from its wire text; nothing for any other text.
    pub fn from_wire(text: &str) -> (result: Option<EventStatus>)
        ensures
            result == EventStatus::of_text(text@),
    {
        if str_eq(text, "tentative") {
            Some(EventStatus::Tentative)
        } else if str_eq(text, "confirmed") {
            Some(EventStatus::Confirmed)
        } else if str_eq(text, "cancelled") {
            Some(EventStatus::Cancelled)
        } else if str_eq(text, "completed") {
            Some(EventStatus::Completed)
        } else {
            None
        }
    }

    /// Reads a stored status, taking confirmed for a text that names none.
    pub fn from_wire_or_default(text: &str) -> (result: EventStatus)
        ensures
            result == match EventStatus::of_text(text@) {
                Some(s) => s,
                None => EventStatus::Confirmed,
            },
    {
        match EventStatus::from_wire(text) {
            Some(s) => s,
            None => EventStatus::Confirmed,
        }
    }

    /// Reading the wire text of a status gives the status back.
    pub proof fn wire_text_round_trips(self)
        ensures
            EventStatus::of_text(self.wire_text()) == Some(self),
    {
        reveal_strlit("tentative");
        reveal_strlit("confirmed");
        reveal_strlit("cancelled");
        reveal_strlit("completed");
        assert("tentative"@[0] == 't' && "confirmed"@[0] == 'c' && "cancelled"@[0] == 'c');
        assert("completed"@[0] == 'c' && "confirmed"@[1] == 'o' && "cancelled"@[1] == 'a');
        assert("completed"@[1] == 'o' && "confirmed"@[2] == 'n' && "completed"@[2] == 'm');
    }
}

impl Default for EventStatus {
    fn default() -> (result: EventStatus)
        ensures
            result == EventStatus::Confirmed,
    {
        EventStatus::Confirmed
    }
}

impl Visibility {
    /// The wire text of the visibility.
    pub open spec fn wire_text(self) -> Seq<char> {
        match self {
            Visibility::Public => "public"@,
            Visibility::Private => "private"@,
        }
    }

    /// The visibility that a wire text names, if any.
    pub open spec fn of_text(text: Seq<char>) -> Option<Visibility> {
        if text == "public"@ {
            Some(Visibility::Public)
        } else if text == "private"@ {
            Some(Visibility::Private)
        } else {
            None
        }
    }

    pub fn as_str(&self) -> (result: &'static str)
        ensures
            result@ == self.wire_text(),
    {
        match self {
            Visibility::Public => "public",
            Visibility::Private => "private",
        }
    }

    /// Reads a visibility from its wire text; nothing for any other text.
    pub fn from_wire(text: &str) -> (result: Option<Visibility>)
        ensures
            result == Visibility::of_text(text@),
    {
        if str_eq(text, "public") {
            Some(Visibility::Public)
        } else if str_eq(text, "private") {
            Some(Visibility::Private)
        } else {
            None
        }
    }

    /// Reads a stored visibility, taking private for a text that names none.
    pub fn from_wire_or_default(text: &str) -> (result: Visibility)
        ensures
            result == match Visibility::of_text(text@) {
                Some(v) => v,
                None => Visibility::Private,
            },
    {
        match Visibility::from_wire(text) {
            Some(v) => v,
            None => Visibility::Private,
        }
    }

    /// Reading the wire text of a visibility gives the visibility back.
    pub proof fn wire_text_round_trips(self)
        ensures
            Visibility::of_text(self.wire_text()) == Some(self),
    {
        reveal_strlit("public");
        reveal_strlit("private");
        assert("public"@.len() == 6 && "private"@.len() == 7);
    }
}

impl Default for Visibility {
    fn default() -> (result: Visibility)
        ensures
            result == Visibility::Private,
    {
        Visibility::Private
    }
}

impl RecurrenceFrequency {
    /// The wire text of the frequency.
    pub open spec fn wire_text(self) -> Seq<char> {
        match self {
            RecurrenceFrequency::Never => "none"@,
            RecurrenceFrequency::Daily => "daily"@,
            RecurrenceFrequency::Weekly => "weekly"@,
            RecurrenceFrequency::Biweekly => "biweekly"@,
            RecurrenceFrequency::Monthly => "monthly"@,
            RecurrenceFrequency::Yearly => "yearly"@,
            RecurrenceFrequency::Custom => "custom"@,
        }
    }

    /// The frequency that a wire text names, if any.
    pub open spec fn of_text(text: Seq<char>) -> Option<RecurrenceFrequency> {
        if text == "none"@ {
            Some(RecurrenceFrequency::Never)
        } else if text == "daily"@ {
            Some(RecurrenceFrequency::Daily)
        } else if text == "weekly"@ {
            Some(RecurrenceFrequency::Weekly)
        } else if text == "biweekly"@ {
            Some(RecurrenceFrequency::Biweekly)
        } else if text == "monthly"@ {
            Some(RecurrenceFrequency::Monthly)
        } else if text == "yearly"@ {
            Some(RecurrenceFrequency::Yearly)
        } else if text == "custom"@ {
            Some(RecurrenceFrequency::Custom)
        } else {
            None
        }
    }

    /// Reads a frequency from its wire text; nothing for any other text.
    pub fn from_wire(text: &str) -> (result: Option<RecurrenceFrequency>)
        ensures
            result == RecurrenceFrequency::of_text(text@),
    {
        if str_eq(text, "none") {
            Some(RecurrenceFrequency::Never)
        } else if str_eq(text, "daily") {
            Some(RecurrenceFrequency::Daily)
        } else if str_eq(text, "weekly") {
            Some(RecurrenceFrequency::Weekly)
        } else if str_eq(text, "biweekly") {
            Some(RecurrenceFrequency::Biweekly)
        } else if str_eq(text, "monthly") {
            Some(RecurrenceFrequency::Monthly)
        } else if str_eq(text, "yearly") {
            Some(RecurrenceFrequency::Yearly)
        } else if str_eq(text, "custom") {
            Some(RecurrenceFrequency::Custom)
        } else {
            None
        }
    }

    /// Reading the wire text of a frequency gives the frequency back.
    pub proof fn wire_text_round_trips(self)
        ensures
            RecurrenceFrequency::of_text(self.wire_text()) == Some(self),
    {
        reveal_strlit("none");
        reveal_strlit("daily");
        reveal_strlit("weekly");
        reveal_strlit("biweekly");
        reveal_strlit("monthly");
        reveal_strlit("yearly");
        reveal_strlit("custom");
        assert("none"@.len() == 4 && "daily"@.len() == 5 && "weekly"@.len() == 6);
        assert("biweekly"@.len() == 8 && "monthly"@.len() == 7 && "yearly"@.len() == 6);
        assert("custom"@.len() == 6 && "weekly"@[0] == 'w' && "yearly"@[0] == 'y');
        assert("custom"@[0] == 'c');
    }

    pub fn as_str(&self) -> (result: &'static str)
        ensures
            result@ == self.wire_text(),
    {
        match self {
            RecurrenceFrequency::Never => "none",
            RecurrenceFrequency::Daily => "daily",
            RecurrenceFrequency::Weekly => "weekly",
            RecurrenceFrequency::Biweekly => "biweekly",
            RecurrenceFrequency::Monthly => "monthly",
            RecurrenceFrequency::Yearly => "yearly",
            RecurrenceFrequency::Custom => "custom",
        }
    }
}

impl LocationType {
    /// The wire text of the location type.
    pub open spec fn wire_text(self) -> Seq<char> {
        match self {
            LocationType::Physical => "physical"@,
            LocationType::Virtual => "virtual"@,
        }
    }

    /// The location type that a wire text names, if any.
    pub open spec fn of_text(text: Seq<char>) -> Option<LocationType> {
        if text == "physical"@ {
            Some(LocationType::Physical)
        } else if text == "virtual"@ {
            Some(LocationType::Virtual)
        } else {
            None
        }
    }

    /// Reads a location type from its wire text; nothing for any other
    /// text.
    pub fn from_wire(text: &str) -> (result: Option<LocationType>)
        ensures
            result == LocationType::of_text(text@),
    {
        if str_eq(text, "physical") {
            Some(LocationType::Physical)
        } else if str_eq(text, "virtual") {
            Some(LocationType::Virtual)
        } else {
            None
        }
    }

    /// Reading the wire text of a location type gives the type back.
    pub proof fn wire_text_round_trips(self)
        ensures
            LocationType::of_text(self.wire_text()) == Some(self),
    {
        reveal_strlit("physical");
        reveal_strlit("virtual");
        assert("physical"@.len() == 8 && "virtual"@.len() == 7);
    }

    pub fn as_str(&self) -> (result: &'static str)
        ensures
            result@ == self.wire_text(),
    {
        match self {
            LocationType::Physical => "physical",
            LocationType::Virtual => "virtual",
        }
    }
}

} // verus!
