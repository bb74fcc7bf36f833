//! The text of an export of events as iCalendar and as CSV.

use vstd::prelude::*;
use vstd::string::StringExecFns;
use vstd::string::StrSliceExecFns;
use crate::event::{views, CalendarEvent, EventModel};
use crate::models::EventStatus;

verus! {

/// The text with every occurrence of `from` replaced by `to`.
pub open spec fn replaced(text: Seq<char>, from: char, to: Seq<char>) -> Seq<char>
    decreases text.len(),
{
    if text.len() == 0 {
        Seq::empty()
    } else if text.last() == from {
        replaced(text.drop_last(), from, to) + to
    } else {
        replaced(text.drop_last(), from, to).push(text.last())
    }
}

/// What a character is written as in iCalendar text: a backslash, a
/// comma, a semicolon and a line feed are escaped by a backslash.
pub open spec fn escaped_char(c: char) -> Seq<char> {
    if c == '\\' {
        seq!['\\', '\\']
    } else if c == ',' {
        seq!['\\', ',']
    } else if c == ';' {
        seq!['\\', ';']
    } else if c == '\n' {
        seq!['\\', 'n']
    } else {
        seq![c]
    }
}

/// A text in its escaped form: character after character.
pub open spec fn escaped(text: Seq<char>) -> Seq<char>
    decreases text.len(),
{
    if text.len() == 0 {
        Seq::empty()
    } else {
        escaped(text.drop_last()) + escaped_char(text.last())
    }
}

/// The iCalendar date-time of a date and a time of day: both without their
/// separators, a `T` between them and `00` for the seconds; midnight where
/// there is no time.
pub open spec fn ics_datetime(date: Seq<char>, time: Option<Seq<char>>) -> Seq<char> {
    match time {
        Some(t) => replaced(date, '-', Seq::empty()) + "T"@ + replaced(t, ':', Seq::empty())
            + "00"@,
        None => replaced(date, '-', Seq::empty()) + "T000000"@,
    }
}

/// The status of an event as iCalendar names it.
pub open spec fn ics_status(status: EventStatus) -> Seq<char> {
    match status {
        EventStatus::Confirmed => "CONFIRMED"@,
        EventStatus::Tentative => "TENTATIVE"@,
        EventStatus::Cancelled => "CANCELLED"@,
        EventStatus::Completed => "COMPLETED"@,
    }
}

/// The line that gives the end of an event; nothing for an event without
/// an end time.
pub open spec fn ics_end_line(e: EventModel) -> Seq<char> {
    match e.end_time {
        Some(t) => "DTEND:"@ + ics_datetime(e.date, Some(t)) + "\n"@,
        None => Seq::empty(),
    }
}

/// The line that gives the notes of an event; nothing for an event without
/// notes.
pub open spec fn ics_description_line(e: EventModel) -> Seq<char> {
    match e.notes {
        Some(n) => "DESCRIPTION:"@ + escaped(n) + "\n"@,
        None => Seq::empty(),
    }
}

/// The iCalendar block of one event.
pub open spec fn ics_event(e: EventModel) -> Seq<char> {
    "BEGIN:VEVENT\n"@ + "UID:"@ + e.id + "\n"@ + "DTSTART:"@ + ics_datetime(e.date, e.time)
        + "\n"@ + ics_end_line(e) + "SUMMARY:"@ + escaped(e.event) + "\n"@ + ics_description_line(
        e,
    ) + "STATUS:"@ + ics_status(e.status) + "\n"@ + "END:VEVENT\n"@
}

/// The iCalendar blocks of a list of events, one after the other.
pub open spec fn ics_events(events: Seq<EventModel>) -> Seq<char>
    decreases events.len(),
{
    if events.len() == 0 {
        Seq::empty()
    } else {
        ics_events(events.drop_last()) + ics_event(events.last())
    }
}

/// The iCalendar document of a list of events.
pub open spec fn ics_document(events: Seq<EventModel>) -> Seq<char> {
    "BEGIN:VCALENDAR\nVERSION:2.0\nPRODID:-//UberCalendurr//EN\n"@ + ics_events(events)
        + "END:VCALENDAR\n"@
}

/// A text that may be absent, the empty text standing for none.
pub open spec fn or_empty(value: Option<Seq<char>>) -> Seq<char> {
    match value {
        Some(t) => t,
        None => Seq::empty(),
    }
}

/// The CSV row of one event: date, time, the title in quotes with its
/// quotes doubled, category, priority, and the notes in quotes with their
/// commas turned into semicolons.
pub open spec fn csv_row(e: EventModel) -> Seq<char> {
    e.date + ","@ + or_empty(e.time) + ",\""@ + replaced(e.event, '"', "\"\""@) + "\","@
        + e.category.wire_text() + ","@ + e.priority.wire_text() + ",\""@ + replaced(
        or_empty(e.notes),
        ',',
        ";"@,
    ) + "\"\n"@
}

/// The CSV rows of a list of events, one after the other.
pub open spec fn csv_rows(events: Seq<EventModel>) -> Seq<char>
    decreases events.len(),
{
    if events.len() == 0 {
        Seq::empty()
    } else {
        csv_rows(events.drop_last()) + csv_row(events.last())
    }
}

/// The CSV document of a list of events: the header, then the rows.
pub open spec fn csv_document(events: Seq<EventModel>) -> Seq<char> {
    "Date,Time,Event,Category,Priority,Notes\n"@ + csv_rows(events)
}

/// The text with every occurrence of `from` replaced by `to`.
pub fn replace_char(text: &str, from: char, to: &str) -> (result: String)
    ensures
        result@ == replaced(text@, from, to@),
{
    let n: usize = text.unicode_len();
    let mut out = String::new();
    let mut i: usize = 0;
    assert(text@.take(0) =~= Seq::<char>::empty());
    while i < n
        invariant
            n == text@.len(),
            i <= n,
            out@ == replaced(text@.take(i as int), from, to@),
        decreases n - i,
    {
        proof {
            let upto = text@.take(i as int + 1);
            assert(upto.drop_last() =~= text@.take(i as int));
            assert(upto.last() == text@[i as int]);
        }
        if text.get_char(i) == from {
            out.append(to);
        } else {
            let ghost before = out@;
            out.append(text.substring_char(i, i + 1));
            assert(out@ =~= before.push(text@[i as int]));
        }
        i += 1;
    }
    assert(text@.take(i as int) =~= text@);
    out
}

/// Formatting of events for export.
pub struct Exporter;

impl Exporter {
    /// The iCalendar date-time of a date and an optional time of day.
    pub fn format_ics_datetime(date: &str, time: Option<&str>) -> (result: String)
        ensures
            result@ == ics_datetime(
                date@,
                match time {
                    Some(t) => Some(t@),
                    None => None,
                },
            ),
    {
        proof {
            reveal_strlit("");
            assert(""@ =~= Seq::<char>::empty());
        }
        let day = replace_char(date, '-', "");
        match time {
            Some(t) => {
                let clock = replace_char(t, ':', "");
                day.concat("T").concat(clock.as_str()).concat("00")
            },
            None => day.concat("T000000"),
        }
    }

    /// The text in its escaped form for iCalendar.
    pub fn escape_ics_text(text: &str) -> (result: String)
        ensures
            result@ == escaped(text@),
    {
        proof {
            reveal_strlit("\\\\");
            reveal_strlit("\\,");
            reveal_strlit("\\;");
            reveal_strlit("\\n");
        }
        let n: usize = text.unicode_len();
        let mut out = String::new();
        let mut i: usize = 0;
        assert(text@.take(0) =~= Seq::<char>::empty());
        while i < n
            invariant
                n == text@.len(),
                i <= n,
                out@ == escaped(text@.take(i as int)),
                "\\\\"@ =~= seq!['\\', '\\'],
                "\\,"@ =~= seq!['\\', ','],
                "\\;"@ =~= seq!['\\', ';'],
                "\\n"@ =~= seq!['\\', 'n'],
            decreases n - i,
        {
            proof {
                let upto = text@.take(i as int + 1);
                assert(upto.drop_last() =~= text@.take(i as int));
                assert(upto.last() == text@[i as int]);
            }
            let c = text.get_char(i);
            if c == '\\' {
                out.append("\\\\");
            } else if c == ',' {
                out.append("\\,");
            } else if c == ';' {
                out.append("\\;");
            } else if c == '\n' {
                out.append("\\n");
            } else {
                out.append(text.substring_char(i, i + 1));
                assert(text@.subrange(i as int, i as int + 1) =~= seq![c]);
            }
            i += 1;
        }
        assert(text@.take(i as int) =~= text@);
        out
    }

    /// The status of an event as iCalendar names it.
    pub fn status_name(status: EventStatus) -> (result: &'static str)
        ensures
            result@ == ics_status(status),
    {
        match status {
            EventStatus::Confirmed => "CONFIRMED",
            EventStatus::Tentative => "TENTATIVE",
            EventStatus::Cancelled => "CANCELLED",
            EventStatus::Completed => "COMPLETED",
        }
    }

    /// The iCalendar block of one event.
    pub fn ics_event_text(event: &CalendarEvent) -> (result: String)
        ensures
            result@ == ics_event(event@),
    {
        let time: Option<&str> = match &event.time {
            Some(t) => Some(t.as_str()),
            None => None,
        };
        let start = Exporter::format_ics_datetime(event.date.as_str(), time);
        let mut out = String::from_str("BEGIN:VEVENT\n");
        out.append("UID:");
        out.append(event.id.as_str());
        out.append("\n");
        out.append("DTSTART:");
        out.append(start.as_str());
        out.append("\n");
        let ghost before_end = out@;
        match &event.end_time {
            Some(t) => {
                let end = Exporter::format_ics_datetime(event.date.as_str(), Some(t.as_str()));
                out.append("DTEND:");
                out.append(end.as_str());
                out.append("\n");
            },
            None => {},
        }
        assert(out@ =~= before_end + ics_end_line(event@));
        let summary = Exporter::escape_ics_text(event.event.as_str());
        out.append("SUMMARY:");
        out.append(summary.as_str());
        out.append("\n");
        let ghost before_notes = out@;
        match &event.notes {
            Some(n) => {
                let notes = Exporter::escape_ics_text(n.as_str());
                out.append("DESCRIPTION:");
                out.append(notes.as_str());
                out.append("\n");
            },
            None => {},
        }
        assert(out@ =~= before_notes + ics_description_line(event@));
        out.append("STATUS:");
        out.append(Exporter::status_name(event.status));
        out.append("\n");
        out.append("END:VEVENT\n");
        out
    }

    /// The iCalendar document of a list of events: the header, a block for
    /// every event in order, and the footer.
    pub fn ics_text(events: &Vec<CalendarEvent>) -> (result: String)
        ensures
            result@ == ics_document(views(events@)),
    {
        let mut out = String::from_str("BEGIN:VCALENDAR\nVERSION:2.0\nPRODID:-//UberCalendurr//EN\n");
        let ghost header = out@;
        let mut i: usize = 0;
        assert(views(events@).take(0) =~= Seq::<EventModel>::empty());
        assert(header + Seq::<char>::empty() =~= header);
        while i < events.len()
            invariant
                i <= events@.len(),
                out@ == header + ics_events(views(events@).take(i as int)),
            decreases events@.len() - i,
        {
            let ghost so_far = ics_events(views(events@).take(i as int));
            proof {
                let upto = views(events@).take(i as int + 1);
                assert(upto.drop_last() =~= views(events@).take(i as int));
                assert(upto.last() == events@[i as int]@);
            }
            let block = Exporter::ics_event_text(&events[i]);
            out.append(block.as_str());
            assert(out@ =~= header + (so_far + block@));
            i += 1;
        }
        assert(views(events@).take(i as int) =~= views(events@));
        out.append("END:VCALENDAR\n");
        out
    }

    /// The CSV row of one event.
    pub fn csv_row_text(event: &CalendarEvent) -> (result: String)
        ensures
            result@ == csv_row(event@),
    {
        let title = replace_char(event.event.as_str(), '"', "\"\"");
        let notes = match &event.notes {
            Some(n) => replace_char(n.as_str(), ',', ";"),
            None => {
                assert(replaced(Seq::<char>::empty(), ',', ";"@) =~= Seq::<char>::empty());
                String::new()
            },
        };
        let mut out = event.date.clone();
        out.append(",");
        let ghost before_time = out@;
        match &event.time {
            Some(t) => {
                out.append(t.as_str());
            },
            None => {},
        }
        assert(out@ =~= before_time + or_empty(event@.time));
        out.append(",\"");
        out.append(title.as_str());
        out.append("\",");
        out.append(event.category.as_str());
        out.append(",");
        out.append(event.priority.as_str());
        out.append(",\"");
        out.append(notes.as_str());
        out.append("\"\n");
        out
    }

    /// The CSV document of a list of events: the header, then a row for
    /// every event in order.
    pub fn csv_text(events: &Vec<CalendarEvent>) -> (result: String)
        ensures
            result@ == csv_document(views(events@)),
    {
        let mut out = String::from_str("Date,Time,Event,Category,Priority,Notes\n");
        let ghost header = out@;
        let mut i: usize = 0;
        assert(views(events@).take(0) =~= Seq::<EventModel>::empty());
        assert(header + Seq::<char>::empty() =~= header);
        while i < events.len()
            invariant
                i <= events@.len(),
                out@ == header + csv_rows(views(events@).take(i as int)),
            decreases events@.len() - i,
        {
            let ghost so_far = csv_rows(views(events@).take(i as int));
            proof {
                let upto = views(events@).take(i as int + 1);
                assert(upto.drop_last() =~= views(events@).take(i as int));
                assert(upto.last() == events@[i as int]@);
            }
            let row = Exporter::csv_row_text(&events[i]);
            out.append(row.as_str());
            assert(out@ =~= header + (so_far + row@));
            i += 1;
        }
        assert(views(events@).take(i as int) =~= views(events@));
        out
    }
}

} // verus!
