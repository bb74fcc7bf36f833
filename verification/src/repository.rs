//! The query logic of the event store over its base rows: the events of a
//! day, the flattened and expanded list of a date range, and the events
//! whose time window overlaps that of another.

use vstd::prelude::*;
use crate::event::{fresh_id, views, CalendarEvent, EventModel};
use crate::recurrence::occurrences_of;
use crate::sorting::{images, sort_events, sort_events_with, sorted, text_lt_is_irreflexive};
use crate::text::{str_between, str_eq, str_lt, text_between, text_lt, texts};

verus! {

/// How many occurrences of a recurring event a range query generates.
pub const RANGE_OCCURRENCE_LIMIT: u32 = 365;

/// The rows dated `date`, in their order.
pub open spec fn rows_on(rows: Seq<EventModel>, date: Seq<char>) -> Seq<EventModel>
    decreases rows.len(),
{
    if rows.len() == 0 {
        Seq::empty()
    } else if rows.last().date == date {
        rows_on(rows.drop_last(), date).push(rows.last())
    } else {
        rows_on(rows.drop_last(), date)
    }
}

/// An event as a range query's contract sees it: an event that recurs
/// without its identifier, which is minted anew for every instance; any
/// other event as it is.
pub open spec fn anonymous(e: EventModel) -> EventModel {
    if e.recurring is Some {
        EventModel { id: Seq::empty(), ..e }
    } else {
        e
    }
}

/// The instance of a recurring row on one of its occurrence dates, without
/// an identifier.
pub open spec fn instance_on(row: EventModel, date: Seq<char>) -> EventModel {
    EventModel { id: Seq::empty(), date, ..row }
}

/// The instances of a recurring row on those of `dates` that lie in the
/// closed range from `start` to `end`, in the order of `dates`.
pub open spec fn instances_within(
    row: EventModel,
    dates: Seq<Seq<char>>,
    start: Seq<char>,
    end: Seq<char>,
) -> Seq<EventModel>
    decreases dates.len(),
{
    if dates.len() == 0 {
        Seq::empty()
    } else if text_between(dates.last(), start, end) {
        instances_within(row, dates.drop_last(), start, end).push(instance_on(row, dates.last()))
    } else {
        instances_within(row, dates.drop_last(), start, end)
    }
}

/// What one base row adds to a range query: a recurring row its instances
/// on the occurrence dates within the range, its own date being the anchor;
/// any other row itself, where its date lies within the range.
pub open spec fn row_instances(row: EventModel, start: Seq<char>, end: Seq<char>) -> Seq<
    EventModel,
> {
    match row.recurring {
        Some(rule) => instances_within(
            row,
            occurrences_of(rule, row.date, Some(RANGE_OCCURRENCE_LIMIT)),
            start,
            end,
        ),
        None => if text_between(row.date, start, end) {
            seq![row]
        } else {
            Seq::empty()
        },
    }
}

/// What the base rows add to a range query, row after row.
pub open spec fn range_instances(rows: Seq<EventModel>, start: Seq<char>, end: Seq<char>) -> Seq<
    EventModel,
>
    decreases rows.len(),
{
    if rows.len() == 0 {
        Seq::empty()
    } else {
        range_instances(rows.drop_last(), start, end) + row_instances(rows.last(), start, end)
    }
}

/// The event has a start and an end time.
pub open spec fn is_timed(e: EventModel) -> bool {
    e.time is Some && e.end_time is Some
}

/// Two half-open time windows overlap: each starts before the other ends.
pub open spec fn windows_overlap(
    start1: Seq<char>,
    end1: Seq<char>,
    start2: Seq<char>,
    end2: Seq<char>,
) -> bool {
    text_lt(start1, end2) && text_lt(start2, end1)
}

/// `other` is another event on the day of `event`, and the time windows of
/// the two overlap.
pub open spec fn conflicts_with(event: EventModel, other: EventModel) -> bool {
    &&& is_timed(event)
    &&& is_timed(other)
    &&& other.date == event.date
    &&& other.id != event.id
    &&& windows_overlap(event.time->0, event.end_time->0, other.time->0, other.end_time->0)
}

/// The identifiers of the rows that conflict with `event`, in row order.
pub open spec fn conflicting_ids(event: EventModel, rows: Seq<EventModel>) -> Seq<Seq<char>>
    decreases rows.len(),
{
    if rows.len() == 0 {
        Seq::empty()
    } else if conflicts_with(event, rows.last()) {
        conflicting_ids(event, rows.drop_last()).push(rows.last().id)
    } else {
        conflicting_ids(event, rows.drop_last())
    }
}

/// Overlap does not depend on which window is named first.
pub proof fn overlap_is_symmetric(
    start1: Seq<char>,
    end1: Seq<char>,
    start2: Seq<char>,
    end2: Seq<char>,
)
    ensures
        windows_overlap(start1, end1, start2, end2) == windows_overlap(start2, end2, start1, end1),
{
}

/// A window that starts where another ends does not overlap it.
pub proof fn touching_windows_do_not_overlap(start1: Seq<char>, meet: Seq<char>, end2: Seq<char>)
    ensures
        !windows_overlap(start1, meet, meet, end2),
        !windows_overlap(meet, end2, start1, meet),
{
    text_lt_is_irreflexive(meet);
}

/// Two events conflict with each other or not at all.
pub proof fn conflict_is_symmetric(a: EventModel, b: EventModel)
    ensures
        conflicts_with(a, b) == conflicts_with(b, a),
{
}

/// An event without a start or an end time conflicts with nothing.
pub proof fn untimed_events_never_conflict(event: EventModel, rows: Seq<EventModel>)
    requires
        !is_timed(event),
    ensures
        conflicting_ids(event, rows) == Seq::<Seq<char>>::empty(),
    decreases rows.len(),
{
    if rows.len() > 0 {
        untimed_events_never_conflict(event, rows.drop_last());
    }
}

/// Both ends of a range belong to it: a row that does not recur and is
/// dated exactly `start` or exactly `end` is in the result of the query,
/// and a row dated before `start` or after `end` is not.
pub proof fn range_bounds_are_inclusive(row: EventModel, start: Seq<char>, end: Seq<char>)
    requires
        row.recurring is None,
    ensures
        (row.date == start || row.date == end) && !text_lt(end, start) ==> row_instances(
            row,
            start,
            end,
        ) == seq![row],
        text_lt(row.date, start) || text_lt(end, row.date) ==> row_instances(row, start, end)
            == Seq::<EventModel>::empty(),
{
    text_lt_is_irreflexive(start);
    text_lt_is_irreflexive(end);
}

/// A range query keeps every base row that does not recur and is dated
/// within the range.
pub proof fn rows_within_are_kept(
    rows: Seq<EventModel>,
    start: Seq<char>,
    end: Seq<char>,
    index: int,
)
    requires
        0 <= index < rows.len(),
        rows[index].recurring is None,
        text_between(rows[index].date, start, end),
    ensures
        range_instances(rows, start, end).contains(rows[index]),
    decreases rows.len(),
{
    let rest = range_instances(rows.drop_last(), start, end);
    let added = row_instances(rows.last(), start, end);
    if index == rows.len() - 1 {
        assert(added == seq![rows[index]]);
        assert((rest + added)[rest.len() as int] == rows[index]);
    } else {
        rows_within_are_kept(rows.drop_last(), start, end, index);
        let k = choose|k: int| 0 <= k < rest.len() && rest[k] == rows[index];
        assert((rest + added)[k] == rows[index]);
    }
}

/// Every instance of a row in a range is dated within the range.
pub proof fn instances_lie_within(
    row: EventModel,
    dates: Seq<Seq<char>>,
    start: Seq<char>,
    end: Seq<char>,
    index: int,
)
    requires
        0 <= index < instances_within(row, dates, start, end).len(),
    ensures
        text_between(instances_within(row, dates, start, end)[index].date, start, end),
    decreases dates.len(),
{
    if dates.len() > 0 {
        let rest = instances_within(row, dates.drop_last(), start, end);
        if index < rest.len() {
            instances_lie_within(row, dates.drop_last(), start, end, index);
        }
    }
}

/// Every event that a range query yields is dated within the range.
pub proof fn range_instances_lie_within(
    rows: Seq<EventModel>,
    start: Seq<char>,
    end: Seq<char>,
    index: int,
)
    requires
        0 <= index < range_instances(rows, start, end).len(),
    ensures
        text_between(range_instances(rows, start, end)[index].date, start, end),
    decreases rows.len(),
{
    if rows.len() > 0 {
        let rest = range_instances(rows.drop_last(), start, end);
        if index < rest.len() {
            range_instances_lie_within(rows.drop_last(), start, end, index);
        } else {
            let row = rows.last();
            match row.recurring {
                Some(rule) => {
                    instances_lie_within(
                        row,
                        occurrences_of(rule, row.date, Some(RANGE_OCCURRENCE_LIMIT)),
                        start,
                        end,
                        index - rest.len(),
                    );
                },
                None => {},
            }
        }
    }
}

/// The base rows dated `date`, ordered by time, rows without a time first.
pub fn get_by_date(rows: &Vec<CalendarEvent>, date: &str) -> (out: Vec<CalendarEvent>)
    ensures
        sorted(views(out@), false),
        views(out@).to_multiset() == rows_on(views(rows@), date@).to_multiset(),
{
    let mut found: Vec<CalendarEvent> = Vec::new();
    let mut i: usize = 0;
    assert(views(rows@).take(0) =~= Seq::<EventModel>::empty());
    assert(views(found@) =~= Seq::<EventModel>::empty());
    while i < rows.len()
        invariant
            i <= rows@.len(),
            views(found@) == rows_on(views(rows@).take(i as int), date@),
        decreases rows@.len() - i,
    {
        let ghost before = views(found@);
        proof {
            let upto = views(rows@).take(i as int + 1);
            assert(upto.drop_last() =~= views(rows@).take(i as int));
            assert(upto.last() == rows@[i as int]@);
        }
        if str_eq(rows[i].date.as_str(), date) {
            found.push(rows[i].duplicate());
            assert(views(found@) =~= before.push(rows@[i as int]@));
        }
        i += 1;
    }
    assert(views(rows@).take(i as int) =~= views(rows@));
    sort_events(found, false)
}

/// The instances of a recurring row on those of `dates` that lie within
/// the range, each a copy of the row with the date replaced and a newly
/// minted identifier, appended to `out`.
fn push_instances(
    out: &mut Vec<CalendarEvent>,
    row: &CalendarEvent,
    dates: Vec<String>,
    start_date: &str,
    end_date: &str,
)
    requires
        row@.recurring is Some,
    ensures
        images(views(final(out)@), |e: EventModel| anonymous(e)) == images(
            views(old(out)@),
            |e: EventModel| anonymous(e),
        ) + instances_within(row@, texts(dates@), start_date@, end_date@),
{
    let ghost f = |e: EventModel| anonymous(e);
    let ghost base = images(views(out@), f);
    let mut k: usize = 0;
    assert(texts(dates@).take(0) =~= Seq::<Seq<char>>::empty());
    assert(base + Seq::<EventModel>::empty() =~= base);
    while k < dates.len()
        invariant
            k <= dates@.len(),
            row@.recurring is Some,
            f == (|e: EventModel| anonymous(e)),
            images(views(out@), f) == base + instances_within(
                row@,
                texts(dates@).take(k as int),
                start_date@,
                end_date@,
            ),
        decreases dates@.len() - k,
    {
        let ghost before = images(views(out@), f);
        let ghost so_far = instances_within(
            row@,
            texts(dates@).take(k as int),
            start_date@,
            end_date@,
        );
        proof {
            let upto = texts(dates@).take(k as int + 1);
            assert(upto.drop_last() =~= texts(dates@).take(k as int));
            assert(upto.last() == dates@[k as int]@);
        }
        if str_between(dates[k].as_str(), start_date, end_date) {
            let mut instance = row.duplicate();
            instance.date = dates[k].clone();
            instance.id = fresh_id();
            proof {
                assert(anonymous(instance@) == instance_on(row@, dates@[k as int]@));
            }
            out.push(instance);
            proof {
                assert(images(views(out@), f) =~= before.push(
                    instance_on(row@, dates@[k as int]@),
                ));
                assert(before.push(instance_on(row@, dates@[k as int]@)) =~= base + so_far.push(
                    instance_on(row@, dates@[k as int]@),
                ));
            }
        }
        k += 1;
    }
    assert(texts(dates@).take(k as int) =~= texts(dates@));
}

/// The events of a date range before they are sorted: row after row, a
/// recurring row expanded into its instances within the range, any other
/// row kept where its date lies within it.
pub fn expand_range(rows: &Vec<CalendarEvent>, start_date: &str, end_date: &str) -> (out: Vec<
    CalendarEvent,
>)
    ensures
        images(views(out@), |e: EventModel| anonymous(e)) == range_instances(
            views(rows@),
            start_date@,
            end_date@,
        ),
{
    let ghost f = |e: EventModel| anonymous(e);
    let mut out: Vec<CalendarEvent> = Vec::new();
    let mut i: usize = 0;
    assert(views(rows@).take(0) =~= Seq::<EventModel>::empty());
    assert(images(views(out@), f) =~= Seq::<EventModel>::empty());
    while i < rows.len()
        invariant
            i <= rows@.len(),
            f == (|e: EventModel| anonymous(e)),
            images(views(out@), f) == range_instances(
                views(rows@).take(i as int),
                start_date@,
                end_date@,
            ),
        decreases rows@.len() - i,
    {
        let ghost before = images(views(out@), f);
        proof {
            let upto = views(rows@).take(i as int + 1);
            assert(upto.drop_last() =~= views(rows@).take(i as int));
            assert(upto.last() == rows@[i as int]@);
        }
        let row = &rows[i];
        match &row.recurring {
            Some(rule) => {
                let dates = rule.generate_occurrences(
                    row.date.as_str(),
                    Some(RANGE_OCCURRENCE_LIMIT),
                );
                push_instances(&mut out, row, dates, start_date, end_date);
            },
            None => {
                if str_between(row.date.as_str(), start_date, end_date) {
                    out.push(row.duplicate());
                    assert(images(views(out@), f) =~= before + seq![row@]);
                } else {
                    assert(before + Seq::<EventModel>::empty() =~= before);
                }
            },
        }
        i += 1;
    }
    assert(views(rows@).take(i as int) =~= views(rows@));
    out
}

/// The events of the closed date range from `start_date` to `end_date`,
/// flattened, expanded and sorted: every base row that does not recur and
/// is dated within the range, and for every recurring row one instance per
/// occurrence date within the range, with a newly minted identifier. The
/// result is ordered by date and then by time, an event without a time
/// being ordered as one at `00:00`.
pub fn get_by_date_range(rows: &Vec<CalendarEvent>, start_date: &str, end_date: &str) -> (out: Vec<
    CalendarEvent,
>)
    ensures
        sorted(views(out@), true),
        images(views(out@), |e: EventModel| anonymous(e)).to_multiset() == range_instances(
            views(rows@),
            start_date@,
            end_date@,
        ).to_multiset(),
        forall|i: int|
            0 <= i < out@.len() ==> text_between((#[trigger] out@[i])@.date, start_date@, end_date@),
{
    let ghost f = |e: EventModel| anonymous(e);
    let all = expand_range(rows, start_date, end_date);
    let out = sort_events_with(all, true, Ghost(f));
    proof {
        broadcast use vstd::seq_lib::to_multiset_contains;

        let wanted = range_instances(views(rows@), start_date@, end_date@);
        let shown = images(views(out@), f);
        assert forall|i: int| 0 <= i < out@.len() implies text_between(
            (#[trigger] out@[i])@.date,
            start_date@,
            end_date@,
        ) by {
            assert(shown[i] == anonymous(out@[i]@));
            assert(shown.contains(shown[i]));
            assert(wanted.to_multiset().count(shown[i]) > 0);
            assert(wanted.contains(shown[i]));
            let k = choose|k: int| 0 <= k < wanted.len() && wanted[k] == shown[i];
            range_instances_lie_within(views(rows@), start_date@, end_date@, k);
        }
    }
    out
}

/// The identifiers of the events that conflict with `event`: the other
/// rows of its day whose time window overlaps its own. An event without a
/// start or an end time conflicts with nothing, and windows that only
/// touch do not overlap.
pub fn check_conflicts(event: &CalendarEvent, rows: &Vec<CalendarEvent>) -> (out: Vec<String>)
    ensures
        texts(out@) == conflicting_ids(event@, views(rows@)),
        !is_timed(event@) ==> out@.len() == 0,
{
    let mut out: Vec<String> = Vec::new();
    assert(texts(out@) =~= Seq::<Seq<char>>::empty());
    match (&event.time, &event.end_time) {
        (Some(start), Some(end)) => {
            let mut i: usize = 0;
            assert(views(rows@).take(0) =~= Seq::<EventModel>::empty());
            while i < rows.len()
                invariant
                    i <= rows@.len(),
                    event.time == Some(*start),
                    event.end_time == Some(*end),
                    texts(out@) == conflicting_ids(event@, views(rows@).take(i as int)),
                decreases rows@.len() - i,
            {
                let ghost before = texts(out@);
                proof {
                    let upto = views(rows@).take(i as int + 1);
                    assert(upto.drop_last() =~= views(rows@).take(i as int));
                    assert(upto.last() == rows@[i as int]@);
                }
                let other = &rows[i];
                let overlapping: bool = match (&other.time, &other.end_time) {
                    (Some(other_start), Some(other_end)) => str_eq(
                        other.date.as_str(),
                        event.date.as_str(),
                    ) && !str_eq(other.id.as_str(), event.id.as_str()) && str_lt(
                        start.as_str(),
                        other_end.as_str(),
                    ) && str_lt(other_start.as_str(), end.as_str()),
                    _ => false,
                };
                if overlapping {
                    out.push(other.id.clone());
                    assert(texts(out@) =~= before.push(other@.id));
                }
                i += 1;
            }
            assert(views(rows@).take(i as int) =~= views(rows@));
        },
        _ => {
            proof {
                untimed_events_never_conflict(event@, views(rows@));
            }
        },
    }
    out
}

} // verus!
