//! The order of events by date and time, and a sort that establishes it.

use vstd::prelude::*;
use vstd::utf8::encode_utf8;
use crate::event::{views, CalendarEvent, EventModel};
use crate::text::{bytes_lt, str_eq, str_lt, text_lt};

verus! {

/// What events are ordered by: the date, then the time.
pub struct SortKey {
    pub date: Seq<char>,
    pub time: Option<Seq<char>>,
}

/// The order of two times that may be absent: an absent time comes before
/// every time.
pub open spec fn time_lt(a: Option<Seq<char>>, b: Option<Seq<char>>) -> bool {
    match (a, b) {
        (None, Some(_)) => true,
        (Some(x), Some(y)) => text_lt(x, y),
        _ => false,
    }
}

/// The order of two keys: by date, and by time on one date.
pub open spec fn key_lt(a: SortKey, b: SortKey) -> bool {
    text_lt(a.date, b.date) || (a.date == b.date && time_lt(a.time, b.time))
}

/// The time that an event is ordered by: its own, and for an event without
/// one either nothing or, where `midnight` is set, `00:00`.
pub open spec fn sort_time(e: EventModel, midnight: bool) -> Option<Seq<char>> {
    match e.time {
        Some(t) => Some(t),
        None => if midnight { Some("00:00"@) } else { None },
    }
}

/// The key of an event.
pub open spec fn sort_key(e: EventModel, midnight: bool) -> SortKey {
    SortKey { date: e.date, time: sort_time(e, midnight) }
}

/// `a` comes strictly before `b`.
pub open spec fn precedes(a: EventModel, b: EventModel, midnight: bool) -> bool {
    key_lt(sort_key(a, midnight), sort_key(b, midnight))
}

/// No event of the sequence comes strictly before an earlier one.
pub open spec fn sorted(events: Seq<EventModel>, midnight: bool) -> bool {
    forall|i: int, j: int|
        0 <= i < j < events.len() ==> !precedes(#[trigger] events[j], #[trigger] events[i], midnight)
}

/// The images of a sequence of events under `f`.
pub open spec fn images(events: Seq<EventModel>, f: spec_fn(EventModel) -> EventModel) -> Seq<
    EventModel,
> {
    Seq::new(events.len(), |i: int| f(events[i]))
}

/// Of two byte strings at most one sorts before the other.
pub proof fn bytes_lt_is_asymmetric(a: Seq<u8>, b: Seq<u8>)
    requires
        bytes_lt(a, b),
    ensures
        !bytes_lt(b, a),
    decreases a.len(),
{
    if a.len() > 0 && b.len() > 0 && a[0] == b[0] {
        bytes_lt_is_asymmetric(a.skip(1), b.skip(1));
    }
}

/// A byte string before `b` is before every byte string that `b` does not
/// follow.
pub proof fn bytes_lt_chains(a: Seq<u8>, b: Seq<u8>, c: Seq<u8>)
    requires
        bytes_lt(a, b),
        !bytes_lt(c, b),
    ensures
        bytes_lt(a, c),
    decreases a.len(),
{
    if a.len() > 0 && b.len() > 0 && c.len() > 0 && a[0] == b[0] && c[0] == b[0] {
        bytes_lt_chains(a.skip(1), b.skip(1), c.skip(1));
    }
}

/// Two byte strings of which neither sorts before the other are the same.
pub proof fn bytes_lt_is_total(a: Seq<u8>, b: Seq<u8>)
    requires
        !bytes_lt(a, b),
        !bytes_lt(b, a),
    ensures
        a == b,
    decreases a.len(),
{
    if a.len() > 0 && b.len() > 0 {
        bytes_lt_is_total(a.skip(1), b.skip(1));
        assert(a =~= seq![a[0]] + a.skip(1));
        assert(b =~= seq![b[0]] + b.skip(1));
    }
    assert(a =~= b);
}

/// Two texts of which neither sorts before the other are the same text.
pub proof fn text_lt_is_total(a: Seq<char>, b: Seq<char>)
    requires
        !text_lt(a, b),
        !text_lt(b, a),
    ensures
        a == b,
{
    bytes_lt_is_total(encode_utf8(a), encode_utf8(b));
    vstd::utf8::encode_utf8_decode_utf8(a);
    vstd::utf8::encode_utf8_decode_utf8(b);
}

/// No text sorts before itself.
pub proof fn text_lt_is_irreflexive(a: Seq<char>)
    ensures
        !text_lt(a, a),
{
    if text_lt(a, a) {
        bytes_lt_is_asymmetric(encode_utf8(a), encode_utf8(a));
    }
}

/// Of two keys at most one comes before the other.
pub proof fn key_lt_is_asymmetric(a: SortKey, b: SortKey)
    requires
        key_lt(a, b),
    ensures
        !key_lt(b, a),
{
    text_lt_is_irreflexive(a.date);
    if text_lt(a.date, b.date) {
        bytes_lt_is_asymmetric(encode_utf8(a.date), encode_utf8(b.date));
    } else {
        match (a.time, b.time) {
            (Some(x), Some(y)) => {
                bytes_lt_is_asymmetric(encode_utf8(x), encode_utf8(y));
            },
            _ => {},
        }
    }
}

/// A key before `b` is before every key that `b` does not follow.
pub proof fn key_lt_chains(a: SortKey, b: SortKey, c: SortKey)
    requires
        key_lt(a, b),
        !key_lt(c, b),
    ensures
        key_lt(a, c),
{
    if text_lt(a.date, b.date) {
        bytes_lt_chains(encode_utf8(a.date), encode_utf8(b.date), encode_utf8(c.date));
    } else if text_lt(b.date, c.date) {
    } else {
        text_lt_is_total(b.date, c.date);
        match (a.time, b.time, c.time) {
            (Some(x), Some(y), Some(z)) => {
                bytes_lt_chains(encode_utf8(x), encode_utf8(y), encode_utf8(z));
            },
            _ => {},
        }
    }
}

/// Whether `a` comes strictly before `b`.
pub fn event_before(a: &CalendarEvent, b: &CalendarEvent, midnight: bool) -> (result: bool)
    ensures
        result == precedes(a@, b@, midnight),
{
    if str_lt(a.date.as_str(), b.date.as_str()) {
        return true;
    }
    if !str_eq(a.date.as_str(), b.date.as_str()) {
        return false;
    }
    match (&a.time, &b.time) {
        (Some(x), Some(y)) => str_lt(x.as_str(), y.as_str()),
        (Some(x), None) => midnight && str_lt(x.as_str(), "00:00"),
        (None, Some(y)) => !midnight || str_lt("00:00", y.as_str()),
        (None, None) => {
            proof {
                text_lt_is_irreflexive("00:00"@);
            }
            false
        },
    }
}

/// Sorts events by date and time. Whatever `f` is, the images of the
/// events under it are the same before and after, each as often.
pub(crate) fn sort_events_with(
    events: Vec<CalendarEvent>,
    midnight: bool,
    Ghost(f): Ghost<spec_fn(EventModel) -> EventModel>,
) -> (out: Vec<CalendarEvent>)
    ensures
        sorted(views(out@), midnight),
        images(views(out@), f).to_multiset() == images(views(events@), f).to_multiset(),
        views(out@).to_multiset() == views(events@).to_multiset(),
{
    broadcast use vstd::seq_lib::to_multiset_contains;

    let mut rest = events;
    let mut out: Vec<CalendarEvent> = Vec::new();
    proof {
        assert(images(views(out@), f) =~= Seq::<EventModel>::empty());
        assert(views(out@) =~= Seq::<EventModel>::empty());
        assert(images(views(out@), f).to_multiset().add(images(views(rest@), f).to_multiset())
            =~= images(views(events@), f).to_multiset());
        assert(views(out@).to_multiset().add(views(rest@).to_multiset()) =~= views(
            events@,
        ).to_multiset());
    }
    while rest.len() > 0
        invariant
            sorted(views(out@), midnight),
            images(views(out@), f).to_multiset().add(images(views(rest@), f).to_multiset())
                == images(views(events@), f).to_multiset(),
            views(out@).to_multiset().add(views(rest@).to_multiset()) == views(
                events@,
            ).to_multiset(),
        decreases rest@.len(),
    {
        let ghost old_rest = rest@;
        let ghost old_out = out@;
        let e = rest.pop().unwrap();
        let mut p: usize = 0;
        while p < out.len() && event_before(&out[p], &e, midnight)
            invariant
                p <= out@.len(),
                forall|k: int| 0 <= k < p ==> precedes(#[trigger] views(out@)[k], e@, midnight),
            decreases out@.len() - p,
        {
            p += 1;
        }
        out.insert(p, e);
        proof {
            let before = views(old_out);
            let after = views(out@);
            assert(after =~= before.insert(p as int, e@));
            assert(views(old_rest) =~= views(rest@).push(e@));
            assert(images(after, f) =~= images(before, f).insert(p as int, f(e@)));
            assert(images(views(old_rest), f) =~= images(views(rest@), f).push(f(e@)));
            vstd::seq_lib::to_multiset_insert(before, p as int, e@);
            vstd::seq_lib::to_multiset_build(views(rest@), e@);
            vstd::seq_lib::to_multiset_insert(images(before, f), p as int, f(e@));
            vstd::seq_lib::to_multiset_build(images(views(rest@), f), f(e@));
            assert(images(after, f).to_multiset().add(images(views(rest@), f).to_multiset())
                =~= images(views(events@), f).to_multiset());
            assert(after.to_multiset().add(views(rest@).to_multiset()) =~= views(
                events@,
            ).to_multiset());
            assert forall|i: int, j: int| 0 <= i < j < after.len() implies !precedes(
                #[trigger] after[j],
                #[trigger] after[i],
                midnight,
            ) by {
                let ki = sort_key(after[i], midnight);
                let kj = sort_key(after[j], midnight);
                let ke = sort_key(e@, midnight);
                if j == p {
                    assert(after[i] == before[i]);
                    key_lt_is_asymmetric(ki, ke);
                } else if i == p {
                    assert(after[j] == before[j - 1]);
                    if j - 1 > p {
                        assert(!precedes(before[j - 1], before[p as int], midnight));
                    }
                    if key_lt(kj, ke) {
                        let kp = sort_key(before[p as int], midnight);
                        key_lt_chains(kj, ke, kp);
                    }
                } else {
                    let bi = if i < p { i } else { i - 1 };
                    let bj = if j < p { j } else { j - 1 };
                    assert(after[i] == before[bi]);
                    assert(after[j] == before[bj]);
                    assert(!precedes(before[bj], before[bi], midnight));
                }
            }
        }
    }
    proof {
        assert(images(views(rest@), f) =~= Seq::<EventModel>::empty());
        assert(views(rest@) =~= Seq::<EventModel>::empty());
        assert(images(views(out@), f).to_multiset() =~= images(views(events@), f).to_multiset());
        assert(views(out@).to_multiset() =~= views(events@).to_multiset());
    }
    out
}

/// Sorts events by date and time: the result holds the same events, each
/// as often, and none of them comes before an earlier one. An event
/// without a time is ordered as one at `00:00` where `midnight` is set, and
/// before every event with a time on its date where it is not.
pub fn sort_events(events: Vec<CalendarEvent>, midnight: bool) -> (out: Vec<CalendarEvent>)
    ensures
        sorted(views(out@), midnight),
        views(out@).to_multiset() == views(events@).to_multiset(),
{
    sort_events_with(events, midnight, Ghost(|e: EventModel| e))
}

} // verus!
