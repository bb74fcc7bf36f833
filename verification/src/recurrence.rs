//! Repeat rules and their expansion into the dates on which an event occurs.

use vstd::prelude::*;
use crate::dates::{is_calendar_day, Date};
use crate::models::RecurrenceFrequency;
use crate::text::{contains_text, copy_opt_text, copy_texts, opt_text, texts};

verus! {

/// The number of occurrences generated where the caller gives no limit.
pub const DEFAULT_OCCURRENCE_LIMIT: u32 = 365;

/// A repeat rule: how an event recurs from its anchor date on.
#[derive(Debug, Clone, PartialEq, Eq)]
pub struct RecurrenceConfig {
    pub frequency: RecurrenceFrequency,
    pub interval: u32,
    pub days_of_week: Vec<u8>,
    pub end_date: Option<String>,
    pub occurrences: Option<u32>,
    pub except_dates: Vec<String>,
}

/// The mathematical content of a repeat rule.
pub struct RecurrenceRule {
    pub frequency: RecurrenceFrequency,
    pub interval: u32,
    pub days_of_week: Seq<u8>,
    pub end_date: Option<Seq<char>>,
    pub occurrences: Option<u32>,
    pub except_dates: Seq<Seq<char>>,
}

/// How a search for the next pinned weekday ended.
#[derive(Debug, Clone, Copy, PartialEq, Eq, Structural)]
pub enum Scan {
    /// The first later date whose weekday the rule names.
    Found(Date),
    /// No such date within the steps allowed.
    Exhausted,
    /// The calendar ended before one was found.
    OffCalendar,
}

impl View for RecurrenceConfig {
    type V = RecurrenceRule;

    open spec fn view(&self) -> RecurrenceRule {
        RecurrenceRule {
            frequency: self.frequency,
            interval: self.interval,
            days_of_week: self.days_of_week@,
            end_date: opt_text(self.end_date),
            occurrences: self.occurrences,
            except_dates: texts(self.except_dates@),
        }
    }
}

/// The most occurrences that an expansion may yield: the caller's limit, or
/// the default where there is none, lowered to the rule's own cap.
pub open spec fn occurrence_cap(rule: RecurrenceRule, limit: Option<u32>) -> u32 {
    let bound = match limit {
        Some(n) => n,
        None => DEFAULT_OCCURRENCE_LIMIT,
    };
    match rule.occurrences {
        Some(cap) => if cap < bound { cap } else { bound },
        None => bound,
    }
}

/// The last date on which the rule may fire, where its end date reads as one.
pub open spec fn cutoff(rule: RecurrenceRule) -> Option<Date> {
    match rule.end_date {
        Some(t) => Date::parsed(t),
        None => None,
    }
}

/// Whether the weekday numbers of a rule hold `weekday`.
pub open spec fn names_weekday(days: Seq<u8>, weekday: u32) -> bool {
    exists|i: int| 0 <= i < days.len() && days[i] as u32 == weekday
}

/// Year and month reached from `month` of `year` after `interval` months.
pub open spec fn month_after(year: int, month: int, interval: int) -> (int, int) {
    (year + (month - 1 + interval) / 12, (month - 1 + interval) % 12 + 1)
}

/// The day of `cur` in another month and year, where that day exists.
pub open spec fn same_day_in(cur: Date, year: int, month: int) -> Option<Date> {
    if is_calendar_day(year, month, cur.day as int) {
        Some(Date { year: year as i32, month: month as u32, day: cur.day })
    } else {
        None
    }
}

/// The search, day by day and at most `steps` days on from `cur`, for a date
/// whose weekday is among `days`.
pub open spec fn scan_weekdays(days: Seq<u8>, cur: Date, steps: nat) -> Scan
    decreases steps,
{
    if steps == 0 {
        Scan::Exhausted
    } else {
        match cur.next_day() {
            None => Scan::OffCalendar,
            Some(next) => if names_weekday(days, next.weekday()) {
                Scan::Found(next)
            } else {
                scan_weekdays(days, next, (steps - 1) as nat)
            },
        }
    }
}

/// The candidate date that follows `cur` under the rule, or nothing where
/// the rule defines no step or the calendar has no such date.
pub open spec fn next_candidate(rule: RecurrenceRule, cur: Date) -> Option<Date> {
    match rule.frequency {
        RecurrenceFrequency::Daily => cur.plus_days(rule.interval as nat),
        RecurrenceFrequency::Weekly => if rule.days_of_week.len() == 0 {
            cur.plus_days((7 * rule.interval) as nat)
        } else {
            match scan_weekdays(rule.days_of_week, cur, (7 * rule.interval) as nat) {
                Scan::Found(d) => Some(d),
                Scan::Exhausted => cur.plus_days((7 * rule.interval) as nat),
                Scan::OffCalendar => None,
            }
        },
        RecurrenceFrequency::Biweekly => cur.plus_days((14 * rule.interval) as nat),
        RecurrenceFrequency::Monthly => {
            let target = month_after(cur.year as int, cur.month as int, rule.interval as int);
            match same_day_in(cur, target.0, target.1) {
                Some(d) => Some(d),
                None => cur.plus_days((30 * rule.interval) as nat),
            }
        },
        RecurrenceFrequency::Yearly => match same_day_in(
            cur,
            cur.year + rule.interval,
            cur.month as int,
        ) {
            Some(d) => Some(d),
            None => cur.plus_days((365 * rule.interval) as nat),
        },
        RecurrenceFrequency::Never => None,
        RecurrenceFrequency::Custom => None,
    }
}

/// The dates emitted from the candidate `cur` on while `remaining` more may
/// be emitted: nothing once `cur` lies after the cutoff; else `cur` itself
/// unless it is excepted, then the walk from the next candidate. The walk
/// ends where there is no next candidate or it is not a later date.
pub open spec fn walk(rule: RecurrenceRule, last: Option<Date>, cur: Date, remaining: nat) -> Seq<
    Seq<char>,
>
    decreases cur.days_ahead(),
{
    if remaining == 0 || !cur.wf() {
        Seq::empty()
    } else if last is Some && cur.later_than(last->0) {
        Seq::empty()
    } else {
        let emitted = !rule.except_dates.contains(cur.iso_text());
        let head = if emitted { seq![cur.iso_text()] } else { Seq::empty() };
        let left = if emitted { (remaining - 1) as nat } else { remaining };
        match next_candidate(rule, cur) {
            Some(next) => if next.wf() && next.later_than(cur) {
                head + walk(rule, last, next, left)
            } else {
                head
            },
            None => head,
        }
    }
}

/// The occurrence dates of a rule anchored at `anchor`, in order. A rule
/// that never repeats, or an anchor that is no date, yields the anchor alone.
pub open spec fn occurrences_of(rule: RecurrenceRule, anchor: Seq<char>, limit: Option<u32>) -> Seq<
    Seq<char>,
> {
    if rule.frequency == RecurrenceFrequency::Never {
        seq![anchor]
    } else {
        match Date::parsed(anchor) {
            None => seq![anchor],
            Some(start) => walk(rule, cutoff(rule), start, occurrence_cap(rule, limit) as nat),
        }
    }
}

/// The dates that a walk emits, as dates: `walk` gives their ISO texts.
pub open spec fn walk_dates(rule: RecurrenceRule, last: Option<Date>, cur: Date, remaining: nat) -> Seq<
    Date,
>
    decreases cur.days_ahead(),
{
    if remaining == 0 || !cur.wf() {
        Seq::empty()
    } else if last is Some && cur.later_than(last->0) {
        Seq::empty()
    } else {
        let emitted = !rule.except_dates.contains(cur.iso_text());
        let head = if emitted { seq![cur] } else { Seq::empty() };
        let left = if emitted { (remaining - 1) as nat } else { remaining };
        match next_candidate(rule, cur) {
            Some(next) => if next.wf() && next.later_than(cur) {
                head + walk_dates(rule, last, next, left)
            } else {
                head
            },
            None => head,
        }
    }
}

/// The texts of a walk are the ISO texts of its dates, one for one.
pub proof fn walk_writes_its_dates(rule: RecurrenceRule, last: Option<Date>, cur: Date, remaining: nat)
    ensures
        walk(rule, last, cur, remaining).len() == walk_dates(rule, last, cur, remaining).len(),
        forall|i: int|
            0 <= i < walk(rule, last, cur, remaining).len() ==> #[trigger] walk(
                rule,
                last,
                cur,
                remaining,
            )[i] == walk_dates(rule, last, cur, remaining)[i].iso_text(),
    decreases cur.days_ahead(),
{
    if remaining == 0 || !cur.wf() {
    } else if last is Some && cur.later_than(last->0) {
    } else {
        let emitted = !rule.except_dates.contains(cur.iso_text());
        let left = if emitted { (remaining - 1) as nat } else { remaining };
        match next_candidate(rule, cur) {
            Some(next) => if next.wf() && next.later_than(cur) {
                cur.later_is_nearer_the_end(next);
                walk_writes_its_dates(rule, last, next, left);
            },
            None => {},
        }
    }
}

/// Every date of a walk is a day of the calendar on or after the candidate
/// it starts from, and on or before the cutoff where there is one.
pub proof fn walk_stays_in_bounds(
    rule: RecurrenceRule,
    last: Option<Date>,
    cur: Date,
    remaining: nat,
    index: int,
)
    requires
        0 <= index < walk_dates(rule, last, cur, remaining).len(),
    ensures
        walk_dates(rule, last, cur, remaining)[index].wf(),
        !cur.later_than(walk_dates(rule, last, cur, remaining)[index]),
        last matches Some(end) ==> !walk_dates(rule, last, cur, remaining)[index].later_than(end),
    decreases cur.days_ahead(),
{
    if remaining == 0 || !cur.wf() {
    } else if last is Some && cur.later_than(last->0) {
    } else {
        let emitted = !rule.except_dates.contains(cur.iso_text());
        let head = if emitted { seq![cur] } else { Seq::<Date>::empty() };
        let left = if emitted { (remaining - 1) as nat } else { remaining };
        match next_candidate(rule, cur) {
            Some(next) => if next.wf() && next.later_than(cur) {
                if index >= head.len() {
                    cur.later_is_nearer_the_end(next);
                    walk_stays_in_bounds(rule, last, next, left, index - head.len());
                }
            },
            None => {},
        }
    }
}

/// The dates of a walk come in order: each is a later day than the one
/// before it.
pub proof fn walk_ascends(
    rule: RecurrenceRule,
    last: Option<Date>,
    cur: Date,
    remaining: nat,
    i: int,
    j: int,
)
    requires
        0 <= i < j < walk_dates(rule, last, cur, remaining).len(),
    ensures
        walk_dates(rule, last, cur, remaining)[j].later_than(
            walk_dates(rule, last, cur, remaining)[i],
        ),
    decreases cur.days_ahead(),
{
    if remaining == 0 || !cur.wf() {
    } else if last is Some && cur.later_than(last->0) {
    } else {
        let emitted = !rule.except_dates.contains(cur.iso_text());
        let head = if emitted { seq![cur] } else { Seq::<Date>::empty() };
        let left = if emitted { (remaining - 1) as nat } else { remaining };
        match next_candidate(rule, cur) {
            Some(next) => if next.wf() && next.later_than(cur) {
                cur.later_is_nearer_the_end(next);
                if i >= head.len() {
                    walk_ascends(rule, last, next, left, i - head.len(), j - head.len());
                } else {
                    walk_stays_in_bounds(rule, last, next, left, j - head.len());
                }
            },
            None => {},
        }
    }
}

/// A walk emits no more dates than it may.
pub proof fn walk_respects_cap(rule: RecurrenceRule, last: Option<Date>, cur: Date, remaining: nat)
    ensures
        walk(rule, last, cur, remaining).len() <= remaining,
    decreases cur.days_ahead(),
{
    if remaining == 0 || !cur.wf() {
    } else if last is Some && cur.later_than(last->0) {
    } else {
        let emitted = !rule.except_dates.contains(cur.iso_text());
        let left = if emitted { (remaining - 1) as nat } else { remaining };
        match next_candidate(rule, cur) {
            Some(next) => if next.wf() && next.later_than(cur) {
                cur.later_is_nearer_the_end(next);
                walk_respects_cap(rule, last, next, left);
            },
            None => {},
        }
    }
}

/// A walk emits none of the rule's excepted dates.
pub proof fn walk_skips_exceptions(
    rule: RecurrenceRule,
    last: Option<Date>,
    cur: Date,
    remaining: nat,
    index: int,
)
    requires
        0 <= index < walk(rule, last, cur, remaining).len(),
    ensures
        !rule.except_dates.contains(walk(rule, last, cur, remaining)[index]),
    decreases cur.days_ahead(),
{
    if remaining == 0 || !cur.wf() {
    } else if last is Some && cur.later_than(last->0) {
    } else {
        let emitted = !rule.except_dates.contains(cur.iso_text());
        let head = if emitted { seq![cur.iso_text()] } else { Seq::empty() };
        let left = if emitted { (remaining - 1) as nat } else { remaining };
        match next_candidate(rule, cur) {
            Some(next) => if next.wf() && next.later_than(cur) {
                if index >= head.len() {
                    cur.later_is_nearer_the_end(next);
                    walk_skips_exceptions(rule, last, next, left, index - head.len());
                }
            },
            None => {},
        }
    }
}

/// A rule that never repeats yields its anchor alone, whatever else it
/// holds and whatever the limit.
pub proof fn never_yields_the_anchor(rule: RecurrenceRule, anchor: Seq<char>, limit: Option<u32>)
    requires
        rule.frequency == RecurrenceFrequency::Never,
    ensures
        occurrences_of(rule, anchor, limit) == seq![anchor],
{
}

/// No expansion of a repeating rule from a date is longer than the caller's
/// limit or the rule's own cap.
pub proof fn occurrences_respect_cap(rule: RecurrenceRule, anchor: Seq<char>, limit: Option<u32>)
    ensures
        rule.frequency != RecurrenceFrequency::Never && Date::parsed(anchor) is Some ==> {
            &&& occurrences_of(rule, anchor, limit).len() <= occurrence_cap(rule, limit)
            &&& limit matches Some(n) ==> occurrences_of(rule, anchor, limit).len() <= n
            &&& rule.occurrences matches Some(n) ==> occurrences_of(rule, anchor, limit).len()
                <= n
        },
{
    if Date::parsed(anchor) is Some {
        walk_respects_cap(
            rule,
            cutoff(rule),
            Date::parsed(anchor)->0,
            occurrence_cap(rule, limit) as nat,
        );
    }
}

/// Year and month reached from `month` of `year` after `interval` months,
/// the year carried.
pub fn advance_month(year: i32, month: u32, interval: u32) -> (result: (i64, u32))
    ensures
        (result.0 as int, result.1 as int) == month_after(
            year as int,
            month as int,
            interval as int,
        ),
{
    let months: u64 = month as u64 + interval as u64;
    if months == 0 {
        return (year as i64 - 1, 12);
    }
    let total: u64 = months - 1;
    let carried: u64 = total / 12;
    let target: u64 = total % 12 + 1;
    (year as i64 + carried as i64, target as u32)
}

impl Default for RecurrenceConfig {
    fn default() -> (result: RecurrenceConfig)
        ensures
            result@ == (RecurrenceRule {
                frequency: RecurrenceFrequency::Never,
                interval: 1,
                days_of_week: Seq::empty(),
                end_date: None,
                occurrences: None,
                except_dates: Seq::empty(),
            }),
    {
        let result = RecurrenceConfig {
            frequency: RecurrenceFrequency::Never,
            interval: 1,
            days_of_week: Vec::new(),
            end_date: None,
            occurrences: None,
            except_dates: Vec::new(),
        };
        assert(texts(result.except_dates@) =~= Seq::<Seq<char>>::empty());
        result
    }
}

impl RecurrenceConfig {
    /// A copy of the rule.
    pub fn duplicate(&self) -> (result: RecurrenceConfig)
        ensures
            result@ == self@,
    {
        let mut days: Vec<u8> = Vec::new();
        let mut i: usize = 0;
        while i < self.days_of_week.len()
            invariant
                i <= self.days_of_week@.len(),
                days@ == self.days_of_week@.take(i as int),
            decreases self.days_of_week@.len() - i,
        {
            days.push(self.days_of_week[i]);
            assert(self.days_of_week@.take(i as int + 1) =~= self.days_of_week@.take(
                i as int,
            ).push(self.days_of_week@[i as int]));
            i += 1;
        }
        assert(self.days_of_week@.take(i as int) =~= self.days_of_week@);
        let end_date = copy_opt_text(&self.end_date);
        assert(end_date matches Some(t) ==> opt_text(end_date) == Some(t@));
        RecurrenceConfig {
            frequency: self.frequency,
            interval: self.interval,
            days_of_week: days,
            end_date,
            occurrences: self.occurrences,
            except_dates: copy_texts(&self.except_dates),
        }
    }

    /// Whether the rule's weekday numbers hold `weekday`.
    pub fn pins_weekday(&self, weekday: u32) -> (result: bool)
        ensures
            result == names_weekday(self@.days_of_week, weekday),
    {
        let mut i: usize = 0;
        while i < self.days_of_week.len()
            invariant
                i <= self.days_of_week@.len(),
                forall|k: int| 0 <= k < i ==> self.days_of_week@[k] as u32 != weekday,
            decreases self.days_of_week@.len() - i,
        {
            if self.days_of_week[i] as u32 == weekday {
                return true;
            }
            i += 1;
        }
        false
    }

    /// The most occurrences that an expansion under `limit` may yield.
    pub fn cap(&self, limit: Option<u32>) -> (result: u32)
        ensures
            result == occurrence_cap(self@, limit),
    {
        let bound: u32 = match limit {
            Some(n) => n,
            None => DEFAULT_OCCURRENCE_LIMIT,
        };
        match self.occurrences {
            Some(cap) => if cap < bound { cap } else { bound },
            None => bound,
        }
    }

    /// The day of `cur` in `month` of `year`, where that day exists.
    pub fn day_in_month(cur: &Date, year: i64, month: u32) -> (result: Option<Date>)
        ensures
            result == same_day_in(*cur, year as int, month as int),
    {
        if year < i32::MIN as i64 || year > i32::MAX as i64 {
            return None;
        }
        if Date::exists_with_chrono(year as i32, month, cur.day) {
            Some(Date { year: year as i32, month, day: cur.day })
        } else {
            None
        }
    }

    /// Searches day by day, at most seven days per unit of the interval, for
    /// the next date whose weekday the rule names.
    pub fn scan_for_weekday(&self, cur: &Date) -> (result: Scan)
        ensures
            result == scan_weekdays(self@.days_of_week, *cur, (7 * self.interval) as nat),
            result matches Scan::Found(d) ==> d.wf(),
    {
        let steps: u64 = 7 * (self.interval as u64);
        let mut left: u64 = steps;
        let mut at: Date = *cur;
        while left > 0
            invariant
                steps == 7 * self.interval,
                scan_weekdays(self@.days_of_week, at, left as nat) == scan_weekdays(
                    self@.days_of_week,
                    *cur,
                    steps as nat,
                ),
            decreases left,
        {
            proof {
                at.next_day_is_later();
            }
            match at.following() {
                None => {
                    return Scan::OffCalendar;
                },
                Some(next) => {
                    let pinned: bool = match next.day_of_week() {
                        Some(weekday) => self.pins_weekday(weekday),
                        None => false,
                    };
                    if pinned {
                        return Scan::Found(next);
                    }
                    at = next;
                    left -= 1;
                },
            }
        }
        Scan::Exhausted
    }

    /// The candidate date that follows `cur` under the rule.
    pub fn next_date(&self, cur: &Date) -> (result: Option<Date>)
        ensures
            result == next_candidate(self@, *cur),
            result matches Some(d) ==> d.wf(),
    {
        let interval: u64 = self.interval as u64;
        proof {
            cur.plus_days_is_later(interval as nat);
            cur.plus_days_is_later((7 * interval) as nat);
            cur.plus_days_is_later((14 * interval) as nat);
            cur.plus_days_is_later((30 * interval) as nat);
            cur.plus_days_is_later((365 * interval) as nat);
        }
        match self.frequency {
            RecurrenceFrequency::Daily => cur.days_on(interval),
            RecurrenceFrequency::Weekly => {
                if self.days_of_week.len() == 0 {
                    cur.days_on(7 * interval)
                } else {
                    match self.scan_for_weekday(cur) {
                        Scan::Found(d) => Some(d),
                        Scan::Exhausted => cur.days_on(7 * interval),
                        Scan::OffCalendar => None,
                    }
                }
            },
            RecurrenceFrequency::Biweekly => cur.days_on(14 * interval),
            RecurrenceFrequency::Monthly => {
                let target = advance_month(cur.year, cur.month, self.interval);
                match RecurrenceConfig::day_in_month(cur, target.0, target.1) {
                    Some(d) => Some(d),
                    None => cur.days_on(30 * interval),
                }
            },
            RecurrenceFrequency::Yearly => {
                match RecurrenceConfig::day_in_month(
                    cur,
                    cur.year as i64 + self.interval as i64,
                    cur.month,
                ) {
                    Some(d) => Some(d),
                    None => cur.days_on(365 * interval),
                }
            },
            RecurrenceFrequency::Never => None,
            RecurrenceFrequency::Custom => None,
        }
    }

    /// The last date on which the rule may fire, where its end date reads as
    /// one.
    pub fn last_date(&self) -> (result: Option<Date>)
        ensures
            result == cutoff(self@),
            result matches Some(d) ==> d.wf(),
    {
        match &self.end_date {
            Some(t) => Date::parse_with_chrono(t.as_str()),
            None => None,
        }
    }

    /// The dates emitted from `start` on while `cap` more may be emitted.
    pub fn walk_from(&self, start: Date, cap: u32) -> (result: Vec<String>)
        ensures
            texts(result@) == walk(self@, cutoff(self@), start, cap as nat),
            result@.len() <= cap,
    {
        proof {
            walk_respects_cap(self@, cutoff(self@), start, cap as nat);
        }
        let last = self.last_date();
        let mut out: Vec<String> = Vec::new();
        if start.to_iso().is_none() {
            assert(texts(out@) =~= Seq::<Seq<char>>::empty());
            return out;
        }
        let mut cur: Date = start;
        let mut remaining: u32 = cap;
        let mut done: bool = false;
        assert(texts(out@) =~= Seq::<Seq<char>>::empty());
        assert(texts(out@) + walk(self@, last, cur, remaining as nat) =~= walk(
            self@,
            last,
            start,
            cap as nat,
        ));
        while remaining > 0 && !done
            invariant
                cur.wf(),
                last == cutoff(self@),
                last matches Some(d) ==> d.wf(),
                texts(out@) + (if done {
                    Seq::empty()
                } else {
                    walk(self@, last, cur, remaining as nat)
                }) =~= walk(self@, last, start, cap as nat),
            decreases (if done { 0 } else { cur.days_ahead() + 1 }),
        {
            let ghost before = texts(out@);
            let ghost rest = walk(self@, last, cur, remaining as nat);
            let past: bool = match last {
                Some(end) => cur.is_after(&end),
                None => false,
            };
            if past {
                done = true;
            } else {
                let text = match cur.to_iso() {
                    Some(text) => text,
                    None => String::new(),
                };
                let ghost head;
                if !contains_text(&self.except_dates, text.as_str()) {
                    out.push(text);
                    remaining -= 1;
                    proof {
                        head = seq![cur.iso_text()];
                        assert(texts(out@) =~= before + head);
                    }
                } else {
                    proof {
                        head = Seq::empty();
                        assert(texts(out@) =~= before + head);
                    }
                }
                match self.next_date(&cur) {
                    Some(next) => {
                        if next.is_after(&cur) {
                            proof {
                                cur.later_is_nearer_the_end(next);
                                assert(rest == head + walk(self@, last, next, remaining as nat));
                                assert(before + (head + walk(self@, last, next, remaining as nat))
                                    =~= (before + head) + walk(
                                    self@,
                                    last,
                                    next,
                                    remaining as nat,
                                ));
                            }
                            cur = next;
                        } else {
                            proof {
                                assert(rest == head);
                            }
                            done = true;
                        }
                    },
                    None => {
                        proof {
                            assert(rest == head);
                        }
                        done = true;
                    },
                }
            }
        }
        proof {
            if !done {
                assert(walk(self@, last, cur, 0) =~= Seq::<Seq<char>>::empty());
            }
            assert(texts(out@) + Seq::<Seq<char>>::empty() =~= texts(out@));
        }
        out
    }

    /// The occurrence dates of the rule anchored at `start_date`, in order,
    /// as ISO dates. A rule that never repeats yields the anchor alone,
    /// whatever the limit, and so does an anchor that is no date. Otherwise
    /// the walk emits at most `limit` dates (365 where there is no limit),
    /// and no more than the rule's own cap.
    pub fn generate_occurrences(&self, start_date: &str, limit: Option<u32>) -> (result: Vec<
        String,
    >)
        ensures
            texts(result@) == occurrences_of(self@, start_date@, limit),
            self.frequency == RecurrenceFrequency::Never ==> texts(result@) == seq![start_date@],
            result@.len() <= 1 || result@.len() <= occurrence_cap(self@, limit),
    {
        let parsed = match self.frequency {
            RecurrenceFrequency::Never => None,
            _ => Date::parse_with_chrono(start_date),
        };
        match parsed {
            Some(start) => self.walk_from(start, self.cap(limit)),
            None => {
                let mut out: Vec<String> = Vec::new();
                out.push(start_date.to_owned());
                assert(texts(out@) =~= seq![start_date@]);
                out
            },
        }
    }
}

} // verus!
