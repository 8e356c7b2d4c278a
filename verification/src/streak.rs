//! The consecutive-day study streak of a student.

use chrono::Datelike;
use vstd::prelude::*;

verus! {

/// `num_days_from_ce` of the earliest calendar date (January 1 of year -262143).
pub const MIN_DAY: i32 = -95746129;

/// `num_days_from_ce` of the latest calendar date (December 31 of year 262142).
pub const MAX_DAY: i32 = 95745399;

/// A calendar date, held as its day number counted from the common era
/// (January 1 of year 1 is day 1), the way dates are ordered and stepped.
#[derive(Clone, Copy, Debug, PartialEq, Eq, Structural)]
pub struct StudyDate {
    day: i32,
}

impl StudyDate {
    /// The date lies within the supported calendar.
    #[verifier::type_invariant]
    pub closed spec fn in_calendar(self) -> bool {
        MIN_DAY <= self.day <= MAX_DAY
    }

    /// The day number of the date.
    pub closed spec fn day(self) -> int {
        self.day as int
    }

    /// The date with the given day number, if the calendar has one.
    pub fn from_days_from_ce(day: i32) -> (r: Option<StudyDate>)
        ensures
            r is Some <==> MIN_DAY <= day <= MAX_DAY,
            r matches Some(d) ==> d.day() == day && d.in_calendar(),
    {
        if MIN_DAY <= day && day <= MAX_DAY {
            Some(StudyDate { day })
        } else {
            None
        }
    }

    /// The day number of the date.
    pub fn days_from_ce(&self) -> (d: i32)
        ensures
            d == self.day(),
            MIN_DAY <= d <= MAX_DAY,
    {
        proof {
            use_type_invariant(self);
        }
        self.day
    }

    /// The day before; the earliest date of the calendar has none and stays as it is.
    pub fn previous(&self) -> (p: StudyDate)
        ensures
            p.day() == day_before(self.day()),
    {
        proof {
            use_type_invariant(self);
        }
        StudyDate { day: previous_day(self.day) }
    }
}

/// Day number of January 1, 1970.
pub const UNIX_EPOCH_DAY: i32 = 719163;

/// Today's date in UTC, read with `chrono::Utc::now().date_naive()`. The
/// date is the clock's; what is stated is what chrono's source shows of
/// every date it returns: `Utc::now` panics on a clock set before 1970,
/// and a `NaiveDate` lies within the calendar's range.
#[verifier::external_body]
fn clock_today() -> (d: i32)
    ensures
        UNIX_EPOCH_DAY <= d <= MAX_DAY,
{
    chrono::Utc::now().date_naive().num_days_from_ce()
}

impl StudyDate {
    /// Today's date in UTC.
    pub fn today() -> (d: StudyDate)
        ensures
            d.in_calendar(),
            UNIX_EPOCH_DAY <= d.day() <= MAX_DAY,
    {
        StudyDate { day: clock_today() }
    }
}

/// The day before `d`, or `d` itself at the start of the calendar.
pub open spec fn day_before(d: int) -> int {
    if d > MIN_DAY {
        d - 1
    } else {
        d
    }
}

fn previous_day(d: i32) -> (p: i32)
    ensures
        p == day_before(d as int),
{
    if d > MIN_DAY {
        d - 1
    } else {
        d
    }
}

/// The day numbers of a list of dates.
pub open spec fn days_of(dates: Seq<StudyDate>) -> Seq<int> {
    dates.map_values(|d: StudyDate| d.day())
}

/// Walking the list front to back and expecting the day `expected`: a match
/// counts and moves the expectation one day back, a later day is passed
/// over, an earlier day ends the walk.
pub open spec fn run_from(days: Seq<int>, expected: int) -> nat
    decreases days.len(),
{
    if days.len() == 0 {
        0
    } else if days[0] == expected {
        1 + run_from(days.drop_first(), day_before(expected))
    } else if days[0] < expected {
        0
    } else {
        run_from(days.drop_first(), expected)
    }
}

/// The streak of a list of activity days as seen on day `today`: it is
/// counted back from today when the list starts with today, from yesterday
/// when it starts with yesterday, and is 0 otherwise.
pub open spec fn streak_length(days: Seq<int>, today: int) -> nat {
    if days.len() == 0 {
        0
    } else if days[0] == today {
        run_from(days, today)
    } else if days[0] == day_before(today) {
        run_from(days, day_before(today))
    } else {
        0
    }
}

/// Computes the current consecutive-day study streak from a descending
/// list of distinct activity dates. The streak counts backward from today;
/// if there is no activity yet today, it counts backward from yesterday.
/// The count is an `i32`, so the streak must fit one: it always does for
/// a history of distinct dates (see `streak_fits_calendar`) and for one of
/// at most `i32::MAX` dates.
pub fn compute_streak(dates_desc: &[StudyDate], today: StudyDate) -> (streak: i32)
    requires
        streak_length(days_of(dates_desc@), today.day()) <= i32::MAX,
    ensures
        streak == streak_length(days_of(dates_desc@), today.day()),
        0 <= streak <= dates_desc@.len(),
{
    let ghost days = days_of(dates_desc@);
    let n = dates_desc.len();
    if n == 0 {
        return 0;
    }
    let today_day = today.days_from_ce();
    let yesterday = previous_day(today_day);
    let first = dates_desc[0].days_from_ce();
    assert(days[0] == first);
    let mut expected: i32 = if first == today_day {
        today_day
    } else if first == yesterday {
        yesterday
    } else {
        return 0;
    };
    let ghost anchor = expected as int;
    let mut streak: i32 = 0;
    let mut i: usize = 0;
    assert(days.skip(0) =~= days);
    while i < n
        invariant
            n == dates_desc@.len(),
            days == days_of(dates_desc@),
            days.len() == n,
            i <= n,
            0 <= streak <= i,
            streak + run_from(days.skip(i as int), expected as int) == run_from(days, anchor),
            run_from(days, anchor) == streak_length(days, today.day()),
            streak_length(days, today.day()) <= i32::MAX,
        decreases n - i,
    {
        let date = dates_desc[i].days_from_ce();
        assert(days[i as int] == date);
        assert(days.skip(i as int).drop_first() =~= days.skip(i + 1));
        if date == expected {
            streak = streak + 1;
            expected = previous_day(expected);
        } else if date < expected {
            assert(days.skip(i as int)[0] == date);
            return streak;
        }
        i = i + 1;
    }
    assert(days.skip(n as int) =~= Seq::<int>::empty());
    streak
}

/// The streak as of today (UTC), with the date it was taken on. The
/// streak must fit an `i32` whatever day today is, as it does for a history
/// of distinct dates or of at most `i32::MAX` dates.
pub fn current_streak(dates_desc: &[StudyDate]) -> (r: (i32, StudyDate))
    requires
        forall|t: int|
            UNIX_EPOCH_DAY <= t <= MAX_DAY ==> #[trigger] streak_length(days_of(dates_desc@), t)
                <= i32::MAX,
    ensures
        r.1.in_calendar(),
        UNIX_EPOCH_DAY <= r.1.day() <= MAX_DAY,
        r.0 == streak_length(days_of(dates_desc@), r.1.day()),
{
    let today = StudyDate::today();
    assert(streak_length(days_of(dates_desc@), today.day()) <= i32::MAX);
    (compute_streak(dates_desc, today), today)
}

/// Whether the dates are listed strictly from latest to earliest, each
/// date once.
pub fn is_strictly_descending(dates: &[StudyDate]) -> (r: bool)
    ensures
        r == strictly_descending(days_of(dates@)),
{
    let ghost days = days_of(dates@);
    let n = dates.len();
    if n == 0 {
        return true;
    }
    let mut i: usize = 1;
    while i < n
        invariant
            n == dates@.len(),
            days == days_of(dates@),
            days.len() == n,
            1 <= i <= n,
            forall|a: int, b: int| 0 <= a < b < i ==> days[a] > days[b],
        decreases n - i,
    {
        let later = dates[i].days_from_ce();
        let earlier = dates[i - 1].days_from_ce();
        if earlier <= later {
            assert(days[i - 1] == earlier && days[i as int] == later);
            return false;
        }
        assert forall|a: int, b: int| 0 <= a < b < i + 1 implies days[a] > days[b] by {
            if b == i && a < i - 1 {
                assert(days[a] > days[i - 1]);
            }
        }
        i = i + 1;
    }
    true
}

/// Each day comes strictly before the one listed ahead of it.
pub open spec fn strictly_descending(days: Seq<int>) -> bool {
    forall|i: int, j: int| 0 <= i < j < days.len() ==> days[i] > days[j]
}

/// There is activity `j` days before day `last`.
pub open spec fn active_days_before(days: Seq<int>, last: int, j: int) -> bool {
    days.contains(last - j)
}

/// There is activity on each of the `k` days that end with day `last`.
pub open spec fn active_on_each(days: Seq<int>, last: int, k: int) -> bool {
    forall|j: int| 0 <= j < k ==> #[trigger] active_days_before(days, last, j)
}

/// The day the streak is counted back from: today if there is activity
/// today, yesterday otherwise.
pub open spec fn streak_anchor(days: Seq<int>, today: int) -> int {
    if days.contains(today) {
        today
    } else {
        day_before(today)
    }
}

proof fn lemma_run_is_consecutive(days: Seq<int>, e: int)
    requires
        strictly_descending(days),
        forall|i: int| 0 <= i < days.len() ==> MIN_DAY <= #[trigger] days[i] <= e,
    ensures
        active_on_each(days, e, run_from(days, e) as int),
        !days.contains(e - run_from(days, e)),
    decreases days.len(),
{
    if days.len() == 0 {
    } else {
        let rest = days.drop_first();
        if days[0] == e {
            if e > MIN_DAY {
                assert forall|i: int| 0 <= i < rest.len() implies MIN_DAY <= #[trigger] rest[i] <= e
                    - 1 by {
                    assert(days[0] > days[i + 1]);
                }
                lemma_run_is_consecutive(rest, e - 1);
                let n = run_from(days, e);
                assert(n == 1 + run_from(rest, e - 1));
                assert forall|j: int| 0 <= j < n implies #[trigger] active_days_before(days, e, j) by {
                    if j == 0 {
                        assert(days[0] == e - j);
                    } else {
                        assert(active_days_before(rest, e - 1, j - 1));
                        let k = choose|k: int| 0 <= k < rest.len() && rest[k] == e - 1 - (j - 1);
                        assert(days[k + 1] == e - j);
                    }
                }
                if days.contains(e - n) {
                    let k = choose|k: int| 0 <= k < days.len() && days[k] == e - n;
                    if k == 0 {
                    } else {
                        assert(rest[k - 1] == e - 1 - (n - 1));
                    }
                }
            } else {
                if rest.len() > 0 {
                    assert(days[0] > days[1]);
                }
                assert(rest.len() == 0);
                assert(run_from(rest, day_before(e)) == 0);
                assert forall|j: int| 0 <= j < 1 implies #[trigger] active_days_before(days, e, j) by {
                    assert(days[0] == e - j);
                }
            }
        } else {
            assert forall|k: int| 0 <= k < days.len() implies days[k] != e by {
                if k > 0 {
                    assert(days[0] > days[k]);
                }
            }
        }
    }
}

/// For a strictly descending history with no day after today, the streak
/// is the number of consecutive days with activity that end today, or,
/// with no activity yet today, that end yesterday: each of those days has
/// activity and the day before them has none.
pub proof fn streak_counts_consecutive_active_days(dates: Seq<StudyDate>, today: StudyDate)
    requires
        today.in_calendar(),
        forall|i: int| 0 <= i < dates.len() ==> (#[trigger] dates[i]).in_calendar(),
        strictly_descending(days_of(dates)),
        forall|i: int| 0 <= i < dates.len() ==> (#[trigger] dates[i]).day() <= today.day(),
    ensures
        ({
            let days = days_of(dates);
            let n = streak_length(days, today.day());
            let anchor = streak_anchor(days, today.day());
            active_on_each(days, anchor, n as int) && !days.contains(anchor - n)
        }),
{
    let days = days_of(dates);
    let t = today.day();
    assert forall|i: int| 0 <= i < days.len() implies MIN_DAY <= #[trigger] days[i] <= t by {
        assert(dates[i].in_calendar());
        assert(dates[i].day() <= t);
    }
    if days.len() == 0 {
        assert(!days.contains(day_before(t)));
        assert(!days.contains(t));
    } else if days[0] == t {
        assert(days.contains(t));
        lemma_run_is_consecutive(days, t);
    } else if days[0] == day_before(t) {
        assert(!days.contains(t)) by {
            if days.contains(t) {
                let k = choose|k: int| 0 <= k < days.len() && days[k] == t;
                if k > 0 {
                    assert(days[0] > days[k]);
                }
            }
        }
        assert forall|i: int| 0 <= i < days.len() implies MIN_DAY <= #[trigger] days[i]
            <= day_before(t) by {
            if i > 0 {
                assert(days[0] > days[i]);
            }
        }
        lemma_run_is_consecutive(days, day_before(t));
    } else {
        assert forall|k: int| 0 <= k < days.len() implies days[k] != t && days[k] != day_before(
            t,
        ) by {
            if k > 0 {
                assert(days[0] > days[k]);
            }
        }
    }
}

proof fn lemma_run_within_list(days: Seq<int>, e: int)
    ensures
        run_from(days, e) <= days.len(),
    decreases days.len(),
{
    if days.len() > 0 {
        lemma_run_within_list(days.drop_first(), e);
        lemma_run_within_list(days.drop_first(), day_before(e));
    }
}

proof fn lemma_run_within_calendar(days: Seq<int>, e: int)
    requires
        strictly_descending(days),
        forall|i: int| 0 <= i < days.len() ==> MIN_DAY <= #[trigger] days[i],
        MIN_DAY <= e,
    ensures
        run_from(days, e) <= e - MIN_DAY + 1,
    decreases days.len(),
{
    if days.len() > 0 {
        let rest = days.drop_first();
        assert forall|i: int| 0 <= i < rest.len() implies MIN_DAY <= #[trigger] rest[i] by {
            assert(rest[i] == days[i + 1]);
        }
        assert forall|a: int, b: int| 0 <= a < b < rest.len() implies rest[a] > rest[b] by {
            assert(days[a + 1] > days[b + 1]);
        }
        if days[0] == e {
            if e > MIN_DAY {
                lemma_run_within_calendar(rest, e - 1);
            } else {
                if rest.len() > 0 {
                    assert(days[0] > days[1]);
                }
                assert(run_from(rest, day_before(e)) == 0);
            }
        } else if days[0] > e {
            lemma_run_within_calendar(rest, e);
        }
    }
}

/// A streak never counts more days than the history lists.
pub proof fn streak_within_history(dates: Seq<StudyDate>, today: StudyDate)
    ensures
        streak_length(days_of(dates), today.day()) <= dates.len(),
{
    lemma_run_within_list(days_of(dates), today.day());
    lemma_run_within_list(days_of(dates), day_before(today.day()));
}

/// A history of distinct dates, latest first, has a streak of at most as
/// many days as the calendar holds, so the count always fits an `i32`.
pub proof fn streak_fits_calendar(dates: Seq<StudyDate>, today: StudyDate)
    requires
        today.in_calendar(),
        forall|i: int| 0 <= i < dates.len() ==> (#[trigger] dates[i]).in_calendar(),
        strictly_descending(days_of(dates)),
    ensures
        streak_length(days_of(dates), today.day()) <= MAX_DAY - MIN_DAY + 1,
{
    let days = days_of(dates);
    assert forall|i: int| 0 <= i < days.len() implies MIN_DAY <= #[trigger] days[i] by {
        assert(dates[i].in_calendar());
    }
    lemma_run_within_calendar(days, today.day());
    lemma_run_within_calendar(days, day_before(today.day()));
}

proof fn lemma_run_shifts(days: Seq<int>, shifted: Seq<int>, e: int, n: int)
    requires
        strictly_descending(days),
        shifted.len() == days.len(),
        forall|i: int| 0 <= i < days.len() ==> #[trigger] shifted[i] == days[i] + n,
        forall|i: int| 0 <= i < days.len() ==> MIN_DAY <= #[trigger] days[i],
        forall|i: int| 0 <= i < days.len() ==> MIN_DAY <= #[trigger] shifted[i],
    ensures
        run_from(shifted, e + n) == run_from(days, e),
    decreases days.len(),
{
    if days.len() > 0 {
        let rest = days.drop_first();
        let srest = shifted.drop_first();
        assert forall|i: int| 0 <= i < rest.len() implies #[trigger] srest[i] == rest[i] + n
            && MIN_DAY <= rest[i] && MIN_DAY <= srest[i] by {
            assert(srest[i] == shifted[i + 1] && rest[i] == days[i + 1]);
        }
        assert forall|a: int, b: int| 0 <= a < b < rest.len() implies rest[a] > rest[b] by {
            assert(days[a + 1] > days[b + 1]);
        }
        assert(shifted[0] == days[0] + n);
        if days[0] == e {
            if rest.len() > 0 {
                assert(days[0] > days[1]);
                assert(shifted[1] == days[1] + n);
            }
            if e > MIN_DAY && e + n > MIN_DAY {
                lemma_run_shifts(rest, srest, e - 1, n);
            } else {
                assert(rest.len() == 0);
                assert(run_from(rest, day_before(e)) == 0);
                assert(run_from(srest, day_before(e + n)) == 0);
            }
        } else if days[0] > e {
            lemma_run_shifts(rest, srest, e, n);
        }
    }
}

/// Only how far the dates lie from today matters: moving today and every
/// date of a history of distinct dates by the same number of days keeps
/// the streak, as long as neither today is the first day of the calendar.
pub proof fn streak_is_unchanged_by_shifting(
    dates: Seq<StudyDate>,
    today: StudyDate,
    moved: Seq<StudyDate>,
    moved_today: StudyDate,
    n: int,
)
    requires
        forall|i: int| 0 <= i < dates.len() ==> (#[trigger] dates[i]).in_calendar(),
        forall|i: int| 0 <= i < moved.len() ==> (#[trigger] moved[i]).in_calendar(),
        strictly_descending(days_of(dates)),
        moved.len() == dates.len(),
        forall|i: int| 0 <= i < dates.len() ==> #[trigger] moved[i].day() == dates[i].day() + n,
        moved_today.day() == today.day() + n,
        today.day() > MIN_DAY,
        moved_today.day() > MIN_DAY,
    ensures
        streak_length(days_of(moved), moved_today.day()) == streak_length(
            days_of(dates),
            today.day(),
        ),
{
    let days = days_of(dates);
    let sdays = days_of(moved);
    assert forall|i: int| 0 <= i < days.len() implies #[trigger] sdays[i] == days[i] + n
        && MIN_DAY <= days[i] && MIN_DAY <= sdays[i] by {
        assert(dates[i].in_calendar() && moved[i].in_calendar());
    }
    lemma_run_shifts(days, sdays, today.day(), n);
    lemma_run_shifts(days, sdays, today.day() - 1, n);
}

/// Studying today, after a streak that ended yesterday, extends that
/// streak by one day; the streak that ended yesterday is at least one day.
pub proof fn studying_today_extends_the_streak(dates: Seq<StudyDate>, today: StudyDate)
    requires
        dates.len() > 0,
        today.day() > MIN_DAY,
        dates[0].day() == today.day() - 1,
    ensures
        streak_length(days_of(dates), today.day()) >= 1,
        streak_length(days_of(seq![today] + dates), today.day()) == streak_length(
            days_of(dates),
            today.day(),
        ) + 1,
{
    let days = days_of(dates);
    let ext = days_of(seq![today] + dates);
    assert(ext.drop_first() =~= days);
    assert(ext[0] == today.day());
}

} // verus!
