use chrono::{Datelike, NaiveDate};
use mudzidzi::streak::{compute_streak, is_strictly_descending, StudyDate, MAX_DAY, MIN_DAY, UNIX_EPOCH_DAY};

fn date(y: i32, m: u32, d: u32) -> StudyDate {
    let day = NaiveDate::from_ymd_opt(y, m, d).unwrap().num_days_from_ce();
    StudyDate::from_days_from_ce(day).unwrap()
}

#[test]
fn empty_history_has_no_streak() {
    assert_eq!(compute_streak(&[], date(2026, 6, 27)), 0);
}

#[test]
fn studied_today_only() {
    let dates = vec![date(2026, 6, 27)];
    assert_eq!(compute_streak(&dates, date(2026, 6, 27)), 1);
}

#[test]
fn consecutive_days_including_today() {
    let dates = vec![date(2026, 6, 27), date(2026, 6, 26), date(2026, 6, 25)];
    assert_eq!(compute_streak(&dates, date(2026, 6, 27)), 3);
}

#[test]
fn streak_continues_if_not_yet_studied_today() {
    let dates = vec![date(2026, 6, 26), date(2026, 6, 25)];
    assert_eq!(compute_streak(&dates, date(2026, 6, 27)), 2);
}

#[test]
fn gap_breaks_the_streak() {
    let dates = vec![date(2026, 6, 27), date(2026, 6, 25)];
    assert_eq!(compute_streak(&dates, date(2026, 6, 27)), 1);
}

#[test]
fn stale_history_has_no_current_streak() {
    let dates = vec![date(2026, 6, 1)];
    assert_eq!(compute_streak(&dates, date(2026, 6, 27)), 0);
}

#[test]
fn calendar_bounds_match_chrono() {
    assert_eq!(NaiveDate::MIN.num_days_from_ce(), MIN_DAY);
    assert_eq!(NaiveDate::MAX.num_days_from_ce(), MAX_DAY);
    assert!(StudyDate::from_days_from_ce(MIN_DAY - 1).is_none());
    assert!(StudyDate::from_days_from_ce(MAX_DAY + 1).is_none());
    assert_eq!(date(2026, 6, 27).days_from_ce(), 739794);
    assert_eq!(date(1970, 1, 1).days_from_ce(), UNIX_EPOCH_DAY);
}

#[test]
fn previous_day_follows_chrono() {
    let d = date(2026, 3, 1);
    assert_eq!(d.previous(), date(2026, 2, 28));
    let first = StudyDate::from_days_from_ce(MIN_DAY).unwrap();
    assert!(NaiveDate::MIN.pred_opt().is_none());
    assert_eq!(first.previous(), first);
}

#[test]
fn streak_crosses_month_and_year_boundaries() {
    let dates = vec![date(2026, 1, 1), date(2025, 12, 31), date(2025, 12, 30), date(2025, 12, 28)];
    assert_eq!(compute_streak(&dates, date(2026, 1, 1)), 3);
    assert_eq!(compute_streak(&dates, date(2026, 1, 2)), 3);
    assert_eq!(compute_streak(&dates, date(2026, 1, 3)), 0);
}

#[test]
fn later_days_are_passed_over_after_the_first_match() {
    // Out of order input: a day later than the one expected is skipped.
    let dates = vec![date(2026, 6, 27), date(2026, 6, 28), date(2026, 6, 26)];
    assert_eq!(compute_streak(&dates, date(2026, 6, 27)), 2);
}

#[test]
fn a_future_first_day_gives_no_streak() {
    let dates = vec![date(2026, 6, 28), date(2026, 6, 27)];
    assert_eq!(compute_streak(&dates, date(2026, 6, 27)), 0);
}

#[test]
fn streak_at_the_start_of_the_calendar() {
    let first = StudyDate::from_days_from_ce(MIN_DAY).unwrap();
    let second = StudyDate::from_days_from_ce(MIN_DAY + 1).unwrap();
    assert_eq!(compute_streak(&[second, first], second), 2);
    assert_eq!(compute_streak(&[first], second), 1);
}

#[test]
fn long_run_counts_every_day() {
    let today = date(2026, 6, 27).days_from_ce();
    let dates: Vec<StudyDate> =
        (0..400).map(|k| StudyDate::from_days_from_ce(today - k).unwrap()).collect();
    assert_eq!(compute_streak(&dates, date(2026, 6, 27)), 400);
    assert_eq!(compute_streak(&dates[1..], date(2026, 6, 27)), 399);
}

#[test]
fn current_streak_is_taken_today() {
    let today = chrono::Utc::now().date_naive();
    let d = |n: u64| {
        let day = today.checked_sub_days(chrono::Days::new(n)).unwrap().num_days_from_ce();
        StudyDate::from_days_from_ce(day).unwrap()
    };
    let (streak, taken_on) = mudzidzi::streak::current_streak(&[d(0), d(1), d(2), d(4)]);
    if taken_on == d(0) {
        assert_eq!(streak, 3);
    }
    let before = chrono::Utc::now().date_naive().num_days_from_ce();
    let t = StudyDate::today().days_from_ce();
    let after = chrono::Utc::now().date_naive().num_days_from_ce();
    assert!(before <= t && t <= after);
}

fn shifted(dates: &[StudyDate], n: i32) -> Vec<StudyDate> {
    dates.iter().map(|d| StudyDate::from_days_from_ce(d.days_from_ce() + n).unwrap()).collect()
}

#[test]
fn shifting_every_date_keeps_the_streak() {
    let dates = vec![date(2026, 1, 1), date(2025, 12, 31), date(2025, 12, 30), date(2025, 12, 28)];
    for today in [date(2026, 1, 1), date(2026, 1, 2), date(2026, 1, 3)] {
        for n in [-800_000, -365, -1, 1, 59, 100_000] {
            let moved_today = StudyDate::from_days_from_ce(today.days_from_ce() + n).unwrap();
            assert_eq!(
                compute_streak(&shifted(&dates, n), moved_today),
                compute_streak(&dates, today)
            );
        }
    }
    // Down to the first day of the calendar.
    let first = date(2025, 12, 28).days_from_ce() - MIN_DAY;
    let moved_today = StudyDate::from_days_from_ce(date(2026, 1, 2).days_from_ce() - first).unwrap();
    assert_eq!(compute_streak(&shifted(&dates, -first), moved_today), 3);
}

#[test]
fn studying_today_extends_yesterdays_streak() {
    let dates = vec![date(2026, 6, 26), date(2026, 6, 25), date(2026, 6, 23)];
    let today = date(2026, 6, 27);
    let before = compute_streak(&dates, today);
    assert_eq!(before, 2);
    let mut extended = vec![today];
    extended.extend_from_slice(&dates);
    assert_eq!(compute_streak(&extended, today), before + 1);
}

#[test]
fn descending_order_is_recognised() {
    assert!(is_strictly_descending(&[]));
    assert!(is_strictly_descending(&[date(2026, 6, 27)]));
    assert!(is_strictly_descending(&[date(2026, 6, 27), date(2026, 6, 26), date(2025, 1, 1)]));
    assert!(!is_strictly_descending(&[date(2026, 6, 27), date(2026, 6, 27)]));
    assert!(!is_strictly_descending(&[date(2026, 6, 27), date(2026, 6, 20), date(2026, 6, 21)]));
}

#[test]
fn repeated_first_days_all_count() {
    let first = StudyDate::from_days_from_ce(MIN_DAY).unwrap();
    assert_eq!(compute_streak(&[first, first, first], first), 3);
}
