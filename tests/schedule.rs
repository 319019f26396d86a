use job_schedule::calendar::{
    add_lead, is_weekend, is_workday, skip_weekends_backwards, skip_weekends_forwards, sub_lead,
    Backwards, Date, Forwards, MAX_DAY, MIN_DAY,
};
use job_schedule::job::JobNumber;
use job_schedule::lead_time::{LeadOrDate, LeadTime, LeadTimeLine};
use job_schedule::tentative::{DateTime, Tentative, TentativeError};
use job_schedule::tracker::{Tracker, TrackerState};

fn ymd(year: i32, month: u32, day: u32) -> Date {
    Date::from_ymd(year, month, day).unwrap()
}

fn lead(days: usize) -> LeadTime {
    LeadTime::new(days)
}

fn standard_line() -> LeadTimeLine {
    LeadTimeLine::new(Some(lead(5)), Some(lead(5)), Some(lead(15)), None)
}

#[test]
fn day_numbers_follow_chrono() {
    assert_eq!(ymd(1, 1, 1).days(), 1);
    assert_eq!(ymd(1970, 1, 1).days(), 719_163);
    assert_eq!(ymd(0, 1, 1).days(), -365);
    assert!(Date::from_ymd(2023, 2, 29).is_none());
    assert!(Date::from_ymd(2024, 13, 1).is_none());
    assert_eq!(Date::from_ymd(-262143, 1, 1).unwrap().days(), MIN_DAY);
    assert_eq!(Date::from_ymd(262142, 12, 31).unwrap().days(), MAX_DAY);
    assert!(Date::from_ymd(262143, 1, 1).is_none());
    assert_eq!(Date::from_days(MAX_DAY + 1), None);
    assert_eq!(Date::from_days(42).unwrap().days(), 42);
}

#[test]
fn weekends() {
    // 2024-01-06 is a Saturday.
    assert!(is_weekend(ymd(2024, 1, 6)));
    assert!(is_weekend(ymd(2024, 1, 7)));
    assert!(is_workday(ymd(2024, 1, 8)));
    assert!(is_workday(ymd(2024, 1, 5)));
    assert!(is_workday(ymd(1, 1, 1)));
    assert!(is_workday(Date::min_value()));
    assert!(is_workday(Date::max_value()));
}

#[test]
fn steps_skip_weekends() {
    assert_eq!(Forwards::step(ymd(2024, 1, 5)), ymd(2024, 1, 8));
    assert_eq!(Forwards::step(ymd(2024, 1, 6)), ymd(2024, 1, 8));
    assert_eq!(Forwards::step(ymd(2024, 1, 8)), ymd(2024, 1, 9));
    assert_eq!(Backwards::step(ymd(2024, 1, 8)), ymd(2024, 1, 5));
    assert_eq!(Backwards::step(ymd(2024, 1, 7)), ymd(2024, 1, 5));
    let mut d = ymd(2024, 1, 1);
    for _ in 0..30 {
        assert!(is_workday(Forwards::step(d)));
        assert!(is_workday(Backwards::step(d)));
        d = Date::from_days(d.days() + 1).unwrap();
    }
}

#[test]
fn steps_saturate_at_the_ends() {
    assert_eq!(Forwards::step(Date::max_value()), Date::max_value());
    assert_eq!(Backwards::step(Date::min_value()), Date::min_value());
    assert_eq!(Forwards::time(Date::max_value(), lead(3)), Date::max_value());
    assert_eq!(Backwards::time(Date::min_value(), lead(3)), Date::min_value());
}

#[test]
fn zero_lead_is_no_op() {
    let saturday = ymd(2024, 1, 6);
    assert_eq!(Forwards::time(saturday, lead(0)), saturday);
    assert_eq!(Backwards::time(saturday, lead(0)), saturday);
    assert_eq!(Forwards::time(saturday, lead(1)), ymd(2024, 1, 8));
}

#[test]
fn round_trip_from_workday() {
    let start = ymd(2024, 3, 13);
    for n in 0..40 {
        let there = Forwards::time(start, lead(n));
        assert_eq!(Backwards::time(there, lead(n)), start);
    }
    // From a Saturday one step forward and one back lands on the Friday.
    let saturday = ymd(2024, 1, 6);
    assert_eq!(Backwards::time(Forwards::time(saturday, lead(1)), lead(1)), ymd(2024, 1, 5));
}

#[test]
fn lead_time_basics() {
    assert_eq!(lead(12).weeks(), 2);
    assert_eq!(lead(4).weeks(), 0);
    assert_eq!(lead(0).strict(), None);
    assert_eq!(lead(7).strict(), Some(7));
    assert_eq!(lead(7).lax(), 7);
    assert!(lead(0).is_none());
    assert!(!lead(1).is_none());
    assert_eq!(lead(3).max(lead(9)), lead(9));
    assert_eq!(lead(3).checked_add(lead(9)), Some(lead(12)));
    assert_eq!(lead(usize::MAX).checked_add(lead(1)), None);
    assert_eq!(lead(9).checked_sub(lead(3)), Some(lead(6)));
    assert_eq!(lead(3).checked_sub(lead(9)), None);
}

#[test]
fn composition_scenario() {
    let line = standard_line();
    assert_eq!(line.order(), lead(15));
    assert_eq!(line.process_plus_order(), Some(lead(20)));
    assert_eq!(line.total(), Some(lead(25)));
    // 2024-01-01 is a Monday; 25 business days later is 35 days later.
    let monday = ymd(2024, 1, 1);
    let install = line.min_install(monday).unwrap();
    assert_eq!(install, ymd(2024, 2, 5));
    assert_eq!(install.days() - monday.days(), 35);
    assert!(is_workday(install));
    assert_eq!(line.is_install_feasible(ymd(2024, 2, 5), monday), Some(true));
    assert_eq!(line.is_install_feasible(ymd(2024, 2, 2), monday), Some(false));
}

#[test]
fn composition_takes_longer_order_lead() {
    let line = LeadTimeLine::new(Some(lead(2)), Some(lead(3)), Some(lead(10)), Some(lead(12)));
    assert_eq!(line.order(), lead(12));
    assert_eq!(line.total(), Some(lead(17)));
    let none = LeadTimeLine::new(Some(lead(2)), Some(lead(3)), None, None);
    assert_eq!(none.order(), lead(0));
    assert_eq!(none.total(), Some(lead(5)));
}

#[test]
fn composition_propagates_missing_leads() {
    let no_process = LeadTimeLine::new(Some(lead(2)), None, Some(lead(10)), None);
    assert_eq!(no_process.process_plus_order(), None);
    assert_eq!(no_process.total(), None);
    assert_eq!(no_process.min_install(ymd(2024, 1, 1)), None);
    assert_eq!(no_process.flip_by(ymd(2024, 1, 1)), None);
    let no_flip = LeadTimeLine::new(None, Some(lead(2)), Some(lead(10)), None);
    assert_eq!(no_flip.process_plus_order(), Some(lead(12)));
    assert_eq!(no_flip.total(), None);
    assert_eq!(no_flip.is_install_feasible(ymd(2024, 1, 1), ymd(2024, 1, 1)), None);
    let huge = LeadTimeLine::new(Some(lead(1)), Some(lead(usize::MAX)), None, None);
    assert_eq!(huge.process_plus_order(), Some(lead(usize::MAX)));
    assert_eq!(huge.total(), None);
}

#[test]
fn more_lead_never_earlier() {
    let monday = ymd(2024, 1, 1);
    let mut previous = monday;
    for n in 0..30 {
        let line = LeadTimeLine::new(Some(lead(0)), Some(lead(0)), Some(lead(n)), None);
        let install = line.min_install(monday).unwrap();
        assert!(install >= previous);
        previous = install;
    }
}

#[test]
fn flip_by_not_after_install() {
    let line = standard_line();
    let install = ymd(2024, 2, 5);
    let flip_by = line.flip_by(install).unwrap();
    assert_eq!(flip_by, ymd(2024, 1, 8));
    assert!(flip_by <= install);
    let zero = LeadTimeLine::new(Some(lead(0)), Some(lead(0)), None, None);
    let sunday = ymd(2024, 1, 7);
    assert_eq!(zero.flip_by(sunday), Some(sunday));
}

#[test]
fn lead_or_date_resolves() {
    let anchor = ymd(2024, 1, 5);
    assert_eq!(LeadOrDate::Lead(lead(1)).resolve(anchor), ymd(2024, 1, 8));
    assert_eq!(LeadOrDate::Date(ymd(2023, 5, 1)).resolve(anchor), ymd(2023, 5, 1));
}

#[test]
fn tracker_classification() {
    let now = ymd(2024, 1, 1);
    assert_eq!(Tracker::Complete(ymd(2020, 1, 1)).state(now, lead(5)), TrackerState::Done);
    assert_eq!(Tracker::Complete(ymd(2030, 1, 1)).state(now, lead(0)), TrackerState::Done);
    assert_eq!(Tracker::CompleteBy(now).state(now, lead(5)), TrackerState::Late);
    assert_eq!(Tracker::CompleteBy(ymd(2023, 12, 29)).state(now, lead(5)), TrackerState::Late);
    assert_eq!(Tracker::CompleteBy(ymd(2024, 1, 8)).state(now, lead(5)), TrackerState::Warn);
    assert_eq!(Tracker::CompleteBy(ymd(2024, 1, 9)).state(now, lead(5)), TrackerState::Watch);
}

#[test]
fn tracker_construction_and_completion() {
    let start = ymd(2024, 1, 5);
    assert_eq!(Tracker::from_lead(lead(1), start), Tracker::CompleteBy(ymd(2024, 1, 8)));
    assert_eq!(Tracker::from_date(start), Tracker::CompleteBy(start));
    assert_eq!(
        Tracker::from_lead_or_date(LeadOrDate::Lead(lead(2)), start),
        Tracker::CompleteBy(ymd(2024, 1, 9))
    );
    let mut t = Tracker::from_date(start);
    assert!(!t.is_complete());
    t.mark_complete(ymd(2024, 1, 3));
    assert_eq!(t, Tracker::Complete(ymd(2024, 1, 3)));
    t.mark_complete(ymd(2024, 1, 4));
    assert_eq!(t, Tracker::Complete(ymd(2024, 1, 3)));
    assert!(t.is_complete());
}

fn at_nine(date: Date) -> DateTime {
    DateTime::new(date, 9 * 3600).unwrap()
}

#[test]
fn attention_when_flip_is_close() {
    let now = ymd(2024, 1, 1);
    // Flip deadline three business days from now: install 20 business days later.
    let install = ymd(2024, 2, 1);
    let line = standard_line();
    assert_eq!(line.flip_by(install), Some(ymd(2024, 1, 4)));
    let done = Tracker::Complete(ymd(2023, 12, 1));
    let tentative = Tentative::new(
        JobNumber::new(7),
        line,
        vec![at_nine(install)],
        done,
        done,
        Tracker::from_date(ymd(2024, 1, 4)),
    )
    .unwrap();
    assert!(tentative.needs_attention(now, lead(5)));
    assert!(!tentative.needs_attention(now, lead(2)));
    assert!(tentative.needs_attention(ymd(2024, 1, 2), lead(2)));
}

#[test]
fn attention_gates_in_order() {
    let now = ymd(2024, 1, 1);
    let install = at_nine(ymd(2024, 6, 3));
    let line = standard_line();
    let pending = Tracker::from_date(ymd(2024, 5, 1));
    let done = Tracker::Complete(ymd(2023, 12, 1));
    let make = |payment, confirmation, flip| {
        Tentative::new(JobNumber::new(1), line, vec![install], payment, confirmation, flip)
            .unwrap()
    };
    assert!(make(pending, done, done).needs_attention(now, lead(5)));
    assert!(make(done, pending, done).needs_attention(now, lead(5)));
    assert!(!make(done, done, pending).needs_attention(now, lead(5)));
    assert!(!make(done, done, done).needs_attention(now, lead(5)));
    let no_process = LeadTimeLine::new(Some(lead(5)), None, Some(lead(15)), None);
    let unknown =
        Tentative::new(JobNumber::new(1), no_process, vec![install], done, done, pending).unwrap();
    assert!(unknown.needs_attention(now, lead(5)));
}

#[test]
fn tentative_needs_an_install_date() {
    let pending = Tracker::from_date(ymd(2024, 5, 1));
    let r = Tentative::new(JobNumber::new(3), standard_line(), vec![], pending, pending, pending);
    assert_eq!(r.err(), Some(TentativeError::NoInstallDate));
}

#[test]
fn tentative_needs_a_job() {
    let pending = Tracker::from_date(ymd(2024, 5, 1));
    let install = vec![at_nine(ymd(2024, 6, 3))];
    let r = Tentative::new(JobNumber::new(0), standard_line(), install, pending, pending, pending);
    assert_eq!(r.err(), Some(TentativeError::MissingJob));
}

#[test]
fn tentative_sorts_install_times() {
    let pending = Tracker::from_date(ymd(2024, 5, 1));
    let late = at_nine(ymd(2024, 6, 3));
    let early = DateTime::new(ymd(2024, 6, 3), 8 * 3600).unwrap();
    let earliest = at_nine(ymd(2024, 5, 30));
    let t = Tentative::new(
        JobNumber::new(3),
        standard_line(),
        vec![late, early, late, earliest],
        pending,
        pending,
        pending,
    )
    .unwrap();
    assert_eq!(t.install(), &[earliest, early, late][..]);
    assert_eq!(t.first_install(), earliest);
    assert_eq!(t.job().get(), 3);
    assert!(DateTime::new(ymd(2024, 6, 3), 86_400).is_none());
}

#[test]
fn checked_stepping() {
    let saturday = ymd(2024, 1, 6);
    assert_eq!(skip_weekends_forwards(saturday), Some(ymd(2024, 1, 8)));
    assert_eq!(skip_weekends_backwards(saturday), Some(ymd(2024, 1, 5)));
    assert_eq!(add_lead(saturday, lead(0)), Some(ymd(2024, 1, 8)));
    assert_eq!(add_lead(saturday, lead(1)), Some(ymd(2024, 1, 9)));
    assert_eq!(sub_lead(saturday, lead(1)), Some(ymd(2024, 1, 4)));
    assert_eq!(add_lead(Date::max_value(), lead(1)), None);
    assert_eq!(sub_lead(Date::min_value(), lead(1)), None);
    assert_eq!(add_lead(Date::max_value(), lead(0)), Some(Date::max_value()));
}

#[test]
fn lead_time_sum() {
    assert_eq!(LeadTime::sum(&[]), Some(lead(0)));
    assert_eq!(LeadTime::sum(&[lead(5), lead(15), lead(5)]), Some(lead(25)));
    assert_eq!(LeadTime::sum(&[lead(usize::MAX), lead(1), lead(0)]), None);
}
