//! Business-day calendar over chrono's proleptic Gregorian day numbers.
use vstd::prelude::*;

use crate::lead_time::LeadTime;

verus! {

/// Day number of chrono's `NaiveDate::MIN` (January 1, 262144 BCE), counted
/// with January 1 of year 1 as day 1.
pub const MIN_DAY: i32 = -95746129;

/// Day number of chrono's `NaiveDate::MAX` (December 31, 262142 CE).
pub const MAX_DAY: i32 = 95745399;

/// Day of the week of a day number, 0 for Monday up to 6 for Sunday
/// (day 1, January 1 of year 1, is a Monday).
pub open spec fn weekday(d: int) -> int {
    (d - 1) % 7
}

/// Saturday or Sunday.
pub open spec fn is_weekend_day(d: int) -> bool {
    weekday(d) >= 5
}

/// The first workday strictly after `d`, ignoring the calendar's range.
pub open spec fn next_workday(d: int) -> int {
    if !is_weekend_day(d + 1) {
        d + 1
    } else if !is_weekend_day(d + 2) {
        d + 2
    } else {
        d + 3
    }
}

/// The last workday strictly before `d`, ignoring the calendar's range.
pub open spec fn prev_workday(d: int) -> int {
    if !is_weekend_day(d - 1) {
        d - 1
    } else if !is_weekend_day(d - 2) {
        d - 2
    } else {
        d - 3
    }
}

/// One business day forward, saturating at the last representable day.
pub open spec fn step_forward(d: int) -> int {
    if next_workday(d) <= MAX_DAY {
        next_workday(d)
    } else {
        MAX_DAY as int
    }
}

/// One business day backward, saturating at the first representable day.
pub open spec fn step_backward(d: int) -> int {
    if prev_workday(d) >= MIN_DAY {
        prev_workday(d)
    } else {
        MIN_DAY as int
    }
}

/// `n` forward steps from `d`.
pub open spec fn advance_forward(d: int, n: nat) -> int
    decreases n,
{
    if n == 0 {
        d
    } else {
        step_forward(advance_forward(d, (n - 1) as nat))
    }
}

/// `n` backward steps from `d`.
pub open spec fn advance_backward(d: int, n: nat) -> int
    decreases n,
{
    if n == 0 {
        d
    } else {
        step_backward(advance_backward(d, (n - 1) as nat))
    }
}

/// The day number of a calendar date (January 1 of year 1 being day 1), or
/// `None` where the year, month and day name no date that chrono can hold.
pub uninterp spec fn days_from_ymd(year: int, month: int, day: int) -> Option<int>;

/// Relies on chrono's `NaiveDate::from_ymd_opt`, which gives `None` for a
/// date that does not exist or lies outside `NaiveDate::MIN..=NaiveDate::MAX`,
/// and on `Datelike::num_days_from_ce`, which counts the days of the
/// proleptic Gregorian calendar with January 1 of year 1 as day 1.
#[verifier::external_body]
fn chrono_days_from_ymd(year: i32, month: u32, day: u32) -> (r: Option<i32>)
    ensures
        r matches Some(n) ==> days_from_ymd(year as int, month as int, day as int) == Some(
            n as int,
        ) && MIN_DAY <= n <= MAX_DAY,
        r is None ==> days_from_ymd(year as int, month as int, day as int) is None,
{
    match chrono::NaiveDate::from_ymd_opt(year, month, day) {
        Some(date) => Some(chrono::Datelike::num_days_from_ce(&date)),
        None => None,
    }
}

/// No three consecutive days are all weekend days.
pub proof fn lemma_no_three_weekend_days(d: int)
    ensures
        !(is_weekend_day(d) && is_weekend_day(d + 1) && is_weekend_day(d + 2)),
{
}

/// A calendar date, held as its day number.
#[derive(Debug, Clone, Copy, PartialEq, Eq, PartialOrd, Ord, Hash)]
pub struct Date {
    days: i32,
}

impl View for Date {
    type V = int;

    closed spec fn view(&self) -> int {
        self.days as int
    }
}

impl Date {
    #[verifier::type_invariant]
    spec fn in_range(self) -> bool {
        MIN_DAY <= self.days <= MAX_DAY
    }

    /// The date with the given day number, if chrono can represent it.
    pub fn from_days(days: i32) -> (r: Option<Date>)
        ensures
            r.is_some() <==> MIN_DAY <= days <= MAX_DAY,
            r matches Some(d) ==> d@ == days,
    {
        if MIN_DAY <= days && days <= MAX_DAY {
            Some(Date { days })
        } else {
            None
        }
    }

    /// The date `year`-`month`-`day` of the proleptic Gregorian calendar;
    /// `None` where no such date exists or chrono cannot represent it.
    pub fn from_ymd(year: i32, month: u32, day: u32) -> (r: Option<Date>)
        ensures
            r.is_some() == days_from_ymd(year as int, month as int, day as int).is_some(),
            r matches Some(d) ==> days_from_ymd(year as int, month as int, day as int) == Some(
                d@,
            ),
    {
        match chrono_days_from_ymd(year, month, day) {
            Some(n) => Some(Date { days: n }),
            None => None,
        }
    }

    /// The day number, January 1 of year 1 being day 1.
    pub fn days(&self) -> (r: i32)
        ensures
            r == self@,
            MIN_DAY <= r <= MAX_DAY,
    {
        proof {
            use_type_invariant(self);
        }
        self.days
    }

    /// The first representable date.
    pub fn min_value() -> (r: Date)
        ensures
            r@ == MIN_DAY,
    {
        Date { days: MIN_DAY }
    }

    /// The last representable date.
    pub fn max_value() -> (r: Date)
        ensures
            r@ == MAX_DAY,
    {
        Date { days: MAX_DAY }
    }
}

/// Saturday or Sunday, from a day number in range.
fn weekend_day(days: i32) -> (r: bool)
    requires
        MIN_DAY <= days <= MAX_DAY,
    ensures
        r == is_weekend_day(days as int),
{
    let offset: u32 = (days as i64 - MIN_DAY as i64 + 3) as u32;
    let w: u32 = offset % 7;
    assert(w as int == weekday(days as int));
    w >= 5
}

/// True iff the date falls on a Saturday or a Sunday.
pub fn is_weekend(date: Date) -> (r: bool)
    ensures
        r == is_weekend_day(date@),
{
    weekend_day(date.days())
}

/// True iff the date falls on Monday through Friday.
pub fn is_workday(date: Date) -> (r: bool)
    ensures
        r == !is_weekend_day(date@),
{
    !is_weekend(date)
}

} // verus!

verus! {

/// Moves a date forward, one business day per step.
pub struct Forwards;

/// Moves a date backward, one business day per step.
pub struct Backwards;

impl Forwards {
    /// The next workday after `date`; the last representable date where
    /// there is none.
    pub fn step(date: Date) -> (r: Date)
        ensures
            r@ == step_forward(date@),
    {
        let start = date.days();
        let mut cur: i32 = start;
        loop
            invariant
                start == date@,
                MIN_DAY <= start <= cur <= MAX_DAY,
                cur <= start + 2,
                forall|k: int| start < k <= cur ==> is_weekend_day(k),
            decreases MAX_DAY - cur,
        {
            proof {
                lemma_no_three_weekend_days(start + 1);
            }
            if cur == MAX_DAY {
                return Date::max_value();
            }
            cur = cur + 1;
            if !weekend_day(cur) {
                return Date { days: cur };
            }
        }
    }

    /// `lead` business days after `date`, each step saturating.
    pub fn time(date: Date, lead: LeadTime) -> (r: Date)
        ensures
            r@ == advance_forward(date@, lead@),
    {
        let mut cur = date;
        let mut i: usize = 0;
        while i < lead.0
            invariant
                i <= lead@,
                cur@ == advance_forward(date@, i as nat),
            decreases lead@ - i,
        {
            cur = Forwards::step(cur);
            i = i + 1;
        }
        cur
    }
}

impl Backwards {
    /// The last workday before `date`; the first representable date where
    /// there is none.
    pub fn step(date: Date) -> (r: Date)
        ensures
            r@ == step_backward(date@),
    {
        let start = date.days();
        let mut cur: i32 = start;
        loop
            invariant
                start == date@,
                MIN_DAY <= cur <= start <= MAX_DAY,
                cur >= start - 2,
                forall|k: int| cur <= k < start ==> is_weekend_day(k),
            decreases cur - MIN_DAY,
        {
            proof {
                lemma_no_three_weekend_days(start - 3);
            }
            if cur == MIN_DAY {
                return Date::min_value();
            }
            cur = cur - 1;
            if !weekend_day(cur) {
                return Date { days: cur };
            }
        }
    }

    /// `lead` business days before `date`, each step saturating.
    pub fn time(date: Date, lead: LeadTime) -> (r: Date)
        ensures
            r@ == advance_backward(date@, lead@),
    {
        let mut cur = date;
        let mut i: usize = 0;
        while i < lead.0
            invariant
                i <= lead@,
                cur@ == advance_backward(date@, i as nat),
            decreases lead@ - i,
        {
            cur = Backwards::step(cur);
            i = i + 1;
        }
        cur
    }
}

} // verus!

verus! {

/// Stepping forward from a date in range never moves earlier and never
/// leaves the range.
proof fn lemma_step_forward_bounds(x: int)
    requires
        MIN_DAY <= x <= MAX_DAY,
    ensures
        x <= step_forward(x) <= MAX_DAY,
{
}

/// Stepping backward from a date in range never moves later and never
/// leaves the range.
proof fn lemma_step_backward_bounds(x: int)
    requires
        MIN_DAY <= x <= MAX_DAY,
    ensures
        MIN_DAY <= step_backward(x) <= x,
{
}

proof fn lemma_advance_forward_bounds(d: int, n: nat)
    requires
        MIN_DAY <= d <= MAX_DAY,
    ensures
        d <= advance_forward(d, n) <= MAX_DAY,
    decreases n,
{
    if n > 0 {
        lemma_advance_forward_bounds(d, (n - 1) as nat);
        lemma_step_forward_bounds(advance_forward(d, (n - 1) as nat));
    }
}

proof fn lemma_advance_backward_bounds(d: int, n: nat)
    requires
        MIN_DAY <= d <= MAX_DAY,
    ensures
        MIN_DAY <= advance_backward(d, n) <= d,
    decreases n,
{
    if n > 0 {
        lemma_advance_backward_bounds(d, (n - 1) as nat);
        lemma_step_backward_bounds(advance_backward(d, (n - 1) as nat));
    }
}

/// A single step, forward or backward, never lands on a Saturday or a
/// Sunday, the saturated ends of the range included.
pub proof fn lemma_steps_land_on_workdays(d: Date)
    ensures
        !is_weekend_day(step_forward(d@)),
        !is_weekend_day(step_backward(d@)),
{
    lemma_no_three_weekend_days(d@ + 1);
    lemma_no_three_weekend_days(d@ - 3);
}

/// A longer lead never gives an earlier date: advancing by more business
/// days lands on the same date or a later one.
pub proof fn lemma_advance_forward_monotonic(d: Date, n1: nat, n2: nat)
    requires
        MIN_DAY <= d@ <= MAX_DAY,
        n1 <= n2,
    ensures
        advance_forward(d@, n1) <= advance_forward(d@, n2),
    decreases n2 - n1,
{
    if n1 < n2 {
        lemma_advance_forward_monotonic(d, n1, (n2 - 1) as nat);
        lemma_advance_forward_bounds(d@, (n2 - 1) as nat);
        lemma_step_forward_bounds(advance_forward(d@, (n2 - 1) as nat));
    }
}

/// Moving backward by any number of business days never lands after the
/// starting date.
pub proof fn lemma_advance_backward_not_later(d: Date, n: nat)
    requires
        MIN_DAY <= d@ <= MAX_DAY,
    ensures
        advance_backward(d@, n) <= d@,
{
    lemma_advance_backward_bounds(d@, n);
}

/// Taking the first backward step first gives the same result as taking it
/// last.
proof fn lemma_advance_backward_peel(z: int, n: nat)
    ensures
        advance_backward(z, n + 1) == advance_backward(step_backward(z), n),
    decreases n,
{
    assert(advance_backward(z, 0) == z);
    if n > 0 {
        lemma_advance_backward_peel(z, (n - 1) as nat);
        assert(advance_backward(z, n + 1) == step_backward(advance_backward(z, n)));
        assert(advance_backward(step_backward(z), n) == step_backward(
            advance_backward(step_backward(z), (n - 1) as nat),
        ));
    } else {
        assert(advance_backward(z, 1) == step_backward(advance_backward(z, 0)));
    }
}

/// From a workday before the last representable date, one step back undoes
/// one step forward.
proof fn lemma_step_round_trip(x: int)
    requires
        MIN_DAY <= x < MAX_DAY,
        !is_weekend_day(x),
    ensures
        step_forward(x) <= MAX_DAY,
        step_backward(step_forward(x)) == x,
{
    lemma_no_three_weekend_days(x + 1);
    assert(!is_weekend_day(MAX_DAY as int));
}

/// Moving a workday forward `n` business days and then back `n` business
/// days returns it, provided no forward step starts from the last
/// representable date.
pub proof fn lemma_round_trip(d: Date, n: nat)
    requires
        MIN_DAY <= d@ <= MAX_DAY,
        n == 0 || (!is_weekend_day(d@) && advance_forward(d@, (n - 1) as nat) < MAX_DAY),
    ensures
        advance_backward(advance_forward(d@, n), n) == d@,
    decreases n,
{
    if n > 0 {
        let m = (n - 1) as nat;
        let y = advance_forward(d@, m);
        if m > 0 {
            lemma_advance_forward_bounds(d@, (m - 1) as nat);
            lemma_step_forward_bounds(advance_forward(d@, (m - 1) as nat));
            lemma_steps_land_on_workdays(d);
        }
        lemma_round_trip(d, m);
        lemma_advance_forward_bounds(d@, m);
        if m > 0 {
            let p = advance_forward(d@, (m - 1) as nat);
            lemma_no_three_weekend_days(p + 1);
            assert(!is_weekend_day(MAX_DAY as int));
        }
        lemma_step_round_trip(y);
        lemma_advance_backward_peel(step_forward(y), m);
    }
}

} // verus!

verus! {

/// The first workday on or after `d`.
pub open spec fn skip_forward(d: int) -> int {
    if !is_weekend_day(d) {
        d
    } else {
        next_workday(d)
    }
}

/// The last workday on or before `d`.
pub open spec fn skip_backward(d: int) -> int {
    if !is_weekend_day(d) {
        d
    } else {
        prev_workday(d)
    }
}

/// `n` business days after the first workday on or after `d`; `None` where a
/// step would leave the calendar's range.
pub open spec fn checked_advance_forward(d: int, n: nat) -> Option<int>
    decreases n,
{
    if n == 0 {
        Some(skip_forward(d))
    } else {
        match checked_advance_forward(d, (n - 1) as nat) {
            Some(x) => if x < MAX_DAY {
                Some(next_workday(x))
            } else {
                None
            },
            None => None,
        }
    }
}

/// `n` business days before the last workday on or before `d`; `None` where
/// a step would leave the calendar's range.
pub open spec fn checked_advance_backward(d: int, n: nat) -> Option<int>
    decreases n,
{
    if n == 0 {
        Some(skip_backward(d))
    } else {
        match checked_advance_backward(d, (n - 1) as nat) {
            Some(x) => if x > MIN_DAY {
                Some(prev_workday(x))
            } else {
                None
            },
            None => None,
        }
    }
}

/// The first workday on or after `date`, or `None` if the calendar ends
/// before one.
pub fn skip_weekends_forwards(date: Date) -> (r: Option<Date>)
    ensures
        r matches Some(d) && d@ == skip_forward(date@),
{
    let start = date.days();
    let mut cur: i32 = start;
    while weekend_day(cur)
        invariant
            start == date@,
            MIN_DAY <= start <= cur <= MAX_DAY,
            cur <= start + 2,
            forall|k: int| start <= k < cur ==> is_weekend_day(k),
        decreases MAX_DAY - cur,
    {
        proof {
            lemma_no_three_weekend_days(start as int);
            assert(!is_weekend_day(MAX_DAY as int));
        }
        if cur == MAX_DAY {
            return None;
        }
        cur = cur + 1;
    }
    proof {
        if is_weekend_day(start as int) {
            lemma_no_three_weekend_days(start as int);
        }
    }
    Some(Date { days: cur })
}

/// The last workday on or before `date`, or `None` if the calendar starts
/// after one.
pub fn skip_weekends_backwards(date: Date) -> (r: Option<Date>)
    ensures
        r matches Some(d) && d@ == skip_backward(date@),
{
    let start = date.days();
    let mut cur: i32 = start;
    while weekend_day(cur)
        invariant
            start == date@,
            MIN_DAY <= cur <= start <= MAX_DAY,
            cur >= start - 2,
            forall|k: int| cur < k <= start ==> is_weekend_day(k),
        decreases cur - MIN_DAY,
    {
        proof {
            lemma_no_three_weekend_days(start - 2);
            assert(!is_weekend_day(MIN_DAY as int));
        }
        if cur == MIN_DAY {
            return None;
        }
        cur = cur - 1;
    }
    proof {
        if is_weekend_day(start as int) {
            lemma_no_three_weekend_days(start - 2);
        }
    }
    Some(Date { days: cur })
}

/// `lead` business days after `start`, counted from the first workday on or
/// after it; `None` where that would leave the calendar's range.
pub fn add_lead(start: Date, lead: LeadTime) -> (r: Option<Date>)
    ensures
        r.is_some() == checked_advance_forward(start@, lead@).is_some(),
        r matches Some(d) ==> Some(d@) == checked_advance_forward(start@, lead@),
{
    let mut date = match skip_weekends_forwards(start) {
        Some(d) => d,
        None => return None,
    };
    let mut i: usize = 0;
    while i < lead.0
        invariant
            i <= lead@,
            Some(date@) == checked_advance_forward(start@, i as nat),
        decreases lead@ - i,
    {
        if date.days() == MAX_DAY {
            proof {
                lemma_checked_forward_stays_none(start@, (i + 1) as nat, lead@);
            }
            return None;
        }
        let next = Date { days: date.days() + 1 };
        date = match skip_weekends_forwards(next) {
            Some(d) => d,
            None => return None,
        };
        i = i + 1;
    }
    Some(date)
}

/// `lead` business days before `start`, counted from the last workday on or
/// before it; `None` where that would leave the calendar's range.
pub fn sub_lead(start: Date, lead: LeadTime) -> (r: Option<Date>)
    ensures
        r.is_some() == checked_advance_backward(start@, lead@).is_some(),
        r matches Some(d) ==> Some(d@) == checked_advance_backward(start@, lead@),
{
    let mut date = match skip_weekends_backwards(start) {
        Some(d) => d,
        None => return None,
    };
    let mut i: usize = 0;
    while i < lead.0
        invariant
            i <= lead@,
            Some(date@) == checked_advance_backward(start@, i as nat),
        decreases lead@ - i,
    {
        if date.days() == MIN_DAY {
            proof {
                lemma_checked_backward_stays_none(start@, (i + 1) as nat, lead@);
            }
            return None;
        }
        let prev = Date { days: date.days() - 1 };
        date = match skip_weekends_backwards(prev) {
            Some(d) => d,
            None => return None,
        };
        i = i + 1;
    }
    Some(date)
}

proof fn lemma_checked_forward_stays_none(d: int, m: nat, n: nat)
    requires
        m <= n,
        checked_advance_forward(d, m) is None,
    ensures
        checked_advance_forward(d, n) is None,
    decreases n - m,
{
    if m < n {
        lemma_checked_forward_stays_none(d, m, (n - 1) as nat);
    }
}

proof fn lemma_checked_backward_stays_none(d: int, m: nat, n: nat)
    requires
        m <= n,
        checked_advance_backward(d, m) is None,
    ensures
        checked_advance_backward(d, n) is None,
    decreases n - m,
{
    if m < n {
        lemma_checked_backward_stays_none(d, m, (n - 1) as nat);
    }
}

} // verus!
