//! Lead times in business days, and how a job's leads compose.
use vstd::prelude::*;

use crate::calendar::{
    advance_backward, advance_forward, lemma_advance_backward_not_later,
    lemma_advance_forward_monotonic, Backwards, Date, Forwards, MAX_DAY, MIN_DAY,
};

verus! {

/// Business days in a working week.
pub const LEAD_DAYS_PER_WEEK: usize = 5;

/// A non-negative duration counted in business days.
#[derive(Debug, Default, Clone, Copy, PartialEq, Eq, PartialOrd, Ord, Hash)]
pub struct LeadTime(pub usize);

impl View for LeadTime {
    type V = nat;

    open spec fn view(&self) -> nat {
        self.0 as nat
    }
}

impl LeadTime {
    pub fn new(days: usize) -> (r: LeadTime)
        ensures
            r@ == days,
    {
        LeadTime(days)
    }

    /// The number of business days, zero included.
    pub fn lax(self) -> (r: usize)
        ensures
            r == self@,
    {
        self.0
    }

    /// The number of business days, or `None` for a zero lead.
    pub fn strict(self) -> (r: Option<usize>)
        ensures
            r == (if self@ == 0 { None } else { Some(self.0) }),
    {
        if self.0 == 0 {
            None
        } else {
            Some(self.0)
        }
    }

    /// True iff the lead is zero days.
    pub fn is_none(self) -> (r: bool)
        ensures
            r == (self@ == 0),
    {
        self.0 == 0
    }

    /// Whole working weeks in the lead, rounded down.
    pub fn weeks(&self) -> (r: usize)
        ensures
            r == self@ / (LEAD_DAYS_PER_WEEK as nat),
    {
        self.0 / LEAD_DAYS_PER_WEEK
    }

    /// The longer of two leads.
    pub fn max(self, other: LeadTime) -> (r: LeadTime)
        ensures
            r@ == (if self@ >= other@ { self@ } else { other@ }),
    {
        if self.0 >= other.0 {
            self
        } else {
            other
        }
    }

    /// The sum of two leads, or `None` where it does not fit in a `usize`.
    pub fn checked_add(self, other: LeadTime) -> (r: Option<LeadTime>)
        ensures
            r == (if self@ + other@ <= usize::MAX {
                Some(LeadTime((self@ + other@) as usize))
            } else {
                None
            }),
    {
        if self.0 <= usize::MAX - other.0 {
            Some(LeadTime(self.0 + other.0))
        } else {
            None
        }
    }

    /// The difference of two leads, or `None` where `other` is the longer.
    pub fn checked_sub(self, other: LeadTime) -> (r: Option<LeadTime>)
        ensures
            r == (if self@ >= other@ {
                Some(LeadTime((self@ - other@) as usize))
            } else {
                None
            }),
    {
        if self.0 >= other.0 {
            Some(LeadTime(self.0 - other.0))
        } else {
            None
        }
    }
}

/// The total days of a sequence of leads.
pub open spec fn sum_days(leads: Seq<LeadTime>) -> nat
    decreases leads.len(),
{
    if leads.len() == 0 {
        0
    } else {
        sum_days(leads.drop_last()) + leads.last()@
    }
}

proof fn lemma_sum_days_prefix(leads: Seq<LeadTime>, i: int)
    requires
        0 <= i <= leads.len(),
    ensures
        sum_days(leads.subrange(0, i)) <= sum_days(leads),
    decreases leads.len() - i,
{
    if i < leads.len() {
        lemma_sum_days_prefix(leads, i + 1);
        assert(leads.subrange(0, i + 1).drop_last() =~= leads.subrange(0, i));
    } else {
        assert(leads.subrange(0, i) =~= leads);
    }
}

impl LeadTime {
    /// The sum of `leads`, or `None` where it does not fit in a `usize`.
    pub fn sum(leads: &[LeadTime]) -> (r: Option<LeadTime>)
        ensures
            r == lead_of(Some(sum_days(leads@))),
    {
        let mut total = LeadTime(0);
        let mut i: usize = 0;
        while i < leads.len()
            invariant
                i <= leads@.len(),
                total@ == sum_days(leads@.subrange(0, i as int)),
            decreases leads@.len() - i,
        {
            assert(leads@.subrange(0, i + 1).drop_last() =~= leads@.subrange(0, i as int));
            match total.checked_add(leads[i]) {
                Some(t) => total = t,
                None => {
                    proof {
                        lemma_sum_days_prefix(leads@, i + 1);
                    }
                    return None;
                },
            }
            i = i + 1;
        }
        assert(leads@.subrange(0, leads@.len() as int) =~= leads@);
        Some(total)
    }
}

/// The days of an optional lead, an absent one counting as zero.
pub open spec fn days_or_zero(lead: Option<LeadTime>) -> nat {
    match lead {
        Some(l) => l@,
        None => 0,
    }
}

/// A day count as a lead, where it fits in a `usize`.
pub open spec fn lead_of(days: Option<nat>) -> Option<LeadTime> {
    match days {
        Some(n) => if n <= usize::MAX {
            Some(LeadTime(n as usize))
        } else {
            None
        },
        None => None,
    }
}

/// The lead inputs of one job.
///
/// The order side (`manufacturer`, `custom`) defaults to a zero lead where
/// absent; a missing `process` or `flip` lead makes every quantity that needs
/// it unknown rather than silently zero.
#[derive(Debug, Clone, Copy, PartialEq, Eq)]
pub struct LeadTimeLine {
    /// Buffer between the flip and the install.
    pub flip: Option<LeadTime>,
    /// Internal handling before the order is placed.
    pub process: Option<LeadTime>,
    /// The manufacturer's standard lead.
    pub manufacturer: Option<LeadTime>,
    /// A lead specific to this job.
    pub custom: Option<LeadTime>,
}

impl LeadTimeLine {
    /// The longer of the manufacturer's and the custom lead.
    pub open spec fn order_days(self) -> nat {
        let m = days_or_zero(self.manufacturer);
        let c = days_or_zero(self.custom);
        if m >= c {
            m
        } else {
            c
        }
    }

    /// Process lead plus order lead; unknown without a process lead.
    pub open spec fn process_plus_order_days(self) -> Option<nat> {
        match self.process {
            Some(p) => Some(p@ + self.order_days()),
            None => None,
        }
    }

    /// Flip lead plus process lead plus order lead; unknown without a flip or
    /// a process lead.
    pub open spec fn total_days(self) -> Option<nat> {
        match (self.flip, self.process_plus_order_days()) {
            (Some(f), Some(n)) => Some(f@ + n),
            _ => None,
        }
    }

    /// The earliest install date from `start`, where the total lead is known
    /// and fits in a `usize`.
    pub open spec fn min_install_day(self, start: int) -> Option<int> {
        match lead_of(self.total_days()) {
            Some(t) => Some(advance_forward(start, t@)),
            None => None,
        }
    }

    /// The latest flip date for an install on `install`, where the process
    /// and order lead is known and fits in a `usize`.
    pub open spec fn flip_by_day(self, install: int) -> Option<int> {
        match lead_of(self.process_plus_order_days()) {
            Some(l) => Some(advance_backward(install, l@)),
            None => None,
        }
    }

    pub fn new(
        flip: Option<LeadTime>,
        process: Option<LeadTime>,
        manufacturer: Option<LeadTime>,
        custom: Option<LeadTime>,
    ) -> (r: LeadTimeLine)
        ensures
            r == (LeadTimeLine { flip, process, manufacturer, custom }),
    {
        LeadTimeLine { flip, process, manufacturer, custom }
    }

    /// The order lead: the longer of the manufacturer's and the custom lead.
    pub fn order(&self) -> (r: LeadTime)
        ensures
            r@ == self.order_days(),
    {
        let m = match self.manufacturer {
            Some(l) => l,
            None => LeadTime(0),
        };
        let c = match self.custom {
            Some(l) => l,
            None => LeadTime(0),
        };
        m.max(c)
    }

    /// Process lead plus order lead.
    pub fn process_plus_order(&self) -> (r: Option<LeadTime>)
        ensures
            r == lead_of(self.process_plus_order_days()),
    {
        match self.process {
            Some(p) => p.checked_add(self.order()),
            None => None,
        }
    }

    /// Flip lead plus process lead plus order lead.
    pub fn total(&self) -> (r: Option<LeadTime>)
        ensures
            r == lead_of(self.total_days()),
    {
        match (self.flip, self.process_plus_order()) {
            (Some(f), Some(n)) => f.checked_add(n),
            _ => None,
        }
    }

    /// The earliest feasible install date when work starts on `start`.
    pub fn min_install(&self, start: Date) -> (r: Option<Date>)
        ensures
            r.is_some() == self.min_install_day(start@).is_some(),
            r matches Some(d) ==> Some(d@) == self.min_install_day(start@),
    {
        match self.total() {
            Some(t) => Some(Forwards::time(start, t)),
            None => None,
        }
    }

    /// The latest date the job can flip and still be installed on `install`.
    pub fn flip_by(&self, install: Date) -> (r: Option<Date>)
        ensures
            r.is_some() == self.flip_by_day(install@).is_some(),
            r matches Some(d) ==> Some(d@) == self.flip_by_day(install@),
    {
        match self.process_plus_order() {
            Some(l) => Some(Backwards::time(install, l)),
            None => None,
        }
    }

    /// Whether an install on `candidate` can be met when work starts on
    /// `start`; unknown where the total lead is.
    pub fn is_install_feasible(&self, candidate: Date, start: Date) -> (r: Option<bool>)
        ensures
            r == (match self.min_install_day(start@) {
                Some(m) => Some(candidate@ >= m),
                None => None,
            }),
    {
        match self.min_install(start) {
            Some(m) => Some(candidate.days() >= m.days()),
            None => None,
        }
    }
}

/// The total lead is the flip lead plus the process lead plus the longer of
/// the manufacturer's and the custom lead, whenever flip and process leads
/// are given and the sum fits in a `usize`.
pub proof fn lemma_total_composition(c: LeadTimeLine, flip: LeadTime, process: LeadTime)
    requires
        c.flip == Some(flip),
        c.process == Some(process),
        flip@ + process@ + c.order_days() <= usize::MAX,
    ensures
        lead_of(c.total_days()) == Some(
            LeadTime((flip@ + process@ + c.order_days()) as usize),
        ),
        c.order_days() == (if days_or_zero(c.manufacturer) >= days_or_zero(c.custom) {
            days_or_zero(c.manufacturer)
        } else {
            days_or_zero(c.custom)
        }),
{
}

/// More total lead never gives an earlier minimum install date.
pub proof fn lemma_min_install_monotonic(c1: LeadTimeLine, c2: LeadTimeLine, start: Date)
    requires
        MIN_DAY <= start@ <= MAX_DAY,
        c1.min_install_day(start@).is_some(),
        c2.min_install_day(start@).is_some(),
        c1.total_days().unwrap() <= c2.total_days().unwrap(),
    ensures
        c1.min_install_day(start@).unwrap() <= c2.min_install_day(start@).unwrap(),
{
    lemma_advance_forward_monotonic(
        start,
        c1.total_days().unwrap(),
        c2.total_days().unwrap(),
    );
}

/// The flip deadline never lands after the install date.
pub proof fn lemma_flip_by_not_after_install(c: LeadTimeLine, install: Date)
    requires
        MIN_DAY <= install@ <= MAX_DAY,
    ensures
        c.flip_by_day(install@) matches Some(f) ==> f <= install@,
{
    if let Some(l) = lead_of(c.process_plus_order_days()) {
        lemma_advance_backward_not_later(install, l@);
    }
}

/// A deadline given either as a lead from an anchor date or as a date.
#[derive(Debug, Clone, Copy, PartialEq, Eq)]
pub enum LeadOrDate {
    Lead(LeadTime),
    Date(Date),
}

impl LeadOrDate {
    /// The day the deadline falls on, counted from `anchor`.
    pub open spec fn resolve_day(self, anchor: int) -> int {
        match self {
            LeadOrDate::Lead(l) => advance_forward(anchor, l@),
            LeadOrDate::Date(d) => d@,
        }
    }

    /// The deadline as a date: a date is kept as it is, a lead is counted
    /// forward from `anchor`.
    pub fn resolve(&self, anchor: Date) -> (r: Date)
        ensures
            r@ == self.resolve_day(anchor@),
    {
        match self {
            LeadOrDate::Lead(l) => Forwards::time(anchor, *l),
            LeadOrDate::Date(d) => *d,
        }
    }
}

} // verus!
