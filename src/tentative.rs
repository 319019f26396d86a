//! A job's tentative schedule: candidate install times and the three
//! milestones that gate it.
use vstd::prelude::*;

use crate::calendar::{advance_backward, Backwards, Date};
use crate::job::JobNumber;
use crate::lead_time::{LeadTime, LeadTimeLine};
use crate::tracker::Tracker;

verus! {

/// Seconds in a day.
pub const SECONDS_PER_DAY: u32 = 86400;

/// A date and a time of day, to the second.
#[derive(Debug, Clone, Copy, PartialEq, Eq, PartialOrd, Ord, Hash)]
pub struct DateTime {
    date: Date,
    seconds: u32,
}

impl DateTime {
    #[verifier::type_invariant]
    spec fn within_day(self) -> bool {
        self.seconds < SECONDS_PER_DAY
    }

    /// The date.
    pub closed spec fn day(self) -> int {
        self.date@
    }

    /// Seconds since midnight.
    pub closed spec fn second(self) -> nat {
        self.seconds as nat
    }

    /// Position on the time line, in seconds.
    pub open spec fn key(self) -> int {
        self.day() * SECONDS_PER_DAY + self.second()
    }

    /// `seconds` after midnight on `date`; `None` unless `seconds` falls
    /// within the day.
    pub fn new(date: Date, seconds: u32) -> (r: Option<DateTime>)
        ensures
            r.is_some() == (seconds < SECONDS_PER_DAY),
            r matches Some(t) ==> t.day() == date@ && t.second() == seconds,
    {
        if seconds < SECONDS_PER_DAY {
            Some(DateTime { date, seconds })
        } else {
            None
        }
    }

    pub fn date(&self) -> (r: Date)
        ensures
            r@ == self.day(),
    {
        self.date
    }

    pub fn seconds(&self) -> (r: u32)
        ensures
            r == self.second(),
            r < SECONDS_PER_DAY,
    {
        proof {
            use_type_invariant(self);
        }
        self.seconds
    }

    /// Whether `self` comes strictly before `other`.
    pub fn is_before(&self, other: &DateTime) -> (r: bool)
        ensures
            r == (self.key() < other.key()),
    {
        proof {
            use_type_invariant(self);
            use_type_invariant(other);
        }
        let a = self.date.days();
        let b = other.date.days();
        a < b || (a == b && self.seconds < other.seconds)
    }
}

/// Strictly increasing positions: the times are sorted and distinct.
pub open spec fn strictly_sorted(s: Seq<DateTime>) -> bool {
    forall|i: int, j: int| 0 <= i < j < s.len() ==> #[trigger] s[i].key() < #[trigger] s[j].key()
}

/// Some time in `s` stands at position `k`.
pub open spec fn holds_key(s: Seq<DateTime>, k: int) -> bool {
    exists|i: int| 0 <= i < s.len() && #[trigger] s[i].key() == k
}

/// Adds `t` to a sorted set of times, keeping it sorted; a time already
/// present is not added twice.
fn insert_sorted(v: &mut Vec<DateTime>, t: DateTime)
    requires
        strictly_sorted(old(v)@),
    ensures
        strictly_sorted(final(v)@),
        forall|k: int| holds_key(final(v)@, k) <==> (holds_key(old(v)@, k) || k == t.key()),
{
    let mut i: usize = 0;
    while i < v.len() && v[i].is_before(&t)
        invariant
            0 <= i <= v@.len(),
            v@ == old(v)@,
            strictly_sorted(v@),
            forall|j: int| 0 <= j < i ==> #[trigger] v@[j].key() < t.key(),
        decreases v@.len() - i,
    {
        i = i + 1;
    }
    if i < v.len() && !t.is_before(&v[i]) {
        assert(v@[i as int].key() == t.key());
        return;
    }
    let ghost before = v@;
    v.insert(i, t);
    assert forall|k: int| holds_key(v@, k) <==> (holds_key(before, k) || k == t.key()) by {
        if holds_key(v@, k) {
            let j = choose|j: int| 0 <= j < v@.len() && #[trigger] v@[j].key() == k;
            if j < i {
                assert(before[j].key() == k);
            } else if j > i {
                assert(before[j - 1].key() == k);
            }
        }
        if holds_key(before, k) {
            let j = choose|j: int| 0 <= j < before.len() && #[trigger] before[j].key() == k;
            if j < i {
                assert(v@[j].key() == k);
            } else {
                assert(v@[j + 1].key() == k);
            }
        }
        if k == t.key() {
            assert(v@[i as int].key() == k);
        }
    }
    assert(forall|k: int| holds_key(v@, k) <==> (holds_key(old(v)@, k) || k == t.key()));
}

/// Why a tentative schedule could not be made.
#[derive(Debug, Clone, Copy, PartialEq, Eq)]
pub enum TentativeError {
    /// No job was given.
    MissingJob,
    /// No install time was given.
    NoInstallDate,
}

/// A job's schedule before all of its milestones are complete.
#[derive(Debug)]
pub struct Tentative {
    job: JobNumber,
    lead: LeadTimeLine,
    install: Vec<DateTime>,
    payment: Tracker,
    confirmation: Tracker,
    flip: Tracker,
}

impl Tentative {
    #[verifier::type_invariant]
    spec fn well_formed(self) -> bool {
        self.install@.len() > 0 && strictly_sorted(self.install@)
    }

    pub closed spec fn job_spec(self) -> JobNumber {
        self.job
    }

    pub closed spec fn lead_spec(self) -> LeadTimeLine {
        self.lead
    }

    /// The candidate install times, earliest first.
    pub closed spec fn install_spec(self) -> Seq<DateTime> {
        self.install@
    }

    pub closed spec fn payment_spec(self) -> Tracker {
        self.payment
    }

    pub closed spec fn confirmation_spec(self) -> Tracker {
        self.confirmation
    }

    pub closed spec fn flip_spec(self) -> Tracker {
        self.flip
    }

    /// The earliest candidate install date.
    pub open spec fn first_install_day(self) -> int {
        self.install_spec()[0].day()
    }

    /// Whether the schedule needs attention on `now`: while the payment or
    /// the confirmation is pending; then, while the flip is pending, from
    /// `lookahead` business days before the flip deadline of the earliest
    /// install on, or at once where that deadline cannot be computed.
    pub open spec fn needs_attention_on(self, now: int, lookahead: nat) -> bool {
        if !(self.payment_spec() is Complete) || !(self.confirmation_spec() is Complete) {
            true
        } else if !(self.flip_spec() is Complete) {
            match self.lead_spec().flip_by_day(self.first_install_day()) {
                None => true,
                Some(flip_by) => now >= advance_backward(flip_by, lookahead),
            }
        } else {
            false
        }
    }

    /// A tentative schedule for `job` with the given candidate install
    /// times, kept sorted and without repeats. Fails without a job, then
    /// without an install time.
    pub fn new(
        job: Option<JobNumber>,
        lead: LeadTimeLine,
        install: Vec<DateTime>,
        payment: Tracker,
        confirmation: Tracker,
        flip: Tracker,
    ) -> (r: Result<Tentative, TentativeError>)
        ensures
            job.is_none() ==> r == Err::<Tentative, TentativeError>(TentativeError::MissingJob),
            job.is_some() && install@.len() == 0 ==> r == Err::<Tentative, TentativeError>(
                TentativeError::NoInstallDate,
            ),
            job.is_some() && install@.len() > 0 ==> r is Ok,
            r matches Ok(t) ==> {
                &&& Some(t.job_spec()) == job
                &&& t.lead_spec() == lead
                &&& t.payment_spec() == payment
                &&& t.confirmation_spec() == confirmation
                &&& t.flip_spec() == flip
                &&& strictly_sorted(t.install_spec())
                &&& forall|k: int| holds_key(t.install_spec(), k) <==> holds_key(install@, k)
            },
    {
        let job = match job {
            Some(j) => j,
            None => return Err(TentativeError::MissingJob),
        };
        if install.len() == 0 {
            return Err(TentativeError::NoInstallDate);
        }
        let mut sorted: Vec<DateTime> = Vec::new();
        let mut i: usize = 0;
        while i < install.len()
            invariant
                i <= install@.len(),
                strictly_sorted(sorted@),
                forall|k: int|
                    holds_key(sorted@, k) <==> exists|j: int|
                        0 <= j < i && #[trigger] install@[j].key() == k,
            decreases install@.len() - i,
        {
            insert_sorted(&mut sorted, install[i]);
            i = i + 1;
        }
        assert(holds_key(sorted@, install@[0].key()));
        Ok(Tentative { job, lead, install: sorted, payment, confirmation, flip })
    }

    pub fn job(&self) -> (r: JobNumber)
        ensures
            r == self.job_spec(),
    {
        self.job
    }

    pub fn lead(&self) -> (r: LeadTimeLine)
        ensures
            r == self.lead_spec(),
    {
        self.lead
    }

    /// The candidate install times, earliest first.
    pub fn install(&self) -> (r: &[DateTime])
        ensures
            r@ == self.install_spec(),
    {
        self.install.as_slice()
    }

    pub fn payment(&self) -> (r: Tracker)
        ensures
            r == self.payment_spec(),
    {
        self.payment
    }

    pub fn confirmation(&self) -> (r: Tracker)
        ensures
            r == self.confirmation_spec(),
    {
        self.confirmation
    }

    pub fn flip(&self) -> (r: Tracker)
        ensures
            r == self.flip_spec(),
    {
        self.flip
    }

    /// The earliest candidate install time.
    pub fn first_install(&self) -> (r: DateTime)
        ensures
            r == self.install_spec()[0],
            self.install_spec().len() > 0,
    {
        proof {
            use_type_invariant(self);
        }
        self.install[0]
    }

    /// Whether the schedule needs attention on `now`, looking `lookahead`
    /// business days ahead of the flip deadline.
    pub fn needs_attention(&self, now: Date, lookahead: LeadTime) -> (r: bool)
        ensures
            r == self.needs_attention_on(now@, lookahead@),
    {
        if !self.payment.is_complete() || !self.confirmation.is_complete() {
            return true;
        }
        if !self.flip.is_complete() {
            let install = self.first_install().date();
            return match self.lead.flip_by(install) {
                None => true,
                Some(flip_by) => now.days() >= Backwards::time(flip_by, lookahead).days(),
            };
        }
        false
    }
}

} // verus!
