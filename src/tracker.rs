//! Milestone trackers: a deadline until the milestone is done, the date it
//! was done afterwards.
use vstd::prelude::*;

use crate::calendar::{advance_forward, Date, Forwards};
use crate::lead_time::{LeadOrDate, LeadTime};

verus! {

/// One milestone of a job.
#[derive(Debug, Clone, Copy, PartialEq, Eq)]
pub enum Tracker {
    /// Pending, due by the date held.
    CompleteBy(Date),
    /// Done on the date held.
    Complete(Date),
}

/// How urgently a milestone must be chased.
#[derive(Debug, Clone, Copy, PartialEq, Eq, Hash)]
pub enum TrackerState {
    /// Due comfortably later than the warning window.
    Watch,
    /// Due within the warning window.
    Warn,
    /// Due today or overdue.
    Late,
    /// Complete.
    Done,
}

/// How a pending deadline on `deadline` reads on `now` with a warning window
/// of `warn_at` business days.
pub open spec fn deadline_state(deadline: int, now: int, warn_at: nat) -> TrackerState {
    if deadline <= now {
        TrackerState::Late
    } else if deadline <= advance_forward(now, warn_at) {
        TrackerState::Warn
    } else {
        TrackerState::Watch
    }
}

impl Tracker {
    /// The state of the tracker on `now` with a warning window of `warn_at`
    /// business days.
    pub open spec fn state_on(self, now: int, warn_at: nat) -> TrackerState {
        match self {
            Tracker::CompleteBy(d) => deadline_state(d@, now, warn_at),
            Tracker::Complete(_) => TrackerState::Done,
        }
    }

    fn date_state(date: Date, now: Date, warn_at: LeadTime) -> (r: TrackerState)
        ensures
            r == deadline_state(date@, now@, warn_at@),
    {
        if date.days() <= now.days() {
            return TrackerState::Late;
        }
        if date.days() <= Forwards::time(now, warn_at).days() {
            return TrackerState::Warn;
        }
        TrackerState::Watch
    }

    /// Classifies the tracker: `Done` once complete; while pending, `Late`
    /// from the deadline on, `Warn` when the deadline falls within `warn_at`
    /// business days of `now`, `Watch` otherwise.
    pub fn state(&self, now: Date, warn_at: LeadTime) -> (r: TrackerState)
        ensures
            r == self.state_on(now@, warn_at@),
    {
        match self {
            Tracker::CompleteBy(date) => Self::date_state(*date, now, warn_at),
            Tracker::Complete(_) => TrackerState::Done,
        }
    }

    /// A pending tracker due `lead` business days after `start`.
    pub fn from_lead(lead: LeadTime, start: Date) -> (r: Tracker)
        ensures
            r matches Tracker::CompleteBy(d) && d@ == advance_forward(start@, lead@),
    {
        Tracker::CompleteBy(Forwards::time(start, lead))
    }

    /// A pending tracker due on `date`.
    pub fn from_date(date: Date) -> (r: Tracker)
        ensures
            r == Tracker::CompleteBy(date),
    {
        Tracker::CompleteBy(date)
    }

    /// A pending tracker due by a lead from `start` or by a date.
    pub fn from_lead_or_date(ld: LeadOrDate, start: Date) -> (r: Tracker)
        ensures
            r matches Tracker::CompleteBy(d) && d@ == ld.resolve_day(start@),
    {
        match ld {
            LeadOrDate::Lead(lead) => Self::from_lead(lead, start),
            LeadOrDate::Date(date) => Self::from_date(date),
        }
    }

    /// True once the milestone is done.
    pub fn is_complete(&self) -> (r: bool)
        ensures
            r == (self is Complete),
    {
        match self {
            Tracker::CompleteBy(_) => false,
            Tracker::Complete(_) => true,
        }
    }

    /// Records the milestone as done on `on`. A tracker that is already
    /// complete keeps its first completion date.
    pub fn mark_complete(&mut self, on: Date)
        ensures
            *final(self) == (match *old(self) {
                Tracker::CompleteBy(_) => Tracker::Complete(on),
                Tracker::Complete(d) => Tracker::Complete(d),
            }),
    {
        if let Tracker::CompleteBy(_) = *self {
            *self = Tracker::Complete(on);
        }
    }
}

/// A complete tracker reads `Done` whatever the date and warning window; a
/// pending one due on the current date reads `Late`.
pub proof fn lemma_tracker_classification(t: Tracker, now: Date, warn_at: LeadTime)
    ensures
        t is Complete ==> t.state_on(now@, warn_at@) == TrackerState::Done,
        t == Tracker::CompleteBy(now) ==> t.state_on(now@, warn_at@) == TrackerState::Late,
{
}

} // verus!
