//! A job's install schedule record and its paperwork follow-up.
use vstd::prelude::*;

use crate::calendar::Date;
use crate::notes::JobNotes;

verus! {

/// Day number of January 1, 1970, the default install date.
pub const EPOCH_DAY: i32 = 719163;

/// One item on order and its lead in business days.
#[derive(Debug, Clone, PartialEq, Eq)]
pub struct LeadItem {
    pub name: String,
    pub lead: usize,
}

/// A job's install date, its gates, and what it waits on.
#[derive(Debug, Clone)]
pub struct Schedule {
    pub install: Date,
    pub deposit: bool,
    pub confirmation: bool,
    pub marked_ready: bool,
    pub note: JobNotes,
    pub lead_items: Vec<LeadItem>,
    pub process: usize,
    pub paperwork: usize,
}

impl Default for Schedule {
    /// No gate passed, empty notes, one EMC order of 15 business days, and
    /// five business days each for processing and paperwork, installing on
    /// January 1, 1970.
    fn default() -> (r: Schedule)
        ensures
            r.install@ == EPOCH_DAY,
            !r.deposit,
            !r.confirmation,
            !r.marked_ready,
            r.note.tags@ == Seq::<Seq<char>>::empty(),
            r.note.price == 0,
            r.note.spaces == 0,
            r.lead_items@.len() == 1,
            r.lead_items@[0].name@ == "EMC"@,
            r.lead_items@[0].lead == 15,
            r.process == 5,
            r.paperwork == 5,
    {
        let install = match Date::from_days(EPOCH_DAY) {
            Some(d) => d,
            None => Date::min_value(),
        };
        Schedule {
            install,
            deposit: false,
            confirmation: false,
            marked_ready: false,
            note: JobNotes::new(),
            lead_items: vec![LeadItem { name: String::from_str("EMC"), lead: 15 }],
            process: 5,
            paperwork: 5,
        }
    }
}

/// Where one piece of paperwork stands.
#[derive(Debug, Clone, Copy, PartialEq, Eq)]
pub enum FollowUp {
    /// Not asked for yet.
    Missing,
    /// To be chased on the date held.
    Date(Date),
    /// Received.
    Done,
}

impl Default for FollowUp {
    fn default() -> (r: FollowUp)
        ensures
            r == FollowUp::Missing,
    {
        FollowUp::Missing
    }
}

/// The paperwork follow-up of a job.
#[derive(Debug, Clone)]
pub struct PaperworkFollowUp {
    pub confirm: FollowUp,
    pub deposit: FollowUp,
    pub marked: FollowUp,
    pub lead: Option<usize>,
    pub notes: String,
}

impl PaperworkFollowUp {
    /// Nothing asked for yet, no lead and no notes.
    pub fn new() -> (r: PaperworkFollowUp)
        ensures
            r.confirm == FollowUp::Missing,
            r.deposit == FollowUp::Missing,
            r.marked == FollowUp::Missing,
            r.lead is None,
            r.notes@ == Seq::<char>::empty(),
    {
        PaperworkFollowUp {
            confirm: FollowUp::default(),
            deposit: FollowUp::default(),
            marked: FollowUp::default(),
            lead: None,
            notes: String::new(),
        }
    }
}

impl Default for PaperworkFollowUp {
    fn default() -> (r: PaperworkFollowUp)
        ensures
            r.confirm == FollowUp::Missing,
            r.deposit == FollowUp::Missing,
            r.marked == FollowUp::Missing,
            r.lead is None,
            r.notes@ == Seq::<char>::empty(),
    {
        PaperworkFollowUp::new()
    }
}

} // verus!
