//! Job identifiers and dashboard links.
use vstd::prelude::*;

use crate::notes::JobNotes;
use crate::text::{decimal, push_decimal};

verus! {

/// A job's number on the dashboard; never zero.
#[derive(Debug, Clone, Copy, PartialEq, Eq, PartialOrd, Ord, Hash)]
pub struct JobNumber {
    number: u128,
}

impl View for JobNumber {
    type V = nat;

    closed spec fn view(&self) -> nat {
        self.number as nat
    }
}

impl JobNumber {
    #[verifier::type_invariant]
    spec fn nonzero(self) -> bool {
        self.number != 0
    }

    /// The job number `number`; `None` for zero.
    pub fn new(number: u128) -> (r: Option<JobNumber>)
        ensures
            r.is_some() == (number != 0),
            r matches Some(j) ==> j@ == number,
    {
        if number == 0 {
            None
        } else {
            Some(JobNumber { number })
        }
    }

    /// The number itself.
    pub fn get(&self) -> (r: u128)
        ensures
            r == self@,
            r != 0,
    {
        proof {
            use_type_invariant(self);
        }
        self.number
    }
}

/// The dashboard page of job `n`.
pub open spec fn dashboard_url(n: nat) -> Seq<char> {
    "https://dashboard.calclosets.com/?j="@ + decimal(n)
}

fn dashboard_url_string(n: u128) -> (r: String)
    ensures
        r@ == dashboard_url(n as nat),
{
    let mut s = String::from_str("https://dashboard.calclosets.com/?j=");
    push_decimal(&mut s, n);
    s
}

/// A link to a job's dashboard page.
#[derive(Debug, Clone, PartialEq, Eq)]
pub struct JobURL(String);

impl View for JobURL {
    type V = Seq<char>;

    closed spec fn view(&self) -> Seq<char> {
        self.0@
    }
}

impl JobURL {
    /// The dashboard link of `job_number`.
    pub fn from(job_number: JobNumber) -> (r: JobURL)
        ensures
            r@ == dashboard_url(job_number@),
    {
        JobURL(dashboard_url_string(job_number.get()))
    }

    pub fn as_str(&self) -> (r: &str)
        ensures
            r@ == self@,
    {
        self.0.as_str()
    }
}

/// A job's number on the dashboard; never zero.
#[derive(Debug, Clone, Copy, PartialEq, Eq, PartialOrd, Ord, Hash)]
pub struct DashID {
    number: usize,
}

impl View for DashID {
    type V = nat;

    closed spec fn view(&self) -> nat {
        self.number as nat
    }
}

impl DashID {
    #[verifier::type_invariant]
    spec fn nonzero(self) -> bool {
        self.number != 0
    }

    /// The id `number`; `None` for zero.
    pub fn new(number: usize) -> (r: Option<DashID>)
        ensures
            r.is_some() == (number != 0),
            r matches Some(id) ==> id@ == number,
    {
        if number == 0 {
            None
        } else {
            Some(DashID { number })
        }
    }

    pub fn number(&self) -> (r: usize)
        ensures
            r == self@,
            r != 0,
    {
        proof {
            use_type_invariant(self);
        }
        self.number
    }

    /// The job's dashboard link.
    pub fn url(&self) -> (r: String)
        ensures
            r@ == dashboard_url(self@),
    {
        self.url_string()
    }

    /// The job's dashboard link.
    pub fn url_string(&self) -> (r: String)
        ensures
            r@ == dashboard_url(self@),
    {
        dashboard_url_string(self.number() as u128)
    }

    /// The id in decimal.
    pub fn to_string(&self) -> (r: String)
        ensures
            r@ == decimal(self@),
    {
        let mut s = String::new();
        push_decimal(&mut s, self.number() as u128);
        s
    }
}

/// A dashboard job with its notes.
#[derive(Debug, Clone)]
pub struct DashJob {
    pub id: DashID,
    pub notes: JobNotes,
}

impl DashJob {
    /// The job `id` with empty notes.
    pub fn from(id: DashID) -> (r: DashJob)
        ensures
            r.id == id,
            r.notes.tags@ == Seq::<Seq<char>>::empty(),
            r.notes.price == 0,
            r.notes.spaces == 0,
    {
        DashJob { id, notes: JobNotes::new() }
    }

    /// The job's dashboard link.
    pub fn url(&self) -> (r: String)
        ensures
            r@ == dashboard_url(self.id@),
    {
        self.id.url()
    }

    pub open spec fn text(self) -> Seq<char> {
        decimal(self.id@) + ": "@ + self.notes.text()
    }

    /// The id, a colon, and the notes.
    pub fn to_string(&self) -> (r: String)
        ensures
            r@ == self.text(),
    {
        let mut s = self.id.to_string();
        s.append(": ");
        let notes = self.notes.to_string();
        s.append(notes.as_str());
        s
    }
}

} // verus!
