//! A scheduling request: a job's notes, its manufacturer and its own leads.
use vstd::prelude::*;

use crate::calendar::Date;
use crate::job::JobNumber;
use crate::lead_time::{days_or_zero, LeadTime, LeadTimeLine};
use crate::notes::{Access, Tags, TearOut};
use crate::text::{decimal, push_decimal};

verus! {

/// Where the job's parts are ordered from.
#[derive(Debug, Clone, Copy, PartialEq, Eq, Hash)]
pub enum Manufacturer {
    /// No manufactured parts.
    Nothing,
    /// EMC/XMC.
    Central,
    /// CabCon.
    Local,
    /// Custom parts only.
    Custom,
}

impl Manufacturer {
    pub open spec fn lead_days(self) -> nat {
        match self {
            Manufacturer::Nothing => 0,
            Manufacturer::Central => 15,
            Manufacturer::Local => 10,
            Manufacturer::Custom => 0,
        }
    }

    /// The manufacturer's standard lead.
    pub fn lead(&self) -> (r: LeadTime)
        ensures
            r@ == self.lead_days(),
    {
        match self {
            Manufacturer::Nothing => LeadTime::new(0),
            Manufacturer::Central => LeadTime::new(15),
            Manufacturer::Local => LeadTime::new(10),
            Manufacturer::Custom => LeadTime::new(0),
        }
    }

    pub open spec fn text(self) -> Seq<char> {
        match self {
            Manufacturer::Nothing => "None"@,
            Manufacturer::Central => "Central (EMC/XMC)"@,
            Manufacturer::Local => "Local (CabCon)"@,
            Manufacturer::Custom => "Custom"@,
        }
    }

    pub fn to_string(&self) -> (r: String)
        ensures
            r@ == self.text(),
    {
        match self {
            Manufacturer::Nothing => String::from_str("None"),
            Manufacturer::Central => String::from_str("Central (EMC/XMC)"),
            Manufacturer::Local => String::from_str("Local (CabCon)"),
            Manufacturer::Custom => String::from_str("Custom"),
        }
    }
}

impl Default for Manufacturer {
    fn default() -> (r: Manufacturer)
        ensures
            r == Manufacturer::Nothing,
    {
        Manufacturer::Nothing
    }
}

/// What the shop knows of a job when it asks for a schedule.
#[derive(Debug, Clone)]
pub struct Notes {
    pub tags: Tags,
    pub pricing: usize,
    pub spaces: usize,
    pub access: Access,
    pub tear_out: TearOut,
    pub manufacturer: Manufacturer,
    pub custom_lead: Option<LeadTime>,
}

impl Notes {
    /// The order lead: the longer of the manufacturer's and the custom lead.
    pub open spec fn lead_days(self) -> nat {
        let m = self.manufacturer.lead_days();
        let c = days_or_zero(self.custom_lead);
        if m >= c {
            m
        } else {
            c
        }
    }

    /// The order lead: the longer of the manufacturer's and the custom lead.
    pub fn lead_time(&self) -> (r: LeadTime)
        ensures
            r@ == self.lead_days(),
    {
        match self.custom_lead {
            Some(c) => self.manufacturer.lead().max(c),
            None => self.manufacturer.lead(),
        }
    }

    /// The job's lead composition with the given flip and process leads.
    pub fn lead_line(&self, flip: LeadTime, process: LeadTime) -> (r: LeadTimeLine)
        ensures
            r.flip == Some(flip),
            r.process == Some(process),
            r.manufacturer == Some(self.manufacturer.lead_spec()),
            r.custom == self.custom_lead,
            r.order_days() == self.lead_days(),
    {
        LeadTimeLine::new(Some(flip), Some(process), Some(self.manufacturer.lead()), self.custom_lead)
    }

    /// "n space(s)".
    pub fn to_string_spaces(&self) -> (r: String)
        ensures
            r@ == decimal(self.spaces as nat) + " space(s)"@,
    {
        let mut s = String::new();
        push_decimal(&mut s, self.spaces as u128);
        s.append(" space(s)");
        s
    }

    /// The tags, each followed by a space.
    pub fn to_string_tags(&self) -> (r: String)
        ensures
            r@ == spaced(self.tags@),
    {
        let tags = self.tags.iter();
        let mut s = String::new();
        let mut i: usize = 0;
        while i < tags.len()
            invariant
                i <= tags@.len(),
                crate::notes::texts(tags@) == self.tags@,
                s@ == spaced(self.tags@.subrange(0, i as int)),
            decreases tags@.len() - i,
        {
            s.append(tags[i].as_str());
            s.append(" ");
            assert(self.tags@.subrange(0, i + 1).drop_last() =~= self.tags@.subrange(0, i as int));
            i = i + 1;
        }
        assert(self.tags@.subrange(0, tags@.len() as int) =~= self.tags@);
        s
    }

    /// The access, followed by " access".
    pub fn to_string_access(&self) -> (r: String)
        ensures
            r@ == self.access.text() + " access"@,
    {
        let mut s = self.access.to_string();
        s.append(" access");
        s
    }

    /// The tear-out, followed by " tear out".
    pub fn to_string_tear_out(&self) -> (r: String)
        ensures
            r@ == self.tear_out.text() + " tear out"@,
    {
        let mut s = self.tear_out.to_string();
        s.append(" tear out");
        s
    }

    /// "n custom lead", or "no custom" without one.
    pub fn to_string_custom(&self) -> (r: String)
        ensures
            r@ == (match self.custom_lead {
                Some(l) if l@ > 0 => decimal(l@) + " custom lead"@,
                _ => "no custom"@,
            }),
    {
        let custom = match self.custom_lead {
            Some(l) => l.strict(),
            None => None,
        };
        match custom {
            Some(n) => {
                let mut s = String::new();
                push_decimal(&mut s, n as u128);
                s.append(" custom lead");
                s
            },
            None => String::from_str("no custom"),
        }
    }
}

impl Manufacturer {
    pub open spec fn lead_spec(self) -> LeadTime {
        LeadTime(self.lead_days() as usize)
    }
}

/// Each text followed by a space.
pub open spec fn spaced(s: Seq<Seq<char>>) -> Seq<char>
    decreases s.len(),
{
    if s.len() == 0 {
        Seq::empty()
    } else {
        spaced(s.drop_last()) + s.last() + " "@
    }
}

/// A request to schedule a job.
#[derive(Debug, Clone)]
pub struct Request {
    pub job: JobNumber,
    pub notes: Notes,
    pub flip_lead: LeadTime,
    pub process_lead: LeadTime,
}

impl Request {
    /// The lead composition of the request.
    pub open spec fn line(self) -> LeadTimeLine {
        LeadTimeLine {
            flip: Some(self.flip_lead),
            process: Some(self.process_lead),
            manufacturer: Some(self.notes.manufacturer.lead_spec()),
            custom: self.notes.custom_lead,
        }
    }

    /// Order lead plus flip lead plus process lead, where it fits in a
    /// `usize`.
    pub fn lead_time(&self) -> (r: Option<LeadTime>)
        ensures
            r == crate::lead_time::lead_of(self.line().total_days()),
            r matches Some(t) ==> t@ == self.notes.lead_days() + self.flip_lead@
                + self.process_lead@,
    {
        self.notes.lead_line(self.flip_lead, self.process_lead).total()
    }

    /// The earliest install date when work starts on `start`.
    pub fn min_install(&self, start: Date) -> (r: Option<Date>)
        ensures
            r.is_some() == self.line().min_install_day(start@).is_some(),
            r matches Some(d) ==> Some(d@) == self.line().min_install_day(start@),
    {
        self.notes.lead_line(self.flip_lead, self.process_lead).min_install(start)
    }

    /// The latest flip date for an install on `install`.
    pub fn flip_by(&self, install: Date) -> (r: Option<Date>)
        ensures
            r.is_some() == self.line().flip_by_day(install@).is_some(),
            r matches Some(d) ==> Some(d@) == self.line().flip_by_day(install@),
    {
        self.notes.lead_line(self.flip_lead, self.process_lead).flip_by(install)
    }
}

} // verus!
