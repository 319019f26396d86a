//! A one-line summary of what a schedule request says about a job.
use vstd::prelude::*;

use crate::lead_time::LeadTime;
use crate::request::Manufacturer;
use crate::text::{decimal, push_decimal};

verus! {

/// The facts noted when a job is put up for scheduling; each may be blank.
#[derive(Debug, Clone, Default)]
pub struct Note {
    pub pricing: String,
    pub spaces: Option<usize>,
    pub access: String,
    pub tear_out: String,
    pub manufacturer: Option<Manufacturer>,
    pub custom: Option<LeadTime>,
}

pub open spec fn pricing_part(pricing: Seq<char>) -> Seq<char> {
    if pricing.len() == 0 {
        Seq::empty()
    } else {
        "$"@ + pricing + ", "@
    }
}

pub open spec fn spaces_part(spaces: Option<usize>) -> Seq<char> {
    match spaces {
        Some(n) => if n == 0 {
            Seq::empty()
        } else if n == 1 {
            "1 space, "@
        } else {
            decimal(n as nat) + " spaces, "@
        },
        None => Seq::empty(),
    }
}

pub open spec fn access_part(access: Seq<char>) -> Seq<char> {
    if access.len() == 0 {
        Seq::empty()
    } else {
        access + ", "@
    }
}

pub open spec fn tear_out_part(tear_out: Seq<char>) -> Seq<char> {
    if tear_out.len() == 0 {
        Seq::empty()
    } else {
        tear_out + " tear out, "@
    }
}

pub open spec fn manufacturer_part(manufacturer: Option<Manufacturer>) -> Seq<char> {
    match manufacturer {
        Some(Manufacturer::Nothing) => "no manufacturer parts, "@,
        Some(Manufacturer::Central) => "EMC, "@,
        Some(Manufacturer::Local) => "CabCon, "@,
        Some(Manufacturer::Custom) => "Custom Only, "@,
        None => Seq::empty(),
    }
}

pub open spec fn custom_part(custom: Option<LeadTime>) -> Seq<char> {
    match custom {
        Some(l) => decimal(l@) + " custom lead, "@,
        None => Seq::empty(),
    }
}

impl Note {
    /// Each fact that is present, followed by ", ".
    pub open spec fn text(self) -> Seq<char> {
        pricing_part(self.pricing@) + spaces_part(self.spaces) + access_part(self.access@)
            + tear_out_part(self.tear_out@) + manufacturer_part(self.manufacturer) + custom_part(
            self.custom,
        )
    }

    pub fn to_string(&self) -> (r: String)
        ensures
            r@ == self.text(),
    {
        let mut s = String::new();
        push_pricing(&mut s, self.pricing.as_str());
        push_spaces(&mut s, self.spaces);
        push_access(&mut s, self.access.as_str());
        push_tear_out(&mut s, self.tear_out.as_str());
        push_manufacturer(&mut s, self.manufacturer);
        push_custom(&mut s, self.custom);
        assert(s@ =~= self.text());
        s
    }
}

fn push_pricing(s: &mut String, pricing: &str)
    ensures
        final(s)@ == old(s)@ + pricing_part(pricing@),
{
    if !pricing.is_empty() {
        s.append("$");
        s.append(pricing);
        s.append(", ");
    }
    assert(s@ =~= old(s)@ + pricing_part(pricing@));
}

fn push_spaces(s: &mut String, spaces: Option<usize>)
    ensures
        final(s)@ == old(s)@ + spaces_part(spaces),
{
    match spaces {
        Some(n) => {
            if n == 1 {
                s.append("1 space, ");
            } else if n != 0 {
                push_decimal(s, n as u128);
                s.append(" spaces, ");
            }
        },
        None => {},
    }
    assert(s@ =~= old(s)@ + spaces_part(spaces));
}

fn push_access(s: &mut String, access: &str)
    ensures
        final(s)@ == old(s)@ + access_part(access@),
{
    if !access.is_empty() {
        s.append(access);
        s.append(", ");
    }
    assert(s@ =~= old(s)@ + access_part(access@));
}

fn push_tear_out(s: &mut String, tear_out: &str)
    ensures
        final(s)@ == old(s)@ + tear_out_part(tear_out@),
{
    if !tear_out.is_empty() {
        s.append(tear_out);
        s.append(" tear out, ");
    }
    assert(s@ =~= old(s)@ + tear_out_part(tear_out@));
}

fn push_manufacturer(s: &mut String, manufacturer: Option<Manufacturer>)
    ensures
        final(s)@ == old(s)@ + manufacturer_part(manufacturer),
{
    match manufacturer {
        Some(Manufacturer::Nothing) => s.append("no manufacturer parts, "),
        Some(Manufacturer::Central) => s.append("EMC, "),
        Some(Manufacturer::Local) => s.append("CabCon, "),
        Some(Manufacturer::Custom) => s.append("Custom Only, "),
        None => {},
    }
    assert(s@ =~= old(s)@ + manufacturer_part(manufacturer));
}

fn push_custom(s: &mut String, custom: Option<LeadTime>)
    ensures
        final(s)@ == old(s)@ + custom_part(custom),
{
    match custom {
        Some(lead) => {
            push_decimal(s, lead.lax() as u128);
            s.append(" custom lead, ");
        },
        None => {},
    }
    assert(s@ =~= old(s)@ + custom_part(custom));
}

} // verus!
