//! Free-text notes on a job: tags, price, access and tear-out.
use vstd::prelude::*;

use crate::text::{decimal, push_decimal};

verus! {

#[verifier::external_type_specification]
#[verifier::external_body]
pub struct ExNonEmptyString(non_empty_string::NonEmptyString);

/// Relies on `NonEmptyString::new`, which returns `Err` holding the string
/// it was given exactly when that string is empty.
pub assume_specification[ non_empty_string::NonEmptyString::new ](string: String) -> (r: Result<
    non_empty_string::NonEmptyString,
    String,
>)
    ensures
        r is Err <==> string@.len() == 0,
        r matches Err(s) ==> s@ == string@,
;

/// Relies on `NonEmptyString::into_inner`, which hands back the wrapped
/// string; `NonEmptyString::new`, the one safe constructor, refuses an
/// empty one.
pub assume_specification[ non_empty_string::NonEmptyString::into_inner ](
    s: non_empty_string::NonEmptyString,
) -> (r: String)
    ensures
        r@.len() > 0,
;

/// A non-empty label on a job.
#[derive(Debug)]
pub struct Tag(String);

impl View for Tag {
    type V = Seq<char>;

    closed spec fn view(&self) -> Seq<char> {
        self.0@
    }
}

impl Tag {
    #[verifier::type_invariant]
    spec fn not_empty(self) -> bool {
        self.0@.len() > 0
    }

    /// A tag holding the text of `tag`.
    pub fn new(tag: non_empty_string::NonEmptyString) -> (r: Tag)
        ensures
            r@.len() > 0,
    {
        Tag(tag.into_inner())
    }

    /// A tag holding `value`; `None` for an empty string.
    pub fn try_from_str(value: &str) -> (r: Option<Tag>)
        ensures
            r is Some <==> value@.len() > 0,
            r matches Some(t) ==> t@ == value@,
    {
        if value.is_empty() {
            None
        } else {
            Some(Tag(value.to_owned()))
        }
    }

    /// A tag made from `value`; an empty string is handed back as the error.
    pub fn try_from_string(value: String) -> (r: Result<Tag, String>)
        ensures
            r is Ok <==> value@.len() > 0,
            r matches Ok(t) ==> t@.len() > 0,
            r matches Err(e) ==> e@ == value@,
    {
        match non_empty_string::NonEmptyString::new(value) {
            Ok(non_empty) => Ok(Tag::new(non_empty)),
            Err(empty) => Err(empty),
        }
    }

    pub fn as_str(&self) -> (r: &str)
        ensures
            r@ == self@,
            r@.len() > 0,
    {
        proof {
            use_type_invariant(self);
        }
        self.0.as_str()
    }
}

impl PartialEq for Tag {
    fn eq(&self, other: &Tag) -> (r: bool)
        ensures
            r == (self@ == other@),
    {
        self.0 == other.0
    }
}

impl vstd::std_specs::cmp::PartialEqSpecImpl for Tag {
    open spec fn obeys_eq_spec() -> bool {
        true
    }

    open spec fn eq_spec(&self, other: &Tag) -> bool {
        self@ == other@
    }
}

/// The texts of a sequence of tags.
pub open spec fn texts(tags: Seq<Tag>) -> Seq<Seq<char>> {
    tags.map_values(|t: Tag| t@)
}

/// An ordered list of tags.
#[derive(Debug, Clone)]
pub struct Tags(Vec<Tag>);

impl View for Tags {
    type V = Seq<Seq<char>>;

    closed spec fn view(&self) -> Seq<Seq<char>> {
        texts(self.0@)
    }
}

/// `s` without the elements equal to `x`, order kept.
pub open spec fn without(s: Seq<Seq<char>>, x: Seq<char>) -> Seq<Seq<char>> {
    s.filter(|e: Seq<char>| e != x)
}

impl Tags {
    pub fn new() -> (r: Tags)
        ensures
            r@ == Seq::<Seq<char>>::empty(),
    {
        Tags(Vec::new())
    }

    /// Adds `tag` at the end.
    pub fn add(&mut self, tag: Tag)
        ensures
            final(self)@ == old(self)@.push(tag@),
    {
        self.0.push(tag);
        assert(texts(self.0@) =~= texts(old(self).0@).push(tag@));
    }

    /// Removes every tag equal to `tag`.
    pub fn remove(&mut self, tag: &Tag)
        ensures
            final(self)@ == without(old(self)@, tag@),
    {
        let ghost all = self@;
        let mut kept: Vec<Tag> = Vec::new();
        let mut i: usize = 0;
        while i < self.0.len()
            invariant
                i <= self.0@.len(),
                all == texts(self.0@),
                texts(kept@) == without(all.subrange(0, i as int), tag@),
            decreases self.0@.len() - i,
        {
            let ghost before = kept@;
            if self.0[i] != *tag {
                kept.push(self.0[i].clone());
            }
            proof {
                reveal(Seq::filter);
                let pre = all.subrange(0, i as int);
                let next = all.subrange(0, i + 1);
                assert(next.drop_last() =~= pre);
                assert(next.last() == self.0@[i as int]@);
                assert(texts(kept@) =~= without(next, tag@));
            }
            i = i + 1;
        }
        assert(all.subrange(0, all.len() as int) =~= all);
        self.0 = kept;
    }

    /// Removes every tag.
    pub fn clear(&mut self)
        ensures
            final(self)@ == Seq::<Seq<char>>::empty(),
    {
        self.0.clear();
        assert(texts(self.0@) =~= Seq::<Seq<char>>::empty());
    }

    /// The tags in order.
    pub fn iter(&self) -> (r: &[Tag])
        ensures
            texts(r@) == self@,
    {
        self.0.as_slice()
    }

    /// The tags, each followed by a comma and a space.
    pub open spec fn text(self) -> Seq<char> {
        listed(self@)
    }

    pub fn to_string(&self) -> (r: String)
        ensures
            r@ == self.text(),
    {
        let mut s = String::new();
        let mut i: usize = 0;
        while i < self.0.len()
            invariant
                i <= self.0@.len(),
                s@ == listed(texts(self.0@).subrange(0, i as int)),
            decreases self.0@.len() - i,
        {
            s.append(self.0[i].as_str());
            s.append(", ");
            assert(texts(self.0@).subrange(0, i + 1).drop_last() =~= texts(self.0@).subrange(
                0,
                i as int,
            ));
            i = i + 1;
        }
        assert(texts(self.0@).subrange(0, self.0@.len() as int) =~= texts(self.0@));
        s
    }
}

/// Each text followed by `", "`.
pub open spec fn listed(s: Seq<Seq<char>>) -> Seq<char>
    decreases s.len(),
{
    if s.len() == 0 {
        Seq::empty()
    } else {
        listed(s.drop_last()) + s.last() + ", "@
    }
}

impl Clone for Tag {
    fn clone(&self) -> (r: Tag)
        ensures
            r@ == self@,
    {
        proof {
            use_type_invariant(self);
        }
        Tag(self.0.clone())
    }
}

} // verus!

verus! {

/// A number of floors; at least one.
#[derive(Debug, Clone, Copy, PartialEq, Eq, PartialOrd, Ord, Hash)]
pub struct Floors {
    count: usize,
}

impl View for Floors {
    type V = nat;

    closed spec fn view(&self) -> nat {
        self.count as nat
    }
}

impl Floors {
    #[verifier::type_invariant]
    spec fn at_least_one(self) -> bool {
        self.count >= 1
    }

    /// `count` floors; `None` for zero.
    pub fn new(count: usize) -> (r: Option<Floors>)
        ensures
            r is Some <==> count >= 1,
            r matches Some(f) ==> f@ == count,
    {
        if count >= 1 {
            Some(Floors { count })
        } else {
            None
        }
    }

    pub fn get(&self) -> (r: usize)
        ensures
            r == self@,
            r >= 1,
    {
        proof {
            use_type_invariant(self);
        }
        self.count
    }

    pub open spec fn text(self) -> Seq<char> {
        if self@ == 1 {
            "1st floor"@
        } else {
            decimal(self@) + " floors"@
        }
    }

    /// "1st floor", or the number followed by " floors".
    pub fn to_string(&self) -> (r: String)
        ensures
            r@ == self.text(),
    {
        if self.get() == 1 {
            String::from_str("1st floor")
        } else {
            let mut s = String::new();
            push_decimal(&mut s, self.get() as u128);
            s.append(" floors");
            s
        }
    }
}

impl Default for Floors {
    fn default() -> (r: Floors)
        ensures
            r@ == 1,
    {
        Floors { count: 1 }
    }
}

/// How the installers reach the space.
#[derive(Debug, Clone, PartialEq, Eq)]
pub enum Access {
    House(Floors),
    TownHouse(Floors),
    Condo(String),
    Custom(String),
}

impl Access {
    pub open spec fn text(self) -> Seq<char> {
        match self {
            Access::House(f) => decimal(f@) + " floor house"@,
            Access::TownHouse(f) => decimal(f@) + " floor townhouse"@,
            Access::Condo(name) => name@ + " condo"@,
            Access::Custom(access) => access@,
        }
    }

    pub fn to_string(&self) -> (r: String)
        ensures
            r@ == self.text(),
    {
        let mut s = String::new();
        match self {
            Access::House(f) => {
                push_decimal(&mut s, f.get() as u128);
                s.append(" floor house");
            },
            Access::TownHouse(f) => {
                push_decimal(&mut s, f.get() as u128);
                s.append(" floor townhouse");
            },
            Access::Condo(name) => {
                s.append(name.as_str());
                s.append(" condo");
            },
            Access::Custom(access) => {
                s.append(access.as_str());
            },
        }
        s
    }
}

impl Default for Access {
    fn default() -> (r: Access)
        ensures
            r matches Access::House(f) && f@ == 1,
    {
        Access::House(Floors::default())
    }
}

/// What has to be torn out before the install.
#[derive(Debug, Clone, PartialEq, Eq)]
pub enum TearOut {
    Nothing,
    LightWire,
    Wire,
    HeavyWire,
    VentilatedWood,
    CCSystem,
    Custom(String),
}

impl TearOut {
    pub open spec fn text(self) -> Seq<char> {
        match self {
            TearOut::Nothing => "no tear out"@,
            TearOut::LightWire => "light wire tear out"@,
            TearOut::Wire => "wire tear out"@,
            TearOut::HeavyWire => "heavy wire tear out"@,
            TearOut::VentilatedWood => "ventilated wood tear out"@,
            TearOut::CCSystem => "CC tear out"@,
            TearOut::Custom(t) => t@,
        }
    }

    pub fn to_string(&self) -> (r: String)
        ensures
            r@ == self.text(),
    {
        match self {
            TearOut::Nothing => String::from_str("no tear out"),
            TearOut::LightWire => String::from_str("light wire tear out"),
            TearOut::Wire => String::from_str("wire tear out"),
            TearOut::HeavyWire => String::from_str("heavy wire tear out"),
            TearOut::VentilatedWood => String::from_str("ventilated wood tear out"),
            TearOut::CCSystem => String::from_str("CC tear out"),
            TearOut::Custom(t) => t.clone(),
        }
    }
}

impl Default for TearOut {
    fn default() -> (r: TearOut)
        ensures
            r == TearOut::Nothing,
    {
        TearOut::Nothing
    }
}

/// The notes kept on a dashboard job.
#[derive(Debug, Clone)]
pub struct JobNotes {
    pub tags: Tags,
    pub price: usize,
    pub spaces: usize,
    pub access: Access,
    pub tear_out: TearOut,
}

impl JobNotes {
    /// Empty notes: no tags, no price, no spaces, a one-floor house and no
    /// tear-out.
    pub fn new() -> (r: JobNotes)
        ensures
            r.tags@ == Seq::<Seq<char>>::empty(),
            r.price == 0,
            r.spaces == 0,
            r.access matches Access::House(f) && f@ == 1,
            r.tear_out == TearOut::Nothing,
    {
        JobNotes {
            tags: Tags::new(),
            price: 0,
            spaces: 0,
            access: Access::default(),
            tear_out: TearOut::default(),
        }
    }

    pub open spec fn text(self) -> Seq<char> {
        self.tags.text() + "$"@ + decimal(self.price as nat) + ", "@ + decimal(
            self.spaces as nat,
        ) + " spaces, "@ + self.access.text() + ", "@ + self.tear_out.text()
    }

    /// The tags, then price, spaces, access and tear-out, comma separated.
    pub fn to_string(&self) -> (r: String)
        ensures
            r@ == self.text(),
    {
        let mut s = self.tags.to_string();
        s.append("$");
        push_decimal(&mut s, self.price as u128);
        s.append(", ");
        push_decimal(&mut s, self.spaces as u128);
        s.append(" spaces, ");
        let access = self.access.to_string();
        s.append(access.as_str());
        s.append(", ");
        let tear_out = self.tear_out.to_string();
        s.append(tear_out.as_str());
        s
    }
}

impl Default for JobNotes {
    fn default() -> (r: JobNotes)
        ensures
            r.tags@ == Seq::<Seq<char>>::empty(),
            r.price == 0,
            r.spaces == 0,
            r.access matches Access::House(f) && f@ == 1,
            r.tear_out == TearOut::Nothing,
    {
        JobNotes::new()
    }
}

} // verus!
