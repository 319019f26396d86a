//! Drawer-box catalog: nominal sizes, and the cut sizes that two suppliers
//! (Valen and KBC) work to.
use vstd::prelude::*;

verus! {

/// A length in thousandths of an inch.
#[derive(Debug, Clone, Copy, PartialEq, Eq, PartialOrd, Ord, Hash, Default)]
pub struct Inches(pub i64);

/// A length in whole millimeters.
#[derive(Debug, Clone, Copy, PartialEq, Eq, PartialOrd, Ord, Hash, Default)]
pub struct Millimeters(pub i64);

impl Inches {
    /// `n` whole inches.
    pub fn whole(n: i32) -> (r: Inches)
        ensures
            r.0 == n * 1000,
    {
        Inches(n as i64 * 1000)
    }

    /// `n` thousandths of an inch.
    pub fn from_thousandths(n: i64) -> (r: Inches)
        ensures
            r.0 == n,
    {
        Inches(n)
    }

    pub fn thousandths(self) -> (r: i64)
        ensures
            r == self.0,
    {
        self.0
    }
}

impl Millimeters {
    pub fn from_number(n: i64) -> (r: Millimeters)
        ensures
            r.0 == n,
    {
        Millimeters(n)
    }

    pub fn into_number(self) -> (r: i64)
        ensures
            r == self.0,
    {
        self.0
    }
}

/// Drawer heights.
#[derive(Debug, Clone, Copy, PartialEq, Eq, PartialOrd, Ord, Hash)]
pub enum Height {
    S,
    M,
    L,
    XL,
}

/// Drawer depths, in nominal inches.
#[derive(Debug, Clone, Copy, PartialEq, Eq, PartialOrd, Ord, Hash)]
pub enum Depth {
    D12,
    D14,
    D16,
    D20,
}

/// A drawer's nominal width.
#[derive(Debug, Clone, Copy, PartialEq, Eq, PartialOrd, Ord, Hash)]
pub struct Width(pub Inches);

impl Default for Height {
    fn default() -> (r: Height)
        ensures
            r == Height::L,
    {
        Height::L
    }
}

impl Default for Depth {
    fn default() -> (r: Depth)
        ensures
            r == Depth::D14,
    {
        Depth::D14
    }
}

impl Default for Width {
    fn default() -> (r: Width)
        ensures
            r.0.0 == 24000,
    {
        Width::standard_24()
    }
}

impl Width {
    pub fn standard_18() -> (r: Width)
        ensures
            r.0.0 == 18000,
    {
        Width(Inches(18000))
    }

    pub fn standard_24() -> (r: Width)
        ensures
            r.0.0 == 24000,
    {
        Width(Inches(24000))
    }

    pub fn standard_30() -> (r: Width)
        ensures
            r.0.0 == 30000,
    {
        Width(Inches(30000))
    }

    pub fn standard_36() -> (r: Width)
        ensures
            r.0.0 == 36000,
    {
        Width(Inches(36000))
    }

    pub fn custom(width: Inches) -> (r: Width)
        ensures
            r.0 == width,
    {
        Width(width)
    }

    pub fn inches(self) -> (r: Inches)
        ensures
            r == self.0,
    {
        self.0
    }
}

/// A drawer box in nominal sizes.
#[derive(Debug, Clone, Copy, PartialEq, Eq, PartialOrd, Ord, Hash)]
pub struct DrawerBox {
    pub height: Height,
    pub width: Width,
    pub depth: Depth,
}

impl Default for DrawerBox {
    fn default() -> (r: DrawerBox)
        ensures
            r.height == Height::L,
            r.width.0.0 == 24000,
            r.depth == Depth::D14,
    {
        DrawerBox { height: Height::default(), width: Width::default(), depth: Depth::default() }
    }
}

/// A quantity of one drawer box.
#[derive(Debug, Clone, Copy, PartialEq, Eq, PartialOrd, Ord, Hash, Default)]
pub struct DrawerBoxLine {
    pub quantity: isize,
    pub drawer_box: DrawerBox,
}

impl Height {
    pub open spec fn text(self) -> Seq<char> {
        match self {
            Height::S => "S"@,
            Height::M => "M"@,
            Height::L => "L"@,
            Height::XL => "XL"@,
        }
    }

    /// The size letter.
    pub fn to_string(&self) -> (r: String)
        ensures
            r@ == self.text(),
    {
        match self {
            Height::S => String::from_str("S"),
            Height::M => String::from_str("M"),
            Height::L => String::from_str("L"),
            Height::XL => String::from_str("XL"),
        }
    }
}

impl Depth {
    pub open spec fn text(self) -> Seq<char> {
        match self {
            Depth::D12 => "12\""@,
            Depth::D14 => "14\""@,
            Depth::D16 => "16\""@,
            Depth::D20 => "20\""@,
        }
    }

    /// The nominal depth in inches, with an inch mark.
    pub fn to_string(&self) -> (r: String)
        ensures
            r@ == self.text(),
    {
        match self {
            Depth::D12 => String::from_str("12\""),
            Depth::D14 => String::from_str("14\""),
            Depth::D16 => String::from_str("16\""),
            Depth::D20 => String::from_str("20\""),
        }
    }
}

} // verus!
