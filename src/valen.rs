//! Cut sizes of Valen drawer boxes, in millimeters. A part size of -1 marks
//! a nominal size that Valen does not make.
use vstd::prelude::*;

use crate::drawer::{Depth, DrawerBox, Height, Millimeters, Width};

verus! {

/// `x / d` rounded to the nearest integer, halves away from zero.
pub open spec fn round_div(x: int, d: int) -> int
    recommends
        d > 0,
{
    if x >= 0 {
        (x + d / 2) / d
    } else {
        -((-x + d / 2) / d)
    }
}

/// A width in thousandths of an inch, less `offset` millimeters, rounded to
/// whole millimeters (an inch being 25.4 mm).
pub open spec fn inset_mm(thousandths: int, offset: int) -> int {
    round_div(thousandths * 254 - offset * 10000, 10000)
}

fn inset(thousandths: i64, offset: i64) -> (r: Millimeters)
    requires
        0 <= offset <= 100,
    ensures
        r.0 == inset_mm(thousandths as int, offset as int),
{
    let x: i128 = thousandths as i128 * 254 - offset as i128 * 10000;
    assert(-9223372036854775808 * 254 - 1000000 <= x <= 9223372036854775807 * 254) by (
    nonlinear_arith)
        requires
            x == thousandths * 254 - offset * 10000,
            -9223372036854775808 <= thousandths <= 9223372036854775807,
            0 <= offset <= 100,
    ;
    if x >= 0 {
        Millimeters(((x + 5000) / 10000) as i64)
    } else {
        Millimeters(-(((-x + 5000) / 10000) as i64))
    }
}

impl Depth {
    /// Box depth.
    pub fn valen_box(self) -> (r: Millimeters)
        ensures
            r == self.valen_box_spec(),
    {
        match self {
            Depth::D12 => Millimeters(-1i64),
            Depth::D14 => Millimeters(327),
            Depth::D16 => Millimeters(-1i64),
            Depth::D20 => Millimeters(487),
        }
    }

    /// Bottom depth.
    pub fn valen_bottom(self) -> (r: Millimeters)
        ensures
            r == self.valen_bottom_spec(),
    {
        match self {
            Depth::D12 => Millimeters(-1i64),
            Depth::D14 => Millimeters(318),
            Depth::D16 => Millimeters(-1i64),
            Depth::D20 => Millimeters(478),
        }
    }
}

impl Width {
    /// Box width: the nominal width less 16 mm, to the nearest millimeter.
    pub fn valen_box(self) -> (r: Millimeters)
        ensures
            r.0 == inset_mm(self.0.0 as int, 16),
    {
        inset(self.0.0, 16)
    }

    /// Bottom width: the nominal width less 30 mm, to the nearest millimeter.
    pub fn valen_bottom(self) -> (r: Millimeters)
        ensures
            r.0 == inset_mm(self.0.0 as int, 30),
    {
        inset(self.0.0, 30)
    }
}

impl Height {
    /// Box height.
    pub fn valen_box(self) -> (r: Millimeters)
        ensures
            r == self.valen_box_spec(),
    {
        match self {
            Height::S => Millimeters(70),
            Height::M => Millimeters(115),
            Height::L => Millimeters(170),
            Height::XL => Millimeters(253),
        }
    }
}

/// The cut sizes of a Valen drawer box.
#[derive(Debug, Clone, Copy, PartialEq, Eq, PartialOrd, Ord, Hash)]
pub struct ValenBox {
    pub width: Millimeters,
    pub height: Millimeters,
    pub depth: Millimeters,
    pub bottom_depth: Millimeters,
    pub bottom_width: Millimeters,
}

#[derive(Debug, Clone, Copy, PartialEq, Eq, PartialOrd, Ord, Hash)]
pub struct ValenFront {
    pub width: Millimeters,
    pub height: Millimeters,
}

#[derive(Debug, Clone, Copy, PartialEq, Eq, PartialOrd, Ord, Hash)]
pub struct ValenBack {
    pub width: Millimeters,
    pub height: Millimeters,
}

#[derive(Debug, Clone, Copy, PartialEq, Eq, PartialOrd, Ord, Hash)]
pub struct ValenSideLogo {
    pub depth: Millimeters,
    pub height: Millimeters,
}

#[derive(Debug, Clone, Copy, PartialEq, Eq, PartialOrd, Ord, Hash)]
pub struct ValenSidePlane {
    pub depth: Millimeters,
    pub height: Millimeters,
}

#[derive(Debug, Clone, Copy, PartialEq, Eq, PartialOrd, Ord, Hash)]
pub struct ValenBottom {
    pub depth: Millimeters,
    pub width: Millimeters,
}

impl DrawerBox {
    /// The Valen cut sizes of this drawer box.
    pub fn valen(&self) -> (r: ValenBox)
        ensures
            r.width.0 == inset_mm(self.width.0.0 as int, 16),
            r.bottom_width.0 == inset_mm(self.width.0.0 as int, 30),
            r.height == self.height.valen_box_spec(),
            r.depth == self.depth.valen_box_spec(),
            r.bottom_depth == self.depth.valen_bottom_spec(),
    {
        ValenBox {
            width: self.width.valen_box(),
            height: self.height.valen_box(),
            depth: self.depth.valen_box(),
            bottom_depth: self.depth.valen_bottom(),
            bottom_width: self.width.valen_bottom(),
        }
    }
}

impl Height {
    pub open spec fn valen_box_spec(self) -> Millimeters {
        match self {
            Height::S => Millimeters(70),
            Height::M => Millimeters(115),
            Height::L => Millimeters(170),
            Height::XL => Millimeters(253),
        }
    }
}

impl Depth {
    pub open spec fn valen_box_spec(self) -> Millimeters {
        match self {
            Depth::D12 => Millimeters(-1i64),
            Depth::D14 => Millimeters(327),
            Depth::D16 => Millimeters(-1i64),
            Depth::D20 => Millimeters(487),
        }
    }

    pub open spec fn valen_bottom_spec(self) -> Millimeters {
        match self {
            Depth::D12 => Millimeters(-1i64),
            Depth::D14 => Millimeters(318),
            Depth::D16 => Millimeters(-1i64),
            Depth::D20 => Millimeters(478),
        }
    }
}

impl ValenBox {
    pub fn front(&self) -> (r: ValenFront)
        ensures
            r == (ValenFront { width: self.width, height: self.height }),
    {
        ValenFront { width: self.width, height: self.height }
    }

    pub fn back(&self) -> (r: ValenBack)
        ensures
            r == (ValenBack { width: self.width, height: self.height }),
    {
        ValenBack { width: self.width, height: self.height }
    }

    pub fn side_logo(&self) -> (r: ValenSideLogo)
        ensures
            r == (ValenSideLogo { depth: self.depth, height: self.height }),
    {
        ValenSideLogo { depth: self.depth, height: self.height }
    }

    pub fn side_plane(&self) -> (r: ValenSidePlane)
        ensures
            r == (ValenSidePlane { depth: self.depth, height: self.height }),
    {
        ValenSidePlane { depth: self.depth, height: self.height }
    }

    pub fn bottom(&self) -> (r: ValenBottom)
        ensures
            r == (ValenBottom { depth: self.bottom_depth, width: self.bottom_width }),
    {
        ValenBottom { depth: self.bottom_depth, width: self.bottom_width }
    }
}

} // verus!
