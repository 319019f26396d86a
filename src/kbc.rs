//! Cut sizes of KBC drawer boxes, in thousandths of an inch.
use vstd::prelude::*;

use crate::drawer::{Depth, DrawerBox, Height, Inches, Width};

verus! {

/// How much narrower a KBC box is than its nominal width: 0.375".
pub const WIDTH_OFFSET: i64 = 375;

impl Height {
    pub open spec fn kbc_spec(self) -> Inches {
        match self {
            Height::S => Inches(3000),
            Height::M => Inches(4000),
            Height::L => Inches(6000),
            Height::XL => Inches(10000),
        }
    }

    /// Box height.
    pub fn kbc(self) -> (r: Inches)
        ensures
            r == self.kbc_spec(),
    {
        match self {
            Height::S => Inches(3000),
            Height::M => Inches(4000),
            Height::L => Inches(6000),
            Height::XL => Inches(10000),
        }
    }
}

impl Width {
    /// Box width: the nominal width less 0.375".
    pub fn kbc(self) -> (r: Inches)
        requires
            self.0.0 >= i64::MIN + WIDTH_OFFSET,
        ensures
            r.0 == self.0.0 - WIDTH_OFFSET,
    {
        Inches(self.0.0 - WIDTH_OFFSET)
    }
}

impl Depth {
    pub open spec fn kbc_spec(self) -> Inches {
        match self {
            Depth::D12 => Inches(11750),
            Depth::D14 => Inches(13312),
            Depth::D16 => Inches(15683),
            Depth::D20 => Inches(19625),
        }
    }

    /// Box depth.
    pub fn kbc(self) -> (r: Inches)
        ensures
            r == self.kbc_spec(),
    {
        match self {
            Depth::D12 => Inches(11750),
            Depth::D14 => Inches(13312),
            Depth::D16 => Inches(15683),
            Depth::D20 => Inches(19625),
        }
    }
}

/// The cut sizes of a KBC drawer box.
#[derive(Debug, Clone, Copy, PartialEq, Eq, PartialOrd, Ord, Hash, Default)]
pub struct KBCBox {
    pub height: Inches,
    pub width: Inches,
    pub depth: Inches,
}

impl KBCBox {
    /// The KBC cut sizes of a drawer box.
    pub fn from_drawer(drawer: &DrawerBox) -> (r: KBCBox)
        requires
            drawer.width.0.0 >= i64::MIN + WIDTH_OFFSET,
        ensures
            r.height == drawer.height.kbc_spec(),
            r.width.0 == drawer.width.0.0 - WIDTH_OFFSET,
            r.depth == drawer.depth.kbc_spec(),
    {
        KBCBox {
            height: drawer.height.kbc(),
            width: drawer.width.kbc(),
            depth: drawer.depth.kbc(),
        }
    }
}

} // verus!
