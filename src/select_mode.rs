//! The transform a session applies next.
use vstd::prelude::*;

verus! {

/// The transform picked for the next conversion; grayscale unless changed.
#[derive(Debug, Clone, Copy, PartialEq, Eq, Structural)]
pub enum SelectMode {
    Gray,
    BitwiseNot,
    HueRotate,
    Blur,
    ToAscii,
    Rotate,
    Add,
}

impl Default for SelectMode {
    fn default() -> (r: SelectMode)
        ensures
            r == SelectMode::Gray,
    {
        SelectMode::Gray
    }
}

/// The label of a mode as shown to a user.
pub open spec fn label(mode: SelectMode) -> Seq<char> {
    match mode {
        SelectMode::Gray => seq!['G', 'r', 'a', 'y'],
        SelectMode::BitwiseNot => seq!['I', 'n', 'v', 'e', 'r', 't'],
        SelectMode::HueRotate => seq!['H', 'u', 'e', 'R', 'o', 't', 'a', 't', 'e'],
        SelectMode::Blur => seq!['B', 'l', 'u', 'r'],
        SelectMode::ToAscii => seq!['T', 'o', 'A', 's', 'c', 'i', 'i'],
        SelectMode::Rotate => seq!['R', 'o', 't', 'a', 't', 'e'],
        SelectMode::Add => seq!['A', 'd', 'd'],
    }
}

impl SelectMode {
    /// Every mode, in the order a picker lists them.
    pub const ALL: [SelectMode; 7] = [
        SelectMode::BitwiseNot,
        SelectMode::Gray,
        SelectMode::HueRotate,
        SelectMode::Blur,
        SelectMode::ToAscii,
        SelectMode::Rotate,
        SelectMode::Add,
    ];

    /// The label of this mode.
    pub fn to_string(&self) -> (r: String)
        ensures
            r@ == label(*self),
    {
        let s = match self {
            SelectMode::Gray => "Gray",
            SelectMode::BitwiseNot => "Invert",
            SelectMode::HueRotate => "HueRotate",
            SelectMode::Blur => "Blur",
            SelectMode::ToAscii => "ToAscii",
            SelectMode::Rotate => "Rotate",
            SelectMode::Add => "Add",
        };
        proof {
            reveal_strlit("Gray");
            reveal_strlit("Invert");
            reveal_strlit("HueRotate");
            reveal_strlit("Blur");
            reveal_strlit("ToAscii");
            reveal_strlit("Rotate");
            reveal_strlit("Add");
        }
        String::from_str(s)
    }

    /// Whether this mode reads a numeric parameter (an angle or a radius).
    pub fn takes_value(&self) -> (r: bool)
        ensures
            r <==> (*self == SelectMode::HueRotate || *self == SelectMode::Blur || *self == SelectMode::Rotate),
    {
        match self {
            SelectMode::HueRotate | SelectMode::Blur | SelectMode::Rotate => true,
            _ => false,
        }
    }
}

} // verus!
