//! The encodings that results are persisted in.
use vstd::prelude::*;

verus! {

/// File extensions that the open dialog offers.
pub const SAVEFORMATS: [&'static str; 2] = ["png", "jpg"];

/// The encoding chosen for persisted results; PNG unless changed.
#[derive(Debug, Clone, Copy, PartialEq, Eq, Structural)]
pub enum SaveFormat {
    Png,
    Jpeg,
}

impl Default for SaveFormat {
    fn default() -> (r: SaveFormat)
        ensures
            r == SaveFormat::Png,
    {
        SaveFormat::Png
    }
}

impl SaveFormat {
    /// Every format, in the order a picker lists them.
    pub const ALL: [SaveFormat; 2] = [SaveFormat::Png, SaveFormat::Jpeg];

    /// The name of the format as shown to a user.
    pub fn to_string(&self) -> (r: String)
        ensures
            *self == SaveFormat::Png ==> r@ == "png"@,
            *self == SaveFormat::Jpeg ==> r@ == "jpeg"@,
    {
        match self {
            SaveFormat::Png => String::from_str("png"),
            SaveFormat::Jpeg => String::from_str("jpeg"),
        }
    }

    /// The extension that artifacts in this format are named with.
    pub fn extension(&self) -> (r: &'static str)
        ensures
            r@ == extension_of(*self),
    {
        proof {
            reveal_strlit("png");
            reveal_strlit("jpg");
        }
        match self {
            SaveFormat::Png => "png",
            SaveFormat::Jpeg => "jpg",
        }
    }
}

pub open spec fn extension_of(f: SaveFormat) -> Seq<char> {
    match f {
        SaveFormat::Png => seq!['p', 'n', 'g'],
        SaveFormat::Jpeg => seq!['j', 'p', 'g'],
    }
}

} // verus!
