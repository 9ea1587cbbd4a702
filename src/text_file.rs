//! The handle of a text artifact: where a rendered text-art result is stored.
use vstd::prelude::*;
use crate::artifact::{generate_strings, is_artifact_name, resolve, resolved};

verus! {

/// A text artifact in the result folder, known by its path.
#[derive(Debug)]
pub struct TextFile {
    save_temp_path: String,
}

impl View for TextFile {
    type V = Seq<char>;

    /// The artifact's path.
    closed spec fn view(&self) -> Seq<char> {
        self.save_temp_path@
    }
}

impl TextFile {
    /// A fresh text artifact in `result_folder`, under a random name with the
    /// extension `txt`.
    pub fn new(result_folder: &str) -> (r: TextFile)
        ensures
            exists|name: Seq<char>| is_artifact_name(name) && r@ == resolved(result_folder@, name, seq!['t', 'x', 't']),
    {
        let name = generate_strings();
        let r = TextFile::with_name(result_folder, name.as_str());
        assert(is_artifact_name(name@));
        r
    }

    /// The text artifact `name.txt` in `result_folder`.
    pub fn with_name(result_folder: &str, name: &str) -> (r: TextFile)
        ensures
            r@ == resolved(result_folder@, name@, seq!['t', 'x', 't']),
    {
        proof {
            reveal_strlit("txt");
        }
        TextFile { save_temp_path: resolve(result_folder, name, "txt") }
    }

    /// The artifact's path.
    pub fn get_result_text_file(&self) -> (r: String)
        ensures
            r@ == self@,
    {
        self.save_temp_path.clone()
    }
}

} // verus!
