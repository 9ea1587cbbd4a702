//! What the text view of a session shows: a rendered text artifact.
use vstd::prelude::*;
use crate::error::Error;
use crate::text_file::TextFile;

verus! {

/// The two views of a session.
#[derive(Debug, Clone, Copy, PartialEq, Eq, Structural)]
pub enum Views {
    Image,
    Text,
}

/// The content of a text artifact, or the error that reading it gave, with
/// the artifact's path.
#[derive(Debug)]
pub struct TextViewerState {
    content_or_error: Result<String, Error>,
    text_path: Option<String>,
}

impl TextViewerState {
    pub closed spec fn content_spec(&self) -> Result<String, Error> {
        self.content_or_error
    }

    pub closed spec fn path_spec(&self) -> Option<String> {
        self.text_path
    }

    /// The view of `text_file`, whose content was read as `content_or_error`.
    pub fn new(text_file: TextFile, content_or_error: Result<String, Error>) -> (r: TextViewerState)
        ensures
            r.content_spec() == content_or_error,
            r.path_spec() matches Some(p) && p@ == text_file@,
    {
        TextViewerState { content_or_error, text_path: Some(text_file.get_result_text_file()) }
    }

    /// The content, or the error that reading it gave.
    pub fn content_or_error(&self) -> (r: &Result<String, Error>)
        ensures
            *r == self.content_spec(),
    {
        &self.content_or_error
    }

    /// The artifact's path.
    pub fn text_path(&self) -> (r: &Option<String>)
        ensures
            *r == self.path_spec(),
    {
        &self.text_path
    }
}

} // verus!
