//! The error that an operation reports, and the numeric codes of the errors
//! that the bridge itself raises while decoding.

use crate::json::Category;
use vstd::prelude::*;

verus! {

/// An error as the envelope carries it: a message for a human reader and the
/// numeric code under which the host classes it. The bridge never interprets
/// the code.
#[derive(Clone, Debug, PartialEq, Eq)]
pub struct OpError {
    pub message: String,
    pub kind: u32,
}

/// The content of an [`OpError`].
pub struct ErrorView {
    pub message: Seq<char>,
    pub kind: u32,
}

impl View for OpError {
    type V = ErrorView;

    open spec fn view(&self) -> ErrorView {
        ErrorView { message: self.message@, kind: self.kind }
    }
}

/// The host's code for each category of decoding failure. The table has a
/// code for every category, so every failure is classed.
#[derive(Clone, Copy, Debug, PartialEq, Eq)]
pub struct DecodeKinds {
    pub io: u32,
    pub syntax: u32,
    pub data: u32,
    pub eof: u32,
}

impl DecodeKinds {
    /// The code for `category`.
    pub open spec fn code(self, category: Category) -> u32 {
        match category {
            Category::Io => self.io,
            Category::Syntax => self.syntax,
            Category::Data => self.data,
            Category::Eof => self.eof,
        }
    }

    /// The code for `category`.
    pub fn kind_of(&self, category: Category) -> (kind: u32)
        ensures
            kind == self.code(category),
    {
        match category {
            Category::Io => self.io,
            Category::Syntax => self.syntax,
            Category::Data => self.data,
            Category::Eof => self.eof,
        }
    }
}

} // verus!
