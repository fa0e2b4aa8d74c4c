//! Where in a source document a node was written.
use crate::text::{decimal, push_decimal};
use vstd::prelude::*;
use vstd::string::*;

verus! {

/// A span in a source file: the file, and the line and column of its
/// first and of its last position.
#[derive(Debug, PartialEq, Eq, Hash)]
pub struct SourceLocation {
    pub file_path: String,
    pub start_line: u32,
    pub start_column: u32,
    pub end_line: u32,
    pub end_column: u32,
}

/// What a [`SourceLocation`] holds, the path as a sequence of characters.
pub struct LocationView {
    pub file_path: Seq<char>,
    pub start_line: u32,
    pub start_column: u32,
    pub end_line: u32,
    pub end_column: u32,
}

impl View for SourceLocation {
    type V = LocationView;

    open spec fn view(&self) -> LocationView {
        LocationView {
            file_path: self.file_path@,
            start_line: self.start_line,
            start_column: self.start_column,
            end_line: self.end_line,
            end_column: self.end_column,
        }
    }
}

/// The view of a location that may be absent.
pub open spec fn location_view(location: Option<SourceLocation>) -> Option<LocationView> {
    match location {
        Some(l) => Some(l@),
        None => None,
    }
}

impl LocationView {
    /// How the location is written in diagnostics:
    /// `file: [(line,column)-(line,column)]`.
    pub open spec fn text(self) -> Seq<char> {
        self.file_path + ": [("@ + decimal(self.start_line as nat) + ","@ + decimal(
            self.start_column as nat,
        ) + ")-("@ + decimal(self.end_line as nat) + ","@ + decimal(self.end_column as nat)
            + ")]"@
    }
}

impl Clone for SourceLocation {
    fn clone(&self) -> (r: Self)
        ensures
            r@ == self@,
    {
        SourceLocation {
            file_path: self.file_path.clone(),
            start_line: self.start_line,
            start_column: self.start_column,
            end_line: self.end_line,
            end_column: self.end_column,
        }
    }
}

impl SourceLocation {
    /// A location in `file_path` from `start_pos` to `end_pos`, each a
    /// pair of line and column.
    pub fn new(file_path: String, start_pos: (u32, u32), end_pos: (u32, u32)) -> (r: Self)
        ensures
            r@ == (LocationView {
                file_path: file_path@,
                start_line: start_pos.0,
                start_column: start_pos.1,
                end_line: end_pos.0,
                end_column: end_pos.1,
            }),
    {
        SourceLocation {
            file_path,
            start_line: start_pos.0,
            start_column: start_pos.1,
            end_line: end_pos.0,
            end_column: end_pos.1,
        }
    }

    /// The location as it is written in diagnostics.
    pub fn to_text(&self) -> (r: String)
        ensures
            r@ == self@.text(),
    {
        let mut out = self.file_path.clone();
        out.append(": [(");
        push_decimal(&mut out, self.start_line as u64);
        out.append(",");
        push_decimal(&mut out, self.start_column as u64);
        out.append(")-(");
        push_decimal(&mut out, self.end_line as u64);
        out.append(",");
        push_decimal(&mut out, self.end_column as u64);
        out.append(")]");
        out
    }
}

} // verus!
