//! The ways in which decoding a shapefile can fail.

use vstd::prelude::*;

verus! {

/// Why a header or a record could not be decoded.
#[derive(Debug, Clone, Copy, PartialEq, Eq, Structural)]
pub enum ShapefileError {
    /// A record carries a shape type tag that the decoder does not know.
    InvalidShapeType,
    /// The file code, a reserved field or the version of the header is wrong.
    InvalidFile,
    /// The byte source ended in the middle of a value.
    UnexpectedEof,
    /// A record's declared content length does not match the parts and
    /// points that it holds.
    InvalidContentLength,
    /// The records read so far declare more words than the header's file
    /// length leaves for them.
    BudgetOverrun,
}

impl ShapefileError {
    /// The text that describes this error.
    pub open spec fn spec_message(self) -> Seq<char> {
        match self {
            ShapefileError::InvalidShapeType => "Invalid Shape Type"@,
            ShapefileError::InvalidFile => "Invalid File"@,
            ShapefileError::UnexpectedEof => "Unexpected End Of File"@,
            ShapefileError::InvalidContentLength => "Invalid Content Length"@,
            ShapefileError::BudgetOverrun => "File Length Exceeded"@,
        }
    }

    /// The text that describes this error.
    pub fn message(&self) -> (text: String)
        ensures
            text@ == self.spec_message(),
    {
        match self {
            ShapefileError::InvalidShapeType => "Invalid Shape Type".to_owned(),
            ShapefileError::InvalidFile => "Invalid File".to_owned(),
            ShapefileError::UnexpectedEof => "Unexpected End Of File".to_owned(),
            ShapefileError::InvalidContentLength => "Invalid Content Length".to_owned(),
            ShapefileError::BudgetOverrun => "File Length Exceeded".to_owned(),
        }
    }
}

} // verus!
