use crate::location::Location;
use vstd::prelude::*;

verus! {

/// The shapes of record for which no accessors are made.
#[derive(Clone, Copy, Debug, PartialEq, Eq, Structural)]
pub enum Shape {
    /// An enum.
    Enum,
    /// A union.
    Union,
    /// A struct whose fields have positions, not names.
    Positional,
    /// A struct without a field list.
    Unit,
}

/// Why a record got no accessors.
#[derive(Clone, Copy, Debug, PartialEq, Eq, Structural)]
pub enum DeriveError {
    /// The record has a shape that is not supported.
    UnsupportedShape { shape: Shape, at: Location },
    /// A marker holds something that is not a directive, or a visibility
    /// that is none.
    UnsupportedDirective { at: Location },
}

impl DeriveError {
    /// The place that the error is reported at.
    pub open spec fn place(self) -> Location {
        match self {
            DeriveError::UnsupportedShape { at, .. } => at,
            DeriveError::UnsupportedDirective { at } => at,
        }
    }

    /// The text of the diagnostic.
    pub open spec fn text(self) -> Seq<char> {
        match self {
            DeriveError::UnsupportedShape { shape, .. } => match shape {
                Shape::Enum => "Enums are not supported"@,
                Shape::Union => "Unions are not supported"@,
                Shape::Positional => "Tuple structs are not supported"@,
                Shape::Unit => "Tuple structs are not supported"@,
            },
            DeriveError::UnsupportedDirective { .. } => "Unsupported attribute"@,
        }
    }

    pub fn location(&self) -> (at: Location)
        ensures
            at == self.place(),
    {
        match self {
            DeriveError::UnsupportedShape { at, .. } => *at,
            DeriveError::UnsupportedDirective { at } => *at,
        }
    }

    pub fn message(&self) -> (message: String)
        ensures
            message@ == self.text(),
    {
        match self {
            DeriveError::UnsupportedShape { shape, .. } => match shape {
                Shape::Enum => String::from_str("Enums are not supported"),
                Shape::Union => String::from_str("Unions are not supported"),
                Shape::Positional => String::from_str("Tuple structs are not supported"),
                Shape::Unit => String::from_str("Tuple structs are not supported"),
            },
            DeriveError::UnsupportedDirective { .. } => String::from_str("Unsupported attribute"),
        }
    }
}

} // verus!
