//! The failures that validation and conversion of a data schema can report.

use vstd::prelude::*;

verus! {

/// What can be wrong with a tree of data schemas.
#[derive(Clone, Debug, PartialEq, Eq)]
pub enum Error {
    /// A minimum and a maximum are both present and leave no value between them.
    InvalidMinMax,
    /// A bound of a number is not a number.
    NanMinMax,
    /// A `multiple_of` of a number is zero or negative.
    InvalidMultipleOf,
    /// A key of a multi-language map is not a well-formed language tag.
    InvalidLanguageTag(String),
}

} // verus!
