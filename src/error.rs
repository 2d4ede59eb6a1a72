use crate::value::Kind;
use vstd::prelude::*;

verus! {

/// The errors that argument extraction and conversion report.
#[derive(Debug, Clone, Copy, PartialEq, Eq, Structural)]
pub enum Error {
    /// Fewer arguments than the signature needs.
    MissingArgs { expected: usize, given: usize },
    /// More arguments than an exhaustive signature allows.
    TooManyArgs { expected: usize, given: usize },
    /// A multi-value target ran out of values: the length of the sequence
    /// seen, and the number of values that were wanted at that point.
    MissingArguments(usize, usize),
    /// A value of one kind could not be converted to the requested host type.
    FromJs { from: Kind, to: Kind },
}

} // verus!
