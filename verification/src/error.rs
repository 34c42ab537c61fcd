//! What the library reports instead of doing its work.

use vstd::prelude::*;

verus! {

/// The ways in which a request can be refused.
#[derive(Clone, Copy, Debug, PartialEq, Eq, Structural)]
pub enum Error {
    /// The images handed to a join do not all have the same width and height.
    DimensionMismatch,
    /// The files picked for a join are not four, or a channel has no file.
    Selection,
    /// The number chosen in the menu stands for no operation.
    InvalidCommand,
}

} // verus!
