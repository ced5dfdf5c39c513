pub mod attendee;
pub mod conference;
pub mod fibonacci;
pub mod recorder;
pub mod text;

use vstd::prelude::*;

verus! {

/// Error returned when a name fails validation: construction and rename of
/// an attendee both refuse an empty name.
#[derive(Clone, Copy, PartialEq, Eq, Structural, Debug)]
pub struct ValidationError;

impl ValidationError {
    /// The message shown to a caller who supplied an empty name.
    pub fn message(&self) -> (r: String)
        ensures
            r@ == "Please enter a name"@,
    {
        "Please enter a name".to_owned()
    }
}

} // verus!
