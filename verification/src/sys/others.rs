//! The backend of a platform on which files cannot be cloned.

use vstd::prelude::*;
use crate::sys::{reflink_not_supported, Error, Event, Step};

verus! {

/// Ends the clone at once with [`Error::Unsupported`]. Nothing is ever asked
/// of the file system.
pub fn reflink(_event: Event) -> (step: Step<()>)
    ensures
        step == Step::<()>::Return(Err(Error::Unsupported)),
{
    Step::Return(reflink_not_supported())
}

} // verus!
