//! What a detection path did with an event.

use crate::error::Error;
use vstd::prelude::*;

verus! {

/// The visible result of one step of a detection path. It is what the
/// program around the library may want to log.
#[derive(Debug)]
pub enum Report {
    /// Nothing worth a line happened.
    Quiet,
    /// An address was appended to the update stream.
    Published,
    /// A notification about another group was dropped.
    Ignored,
    /// Something failed; nothing was appended to the update stream.
    Failed(Error),
}

} // verus!
