//! Diagnostics at two levels of detail. The functions decide whether a
//! message is shown; showing it is left to the caller.

use vstd::prelude::*;
use crate::Options;

verus! {

/// The message, if the run is verbose.
pub fn v(msg: String, options: &Options) -> (shown: Option<String>)
    ensures
        shown == (if options.verbose {
            Some(msg)
        } else {
            None
        }),
{
    if options.verbose {
        Some(msg)
    } else {
        None
    }
}

/// The message, if the run is very verbose.
pub fn vv(msg: String, options: &Options) -> (shown: Option<String>)
    ensures
        shown == (if options.very_verbose {
            Some(msg)
        } else {
            None
        }),
{
    if options.very_verbose {
        Some(msg)
    } else {
        None
    }
}

} // verus!
