//! The text that tells the user of a file that could not be converted.

use vstd::prelude::*;

verus! {

/// The message for a file that could not be converted: the path, a fixed
/// explanation, and the underlying cause.
pub fn failure_message(path: &str, cause: &str) -> (message: String)
    ensures
        message@ == path@ + " does not exist or is not a valid PNG: "@ + cause@,
{
    path.to_owned().concat(" does not exist or is not a valid PNG: ").concat(cause)
}

} // verus!
