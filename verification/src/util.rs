//! Asking the user to confirm.
use vstd::prelude::*;
use vstd::string::*;
use crate::text::trimmed;

verus! {

/// Whether the line `input` that the user typed confirms an action that
/// cannot be undone: white space aside, it has to repeat `verif`.
pub fn are_you_sure(verif: &String, input: &str) -> (b: bool)
    ensures
        b == (trimmed(input@) == verif@),
{
    input.trim().eq(verif.as_str())
}

} // verus!
