//! Two-state system settings (the theme, starting with Windows) that a toggle
//! flips by writing the opposite state.
use vstd::prelude::*;

verus! {

/// The state a toggle leaves behind: the requested opposite when the write
/// succeeded, the prior state when it failed.
pub fn toggle_outcome(prior: bool, write_ok: bool) -> (r: bool)
    ensures
        r == (if write_ok {
            !prior
        } else {
            prior
        }),
{
    if write_ok {
        !prior
    } else {
        prior
    }
}

} // verus!
