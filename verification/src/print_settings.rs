//! Defaults for page print settings.

use vstd::prelude::*;

verus! {

/// How many sheet pages are laid out on one printed page unless the file
/// says otherwise.
pub fn default_number_up() -> (r: u64)
    ensures
        r == 1,
{
    1
}

/// Whether a number-up value is the default one, and so need not be stored.
pub fn is_default_number_up(number_up: &u64) -> (r: bool)
    ensures
        r == (*number_up == 1),
{
    *number_up == default_number_up()
}

} // verus!
