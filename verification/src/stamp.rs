//! The clock that time-based names are made from.

use vstd::prelude::*;
use crate::path::filename_safe;

verus! {

/// The local time as `kalavor::Katetime::now_datetime` writes it: a letter
/// and a digit for the year, month and day, `-`, hour and minute, `-`,
/// seconds and hundredths, all in letters, digits and `-`. What comes back
/// depends on the clock, so the contract says only that it holds no `/`.
#[verifier::external_body]
pub(crate) fn now_stamp() -> (stamp: String)
    ensures
        filename_safe(stamp@),
{
    kalavor::Katetime::now_datetime()
}

} // verus!
