//! The clock's texts.

use vstd::prelude::*;

verus! {

/// The date line under the clock: the date, then the device name.
pub fn date_caption(date: &str) -> (t: String)
    ensures
        t@ == date@ + " · MECHA COMET"@,
{
    let mut t = String::from_str(date);
    t.append(" · MECHA COMET");
    t
}

} // verus!
