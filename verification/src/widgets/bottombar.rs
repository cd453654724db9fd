//! The bottom bar, which is also the hitbox that cancels PIN entry.

use vstd::prelude::*;

use super::lockscreen::ScreenState;

verus! {

/// The bar's label for `state`.
pub open spec fn bar_text_of(state: ScreenState) -> Seq<char> {
    match state {
        ScreenState::TapToExpand => "TAP TO EXPAND"@,
        ScreenState::PinLock => "CANCEL"@,
    }
}

/// The bar's label when the screen enters `state`.
pub fn bar_text(state: ScreenState) -> (t: &'static str)
    ensures
        t@ == bar_text_of(state),
{
    match state {
        ScreenState::TapToExpand => "TAP TO EXPAND",
        ScreenState::PinLock => "CANCEL",
    }
}

} // verus!
