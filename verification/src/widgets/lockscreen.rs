//! The lock screen: a tap expands the PIN pad, a tap on the bottom bar
//! collapses it again, and in open mode nothing expands.

use vstd::prelude::*;

use super::bottombar::{bar_text, bar_text_of};
use super::numpad::NumpadAction;
use super::pin::{string_option_view, PinView, PinWidget};
use crate::events::PinOutcome;

verus! {

#[derive(Debug, Clone, Copy, PartialEq, Eq, Structural)]
pub enum ScreenState {
    TapToExpand,
    PinLock,
}

/// The abstract state of a [`Lockscreen`].
pub struct LockscreenView {
    pub screen: ScreenState,
    pub open: bool,
    pub pin: PinView,
}

impl LockscreenView {
    /// A click: on the collapsed screen it expands the PIN pad (never in
    /// open mode); on the expanded screen a click on the bottom bar collapses
    /// it and resets the entry, and any other click presses the key hit.
    pub open spec fn after_click(self, on_bottom_bar: bool, key: Option<NumpadAction>) -> LockscreenView {
        match self.screen {
            ScreenState::TapToExpand => if self.open {
                self
            } else {
                LockscreenView {
                    screen: ScreenState::PinLock,
                    pin: PinView { shown: true, ..self.pin },
                    ..self
                }
            },
            ScreenState::PinLock => if on_bottom_bar {
                LockscreenView {
                    screen: ScreenState::TapToExpand,
                    pin: PinView { shown: false, ..self.pin }.after_reset(),
                    ..self
                }
            } else {
                match key {
                    Some(a) => LockscreenView { pin: self.pin.after_press(a), ..self },
                    None => self,
                }
            },
        }
    }

    pub open spec fn offer_after_click(self, on_bottom_bar: bool, key: Option<NumpadAction>) -> Option<Seq<char>> {
        match (self.screen, key) {
            (ScreenState::PinLock, Some(a)) => if on_bottom_bar {
                None
            } else {
                self.pin.offer_after_press(a)
            },
            _ => None,
        }
    }

    /// The bottom bar's label.
    pub open spec fn bottom_text(self) -> Seq<char> {
        if self.open {
            "TAP TO UNLOCK"@
        } else {
            bar_text_of(self.screen)
        }
    }

    /// In open mode the PIN pad stays collapsed and hidden.
    pub open spec fn open_stays_collapsed(self) -> bool {
        self.open ==> self.screen == ScreenState::TapToExpand && !self.pin.shown
    }
}

/// The lock screen: its state, whether it is in open mode (no PIN set, a tap
/// unlocks), and the PIN entry screen.
pub struct Lockscreen {
    screen: ScreenState,
    open: bool,
    pin: PinWidget,
}

impl View for Lockscreen {
    type V = LockscreenView;

    closed spec fn view(&self) -> LockscreenView {
        LockscreenView { screen: self.screen, open: self.open, pin: self.pin@ }
    }
}

impl Lockscreen {
    /// In open mode the PIN pad is never expanded or shown.
    #[verifier::type_invariant]
    closed spec fn open_mode_collapsed(&self) -> bool {
        self@.open_stays_collapsed()
    }

    pub fn new(pin_len: usize, open: bool) -> (s: Lockscreen)
        ensures
            s@.screen == ScreenState::TapToExpand,
            s@.open == open,
            s@.pin == PinView::initial(pin_len as nat),
            s@.open_stays_collapsed(),
    {
        Lockscreen { screen: ScreenState::TapToExpand, open, pin: PinWidget::new(pin_len) }
    }

    pub fn screen(&self) -> (s: ScreenState)
        ensures
            s == self@.screen,
            self@.open_stays_collapsed(),
    {
        proof {
            use_type_invariant(self);
        }
        self.screen
    }

    /// The PIN entry screen.
    pub fn pin(&self) -> (p: &PinWidget)
        ensures
            p@ == self@.pin,
    {
        &self.pin
    }

    /// The bottom bar's label.
    pub fn bottom_text(&self) -> (t: &'static str)
        ensures
            t@ == self@.bottom_text(),
    {
        if self.open {
            "TAP TO UNLOCK"
        } else {
            bar_text(self.screen)
        }
    }

    /// A click, with whether it landed on the bottom bar and which key it
    /// hit; returns the PIN it completes, if any.
    pub fn click(&mut self, on_bottom_bar: bool, key: Option<NumpadAction>) -> (offer: Option<String>)
        ensures
            final(self)@ == old(self)@.after_click(on_bottom_bar, key),
            string_option_view(offer) == old(self)@.offer_after_click(on_bottom_bar, key),
            old(self)@.open_stays_collapsed(),
            final(self)@.open_stays_collapsed(),
    {
        proof {
            use_type_invariant(&*self);
        }
        match self.screen {
            ScreenState::TapToExpand => {
                if !self.open {
                    let mut pin = self.take_pin();
                    pin.set_shown(true);
                    self.screen = ScreenState::PinLock;
                    self.pin = pin;
                }
                None
            },
            ScreenState::PinLock => {
                let mut pin = self.take_pin();
                let offer = if on_bottom_bar {
                    self.screen = ScreenState::TapToExpand;
                    pin.set_shown(false);
                    pin.reset();
                    None
                } else {
                    match key {
                        Some(a) => pin.press(a),
                        None => None,
                    }
                };
                self.pin = pin;
                offer
            },
        }
    }

    /// Takes the PIN screen out, leaving a blank hidden one in its place.
    fn take_pin(&mut self) -> (p: PinWidget)
        ensures
            p@ == old(self)@.pin,
            final(self)@ == (LockscreenView { pin: PinView::initial(0), ..old(self)@ }),
    {
        proof {
            use_type_invariant(&*self);
        }
        let mut p = PinWidget::new(0);
        std::mem::swap(&mut p, &mut self.pin);
        p
    }

    /// The press ended; returns the key whose highlight is cleared.
    pub fn release(&mut self) -> (cleared: Option<u8>)
        ensures
            cleared == old(self)@.pin.active_button,
            final(self)@ == (LockscreenView {
                pin: PinView { active_button: None, ..old(self)@.pin },
                ..old(self)@
            }),
            final(self)@.open_stays_collapsed(),
    {
        proof {
            use_type_invariant(&*self);
        }
        let mut pin = self.take_pin();
        let cleared = pin.release();
        self.pin = pin;
        cleared
    }

    /// Shows a new authentication outcome on the PIN screen.
    pub fn set_outcome(&mut self, outcome: PinOutcome)
        ensures
            final(self)@ == (LockscreenView { pin: old(self)@.pin.after_outcome(outcome), ..old(self)@ }),
            final(self)@.open_stays_collapsed(),
    {
        proof {
            use_type_invariant(&*self);
        }
        let mut pin = self.take_pin();
        pin.set_outcome(outcome);
        self.pin = pin;
    }
}

/// Law: expanding and then collapsing the PIN pad leaves the screen
/// collapsed with the pad hidden, the entry and highlight cleared, and a
/// prompt or an incorrect verdict back at the prompt.
pub proof fn lemma_expand_then_collapse(s: LockscreenView, key: Option<NumpadAction>)
    requires
        s.screen == ScreenState::TapToExpand,
        !s.open,
    ensures
        s.after_click(false, key).screen == ScreenState::PinLock,
        s.after_click(false, key).pin.shown,
        s.after_click(false, key).after_click(true, key).screen == ScreenState::TapToExpand,
        s.after_click(false, key).after_click(true, key).pin == (PinView {
            shown: false,
            ..s.pin
        }).after_reset(),
{
}

/// Law: in open mode a click never expands the PIN pad and never offers a
/// PIN; the label reads "TAP TO UNLOCK".
pub proof fn lemma_open_mode_never_expands(s: LockscreenView, on_bottom_bar: bool, key: Option<NumpadAction>)
    requires
        s.open,
        s.open_stays_collapsed(),
    ensures
        s.after_click(on_bottom_bar, key) == s,
        s.offer_after_click(on_bottom_bar, key) is None,
        s.bottom_text() == "TAP TO UNLOCK"@,
{
}

} // verus!
