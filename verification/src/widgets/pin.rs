//! The PIN entry screen: digits entered so far, the highlighted key, and the
//! status line.

use vstd::prelude::*;

use super::numpad::{button_id, button_id_of, NumpadAction};
use crate::events::PinOutcome;
use crate::text::{decimal, decimal_text, pop_char, push_char};

verus! {

/// Upper bound matching the six indicator circles.
pub const MAX_PIN_LEN: usize = 6;

pub open spec fn is_ascii_digit(c: char) -> bool {
    48 <= (c as u32) <= 57
}

/// How the status line is colored.
#[derive(Debug, Clone, Copy, PartialEq, Eq, Structural)]
pub enum StatusTone {
    Prompt,
    Active,
    Error,
    Lockout,
}

/// The status line text for `status`.
pub open spec fn status_text_of(status: PinOutcome) -> Seq<char> {
    match status {
        PinOutcome::Prompt => "ENTER PIN TO UNLOCK"@,
        PinOutcome::Incorrect => "PIN INCORRECT"@,
        PinOutcome::Checking => "CHECKING…"@,
        PinOutcome::LockedOut { secs } => "TRY AGAIN IN "@ + decimal(secs as nat) + "S"@,
        PinOutcome::Unavailable => "AUTH UNAVAILABLE"@,
    }
}

/// The status line color for `status`.
pub open spec fn status_tone_of(status: PinOutcome) -> StatusTone {
    match status {
        PinOutcome::Prompt => StatusTone::Prompt,
        PinOutcome::Incorrect => StatusTone::Error,
        PinOutcome::Checking => StatusTone::Active,
        PinOutcome::LockedOut { .. } => StatusTone::Lockout,
        PinOutcome::Unavailable => StatusTone::Error,
    }
}

/// The abstract state of a [`PinWidget`].
pub struct PinView {
    pub pin_len: nat,
    pub pin: Seq<char>,
    pub active_button: Option<u8>,
    pub status: PinOutcome,
    pub shown: bool,
}

impl PinView {
    /// A hidden screen for PINs of `pin_len` digits (at most six), nothing
    /// entered, at the prompt.
    pub open spec fn initial(pin_len: nat) -> PinView {
        PinView {
            pin_len: if pin_len < MAX_PIN_LEN {
                pin_len
            } else {
                MAX_PIN_LEN as nat
            },
            pin: Seq::empty(),
            active_button: None,
            status: PinOutcome::Prompt,
            shown: false,
        }
    }

    /// The PIN length is at most six, and the entered PIN is made of ASCII
    /// digits and never longer than the PIN length.
    pub open spec fn well_formed(self) -> bool {
        &&& self.pin_len <= MAX_PIN_LEN
        &&& self.pin.len() <= self.pin_len
        &&& forall|i: int| 0 <= i < self.pin.len() ==> is_ascii_digit(#[trigger] self.pin[i])
    }

    /// Input is accepted only while shown and awaiting a submission.
    pub open spec fn interactive(self) -> bool {
        self.shown && (self.status == PinOutcome::Prompt || self.status == PinOutcome::Incorrect)
    }

    /// The PIN that remains when digit `c` comes: a full PIN starts over.
    pub open spec fn digit_base(self) -> Seq<char> {
        if self.pin.len() == self.pin_len {
            Seq::empty()
        } else {
            self.pin
        }
    }

    pub open spec fn after_action(self, action: NumpadAction) -> PinView {
        match action {
            NumpadAction::Digit(c) => if !is_ascii_digit(c) {
                self
            } else if self.digit_base().len() < self.pin_len {
                PinView { pin: self.digit_base().push(c), ..self }
            } else {
                PinView { pin: self.digit_base(), ..self }
            },
            NumpadAction::Backspace => if self.pin.len() > 0 {
                PinView { pin: self.pin.drop_last(), ..self }
            } else {
                self
            },
        }
    }

    /// The PIN offered for submission by `action`: the PIN it completes.
    pub open spec fn offer_after_action(self, action: NumpadAction) -> Option<Seq<char>> {
        match action {
            NumpadAction::Digit(c) => if is_ascii_digit(c) && self.digit_base().len()
                < self.pin_len && self.digit_base().len() + 1 == self.pin_len {
                Some(self.digit_base().push(c))
            } else {
                None
            },
            NumpadAction::Backspace => None,
        }
    }

    pub open spec fn after_press(self, action: NumpadAction) -> PinView {
        if !self.interactive() {
            self
        } else {
            PinView { active_button: Some(button_id_of(action)), ..self }.after_action(action)
        }
    }

    pub open spec fn offer_after_press(self, action: NumpadAction) -> Option<Seq<char>> {
        if !self.interactive() {
            None
        } else {
            self.offer_after_action(action)
        }
    }

    pub open spec fn after_reset(self) -> PinView {
        PinView {
            pin: Seq::empty(),
            active_button: None,
            status: if self.status == PinOutcome::Prompt || self.status == PinOutcome::Incorrect {
                PinOutcome::Prompt
            } else {
                self.status
            },
            ..self
        }
    }

    pub open spec fn after_outcome(self, outcome: PinOutcome) -> PinView {
        PinView {
            status: outcome,
            pin: if outcome == PinOutcome::Checking {
                self.pin
            } else {
                Seq::empty()
            },
            ..self
        }
    }
}

/// The characters of an optional string.
pub open spec fn string_option_view(s: Option<String>) -> Option<Seq<char>> {
    match s {
        Some(s) => Some(s@),
        None => None,
    }
}

/// The PIN entry screen: collects digits up to the PIN length and offers the
/// complete PIN for submission.
pub struct PinWidget {
    pin_len: usize,
    pin: String,
    active_button: Option<u8>,
    status: PinOutcome,
    shown: bool,
}

impl View for PinWidget {
    type V = PinView;

    closed spec fn view(&self) -> PinView {
        PinView {
            pin_len: self.pin_len as nat,
            pin: self.pin@,
            active_button: self.active_button,
            status: self.status,
            shown: self.shown,
        }
    }
}

fn is_ascii_digit_char(c: char) -> (b: bool)
    ensures
        b == is_ascii_digit(c),
{
    let n = c as u32;
    48 <= n && n <= 57
}

impl PinWidget {
    #[verifier::type_invariant]
    closed spec fn entry_in_range(self) -> bool {
        self@.well_formed()
    }

    /// A hidden PIN screen for PINs of `pin_len` digits, at most six.
    pub fn new(pin_len: usize) -> (w: PinWidget)
        ensures
            w@ == PinView::initial(pin_len as nat),
    {
        let len = if pin_len < MAX_PIN_LEN {
            pin_len
        } else {
            MAX_PIN_LEN
        };
        PinWidget {
            pin_len: len,
            pin: String::new(),
            active_button: None,
            status: PinOutcome::Prompt,
            shown: false,
        }
    }

    /// Digits expected in a PIN.
    pub fn pin_len(&self) -> (n: usize)
        ensures
            n == self@.pin_len,
            self@.well_formed(),
    {
        proof {
            use_type_invariant(self);
        }
        self.pin_len
    }

    /// Digits entered so far.
    pub fn entered(&self) -> (n: usize)
        ensures
            n == self@.pin.len(),
            self@.well_formed(),
    {
        proof {
            use_type_invariant(self);
        }
        self.pin.as_str().unicode_len()
    }

    /// The id of the highlighted key, if any.
    pub fn active_button(&self) -> (id: Option<u8>)
        ensures
            id == self@.active_button,
    {
        self.active_button
    }

    pub fn status(&self) -> (s: PinOutcome)
        ensures
            s == self@.status,
    {
        self.status
    }

    pub fn is_shown(&self) -> (b: bool)
        ensures
            b == self@.shown,
    {
        self.shown
    }

    /// Indicator circle `i`: whether it is shown (one per PIN digit) and
    /// whether it is filled (one per digit entered).
    pub fn circle(&self, i: usize) -> (c: (bool, bool))
        ensures
            c.0 == (i < self@.pin_len),
            c.1 == (i < self@.pin_len && i < self@.pin.len()),
    {
        let shown = i < self.pin_len;
        (shown, shown && i < self.pin.as_str().unicode_len())
    }

    /// Input is accepted only while shown and awaiting a submission.
    pub fn interactive(&self) -> (b: bool)
        ensures
            b == self@.interactive(),
    {
        self.shown && (match self.status {
            PinOutcome::Prompt | PinOutcome::Incorrect => true,
            _ => false,
        })
    }

    /// Shows or hides the screen.
    pub fn set_shown(&mut self, shown: bool)
        ensures
            final(self)@ == (PinView { shown, ..old(self)@ }),
    {
        proof {
            use_type_invariant(&*self);
        }
        self.shown = shown;
    }

    /// Clears the entered PIN and the highlight; a prompt or an incorrect
    /// verdict goes back to the prompt, other statuses stay.
    pub fn reset(&mut self)
        ensures
            final(self)@ == old(self)@.after_reset(),
    {
        proof {
            use_type_invariant(&*self);
        }
        self.pin = String::new();
        self.active_button = None;
        match self.status {
            PinOutcome::Prompt | PinOutcome::Incorrect => {
                self.status = PinOutcome::Prompt;
            },
            _ => {},
        }
    }

    /// Shows `outcome`; unless it says the PIN is being checked, the entered
    /// PIN is cleared.
    pub fn set_outcome(&mut self, outcome: PinOutcome)
        ensures
            final(self)@ == old(self)@.after_outcome(outcome),
    {
        proof {
            use_type_invariant(&*self);
        }
        self.status = outcome;
        match outcome {
            PinOutcome::Checking => {},
            _ => {
                self.pin = String::new();
            },
        }
    }

    /// Text of the status line.
    pub fn status_text(&self) -> (t: String)
        ensures
            t@ == status_text_of(self@.status),
    {
        match self.status {
            PinOutcome::Prompt => String::from_str("ENTER PIN TO UNLOCK"),
            PinOutcome::Incorrect => String::from_str("PIN INCORRECT"),
            PinOutcome::Checking => String::from_str("CHECKING…"),
            PinOutcome::LockedOut { secs } => {
                let mut t = String::from_str("TRY AGAIN IN ");
                let digits = decimal_text(secs);
                t.append(digits.as_str());
                t.append("S");
                t
            },
            PinOutcome::Unavailable => String::from_str("AUTH UNAVAILABLE"),
        }
    }

    /// Color of the status line.
    pub fn status_tone(&self) -> (t: StatusTone)
        ensures
            t == status_tone_of(self@.status),
    {
        match self.status {
            PinOutcome::Prompt => StatusTone::Prompt,
            PinOutcome::Incorrect => StatusTone::Error,
            PinOutcome::Checking => StatusTone::Active,
            PinOutcome::LockedOut { .. } => StatusTone::Lockout,
            PinOutcome::Unavailable => StatusTone::Error,
        }
    }

    /// A key press: ignored unless the screen is interactive; otherwise the
    /// key is highlighted and applied. A digit that completes the PIN offers
    /// it for submission.
    pub fn press(&mut self, action: NumpadAction) -> (offer: Option<String>)
        ensures
            final(self)@ == old(self)@.after_press(action),
            string_option_view(offer) == old(self)@.offer_after_press(action),
            final(self)@.well_formed(),
    {
        proof {
            use_type_invariant(&*self);
        }
        if !self.interactive() {
            return None;
        }
        self.active_button = Some(button_id(action));
        let offer = self.apply_action(action);
        proof {
            use_type_invariant(&*self);
        }
        offer
    }

    fn apply_action(&mut self, action: NumpadAction) -> (offer: Option<String>)
        ensures
            final(self)@ == old(self)@.after_action(action),
            string_option_view(offer) == old(self)@.offer_after_action(action),
    {
        proof {
            use_type_invariant(&*self);
        }
        match action {
            NumpadAction::Digit(c) => {
                if !is_ascii_digit_char(c) {
                    return None;
                }
                let mut pin = if self.pin.as_str().unicode_len() == self.pin_len {
                    String::new()
                } else {
                    self.pin.clone()
                };
                let len = pin.as_str().unicode_len();
                if len < self.pin_len {
                    push_char(&mut pin, c);
                    self.pin = pin;
                    if len + 1 == self.pin_len {
                        Some(self.pin.clone())
                    } else {
                        None
                    }
                } else {
                    self.pin = pin;
                    None
                }
            },
            NumpadAction::Backspace => {
                if self.pin.as_str().unicode_len() > 0 {
                    let mut pin = self.pin.clone();
                    pop_char(&mut pin);
                    self.pin = pin;
                }
                None
            },
        }
    }

    /// The press ended: the highlight is cleared, and the key that was
    /// highlighted is returned.
    pub fn release(&mut self) -> (cleared: Option<u8>)
        ensures
            cleared == old(self)@.active_button,
            final(self)@ == (PinView { active_button: None, ..old(self)@ }),
    {
        proof {
            use_type_invariant(&*self);
        }
        let cleared = self.active_button;
        self.active_button = None;
        cleared
    }
}

/// The state after pressing the digit keys `digits`, in order.
pub open spec fn press_digits(v: PinView, digits: Seq<char>) -> PinView
    decreases digits.len(),
{
    if digits.len() == 0 {
        v
    } else {
        press_digits(v, digits.drop_last()).after_press(NumpadAction::Digit(digits.last()))
    }
}

/// Law: every key press, reset, verdict and release keeps the entry well
/// formed: at most six digits expected, and never more entered than expected.
pub proof fn lemma_entry_stays_well_formed(v: PinView, action: NumpadAction, outcome: PinOutcome)
    requires
        v.well_formed(),
    ensures
        v.after_press(action).well_formed(),
        v.after_reset().well_formed(),
        v.after_outcome(outcome).well_formed(),
        (PinView { active_button: None, ..v }).well_formed(),
{
    let w = v.after_press(action);
    assert forall|i: int| 0 <= i < w.pin.len() implies is_ascii_digit(#[trigger] w.pin[i]) by {
        if v.interactive() {
            match action {
                NumpadAction::Digit(c) => {
                    if is_ascii_digit(c) && v.digit_base().len() < v.pin_len && i < v.digit_base().len() {
                        assert(w.pin[i] == v.digit_base()[i]);
                    }
                },
                NumpadAction::Backspace => {
                    if v.pin.len() > 0 {
                        assert(w.pin[i] == v.pin[i]);
                    }
                },
            }
        }
    }
}

/// Law: an offered PIN is the entered PIN, exactly as long as the PIN length,
/// and made of ASCII digits; a press on a screen that is not interactive
/// changes nothing and offers nothing.
pub proof fn lemma_offer_is_complete_pin(v: PinView, action: NumpadAction)
    requires
        v.well_formed(),
    ensures
        v.offer_after_press(action) matches Some(p) ==> p == v.after_press(action).pin && p.len()
            == v.pin_len && forall|i: int| 0 <= i < p.len() ==> is_ascii_digit(#[trigger] p[i]),
        !v.interactive() ==> v.after_press(action) == v && v.offer_after_press(action) is None,
{
    lemma_entry_stays_well_formed(v, action, PinOutcome::Prompt);
}

/// Law: on an interactive screen with nothing entered, typing a PIN of the
/// expected length digit by digit keeps each prefix as the entry, offers
/// nothing before the last digit, and the last digit offers the whole PIN.
pub proof fn lemma_typing_a_pin(v: PinView, digits: Seq<char>, k: nat)
    requires
        v.well_formed(),
        v.interactive(),
        v.pin.len() == 0,
        digits.len() == v.pin_len,
        forall|i: int| 0 <= i < digits.len() ==> is_ascii_digit(#[trigger] digits[i]),
        1 <= k <= digits.len(),
    ensures
        press_digits(v, digits.take(k - 1)).pin == digits.take(k - 1),
        press_digits(v, digits.take(k - 1)).interactive(),
        k < digits.len() ==> press_digits(v, digits.take(k - 1)).offer_after_press(
            NumpadAction::Digit(digits[k - 1]),
        ) is None,
        k == digits.len() ==> press_digits(v, digits.take(k - 1)).offer_after_press(
            NumpadAction::Digit(digits[k - 1]),
        ) == Some(digits),
        press_digits(v, digits.take(k as int)).pin == digits.take(k as int),
        press_digits(v, digits.take(k as int)).interactive(),
        press_digits(v, digits.take(k as int)).pin_len == v.pin_len,
    decreases k,
{
    let prefix = digits.take(k - 1);
    if k > 1 {
        lemma_typing_a_pin(v, digits, (k - 1) as nat);
    } else {
        assert(prefix =~= Seq::<char>::empty());
    }
    let before = press_digits(v, prefix);
    let c = digits[k - 1];
    assert(is_ascii_digit(c));
    assert(digits.take(k as int).drop_last() =~= prefix);
    assert(digits.take(k as int).last() == c);
    assert(press_digits(v, digits.take(k as int)) == before.after_press(NumpadAction::Digit(c)));
    assert(before.pin.len() == k - 1);
    assert(before.digit_base() == before.pin);
    assert(prefix.push(digits[k - 1]) =~= digits.take(k as int));
    if k == digits.len() {
        assert(digits.take(k as int) =~= digits);
    }
}

/// Law: on a screen that takes input, backspace removes exactly the last
/// digit entered: one digit fewer, the others unchanged and in place; with
/// nothing entered it removes nothing; it never offers a PIN.
pub proof fn lemma_backspace_removes_last_digit(v: PinView)
    requires
        v.shown,
        v.status == PinOutcome::Prompt || v.status == PinOutcome::Incorrect,
    ensures
        v.pin.len() > 0 ==> v.after_press(NumpadAction::Backspace).pin.len() + 1 == v.pin.len(),
        forall|i: int|
            0 <= i < v.pin.len() - 1 ==> #[trigger] v.after_press(NumpadAction::Backspace).pin[i]
                == v.pin[i],
        v.pin.len() == 0 ==> v.after_press(NumpadAction::Backspace).pin == v.pin,
        v.offer_after_press(NumpadAction::Backspace) is None,
{
}

/// Law: the screen takes input only while it is shown and at the prompt or
/// after an incorrect PIN. While hidden, checking, locked out or unavailable
/// a press changes nothing and offers nothing; otherwise the pressed key is
/// highlighted.
pub proof fn lemma_input_only_at_prompt(v: PinView, action: NumpadAction)
    ensures
        v.interactive() == (v.shown && (v.status == PinOutcome::Prompt || v.status
            == PinOutcome::Incorrect)),
        !v.shown || v.status == PinOutcome::Checking || v.status is LockedOut || v.status
            == PinOutcome::Unavailable ==> v.after_press(action) == v && v.offer_after_press(
            action,
        ) is None,
        v.shown && (v.status == PinOutcome::Prompt || v.status == PinOutcome::Incorrect) ==> v.after_press(
            action,
        ).active_button == Some(button_id_of(action)),
{
}

/// Law: the status line's color tells the prompt from the errors: the prompt
/// color is used exactly at the prompt, the error color exactly for an
/// incorrect PIN and for an unavailable method, the lockout color exactly
/// during a lockout, and the active color exactly while checking.
pub proof fn lemma_status_tone_distinguishes(status: PinOutcome)
    ensures
        (status_tone_of(status) == StatusTone::Prompt) == (status == PinOutcome::Prompt),
        (status_tone_of(status) == StatusTone::Error) == (status == PinOutcome::Incorrect
            || status == PinOutcome::Unavailable),
        (status_tone_of(status) == StatusTone::Lockout) == (status is LockedOut),
        (status_tone_of(status) == StatusTone::Active) == (status == PinOutcome::Checking),
{
}

} // verus!
