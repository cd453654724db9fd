//! The keypad: which key each hit-test slot holds, and which slot carries
//! each button id.

use vstd::prelude::*;

verus! {

/// Action triggered by interacting with the numpad.
#[derive(Clone, Copy, Debug, PartialEq, Eq, Structural)]
pub enum NumpadAction {
    Digit(char),
    Backspace,
}

/// The keypad's hit-test slots: ten digit buttons, then the backspace icon.
pub const KEYPAD_SLOTS: usize = 11;

/// The key in hit-test slot `slot`: the digit buttons in order 1–9 then 0,
/// and in the last slot the backspace icon button.
pub open spec fn slot_key(slot: nat) -> Option<NumpadAction> {
    if slot < 9 {
        Some(NumpadAction::Digit((slot + 49) as char))
    } else if slot == 9 {
        Some(NumpadAction::Digit('0'))
    } else if slot == 10 {
        Some(NumpadAction::Backspace)
    } else {
        None
    }
}

/// The id of the button that shows `action`: the digit's value for a digit
/// (the low byte of its code minus that of `'0'`, floored at zero), and 10
/// for backspace.
pub open spec fn button_id_of(action: NumpadAction) -> u8 {
    match action {
        NumpadAction::Digit(c) => {
            let low = (c as u32) % 256;
            if low >= 48 {
                (low - 48) as u8
            } else {
                0
            }
        },
        NumpadAction::Backspace => 10,
    }
}

/// The digit-button slot carrying id `id`.
pub open spec fn digit_button_slot(id: u8) -> Option<nat> {
    if 1 <= id <= 9 {
        Some((id - 1) as nat)
    } else if id == 0 {
        Some(9)
    } else {
        None
    }
}

/// The action of the key in hit-test slot `slot`, the first slot whose
/// bounds contain the pressed point.
pub fn slot_action(slot: usize) -> (a: Option<NumpadAction>)
    ensures
        a == slot_key(slot as nat),
{
    if slot < 9 {
        let c = (49u8 + slot as u8) as char;
        Some(NumpadAction::Digit(c))
    } else if slot == 9 {
        Some(NumpadAction::Digit('0'))
    } else if slot == 10 {
        Some(NumpadAction::Backspace)
    } else {
        None
    }
}

/// The id that highlighting uses for the button of `action`.
pub fn button_id(action: NumpadAction) -> (id: u8)
    ensures
        id == button_id_of(action),
{
    match action {
        NumpadAction::Digit(c) => {
            let low = ((c as u32) % 256) as u8;
            low.saturating_sub(48)
        },
        NumpadAction::Backspace => 10,
    }
}

/// The digit-button slot with id `id`, the button `button_mut` finds.
pub fn button_slot(id: u8) -> (slot: Option<usize>)
    ensures
        match slot {
            Some(s) => digit_button_slot(id) == Some(s as nat),
            None => digit_button_slot(id) is None,
        },
{
    if 1 <= id && id <= 9 {
        Some((id - 1) as usize)
    } else if id == 0 {
        Some(9)
    } else {
        None
    }
}

/// The icon-button slot with id `id`, the button `icon_button_mut` finds:
/// only the backspace key, id 10.
pub fn icon_button_slot(id: u8) -> (slot: Option<usize>)
    ensures
        slot == (if id == 10 {
            Some(10usize)
        } else {
            None::<usize>
        }),
{
    if id == 10 {
        Some(10)
    } else {
        None
    }
}

/// Law: the id derived from the key of a digit slot leads back to that same
/// slot, so a pressed digit key is the one highlighted; the backspace key's
/// id names the icon button and no digit button.
pub proof fn lemma_pressed_key_is_highlighted(slot: nat)
    requires
        slot < KEYPAD_SLOTS,
    ensures
        slot < 10 ==> (slot_key(slot) matches Some(a) && digit_button_slot(button_id_of(a))
            == Some(slot)),
        slot == 10 ==> (slot_key(slot) matches Some(a) && button_id_of(a) == 10
            && digit_button_slot(10) is None),
{
    if slot < 9 {
        assert(((slot + 49) as char) as u32 == slot + 49);
    } else if slot == 9 {
        assert(('0' as u32) == 48);
    }
}

/// Law: the keypad reads 1 to 9 in its first nine slots, in order, each
/// digit one more than the one before, then 0, then backspace; no other slot
/// holds a key.
pub proof fn lemma_keypad_order(slot: nat)
    ensures
        slot_key(0) == Some(NumpadAction::Digit('1')),
        slot < 8 ==> (slot_key(slot) matches Some(NumpadAction::Digit(c)) && slot_key(slot + 1)
            matches Some(NumpadAction::Digit(d)) && d as u32 == c as u32 + 1),
        slot < 9 ==> (slot_key(slot) matches Some(NumpadAction::Digit(c)) && c as u32 == 49
            + slot),
        slot_key(9) == Some(NumpadAction::Digit('0')),
        slot_key(10) == Some(NumpadAction::Backspace),
        slot >= KEYPAD_SLOTS ==> slot_key(slot) is None,
{
    assert(('1' as u32) == 49);
    if slot < 9 {
        assert(((slot + 49) as char) as u32 == slot + 49);
    }
    if slot < 8 {
        assert(((slot + 1 + 49) as char) as u32 == slot + 50);
    }
}

/// Law: the digit button with id `id` (0 to 9) sits in the slot whose key
/// types that digit, the character with code 48 plus `id`; no other id names
/// a digit button.
pub proof fn lemma_digit_button_types_its_digit(id: u8)
    ensures
        id <= 9 ==> (digit_button_slot(id) matches Some(s) && slot_key(s) matches Some(
            NumpadAction::Digit(c),
        ) && c as u32 == 48 + id),
        id > 9 ==> digit_button_slot(id) is None,
{
    if 1 <= id <= 9 {
        assert((((id - 1) as nat + 49) as char) as u32 == 48 + id);
    } else if id == 0 {
        assert(('0' as u32) == 48);
    }
}

} // verus!
