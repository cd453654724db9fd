use mechanix_lockscreen::events::PinOutcome;
use mechanix_lockscreen::widgets::bottombar::bar_text;
use mechanix_lockscreen::widgets::datetime::DateTime;
use mechanix_lockscreen::widgets::numpad::{
    button_id, button_slot, icon_button_slot, slot_action, KEYPAD_SLOTS,
};
use mechanix_lockscreen::widgets::pin::StatusTone;
use mechanix_lockscreen::widgets::time::date_caption;
use mechanix_lockscreen::widgets::{Lockscreen, NumpadAction, PinWidget, ScreenState};
use mechanix_lockscreen::time::Duration;

fn shown_pin(len: usize) -> PinWidget {
    let mut w = PinWidget::new(len);
    w.set_shown(true);
    w
}

#[test]
fn pin_len_is_capped_at_six() {
    assert_eq!(PinWidget::new(4).pin_len(), 4);
    assert_eq!(PinWidget::new(9).pin_len(), 6);
}

#[test]
fn hidden_pin_ignores_presses() {
    let mut w = PinWidget::new(4);
    assert!(!w.interactive());
    assert_eq!(w.press(NumpadAction::Digit('1')), None);
    assert_eq!(w.entered(), 0);
    assert_eq!(w.active_button(), None);
}

#[test]
fn typing_four_digits_offers_the_pin() {
    let mut w = shown_pin(4);
    assert_eq!(w.press(NumpadAction::Digit('1')), None);
    assert_eq!(w.press(NumpadAction::Digit('2')), None);
    assert_eq!(w.press(NumpadAction::Digit('3')), None);
    assert_eq!(w.active_button(), Some(3));
    assert_eq!(w.press(NumpadAction::Digit('4')), Some("1234".to_string()));
    assert_eq!(w.entered(), 4);
    assert_eq!(w.circle(3), (true, true));
    assert_eq!(w.circle(4), (false, false));
    // A further digit starts a new PIN.
    assert_eq!(w.press(NumpadAction::Digit('9')), None);
    assert_eq!(w.entered(), 1);
    assert_eq!(w.circle(0), (true, true));
    assert_eq!(w.circle(1), (true, false));
}

#[test]
fn backspace_and_non_digits() {
    let mut w = shown_pin(4);
    w.press(NumpadAction::Digit('5'));
    w.press(NumpadAction::Digit('x'));
    assert_eq!(w.entered(), 1);
    assert_eq!(w.active_button(), Some(72));
    w.press(NumpadAction::Backspace);
    assert_eq!(w.entered(), 0);
    assert_eq!(w.active_button(), Some(10));
    w.press(NumpadAction::Backspace);
    assert_eq!(w.entered(), 0);
    assert_eq!(w.release(), Some(10));
    assert_eq!(w.release(), None);
}

#[test]
fn outcomes_and_status_line() {
    let mut w = shown_pin(4);
    w.press(NumpadAction::Digit('1'));
    w.set_outcome(PinOutcome::Checking);
    assert_eq!(w.entered(), 1);
    assert!(!w.interactive());
    assert_eq!(w.status_text(), "CHECKING…");
    assert_eq!(w.status_tone(), StatusTone::Active);
    w.set_outcome(PinOutcome::LockedOut { secs: 30 });
    assert_eq!(w.entered(), 0);
    assert_eq!(w.status_text(), "TRY AGAIN IN 30S");
    assert_eq!(w.status_tone(), StatusTone::Lockout);
    w.set_outcome(PinOutcome::Incorrect);
    assert_eq!(w.status_text(), "PIN INCORRECT");
    assert_eq!(w.status_tone(), StatusTone::Error);
    assert!(w.interactive());
    w.reset();
    assert_eq!(w.status(), PinOutcome::Prompt);
    assert_eq!(w.status_text(), "ENTER PIN TO UNLOCK");
    w.set_outcome(PinOutcome::Unavailable);
    w.reset();
    assert_eq!(w.status_text(), "AUTH UNAVAILABLE");
    w.set_outcome(PinOutcome::LockedOut { secs: 0 });
    assert_eq!(w.status_text(), "TRY AGAIN IN 0S");
    w.set_outcome(PinOutcome::LockedOut { secs: 4294967295 });
    assert_eq!(w.status_text(), "TRY AGAIN IN 4294967295S");
}

#[test]
fn zero_length_pin_never_offers() {
    let mut w = shown_pin(0);
    assert_eq!(w.press(NumpadAction::Digit('1')), None);
    assert_eq!(w.entered(), 0);
}

#[test]
fn keypad_slots_and_ids() {
    assert_eq!(KEYPAD_SLOTS, 11);
    assert_eq!(slot_action(0), Some(NumpadAction::Digit('1')));
    assert_eq!(slot_action(8), Some(NumpadAction::Digit('9')));
    assert_eq!(slot_action(9), Some(NumpadAction::Digit('0')));
    assert_eq!(slot_action(10), Some(NumpadAction::Backspace));
    assert_eq!(slot_action(11), None);
    assert_eq!(button_id(NumpadAction::Digit('0')), 0);
    assert_eq!(button_id(NumpadAction::Digit('7')), 7);
    assert_eq!(button_id(NumpadAction::Digit(' ')), 0);
    assert_eq!(button_id(NumpadAction::Backspace), 10);
    assert_eq!(button_slot(1), Some(0));
    assert_eq!(button_slot(0), Some(9));
    assert_eq!(button_slot(10), None);
    assert_eq!(icon_button_slot(10), Some(10));
    assert_eq!(icon_button_slot(3), None);
}

#[test]
fn lockscreen_expands_and_collapses() {
    let mut s = Lockscreen::new(4, false);
    assert_eq!(s.screen(), ScreenState::TapToExpand);
    assert_eq!(s.bottom_text(), "TAP TO EXPAND");
    assert_eq!(s.click(false, Some(NumpadAction::Digit('1'))), None);
    assert_eq!(s.screen(), ScreenState::PinLock);
    assert!(s.pin().is_shown());
    assert_eq!(s.pin().entered(), 0);
    assert_eq!(s.bottom_text(), "CANCEL");
    s.click(false, Some(NumpadAction::Digit('1')));
    s.click(false, Some(NumpadAction::Digit('2')));
    s.click(false, None);
    s.click(false, Some(NumpadAction::Digit('3')));
    assert_eq!(s.click(false, Some(NumpadAction::Digit('4'))), Some("1234".to_string()));
    assert_eq!(s.release(), Some(4));
    s.set_outcome(PinOutcome::Incorrect);
    assert_eq!(s.pin().entered(), 0);
    s.click(false, Some(NumpadAction::Digit('8')));
    s.click(true, Some(NumpadAction::Digit('9')));
    assert_eq!(s.screen(), ScreenState::TapToExpand);
    assert!(!s.pin().is_shown());
    assert_eq!(s.pin().entered(), 0);
    assert_eq!(s.pin().status(), PinOutcome::Prompt);
    assert_eq!(s.bottom_text(), "TAP TO EXPAND");
}

#[test]
fn open_lockscreen_never_expands() {
    let mut s = Lockscreen::new(4, true);
    assert_eq!(s.bottom_text(), "TAP TO UNLOCK");
    s.click(false, None);
    assert_eq!(s.screen(), ScreenState::TapToExpand);
    assert_eq!(s.bottom_text(), "TAP TO UNLOCK");
    assert_eq!(bar_text(ScreenState::PinLock), "CANCEL");
}

#[test]
fn next_minute_deadline() {
    let d = DateTime::new();
    let at = d.next_deadline(Duration::new(1_700_000_030, 5));
    assert_eq!(at, Duration::new(1_700_000_040, 100_000_000));
    let at = d.next_deadline(Duration::from_secs(120));
    assert_eq!(at, Duration::new(180, 100_000_000));
    assert_eq!(d.next_deadline(Duration::from_secs(0)), Duration::new(60, 100_000_000));
}

#[test]
fn date_caption_appends_device_name() {
    assert_eq!(date_caption("MON 03"), "MON 03 · MECHA COMET");
}

#[test]
fn clock_texts_are_upper_case() {
    // 2015-05-15 00:00:00 was a Friday.
    assert_eq!(DateTime::format(1_431_648_000, 0, 0, "%H:%M"), Some("00:00".to_string()));
    assert_eq!(DateTime::format(1_431_648_000 + 13 * 3600 + 7 * 60, 0, 0, "%a %d"), Some("FRI 15".to_string()));
    assert_eq!(DateTime::format(1_431_648_000, 0, 0, "%Q"), None);
    assert_eq!(DateTime::format(i64::MAX, 0, 0, "%H:%M"), None);
    let u = DateTime::update(1_431_648_000 + 13 * 3600 + 7 * 60, 0, 0).unwrap();
    assert_eq!(u.time, "13:07");
    assert_eq!(u.date, "FRI 15");
}

#[test]
fn clock_texts_at_utc_offsets() {
    assert_eq!(DateTime::format(0, 0, 0, "%z"), Some("+0000".to_string()));
    assert_eq!(DateTime::format(0, 0, 3600, "%H:%M"), Some("01:00".to_string()));
    assert_eq!(DateTime::format(0, 0, -3600, "%H:%M %z"), Some("23:00 -0100".to_string()));
    assert_eq!(DateTime::format(0, 0, 19_800, "%:z"), Some("+05:30".to_string()));
    assert_eq!(DateTime::format(0, 0, 86_400, "%H:%M"), None);
    let u = DateTime::update(1_431_648_000, 0, -60).unwrap();
    assert_eq!(u.time, "23:59");
    assert_eq!(u.date, "THU 14");
}
