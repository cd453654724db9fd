//! Verified core of the Mechanix lock screen: PIN lockout policy, PAM
//! service-file enforcement, the unlock flow, and the PIN entry, keypad,
//! lock-screen and session state machines.

pub mod auth;
pub mod channel;
pub mod events;
pub mod session;
pub mod text;
pub mod time;
pub mod widgets;
