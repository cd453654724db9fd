pub mod bottombar;
pub mod datetime;
pub mod lockscreen;
pub mod numpad;
pub mod pin;
pub mod time;

pub use datetime::{DateTime, DateTimeChanged, DateTimeTick, DateTimeUpdate};
pub use lockscreen::{Lockscreen, ScreenState};
pub use numpad::NumpadAction;
pub use pin::PinWidget;
