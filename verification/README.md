# mechanix_lockscreen

The Mechanix lock screen, with its decision logic verified in Verus.

- `src/` is the verified library: the PIN lockout throttle (`auth::pin::gate`),
  the PAM service-file check and PIN-book lookup (`auth::pin::enforce`), the
  PAM conversation, the unlock flow (`auth::unlock`), the verdict-channel
  rules (`channel`), the session-lock decisions (`session`), and the PIN
  entry, keypad and lock-screen state machines (`widgets`). Time is held as
  nanosecond spans (`time`); text is handled character by character (`text`).
- `app/` is the program around it: Wayland, io_uring, PAM, threads, the
  clock, layout and drawing.
- `tests/` exercises the library on concrete values.
