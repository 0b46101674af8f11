# openlogi_touchpad

Touchpad gestures for HID++ touchpads, verified with Verus: recognizing taps, swipes, pinches and
two-finger scrolling, dispatching them to actions, running capture sessions, and working out the
system events that an action comes to.

- `src/` is the library. Every public function has a contract that Verus proves; nothing in it is
  trusted without proof. Numbers that could be fractions are integers here: content pixels in
  560ths, swipe progress in 4914000ths of a pad width, velocities in micrometres per second. What
  no such unit can hold exactly is kept to forty or more binary places: the velocity of a glide,
  which a law ties to the exact exponential, and the mean radius of four fingers.
- `tests/` runs the library on concrete values.
- `app/` is the ordinary code around it: the capture manager's loop and its channels, the command
  line, the settings panel's host, the shutdown signals, and (on macOS) the posting of events.

The laws, statements about several steps or all inputs, are the public proof functions named
`law_...`. The larger groups stand in modules of their own: `touchpad/laws.rs`,
`touchpad/classify_laws.rs`, `runtime_laws.rs`, `dispatch_laws.rs` and `manager_laws.rs`.
