# mic_button

Controller for a microphone push button on an ATtiny85: button 2 turns the
mic on for a timed period (short press) or while held (long press), button 1
is the mic's own toggle, and a sync check corrects the mic when it disagrees
with the controller.

- `src/logic.rs`: the controller, its abstract state `ControllerView` and the
  one-step model `ControllerView::step` that `Controller::update` is proved
  to follow.
- `src/laws.rs`: properties proved of the model (time-shift invariance across
  the clock wrap, debouncing, one press per edge, timer and gap expiry,
  suppression, sync tolerance).
- `tests/`: scenario tests.
- `app/main.rs`: the firmware loop (hardware access through `avr-device`).
