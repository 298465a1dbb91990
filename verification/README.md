# midi-auto-crossfader

A button press on a USB MIDI controller, or a global keyboard shortcut, ramps a
MIDI Control Change value from its current position to one extreme over a
selectable duration.

- `src/` is the verified library (Verus): the fade state machine, the MIDI
  messages in and out, the choice of the controller's input port, the keyboard
  shortcuts and the position bar, each with its contract, and the laws of the
  fade proved as proof functions.
- `app/` is the program around it: it opens the MIDI ports (midir), listens to
  the keyboard (rdev), runs the fade's worker thread, and draws the status
  lines (indicatif).
- `tests/` runs the library on concrete inputs.
