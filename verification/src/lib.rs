//! Decision logic of an automatic MIDI crossfader: a button press (on a USB
//! MIDI controller or a global keyboard shortcut) ramps a MIDI Control Change
//! value from its current position to one extreme over a selectable duration.
//!
//! - [`config`]: the fixed MIDI numbers, the duration table, the port names.
//! - [`crossfade`]: the fade state machine and its laws.
//! - [`midi`]: the outgoing message, the incoming controller messages and the
//!   choice of the controller's input port.
//! - [`keyboard`]: the global keyboard shortcuts.
//! - [`ui`]: the position bar.
//! - [`text`]: character sequences.
//!
//! The program around it performs the I/O: it opens the MIDI ports, listens
//! to the keyboard, runs the fade's worker and draws the status lines.

pub mod config;
pub mod crossfade;
pub mod keyboard;
pub mod midi;
pub mod text;
pub mod ui;
