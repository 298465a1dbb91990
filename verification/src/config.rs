//! Fixed MIDI numbers, the selectable fade durations and the port names.

use vstd::prelude::*;

verus! {

/// Control Change number of the crossfader phase that is sent out.
pub const MIDI_CC_NUMBER: u8 = 60;

/// MIDI channel of the outgoing messages, counted from 1.
pub const MIDI_CHANNEL: u8 = 1;

/// Control Change number of the controller's "fade to left" button.
pub const LEFT_BUTTON_CC: u8 = 87;

/// Control Change number of the controller's "fade to right" button.
pub const RIGHT_BUTTON_CC: u8 = 15;

/// Control Change number of the controller's physical crossfader.
pub const CROSSFADER_CC: u8 = 10;

/// Selectable fade durations in seconds, shortest first.
pub const DURATIONS: [u64; 7] = [1, 2, 10, 30, 60, 300, 600];

/// Index into `DURATIONS` used at start-up (10 seconds).
pub const DEFAULT_DURATION_INDEX: usize = 2;

} // verus!

verus! {

/// The duration in seconds at `index` of the duration table.
pub open spec fn duration_at(index: int) -> u64 {
    DURATIONS@[index]
}

/// The number of selectable durations.
pub open spec fn duration_count() -> int {
    DURATIONS@.len() as int
}

/// Looks up the fade duration, in seconds, selected by `index`.
pub fn duration_secs(index: usize) -> (secs: u64)
    requires
        index < duration_count(),
    ensures
        secs == duration_at(index as int),
{
    DURATIONS[index]
}

/// The output port used when none is configured: the built-in IAC bus on
/// macOS, and no name at all elsewhere.
pub open spec fn spec_default_output_port(on_macos: bool) -> Seq<char> {
    if on_macos {
        "IAC-Treiber Bus 1"@
    } else {
        ""@
    }
}

/// The input port used when none is configured: the name macOS gives the
/// USB controller, and no name at all elsewhere.
pub open spec fn spec_default_input_port(on_macos: bool) -> Seq<char> {
    if on_macos {
        "USB X-Session Anschluss 1"@
    } else {
        ""@
    }
}

/// The port name in use: the configured one where there is one (even an
/// empty one), the default otherwise.
pub open spec fn chosen_port_name(configured: Option<Seq<char>>, default: Seq<char>) -> Seq<
    char,
> {
    match configured {
        Some(s) => s,
        None => default,
    }
}

/// A configured port name is used exactly as given, whatever the default;
/// without one the default is used; the defaults name the macOS ports and
/// are empty elsewhere.
pub proof fn lemma_port_name_choice(s: Seq<char>, default: Seq<char>)
    ensures
        chosen_port_name(Some(s), default) == s,
        chosen_port_name(None, default) == default,
        spec_default_output_port(false).len() == 0,
        spec_default_input_port(false).len() == 0,
        spec_default_output_port(true) == "IAC-Treiber Bus 1"@,
        spec_default_input_port(true) == "USB X-Session Anschluss 1"@,
{
    reveal_strlit("");
}

/// Default output port name for the platform (`on_macos` tells which).
pub fn default_output_port(on_macos: bool) -> (name: &'static str)
    ensures
        name@ == spec_default_output_port(on_macos),
{
    if on_macos {
        "IAC-Treiber Bus 1"
    } else {
        ""
    }
}

/// Default input port name for the platform (`on_macos` tells which).
pub fn default_input_port(on_macos: bool) -> (name: &'static str)
    ensures
        name@ == spec_default_input_port(on_macos),
{
    if on_macos {
        "USB X-Session Anschluss 1"
    } else {
        ""
    }
}

/// The output port name: the value of the `MIDI_OUTPUT_PORT` variable where it
/// is set (`configured`), otherwise the platform's default.
pub fn output_port_name(configured: Option<String>, on_macos: bool) -> (name: String)
    ensures
        name@ == chosen_port_name(
            match configured {
                Some(s) => Some(s@),
                None => None,
            },
            spec_default_output_port(on_macos),
        ),
{
    match configured {
        Some(s) => s,
        None => String::from_str(default_output_port(on_macos)),
    }
}

/// The input port name: the value of the `MIDI_INPUT_PORT` variable where it
/// is set (`configured`), otherwise the platform's default.
pub fn input_port_name(configured: Option<String>, on_macos: bool) -> (name: String)
    ensures
        name@ == chosen_port_name(
            match configured {
                Some(s) => Some(s@),
                None => None,
            },
            spec_default_input_port(on_macos),
        ),
{
    match configured {
        Some(s) => s,
        None => String::from_str(default_input_port(on_macos)),
    }
}

} // verus!
