use midi_auto_crossfader::config::{
    default_input_port, default_output_port, duration_secs, input_port_name, output_port_name,
    DEFAULT_DURATION_INDEX, DURATIONS,
};

#[test]
fn default_duration_is_ten_seconds() {
    assert_eq!(duration_secs(DEFAULT_DURATION_INDEX), 10);
}

#[test]
fn duration_table_lookup() {
    for (i, secs) in DURATIONS.iter().enumerate() {
        assert_eq!(duration_secs(i), *secs);
    }
    assert_eq!(duration_secs(0), 1);
    assert_eq!(duration_secs(6), 600);
}

#[test]
fn default_ports_per_platform() {
    assert_eq!(default_output_port(true), "IAC-Treiber Bus 1");
    assert_eq!(default_output_port(false), "");
    assert_eq!(default_input_port(true), "USB X-Session Anschluss 1");
    assert_eq!(default_input_port(false), "");
}

#[test]
fn configured_port_name_wins() {
    assert_eq!(output_port_name(Some("Crossfader A".to_string()), true), "Crossfader A");
    assert_eq!(input_port_name(Some("USB X-Session".to_string()), false), "USB X-Session");
}

#[test]
fn unset_port_name_falls_back_to_default() {
    assert_eq!(output_port_name(None, true), "IAC-Treiber Bus 1");
    assert_eq!(output_port_name(None, false), "");
    assert_eq!(input_port_name(None, true), "USB X-Session Anschluss 1");
    assert_eq!(input_port_name(None, false), "");
}
