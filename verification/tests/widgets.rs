use knobmuse::colour::{auto_gain_accent, creative_accent, switch_off, text_dark, text_muted, Rgb};
use knobmuse::text::str_eq;
use knobmuse::widgets::{knob_layout, knob_role, mode_label_colors, switch_track_color, KnobLayout, KnobRole};

#[test]
fn creative_mode_highlights_creative_label() {
    assert_eq!(mode_label_colors(true), (text_muted(), text_dark()));
    assert_eq!(text_dark(), Rgb::new(0x16, 0x1B, 0x26));
    assert_eq!(text_muted(), Rgb::new(0x9A, 0xA3, 0xB6));
}

#[test]
fn studio_mode_highlights_studio_label() {
    assert_eq!(mode_label_colors(false), (text_dark(), text_muted()));
}

#[test]
fn switch_tracks() {
    assert_eq!(switch_track_color(true, creative_accent()), Rgb::new(0x8A, 0x9C, 0xFF));
    assert_eq!(switch_track_color(true, auto_gain_accent()), Rgb::new(0x9A, 0xE8, 0xA0));
    assert_eq!(switch_track_color(false, auto_gain_accent()), switch_off());
    assert_eq!(switch_off(), Rgb::new(0xE6, 0xE8, 0xF0));
}

#[test]
fn knob_roles_from_captions() {
    assert_eq!(knob_role("REGEN"), KnobRole::Regen);
    assert_eq!(knob_role("MIX"), KnobRole::Mix);
    assert_eq!(knob_role("OUTPUT"), KnobRole::Output);
    assert_eq!(knob_role("OUT"), KnobRole::Plain);
    assert_eq!(knob_role(""), KnobRole::Plain);
}

#[test]
fn output_knob_is_smaller() {
    assert_eq!(
        knob_layout("OUTPUT"),
        KnobLayout { diameter: 54, width: 62, height: 72, center_drop: 29, dot_radius: 18 }
    );
    assert_eq!(
        knob_layout("REGEN"),
        KnobLayout { diameter: 58, width: 66, height: 76, center_drop: 31, dot_radius: 20 }
    );
    assert_eq!(knob_layout("MIX").diameter, 58);
}

#[test]
fn string_comparison() {
    assert!(str_eq("MIX", "MIX"));
    assert!(!str_eq("MIX", "MIXX"));
    assert!(!str_eq("MIX", "MAX"));
    assert!(str_eq("", ""));
    assert!(str_eq("▾é", "▾é"));
}
