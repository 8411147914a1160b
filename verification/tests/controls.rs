use knobmuse::controls::{ControlEvent, DelayControls, IconKind};
use knobmuse::tempo::{next_tempo_index, tempo_label, TEMPO_COUNT};

#[test]
fn tempo_knob_cycles_through_divisions() {
    let mut idx = 0;
    let mut seen = Vec::new();
    for _ in 0..TEMPO_COUNT + 1 {
        seen.push(tempo_label(idx));
        idx = next_tempo_index(idx);
    }
    assert_eq!(seen, vec!["1/4", "1/8", "1/8D", "1/16", "1/32", "1/4"]);
}

#[test]
fn tempo_knob_wraps_after_last_division() {
    assert_eq!(next_tempo_index(4), 0);
    assert_eq!(next_tempo_index(0), 1);
    assert_eq!(next_tempo_index(3), 4);
}

#[test]
fn panel_opens_on_eighth_notes_in_creative_mode() {
    let c = DelayControls::new();
    assert_eq!(c.tempo_idx, 1);
    assert_eq!(tempo_label(c.tempo_idx), "1/8");
    assert!(c.is_creative);
    assert!(c.auto_gain);
    assert!(!c.sel_brightness);
    assert!(!c.sel_color);
    assert!(!c.sel_sparkle);
}

#[test]
fn tempo_click_advances_only_tempo() {
    let mut c = DelayControls::new();
    let before = c;
    c.apply(ControlEvent::TempoClicked);
    assert_eq!(c.tempo_idx, 2);
    assert_eq!(tempo_label(c.tempo_idx), "1/8D");
    assert_eq!(DelayControls { tempo_idx: before.tempo_idx, ..c }, before);
}

#[test]
fn five_tempo_clicks_return_to_start() {
    let mut c = DelayControls::new();
    let start = c;
    for _ in 0..5 {
        c.apply(ControlEvent::TempoClicked);
    }
    assert_eq!(c, start);
}

#[test]
fn switches_flip_and_flip_back() {
    let mut c = DelayControls::new();
    c.apply(ControlEvent::CreativeToggled);
    assert!(!c.is_creative);
    assert!(c.auto_gain);
    c.apply(ControlEvent::AutoGainToggled);
    assert!(!c.auto_gain);
    c.apply(ControlEvent::CreativeToggled);
    c.apply(ControlEvent::AutoGainToggled);
    assert_eq!(c, DelayControls::new());
}

#[test]
fn icon_click_selects_only_its_button() {
    let mut c = DelayControls::new();
    c.apply(ControlEvent::IconClicked(IconKind::Color));
    assert!(c.is_selected(IconKind::Color));
    assert!(!c.is_selected(IconKind::Brightness));
    assert!(!c.is_selected(IconKind::Sparkle));
    c.apply(ControlEvent::IconClicked(IconKind::Sparkle));
    assert!(c.sel_sparkle);
    assert!(c.sel_color);
    c.apply(ControlEvent::IconClicked(IconKind::Color));
    assert!(!c.sel_color);
    assert!(c.sel_sparkle);
}

#[test]
fn clicks_in_either_order_agree() {
    let events = [
        ControlEvent::TempoClicked,
        ControlEvent::CreativeToggled,
        ControlEvent::AutoGainToggled,
        ControlEvent::IconClicked(IconKind::Brightness),
        ControlEvent::IconClicked(IconKind::Color),
        ControlEvent::IconClicked(IconKind::Sparkle),
    ];
    for a in events {
        for b in events {
            let mut x = DelayControls::new();
            x.apply(a);
            x.apply(b);
            let mut y = DelayControls::new();
            y.apply(b);
            y.apply(a);
            assert_eq!(x, y);
        }
    }
}

#[test]
fn icon_captions() {
    assert_eq!(IconKind::Brightness.label(), "BRIGHTNESS");
    assert_eq!(IconKind::Color.label(), "COLOR");
    assert_eq!(IconKind::Sparkle.label(), "SPARKLE");
}
