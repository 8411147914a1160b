//! The switch and button state of the delay panel, and how clicks change it.
use vstd::prelude::*;
use crate::tempo::{TEMPO_COUNT, spec_next_tempo, next_tempo_index};

verus! {

/// The three icon buttons under the knobs.
#[derive(Clone, Copy, Debug, PartialEq, Eq, Structural)]
pub enum IconKind {
    Brightness,
    Color,
    Sparkle,
}

impl IconKind {
    /// The caption printed under the icon button.
    pub open spec fn spec_label(self) -> Seq<char> {
        match self {
            IconKind::Brightness => "BRIGHTNESS"@,
            IconKind::Color => "COLOR"@,
            IconKind::Sparkle => "SPARKLE"@,
        }
    }

    /// The caption printed under the icon button.
    pub fn label(self) -> (text: &'static str)
        ensures
            text@ == self.spec_label(),
    {
        match self {
            IconKind::Brightness => "BRIGHTNESS",
            IconKind::Color => "COLOR",
            IconKind::Sparkle => "SPARKLE",
        }
    }
}

/// A click on one of the panel's controls.
#[derive(Clone, Copy, Debug, PartialEq, Eq, Structural)]
pub enum ControlEvent {
    /// The tempo knob was clicked.
    TempoClicked,
    /// The studio/creative switch was clicked.
    CreativeToggled,
    /// The auto-gain switch was clicked.
    AutoGainToggled,
    /// One of the icon buttons was clicked.
    IconClicked(IconKind),
}

/// The state of the panel's clickable controls: the tempo knob's position, the
/// two switches and the three icon buttons.
#[derive(Clone, Copy, Debug, PartialEq, Eq, Structural)]
pub struct DelayControls {
    pub tempo_idx: usize,
    pub is_creative: bool,
    pub auto_gain: bool,
    pub sel_brightness: bool,
    pub sel_color: bool,
    pub sel_sparkle: bool,
}

impl DelayControls {
    /// The tempo knob stands on one of its divisions.
    pub open spec fn wf(self) -> bool {
        self.tempo_idx < TEMPO_COUNT
    }

    /// Whether the icon button of the given kind is selected.
    pub open spec fn spec_selected(self, kind: IconKind) -> bool {
        match kind {
            IconKind::Brightness => self.sel_brightness,
            IconKind::Color => self.sel_color,
            IconKind::Sparkle => self.sel_sparkle,
        }
    }

    /// The state after one click.
    pub open spec fn spec_apply(self, event: ControlEvent) -> DelayControls {
        match event {
            ControlEvent::TempoClicked => DelayControls {
                tempo_idx: spec_next_tempo(self.tempo_idx as int) as usize,
                ..self
            },
            ControlEvent::CreativeToggled => DelayControls { is_creative: !self.is_creative, ..self },
            ControlEvent::AutoGainToggled => DelayControls { auto_gain: !self.auto_gain, ..self },
            ControlEvent::IconClicked(IconKind::Brightness) => DelayControls {
                sel_brightness: !self.sel_brightness,
                ..self
            },
            ControlEvent::IconClicked(IconKind::Color) => DelayControls {
                sel_color: !self.sel_color,
                ..self
            },
            ControlEvent::IconClicked(IconKind::Sparkle) => DelayControls {
                sel_sparkle: !self.sel_sparkle,
                ..self
            },
        }
    }

    /// The panel as it opens: tempo on 1/8, creative mode and auto gain on,
    /// no icon button selected.
    pub fn new() -> (c: DelayControls)
        ensures
            c.wf(),
            c == (DelayControls {
                tempo_idx: 1,
                is_creative: true,
                auto_gain: true,
                sel_brightness: false,
                sel_color: false,
                sel_sparkle: false,
            }),
    {
        DelayControls {
            tempo_idx: 1,
            is_creative: true,
            auto_gain: true,
            sel_brightness: false,
            sel_color: false,
            sel_sparkle: false,
        }
    }

    /// Whether the icon button of the given kind is selected.
    pub fn is_selected(&self, kind: IconKind) -> (on: bool)
        ensures
            on == self.spec_selected(kind),
            on == match kind {
                IconKind::Brightness => self.sel_brightness,
                IconKind::Color => self.sel_color,
                IconKind::Sparkle => self.sel_sparkle,
            },
    {
        match kind {
            IconKind::Brightness => self.sel_brightness,
            IconKind::Color => self.sel_color,
            IconKind::Sparkle => self.sel_sparkle,
        }
    }

    /// Applies one click to the panel.
    pub fn apply(&mut self, event: ControlEvent)
        requires
            old(self).wf(),
        ensures
            final(self).wf(),
            *final(self) == old(self).spec_apply(event),
    {
        match event {
            ControlEvent::TempoClicked => {
                self.tempo_idx = next_tempo_index(self.tempo_idx);
            },
            ControlEvent::CreativeToggled => {
                self.is_creative = !self.is_creative;
            },
            ControlEvent::AutoGainToggled => {
                self.auto_gain = !self.auto_gain;
            },
            ControlEvent::IconClicked(IconKind::Brightness) => {
                self.sel_brightness = !self.sel_brightness;
            },
            ControlEvent::IconClicked(IconKind::Color) => {
                self.sel_color = !self.sel_color;
            },
            ControlEvent::IconClicked(IconKind::Sparkle) => {
                self.sel_sparkle = !self.sel_sparkle;
            },
        }
    }
}

/// No click moves the tempo knob off its divisions.
pub proof fn lemma_apply_keeps_wf(c: DelayControls, event: ControlEvent)
    requires
        c.wf(),
    ensures
        c.spec_apply(event).wf(),
{
}

/// Clicking a switch or an icon button twice leaves the panel as it was.
pub proof fn lemma_toggle_twice(c: DelayControls, event: ControlEvent)
    requires
        event != ControlEvent::TempoClicked,
    ensures
        c.spec_apply(event).spec_apply(event) == c,
{
}

/// Clicking the tempo knob once per division leaves the panel as it was.
pub proof fn lemma_tempo_full_turn(c: DelayControls)
    requires
        c.wf(),
    ensures
        c.spec_apply(ControlEvent::TempoClicked).spec_apply(ControlEvent::TempoClicked).spec_apply(
            ControlEvent::TempoClicked,
        ).spec_apply(ControlEvent::TempoClicked).spec_apply(ControlEvent::TempoClicked) == c,
{
}

/// The order of two clicks does not matter: every control keeps a state of
/// its own.
pub proof fn lemma_clicks_commute(c: DelayControls, e1: ControlEvent, e2: ControlEvent)
    ensures
        c.spec_apply(e1).spec_apply(e2) == c.spec_apply(e2).spec_apply(e1),
{
}

/// A click on an icon button flips that button and no other.
pub proof fn lemma_icon_click_flips_only_its_button(c: DelayControls, clicked: IconKind, other: IconKind)
    ensures
        c.spec_apply(ControlEvent::IconClicked(clicked)).spec_selected(other) == if clicked == other {
            !c.spec_selected(other)
        } else {
            c.spec_selected(other)
        },
        c.spec_apply(ControlEvent::IconClicked(clicked)).tempo_idx == c.tempo_idx,
        c.spec_apply(ControlEvent::IconClicked(clicked)).is_creative == c.is_creative,
        c.spec_apply(ControlEvent::IconClicked(clicked)).auto_gain == c.auto_gain,
{
}

/// A click changes exactly the control it lands on: the tempo knob moves one
/// division on (wrapping after the last), a switch or icon button flips, and
/// every other control keeps its state.
pub proof fn lemma_click_changes_only_its_control(c: DelayControls, event: ControlEvent)
    requires
        c.wf(),
    ensures
        ({
            let d = c.spec_apply(event);
            &&& d.tempo_idx == if event == ControlEvent::TempoClicked {
                if c.tempo_idx + 1 == TEMPO_COUNT {
                    0
                } else {
                    c.tempo_idx + 1
                }
            } else {
                c.tempo_idx as int
            }
            &&& d.is_creative == if event == ControlEvent::CreativeToggled {
                !c.is_creative
            } else {
                c.is_creative
            }
            &&& d.auto_gain == if event == ControlEvent::AutoGainToggled {
                !c.auto_gain
            } else {
                c.auto_gain
            }
            &&& d.sel_brightness == if event == ControlEvent::IconClicked(IconKind::Brightness) {
                !c.sel_brightness
            } else {
                c.sel_brightness
            }
            &&& d.sel_color == if event == ControlEvent::IconClicked(IconKind::Color) {
                !c.sel_color
            } else {
                c.sel_color
            }
            &&& d.sel_sparkle == if event == ControlEvent::IconClicked(IconKind::Sparkle) {
                !c.sel_sparkle
            } else {
                c.sel_sparkle
            }
        }),
{
}

/// An icon button reports selected exactly when its own selection flag is set.
pub proof fn lemma_selected_is_own_flag(c: DelayControls)
    ensures
        c.spec_selected(IconKind::Brightness) == c.sel_brightness,
        c.spec_selected(IconKind::Color) == c.sel_color,
        c.spec_selected(IconKind::Sparkle) == c.sel_sparkle,
{
}

/// Clicking the tempo knob or a switch never changes which icon buttons are
/// selected; clicking an icon button changes the selection of that button
/// alone.
pub proof fn lemma_selection_changes_only_by_its_click(c: DelayControls, event: ControlEvent, kind: IconKind)
    ensures
        c.spec_apply(event).spec_selected(kind) == if event == ControlEvent::IconClicked(kind) {
            !c.spec_selected(kind)
        } else {
            c.spec_selected(kind)
        },
{
}

/// Every icon button has a caption of its own.
pub proof fn lemma_icon_labels_distinct(a: IconKind, b: IconKind)
    requires
        a != b,
    ensures
        a.spec_label() != b.spec_label(),
{
    reveal_strlit("BRIGHTNESS");
    reveal_strlit("COLOR");
    reveal_strlit("SPARKLE");
    if a.spec_label() == b.spec_label() {
        assert(a.spec_label().len() == b.spec_label().len());
        assert(a.spec_label()[0] == b.spec_label()[0]);
    }
}

/// The icon buttons read "BRIGHTNESS", "COLOR" and "SPARKLE".
pub proof fn lemma_icon_captions()
    ensures
        IconKind::Brightness.spec_label() == "BRIGHTNESS"@,
        IconKind::Color.spec_label() == "COLOR"@,
        IconKind::Sparkle.spec_label() == "SPARKLE"@,
{
}

} // verus!
