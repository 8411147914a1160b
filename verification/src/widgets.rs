//! Colour and size choices of the panel's switches, mode labels and knobs.
use vstd::prelude::*;
use crate::colour::{Rgb, text_dark, text_muted, switch_off};
use crate::text::str_eq;

verus! {

/// The colours of the "STUDIO" and "CREATIVE" labels on either side of the
/// mode switch: the label of the active mode is dark, the other muted.
pub open spec fn spec_mode_label_colors(is_creative: bool) -> (Rgb, Rgb) {
    (
        if !is_creative { text_dark() } else { text_muted() },
        if is_creative { text_dark() } else { text_muted() },
    )
}

/// The colours of the "STUDIO" and "CREATIVE" labels, in that order.
pub fn mode_label_colors(is_creative: bool) -> (colors: (Rgb, Rgb))
    ensures
        colors == spec_mode_label_colors(is_creative),
{
    let studio_active = !is_creative;
    let studio = if studio_active { text_dark() } else { text_muted() };
    let creative = if is_creative { text_dark() } else { text_muted() };
    (studio, creative)
}

/// Exactly one of the two mode labels is highlighted, whichever mode is on.
pub proof fn lemma_one_mode_highlighted(is_creative: bool)
    ensures
        (spec_mode_label_colors(is_creative).0 == text_dark()) != (spec_mode_label_colors(
            is_creative,
        ).1 == text_dark()),
{
}

/// The track colour of a switch: its accent when on, a pale grey when off.
pub fn switch_track_color(on: bool, accent: Rgb) -> (c: Rgb)
    ensures
        c == if on {
            accent
        } else {
            switch_off()
        },
{
    if on {
        accent
    } else {
        switch_off()
    }
}

/// The knobs of the panel, told apart by their caption.
#[derive(Clone, Copy, Debug, PartialEq, Eq, Structural)]
pub enum KnobRole {
    Regen,
    Mix,
    Output,
    /// A knob with any other caption.
    Plain,
}

/// The role of the knob with the given caption.
pub open spec fn spec_knob_role(label: Seq<char>) -> KnobRole {
    if label == "REGEN"@ {
        KnobRole::Regen
    } else if label == "MIX"@ {
        KnobRole::Mix
    } else if label == "OUTPUT"@ {
        KnobRole::Output
    } else {
        KnobRole::Plain
    }
}

/// The role of the knob with the given caption.
pub fn knob_role(label: &str) -> (role: KnobRole)
    ensures
        role == spec_knob_role(label@),
{
    if str_eq(label, "REGEN") {
        KnobRole::Regen
    } else if str_eq(label, "MIX") {
        KnobRole::Mix
    } else if str_eq(label, "OUTPUT") {
        KnobRole::Output
    } else {
        KnobRole::Plain
    }
}

/// The pixel measures of a knob widget.
#[derive(Clone, Copy, Debug, PartialEq, Eq, Structural)]
pub struct KnobLayout {
    /// The diameter of the knob's face.
    pub diameter: u32,
    /// The width of the area the widget takes.
    pub width: u32,
    /// The height of the area the widget takes, caption included.
    pub height: u32,
    /// How far below the top of the area the centre of the face lies.
    pub center_drop: u32,
    /// How far from the centre the position dot sits.
    pub dot_radius: u32,
}

/// The measures of a knob whose face has the given diameter.
pub open spec fn spec_knob_layout(diameter: u32) -> KnobLayout {
    KnobLayout {
        diameter,
        width: (diameter + 8) as u32,
        height: (diameter + 18) as u32,
        center_drop: (diameter / 2 + 2) as u32,
        dot_radius: (diameter / 2 - 9) as u32,
    }
}

/// The face diameter of the knob with the given caption.
pub open spec fn spec_knob_diameter(label: Seq<char>) -> u32 {
    if label == "OUTPUT"@ {
        54
    } else {
        58
    }
}

/// The measures of the knob with the given caption: the output knob is
/// smaller than the others.
pub fn knob_layout(label: &str) -> (layout: KnobLayout)
    ensures
        layout == spec_knob_layout(spec_knob_diameter(label@)),
{
    let diameter: u32 = if str_eq(label, "OUTPUT") {
        54
    } else {
        58
    };
    KnobLayout {
        diameter,
        width: diameter + 8,
        height: diameter + 18,
        center_drop: diameter / 2 + 2,
        dot_radius: diameter / 2 - 9,
    }
}

/// The highlighted label names the mode that is on: "CREATIVE" in creative
/// mode, "STUDIO" otherwise; the other label is muted.
pub proof fn lemma_highlight_follows_mode(is_creative: bool)
    ensures
        spec_mode_label_colors(is_creative).1 == if is_creative { text_dark() } else { text_muted() },
        spec_mode_label_colors(is_creative).0 == if is_creative { text_muted() } else { text_dark() },
{
}

/// The three captions name their own knobs, and any other caption gives a
/// plain knob.
pub proof fn lemma_knob_roles(label: Seq<char>)
    ensures
        spec_knob_role("REGEN"@) == KnobRole::Regen,
        spec_knob_role("MIX"@) == KnobRole::Mix,
        spec_knob_role("OUTPUT"@) == KnobRole::Output,
        label != "REGEN"@ && label != "MIX"@ && label != "OUTPUT"@ ==> spec_knob_role(label)
            == KnobRole::Plain,
{
    reveal_strlit("REGEN");
    reveal_strlit("MIX");
    reveal_strlit("OUTPUT");
    assert("REGEN"@ != "MIX"@ && "REGEN"@ != "OUTPUT"@ && "MIX"@ != "OUTPUT"@) by {
        assert("REGEN"@.len() != "MIX"@.len());
        assert("REGEN"@.len() != "OUTPUT"@.len());
        assert("MIX"@.len() != "OUTPUT"@.len());
    }
}

/// A knob's area is its face widened by 8 pixels and heightened by 18 for the
/// caption; the face's centre lies 2 pixels below half the face, and the dot
/// sits 9 pixels inside the rim, so the output knob (54 pixels across) is
/// smaller than every other (58).
pub proof fn lemma_knob_geometry(d: u32)
    requires
        d == 54 || d == 58,
    ensures
        spec_knob_layout(d).diameter == d,
        spec_knob_layout(d).width == d + 8,
        spec_knob_layout(d).height == d + 18,
        spec_knob_layout(d).center_drop * 2 == d + 4,
        spec_knob_layout(d).dot_radius * 2 == d - 18,
        spec_knob_layout(d).dot_radius < spec_knob_layout(d).center_drop,
        spec_knob_layout(d).center_drop + d / 2 <= spec_knob_layout(d).height,
{
}

/// The output knob's face is 54 pixels across; every other knob's is 58.
pub proof fn lemma_knob_diameters(label: Seq<char>)
    ensures
        spec_knob_diameter("OUTPUT"@) == 54,
        label != "OUTPUT"@ ==> spec_knob_diameter(label) == 58,
        spec_knob_diameter(label) <= 58,
{
}

} // verus!
