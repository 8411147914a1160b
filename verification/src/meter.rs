//! The segmented level meters beside the output knob.
use vstd::prelude::*;
use crate::colour::{Rgb, meter_unlit, meter_green, meter_peak, meter_headroom};

verus! {

/// How many segments a meter column has.
pub const METER_SEGMENTS: usize = 22;

/// The colour of the segment `from_bottom` places above the bottom of a meter
/// whose `lit` lowest segments are lit. The output meter shows its two
/// segments below the top in the peak colour; the top segments of a meter
/// otherwise take the headroom colour, and the rest of a lit meter is green.
pub open spec fn spec_segment_color(from_bottom: int, lit: int, is_out: bool) -> Rgb {
    if !(from_bottom < lit) {
        meter_unlit()
    } else if is_out && METER_SEGMENTS - 3 <= from_bottom <= METER_SEGMENTS - 2 {
        meter_peak()
    } else if from_bottom >= METER_SEGMENTS - 2 {
        meter_headroom()
    } else {
        meter_green()
    }
}

/// The colours of a whole meter column, listed from the top segment down, as
/// they are painted.
pub open spec fn spec_meter_column(lit: int, is_out: bool) -> Seq<Rgb> {
    Seq::new(
        METER_SEGMENTS as nat,
        |i: int| spec_segment_color(METER_SEGMENTS - 1 - i, lit, is_out),
    )
}

/// How many colours of `s` are lit ones.
pub open spec fn count_lit(s: Seq<Rgb>) -> nat
    decreases s.len(),
{
    if s.len() == 0 {
        0
    } else {
        count_lit(s.drop_last()) + if s.last() != meter_unlit() {
            1nat
        } else {
            0nat
        }
    }
}

/// The colour of one meter segment.
pub fn meter_segment_color(from_bottom: usize, lit: usize, is_out: bool) -> (c: Rgb)
    requires
        from_bottom < METER_SEGMENTS,
    ensures
        c == spec_segment_color(from_bottom as int, lit as int, is_out),
{
    if !(from_bottom < lit) {
        meter_unlit()
    } else if is_out && from_bottom >= METER_SEGMENTS - 3 && from_bottom <= METER_SEGMENTS - 2 {
        meter_peak()
    } else if from_bottom >= METER_SEGMENTS - 2 {
        meter_headroom()
    } else {
        meter_green()
    }
}

/// The colours of a meter column whose `lit` lowest segments are lit, from the
/// top segment down.
pub fn meter_column(lit: usize, is_out: bool) -> (col: Vec<Rgb>)
    ensures
        col@ == spec_meter_column(lit as int, is_out),
{
    let mut col: Vec<Rgb> = Vec::new();
    let mut i: usize = 0;
    while i < METER_SEGMENTS
        invariant
            i <= METER_SEGMENTS,
            col@.len() == i,
            forall|j: int|
                0 <= j < i ==> col@[j] == spec_segment_color(METER_SEGMENTS - 1 - j, lit as int, is_out),
        decreases METER_SEGMENTS - i,
    {
        let from_bottom = METER_SEGMENTS - 1 - i;
        col.push(meter_segment_color(from_bottom, lit, is_out));
        i = i + 1;
    }
    assert(col@ =~= spec_meter_column(lit as int, is_out));
    col
}

/// The lit segments of a meter form one unbroken run up from the bottom: a
/// lit segment has only lit segments below it.
pub proof fn lemma_lit_run_from_bottom(below: int, above: int, lit: int, is_out: bool)
    requires
        0 <= below <= above < METER_SEGMENTS,
        spec_segment_color(above, lit, is_out) != meter_unlit(),
    ensures
        spec_segment_color(below, lit, is_out) != meter_unlit(),
{
}

/// A segment is lit exactly when it lies below the lit count.
pub proof fn lemma_segment_lit_iff(from_bottom: int, lit: int, is_out: bool)
    requires
        0 <= from_bottom < METER_SEGMENTS,
    ensures
        (spec_segment_color(from_bottom, lit, is_out) != meter_unlit()) == (from_bottom < lit),
{
}

/// The peak colour shows only on the output meter; where the input meter
/// and the output meter have the same lit count they differ only in the
/// two segments below the top.
pub proof fn lemma_input_output_differ_only_at_peak(from_bottom: int, lit: int)
    requires
        0 <= from_bottom < METER_SEGMENTS,
    ensures
        spec_segment_color(from_bottom, lit, false) != meter_peak(),
        from_bottom != METER_SEGMENTS - 3 && from_bottom != METER_SEGMENTS - 2 ==>
            spec_segment_color(from_bottom, lit, true) == spec_segment_color(from_bottom, lit, false),
{
}

proof fn lemma_count_lit_prefix(lit: int, is_out: bool, k: int)
    requires
        0 <= lit,
        0 <= k <= METER_SEGMENTS,
    ensures
        ({
            let m = if lit < METER_SEGMENTS { lit } else { METER_SEGMENTS as int };
            count_lit(spec_meter_column(lit, is_out).take(k)) == if k <= METER_SEGMENTS - m {
                0
            } else {
                k - (METER_SEGMENTS - m)
            }
        }),
    decreases k,
{
    let col = spec_meter_column(lit, is_out);
    if k > 0 {
        lemma_count_lit_prefix(lit, is_out, k - 1);
        assert(col.take(k).drop_last() =~= col.take(k - 1));
        lemma_segment_lit_iff(METER_SEGMENTS - 1 - (k - 1), lit, is_out);
    }
}

/// A meter column shows as many lit segments as the lit count asks for, up to
/// the number of segments it has.
pub proof fn lemma_lit_count(lit: int, is_out: bool)
    requires
        0 <= lit,
    ensures
        count_lit(spec_meter_column(lit, is_out)) == if lit < METER_SEGMENTS {
            lit
        } else {
            METER_SEGMENTS as int
        },
{
    lemma_count_lit_prefix(lit, is_out, METER_SEGMENTS as int);
    assert(spec_meter_column(lit, is_out).take(METER_SEGMENTS as int) =~= spec_meter_column(
        lit,
        is_out,
    ));
}

/// The colour of a lit segment depends only on where it sits and on which
/// meter it belongs to, never on how many segments are lit.
pub proof fn lemma_lit_color_independent_of_count(from_bottom: int, lit1: int, lit2: int, is_out: bool)
    requires
        0 <= from_bottom < METER_SEGMENTS,
        from_bottom < lit1,
        from_bottom < lit2,
    ensures
        spec_segment_color(from_bottom, lit1, is_out) == spec_segment_color(from_bottom, lit2, is_out),
{
}

/// The colour of every segment, by position: unlit at and above the lit count;
/// below it the top segment is headroom grey, the next two are orange on the
/// output meter (the second of them headroom grey and the third green on the
/// input meter), and every lower segment is green.
pub proof fn lemma_segment_palette(from_bottom: int, lit: int, is_out: bool)
    requires
        0 <= from_bottom < METER_SEGMENTS,
    ensures
        from_bottom >= lit ==> spec_segment_color(from_bottom, lit, is_out) == meter_unlit(),
        from_bottom < lit && from_bottom == 21 ==> spec_segment_color(from_bottom, lit, is_out)
            == meter_headroom(),
        from_bottom < lit && is_out && (from_bottom == 19 || from_bottom == 20) ==> spec_segment_color(
            from_bottom,
            lit,
            is_out,
        ) == meter_peak(),
        from_bottom < lit && !is_out && from_bottom == 20 ==> spec_segment_color(from_bottom, lit, is_out)
            == meter_headroom(),
        from_bottom < lit && !is_out && from_bottom == 19 ==> spec_segment_color(from_bottom, lit, is_out)
            == meter_green(),
        from_bottom < lit && from_bottom < 19 ==> spec_segment_color(from_bottom, lit, is_out)
            == meter_green(),
{
}

/// Each entry of a painted column, listed from the top, is the colour of the
/// segment that many places below the top on the same meter: the column is
/// unlit above the lit count, headroom grey at the very top when lit, orange
/// in the two places below the top only on the output meter, and green below.
pub proof fn lemma_column_entries(lit: int, is_out: bool, i: int)
    requires
        0 <= i < METER_SEGMENTS,
    ensures
        spec_meter_column(lit, is_out).len() == METER_SEGMENTS,
        spec_meter_column(lit, is_out)[i] == spec_segment_color(METER_SEGMENTS - 1 - i, lit, is_out),
        i < METER_SEGMENTS - lit ==> spec_meter_column(lit, is_out)[i] == meter_unlit(),
        i >= METER_SEGMENTS - lit && i == 0 ==> spec_meter_column(lit, is_out)[i] == meter_headroom(),
        i >= METER_SEGMENTS - lit && is_out && (i == 1 || i == 2) ==> spec_meter_column(lit, is_out)[i]
            == meter_peak(),
        i >= METER_SEGMENTS - lit && !is_out && i == 1 ==> spec_meter_column(lit, is_out)[i]
            == meter_headroom(),
        i >= METER_SEGMENTS - lit && !is_out && i == 2 ==> spec_meter_column(lit, is_out)[i]
            == meter_green(),
        i >= METER_SEGMENTS - lit && i >= 3 ==> spec_meter_column(lit, is_out)[i] == meter_green(),
        !is_out ==> spec_meter_column(lit, is_out)[i] != meter_peak(),
{
}

} // verus!
