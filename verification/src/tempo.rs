//! The tempo knob: a clickable knob that steps through note divisions.
use vstd::prelude::*;

verus! {

/// How many note divisions the tempo knob offers.
pub const TEMPO_COUNT: usize = 5;

/// The division shown at each position of the tempo knob, in click order.
pub open spec fn spec_tempo_label(idx: int) -> Seq<char> {
    if idx == 0 {
        "1/4"@
    } else if idx == 1 {
        "1/8"@
    } else if idx == 2 {
        "1/8D"@
    } else if idx == 3 {
        "1/16"@
    } else {
        "1/32"@
    }
}

/// The position the tempo knob moves to when it is clicked at `idx`: the next
/// division, wrapping from the last back to the first.
pub open spec fn spec_next_tempo(idx: int) -> int {
    (idx + 1) % (TEMPO_COUNT as int)
}

/// The position the tempo knob moves to when it is clicked.
pub fn next_tempo_index(idx: usize) -> (next: usize)
    requires
        idx < TEMPO_COUNT,
    ensures
        next == spec_next_tempo(idx as int),
        next < TEMPO_COUNT,
{
    (idx + 1) % TEMPO_COUNT
}

/// The division text that the tempo knob shows at position `idx`.
pub fn tempo_label(idx: usize) -> (label: &'static str)
    requires
        idx < TEMPO_COUNT,
    ensures
        label@ == spec_tempo_label(idx as int),
{
    if idx == 0 {
        "1/4"
    } else if idx == 1 {
        "1/8"
    } else if idx == 2 {
        "1/8D"
    } else if idx == 3 {
        "1/16"
    } else {
        "1/32"
    }
}

/// Clicking the tempo knob as many times as there are divisions brings it back
/// to the division it started at.
pub proof fn lemma_tempo_full_turn(idx: int)
    requires
        0 <= idx < TEMPO_COUNT,
    ensures
        spec_next_tempo(spec_next_tempo(spec_next_tempo(spec_next_tempo(spec_next_tempo(idx)))))
            == idx,
{
}

/// Each position of the tempo knob shows a different division.
pub proof fn lemma_tempo_divisions_distinct(i: int, j: int)
    requires
        0 <= i < TEMPO_COUNT,
        0 <= j < TEMPO_COUNT,
        i != j,
    ensures
        spec_tempo_label(i) != spec_tempo_label(j),
{
    reveal_strlit("1/4");
    reveal_strlit("1/8");
    reveal_strlit("1/8D");
    reveal_strlit("1/16");
    reveal_strlit("1/32");
    if spec_tempo_label(i) == spec_tempo_label(j) {
        assert(spec_tempo_label(i).len() == spec_tempo_label(j).len());
        assert(spec_tempo_label(i)[2] == spec_tempo_label(j)[2]);
    }
}

/// One click moves the tempo knob exactly one division on, and the last
/// division is followed by the first; the divisions come in the order
/// 1/4, 1/8, 1/8D, 1/16, 1/32.
pub proof fn lemma_tempo_click_order(idx: int)
    requires
        0 <= idx < TEMPO_COUNT,
    ensures
        spec_next_tempo(idx) == if idx + 1 < TEMPO_COUNT {
            idx + 1
        } else {
            0
        },
        spec_tempo_label(0) == "1/4"@,
        spec_tempo_label(1) == "1/8"@,
        spec_tempo_label(2) == "1/8D"@,
        spec_tempo_label(3) == "1/16"@,
        spec_tempo_label(4) == "1/32"@,
{
}

} // verus!
