//! The tick marks around the gradient knob's dial.
use vstd::prelude::*;

verus! {

/// How many tick marks the dial carries, from the start of the sweep to its
/// end inclusive.
pub const TICK_COUNT: u32 = 41;

/// The three sizes of tick mark.
#[derive(Clone, Copy, Debug, PartialEq, Eq, Structural)]
pub enum TickKind {
    /// Every tenth tick: the quarters of the sweep.
    Major,
    /// Every fifth tick that is not a major one.
    Medium,
    /// All other ticks.
    Minor,
}

/// The kind of the tick at position `i` along the dial.
pub open spec fn spec_tick_kind(i: int) -> TickKind {
    if i % 10 == 0 {
        TickKind::Major
    } else if i % 5 == 0 {
        TickKind::Medium
    } else {
        TickKind::Minor
    }
}

/// The length in pixels of a tick of the given kind.
pub open spec fn spec_tick_length(kind: TickKind) -> u32 {
    match kind {
        TickKind::Major => 16,
        TickKind::Medium => 11,
        TickKind::Minor => 7,
    }
}

/// How many of the first `n` ticks are of the given kind.
pub open spec fn count_ticks(n: nat, kind: TickKind) -> nat
    decreases n,
{
    if n == 0 {
        0
    } else {
        count_ticks((n - 1) as nat, kind) + if spec_tick_kind(n - 1) == kind {
            1nat
        } else {
            0nat
        }
    }
}

/// The kind of the tick at position `i` along the dial.
pub fn tick_kind(i: u32) -> (kind: TickKind)
    ensures
        kind == spec_tick_kind(i as int),
{
    if i % 10 == 0 {
        TickKind::Major
    } else if i % 5 == 0 {
        TickKind::Medium
    } else {
        TickKind::Minor
    }
}

/// The length in pixels of a tick of the given kind.
pub fn tick_length(kind: TickKind) -> (len: u32)
    ensures
        len == spec_tick_length(kind),
{
    match kind {
        TickKind::Major => 16,
        TickKind::Medium => 11,
        TickKind::Minor => 7,
    }
}

/// The kinds of all the dial's ticks, from the start of the sweep to its end.
pub fn dial_ticks() -> (ticks: Vec<TickKind>)
    ensures
        ticks@.len() == TICK_COUNT,
        forall|i: int| 0 <= i < TICK_COUNT ==> ticks@[i] == spec_tick_kind(i),
{
    let mut ticks: Vec<TickKind> = Vec::new();
    let mut i: u32 = 0;
    while i < TICK_COUNT
        invariant
            i <= TICK_COUNT,
            ticks@.len() == i,
            forall|j: int| 0 <= j < i ==> ticks@[j] == spec_tick_kind(j),
        decreases TICK_COUNT - i,
    {
        ticks.push(tick_kind(i));
        i = i + 1;
    }
    ticks
}

/// A longer tick marks a coarser division: major ticks are longer than medium
/// ones, and medium ones longer than minor ones.
pub proof fn lemma_tick_lengths_ordered()
    ensures
        spec_tick_length(TickKind::Major) > spec_tick_length(TickKind::Medium),
        spec_tick_length(TickKind::Medium) > spec_tick_length(TickKind::Minor),
{
}

/// The dial carries five major ticks (both ends of the sweep and its three
/// quarter marks), four medium ticks between them and thirty-two minor ticks.
pub proof fn lemma_tick_census()
    ensures
        spec_tick_kind(0) == TickKind::Major,
        spec_tick_kind(TICK_COUNT - 1) == TickKind::Major,
        count_ticks(TICK_COUNT as nat, TickKind::Major) == 5,
        count_ticks(TICK_COUNT as nat, TickKind::Medium) == 4,
        count_ticks(TICK_COUNT as nat, TickKind::Minor) == 32,
{
    reveal_with_fuel(count_ticks, 42);
}

/// Which ticks are which: every tenth tick (counting from the start of the
/// sweep) is major, every fifth tick between them is medium, all others are
/// minor; the pattern repeats every ten ticks.
pub proof fn lemma_tick_kind_by_position(i: int)
    requires
        0 <= i,
    ensures
        (spec_tick_kind(i) == TickKind::Major) == (i % 10 == 0),
        (spec_tick_kind(i) == TickKind::Medium) == (i % 5 == 0 && i % 10 != 0),
        (spec_tick_kind(i) == TickKind::Minor) == (i % 5 != 0),
        spec_tick_kind(i + 10) == spec_tick_kind(i),
        spec_tick_length(spec_tick_kind(i)) == if i % 10 == 0 {
            16u32
        } else if i % 5 == 0 {
            11u32
        } else {
            7u32
        },
{
}

} // verus!
