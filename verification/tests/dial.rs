use knobmuse::dial::{dial_ticks, tick_kind, tick_length, TickKind, TICK_COUNT};

#[test]
fn tick_kinds_by_position() {
    assert_eq!(tick_kind(0), TickKind::Major);
    assert_eq!(tick_kind(5), TickKind::Medium);
    assert_eq!(tick_kind(7), TickKind::Minor);
    assert_eq!(tick_kind(10), TickKind::Major);
    assert_eq!(tick_kind(35), TickKind::Medium);
    assert_eq!(tick_kind(40), TickKind::Major);
}

#[test]
fn tick_lengths() {
    assert_eq!(tick_length(TickKind::Major), 16);
    assert_eq!(tick_length(TickKind::Medium), 11);
    assert_eq!(tick_length(TickKind::Minor), 7);
}

#[test]
fn dial_tick_census() {
    let ticks = dial_ticks();
    assert_eq!(ticks.len(), TICK_COUNT as usize);
    let count = |k: TickKind| ticks.iter().filter(|t| **t == k).count();
    assert_eq!(count(TickKind::Major), 5);
    assert_eq!(count(TickKind::Medium), 4);
    assert_eq!(count(TickKind::Minor), 32);
    assert_eq!(ticks[0], TickKind::Major);
    assert_eq!(ticks[40], TickKind::Major);
}
