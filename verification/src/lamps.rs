//! Tile-state derivation: maps the fields of a time reading to per-lamp
//! colors, using a unary (thermometer) encoding for the four counting groups
//! and a parity rule for the second indicator.

use vstd::prelude::*;

verus! {

/// The visual state of one lamp tile.
#[derive(Clone, Copy, Debug, PartialEq, Eq, Structural)]
pub enum LampColor {
    Red,
    Green,
    Yellow,
    Grey,
}

/// The four thermometer-encoded lamp groups of the clock face.
#[derive(Clone, Copy, Debug, PartialEq, Eq, Structural)]
pub enum GroupKind {
    HourFives,
    HourOnes,
    MinuteFives,
    MinuteOnes,
}

/// Number of lamp slots in a group.
pub open spec fn group_slot_count(group: GroupKind) -> nat {
    match group {
        GroupKind::HourFives => 4,
        GroupKind::HourOnes => 4,
        GroupKind::MinuteFives => 11,
        GroupKind::MinuteOnes => 4,
    }
}

/// The color an illuminated lamp shows in a given group.
pub open spec fn group_on_color(group: GroupKind) -> LampColor {
    match group {
        GroupKind::HourFives => LampColor::Red,
        GroupKind::HourOnes => LampColor::Green,
        GroupKind::MinuteFives => LampColor::Yellow,
        GroupKind::MinuteOnes => LampColor::Red,
    }
}

/// Thermometer encoding of `value` over a group: slot `i` (0-indexed) shows
/// the group's on-color exactly when `i < value`, so the first `value` slots
/// are lit left-to-right with no gaps and the rest are grey.
pub open spec fn group_state(group: GroupKind, value: int) -> Seq<LampColor> {
    Seq::new(
        group_slot_count(group),
        |i: int| if i < value {
            group_on_color(group)
        } else {
            LampColor::Grey
        },
    )
}

/// Color of the second indicator: green on odd seconds, grey on even ones.
pub open spec fn second_state(second: int) -> LampColor {
    if second % 2 == 1 {
        LampColor::Green
    } else {
        LampColor::Grey
    }
}

/// Number of lamp slots in a group, as executable code.
pub fn slot_count(group: GroupKind) -> (n: usize)
    ensures
        n == group_slot_count(group),
{
    match group {
        GroupKind::HourFives => 4,
        GroupKind::HourOnes => 4,
        GroupKind::MinuteFives => 11,
        GroupKind::MinuteOnes => 4,
    }
}

/// The on-color of a group, as executable code.
pub fn on_color(group: GroupKind) -> (color: LampColor)
    ensures
        color == group_on_color(group),
{
    match group {
        GroupKind::HourFives => LampColor::Red,
        GroupKind::HourOnes => LampColor::Green,
        GroupKind::MinuteFives => LampColor::Yellow,
        GroupKind::MinuteOnes => LampColor::Red,
    }
}

/// Derives the full lamp sequence of one group for a group-relevant count
/// (`hour / 5`, `hour % 5`, `minute / 5` or `minute % 5`). Total over every
/// count: values beyond the slot count simply light the whole group.
pub fn derive_group_state(group: GroupKind, value: u32) -> (lamps: Vec<LampColor>)
    ensures
        lamps@ == group_state(group, value as int),
{
    let n = slot_count(group);
    let on = on_color(group);
    let mut lamps: Vec<LampColor> = Vec::new();
    let mut i: usize = 0;
    while i < n
        invariant
            i <= n,
            n == group_slot_count(group),
            on == group_on_color(group),
            lamps@.len() == i,
            forall|j: int|
                0 <= j < i ==> lamps@[j] == (if j < value as int {
                    group_on_color(group)
                } else {
                    LampColor::Grey
                }),
        decreases n - i,
    {
        if (i as u32) < value {
            lamps.push(on);
        } else {
            lamps.push(LampColor::Grey);
        }
        i = i + 1;
    }
    proof {
        assert(lamps@ =~= group_state(group, value as int));
    }
    lamps
}

/// Derives the second-indicator color: a binary heartbeat, not a thermometer.
pub fn derive_second_state(second: u32) -> (color: LampColor)
    ensures
        color == second_state(second as int),
{
    if second % 2 == 0 {
        LampColor::Grey
    } else {
        LampColor::Green
    }
}

/// For every hour in 0..24 the hour-fives group lights exactly `hour / 5` of
/// its 4 slots, contiguously from the left with the rest grey, and the
/// hour-ones group lights exactly `hour % 5` of its 4 slots likewise.
pub proof fn lemma_hour_groups_thermometer(hour: int)
    requires
        0 <= hour < 24,
    ensures
        group_state(GroupKind::HourFives, hour / 5).len() == 4,
        forall|i: int|
            0 <= i < 4 ==> ((#[trigger] group_state(GroupKind::HourFives, hour / 5)[i] == LampColor::Red)
                <==> i < hour / 5),
        forall|i: int|
            0 <= i < 4 ==> ((#[trigger] group_state(GroupKind::HourFives, hour / 5)[i] == LampColor::Grey)
                <==> i >= hour / 5),
        group_state(GroupKind::HourOnes, hour % 5).len() == 4,
        forall|i: int|
            0 <= i < 4 ==> ((#[trigger] group_state(GroupKind::HourOnes, hour % 5)[i] == LampColor::Green)
                <==> i < hour % 5),
        forall|i: int|
            0 <= i < 4 ==> ((#[trigger] group_state(GroupKind::HourOnes, hour % 5)[i] == LampColor::Grey)
                <==> i >= hour % 5),
{
}

/// For every minute in 0..60 the minute-fives group lights exactly
/// `minute / 5` of its 11 slots, contiguously from the left with the rest
/// grey, and the minute-ones group lights exactly `minute % 5` of its 4
/// slots likewise.
pub proof fn lemma_minute_groups_thermometer(minute: int)
    requires
        0 <= minute < 60,
    ensures
        group_state(GroupKind::MinuteFives, minute / 5).len() == 11,
        forall|i: int|
            0 <= i < 11 ==> ((#[trigger] group_state(GroupKind::MinuteFives, minute / 5)[i]
                == LampColor::Yellow) <==> i < minute / 5),
        forall|i: int|
            0 <= i < 11 ==> ((#[trigger] group_state(GroupKind::MinuteFives, minute / 5)[i]
                == LampColor::Grey) <==> i >= minute / 5),
        group_state(GroupKind::MinuteOnes, minute % 5).len() == 4,
        forall|i: int|
            0 <= i < 4 ==> ((#[trigger] group_state(GroupKind::MinuteOnes, minute % 5)[i] == LampColor::Red)
                <==> i < minute % 5),
        forall|i: int|
            0 <= i < 4 ==> ((#[trigger] group_state(GroupKind::MinuteOnes, minute % 5)[i] == LampColor::Grey)
                <==> i >= minute % 5),
{
}

/// For every second in 0..60 the indicator is green exactly when the second
/// is odd, and grey exactly when it is even.
pub proof fn lemma_second_indicator_parity(second: int)
    requires
        0 <= second < 60,
    ensures
        (second_state(second) == LampColor::Green) <==> (second % 2 == 1),
        (second_state(second) == LampColor::Grey) <==> (second % 2 == 0),
{
}

} // verus!

