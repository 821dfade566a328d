//! What holds of every gap decision.

use vstd::prelude::*;

use crate::lidar_cloud::{Cloud, SLOTS};
use crate::task::autonomous_mode::gap_analysis;
use crate::task::autonomous_mode::gap_analysis::{
    GapDecision, DEFAULT_LEG_DISTANCE_UM, OBSTACLE_THRESHOLD, SAFETY_MARGIN, UM_PER_TENTH_CM,
};
use crate::task::autonomous_mode::gap_list::{Gap, MAX_GAPS};

verus! {

/// Whether a gap covers `slot`, across slot 0 if it must.
pub open spec fn covers(gap: Gap, slot: int) -> bool {
    if gap.end_deg >= gap.start_deg {
        gap.start_deg <= slot <= gap.end_deg
    } else {
        gap.start_deg <= slot || slot <= gap.end_deg
    }
}

/// Whether every slot a gap covers was measured clear and no nearer than the gap
/// says.
pub open spec fn is_open(slots: Seq<Option<u32>>, gap: Gap) -> bool {
    &&& gap_analysis::in_cloud(gap)
    &&& forall|slot: int|
        0 <= slot < SLOTS && #[trigger] covers(gap, slot) ==> gap_analysis::clear_at(slots, slot)
            && gap.min_distance <= slots[slot]->0
}

/// The gaps one analysis chooses among.
pub open spec fn gaps_of(slots: Seq<Option<u32>>) -> Seq<Gap> {
    gap_analysis::joined(gap_analysis::listed(gap_analysis::runs_from(slots, 0)))
}

proof fn lemma_run_min(slots: Seq<Option<u32>>, from: int, to: int, slot: int)
    requires
        from <= slot < to,
        forall|s: int| from <= s < to ==> #[trigger] gap_analysis::clear_at(slots, s),
    ensures
        OBSTACLE_THRESHOLD < gap_analysis::run_min(slots, from, to) <= slots[slot]->0,
        gap_analysis::run_min(slots, from, to) <= u32::MAX,
    decreases to - from,
{
    assert(gap_analysis::clear_at(slots, from));
    assert(gap_analysis::clear_at(slots, slot));
    assert(gap_analysis::clear_at(slots, to - 1));
    if to - from > 1 {
        if slot < to - 1 {
            lemma_run_min(slots, from, to - 1, slot);
        } else {
            lemma_run_min(slots, from, to - 1, from);
        }
    }
}

proof fn lemma_gap_at(slots: Seq<Option<u32>>, from: int)
    requires
        0 <= from < SLOTS,
        gap_analysis::clear_at(slots, from),
    ensures
        is_open(slots, gap_analysis::gap_at(slots, from)),
        gap_analysis::gap_at(slots, from).start_deg <= gap_analysis::gap_at(slots, from).end_deg,
        gap_analysis::gap_at(slots, from).min_distance > OBSTACLE_THRESHOLD,
{
    gap_analysis::lemma_run_end(slots, from);
    let gap = gap_analysis::gap_at(slots, from);
    let end = gap_analysis::run_end(slots, from);
    lemma_run_min(slots, from, end, from);
    assert forall|slot: int| 0 <= slot < SLOTS && #[trigger] covers(gap, slot) implies
        gap_analysis::clear_at(slots, slot) && gap.min_distance <= slots[slot]->0 by {
        lemma_run_min(slots, from, end, slot);
    }
}

/// Whether a run starts at or after `from`, is open, and lies beyond the threshold.
spec fn is_run(slots: Seq<Option<u32>>, from: int, gap: Gap) -> bool {
    &&& is_open(slots, gap)
    &&& from <= gap.start_deg <= gap.end_deg
    &&& gap.min_distance > OBSTACLE_THRESHOLD
}

proof fn lemma_runs_are_open(slots: Seq<Option<u32>>, from: int)
    requires
        0 <= from,
    ensures
        forall|i: int|
            0 <= i < gap_analysis::runs_from(slots, from).len() ==> is_run(
                slots,
                from,
                #[trigger] gap_analysis::runs_from(slots, from)[i],
            ),
    decreases SLOTS - from,
{
    let runs = gap_analysis::runs_from(slots, from);
    if from < SLOTS {
        if gap_analysis::clear_at(slots, from) {
            let end = gap_analysis::run_end(slots, from);
            gap_analysis::lemma_run_end(slots, from);
            lemma_gap_at(slots, from);
            lemma_runs_are_open(slots, end);
            let rest = gap_analysis::runs_from(slots, end);
            assert(runs == seq![gap_analysis::gap_at(slots, from)] + rest);
            assert forall|i: int| 0 <= i < runs.len() implies is_run(
                slots,
                from,
                #[trigger] runs[i],
            ) by {
                if i > 0 {
                    assert(is_run(slots, end, rest[i - 1]));
                }
            }
        } else {
            lemma_runs_are_open(slots, from + 1);
            let rest = gap_analysis::runs_from(slots, from + 1);
            assert(runs == rest);
            assert forall|i: int| 0 <= i < runs.len() implies is_run(
                slots,
                from,
                #[trigger] runs[i],
            ) by {
                assert(is_run(slots, from + 1, rest[i]));
            }
        }
    }
}

/// Every gap consists of slots that were measured clear: a dropout or an obstacle
/// never lies inside one, and no return in it is nearer than the gap says.
pub proof fn law_gaps_are_measured_open(slots: Seq<Option<u32>>, i: int)
    requires
        0 <= i < gaps_of(slots).len(),
    ensures
        is_open(slots, gaps_of(slots)[i]),
        gaps_of(slots)[i].min_distance > OBSTACLE_THRESHOLD,
{
    let runs = gap_analysis::runs_from(slots, 0);
    let listed = gap_analysis::listed(runs);
    lemma_runs_are_open(slots, 0);
    if i > 0 || gaps_of(slots) == listed {
        assert(gaps_of(slots)[i] == runs[i]);
        assert(is_run(slots, 0, runs[i]));
    } else {
        let first = listed[0];
        let last = listed.last();
        assert(first == runs[0] && is_run(slots, 0, runs[0]));
        assert(last == runs[listed.len() - 1] && is_run(slots, 0, runs[listed.len() - 1]));
        let gap = gaps_of(slots)[0];
        assert forall|slot: int| 0 <= slot < SLOTS && #[trigger] covers(gap, slot) implies
            gap_analysis::clear_at(slots, slot) && gap.min_distance <= slots[slot]->0 by {
            assert(covers(first, slot) || covers(last, slot));
        }
    }
}

/// The chosen gap is one of the viable ones and no viable gap is wider.
pub proof fn law_widest_is_widest(gaps: Seq<Gap>)
    ensures
        match gap_analysis::widest(gaps) {
            None => forall|i: int|
                0 <= i < gaps.len() ==> !gap_analysis::viable(#[trigger] gaps[i]),
            Some(best) => {
                &&& gaps.contains(best)
                &&& gap_analysis::viable(best)
                &&& forall|i: int|
                    0 <= i < gaps.len() && gap_analysis::viable(#[trigger] gaps[i])
                        ==> gap_analysis::span(gaps[i]) <= gap_analysis::span(best)
            },
        },
    decreases gaps.len(),
{
    if gaps.len() > 0 {
        let rest = gaps.drop_last();
        law_widest_is_widest(rest);
        assert(gaps[gaps.len() - 1] == gaps.last());
        assert forall|i: int| 0 <= i < rest.len() implies #[trigger] gaps[i] == rest[i] by {}
        if let Some(best) = gap_analysis::widest(rest) {
            let i = choose|i: int| 0 <= i < rest.len() && rest[i] == best;
            assert(gaps[i] == best);
        }
        assert(gaps.contains(gaps.last()));
    }
}

/// A leg is safe: a decision turns no more than the forward cone allows, drives no
/// farther than one leg or the target, and stops short of every return measured in
/// the chosen gap by the safety margin.
pub proof fn law_decision_is_safe(slots: Seq<Option<u32>>, remaining_um: int)
    ensures
        gap_analysis::decided(slots, remaining_um) matches Some(decision) ==> {
            &&& decision.rotation_udeg <= 60_000_000
            &&& decision.drive_distance_um <= DEFAULT_LEG_DISTANCE_UM
            &&& remaining_um >= 0 ==> decision.drive_distance_um <= remaining_um
            &&& remaining_um <= 0 ==> decision.drive_distance_um == 0
            &&& exists|gap: Gap|
                #![trigger gaps_of(slots).contains(gap)]
                gaps_of(slots).contains(gap) && decision == gap_analysis::through(gap, remaining_um)
                    && forall|slot: int|
                    0 <= slot < SLOTS && #[trigger] covers(gap, slot) ==> slots[slot] is Some
                        && decision.drive_distance_um + SAFETY_MARGIN * UM_PER_TENTH_CM
                        <= slots[slot]->0 * UM_PER_TENTH_CM
        },
{
    if let Some(gap) = gap_analysis::widest(gaps_of(slots)) {
        law_widest_is_widest(gaps_of(slots));
        let i = choose|i: int| 0 <= i < gaps_of(slots).len() && gaps_of(slots)[i] == gap;
        law_gaps_are_measured_open(slots, i);
        assert(gaps_of(slots).contains(gap));
        assert(0 <= gap_analysis::off_axis(gap) <= 120);
    }
}

/// Whether a return beyond forty centimetres was measured at a bearing, in degrees in slot
/// order, whole turns aside.
pub open spec fn open_at(slots: Seq<Option<u32>>, bearing: int) -> bool {
    slots[bearing % 360] matches Some(distance) && distance > 400
}

/// Whether the `width` bearings from `first` on are open, round the circle if they must.
pub open spec fn is_open_arc(slots: Seq<Option<u32>>, first: int, width: int) -> bool {
    &&& 0 <= first < 360
    &&& 1 <= width <= 360
    &&& forall|bearing: int| first <= bearing < first + width ==> #[trigger] open_at(slots, bearing)
}

/// Whether an open arc is a whole one: it ends on both sides at a bearing that is not open.
pub open spec fn is_whole_arc(slots: Seq<Option<u32>>, first: int, width: int) -> bool {
    &&& is_open_arc(slots, first, width)
    &&& width < 360
    &&& !open_at(slots, first - 1)
    &&& !open_at(slots, first + width)
}

/// Whether an arc is worth driving through: ten degrees wide at least, its centre no more
/// than sixty degrees to either side.
pub open spec fn is_worthwhile(first: int, width: int) -> bool {
    let twice_centre = (2 * first + width) % 720;
    width >= 10 && (twice_centre <= 120 || twice_centre >= 600)
}

/// Whether a decision turns the robot to the bearing it names, the shorter way: bearings
/// count counter-clockwise from dead ahead.
pub open spec fn faces_its_centre(decision: GapDecision) -> bool {
    &&& decision.rotation_udeg <= 180_000_000
    &&& decision.clockwise ==> (-decision.rotation_udeg) % 360_000_000 == decision.gap_center_udeg
    &&& !decision.clockwise ==> decision.rotation_udeg == decision.gap_center_udeg
}

/// Whether a decision is the one for an arc: its centre is as far from the one edge as
/// from the other, and the leg is the shortest of forty centimetres, what is left of the
/// target, and what keeps ten centimetres from the nearest return in the arc.
pub open spec fn is_for_arc(
    slots: Seq<Option<u32>>,
    first: int,
    width: int,
    remaining_um: int,
    decision: GapDecision,
) -> bool {
    let from_first = (decision.gap_center_udeg - first * 1_000_000) % 360_000_000;
    let to_last = ((first + width) * 1_000_000 - decision.gap_center_udeg) % 360_000_000;
    &&& from_first == to_last && from_first + to_last == width * 1_000_000
    &&& decision.drive_distance_um <= 400_000
    &&& remaining_um >= 0 ==> decision.drive_distance_um <= remaining_um
    &&& remaining_um < 0 ==> decision.drive_distance_um == 0
    &&& forall|bearing: int|
        first <= bearing < first + width && #[trigger] open_at(slots, bearing)
            ==> decision.drive_distance_um + 100_000 <= slots[bearing % 360]->0 * 1_000
    &&& decision.drive_distance_um == 400_000 || remaining_um <= decision.drive_distance_um
        || exists|bearing: int|
        first <= bearing < first + width && #[trigger] open_at(slots, bearing)
            && decision.drive_distance_um + 100_000 == slots[bearing % 360]->0 * 1_000
}

/// The nearest distance of a run is measured in one of its slots.
proof fn lemma_run_min_is_met(slots: Seq<Option<u32>>, from: int, to: int) -> (slot: int)
    requires
        from < to,
    ensures
        from <= slot < to,
        gap_analysis::run_min(slots, from, to) == slots[slot]->0,
    decreases to - from,
{
    if to - from <= 1 {
        from
    } else {
        let rest = lemma_run_min_is_met(slots, from, to - 1);
        if slots[to - 1]->0 < gap_analysis::run_min(slots, from, to - 1) {
            to - 1
        } else {
            rest
        }
    }
}

/// Whether a gap's nearest distance is met at one of its bearings and undercut at none.
spec fn has_nearest(slots: Seq<Option<u32>>, gap: Gap) -> bool {
    &&& is_open_arc(slots, gap.start_deg as int, gap_analysis::span(gap))
    &&& forall|bearing: int|
        gap.start_deg <= bearing < gap.start_deg + gap_analysis::span(gap) && #[trigger] open_at(
            slots,
            bearing,
        ) ==> gap.min_distance <= slots[bearing % 360]->0
    &&& exists|bearing: int|
        gap.start_deg <= bearing < gap.start_deg + gap_analysis::span(gap) && #[trigger] open_at(
            slots,
            bearing,
        ) && gap.min_distance == slots[bearing % 360]->0
}

/// Whether a gap is a maximal run of clear slots, cut at slot 0.
spec fn is_linear_run(slots: Seq<Option<u32>>, gap: Gap) -> bool {
    &&& gap.start_deg <= gap.end_deg < SLOTS
    &&& has_nearest(slots, gap)
    &&& gap.start_deg == 0 || !gap_analysis::clear_at(slots, gap.start_deg - 1)
    &&& gap.end_deg == SLOTS - 1 || !gap_analysis::clear_at(slots, gap.end_deg + 1)
}

proof fn lemma_gap_at_is_linear(slots: Seq<Option<u32>>, from: int)
    requires
        0 <= from < SLOTS,
        gap_analysis::clear_at(slots, from),
        from == 0 || !gap_analysis::clear_at(slots, from - 1),
    ensures
        is_linear_run(slots, gap_analysis::gap_at(slots, from)),
        gap_analysis::gap_at(slots, from).start_deg == from,
        gap_analysis::gap_at(slots, from).end_deg + 1 == gap_analysis::run_end(slots, from),
{
    gap_analysis::lemma_run_end(slots, from);
    lemma_gap_at(slots, from);
    let gap = gap_analysis::gap_at(slots, from);
    let end = gap_analysis::run_end(slots, from);
    let near = lemma_run_min_is_met(slots, from, end);
    lemma_run_min(slots, from, end, near);
    assert forall|bearing: int|
        gap.start_deg <= bearing < gap.start_deg + gap_analysis::span(gap) implies #[trigger] open_at(
        slots,
        bearing,
    ) && gap.min_distance <= slots[bearing % 360]->0 by {
        assert(covers(gap, bearing));
        assert(bearing % 360 == bearing);
    }
    assert(open_at(slots, near) && near % 360 == near);
}

/// How many runs of clear slots begin at or after `from`.
pub open spec fn openings(slots: Seq<Option<u32>>, from: int) -> nat
    decreases 360 - from,
{
    if from >= 360 {
        0
    } else if open_at(slots, from) && (from == 0 || !open_at(slots, from - 1)) {
        1 + openings(slots, from + 1)
    } else {
        openings(slots, from + 1)
    }
}

proof fn lemma_no_opening_inside(slots: Seq<Option<u32>>, from: int, to: int)
    requires
        0 < from <= to <= 360,
        forall|slot: int| from - 1 <= slot < to ==> #[trigger] gap_analysis::clear_at(slots, slot),
    ensures
        openings(slots, from) == openings(slots, to),
    decreases to - from,
{
    if from < to {
        assert(gap_analysis::clear_at(slots, from - 1));
        assert((from - 1) % 360 == from - 1);
        lemma_no_opening_inside(slots, from + 1, to);
    }
}

/// The runs from a slot on: each is maximal, they are in order and apart, none is missing,
/// and there are as many as begin there.
proof fn lemma_runs_are_maximal(slots: Seq<Option<u32>>, from: int)
    requires
        0 <= from <= SLOTS,
        from == 0 || from == SLOTS || !gap_analysis::clear_at(slots, from - 1)
            || !gap_analysis::clear_at(slots, from),
    ensures
        ({
            let runs = gap_analysis::runs_from(slots, from);
            &&& runs.len() == openings(slots, from)
            &&& forall|i: int|
                0 <= i < runs.len() ==> is_linear_run(slots, #[trigger] runs[i])
                    && runs[i].start_deg >= from
            &&& forall|i: int, j: int|
                0 <= i < j < runs.len() ==> (#[trigger] runs[i]).end_deg + 1 < (
                #[trigger] runs[j]).start_deg
            &&& forall|slot: int|
                from <= slot < SLOTS && #[trigger] gap_analysis::clear_at(slots, slot)
                    ==> exists|i: int|
                    0 <= i < runs.len() && covers(#[trigger] runs[i], slot)
        }),
    decreases SLOTS - from,
{
    let runs = gap_analysis::runs_from(slots, from);
    if from < SLOTS {
        assert(from % 360 == from);
        if gap_analysis::clear_at(slots, from) {
            let end = gap_analysis::run_end(slots, from);
            gap_analysis::lemma_run_end(slots, from);
            lemma_gap_at_is_linear(slots, from);
            lemma_runs_are_maximal(slots, end);
            lemma_no_opening_inside(slots, from + 1, end);
            assert(from > 0 ==> (from - 1) % 360 == from - 1);
            let gap = gap_analysis::gap_at(slots, from);
            let rest = gap_analysis::runs_from(slots, end);
            assert(runs == seq![gap] + rest);
            assert forall|i: int| 0 <= i < runs.len() implies is_linear_run(slots, #[trigger] runs[i])
                && runs[i].start_deg >= from by {
                if i > 0 {
                    assert(runs[i] == rest[i - 1]);
                }
            }
            assert forall|i: int, j: int| 0 <= i < j < runs.len() implies (
            #[trigger] runs[i]).end_deg + 1 < (#[trigger] runs[j]).start_deg by {
                assert(runs[j] == rest[j - 1]);
                if i > 0 {
                    assert(runs[i] == rest[i - 1]);
                } else {
                    assert(rest[j - 1].start_deg >= end);
                    assert(is_linear_run(slots, rest[j - 1]));
                    assert(covers(rest[j - 1], rest[j - 1].start_deg as int));
                    assert(open_at(slots, rest[j - 1].start_deg as int));
                }
            }
            assert forall|slot: int|
                from <= slot < SLOTS && #[trigger] gap_analysis::clear_at(slots, slot) implies exists|
                i: int,
            |
                0 <= i < runs.len() && covers(#[trigger] runs[i], slot) by {
                if slot < end {
                    assert(covers(runs[0], slot));
                } else {
                    let i = choose|i: int| 0 <= i < rest.len() && covers(#[trigger] rest[i], slot);
                    assert(runs[i + 1] == rest[i]);
                }
            }
        } else {
            lemma_runs_are_maximal(slots, from + 1);
            assert(runs == gap_analysis::runs_from(slots, from + 1));
        }
    }
}

proof fn lemma_clear_is_open(slots: Seq<Option<u32>>, slot: int)
    requires
        0 <= slot < SLOTS,
    ensures
        gap_analysis::clear_at(slots, slot) == open_at(slots, slot),
        open_at(slots, slot + 360) == open_at(slots, slot),
        open_at(slots, slot - 360) == open_at(slots, slot),
{
    assert(slot % 360 == slot);
    assert((slot + 360) % 360 == slot);
    assert((slot - 360) % 360 == slot);
}

/// Whether two runs meet across slot 0 and are made one.
spec fn meet(runs: Seq<Gap>) -> bool {
    runs.len() >= 2 && runs[0].start_deg == 0 && runs.last().end_deg == SLOTS - 1
}

/// Every gap of an analysis is an open arc with the nearest distance it says.
proof fn lemma_gaps_have_nearest(slots: Seq<Option<u32>>, i: int)
    requires
        0 <= i < gaps_of(slots).len(),
    ensures
        has_nearest(slots, gaps_of(slots)[i]),
        gap_analysis::in_cloud(gaps_of(slots)[i]),
{
    let runs = gap_analysis::runs_from(slots, 0);
    let listed = gap_analysis::listed(runs);
    lemma_runs_are_maximal(slots, 0);
    if i > 0 || !meet(listed) {
        assert(gaps_of(slots)[i] == runs[i]);
    } else {
        let first = listed[0];
        let last = listed.last();
        let k = listed.len() - 1;
        assert(first == runs[0] && last == runs[k]);
        assert(is_linear_run(slots, runs[0]) && is_linear_run(slots, runs[k]));
        assert(runs[0].end_deg + 1 < runs[k].start_deg);
        let gap = gaps_of(slots)[0];
        let start = gap.start_deg as int;
        let width = gap_analysis::span(gap);
        assert forall|bearing: int| start <= bearing < start + width implies #[trigger] open_at(
            slots,
            bearing,
        ) && gap.min_distance <= slots[bearing % 360]->0 by {
            if bearing < 360 {
                assert(open_at(slots, bearing));
            } else {
                lemma_clear_is_open(slots, bearing - 360);
                assert(bearing % 360 == (bearing - 360) % 360);
                assert(open_at(slots, bearing - 360));
            }
        }
        if last.min_distance < first.min_distance {
            let near = choose|bearing: int|
                last.start_deg <= bearing < last.start_deg + gap_analysis::span(last)
                    && #[trigger] open_at(slots, bearing) && last.min_distance == slots[bearing
                    % 360]->0;
            assert(open_at(slots, near) && start <= near < start + width);
        } else {
            let near = choose|bearing: int|
                first.start_deg <= bearing < first.start_deg + gap_analysis::span(first)
                    && #[trigger] open_at(slots, bearing) && first.min_distance == slots[bearing
                    % 360]->0;
            lemma_clear_is_open(slots, near);
            assert((near + 360) % 360 == near % 360);
            assert(open_at(slots, near + 360) && start <= near + 360 < start + width);
        }
    }
}

/// A gap with its nearest distance is driven through as its arc asks.
proof fn lemma_through_is_for_arc(slots: Seq<Option<u32>>, gap: Gap, remaining_um: int)
    requires
        has_nearest(slots, gap),
        gap_analysis::in_cloud(gap),
        gap_analysis::viable(gap),
    ensures
        faces_its_centre(gap_analysis::through(gap, remaining_um)),
        gap_analysis::through(gap, remaining_um).rotation_udeg <= 60_000_000,
        is_worthwhile(gap.start_deg as int, gap_analysis::span(gap)),
        is_for_arc(
            slots,
            gap.start_deg as int,
            gap_analysis::span(gap),
            remaining_um,
            gap_analysis::through(gap, remaining_um),
        ),
{
    let first = gap.start_deg as int;
    let width = gap_analysis::span(gap);
    let decision = gap_analysis::through(gap, remaining_um);
    let near = choose|bearing: int|
        first <= bearing < first + width && #[trigger] open_at(slots, bearing) && gap.min_distance
            == slots[bearing % 360]->0;
    let twice = 2 * first + width;
    assert(0 < twice < 1_440);
    assert(gap_analysis::centre(gap) == twice % 720);
    assert(twice % 720 == if twice >= 720 {
        twice - 720
    } else {
        twice
    });
    assert(decision.gap_center_udeg == gap_analysis::centre(gap) * 500_000);
    assert(decision.rotation_udeg == gap_analysis::off_axis(gap) * 500_000);
    assert(gap_analysis::leg(gap, remaining_um) <= 400_000);
    let from_first = (decision.gap_center_udeg - first * 1_000_000) % 360_000_000;
    let to_last = ((first + width) * 1_000_000 - decision.gap_center_udeg) % 360_000_000;
    assert(from_first == width * 500_000);
    assert(to_last == width * 500_000);
}

/// A decision faces its gap: turning from dead ahead by its rotation the way it says gives
/// its centre, no more than sixty degrees away, and that centre halves an arc of at least
/// ten open degrees, which the leg keeps within.
pub proof fn law_decision_faces_the_gap(slots: Seq<Option<u32>>, remaining_um: int)
    ensures
        gap_analysis::decided(slots, remaining_um) matches Some(decision) ==> {
            &&& faces_its_centre(decision)
            &&& decision.rotation_udeg <= 60_000_000
            &&& exists|first: int, width: int| #[trigger]
                is_open_arc(slots, first, width) && is_worthwhile(first, width) && is_for_arc(
                    slots,
                    first,
                    width,
                    remaining_um,
                    decision,
                )
        },
{
    if let Some(gap) = gap_analysis::widest(gaps_of(slots)) {
        law_widest_is_widest(gaps_of(slots));
        let i = choose|i: int| 0 <= i < gaps_of(slots).len() && gaps_of(slots)[i] == gap;
        lemma_gaps_have_nearest(slots, i);
        lemma_through_is_for_arc(slots, gap, remaining_um);
        assert(is_open_arc(slots, gap.start_deg as int, gap_analysis::span(gap)));
    }
}

/// The first of the widest viable gaps is chosen.
proof fn lemma_widest_is_first(gaps: Seq<Gap>) -> (at: int)
    requires
        gap_analysis::widest(gaps) is Some,
    ensures
        0 <= at < gaps.len(),
        gap_analysis::widest(gaps) == Some(gaps[at]),
        forall|i: int|
            0 <= i < at && gap_analysis::viable(#[trigger] gaps[i]) ==> gap_analysis::span(gaps[i])
                < gap_analysis::span(gaps[at]),
    decreases gaps.len(),
{
    let rest = gaps.drop_last();
    let gap = gaps.last();
    law_widest_is_widest(rest);
    assert forall|i: int| 0 <= i < rest.len() implies #[trigger] gaps[i] == rest[i] by {}
    if gap_analysis::widest(gaps) == gap_analysis::widest(rest) && gap_analysis::widest(rest)
        is Some {
        lemma_widest_is_first(rest)
    } else {
        gaps.len() - 1
    }
}

/// Where no run was dropped, the gaps are whole arcs, or the whole circle, in the order in
/// which they end.
proof fn lemma_gaps_are_whole(slots: Seq<Option<u32>>, i: int)
    requires
        openings(slots, 0) <= 64,
        0 <= i < gaps_of(slots).len(),
    ensures
        ({
            let gap = gaps_of(slots)[i];
            let width = gap_analysis::span(gap);
            &&& is_whole_arc(slots, gap.start_deg as int, width) || (gap.start_deg == 0 && width
                == 360)
            &&& (gap.start_deg + width - 1) % 360 == gap.end_deg
            &&& forall|j: int| i < j < gaps_of(slots).len() ==> gap.end_deg < (
            #[trigger] gaps_of(slots)[j]).end_deg
        }),
{
    let runs = gap_analysis::runs_from(slots, 0);
    let gaps = gaps_of(slots);
    lemma_runs_are_maximal(slots, 0);
    lemma_gaps_have_nearest(slots, i);
    lemma_clear_is_open(slots, 0);
    lemma_clear_is_open(slots, 359);
    let last = runs.len() - 1;
    assert(gap_analysis::listed(runs) == runs);
    assert(runs.last() == runs[last]);
    assert(is_linear_run(slots, runs[0]) && is_linear_run(slots, runs[last]));
    assert forall|j: int| 0 < j < gaps.len() implies #[trigger] gaps[j] == runs[j] by {}
    assert forall|j: int| i < j < gaps.len() implies gaps[i].end_deg < (#[trigger] gaps[j]).end_deg
        by {
        assert(gaps[j] == runs[j]);
        assert(is_linear_run(slots, runs[j]) && is_linear_run(slots, runs[i]));
        assert(runs[i].end_deg + 1 < runs[j].start_deg);
        if i > 0 {
            assert(gaps[i] == runs[i]);
        } else {
            assert(gaps[0].end_deg == runs[0].end_deg);
        }
    }
    let gap = gaps[i];
    let first = gap.start_deg as int;
    let width = gap_analysis::span(gap);
    if meet(runs) && i == 0 {
        assert(runs[0].end_deg + 1 < runs[last].start_deg);
        lemma_clear_is_open(slots, first - 1);
        lemma_clear_is_open(slots, gap.end_deg + 1);
        assert(first + width == gap.end_deg + 1 + 360);
    } else {
        assert(gap == runs[i] && is_linear_run(slots, runs[i]));
        assert((first + width - 1) % 360 == gap.end_deg);
        if first > 0 {
            lemma_clear_is_open(slots, first - 1);
        } else {
            if i > 0 {
                assert(runs[0].end_deg + 1 < runs[i].start_deg);
            }
            if gap_analysis::clear_at(slots, 359) {
                let k = choose|k: int| 0 <= k < runs.len() && covers(#[trigger] runs[k], 359);
                assert(is_linear_run(slots, runs[k]));
                if k < last {
                    assert(runs[k].end_deg + 1 < runs[last].start_deg);
                }
                assert(k == last);
                assert(!meet(runs));
                assert(k == 0);
            }
            assert((first - 1) % 360 == 359);
        }
        if gap.end_deg < 359 {
            lemma_clear_is_open(slots, gap.end_deg + 1);
        } else {
            if i < last {
                assert(is_linear_run(slots, runs[last]));
                assert(runs[i].end_deg + 1 < runs[last].start_deg);
            }
            if gap_analysis::clear_at(slots, 0) {
                let k = choose|k: int| 0 <= k < runs.len() && covers(#[trigger] runs[k], 0);
                assert(is_linear_run(slots, runs[k]));
                if k > 0 {
                    assert(is_linear_run(slots, runs[0]));
                    assert(runs[0].end_deg + 1 < runs[k].start_deg);
                }
                assert(runs[0].start_deg == 0);
                assert(!meet(runs));
                assert(i == 0);
            }
            assert((first + width) % 360 == 0);
        }
    }
}

/// Where no run was dropped, every whole arc is one of the gaps.
proof fn lemma_whole_arc_is_a_gap(slots: Seq<Option<u32>>, first: int, width: int) -> (at: int)
    requires
        openings(slots, 0) <= 64,
        is_whole_arc(slots, first, width),
    ensures
        0 <= at < gaps_of(slots).len(),
        gaps_of(slots)[at].start_deg == first,
        gap_analysis::span(gaps_of(slots)[at]) == width,
{
    let runs = gap_analysis::runs_from(slots, 0);
    let gaps = gaps_of(slots);
    lemma_runs_are_maximal(slots, 0);
    assert(gap_analysis::listed(runs) == runs);
    assert(open_at(slots, first));
    lemma_clear_is_open(slots, first);
    let k = choose|k: int| 0 <= k < runs.len() && covers(#[trigger] runs[k], first);
    let run = runs[k];
    let last = runs.len() - 1;
    assert(is_linear_run(slots, run));
    assert(runs.last() == runs[last]);
    assert(is_linear_run(slots, runs[0]) && is_linear_run(slots, runs[last]));
    if run.start_deg < first {
        assert(open_at(slots, first - 1));
    }
    assert(run.start_deg == first);
    lemma_clear_is_open(slots, 0);
    lemma_clear_is_open(slots, 359);
    if run.end_deg < 359 {
        lemma_clear_is_open(slots, run.end_deg + 1);
        assert(run.end_deg + 1 >= first + width) by {
            if run.end_deg + 1 < first + width {
                assert(open_at(slots, run.end_deg + 1));
            }
        }
    }
    if first + width <= 359 {
        assert(run.end_deg < first + width) by {
            if run.end_deg >= first + width {
                assert(open_at(slots, first + width));
            }
        }
    }
    if first + width <= 360 {
        assert(run.end_deg == first + width - 1);
        if meet(runs) {
            if k == 0 {
                assert(open_at(slots, runs[last].end_deg as int));
                assert((first - 1) % 360 == 359);
            }
            if k == last {
                assert(open_at(slots, 0));
                assert((first + width) % 360 == 0);
            }
            assert(gaps[k] == runs[k]);
        }
        k
    } else {
        assert(run.end_deg == 359);
        assert(open_at(slots, 360));
        assert(360int % 360 == 0);
        let z = choose|z: int| 0 <= z < runs.len() && covers(#[trigger] runs[z], 0);
        assert(is_linear_run(slots, runs[z]));
        if z > 0 {
            assert(runs[0].end_deg + 1 < runs[z].start_deg);
        }
        if k < last {
            assert(runs[k].end_deg + 1 < runs[last].start_deg);
        }
        assert(k == last && z == 0 && k != 0);
        assert(meet(runs));
        assert(runs[0].end_deg + 1 < runs[last].start_deg);
        let end = runs[0].end_deg as int;
        lemma_clear_is_open(slots, end + 1);
        assert(end + 1 + 360 >= first + width) by {
            if end + 1 + 360 < first + width {
                assert(open_at(slots, end + 1 + 360));
            }
        }
        assert(end + 360 < first + width) by {
            if end + 360 >= first + width {
                lemma_clear_is_open(slots, first + width - 360);
                assert(open_at(slots, first + width - 360));
            }
        }
        0
    }
}

/// The widest gap wins: unless the cloud has more gaps than an analysis holds, a decision
/// is made for a whole arc that is worth driving through, no such arc is wider, and of
/// equally wide ones it is the one that ends first from dead ahead round to the left.
/// Without such an arc there is no decision.
pub proof fn law_decision_takes_the_widest_gap(slots: Seq<Option<u32>>, remaining_um: int)
    requires
        openings(slots, 0) <= 64,
    ensures
        match gap_analysis::decided(slots, remaining_um) {
            None => forall|first: int, width: int| #[trigger]
                is_whole_arc(slots, first, width) ==> !is_worthwhile(first, width),
            Some(decision) => exists|first: int, width: int| #[trigger]
                is_whole_arc(slots, first, width) && is_worthwhile(first, width) && is_for_arc(
                    slots,
                    first,
                    width,
                    remaining_um,
                    decision,
                ) && forall|other: int, wide: int| #[trigger]
                    is_whole_arc(slots, other, wide) && is_worthwhile(other, wide) ==> wide < width
                        || (wide == width && (first + width - 1) % 360 <= (other + wide - 1) % 360),
        },
{
    let gaps = gaps_of(slots);
    law_widest_is_widest(gaps);
    if let Some(gap) = gap_analysis::widest(gaps) {
        let at = lemma_widest_is_first(gaps);
        lemma_gaps_have_nearest(slots, at);
        lemma_gaps_are_whole(slots, at);
        lemma_through_is_for_arc(slots, gap, remaining_um);
        let first = gap.start_deg as int;
        let width = gap_analysis::span(gap);
        assert(is_whole_arc(slots, first, width));
        assert forall|other: int, wide: int| #[trigger]
            is_whole_arc(slots, other, wide) && is_worthwhile(other, wide) implies wide < width || (
        wide == width && (first + width - 1) % 360 <= (other + wide - 1) % 360) by {
            let i = lemma_whole_arc_is_a_gap(slots, other, wide);
            lemma_gaps_are_whole(slots, i);
            lemma_worthwhile_is_viable(gaps[i]);
            if i > at {
                assert(gaps[at].end_deg < gaps[i].end_deg);
            }
        }
    } else {
        assert forall|first: int, width: int| #[trigger]
            is_whole_arc(slots, first, width) implies !is_worthwhile(first, width) by {
            let i = lemma_whole_arc_is_a_gap(slots, first, width);
            if is_worthwhile(first, width) {
                lemma_worthwhile_is_viable(gaps[i]);
            }
        }
    }
}

proof fn lemma_worthwhile_is_viable(gap: Gap)
    requires
        gap.start_deg < 360,
        1 <= gap_analysis::span(gap) <= 360,
        is_worthwhile(gap.start_deg as int, gap_analysis::span(gap)),
    ensures
        gap_analysis::viable(gap),
{
}

/// Whatever an analysis returns keeps to this: a decision faces its gap, and unless the
/// cloud has more gaps than an analysis holds it is made for the widest arc that is worth
/// driving through, and there is one wherever there is such an arc.
pub proof fn law_analysis_answers_for_the_cloud(
    cloud: &Cloud,
    remaining_um: i128,
    answer: Option<GapDecision>,
)
    requires
        call_ensures(gap_analysis::analyze_gaps, (cloud, remaining_um), answer),
    ensures
        answer matches Some(decision) ==> {
            &&& faces_its_centre(decision)
            &&& decision.rotation_udeg <= 60_000_000
            &&& exists|first: int, width: int| #[trigger]
                is_open_arc(cloud@, first, width) && is_worthwhile(first, width) && is_for_arc(
                    cloud@,
                    first,
                    width,
                    remaining_um as int,
                    decision,
                )
        },
        openings(cloud@, 0) <= 64 ==> match answer {
            None => forall|first: int, width: int| #[trigger]
                is_whole_arc(cloud@, first, width) ==> !is_worthwhile(first, width),
            Some(decision) => exists|first: int, width: int| #[trigger]
                is_whole_arc(cloud@, first, width) && is_worthwhile(first, width) && is_for_arc(
                    cloud@,
                    first,
                    width,
                    remaining_um as int,
                    decision,
                ) && forall|other: int, wide: int| #[trigger]
                    is_whole_arc(cloud@, other, wide) && is_worthwhile(other, wide) ==> wide < width
                        || (wide == width && (first + width - 1) % 360 <= (other + wide - 1) % 360),
        },
{
    law_decision_faces_the_gap(cloud@, remaining_um as int);
    if openings(cloud@, 0) <= 64 {
        law_decision_takes_the_widest_gap(cloud@, remaining_um as int);
    }
}

} // verus!
