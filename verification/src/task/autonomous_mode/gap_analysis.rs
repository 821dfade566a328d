//! Gap analysis: which way through?
//!
//! Looks for arcs of clear slots, picks the widest whose centre lies in the forward
//! cone, and says how to turn and how far to drive. A slot counts as clear only if
//! a distance beyond the threshold was measured in it.

use vstd::prelude::*;

use crate::lidar_cloud;
use crate::lidar_cloud::{Cloud, SLOTS};
use crate::task::autonomous_mode::gap_list;
use crate::task::autonomous_mode::gap_list::{Gap, MAX_GAPS};

verus! {

/// Distance beyond which a slot is clear, in tenths of a centimetre.
pub const OBSTACLE_THRESHOLD: u32 = 400;

/// Half-angle of the forward cone, in half degrees.
pub const FORWARD_CONE_HALF: u32 = 120;

/// Smallest span of a gap worth driving through, in degrees.
pub const MIN_GAP_WIDTH_DEG: u32 = 10;

/// Longest leg, in micrometres.
pub const DEFAULT_LEG_DISTANCE_UM: u32 = 400_000;

/// Margin kept from the nearest return of a gap, in tenths of a centimetre.
pub const SAFETY_MARGIN: u32 = 100;

/// Micrometres in a tenth of a centimetre.
pub const UM_PER_TENTH_CM: u32 = 1_000;

/// Microdegrees in half a degree.
pub const UDEG_PER_HALF_DEG: u32 = 500_000;

/// A chosen gap to drive through.
#[derive(Debug, Clone, Copy, PartialEq, Eq, Structural)]
pub struct GapDecision {
    /// Centre of the gap, in microdegrees from dead ahead in slot order.
    pub gap_center_udeg: u32,
    /// Rotation that faces the centre, in microdegrees.
    pub rotation_udeg: u32,
    /// Whether that rotation is clockwise.
    pub clockwise: bool,
    /// Distance to drive, in micrometres.
    pub drive_distance_um: u32,
}

/// Whether `slot` is clear.
pub open spec fn clear_at(slots: Seq<Option<u32>>, slot: int) -> bool {
    lidar_cloud::clears(slots[slot], OBSTACLE_THRESHOLD)
}

/// The first slot at or after `from` that is not clear, or the end of the cloud.
pub open spec fn run_end(slots: Seq<Option<u32>>, from: int) -> int
    decreases SLOTS - from,
{
    if from >= SLOTS || !clear_at(slots, from) {
        from
    } else {
        run_end(slots, from + 1)
    }
}

/// The nearest distance in the clear slots from `from` up to, not counting, `to`.
pub open spec fn run_min(slots: Seq<Option<u32>>, from: int, to: int) -> int
    decreases to - from,
{
    if to - from <= 1 {
        slots[from]->0 as int
    } else {
        let rest = run_min(slots, from, to - 1);
        let last = slots[to - 1]->0;
        if last < rest {
            last as int
        } else {
            rest
        }
    }
}

/// The gap that starts at the clear slot `from`.
pub open spec fn gap_at(slots: Seq<Option<u32>>, from: int) -> Gap {
    let end = run_end(slots, from);
    Gap {
        start_deg: from as u16,
        end_deg: (end - 1) as u16,
        min_distance: run_min(slots, from, end) as u32,
    }
}

/// The maximal runs of clear slots from `from` on, in order.
pub open spec fn runs_from(slots: Seq<Option<u32>>, from: int) -> Seq<Gap>
    decreases SLOTS - from,
    via runs_from_decreases
{
    if from < 0 || from >= SLOTS {
        Seq::empty()
    } else if clear_at(slots, from) {
        seq![gap_at(slots, from)] + runs_from(slots, run_end(slots, from))
    } else {
        runs_from(slots, from + 1)
    }
}

#[via_fn]
proof fn runs_from_decreases(slots: Seq<Option<u32>>, from: int) {
    if 0 <= from < SLOTS && clear_at(slots, from) {
        lemma_run_end(slots, from);
    }
}

/// The runs as far as the list holds them.
pub open spec fn listed(runs: Seq<Gap>) -> Seq<Gap> {
    if runs.len() > MAX_GAPS {
        runs.take(MAX_GAPS as int)
    } else {
        runs
    }
}

/// The gaps with the first and the last made one when they meet across slot 0.
pub open spec fn joined(gaps: Seq<Gap>) -> Seq<Gap> {
    if gaps.len() >= 2 && gaps[0].start_deg == 0 && gaps.last().end_deg == SLOTS - 1 {
        let first = gaps[0];
        let last = gaps.last();
        gaps.drop_last().update(
            0,
            Gap {
                start_deg: last.start_deg,
                end_deg: first.end_deg,
                min_distance: if last.min_distance < first.min_distance {
                    last.min_distance
                } else {
                    first.min_distance
                },
            },
        )
    } else {
        gaps
    }
}

/// The number of slots a gap spans.
pub open spec fn span(gap: Gap) -> int {
    if gap.end_deg >= gap.start_deg {
        gap.end_deg - gap.start_deg + 1
    } else {
        SLOTS - gap.start_deg + gap.end_deg + 1
    }
}

/// The centre of a gap, in half degrees within one turn.
pub open spec fn centre(gap: Gap) -> int {
    (2 * gap.start_deg + span(gap)) % (2 * SLOTS as int)
}

/// How far a gap's centre is from dead ahead, in half degrees, the shorter way.
pub open spec fn off_axis(gap: Gap) -> int {
    if centre(gap) > SLOTS {
        2 * SLOTS - centre(gap)
    } else {
        centre(gap)
    }
}

/// Whether a gap is wide enough and lies in the forward cone.
pub open spec fn viable(gap: Gap) -> bool {
    off_axis(gap) <= FORWARD_CONE_HALF && span(gap) >= MIN_GAP_WIDTH_DEG
}

/// The widest viable gap, the first of equally wide ones.
pub open spec fn widest(gaps: Seq<Gap>) -> Option<Gap>
    decreases gaps.len(),
{
    if gaps.len() == 0 {
        None
    } else {
        let best = widest(gaps.drop_last());
        let gap = gaps.last();
        if viable(gap) && (best is None || span(gap) > span(best->0)) {
            Some(gap)
        } else {
            best
        }
    }
}

/// How far to drive through a gap, in micrometres: short of its nearest return by the
/// safety margin, no longer than a leg, and no farther than the target.
pub open spec fn leg(gap: Gap, remaining_um: int) -> int {
    let available = if gap.min_distance > SAFETY_MARGIN {
        (gap.min_distance - SAFETY_MARGIN) * UM_PER_TENTH_CM
    } else {
        0
    };
    let capped = if available < DEFAULT_LEG_DISTANCE_UM {
        available
    } else {
        DEFAULT_LEG_DISTANCE_UM as int
    };
    if remaining_um <= 0 {
        0
    } else if remaining_um < capped {
        remaining_um
    } else {
        capped
    }
}

/// How to drive through a gap.
pub open spec fn through(gap: Gap, remaining_um: int) -> GapDecision {
    GapDecision {
        gap_center_udeg: (centre(gap) * UDEG_PER_HALF_DEG) as u32,
        rotation_udeg: (off_axis(gap) * UDEG_PER_HALF_DEG) as u32,
        clockwise: centre(gap) > SLOTS,
        drive_distance_um: leg(gap, remaining_um) as u32,
    }
}

/// The decision for a cloud: the widest viable gap among its clear arcs.
pub open spec fn decided(slots: Seq<Option<u32>>, remaining_um: int) -> Option<GapDecision> {
    match widest(joined(listed(runs_from(slots, 0)))) {
        Some(gap) => Some(through(gap, remaining_um)),
        None => None,
    }
}

/// A run ends past its start, within the cloud, and at a slot that is not clear.
pub proof fn lemma_run_end(slots: Seq<Option<u32>>, from: int)
    requires
        0 <= from < SLOTS,
        clear_at(slots, from),
    ensures
        from < run_end(slots, from) <= SLOTS,
        run_end(slots, from) < SLOTS ==> !clear_at(slots, run_end(slots, from)),
        forall|slot: int| from <= slot < run_end(slots, from) ==> #[trigger] clear_at(slots, slot),
    decreases SLOTS - from,
{
    reveal_with_fuel(run_end, 2);
    if from + 1 < SLOTS && clear_at(slots, from + 1) {
        lemma_run_end(slots, from + 1);
    }
}

/// Analyse a cloud and return the gap to drive through, or `None` when no gap is
/// wide enough within the forward cone.
///
/// `remaining_um` is the distance still to go, in micrometres; it may be negative once
/// the target is passed.
pub fn analyze_gaps(cloud: &Cloud, remaining_um: i128) -> (decision: Option<GapDecision>)
    ensures
        decision == decided(cloud@, remaining_um as int),
{
    let mut gaps = find_gaps(cloud);
    let count = gap_list::gaps_len(&gaps);
    if count >= 2 {
        let first = gap_list::gaps_get(&gaps, 0);
        let last = gap_list::gaps_get(&gaps, count - 1);
        if first.start_deg == 0 && last.end_deg as usize == SLOTS - 1 {
            let _ = gap_list::gaps_pop(&mut gaps);
            let min_distance: u32 = if last.min_distance < first.min_distance {
                last.min_distance
            } else {
                first.min_distance
            };
            gap_list::gaps_set(
                &mut gaps,
                0,
                Gap { start_deg: last.start_deg, end_deg: first.end_deg, min_distance },
            );
        }
    }
    assert(gap_list::held_gaps(gaps) =~= joined(listed(runs_from(cloud@, 0))));
    match select_gap(&gaps) {
        Some(gap) => {
            let center = center_of(gap);
            let off = off_axis_of(gap);
            Some(
                GapDecision {
                    gap_center_udeg: center * UDEG_PER_HALF_DEG,
                    rotation_udeg: off * UDEG_PER_HALF_DEG,
                    clockwise: center > SLOTS as u32,
                    drive_distance_um: leg_of(gap, remaining_um),
                },
            )
        },
        None => None,
    }
}

/// Collect the clear runs of a cloud.
fn find_gaps(cloud: &Cloud) -> (gaps: heapless::Vec<Gap, MAX_GAPS>)
    ensures
        gap_list::held_gaps(gaps) == listed(runs_from(cloud@, 0)),
        forall|i: int|
            0 <= i < gap_list::held_gaps(gaps).len() ==> in_cloud(
                #[trigger] gap_list::held_gaps(gaps)[i],
            ),
{
    let mut gaps = gap_list::gaps_new();
    let slots = cloud.slots();
    let ghost mut all: Seq<Gap> = Seq::empty();
    let mut i: usize = 0;
    assert(all + runs_from(cloud@, 0) =~= runs_from(cloud@, 0));
    while i < SLOTS
        invariant
            i <= SLOTS,
            slots@ == cloud@,
            slots@.len() == SLOTS,
            all + runs_from(cloud@, i as int) == runs_from(cloud@, 0),
            gap_list::held_gaps(gaps) == listed(all),
            forall|j: int|
                0 <= j < gap_list::held_gaps(gaps).len() ==> in_cloud(
                    #[trigger] gap_list::held_gaps(gaps)[j],
                ),
        decreases SLOTS - i,
    {
        if !lidar_cloud::is_clear(slots[i], OBSTACLE_THRESHOLD) {
            i += 1;
            continue;
        }
        let start = i;
        let ghost before = all;
        proof {
            lemma_run_end(cloud@, start as int);
        }
        let mut min_distance: u32 = match slots[i] {
            Some(distance) => distance,
            None => 0,
        };
        i += 1;
        while i < SLOTS && lidar_cloud::is_clear(slots[i], OBSTACLE_THRESHOLD)
            invariant
                start < i <= SLOTS,
                start < SLOTS,
                slots@ == cloud@,
                slots@.len() == SLOTS,
                clear_at(cloud@, start as int),
                run_end(cloud@, i as int) == run_end(cloud@, start as int),
                min_distance == run_min(cloud@, start as int, i as int),
            decreases SLOTS - i,
        {
            if let Some(distance) = slots[i] {
                if distance < min_distance {
                    min_distance = distance;
                }
            }
            i += 1;
        }
        let gap = Gap { start_deg: start as u16, end_deg: (i - 1) as u16, min_distance };
        assert(gap == gap_at(cloud@, start as int));
        let ghost held = gap_list::held_gaps(gaps);
        let _ = gap_list::gaps_push(&mut gaps, gap);
        proof {
            all = before.push(gap);
            assert(all + runs_from(cloud@, i as int) =~= before + runs_from(cloud@, start as int));
            if before.len() < MAX_GAPS {
                assert(gap_list::held_gaps(gaps) =~= listed(all));
            } else {
                assert(all.take(MAX_GAPS as int) =~= before.take(MAX_GAPS as int));
                assert(before.len() == MAX_GAPS ==> before.take(MAX_GAPS as int) =~= before);
            }
        }
    }
    assert(all + runs_from(cloud@, SLOTS as int) =~= all);
    gaps
}

/// Whether a gap's slots exist.
pub open spec fn in_cloud(gap: Gap) -> bool {
    gap.start_deg < SLOTS && gap.end_deg < SLOTS
}

/// The number of slots a gap spans.
fn span_of(gap: Gap) -> (slots: u32)
    requires
        in_cloud(gap),
    ensures
        slots == span(gap),
        1 <= slots <= SLOTS,
{
    if gap.end_deg >= gap.start_deg {
        (gap.end_deg - gap.start_deg) as u32 + 1
    } else {
        SLOTS as u32 - gap.start_deg as u32 + gap.end_deg as u32 + 1
    }
}

/// The centre of a gap, in half degrees.
fn center_of(gap: Gap) -> (center: u32)
    requires
        in_cloud(gap),
    ensures
        center == centre(gap),
        center < 2 * SLOTS,
{
    let raw: u32 = 2 * gap.start_deg as u32 + span_of(gap);
    if raw >= 2 * SLOTS as u32 {
        raw - 2 * SLOTS as u32
    } else {
        raw
    }
}

/// How far a gap's centre is from dead ahead, in half degrees.
fn off_axis_of(gap: Gap) -> (off: u32)
    requires
        in_cloud(gap),
    ensures
        off == off_axis(gap),
        off <= SLOTS,
{
    let center = center_of(gap);
    if center > SLOTS as u32 {
        2 * SLOTS as u32 - center
    } else {
        center
    }
}

/// How far to drive through a gap, in micrometres.
fn leg_of(gap: Gap, remaining_um: i128) -> (distance_um: u32)
    ensures
        distance_um == leg(gap, remaining_um as int),
{
    let available: u32 = gap.min_distance.saturating_sub(SAFETY_MARGIN);
    let capped: u32 = if available < 400 {
        available * 1_000
    } else {
        DEFAULT_LEG_DISTANCE_UM
    };
    if remaining_um <= 0 {
        0
    } else if remaining_um < capped as i128 {
        remaining_um as u32
    } else {
        capped
    }
}

/// Pick the widest gap in the forward cone.
fn select_gap(gaps: &heapless::Vec<Gap, MAX_GAPS>) -> (best: Option<Gap>)
    requires
        forall|i: int|
            0 <= i < gap_list::held_gaps(*gaps).len() ==> in_cloud(
                #[trigger] gap_list::held_gaps(*gaps)[i],
            ),
    ensures
        best == widest(gap_list::held_gaps(*gaps)),
        best matches Some(gap) ==> in_cloud(gap),
{
    let ghost held = gap_list::held_gaps(*gaps);
    let mut best: Option<Gap> = None;
    let mut best_span: u32 = 0;
    let mut i: usize = 0;
    let count = gap_list::gaps_len(gaps);
    assert(held.take(0) =~= Seq::<Gap>::empty());
    while i < count
        invariant
            i <= count,
            count == held.len(),
            held == gap_list::held_gaps(*gaps),
            forall|j: int| 0 <= j < held.len() ==> in_cloud(#[trigger] held[j]),
            best == widest(held.take(i as int)),
            best matches Some(gap) ==> in_cloud(gap) && best_span == span(gap),
            best is None ==> best_span == 0,
        decreases count - i,
    {
        assert(held.take(i + 1).drop_last() =~= held.take(i as int));
        let gap = gap_list::gaps_get(gaps, i);
        i += 1;
        if off_axis_of(gap) > FORWARD_CONE_HALF {
            continue;
        }
        let span = span_of(gap);
        if span < MIN_GAP_WIDTH_DEG {
            continue;
        }
        if span > best_span {
            best_span = span;
            best = Some(gap);
        }
    }
    assert(held.take(i as int) =~= held);
    best
}

} // verus!
