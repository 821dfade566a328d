//! The robot's point cloud and the obstacle rule.
//!
//! A [`Cloud`] is 360 one-degree slots of an optional distance. Slot 0 is dead
//! ahead and increasing slots run clockwise. A slot without a return is `None`,
//! never a distance. Distances are held in tenths of a centimetre, so the sensor's
//! millimetres carry over exactly.
//!
//! A missing return is not an obstacle, so a dropout cannot phantom-brake the
//! robot, and it is not clear either, so a blind spot never widens a gap.

use vstd::prelude::*;

use crate::coin_d6::post_processing;
use crate::coin_d6::post_processing_laws;
use crate::coin_d6::types;
use crate::coin_d6::types::{
    AggregationConfig, AggregationMethod, Point, Scan, FULL_CIRCLE_UDEG, UDEG_PER_DEG,
};

verus! {

/// Number of one-degree slots in a [`Cloud`].
pub const SLOTS: usize = 360;

/// Width of one slot, in microdegrees: the grid scans are reduced onto.
pub const SLOT_WIDTH_UDEG: u32 = 1_000_000;

/// The sensor's mounting rotation, in whole slots.
pub const MOUNTING_OFFSET_SLOTS: usize = 180;

/// Centre of the front sector, in microdegrees from dead ahead.
pub const FRONT_SECTOR_CENTRE_UDEG: i64 = 0;

/// Half-angle of the front sector, in microdegrees.
pub const FRONT_SECTOR_HALF_ANGLE_UDEG: i64 = 45_000_000;

/// Distance at or below which a return in the front sector is an obstacle, in
/// tenths of a centimetre.
pub const FRONT_SECTOR_THRESHOLD: u32 = 300;

/// `std::slice::from_ref`: a reference seen as a slice of length one that holds the
/// referenced value and nothing else.
pub assume_specification<T>[ std::slice::from_ref::<T> ](s: &T) -> (slice: &[T])
    ensures
        slice@ == seq![*s],
;

/// A one-degree point cloud.
#[derive(Debug)]
pub struct Cloud {
    distances: [Option<u32>; SLOTS],
    sequence: u64,
}

impl Cloud {
    /// The slots, in order, in tenths of a centimetre.
    pub closed spec fn view(&self) -> Seq<Option<u32>> {
        self.distances@
    }

    /// The scan sequence number the cloud was published with.
    pub closed spec fn number(&self) -> u64 {
        self.sequence
    }

    /// Build a cloud of known geometry from its slots.
    pub fn from_slots(distances: [Option<u32>; SLOTS], sequence: u64) -> (cloud: Self)
        ensures
            cloud@ == distances@,
            cloud.number() == sequence,
    {
        Cloud { distances, sequence }
    }

    /// Turn a reduction onto the slot grid into a cloud, applying the mounting
    /// rotation. A bucket past the reduction's end is a no-return.
    pub fn from_reduction(reduction: &Scan<SLOTS>, sequence: u64) -> (cloud: Self)
        requires
            reduction.wf(),
        ensures
            cloud@ == mounted(reduction@),
            cloud.number() == sequence,
    {
        let mut distances: [Option<u32>; SLOTS] = [None; SLOTS];
        let mut slot: usize = 0;
        while slot < SLOTS
            invariant
                slot <= SLOTS,
                reduction.wf(),
                forall|s: int| 0 <= s < slot ==> #[trigger] distances@[s] == mounted(reduction@)[s],
                forall|s: int| slot <= s < SLOTS ==> #[trigger] distances@[s] is None,
            decreases SLOTS - slot,
        {
            let native: usize = (slot + MOUNTING_OFFSET_SLOTS) % SLOTS;
            if native < reduction.len {
                if let Some(range) = reduction.points[native].distance_mm {
                    distances[slot] = Some(range.get() as u32);
                }
            }
            slot += 1;
        }
        assert(distances@ =~= mounted(reduction@));
        Cloud { distances, sequence }
    }

    /// Turn one raw revolution into a cloud.
    ///
    /// No smoothing over several revolutions: latency matters more on the live
    /// path. The one-degree grid is wider than the sensor's sample spacing, so every
    /// slot receives a sample.
    pub fn from_spin<const N: usize>(scan: &Scan<N>, sequence: u64) -> (cloud: Self)
        requires
            scan.wf(),
        ensures
            cloud@ == spin_slots(scan@),
            cloud.number() == sequence,
    {
        let config = AggregationConfig {
            validity_ratio_ppm: 500_000,
            method: AggregationMethod::Median,
            resolution_udeg: SLOT_WIDTH_UDEG,
        };
        let spins = std::slice::from_ref(scan);
        let reduction = post_processing::reduce::<N, SLOTS>(spins, &config);
        assert(post_processing::contents(spins@) =~= seq![scan@]);
        Cloud::from_reduction(&reduction, sequence)
    }

    /// The distance in `slot`, in tenths of a centimetre, or `None` for no return
    /// and for a slot that does not exist.
    pub fn distance_cm(&self, slot: usize) -> (distance: Option<u32>)
        ensures
            distance == (if slot < SLOTS {
                self@[slot as int]
            } else {
                None
            }),
    {
        if slot < SLOTS {
            self.distances[slot]
        } else {
            None
        }
    }

    /// All slots, in order.
    pub fn slots(&self) -> (slots: &[Option<u32>; SLOTS])
        ensures
            slots@ == self@,
    {
        &self.distances
    }

    /// The scan sequence number this cloud was published with.
    pub fn sequence(&self) -> (sequence: u64)
        ensures
            sequence == self.number(),
    {
        self.sequence
    }

    /// Whether the cloud reports an obstacle in the robot's front sector.
    pub fn front_sector_obstacle(&self) -> (obstacle: bool)
        ensures
            obstacle == blocks_ahead(self@),
    {
        front_sector_obstacle(
            self,
            FRONT_SECTOR_CENTRE_UDEG,
            FRONT_SECTOR_HALF_ANGLE_UDEG,
            FRONT_SECTOR_THRESHOLD,
        )
    }
}

impl Clone for Cloud {
    fn clone(&self) -> (cloud: Self)
        ensures
            cloud == *self,
    {
        Cloud { distances: self.distances, sequence: self.sequence }
    }
}

impl Default for Cloud {
    /// A cloud without a return, sequence zero.
    fn default() -> (cloud: Self)
        ensures
            cloud@ == Seq::new(SLOTS as nat, |slot: int| None::<u32>),
            cloud.number() == 0,
    {
        let distances: [Option<u32>; SLOTS] = [None; SLOTS];
        assert(distances@ =~= Seq::new(SLOTS as nat, |slot: int| None::<u32>));
        Cloud { distances, sequence: 0 }
    }
}

/// The slots of a reduction once the mounting rotation is applied: slot `s` reads
/// the native bucket half a turn on.
pub open spec fn mounted(reduction: Seq<Point>) -> Seq<Option<u32>> {
    Seq::new(
        SLOTS as nat,
        |slot: int|
            {
                let native = (slot + MOUNTING_OFFSET_SLOTS) % (SLOTS as int);
                if native < reduction.len() && reduction[native].distance_mm is Some {
                    Some(reduction[native].distance_mm->0@ as u32)
                } else {
                    None
                }
            },
    )
}

/// The reduction policy of the live path: one revolution onto the slot grid.
pub open spec fn live_reduction() -> AggregationConfig {
    AggregationConfig { resolution_udeg: SLOT_WIDTH_UDEG, ..types::default_aggregation() }
}

/// The slots one raw revolution gives.
pub open spec fn spin_slots(points: Seq<Point>) -> Seq<Option<u32>> {
    mounted(post_processing::reduced(seq![points], live_reduction(), SLOTS))
}

/// How far apart two bearings are, the shorter way round.
pub open spec fn separation(a: int, b: int) -> int {
    let turn = FULL_CIRCLE_UDEG as int;
    let ahead = (a - b) % turn;
    if ahead <= turn - ahead {
        ahead
    } else {
        turn - ahead
    }
}

/// Whether `slot` lies in the closed sector of `half_angle_udeg` to either side of
/// `centre_udeg`.
pub open spec fn in_sector(slot: int, centre_udeg: int, half_angle_udeg: int) -> bool {
    separation(slot * UDEG_PER_DEG, centre_udeg) <= if half_angle_udeg < 0 {
        -half_angle_udeg
    } else {
        half_angle_udeg
    }
}

/// Whether a sector holds a return at or below the threshold.
pub open spec fn blocks(
    slots: Seq<Option<u32>>,
    centre_udeg: int,
    half_angle_udeg: int,
    threshold: u32,
) -> bool {
    exists|slot: int|
        0 <= slot < SLOTS && in_sector(slot, centre_udeg, half_angle_udeg) && (
        #[trigger] slots[slot] matches Some(distance) && distance <= threshold)
}

/// Whether the robot's front sector is blocked.
pub open spec fn blocks_ahead(slots: Seq<Option<u32>>) -> bool {
    blocks(
        slots,
        FRONT_SECTOR_CENTRE_UDEG as int,
        FRONT_SECTOR_HALF_ANGLE_UDEG as int,
        FRONT_SECTOR_THRESHOLD,
    )
}

/// Whether a cone about `centre_udeg` holds a return at or below `threshold`.
///
/// This is the stop rule. Both boundary bearings and the threshold itself count; a
/// missing return does not.
pub fn front_sector_obstacle(
    cloud: &Cloud,
    centre_udeg: i64,
    half_angle_udeg: i64,
    threshold: u32,
) -> (obstacle: bool)
    ensures
        obstacle == blocks(cloud@, centre_udeg as int, half_angle_udeg as int, threshold),
{
    let half: i128 = if half_angle_udeg < 0 {
        -(half_angle_udeg as i128)
    } else {
        half_angle_udeg as i128
    };
    let turn = FULL_CIRCLE_UDEG as i64;
    let centre: i64 = post_processing::normalise_angle(centre_udeg) as i64;
    let mut slot: usize = 0;
    while slot < SLOTS
        invariant
            slot <= SLOTS,
            turn == FULL_CIRCLE_UDEG,
            0 <= centre < turn,
            centre == centre_udeg as int % FULL_CIRCLE_UDEG as int,
            half == (if half_angle_udeg < 0 {
                -half_angle_udeg
            } else {
                half_angle_udeg as int
            }),
            forall|s: int|
                0 <= s < slot && in_sector(s, centre_udeg as int, half_angle_udeg as int) ==> !(
                #[trigger] cloud@[s] matches Some(distance) && distance <= threshold),
        decreases SLOTS - slot,
    {
        let bearing: i64 = slot as i64 * UDEG_PER_DEG as i64;
        // One more turn keeps the difference above zero.
        let ahead: i64 = (bearing - centre + turn) % turn;
        assert(ahead == (slot * UDEG_PER_DEG - centre_udeg) % turn as int);
        let apart: i64 = if ahead <= turn - ahead {
            ahead
        } else {
            turn - ahead
        };
        if apart as i128 <= half {
            if let Some(distance) = cloud.distances[slot] {
                if distance <= threshold {
                    assert(cloud@[slot as int] == Some(distance));
                    return true;
                }
            }
        }
        slot += 1;
    }
    false
}

/// Whether a slot is clear at `threshold`: a return was measured beyond it.
///
/// The sensor returns nothing for a black or specular surface as readily as for
/// open space, so a missing return is not clear.
pub fn is_clear(distance: Option<u32>, threshold: u32) -> (clear: bool)
    ensures
        clear == clears(distance, threshold),
{
    match distance {
        Some(distance) => distance > threshold,
        None => false,
    }
}

/// Whether a slot's distance was measured beyond `threshold`.
pub open spec fn clears(distance: Option<u32>, threshold: u32) -> bool {
    distance matches Some(measured) && measured > threshold
}

/// A missing return is neither an obstacle nor clear: the two readings of a slot
/// deliberately disagree on it, and agree on every measured distance.
pub proof fn law_missing_return_is_neither(distance: Option<u32>, threshold: u32)
    ensures
        distance is None ==> !clears(distance, threshold),
        distance is None ==> !(distance matches Some(measured) && measured <= threshold),
        distance is Some ==> clears(distance, threshold) == !(distance matches Some(measured)
            && measured <= threshold),
{
}

/// Losing returns never raises an obstacle: a cloud whose every slot is either that
/// of another cloud or a dropout is blocked only if the other one is.
pub proof fn law_dropouts_cannot_block(
    full: Seq<Option<u32>>,
    thinned: Seq<Option<u32>>,
    centre_udeg: int,
    half_angle_udeg: int,
    threshold: u32,
)
    requires
        forall|slot: int|
            0 <= slot < SLOTS ==> (#[trigger] thinned[slot] is None || thinned[slot] == full[slot]),
        blocks(thinned, centre_udeg, half_angle_udeg, threshold),
    ensures
        blocks(full, centre_udeg, half_angle_udeg, threshold),
{
    let slot = choose|slot: int|
        0 <= slot < SLOTS && in_sector(slot, centre_udeg, half_angle_udeg) && (
        #[trigger] thinned[slot] matches Some(distance) && distance <= threshold);
    assert(full[slot] == thinned[slot]);
}

/// The mounting rotation is the only one: a native bucket shows in exactly the slot
/// half a turn away, with its range unchanged.
pub proof fn law_mounting_rotation(reduction: Seq<Point>, native: int)
    requires
        0 <= native < SLOTS,
        reduction.len() == SLOTS,
    ensures
        ({
            let slot = (native - MOUNTING_OFFSET_SLOTS) % (SLOTS as int);
            mounted(reduction)[slot] == (match reduction[native].distance_mm {
                Some(range) => Some(range@ as u32),
                None => None,
            })
        }),
{
}

/// A revolution's nearest return at every bearing reaches the cloud: no slot
/// reports a distance beyond a return that was measured in it, and a slot is a
/// dropout only if nothing was measured in it.
pub proof fn law_nearest_return_reaches_the_cloud(points: Seq<Point>, i: int)
    requires
        0 <= i < points.len(),
        points[i].distance_mm is Some,
        forall|j: int|
            0 <= j < points.len() && (#[trigger] points[j]).distance_mm is Some
                ==> points[j].distance_mm->0@ != 0,
    ensures
        ({
            let native = post_processing::normalised(points[i].angle_udeg) / UDEG_PER_DEG as int;
            let slot = (native - MOUNTING_OFFSET_SLOTS) % (SLOTS as int);
            &&& 0 <= slot < SLOTS
            &&& spin_slots(points)[slot] matches Some(distance) && distance
                <= points[i].distance_mm->0@
        }),
{
    let grid = post_processing::grid_for(SLOT_WIDTH_UDEG, SLOTS);
    let bearing = post_processing::normalised(points[i].angle_udeg);
    let native = bearing / UDEG_PER_DEG as int;
    let width = post_processing::usable_width(SLOT_WIDTH_UDEG);
    let bins = post_processing::exact_bins(SLOT_WIDTH_UDEG);
    assert(bins == 360) by (nonlinear_arith)
        requires
            width == 1_000_000,
            bins == (360_000_000 + width - 1) / width,
    ;
    assert(grid.bins == 360 && grid.width_num == 1_000_000 && grid.width_den == 1);
    assert(grid.holds(native, bearing));
    post_processing_laws::law_single_revolution(points, live_reduction(), SLOTS, native);
    post_processing_laws::law_representative_is_nearest(points, grid, native);
    assert(post_processing::returns_in(points[i], grid, native));
    law_mounting_rotation(post_processing::reduced(seq![points], live_reduction(), SLOTS), native);
}

/// A sector reaches as far to the one side of its centre as to the other: a slot lies in it
/// exactly where its bearing is within the half-angle of the centre, whole turns aside. The
/// sign of the half-angle does not matter.
pub proof fn law_sector_is_symmetric(slot: int, centre_udeg: int, half_angle_udeg: int)
    requires
        0 <= slot < 360,
        0 <= half_angle_udeg < 180_000_000,
    ensures
        in_sector(slot, centre_udeg, half_angle_udeg) <==> {
            let ahead = (slot * 1_000_000 - centre_udeg) % 360_000_000;
            ahead <= half_angle_udeg || 360_000_000 - ahead <= half_angle_udeg
        },
        in_sector(slot, centre_udeg, -half_angle_udeg) == in_sector(
            slot,
            centre_udeg,
            half_angle_udeg,
        ),
        in_sector(slot, slot * 1_000_000, half_angle_udeg),
        in_sector((360 - slot) % 360, 0, half_angle_udeg) == in_sector(slot, 0, half_angle_udeg),
{
}

/// The way ahead is blocked exactly by a return of thirty centimetres or less within
/// forty-five degrees to either side of dead ahead.
pub proof fn law_front_sector_is_ahead(slots: Seq<Option<u32>>)
    ensures
        blocks_ahead(slots) <==> exists|slot: int|
            (0 <= slot <= 45 || 315 <= slot < 360) && (#[trigger] slots[slot] matches Some(distance)
                && distance <= 300),
{
    if blocks_ahead(slots) {
        let slot = choose|slot: int|
            0 <= slot < SLOTS && in_sector(slot, 0, 45_000_000) && (
            #[trigger] slots[slot] matches Some(distance) && distance <= 300);
        assert((slot * UDEG_PER_DEG - 0) % 360_000_000 == slot * UDEG_PER_DEG);
        assert(0 <= slot <= 45 || 315 <= slot < 360);
    }
    if exists|slot: int|
        (0 <= slot <= 45 || 315 <= slot < 360) && (#[trigger] slots[slot] matches Some(distance)
            && distance <= 300) {
        let slot = choose|slot: int|
            (0 <= slot <= 45 || 315 <= slot < 360) && (#[trigger] slots[slot] matches Some(distance)
                && distance <= 300);
        assert((slot * UDEG_PER_DEG - 0) % 360_000_000 == slot * UDEG_PER_DEG);
        assert(in_sector(slot, 0, 45_000_000));
    }
}

/// The sensor looks backward: what it measures behind it, half a turn from its own zero, is
/// dead ahead, and every degree on from there is a slot on. A millimetre is a tenth of a
/// centimetre.
pub proof fn law_sensor_looks_backward(reduction: Seq<Point>, slot: int)
    requires
        reduction.len() == 360,
        0 <= slot < 360,
    ensures
        mounted(reduction).len() == 360,
        slot < 180 ==> (mounted(reduction)[slot] is Some <==> reduction[slot + 180].distance_mm
            is Some),
        slot >= 180 ==> (mounted(reduction)[slot] is Some <==> reduction[slot - 180].distance_mm
            is Some),
        slot < 180 ==> (mounted(reduction)[slot] matches Some(distance) ==> distance
            == reduction[slot + 180].distance_mm->0@),
        slot >= 180 ==> (mounted(reduction)[slot] matches Some(distance) ==> distance
            == reduction[slot - 180].distance_mm->0@),
{
}

/// Whatever a cloud says of the way ahead is so: an obstacle is a return of thirty
/// centimetres or less within forty-five degrees to either side.
pub proof fn law_cloud_reports_what_is_ahead(cloud: &Cloud, obstacle: bool)
    requires
        call_ensures(Cloud::front_sector_obstacle, (cloud,), obstacle),
    ensures
        obstacle <==> exists|slot: int|
            (0 <= slot <= 45 || 315 <= slot < 360) && (
            #[trigger] cloud@[slot] matches Some(distance) && distance <= 300),
{
    law_front_sector_is_ahead(cloud@);
}

/// Whatever reduction becomes a cloud is turned by half a turn and keeps its ranges.
pub proof fn law_reduction_is_turned(
    reduction: &Scan<SLOTS>,
    sequence: u64,
    cloud: Cloud,
    slot: int,
)
    requires
        call_ensures(Cloud::from_reduction, (reduction, sequence), cloud),
        reduction@.len() == 360,
        0 <= slot < 360,
    ensures
        cloud.number() == sequence,
        cloud@[slot] is Some <==> reduction@[(slot + 180) % 360].distance_mm is Some,
        cloud@[slot] matches Some(distance) ==> distance == reduction@[(slot + 180)
            % 360].distance_mm->0@,
{
    law_sensor_looks_backward(reduction@, slot);
}

/// A slot is clear exactly where a return was measured beyond the threshold.
pub proof fn law_clear_means_measured_beyond(distance: Option<u32>, threshold: u32, clear: bool)
    requires
        call_ensures(is_clear, (distance, threshold), clear),
    ensures
        clear <==> distance is Some && distance->0 > threshold,
{
}

} // verus!
