//! The point cloud: mapping, no-returns, the stop test and the gap test.

use explorer_robot::coin_d6::types::{Point, RangeMm, Scan};
use explorer_robot::lidar_cloud::{
    front_sector_obstacle, is_clear, Cloud, FRONT_SECTOR_HALF_ANGLE_UDEG, FRONT_SECTOR_THRESHOLD,
    SLOTS,
};

/// Centimetres to tenths.
fn tenths(distance_cm: f32) -> u32 {
    (f64::from(distance_cm) * 10.0).round() as u32
}

/// Degrees to microdegrees.
fn udeg(degrees: f32) -> i64 {
    (f64::from(degrees) * 1_000_000.0).round() as i64
}

/// The distance in a slot, in centimetres.
fn cm(cloud: &Cloud, slot: usize) -> Option<f32> {
    cloud.distance_cm(slot).map(|tenths| tenths as f32 / 10.0)
}

/// The stop test in degrees and centimetres.
fn obstacle(cloud: &Cloud, centre_deg: f32, half_angle_deg: f32, threshold_cm: f32) -> bool {
    front_sector_obstacle(cloud, udeg(centre_deg), udeg(half_angle_deg), tenths(threshold_cm))
}

/// The gap test in centimetres.
fn clear(distance_cm: Option<f32>, threshold_cm: f32) -> bool {
    is_clear(distance_cm.map(tenths), tenths(threshold_cm))
}

/// Build a [`Scan`] from `(angle_deg, distance_mm)` pairs; a distance of `0`
/// becomes a no-return.
fn build_scan(points: &[(f32, u16)]) -> Scan<400> {
    let mut scan = Scan::<400>::new();
    scan.len = points.len();
    for (i, &(angle_deg, distance_mm)) in points.iter().enumerate() {
        scan.points[i] = Point {
            angle_udeg: udeg(angle_deg),
            distance_mm: RangeMm::new(distance_mm),
            intensity: 1,
        };
    }
    scan
}

/// A cloud with every slot a no-return.
fn empty_cloud() -> Cloud {
    Cloud::from_slots([None; SLOTS], 0)
}

/// A cloud with `distance_cm` at each listed slot and no-return elsewhere.
fn cloud_with(slots: &[(usize, f32)]) -> Cloud {
    let mut distances = [None; SLOTS];
    for &(slot, distance_cm) in slots {
        distances[slot] = Some(tenths(distance_cm));
    }
    Cloud::from_slots(distances, 0)
}

#[test]
fn mapping_from_a_synthetic_scan_places_returns_in_their_slots() {
    // Native bearing 180 is dead ahead after the 180° mounting offset.
    let cloud = Cloud::from_spin(&build_scan(&[(180.0, 1000)]), 7);

    assert_eq!(cloud.sequence(), 7);
    assert_eq!(cm(&cloud, 0), Some(100.0));
    // Every other slot is a no-return, not a distance.
    assert_eq!(cm(&cloud, 1), None);
    assert_eq!(cm(&cloud, SLOTS - 1), None);
}

#[test]
fn millimetres_become_centimetres_at_the_one_boundary() {
    let cloud = Cloud::from_spin(&build_scan(&[(180.0, 1234)]), 0);

    assert_eq!(cm(&cloud, 0), Some(123.4));
}

#[test]
fn mounting_offset_rotates_native_bearings() {
    // Slot = native bearing - 180°, modulo 360.
    let cloud = Cloud::from_spin(&build_scan(&[(0.0, 500), (225.0, 800), (270.0, 900)]), 0);

    assert_eq!(cm(&cloud, 180), Some(50.0));
    assert_eq!(cm(&cloud, 45), Some(80.0));
    assert_eq!(cm(&cloud, 90), Some(90.0));
}

#[test]
fn a_bucket_with_no_valid_return_is_none_not_zero() {
    // The scan has no point near dead ahead, so slot 0 must be `None`.
    let cloud = Cloud::from_spin(&build_scan(&[(45.0, 1000)]), 0);

    assert_eq!(cm(&cloud, 0), None);
    assert_eq!(cm(&cloud, 225), Some(100.0));
}

#[test]
fn front_sector_includes_its_boundary_angles() {
    // A return exactly at +45° (slot 45) and exactly at -45° (slot 315) count.
    let half = 45usize;

    // A return exactly at +45° (slot 45) and exactly at -45° (slot 315) count.
    assert!(obstacle(&cloud_with(&[(half, 10.0)]), 0.0, 45.0, 30.0));
    assert!(obstacle(
        &cloud_with(&[(SLOTS - half, 10.0)]),
        0.0,
        45.0,
        30.0
    ));
}

#[test]
fn front_sector_excludes_just_outside_the_boundary() {
    // One degree outside ±45° is not in the sector.
    assert!(!obstacle(&cloud_with(&[(46, 10.0)]), 0.0, 45.0, 30.0));
    assert!(!obstacle(
        &cloud_with(&[(SLOTS - 46, 10.0)]),
        0.0,
        45.0,
        30.0
    ));
}

#[test]
fn front_sector_threshold_is_inclusive_and_ignores_returns_beyond() {
    assert!(obstacle(&cloud_with(&[(0, 30.0)]), 0.0, 45.0, 30.0));
    assert!(!obstacle(&cloud_with(&[(0, 30.1)]), 0.0, 45.0, 30.0));
    assert!(!obstacle(&cloud_with(&[(0, 200.0)]), 0.0, 45.0, 30.0));
}

#[test]
fn a_missing_return_cannot_trigger_the_stop_test() {
    let cloud = empty_cloud();

    assert!(!cloud.front_sector_obstacle());
    assert!(!obstacle(
        &cloud,
        0.0,
        FRONT_SECTOR_HALF_ANGLE_UDEG as f32 / 1_000_000.0,
        FRONT_SECTOR_THRESHOLD as f32 / 10.0
    ));
}

#[test]
fn gap_selection_treats_a_missing_return_as_not_clear() {
    // The two consumers deliberately disagree: no return is neither an obstacle
    // (the stop test above) nor a clear angle (here).
    assert!(!clear(None, 40.0));
    assert!(clear(Some(40.1), 40.0));
    assert!(!clear(Some(40.0), 40.0));
    assert!(!clear(Some(5.0), 40.0));
}

#[test]
fn the_named_constants_bind_the_stop_rule() {
    // A return inside the named sector at the named threshold reports an
    // obstacle through the convenience method.
    assert!(cloud_with(&[(0, FRONT_SECTOR_THRESHOLD as f32 / 10.0)]).front_sector_obstacle());
    assert!(!cloud_with(&[(0, FRONT_SECTOR_THRESHOLD as f32 / 10.0 + 1.0)]).front_sector_obstacle());
}

#[test]
fn a_cone_turned_round_and_round_is_the_same_cone() {
    let cloud = cloud_with(&[(0, 20.0)]);
    let turns = 360_000_000 * 1_000_000;
    for centre in [0, turns, -turns, turns + 45_000_000, -turns - 45_000_000] {
        assert!(front_sector_obstacle(&cloud, centre, 45_000_000, 200));
    }
    assert!(!front_sector_obstacle(&cloud, turns + 45_000_001, 45_000_000, 200));
    assert!(front_sector_obstacle(&cloud, i64::MIN, i64::MIN, 200));
}

#[test]
fn a_negative_bearing_lands_in_its_slot() {
    // One degree left of the sensor's zero, mounted half a turn round.
    let cloud = Cloud::from_spin(&build_scan(&[(-1.0, 500)]), 1);
    assert_eq!(cm(&cloud, 179), Some(50.0));
    let same = Cloud::from_spin(&build_scan(&[(359.0, 500)]), 1);
    assert_eq!(same.slots(), cloud.slots());
}
