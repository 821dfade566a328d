//! Gap analysis.

use explorer_robot::lidar_cloud::{Cloud, SLOTS};
use explorer_robot::task::autonomous_mode::gap_analysis::{analyze_gaps, GapDecision};

/// A cloud where everything is near but the given arcs, which are open at a distance
/// in tenths of a centimetre.
fn cloud(arcs: &[(usize, usize, u32)]) -> Cloud {
    let mut slots = [Some(100); SLOTS];
    for &(from, to, distance) in arcs {
        for slot in slots.iter_mut().take(to + 1).skip(from) {
            *slot = Some(distance);
        }
    }
    Cloud::from_slots(slots, 0)
}

#[test]
fn a_gap_ahead_is_driven_through() {
    // Forty-one slots to the left: half their span from where they start.
    let decision = analyze_gaps(&cloud(&[(0, 40, 1_000)]), 10_000_000).unwrap();
    assert_eq!(
        decision,
        GapDecision {
            gap_center_udeg: 20_500_000,
            rotation_udeg: 20_500_000,
            clockwise: false,
            drive_distance_um: 400_000,
        }
    );
}

#[test]
fn a_gap_across_dead_ahead_is_one_gap() {
    let decision = analyze_gaps(&cloud(&[(0, 20, 1_000), (340, 359, 700)]), 10_000_000).unwrap();
    assert_eq!(decision.gap_center_udeg, 500_000);
    assert_eq!(decision.rotation_udeg, 500_000);
    assert_eq!(decision.drive_distance_um, 400_000);
}

#[test]
fn an_arc_all_around_is_centred_behind() {
    // One gap that starts dead ahead and never ends has its centre at the back.
    assert_eq!(analyze_gaps(&cloud(&[(0, 359, 3_000)]), 10_000_000), None);
}

#[test]
fn the_leg_keeps_its_margin_and_its_target() {
    let near = cloud(&[(0, 20, 450), (340, 359, 450)]);
    assert_eq!(analyze_gaps(&near, 10_000_000).unwrap().drive_distance_um, 350_000);
    assert_eq!(analyze_gaps(&near, 120_000).unwrap().drive_distance_um, 120_000);
    assert_eq!(analyze_gaps(&near, 1).unwrap().drive_distance_um, 1);
    assert_eq!(analyze_gaps(&near, -5).unwrap().drive_distance_um, 0);
}

#[test]
fn nothing_open_means_no_decision() {
    assert_eq!(analyze_gaps(&cloud(&[]), 10_000_000), None);
    // Too narrow.
    assert_eq!(analyze_gaps(&cloud(&[(0, 5, 1_000)]), 10_000_000), None);
    // Behind the robot.
    assert_eq!(analyze_gaps(&cloud(&[(150, 210, 1_000)]), 10_000_000), None);
    // Nothing measured is not open.
    assert_eq!(analyze_gaps(&Cloud::default(), 10_000_000), None);
}

#[test]
fn the_widest_gap_wins() {
    let decision = analyze_gaps(&cloud(&[(5, 20, 1_000), (300, 340, 1_000)]), 10_000_000).unwrap();
    assert_eq!(decision.gap_center_udeg, 320_500_000);
    assert_eq!(decision.rotation_udeg, 39_500_000);
    assert!(decision.clockwise);
}

#[test]
fn gaps_past_the_capacity_are_dropped() {
    // Ninety slivers of two slots each fill the list before the wide gap comes.
    let mut arcs: Vec<(usize, usize, u32)> = (0..75).map(|i| (4 * i, 4 * i + 1, 1_000)).collect();
    assert_eq!(analyze_gaps(&cloud(&arcs), 10_000_000), None);
    arcs.push((310, 355, 1_000));
    assert_eq!(analyze_gaps(&cloud(&arcs), 10_000_000), None);
    // With fewer slivers the wide gap is seen.
    let few = [(4, 5, 1_000), (310, 355, 1_000)];
    assert!(analyze_gaps(&cloud(&few), 10_000_000).is_some());
}
