//! What holds of scans and clouds as a whole.

use explorer_robot::coin_d6::decoder::{Decode, Decoder, MAX_POINTS};
use explorer_robot::coin_d6::post_processing::{
    aggregate, effective_grid, normalise_angle, reduce, representative_at_bin,
};
use explorer_robot::coin_d6::types::{
    AggregationConfig, AggregationMethod, Point, RangeMm, Scan, WarmupConfig,
};
use explorer_robot::coin_d6::warmup::Warmup;
use explorer_robot::lidar_cloud::{Cloud, SLOTS};
use explorer_robot::ranking::{mean_of, median_of, rank, select};

fn packet(ct: u8, fsa: u16, lsa: u16, samples: &[(u8, u8, u8)]) -> Vec<u8> {
    let mut bytes = vec![0xAA, 0x55, ct, samples.len() as u8];
    bytes.extend_from_slice(&fsa.to_le_bytes());
    bytes.extend_from_slice(&lsa.to_le_bytes());
    let mut cs: u16 = 0x55AA ^ (u16::from(ct) | ((samples.len() as u16) << 8)) ^ fsa ^ lsa;
    for &(low, mid, high) in samples {
        cs ^= u16::from(low) ^ ((u16::from(high) << 8) | u16::from(mid));
    }
    bytes.extend_from_slice(&cs.to_le_bytes());
    for &(low, mid, high) in samples {
        bytes.extend_from_slice(&[low, mid, high]);
    }
    bytes
}

fn stream() -> Vec<u8> {
    let mut bytes = vec![0xFE, 0xAA, 0xFF];
    bytes.extend(packet(1, 129, 257, &[(0xFC, 0x83, 0x10), (0, 0, 2)]));
    bytes.extend(packet(0, 385, 513, &[(0, 4, 0)]));
    bytes.extend(packet(1, 129, 129, &[]));
    bytes
}

#[test]
fn chunking_does_not_matter() {
    let bytes = stream();
    let mut whole = Decoder::new();
    let mut whole_scan = Scan::new();
    assert_eq!(whole.push(&bytes, &mut whole_scan), Decode::Revolution);

    let mut single = Decoder::new();
    let mut single_scan = Scan::new();
    let mut last = Decode::InProgress;
    for byte in &bytes {
        last = single.push(&[*byte], &mut single_scan);
    }
    assert_eq!(last, Decode::Revolution);
    assert_eq!(whole_scan.len, 3);
    assert_eq!(single_scan.len, 3);
    assert_eq!(whole_scan.points[..3], single_scan.points[..3]);
}

#[test]
fn a_corrupt_packet_loses_the_whole_revolution() {
    let mut bytes = stream();
    let corrupt = bytes.len() - 11;
    bytes[corrupt] ^= 0x10;
    let mut decoder = Decoder::new();
    let mut scan = Scan::new();
    assert_eq!(decoder.push(&bytes, &mut scan), Decode::Resync);
    assert_eq!(scan.len, 0);
}

#[test]
fn a_revolution_never_holds_more_than_the_native_count() {
    let samples: Vec<(u8, u8, u8)> = (0..200).map(|_| (0, 0, 1)).collect();
    let mut bytes = packet(1, 129, 257, &samples);
    bytes.extend(packet(0, 385, 513, &samples));
    bytes.extend(packet(0, 385, 513, &samples));
    bytes.extend(packet(1, 129, 129, &[]));
    let mut decoder = Decoder::new();
    let mut scan = Scan::new();
    assert_eq!(decoder.push(&bytes, &mut scan), Decode::Revolution);
    assert_eq!(scan.len, MAX_POINTS);
}

#[test]
fn resync_forgets_the_packet_in_progress() {
    let bytes = stream();
    let mut decoder = Decoder::new();
    let mut scan = Scan::new();
    assert_eq!(decoder.push(&bytes[..20], &mut scan), Decode::InProgress);
    decoder.resync();
    assert_eq!(decoder.push(&bytes[20..], &mut scan), Decode::InProgress);
    assert_eq!(scan.len, 0);
}

fn point(angle_udeg: i64, mm: u16, intensity: u8) -> Point {
    Point { angle_udeg, distance_mm: RangeMm::new(mm), intensity }
}

fn scan_of(points: &[Point]) -> Scan<400> {
    let mut scan = Scan::new();
    scan.len = points.len();
    scan.points[..points.len()].copy_from_slice(points);
    scan
}

#[test]
fn revolution_order_does_not_matter() {
    let near = point(10_100_000, 150, 50);
    let nearer = point(10_400_000, 90, 10);
    let far = point(200_000_000, 700, 3);
    let aside = point(-349_500_000, 120, 7);
    let scans = [scan_of(&[near, far]), scan_of(&[nearer]), scan_of(&[far, aside]), scan_of(&[])];
    let turned = [scan_of(&[]), scan_of(&[aside, far]), scan_of(&[far, near]), scan_of(&[nearer])];
    for method in [AggregationMethod::Median, AggregationMethod::Mean] {
        let config = AggregationConfig { method, ..AggregationConfig::default() };
        let one = aggregate(&scans, &config);
        let other = aggregate(&turned, &config);
        assert_eq!(one.len, 400);
        assert_eq!(one.points, other.points);
        assert_eq!(one.points[11].distance_mm, RangeMm::new(120));
        assert_eq!(one.points[222].distance_mm, RangeMm::new(700));
    }
}

#[test]
fn rankings_ignore_order() {
    let values = vec![9, 4, 4, 7, 1];
    let shuffled = vec![4, 1, 9, 7, 4];
    assert_eq!(rank(&values, 4), rank(&shuffled, 4));
    for k in 0..values.len() {
        assert_eq!(select(&values, k), select(&shuffled, k));
    }
    assert_eq!(median_of(&values), median_of(&shuffled));
    assert_eq!(mean_of(&values), mean_of(&shuffled));
}

#[test]
fn sample_order_does_not_matter() {
    let a = point(10_100_000, 150, 50);
    let b = point(10_900_000, 90, 10);
    let c = point(200_000_000, 700, 3);
    let config = AggregationConfig::default();
    let one = aggregate(&[scan_of(&[a, b, c])], &config);
    let other = aggregate(&[scan_of(&[c, b, a])], &config);
    assert_eq!(one.len, 400);
    assert_eq!(one.points[..], other.points[..]);
}

#[test]
fn every_bearing_has_a_bucket() {
    assert_eq!(effective_grid(1_000_000, 360).bins, 360);
    assert_eq!(effective_grid(1_900_000, 400).bins, 190);
    assert_eq!(effective_grid(500_000, 400).bins, 400);
    assert_eq!(normalise_angle(370_000_000), 10_000_000);
    let grid = effective_grid(1_000_000, 360);
    let scan = scan_of(&[point(359_999_999, 42, 7)]);
    assert_eq!(representative_at_bin(&scan, grid, 359), Some((42, 7)));
    assert!(representative_at_bin(&scan, grid, 358).is_none());
}

#[test]
fn mean_and_median_of_even_counts_round_down() {
    let values = vec![4u16, 1, 10, 7];
    assert_eq!(median_of(&values), 5);
    assert_eq!(mean_of(&values), 5);
    assert_eq!(select(&values, 3), 10);
    assert_eq!(rank(&values, 7), (2, 1));
}

#[test]
fn an_empty_set_of_scans_gives_an_empty_scan() {
    let scans: [Scan<400>; 0] = [];
    let out: Scan<360> = reduce(&scans, &AggregationConfig::default());
    assert_eq!(out.len, 0);
}

#[test]
fn a_reduction_onto_the_slot_grid_is_turned_to_the_front() {
    let config = AggregationConfig {
        validity_ratio_ppm: 500_000,
        method: AggregationMethod::Median,
        resolution_udeg: 1_000_000,
    };
    let reduction: Scan<SLOTS> = reduce(&[scan_of(&[point(180_500_000, 1234, 1)])], &config);
    let cloud = Cloud::from_reduction(&reduction, 3);
    assert_eq!(cloud.distance_cm(0), Some(1234));
    assert_eq!(cloud.distance_cm(SLOTS), None);
    assert_eq!(cloud.sequence(), 3);
    assert_eq!(cloud.slots()[0], Some(1234));
}

#[test]
fn dropouts_never_block_and_the_nearest_return_counts() {
    let far = scan_of(&[point(180_000_000, 2000, 1), point(180_500_000, 0, 0)]);
    assert!(!Cloud::from_spin(&far, 0).front_sector_obstacle());
    let near = scan_of(&[point(180_000_000, 2000, 1), point(180_500_000, 200, 1)]);
    let cloud = Cloud::from_spin(&near, 0);
    assert_eq!(cloud.distance_cm(0), Some(200));
    assert!(cloud.front_sector_obstacle());
    assert!(!Cloud::default().front_sector_obstacle());
}

#[test]
fn warmup_always_ends_within_its_budget() {
    let config = WarmupConfig::default();
    let mut warmup = Warmup::new(&config);
    let mut spins = 0;
    loop {
        spins += 1;
        // Climbing for ever: neither settled nor stuck.
        if warmup.observe(spins).is_some() {
            break;
        }
    }
    assert!(spins <= config.max_spins);
}
