//! What a COIN-D6 packet on the wire says.
//!
//! A packet is a ten-byte preamble followed by three bytes per sample: the header
//! `AA 55`, the type byte `CT`, the sample count `LSN`, the first and last bearing
//! `FSA` and `LSA`, the checksum `CS`, and then `Si_L`, `Si_2nd`, `Si_H` for each
//! sample. Two-byte fields are little-endian.

use vstd::prelude::*;

use crate::coin_d6::types;
use crate::coin_d6::types::{Point, FULL_CIRCLE_UDEG};

verus! {

/// First byte of the packet header.
pub const HEADER_0: u8 = 0xAA;

/// Second byte of the packet header.
pub const HEADER_1: u8 = 0x55;

/// Bytes before the first sample.
pub const PREAMBLE_LEN: usize = 10;

/// Longest possible packet: the preamble and three bytes for each of 255 samples.
pub const MAX_PACKET_LEN: usize = 775;

/// Microdegrees in one sixty-fourth of a degree, the unit of the wire bearings.
pub const UDEG_PER_STEP: u64 = 15_625;

/// Wire bearing units in a full circle.
pub const STEPS_PER_CIRCLE: u64 = 23_040;

/// The little-endian word made of `lo` and `hi`.
pub open spec fn word(lo: u8, hi: u8) -> u16 {
    (lo + 256 * hi) as u16
}

/// The number of samples a packet announces.
pub open spec fn sample_count(packet: Seq<u8>) -> nat {
    packet[3] as nat
}

/// The length a packet announces.
pub open spec fn announced_len(packet: Seq<u8>) -> nat {
    PREAMBLE_LEN as nat + 3 * sample_count(packet)
}

/// Whether the bytes collected so far are a whole packet.
pub open spec fn is_whole(packet: Seq<u8>) -> bool {
    packet.len() >= PREAMBLE_LEN && packet.len() >= announced_len(packet)
}

/// The header, type, count and bearing words folded together.
pub open spec fn preamble_checksum(packet: Seq<u8>) -> u16 {
    0x55AAu16 ^ word(packet[2], packet[3]) ^ word(packet[4], packet[5]) ^ word(packet[6], packet[7])
}

/// The exclusive or of the preamble words and the first `n` samples.
pub open spec fn running_checksum(packet: Seq<u8>, n: nat) -> u16
    decreases n,
{
    if n == 0 {
        preamble_checksum(packet)
    } else {
        let base = PREAMBLE_LEN + 3 * (n - 1);
        running_checksum(packet, (n - 1) as nat) ^ (packet[base] as u16) ^ word(
            packet[base + 1],
            packet[base + 2],
        )
    }
}

/// Whether the packet carries the checksum its contents have.
pub open spec fn checksum_holds(packet: Seq<u8>) -> bool {
    running_checksum(packet, sample_count(packet)) == word(packet[8], packet[9])
}

/// Whether the packet opens a new revolution.
pub open spec fn is_ring_start(packet: Seq<u8>) -> bool {
    packet[2] % 2 == 1
}

/// The bearing of the first sample, in sixty-fourths of a degree.
pub open spec fn first_steps(packet: Seq<u8>) -> int {
    word(packet[4], packet[5]) as int / 2
}

/// The bearing of the last sample as transmitted, in sixty-fourths of a degree.
pub open spec fn last_steps(packet: Seq<u8>) -> int {
    word(packet[6], packet[7]) as int / 2
}

/// The bearing of the last sample on the turn of the first, in sixty-fourths of a
/// degree. A packet that crosses zero degrees transmits a last bearing below its
/// first.
pub open spec fn unwrapped_last_steps(packet: Seq<u8>) -> int {
    if last_steps(packet) < first_steps(packet) {
        last_steps(packet) + STEPS_PER_CIRCLE
    } else {
        last_steps(packet)
    }
}

/// The bearing of sample `i`: the samples divide the packet's arc evenly.
pub open spec fn sample_bearing(packet: Seq<u8>, i: int) -> int {
    let last = sample_count(packet) - 1;
    let bearing = if last > 0 {
        ((last - i) * first_steps(packet) + i * unwrapped_last_steps(packet)) * UDEG_PER_STEP / last
    } else {
        first_steps(packet) * UDEG_PER_STEP
    };
    bearing % (FULL_CIRCLE_UDEG as int)
}

/// The range of a sample, in millimetres.
pub open spec fn sample_range(si_2nd: u8, si_h: u8) -> u16 {
    (si_h * 64 + si_2nd / 4) as u16
}

/// The signal strength of a sample.
pub open spec fn sample_intensity(si_l: u8, si_2nd: u8) -> u8 {
    ((si_2nd % 4) * 64 + si_l / 4) as u8
}

/// The point sample `i` of a packet stands for.
pub open spec fn sample_point(packet: Seq<u8>, i: int) -> Point {
    let base = PREAMBLE_LEN + 3 * i;
    Point {
        angle_udeg: sample_bearing(packet, i) as i64,
        distance_mm: types::measured_range(sample_range(packet[base + 1], packet[base + 2])),
        intensity: sample_intensity(packet[base], packet[base + 1]),
    }
}

/// The points of a packet, in wire order.
pub open spec fn packet_points(packet: Seq<u8>) -> Seq<Point> {
    Seq::new(sample_count(packet), |i: int| sample_point(packet, i))
}

/// The three wire bytes that carry a range and an intensity.
pub open spec fn sample_bytes(range_mm: u16, intensity: u8) -> (u8, u8, u8) {
    (
        ((intensity % 64) * 4) as u8,
        ((range_mm % 64) * 4 + intensity / 64) as u8,
        (range_mm / 64) as u8,
    )
}

/// Every fourteen-bit range and every intensity survives the wire encoding.
pub proof fn law_sample_round_trip(range_mm: u16, intensity: u8)
    requires
        range_mm < 16384,
    ensures
        ({
            let (si_l, si_2nd, si_h) = sample_bytes(range_mm, intensity);
            &&& sample_range(si_2nd, si_h) == range_mm
            &&& sample_intensity(si_l, si_2nd) == intensity
        }),
{
}

/// A sample never reports more than fourteen bits of range.
pub proof fn law_sample_range_is_bounded(si_2nd: u8, si_h: u8)
    ensures
        sample_range(si_2nd, si_h) < 16384,
{
}

/// Every bearing a packet decodes to lies within one turn.
pub proof fn law_bearing_is_normalised(packet: Seq<u8>, i: int)
    ensures
        0 <= sample_bearing(packet, i) < FULL_CIRCLE_UDEG,
{
}

/// The bearings of a packet's samples run from its first bearing to its last, round
/// through zero where they must, in equal steps: sample `i` of `n` lies as many parts of
/// the arc past the first one. A single sample lies at the first bearing.
pub proof fn law_samples_divide_the_arc(packet: Seq<u8>, i: int)
    requires
        first_steps(packet) < 23_040,
        last_steps(packet) < 23_040,
        0 <= i < sample_count(packet),
    ensures
        ({
            let first = (packet[4] + 256 * packet[5]) / 2 * 15_625;
            let last = (packet[6] + 256 * packet[7]) / 2 * 15_625;
            let arc = (last - first) % 360_000_000;
            let parts = packet[3] - 1;
            &&& parts == 0 ==> sample_bearing(packet, i) == first
            &&& parts > 0 ==> sample_bearing(packet, i) == (first + i * arc / parts) % 360_000_000
            &&& parts > 0 && i == parts ==> sample_bearing(packet, i) == last
            &&& i == 0 ==> sample_bearing(packet, i) == first
        }),
{
    let f = first_steps(packet);
    let u = unwrapped_last_steps(packet);
    let first = f * 15_625;
    let last = last_steps(packet) * 15_625;
    let arc = (last - first) % 360_000_000;
    let parts = sample_count(packet) - 1;
    assert(arc == (u - f) * 15_625);
    if parts > 0 {
        let sum = ((parts - i) * f + i * u) * UDEG_PER_STEP;
        assert(sum == parts * first + i * arc) by (nonlinear_arith)
            requires
                sum == ((parts - i) * f + i * u) * 15_625,
                first == f * 15_625,
                arc == (u - f) * 15_625,
        ;
        assert((parts * first + i * arc) / parts == first + i * arc / parts) by {
            vstd::arithmetic::div_mod::lemma_hoist_over_denominator(i * arc, first, parts as nat);
            assert(first * parts == parts * first) by (nonlinear_arith);
        }
        if i == parts {
            assert(i * arc / parts == arc) by (nonlinear_arith)
                requires
                    i == parts,
                    parts > 0,
            ;
        }
        if i == 0 {
            assert(i * arc == 0) by (nonlinear_arith)
                requires
                    i == 0,
            ;
            assert(0int / parts == 0) by (nonlinear_arith)
                requires
                    parts > 0,
            ;
        }
    }
}

/// A packet's points are what its sample bytes carry, one for each sample it announces, in
/// order: a sample of a range and an intensity gives them back, and a range of zero is a
/// missing return.
pub proof fn law_points_carry_the_samples(
    packet: Seq<u8>,
    i: int,
    range_mm: u16,
    intensity: u8,
)
    requires
        0 <= i < packet[3],
        range_mm < 16384,
        packet[10 + 3 * i] == sample_bytes(range_mm, intensity).0,
        packet[11 + 3 * i] == sample_bytes(range_mm, intensity).1,
        packet[12 + 3 * i] == sample_bytes(range_mm, intensity).2,
    ensures
        packet_points(packet).len() == packet[3],
        packet_points(packet)[i].intensity == intensity,
        range_mm == 0 ==> packet_points(packet)[i].distance_mm is None,
        range_mm > 0 ==> (packet_points(packet)[i].distance_mm matches Some(range) && range@
            == range_mm),
        packet_points(packet)[i].angle_udeg == sample_bearing(packet, i),
{
    law_sample_round_trip(range_mm, intensity);
    types::RangeMm::lemma_of(range_mm);
}

/// Exclusive or tells its operands apart.
proof fn lemma_xor_cancels(a: u16, b: u16, c: u16)
    ensures
        a ^ b == a ^ c ==> b == c,
        b ^ a == c ^ a ==> b == c,
{
    assert(a ^ b == a ^ c ==> b == c) by (bit_vector);
    assert(b ^ a == c ^ a ==> b == c) by (bit_vector);
}

/// Packets that differ in one byte of their first samples have different checksums so far;
/// before that byte their checksums are the same.
proof fn lemma_checksum_differs(a: Seq<u8>, b: Seq<u8>, at: int, n: nat)
    requires
        a.len() == b.len(),
        10 + 3 * n <= a.len(),
        2 <= at < a.len(),
        at != 8,
        at != 9,
        a[at] != b[at],
        forall|i: int| 0 <= i < a.len() && i != at ==> a[i] == b[i],
    ensures
        at < 10 + 3 * n ==> running_checksum(a, n) != running_checksum(b, n),
        at >= 10 + 3 * n ==> running_checksum(a, n) == running_checksum(b, n),
    decreases n,
{
    if n == 0 {
        let a1 = word(a[2], a[3]);
        let a2 = word(a[4], a[5]);
        let a3 = word(a[6], a[7]);
        let b1 = word(b[2], b[3]);
        let b2 = word(b[4], b[5]);
        let b3 = word(b[6], b[7]);
        lemma_xor_cancels(0x55AAu16, a1, b1);
        lemma_xor_cancels(0x55AAu16 ^ a1, a2, b2);
        lemma_xor_cancels(a2, 0x55AAu16 ^ a1, 0x55AAu16 ^ b1);
        lemma_xor_cancels(0x55AAu16 ^ a1 ^ a2, a3, b3);
        lemma_xor_cancels(a3, 0x55AAu16 ^ a1 ^ a2, 0x55AAu16 ^ b1 ^ b2);
    } else {
        let m = (n - 1) as nat;
        lemma_checksum_differs(a, b, at, m);
        let base: int = 10 + 3 * (m as int);
        let ra = running_checksum(a, m);
        let rb = running_checksum(b, m);
        let la = a[base] as u16;
        let lb = b[base] as u16;
        let wa = word(a[base + 1], a[base + 2]);
        let wb = word(b[base + 1], b[base + 2]);
        lemma_xor_cancels(ra, la, lb);
        lemma_xor_cancels(la, ra, rb);
        lemma_xor_cancels(ra ^ la, wa, wb);
        lemma_xor_cancels(wa, ra ^ la, rb ^ lb);
    }
}

/// The checksum notices one corrupt byte: of two packets of the same shape that differ in a
/// single byte behind the header, at most one has a checksum that holds.
pub proof fn law_checksum_notices_a_corrupt_byte(a: Seq<u8>, b: Seq<u8>, at: int)
    requires
        a.len() == b.len(),
        a.len() == 10 + 3 * a[3],
        2 <= at < a.len(),
        at != 3,
        a[at] != b[at],
        forall|i: int| 0 <= i < a.len() && i != at ==> a[i] == b[i],
    ensures
        !(checksum_holds(a) && checksum_holds(b)),
{
    let n = sample_count(a);
    if at == 8 || at == 9 {
        lemma_checksum_ignores_itself(a, b, n);
    } else {
        lemma_checksum_differs(a, b, at, n);
    }
}

/// The checksum's own bytes are not part of it.
proof fn lemma_checksum_ignores_itself(a: Seq<u8>, b: Seq<u8>, n: nat)
    requires
        a.len() == b.len(),
        10 + 3 * n <= a.len(),
        forall|i: int| 0 <= i < a.len() && i != 8 && i != 9 ==> a[i] == b[i],
    ensures
        running_checksum(a, n) == running_checksum(b, n),
    decreases n,
{
    if n > 0 {
        lemma_checksum_ignores_itself(a, b, (n - 1) as nat);
    }
}

/// The lowest bit of the type byte alone marks a ring start, and a packet is whole once all
/// the samples it announces are there.
pub proof fn law_packet_announces_itself(packet: Seq<u8>)
    requires
        packet.len() > 3,
    ensures
        is_ring_start(packet) <==> packet[2] & 1 == 1,
        is_whole(packet) <==> packet.len() >= 10 + 3 * packet[3],
{
    let kind = packet[2];
    assert(kind & 1 == kind % 2) by (bit_vector);
}

/// The checksum is what makes all words of a packet cancel: of one without samples, the
/// header's, the type's, the bearings' and its own.
pub proof fn law_checksum_cancels_the_words(packet: Seq<u8>)
    requires
        packet.len() == 10,
        packet[0] == 0xAA,
        packet[1] == 0x55,
        packet[3] == 0,
    ensures
        checksum_holds(packet) <==> word(packet[0], packet[1]) ^ word(packet[2], packet[3]) ^ word(
            packet[4],
            packet[5],
        ) ^ word(packet[6], packet[7]) ^ word(packet[8], packet[9]) == 0,
{
    let a = word(packet[2], packet[3]);
    let b = word(packet[4], packet[5]);
    let c = word(packet[6], packet[7]);
    let d = word(packet[8], packet[9]);
    assert(word(packet[0], packet[1]) == 0x55AAu16);
    assert((0x55AAu16 ^ a ^ b ^ c == d) <==> (0x55AAu16 ^ a ^ b ^ c ^ d == 0)) by (bit_vector);
}

} // verus!
