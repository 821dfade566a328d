//! The byte-stream decoder: bytes to points, points to revolutions.
//!
//! Packets are framed on their `AA 55` header and taken only with a matching
//! checksum. Points collect from one ring-start packet to the next, which closes the
//! revolution; only then are they written to the caller's [`Scan`]. Samples that do
//! not follow a ring start belong to no complete revolution and are skipped: at first,
//! after a corrupt packet and after lost bytes the decoder waits for a ring start.

use vstd::prelude::*;

use crate::coin_d6::types::{Point, RangeMm, Scan, FULL_CIRCLE_UDEG, SCAN_CAPACITY};
use crate::coin_d6::wire;
use crate::coin_d6::wire::{
    HEADER_0, HEADER_1, MAX_PACKET_LEN, PREAMBLE_LEN, STEPS_PER_CIRCLE, UDEG_PER_STEP,
};

verus! {

/// Points a revolution can hold; later samples of an over-long one are dropped.
pub const MAX_POINTS: usize = 400;

/// Outcome of feeding raw bytes to the decoder.
#[derive(Debug, Clone, Copy, PartialEq, Eq, Structural)]
pub enum Decode {
    /// A complete revolution was assembled and written to the output scan.
    Revolution,
    /// A checksum mismatch discarded the revolution in progress; the decoder waits
    /// for the next ring start.
    Resync,
    /// No complete revolution yet.
    InProgress,
}

/// What a decoder remembers between two bytes.
#[verifier::ext_equal]
pub struct DecoderState {
    /// The bytes of the packet being assembled; empty while looking for a header.
    pub carry: Seq<u8>,
    /// Whether the last byte may have begun a header.
    pub seen_header_0: bool,
    /// Whether no ring start was seen yet that the next samples could follow.
    pub awaiting_ring_start: bool,
    /// The points of the revolution being assembled.
    pub points: Seq<Point>,
}

/// A revolution in progress.
#[verifier::ext_equal]
pub struct Ring {
    /// Whether its ring start is still awaited.
    pub awaited: bool,
    /// Its points so far.
    pub points: Seq<Point>,
}

impl DecoderState {
    /// The revolution being assembled.
    pub open spec fn ring(self) -> Ring {
        Ring { awaited: self.awaiting_ring_start, points: self.points }
    }
}

/// A decoder between packets.
pub open spec fn between_packets(ring: Ring) -> DecoderState {
    DecoderState {
        carry: Seq::empty(),
        seen_header_0: false,
        awaiting_ring_start: ring.awaited,
        points: ring.points,
    }
}

/// The ring start is awaited, and nothing is pending.
pub open spec fn awaited_ring() -> Ring {
    Ring { awaited: true, points: Seq::empty() }
}

/// What one byte, or a run of bytes, brought about.
#[verifier::ext_equal]
pub struct Outcome {
    /// The last revolution that was completed, if any.
    pub revolution: Option<Seq<Point>>,
    /// Whether a corrupt packet was discarded.
    pub resync: bool,
}

/// A decoder that has seen nothing: it waits for a ring start.
pub open spec fn idle_state() -> DecoderState {
    between_packets(awaited_ring())
}

/// Nothing of note happened.
pub open spec fn uneventful() -> Outcome {
    Outcome { revolution: None, resync: false }
}

/// `first` and then `second`.
pub open spec fn and_after(first: Outcome, second: Outcome) -> Outcome {
    Outcome {
        revolution: if second.revolution is Some {
            second.revolution
        } else {
            first.revolution
        },
        resync: first.resync || second.resync,
    }
}

/// As many of `points` as a revolution can hold.
pub open spec fn capped(points: Seq<Point>) -> Seq<Point> {
    if points.len() > MAX_POINTS {
        points.take(MAX_POINTS as int)
    } else {
        points
    }
}

/// The effect of a whole packet on a revolution in progress. A corrupt packet discards
/// it; a ring start completes it, if it has points, and begins the next one; any other
/// packet adds its points, unless a ring start is awaited.
pub open spec fn take_packet(ring: Ring, packet: Seq<u8>) -> (Ring, Outcome) {
    if !wire::checksum_holds(packet) {
        (awaited_ring(), Outcome { revolution: None, resync: true })
    } else if wire::is_ring_start(packet) {
        (
            Ring { awaited: false, points: capped(wire::packet_points(packet)) },
            Outcome {
                revolution: if ring.points.len() > 0 {
                    Some(ring.points)
                } else {
                    None
                },
                resync: false,
            },
        )
    } else if ring.awaited {
        (ring, uneventful())
    } else {
        (Ring { points: capped(ring.points + wire::packet_points(packet)), ..ring }, uneventful())
    }
}

/// The effect of one byte.
pub open spec fn take_byte(state: DecoderState, byte: u8) -> (DecoderState, Outcome) {
    if state.carry.len() == 0 {
        let next = if byte == HEADER_0 {
            DecoderState { seen_header_0: true, ..state }
        } else if byte == HEADER_1 {
            if state.seen_header_0 {
                DecoderState { carry: seq![HEADER_0, HEADER_1], seen_header_0: false, ..state }
            } else {
                state
            }
        } else {
            DecoderState { seen_header_0: false, ..state }
        };
        (next, uneventful())
    } else {
        let carry = state.carry.push(byte);
        if wire::is_whole(carry) {
            let (ring, outcome) = take_packet(state.ring(), carry);
            (between_packets(ring), outcome)
        } else {
            (DecoderState { carry, ..state }, uneventful())
        }
    }
}

/// The effect of a run of bytes.
pub open spec fn take_bytes(state: DecoderState, bytes: Seq<u8>) -> (DecoderState, Outcome)
    decreases bytes.len(),
{
    if bytes.len() == 0 {
        (state, uneventful())
    } else {
        let (before, so_far) = take_bytes(state, bytes.drop_last());
        let (after, now) = take_byte(before, bytes.last());
        (after, and_after(so_far, now))
    }
}

/// A buffer once a revolution is copied to its front; what lies behind it stays.
pub open spec fn overwritten(buffer: Seq<Point>, revolution: Seq<Point>) -> Seq<Point> {
    Seq::new(
        buffer.len(),
        |i: int|
            if i < revolution.len() {
                revolution[i]
            } else {
                buffer[i]
            },
    )
}

/// A buffer once the revolution of an outcome, if any, is copied to its front.
pub open spec fn delivered(buffer: Seq<Point>, outcome: Outcome) -> Seq<Point> {
    match outcome.revolution {
        Some(revolution) => overwritten(buffer, revolution),
        None => buffer,
    }
}

/// A buffer once every revolution that a run of bytes completes is copied to its front,
/// one after the other.
pub open spec fn filled(state: DecoderState, bytes: Seq<u8>, buffer: Seq<Point>) -> Seq<Point>
    decreases bytes.len(),
{
    if bytes.len() == 0 {
        buffer
    } else {
        let before = take_bytes(state, bytes.drop_last()).0;
        delivered(filled(state, bytes.drop_last(), buffer), take_byte(before, bytes.last()).1)
    }
}

/// The points of the longest revolution that a run of bytes completes, zero if none.
pub open spec fn longest(state: DecoderState, bytes: Seq<u8>) -> nat
    decreases bytes.len(),
{
    if bytes.len() == 0 {
        0
    } else {
        let before = take_bytes(state, bytes.drop_last()).0;
        let so_far = longest(state, bytes.drop_last());
        match take_byte(before, bytes.last()).1.revolution {
            Some(revolution) if revolution.len() > so_far => revolution.len(),
            _ => so_far,
        }
    }
}

/// The most significant event of a run of bytes.
pub open spec fn verdict(outcome: Outcome) -> Decode {
    if outcome.revolution is Some {
        Decode::Revolution
    } else if outcome.resync {
        Decode::Resync
    } else {
        Decode::InProgress
    }
}

/// A stateful byte-stream decoder.
pub struct Decoder {
    carry: [u8; MAX_PACKET_LEN],
    carry_len: usize,
    seen_header_0: bool,
    awaiting_ring_start: bool,
    points: [Point; MAX_POINTS],
    points_len: usize,
}

impl Decoder {
    /// What the decoder remembers.
    pub closed spec fn view(&self) -> DecoderState {
        DecoderState {
            carry: self.carry@.take(self.carry_len as int),
            seen_header_0: self.seen_header_0,
            awaiting_ring_start: self.awaiting_ring_start,
            points: self.points@.take(self.points_len as int),
        }
    }

    /// The decoder's buffers are within bounds, the packet being assembled is still
    /// short of its announced length, and no points are pending while a ring start is
    /// awaited.
    pub closed spec fn wf(&self) -> bool {
        &&& self.points_len <= MAX_POINTS
        &&& self.awaiting_ring_start ==> self.points_len == 0
        &&& self.carry_len < MAX_PACKET_LEN
        &&& self.carry_len == 0 || self.carry_len >= 2
        &&& self.carry_len >= PREAMBLE_LEN ==> self.carry_len < PREAMBLE_LEN + 3 * self.carry@[3]
    }

    /// An empty decoder.
    pub fn new() -> (decoder: Self)
        ensures
            decoder.wf(),
            decoder@ == idle_state(),
    {
        let decoder = Decoder {
            carry: [0u8; MAX_PACKET_LEN],
            carry_len: 0,
            seen_header_0: false,
            awaiting_ring_start: true,
            points: [Point { angle_udeg: 0, distance_mm: None, intensity: 0 }; MAX_POINTS],
            points_len: 0,
        };
        assert(decoder@ =~= idle_state());
        decoder
    }

    /// Forget the packet and the revolution in progress, and wait for a ring start.
    ///
    /// Called when bytes were lost and the stream position cannot be trusted.
    pub fn resync(&mut self)
        requires
            old(self).wf(),
        ensures
            final(self).wf(),
            final(self)@ == idle_state(),
    {
        self.carry_len = 0;
        self.seen_header_0 = false;
        self.awaiting_ring_start = true;
        self.points_len = 0;
        assert(self@ =~= idle_state());
    }

    /// Feed raw bytes, returning the most significant event.
    ///
    /// Decoded points reach `scan` only when a revolution completes. If the bytes
    /// complete more than one revolution, `scan` holds the last. Points behind the
    /// longest of them stay as they were.
    pub fn push(&mut self, bytes: &[u8], scan: &mut Scan<SCAN_CAPACITY>) -> (event: Decode)
        requires
            old(self).wf(),
        ensures
            final(self).wf(),
            final(self)@ == take_bytes(old(self)@, bytes@).0,
            event == verdict(take_bytes(old(self)@, bytes@).1),
            take_bytes(old(self)@, bytes@).1.revolution is None ==> *final(scan) == *old(scan),
            take_bytes(old(self)@, bytes@).1.revolution matches Some(points) ==> {
                &&& final(scan).wf()
                &&& final(scan)@ == points
            },
            final(scan).points@ == filled(old(self)@, bytes@, old(scan).points@),
            forall|i: int|
                longest(old(self)@, bytes@) <= i < SCAN_CAPACITY
                    ==> #[trigger] final(scan).points@[i] == old(scan).points@[i],
    {
        let mut result = Decode::InProgress;
        let mut i: usize = 0;
        assert(bytes@.take(0) =~= Seq::<u8>::empty());
        while i < bytes.len()
            invariant
                i <= bytes.len(),
                self.wf(),
                self@ == take_bytes(old(self)@, bytes@.take(i as int)).0,
                result == verdict(take_bytes(old(self)@, bytes@.take(i as int)).1),
                take_bytes(old(self)@, bytes@.take(i as int)).1.revolution is None ==> *scan
                    == *old(scan),
                take_bytes(old(self)@, bytes@.take(i as int)).1.revolution matches Some(points)
                    ==> scan.wf() && scan@ == points,
                scan.points@ == filled(old(self)@, bytes@.take(i as int), old(scan).points@),
                forall|j: int|
                    longest(old(self)@, bytes@.take(i as int)) <= j < SCAN_CAPACITY
                        ==> #[trigger] scan.points@[j] == old(scan).points@[j],
            decreases bytes.len() - i,
        {
            assert(bytes@.take(i + 1).drop_last() =~= bytes@.take(i as int));
            match self.feed_byte(bytes[i], scan) {
                Some(Decode::Revolution) => {
                    result = Decode::Revolution;
                },
                Some(Decode::Resync) => {
                    if result == Decode::InProgress {
                        result = Decode::Resync;
                    }
                },
                Some(Decode::InProgress) | None => {},
            }
            i += 1;
        }
        assert(bytes@.take(i as int) =~= bytes@);
        result
    }

    /// Advance by one byte, returning an event when a packet completes.
    fn feed_byte(&mut self, byte: u8, scan: &mut Scan<SCAN_CAPACITY>) -> (event: Option<Decode>)
        requires
            old(self).wf(),
        ensures
            final(self).wf(),
            final(self)@ == take_byte(old(self)@, byte).0,
            event == reported(take_byte(old(self)@, byte).1),
            take_byte(old(self)@, byte).1.revolution is None ==> *final(scan) == *old(scan),
            take_byte(old(self)@, byte).1.revolution matches Some(points) ==> {
                &&& final(scan).wf()
                &&& final(scan)@ == points
            },
            final(scan).points@ == delivered(
                old(scan).points@,
                take_byte(old(self)@, byte).1,
            ),
    {
        if self.carry_len == 0 {
            if byte == HEADER_0 {
                self.seen_header_0 = true;
            } else if byte == HEADER_1 {
                if self.seen_header_0 {
                    self.carry[0] = HEADER_0;
                    self.carry[1] = HEADER_1;
                    self.carry_len = 2;
                    self.seen_header_0 = false;
                    assert(self@.carry =~= seq![HEADER_0, HEADER_1]);
                }
            } else {
                self.seen_header_0 = false;
            }
            assert(self@.carry.len() == self.carry_len);
            assert(self@ =~= take_byte(old(self)@, byte).0);
            return None;
        }
        let ghost before = self@;
        self.carry[self.carry_len] = byte;
        self.carry_len += 1;
        assert(self@.carry =~= before.carry.push(byte));
        assert(self@.points =~= before.points);
        if self.carry_len < PREAMBLE_LEN {
            return None;
        }
        let lsn = self.carry[3] as usize;
        let total_len: usize = PREAMBLE_LEN + 3 * lsn;
        if self.carry_len < total_len {
            return None;
        }
        let event = self.finish_packet(scan);
        self.carry_len = 0;
        self.seen_header_0 = false;
        assert(self@.carry =~= Seq::<u8>::empty());
        event
    }

    /// The checksum of the packet in the carry buffer.
    fn checksum(&self) -> (sum: u16)
        requires
            self.carry_len >= PREAMBLE_LEN,
            self.carry_len <= MAX_PACKET_LEN,
            self.carry_len == PREAMBLE_LEN + 3 * self.carry@[3],
        ensures
            sum == wire::running_checksum(self@.carry, wire::sample_count(self@.carry)),
    {
        let mut sum: u16 = 0x55AA;
        sum = sum ^ join(self.carry[2], self.carry[3]);
        sum = sum ^ join(self.carry[4], self.carry[5]);
        sum = sum ^ join(self.carry[6], self.carry[7]);
        let lsn = self.carry[3] as usize;
        let mut i: usize = 0;
        while i < lsn
            invariant
                i <= lsn,
                lsn == self.carry@[3],
                self.carry_len == PREAMBLE_LEN + 3 * lsn,
                self.carry_len <= MAX_PACKET_LEN,
                sum == wire::running_checksum(self@.carry, i as nat),
            decreases lsn - i,
        {
            let base: usize = PREAMBLE_LEN + 3 * i;
            sum = sum ^ (self.carry[base] as u16);
            sum = sum ^ join(self.carry[base + 1], self.carry[base + 2]);
            i += 1;
        }
        sum
    }

    /// Check and decode the whole packet in the carry buffer.
    fn finish_packet(&mut self, scan: &mut Scan<SCAN_CAPACITY>) -> (event: Option<Decode>)
        requires
            old(self).points_len <= MAX_POINTS,
            old(self).awaiting_ring_start ==> old(self).points_len == 0,
            old(self).carry_len >= PREAMBLE_LEN,
            old(self).carry_len <= MAX_PACKET_LEN,
            old(self).carry_len == PREAMBLE_LEN + 3 * old(self).carry@[3],
        ensures
            final(self).points_len <= MAX_POINTS,
            final(self).awaiting_ring_start ==> final(self).points_len == 0,
            ({
                let (ring, outcome) = take_packet(old(self)@.ring(), old(self)@.carry);
                &&& final(self)@.ring() == ring
                &&& event == reported(outcome)
                &&& outcome.revolution is None ==> *final(scan) == *old(scan)
                &&& outcome.revolution matches Some(points) ==> final(scan).wf() && final(scan)@
                    == points
                &&& final(scan).points@ == delivered(old(scan).points@, outcome)
            }),
    {
        let ghost packet = self@.carry;
        let sum = self.checksum();
        if sum != join(self.carry[8], self.carry[9]) {
            self.awaiting_ring_start = true;
            self.points_len = 0;
            assert(self@.points =~= Seq::<Point>::empty());
            return Some(Decode::Resync);
        }
        let is_ring_start = self.carry[2] % 2 == 1;
        if self.awaiting_ring_start && !is_ring_start {
            return None;
        }
        let mut event = None;
        if is_ring_start {
            self.awaiting_ring_start = false;
            if self.points_len > 0 {
                self.flush(scan);
                event = Some(Decode::Revolution);
            }
            self.points_len = 0;
            assert(self@.points =~= Seq::<Point>::empty());
            assert(Seq::<Point>::empty() + wire::packet_points(packet) =~= wire::packet_points(packet));
        }
        self.append_samples();
        event
    }

    /// Copy the finished revolution to `scan`.
    fn flush(&self, scan: &mut Scan<SCAN_CAPACITY>)
        requires
            self.points_len <= MAX_POINTS,
        ensures
            final(scan).wf(),
            final(scan)@ == self@.points,
            final(scan).points@ == overwritten(old(scan).points@, self@.points),
    {
        let mut i: usize = 0;
        while i < self.points_len
            invariant
                i <= self.points_len,
                self.points_len <= MAX_POINTS,
                forall|j: int| 0 <= j < i ==> scan.points@[j] == self.points@[j],
                forall|j: int|
                    i <= j < SCAN_CAPACITY ==> #[trigger] scan.points@[j] == old(scan).points@[j],
            decreases self.points_len - i,
        {
            scan.points[i] = self.points[i];
            i += 1;
        }
        scan.len = self.points_len;
        assert(scan@ =~= self@.points);
        assert(scan.points@ =~= overwritten(old(scan).points@, self@.points));
    }

    /// Append the samples of the packet in the carry buffer to the revolution.
    fn append_samples(&mut self)
        requires
            old(self).points_len <= MAX_POINTS,
            old(self).carry_len >= PREAMBLE_LEN,
            old(self).carry_len <= MAX_PACKET_LEN,
            old(self).carry_len == PREAMBLE_LEN + 3 * old(self).carry@[3],
        ensures
            final(self).points_len <= MAX_POINTS,
            final(self).carry == old(self).carry,
            final(self).carry_len == old(self).carry_len,
            final(self).awaiting_ring_start == old(self).awaiting_ring_start,
            final(self)@.points == capped(
                old(self)@.points + wire::packet_points(old(self)@.carry),
            ),
    {
        let ghost packet = self@.carry;
        let ghost before = self@.points;
        let lsn = self.carry[3] as u64;
        let first = (join(self.carry[4], self.carry[5]) / 2) as u64;
        let mut last = (join(self.carry[6], self.carry[7]) / 2) as u64;
        if last < first {
            last += STEPS_PER_CIRCLE;
        }
        let mut i: u64 = 0;
        assert(self@.points =~= capped(before + wire::packet_points(packet).take(0)));
        while i < lsn
            invariant
                i <= lsn,
                lsn == self.carry@[3],
                self.carry == old(self).carry,
                self.carry_len == old(self).carry_len,
                self.awaiting_ring_start == old(self).awaiting_ring_start,
                self.carry_len == PREAMBLE_LEN + 3 * lsn,
                self.carry_len <= MAX_PACKET_LEN,
                packet == self@.carry,
                first == wire::first_steps(packet),
                last == wire::unwrapped_last_steps(packet),
                first < 65536,
                last < 65536,
                self.points_len <= MAX_POINTS,
                self@.points == capped(before + wire::packet_points(packet).take(i as int)),
            decreases lsn - i,
        {
            let base: usize = PREAMBLE_LEN + 3 * (i as usize);
            let si_l = self.carry[base];
            let si_2nd = self.carry[base + 1];
            let si_h = self.carry[base + 2];
            let bearing: u64 = if lsn > 1 {
                assert(0 <= (lsn - 1 - i) * first <= 255 * 65536 && 0 <= i * last <= 255 * 65536)
                    by (nonlinear_arith)
                    requires
                        0 <= i <= lsn - 1 <= 255,
                        0 <= first <= 65536,
                        0 <= last <= 65536,
                ;
                ((lsn - 1 - i) * first + i * last) * UDEG_PER_STEP / (lsn - 1)
            } else {
                first * UDEG_PER_STEP
            };
            let angle = (bearing % (FULL_CIRCLE_UDEG as u64)) as i64;
            let point = Point {
                angle_udeg: angle,
                distance_mm: RangeMm::new((si_h as u16) * 64 + (si_2nd as u16) / 4),
                intensity: (si_2nd % 4) * 64 + si_l / 4,
            };
            assert(point == wire::sample_point(packet, i as int));
            let ghost grown = wire::packet_points(packet).take(i as int).push(point);
            assert(wire::packet_points(packet).take(i + 1) =~= grown);
            assert(before + grown =~= (before + wire::packet_points(packet).take(i as int)).push(
                point,
            ));
            let ghost so_far = before + wire::packet_points(packet).take(i as int);
            let ghost held = self@.points;
            if self.points_len < MAX_POINTS {
                assert(held == so_far);
                self.points[self.points_len] = point;
                self.points_len += 1;
                assert(self@.points =~= held.push(point));
            } else {
                assert(so_far.push(point).take(MAX_POINTS as int) =~= capped(so_far));
            }
            i += 1;
        }
        assert(wire::packet_points(packet).take(lsn as int) =~= wire::packet_points(packet));
    }
}

/// The little-endian word made of `lo` and `hi`.
fn join(lo: u8, hi: u8) -> (joined: u16)
    ensures
        joined == wire::word(lo, hi),
{
    (hi as u16) * 256 + (lo as u16)
}

/// How the event of one byte is reported.
pub open spec fn reported(outcome: Outcome) -> Option<Decode> {
    if outcome.revolution is Some {
        Some(Decode::Revolution)
    } else if outcome.resync {
        Some(Decode::Resync)
    } else {
        None
    }
}

} // verus!
