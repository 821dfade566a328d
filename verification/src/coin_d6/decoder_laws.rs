//! What holds of the decoder on every byte stream.

use vstd::prelude::*;

use crate::coin_d6::decoder;
use crate::coin_d6::decoder::{Decode, Decoder, DecoderState, Outcome, Ring, MAX_POINTS};
use crate::coin_d6::types::{Point, Scan, FULL_CIRCLE_UDEG, SCAN_CAPACITY};
use crate::coin_d6::wire;
use crate::coin_d6::wire::{HEADER_0, HEADER_1, PREAMBLE_LEN};

verus! {

/// Where the stream is cut into chunks does not matter: feeding `a` and then `b`
/// leaves the decoder as feeding them together does, and brings the same events.
pub proof fn law_chunking(state: DecoderState, a: Seq<u8>, b: Seq<u8>)
    ensures
        ({
            let (middle, first) = decoder::take_bytes(state, a);
            let (end, second) = decoder::take_bytes(middle, b);
            decoder::take_bytes(state, a + b) == (end, decoder::and_after(first, second))
        }),
    decreases b.len(),
{
    if b.len() == 0 {
        assert(a + b =~= a);
    } else {
        law_chunking(state, a, b.drop_last());
        assert((a + b).drop_last() =~= a + b.drop_last());
    }
}

/// Nor does it matter to the scan: feeding `a` and then `b` leaves every one of its
/// points, present or not, as feeding them together does.
pub proof fn law_chunking_fills_alike(
    state: DecoderState,
    a: Seq<u8>,
    b: Seq<u8>,
    buffer: Seq<Point>,
)
    ensures
        decoder::filled(state, a + b, buffer) == decoder::filled(
            decoder::take_bytes(state, a).0,
            b,
            decoder::filled(state, a, buffer),
        ),
    decreases b.len(),
{
    if b.len() == 0 {
        assert(a + b =~= a);
    } else {
        law_chunking_fills_alike(state, a, b.drop_last(), buffer);
        law_chunking(state, a, b.drop_last());
        assert((a + b).drop_last() =~= a + b.drop_last());
    }
}

/// While no packet is being assembled and no header has begun, bytes other than
/// the first header byte leave the decoder as it was. The speed-adjust bytes the
/// motor sends during spin-up are such bytes.
pub proof fn law_noise_is_skipped(state: DecoderState, noise: Seq<u8>)
    requires
        state.carry.len() == 0,
        !state.seen_header_0,
        forall|i: int| 0 <= i < noise.len() ==> noise[i] != HEADER_0,
    ensures
        decoder::take_bytes(state, noise) == (state, decoder::uneventful()),
    decreases noise.len(),
{
    if noise.len() > 0 {
        law_noise_is_skipped(state, noise.drop_last());
        assert(noise.last() == noise[noise.len() - 1]);
        assert(decoder::take_byte(state, noise.last()).0 =~= state);
    }
}

/// Whether the bytes have the shape of one packet, whatever their checksum.
pub open spec fn is_packet(packet: Seq<u8>) -> bool {
    &&& packet.len() >= PREAMBLE_LEN
    &&& packet.len() == wire::announced_len(packet)
    &&& packet[0] == HEADER_0
    &&& packet[1] == HEADER_1
}

/// A packet cut short is only carried.
proof fn lemma_partial_packet(state: DecoderState, packet: Seq<u8>, n: int)
    requires
        state.carry.len() == 0,
        is_packet(packet),
        2 <= n < packet.len(),
    ensures
        decoder::take_bytes(state, packet.take(n)) == (
            DecoderState { carry: packet.take(n), seen_header_0: false, ..state },
            decoder::uneventful(),
        ),
    decreases n,
{
    let prefix = packet.take(n);
    assert(prefix.drop_last() =~= packet.take(n - 1));
    assert(prefix.last() == packet[n - 1]);
    if n == 2 {
        reveal_with_fuel(decoder::take_bytes, 3);
        let one = packet.take(1);
        assert(one.drop_last() =~= Seq::<u8>::empty());
        assert(one.last() == HEADER_0);
        assert(prefix =~= seq![HEADER_0, HEADER_1]);
    } else {
        lemma_partial_packet(state, packet, n - 1);
        assert(packet.take(n - 1).push(packet[n - 1]) =~= prefix);
        assert(!wire::is_whole(prefix)) by {
            if n >= PREAMBLE_LEN {
                assert(prefix[3] == packet[3]);
            }
        }
    }
}

/// A packet is taken as a unit: whatever its checksum, a decoder between packets
/// treats its bytes exactly as the packet's effect says and is between packets
/// again.
pub proof fn law_packet_is_framed(state: DecoderState, packet: Seq<u8>)
    requires
        state.carry.len() == 0,
        is_packet(packet),
    ensures
        ({
            let (ring, outcome) = decoder::take_packet(state.ring(), packet);
            decoder::take_bytes(state, packet) == (decoder::between_packets(ring), outcome)
        }),
{
    let n = packet.len() as int;
    lemma_partial_packet(state, packet, n - 1);
    assert(packet.drop_last() =~= packet.take(n - 1));
    assert(packet.take(n - 1).push(packet.last()) =~= packet);
    let (ring, outcome) = decoder::take_packet(state.ring(), packet);
    assert(decoder::and_after(decoder::uneventful(), outcome) =~= outcome);
}

/// A packet with a wrong checksum discards the revolution in progress, completes
/// nothing and asks for a resynchronisation: the decoder waits for a ring start.
pub proof fn law_corrupt_packet_discards_the_revolution(state: DecoderState, packet: Seq<u8>)
    requires
        state.carry.len() == 0,
        is_packet(packet),
        !wire::checksum_holds(packet),
    ensures
        decoder::take_bytes(state, packet).0 == decoder::idle_state(),
        decoder::verdict(decoder::take_bytes(state, packet).1) == decoder::Decode::Resync,
{
    law_packet_is_framed(state, packet);
}

/// The bytes of several packets one after another.
pub open spec fn stream(packets: Seq<Seq<u8>>) -> Seq<u8>
    decreases packets.len(),
{
    if packets.len() == 0 {
        Seq::empty()
    } else {
        stream(packets.drop_last()) + packets.last()
    }
}

/// `points` followed by the points of the packets, as far as a revolution holds
/// them.
pub open spec fn collected(points: Seq<Point>, packets: Seq<Seq<u8>>) -> Seq<Point>
    decreases packets.len(),
{
    if packets.len() == 0 {
        points
    } else {
        decoder::capped(
            collected(points, packets.drop_last()) + wire::packet_points(packets.last()),
        )
    }
}

/// Packets inside a revolution add their points to it.
proof fn lemma_inner_packets(state: DecoderState, packets: Seq<Seq<u8>>)
    requires
        state.carry.len() == 0,
        !state.awaiting_ring_start,
        forall|i: int|
            0 <= i < packets.len() ==> is_packet(#[trigger] packets[i]) && wire::checksum_holds(
                packets[i],
            ) && !wire::is_ring_start(packets[i]),
    ensures
        ({
            let (end, outcome) = decoder::take_bytes(state, stream(packets));
            &&& end.carry.len() == 0
            &&& !end.awaiting_ring_start
            &&& end.points == collected(state.points, packets)
            &&& outcome == decoder::uneventful()
        }),
    decreases packets.len(),
{
    if packets.len() > 0 {
        let inner = packets.drop_last();
        let last = packets.last();
        assert(last == packets[packets.len() - 1]);
        assert forall|i: int| 0 <= i < inner.len() implies is_packet(#[trigger] inner[i])
            && wire::checksum_holds(inner[i]) && !wire::is_ring_start(inner[i]) by {
            assert(inner[i] == packets[i]);
        }
        lemma_inner_packets(state, inner);
        let middle = decoder::take_bytes(state, stream(inner)).0;
        law_chunking(state, stream(inner), last);
        law_packet_is_framed(middle, last);
    }
}

/// A revolution reads back what was sent: after a decoder between packets with no
/// points pending takes a ring-start packet with samples, any packets inside the
/// revolution, and the ring-start packet that opens the next one, the revolution
/// it delivers holds the samples of the first packets in order, and the last
/// packet's samples are pending.
pub proof fn law_revolution_reads_back(
    state: DecoderState,
    opening: Seq<u8>,
    inner: Seq<Seq<u8>>,
    closing: Seq<u8>,
)
    requires
        state.carry.len() == 0,
        state.points.len() == 0,
        is_packet(opening),
        wire::checksum_holds(opening),
        wire::is_ring_start(opening),
        wire::sample_count(opening) > 0,
        forall|i: int|
            0 <= i < inner.len() ==> is_packet(#[trigger] inner[i]) && wire::checksum_holds(
                inner[i],
            ) && !wire::is_ring_start(inner[i]),
        is_packet(closing),
        wire::checksum_holds(closing),
        wire::is_ring_start(closing),
    ensures
        ({
            let (end, outcome) = decoder::take_bytes(state, opening + stream(inner) + closing);
            &&& outcome.revolution == Some(collected(wire::packet_points(opening), inner))
            &&& end == decoder::between_packets(
                Ring { awaited: false, points: wire::packet_points(closing) },
            )
            &&& !outcome.resync
        }),
{
    law_packet_is_framed(state, opening);
    let opened = decoder::take_bytes(state, opening).0;
    assert(opened.points == wire::packet_points(opening));
    law_chunking(state, opening, stream(inner));
    lemma_inner_packets(opened, inner);
    let filled = decoder::take_bytes(state, opening + stream(inner)).0;
    lemma_collected_keeps(opened.points, inner);
    law_chunking(state, opening + stream(inner), closing);
    law_packet_is_framed(filled, closing);
}

/// Packets that neither are a ring start nor arrive behind one leave no trace but the
/// corrupt ones' report.
proof fn lemma_awaiting_skips(packets: Seq<Seq<u8>>)
    requires
        forall|i: int|
            0 <= i < packets.len() ==> is_packet(#[trigger] packets[i]) && !(wire::checksum_holds(
                packets[i],
            ) && wire::is_ring_start(packets[i])),
    ensures
        ({
            let (end, outcome) = decoder::take_bytes(decoder::idle_state(), stream(packets));
            &&& end == decoder::idle_state()
            &&& outcome.revolution is None
        }),
    decreases packets.len(),
{
    if packets.len() > 0 {
        let inner = packets.drop_last();
        let last = packets.last();
        assert(last == packets[packets.len() - 1]);
        assert forall|i: int| 0 <= i < inner.len() implies is_packet(#[trigger] inner[i]) && !(
        wire::checksum_holds(inner[i]) && wire::is_ring_start(inner[i])) by {
            assert(inner[i] == packets[i]);
        }
        lemma_awaiting_skips(inner);
        law_chunking(decoder::idle_state(), stream(inner), last);
        law_packet_is_framed(decoder::idle_state(), last);
    }
}

/// No packet between a checksum mismatch and the next ring start is in any revolution:
/// whatever the decoder held before the corrupt packet and whatever packets follow it,
/// corrupt or not, once the next ring start is in nothing has been delivered and only
/// that packet's samples are pending.
pub proof fn law_nothing_before_a_ring_start_is_delivered(
    state: DecoderState,
    corrupt: Seq<u8>,
    skipped: Seq<Seq<u8>>,
    opening: Seq<u8>,
)
    requires
        state.carry.len() == 0,
        is_packet(corrupt),
        !wire::checksum_holds(corrupt),
        forall|i: int|
            0 <= i < skipped.len() ==> is_packet(#[trigger] skipped[i]) && !(wire::checksum_holds(
                skipped[i],
            ) && wire::is_ring_start(skipped[i])),
        is_packet(opening),
        wire::checksum_holds(opening),
        wire::is_ring_start(opening),
    ensures
        ({
            let (end, outcome) = decoder::take_bytes(state, corrupt + stream(skipped) + opening);
            &&& outcome.revolution is None
            &&& outcome.resync
            &&& end == decoder::between_packets(
                Ring { awaited: false, points: wire::packet_points(opening) },
            )
        }),
{
    law_packet_is_framed(state, corrupt);
    law_chunking(state, corrupt, stream(skipped));
    lemma_awaiting_skips(skipped);
    law_chunking(state, corrupt + stream(skipped), opening);
    law_packet_is_framed(decoder::idle_state(), opening);
}

/// A new decoder, and one that was told of lost bytes, delivers nothing that came before
/// the first ring start either.
pub proof fn law_first_revolution_begins_at_a_ring_start(skipped: Seq<Seq<u8>>, opening: Seq<u8>)
    requires
        forall|i: int|
            0 <= i < skipped.len() ==> is_packet(#[trigger] skipped[i]) && !(wire::checksum_holds(
                skipped[i],
            ) && wire::is_ring_start(skipped[i])),
        is_packet(opening),
        wire::checksum_holds(opening),
        wire::is_ring_start(opening),
    ensures
        ({
            let (end, outcome) = decoder::take_bytes(
                decoder::idle_state(),
                stream(skipped) + opening,
            );
            &&& outcome.revolution is None
            &&& end == decoder::between_packets(
                Ring { awaited: false, points: wire::packet_points(opening) },
            )
        }),
{
    lemma_awaiting_skips(skipped);
    law_chunking(decoder::idle_state(), stream(skipped), opening);
    law_packet_is_framed(decoder::idle_state(), opening);
}

/// Collecting more packets drops no point that is already there.
proof fn lemma_collected_keeps(points: Seq<Point>, packets: Seq<Seq<u8>>)
    requires
        0 < points.len() <= MAX_POINTS,
    ensures
        points.len() <= collected(points, packets).len() <= MAX_POINTS,
    decreases packets.len(),
{
    if packets.len() > 0 {
        lemma_collected_keeps(points, packets.drop_last());
    }
}

/// Whether a decoder's pending points fit a revolution and have bearings within
/// one turn.
pub open spec fn points_are_sound(points: Seq<Point>) -> bool {
    &&& points.len() <= MAX_POINTS
    &&& forall|i: int|
        0 <= i < points.len() ==> 0 <= (#[trigger] points[i]).angle_udeg < FULL_CIRCLE_UDEG
}

/// Every revolution the decoder delivers, and every one in progress, fits its
/// buffer and has bearings within one turn; and while a ring start is awaited no
/// points are pending.
pub proof fn law_points_stay_sound(state: DecoderState, bytes: Seq<u8>)
    requires
        points_are_sound(state.points),
        state.awaiting_ring_start ==> state.points.len() == 0,
    ensures
        points_are_sound(decoder::take_bytes(state, bytes).0.points),
        decoder::take_bytes(state, bytes).0.awaiting_ring_start ==> decoder::take_bytes(
            state,
            bytes,
        ).0.points.len() == 0,
        decoder::take_bytes(state, bytes).1.revolution matches Some(points) ==> points_are_sound(
            points,
        ),
    decreases bytes.len(),
{
    if bytes.len() > 0 {
        law_points_stay_sound(state, bytes.drop_last());
        let before = decoder::take_bytes(state, bytes.drop_last()).0;
        let carry = before.carry.push(bytes.last());
        assert forall|i: int| 0 <= i < wire::packet_points(carry).len() implies 0 <= (
        #[trigger] wire::packet_points(carry)[i]).angle_udeg < FULL_CIRCLE_UDEG by {
            wire::law_bearing_is_normalised(carry, i);
        }
    }
}

/// A packet begins with the bytes `AA 55` and with nothing else: they start one in a
/// decoder between packets, and a byte that is neither starts none.
pub proof fn law_header_starts_a_packet(state: DecoderState, byte: u8)
    requires
        state.carry.len() == 0,
    ensures
        decoder::take_bytes(state, seq![0xAAu8, 0x55u8]).0.carry == seq![0xAAu8, 0x55u8],
        byte != 0x55 ==> decoder::take_byte(state, byte).0.carry.len() == 0,
        decoder::take_byte(state, byte).0.carry.len() > 0 <==> state.seen_header_0 && byte == 0x55,
{
    reveal_with_fuel(decoder::take_bytes, 3);
    let header = seq![0xAAu8, 0x55u8];
    assert(header.drop_last() =~= seq![0xAAu8]);
    assert(header.drop_last().drop_last() =~= Seq::<u8>::empty());
}

/// Of several revolutions the last one counts, and no corrupt packet is forgotten.
pub proof fn law_last_revolution_counts(state: DecoderState, a: Seq<u8>, b: Seq<u8>)
    ensures
        ({
            let (middle, first) = decoder::take_bytes(state, a);
            let second = decoder::take_bytes(middle, b).1;
            let both = decoder::take_bytes(state, a + b).1;
            &&& second.revolution is Some ==> both.revolution == second.revolution
            &&& second.revolution is None ==> both.revolution == first.revolution
            &&& both.resync <==> first.resync || second.resync
        }),
{
    law_chunking(state, a, b);
}

/// A revolution comes before a corrupt packet in what is reported, and nothing is reported
/// where neither came.
pub proof fn law_verdict_names_what_happened(outcome: Outcome)
    ensures
        decoder::verdict(outcome) is Revolution <==> outcome.revolution is Some,
        decoder::verdict(outcome) is Resync <==> outcome.revolution is None && outcome.resync,
        decoder::verdict(outcome) is InProgress <==> outcome.revolution is None
            && !outcome.resync,
{
}

/// A revolution holds its first four hundred points.
pub proof fn law_revolution_holds_its_first_points(points: Seq<Point>, i: int)
    ensures
        decoder::capped(points).len() <= 400,
        points.len() <= 400 ==> decoder::capped(points) == points,
        points.len() > 400 ==> decoder::capped(points).len() == 400,
        0 <= i < decoder::capped(points).len() ==> decoder::capped(points)[i] == points[i],
{
}

/// A delivered revolution is written over the front of the scan, and what lies behind it
/// stays.
pub proof fn law_delivery_overwrites_the_front(buffer: Seq<Point>, revolution: Seq<Point>, i: int)
    requires
        0 <= i < buffer.len(),
    ensures
        ({
            let after = decoder::delivered(
                buffer,
                Outcome { revolution: Some(revolution), resync: false },
            );
            &&& after.len() == buffer.len()
            &&& i < revolution.len() ==> after[i] == revolution[i]
            &&& i >= revolution.len() ==> after[i] == buffer[i]
        }),
{
}

/// Whatever bytes are pushed, a decoder between packets that sees a whole revolution go by
/// reports it and leaves its points in the scan, in order.
pub proof fn law_pushed_revolution_reads_back(
    receiver: &mut Decoder,
    bytes: &[u8],
    scan: &mut Scan<SCAN_CAPACITY>,
    event: Decode,
    opening: Seq<u8>,
    inner: Seq<Seq<u8>>,
    closing: Seq<u8>,
)
    requires
        call_ensures(Decoder::push, (receiver, bytes, scan), event),
        bytes@ == opening + stream(inner) + closing,
        old(receiver)@.carry.len() == 0,
        old(receiver)@.points.len() == 0,
        is_packet(opening),
        wire::checksum_holds(opening),
        wire::is_ring_start(opening),
        wire::sample_count(opening) > 0,
        forall|i: int|
            0 <= i < inner.len() ==> is_packet(#[trigger] inner[i]) && wire::checksum_holds(
                inner[i],
            ) && !wire::is_ring_start(inner[i]),
        is_packet(closing),
        wire::checksum_holds(closing),
        wire::is_ring_start(closing),
    ensures
        event is Revolution,
        final(scan)@ == collected(wire::packet_points(opening), inner),
        final(receiver)@.points == wire::packet_points(closing),
{
    law_revolution_reads_back(old(receiver)@, opening, inner, closing);
}

/// Whatever a decoder holds, a corrupt packet pushed to it between two packets is reported,
/// leaves the scan alone and makes it wait for a ring start.
pub proof fn law_pushed_corruption_is_reported(
    receiver: &mut Decoder,
    bytes: &[u8],
    scan: &mut Scan<SCAN_CAPACITY>,
    event: Decode,
)
    requires
        call_ensures(Decoder::push, (receiver, bytes, scan), event),
        old(receiver)@.carry.len() == 0,
        is_packet(bytes@),
        !wire::checksum_holds(bytes@),
    ensures
        event is Resync,
        *final(scan) == *old(scan),
        final(receiver)@.awaiting_ring_start,
        final(receiver)@.points.len() == 0,
{
    law_corrupt_packet_discards_the_revolution(old(receiver)@, bytes@);
}

} // verus!
