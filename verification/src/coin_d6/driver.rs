//! The decisions of the device lifecycle: the device-info handshake, the ingest
//! loop and the bearing correction.
//!
//! Reads and writes happen outside. The caller reads what is asked for, hands the
//! bytes or the failure in, and does what comes back. There is no wall clock here:
//! the bounds on waiting count bytes.

use vstd::prelude::*;

use crate::coin_d6::decoder;
use crate::coin_d6::decoder::{Decode, Decoder};
use crate::coin_d6::post_processing;
use crate::coin_d6::types::{Config, Error, Point, Scan, FULL_CIRCLE_UDEG, SCAN_CAPACITY};
use crate::coin_d6::wire;

verus! {

/// First byte of the device-info header.
pub const DEVICE_INFO_HEADER_0: u8 = 0xA5;

/// Second byte of the device-info header.
pub const DEVICE_INFO_HEADER_1: u8 = 0x5A;

/// The device-info frame type.
pub const DEVICE_INFO_TYPE: u8 = 0x01;

/// How often an interrupted or malformed device-info frame is retried.
pub const DEVICE_INFO_RETRIES: u32 = 16;

/// Bytes read without a ring start before giving up.
pub const RING_START_WATCHDOG_BYTES: usize = 131_072;

/// Bytes read without a device-info frame before giving up.
pub const DEVICE_INFO_WATCHDOG_BYTES: usize = 1_024;

/// Largest piece of the data area read at once.
pub const DATA_CHUNK: usize = 32;

/// Bytes of the length, checksum and type fields.
pub const FIXED_LEN: usize = 5;

/// The vendor start command as transmitted.
pub fn start_command() -> (command: [u8; 4])
    ensures
        command@ == seq![0xAAu8, 0x55u8, 0xF0u8, 0x0Fu8],
{
    let command = [0xAA, 0x55, 0xF0, 0x0F];
    assert(command@ =~= seq![0xAAu8, 0x55u8, 0xF0u8, 0x0Fu8]);
    command
}

/// The vendor stop command as transmitted.
pub fn stop_command() -> (command: [u8; 4])
    ensures
        command@ == seq![0xAAu8, 0x55u8, 0xF5u8, 0x0Au8],
{
    let command = [0xAA, 0x55, 0xF5, 0x0A];
    assert(command@ =~= seq![0xAAu8, 0x55u8, 0xF5u8, 0x0Au8]);
    command
}

/// What the bytes of a handshake amount to so far.
#[derive(Debug, Clone, Copy, PartialEq, Eq, Structural)]
pub enum FrameStep {
    /// Read exactly this many more bytes.
    Need(usize),
    /// A whole frame arrived and is valid.
    Valid,
    /// A whole frame arrived with a wrong type or checksum.
    Malformed,
    /// Too many bytes went by without a frame.
    Overrun,
}

/// Where the first device-info header ends, if there is one.
pub open spec fn header_end(bytes: Seq<u8>) -> Option<int>
    decreases bytes.len(),
{
    if bytes.len() < 2 {
        None
    } else if header_end(bytes.drop_last()) is Some {
        header_end(bytes.drop_last())
    } else if bytes[bytes.len() - 2] == DEVICE_INFO_HEADER_0 && bytes.last()
        == DEVICE_INFO_HEADER_1 {
        Some(bytes.len() as int)
    } else {
        None
    }
}

/// The sum of the bytes.
pub open spec fn byte_sum(bytes: Seq<u8>) -> nat
    decreases bytes.len(),
{
    if bytes.len() == 0 {
        0
    } else {
        byte_sum(bytes.drop_last()) + bytes.last() as nat
    }
}

/// The length of the data area a frame announces, `h` being where its header ends.
pub open spec fn data_len(bytes: Seq<u8>, h: int) -> int {
    wire::word(bytes[h], bytes[h + 1]) as int
}

/// The sum of every byte of the frame but the checksum field.
pub open spec fn frame_sum(bytes: Seq<u8>, h: int) -> int {
    DEVICE_INFO_HEADER_0 + DEVICE_INFO_HEADER_1 + bytes[h] + bytes[h + 1] + bytes[h + 4] + byte_sum(
        bytes.skip(h + FIXED_LEN),
    )
}

/// Whether the frame whose header ends at `h` has the right type and checksum.
pub open spec fn frame_is_valid(bytes: Seq<u8>, h: int) -> bool {
    &&& bytes[h + 4] == DEVICE_INFO_TYPE
    &&& frame_sum(bytes, h) % 65536 == wire::word(bytes[h + 2], bytes[h + 3])
}

/// What all the bytes read during one attempt amount to.
pub open spec fn frame_step(bytes: Seq<u8>) -> FrameStep {
    if bytes.len() > DEVICE_INFO_WATCHDOG_BYTES {
        FrameStep::Overrun
    } else {
        match header_end(bytes) {
            None => FrameStep::Need(1),
            Some(h) => if bytes.len() < h + FIXED_LEN {
                FrameStep::Need(FIXED_LEN)
            } else {
                let missing = h + FIXED_LEN + data_len(bytes, h) - bytes.len();
                if missing > 0 {
                    FrameStep::Need(
                        if missing < DATA_CHUNK {
                            missing as usize
                        } else {
                            DATA_CHUNK
                        },
                    )
                } else if frame_is_valid(bytes, h) {
                    FrameStep::Valid
                } else {
                    FrameStep::Malformed
                }
            },
        }
    }
}

/// Where in the frame one attempt has got to.
#[derive(Debug, Clone, Copy, PartialEq, Eq, Structural)]
enum Progress {
    /// Looking for the header; whether the last byte may have begun it.
    Header { seen_header_0: bool },
    /// The header was read.
    Fixed,
    /// Reading the data area.
    Data { remaining: usize, sum: u16, expected: u16, kind: u8 },
}

/// One attempt at reading the device-info frame.
///
/// The frame is `A5 5A`, a two-byte length, a two-byte checksum, a type byte and
/// the data area. The motor sends speed-adjust bytes while it spins up, so bytes
/// before the header are skipped.
pub struct DeviceInfoReader {
    progress: Progress,
    consumed: usize,
    taken: Ghost<Seq<u8>>,
}

impl DeviceInfoReader {
    /// The bytes read so far.
    pub closed spec fn view(&self) -> Seq<u8> {
        self.taken@
    }

    /// The reader's progress agrees with the bytes read.
    pub closed spec fn wf(&self) -> bool {
        let bytes = self.taken@;
        &&& self.consumed == bytes.len()
        &&& self.consumed <= DEVICE_INFO_WATCHDOG_BYTES
        &&& match self.progress {
            Progress::Header { seen_header_0 } => {
                &&& header_end(bytes) is None
                &&& seen_header_0 == (bytes.len() > 0 && bytes.last() == DEVICE_INFO_HEADER_0)
            },
            Progress::Fixed => header_end(bytes) == Some(bytes.len() as int),
            Progress::Data { remaining, sum, expected, kind } => {
                &&& header_end(bytes) matches Some(h)
                &&& 2 <= h
                &&& h + FIXED_LEN <= bytes.len()
                &&& 0 < remaining
                &&& remaining == h + FIXED_LEN + data_len(bytes, h) - bytes.len()
                &&& sum == frame_sum(bytes, h) % 65536
                &&& expected == wire::word(bytes[h + 2], bytes[h + 3])
                &&& kind == bytes[h + 4]
            },
        }
    }

    /// An attempt that has read nothing; it needs one byte first.
    pub fn new() -> (reader: Self)
        ensures
            reader.wf(),
            reader@ == Seq::<u8>::empty(),
            frame_step(reader@) == FrameStep::Need(1),
    {
        DeviceInfoReader {
            progress: Progress::Header { seen_header_0: false },
            consumed: 0,
            taken: Ghost(Seq::empty()),
        }
    }

    /// Take the bytes that were asked for.
    pub fn supply(&mut self, bytes: &[u8]) -> (step: FrameStep)
        requires
            old(self).wf(),
            frame_step(old(self)@) == FrameStep::Need(bytes@.len() as usize),
        ensures
            final(self)@ == old(self)@ + bytes@,
            step == frame_step(final(self)@),
            step is Need ==> final(self).wf(),
    {
        let ghost before = self.taken@;
        let ghost after = before + bytes@;
        self.taken = Ghost(after);
        self.consumed += bytes.len();
        proof {
            lemma_header_end_is_stable(before, bytes@);
            lemma_header_end_bounds(before);
        }
        if self.consumed > DEVICE_INFO_WATCHDOG_BYTES {
            return FrameStep::Overrun;
        }
        match self.progress {
            Progress::Header { seen_header_0 } => {
                let byte = bytes[0];
                assert(after =~= before.push(byte));
                assert(after.drop_last() =~= before);
                if byte == DEVICE_INFO_HEADER_1 && seen_header_0 {
                    self.progress = Progress::Fixed;
                    FrameStep::Need(FIXED_LEN)
                } else {
                    self.progress = Progress::Header {
                        seen_header_0: byte == DEVICE_INFO_HEADER_0,
                    };
                    FrameStep::Need(1)
                }
            },
            Progress::Fixed => {
                let ghost h = before.len() as int;
                assert(after.skip(h) =~= bytes@);
                assert(after.skip(h + FIXED_LEN) =~= Seq::<u8>::empty());
                let len: usize = bytes[1] as usize * 256 + bytes[0] as usize;
                let expected: u16 = bytes[3] as u16 * 256 + bytes[2] as u16;
                let sum: u16 = DEVICE_INFO_HEADER_0 as u16 + DEVICE_INFO_HEADER_1 as u16
                    + bytes[0] as u16 + bytes[1] as u16 + bytes[4] as u16;
                let kind = bytes[4];
                assert(sum == frame_sum(after, h) % 65536);
                self.progress = Progress::Data { remaining: len, sum, expected, kind };
                Self::conclude(len, sum, expected, kind)
            },
            Progress::Data { remaining, sum, expected, kind } => {
                let ghost h = header_end(before)->0;
                assert(after.take(before.len() as int) =~= before);
                assert(after.skip(h + FIXED_LEN) =~= before.skip(h + FIXED_LEN) + bytes@);
                let mut total = sum;
                let mut i: usize = 0;
                assert(before.skip(h + FIXED_LEN) + bytes@.take(0) =~= before.skip(h + FIXED_LEN));
                while i < bytes.len()
                    invariant
                        i <= bytes@.len(),
                        total == (frame_sum(before, h) - byte_sum(before.skip(h + FIXED_LEN))
                            + byte_sum(before.skip(h + FIXED_LEN) + bytes@.take(i as int))) % 65536,
                    decreases bytes@.len() - i,
                {
                    let ghost data = before.skip(h + FIXED_LEN) + bytes@.take(i + 1);
                    assert(data.drop_last() =~= before.skip(h + FIXED_LEN) + bytes@.take(i as int));
                    total = total.wrapping_add(bytes[i] as u16);
                    i += 1;
                }
                assert(bytes@.take(i as int) =~= bytes@);
                let left: usize = remaining - bytes.len();
                assert(total == frame_sum(after, h) % 65536);
                self.progress = Progress::Data { remaining: left, sum: total, expected, kind };
                Self::conclude(left, total, expected, kind)
            },
        }
    }

    /// What to do once the fixed fields are known and `remaining` data bytes are
    /// missing.
    fn conclude(remaining: usize, sum: u16, expected: u16, kind: u8) -> (step: FrameStep)
        ensures
            step == (if remaining > 0 {
                FrameStep::Need(
                    if remaining < DATA_CHUNK {
                        remaining
                    } else {
                        DATA_CHUNK
                    },
                )
            } else if kind == DEVICE_INFO_TYPE && sum == expected {
                FrameStep::Valid
            } else {
                FrameStep::Malformed
            }),
    {
        if remaining > 0 {
            FrameStep::Need(
                if remaining < DATA_CHUNK {
                    remaining
                } else {
                    DATA_CHUNK
                },
            )
        } else if kind == DEVICE_INFO_TYPE && sum == expected {
            FrameStep::Valid
        } else {
            FrameStep::Malformed
        }
    }
}

/// The first header stays where it is when more bytes arrive.
proof fn lemma_header_end_is_stable(before: Seq<u8>, more: Seq<u8>)
    ensures
        header_end(before) is Some ==> header_end(before + more) == header_end(before),
    decreases more.len(),
{
    if more.len() == 0 {
        assert(before + more =~= before);
    } else {
        lemma_header_end_is_stable(before, more.drop_last());
        assert((before + more).drop_last() =~= before + more.drop_last());
        lemma_header_end_bounds(before);
    }
}

proof fn lemma_header_end_bounds(bytes: Seq<u8>)
    ensures
        header_end(bytes) matches Some(h) ==> 2 <= h <= bytes.len(),
    decreases bytes.len(),
{
    if bytes.len() > 0 {
        lemma_header_end_bounds(bytes.drop_last());
    }
}

/// A frame is found behind any bytes that hold no header: the spin-up noise in
/// front of it only costs watchdog bytes.
pub proof fn law_frame_is_found_behind_noise(noise: Seq<u8>, rest: Seq<u8>)
    requires
        header_end(noise) is None,
    ensures
        header_end(noise + seq![DEVICE_INFO_HEADER_0, DEVICE_INFO_HEADER_1] + rest) == Some(
            noise.len() as int + 2,
        ),
{
    let begun = noise.push(DEVICE_INFO_HEADER_0);
    let headed = begun.push(DEVICE_INFO_HEADER_1);
    assert(begun.drop_last() =~= noise);
    assert(headed.drop_last() =~= begun);
    assert(header_end(begun) is None);
    assert(header_end(headed) == Some(noise.len() as int + 2));
    assert(noise + seq![DEVICE_INFO_HEADER_0, DEVICE_INFO_HEADER_1] =~= headed);
    lemma_header_end_is_stable(headed, rest);
}

/// What follows one attempt at the device-info handshake.
#[derive(Debug, PartialEq, Eq, Structural)]
pub enum Handshake<UartE, PinE> {
    /// Try again with this many retries left.
    Again(u32),
    /// The handshake is over.
    Over(Result<(), Error<UartE, PinE>>),
}

/// Whether an attempt ended in a way the power-on transition can explain.
pub open spec fn glitched<UartE, PinE>(attempt: Result<(), Error<UartE, PinE>>) -> bool {
    match attempt {
        Err(Error::Uart(_)) => true,
        Err(Error::Resync) => true,
        _ => false,
    }
}

/// Decide what follows an attempt at the device-info handshake.
///
/// The power-on transition glitches the receive line, so a UART error or a
/// malformed frame is retried while retries are left.
pub fn after_attempt<UartE, PinE>(
    retries: u32,
    attempt: Result<(), Error<UartE, PinE>>,
) -> (next: Handshake<UartE, PinE>)
    ensures
        glitched(attempt) && retries > 0 ==> next == Handshake::<UartE, PinE>::Again(
            (retries - 1) as u32,
        ),
        !(glitched(attempt) && retries > 0) ==> next == Handshake::Over(attempt),
{
    let glitch = match &attempt {
        Err(Error::Uart(_)) => true,
        Err(Error::Resync) => true,
        _ => false,
    };
    if glitch && retries > 0 {
        Handshake::Again(retries - 1)
    } else {
        Handshake::Over(attempt)
    }
}

/// What follows one read of the ingest loop.
#[derive(Debug, Clone, Copy, PartialEq, Eq, Structural)]
pub enum ReadStep {
    /// A revolution was assembled.
    Revolution,
    /// Read on.
    Continue,
    /// Give up: the stream ended or the watchdog ran out.
    Timeout,
}

/// The driver's state between reads.
pub struct CoinD6 {
    decoder: Decoder,
    config: Config,
    consumed: usize,
}

impl CoinD6 {
    /// The decoder is sound and the watchdog has not run out.
    pub closed spec fn wf(&self) -> bool {
        self.decoder.wf() && self.consumed <= RING_START_WATCHDOG_BYTES
    }

    /// What the decoder remembers.
    pub closed spec fn decoding(&self) -> decoder::DecoderState {
        self.decoder@
    }

    /// The driver configuration.
    pub closed spec fn config(&self) -> Config {
        self.config
    }

    /// Bytes counted against the watchdog for the revolution in progress.
    pub closed spec fn consumed(&self) -> nat {
        self.consumed as nat
    }

    /// A driver that has read nothing.
    pub fn new(config: Config) -> (driver: Self)
        ensures
            driver.wf(),
            driver.decoding() == decoder::idle_state(),
            driver.config() == config,
            driver.consumed() == 0,
    {
        CoinD6 { decoder: Decoder::new(), config, consumed: 0 }
    }

    /// Start waiting for a revolution: the watchdog starts afresh, the decoder
    /// keeps what it has.
    pub fn begin_revolution(&mut self)
        requires
            old(self).wf(),
        ensures
            final(self).wf(),
            final(self).decoding() == old(self).decoding(),
            final(self).config() == old(self).config(),
            final(self).consumed() == 0,
    {
        self.consumed = 0;
    }

    /// A read failed: bytes were lost, so the decoder resynchronises. The missed
    /// chunk counts toward the watchdog, so a dead UART cannot be read forever.
    pub fn on_read_error(&mut self, ingest_len: usize) -> (step: ReadStep)
        requires
            old(self).wf(),
            ingest_len > 0,
        ensures
            step == (if old(self).consumed() + ingest_len > RING_START_WATCHDOG_BYTES {
                ReadStep::Timeout
            } else {
                ReadStep::Continue
            }),
            final(self).decoding() == decoder::idle_state(),
            final(self).config() == old(self).config(),
            step is Continue ==> final(self).wf() && final(self).consumed() == old(self).consumed()
                + ingest_len,
    {
        self.decoder.resync();
        if ingest_len > RING_START_WATCHDOG_BYTES - self.consumed {
            return ReadStep::Timeout;
        }
        self.consumed += ingest_len;
        ReadStep::Continue
    }

    /// A read brought `bytes`; none at all means the stream ended.
    ///
    /// A checksum mismatch has already reset the decoder, so reading goes on rather
    /// than failing on one corrupt packet.
    pub fn on_read(&mut self, bytes: &[u8], scan: &mut Scan<SCAN_CAPACITY>) -> (step: ReadStep)
        requires
            old(self).wf(),
        ensures
            ({
                let (state, outcome) = decoder::take_bytes(old(self).decoding(), bytes@);
                &&& final(self).decoding() == state
                &&& final(self).config() == old(self).config()
                &&& step == (if bytes@.len() == 0 {
                    ReadStep::Timeout
                } else if outcome.revolution is Some {
                    ReadStep::Revolution
                } else if old(self).consumed() + bytes@.len() > RING_START_WATCHDOG_BYTES {
                    ReadStep::Timeout
                } else {
                    ReadStep::Continue
                })
                &&& step is Continue ==> final(self).wf() && final(self).consumed() == old(
                    self,
                ).consumed() + bytes@.len()
                &&& step is Revolution ==> final(self).wf()
                &&& outcome.revolution is None ==> *final(scan) == *old(scan)
                &&& outcome.revolution matches Some(points) ==> final(scan).wf() && final(scan)@
                    == points
                &&& final(scan).points@ == decoder::filled(
                    old(self).decoding(),
                    bytes@,
                    old(scan).points@,
                )
            }),
    {
        if bytes.len() == 0 {
            return ReadStep::Timeout;
        }
        match self.decoder.push(bytes, scan) {
            Decode::Revolution => {
                return ReadStep::Revolution;
            },
            Decode::Resync | Decode::InProgress => {},
        }
        if bytes.len() > RING_START_WATCHDOG_BYTES - self.consumed {
            return ReadStep::Timeout;
        }
        self.consumed += bytes.len();
        ReadStep::Continue
    }

    /// Apply the distance-dependent bearing corrections in place, if enabled.
    ///
    /// `corrections_udeg` holds one correction per point of the scan, that of the
    /// point's range. A point without a return has no correction and keeps its
    /// bearing.
    pub fn correct(&self, scan: &mut Scan<SCAN_CAPACITY>, corrections_udeg: &Vec<i32>)
        requires
            old(scan).wf(),
            corrections_udeg@.len() == old(scan).len,
        ensures
            final(scan).wf(),
            final(scan)@ == (if self.config().angle_correction {
                corrected(old(scan)@, corrections_udeg@)
            } else {
                old(scan)@
            }),
            forall|i: int|
                old(scan).len <= i < SCAN_CAPACITY
                    ==> #[trigger] final(scan).points@[i] == old(scan).points@[i],
    {
        if !self.config.angle_correction {
            return;
        }
        let ghost before = scan@;
        let mut i: usize = 0;
        while i < scan.len
            invariant
                i <= scan.len,
                scan.wf(),
                before.len() == scan.len,
                corrections_udeg@.len() == scan.len,
                forall|j: int|
                    0 <= j < i ==> #[trigger] scan.points@[j] == corrected_point(
                        before[j],
                        corrections_udeg@[j],
                    ),
                forall|j: int| i <= j < scan.len ==> #[trigger] scan.points@[j] == before[j],
                scan.len == old(scan).len,
                forall|j: int|
                    scan.len <= j < SCAN_CAPACITY
                        ==> #[trigger] scan.points@[j] == old(scan).points@[j],
            decreases scan.len - i,
        {
            let mut point = scan.points[i];
            if point.distance_mm.is_some() {
                point.angle_udeg = corrected_angle(point.angle_udeg, corrections_udeg[i]);
            }
            scan.points[i] = point;
            i += 1;
        }
        assert(scan@ =~= corrected(before, corrections_udeg@));
    }
}

/// A point with its bearing corrected; a point without a return stays as it is.
pub open spec fn corrected_point(point: Point, correction_udeg: i32) -> Point {
    if point.distance_mm is Some {
        Point {
            angle_udeg: ((point.angle_udeg + correction_udeg) % (FULL_CIRCLE_UDEG as int)) as i64,
            ..point
        }
    } else {
        point
    }
}

/// Points with their bearings corrected.
pub open spec fn corrected(points: Seq<Point>, corrections_udeg: Seq<i32>) -> Seq<Point> {
    Seq::new(points.len(), |i: int| corrected_point(points[i], corrections_udeg[i]))
}

/// A bearing moved by a correction, within one turn.
pub fn corrected_angle(angle_udeg: i64, correction_udeg: i32) -> (angle: i64)
    ensures
        angle == (angle_udeg + correction_udeg) % (FULL_CIRCLE_UDEG as int),
        0 <= angle < FULL_CIRCLE_UDEG,
{
    let bearing: i64 = post_processing::normalise_angle(angle_udeg) as i64;
    post_processing::normalise_angle(bearing + correction_udeg as i64) as i64
}

/// What a run of reads counts against the watchdog.
pub open spec fn drained(chunks: Seq<nat>) -> nat
    decreases chunks.len(),
{
    if chunks.len() == 0 {
        0
    } else {
        drained(chunks.drop_last()) + chunks.last()
    }
}

/// Waiting for a revolution ends: reads that each bring a byte, or fail on a chunk
/// that has room for one, cannot go on past the watchdog.
pub proof fn law_ingest_is_bounded(chunks: Seq<nat>)
    requires
        forall|i: int| 0 <= i < chunks.len() ==> #[trigger] chunks[i] > 0,
        chunks.len() > RING_START_WATCHDOG_BYTES,
    ensures
        drained(chunks) > RING_START_WATCHDOG_BYTES,
{
    lemma_drained_at_least(chunks);
}

proof fn lemma_drained_at_least(chunks: Seq<nat>)
    requires
        forall|i: int| 0 <= i < chunks.len() ==> #[trigger] chunks[i] > 0,
    ensures
        drained(chunks) >= chunks.len(),
    decreases chunks.len(),
{
    if chunks.len() > 0 {
        let rest = chunks.drop_last();
        assert forall|i: int| 0 <= i < rest.len() implies #[trigger] rest[i] > 0 by {
            assert(rest[i] == chunks[i]);
        }
        lemma_drained_at_least(rest);
        assert(chunks.last() == chunks[chunks.len() - 1]);
    }
}

/// A correction turns a bearing by itself, whole turns aside, and leaves the range and the
/// intensity; a sample without a return is left as it is. Correcting back gives the bearing
/// within one turn.
pub proof fn law_correction_turns_the_bearing(point: Point, correction_udeg: i32)
    requires
        correction_udeg > i32::MIN,
    ensures
        ({
            let after = corrected_point(point, correction_udeg);
            let back = corrected_point(after, (-correction_udeg) as i32);
            &&& after.distance_mm == point.distance_mm
            &&& after.intensity == point.intensity
            &&& point.distance_mm is None ==> after == point
            &&& point.distance_mm is Some ==> {
                &&& 0 <= after.angle_udeg < 360_000_000
                &&& (after.angle_udeg - point.angle_udeg - correction_udeg) % 360_000_000 == 0
                &&& back.angle_udeg == point.angle_udeg as int % 360_000_000
            }
        }),
{
}

/// Corrections go to the points they are for, in order, and neither add nor drop any.
pub proof fn law_corrections_keep_their_places(
    points: Seq<Point>,
    corrections_udeg: Seq<i32>,
    i: int,
)
    requires
        0 <= i < points.len(),
        points.len() == corrections_udeg.len(),
    ensures
        corrected(points, corrections_udeg).len() == points.len(),
        corrected(points, corrections_udeg)[i] == corrected_point(points[i], corrections_udeg[i]),
{
}

/// A frame that keeps to the form is accepted: behind any bytes without a header, the
/// header, the length of the data, the sum of all other bytes, the type and the data.
pub proof fn law_well_formed_frame_is_accepted(noise: Seq<u8>, fields: Seq<u8>, data: Seq<u8>)
    requires
        header_end(noise) is None,
        fields.len() == 5,
        noise.len() + 7 + data.len() <= 1_024,
        fields[0] + 256 * fields[1] == data.len(),
        fields[4] == 1,
        (0xA5 + 0x5A + fields[0] + fields[1] + fields[4] + byte_sum(data)) % 65536 == fields[2]
            + 256 * fields[3],
    ensures
        frame_step(noise + seq![0xA5u8, 0x5Au8] + (fields + data)) == FrameStep::Valid,
{
    law_frame_is_found_behind_noise(noise, fields + data);
    let bytes = noise + seq![0xA5u8, 0x5Au8] + (fields + data);
    let h = noise.len() as int + 2;
    assert(bytes.skip(h + FIXED_LEN) =~= data);
    assert(bytes[h] == fields[0] && bytes[h + 1] == fields[1] && bytes[h + 2] == fields[2] && bytes[h
        + 3] == fields[3] && bytes[h + 4] == fields[4]);
}

/// A whole frame of another type or with another sum is malformed, and one that is not
/// whole yet is read on, never past its end.
pub proof fn law_other_frames_are_refused(bytes: Seq<u8>, h: int)
    requires
        header_end(bytes) == Some(h),
        bytes.len() <= 1_024,
        bytes.len() >= h + 5,
    ensures
        ({
            let whole = h + 5 + bytes[h] + 256 * bytes[h + 1];
            &&& bytes.len() >= whole && bytes[h + 4] != 1 ==> frame_step(bytes)
                == FrameStep::Malformed
            &&& bytes.len() >= whole && (0xA5 + 0x5A + bytes[h] + bytes[h + 1] + bytes[h + 4]
                + byte_sum(bytes.skip(h + 5))) % 65536 != bytes[h + 2] + 256 * bytes[h + 3]
                ==> frame_step(bytes) == FrameStep::Malformed
            &&& bytes.len() < whole ==> (frame_step(bytes) matches FrameStep::Need(count) && 0
                < count <= 32 && bytes.len() + count <= whole)
        }),
{
}

/// The commands begin with the packet header and differ in what they ask for; each of
/// their last bytes is the complement of the one before it.
pub proof fn law_commands_are_told_apart(start: [u8; 4], stop: [u8; 4])
    requires
        call_ensures(start_command, (), start),
        call_ensures(stop_command, (), stop),
    ensures
        start@[0] == 0xAA && start@[1] == 0x55,
        stop@[0] == 0xAA && stop@[1] == 0x55,
        start@[2] == 0xF0 && stop@[2] == 0xF5,
        start@[2] + start@[3] == 255,
        stop@[2] + stop@[3] == 255,
{
}

/// A read either delivers a revolution or is counted against the watchdog of 128 kibibytes;
/// no byte at all ends the wait, and so does the byte too many.
pub proof fn law_reads_are_watched(
    driver: &mut CoinD6,
    bytes: &[u8],
    scan: &mut Scan<SCAN_CAPACITY>,
    step: ReadStep,
)
    requires
        call_ensures(CoinD6::on_read, (driver, bytes, scan), step),
    ensures
        ({
            let outcome = decoder::take_bytes(old(driver).decoding(), bytes@).1;
            let total = old(driver).consumed() + bytes@.len();
            &&& step is Revolution <==> bytes@.len() > 0 && outcome.revolution is Some
            &&& step is Continue <==> bytes@.len() > 0 && outcome.revolution is None && total
                <= 131_072
            &&& step is Timeout <==> bytes@.len() == 0 || (outcome.revolution is None && total
                > 131_072)
            &&& step is Continue ==> final(driver).consumed() == total
            &&& step is Revolution ==> outcome.revolution == Some(final(scan)@)
            &&& step !is Revolution ==> *final(scan) == *old(scan) || bytes@.len() == 0
        }),
{
}

/// A failed read makes the decoder wait for a ring start and counts its chunk against the
/// same watchdog.
pub proof fn law_failed_reads_are_watched(driver: &mut CoinD6, ingest_len: usize, step: ReadStep)
    requires
        call_ensures(CoinD6::on_read_error, (driver, ingest_len), step),
    ensures
        final(driver).decoding().awaiting_ring_start,
        final(driver).decoding().points.len() == 0,
        step is Continue <==> old(driver).consumed() + ingest_len <= 131_072,
        step is Timeout <==> old(driver).consumed() + ingest_len > 131_072,
        step is Continue ==> final(driver).consumed() == old(driver).consumed() + ingest_len,
{
}

/// A search for the device information gives up after a kibibyte.
pub proof fn law_search_is_bounded(bytes: Seq<u8>)
    ensures
        frame_step(bytes) is Overrun <==> bytes.len() > 1_024,
{
}

/// A handshake that a glitch spoilt is tried again as long as a try is left; whatever else
/// came of it stands.
pub proof fn law_glitches_are_retried<UartE, PinE>(
    retries: u32,
    attempt: Result<(), Error<UartE, PinE>>,
    next: Handshake<UartE, PinE>,
)
    requires
        call_ensures(after_attempt::<UartE, PinE>, (retries, attempt), next),
    ensures
        next matches Handshake::Again(left) ==> left + 1 == retries && attempt is Err,
        retries == 0 || attempt is Ok ==> next == Handshake::<UartE, PinE>::Over(attempt),
        attempt matches Err(Error::Resync) ==> (next is Again <==> retries > 0),
{
}

} // verus!
