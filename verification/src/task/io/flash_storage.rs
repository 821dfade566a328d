//! Persistent calibration data: the storage keys, the stored bytes, and what the
//! storage task does with an answer of the flash.
//!
//! The factors are stored as raw 32-bit words, little-endian; what a word stands for
//! is the business of whoever computes with it. Reads and writes of the flash itself
//! happen outside.

use vstd::prelude::*;

use crate::system::event::Events;
use crate::system::state::{CalibrationState, CalibrationStatus};
use crate::task::motor_driver::{MotorCalibration, UNIT_FACTOR_PPM};

verus! {

/// Which calibration data is meant.
#[derive(Debug, Clone, Copy, PartialEq, Eq, Structural)]
pub enum CalibrationKind {
    /// Motor calibration factors.
    Motor,
    /// IMU calibration flags.
    ImuFlags,
    /// Distance calibration factor.
    Distance,
}

/// IMU calibration completion flags.
#[derive(Debug, Clone, Copy, PartialEq, Eq, Structural)]
pub struct ImuCalibrationFlags {
    /// Whether the magnetometer was calibrated.
    pub mag: bool,
}

/// Calibration data of one kind.
#[derive(Debug, Clone, Copy, PartialEq, Eq, Structural)]
pub enum CalibrationDataKind {
    /// Motor calibration factors.
    Motor(MotorCalibration),
    /// IMU calibration flags.
    ImuFlags(ImuCalibrationFlags),
    /// Distance calibration factor, in parts per million.
    Distance(i32),
}

impl Default for ImuCalibrationFlags {
    /// Nothing was calibrated.
    fn default() -> (flags: Self)
        ensures
            !flags.mag,
    {
        ImuCalibrationFlags { mag: false }
    }
}

/// Commands to the storage task.
#[derive(Debug, Clone, Copy, PartialEq, Eq, Structural)]
pub enum FlashCommand {
    /// Store calibration data.
    SaveData(CalibrationDataKind),
    /// Fetch calibration data; the answer is an event.
    GetData(CalibrationKind),
}

/// All calibration data, cached in memory.
#[derive(Debug, Clone, Copy, PartialEq, Eq, Structural)]
pub struct CalibrationData {
    /// Motor calibration factors.
    pub motor: MotorCalibration,
    /// IMU calibration flags.
    pub imu_flags: ImuCalibrationFlags,
    /// Distance calibration factor, in parts per million.
    pub distance_ppm: i32,
}

/// The data in force before anything was stored.
pub open spec fn factory_data() -> CalibrationData {
    CalibrationData {
        motor: MotorCalibration {
            left_factor_ppm: UNIT_FACTOR_PPM,
            right_factor_ppm: UNIT_FACTOR_PPM,
        },
        imu_flags: ImuCalibrationFlags { mag: false },
        distance_ppm: UNIT_FACTOR_PPM,
    }
}

impl Default for CalibrationData {
    fn default() -> (data: Self)
        ensures
            data == factory_data(),
    {
        CalibrationData {
            motor: MotorCalibration::default(),
            imu_flags: ImuCalibrationFlags::default(),
            distance_ppm: UNIT_FACTOR_PPM,
        }
    }
}

/// Keys of the stored items.
#[derive(Debug, Clone, Copy, PartialEq, Eq, Structural)]
pub enum StorageKey {
    /// Motor calibration factors.
    MotorCalibration,
    /// Distance calibration factor.
    DistanceFactor,
    /// IMU calibration flags.
    ImuFlags,
}

/// Why a key or a value could not be written or read.
#[derive(Debug, Clone, Copy, PartialEq, Eq, Structural)]
pub enum SerializationError {
    /// The buffer is shorter than the item.
    BufferTooSmall,
    /// The bytes stand for no item.
    InvalidFormat,
}

/// The stored byte of a key.
pub open spec fn key_byte(key: StorageKey) -> u8 {
    match key {
        StorageKey::MotorCalibration => 0,
        StorageKey::DistanceFactor => 1,
        StorageKey::ImuFlags => 2,
    }
}

/// The key a stored byte stands for.
pub open spec fn key_of(byte: u8) -> Option<StorageKey> {
    if byte == 0 {
        Some(StorageKey::MotorCalibration)
    } else if byte == 1 {
        Some(StorageKey::DistanceFactor)
    } else if byte == 2 {
        Some(StorageKey::ImuFlags)
    } else {
        None
    }
}

/// The little-endian bytes of a word.
pub open spec fn word_bytes(word: u32) -> Seq<u8> {
    seq![
        (word % 256) as u8,
        ((word / 256) % 256) as u8,
        ((word / 65_536) % 256) as u8,
        (word / 16_777_216) as u8,
    ]
}

/// The word that four little-endian bytes stand for.
pub open spec fn bytes_word(bytes: Seq<u8>) -> u32 {
    (bytes[0] + 256 * bytes[1] + 65_536 * bytes[2] + 16_777_216 * bytes[3]) as u32
}

/// `item` at the front of what `buffer` held.
pub open spec fn written(item: Seq<u8>, buffer: Seq<u8>) -> Seq<u8> {
    item + buffer.skip(item.len() as int)
}

/// Write a key into a buffer, returning its length.
pub fn serialize_key(key: StorageKey, buffer: &mut [u8]) -> (length: Result<
    usize,
    SerializationError,
>)
    ensures
        old(buffer)@.len() < 1 ==> length == Err::<usize, SerializationError>(
            SerializationError::BufferTooSmall,
        ) && final(buffer)@ == old(buffer)@,
        old(buffer)@.len() >= 1 ==> length == Ok::<usize, SerializationError>(1) && final(buffer)@
            == written(seq![key_byte(key)], old(buffer)@),
{
    if buffer.len() < 1 {
        return Err(SerializationError::BufferTooSmall);
    }
    buffer[0] = match key {
        StorageKey::MotorCalibration => 0,
        StorageKey::DistanceFactor => 1,
        StorageKey::ImuFlags => 2,
    };
    assert(buffer@ =~= written(seq![key_byte(key)], old(buffer)@));
    Ok(1)
}

/// Read a key from the front of a buffer, with its length.
pub fn deserialize_key(buffer: &[u8]) -> (read: Result<(StorageKey, usize), SerializationError>)
    ensures
        read == (if buffer@.len() < 1 {
            Err::<(StorageKey, usize), SerializationError>(SerializationError::BufferTooSmall)
        } else {
            match key_of(buffer@[0]) {
                Some(key) => Ok((key, 1)),
                None => Err(SerializationError::InvalidFormat),
            }
        }),
{
    if buffer.len() < 1 {
        return Err(SerializationError::BufferTooSmall);
    }
    match buffer[0] {
        0 => Ok((StorageKey::MotorCalibration, 1)),
        1 => Ok((StorageKey::DistanceFactor, 1)),
        2 => Ok((StorageKey::ImuFlags, 1)),
        _ => Err(SerializationError::InvalidFormat),
    }
}

/// Write a word at `at`.
fn put_word(word: u32, buffer: &mut [u8], at: usize)
    requires
        at + 4 <= old(buffer)@.len(),
    ensures
        final(buffer)@ == old(buffer)@.take(at as int) + word_bytes(word) + old(buffer)@.skip(
            at + 4,
        ),
{
    buffer[at] = (word % 256) as u8;
    buffer[at + 1] = ((word / 256) % 256) as u8;
    buffer[at + 2] = ((word / 65_536) % 256) as u8;
    buffer[at + 3] = (word / 16_777_216) as u8;
    assert(buffer@ =~= old(buffer)@.take(at as int) + word_bytes(word) + old(buffer)@.skip(at + 4));
}

/// Read the word at `at`.
fn get_word(buffer: &[u8], at: usize) -> (word: u32)
    requires
        at + 4 <= buffer@.len(),
    ensures
        word == bytes_word(buffer@.skip(at as int)),
{
    buffer[at] as u32 + 256 * buffer[at + 1] as u32 + 65_536 * buffer[at + 2] as u32 + 16_777_216
        * buffer[at + 3] as u32
}

/// Write the two words of the motor factors into a buffer, returning their length.
pub fn serialize_motor(left: u32, right: u32, buffer: &mut [u8]) -> (length: Result<
    usize,
    SerializationError,
>)
    ensures
        old(buffer)@.len() < 8 ==> length == Err::<usize, SerializationError>(
            SerializationError::BufferTooSmall,
        ) && final(buffer)@ == old(buffer)@,
        old(buffer)@.len() >= 8 ==> length == Ok::<usize, SerializationError>(8) && final(buffer)@
            == written(word_bytes(left) + word_bytes(right), old(buffer)@),
{
    if buffer.len() < 8 {
        return Err(SerializationError::BufferTooSmall);
    }
    put_word(left, buffer, 0);
    put_word(right, buffer, 4);
    assert(buffer@ =~= written(word_bytes(left) + word_bytes(right), old(buffer)@));
    Ok(8)
}

/// Read the two words of the motor factors from the front of a buffer, with their
/// length.
pub fn deserialize_motor(buffer: &[u8]) -> (read: Result<((u32, u32), usize), SerializationError>)
    ensures
        read == (if buffer@.len() < 8 {
            Err::<((u32, u32), usize), SerializationError>(SerializationError::BufferTooSmall)
        } else {
            Ok(((bytes_word(buffer@), bytes_word(buffer@.skip(4))), 8))
        }),
{
    if buffer.len() < 8 {
        return Err(SerializationError::BufferTooSmall);
    }
    assert(buffer@.skip(0) =~= buffer@);
    Ok(((get_word(buffer, 0), get_word(buffer, 4)), 8))
}

/// Write the word of the distance factor into a buffer, returning its length.
pub fn serialize_distance(factor: u32, buffer: &mut [u8]) -> (length: Result<
    usize,
    SerializationError,
>)
    ensures
        old(buffer)@.len() < 4 ==> length == Err::<usize, SerializationError>(
            SerializationError::BufferTooSmall,
        ) && final(buffer)@ == old(buffer)@,
        old(buffer)@.len() >= 4 ==> length == Ok::<usize, SerializationError>(4) && final(buffer)@
            == written(word_bytes(factor), old(buffer)@),
{
    if buffer.len() < 4 {
        return Err(SerializationError::BufferTooSmall);
    }
    put_word(factor, buffer, 0);
    assert(buffer@ =~= written(word_bytes(factor), old(buffer)@));
    Ok(4)
}

/// Read the word of the distance factor from the front of a buffer, with its length.
pub fn deserialize_distance(buffer: &[u8]) -> (read: Result<(u32, usize), SerializationError>)
    ensures
        read == (if buffer@.len() < 4 {
            Err::<(u32, usize), SerializationError>(SerializationError::BufferTooSmall)
        } else {
            Ok((bytes_word(buffer@), 4))
        }),
{
    if buffer.len() < 4 {
        return Err(SerializationError::BufferTooSmall);
    }
    assert(buffer@.skip(0) =~= buffer@);
    Ok((get_word(buffer, 0), 4))
}

/// Write the IMU flags into a buffer, returning their length.
pub fn serialize_flags(flags: ImuCalibrationFlags, buffer: &mut [u8]) -> (length: Result<
    usize,
    SerializationError,
>)
    ensures
        old(buffer)@.len() < 1 ==> length == Err::<usize, SerializationError>(
            SerializationError::BufferTooSmall,
        ) && final(buffer)@ == old(buffer)@,
        old(buffer)@.len() >= 1 ==> length == Ok::<usize, SerializationError>(1) && final(buffer)@
            == written(seq![flags_byte(flags)], old(buffer)@),
{
    if buffer.len() < 1 {
        return Err(SerializationError::BufferTooSmall);
    }
    buffer[0] = if flags.mag {
        1
    } else {
        0
    };
    assert(buffer@ =~= written(seq![flags_byte(flags)], old(buffer)@));
    Ok(1)
}

/// The stored byte of the IMU flags.
pub open spec fn flags_byte(flags: ImuCalibrationFlags) -> u8 {
    if flags.mag {
        1
    } else {
        0
    }
}

/// Read the IMU flags from the front of a buffer, with their length.
pub fn deserialize_flags(buffer: &[u8]) -> (read: Result<
    (ImuCalibrationFlags, usize),
    SerializationError,
>)
    ensures
        read == (if buffer@.len() < 1 {
            Err::<(ImuCalibrationFlags, usize), SerializationError>(
                SerializationError::BufferTooSmall,
            )
        } else {
            Ok((ImuCalibrationFlags { mag: buffer@[0] != 0 }, 1))
        }),
{
    if buffer.len() < 1 {
        return Err(SerializationError::BufferTooSmall);
    }
    Ok((ImuCalibrationFlags { mag: buffer[0] != 0 }, 1))
}

/// What is written is what is read: words, keys and flags survive the stored form,
/// whatever follows them in the buffer.
pub proof fn law_storage_round_trip(
    left: u32,
    right: u32,
    key: StorageKey,
    flags: ImuCalibrationFlags,
    buffer: Seq<u8>,
)
    requires
        buffer.len() >= 8,
    ensures
        key_of(written(seq![key_byte(key)], buffer)[0]) == Some(key),
        (written(seq![flags_byte(flags)], buffer)[0] != 0) == flags.mag,
        bytes_word(written(word_bytes(left), buffer)) == left,
        bytes_word(written(word_bytes(left) + word_bytes(right), buffer)) == left,
        bytes_word(written(word_bytes(left) + word_bytes(right), buffer).skip(4)) == right,
{
}

/// Different keys have different bytes.
pub proof fn law_keys_are_distinct(a: StorageKey, b: StorageKey)
    requires
        key_byte(a) == key_byte(b),
    ensures
        a == b,
{
}

/// The key under which data of a kind is stored.
pub fn key_for(kind: CalibrationKind) -> (key: StorageKey)
    ensures
        key == (match kind {
            CalibrationKind::Motor => StorageKey::MotorCalibration,
            CalibrationKind::ImuFlags => StorageKey::ImuFlags,
            CalibrationKind::Distance => StorageKey::DistanceFactor,
        }),
{
    match kind {
        CalibrationKind::Motor => StorageKey::MotorCalibration,
        CalibrationKind::ImuFlags => StorageKey::ImuFlags,
        CalibrationKind::Distance => StorageKey::DistanceFactor,
    }
}

/// The kind of some data.
pub open spec fn kind_of(data: CalibrationDataKind) -> CalibrationKind {
    match data {
        CalibrationDataKind::Motor(_) => CalibrationKind::Motor,
        CalibrationDataKind::ImuFlags(_) => CalibrationKind::ImuFlags,
        CalibrationDataKind::Distance(_) => CalibrationKind::Distance,
    }
}

/// The kind of some data.
pub fn data_kind(data: CalibrationDataKind) -> (kind: CalibrationKind)
    ensures
        kind == kind_of(data),
{
    match data {
        CalibrationDataKind::Motor(_) => CalibrationKind::Motor,
        CalibrationDataKind::ImuFlags(_) => CalibrationKind::ImuFlags,
        CalibrationDataKind::Distance(_) => CalibrationKind::Distance,
    }
}

/// The cache once it holds `data`; the other kinds keep what they had, or what they
/// had before anything was stored.
pub open spec fn with_data(
    cache: Option<CalibrationData>,
    data: CalibrationDataKind,
) -> CalibrationData {
    let held = match cache {
        Some(held) => held,
        None => factory_data(),
    };
    match data {
        CalibrationDataKind::Motor(motor) => CalibrationData { motor, ..held },
        CalibrationDataKind::ImuFlags(imu_flags) => CalibrationData { imu_flags, ..held },
        CalibrationDataKind::Distance(distance_ppm) => CalibrationData { distance_ppm, ..held },
    }
}

/// The calibration state once `data` is known to be in flash.
pub open spec fn marked_loaded(
    state: CalibrationState,
    data: CalibrationDataKind,
) -> CalibrationState {
    match data {
        CalibrationDataKind::Motor(_) => CalibrationState {
            motor_cal_status: CalibrationStatus::Loaded,
            ..state
        },
        CalibrationDataKind::ImuFlags(flags) => CalibrationState {
            mag_cal_status: if flags.mag {
                CalibrationStatus::Loaded
            } else {
                state.mag_cal_status
            },
            imu_cal_status: CalibrationStatus::Loaded,
            ..state
        },
        CalibrationDataKind::Distance(factor_ppm) => CalibrationState {
            distance_factor_ppm: factor_ppm,
            distance_cal_status: CalibrationStatus::Loaded,
            ..state
        },
    }
}

/// Put `data` in the cache.
fn remember(cache: &mut Option<CalibrationData>, data: CalibrationDataKind)
    ensures
        *final(cache) == Some(with_data(*old(cache), data)),
{
    let mut held = match *cache {
        Some(held) => held,
        None => CalibrationData::default(),
    };
    match data {
        CalibrationDataKind::Motor(motor) => {
            held.motor = motor;
        },
        CalibrationDataKind::ImuFlags(imu_flags) => {
            held.imu_flags = imu_flags;
        },
        CalibrationDataKind::Distance(distance_ppm) => {
            held.distance_ppm = distance_ppm;
        },
    }
    *cache = Some(held);
}

/// Record that `data` is in flash.
fn mark_loaded(state: &mut CalibrationState, data: CalibrationDataKind)
    ensures
        *final(state) == marked_loaded(*old(state), data),
{
    match data {
        CalibrationDataKind::Motor(_) => {
            state.motor_cal_status = CalibrationStatus::Loaded;
        },
        CalibrationDataKind::ImuFlags(flags) => {
            if flags.mag {
                state.mag_cal_status = CalibrationStatus::Loaded;
            }
            state.imu_cal_status = CalibrationStatus::Loaded;
        },
        CalibrationDataKind::Distance(factor_ppm) => {
            state.distance_factor_ppm = factor_ppm;
            state.distance_cal_status = CalibrationStatus::Loaded;
        },
    }
}

/// The storage task's memory.
#[derive(Debug, Clone, Copy, PartialEq, Eq, Structural)]
pub struct FlashStorage {
    /// The calibration data last loaded or saved.
    pub cache: Option<CalibrationData>,
}

impl FlashStorage {
    /// Nothing is cached.
    pub fn new() -> (storage: Self)
        ensures
            storage.cache is None,
    {
        FlashStorage { cache: None }
    }

    /// The cached IMU flags, if anything is cached.
    pub fn get_cached_imu_flags(&self) -> (flags: Option<ImuCalibrationFlags>)
        ensures
            flags == (match self.cache {
                Some(data) => Some(data.imu_flags),
                None => None,
            }),
    {
        match self.cache {
            Some(data) => Some(data.imu_flags),
            None => None,
        }
    }

    /// The flash answered a request for `kind`. `found` is `None` when it holds no
    /// such item or could not be read.
    ///
    /// Returns the event to raise.
    pub fn on_fetched(
        &mut self,
        state: &mut CalibrationState,
        kind: CalibrationKind,
        found: Option<CalibrationDataKind>,
    ) -> (event: Events)
        requires
            found matches Some(data) ==> kind_of(data) == kind,
        ensures
            event == Events::CalibrationDataLoaded(kind, found),
            found matches Some(data) ==> final(self).cache == Some(
                with_data(old(self).cache, data),
            ) && *final(state) == marked_loaded(*old(state), data),
            found is None ==> *final(self) == *old(self) && *final(state) == *old(state),
    {
        if let Some(data) = found {
            remember(&mut self.cache, data);
            mark_loaded(state, data);
        }
        Events::CalibrationDataLoaded(kind, found)
    }

    /// `data` is about to be stored: the cache holds it from now on, whether or not
    /// the flash takes it.
    pub fn on_save(&mut self, data: CalibrationDataKind)
        ensures
            final(self).cache == Some(with_data(old(self).cache, data)),
    {
        remember(&mut self.cache, data);
    }

    /// The flash took `data` or refused it. Returns the event to raise, if any.
    pub fn on_stored(
        &self,
        state: &mut CalibrationState,
        data: CalibrationDataKind,
        stored: bool,
    ) -> (event: Option<Events>)
        ensures
            stored ==> event == Some(Events::CalibrationDataLoaded(kind_of(data), Some(data)))
                && *final(state) == marked_loaded(*old(state), data),
            !stored ==> event is None && *final(state) == *old(state),
    {
        if stored {
            mark_loaded(state, data);
            Some(Events::CalibrationDataLoaded(data_kind(data), Some(data)))
        } else {
            None
        }
    }
}

/// The kinds do not disturb each other in the cache: data of two kinds can be put
/// there in either order, and the last of one kind stands.
pub proof fn law_cache_keeps_kinds_apart(
    cache: Option<CalibrationData>,
    a: CalibrationDataKind,
    b: CalibrationDataKind,
)
    ensures
        kind_of(a) != kind_of(b) ==> with_data(Some(with_data(cache, a)), b) == with_data(
            Some(with_data(cache, b)),
            a,
        ),
        kind_of(a) == kind_of(b) ==> with_data(Some(with_data(cache, a)), b) == with_data(cache, b),
{
}

/// A word is stored least significant byte first: each byte weighs 256 times the one
/// before it.
pub proof fn law_words_are_little_endian(word: u32)
    ensures
        word_bytes(word).len() == 4,
        word == word_bytes(word)[0] + 256 * (word_bytes(word)[1] + 256 * (word_bytes(word)[2] + 256
            * word_bytes(word)[3])),
{
}

/// The stored bytes of the keys and the flags are fixed, so that what one version of the
/// firmware stored the next one reads.
pub proof fn law_stored_bytes_are_fixed(byte: u8, flags: ImuCalibrationFlags)
    ensures
        key_of(byte) == Some(StorageKey::MotorCalibration) <==> byte == 0,
        key_of(byte) == Some(StorageKey::DistanceFactor) <==> byte == 1,
        key_of(byte) == Some(StorageKey::ImuFlags) <==> byte == 2,
        key_of(byte) is None <==> byte > 2,
        flags_byte(flags) == 1 <==> flags.mag,
        flags_byte(flags) <= 1,
{
}

/// What is written stands at the front, and the rest of the buffer is untouched.
pub proof fn law_written_leaves_the_rest(item: Seq<u8>, buffer: Seq<u8>, i: int)
    requires
        item.len() <= buffer.len(),
        0 <= i < buffer.len(),
    ensures
        written(item, buffer).len() == buffer.len(),
        i < item.len() ==> written(item, buffer)[i] == item[i],
        i >= item.len() ==> written(item, buffer)[i] == buffer[i],
{
}

/// The cache holds what was put there last of each kind; of a kind that was never put
/// there it holds factors of one and no calibrated magnetometer.
pub proof fn law_cache_holds_what_was_put(cache: Option<CalibrationData>, data: CalibrationDataKind)
    ensures
        ({
            let after = with_data(cache, data);
            &&& data matches CalibrationDataKind::Motor(motor) ==> after.motor == motor
            &&& data matches CalibrationDataKind::ImuFlags(flags) ==> after.imu_flags == flags
            &&& data matches CalibrationDataKind::Distance(factor) ==> after.distance_ppm == factor
            &&& cache matches Some(held) ==> {
                &&& data !is Motor ==> after.motor == held.motor
                &&& data !is ImuFlags ==> after.imu_flags == held.imu_flags
                &&& data !is Distance ==> after.distance_ppm == held.distance_ppm
            }
            &&& cache is None ==> {
                &&& data !is Motor ==> after.motor.left_factor_ppm == 1_000_000
                    && after.motor.right_factor_ppm == 1_000_000
                &&& data !is ImuFlags ==> !after.imu_flags.mag
                &&& data !is Distance ==> after.distance_ppm == 1_000_000
            }
        }),
{
}

/// Known data makes its own calibration known and no other: the motor's, the distance's
/// with the factor it brings into force, the flags', and the magnetometer's only where
/// the flags say it was calibrated.
pub proof fn law_known_data_marks_its_own(state: CalibrationState, data: CalibrationDataKind)
    ensures
        ({
            let after = marked_loaded(state, data);
            &&& after.motor_cal_status == (if data is Motor {
                CalibrationStatus::Loaded
            } else {
                state.motor_cal_status
            })
            &&& after.imu_cal_status == (if data is ImuFlags {
                CalibrationStatus::Loaded
            } else {
                state.imu_cal_status
            })
            &&& after.distance_cal_status == (if data is Distance {
                CalibrationStatus::Loaded
            } else {
                state.distance_cal_status
            })
            &&& data matches CalibrationDataKind::Distance(factor) ==> after.distance_factor_ppm
                == factor
            &&& data !is Distance ==> after.distance_factor_ppm == state.distance_factor_ppm
            &&& after.mag_cal_status != state.mag_cal_status ==> data is ImuFlags
            &&& data matches CalibrationDataKind::ImuFlags(flags) ==> after.mag_cal_status == (
            if flags.mag {
                CalibrationStatus::Loaded
            } else {
                state.mag_cal_status
            })
        }),
{
}

/// Data is stored under the key of its own kind, and an answer is passed on with what it
/// holds; what the flash refused stays in the cache but is not reported.
pub proof fn law_storage_answers_for_its_kind(
    kind: CalibrationKind,
    key: StorageKey,
    fetching: &mut FlashStorage,
    fetched: &mut CalibrationState,
    found: Option<CalibrationDataKind>,
    answer: Events,
    saving: &mut FlashStorage,
    storage: &FlashStorage,
    marked: &mut CalibrationState,
    data: CalibrationDataKind,
    stored: bool,
    report: Option<Events>,
)
    requires
        call_ensures(key_for, (kind,), key),
        call_ensures(FlashStorage::on_fetched, (fetching, fetched, kind, found), answer),
        call_ensures(FlashStorage::on_save, (saving, data), ()),
        call_ensures(FlashStorage::on_stored, (storage, marked, data, stored), report),
    ensures
        key is MotorCalibration <==> kind is Motor,
        key is ImuFlags <==> kind is ImuFlags,
        key is DistanceFactor <==> kind is Distance,
        answer == Events::CalibrationDataLoaded(kind, found),
        found is None ==> *final(fetching) == *old(fetching) && *final(fetched) == *old(fetched),
        found matches Some(CalibrationDataKind::Distance(factor)) ==> {
            &&& final(fetched).distance_factor_ppm == factor
            &&& final(fetching).cache->0.distance_ppm == factor
        },
        found matches Some(CalibrationDataKind::Motor(motor)) ==> final(fetching).cache->0.motor
            == motor && final(fetched).motor_cal_status is Loaded,
        final(saving).cache is Some,
        data matches CalibrationDataKind::Motor(motor) ==> final(saving).cache->0.motor == motor,
        report is Some <==> stored,
        !stored ==> *final(marked) == *old(marked),
        report matches Some(event) ==> (event matches Events::CalibrationDataLoaded(_, held)
            && held == Some(data)),
{
}

/// What is stored is read back: factors, each in its place, a distance factor, flags and
/// keys come out of a buffer as they went in.
pub proof fn law_stored_data_reads_back(
    left: u32,
    right: u32,
    motor_buffer: &mut [u8],
    motor_length: Result<usize, SerializationError>,
    motor_stored: &[u8],
    motor_read: Result<((u32, u32), usize), SerializationError>,
    distance_buffer: &mut [u8],
    distance_length: Result<usize, SerializationError>,
    distance_stored: &[u8],
    distance_read: Result<(u32, usize), SerializationError>,
)
    requires
        old(motor_buffer)@.len() >= 8,
        old(distance_buffer)@.len() >= 8,
        call_ensures(serialize_motor, (left, right, motor_buffer), motor_length),
        motor_stored@ == final(motor_buffer)@,
        call_ensures(deserialize_motor, (motor_stored,), motor_read),
        call_ensures(serialize_distance, (left, distance_buffer), distance_length),
        distance_stored@ == final(distance_buffer)@,
        call_ensures(deserialize_distance, (distance_stored,), distance_read),
    ensures
        motor_length == Ok::<usize, SerializationError>(8),
        motor_read == Ok::<((u32, u32), usize), SerializationError>(((left, right), 8)),
        distance_length == Ok::<usize, SerializationError>(4),
        distance_read == Ok::<(u32, usize), SerializationError>((left, 4)),
{
    law_storage_round_trip(
        left,
        right,
        StorageKey::MotorCalibration,
        ImuCalibrationFlags { mag: false },
        old(motor_buffer)@,
    );
    law_storage_round_trip(
        left,
        right,
        StorageKey::MotorCalibration,
        ImuCalibrationFlags { mag: false },
        old(distance_buffer)@,
    );
}

/// Keys and flags come out of a buffer as they went in too.
pub proof fn law_stored_keys_and_flags_read_back(
    key: StorageKey,
    key_buffer: &mut [u8],
    key_length: Result<usize, SerializationError>,
    key_stored: &[u8],
    key_read: Result<(StorageKey, usize), SerializationError>,
    flags: ImuCalibrationFlags,
    flags_buffer: &mut [u8],
    flags_length: Result<usize, SerializationError>,
    flags_stored: &[u8],
    flags_read: Result<(ImuCalibrationFlags, usize), SerializationError>,
)
    requires
        old(key_buffer)@.len() >= 1,
        old(flags_buffer)@.len() >= 1,
        call_ensures(serialize_key, (key, key_buffer), key_length),
        key_stored@ == final(key_buffer)@,
        call_ensures(deserialize_key, (key_stored,), key_read),
        call_ensures(serialize_flags, (flags, flags_buffer), flags_length),
        flags_stored@ == final(flags_buffer)@,
        call_ensures(deserialize_flags, (flags_stored,), flags_read),
    ensures
        key_length == Ok::<usize, SerializationError>(1),
        key_read == Ok::<(StorageKey, usize), SerializationError>((key, 1)),
        flags_length == Ok::<usize, SerializationError>(1),
        flags_read == Ok::<(ImuCalibrationFlags, usize), SerializationError>((flags, 1)),
{
    assert(key_stored@[0] == key_byte(key));
    assert(flags_stored@[0] == flags_byte(flags));
}

} // verus!
