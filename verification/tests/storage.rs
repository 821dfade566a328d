//! Calibration storage.

use explorer_robot::system::event::Events;
use explorer_robot::system::state::{CalibrationState, CalibrationStatus};
use explorer_robot::task::io::flash_storage::{
    data_kind, deserialize_distance, deserialize_flags, deserialize_key, deserialize_motor, key_for,
    serialize_distance, serialize_flags, serialize_key, serialize_motor, CalibrationDataKind,
    CalibrationKind, FlashStorage, ImuCalibrationFlags, SerializationError, StorageKey,
};
use explorer_robot::task::motor_driver::MotorCalibration;

fn unknown() -> CalibrationState {
    CalibrationState {
        motor_cal_status: CalibrationStatus::NotLoaded,
        imu_cal_status: CalibrationStatus::NotLoaded,
        mag_cal_status: CalibrationStatus::NotLoaded,
        distance_cal_status: CalibrationStatus::NotLoaded,
        distance_factor_ppm: 1_000_000,
    }
}

#[test]
fn what_is_stored_is_read_back() {
    let mut buffer = [0xEEu8; 16];
    let left = 0.9375f32.to_bits();
    let right = 1.0f32.to_bits();
    assert_eq!(serialize_motor(left, right, &mut buffer), Ok(8));
    assert_eq!(deserialize_motor(&buffer), Ok(((left, right), 8)));
    assert_eq!(serialize_distance(right, &mut buffer), Ok(4));
    assert_eq!(deserialize_distance(&buffer), Ok((right, 4)));
    let flags = ImuCalibrationFlags { mag: true };
    assert_eq!(serialize_flags(flags, &mut buffer), Ok(1));
    assert_eq!(deserialize_flags(&buffer), Ok((flags, 1)));
    for key in [StorageKey::MotorCalibration, StorageKey::DistanceFactor, StorageKey::ImuFlags] {
        assert_eq!(serialize_key(key, &mut buffer), Ok(1));
        assert_eq!(deserialize_key(&buffer), Ok((key, 1)));
    }
}

#[test]
fn bytes_are_little_endian() {
    let mut buffer = [0u8; 8];
    assert_eq!(serialize_motor(0x0403_0201, 0x0807_0605, &mut buffer), Ok(8));
    assert_eq!(buffer, [1, 2, 3, 4, 5, 6, 7, 8]);
}

#[test]
fn short_buffers_and_unknown_keys_are_refused() {
    let mut none: [u8; 0] = [];
    assert_eq!(serialize_motor(0, 0, &mut none), Err(SerializationError::BufferTooSmall));
    assert_eq!(serialize_distance(0, &mut none), Err(SerializationError::BufferTooSmall));
    assert_eq!(
        serialize_flags(ImuCalibrationFlags::default(), &mut none),
        Err(SerializationError::BufferTooSmall)
    );
    assert_eq!(
        serialize_key(StorageKey::ImuFlags, &mut none),
        Err(SerializationError::BufferTooSmall)
    );
    assert_eq!(deserialize_motor(&[0; 7]), Err(SerializationError::BufferTooSmall));
    assert_eq!(deserialize_distance(&[0; 3]), Err(SerializationError::BufferTooSmall));
    assert_eq!(deserialize_flags(&none), Err(SerializationError::BufferTooSmall));
    assert_eq!(deserialize_key(&none), Err(SerializationError::BufferTooSmall));
    assert_eq!(deserialize_key(&[0xFF]), Err(SerializationError::InvalidFormat));
}

#[test]
fn kinds_have_their_own_keys() {
    assert_eq!(key_for(CalibrationKind::Motor), StorageKey::MotorCalibration);
    assert_eq!(key_for(CalibrationKind::ImuFlags), StorageKey::ImuFlags);
    assert_eq!(key_for(CalibrationKind::Distance), StorageKey::DistanceFactor);
    assert_eq!(data_kind(CalibrationDataKind::Distance(1)), CalibrationKind::Distance);
}

#[test]
fn the_cache_keeps_kinds_apart() {
    let mut storage = FlashStorage::new();
    let mut state = unknown();
    assert_eq!(storage.get_cached_imu_flags(), None);
    let flags = CalibrationDataKind::ImuFlags(ImuCalibrationFlags { mag: true });
    let event = storage.on_fetched(&mut state, CalibrationKind::ImuFlags, Some(flags));
    assert_eq!(event, Events::CalibrationDataLoaded(CalibrationKind::ImuFlags, Some(flags)));
    let motor = CalibrationDataKind::Motor(MotorCalibration::new(900_000, 1_000_000));
    storage.on_save(motor);
    assert_eq!(storage.get_cached_imu_flags(), Some(ImuCalibrationFlags { mag: true }));
    assert_eq!(storage.cache.unwrap().motor.left_factor_ppm, 900_000);
}

#[test]
fn missing_data_is_reported_as_missing() {
    let mut storage = FlashStorage::new();
    let mut state = unknown();
    let event = storage.on_fetched(&mut state, CalibrationKind::Motor, None);
    assert_eq!(event, Events::CalibrationDataLoaded(CalibrationKind::Motor, None));
    assert!(storage.cache.is_none());
}
