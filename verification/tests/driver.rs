//! The driver's decisions: the ingest loop, the handshake and the correction.

use explorer_robot::coin_d6::driver::{
    after_attempt, corrected_angle, start_command, stop_command, CoinD6, DeviceInfoReader,
    FrameStep, Handshake, ReadStep, DEVICE_INFO_RETRIES, RING_START_WATCHDOG_BYTES,
};
use explorer_robot::coin_d6::types::{Config, Error, Scan};

/// Read revolutions from a stream of chunks as the ingest loop does, until one is
/// assembled or the driver gives up.
fn read_scan(driver: &mut CoinD6, scan: &mut Scan<512>, chunks: &[&[u8]]) -> Result<(), Error<(), ()>> {
    driver.begin_revolution();
    let mut next = chunks.iter();
    loop {
        let bytes: &[u8] = next.next().copied().unwrap_or(&[]);
        match driver.on_read(bytes, scan) {
            ReadStep::Revolution => return Ok(()),
            ReadStep::Continue => {}
            ReadStep::Timeout => return Err(Error::Timeout),
        }
    }
}

#[test]
fn read_scan_maps_eof_to_timeout() {
    let mut driver = CoinD6::new(Config::default());
    let mut scan = Scan::new();

    // A stream at its end must yield `Timeout`, not spin for ever.
    let result = read_scan(&mut driver, &mut scan, &[]);

    assert!(matches!(result, Err(Error::Timeout)));
}

#[test]
fn read_scan_assembles_a_revolution_across_reads() {
    let mut driver = CoinD6::new(Config::default());
    let mut scan = Scan::new();
    // One sample of 1024 mm at one degree, then a closing ring start.
    let start = [0xAA, 0x55, 0x01, 0x01, 0x81, 0x00, 0x81, 0x00, 0xAB, 0x44, 0x00, 0x00, 0x10];
    let close = [0xAA, 0x55, 0x01, 0x00, 0x81, 0x00, 0x81, 0x00, 0xAB, 0x55];

    let result = read_scan(&mut driver, &mut scan, &[&start[..6], &start[6..], &close]);

    assert!(result.is_ok());
    assert_eq!(scan.len, 1);
    assert_eq!(scan.points[0].distance_mm.unwrap().get(), 1024);
    assert_eq!(scan.points[0].angle_udeg, 1_000_000);
}

#[test]
fn a_dead_uart_runs_into_the_watchdog() {
    let mut driver = CoinD6::new(Config::default());
    driver.begin_revolution();
    let mut reads = 0;
    while driver.on_read_error(1024) == ReadStep::Continue {
        reads += 1;
    }
    assert_eq!(reads, RING_START_WATCHDOG_BYTES / 1024);
}

#[test]
fn noise_runs_into_the_watchdog() {
    let mut driver = CoinD6::new(Config::default());
    let mut scan = Scan::new();
    driver.begin_revolution();
    let noise = [0xFEu8; 1024];
    let mut reads = 0;
    while driver.on_read(&noise, &mut scan) == ReadStep::Continue {
        reads += 1;
    }
    assert_eq!(reads, RING_START_WATCHDOG_BYTES / 1024);
}

#[test]
fn commands_are_the_vendor_ones() {
    assert_eq!(start_command(), [0xAA, 0x55, 0xF0, 0x0F]);
    assert_eq!(stop_command(), [0xAA, 0x55, 0xF5, 0x0A]);
}

/// Feed a whole byte stream as the handshake asks for it.
fn handshake(stream: &[u8]) -> FrameStep {
    let mut reader = DeviceInfoReader::new();
    let mut at = 0;
    let mut want = 1;
    loop {
        let step = reader.supply(&stream[at..at + want]);
        at += want;
        match step {
            FrameStep::Need(more) => want = more,
            other => return other,
        }
    }
}

#[test]
fn device_info_is_found_behind_noise() {
    // Header, two data bytes, type one; the sum is a5+5a+02+00+01+10+20.
    let sum: u16 = 0xA5 + 0x5A + 0x02 + 0x01 + 0x10 + 0x20;
    let mut stream = vec![0xFE, 0xFF, 0xA5, 0x00, 0xA5, 0x5A, 0x02, 0x00];
    stream.extend_from_slice(&sum.to_le_bytes());
    stream.extend_from_slice(&[0x01, 0x10, 0x20]);
    assert_eq!(handshake(&stream), FrameStep::Valid);

    stream[12] = 0x21;
    assert_eq!(handshake(&stream), FrameStep::Malformed);
}

#[test]
fn device_info_gives_up_on_endless_noise() {
    assert_eq!(handshake(&[0xFE; 2048]), FrameStep::Overrun);
}

#[test]
fn handshake_retries_glitches_only() {
    let glitch: Result<(), Error<u8, u8>> = Err(Error::Uart(1));
    assert_eq!(
        after_attempt(DEVICE_INFO_RETRIES, glitch),
        Handshake::Again(DEVICE_INFO_RETRIES - 1)
    );
    let malformed: Result<(), Error<u8, u8>> = Err(Error::Resync);
    assert_eq!(after_attempt(0, malformed), Handshake::Over(Err(Error::Resync)));
    let silent: Result<(), Error<u8, u8>> = Err(Error::Timeout);
    assert_eq!(after_attempt(5, silent), Handshake::Over(Err(Error::Timeout)));
    let fine: Result<(), Error<u8, u8>> = Ok(());
    assert_eq!(after_attempt(5, fine), Handshake::Over(Ok(())));
}

#[test]
fn corrections_wrap_round_the_circle() {
    assert_eq!(corrected_angle(1_000_000, 500_000), 1_500_000);
    assert_eq!(corrected_angle(100_000, -200_000), 359_900_000);
    assert_eq!(corrected_angle(359_900_000, 200_000), 100_000);
    assert_eq!(corrected_angle(-100_000, -200_000), 359_700_000);
    assert_eq!(corrected_angle(720_000_000, -1), 359_999_999);
}
