//! The IMU task: commands, the motion processor's configuration and its packets.

use vstd::prelude::*;

use crate::task::sensors::imu;
use crate::task::sensors::imu::{
    CalibratedMag, Counts, DmpFusionMode, ImuMeasurement, MagCalibration, MagVector, Orientation,
    DEFAULT_FUSION_MODE, DMP_SAMPLE_RATE_HZ, IMU_INIT_MAX_ATTEMPTS, IMU_INIT_RETRY_DELAY_MS,
    MAG_SCALE_NT, MAX_FIFO_FAILURES,
};

verus! {

/// A command to the IMU task.
#[derive(Debug, Clone, Copy, PartialEq, Eq, Structural)]
pub enum ImuCommand {
    /// Start the readings.
    Start,
    /// Stop the readings and stand by.
    Stop,
    /// Use other calibration data.
    LoadCalibration(MagCalibration),
    /// Switch the fusion mode.
    SetFusionMode(DmpFusionMode),
}

/// The control signal into the IMU task. It holds one command: a later one replaces
/// an earlier one that was not taken yet.
#[derive(Debug, Clone, Copy, PartialEq, Eq, Structural)]
pub struct ImuControl {
    /// The command not taken yet.
    pub pending: Option<ImuCommand>,
}

impl ImuControl {
    /// A control signal without a command.
    pub fn new() -> (control: Self)
        ensures
            control.pending is None,
    {
        ImuControl { pending: None }
    }

    /// Take the command, if there is one.
    pub fn take(&mut self) -> (command: Option<ImuCommand>)
        ensures
            command == old(self).pending,
            final(self).pending is None,
    {
        let command = self.pending;
        self.pending = None;
        command
    }
}

/// Signal the IMU task to start the readings.
pub fn start_imu_readings(control: &mut ImuControl)
    ensures
        final(control).pending == Some(ImuCommand::Start),
{
    control.pending = Some(ImuCommand::Start);
}

/// Signal the IMU task to stop the readings and stand by.
pub fn stop_imu_readings(control: &mut ImuControl)
    ensures
        final(control).pending == Some(ImuCommand::Stop),
{
    control.pending = Some(ImuCommand::Stop);
}

/// Signal the IMU task to switch the fusion mode.
pub fn set_dmp_fusion_mode(control: &mut ImuControl, mode: DmpFusionMode)
    ensures
        final(control).pending == Some(ImuCommand::SetFusionMode(mode)),
{
    control.pending = Some(ImuCommand::SetFusionMode(mode));
}

/// Signal the IMU task to use other calibration data.
pub fn load_mag_calibration(control: &mut ImuControl, calibration: MagCalibration)
    ensures
        final(control).pending == Some(ImuCommand::LoadCalibration(calibration)),
{
    control.pending = Some(ImuCommand::LoadCalibration(calibration));
}

/// The latest readings. A field is empty before its first packet; the magnetometer's
/// are emptied when the fusion leaves the magnetometer out.
#[derive(Debug, Clone, Copy, PartialEq, Eq, Structural)]
pub struct ImuReadings {
    /// The fused orientation.
    pub orientation: Option<Orientation>,
    /// The gyroscope without its bias.
    pub calibrated_gyro: Option<Counts>,
    /// The magnetometer, corrected where calibration data is loaded.
    pub calibrated_mag: Option<CalibratedMag>,
    /// The accelerometer.
    pub raw_accel: Option<Counts>,
    /// The gyroscope.
    pub raw_gyro: Option<Counts>,
    /// The magnetometer, uncorrected.
    pub raw_mag: Option<MagVector>,
}

/// No readings yet.
pub open spec fn no_readings() -> ImuReadings {
    ImuReadings {
        orientation: None,
        calibrated_gyro: None,
        calibrated_mag: None,
        raw_accel: None,
        raw_gyro: None,
        raw_mag: None,
    }
}

impl Default for ImuReadings {
    fn default() -> (readings: Self)
        ensures
            readings == no_readings(),
    {
        ImuReadings {
            orientation: None,
            calibrated_gyro: None,
            calibrated_mag: None,
            raw_accel: None,
            raw_gyro: None,
            raw_mag: None,
        }
    }
}

/// What the motion processor is asked to put out.
#[derive(Debug, Clone, Copy, PartialEq, Eq, Structural)]
pub struct DmpOutputs {
    /// The fusion.
    pub fusion: DmpFusionMode,
    /// The accelerometer.
    pub raw_accel: bool,
    /// The gyroscope.
    pub raw_gyro: bool,
    /// The gyroscope without its bias.
    pub calibrated_gyro: bool,
    /// The magnetometer.
    pub raw_mag: bool,
    /// The rate, in hertz.
    pub sample_rate_hz: u16,
}

/// The outputs of a fusion mode. Only the fusion with the magnetometer puts the
/// magnetometer out.
pub open spec fn outputs_of(mode: DmpFusionMode) -> DmpOutputs {
    DmpOutputs {
        fusion: mode,
        raw_accel: true,
        raw_gyro: true,
        calibrated_gyro: true,
        raw_mag: mode is Axis9,
        sample_rate_hz: DMP_SAMPLE_RATE_HZ,
    }
}

/// Build the configuration of a fusion mode.
pub fn build_dmp_config(mode: DmpFusionMode) -> (outputs: DmpOutputs)
    ensures
        outputs == outputs_of(mode),
{
    DmpOutputs {
        fusion: mode,
        raw_accel: true,
        raw_gyro: true,
        calibrated_gyro: true,
        raw_mag: match mode {
            DmpFusionMode::Axis6 => false,
            DmpFusionMode::Axis9 => true,
        },
        sample_rate_hz: DMP_SAMPLE_RATE_HZ,
    }
}

/// The mode a request comes to: without a magnetometer there is only the six-axis one.
pub open spec fn mode_for(requested: DmpFusionMode, mag_available: bool) -> DmpFusionMode {
    if mag_available {
        requested
    } else {
        DmpFusionMode::Axis6
    }
}

/// Resolve a requested mode.
pub fn effective_mode(requested: DmpFusionMode, mag_available: bool) -> (mode: DmpFusionMode)
    ensures
        mode == mode_for(requested, mag_available),
{
    match requested {
        DmpFusionMode::Axis9 if !mag_available => DmpFusionMode::Axis6,
        _ => requested,
    }
}

/// What follows a failed initialisation attempt.
#[derive(Debug, Clone, Copy, PartialEq, Eq, Structural)]
pub enum InitStep {
    /// Wait this many milliseconds and try again.
    Retry(u64),
    /// Give up; the task halts.
    GiveUp,
}

/// Decide after the attempt of this number, counted from one, has failed.
pub fn after_failed_init(attempt: u32) -> (step: InitStep)
    ensures
        step == (if attempt >= IMU_INIT_MAX_ATTEMPTS {
            InitStep::GiveUp
        } else {
            InitStep::Retry(IMU_INIT_RETRY_DELAY_MS)
        }),
{
    if attempt >= IMU_INIT_MAX_ATTEMPTS {
        InitStep::GiveUp
    } else {
        InitStep::Retry(IMU_INIT_RETRY_DELAY_MS)
    }
}

/// A packet of the motion processor.
#[derive(Debug, Clone, Copy, PartialEq, Eq)]
pub struct DmpPacket {
    /// The orientation fused with the magnetometer.
    pub orientation_9axis: Option<Orientation>,
    /// The orientation fused without it.
    pub orientation_6axis: Option<Orientation>,
    /// The accelerometer.
    pub raw_accel: Option<Counts>,
    /// The gyroscope.
    pub raw_gyro: Option<Counts>,
    /// The gyroscope without its bias.
    pub calibrated_gyro: Option<Counts>,
    /// The magnetometer, in counts.
    pub raw_mag: Option<(i16, i16, i16)>,
}

/// The orientation of a packet, the one with the magnetometer first.
pub open spec fn orientation_of(packet: DmpPacket) -> Option<Orientation> {
    if packet.orientation_9axis is Some {
        packet.orientation_9axis
    } else {
        packet.orientation_6axis
    }
}

/// The magnetometer of a packet, in nanotesla.
pub open spec fn mag_of(packet: DmpPacket) -> Option<MagVector> {
    match packet.raw_mag {
        None => None,
        Some((x, y, z)) => Some(
            MagVector {
                x: (x * MAG_SCALE_NT) as i32,
                y: (y * MAG_SCALE_NT) as i32,
                z: (z * MAG_SCALE_NT) as i32,
            },
        ),
    }
}

/// The newer of two readings: the packet's where it has one.
pub open spec fn newer<T>(packet: Option<T>, held: Option<T>) -> Option<T> {
    if packet is Some {
        packet
    } else {
        held
    }
}

/// The readings after a packet: what the packet holds replaces what was held, the
/// rest stays.
pub open spec fn updated(
    readings: ImuReadings,
    packet: DmpPacket,
    calibration: Option<MagCalibration>,
    left_speed: i8,
    right_speed: i8,
) -> ImuReadings {
    ImuReadings {
        orientation: newer(orientation_of(packet), readings.orientation),
        calibrated_gyro: newer(packet.calibrated_gyro, readings.calibrated_gyro),
        raw_accel: newer(packet.raw_accel, readings.raw_accel),
        raw_gyro: newer(packet.raw_gyro, readings.raw_gyro),
        raw_mag: newer(mag_of(packet), readings.raw_mag),
        calibrated_mag: match mag_of(packet) {
            None => readings.calibrated_mag,
            Some(raw) => Some(imu::calibrated(raw, calibration, left_speed, right_speed)),
        },
    }
}

/// Update the readings from a packet, returning the raw magnetometer reading to
/// forward to the magnetometer calibration.
pub fn update_from_packet(
    readings: &mut ImuReadings,
    packet: &DmpPacket,
    calibration: Option<MagCalibration>,
    left_speed: i8,
    right_speed: i8,
) -> (mag: Option<MagVector>)
    requires
        left_speed > i8::MIN,
        right_speed > i8::MIN,
    ensures
        mag == mag_of(*packet),
        *final(readings) == updated(*old(readings), *packet, calibration, left_speed, right_speed),
{
    let orientation = match packet.orientation_9axis {
        Some(orientation) => Some(orientation),
        None => packet.orientation_6axis,
    };
    if orientation.is_some() {
        readings.orientation = orientation;
    }
    if packet.raw_accel.is_some() {
        readings.raw_accel = packet.raw_accel;
    }
    if packet.raw_gyro.is_some() {
        readings.raw_gyro = packet.raw_gyro;
    }
    if packet.calibrated_gyro.is_some() {
        readings.calibrated_gyro = packet.calibrated_gyro;
    }
    match packet.raw_mag {
        None => None,
        Some((x, y, z)) => {
            let raw = MagVector {
                x: x as i32 * MAG_SCALE_NT,
                y: y as i32 * MAG_SCALE_NT,
                z: z as i32 * MAG_SCALE_NT,
            };
            readings.raw_mag = Some(raw);
            readings.calibrated_mag =
            Some(imu::calibrate(raw, calibration, left_speed, right_speed));
            Some(raw)
        },
    }
}

/// What the task is in the middle of.
#[derive(Debug, Clone, Copy, PartialEq, Eq, Structural)]
pub enum Phase {
    /// Waiting for a command.
    Standby,
    /// Configuring for a start.
    Starting,
    /// Polling, after this many failed reads in a row.
    Active(u32),
    /// Configuring for another mode.
    Switching(DmpFusionMode),
    /// Configuring for the mode before a switch that failed.
    Restoring,
    /// Over after too many failed reads.
    Terminated,
}

/// What the task does next.
#[derive(Debug, Clone, Copy, PartialEq, Eq, Structural)]
pub enum ImuStep {
    /// Wait for a command.
    WaitForCommand,
    /// Wait for a command, at most until the next poll.
    WaitOrPoll,
    /// Configure the motion processor, enable it and empty its queue.
    Configure(DmpOutputs),
    /// The same, after disabling it.
    Reconfigure(DmpOutputs),
    /// Disable the motion processor, then wait for a command.
    Disable,
    /// Empty the queue, then wait or poll.
    ResetFifo,
    /// Empty the queue and end the task.
    Terminate,
}

/// The IMU task.
#[derive(Debug, Clone, Copy, PartialEq, Eq, Structural)]
pub struct ImuTask {
    /// What the task is in the middle of.
    pub phase: Phase,
    /// The fusion mode.
    pub fusion_mode: DmpFusionMode,
    /// The calibration data in use.
    pub calibration: Option<MagCalibration>,
    /// Whether the magnetometer came up.
    pub mag_available: bool,
    /// Whether an orientation has arrived since the last start.
    pub ready: bool,
    /// The latest readings.
    pub readings: ImuReadings,
}

/// The task after a command, and what it does next. While the motion processor
/// is being configured no command is taken.
pub open spec fn after_command(task: ImuTask, command: ImuCommand) -> (ImuTask, ImuStep) {
    match (task.phase, command) {
        (Phase::Standby, ImuCommand::Start) => (
            ImuTask { phase: Phase::Starting, ..task },
            ImuStep::Configure(outputs_of(task.fusion_mode)),
        ),
        (Phase::Standby, ImuCommand::Stop) => (
            ImuTask { ready: false, ..task },
            ImuStep::WaitForCommand,
        ),
        (Phase::Standby, ImuCommand::LoadCalibration(calibration)) => (
            ImuTask { calibration: Some(calibration), ..task },
            ImuStep::WaitForCommand,
        ),
        (Phase::Standby, ImuCommand::SetFusionMode(mode)) => {
            let new_mode = mode_for(mode, task.mag_available);
            (
                ImuTask {
                    fusion_mode: new_mode,
                    readings: if new_mode is Axis6 {
                        without_mag(task.readings)
                    } else {
                        task.readings
                    },
                    ..task
                },
                ImuStep::WaitForCommand,
            )
        },
        (Phase::Active(_), ImuCommand::Stop) => (
            ImuTask { phase: Phase::Standby, ready: false, ..task },
            ImuStep::Disable,
        ),
        (Phase::Active(_), ImuCommand::SetFusionMode(mode)) => {
            let new_mode = mode_for(mode, task.mag_available);
            if new_mode == task.fusion_mode {
                (task, ImuStep::WaitOrPoll)
            } else {
                (
                    ImuTask { phase: Phase::Switching(new_mode), ..task },
                    ImuStep::Reconfigure(outputs_of(new_mode)),
                )
            }
        },
        (Phase::Active(_), ImuCommand::LoadCalibration(calibration)) => (
            ImuTask { calibration: Some(calibration), ..task },
            ImuStep::WaitOrPoll,
        ),
        (Phase::Active(_), ImuCommand::Start) => (task, ImuStep::WaitOrPoll),
        _ => (task, waiting(task)),
    }
}

/// What the task is waiting for.
pub open spec fn waiting(task: ImuTask) -> ImuStep {
    match task.phase {
        Phase::Standby => ImuStep::WaitForCommand,
        Phase::Starting => ImuStep::Configure(outputs_of(task.fusion_mode)),
        Phase::Active(_) => ImuStep::WaitOrPoll,
        Phase::Switching(mode) => ImuStep::Configure(outputs_of(mode)),
        Phase::Restoring => ImuStep::Configure(outputs_of(task.fusion_mode)),
        Phase::Terminated => ImuStep::Terminate,
    }
}

/// The readings without the magnetometer's.
pub open spec fn without_mag(readings: ImuReadings) -> ImuReadings {
    ImuReadings { raw_mag: None, calibrated_mag: None, ..readings }
}

/// The task after the motion processor was configured, or could not be.
pub open spec fn after_configuring(task: ImuTask, ok: bool) -> (ImuTask, ImuStep) {
    match task.phase {
        Phase::Starting => if ok {
            (ImuTask { phase: Phase::Active(0), ..task }, ImuStep::WaitOrPoll)
        } else {
            (ImuTask { phase: Phase::Standby, ..task }, ImuStep::WaitForCommand)
        },
        Phase::Switching(mode) => if ok {
            (
                ImuTask {
                    phase: Phase::Active(0),
                    fusion_mode: mode,
                    readings: if mode is Axis6 {
                        without_mag(task.readings)
                    } else {
                        task.readings
                    },
                    ..task
                },
                ImuStep::WaitOrPoll,
            )
        } else {
            (
                ImuTask { phase: Phase::Restoring, ..task },
                ImuStep::Configure(outputs_of(task.fusion_mode)),
            )
        },
        Phase::Restoring => if ok {
            (ImuTask { phase: Phase::Active(0), ..task }, ImuStep::WaitOrPoll)
        } else {
            (ImuTask { phase: Phase::Standby, ..task }, ImuStep::WaitForCommand)
        },
        _ => (task, waiting(task)),
    }
}

/// The task after a packet.
pub open spec fn after_packet(
    task: ImuTask,
    packet: DmpPacket,
    left_speed: i8,
    right_speed: i8,
) -> ImuTask {
    match task.phase {
        Phase::Active(_) => ImuTask {
            phase: Phase::Active(0),
            ready: task.ready || orientation_of(packet) is Some,
            readings: updated(task.readings, packet, task.calibration, left_speed, right_speed),
            ..task
        },
        _ => task,
    }
}

/// The task after a failed read.
pub open spec fn after_failed_read(task: ImuTask) -> (ImuTask, ImuStep) {
    match task.phase {
        Phase::Active(failures) => if failures + 1 >= MAX_FIFO_FAILURES {
            (ImuTask { phase: Phase::Terminated, ..task }, ImuStep::Terminate)
        } else {
            (
                ImuTask { phase: Phase::Active((failures + 1) as u32), ..task },
                ImuStep::ResetFifo,
            )
        },
        _ => (task, waiting(task)),
    }
}

impl ImuTask {
    /// The task stops before its failures run out.
    pub open spec fn wf(self) -> bool {
        self.phase matches Phase::Active(failures) ==> failures < MAX_FIFO_FAILURES
    }

    /// The task once the motion processor's firmware is loaded.
    pub fn new(mag_available: bool) -> (task: Self)
        ensures
            task.wf(),
            task == (ImuTask {
                phase: Phase::Standby,
                fusion_mode: DmpFusionMode::Axis6,
                calibration: None,
                mag_available,
                ready: false,
                readings: no_readings(),
            }),
    {
        ImuTask {
            phase: Phase::Standby,
            fusion_mode: effective_mode(DEFAULT_FUSION_MODE, mag_available),
            calibration: None,
            mag_available,
            ready: false,
            readings: ImuReadings::default(),
        }
    }

    /// What the task is waiting for.
    fn wait(&self) -> (step: ImuStep)
        ensures
            step == waiting(*self),
    {
        match self.phase {
            Phase::Standby => ImuStep::WaitForCommand,
            Phase::Starting => ImuStep::Configure(build_dmp_config(self.fusion_mode)),
            Phase::Active(_) => ImuStep::WaitOrPoll,
            Phase::Switching(mode) => ImuStep::Configure(build_dmp_config(mode)),
            Phase::Restoring => ImuStep::Configure(build_dmp_config(self.fusion_mode)),
            Phase::Terminated => ImuStep::Terminate,
        }
    }

    /// Take a command.
    pub fn on_command(&mut self, command: ImuCommand) -> (step: ImuStep)
        requires
            old(self).wf(),
        ensures
            final(self).wf(),
            (*final(self), step) == after_command(*old(self), command),
    {
        match (self.phase, command) {
            (Phase::Standby, ImuCommand::Start) => {
                self.phase = Phase::Starting;
                ImuStep::Configure(build_dmp_config(self.fusion_mode))
            },
            (Phase::Standby, ImuCommand::Stop) => {
                self.ready = false;
                ImuStep::WaitForCommand
            },
            (Phase::Standby, ImuCommand::LoadCalibration(calibration)) => {
                self.calibration = Some(calibration);
                ImuStep::WaitForCommand
            },
            (Phase::Standby, ImuCommand::SetFusionMode(mode)) => {
                self.fusion_mode = effective_mode(mode, self.mag_available);
                match self.fusion_mode {
                    DmpFusionMode::Axis6 => {
                        self.readings.raw_mag = None;
                        self.readings.calibrated_mag = None;
                    },
                    DmpFusionMode::Axis9 => {},
                }
                ImuStep::WaitForCommand
            },
            (Phase::Active(_), ImuCommand::Stop) => {
                self.phase = Phase::Standby;
                self.ready = false;
                ImuStep::Disable
            },
            (Phase::Active(_), ImuCommand::SetFusionMode(mode)) => {
                let new_mode = effective_mode(mode, self.mag_available);
                if new_mode == self.fusion_mode {
                    ImuStep::WaitOrPoll
                } else {
                    self.phase = Phase::Switching(new_mode);
                    ImuStep::Reconfigure(build_dmp_config(new_mode))
                }
            },
            (Phase::Active(_), ImuCommand::LoadCalibration(calibration)) => {
                self.calibration = Some(calibration);
                ImuStep::WaitOrPoll
            },
            _ => self.wait(),
        }
    }

    /// Learn whether the motion processor was configured.
    pub fn on_configured(&mut self, ok: bool) -> (step: ImuStep)
        requires
            old(self).wf(),
        ensures
            final(self).wf(),
            (*final(self), step) == after_configuring(*old(self), ok),
    {
        match self.phase {
            Phase::Starting | Phase::Restoring => {
                if ok {
                    self.phase = Phase::Active(0);
                    ImuStep::WaitOrPoll
                } else {
                    self.phase = Phase::Standby;
                    ImuStep::WaitForCommand
                }
            },
            Phase::Switching(mode) => {
                if ok {
                    self.phase = Phase::Active(0);
                    self.fusion_mode = mode;
                    match mode {
                        DmpFusionMode::Axis6 => {
                            self.readings.raw_mag = None;
                            self.readings.calibrated_mag = None;
                        },
                        DmpFusionMode::Axis9 => {},
                    }
                    ImuStep::WaitOrPoll
                } else {
                    self.phase = Phase::Restoring;
                    ImuStep::Configure(build_dmp_config(self.fusion_mode))
                }
            },
            _ => self.wait(),
        }
    }

    /// Take a packet, returning the orientation to forward to the drive task and the
    /// raw magnetometer reading to forward to the magnetometer calibration.
    pub fn on_packet(
        &mut self,
        packet: &DmpPacket,
        left_speed: i8,
        right_speed: i8,
        timestamp_ms: u64,
    ) -> (forwarded: (Option<ImuMeasurement>, Option<MagVector>))
        requires
            old(self).wf(),
            left_speed > i8::MIN,
            right_speed > i8::MIN,
        ensures
            final(self).wf(),
            *final(self) == after_packet(*old(self), *packet, left_speed, right_speed),
            forwarded == (if old(self).phase is Active {
                (
                    match orientation_of(*packet) {
                        Some(orientation) => Some(ImuMeasurement { orientation, timestamp_ms }),
                        None => None,
                    },
                    mag_of(*packet),
                )
            } else {
                (None, None)
            }),
    {
        match self.phase {
            Phase::Active(_) => {
                self.phase = Phase::Active(0);
                let mag = update_from_packet(
                    &mut self.readings,
                    packet,
                    self.calibration,
                    left_speed,
                    right_speed,
                );
                let orientation = match packet.orientation_9axis {
                    Some(orientation) => Some(orientation),
                    None => packet.orientation_6axis,
                };
                match orientation {
                    Some(orientation) => {
                        self.ready = true;
                        (Some(ImuMeasurement { orientation, timestamp_ms }), mag)
                    },
                    None => (None, mag),
                }
            },
            _ => (None, None),
        }
    }

    /// Learn that a read failed.
    pub fn on_failed_read(&mut self) -> (step: ImuStep)
        requires
            old(self).wf(),
        ensures
            final(self).wf(),
            (*final(self), step) == after_failed_read(*old(self)),
    {
        match self.phase {
            Phase::Active(failures) => {
                if failures + 1 >= MAX_FIFO_FAILURES {
                    self.phase = Phase::Terminated;
                    ImuStep::Terminate
                } else {
                    self.phase = Phase::Active(failures + 1);
                    ImuStep::ResetFifo
                }
            },
            _ => self.wait(),
        }
    }
}

/// Nine-axis fusion never runs without a magnetometer, whatever is asked for.
pub proof fn law_no_nine_axis_without_a_magnetometer(task: ImuTask, command: ImuCommand, ok: bool)
    requires
        !task.mag_available,
        task.fusion_mode is Axis6,
        task.phase !is Switching,
    ensures
        after_command(task, command).0.fusion_mode is Axis6,
        after_command(task, command).0.phase !is Switching,
        after_configuring(task, ok).0.fusion_mode is Axis6,
        after_configuring(task, ok).0.phase !is Switching,
        match after_command(task, command).1 {
            ImuStep::Configure(outputs) => !outputs.raw_mag,
            ImuStep::Reconfigure(outputs) => !outputs.raw_mag,
            _ => true,
        },
{
}

/// A switch that fails and is restored leaves the mode, the calibration and the
/// readings as they were.
pub proof fn law_failed_switch_changes_nothing(task: ImuTask, mode: DmpFusionMode)
    requires
        task.phase is Active,
    ensures
        ({
            let asked = after_command(task, ImuCommand::SetFusionMode(mode)).0;
            asked.phase is Switching ==> {
                let failed = after_configuring(asked, false).0;
                let restored = after_configuring(failed, true).0;
                restored == ImuTask { phase: Phase::Active(0), ..task }
            }
        }),
{
}

/// After a switch to six-axis fusion no magnetometer reading is left, whether the sensor
/// is running or in standby, and where nine-axis fusion was asked for in vain too.
pub proof fn law_six_axis_leaves_no_stale_mag(task: ImuTask, mode: DmpFusionMode)
    requires
        mode_for(mode, task.mag_available) is Axis6,
    ensures
        task.phase is Standby ==> {
            let after = after_command(task, ImuCommand::SetFusionMode(mode)).0;
            &&& after.fusion_mode is Axis6
            &&& after.readings.raw_mag is None
            &&& after.readings.calibrated_mag is None
        },
        task.phase is Active && task.fusion_mode is Axis9 ==> {
            let switching = after_command(task, ImuCommand::SetFusionMode(mode)).0;
            let after = after_configuring(switching, true).0;
            &&& after.fusion_mode is Axis6
            &&& after.readings.raw_mag is None
            &&& after.readings.calibrated_mag is None
        },
{
}

/// The task after a number of failed reads in a row.
pub open spec fn after_failed_reads(task: ImuTask, count: nat) -> ImuTask
    decreases count,
{
    if count == 0 {
        task
    } else {
        after_failed_read(after_failed_reads(task, (count - 1) as nat)).0
    }
}

/// Ten failed reads in a row end the task, and fewer never do; a packet in between
/// starts the count again.
pub proof fn law_failures_end_the_task(task: ImuTask, count: nat)
    requires
        task.phase == Phase::Active(0),
        count <= MAX_FIFO_FAILURES,
    ensures
        after_failed_reads(task, count).phase is Terminated <==> count == MAX_FIFO_FAILURES,
        count < MAX_FIFO_FAILURES ==> after_failed_reads(task, count).phase == Phase::Active(
            count as u32,
        ),
    decreases count,
{
    if count > 0 {
        law_failures_end_the_task(task, (count - 1) as nat);
    }
}

/// A packet replaces what it holds and leaves the rest: the orientation fused with the
/// magnetometer comes before the one without it, and a magnetometer count is 150
/// nanotesla.
pub proof fn law_packet_replaces_what_it_holds(
    readings: ImuReadings,
    packet: DmpPacket,
    calibration: Option<MagCalibration>,
    left_speed: i8,
    right_speed: i8,
)
    ensures
        ({
            let after = updated(readings, packet, calibration, left_speed, right_speed);
            &&& packet.raw_accel is Some ==> after.raw_accel == packet.raw_accel
            &&& packet.raw_accel is None ==> after.raw_accel == readings.raw_accel
            &&& packet.raw_gyro is Some ==> after.raw_gyro == packet.raw_gyro
            &&& packet.raw_gyro is None ==> after.raw_gyro == readings.raw_gyro
            &&& packet.calibrated_gyro is Some ==> after.calibrated_gyro == packet.calibrated_gyro
            &&& packet.calibrated_gyro is None ==> after.calibrated_gyro
                == readings.calibrated_gyro
            &&& packet.orientation_9axis is Some ==> after.orientation == packet.orientation_9axis
            &&& packet.orientation_9axis is None && packet.orientation_6axis is Some
                ==> after.orientation == packet.orientation_6axis
            &&& packet.orientation_9axis is None && packet.orientation_6axis is None
                ==> after.orientation == readings.orientation
            &&& packet.raw_mag is None ==> after.raw_mag == readings.raw_mag
                && after.calibrated_mag == readings.calibrated_mag
            &&& packet.raw_mag matches Some((x, y, z)) ==> {
                &&& after.raw_mag is Some
                &&& after.raw_mag->0.x == 150 * x
                &&& after.raw_mag->0.y == 150 * y
                &&& after.raw_mag->0.z == 150 * z
                &&& after.calibrated_mag == Some(
                    imu::calibrated(after.raw_mag->0, calibration, left_speed, right_speed),
                )
            }
        }),
{
}

/// A fusion mode puts out what it fuses: everything but the magnetometer always, the
/// magnetometer only where it is fused, a hundred times a second.
pub proof fn law_outputs_follow_the_mode(mode: DmpFusionMode)
    ensures
        outputs_of(mode).fusion == mode,
        outputs_of(mode).raw_accel,
        outputs_of(mode).raw_gyro,
        outputs_of(mode).calibrated_gyro,
        outputs_of(mode).raw_mag <==> mode is Axis9,
        outputs_of(mode).sample_rate_hz == 100,
{
}

/// A start configures the mode that was chosen and then polls; one that cannot be
/// configured leaves the task where it was. A stop gives up readiness and disables the
/// motion processor, and the readings stay.
pub proof fn law_start_and_stop(task: ImuTask, failures: u32)
    ensures
        task.phase is Standby ==> {
            let (starting, step) = after_command(task, ImuCommand::Start);
            &&& step == ImuStep::Configure(outputs_of(task.fusion_mode))
            &&& after_configuring(starting, true) == (
                ImuTask { phase: Phase::Active(0), ..task },
                ImuStep::WaitOrPoll,
            )
            &&& after_configuring(starting, false) == (task, ImuStep::WaitForCommand)
        },
        task.phase == Phase::Active(failures) ==> {
            let (stopped, step) = after_command(task, ImuCommand::Stop);
            &&& step == ImuStep::Disable
            &&& stopped == (ImuTask { phase: Phase::Standby, ready: false, ..task })
            &&& after_command(task, ImuCommand::Start) == (task, ImuStep::WaitOrPoll)
        },
{
}

/// Calibration data takes effect whether the sensor runs or not, and changes nothing
/// else.
pub proof fn law_calibration_is_taken_in(task: ImuTask, calibration: MagCalibration)
    requires
        task.phase is Standby || task.phase is Active,
    ensures
        ({
            let (after, step) = after_command(task, ImuCommand::LoadCalibration(calibration));
            &&& after == (ImuTask { calibration: Some(calibration), ..task })
            &&& step is WaitForCommand <==> task.phase is Standby
            &&& step is WaitOrPoll <==> task.phase is Active
        }),
{
}

/// With a magnetometer a running sensor changes to whatever mode is asked for: it is
/// configured for that mode, and is in it once that worked. A mode it is in already
/// costs nothing.
pub proof fn law_running_switch_reaches_the_mode(task: ImuTask, mode: DmpFusionMode)
    requires
        task.phase is Active,
        task.mag_available,
    ensures
        ({
            let (asked, step) = after_command(task, ImuCommand::SetFusionMode(mode));
            let (after, then_step) = after_configuring(asked, true);
            &&& mode == task.fusion_mode ==> asked == task && step is WaitOrPoll
            &&& mode != task.fusion_mode ==> {
                &&& step matches ImuStep::Reconfigure(outputs)
                &&& outputs == outputs_of(mode)
                &&& after.fusion_mode == mode
                &&& after.phase == Phase::Active(0)
                &&& after.calibration == task.calibration
                &&& after.ready == task.ready
                &&& then_step is WaitOrPoll
                &&& mode is Axis9 ==> after.readings == task.readings
            }
        }),
{
}

/// A running task becomes ready with its first orientation and stays so; a task that is
/// not running takes no packet.
pub proof fn law_orientation_makes_ready(
    task: ImuTask,
    packet: DmpPacket,
    left_speed: i8,
    right_speed: i8,
)
    ensures
        ({
            let after = after_packet(task, packet, left_speed, right_speed);
            &&& task.phase !is Active ==> after == task
            &&& task.phase is Active ==> {
                &&& after.phase == Phase::Active(0)
                &&& after.ready <==> task.ready || packet.orientation_9axis is Some
                    || packet.orientation_6axis is Some
                &&& after.fusion_mode == task.fusion_mode
                &&& after.calibration == task.calibration
                &&& after.mag_available == task.mag_available
            }
        }),
{
}

/// A failed read empties the queue and is counted, and costs no reading; the tenth in a
/// row is the last.
pub proof fn law_failed_read_is_counted(task: ImuTask, failures: u32)
    requires
        task.phase == Phase::Active(failures),
        failures < 10,
    ensures
        failures < 9 ==> after_failed_read(task) == (
            ImuTask { phase: Phase::Active((failures + 1) as u32), ..task },
            ImuStep::ResetFifo,
        ),
        failures == 9 ==> after_failed_read(task) == (
            ImuTask { phase: Phase::Terminated, ..task },
            ImuStep::Terminate,
        ),
{
}

/// The sensor is tried sixty times, a twentieth of a second apart, and no more.
pub proof fn law_initialisation_is_tried_sixty_times(attempt: u32, step: InitStep)
    requires
        call_ensures(after_failed_init, (attempt,), step),
    ensures
        step is GiveUp <==> attempt >= 60,
        attempt < 60 ==> step == InitStep::Retry(50),
{
}

/// Each signal leaves its own command, in place of one that was not taken.
pub proof fn law_signals_leave_their_command(
    starting: &mut ImuControl,
    stopping: &mut ImuControl,
    switching: &mut ImuControl,
    loading: &mut ImuControl,
    mode: DmpFusionMode,
    calibration: MagCalibration,
)
    requires
        call_ensures(start_imu_readings, (starting,), ()),
        call_ensures(stop_imu_readings, (stopping,), ()),
        call_ensures(set_dmp_fusion_mode, (switching, mode), ()),
        call_ensures(load_mag_calibration, (loading, calibration), ()),
    ensures
        final(starting).pending == Some(ImuCommand::Start),
        final(stopping).pending == Some(ImuCommand::Stop),
        final(switching).pending == Some(ImuCommand::SetFusionMode(mode)),
        final(loading).pending == Some(ImuCommand::LoadCalibration(calibration)),
{
}

/// A packet to a running task is passed on: its orientation with the time it came, and its
/// magnetometer in nanotesla; a task that is not running passes nothing on.
pub proof fn law_packets_are_passed_on(
    task: &mut ImuTask,
    packet: &DmpPacket,
    left_speed: i8,
    right_speed: i8,
    timestamp_ms: u64,
    forwarded: (Option<ImuMeasurement>, Option<MagVector>),
)
    requires
        call_ensures(
            ImuTask::on_packet,
            (task, packet, left_speed, right_speed, timestamp_ms),
            forwarded,
        ),
    ensures
        old(task).phase !is Active ==> forwarded.0 is None && forwarded.1 is None
            && *final(task) == *old(task),
        old(task).phase is Active ==> {
            &&& forwarded.0 is Some <==> packet.orientation_9axis is Some
                || packet.orientation_6axis is Some
            &&& forwarded.0 matches Some(measurement) ==> measurement.timestamp_ms == timestamp_ms
                && Some(measurement.orientation) == final(task).readings.orientation
            &&& forwarded.1 is Some <==> packet.raw_mag is Some
            &&& packet.raw_mag matches Some((x, y, z)) ==> forwarded.1->0.x == 150 * x
                && forwarded.1->0.y == 150 * y && forwarded.1->0.z == 150 * z
            &&& final(task).phase == Phase::Active(0)
        },
{
}

} // verus!
