//! Driver core for the MPU-6500 inertial measurement unit.
//!
//! Registers are read and written at 1 MHz, one transfer each. A reading is
//! one burst of fifteen bytes at 20 MHz.

pub mod registers;

use vstd::prelude::*;
use vstd::std_specs::convert::FromSpecImpl;
use crate::bus::{mhz, Hertz, SpiBus, SpiBusError};
use crate::operation::{answers, Action, ActionView, Event, EventView, Step, StepView, Transfer, TransferView};
use crate::register::{
    decode_response, read_command, read_frame, spec_read_frame, spec_write_frame, write_frame, Register,
};
use crate::units::{gravity, standard_gravity, Fraction, Ratio, RATIO_LIMIT};
use self::registers::{
    AccelerometerConfig1, AccelerometerConfig2, AccelerometerDataRate, AccelerometerRange, GyroscopeConfig,
    GyroscopeRange, PowerManagement1, UserControl, WhoAmI, ACC_CONFIG_1_ADDRESS, ACC_CONFIG_2_ADDRESS,
    ACC_XOUT_H_ADDRESS, GYRO_CONFIG_ADDRESS, PWR_MGMT_1_ADDRESS, USER_CONTROL_ADDRESS, WHO_AM_I_ADDRESS,
};

verus! {

/// The range that a reset sets the gyroscope to.
pub const GYRO_RANGE: GyroscopeRange = GyroscopeRange::DPS_2000;

/// The range that a reset sets the accelerometer to.
pub const ACCEL_RANGE: AccelerometerRange = AccelerometerRange::G_16;

/// The clock rate of a register access, in megahertz.
pub const REGISTER_MEGAHERTZ: u32 = 1;

/// The clock rate of a burst read, in megahertz.
pub const BURST_MEGAHERTZ: u32 = 20;

/// How long the device takes to settle after power-up and after a reset, in
/// milliseconds.
pub const SETTLE_MILLIS: u32 = 100;

/// The length of a burst: the command, then fourteen bytes of data.
pub const BURST_LEN: usize = 15;

/// The number of steps of a reset.
pub const RESET_STEPS: usize = 7;

/// The step of a reset that reads the identity of the device.
pub const IDENTITY_STEP: usize = 2;

/// Why an operation on the device failed.
#[derive(Clone, Copy, Debug, PartialEq, Eq, Structural)]
pub enum MPU6500Error {
    /// The bus failed during a transfer.
    SpiBusError(SpiBusError),
    /// The device answered with a byte that is no value of the register
    /// that was read.
    InvalidRegister,
}

impl From<SpiBusError> for MPU6500Error {
    fn from(e: SpiBusError) -> (error: Self) {
        Self::SpiBusError(e)
    }
}

impl FromSpecImpl<SpiBusError> for MPU6500Error {
    open spec fn obeys_from_spec() -> bool {
        true
    }

    open spec fn from_spec(e: SpiBusError) -> Self {
        MPU6500Error::SpiBusError(e)
    }
}

/// Where the driver stands in the life of the device.
#[derive(Clone, Copy, Debug, PartialEq, Eq, Structural)]
pub enum ImuState {
    /// Nothing was done to the device yet.
    Uninitialized,
    /// The device is given its time to power up.
    PoweringOn,
    /// The device is being reset and configured.
    Configuring,
    /// The device is configured and gives readings.
    Ready,
    /// A reset failed, with this error. Nothing more is asked of the device:
    /// every operation ends at once with the same error.
    Faulted(MPU6500Error),
}

/// The operation that is under way, and what it waits for.
#[derive(Clone, Copy, Debug, PartialEq, Eq, Structural)]
pub enum Pending {
    /// No operation is under way.
    Idle,
    /// The power-on wait.
    PowerOn,
    /// A reset, waiting for the answer to this step of its script.
    Reset { step: usize },
    /// A reading, stamped with this time, waiting for its burst.
    Read { timestamp: u64 },
}

/// Three axes of a sensor.
#[derive(Clone, Copy, Debug, PartialEq, Eq, Structural)]
pub struct Vector {
    pub x: Ratio,
    pub y: Ratio,
    pub z: Ratio,
}

pub struct VectorView {
    pub x: Fraction,
    pub y: Fraction,
    pub z: Fraction,
}

impl View for Vector {
    type V = VectorView;

    open spec fn view(&self) -> VectorView {
        VectorView { x: self.x@, y: self.y@, z: self.z@ }
    }
}

/// One sample of the device.
#[derive(Clone, Copy, Debug, PartialEq, Eq, Structural)]
pub struct IMUReading {
    /// When the sample was asked for, in microseconds of the caller's clock.
    pub timestamp: u64,
    /// Acceleration in metres per second squared.
    pub acc: Vector,
    /// Angular rate in degrees per second.
    pub gyro: Vector,
}

pub struct IMUReadingView {
    pub timestamp: u64,
    pub acc: VectorView,
    pub gyro: VectorView,
}

impl View for IMUReading {
    type V = IMUReadingView;

    open spec fn view(&self) -> IMUReadingView {
        IMUReadingView { timestamp: self.timestamp, acc: self.acc@, gyro: self.gyro@ }
    }
}

/// The driver of one MPU-6500.
#[derive(Debug)]
pub struct MPU6500 {
    state: ImuState,
    pending: Pending,
}

/// What a driver is made of.
pub struct ImuModel {
    /// Where the driver stands in the life of the device.
    pub state: ImuState,
    /// The operation that is under way.
    pub pending: Pending,
}

impl View for MPU6500 {
    type V = ImuModel;

    closed spec fn view(&self) -> ImuModel {
        ImuModel { state: self.state, pending: self.pending }
    }
}

/// The clock rate of a register access.
pub open spec fn register_frequency() -> Hertz {
    Hertz(1_000_000)
}

/// The clock rate of a burst read.
pub open spec fn burst_frequency() -> Hertz {
    Hertz(20_000_000)
}

/// The transfer that reads the register at `address`.
pub open spec fn register_read(address: u8) -> ActionView {
    ActionView::Transfer(TransferView { frequency: register_frequency(), write: spec_read_frame(address) })
}

/// The transfer that writes the byte `value` to the register at `address`.
pub open spec fn register_write(address: u8, value: u8) -> ActionView {
    ActionView::Transfer(
        TransferView { frequency: register_frequency(), write: spec_write_frame(address, value) },
    )
}

/// What a reset does to the device, in its order: it sets the device-reset
/// bit and lets the device settle, reads the identity, switches the I2C
/// interface off, and sets the range and the rate of the accelerometer and the
/// range of the gyroscope.
pub open spec fn reset_script() -> Seq<ActionView> {
    seq![
        register_write(
            PWR_MGMT_1_ADDRESS,
            (PowerManagement1 { device_reset: true, ..PowerManagement1::zero() }).raw(),
        ),
        ActionView::Sleep { millis: SETTLE_MILLIS },
        register_read(WHO_AM_I_ADDRESS),
        register_write(USER_CONTROL_ADDRESS, (UserControl { i2c_if_dis: true, ..UserControl::zero() }).raw()),
        register_write(
            ACC_CONFIG_1_ADDRESS,
            (AccelerometerConfig1 { range: ACCEL_RANGE, ..AccelerometerConfig1::zero() }).raw(),
        ),
        register_write(
            ACC_CONFIG_2_ADDRESS,
            (AccelerometerConfig2 { data_rate: AccelerometerDataRate::Hz_4K, ..AccelerometerConfig2::zero() }).raw(),
        ),
        register_write(GYRO_CONFIG_ADDRESS, (GyroscopeConfig { range: GYRO_RANGE, ..GyroscopeConfig::zero() }).raw()),
    ]
}

/// What went wrong at step `step` of a reset, if `event` says that
/// something did: the bus failed, or the identity that was read is not that
/// of an MPU-6500.
pub open spec fn reset_failure(step: int, event: EventView) -> Option<MPU6500Error> {
    match event {
        EventView::Transferred(Err(error)) => Some(MPU6500Error::SpiBusError(error)),
        EventView::Transferred(Ok(read)) => if step == IDENTITY_STEP && WhoAmI::parse(read[1]) is None {
            Some(MPU6500Error::InvalidRegister)
        } else {
            None
        },
        EventView::Elapsed => None,
    }
}

/// The frame of a burst read: the command that reads the first data
/// register, then zeros for the device to answer over.
pub open spec fn burst_frame() -> Seq<u8> {
    Seq::new(BURST_LEN as nat, |i: int| if i == 0 { read_command(ACC_XOUT_H_ADDRESS) } else { 0u8 })
}

/// The transfer of a burst read.
pub open spec fn burst_read() -> ActionView {
    ActionView::Transfer(TransferView { frequency: burst_frequency(), write: burst_frame() })
}

/// The signed sixteen-bit number whose bytes are `high` and `low`.
pub open spec fn be_word(high: u8, low: u8) -> int {
    let word = high * 256 + low;
    if word < 0x8000 {
        word
    } else {
        word - 0x1_0000
    }
}

/// The acceleration that `raw` counts stand for in `range`: the counts
/// divided by the counts per g and multiplied by standard gravity.
pub open spec fn spec_acceleration(raw: int, range: AccelerometerRange) -> Fraction {
    Fraction::whole(raw).over(range.scale_factor()).times(gravity())
}

/// The angular rate that `raw` counts stand for in `range`: the counts
/// divided by the counts per degree per second.
pub open spec fn spec_angular_rate(raw: int, range: GyroscopeRange) -> Fraction {
    Fraction::whole(raw).over(range.scale_factor())
}

/// The reading that the burst `frame` holds: after the byte that came back
/// over the command, three words of acceleration, one of temperature, which
/// is passed over, and three of angular rate.
pub open spec fn spec_reading(timestamp: u64, frame: Seq<u8>) -> IMUReadingView {
    IMUReadingView {
        timestamp,
        acc: VectorView {
            x: spec_acceleration(be_word(frame[1], frame[2]), ACCEL_RANGE),
            y: spec_acceleration(be_word(frame[3], frame[4]), ACCEL_RANGE),
            z: spec_acceleration(be_word(frame[5], frame[6]), ACCEL_RANGE),
        },
        gyro: VectorView {
            x: spec_angular_rate(be_word(frame[9], frame[10]), GYRO_RANGE),
            y: spec_angular_rate(be_word(frame[11], frame[12]), GYRO_RANGE),
            z: spec_angular_rate(be_word(frame[13], frame[14]), GYRO_RANGE),
        },
    }
}

impl ImuModel {
    /// The action that the driver waits for an answer to, if it waits.
    pub open spec fn action(self) -> Option<ActionView> {
        match self.pending {
            Pending::Idle => None,
            Pending::PowerOn => Some(ActionView::Sleep { millis: SETTLE_MILLIS }),
            Pending::Reset { step } => if step < RESET_STEPS {
                Some(reset_script()[step as int])
            } else {
                None
            },
            Pending::Read { .. } => Some(burst_read()),
        }
    }

    /// Whether `event` is an answer to what the driver waits for.
    pub open spec fn expects(self, event: EventView) -> bool {
        self.action() matches Some(action) && answers(event, action)
    }

    /// The driver after a call of `wait_for_power_on`, and the step that the
    /// call returns.
    pub open spec fn wait_for_power_on(self) -> (ImuModel, StepView<Result<(), MPU6500Error>>) {
        match self.state {
            ImuState::Faulted(error) => (self, StepView::Finished(Err(error))),
            _ => (
                ImuModel { state: ImuState::PoweringOn, pending: Pending::PowerOn, ..self },
                StepView::Perform(ActionView::Sleep { millis: SETTLE_MILLIS }),
            ),
        }
    }

    /// The driver after the power-on wait is over, and the step.
    pub open spec fn resume_power_on(self) -> (ImuModel, StepView<Result<(), MPU6500Error>>) {
        (ImuModel { pending: Pending::Idle, ..self }, StepView::Finished(Ok(())))
    }

    /// The driver after a call of `reset`, and the step.
    pub open spec fn reset(self) -> (ImuModel, StepView<Result<(), MPU6500Error>>) {
        match self.state {
            ImuState::Faulted(error) => (self, StepView::Finished(Err(error))),
            _ => (
                ImuModel { state: ImuState::Configuring, pending: Pending::Reset { step: 0 }, ..self },
                StepView::Perform(reset_script()[0]),
            ),
        }
    }

    /// The driver after `event` answered step `step` of a reset, and the
    /// step that follows: the next of the script, or the end of the reset,
    /// in `Ready` after the last step and in `Faulted` at the first failure.
    pub open spec fn resume_reset(self, step: usize, event: EventView) -> (
        ImuModel,
        StepView<Result<(), MPU6500Error>>,
    ) {
        match reset_failure(step as int, event) {
            Some(error) => (
                ImuModel { state: ImuState::Faulted(error), pending: Pending::Idle, ..self },
                StepView::Finished(Err(error)),
            ),
            None => if step + 1 < RESET_STEPS {
                (
                    ImuModel { pending: Pending::Reset { step: (step + 1) as usize }, ..self },
                    StepView::Perform(reset_script()[step + 1]),
                )
            } else {
                (ImuModel { state: ImuState::Ready, pending: Pending::Idle, ..self }, StepView::Finished(Ok(())))
            },
        }
    }

    /// The driver after a call of `read` at the time `timestamp`, and the
    /// step.
    pub open spec fn read(self, timestamp: u64) -> (ImuModel, StepView<Result<IMUReadingView, MPU6500Error>>) {
        match self.state {
            ImuState::Faulted(error) => (self, StepView::Finished(Err(error))),
            _ => (ImuModel { pending: Pending::Read { timestamp }, ..self }, StepView::Perform(burst_read())),
        }
    }

    /// The driver after `event` answered the burst of a reading that was
    /// stamped `timestamp`, and the step. A reading that fails leaves the
    /// driver in the state it was in.
    pub open spec fn resume_read(self, timestamp: u64, event: EventView) -> (
        ImuModel,
        StepView<Result<IMUReadingView, MPU6500Error>>,
    ) {
        (
            ImuModel { pending: Pending::Idle, ..self },
            StepView::Finished(
                match event {
                    EventView::Transferred(Ok(frame)) => Ok(spec_reading(timestamp, frame)),
                    EventView::Transferred(Err(error)) => Err(MPU6500Error::SpiBusError(error)),
                    EventView::Elapsed => arbitrary(),
                },
            ),
        )
    }
}

/// The driver, and the step that it is at, after the first `n` of `events`
/// answered a reset that was started on `model`. Once the reset is over,
/// further events change nothing.
pub open spec fn reset_after(model: ImuModel, events: Seq<EventView>, n: nat) -> (
    ImuModel,
    StepView<Result<(), MPU6500Error>>,
)
    decreases n,
{
    if n == 0 {
        model.reset()
    } else {
        let (before, step) = reset_after(model, events, (n - 1) as nat);
        match (step, before.pending) {
            (StepView::Perform(_), Pending::Reset { step: at }) => before.resume_reset(at, events[n - 1]),
            _ => (before, step),
        }
    }
}

/// A reset goes through its script in order: as long as every answer is a
/// success, the step after `n` answers is step `n` of the script, and after
/// the last step the reset ends well and the driver is `Ready`.
pub proof fn lemma_reset_follows_script(model: ImuModel, events: Seq<EventView>, n: nat)
    requires
        !(model.state is Faulted),
        n <= RESET_STEPS,
        forall|i: int| 0 <= i < n ==> reset_failure(i, #[trigger] events[i]) is None,
    ensures
        n < RESET_STEPS ==> reset_after(model, events, n) == (
            ImuModel { state: ImuState::Configuring, pending: Pending::Reset { step: n as usize }, ..model },
            StepView::<Result<(), MPU6500Error>>::Perform(reset_script()[n as int]),
        ),
        n == RESET_STEPS ==> reset_after(model, events, n) == (
            ImuModel { state: ImuState::Ready, pending: Pending::Idle, ..model },
            StepView::<Result<(), MPU6500Error>>::Finished(Ok(())),
        ),
    decreases n,
{
    if n > 0 {
        lemma_reset_follows_script(model, events, (n - 1) as nat);
        assert(reset_failure(n - 1, events[n - 1]) is None);
    }
}

/// A reset ends at its first failure: the driver is `Faulted` with the
/// error, the reset ends with it, and no step of the script follows,
/// whatever the answers after it.
pub proof fn lemma_reset_stops_at_failure(model: ImuModel, events: Seq<EventView>, k: nat, n: nat)
    requires
        !(model.state is Faulted),
        k < RESET_STEPS,
        forall|i: int| 0 <= i < k ==> reset_failure(i, #[trigger] events[i]) is None,
        reset_failure(k as int, events[k as int]) is Some,
        k < n,
    ensures
        reset_after(model, events, n) == (
            ImuModel {
                state: ImuState::Faulted(reset_failure(k as int, events[k as int])->0),
                pending: Pending::Idle,
                ..model
            },
            StepView::<Result<(), MPU6500Error>>::Finished(Err(reset_failure(k as int, events[k as int])->0)),
        ),
    decreases n,
{
    if n == k + 1 {
        lemma_reset_follows_script(model, events, k);
    } else {
        lemma_reset_stops_at_failure(model, events, k, (n - 1) as nat);
    }
}

/// A driver that is `Faulted` asks nothing of the device: a reset of it is
/// over at once, with the error of the fault.
pub proof fn lemma_reset_of_faulted(model: ImuModel, events: Seq<EventView>, n: nat)
    requires
        model.state is Faulted,
    ensures
        reset_after(model, events, n) == (
            model,
            StepView::<Result<(), MPU6500Error>>::Finished(Err(model.state->Faulted_0)),
        ),
    decreases n,
{
    if n > 0 {
        lemma_reset_of_faulted(model, events, (n - 1) as nat);
    }
}

/// No step of a reset is taken before every step ahead of it went well:
/// when a reset asks for an action after `n` answers, the action is step `n`
/// of the script and all `n` answers were successes. So the identity is read
/// only after the wait that follows the device reset, and a configuration
/// register is written only after the identity was read and found right.
pub proof fn lemma_reset_order(model: ImuModel, events: Seq<EventView>, n: nat)
    requires
        reset_after(model, events, n).1 is Perform,
    ensures
        !(model.state is Faulted),
        n < RESET_STEPS,
        reset_after(model, events, n).1 == StepView::<Result<(), MPU6500Error>>::Perform(reset_script()[n as int]),
        forall|i: int| 0 <= i < n ==> reset_failure(i, #[trigger] events[i]) is None,
    decreases n,
{
    if model.state is Faulted {
        lemma_reset_of_faulted(model, events, n);
    } else if n == 0 {
    } else {
        let (before, step) = reset_after(model, events, (n - 1) as nat);
        if step is Perform {
            lemma_reset_order(model, events, (n - 1) as nat);
            lemma_reset_follows_script(model, events, (n - 1) as nat);
            assert(before.pending == Pending::Reset { step: (n - 1) as usize });
            assert(reset_failure(n - 1, events[n - 1]) is None);
            lemma_reset_follows_script(model, events, n);
        }
    }
}

/// The bytes of a reset, as they go over the bus.
pub proof fn lemma_reset_script_bytes()
    ensures
        reset_script() == seq![
            ActionView::Transfer(TransferView { frequency: Hertz(1_000_000), write: seq![0x6Bu8, 0x80u8] }),
            ActionView::Sleep { millis: 100 },
            ActionView::Transfer(TransferView { frequency: Hertz(1_000_000), write: seq![0xF5u8, 0x00u8] }),
            ActionView::Transfer(TransferView { frequency: Hertz(1_000_000), write: seq![0x6Au8, 0x10u8] }),
            ActionView::Transfer(TransferView { frequency: Hertz(1_000_000), write: seq![0x1Cu8, 0x18u8] }),
            ActionView::Transfer(TransferView { frequency: Hertz(1_000_000), write: seq![0x1Du8, 0x08u8] }),
            ActionView::Transfer(TransferView { frequency: Hertz(1_000_000), write: seq![0x1Bu8, 0x18u8] }),
        ],
        burst_frame() == seq![0xBBu8, 0u8, 0u8, 0u8, 0u8, 0u8, 0u8, 0u8, 0u8, 0u8, 0u8, 0u8, 0u8, 0u8, 0u8],
{
    assert(0x6Bu8 & 0x7f == 0x6B && 0x6Au8 & 0x7f == 0x6A && 0x1Cu8 & 0x7f == 0x1C && 0x1Du8 & 0x7f == 0x1D
        && 0x1Bu8 & 0x7f == 0x1B && 0x75u8 | 0x80 == 0xF5 && 0x3Bu8 | 0x80 == 0xBB) by (bit_vector);
    assert(0x80u8 | 0 | 0 | 0 | 0 | 0 == 0x80 && 0u8 | 0 | 0 | 0x10 | 0 | 0 | 0 | 0 == 0x10 && 0u8 | 0 | 0 | (3u8
        << 3) == 0x18 && 0x08u8 | 0 == 0x08 && 0u8 | 0 | 0 | (3u8 << 3) | 0 == 0x18) by (bit_vector);
    let script = reset_script();
    assert(script[0]->Transfer_0.write =~= seq![0x6Bu8, 0x80u8]);
    assert(script[2]->Transfer_0.write =~= seq![0xF5u8, 0x00u8]);
    assert(script[3]->Transfer_0.write =~= seq![0x6Au8, 0x10u8]);
    assert(script[4]->Transfer_0.write =~= seq![0x1Cu8, 0x18u8]);
    assert(script[5]->Transfer_0.write =~= seq![0x1Du8, 0x08u8]);
    assert(script[6]->Transfer_0.write =~= seq![0x1Bu8, 0x18u8]);
    assert(burst_frame() =~= seq![0xBBu8, 0u8, 0u8, 0u8, 0u8, 0u8, 0u8, 0u8, 0u8, 0u8, 0u8, 0u8, 0u8, 0u8, 0u8]);
}

/// A bus that is rated for 20 MHz takes every transfer that the driver asks
/// for: a register access is two bytes at 1 MHz, a burst fifteen at 20 MHz.
pub proof fn lemma_transfers_are_admitted(bus: SpiBus, model: ImuModel)
    requires
        bus.max_frequency.0 >= 20_000_000,
        model.action() matches Some(ActionView::Transfer(_)),
    ensures
        ({
            let transfer = model.action()->0->Transfer_0;
            &&& transfer.frequency == register_frequency() || transfer.frequency == burst_frequency()
            &&& transfer.write.len() == 2 || transfer.write.len() == BURST_LEN
            &&& bus.admits(transfer.frequency, transfer.write.len() as usize, transfer.write.len() as usize)
        }),
{
}

/// With the ranges that a reset sets, one count of acceleration is
/// 981/204800 metres per second squared and one count of angular rate is 10/164 degrees per
/// second.
pub proof fn lemma_reading_scale(raw: int)
    ensures
        spec_acceleration(raw, ACCEL_RANGE) == (Fraction { numerator: raw * 981, denominator: 204800 }),
        spec_angular_rate(raw, GYRO_RANGE) == (Fraction { numerator: raw * 10, denominator: 164 }),
{
}

/// The signed sixteen-bit number whose bytes are `high` and `low`, high
/// byte first.
pub fn be_i16(high: u8, low: u8) -> (word: i16)
    ensures
        word == be_word(high, low),
{
    let word: i32 = high as i32 * 256 + low as i32;
    if word < 0x8000 {
        word as i16
    } else {
        (word - 0x1_0000) as i16
    }
}

/// The acceleration that `raw` counts stand for in `range`, in metres per
/// second squared.
pub fn acceleration(raw: i16, range: AccelerometerRange) -> (value: Ratio)
    ensures
        value@ == spec_acceleration(raw as int, range),
        value.denominator > 0,
{
    let factor = range.get_scale_factor();
    let in_g = Ratio::whole(raw).over(&factor);
    assert(-RATIO_LIMIT <= raw * factor.denominator <= RATIO_LIMIT) by (nonlinear_arith)
        requires
            -0x8000 <= raw < 0x8000,
            0 < factor.denominator <= 10,
    ;
    in_g.times(&standard_gravity())
}

/// The angular rate that `raw` counts stand for in `range`, in degrees per
/// second.
pub fn angular_rate(raw: i16, range: GyroscopeRange) -> (value: Ratio)
    ensures
        value@ == spec_angular_rate(raw as int, range),
        value.denominator > 0,
{
    let factor = range.get_scale_factor();
    Ratio::whole(raw).over(&factor)
}

impl MPU6500 {
    /// A driver of a device to which nothing was done yet.
    pub fn new() -> (driver: Self)
        ensures
            driver@ == (ImuModel {
                state: ImuState::Uninitialized,
                pending: Pending::Idle,
            }),
    {
        MPU6500 { state: ImuState::Uninitialized, pending: Pending::Idle }
    }

    pub fn state(&self) -> (state: ImuState)
        ensures
            state == self@.state,
    {
        self.state
    }

    pub fn pending(&self) -> (pending: Pending)
        ensures
            pending == self@.pending,
    {
        self.pending
    }

    /// The transfer that reads the register at `address`: its address with
    /// the read bit set, then a byte for the answer.
    pub fn read_register(address: u8) -> (transfer: Transfer)
        ensures
            ActionView::Transfer(transfer@) == register_read(address),
    {
        Transfer { frequency: mhz(REGISTER_MEGAHERTZ), write: read_frame(address) }
    }

    /// What a read of a register of type `R` came to: the value that the
    /// second byte of the answer stands for.
    pub fn read_response<R: Register>(outcome: Result<Vec<u8>, SpiBusError>) -> (value: Result<R, MPU6500Error>)
        requires
            outcome matches Ok(read) ==> read.len() == 2,
        ensures
            match outcome {
                Ok(read) => match R::parse(read@[1]) {
                    Some(register) => value == Ok::<R, MPU6500Error>(register),
                    None => value == Err::<R, MPU6500Error>(MPU6500Error::InvalidRegister),
                },
                Err(error) => value == Err::<R, MPU6500Error>(MPU6500Error::SpiBusError(error)),
            },
    {
        match outcome {
            Ok(read) => match decode_response::<R>(&read) {
                Some(register) => Ok(register),
                None => Err(MPU6500Error::InvalidRegister),
            },
            Err(error) => Err(MPU6500Error::from(error)),
        }
    }

    /// The transfer that writes `data` to the register at `address`: its
    /// address with the read bit clear, then the byte that stands for `data`.
    pub fn write_register<R: Register>(address: u8, data: R) -> (transfer: Transfer)
        ensures
            ActionView::Transfer(transfer@) == register_write(address, data.raw()),
    {
        Transfer { frequency: mhz(REGISTER_MEGAHERTZ), write: write_frame(address, &data) }
    }

    /// What a write of a register came to. What the device sent back is
    /// dropped.
    pub fn write_response(outcome: Result<Vec<u8>, SpiBusError>) -> (done: Result<(), MPU6500Error>)
        ensures
            match outcome {
                Ok(_) => done == Ok::<(), MPU6500Error>(()),
                Err(error) => done == Err::<(), MPU6500Error>(MPU6500Error::SpiBusError(error)),
            },
    {
        match outcome {
            Ok(_) => Ok(()),
            Err(error) => Err(MPU6500Error::from(error)),
        }
    }

    /// Step `step` of a reset.
    fn reset_action(step: usize) -> (action: Action)
        requires
            step < RESET_STEPS,
        ensures
            action@ == reset_script()[step as int],
    {
        if step == 0 {
            let mut reg = PowerManagement1::default();
            reg.set_device_reset(true);
            Action::Transfer(Self::write_register(PWR_MGMT_1_ADDRESS, reg))
        } else if step == 1 {
            Action::Sleep { millis: SETTLE_MILLIS }
        } else if step == 2 {
            Action::Transfer(Self::read_register(WHO_AM_I_ADDRESS))
        } else if step == 3 {
            let mut reg = UserControl::default();
            reg.set_i2c_if_dis(true);
            Action::Transfer(Self::write_register(USER_CONTROL_ADDRESS, reg))
        } else if step == 4 {
            let mut reg = AccelerometerConfig1::default();
            reg.set_range(ACCEL_RANGE);
            Action::Transfer(Self::write_register(ACC_CONFIG_1_ADDRESS, reg))
        } else if step == 5 {
            let mut reg = AccelerometerConfig2::default();
            reg.set_data_rate(AccelerometerDataRate::Hz_4K);
            Action::Transfer(Self::write_register(ACC_CONFIG_2_ADDRESS, reg))
        } else {
            let mut reg = GyroscopeConfig::default();
            reg.set_range(GYRO_RANGE);
            Action::Transfer(Self::write_register(GYRO_CONFIG_ADDRESS, reg))
        }
    }

    /// The transfer of a burst read.
    pub fn burst_transfer() -> (transfer: Transfer)
        ensures
            ActionView::Transfer(transfer@) == burst_read(),
    {
        let mut write: Vec<u8> = Vec::new();
        write.push(read_command(ACC_XOUT_H_ADDRESS));
        while write.len() < BURST_LEN
            invariant
                1 <= write.len() <= BURST_LEN,
                forall|i: int| 0 <= i < write.len() ==> write@[i] == burst_frame()[i],
            decreases BURST_LEN - write.len(),
        {
            write.push(0u8);
        }
        assert(write@ =~= burst_frame());
        Transfer { frequency: mhz(BURST_MEGAHERTZ), write }
    }

    /// The reading that the burst `frame` holds.
    pub fn parse_reading(timestamp: u64, frame: &Vec<u8>) -> (reading: IMUReading)
        requires
            frame.len() == BURST_LEN,
        ensures
            reading@ == spec_reading(timestamp, frame@),
    {
        let x = acceleration(be_i16(frame[1], frame[2]), ACCEL_RANGE);
        let y = acceleration(be_i16(frame[3], frame[4]), ACCEL_RANGE);
        let z = acceleration(be_i16(frame[5], frame[6]), ACCEL_RANGE);
        let acc = Vector { x, y, z };
        let x = angular_rate(be_i16(frame[9], frame[10]), GYRO_RANGE);
        let y = angular_rate(be_i16(frame[11], frame[12]), GYRO_RANGE);
        let z = angular_rate(be_i16(frame[13], frame[14]), GYRO_RANGE);
        let gyro = Vector { x, y, z };
        IMUReading { timestamp, acc, gyro }
    }

    /// The action that the driver waits for an answer to, if it waits.
    pub fn action(&self) -> (action: Option<Action>)
        ensures
            match action {
                Some(action) => self@.action() == Some(action@),
                None => self@.action() is None,
            },
    {
        match self.pending {
            Pending::Idle => None,
            Pending::PowerOn => Some(Action::Sleep { millis: SETTLE_MILLIS }),
            Pending::Reset { step } => if step < RESET_STEPS {
                Some(Self::reset_action(step))
            } else {
                None
            },
            Pending::Read { .. } => Some(Action::Transfer(Self::burst_transfer())),
        }
    }

    /// Whether `event` is an answer to what the driver waits for.
    pub fn expects(&self, event: &Event) -> (yes: bool)
        ensures
            yes == self@.expects(event@),
    {
        match self.action() {
            Some(action) => event.answers(&action),
            None => false,
        }
    }

    /// Starts the wait for the device to power up: a wait of 100 ms, with no
    /// access to the device. Whatever was under way is given up.
    pub fn wait_for_power_on(&mut self) -> (step: Step<Result<(), MPU6500Error>>)
        ensures
            (final(self)@, step@) == old(self)@.wait_for_power_on(),
    {
        match self.state {
            ImuState::Faulted(error) => Step::Finished(Err(error)),
            _ => {
                self.state = ImuState::PoweringOn;
                self.pending = Pending::PowerOn;
                Step::Perform(Action::Sleep { millis: SETTLE_MILLIS })
            },
        }
    }

    /// Ends the wait for the device to power up, if that is what the driver
    /// waits for and `event` is the end of a wait. If not, nothing is done.
    pub fn resume_power_on(&mut self, event: Event) -> (step: Option<Step<Result<(), MPU6500Error>>>)
        ensures
            match step {
                Some(step) => {
                    &&& old(self)@.pending is PowerOn
                    &&& old(self)@.expects(event@)
                    &&& (final(self)@, step@) == old(self)@.resume_power_on()
                },
                None => {
                    &&& !(old(self)@.pending is PowerOn && old(self)@.expects(event@))
                    &&& final(self)@ == old(self)@
                },
            },
    {
        match (self.pending, event) {
            (Pending::PowerOn, Event::Elapsed) => {
                self.pending = Pending::Idle;
                Some(Step::Finished(Ok(())))
            },
            _ => None,
        }
    }

    /// Starts a reset of the device. Whatever was under way is given up.
    pub fn reset(&mut self) -> (step: Step<Result<(), MPU6500Error>>)
        ensures
            (final(self)@, step@) == old(self)@.reset(),
    {
        match self.state {
            ImuState::Faulted(error) => Step::Finished(Err(error)),
            _ => {
                self.state = ImuState::Configuring;
                self.pending = Pending::Reset { step: 0 };
                Step::Perform(Self::reset_action(0))
            },
        }
    }

    /// Goes on with a reset, if the driver waits for the answer to a step
    /// of one and `event` is such an answer. If not, nothing is done.
    pub fn resume_reset(&mut self, event: Event) -> (step: Option<Step<Result<(), MPU6500Error>>>)
        ensures
            match step {
                Some(step) => {
                    &&& old(self)@.pending is Reset
                    &&& old(self)@.expects(event@)
                    &&& (final(self)@, step@) == old(self)@.resume_reset(old(self)@.pending->step, event@)
                },
                None => {
                    &&& !(old(self)@.pending is Reset && old(self)@.expects(event@))
                    &&& final(self)@ == old(self)@
                },
            },
    {
        let at = match self.pending {
            Pending::Reset { step } => step,
            _ => return None,
        };
        if !self.expects(&event) {
            return None;
        }
        let failure = match event {
            Event::Transferred(outcome) => {
                if at == IDENTITY_STEP {
                    match Self::read_response::<WhoAmI>(outcome) {
                        Ok(_) => None,
                        Err(error) => Some(error),
                    }
                } else {
                    match Self::write_response(outcome) {
                        Ok(_) => None,
                        Err(error) => Some(error),
                    }
                }
            },
            Event::Elapsed => None,
        };
        match failure {
            Some(error) => {
                self.state = ImuState::Faulted(error);
                self.pending = Pending::Idle;
                Some(Step::Finished(Err(error)))
            },
            None => {
                if at + 1 < RESET_STEPS {
                    self.pending = Pending::Reset { step: at + 1 };
                    Some(Step::Perform(Self::reset_action(at + 1)))
                } else {
                    self.state = ImuState::Ready;
                    self.pending = Pending::Idle;
                    Some(Step::Finished(Ok(())))
                }
            },
        }
    }

    /// Starts a reading. `timestamp` is the time right now, in microseconds:
    /// the reading is stamped with it. Whatever was under way is given up.
    pub fn read(&mut self, timestamp: u64) -> (step: Step<Result<IMUReading, MPU6500Error>>)
        ensures
            (final(self)@, step.result_view()) == old(self)@.read(timestamp),
    {
        match self.state {
            ImuState::Faulted(error) => Step::Finished(Err(error)),
            _ => {
                self.pending = Pending::Read { timestamp };
                Step::Perform(Action::Transfer(Self::burst_transfer()))
            },
        }
    }

    /// Ends a reading, if the driver waits for the burst of one and `event`
    /// is the answer to it. If not, nothing is done.
    pub fn resume_read(&mut self, event: Event) -> (step: Option<Step<Result<IMUReading, MPU6500Error>>>)
        ensures
            match step {
                Some(step) => {
                    &&& old(self)@.pending is Read
                    &&& old(self)@.expects(event@)
                    &&& (final(self)@, step.result_view()) == old(self)@.resume_read(
                        old(self)@.pending->timestamp,
                        event@,
                    )
                },
                None => {
                    &&& !(old(self)@.pending is Read && old(self)@.expects(event@))
                    &&& final(self)@ == old(self)@
                },
            },
    {
        let timestamp = match self.pending {
            Pending::Read { timestamp } => timestamp,
            _ => return None,
        };
        if !self.expects(&event) {
            return None;
        }
        self.pending = Pending::Idle;
        match event {
            Event::Transferred(Ok(frame)) => Some(Step::Finished(Ok(Self::parse_reading(timestamp, &frame)))),
            Event::Transferred(Err(error)) => Some(Step::Finished(Err(MPU6500Error::from(error)))),
            Event::Elapsed => None,
        }
    }
}

} // verus!
