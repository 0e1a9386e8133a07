//! Driver core for the H3LIS100DL high-g accelerometer.
//!
//! The device keeps each axis in a register of its own. Every access is one
//! transfer of two bytes at 10 MHz.

pub mod registers;

use vstd::prelude::*;
use vstd::std_specs::convert::FromSpecImpl;
use crate::bus::{mhz, Hertz, SpiBus, SpiBusError};
use crate::operation::{answers, Action, ActionView, Event, EventView, Step, StepView, Transfer, TransferView};
use crate::register::{decode_response, read_frame, spec_read_frame, spec_write_frame, write_frame, Register};
use crate::units::{gravity, standard_gravity, Fraction, Ratio};
use self::registers::{
    Acceleration, AccelerationView, AccelerometerRange, AxisOutput, WhoAmI, CTRL_REG1, CTRL_REG2, NORMAL_MODE,
    OUT_X_REG, OUT_Y_REG, OUT_Z_REG, POWER_DOWN, REBOOT, WHO_AM_I_ADDR,
};

verus! {

/// The range of the accelerometer: 100 g either way.
pub const ACCEL_RANGE: AccelerometerRange = AccelerometerRange::G_100;

/// The clock rate of a register access, in megahertz.
pub const REGISTER_MEGAHERTZ: u32 = 10;

/// How long the device takes to settle after power-up and after a change of
/// its power mode, in milliseconds.
pub const SETTLE_MILLIS: u32 = 100;

/// The number of steps of a reset.
pub const RESET_STEPS: usize = 6;

/// The step of a reset that reads the identity of the device.
pub const IDENTITY_STEP: usize = 5;

/// Why an operation on the device failed.
#[derive(Clone, Copy, Debug, PartialEq, Eq, Structural)]
pub enum H3LIS100DLError {
    /// The bus failed during a transfer.
    SpiBusError(SpiBusError),
    /// The device answered with a byte that is no value of the register
    /// that was read.
    InvalidRegister,
}

impl From<SpiBusError> for H3LIS100DLError {
    fn from(e: SpiBusError) -> (error: Self) {
        Self::SpiBusError(e)
    }
}

impl FromSpecImpl<SpiBusError> for H3LIS100DLError {
    open spec fn obeys_from_spec() -> bool {
        true
    }

    open spec fn from_spec(e: SpiBusError) -> Self {
        H3LIS100DLError::SpiBusError(e)
    }
}

/// Where the driver stands in the life of the device.
#[derive(Clone, Copy, Debug, PartialEq, Eq, Structural)]
pub enum MotionSensorState {
    /// Nothing was done to the device yet.
    Uninitialized,
    /// The device is given its time to power up.
    PoweringOn,
    /// The device is being reset.
    Resetting,
    /// The device is reset and gives readings.
    Ready,
    /// A reset failed, with this error. Nothing more is asked of the device:
    /// every operation ends at once with the same error.
    Faulted(H3LIS100DLError),
}

/// The operation that is under way, and what it waits for.
#[derive(Clone, Copy, Debug, PartialEq, Eq, Structural)]
pub enum Pending {
    /// No operation is under way.
    Idle,
    /// The power-on wait.
    PowerOn,
    /// A reset, waiting for the answer to this step of its script.
    Reset { step: usize },
    /// A reading, waiting for the X axis.
    ReadX,
    /// A reading that has its X axis, waiting for the Y axis.
    ReadY { x: i8 },
    /// A reading that has its X and Y axes, waiting for the Z axis.
    ReadZ { x: i8, y: i8 },
}

/// The driver of one H3LIS100DL.
#[derive(Debug)]
pub struct H3LIS100DL {
    state: MotionSensorState,
    pending: Pending,
}

/// What a driver is made of.
pub struct MotionSensorModel {
    /// Where the driver stands in the life of the device.
    pub state: MotionSensorState,
    /// The operation that is under way.
    pub pending: Pending,
}

impl View for H3LIS100DL {
    type V = MotionSensorModel;

    closed spec fn view(&self) -> MotionSensorModel {
        MotionSensorModel { state: self.state, pending: self.pending }
    }
}

/// The clock rate of a register access.
pub open spec fn register_frequency() -> Hertz {
    Hertz(10_000_000)
}

/// The transfer that reads the register at `address`.
pub open spec fn register_read(address: u8) -> ActionView {
    ActionView::Transfer(TransferView { frequency: register_frequency(), write: spec_read_frame(address) })
}

/// The transfer that writes the byte `value` to the register at `address`.
pub open spec fn register_write(address: u8, value: u8) -> ActionView {
    ActionView::Transfer(
        TransferView { frequency: register_frequency(), write: spec_write_frame(address, value) },
    )
}

/// What a reset does to the device, in its order: it powers the device down
/// and lets it settle, powers it up into normal mode and lets it settle
/// again, has it reload its internal registers, and reads the identity.
pub open spec fn reset_script() -> Seq<ActionView> {
    seq![
        register_write(CTRL_REG1, POWER_DOWN),
        ActionView::Sleep { millis: SETTLE_MILLIS },
        register_write(CTRL_REG1, NORMAL_MODE),
        ActionView::Sleep { millis: SETTLE_MILLIS },
        register_write(CTRL_REG2, REBOOT),
        register_read(WHO_AM_I_ADDR),
    ]
}

/// What went wrong at step `step` of a reset, if `event` says that
/// something did: the bus failed, or the identity that was read is not that
/// of an H3LIS100DL.
pub open spec fn reset_failure(step: int, event: EventView) -> Option<H3LIS100DLError> {
    match event {
        EventView::Transferred(Err(error)) => Some(H3LIS100DLError::SpiBusError(error)),
        EventView::Transferred(Ok(read)) => if step == IDENTITY_STEP && WhoAmI::parse(read[1]) is None {
            Some(H3LIS100DLError::InvalidRegister)
        } else {
            None
        },
        EventView::Elapsed => None,
    }
}

/// The acceleration that `raw` counts stand for in `range`: the counts
/// multiplied by the g per count and by standard gravity.
pub open spec fn spec_acceleration(raw: int, range: AccelerometerRange) -> Fraction {
    Fraction::whole(raw).times(range.scale_factor()).times(gravity())
}

/// The reading that the counts of the three axes stand for.
pub open spec fn spec_reading(x: i8, y: i8, z: i8) -> AccelerationView {
    AccelerationView {
        x: spec_acceleration(x as int, ACCEL_RANGE),
        y: spec_acceleration(y as int, ACCEL_RANGE),
        z: spec_acceleration(z as int, ACCEL_RANGE),
    }
}

/// The counts that an axis register answered with.
pub open spec fn axis_counts(read: Seq<u8>) -> i8 {
    AxisOutput::parse(read[1])->0.counts
}

impl MotionSensorModel {
    /// The action that the driver waits for an answer to, if it waits.
    pub open spec fn action(self) -> Option<ActionView> {
        match self.pending {
            Pending::Idle => None,
            Pending::PowerOn => Some(ActionView::Sleep { millis: SETTLE_MILLIS }),
            Pending::Reset { step } => if step < RESET_STEPS {
                Some(reset_script()[step as int])
            } else {
                None
            },
            Pending::ReadX => Some(register_read(OUT_X_REG)),
            Pending::ReadY { .. } => Some(register_read(OUT_Y_REG)),
            Pending::ReadZ { .. } => Some(register_read(OUT_Z_REG)),
        }
    }

    /// Whether `event` is an answer to what the driver waits for.
    pub open spec fn expects(self, event: EventView) -> bool {
        self.action() matches Some(action) && answers(event, action)
    }

    /// Whether a reading is under way.
    pub open spec fn reading(self) -> bool {
        self.pending is ReadX || self.pending is ReadY || self.pending is ReadZ
    }

    /// The driver after a call of `wait_for_power_on`, and the step that the
    /// call returns.
    pub open spec fn wait_for_power_on(self) -> (MotionSensorModel, StepView<Result<(), H3LIS100DLError>>) {
        match self.state {
            MotionSensorState::Faulted(error) => (self, StepView::Finished(Err(error))),
            _ => (
                MotionSensorModel { state: MotionSensorState::PoweringOn, pending: Pending::PowerOn, ..self },
                StepView::Perform(ActionView::Sleep { millis: SETTLE_MILLIS }),
            ),
        }
    }

    /// The driver after the power-on wait is over, and the step.
    pub open spec fn resume_power_on(self) -> (MotionSensorModel, StepView<Result<(), H3LIS100DLError>>) {
        (MotionSensorModel { pending: Pending::Idle, ..self }, StepView::Finished(Ok(())))
    }

    /// The driver after a call of `reset`, and the step.
    pub open spec fn reset(self) -> (MotionSensorModel, StepView<Result<(), H3LIS100DLError>>) {
        match self.state {
            MotionSensorState::Faulted(error) => (self, StepView::Finished(Err(error))),
            _ => (
                MotionSensorModel {
                    state: MotionSensorState::Resetting,
                    pending: Pending::Reset { step: 0 },
                    ..self
                },
                StepView::Perform(reset_script()[0]),
            ),
        }
    }

    /// The driver after `event` answered step `step` of a reset, and the
    /// step that follows: the next of the script, or the end of the reset,
    /// in `Ready` after the last step and in `Faulted` at the first failure.
    pub open spec fn resume_reset(self, step: usize, event: EventView) -> (
        MotionSensorModel,
        StepView<Result<(), H3LIS100DLError>>,
    ) {
        match reset_failure(step as int, event) {
            Some(error) => (
                MotionSensorModel { state: MotionSensorState::Faulted(error), pending: Pending::Idle, ..self },
                StepView::Finished(Err(error)),
            ),
            None => if step + 1 < RESET_STEPS {
                (
                    MotionSensorModel { pending: Pending::Reset { step: (step + 1) as usize }, ..self },
                    StepView::Perform(reset_script()[step + 1]),
                )
            } else {
                (
                    MotionSensorModel { state: MotionSensorState::Ready, pending: Pending::Idle, ..self },
                    StepView::Finished(Ok(())),
                )
            },
        }
    }

    /// The driver after a call of `read_acceleration`, and the step.
    pub open spec fn read_acceleration(self) -> (
        MotionSensorModel,
        StepView<Result<AccelerationView, H3LIS100DLError>>,
    ) {
        match self.state {
            MotionSensorState::Faulted(error) => (self, StepView::Finished(Err(error))),
            _ => (MotionSensorModel { pending: Pending::ReadX, ..self }, StepView::Perform(register_read(OUT_X_REG))),
        }
    }

    /// The driver after `event` answered the read of an axis, and the step:
    /// the read of the next axis, or the end of the reading. A reading that
    /// fails leaves the driver in the state it was in.
    pub open spec fn resume_read(self, event: EventView) -> (
        MotionSensorModel,
        StepView<Result<AccelerationView, H3LIS100DLError>>,
    ) {
        match event {
            EventView::Transferred(Ok(read)) => match self.pending {
                Pending::ReadX => (
                    MotionSensorModel { pending: Pending::ReadY { x: axis_counts(read) }, ..self },
                    StepView::Perform(register_read(OUT_Y_REG)),
                ),
                Pending::ReadY { x } => (
                    MotionSensorModel { pending: Pending::ReadZ { x, y: axis_counts(read) }, ..self },
                    StepView::Perform(register_read(OUT_Z_REG)),
                ),
                Pending::ReadZ { x, y } => (
                    MotionSensorModel { pending: Pending::Idle, ..self },
                    StepView::Finished(Ok(spec_reading(x, y, axis_counts(read)))),
                ),
                _ => arbitrary(),
            },
            EventView::Transferred(Err(error)) => (
                MotionSensorModel { pending: Pending::Idle, ..self },
                StepView::Finished(Err(H3LIS100DLError::SpiBusError(error))),
            ),
            EventView::Elapsed => arbitrary(),
        }
    }
}

/// The driver, and the step that it is at, after the first `n` of `events`
/// answered a reset that was started on `model`. Once the reset is over,
/// further events change nothing.
pub open spec fn reset_after(model: MotionSensorModel, events: Seq<EventView>, n: nat) -> (
    MotionSensorModel,
    StepView<Result<(), H3LIS100DLError>>,
)
    decreases n,
{
    if n == 0 {
        model.reset()
    } else {
        let (before, step) = reset_after(model, events, (n - 1) as nat);
        match (step, before.pending) {
            (StepView::Perform(_), Pending::Reset { step: at }) => before.resume_reset(at, events[n - 1]),
            _ => (before, step),
        }
    }
}

/// A reset goes through its script in order: as long as every answer is a
/// success, the step after `n` answers is step `n` of the script, and after
/// the last step the reset ends well and the driver is `Ready`.
pub proof fn lemma_reset_follows_script(model: MotionSensorModel, events: Seq<EventView>, n: nat)
    requires
        !(model.state is Faulted),
        n <= RESET_STEPS,
        forall|i: int| 0 <= i < n ==> reset_failure(i, #[trigger] events[i]) is None,
    ensures
        n < RESET_STEPS ==> reset_after(model, events, n) == (
            MotionSensorModel {
                state: MotionSensorState::Resetting,
                pending: Pending::Reset { step: n as usize },
                ..model
            },
            StepView::<Result<(), H3LIS100DLError>>::Perform(reset_script()[n as int]),
        ),
        n == RESET_STEPS ==> reset_after(model, events, n) == (
            MotionSensorModel { state: MotionSensorState::Ready, pending: Pending::Idle, ..model },
            StepView::<Result<(), H3LIS100DLError>>::Finished(Ok(())),
        ),
    decreases n,
{
    if n > 0 {
        lemma_reset_follows_script(model, events, (n - 1) as nat);
        assert(reset_failure(n - 1, events[n - 1]) is None);
    }
}

/// A reset ends at its first failure: the driver is `Faulted` with the
/// error, the reset ends with it, and no step of the script follows,
/// whatever the answers after it.
pub proof fn lemma_reset_stops_at_failure(model: MotionSensorModel, events: Seq<EventView>, k: nat, n: nat)
    requires
        !(model.state is Faulted),
        k < RESET_STEPS,
        forall|i: int| 0 <= i < k ==> reset_failure(i, #[trigger] events[i]) is None,
        reset_failure(k as int, events[k as int]) is Some,
        k < n,
    ensures
        reset_after(model, events, n) == (
            MotionSensorModel {
                state: MotionSensorState::Faulted(reset_failure(k as int, events[k as int])->0),
                pending: Pending::Idle,
                ..model
            },
            StepView::<Result<(), H3LIS100DLError>>::Finished(Err(reset_failure(k as int, events[k as int])->0)),
        ),
    decreases n,
{
    if n == k + 1 {
        lemma_reset_follows_script(model, events, k);
    } else {
        lemma_reset_stops_at_failure(model, events, k, (n - 1) as nat);
    }
}

/// A driver that is `Faulted` asks nothing of the device: a reset of it is
/// over at once, with the error of the fault.
pub proof fn lemma_reset_of_faulted(model: MotionSensorModel, events: Seq<EventView>, n: nat)
    requires
        model.state is Faulted,
    ensures
        reset_after(model, events, n) == (
            model,
            StepView::<Result<(), H3LIS100DLError>>::Finished(Err(model.state->Faulted_0)),
        ),
    decreases n,
{
    if n > 0 {
        lemma_reset_of_faulted(model, events, (n - 1) as nat);
    }
}

/// No step of a reset is taken before every step ahead of it went well:
/// when a reset asks for an action after `n` answers, the action is step `n`
/// of the script and all `n` answers were successes. So the device is
/// powered up only after it was powered down and left to settle, and its
/// identity is read only after it was told to reload its registers.
pub proof fn lemma_reset_order(model: MotionSensorModel, events: Seq<EventView>, n: nat)
    requires
        reset_after(model, events, n).1 is Perform,
    ensures
        !(model.state is Faulted),
        n < RESET_STEPS,
        reset_after(model, events, n).1 == StepView::<Result<(), H3LIS100DLError>>::Perform(
            reset_script()[n as int],
        ),
        forall|i: int| 0 <= i < n ==> reset_failure(i, #[trigger] events[i]) is None,
    decreases n,
{
    if model.state is Faulted {
        lemma_reset_of_faulted(model, events, n);
    } else if n == 0 {
    } else {
        let (before, step) = reset_after(model, events, (n - 1) as nat);
        if step is Perform {
            lemma_reset_order(model, events, (n - 1) as nat);
            lemma_reset_follows_script(model, events, (n - 1) as nat);
            assert(before.pending == Pending::Reset { step: (n - 1) as usize });
            assert(reset_failure(n - 1, events[n - 1]) is None);
            lemma_reset_follows_script(model, events, n);
        }
    }
}

/// The bytes of a reset, as they go over the bus.
pub proof fn lemma_reset_script_bytes()
    ensures
        reset_script() == seq![
            ActionView::Transfer(TransferView { frequency: Hertz(10_000_000), write: seq![0x20u8, 0x00u8] }),
            ActionView::Sleep { millis: 100 },
            ActionView::Transfer(TransferView { frequency: Hertz(10_000_000), write: seq![0x20u8, 0x30u8] }),
            ActionView::Sleep { millis: 100 },
            ActionView::Transfer(TransferView { frequency: Hertz(10_000_000), write: seq![0x21u8, 0x80u8] }),
            ActionView::Transfer(TransferView { frequency: Hertz(10_000_000), write: seq![0x8Fu8, 0x00u8] }),
        ],
{
    assert(0x20u8 & 0x7f == 0x20 && 0x21u8 & 0x7f == 0x21 && 0x0Fu8 | 0x80 == 0x8F) by (bit_vector);
    let script = reset_script();
    assert(script[0]->Transfer_0.write =~= seq![0x20u8, 0x00u8]);
    assert(script[2]->Transfer_0.write =~= seq![0x20u8, 0x30u8]);
    assert(script[4]->Transfer_0.write =~= seq![0x21u8, 0x80u8]);
    assert(script[5]->Transfer_0.write =~= seq![0x8Fu8, 0x00u8]);
}

/// A reading reads the X, the Y and the Z axis in this order, one register
/// each, and is made of the three answers.
pub proof fn lemma_reading_reads_each_axis(model: MotionSensorModel, x: Seq<u8>, y: Seq<u8>, z: Seq<u8>)
    requires
        !(model.state is Faulted),
    ensures
        ({
            let (m0, s0) = model.read_acceleration();
            let (m1, s1) = m0.resume_read(EventView::Transferred(Ok(x)));
            let (m2, s2) = m1.resume_read(EventView::Transferred(Ok(y)));
            let (m3, s3) = m2.resume_read(EventView::Transferred(Ok(z)));
            &&& s0 == StepView::<Result<AccelerationView, H3LIS100DLError>>::Perform(register_read(OUT_X_REG))
            &&& s1 == StepView::<Result<AccelerationView, H3LIS100DLError>>::Perform(register_read(OUT_Y_REG))
            &&& s2 == StepView::<Result<AccelerationView, H3LIS100DLError>>::Perform(register_read(OUT_Z_REG))
            &&& s3 == StepView::<Result<AccelerationView, H3LIS100DLError>>::Finished(
                Ok(spec_reading(axis_counts(x), axis_counts(y), axis_counts(z))),
            )
            &&& m3 == (MotionSensorModel { pending: Pending::Idle, ..model })
        }),
{
}

/// A bus that is rated for 10 MHz takes every transfer that the driver asks
/// for: each is two bytes at 10 MHz.
pub proof fn lemma_transfers_are_admitted(bus: SpiBus, model: MotionSensorModel)
    requires
        bus.max_frequency.0 >= 10_000_000,
        model.action() matches Some(ActionView::Transfer(_)),
    ensures
        ({
            let transfer = model.action()->0->Transfer_0;
            &&& transfer.frequency == register_frequency()
            &&& transfer.write.len() == 2
            &&& bus.admits(transfer.frequency, 2, 2)
        }),
{
}

/// One count of acceleration is 76518/10000 metres per second squared.
pub proof fn lemma_reading_scale(raw: int)
    ensures
        spec_acceleration(raw, ACCEL_RANGE) == (Fraction { numerator: raw * 76518, denominator: 10000 }),
{
}

/// The acceleration that `raw` counts stand for in `range`, in metres per
/// second squared.
pub fn acceleration(raw: i8, range: AccelerometerRange) -> (value: Ratio)
    ensures
        value@ == spec_acceleration(raw as int, range),
        value.denominator > 0,
{
    let factor = range.get_scale_factor();
    let in_g = Ratio::whole(raw as i16).times(&factor);
    in_g.times(&standard_gravity())
}

impl H3LIS100DL {
    /// A driver of a device to which nothing was done yet.
    pub fn new() -> (driver: Self)
        ensures
            driver@ == (MotionSensorModel {
                state: MotionSensorState::Uninitialized,
                pending: Pending::Idle,
            }),
    {
        H3LIS100DL { state: MotionSensorState::Uninitialized, pending: Pending::Idle }
    }

    pub fn state(&self) -> (state: MotionSensorState)
        ensures
            state == self@.state,
    {
        self.state
    }

    pub fn pending(&self) -> (pending: Pending)
        ensures
            pending == self@.pending,
    {
        self.pending
    }

    /// The transfer that reads the register at `address`: its address with
    /// the read bit set, then a byte for the answer.
    pub fn read_register(address: u8) -> (transfer: Transfer)
        ensures
            ActionView::Transfer(transfer@) == register_read(address),
    {
        Transfer { frequency: mhz(REGISTER_MEGAHERTZ), write: read_frame(address) }
    }

    /// What a read of a register of type `R` came to: the value that the
    /// second byte of the answer stands for.
    pub fn read_response<R: Register>(outcome: Result<Vec<u8>, SpiBusError>) -> (value: Result<R, H3LIS100DLError>)
        requires
            outcome matches Ok(read) ==> read.len() == 2,
        ensures
            match outcome {
                Ok(read) => match R::parse(read@[1]) {
                    Some(register) => value == Ok::<R, H3LIS100DLError>(register),
                    None => value == Err::<R, H3LIS100DLError>(H3LIS100DLError::InvalidRegister),
                },
                Err(error) => value == Err::<R, H3LIS100DLError>(H3LIS100DLError::SpiBusError(error)),
            },
    {
        match outcome {
            Ok(read) => match decode_response::<R>(&read) {
                Some(register) => Ok(register),
                None => Err(H3LIS100DLError::InvalidRegister),
            },
            Err(error) => Err(H3LIS100DLError::from(error)),
        }
    }

    /// The transfer that writes `data` to the register at `address`: its
    /// address with the read bit clear, then the byte that stands for `data`.
    pub fn write_register<R: Register>(address: u8, data: R) -> (transfer: Transfer)
        ensures
            ActionView::Transfer(transfer@) == register_write(address, data.raw()),
    {
        Transfer { frequency: mhz(REGISTER_MEGAHERTZ), write: write_frame(address, &data) }
    }

    /// What a write of a register came to. What the device sent back is
    /// dropped.
    pub fn write_response(outcome: Result<Vec<u8>, SpiBusError>) -> (done: Result<(), H3LIS100DLError>)
        ensures
            match outcome {
                Ok(_) => done == Ok::<(), H3LIS100DLError>(()),
                Err(error) => done == Err::<(), H3LIS100DLError>(H3LIS100DLError::SpiBusError(error)),
            },
    {
        match outcome {
            Ok(_) => Ok(()),
            Err(error) => Err(H3LIS100DLError::from(error)),
        }
    }

    /// Step `step` of a reset.
    fn reset_action(step: usize) -> (action: Action)
        requires
            step < RESET_STEPS,
        ensures
            action@ == reset_script()[step as int],
    {
        if step == 0 {
            Action::Transfer(Self::write_register(CTRL_REG1, POWER_DOWN))
        } else if step == 1 {
            Action::Sleep { millis: SETTLE_MILLIS }
        } else if step == 2 {
            Action::Transfer(Self::write_register(CTRL_REG1, NORMAL_MODE))
        } else if step == 3 {
            Action::Sleep { millis: SETTLE_MILLIS }
        } else if step == 4 {
            Action::Transfer(Self::write_register(CTRL_REG2, REBOOT))
        } else {
            Action::Transfer(Self::read_register(WHO_AM_I_ADDR))
        }
    }

    /// The action that the driver waits for an answer to, if it waits.
    pub fn action(&self) -> (action: Option<Action>)
        ensures
            match action {
                Some(action) => self@.action() == Some(action@),
                None => self@.action() is None,
            },
    {
        match self.pending {
            Pending::Idle => None,
            Pending::PowerOn => Some(Action::Sleep { millis: SETTLE_MILLIS }),
            Pending::Reset { step } => if step < RESET_STEPS {
                Some(Self::reset_action(step))
            } else {
                None
            },
            Pending::ReadX => Some(Action::Transfer(Self::read_register(OUT_X_REG))),
            Pending::ReadY { .. } => Some(Action::Transfer(Self::read_register(OUT_Y_REG))),
            Pending::ReadZ { .. } => Some(Action::Transfer(Self::read_register(OUT_Z_REG))),
        }
    }

    /// Whether `event` is an answer to what the driver waits for.
    pub fn expects(&self, event: &Event) -> (yes: bool)
        ensures
            yes == self@.expects(event@),
    {
        match self.action() {
            Some(action) => event.answers(&action),
            None => false,
        }
    }

    /// Starts the wait for the device to power up: a wait of 100 ms, with no
    /// access to the device. Whatever was under way is given up.
    pub fn wait_for_power_on(&mut self) -> (step: Step<Result<(), H3LIS100DLError>>)
        ensures
            (final(self)@, step@) == old(self)@.wait_for_power_on(),
    {
        match self.state {
            MotionSensorState::Faulted(error) => Step::Finished(Err(error)),
            _ => {
                self.state = MotionSensorState::PoweringOn;
                self.pending = Pending::PowerOn;
                Step::Perform(Action::Sleep { millis: SETTLE_MILLIS })
            },
        }
    }

    /// Ends the wait for the device to power up, if that is what the driver
    /// waits for and `event` is the end of a wait. If not, nothing is done.
    pub fn resume_power_on(&mut self, event: Event) -> (step: Option<Step<Result<(), H3LIS100DLError>>>)
        ensures
            match step {
                Some(step) => {
                    &&& old(self)@.pending is PowerOn
                    &&& old(self)@.expects(event@)
                    &&& (final(self)@, step@) == old(self)@.resume_power_on()
                },
                None => {
                    &&& !(old(self)@.pending is PowerOn && old(self)@.expects(event@))
                    &&& final(self)@ == old(self)@
                },
            },
    {
        match (self.pending, event) {
            (Pending::PowerOn, Event::Elapsed) => {
                self.pending = Pending::Idle;
                Some(Step::Finished(Ok(())))
            },
            _ => None,
        }
    }

    /// Starts a reset of the device. Whatever was under way is given up.
    pub fn reset(&mut self) -> (step: Step<Result<(), H3LIS100DLError>>)
        ensures
            (final(self)@, step@) == old(self)@.reset(),
    {
        match self.state {
            MotionSensorState::Faulted(error) => Step::Finished(Err(error)),
            _ => {
                self.state = MotionSensorState::Resetting;
                self.pending = Pending::Reset { step: 0 };
                Step::Perform(Self::reset_action(0))
            },
        }
    }

    /// Goes on with a reset, if the driver waits for the answer to a step
    /// of one and `event` is such an answer. If not, nothing is done.
    pub fn resume_reset(&mut self, event: Event) -> (step: Option<Step<Result<(), H3LIS100DLError>>>)
        ensures
            match step {
                Some(step) => {
                    &&& old(self)@.pending is Reset
                    &&& old(self)@.expects(event@)
                    &&& (final(self)@, step@) == old(self)@.resume_reset(old(self)@.pending->step, event@)
                },
                None => {
                    &&& !(old(self)@.pending is Reset && old(self)@.expects(event@))
                    &&& final(self)@ == old(self)@
                },
            },
    {
        let at = match self.pending {
            Pending::Reset { step } => step,
            _ => return None,
        };
        if !self.expects(&event) {
            return None;
        }
        let failure = match event {
            Event::Transferred(outcome) => {
                if at == IDENTITY_STEP {
                    match Self::read_response::<WhoAmI>(outcome) {
                        Ok(_) => None,
                        Err(error) => Some(error),
                    }
                } else {
                    match Self::write_response(outcome) {
                        Ok(_) => None,
                        Err(error) => Some(error),
                    }
                }
            },
            Event::Elapsed => None,
        };
        match failure {
            Some(error) => {
                self.state = MotionSensorState::Faulted(error);
                self.pending = Pending::Idle;
                Some(Step::Finished(Err(error)))
            },
            None => {
                if at + 1 < RESET_STEPS {
                    self.pending = Pending::Reset { step: at + 1 };
                    Some(Step::Perform(Self::reset_action(at + 1)))
                } else {
                    self.state = MotionSensorState::Ready;
                    self.pending = Pending::Idle;
                    Some(Step::Finished(Ok(())))
                }
            },
        }
    }

    /// Starts a reading: the X axis is read first. Whatever was under way is
    /// given up.
    pub fn read_acceleration(&mut self) -> (step: Step<Result<Acceleration, H3LIS100DLError>>)
        ensures
            (final(self)@, step.result_view()) == old(self)@.read_acceleration(),
    {
        match self.state {
            MotionSensorState::Faulted(error) => Step::Finished(Err(error)),
            _ => {
                self.pending = Pending::ReadX;
                Step::Perform(Action::Transfer(Self::read_register(OUT_X_REG)))
            },
        }
    }

    /// Goes on with a reading, if the driver waits for an axis of one and
    /// `event` is the answer to the read of it. If not, nothing is done.
    pub fn resume_read(&mut self, event: Event) -> (step: Option<Step<Result<Acceleration, H3LIS100DLError>>>)
        ensures
            match step {
                Some(step) => {
                    &&& old(self)@.reading()
                    &&& old(self)@.expects(event@)
                    &&& (final(self)@, step.result_view()) == old(self)@.resume_read(event@)
                },
                None => {
                    &&& !(old(self)@.reading() && old(self)@.expects(event@))
                    &&& final(self)@ == old(self)@
                },
            },
    {
        match self.pending {
            Pending::ReadX | Pending::ReadY { .. } | Pending::ReadZ { .. } => {},
            _ => {
                return None;
            },
        }
        if !self.expects(&event) {
            return None;
        }
        let outcome = match event {
            Event::Transferred(outcome) => outcome,
            Event::Elapsed => {
                return None;
            },
        };
        match Self::read_response::<AxisOutput>(outcome) {
            Ok(axis) => match self.pending {
                Pending::ReadX => {
                    self.pending = Pending::ReadY { x: axis.counts };
                    Some(Step::Perform(Action::Transfer(Self::read_register(OUT_Y_REG))))
                },
                Pending::ReadY { x } => {
                    self.pending = Pending::ReadZ { x, y: axis.counts };
                    Some(Step::Perform(Action::Transfer(Self::read_register(OUT_Z_REG))))
                },
                Pending::ReadZ { x, y } => {
                    self.pending = Pending::Idle;
                    Some(
                        Step::Finished(
                            Ok(
                                Acceleration {
                                    x: acceleration(x, ACCEL_RANGE),
                                    y: acceleration(y, ACCEL_RANGE),
                                    z: acceleration(axis.counts, ACCEL_RANGE),
                                },
                            ),
                        ),
                    )
                },
                _ => None,
            },
            Err(error) => {
                self.pending = Pending::Idle;
                Some(Step::Finished(Err(error)))
            },
        }
    }
}

} // verus!
