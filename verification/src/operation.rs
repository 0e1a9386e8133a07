//! What passes between a driver and the code that runs it.
//!
//! A driver does no I/O. An operation of a driver is started by a call that
//! returns a [`Step`]: either something for the caller to perform, a transfer
//! on the bus or a wait, or the operation's result. The caller performs the
//! action, tells the driver what came of it with an [`Event`], and gets the
//! next step.

use vstd::prelude::*;
use crate::bus::Hertz;
use crate::bus::SpiBusError;

verus! {

/// One transfer on the bus, under the chip-select line of the driver that
/// asks for it: `write` goes out and as many bytes come back.
#[derive(Debug)]
pub struct Transfer {
    /// The clock rate of this transfer.
    pub frequency: Hertz,
    /// The bytes to clock out.
    pub write: Vec<u8>,
}

pub struct TransferView {
    pub frequency: Hertz,
    pub write: Seq<u8>,
}

impl View for Transfer {
    type V = TransferView;

    open spec fn view(&self) -> TransferView {
        TransferView { frequency: self.frequency, write: self.write@ }
    }
}

/// Something for the caller of a driver to do.
#[derive(Debug)]
pub enum Action {
    /// Perform this transfer and answer with `Event::Transferred`.
    Transfer(Transfer),
    /// Let this many milliseconds pass and answer with `Event::Elapsed`.
    Sleep { millis: u32 },
}

pub enum ActionView {
    Transfer(TransferView),
    Sleep { millis: u32 },
}

impl View for Action {
    type V = ActionView;

    open spec fn view(&self) -> ActionView {
        match *self {
            Action::Transfer(transfer) => ActionView::Transfer(transfer@),
            Action::Sleep { millis } => ActionView::Sleep { millis },
        }
    }
}

/// What came of an action.
#[derive(Debug)]
pub enum Event {
    /// The transfer is over: the bytes that came back, or how the bus failed.
    Transferred(Result<Vec<u8>, SpiBusError>),
    /// The wait is over.
    Elapsed,
}

pub enum EventView {
    Transferred(Result<Seq<u8>, SpiBusError>),
    Elapsed,
}

impl View for Event {
    type V = EventView;

    open spec fn view(&self) -> EventView {
        match *self {
            Event::Transferred(Ok(read)) => EventView::Transferred(Ok(read@)),
            Event::Transferred(Err(error)) => EventView::Transferred(Err(error)),
            Event::Elapsed => EventView::Elapsed,
        }
    }
}

/// Whether `event` is an answer to `action`: a wait is answered by its end,
/// a transfer by a failure of the bus or by as many bytes as were written.
pub open spec fn answers(event: EventView, action: ActionView) -> bool {
    match action {
        ActionView::Transfer(transfer) => match event {
            EventView::Transferred(Ok(read)) => read.len() == transfer.write.len(),
            EventView::Transferred(Err(_)) => true,
            EventView::Elapsed => false,
        },
        ActionView::Sleep { .. } => event is Elapsed,
    }
}

impl Event {
    /// Whether this event is an answer to `action`.
    pub fn answers(&self, action: &Action) -> (yes: bool)
        ensures
            yes == answers(self@, action@),
    {
        match action {
            Action::Transfer(transfer) => match self {
                Event::Transferred(Ok(read)) => read.len() == transfer.write.len(),
                Event::Transferred(Err(_)) => true,
                Event::Elapsed => false,
            },
            Action::Sleep { .. } => match self {
                Event::Elapsed => true,
                _ => false,
            },
        }
    }
}

/// Where an operation stands after a call into the driver.
#[derive(Debug)]
pub enum Step<T> {
    /// The operation goes on once the caller has performed this action.
    Perform(Action),
    /// The operation is over, with this result.
    Finished(T),
}

pub enum StepView<T> {
    Perform(ActionView),
    Finished(T),
}

impl<T> View for Step<T> {
    type V = StepView<T>;

    open spec fn view(&self) -> StepView<T> {
        match *self {
            Step::Perform(action) => StepView::Perform(action@),
            Step::Finished(result) => StepView::Finished(result),
        }
    }
}

impl<T: View, E> Step<Result<T, E>> {
    /// The view of this step, with the value of a good result taken by its
    /// view too.
    pub open spec fn result_view(self) -> StepView<Result<T::V, E>> {
        match self {
            Step::Perform(action) => StepView::Perform(action@),
            Step::Finished(Ok(value)) => StepView::Finished(Ok(value@)),
            Step::Finished(Err(error)) => StepView::Finished(Err(error)),
        }
    }
}

} // verus!
