//! The frequency-scoped transfer primitive of the shared SPI bus.
//!
//! A transfer is performed by the caller, on hardware this crate never sees.
//! The primitive decides which bus operations a transfer consists of and in
//! which order they happen: [`SpiBus::transfer`] opens a transfer and
//! [`SpiBus::complete`] closes it, whatever the exchange came to.

use vstd::prelude::*;

verus! {

/// A clock rate in hertz.
#[derive(Clone, Copy, Debug, PartialEq, Eq, Structural)]
pub struct Hertz(pub u32);

/// The largest whole number of megahertz that a `Hertz` can hold.
pub const MAX_MEGAHERTZ: u32 = 4294;

/// `embassy_stm32::time::mhz`: the rate of that many megahertz, which is the
/// argument times one million. The product must fit in 32 bits.
#[verifier::external_body]
pub(crate) fn mhz(megahertz: u32) -> (rate: Hertz)
    requires
        megahertz <= MAX_MEGAHERTZ,
    ensures
        rate.0 == megahertz * 1_000_000,
{
    Hertz(embassy_stm32::time::mhz(megahertz).0)
}

/// A failure of the SPI peripheral during an exchange.
#[derive(Clone, Copy, Debug, PartialEq, Eq, Structural)]
pub enum SpiBusError {
    /// Invalid framing.
    Framing,
    /// The hardware CRC check failed.
    Crc,
    /// Mode fault.
    ModeFault,
    /// A word arrived before the previous one was read.
    Overrun,
}

/// The electrical level of a pin.
#[derive(Clone, Copy, Debug, PartialEq, Eq, Structural)]
pub enum Level {
    Low,
    High,
}

/// The chip-select line of one device. The line is active low.
#[derive(Clone, Copy, Debug, PartialEq, Eq, Structural)]
pub struct ChipSelect {
    /// Which line this is.
    pub line: u8,
    /// The level the line is driven to.
    pub level: Level,
}

impl ChipSelect {
    /// Whether the device is selected.
    pub open spec fn asserted(&self) -> bool {
        self.level == Level::Low
    }

    /// The line `line`, not asserted.
    pub fn new(line: u8) -> (cs: Self)
        ensures
            cs == (ChipSelect { line, level: Level::High }),
            !cs.asserted(),
    {
        ChipSelect { line, level: Level::High }
    }

    pub fn is_asserted(&self) -> (asserted: bool)
        ensures
            asserted == self.asserted(),
    {
        match self.level {
            Level::Low => true,
            Level::High => false,
        }
    }
}

/// One thing for the caller to do on the bus hardware.
#[derive(Clone, Copy, Debug, PartialEq, Eq, Structural)]
pub enum BusOp {
    /// Program the clock divider for this rate.
    SetFrequency(Hertz),
    /// Drive this chip-select line to its active level.
    Assert(u8),
    /// Clock this many bytes out and as many in.
    Exchange(usize),
    /// Drive this chip-select line back to its inactive level.
    Release(u8),
}

/// What the bus hardware looks like between two operations.
pub struct BusState {
    /// The chip-select lines that are asserted.
    pub asserted: Set<u8>,
    /// The rate the clock divider was last programmed for.
    pub clock: Option<Hertz>,
}

/// The bus with no device selected and its clock never programmed.
pub open spec fn idle() -> BusState {
    BusState { asserted: Set::empty(), clock: None }
}

/// The bus after `op`.
pub open spec fn apply(state: BusState, op: BusOp) -> BusState {
    match op {
        BusOp::SetFrequency(rate) => BusState { clock: Some(rate), ..state },
        BusOp::Assert(line) => BusState { asserted: state.asserted.insert(line), ..state },
        BusOp::Exchange(_) => state,
        BusOp::Release(line) => BusState { asserted: state.asserted.remove(line), ..state },
    }
}

/// The bus after all of `trace`, first operation first.
pub open spec fn run(state: BusState, trace: Seq<BusOp>) -> BusState
    decreases trace.len(),
{
    if trace.len() == 0 {
        state
    } else {
        run(apply(state, trace[0]), trace.skip(1))
    }
}

/// The states of the bus in which the exchanges of `trace` take place, in
/// their order.
pub open spec fn exchanges(state: BusState, trace: Seq<BusOp>) -> Seq<BusState>
    decreases trace.len(),
{
    if trace.len() == 0 {
        Seq::empty()
    } else {
        let rest = exchanges(apply(state, trace[0]), trace.skip(1));
        if trace[0] is Exchange {
            seq![state] + rest
        } else {
            rest
        }
    }
}

/// The operations that open a transfer of `len` bytes.
pub open spec fn opening(frequency: Hertz, line: u8, len: usize) -> Seq<BusOp> {
    seq![BusOp::SetFrequency(frequency), BusOp::Assert(line), BusOp::Exchange(len)]
}

/// All operations of one transfer.
pub open spec fn transfer_trace(frequency: Hertz, line: u8, len: usize) -> Seq<BusOp> {
    opening(frequency, line, len).push(BusOp::Release(line))
}

/// The shared bus: one SPI peripheral, rated for a highest clock rate.
#[derive(Clone, Copy, Debug, PartialEq, Eq, Structural)]
pub struct SpiBus {
    /// The highest clock rate the bus is rated for.
    pub max_frequency: Hertz,
}

impl SpiBus {
    /// Whether the bus takes a transfer at `frequency` that writes
    /// `write_len` bytes and reads `read_len`.
    pub open spec fn admits(&self, frequency: Hertz, write_len: usize, read_len: usize) -> bool {
        &&& frequency.0 <= self.max_frequency.0
        &&& write_len == read_len
        &&& read_len >= 1
    }

    pub fn new(max_frequency: Hertz) -> (bus: Self)
        ensures
            bus.max_frequency == max_frequency,
    {
        SpiBus { max_frequency }
    }

    /// Tests what [`SpiBus::transfer`] asks of its arguments.
    pub fn can_transfer(&self, frequency: Hertz, write_len: usize, read_len: usize) -> (ok: bool)
        ensures
            ok == self.admits(frequency, write_len, read_len),
    {
        frequency.0 <= self.max_frequency.0 && write_len == read_len && read_len >= 1
    }

    /// Opens a transfer of `write` to the device behind `cs`, with
    /// `read_len` bytes to come back. The caller performs the operations
    /// returned in their order and hands what the exchange came to, success
    /// or failure, to [`SpiBus::complete`].
    pub fn transfer(&self, frequency: Hertz, write: &Vec<u8>, read_len: usize, cs: &mut ChipSelect) -> (ops: Vec<BusOp>)
        requires
            self.admits(frequency, write.len(), read_len),
        ensures
            ops@ == opening(frequency, old(cs).line, read_len),
            final(cs).line == old(cs).line,
            final(cs).asserted(),
    {
        cs.level = Level::Low;
        let mut ops: Vec<BusOp> = Vec::new();
        ops.push(BusOp::SetFrequency(frequency));
        ops.push(BusOp::Assert(cs.line));
        ops.push(BusOp::Exchange(read_len));
        assert(ops@ =~= opening(frequency, cs.line, read_len));
        ops
    }

    /// Opens a transfer that answers into the buffer it was written from.
    pub fn transfer_in_place(&self, frequency: Hertz, buffer: &Vec<u8>, cs: &mut ChipSelect) -> (ops: Vec<BusOp>)
        requires
            self.admits(frequency, buffer.len(), buffer.len()),
        ensures
            ops@ == opening(frequency, old(cs).line, buffer.len()),
            final(cs).line == old(cs).line,
            final(cs).asserted(),
    {
        self.transfer(frequency, buffer, buffer.len(), cs)
    }

    /// Closes the transfer on `cs`. The line is released whether the exchange
    /// succeeded or failed, and its outcome is handed on as it came.
    pub fn complete(&self, outcome: Result<Vec<u8>, SpiBusError>, cs: &mut ChipSelect) -> (closed: (BusOp, Result<Vec<u8>, SpiBusError>))
        ensures
            closed.0 == BusOp::Release(old(cs).line),
            closed.1 == outcome,
            final(cs).line == old(cs).line,
            !final(cs).asserted(),
    {
        cs.level = Level::High;
        (BusOp::Release(cs.line), outcome)
    }
}

/// What a transfer is, but for its bytes.
pub struct TransferShape {
    pub frequency: Hertz,
    pub line: u8,
    pub len: usize,
}

/// All operations of `transfers`, one transfer after the other.
pub open spec fn session_trace(transfers: Seq<TransferShape>) -> Seq<BusOp>
    decreases transfers.len(),
{
    if transfers.len() == 0 {
        Seq::empty()
    } else {
        let last = transfers.last();
        session_trace(transfers.drop_last()) + transfer_trace(last.frequency, last.line, last.len)
    }
}

/// The bus as it is during the exchange of `transfer`, if all is well: the
/// line of the transfer is asserted and no other, and the clock runs at the
/// rate of the transfer.
pub open spec fn framed(transfer: TransferShape) -> BusState {
    BusState { asserted: set![transfer.line], clock: Some(transfer.frequency) }
}

/// Every transfer is framed by its own chip-select line: on a bus with no
/// line asserted, its one exchange runs at the rate asked for, with that
/// line asserted and no other, and when the transfer is over no line is
/// asserted. The trace does not depend on what the exchange came to.
pub proof fn lemma_transfer_is_framed(before: BusState, transfer: TransferShape)
    requires
        before.asserted == Set::<u8>::empty(),
    ensures
        exchanges(before, transfer_trace(transfer.frequency, transfer.line, transfer.len)) == seq![framed(transfer)],
        run(before, transfer_trace(transfer.frequency, transfer.line, transfer.len)) == (BusState {
            asserted: Set::<u8>::empty(),
            clock: Some(transfer.frequency),
        }),
{
    let t0 = transfer_trace(transfer.frequency, transfer.line, transfer.len);
    let t1 = t0.skip(1);
    let t2 = t1.skip(1);
    let t3 = t2.skip(1);
    let t4 = t3.skip(1);
    let s1 = apply(before, t0[0]);
    let s2 = apply(s1, t1[0]);
    let s3 = apply(s2, t2[0]);
    let s4 = apply(s3, t3[0]);
    assert(t4.len() == 0);
    assert(s2.asserted =~= set![transfer.line]);
    assert(s4.asserted =~= Set::<u8>::empty());
    assert(run(s4, t4) == s4);
    assert(run(s3, t3) == s4);
    assert(run(s2, t2) == s4);
    assert(run(s1, t1) == s4);
    assert(run(before, t0) == s4);
    assert(exchanges(s4, t4) =~= Seq::<BusState>::empty());
    assert(exchanges(s3, t3) =~= Seq::<BusState>::empty());
    assert(exchanges(s2, t2) =~= seq![s2]);
    assert(exchanges(s1, t1) =~= seq![s2]);
    assert(exchanges(before, t0) =~= seq![s2]);
}

/// Running one trace after another is running the two as one.
pub proof fn lemma_run_in_turn(state: BusState, first: Seq<BusOp>, second: Seq<BusOp>)
    ensures
        run(state, first + second) == run(run(state, first), second),
        exchanges(state, first + second) == exchanges(state, first) + exchanges(run(state, first), second),
    decreases first.len(),
{
    if first.len() == 0 {
        assert(first + second =~= second);
        assert(exchanges(state, first) + exchanges(state, second) =~= exchanges(state, second));
    } else {
        let next = apply(state, first[0]);
        assert((first + second).skip(1) =~= first.skip(1) + second);
        assert((first + second)[0] == first[0]);
        lemma_run_in_turn(next, first.skip(1), second);
        let rest = exchanges(next, first.skip(1));
        let tail = exchanges(run(next, first.skip(1)), second);
        assert(seq![state] + (rest + tail) =~= (seq![state] + rest) + tail);
    }
}

/// Devices that take turns on the bus do not get in each other's way:
/// however many transfers follow one another, at whatever rates and on
/// whatever lines, each exchange runs at the rate of its own transfer, with
/// the line of its own transfer asserted and no other, and after the last
/// transfer no line is asserted.
pub proof fn lemma_session_is_framed(transfers: Seq<TransferShape>)
    ensures
        exchanges(idle(), session_trace(transfers)) == transfers.map_values(|t: TransferShape| framed(t)),
        run(idle(), session_trace(transfers)).asserted == Set::<u8>::empty(),
    decreases transfers.len(),
{
    if transfers.len() == 0 {
        assert(exchanges(idle(), session_trace(transfers)) =~= transfers.map_values(|t: TransferShape| framed(t)));
    } else {
        let last = transfers.last();
        let before = transfers.drop_last();
        let trace = transfer_trace(last.frequency, last.line, last.len);
        lemma_session_is_framed(before);
        lemma_run_in_turn(idle(), session_trace(before), trace);
        lemma_transfer_is_framed(run(idle(), session_trace(before)), last);
        assert(before.map_values(|t: TransferShape| framed(t)) + seq![framed(last)] =~= transfers.map_values(
            |t: TransferShape| framed(t),
        ));
    }
}

} // verus!
