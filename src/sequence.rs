use vstd::prelude::*;

use crate::frame::{decode_frame, frame_result, Error, Measurement};

verus! {

/// The sensor's fixed 7-bit I2C address.
pub const DEVICE_I2C_ADDR: u8 = 0x5c;

/// Time between the wake-up pulse and the read command, in microseconds.
pub const WAKE_DELAY_US: u16 = 900;

/// Time between the read command and reading the response, in microseconds.
pub const RESULT_DELAY_US: u16 = 1600;

/// The sensor needs at least this long after waking before it takes a
/// command, in microseconds.
pub const MIN_WAKE_DELAY_US: u16 = 800;

/// After this long awake without a command the sensor may sleep again, in
/// microseconds.
pub const MAX_WAKE_DELAY_US: u16 = 3000;

/// The sensor needs at least this long to measure and format its response,
/// in microseconds.
pub const MIN_RESULT_DELAY_US: u16 = 1500;

/// Where a read stands: the stage names the bus operation or delay that is
/// due next.
#[derive(Debug, Clone, Copy)]
pub enum Stage {
    /// Send the wake-up pulse, a one-byte write that the sleeping sensor
    /// does not acknowledge.
    Wake,
    /// Let the sensor settle after waking.
    WakeSettle,
    /// Send the read command.
    Command,
    /// Let the sensor measure.
    ResultWait,
    /// Read the eight-byte response.
    Response,
    /// The read is over, with this outcome.
    Finished(Result<Measurement, Error>),
}

/// What came of the operation that the sequence asked for.
#[derive(Debug, Clone, Copy)]
pub enum Event {
    /// The write was acknowledged.
    Written,
    /// The write failed on the bus.
    WriteFailed,
    /// The delay has passed.
    Waited,
    /// The read filled these eight bytes.
    Received([u8; 8]),
    /// The read failed on the bus.
    ReadFailed,
}

/// The model of an `Action`.
pub enum Request {
    Write { address: u8, payload: Seq<u8> },
    Delay { us: u16 },
    Read { address: u8 },
    Done(Result<Measurement, Error>),
}

/// The operation that the caller is to perform next.
#[derive(Debug)]
pub enum Action {
    /// Write `payload` to the device at `address`.
    Write { address: u8, payload: Vec<u8> },
    /// Block for `us` microseconds.
    Delay { us: u16 },
    /// Read eight bytes from the device at `address`.
    Read { address: u8 },
    /// Nothing more to do: the read is over, with this outcome.
    Done(Result<Measurement, Error>),
}

impl View for Action {
    type V = Request;

    open spec fn view(&self) -> Request {
        match self {
            Action::Write { address, payload } => Request::Write { address: *address, payload: payload@ },
            Action::Delay { us } => Request::Delay { us: *us },
            Action::Read { address } => Request::Read { address: *address },
            Action::Done(r) => Request::Done(*r),
        }
    }
}

/// The operation that is due at a stage.
pub open spec fn request_of(s: Stage) -> Request {
    match s {
        Stage::Wake => Request::Write { address: DEVICE_I2C_ADDR, payload: seq![0x00u8] },
        Stage::WakeSettle => Request::Delay { us: WAKE_DELAY_US },
        Stage::Command => Request::Write {
            address: DEVICE_I2C_ADDR,
            payload: seq![0x03u8, 0x00u8, 0x04u8],
        },
        Stage::ResultWait => Request::Delay { us: RESULT_DELAY_US },
        Stage::Response => Request::Read { address: DEVICE_I2C_ADDR },
        Stage::Finished(r) => Request::Done(r),
    }
}

/// The stage that follows `s` once the operation due at `s` has had the
/// outcome `e`.
///
/// The outcome of the wake-up pulse is ignored: the sensor is expected not
/// to acknowledge it. A delay always passes. A failed command write ends the
/// read with a write error, a failed response read with a read error, and a
/// received frame ends it with what the frame holds. An outcome that does
/// not answer the operation due counts as its failure.
pub open spec fn next_stage(s: Stage, e: Event) -> Stage {
    match s {
        Stage::Wake => Stage::WakeSettle,
        Stage::WakeSettle => Stage::Command,
        Stage::Command => if e is Written {
            Stage::ResultWait
        } else {
            Stage::Finished(Err(Error::WriteError))
        },
        Stage::ResultWait => Stage::Response,
        Stage::Response => match e {
            Event::Received(frame) => Stage::Finished(frame_result(frame@)),
            _ => Stage::Finished(Err(Error::ReadError)),
        },
        Stage::Finished(_) => s,
    }
}

/// The stage reached from a fresh read after the outcomes `events`, in
/// order.
pub open spec fn stage_after(events: Seq<Event>) -> Stage
    decreases events.len(),
{
    if events.len() == 0 {
        Stage::Wake
    } else {
        next_stage(stage_after(events.drop_last()), events.last())
    }
}

/// The delay that is due at a stage, in microseconds; zero where a bus
/// operation or nothing is due.
pub open spec fn delay_at(s: Stage) -> nat {
    match request_of(s) {
        Request::Delay { us } => us as nat,
        _ => 0,
    }
}

/// The total of the delays that a fresh read asked for and that `events`
/// report as done.
pub open spec fn waited(events: Seq<Event>) -> nat
    decreases events.len(),
{
    if events.len() == 0 {
        0
    } else {
        waited(events.drop_last()) + delay_at(stage_after(events.drop_last()))
    }
}

/// What each stage implies of the outcomes that led to it.
proof fn lemma_history(events: Seq<Event>)
    ensures
        match stage_after(events) {
            Stage::Wake => events.len() == 0 && waited(events) == 0,
            Stage::WakeSettle => events.len() == 1 && waited(events) == 0,
            Stage::Command => events.len() == 2 && waited(events) == WAKE_DELAY_US,
            Stage::ResultWait => {
                &&& events.len() == 3
                &&& events[2] is Written
                &&& waited(events) == WAKE_DELAY_US
            },
            Stage::Response => {
                &&& events.len() == 4
                &&& events[2] is Written
                &&& waited(events) == WAKE_DELAY_US + RESULT_DELAY_US
            },
            Stage::Finished(Ok(m)) => {
                &&& events.len() >= 5
                &&& events[2] is Written
                &&& events[4] is Received
                &&& frame_result(events[4]->Received_0@) == Ok::<Measurement, Error>(m)
                &&& waited(events) == WAKE_DELAY_US + RESULT_DELAY_US
            },
            Stage::Finished(Err(_)) => true,
        },
    decreases events.len(),
{
    if events.len() > 0 {
        let prev = events.drop_last();
        lemma_history(prev);
        assert forall|i: int| 0 <= i < prev.len() implies prev[i] == events[i] by {}
    }
}

/// A read that ends in a measurement has blocked for the wake-up delay and
/// the measuring delay, and so for at least the least time that the sensor
/// needs between waking and answering.
pub proof fn lemma_measurement_waits(events: Seq<Event>)
    requires
        stage_after(events) is Finished,
        stage_after(events)->Finished_0 is Ok,
    ensures
        waited(events) == WAKE_DELAY_US + RESULT_DELAY_US,
        waited(events) >= MIN_WAKE_DELAY_US + MIN_RESULT_DELAY_US,
{
    lemma_history(events);
}

/// A read ends in a measurement only after its command write went through,
/// and the measurement is the one carried by the frame that the response
/// read received, which passed the header and checksum checks.
pub proof fn lemma_measurement_from_frame(events: Seq<Event>, m: Measurement)
    requires
        stage_after(events) == Stage::Finished(Ok(m)),
    ensures
        events.len() >= 5,
        events[2] is Written,
        events[4] is Received,
        frame_result(events[4]->Received_0@) == Ok::<Measurement, Error>(m),
{
    lemma_history(events);
}

/// The delays that a read uses lie in the windows that the sensor asks for.
pub proof fn lemma_delays_in_window()
    ensures
        MIN_WAKE_DELAY_US <= WAKE_DELAY_US <= MAX_WAKE_DELAY_US,
        MIN_RESULT_DELAY_US <= RESULT_DELAY_US,
{
}

/// One measurement in progress: the order of bus transactions and delays
/// that reading the sensor takes, and the decisions between them.
///
/// The caller owns the bus and the clock. It asks `action` what to do,
/// does it, and reports the outcome to `advance`, until the action is
/// `Action::Done`.
pub struct ReadSequence {
    stage: Stage,
}

impl View for ReadSequence {
    type V = Stage;

    closed spec fn view(&self) -> Stage {
        self.stage
    }
}

impl ReadSequence {
    /// A read that has not started: the wake-up pulse is due.
    pub fn new() -> (r: ReadSequence)
        ensures
            r@ == Stage::Wake,
    {
        ReadSequence { stage: Stage::Wake }
    }

    /// The operation that is due next.
    pub fn action(&self) -> (r: Action)
        ensures
            r@ == request_of(self@),
    {
        match self.stage {
            Stage::Wake => {
                let payload = vec![0x00u8];
                assert(payload@ == seq![0x00u8]);
                Action::Write { address: DEVICE_I2C_ADDR, payload }
            },
            Stage::WakeSettle => Action::Delay { us: WAKE_DELAY_US },
            Stage::Command => {
                let payload = vec![0x03u8, 0x00u8, 0x04u8];
                assert(payload@ == seq![0x03u8, 0x00u8, 0x04u8]);
                Action::Write { address: DEVICE_I2C_ADDR, payload }
            },
            Stage::ResultWait => Action::Delay { us: RESULT_DELAY_US },
            Stage::Response => Action::Read { address: DEVICE_I2C_ADDR },
            Stage::Finished(r) => Action::Done(r),
        }
    }

    /// Takes in the outcome of the operation that was due.
    pub fn advance(&mut self, event: Event)
        ensures
            final(self)@ == next_stage(old(self)@, event),
    {
        let next = match self.stage {
            Stage::Wake => Stage::WakeSettle,
            Stage::WakeSettle => Stage::Command,
            Stage::Command => match event {
                Event::Written => Stage::ResultWait,
                _ => Stage::Finished(Err(Error::WriteError)),
            },
            Stage::ResultWait => Stage::Response,
            Stage::Response => match event {
                Event::Received(frame) => Stage::Finished(decode_frame(&frame)),
                _ => Stage::Finished(Err(Error::ReadError)),
            },
            Stage::Finished(r) => Stage::Finished(r),
        };
        self.stage = next;
    }
}

} // verus!
