//! The monitor loop's state machine.
//!
//! Each cycle walks a fixed path: wait for the tick, clear the display,
//! take a sample (formatting it into the two line buffers), draw each
//! line, flush. The hardware steps themselves — timer, sensor protocol,
//! display bus — happen outside; the [`Monitor`] is told each step's
//! outcome as an [`Event`] and decides what the lines hold, what to log,
//! and which step comes next. The central policy is best-effort and
//! never-halting: no step's failure changes the path through the cycle,
//! it is only logged and shown in degraded form.

use vstd::prelude::*;
use crate::fmtbuf::{FmtBuf, LINE_CAPACITY, write_fits, write_result};
use crate::reading::{Reading, SensorError};
use crate::textfmt::{temp_line, humi_line, error_text, valid_reading_lines_fit};

verus! {

/// How long the monitor waits between cycles.
pub const CYCLE_PERIOD_SECS: u64 = 1;

/// Where to anchor the first line in the pixel buffer.
pub const FIRST_LINE_X: i32 = 3;

pub const FIRST_LINE_Y: i32 = 2;

/// Where to anchor the second line in the pixel buffer.
pub const SECOND_LINE_X: i32 = 3;

pub const SECOND_LINE_Y: i32 = 38;

/// Why a display operation failed: the bus transaction was rejected or
/// the controller reported an invalid access.
#[derive(Clone, Copy, Debug, PartialEq, Eq, Structural)]
pub enum DisplayError {
    BusWrite,
    OutOfBounds,
}

/// The step of the cycle the monitor is waiting to hear about.
#[derive(Clone, Copy, Debug, PartialEq, Eq, Structural)]
pub enum Phase {
    Idle,
    Clearing,
    Sampling,
    DrawingFirst,
    DrawingSecond,
    Flushing,
}

/// What the driver should do next for the monitor.
#[derive(Clone, Copy, Debug, PartialEq, Eq, Structural)]
pub enum Action {
    Wait,
    ClearDisplay,
    ReadSensor,
    DrawFirstLine,
    DrawSecondLine,
    FlushDisplay,
}

/// The outcome of the step the monitor asked for.
#[derive(Clone, Copy, Debug)]
pub enum Event {
    TickElapsed,
    ClearDone(Result<(), DisplayError>),
    SensorRead(Result<Reading, SensorError>),
    FirstDrawn(Result<(), DisplayError>),
    SecondDrawn(Result<(), DisplayError>),
    FlushDone(Result<(), DisplayError>),
}

/// One record for the logging sink. `ScreenCleared`, `ReadingTaken`,
/// `LineDrawn` and `Flushed` are informational; the rest are errors.
#[derive(Clone, Copy, Debug, PartialEq, Eq, Structural)]
pub enum LogEntry {
    ScreenCleared,
    ClearFailed(DisplayError),
    ReadingTaken(Reading),
    ReadFailed(SensorError),
    LineOverflow,
    LineDrawn,
    DrawFailed(DisplayError),
    Flushed,
    FlushFailed(DisplayError),
}

impl LogEntry {
    /// Whether this record reports a failure.
    pub open spec fn spec_is_error(&self) -> bool {
        match *self {
            LogEntry::ClearFailed(_) => true,
            LogEntry::ReadFailed(_) => true,
            LogEntry::LineOverflow => true,
            LogEntry::DrawFailed(_) => true,
            LogEntry::FlushFailed(_) => true,
            _ => false,
        }
    }

    pub fn is_error(&self) -> (b: bool)
        ensures
            b == self.spec_is_error(),
    {
        match *self {
            LogEntry::ClearFailed(_) => true,
            LogEntry::ReadFailed(_) => true,
            LogEntry::LineOverflow => true,
            LogEntry::DrawFailed(_) => true,
            LogEntry::FlushFailed(_) => true,
            _ => false,
        }
    }
}

/// The monitor as the contracts see it: the pending phase and the bytes
/// of the two line buffers.
#[verifier::ext_equal]
pub struct MonitorModel {
    pub phase: Phase,
    pub line1: Seq<u8>,
    pub line2: Seq<u8>,
}

/// The action a given phase is waiting on.
pub open spec fn action_for(p: Phase) -> Action {
    match p {
        Phase::Idle => Action::Wait,
        Phase::Clearing => Action::ClearDisplay,
        Phase::Sampling => Action::ReadSensor,
        Phase::DrawingFirst => Action::DrawFirstLine,
        Phase::DrawingSecond => Action::DrawSecondLine,
        Phase::Flushing => Action::FlushDisplay,
    }
}

/// Whether `ev` reports the outcome of the step that phase `p` awaits.
pub open spec fn event_matches(p: Phase, ev: Event) -> bool {
    match (p, ev) {
        (Phase::Idle, Event::TickElapsed) => true,
        (Phase::Clearing, Event::ClearDone(_)) => true,
        (Phase::Sampling, Event::SensorRead(_)) => true,
        (Phase::DrawingFirst, Event::FirstDrawn(_)) => true,
        (Phase::DrawingSecond, Event::SecondDrawn(_)) => true,
        (Phase::Flushing, Event::FlushDone(_)) => true,
        _ => false,
    }
}

/// The phase that follows the step `ev` reports on — a function of the
/// step alone, never of its success or failure.
pub open spec fn phase_after(ev: Event) -> Phase {
    match ev {
        Event::TickElapsed => Phase::Clearing,
        Event::ClearDone(_) => Phase::Sampling,
        Event::SensorRead(_) => Phase::DrawingFirst,
        Event::FirstDrawn(_) => Phase::DrawingSecond,
        Event::SecondDrawn(_) => Phase::Flushing,
        Event::FlushDone(_) => Phase::Idle,
    }
}

/// What a sample leaves in the line buffers: the formatted numbers when
/// the read succeeded, the `Error` placeholder when it failed. Either
/// text goes through the buffer's own write discipline, so an overflow
/// leaves the buffer as it was.
pub open spec fn lines_after_sample(m: MonitorModel, res: Result<Reading, SensorError>) -> (
    Seq<u8>,
    Seq<u8>,
) {
    match res {
        Ok(r) => (
            write_result(m.line1, temp_line(r.temp_centi as int), LINE_CAPACITY as nat),
            write_result(m.line2, humi_line(r.humi_centi as int), LINE_CAPACITY as nat),
        ),
        Err(_) => (
            write_result(m.line1, error_text(), LINE_CAPACITY as nat),
            write_result(m.line2, error_text(), LINE_CAPACITY as nat),
        ),
    }
}

/// What a sample sends to the log: the reading or the failure, followed
/// by one overflow record per line whose text did not fit.
pub open spec fn logs_after_sample(m: MonitorModel, res: Result<Reading, SensorError>) -> Seq<
    LogEntry,
> {
    let (t1, t2) = match res {
        Ok(r) => (temp_line(r.temp_centi as int), humi_line(r.humi_centi as int)),
        Err(_) => (error_text(), error_text()),
    };
    let head = match res {
        Ok(r) => LogEntry::ReadingTaken(r),
        Err(e) => LogEntry::ReadFailed(e),
    };
    seq![head] + (if write_fits(m.line1, t1, LINE_CAPACITY as nat) {
        Seq::<LogEntry>::empty()
    } else {
        seq![LogEntry::LineOverflow]
    }) + (if write_fits(m.line2, t2, LINE_CAPACITY as nat) {
        Seq::<LogEntry>::empty()
    } else {
        seq![LogEntry::LineOverflow]
    })
}

/// The whole per-event decision: the next state and what is logged.
pub open spec fn step(m: MonitorModel, ev: Event) -> (MonitorModel, Seq<LogEntry>) {
    match ev {
        Event::TickElapsed => (MonitorModel { phase: Phase::Clearing, ..m }, Seq::empty()),
        Event::ClearDone(res) => (
            MonitorModel {
                phase: Phase::Sampling,
                line1: Seq::empty(),
                line2: Seq::empty(),
            },
            match res {
                Ok(_) => seq![LogEntry::ScreenCleared],
                Err(e) => seq![LogEntry::ClearFailed(e)],
            },
        ),
        Event::SensorRead(res) => (
            MonitorModel {
                phase: Phase::DrawingFirst,
                line1: lines_after_sample(m, res).0,
                line2: lines_after_sample(m, res).1,
            },
            logs_after_sample(m, res),
        ),
        Event::FirstDrawn(res) => (
            MonitorModel { phase: Phase::DrawingSecond, ..m },
            match res {
                Ok(_) => seq![LogEntry::LineDrawn],
                Err(e) => seq![LogEntry::DrawFailed(e)],
            },
        ),
        Event::SecondDrawn(res) => (
            MonitorModel { phase: Phase::Flushing, ..m },
            match res {
                Ok(_) => seq![LogEntry::LineDrawn],
                Err(e) => seq![LogEntry::DrawFailed(e)],
            },
        ),
        Event::FlushDone(res) => (
            MonitorModel { phase: Phase::Idle, ..m },
            match res {
                Ok(_) => seq![LogEntry::Flushed],
                Err(e) => seq![LogEntry::FlushFailed(e)],
            },
        ),
    }
}

/// The monitor's state between events: the pending phase and the two
/// line buffers the renderer draws from.
pub struct Monitor {
    phase: Phase,
    line1: FmtBuf,
    line2: FmtBuf,
}

impl View for Monitor {
    type V = MonitorModel;

    closed spec fn view(&self) -> MonitorModel {
        MonitorModel { phase: self.phase, line1: self.line1@, line2: self.line2@ }
    }
}

impl Monitor {
    pub open spec fn wf(&self) -> bool {
        &&& self@.line1.len() <= LINE_CAPACITY
        &&& self@.line2.len() <= LINE_CAPACITY
    }

    /// A monitor at the start of its first cycle: idle, lines empty.
    pub fn new() -> (m: Monitor)
        ensures
            m@.phase == Phase::Idle,
            m@.line1 == Seq::<u8>::empty(),
            m@.line2 == Seq::<u8>::empty(),
            m.wf(),
    {
        Monitor { phase: Phase::Idle, line1: FmtBuf::new(), line2: FmtBuf::new() }
    }

    /// The step the driver should perform next.
    pub fn pending_action(&self) -> (a: Action)
        ensures
            a == action_for(self@.phase),
    {
        match self.phase {
            Phase::Idle => Action::Wait,
            Phase::Clearing => Action::ClearDisplay,
            Phase::Sampling => Action::ReadSensor,
            Phase::DrawingFirst => Action::DrawFirstLine,
            Phase::DrawingSecond => Action::DrawSecondLine,
            Phase::Flushing => Action::FlushDisplay,
        }
    }

    /// The text to draw at the first anchor.
    pub fn first_line(&self) -> (r: &[u8])
        ensures
            r@ == self@.line1,
    {
        self.line1.as_text()
    }

    /// The text to draw at the second anchor.
    pub fn second_line(&self) -> (r: &[u8])
        ensures
            r@ == self@.line2,
    {
        self.line2.as_text()
    }

    /// Feeds the outcome of the pending step into the monitor. The new
    /// state and the returned log records are exactly what [`step`]
    /// says; in particular the next phase never depends on whether the
    /// step succeeded.
    pub fn advance(&mut self, ev: Event) -> (log: Vec<LogEntry>)
        requires
            old(self).wf(),
            event_matches(old(self)@.phase, ev),
        ensures
            final(self).wf(),
            final(self)@ == step(old(self)@, ev).0,
            log@ == step(old(self)@, ev).1,
    {
        let mut log: Vec<LogEntry> = Vec::new();
        match ev {
            Event::TickElapsed => {
                self.phase = Phase::Clearing;
            },
            Event::ClearDone(res) => {
                self.line1.reset();
                self.line2.reset();
                self.phase = Phase::Sampling;
                match res {
                    Ok(_) => log.push(LogEntry::ScreenCleared),
                    Err(e) => log.push(LogEntry::ClearFailed(e)),
                }
            },
            Event::SensorRead(res) => {
                match res {
                    Ok(r) => {
                        log.push(LogEntry::ReadingTaken(r));
                        let text1 = crate::textfmt::render_temp_line(r.temp_centi);
                        if self.line1.write(text1.as_slice()).is_err() {
                            log.push(LogEntry::LineOverflow);
                        }
                        let text2 = crate::textfmt::render_humi_line(r.humi_centi);
                        if self.line2.write(text2.as_slice()).is_err() {
                            log.push(LogEntry::LineOverflow);
                        }
                    },
                    Err(e) => {
                        log.push(LogEntry::ReadFailed(e));
                        let placeholder = crate::textfmt::render_error_text();
                        if self.line1.write(placeholder.as_slice()).is_err() {
                            log.push(LogEntry::LineOverflow);
                        }
                        if self.line2.write(placeholder.as_slice()).is_err() {
                            log.push(LogEntry::LineOverflow);
                        }
                    },
                }
                self.phase = Phase::DrawingFirst;
                proof {
                    assert(log@ =~= logs_after_sample(old(self)@, res));
                }
            },
            Event::FirstDrawn(res) => {
                self.phase = Phase::DrawingSecond;
                match res {
                    Ok(_) => log.push(LogEntry::LineDrawn),
                    Err(e) => log.push(LogEntry::DrawFailed(e)),
                }
            },
            Event::SecondDrawn(res) => {
                self.phase = Phase::Flushing;
                match res {
                    Ok(_) => log.push(LogEntry::LineDrawn),
                    Err(e) => log.push(LogEntry::DrawFailed(e)),
                }
            },
            Event::FlushDone(res) => {
                self.phase = Phase::Idle;
                match res {
                    Ok(_) => log.push(LogEntry::Flushed),
                    Err(e) => log.push(LogEntry::FlushFailed(e)),
                }
            },
        }
        proof {
            assert(self@ =~= step(old(self)@, ev).0);
            assert(log@ =~= step(old(self)@, ev).1);
        }
        log
    }
}

/// Law: no step's failure changes the path through a cycle — the phase
/// the monitor moves to depends only on which step reported back, never
/// on whether it succeeded. In particular a failed Clear still leads to
/// Sample, and a failed Sample still leads to Draw and Flush.
pub proof fn failures_never_halt(m: MonitorModel, ev: Event)
    ensures
        step(m, ev).0.phase == phase_after(ev),
{
}

/// Law: a Clear failure does not stop the cycle: the monitor moves on
/// to sampling with freshly reset lines, in exactly the state a
/// successful clear would have left.
pub proof fn clear_failure_does_not_stop_cycle(m: MonitorModel, e: DisplayError)
    ensures
        step(m, Event::ClearDone(Err(e))).0.phase == Phase::Sampling,
        step(m, Event::ClearDone(Err(e))).0 == step(m, Event::ClearDone(Ok(()))).0,
        step(m, Event::ClearDone(Err(e))).1 == seq![LogEntry::ClearFailed(e)],
{
    assert(step(m, Event::ClearDone(Err(e))).0 =~= step(m, Event::ClearDone(Ok(()))).0);
}

/// Law: cycles are independent. Once a new cycle's clear outcome is in,
/// the monitor's state is one and the same whatever earlier cycles did
/// or failed to do; every later step is a function of that state and of
/// the new cycle's own events alone.
pub proof fn cycles_are_independent(
    before_n: MonitorModel,
    before_m: MonitorModel,
    res: Result<(), DisplayError>,
)
    ensures
        step(before_n, Event::ClearDone(res)).0 == step(before_m, Event::ClearDone(res)).0,
        step(before_n, Event::ClearDone(res)).1 == step(before_m, Event::ClearDone(res)).1,
{
    assert(step(before_n, Event::ClearDone(res)).0 =~= step(before_m, Event::ClearDone(res)).0);
}

/// Law: a failed sensor read puts the literal `Error` text in both
/// lines, logs the failure, and the cycle still goes on to the draw
/// steps. The lines are empty at sampling time, having just been reset.
pub proof fn sensor_failure_degrades_and_continues(m: MonitorModel, e: SensorError)
    requires
        m.line1 == Seq::<u8>::empty(),
        m.line2 == Seq::<u8>::empty(),
    ensures
        step(m, Event::SensorRead(Err(e))).0.phase == Phase::DrawingFirst,
        step(m, Event::SensorRead(Err(e))).0.line1 == error_text(),
        step(m, Event::SensorRead(Err(e))).0.line2 == error_text(),
        step(m, Event::SensorRead(Err(e))).1 == seq![LogEntry::ReadFailed(e)],
{
    assert(step(m, Event::SensorRead(Err(e))).0.line1 =~= error_text());
    assert(step(m, Event::SensorRead(Err(e))).0.line2 =~= error_text());
    assert(step(m, Event::SensorRead(Err(e))).1 =~= seq![LogEntry::ReadFailed(e)]);
}

/// Law: an in-range reading always formats completely: starting from
/// the freshly reset lines, both hold the exact numeric text, nothing
/// overflows, and the cycle goes on to the draw steps.
pub proof fn valid_reading_renders_fully(m: MonitorModel, r: Reading)
    requires
        r.wf(),
        m.line1 == Seq::<u8>::empty(),
        m.line2 == Seq::<u8>::empty(),
    ensures
        step(m, Event::SensorRead(Ok(r))).0.phase == Phase::DrawingFirst,
        step(m, Event::SensorRead(Ok(r))).0.line1 == temp_line(r.temp_centi as int),
        step(m, Event::SensorRead(Ok(r))).0.line2 == humi_line(r.humi_centi as int),
        step(m, Event::SensorRead(Ok(r))).1 == seq![LogEntry::ReadingTaken(r)],
{
    valid_reading_lines_fit(r);
    assert(step(m, Event::SensorRead(Ok(r))).0.line1 =~= temp_line(r.temp_centi as int));
    assert(step(m, Event::SensorRead(Ok(r))).0.line2 =~= humi_line(r.humi_centi as int));
    assert(step(m, Event::SensorRead(Ok(r))).1 =~= seq![LogEntry::ReadingTaken(r)]);
}

} // verus!
