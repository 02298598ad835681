//! Per-connection driver: the decisions of the task that owns one
//! transport connection.
//!
//! The task dials, reports the outcome of the dial to the engine, then
//! drives a strictly sequential read-write loop: one cycle at a time is
//! submitted to the engine, its outcome is applied to the transport, and
//! the task suspends until the transport, an engine wake-up signal or a
//! deadline fires. The asynchronous shell performs the I/O; every decision
//! it takes between two suspension points is a method of
//! [`ConnectionDriver`].

use vstd::prelude::*;

verus! {

/// What the engine reported for one read-write cycle.
///
/// Instants are measured on the shell's monotonic clock, in nanoseconds
/// since an arbitrary origin; `wake_up_after` is on the same clock as the
/// `now` passed back to [`ConnectionDriver::on_read_write`].
#[derive(Clone, Copy)]
pub struct ReadWriteOutcome {
    /// Bytes the engine consumed from the read buffer.
    pub read_bytes: usize,
    /// Bytes the engine produced into the write buffer.
    pub written_bytes: usize,
    /// The engine asks for the write side of the connection to be closed.
    pub write_close: bool,
    /// If set, the engine wants to be polled again at this instant even if
    /// nothing else happens before then.
    pub wake_up_after: Option<u64>,
}

/// Report owed to the engine for one dial attempt: exactly one of the two,
/// never both, never neither.
pub enum DialReport {
    /// The dial succeeded: report a success outcome; the engine answers
    /// with the established connection's identifier.
    Success,
    /// The dial failed: report a failure outcome; the task ends.
    Failure,
}

/// How the task suspends between two read-write cycles. Whatever the mode,
/// the task also wakes on transport readiness and on the engine's wake-up
/// signal; the mode only adds or removes the timer among the raced sources.
pub enum WaitMode {
    /// The requested wake-up instant has already passed: run the next
    /// cycle immediately, without suspending.
    Immediate,
    /// Race a timer firing at this instant with the other two sources.
    Deadline(u64),
    /// No deadline was requested: race only the transport and the wake-up
    /// signal.
    NoDeadline,
}

/// What the task does after one read-write cycle.
pub enum CycleAction {
    /// The write side is to close and the peer already closed its side:
    /// flush and close the transport, then end the task.
    FlushCloseAndEnd,
    /// Keep the connection: apply the consumed and produced byte counts to
    /// the buffers, close the local write half if `close_write_half`, then
    /// suspend as `wait` says.
    Continue { close_write_half: bool, wait: WaitMode },
}

/// Phase of the connection's lifecycle.
pub enum ConnectionPhase {
    /// The transport-level connect operation is in flight.
    Dialing,
    /// The connection is established; `write_closed` records whether the
    /// local write half has already been closed.
    Established { write_closed: bool },
    /// The task has ended, or is about to end without issuing any further
    /// cycle.
    Closed,
}

/// The report owed for a dial that succeeded iff `success`.
pub open spec fn dial_report_of(success: bool) -> DialReport {
    if success {
        DialReport::Success
    } else {
        DialReport::Failure
    }
}

/// The suspension mode that follows from a requested wake-up instant and
/// the instant the cycle was submitted at.
pub open spec fn wait_mode_of(wake_up_after: Option<u64>, now: u64) -> WaitMode {
    match wake_up_after {
        Some(t) => if t > now {
            WaitMode::Deadline(t)
        } else {
            WaitMode::Immediate
        },
        None => WaitMode::NoDeadline,
    }
}

/// The action that follows from one cycle's outcome: end the task when the
/// engine closes the write side and the peer has already closed its own,
/// otherwise continue, closing the local write half at most once.
pub open spec fn cycle_action_of(
    write_closed: bool,
    o: ReadWriteOutcome,
    read_buffer_present: bool,
    now: u64,
) -> CycleAction {
    if o.write_close && !read_buffer_present {
        CycleAction::FlushCloseAndEnd
    } else {
        CycleAction::Continue {
            close_write_half: o.write_close && !write_closed,
            wait: wait_mode_of(o.wake_up_after, now),
        }
    }
}

/// Decision state of the task owning one connection.
///
/// The two cycle counters instrument the serialization of the read-write
/// loop: a cycle is counted as started when it is submitted to the engine
/// and as finished when its outcome (or its error) comes back. Well-formed
/// states never have two cycles in flight.
pub struct ConnectionDriver {
    phase: ConnectionPhase,
    cycles_started: u64,
    cycles_finished: u64,
}

impl ConnectionDriver {
    /// Lifecycle phase.
    pub closed spec fn phase(self) -> ConnectionPhase {
        self.phase
    }

    /// How many read-write cycles were submitted to the engine.
    pub closed spec fn cycles_started(self) -> u64 {
        self.cycles_started
    }

    /// How many read-write cycles came back from the engine.
    pub closed spec fn cycles_finished(self) -> u64 {
        self.cycles_finished
    }

    /// A cycle has been submitted and its outcome has not come back yet.
    pub open spec fn cycle_in_flight(self) -> bool {
        self.cycles_started() == self.cycles_finished() + 1
    }

    /// Well-formedness: cycles are strictly sequential — at most one in
    /// flight — they are issued only on an established connection, and
    /// none is issued before the dial outcome is reported.
    pub open spec fn wf(self) -> bool {
        &&& self.cycles_finished() <= self.cycles_started() <= self.cycles_finished() + 1
        &&& (self.cycle_in_flight() ==> self.phase() is Established)
        &&& (self.phase() is Dialing ==> self.cycles_started() == 0)
    }

    /// A fresh driver, its dial still in flight.
    pub fn new() -> (d: ConnectionDriver)
        ensures
            d.wf(),
            d.phase() is Dialing,
            d.cycles_started() == 0,
            d.cycles_finished() == 0,
    {
        ConnectionDriver {
            phase: ConnectionPhase::Dialing,
            cycles_started: 0,
            cycles_finished: 0,
        }
    }

    /// The dial finished: decide the one outcome report owed to the engine.
    ///
    /// A success report establishes the connection (and the shell then
    /// disables the transport's small-packet coalescing delay, since this
    /// layer buffers its own writes); a failure report ends the task. The
    /// driver leaves the dialing phase either way, so a second report for
    /// the same pending connection is impossible.
    pub fn on_dial_result(&mut self, success: bool) -> (r: DialReport)
        requires
            old(self).wf(),
            old(self).phase() is Dialing,
        ensures
            final(self).wf(),
            r == dial_report_of(success),
            !(final(self).phase() is Dialing),
            final(self).phase() == (if success {
                ConnectionPhase::Established { write_closed: false }
            } else {
                ConnectionPhase::Closed
            }),
            final(self).cycles_started() == old(self).cycles_started(),
            final(self).cycles_finished() == old(self).cycles_finished(),
    {
        if success {
            self.phase = ConnectionPhase::Established { write_closed: false };
            DialReport::Success
        } else {
            self.phase = ConnectionPhase::Closed;
            DialReport::Failure
        }
    }

    /// A read-write cycle is being submitted to the engine. Only one may
    /// be in flight: a second submission before the outcome came back is
    /// ruled out by the precondition.
    pub fn begin_cycle(&mut self)
        requires
            old(self).wf(),
            old(self).phase() is Established,
            !old(self).cycle_in_flight(),
            old(self).cycles_started() < u64::MAX,
        ensures
            final(self).wf(),
            final(self).cycle_in_flight(),
            final(self).phase() == old(self).phase(),
            final(self).cycles_started() == old(self).cycles_started() + 1,
            final(self).cycles_finished() == old(self).cycles_finished(),
    {
        self.cycles_started = self.cycles_started + 1;
    }

    /// The engine answered the cycle in flight: decide what the task does
    /// next.
    pub fn on_read_write(
        &mut self,
        outcome: &ReadWriteOutcome,
        read_buffer_present: bool,
        now: u64,
    ) -> (r: CycleAction)
        requires
            old(self).wf(),
            old(self).phase() matches ConnectionPhase::Established { .. },
            old(self).cycle_in_flight(),
        ensures
            final(self).wf(),
            !final(self).cycle_in_flight(),
            final(self).cycles_started() == old(self).cycles_started(),
            final(self).cycles_finished() == old(self).cycles_finished() + 1,
            r == cycle_action_of(
                old(self).phase()->write_closed,
                *outcome,
                read_buffer_present,
                now,
            ),
            final(self).phase() == (if r is FlushCloseAndEnd {
                ConnectionPhase::Closed
            } else {
                ConnectionPhase::Established {
                    write_closed: old(self).phase()->write_closed || outcome.write_close,
                }
            }),
    {
        self.cycles_finished = self.cycles_finished + 1;
        let write_closed = match self.phase {
            ConnectionPhase::Established { write_closed } => write_closed,
            _ => false,
        };
        if outcome.write_close && !read_buffer_present {
            self.phase = ConnectionPhase::Closed;
            return CycleAction::FlushCloseAndEnd;
        }
        self.phase = ConnectionPhase::Established {
            write_closed: write_closed || outcome.write_close,
        };
        let wait = match outcome.wake_up_after {
            Some(t) => if t > now {
                WaitMode::Deadline(t)
            } else {
                WaitMode::Immediate
            },
            None => WaitMode::NoDeadline,
        };
        CycleAction::Continue { close_write_half: outcome.write_close && !write_closed, wait }
    }

    /// Whether the task has ended (or is about to, without issuing any
    /// further cycle).
    pub fn is_closed(&self) -> (r: bool)
        ensures
            r == (self.phase() is Closed),
    {
        matches!(self.phase, ConnectionPhase::Closed)
    }

    /// How many read-write cycles were submitted to the engine so far.
    pub fn cycles_started_count(&self) -> (n: u64)
        ensures
            n == self.cycles_started(),
    {
        self.cycles_started
    }

    /// How many read-write cycles came back from the engine so far.
    pub fn cycles_finished_count(&self) -> (n: u64)
        ensures
            n == self.cycles_finished(),
    {
        self.cycles_finished
    }

    /// The transport failed, or the engine reported a connection-fatal
    /// error for the cycle in flight: the task ends silently. The error is
    /// not re-reported to the engine — from its side the connection is
    /// already terminal.
    pub fn on_connection_error(&mut self)
        requires
            old(self).wf(),
            old(self).phase() is Established,
        ensures
            final(self).wf(),
            final(self).phase() is Closed,
            !final(self).cycle_in_flight(),
            final(self).cycles_started() == old(self).cycles_started(),
            final(self).cycles_finished() == old(self).cycles_started(),
    {
        self.phase = ConnectionPhase::Closed;
        self.cycles_finished = self.cycles_started;
    }
}

/// Every pending connection gets exactly one outcome report: for any dial
/// result, the report is a success report exactly when the dial succeeded
/// and a failure report exactly when it failed — one of the two, never
/// both. (And `on_dial_result` leaves the dialing phase, whose
/// precondition it is, so the report cannot be repeated.)
pub proof fn lemma_exactly_one_dial_outcome(success: bool)
    ensures
        dial_report_of(success) is Success <==> success,
        dial_report_of(success) is Failure <==> !success,
{
}

/// Read-write cycles never overlap: in every well-formed driver state the
/// number of cycles submitted to the engine exceeds the number of cycles
/// answered by at most one, so no two cycles are in flight at once for the
/// connection this driver owns.
pub proof fn lemma_cycles_never_overlap(d: ConnectionDriver)
    requires
        d.wf(),
    ensures
        d.cycles_started() <= d.cycles_finished() + 1,
{
}

/// Once the connection is closed — after a flush-and-close action, a dial
/// failure or a connection error — no read-write cycle is in flight, and
/// none can be issued any more: submitting one (`begin_cycle`) demands an
/// established connection.
pub proof fn lemma_no_cycle_after_close(d: ConnectionDriver)
    requires
        d.wf(),
        d.phase() is Closed,
    ensures
        !d.cycle_in_flight(),
{
}

} // verus!
