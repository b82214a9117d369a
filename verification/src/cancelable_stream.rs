//! The decisions of a cancelable duplex stream: a stream that wraps another
//! one, turns an abort signal into a graceful shutdown, and conceals the
//! reset that the peer answers it with.
//!
//! The wrapped stream itself is driven by the caller. For each operation the
//! caller asks here what to do with the wrapped stream, and reports back how
//! a read on it ended.

use crate::abort::{handle_is_aborted, registration_handle};
use futures::stream::{AbortHandle, AbortRegistration};
use vstd::prelude::*;

verus! {

/// An operation of a duplex stream.
#[derive(Clone, Copy, Debug, PartialEq, Eq, Structural)]
pub enum Operation {
    Read,
    Write,
    Flush,
    Shutdown,
}

/// What to do with the wrapped stream in place of an operation.
#[derive(Clone, Copy, Debug, PartialEq, Eq, Structural)]
pub enum Directive {
    /// Leave the wrapped stream alone and report at once, without error: a
    /// read reports the end of the stream, a write reports that no byte was
    /// written, a flush or a shutdown reports success.
    Inert,
    /// Shut the wrapped stream down in place of the operation, and report
    /// what the shutdown reports; a write reports no byte written.
    ShutDown,
    /// Perform the operation on the wrapped stream.
    Perform,
}

/// The kind of a failure of the wrapped stream, as far as a cancelable
/// stream tells failures apart.
#[derive(Clone, Copy, Debug, PartialEq, Eq, Structural)]
pub enum FailureKind {
    /// The peer has reset the connection.
    ConnectionReset,
    /// Anything else.
    Other,
}

/// How an operation on the wrapped stream ended.
#[derive(Clone, Copy, Debug, PartialEq, Eq, Structural)]
pub enum Outcome {
    /// It has not ended yet.
    Pending,
    /// It succeeded.
    Done,
    /// It failed, with an error of this kind.
    Failed { kind: FailureKind },
}

/// What the cancelable stream reports of a read.
#[derive(Clone, Copy, Debug, PartialEq, Eq, Structural)]
pub enum ReadReport {
    /// The read has not ended yet.
    Pending,
    /// What the wrapped stream read.
    Data,
    /// A clean end of the stream, with no byte and no error.
    EndOfStream,
    /// The error of the wrapped stream, unchanged.
    Error,
}

/// What a cancelable stream does with the wrapped stream for an operation.
///
/// A finished stream is inert. Otherwise an abort that has been requested
/// turns every operation into a shutdown of the wrapped stream. Otherwise
/// the operation is performed.
pub open spec fn directive_of(operation: Operation, finished: bool, aborted: bool) -> Directive {
    if finished {
        Directive::Inert
    } else if aborted || operation == Operation::Shutdown {
        Directive::ShutDown
    } else {
        Directive::Perform
    }
}

/// Whether an outcome is the failure of a connection reset by its peer.
pub open spec fn is_reset(outcome: Outcome) -> bool {
    outcome == (Outcome::Failed { kind: FailureKind::ConnectionReset })
}

/// Whether a stream is finished once a read on the wrapped stream has ended
/// with `outcome`: it is if it was, or if the peer has reset the connection.
pub open spec fn finished_after(finished: bool, outcome: Outcome) -> bool {
    finished || is_reset(outcome)
}

/// What is reported of a read on the wrapped stream that ended with
/// `outcome`: a reset by the peer is a clean end of the stream, every other
/// error is passed on.
pub open spec fn report_of(outcome: Outcome) -> ReadReport {
    match outcome {
        Outcome::Pending => ReadReport::Pending,
        Outcome::Done => ReadReport::Data,
        Outcome::Failed { kind } => match kind {
            FailureKind::ConnectionReset => ReadReport::EndOfStream,
            FailureKind::Other => ReadReport::Error,
        },
    }
}

/// Whether a stream is finished after reads on the wrapped stream have
/// ended with `outcomes`, one after the other.
pub open spec fn finished_after_all(finished: bool, outcomes: Seq<Outcome>) -> bool
    decreases outcomes.len(),
{
    if outcomes.len() == 0 {
        finished
    } else {
        finished_after(finished_after_all(finished, outcomes.drop_last()), outcomes.last())
    }
}

/// Decides what to do with the wrapped stream for one operation.
pub fn decide(operation: Operation, finished: bool, aborted: bool) -> (directive: Directive)
    ensures
        directive == directive_of(operation, finished, aborted),
{
    if finished {
        Directive::Inert
    } else if aborted {
        Directive::ShutDown
    } else {
        match operation {
            Operation::Shutdown => Directive::ShutDown,
            _ => Directive::Perform,
        }
    }
}

/// The state of a cancelable duplex stream: the abort signal that it is
/// bound to, and the latch that makes it inert.
pub struct CancelableReadWrite {
    abort: AbortHandle,
    finished: bool,
}

impl CancelableReadWrite {
    /// Whether the stream is finished, and so inert.
    pub closed spec fn finished(&self) -> bool {
        self.finished
    }

    /// The handle through which the stream reads its abort signal. It is
    /// taken from the registration that the stream is made with.
    pub closed spec fn signal(&self) -> AbortHandle {
        self.abort
    }

    /// A stream bound to the signal of `abort_registration`, not finished.
    pub fn new(abort_registration: &AbortRegistration) -> (stream: Self)
        ensures
            !stream.finished(),
    {
        CancelableReadWrite { abort: registration_handle(abort_registration), finished: false }
    }

    /// Whether the stream is finished, and so inert.
    pub fn is_finished(&self) -> (finished: bool)
        ensures
            finished == self.finished(),
    {
        self.finished
    }

    /// What to do with the wrapped stream for `operation`, as the abort
    /// signal stands when it is read.
    pub fn poll(&self, operation: Operation) -> (directive: Directive)
        ensures
            exists|aborted: bool| directive == directive_of(operation, self.finished(), aborted),
            self.finished() ==> directive == Directive::Inert,
            !self.finished() ==> directive != Directive::Inert,
            !self.finished() && operation == Operation::Shutdown ==> directive
                == Directive::ShutDown,
    {
        if self.finished {
            assert(Directive::Inert == directive_of(operation, self.finished(), false));
            return Directive::Inert;
        }
        let aborted = handle_is_aborted(&self.abort);
        decide(operation, self.finished, aborted)
    }

    /// What to do with the wrapped stream for a read.
    pub fn poll_read(&self) -> (directive: Directive)
        ensures
            exists|aborted: bool|
                directive == directive_of(Operation::Read, self.finished(), aborted),
            self.finished() <==> directive == Directive::Inert,
    {
        self.poll(Operation::Read)
    }

    /// What to do with the wrapped stream for a write.
    pub fn poll_write(&self) -> (directive: Directive)
        ensures
            exists|aborted: bool|
                directive == directive_of(Operation::Write, self.finished(), aborted),
            self.finished() <==> directive == Directive::Inert,
    {
        self.poll(Operation::Write)
    }

    /// What to do with the wrapped stream for a flush.
    pub fn poll_flush(&self) -> (directive: Directive)
        ensures
            exists|aborted: bool|
                directive == directive_of(Operation::Flush, self.finished(), aborted),
            self.finished() <==> directive == Directive::Inert,
    {
        self.poll(Operation::Flush)
    }

    /// What to do with the wrapped stream for a shutdown.
    pub fn poll_shutdown(&self) -> (directive: Directive)
        ensures
            directive == directive_of(Operation::Shutdown, self.finished(), false),
            directive == if self.finished() {
                Directive::Inert
            } else {
                Directive::ShutDown
            },
    {
        self.poll(Operation::Shutdown)
    }

    /// Takes note of how a read on the wrapped stream ended, and says what
    /// to report of it.
    ///
    /// A reset by the peer finishes the stream and is reported as a clean
    /// end of the stream. Nothing else changes the stream, and a finished
    /// stream stays finished.
    pub fn read_completed(&mut self, outcome: Outcome) -> (report: ReadReport)
        ensures
            report == report_of(outcome),
            final(self).finished() == finished_after(old(self).finished(), outcome),
            final(self).signal() == old(self).signal(),
    {
        match outcome {
            Outcome::Pending => ReadReport::Pending,
            Outcome::Done => ReadReport::Data,
            Outcome::Failed { kind } => match kind {
                FailureKind::ConnectionReset => {
                    self.finished = true;
                    ReadReport::EndOfStream
                },
                FailureKind::Other => ReadReport::Error,
            },
        }
    }
}

/// A finished stream leaves the wrapped stream alone, whatever the
/// operation and whether or not an abort was requested: every call reports
/// an empty result without error.
pub proof fn lemma_finished_is_inert(operation: Operation, aborted: bool)
    ensures
        directive_of(operation, true, aborted) == Directive::Inert,
{
}

/// A finished stream stays finished, whatever reads on the wrapped stream
/// end with.
pub proof fn lemma_finished_stays(outcomes: Seq<Outcome>)
    ensures
        finished_after_all(true, outcomes),
    decreases outcomes.len(),
{
    if outcomes.len() > 0 {
        lemma_finished_stays(outcomes.drop_last());
    }
}

/// A read that fails because the peer reset the connection is reported as
/// a clean end of the stream and finishes the stream: from then on, whatever
/// further reads end with, the stream is inert for every operation, so that
/// no error of the wrapped stream can surface any more.
pub proof fn lemma_reset_concealed(
    finished: bool,
    later: Seq<Outcome>,
    operation: Operation,
    aborted: bool,
)
    ensures
        report_of(Outcome::Failed { kind: FailureKind::ConnectionReset })
            == ReadReport::EndOfStream,
        finished_after(finished, Outcome::Failed { kind: FailureKind::ConnectionReset }),
        directive_of(
            operation,
            finished_after_all(
                finished_after(finished, Outcome::Failed { kind: FailureKind::ConnectionReset }),
                later,
            ),
            aborted,
        ) == Directive::Inert,
{
    lemma_finished_stays(later);
}

/// Only a reset by the peer is concealed: any other failure of a read is
/// passed on as an error, and leaves the stream as it was.
pub proof fn lemma_other_errors_pass(finished: bool)
    ensures
        report_of(Outcome::Failed { kind: FailureKind::Other }) == ReadReport::Error,
        finished_after(finished, Outcome::Failed { kind: FailureKind::Other }) == finished,
{
}

/// Once an abort is requested, an unfinished stream shuts the wrapped
/// stream down in place of every operation.
pub proof fn lemma_abort_shuts_down(operation: Operation)
    ensures
        directive_of(operation, false, true) == Directive::ShutDown,
{
}

} // verus!
