use futures::stream::AbortHandle;
use podforward::abort::AbortSignal;
use podforward::cancelable_stream::{
    decide, CancelableReadWrite, Directive, FailureKind, Operation, Outcome, ReadReport,
};

const OPERATIONS: [Operation; 4] = [
    Operation::Read,
    Operation::Write,
    Operation::Flush,
    Operation::Shutdown,
];

fn reset() -> Outcome {
    Outcome::Failed {
        kind: FailureKind::ConnectionReset,
    }
}

fn other() -> Outcome {
    Outcome::Failed {
        kind: FailureKind::Other,
    }
}

#[test]
fn decisions_for_every_operation() {
    for operation in OPERATIONS {
        assert_eq!(decide(operation, true, false), Directive::Inert);
        assert_eq!(decide(operation, true, true), Directive::Inert);
        assert_eq!(decide(operation, false, true), Directive::ShutDown);
    }
    assert_eq!(decide(Operation::Read, false, false), Directive::Perform);
    assert_eq!(decide(Operation::Write, false, false), Directive::Perform);
    assert_eq!(decide(Operation::Flush, false, false), Directive::Perform);
    assert_eq!(
        decide(Operation::Shutdown, false, false),
        Directive::ShutDown
    );
}

#[test]
fn fresh_stream_performs_its_operations() {
    let (_handle, registration) = AbortHandle::new_pair();
    let stream = CancelableReadWrite::new(&registration);

    assert!(!stream.is_finished());
    assert_eq!(stream.poll_read(), Directive::Perform);
    assert_eq!(stream.poll_write(), Directive::Perform);
    assert_eq!(stream.poll_flush(), Directive::Perform);
    assert_eq!(stream.poll_shutdown(), Directive::ShutDown);
}

#[test]
fn abort_turns_operations_into_shutdown() {
    let (handle, registration) = AbortHandle::new_pair();
    let stream = CancelableReadWrite::new(&registration);

    handle.abort();

    assert_eq!(stream.poll_read(), Directive::ShutDown);
    assert_eq!(stream.poll_write(), Directive::ShutDown);
    assert_eq!(stream.poll_flush(), Directive::ShutDown);
    assert_eq!(stream.poll_shutdown(), Directive::ShutDown);
    assert!(!stream.is_finished());
}

#[test]
fn abort_twice_is_abort_once() {
    let (handle, registration) = AbortHandle::new_pair();
    let once = CancelableReadWrite::new(&registration);
    handle.abort();
    let after_one: Vec<Directive> = OPERATIONS.iter().map(|o| once.poll(*o)).collect();

    handle.abort();
    let after_two: Vec<Directive> = OPERATIONS.iter().map(|o| once.poll(*o)).collect();

    assert_eq!(after_one, after_two);
    assert!(handle.is_aborted());
}

#[test]
fn signal_trips_once_and_stays_tripped() {
    let mut signal = AbortSignal::new();
    let stream = CancelableReadWrite::new(signal.registration());
    assert!(!signal.is_tripped());
    assert!(!signal.registration().handle().is_aborted());
    assert_eq!(stream.poll_read(), Directive::Perform);

    signal.trip();
    assert!(signal.is_tripped());
    assert!(signal.registration().handle().is_aborted());
    assert_eq!(stream.poll_read(), Directive::ShutDown);

    signal.trip();
    assert!(signal.is_tripped());
    assert!(signal.registration().handle().is_aborted());
    assert_eq!(stream.poll_read(), Directive::ShutDown);
}

#[test]
fn signals_are_independent() {
    let mut first = AbortSignal::new();
    let second = AbortSignal::new();
    let sibling = CancelableReadWrite::new(second.registration());

    first.trip();

    assert!(!second.is_tripped());
    assert!(!second.registration().handle().is_aborted());
    assert_eq!(sibling.poll_write(), Directive::Perform);
}

#[test]
fn reset_is_reported_as_end_of_stream_and_latches() {
    let (_handle, registration) = AbortHandle::new_pair();
    let mut stream = CancelableReadWrite::new(&registration);

    assert_eq!(stream.read_completed(reset()), ReadReport::EndOfStream);

    assert!(stream.is_finished());
    for _ in 0..10 {
        for operation in OPERATIONS {
            assert_eq!(stream.poll(operation), Directive::Inert);
        }
    }
}

#[test]
fn finished_stream_stays_inert_under_abort() {
    let (handle, registration) = AbortHandle::new_pair();
    let mut stream = CancelableReadWrite::new(&registration);
    stream.read_completed(reset());

    handle.abort();

    assert_eq!(stream.poll_read(), Directive::Inert);
    assert_eq!(stream.poll_write(), Directive::Inert);
    assert_eq!(stream.poll_flush(), Directive::Inert);
    assert_eq!(stream.poll_shutdown(), Directive::Inert);
}

#[test]
fn finished_stream_is_not_reopened_by_later_reads() {
    let (_handle, registration) = AbortHandle::new_pair();
    let mut stream = CancelableReadWrite::new(&registration);
    stream.read_completed(reset());

    assert_eq!(stream.read_completed(Outcome::Done), ReadReport::Data);
    assert_eq!(stream.read_completed(Outcome::Pending), ReadReport::Pending);
    assert_eq!(stream.read_completed(other()), ReadReport::Error);

    assert!(stream.is_finished());
}

#[test]
fn other_read_errors_pass_unchanged() {
    let (_handle, registration) = AbortHandle::new_pair();
    let mut stream = CancelableReadWrite::new(&registration);

    for _ in 0..3 {
        assert_eq!(stream.read_completed(other()), ReadReport::Error);
        assert!(!stream.is_finished());
    }
    assert_eq!(stream.read_completed(Outcome::Done), ReadReport::Data);
    assert_eq!(stream.read_completed(Outcome::Pending), ReadReport::Pending);
    assert!(!stream.is_finished());
    assert_eq!(stream.poll_read(), Directive::Perform);
}
