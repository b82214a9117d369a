//! The abort signal of one connection: a flag that is tripped once and is
//! then seen by every stream bound to it.
//!
//! The flag itself is the abort handle of `futures`, shared between the
//! owner, who trips it, and the streams and the watcher, who read it.

use futures::stream::{AbortHandle, AbortRegistration};
use vstd::prelude::*;

verus! {

/// The abort handle of `futures`: trips the flag and reads it.
#[verifier::external_type_specification]
#[verifier::external_body]
pub struct ExAbortHandle(AbortHandle);

/// The abort registration of `futures`: hands out handles on its flag.
#[verifier::external_type_specification]
#[verifier::external_body]
pub struct ExAbortRegistration(AbortRegistration);

/// `AbortHandle::new_pair` of `futures`: a handle and a registration on one
/// new flag. Nothing is claimed of the pair.
#[verifier::external_body]
fn new_abort_pair() -> (pair: (AbortHandle, AbortRegistration)) {
    AbortHandle::new_pair()
}

/// `AbortHandle::abort` of `futures`: sets the flag. The flag lies behind a
/// shared reference, so nothing is claimed here of what readers see.
#[verifier::external_body]
fn abort_handle(handle: &AbortHandle) {
    handle.abort()
}

/// `AbortHandle::is_aborted` of `futures`: reads the flag. Another holder
/// of the flag may trip it at any time, so nothing is claimed of the answer.
#[verifier::external_body]
pub(crate) fn handle_is_aborted(handle: &AbortHandle) -> (aborted: bool) {
    handle.is_aborted()
}

/// `AbortRegistration::handle` of `futures`: another handle on the flag of
/// the registration. Nothing is claimed of it.
#[verifier::external_body]
pub(crate) fn registration_handle(registration: &AbortRegistration) -> (handle: AbortHandle) {
    registration.handle()
}

/// The mathematical value of an abort signal: the owner's record of
/// whether the signal is tripped, and the two sides of its flag.
pub struct SignalView {
    /// Whether the owner has tripped the signal.
    pub tripped: bool,
    /// The handle by which the owner trips the flag.
    pub handle: AbortHandle,
    /// The registration by which others bind themselves to the flag.
    pub registration: AbortRegistration,
}

/// A signal after a request to abort: tripped, on the flag that it had.
pub open spec fn tripped(signal: SignalView) -> SignalView {
    SignalView { tripped: true, ..signal }
}

/// The owner's side of an abort signal: the flag, and the record of whether
/// the owner has tripped it.
pub struct AbortSignal {
    handle: AbortHandle,
    registration: AbortRegistration,
    tripped: bool,
}

impl AbortSignal {
    /// The mathematical value of the signal.
    pub closed spec fn view(&self) -> SignalView {
        SignalView {
            tripped: self.tripped,
            handle: self.handle,
            registration: self.registration,
        }
    }

    /// A signal on a flag of its own, not tripped.
    pub fn new() -> (signal: Self)
        ensures
            !signal@.tripped,
    {
        let (handle, registration) = new_abort_pair();
        AbortSignal { handle, registration, tripped: false }
    }

    /// Requests the abort: the signal is tripped from now on, on the flag
    /// that it had. A second request changes nothing.
    pub fn trip(&mut self)
        ensures
            final(self)@ == tripped(old(self)@),
    {
        abort_handle(&self.handle);
        self.tripped = true;
    }

    /// Whether the owner has tripped the signal.
    pub fn is_tripped(&self) -> (tripped: bool)
        ensures
            tripped == self@.tripped,
    {
        self.tripped
    }

    /// The registration by which streams and watchers bind themselves to
    /// this signal.
    pub fn registration(&self) -> (registration: &AbortRegistration)
        ensures
            *registration == self@.registration,
    {
        &self.registration
    }
}

/// Tripping a signal twice leaves it as tripping it once does: tripped, on
/// the same flag. No request un-trips it or moves it to another flag.
pub proof fn lemma_trip_idempotent(signal: SignalView)
    ensures
        tripped(tripped(signal)) == tripped(signal),
        tripped(signal).tripped,
        tripped(signal).handle == signal.handle,
        tripped(signal).registration == signal.registration,
{
}

} // verus!
