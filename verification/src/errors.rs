//! The ways in which setting up a forward or serving a connection can fail.

use crate::pod::{PortSpec, PortSpecView};
use vstd::prelude::*;

verus! {

/// An error of the forwarder. Each one ends a single connection or a single
/// forward target, never the whole process.
#[derive(Clone, Debug, PartialEq, Eq)]
pub enum MyError {
    /// The forward argument does not have the shape of a forward.
    ArgumentParseError(String),
    /// The forward argument names no local port and its service port is not
    /// a number that could stand in for one.
    UnableToInferLocalPort(String),
    /// The service declares no port of this name: port name, service name.
    MissingNamedPort(String, String),
    /// The service has no specification.
    ServiceNotFound(String),
    /// The service selects no pods.
    ServiceMissingSelectors(String),
    /// No candidate pod is left to forward to.
    MatchingReadyPodNotFound(),
    /// The pod has no port that the port specification denotes.
    CouldNotFindPort(PortSpec),
}

/// The mathematical value of a [`MyError`].
pub enum MyErrorView {
    ArgumentParseError(Seq<char>),
    UnableToInferLocalPort(Seq<char>),
    MissingNamedPort(Seq<char>, Seq<char>),
    ServiceNotFound(Seq<char>),
    ServiceMissingSelectors(Seq<char>),
    MatchingReadyPodNotFound(),
    CouldNotFindPort(PortSpecView),
}

impl View for MyError {
    type V = MyErrorView;

    open spec fn view(&self) -> MyErrorView {
        match self {
            MyError::ArgumentParseError(a) => MyErrorView::ArgumentParseError(a@),
            MyError::UnableToInferLocalPort(a) => MyErrorView::UnableToInferLocalPort(a@),
            MyError::MissingNamedPort(p, s) => MyErrorView::MissingNamedPort(p@, s@),
            MyError::ServiceNotFound(s) => MyErrorView::ServiceNotFound(s@),
            MyError::ServiceMissingSelectors(s) => MyErrorView::ServiceMissingSelectors(s@),
            MyError::MatchingReadyPodNotFound() => MyErrorView::MatchingReadyPodNotFound(),
            MyError::CouldNotFindPort(p) => MyErrorView::CouldNotFindPort(p@),
        }
    }
}

} // verus!
