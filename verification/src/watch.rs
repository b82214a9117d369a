//! The readiness watcher of one connection: what it asks the cluster for,
//! and what it makes of each thing that the watch feed yields.

use crate::abort::handle_is_aborted;
use crate::pod::{is_ready, pod_is_ready, PodCandidate, PodView};
use futures::stream::AbortHandle;
use vstd::prelude::*;
use vstd::string::StringExecFns;

verus! {

/// The watcher configuration of `kube`, which carries the field query to
/// the watch. Nothing in this library looks inside one.
#[verifier::external_type_specification]
#[verifier::external_body]
pub struct ExWatcherConfig(kube::runtime::watcher::Config);

/// The watcher configuration that restricts a watch to the field query
/// `fields` and is the default in everything else.
pub uninterp spec fn fielded_watcher_config(fields: Seq<char>) -> kube::runtime::watcher::Config;

/// `watcher::Config::default().fields(..)` of `kube`: the default watcher
/// configuration with its field selector set to `fields`. The configuration
/// returned depends on `fields` alone.
#[verifier::external_body]
fn watcher_config_with_fields(fields: &str) -> (config: kube::runtime::watcher::Config)
    ensures
        config == fielded_watcher_config(fields@),
{
    kube::runtime::watcher::Config::default().fields(fields)
}

/// The field query that matches the one pod named `name`, by exact name.
pub open spec fn name_query_of(name: Seq<char>) -> Seq<char> {
    "metadata.name="@ + name
}

/// Writes the field query that matches the one pod named `name`.
pub fn name_query(name: &str) -> (query: String)
    ensures
        query@ == name_query_of(name@),
{
    let mut query = String::from_str("metadata.name=");
    query.append(name);
    query
}

/// The watcher configuration for watching the one pod named `name`.
pub fn watch_config(name: &str) -> (config: kube::runtime::watcher::Config)
    ensures
        config == fielded_watcher_config(name_query_of(name@)),
{
    let query = name_query(name);
    watcher_config_with_fields(query.as_str())
}

/// What the watch feed of a pod yields.
#[derive(Clone, Debug, PartialEq, Eq)]
pub enum WatchEvent {
    /// The pod as it is after a change.
    Applied(PodCandidate),
    /// The feed has ended.
    Ended,
    /// The feed has failed.
    Failed,
}

/// The mathematical value of a [`WatchEvent`].
pub enum WatchEventView {
    Applied(PodView),
    Ended,
    Failed,
}

impl View for WatchEvent {
    type V = WatchEventView;

    open spec fn view(&self) -> WatchEventView {
        match self {
            WatchEvent::Applied(pod) => WatchEventView::Applied(pod@),
            WatchEvent::Ended => WatchEventView::Ended,
            WatchEvent::Failed => WatchEventView::Failed,
        }
    }
}

/// What the watcher does after one event of the feed.
#[derive(Clone, Copy, Debug, PartialEq, Eq, Structural)]
pub enum WatchVerdict {
    /// The pod is still ready: go on watching.
    Continue,
    /// Stop: the abort was requested from outside. Nothing is said of the
    /// pod.
    Aborted,
    /// Stop: the pod has lost its readiness.
    LostReadiness,
    /// Stop: the feed is over, by its end or by an error. This is no sign
    /// that the pod has lost its readiness.
    FeedOver,
}

/// The verdict on one event of the feed, given whether the abort has been
/// requested.
///
/// For a change of the pod the abort is looked at first; only then the pod,
/// which has lost its readiness unless its status reports it ready. The end
/// of the feed and its failure both stop the watcher without a loss of
/// readiness.
pub open spec fn verdict_of(aborted: bool, event: WatchEventView) -> WatchVerdict {
    match event {
        WatchEventView::Applied(pod) => if aborted {
            WatchVerdict::Aborted
        } else if is_ready(pod) {
            WatchVerdict::Continue
        } else {
            WatchVerdict::LostReadiness
        },
        WatchEventView::Ended => WatchVerdict::FeedOver,
        WatchEventView::Failed => WatchVerdict::FeedOver,
    }
}

/// Decides what the watcher does after one event of the feed, given whether
/// the abort has been requested.
pub fn watch_step(aborted: bool, event: &WatchEvent) -> (verdict: WatchVerdict)
    ensures
        verdict == verdict_of(aborted, event@),
{
    match event {
        WatchEvent::Applied(pod) => if aborted {
            WatchVerdict::Aborted
        } else if pod_is_ready(pod) {
            WatchVerdict::Continue
        } else {
            WatchVerdict::LostReadiness
        },
        WatchEvent::Ended => WatchVerdict::FeedOver,
        WatchEvent::Failed => WatchVerdict::FeedOver,
    }
}

/// Decides what the watcher does after one event of the feed, as the abort
/// signal stands when the event is looked at.
///
/// The watcher runs for as long as this answers `Continue`.
pub fn wait_for_unready(abort_handle: &AbortHandle, event: &WatchEvent) -> (verdict: WatchVerdict)
    ensures
        exists|aborted: bool| verdict == verdict_of(aborted, event@),
        event@ is Ended || event@ is Failed ==> verdict == WatchVerdict::FeedOver,
        verdict == WatchVerdict::Continue ==> event@ is Applied && is_ready(event@->Applied_0),
        verdict == WatchVerdict::LostReadiness ==> event@ is Applied && !is_ready(
            event@->Applied_0,
        ),
{
    let aborted = match event {
        WatchEvent::Applied(_) => handle_is_aborted(abort_handle),
        _ => false,
    };
    watch_step(aborted, event)
}

/// A watcher never reports a loss of readiness for a pod that is ready, nor
/// for the end or the failure of the feed; and it never goes on watching a
/// pod that is not ready.
pub proof fn lemma_verdict_sound(aborted: bool, event: WatchEventView)
    ensures
        verdict_of(aborted, event) == WatchVerdict::LostReadiness <==> (!aborted && event is Applied
            && !is_ready(event->Applied_0)),
        verdict_of(aborted, event) == WatchVerdict::Continue <==> (!aborted && event is Applied
            && is_ready(event->Applied_0)),
        verdict_of(aborted, event) == WatchVerdict::Aborted <==> (aborted && event is Applied),
        verdict_of(aborted, event) == WatchVerdict::FeedOver <==> !(event is Applied),
{
}

} // verus!
