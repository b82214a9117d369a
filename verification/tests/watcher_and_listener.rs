use futures::stream::AbortHandle;
use kube::runtime::watcher::Config;
use podforward::listener::{serve, ListenerAction, ListenerEvent, ListenerState};
use podforward::pod::{PodCandidate, PodCondition, PodStatus};
use podforward::watch::{
    name_query, wait_for_unready, watch_config, watch_step, WatchEvent, WatchVerdict,
};

fn applied(ready: Option<bool>) -> WatchEvent {
    WatchEvent::Applied(PodCandidate {
        name: Some("pod-1".to_owned()),
        status: ready.map(|ready| PodStatus {
            conditions: Some(vec![PodCondition {
                type_: "Ready".to_owned(),
                status: if ready { "True" } else { "False" }.to_owned(),
            }]),
        }),
        spec: None,
    })
}

#[test]
fn watch_is_scoped_to_the_pod_by_name() {
    assert_eq!(name_query("pod-1"), "metadata.name=pod-1");
    assert_eq!(name_query(""), "metadata.name=");

    let config = watch_config("pod-1");
    assert_eq!(config.field_selector, Some("metadata.name=pod-1".to_owned()));
    assert_eq!(config, Config::default().fields("metadata.name=pod-1"));
    assert_ne!(config, Config::default());
}

#[test]
fn watcher_goes_on_while_the_pod_is_ready() {
    assert_eq!(watch_step(false, &applied(Some(true))), WatchVerdict::Continue);
}

#[test]
fn watcher_reports_lost_readiness() {
    assert_eq!(
        watch_step(false, &applied(Some(false))),
        WatchVerdict::LostReadiness
    );
    assert_eq!(watch_step(false, &applied(None)), WatchVerdict::LostReadiness);
}

#[test]
fn watcher_looks_at_the_abort_first() {
    assert_eq!(watch_step(true, &applied(Some(true))), WatchVerdict::Aborted);
    assert_eq!(watch_step(true, &applied(Some(false))), WatchVerdict::Aborted);
}

#[test]
fn end_of_feed_is_no_loss_of_readiness() {
    for aborted in [false, true] {
        assert_eq!(watch_step(aborted, &WatchEvent::Ended), WatchVerdict::FeedOver);
        assert_eq!(watch_step(aborted, &WatchEvent::Failed), WatchVerdict::FeedOver);
    }
}

#[test]
fn watcher_reads_the_abort_handle() {
    let (handle, registration) = AbortHandle::new_pair();
    let seen = registration.handle();

    assert_eq!(
        wait_for_unready(&seen, &applied(Some(true))),
        WatchVerdict::Continue
    );
    assert_eq!(
        wait_for_unready(&seen, &applied(Some(false))),
        WatchVerdict::LostReadiness
    );

    handle.abort();

    assert_eq!(
        wait_for_unready(&seen, &applied(Some(true))),
        WatchVerdict::Aborted
    );
    assert_eq!(
        wait_for_unready(&seen, &applied(Some(false))),
        WatchVerdict::Aborted
    );
    assert_eq!(
        wait_for_unready(&seen, &WatchEvent::Ended),
        WatchVerdict::FeedOver
    );
}

#[test]
fn listener_forwards_each_accepted_connection() {
    let (state, action) = serve(ListenerState::Accepting, ListenerEvent::Accepted);

    assert_eq!(state, ListenerState::Accepting);
    assert_eq!(action, ListenerAction::Forward);
}

#[test]
fn listener_outlives_its_forwarders() {
    assert_eq!(
        serve(
            ListenerState::Accepting,
            ListenerEvent::ForwarderEnded { failed: true }
        ),
        (ListenerState::Accepting, ListenerAction::Ignore)
    );
    assert_eq!(
        serve(
            ListenerState::Accepting,
            ListenerEvent::ForwarderEnded { failed: false }
        ),
        (ListenerState::Accepting, ListenerAction::Ignore)
    );
}

#[test]
fn listener_stops_on_shutdown_without_error() {
    assert_eq!(
        serve(ListenerState::Accepting, ListenerEvent::Shutdown),
        (
            ListenerState::Stopped,
            ListenerAction::Stop { failed: false }
        )
    );
    assert_eq!(
        serve(ListenerState::Accepting, ListenerEvent::Exhausted),
        (
            ListenerState::Stopped,
            ListenerAction::Stop { failed: false }
        )
    );
}

#[test]
fn listener_stops_on_its_own_errors() {
    assert_eq!(
        serve(ListenerState::Accepting, ListenerEvent::AcceptFailed),
        (ListenerState::Stopped, ListenerAction::Stop { failed: true })
    );
}

#[test]
fn stopped_listener_does_nothing() {
    for event in [
        ListenerEvent::Accepted,
        ListenerEvent::AcceptFailed,
        ListenerEvent::Shutdown,
        ListenerEvent::Exhausted,
        ListenerEvent::ForwarderEnded { failed: true },
    ] {
        assert_eq!(
            serve(ListenerState::Stopped, event),
            (ListenerState::Stopped, ListenerAction::Ignore)
        );
    }
}

#[test]
fn listener_accepts_once_its_target_is_set_up() {
    assert_eq!(
        serve(ListenerState::Starting, ListenerEvent::SetUp { ok: true }),
        (ListenerState::Accepting, ListenerAction::Accept)
    );
    assert_eq!(
        serve(ListenerState::Starting, ListenerEvent::SetUp { ok: false }),
        (ListenerState::Stopped, ListenerAction::Stop { failed: true })
    );
    assert_eq!(
        serve(ListenerState::Starting, ListenerEvent::Shutdown),
        (
            ListenerState::Stopped,
            ListenerAction::Stop { failed: false }
        )
    );
}

#[test]
fn listener_accepts_nothing_before_it_is_set_up() {
    for event in [
        ListenerEvent::Accepted,
        ListenerEvent::AcceptFailed,
        ListenerEvent::Exhausted,
        ListenerEvent::ForwarderEnded { failed: true },
    ] {
        assert_eq!(
            serve(ListenerState::Starting, event),
            (ListenerState::Starting, ListenerAction::Ignore)
        );
    }
    assert_eq!(
        serve(ListenerState::Accepting, ListenerEvent::SetUp { ok: false }),
        (ListenerState::Accepting, ListenerAction::Ignore)
    );
}

#[test]
fn listener_goes_on_after_each_connection() {
    let mut state = ListenerState::Accepting;
    for event in [
        ListenerEvent::Accepted,
        ListenerEvent::ForwarderEnded { failed: true },
        ListenerEvent::Accepted,
        ListenerEvent::Accepted,
        ListenerEvent::ForwarderEnded { failed: false },
        ListenerEvent::ForwarderEnded { failed: true },
        ListenerEvent::Accepted,
    ] {
        let (next, action) = serve(state, event);
        assert_eq!(next, ListenerState::Accepting);
        assert_eq!(
            action == ListenerAction::Forward,
            event == ListenerEvent::Accepted
        );
        state = next;
    }
}
