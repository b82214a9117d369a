use podforward::cancelable_stream::{
    CancelableReadWrite, Directive, FailureKind, Outcome, ReadReport,
};
use podforward::cli::{ControlArgs, Forward};
use podforward::errors::MyError;
use podforward::pod::{
    forward_connection, Container, ContainerPort, PodCandidate, PodCondition, PodSpec, PodStatus,
    PortSpec,
};
use podforward::service::{
    create_forward, BindAddress, Selector, Service, ServicePort, ServiceSpec,
};
use podforward::session::{
    ConnectionAction, ConnectionEvent, ConnectionState, TerminationReason,
};
use podforward::watch::{wait_for_unready, WatchEvent, WatchVerdict};

fn myapp_service() -> Service {
    Service {
        spec: Some(ServiceSpec {
            selector: Selector::new(vec![("app".to_owned(), "myapp".to_owned())]),
            ports: Some(vec![ServicePort {
                name: Some("http".to_owned()),
                port: 80,
                target_port: Some(PortSpec::Number(8080)),
            }]),
        }),
    }
}

fn myapp_pod(ready: bool) -> PodCandidate {
    PodCandidate {
        name: Some("myapp-0".to_owned()),
        status: Some(PodStatus {
            conditions: Some(vec![PodCondition {
                type_: "Ready".to_owned(),
                status: if ready { "True" } else { "False" }.to_owned(),
            }]),
        }),
        spec: Some(PodSpec {
            containers: vec![Container {
                ports: Some(vec![ContainerPort {
                    name: Some("web".to_owned()),
                    container_port: 80,
                }]),
            }],
        }),
    }
}

#[test]
fn forward_to_one_ready_pod_and_close_when_it_turns_unready() {
    let fwd = Forward::parse("8080:myapp:80", None).unwrap();
    let setup = create_forward(&fwd, &myapp_service()).unwrap();
    assert_eq!(setup.binds.len(), 2);
    assert_eq!(setup.binds[0].address, BindAddress::LoopbackV4);
    assert_eq!(setup.binds[1].address, BindAddress::LoopbackV6);
    assert_eq!(setup.binds[0].port, 8080);
    assert_eq!(setup.binds[1].port, 8080);
    assert_eq!(setup.pod_port, PortSpec::Number(80));
    assert_eq!(setup.selector.label_selector, Some("app=myapp".to_owned()));

    let args = ControlArgs {
        ignore_readiness: false,
        close_on_unready: true,
        randomise: false,
    };
    let items = vec![myapp_pod(true)];
    let started = forward_connection(&items, &setup.pod_port, &args);
    let target = started.target.unwrap();
    assert_eq!(target.pod.name, Some("myapp-0".to_owned()));
    assert_eq!(target.port, 80);

    let mut session = started.session;
    assert_eq!(
        session.step(ConnectionEvent::TunnelOpened { ok: true }),
        ConnectionAction::StartRelay { guarded: true }
    );
    let registration_handle = session.registration().unwrap().handle();
    let mut client = CancelableReadWrite::new(session.registration().unwrap());
    let mut tunnel = CancelableReadWrite::new(session.registration().unwrap());
    assert_eq!(
        session.step(ConnectionEvent::RelayStarted),
        ConnectionAction::Await
    );
    assert_eq!(client.poll_read(), Directive::Perform);
    assert_eq!(tunnel.poll_write(), Directive::Perform);
    assert_eq!(client.read_completed(Outcome::Done), ReadReport::Data);

    assert_eq!(
        wait_for_unready(&registration_handle, &WatchEvent::Applied(myapp_pod(true))),
        WatchVerdict::Continue
    );
    assert_eq!(
        wait_for_unready(&registration_handle, &WatchEvent::Applied(myapp_pod(false))),
        WatchVerdict::LostReadiness
    );
    assert_eq!(
        session.step(ConnectionEvent::WatcherFinished),
        ConnectionAction::AnnounceUnready
    );

    assert_eq!(client.poll_read(), Directive::ShutDown);
    assert_eq!(tunnel.poll_read(), Directive::ShutDown);
    assert_eq!(tunnel.poll_write(), Directive::ShutDown);
    assert_eq!(
        tunnel.read_completed(Outcome::Failed {
            kind: FailureKind::ConnectionReset
        }),
        ReadReport::EndOfStream
    );
    assert_eq!(tunnel.poll_read(), Directive::Inert);

    assert_eq!(
        session.step(ConnectionEvent::CopyFinished {
            bytes: Some((120, 4096))
        }),
        ConnectionAction::JoinTunnel
    );
    assert_eq!(
        session.step(ConnectionEvent::Joined { ok: true }),
        ConnectionAction::Report {
            up: 120,
            down: 4096
        }
    );
    assert_eq!(session.state(), ConnectionState::Closed);
    assert_eq!(session.failure(), None);
    assert_eq!(
        session.reason(),
        Some(TerminationReason::ReadinessTriggered)
    );
}

#[test]
fn named_service_port_needs_a_local_port() {
    assert_eq!(
        Forward::parse("svc:http", None),
        Err(MyError::UnableToInferLocalPort("svc:http".to_owned()))
    );

    let fwd = Forward::parse("8080:svc:http", None).unwrap();
    let setup = create_forward(&fwd, &myapp_service()).unwrap();
    assert_eq!(fwd.local_port, 8080);
    assert_eq!(setup.binds[0].port, 8080);
    assert_eq!(setup.pod_port, PortSpec::Number(8080));
}

#[test]
fn undeclared_port_fails_before_anything_is_bound() {
    assert!(Forward::parse("svc:httpx", None).is_err());

    let fwd = Forward::parse("8080:svc:httpx", None).unwrap();
    match create_forward(&fwd, &myapp_service()) {
        Ok(setup) => panic!("nothing should be set up, got {:?}", setup),
        Err(e) => assert_eq!(
            e,
            MyError::MissingNamedPort("httpx".to_owned(), "svc".to_owned())
        ),
    }
}
