use kube::api::ListParams;
use podforward::cli::{Forward, LocalAddress};
use podforward::errors::MyError;
use podforward::pod::PortSpec;
use podforward::service::{
    bind_targets, create_forward, resolve_service_port, selector_into_list_params,
    selector_labels, text_lt, BindAddress, BindTarget, Selector, Service, ServicePort,
    ServiceSpec,
};
use std::collections::BTreeMap;

fn pair(key: &str, value: &str) -> (String, String) {
    (key.to_owned(), value.to_owned())
}

fn named(name: &str, port: i32, target: Option<PortSpec>) -> ServicePort {
    ServicePort {
        name: Some(name.to_owned()),
        port,
        target_port: target,
    }
}

fn selector(pairs: Vec<(String, String)>) -> Selector {
    Selector::new(pairs).unwrap()
}

fn service(selector: Option<Selector>, ports: Option<Vec<ServicePort>>) -> Service {
    Service {
        spec: Some(ServiceSpec { selector, ports }),
    }
}

#[test]
fn labels_are_joined_by_commas() {
    assert_eq!(selector_labels(&selector(vec![])), "");
    assert_eq!(selector_labels(&selector(vec![pair("app", "web")])), "app=web");
    assert_eq!(
        selector_labels(&selector(vec![pair("app", "web"), pair("tier", "front")])),
        "app=web,tier=front"
    );
    assert_eq!(
        selector_labels(&selector(vec![pair("", ""), pair("a", "")])),
        "=,a="
    );
}

#[test]
fn list_params_carry_the_label_query() {
    let params =
        selector_into_list_params(&selector(vec![pair("app", "web"), pair("tier", "front")]));

    assert_eq!(params.label_selector, Some("app=web,tier=front".to_owned()));
    assert_eq!(params, ListParams::default().labels("app=web,tier=front"));
    assert_ne!(params, ListParams::default());
}

#[test]
fn numeric_port_text_is_taken_as_a_number() {
    let ports = Some(vec![named("80", 8080, None)]);

    assert_eq!(resolve_service_port("80", &ports), Some(PortSpec::Number(80)));
    assert_eq!(resolve_service_port("-1", &None), Some(PortSpec::Number(-1)));
    assert_eq!(
        resolve_service_port("70000", &None),
        Some(PortSpec::Number(70000))
    );
}

#[test]
fn named_port_resolves_to_its_target() {
    let ports = Some(vec![
        ServicePort {
            name: None,
            port: 1,
            target_port: None,
        },
        named("metrics", 9090, None),
        named("http", 80, Some(PortSpec::Number(8080))),
        named("http", 81, Some(PortSpec::Number(8081))),
        named("grpc", 90, Some(PortSpec::Name("grpc-pod".to_owned()))),
    ]);

    assert_eq!(
        resolve_service_port("http", &ports),
        Some(PortSpec::Number(8080))
    );
    assert_eq!(
        resolve_service_port("metrics", &ports),
        Some(PortSpec::Number(9090))
    );
    assert_eq!(
        resolve_service_port("grpc", &ports),
        Some(PortSpec::Name("grpc-pod".to_owned()))
    );
    assert_eq!(resolve_service_port("httpx", &ports), None);
    assert_eq!(resolve_service_port("http", &None), None);
    assert_eq!(resolve_service_port("2147483648", &ports), None);
}

#[test]
fn forward_without_address_binds_both_loopbacks() {
    let fwd = Forward::parse("8080:test:1234", None).unwrap();

    assert_eq!(
        bind_targets(&fwd),
        vec![
            BindTarget {
                address: BindAddress::LoopbackV4,
                port: 8080
            },
            BindTarget {
                address: BindAddress::LoopbackV6,
                port: 8080
            },
        ]
    );
}

#[test]
fn forward_with_address_binds_that_address_alone() {
    let fwd =
        Forward::parse("10.0.0.1:8080:test:1234", Some(LocalAddress::V4([10, 0, 0, 1]))).unwrap();

    assert_eq!(
        bind_targets(&fwd),
        vec![BindTarget {
            address: BindAddress::Given(LocalAddress::V4([10, 0, 0, 1])),
            port: 8080
        }]
    );
}

#[test]
fn setup_of_a_complete_service() {
    let fwd = Forward::parse("8080:myapp:http", None).unwrap();
    let svc = service(
        Some(selector(vec![pair("app", "myapp")])),
        Some(vec![named("http", 80, Some(PortSpec::Number(8080)))]),
    );

    let setup = create_forward(&fwd, &svc).unwrap();

    assert_eq!(setup.pod_port, PortSpec::Number(8080));
    assert_eq!(setup.selector.label_selector, Some("app=myapp".to_owned()));
    assert_eq!(setup.binds.len(), 2);
    assert_eq!(setup.binds[0].port, 8080);
}

#[test]
fn service_without_specification_is_not_found() {
    let fwd = Forward::parse("8080:myapp:http", None).unwrap();

    assert_eq!(
        create_forward(&fwd, &Service { spec: None }).map(|setup| setup.pod_port),
        Err(MyError::ServiceNotFound("myapp".to_owned()))
    );
}

#[test]
fn service_without_selector_is_refused() {
    let fwd = Forward::parse("8080:myapp:httpx", None).unwrap();
    let svc = service(None, None);

    assert_eq!(
        create_forward(&fwd, &svc).map(|setup| setup.pod_port),
        Err(MyError::ServiceMissingSelectors("myapp".to_owned()))
    );
}

#[test]
fn undeclared_port_name_is_missing() {
    let fwd = Forward::parse("8080:svc:httpx", None).unwrap();
    let svc = service(
        Some(selector(vec![pair("app", "svc")])),
        Some(vec![named("http", 80, Some(PortSpec::Number(8080)))]),
    );

    assert_eq!(
        create_forward(&fwd, &svc).map(|setup| setup.binds),
        Err(MyError::MissingNamedPort(
            "httpx".to_owned(),
            "svc".to_owned()
        ))
    );
}

#[test]
fn selector_takes_only_keys_that_ascend() {
    assert!(Selector::new(vec![]).is_some());
    assert!(Selector::new(vec![pair("a", "1")]).is_some());
    assert!(Selector::new(vec![pair("a", "1"), pair("ab", "2"), pair("b", "0")]).is_some());
    assert_eq!(Selector::new(vec![pair("b", "1"), pair("a", "2")]), None);
    assert_eq!(Selector::new(vec![pair("a", "1"), pair("a", "2")]), None);
    assert_eq!(
        Selector::new(vec![pair("a", "1"), pair("c", "2"), pair("b", "3")]),
        None
    );

    let kept = selector(vec![pair("a", "1"), pair("b", "2")]);
    assert_eq!(kept.pairs(), &vec![pair("a", "1"), pair("b", "2")]);
}

#[test]
fn texts_are_ordered_as_strings_are() {
    let texts = [
        "", "a", "A", "ab", "b", "app", "app.kubernetes.io/name", "é", "z", "zz", "日本", "~",
        "\u{10000}", "\u{ffff}", "tier",
    ];
    for a in texts {
        for b in texts {
            assert_eq!(text_lt(a, b), a < b, "{:?} before {:?}", a, b);
        }
    }
}

#[test]
fn selector_holds_what_a_sorted_map_yields() {
    let mut map = BTreeMap::new();
    for key in ["tier", "app", "é", "z", "app.kubernetes.io/name", "A", "\u{10000}", "\u{ffff}"] {
        map.insert(key.to_owned(), "v".to_owned());
    }
    let pairs: Vec<(String, String)> = map.iter().map(|(k, v)| (k.clone(), v.clone())).collect();

    let kept = Selector::new(pairs.clone()).unwrap();

    assert_eq!(kept.pairs(), &pairs);
}
