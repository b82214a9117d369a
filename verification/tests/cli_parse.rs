use podforward::cli::{address_piece, AddressText, Forward, LocalAddress};
use podforward::errors::MyError;

#[test]
fn service_name_and_numeric_port() {
    let fwd = Forward::parse("test:1234", None).unwrap();

    assert_eq!(fwd.namespace, None);
    assert_eq!(fwd.service_name, "test");
    assert_eq!(fwd.service_port, "1234");
    assert_eq!(fwd.local_address, None);
    assert_eq!(fwd.local_port, 1234);
}

#[test]
fn service_name_and_str_port() {
    let fwd = Forward::parse("test:http", None);

    assert!(fwd.is_err());
}

#[test]
fn local_port_service_name_and_numeric_port() {
    let fwd = Forward::parse("8080:test:1234", None).unwrap();

    assert_eq!(fwd.service_name, "test");
    assert_eq!(fwd.service_port, "1234");
    assert_eq!(fwd.local_address, None);
    assert_eq!(fwd.local_port, 8080);
}

#[test]
fn local_port_service_name_and_str_port() {
    let fwd = Forward::parse("8080:test:http", None).unwrap();

    assert_eq!(fwd.service_name, "test");
    assert_eq!(fwd.service_port, "http");
    assert_eq!(fwd.local_address, None);
    assert_eq!(fwd.local_port, 8080);
}

#[test]
fn ipv4_local_port_service_name_and_numeric_port() {
    assert_eq!(
        address_piece("241.2.124.2:8080:test:1234"),
        Some(AddressText::Plain("241.2.124.2".to_owned()))
    );
    let fwd = Forward::parse(
        "241.2.124.2:8080:test:1234",
        Some(LocalAddress::V4([241, 2, 124, 2])),
    )
    .unwrap();

    assert_eq!(fwd.service_name, "test");
    assert_eq!(fwd.service_port, "1234");
    assert_eq!(fwd.local_address, Some(LocalAddress::V4([241, 2, 124, 2])));
    assert_eq!(fwd.local_port, 8080);
}

#[test]
fn ipv6_local_port_service_name_and_numeric_port() {
    assert_eq!(
        address_piece("[::1]:8080:test:1234"),
        Some(AddressText::Bracketed("::1".to_owned()))
    );
    let fwd = Forward::parse(
        "[::1]:8080:test:1234",
        Some(LocalAddress::V6([0, 0, 0, 0, 0, 0, 0, 1])),
    )
    .unwrap();

    assert_eq!(fwd.service_name, "test");
    assert_eq!(fwd.service_port, "1234");
    assert_eq!(
        fwd.local_address,
        Some(LocalAddress::V6([0, 0, 0, 0, 0, 0, 0, 1]))
    );
    assert_eq!(fwd.local_port, 8080);
}

#[test]
fn namespace_service_name_and_numeric_port() {
    let fwd = Forward::parse("namespace/test:1234", None).unwrap();

    assert_eq!(fwd.namespace, Some("namespace".to_owned()));
    assert_eq!(fwd.service_name, "test");
    assert_eq!(fwd.service_port, "1234");
    assert_eq!(fwd.local_address, None);
    assert_eq!(fwd.local_port, 1234);
}

#[test]
fn argument_without_colon_is_rejected() {
    assert_eq!(
        Forward::parse("test", None),
        Err(MyError::ArgumentParseError("test".to_owned()))
    );
}

#[test]
fn empty_argument_is_rejected() {
    assert_eq!(
        Forward::parse("", None),
        Err(MyError::ArgumentParseError("".to_owned()))
    );
}

#[test]
fn symbolic_port_without_local_port_cannot_be_inferred() {
    assert_eq!(
        Forward::parse("svc:http", None),
        Err(MyError::UnableToInferLocalPort("svc:http".to_owned()))
    );
    assert_eq!(
        Forward::parse("svc:httpx", None),
        Err(MyError::UnableToInferLocalPort("svc:httpx".to_owned()))
    );
    assert_eq!(
        Forward::parse("svc:70000", None),
        Err(MyError::UnableToInferLocalPort("svc:70000".to_owned()))
    );
}

#[test]
fn local_port_that_is_no_port_is_rejected() {
    assert_eq!(
        Forward::parse("http:test:80", None),
        Err(MyError::ArgumentParseError("http:test:80".to_owned()))
    );
    assert_eq!(
        Forward::parse("65536:test:80", None),
        Err(MyError::ArgumentParseError("65536:test:80".to_owned()))
    );
    assert_eq!(
        Forward::parse("127.0.0.1::test:80", Some(LocalAddress::V4([127, 0, 0, 1]))),
        Err(MyError::ArgumentParseError("127.0.0.1::test:80".to_owned()))
    );
}

#[test]
fn namespace_is_cut_at_the_first_slash() {
    let fwd = Forward::parse("9000:ns/a/b:http", None).unwrap();

    assert_eq!(fwd.namespace, Some("ns".to_owned()));
    assert_eq!(fwd.service_name, "a/b");
    assert_eq!(fwd.service_port, "http");
    assert_eq!(fwd.local_port, 9000);
}

#[test]
fn address_piece_keeps_the_colons_left_of_the_third() {
    assert_eq!(
        address_piece("[fe80::1:2]:8080:ns/test:1234"),
        Some(AddressText::Bracketed("fe80::1:2".to_owned()))
    );
    assert_eq!(
        address_piece("::1:8080:test:1234"),
        Some(AddressText::Plain("::1".to_owned()))
    );
    assert_eq!(address_piece("8080:test:1234"), None);
    assert_eq!(address_piece("test:1234"), None);
    assert_eq!(address_piece("test"), None);

    let fwd = Forward::parse(
        "[fe80::1:2]:8080:ns/test:1234",
        Some(LocalAddress::V6([0xfe80, 0, 0, 0, 0, 0, 1, 2])),
    )
    .unwrap();
    assert_eq!(
        fwd.local_address,
        Some(LocalAddress::V6([0xfe80, 0, 0, 0, 0, 0, 1, 2]))
    );
    assert_eq!(fwd.local_port, 8080);
    assert_eq!(fwd.namespace, Some("ns".to_owned()));
    assert_eq!(fwd.service_name, "test");
}

#[test]
fn brackets_are_taken_off_only_as_a_pair() {
    assert_eq!(
        address_piece("[:80:test:1234"),
        Some(AddressText::Plain("[".to_owned()))
    );
    assert_eq!(
        address_piece("[]:80:test:1234"),
        Some(AddressText::Bracketed("".to_owned()))
    );
    assert_eq!(
        address_piece(":80:test:1234"),
        Some(AddressText::Plain("".to_owned()))
    );
}

#[test]
fn address_piece_that_is_no_address_is_rejected() {
    for arg in [
        "x:1:s:1",
        "::1:8080:test:1234",
        "[:80:test:1234",
        "[]:80:test:1234",
        ":80:test:1234",
        "[127.0.0.1]:80:test:1234",
        "256.0.0.1:80:test:1234",
        "localhost:80:test:1234",
    ] {
        assert!(address_piece(arg).is_some(), "argument {:?}", arg);
        assert_eq!(
            Forward::parse(arg, None),
            Err(MyError::ArgumentParseError(arg.to_owned())),
            "argument {:?}",
            arg
        );
    }
}

#[test]
fn address_without_address_piece_is_not_used() {
    let fwd = Forward::parse("8080:test:1234", Some(LocalAddress::V4([10, 0, 0, 1]))).unwrap();

    assert_eq!(fwd.local_address, None);
    assert_eq!(fwd, Forward::parse("8080:test:1234", None).unwrap());
}

#[test]
fn parse_agrees_with_splitting_from_the_right() {
    let args = [
        "a:1", "1:a:b", "x:1:a:b", "x:y:1:a:b", ":", "::", ":::", "::::", "1:", ":1", "1::",
        "é:2:ü/ö:3", "ns/svc:80", "/svc:80", "svc/:80", "80:/:80",
    ];
    for arg in args {
        let bits: Vec<&str> = arg.rsplitn(4, ':').collect();
        let address = if bits.len() == 4 {
            Some(LocalAddress::V4([127, 0, 0, 1]))
        } else {
            None
        };
        let parsed = Forward::parse(arg, address);
        let local = if bits.len() >= 3 { bits[2] } else { bits[0] };
        match local.parse::<u16>() {
            Err(_) => assert!(parsed.is_err(), "argument {:?}", arg),
            Ok(port) => {
                let fwd = parsed.unwrap();
                assert_eq!(fwd.local_port, port, "argument {:?}", arg);
                assert_eq!(fwd.service_port, bits[0], "argument {:?}", arg);
                let (namespace, name) = match bits[1].split_once('/') {
                    Some((namespace, name)) => (Some(namespace.to_owned()), name),
                    None => (None, bits[1]),
                };
                assert_eq!(fwd.namespace, namespace, "argument {:?}", arg);
                assert_eq!(fwd.service_name, name, "argument {:?}", arg);
                assert_eq!(fwd.local_address.is_some(), bits.len() == 4, "argument {:?}", arg);
            }
        }
    }
}

#[test]
fn target_is_named_by_namespace_service_and_port() {
    let fwd = Forward::parse("8080:test:http", None).unwrap();
    assert_eq!(
        podforward::cli::target_label(&fwd, "default"),
        "default/test:http"
    );

    let fwd = Forward::parse("prod/test:1234", None).unwrap();
    assert_eq!(
        podforward::cli::target_label(&fwd, "default"),
        "prod/test:1234"
    );
}
