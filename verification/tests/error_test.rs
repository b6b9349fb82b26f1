use cooplan_auth::error::ErrorKind as AuthKind;
use cooplan_definition_consumer::error::{Error, ErrorKind};

#[test]
fn new_error_keeps_kind_and_message() {
    let error = Error::new(ErrorKind::ApiFailure, "boom".to_string());
    assert_eq!(error.kind(), ErrorKind::ApiFailure);
    assert_eq!(error.message, "boom");
    assert_eq!(error.to_string(), "boom");
}

#[test]
fn errors_compare_by_kind_and_message() {
    let a = Error::new(ErrorKind::AmqpFailure, "x".to_string());
    let b = Error::new(ErrorKind::AmqpFailure, "x".to_string());
    let c = Error::new(ErrorKind::ApiFailure, "x".to_string());
    let d = Error::new(ErrorKind::AmqpFailure, "y".to_string());
    assert!(a == b);
    assert!(a != c);
    assert!(a != d);
}

#[test]
fn every_auth_error_kind_is_internal() {
    for kind in [
        AuthKind::InternalFailure,
        AuthKind::IdentityProviderFailure,
        AuthKind::MalformedResponse,
    ] {
        assert_eq!(ErrorKind::from(kind), ErrorKind::InternalFailure);
    }
}

#[test]
fn auth_error_becomes_internal_failure_with_its_message() {
    let auth = cooplan_auth::error::Error::new(
        cooplan_auth::error::ErrorKind::IdentityProviderFailure,
        "provider down",
    );
    let error = Error::from(auth);
    assert_eq!(error.kind(), ErrorKind::InternalFailure);
    assert_eq!(error.message, "provider down");
    assert_eq!(error.to_string(), "provider down");
}

#[test]
fn setup_failures_carry_their_prefix() {
    let e = cooplan_definition_consumer::consumer_config_failure("no file");
    assert_eq!(e.kind(), ErrorKind::AutoConfigFailure);
    assert_eq!(e.message, "failed to generate consumer config: no file");
    let e = cooplan_definition_consumer::api_consumer_config_failure("bad json");
    assert_eq!(e.kind(), ErrorKind::AutoConfigFailure);
    assert_eq!(e.message, "failed to generate api consumer config: bad json");
}
