use whip_signaller::endpoint::delete_target;
use whip_signaller::errors::SignallerError;

#[test]
fn delete_replaces_endpoint_path_with_location() {
    let r = delete_target("http://example.com:8080/whip", Some("/sessions/42".to_string()));
    assert_eq!(r.unwrap(), "http://example.com:8080/sessions/42");
}

#[test]
fn relative_location_gets_a_leading_slash() {
    let r = delete_target("http://example.com:8080/whip", Some("sessions/42".to_string()));
    assert_eq!(r.unwrap(), "http://example.com:8080/sessions/42");
}

#[test]
fn missing_location_yields_the_bare_endpoint_root() {
    let r = delete_target("http://example.com:8080/whip", None);
    assert_eq!(r.unwrap(), "http://example.com:8080/");
}

#[test]
fn invalid_endpoint_is_a_transport_failure() {
    let r = delete_target("not a url", Some("/sessions/42".to_string()));
    assert_eq!(r.unwrap_err(), SignallerError::TransportFailure);
}
