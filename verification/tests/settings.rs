use whip_signaller::settings::Settings;

#[test]
fn default_address_is_the_local_server() {
    let s = Settings::default();
    assert_eq!(s.address(), &Some("http://127.0.0.1:8080/whip".to_string()));
}

#[test]
fn address_can_be_replaced_but_not_cleared() {
    let mut s = Settings::default();
    assert!(s.set_address(Some("http://192.0.2.7:9090/whip".to_string())));
    assert_eq!(s.address(), &Some("http://192.0.2.7:9090/whip".to_string()));
    assert!(!s.set_address(None));
    assert_eq!(s.address(), &Some("http://192.0.2.7:9090/whip".to_string()));
}
