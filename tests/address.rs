use manx::{join_host_port, resolve_address, target_address, AddressError};
use url::Url;

#[test]
fn host_and_port_are_joined() {
    assert_eq!(join_host_port("localhost", 8080), "localhost:8080");
}

#[test]
fn port_extremes_are_written_in_decimal() {
    assert_eq!(join_host_port("h", 0), "h:0");
    assert_eq!(join_host_port("h", 9), "h:9");
    assert_eq!(join_host_port("h", 10), "h:10");
    assert_eq!(join_host_port("h", 65535), "h:65535");
}

#[test]
fn missing_host_is_an_error() {
    assert_eq!(resolve_address(None, Some(80)), Err(AddressError::NoHost));
    assert_eq!(resolve_address(None, None), Err(AddressError::NoHost));
}

#[test]
fn missing_port_is_an_error() {
    assert_eq!(resolve_address(Some("example.com"), None), Err(AddressError::NoPort));
}

#[test]
fn present_host_and_port_resolve() {
    assert_eq!(resolve_address(Some("example.com"), Some(443)), Ok("example.com:443".to_string()));
}

#[test]
fn explicit_port_is_used() {
    let url = Url::parse("ws://127.0.0.1:9001/chat").unwrap();
    assert_eq!(target_address(&url), Ok("127.0.0.1:9001".to_string()));
}

#[test]
fn default_port_of_scheme_is_used() {
    let url = Url::parse("ws://example.com/socket").unwrap();
    assert_eq!(target_address(&url), Ok("example.com:80".to_string()));
}

#[test]
fn unknown_scheme_without_port_fails() {
    let url = Url::parse("foo://example.com/x").unwrap();
    assert_eq!(target_address(&url), Err(AddressError::NoPort));
}

#[test]
fn url_without_host_fails() {
    let url = Url::parse("data:text/plain,hi").unwrap();
    assert_eq!(target_address(&url), Err(AddressError::NoHost));
}

#[test]
fn errors_describe_themselves() {
    assert_eq!(AddressError::NoHost.describe(), "can't parse host");
    assert_eq!(AddressError::NoPort.describe(), "can't guess port");
}
