use sidecar_launch::urls::format_http_url;
use sidecar_launch::urls::u16_to_string;

#[test]
fn decimal_rendering() {
    assert_eq!(u16_to_string(0).as_str(), "0");
    assert_eq!(u16_to_string(7).as_str(), "7");
    assert_eq!(u16_to_string(80).as_str(), "80");
    assert_eq!(u16_to_string(8080).as_str(), "8080");
    assert_eq!(u16_to_string(65535).as_str(), "65535");
}

#[test]
fn url_with_ordinary_port_carries_port() {
    assert_eq!(format_http_url("127.0.0.1", 8080).as_str(), "http://127.0.0.1:8080");
    assert_eq!(format_http_url("192.168.1.5", 3000).as_str(), "http://192.168.1.5:3000");
    assert_eq!(format_http_url("0.0.0.0", 81).as_str(), "http://0.0.0.0:81");
    assert_eq!(format_http_url("localhost", 1).as_str(), "http://localhost:1");
}

#[test]
fn url_with_port_80_omits_port() {
    assert_eq!(format_http_url("127.0.0.1", 80).as_str(), "http://127.0.0.1");
    assert_eq!(format_http_url("0.0.0.0", 80).as_str(), "http://0.0.0.0");
}
