use prizm_client::address::extract_host_port;

fn split(s: &str) -> (String, String) {
    extract_host_port(s)
}

#[test]
fn http_with_port() {
    assert_eq!(split("http://example.com:8080"), ("example.com".to_string(), "8080".to_string()));
}

#[test]
fn bare_host_gets_default_port() {
    assert_eq!(split("example.com"), ("example.com".to_string(), "4127".to_string()));
}

#[test]
fn https_ip_with_port() {
    assert_eq!(split("https://10.0.0.5:9000"), ("10.0.0.5".to_string(), "9000".to_string()));
}

#[test]
fn ws_host_without_port() {
    assert_eq!(split("ws://host"), ("host".to_string(), "4127".to_string()));
}

#[test]
fn wss_scheme_is_stripped() {
    assert_eq!(split("wss://a.b:1"), ("a.b".to_string(), "1".to_string()));
}

#[test]
fn only_one_scheme_is_stripped() {
    assert_eq!(split("http://ws://h:2"), ("ws://h".to_string(), "2".to_string()));
}

#[test]
fn split_is_at_last_colon() {
    assert_eq!(split("a:b:c"), ("a:b".to_string(), "c".to_string()));
}

#[test]
fn empty_address() {
    assert_eq!(split(""), ("".to_string(), "4127".to_string()));
}

#[test]
fn trailing_colon_gives_empty_port() {
    assert_eq!(split("host:"), ("host".to_string(), "".to_string()));
}

#[test]
fn unknown_scheme_is_kept() {
    assert_eq!(split("ftp://h:3"), ("ftp://h".to_string(), "3".to_string()));
}
