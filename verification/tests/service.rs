use cftun::service::normalize_service;

#[test]
fn readme_local_url_formats() {
    assert_eq!(normalize_service("3000"), "http://localhost:3000");
    assert_eq!(normalize_service("443"), "https://localhost:443");
    assert_eq!(normalize_service("https://localhost:3000"), "https://localhost:3000");
}

#[test]
fn ports_choose_the_scheme() {
    assert_eq!(normalize_service("8443"), "https://localhost:8443");
    assert_eq!(normalize_service("8080"), "http://localhost:8080");
    assert_eq!(normalize_service("0"), "http://localhost:0");
    assert_eq!(normalize_service("65535"), "http://localhost:65535");
}

#[test]
fn port_is_written_without_sign_or_zeros() {
    assert_eq!(normalize_service("+443"), "https://localhost:443");
    assert_eq!(normalize_service("00080"), "http://localhost:80");
}

#[test]
fn other_text_follows_localhost() {
    assert_eq!(normalize_service(""), "http://localhost:");
    assert_eq!(normalize_service("65536"), "http://localhost:65536");
    assert_eq!(normalize_service("3000/hook"), "http://localhost:3000/hook");
    assert_eq!(normalize_service("-1"), "http://localhost:-1");
    assert_eq!(normalize_service("tcp://x"), "http://localhost:tcp://x");
    assert_eq!(normalize_service("HTTP://x"), "http://localhost:HTTP://x");
    assert_eq!(normalize_service(" 3000"), "http://localhost: 3000");
}

#[test]
fn urls_stand_for_themselves() {
    assert_eq!(normalize_service("http://"), "http://");
    assert_eq!(normalize_service("http://10.0.0.1:9/x"), "http://10.0.0.1:9/x");
}

#[test]
fn service_has_scheme() {
    for local in ["", "443", "8443", "3000", "x", "http://a", "https://b", "é"] {
        let url = normalize_service(local);
        assert!(url.starts_with("http://") || url.starts_with("https://"));
    }
}

#[test]
fn service_is_idempotent() {
    for local in ["", "443", "3000", "x", "http://a", "https://b"] {
        let once = normalize_service(local);
        assert_eq!(normalize_service(&once), once);
    }
}

#[test]
fn every_port_is_a_port_of_this_machine() {
    for port in 0..=u16::MAX {
        let scheme = if port == 443 || port == 8443 { "https" } else { "http" };
        assert_eq!(
            normalize_service(&port.to_string()),
            format!("{scheme}://localhost:{port}")
        );
    }
}
