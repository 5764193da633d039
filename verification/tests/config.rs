use mcp_worker::config::broker_url;

#[test]
fn url_names_the_given_host() {
    assert_eq!(broker_url(Some("redis.internal")), "redis://redis.internal/");
    assert_eq!(broker_url(Some("10.0.0.7")), "redis://10.0.0.7/");
}

#[test]
fn url_falls_back_to_the_loopback_address() {
    assert_eq!(broker_url(None), "redis://127.0.0.1/");
}

#[test]
fn url_takes_an_empty_host_as_given() {
    assert_eq!(broker_url(Some("")), "redis:///");
}
