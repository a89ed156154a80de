use yact::client::{decimal_digits, delay_of, version_of, ApiRequest, Method, MihomoClient};
use yact::session::FetchErrorKind;

fn client() -> MihomoClient {
    MihomoClient::new("http://127.0.0.1:9097", "123456")
}

fn body(r: &ApiRequest) -> Vec<(String, String)> {
    r.body.iter().map(|f| (f.name.clone(), f.value.clone())).collect()
}

fn pair(name: &str, value: &str) -> (String, String) {
    (name.to_string(), value.to_string())
}

#[test]
fn new_drops_slashes_at_the_end_of_the_address() {
    assert_eq!(MihomoClient::new("http://h:1", "s").base_url(), "http://h:1");
    assert_eq!(MihomoClient::new("http://h:1/", "s").base_url(), "http://h:1");
    assert_eq!(MihomoClient::new("http://h:1///", "s").base_url(), "http://h:1");
    assert_eq!(MihomoClient::new("http://h:1/api/", "s").base_url(), "http://h:1/api");
    assert_eq!(MihomoClient::new("", "tok en").secret(), "tok en");
}

#[test]
fn every_request_carries_the_credential() {
    let c = client();
    for r in [c.get_configs(), c.get_proxies(), c.get_rules(), c.get_version(), c.get_logs(None)] {
        assert_eq!(r.authorization, "Bearer 123456");
        assert_eq!(r.method, Method::Get);
        assert!(r.body.is_empty());
    }
}

#[test]
fn plain_requests_name_their_paths() {
    let c = client();
    assert_eq!(c.get_configs().url, "http://127.0.0.1:9097/configs");
    assert_eq!(c.get_proxies().url, "http://127.0.0.1:9097/proxies");
    assert_eq!(c.get_rules().url, "http://127.0.0.1:9097/rules");
    assert_eq!(c.get_version().url, "http://127.0.0.1:9097/version");
}

#[test]
fn get_proxy_encodes_the_name() {
    let c = client();
    assert_eq!(c.get_proxy("DIRECT").url, "http://127.0.0.1:9097/proxies/DIRECT");
    assert_eq!(c.get_proxy("a b/c").url, "http://127.0.0.1:9097/proxies/a%20b%2Fc");
    assert_eq!(
        c.get_proxy("\u{9999}\u{6e2f} 01").url,
        "http://127.0.0.1:9097/proxies/%E9%A6%99%E6%B8%AF%2001"
    );
    assert_eq!(c.get_proxy("-_.~").url, "http://127.0.0.1:9097/proxies/-_.~");
    assert_eq!(c.get_proxy("").url, "http://127.0.0.1:9097/proxies/");
}

#[test]
fn select_proxy_puts_the_target_in_the_body() {
    let r = client().select_proxy("GLOBAL", "node 1");
    assert_eq!(r.method, Method::Put);
    assert_eq!(r.url, "http://127.0.0.1:9097/proxies/GLOBAL");
    assert_eq!(r.authorization, "Bearer 123456");
    assert_eq!(body(&r), vec![pair("name", "node 1")]);
}

#[test]
fn reload_config_names_the_force_flag() {
    let c = client();
    let forced = c.reload_config(None, None, true);
    assert_eq!(forced.method, Method::Put);
    assert_eq!(forced.url, "http://127.0.0.1:9097/configs?force=true");
    assert!(forced.body.is_empty());
    let gentle = c.reload_config(None, None, false);
    assert_eq!(gentle.url, "http://127.0.0.1:9097/configs?force=false");
}

#[test]
fn reload_config_carries_what_is_given() {
    let c = client();
    assert_eq!(
        body(&c.reload_config(Some("/etc/mihomo.yaml"), None, true)),
        vec![pair("path", "/etc/mihomo.yaml")]
    );
    assert_eq!(
        body(&c.reload_config(None, Some("port: 7890"), true)),
        vec![pair("payload", "port: 7890")]
    );
    assert_eq!(
        body(&c.reload_config(Some("p"), Some("q"), false)),
        vec![pair("path", "p"), pair("payload", "q")]
    );
}

#[test]
fn test_proxy_delay_builds_the_query() {
    let r = client().test_proxy_delay("node 1", "http://www.google.com", 5000);
    assert_eq!(r.method, Method::Get);
    assert_eq!(
        r.url,
        "http://127.0.0.1:9097/proxies/node%201/delay?url=http%3A%2F%2Fwww.google.com&timeout=5000"
    );
    let zero = client().test_proxy_delay("n", "u", 0);
    assert_eq!(zero.url, "http://127.0.0.1:9097/proxies/n/delay?url=u&timeout=0");
    let most = client().test_proxy_delay("n", "u", u64::MAX);
    assert_eq!(
        most.url,
        "http://127.0.0.1:9097/proxies/n/delay?url=u&timeout=18446744073709551615"
    );
}

#[test]
fn get_logs_names_the_level() {
    let c = client();
    assert_eq!(c.get_logs(None).url, "http://127.0.0.1:9097/logs");
    assert_eq!(c.get_logs(Some("info")).url, "http://127.0.0.1:9097/logs?level=info");
    assert_eq!(c.get_logs(Some("a&b")).url, "http://127.0.0.1:9097/logs?level=a%26b");
}

#[test]
fn the_address_joins_with_one_slash() {
    let c = MihomoClient::new("http://h/", "s");
    assert_eq!(c.get_configs().url, "http://h/configs");
    assert_eq!(MihomoClient::new("", "s").get_rules().url, "/rules");
}

#[test]
fn decimal_digits_agree_with_std() {
    for n in [0u64, 1, 9, 10, 11, 99, 100, 5000, 65535, 1234567890, u64::MAX] {
        let digits: String = decimal_digits(n).iter().collect();
        assert_eq!(digits, n.to_string());
    }
}

#[test]
fn version_is_the_body_trimmed() {
    assert_eq!(version_of("  v1.18.0\n"), "v1.18.0");
    assert_eq!(version_of("{\"version\":\"v1\"}"), "{\"version\":\"v1\"}");
    assert_eq!(version_of("\t \r\n"), "");
}

#[test]
fn delay_is_taken_where_it_is_found() {
    assert_eq!(delay_of(Some(120)).unwrap(), 120);
    assert_eq!(delay_of(Some(0)).unwrap(), 0);
    let missing = delay_of(None).unwrap_err();
    assert_eq!(missing.kind, FetchErrorKind::Protocol);
    assert_eq!(missing.cause.as_deref(), Some("delay field not found"));
    assert_eq!(missing.message(), "delay field not found");
}

#[test]
fn a_clone_sends_the_same_requests() {
    let c = MihomoClient::new("http://h:1/", "tok");
    let d = c.clone();
    assert_eq!(d.base_url(), "http://h:1");
    assert_eq!(d.secret(), "tok");
    assert_eq!(d.get_rules().url, c.get_rules().url);
}
