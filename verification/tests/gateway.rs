use gateway::config::Endpoint;
use gateway::config::EndpointConfig;
use gateway::config::ReloadSource;
use gateway::config::Store;
use gateway::config::valid_name;
use gateway::config::valid_target;
use gateway::errors::ConfigError;
use gateway::errors::RestError;
use gateway::forward::ForwardRequest;
use gateway::forward::RelayResponse;
use gateway::forward::UpstreamOutcome;
use gateway::forward::build_url;
use gateway::forward::effective_timeout;
use gateway::forward::filter_headers;
use gateway::forward::forward;
use gateway::forward::relay_outcome;
use gateway::handlers::echo;
use gateway::handlers::endpoint_config;
use gateway::handlers::handler_404;
use gateway::handlers::health;
use gateway::handlers::help;
use gateway::handlers::metrics;
use gateway::handlers::reload;
use gateway::handlers::root;
use gateway::http::Header;
use gateway::http::InboundRequest;
use gateway::http::Method;
use gateway::metrics::MetricsRegistry;
use gateway::metrics::Outcome;
use gateway::state::State;

fn header(name: &str, value: &str) -> Header {
    Header { name: name.to_string(), value: value.to_string() }
}

fn endpoint(name: &str, target: &str, timeout_ms: Option<u64>) -> Endpoint {
    Endpoint {
        name: name.to_string(),
        config: EndpointConfig { target: target.to_string(), headers: Vec::new(), timeout_ms },
    }
}

fn loaded_store() -> Store {
    let mut store = Store::new();
    let entries = vec![
        endpoint("orders", "http://orders.internal:8000", None),
        endpoint("billing", "https://billing.internal", Some(1)),
    ];
    let r = store.reload(ReloadSource::Parsed { endpoints: entries }, 7);
    assert_eq!(r.ok(), Some(1));
    store
}

#[test]
fn health_payload_exact() {
    assert_eq!(health(), "{\"msg\":\"Healthy\"}");
}

#[test]
fn health_idempotent() {
    assert_eq!(health(), health());
}

#[test]
fn root_payload_exact_and_idempotent() {
    let a = root("api-gw", "1.2.3", "a small gateway");
    let b = root("api-gw", "1.2.3", "a small gateway");
    assert_eq!(a, b);
    assert_eq!(
        a,
        "{\"version\":\"1.2.3\",\"name\":\"api-gw\",\"description\":\"a small gateway\"}"
    );
}

#[test]
fn help_idempotent_and_lists_paths() {
    let a = help();
    assert_eq!(a, help());
    assert!(a.contains("/health"));
    assert!(a.contains("/:endpoint/*path"));
}

#[test]
fn echo_round_trip() {
    let body = b"{\"a\":1}".to_vec();
    let v = echo(&body).expect("valid JSON must echo");
    assert_eq!(serde_json::to_string(&v).unwrap(), "{\"a\":1}");
}

#[test]
fn echo_rejects_non_json() {
    let body = b"not json at all".to_vec();
    let e = echo(&body).err().expect("non-JSON must be rejected");
    assert_eq!(e.error_code(), 400);
    assert!(matches!(e, RestError::ClientInput { .. }));
}

#[test]
fn handler_404_body_exact() {
    let (status, body) = handler_404();
    assert_eq!(status, 404);
    assert_eq!(body, "{\"error_code\": 404, \"message\": \"HTTP 404 Not Found\"}");
}

#[test]
fn unknown_endpoint_is_structured_404() {
    let store = loaded_store();
    let name = "doesnotexist".to_string();
    let e = endpoint_config(store.get_snapshot(), &name).err().expect("absent name must fail");
    assert_eq!(e.error_code(), 404);
    match e {
        RestError::UnknownEndpoint { name } => assert_eq!(name, "doesnotexist"),
        other => panic!("wrong error: {}", other.message()),
    }
}

#[test]
fn reload_installs_new_snapshot() {
    let mut store = loaded_store();
    // before the new snapshot is published, a name only in the new
    // configuration does not resolve, and the old names do
    assert!(store.lookup(&"inventory".to_string()).is_none());
    assert!(store.lookup(&"orders".to_string()).is_some());
    let entries = vec![endpoint("inventory", "http://inventory.internal", None)];
    let v = store.reload(ReloadSource::Parsed { endpoints: entries }, 9).unwrap();
    assert_eq!(v, 2);
    assert_eq!(store.snapshot.version, 2);
    assert_eq!(store.snapshot.loaded_at, 9);
    assert!(store.lookup(&"inventory".to_string()).is_some());
    assert!(store.lookup(&"orders".to_string()).is_none());
}

#[test]
fn fetched_snapshot_survives_reload_in_full() {
    let mut store = loaded_store();
    // an in-flight request works against the one snapshot it fetched
    let observed = store.get_snapshot().clone();
    let entries = vec![endpoint("inventory", "http://inventory.internal", None)];
    store.reload(ReloadSource::Parsed { endpoints: entries }, 9).unwrap();
    // the fetched snapshot is still the pre-reload one, whole: old names
    // resolve through it, the new name does not
    assert_eq!(observed.version, 1);
    assert!(observed.lookup(&"orders".to_string()).is_some());
    assert!(observed.lookup(&"billing".to_string()).is_some());
    assert!(observed.lookup(&"inventory".to_string()).is_none());
    // the store's current snapshot is the post-reload one, whole
    assert_eq!(store.snapshot.version, 2);
    assert!(store.lookup(&"inventory".to_string()).is_some());
    assert!(store.lookup(&"orders".to_string()).is_none());
}

#[test]
fn reload_failure_preserves_old_state() {
    let mut store = loaded_store();
    let bad = vec![
        endpoint("inventory", "http://inventory.internal", None),
        endpoint("inventory", "http://other.internal", None),
    ];
    let e = store.reload(ReloadSource::Parsed { endpoints: bad }, 9).err().unwrap();
    assert!(matches!(e, ConfigError::DuplicateName { .. }));
    assert_eq!(
        e.message(),
        "duplicate endpoint name: inventory"
    );
    assert_eq!(store.snapshot.version, 1);
    assert!(store.lookup(&"orders".to_string()).is_some());
    assert!(store.lookup(&"inventory".to_string()).is_none());
}

#[test]
fn reload_unreadable_source_reports_detail() {
    let mut store = loaded_store();
    let e = store
        .reload(ReloadSource::Unreadable { detail: "file vanished".to_string() }, 9)
        .err()
        .unwrap();
    match e {
        ConfigError::Unreadable { detail } => assert_eq!(detail, "file vanished"),
        other => panic!("wrong error: {}", other.message()),
    }
    assert_eq!(store.snapshot.version, 1);
}

#[test]
fn reload_rejects_empty_name() {
    let mut store = Store::new();
    let e = store
        .reload(
            ReloadSource::Parsed { endpoints: vec![endpoint("", "http://x.internal", None)] },
            1,
        )
        .err()
        .unwrap();
    assert!(matches!(e, ConfigError::EmptyName));
    assert_eq!(store.snapshot.version, 0);
}

#[test]
fn reload_rejects_name_with_separator() {
    let mut store = Store::new();
    let e = store
        .reload(
            ReloadSource::Parsed {
                endpoints: vec![endpoint("a/b", "http://x.internal", None)],
            },
            1,
        )
        .err()
        .unwrap();
    match e {
        ConfigError::InvalidName { name } => assert_eq!(name, "a/b"),
        other => panic!("wrong error: {}", other.message()),
    }
}

#[test]
fn reload_rejects_bad_target() {
    let mut store = Store::new();
    let e = store
        .reload(
            ReloadSource::Parsed { endpoints: vec![endpoint("a", "ftp://x.internal", None)] },
            1,
        )
        .err()
        .unwrap();
    match e {
        ConfigError::InvalidTarget { name, target } => {
            assert_eq!(name, "a");
            assert_eq!(target, "ftp://x.internal");
        }
        other => panic!("wrong error: {}", other.message()),
    }
}

#[test]
fn reload_through_state_wraps_error_as_400() {
    let mut state = State::new(None);
    let e = reload(
        &mut state,
        ReloadSource::Unreadable { detail: "bad yaml".to_string() },
        3,
    )
    .err()
    .unwrap();
    assert_eq!(e.error_code(), 400);
    assert_eq!(
        e.message(),
        "configuration reload failed: unreadable configuration source: bad yaml"
    );
}

#[test]
fn target_validation() {
    assert!(valid_target("http://upstream"));
    assert!(valid_target("https://upstream"));
    assert!(!valid_target("http://"));
    assert!(!valid_target("https://"));
    assert!(!valid_target("upstream:8080"));
    assert!(!valid_target(""));
    assert!(valid_name("orders"));
    assert!(!valid_name(""));
    assert!(!valid_name("or/ders"));
}

#[test]
fn forward_builds_outbound_request() {
    let store = loaded_store();
    let inbound = InboundRequest {
        method: Method::Post,
        headers: vec![
            header("host", "gw.local"),
            header("content-length", "3"),
            header("x-trace", "abc"),
        ],
        body: vec![1, 2, 3],
        query: "a=1&b=2".to_string(),
    };
    let (req, timeout): (ForwardRequest, u64) = forward(
        store.get_snapshot(),
        &"orders".to_string(),
        &"v1/items".to_string(),
        &inbound,
        30,
    )
    .unwrap();
    assert_eq!(req.url, "http://orders.internal:8000/v1/items?a=1&b=2");
    assert_eq!(req.method, Method::Post);
    assert_eq!(req.body, vec![1, 2, 3]);
    assert_eq!(req.headers.len(), 1);
    assert_eq!(req.headers[0].name, "x-trace");
    assert_eq!(req.headers[0].value, "abc");
    assert_eq!(timeout, 30);
}

#[test]
fn forward_uses_timeout_override() {
    let store = loaded_store();
    let inbound = InboundRequest {
        method: Method::Get,
        headers: Vec::new(),
        body: Vec::new(),
        query: String::new(),
    };
    let (req, timeout) = forward(
        store.get_snapshot(),
        &"billing".to_string(),
        &"invoices".to_string(),
        &inbound,
        30,
    )
    .unwrap();
    assert_eq!(req.url, "https://billing.internal/invoices");
    assert_eq!(timeout, 1);
}

#[test]
fn forward_unknown_endpoint() {
    let store = loaded_store();
    let inbound = InboundRequest {
        method: Method::Get,
        headers: Vec::new(),
        body: Vec::new(),
        query: String::new(),
    };
    let e = forward(store.get_snapshot(), &"ghost".to_string(), &"x".to_string(), &inbound, 30)
        .err()
        .unwrap();
    assert_eq!(e.error_code(), 404);
    assert!(matches!(e, RestError::UnknownEndpoint { .. }));
}

#[test]
fn build_url_without_query() {
    let url = build_url(
        &"http://up".to_string(),
        &"a/b".to_string(),
        &String::new(),
    );
    assert_eq!(url, "http://up/a/b");
}

#[test]
fn filter_headers_drops_hop_by_hop() {
    let hs = vec![
        header("connection", "close"),
        header("accept", "application/json"),
        header("transfer-encoding", "chunked"),
        header("upgrade", "h2c"),
        header("keep-alive", "5"),
        header("x-id", "9"),
    ];
    let kept = filter_headers(&hs);
    let names: Vec<String> = kept.iter().map(|h| h.name.clone()).collect();
    assert_eq!(names, vec!["accept".to_string(), "x-id".to_string()]);
}

#[test]
fn relay_passes_response_through() {
    let outcome = UpstreamOutcome::Response {
        status: 203,
        headers: vec![header("host", "up"), header("etag", "44")],
        body: b"payload".to_vec(),
    };
    let resp: RelayResponse = relay_outcome(outcome).unwrap();
    assert_eq!(resp.status, 203);
    assert_eq!(resp.body, b"payload".to_vec());
    assert_eq!(resp.headers.len(), 1);
    assert_eq!(resp.headers[0].name, "etag");
}

#[test]
fn relay_maps_unreachable_to_502() {
    let e = relay_outcome(UpstreamOutcome::Unreachable).err().unwrap();
    assert_eq!(e.error_code(), 502);
    assert_eq!(e.message(), "upstream unreachable");
}

#[test]
fn relay_maps_timeout_to_504() {
    let e = relay_outcome(UpstreamOutcome::TimedOut).err().unwrap();
    assert_eq!(e.error_code(), 504);
    assert_eq!(e.message(), "upstream timeout");
}

#[test]
fn effective_timeout_prefers_override() {
    assert_eq!(effective_timeout(&Some(1), 30), 1);
    assert_eq!(effective_timeout(&None, 30), 30);
}

#[test]
fn metrics_without_registry_is_500() {
    let state = State::new(None);
    let e = metrics(&state).err().unwrap();
    assert_eq!(e.error_code(), 500);
    assert_eq!(e.message(), "internal error: metrics registry unavailable");
}

#[test]
fn metrics_with_registry_renders() {
    let recorder = metrics_exporter_prometheus::PrometheusBuilder::new().build_recorder();
    let state = State::new(Some(recorder.handle()));
    let rendered = metrics(&state).unwrap();
    assert!(rendered.is_empty() || rendered.is_ascii());
}

#[test]
fn registry_counts_per_endpoint_and_outcome() {
    let mut reg = MetricsRegistry::new();
    reg.record(&"orders".to_string(), Outcome::Success);
    reg.record(&"orders".to_string(), Outcome::Success);
    reg.record(&"orders".to_string(), Outcome::UpstreamError);
    reg.record(&"billing".to_string(), Outcome::Success);
    assert_eq!(reg.counters.len(), 3);
    let find = |name: &str, outcome: Outcome| {
        reg.counters
            .iter()
            .find(|c| c.endpoint == name && c.outcome == outcome)
            .map(|c| c.count)
    };
    assert_eq!(find("orders", Outcome::Success), Some(2));
    assert_eq!(find("orders", Outcome::UpstreamError), Some(1));
    assert_eq!(find("billing", Outcome::Success), Some(1));
    assert_eq!(find("billing", Outcome::UpstreamError), None);
}

#[test]
fn error_messages_exact() {
    let e = RestError::UnknownEndpoint { name: "x".to_string() };
    assert_eq!(e.message(), "unknown endpoint: x");
    let e = RestError::ClientInput { detail: "bad".to_string() };
    assert_eq!(e.message(), "invalid client input: bad");
    let e = RestError::Internal { detail: "io".to_string() };
    assert_eq!(e.message(), "internal error: io");
}
