use gateway::config::Route;
use gateway::proxy::{
    build_upstream_url, client_ip, find_route, host_from_origin, is_forwarding_header, is_hop_by_hop_header,
    is_websocket_upgrade, request_host, resolve_admin_host, upstream_method, upstream_request_headers,
    downstream_response_headers, Header, ProxyState, UpstreamMethod,
};
use gateway::error::GatewayError;

fn test_route(host: &str, upstream: &str) -> Route {
    Route {
        id: uuid::Uuid::now_v7().as_u128(),
        name: "test".to_string(),
        host: host.to_string(),
        upstream_url: upstream.to_string(),
        requires_auth: false,
        enabled: true,
        allowed_users: Vec::new(),
    }
}

fn header(name: &str, value: &str) -> Header {
    Header { name: name.to_string(), value: Some(value.to_string()) }
}

#[test]
fn test_find_route_by_host() {
    let routes = vec![
        test_route("api.example.com", "http://localhost:3000"),
        test_route("web.example.com", "http://localhost:8080"),
    ];

    let route = find_route(&routes, "api.example.com");
    assert!(route.is_some());
    assert_eq!(route.unwrap().upstream_url, "http://localhost:3000");
}

#[test]
fn test_find_route_by_host_with_port() {
    let routes = vec![test_route("api.example.com", "http://localhost:3000")];

    let route = find_route(&routes, "api.example.com:443");
    assert!(route.is_some());
    assert_eq!(route.unwrap().upstream_url, "http://localhost:3000");
}

#[test]
fn test_build_upstream_url() {
    let route = test_route("api.example.com", "http://localhost:3000");
    let url = build_upstream_url(&route, "/users", None);
    assert_eq!(url, "http://localhost:3000/users");
}

#[test]
fn test_build_upstream_url_with_query() {
    let route = test_route("api.example.com", "http://localhost:3000");
    let url = build_upstream_url(&route, "/users", Some("page=1&limit=10"));
    assert_eq!(url, "http://localhost:3000/users?page=1&limit=10");
}

#[test]
fn test_host_from_origin() {
    assert_eq!(host_from_origin("https://gateway.fabi-sc.de/"), Some("gateway.fabi-sc.de".to_string()));
    assert_eq!(host_from_origin("gateway.fabi-sc.de:8443"), Some("gateway.fabi-sc.de".to_string()));
    assert_eq!(
        host_from_origin("https://Gateway.Fabi-SC.de/_admin"),
        Some("gateway.fabi-sc.de".to_string())
    );
    assert_eq!(host_from_origin("   "), None);
    assert_eq!(host_from_origin(""), None);
}

#[test]
fn test_request_host_ignores_forwarding_headers() {
    let headers = vec![
        header("Host", "code.fabi-sc.de"),
        header("Forwarded", "host=id-dev.fabi-sc.de"),
        header("X-Forwarded-Host", "id-dev.fabi-sc.de"),
    ];
    assert_eq!(request_host(&headers), "code.fabi-sc.de");
}

#[test]
fn test_request_host_strips_port_and_case() {
    let headers = vec![header("Host", "Code.Fabi-SC.de:443")];
    assert_eq!(request_host(&headers), "code.fabi-sc.de");
}

#[test]
fn request_host_without_host_header_is_empty() {
    let headers = vec![header("X-Forwarded-Host", "evil.example.com")];
    assert_eq!(request_host(&headers), "");
    let unreadable = vec![Header { name: "host".to_string(), value: None }];
    assert_eq!(request_host(&unreadable), "");
}

#[test]
fn request_host_uses_first_host_header_and_trims() {
    let headers = vec![header("host", "  First.example  "), header("host", "second.example")];
    assert_eq!(request_host(&headers), "first.example");
}

#[test]
fn host_from_origin_edge_cases() {
    assert_eq!(host_from_origin("ws://Chat.Example:9000/socket"), Some("chat.example".to_string()));
    assert_eq!(host_from_origin("https://"), None);
    assert_eq!(host_from_origin("https://:8080/"), None);
    assert_eq!(host_from_origin("  HOST  "), Some("host".to_string()));
}

#[test]
fn find_route_skips_disabled_and_unknown_hosts() {
    let mut disabled = test_route("api.example.com", "http://disabled");
    disabled.enabled = false;
    let routes = vec![disabled, test_route("api.example.com", "http://enabled")];
    assert_eq!(find_route(&routes, "api.example.com").unwrap().upstream_url, "http://enabled");
    assert!(find_route(&routes, "other.example.com").is_none());
    // Matching is exact: the host is not lower-cased here.
    assert!(find_route(&routes, "API.example.com").is_none());
}

#[test]
fn build_upstream_url_strips_every_trailing_slash() {
    let route = test_route("a", "http://backend:81///");
    assert_eq!(build_upstream_url(&route, "/x", Some("")), "http://backend:81/x?");
}

#[test]
fn client_ip_prefers_last_forwarded_entry() {
    let headers = vec![header("X-Forwarded-For", "1.1.1.1, 2.2.2.2 , 3.3.3.3 ")];
    assert_eq!(client_ip(&headers, Some("9.9.9.9")), "3.3.3.3");
}

#[test]
fn client_ip_falls_back_to_peer_then_unknown() {
    let blank = vec![header("x-forwarded-for", "1.1.1.1,   ")];
    assert_eq!(client_ip(&blank, Some("9.9.9.9")), "9.9.9.9");
    assert_eq!(client_ip(&[], None), "unknown");
}

#[test]
fn websocket_upgrade_detection() {
    assert!(is_websocket_upgrade(&[header("Upgrade", "WebSocket")]));
    assert!(!is_websocket_upgrade(&[header("Upgrade", "h2c")]));
    assert!(!is_websocket_upgrade(&[header("Connection", "upgrade")]));
}

#[test]
fn header_classification() {
    for n in ["forwarded", "x-forwarded-for", "x-forwarded-host", "x-forwarded-port", "x-forwarded-proto", "x-real-ip"] {
        assert!(is_forwarding_header(n));
    }
    assert!(!is_forwarding_header("X-Forwarded-For"));
    for n in ["connection", "keep-alive", "proxy-authenticate", "proxy-authorization", "te", "trailers", "transfer-encoding", "upgrade"] {
        assert!(is_hop_by_hop_header(n));
    }
    assert!(!is_hop_by_hop_header("content-type"));
}

#[test]
fn upstream_headers_replace_forwarding_headers() {
    let headers = vec![
        header("Content-Type", "text/plain"),
        header("X-Forwarded-For", "6.6.6.6"),
        header("Connection", "keep-alive"),
        Header { name: "x-binary".to_string(), value: None },
        header("Accept", "*/*"),
    ];
    let out = upstream_request_headers(&headers, "1.2.3.4", "https", "app.example");
    let pairs: Vec<(String, String)> = out.into_iter().map(|p| (p.name, p.value)).collect();
    assert_eq!(
        pairs,
        vec![
            ("Content-Type".to_string(), "text/plain".to_string()),
            ("Accept".to_string(), "*/*".to_string()),
            ("X-Forwarded-For".to_string(), "1.2.3.4".to_string()),
            ("X-Forwarded-Proto".to_string(), "https".to_string()),
            ("X-Forwarded-Host".to_string(), "app.example".to_string()),
        ]
    );
}

#[test]
fn response_headers_keep_every_set_cookie() {
    let headers = vec![
        header("set-cookie", "a=1"),
        header("transfer-encoding", "chunked"),
        header("set-cookie", "b=2"),
        header("x-forwarded-for", "kept"),
    ];
    let out = downstream_response_headers(&headers);
    let pairs: Vec<(String, String)> = out.into_iter().map(|p| (p.name, p.value)).collect();
    assert_eq!(
        pairs,
        vec![
            ("set-cookie".to_string(), "a=1".to_string()),
            ("set-cookie".to_string(), "b=2".to_string()),
            ("x-forwarded-for".to_string(), "kept".to_string()),
        ]
    );
}

#[test]
fn upstream_method_mapping() {
    assert!(matches!(upstream_method("GET"), Ok(UpstreamMethod::Get)));
    assert!(matches!(upstream_method("OPTIONS"), Ok(UpstreamMethod::Options)));
    match upstream_method("TRACE") {
        Err(GatewayError::Proxy(m)) => assert_eq!(m, "Unsupported method: TRACE"),
        _ => panic!("TRACE must be refused"),
    }
    assert!(upstream_method("get").is_err());
}

#[test]
fn admin_host_resolution_and_check() {
    assert_eq!(resolve_admin_host(Some("https://Admin.Example/"), "https://other"), Some("admin.example".to_string()));
    assert_eq!(resolve_admin_host(Some("   "), "https://other:443"), Some("other".to_string()));
    assert_eq!(resolve_admin_host(None, ""), None);

    let mut state = ProxyState::new();
    assert!(!state.is_admin_host("anything"));
    state.reload_routes(vec![test_route("a.example", "http://a")], None, "https://Gate.Example");
    assert!(state.is_admin_host("gate.example"));
    assert!(state.is_admin_host("GATE.example:8443"));
    assert!(!state.is_admin_host("a.example"));
    assert_eq!(state.find_route("a.example:80").unwrap().upstream_url, "http://a");
    state.reload_routes(Vec::new(), None, "");
    assert!(!state.is_admin_host("gate.example"));
    assert!(state.find_route("a.example").is_none());
}

#[test]
fn host_from_origin_is_a_fixed_point() {
    for origin in ["  HTTPS://Gate.Example:8443/x  ", "gateway.fabi-sc.de", "http:// Spaced /", "a:b://c"] {
        if let Some(h) = host_from_origin(origin) {
            assert_eq!(h.trim(), h);
            assert_eq!(host_from_origin(&h), Some(h.clone()));
        }
    }
    assert_eq!(host_from_origin("https:///path"), None);
    assert_eq!(host_from_origin("https://:443"), None);
}
