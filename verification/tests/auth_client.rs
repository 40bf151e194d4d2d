use gateway::auth::{
    authorized_username, clear_session_cookie, clear_user_token_cookie, create_session, create_session_cookie,
    session_from_row, stored_timestamp, user_token_cookie, ApiResponse, IdClient, Session, UserInfo,
    instant_nanos, Timestamp, COOKIE_MAX_AGE_SECONDS, LATEST_SECONDS, SESSION_LIFETIME_SECONDS,
    VALIDATION_INTERVAL_NANOS,
};
use gateway::config::{is_id_configured, IdConfig, Route};

fn config(admin_origin: &str) -> IdConfig {
    IdConfig {
        server_url: "https://id.example".to_string(),
        app_id: "app-1".to_string(),
        api_key: "secret".to_string(),
        admin_origin: admin_origin.to_string(),
    }
}

#[test]
fn admin_origin_adds_scheme_and_strips_slashes() {
    assert_eq!(IdClient::new(config("gate.example//")).admin_origin(), "https://gate.example");
    assert_eq!(IdClient::new(config("http://gate.example/")).admin_origin(), "http://gate.example");
    assert_eq!(IdClient::new(config("https://gate.example")).admin_origin(), "https://gate.example");
}

#[test]
fn consent_url_percent_encodes_callback() {
    let client = IdClient::new(config("gate.example"));
    assert_eq!(
        client.consent_url("https://gate.example/_admin/callback"),
        "https://id.example/consent/app-1?redirect_uri=https%3A%2F%2Fgate.example%2F_admin%2Fcallback"
    );
    assert_eq!(client.consent_url("a-b_c.d~é"), "https://id.example/consent/app-1?redirect_uri=a-b_c.d~%C3%A9");
}

#[test]
fn client_endpoints_and_authorization() {
    let client = IdClient::new(config("gate.example"));
    assert_eq!(client.exchange_endpoint(), "https://id.example/api/v1/exchange");
    assert_eq!(client.user_endpoint(), "https://id.example/api/v1/user");
    assert_eq!(client.revoke_endpoint(), "https://id.example/api/v1/revoke");
    assert_eq!(client.authorization(), "Bearer secret");
}

#[test]
fn api_response_into_result() {
    let ok: ApiResponse<u32> = ApiResponse { success: true, data: Some(7), error: None };
    assert_eq!(ok.into_result().ok(), Some(7));
    let no_data: ApiResponse<u32> = ApiResponse { success: true, data: None, error: Some("x".to_string()) };
    assert_eq!(no_data.into_result().err().unwrap().message, "No data in response");
    let failed: ApiResponse<u32> = ApiResponse { success: false, data: Some(1), error: Some("denied".to_string()) };
    assert_eq!(failed.into_result().err().unwrap().message, "denied");
    let unknown: ApiResponse<u32> = ApiResponse { success: false, data: None, error: None };
    assert_eq!(unknown.into_result().err().unwrap().message, "Unknown error");
}

#[test]
fn usernames_are_trimmed_and_blank_ones_refused() {
    let u = UserInfo { id: "1".to_string(), username: Some("  alice ".to_string()) };
    assert_eq!(authorized_username(&u), Some("alice".to_string()));
    let blank = UserInfo { id: "2".to_string(), username: Some(" \t ".to_string()) };
    assert_eq!(authorized_username(&blank), None);
    let none = UserInfo { id: "3".to_string(), username: None };
    assert_eq!(authorized_username(&none), None);
}

#[test]
fn id_configuration_completeness() {
    assert!(is_id_configured(&config("x")));
    let mut c = config("x");
    c.api_key = String::new();
    assert!(!is_id_configured(&c));
    let mut d = config("x");
    d.app_id = String::new();
    assert!(!is_id_configured(&d));
}

#[test]
fn whitelist_narrows_access() {
    let mut route = Route {
        id: 1,
        name: "n".to_string(),
        host: "h".to_string(),
        upstream_url: "u".to_string(),
        requires_auth: true,
        enabled: true,
        allowed_users: Vec::new(),
    };
    assert!(route.allows_user("anyone"));
    route.allowed_users = vec!["bob".to_string(), "carol".to_string()];
    assert!(route.allows_user("carol"));
    assert!(!route.allows_user("dave"));
    assert!(!route.allows_user("Carol"));
}

fn ts(seconds: i64, subsec_nanos: u32) -> Timestamp {
    Timestamp { seconds, subsec_nanos }
}

#[test]
fn session_validation_interval() {
    let s = Session::new("id".to_string(), "u".to_string(), "n".to_string(), "t".to_string(), ts(1_000, 5));
    assert_eq!(VALIDATION_INTERVAL_NANOS, 5 * 60 * 1_000_000_000);
    assert_eq!(s.expires_at, ts(1_000 + SESSION_LIFETIME_SECONDS, 5));
    assert_eq!(s.last_validated, ts(1_000, 5));
    assert!(!s.needs_validation(ts(1_000 + 120, 6)));
    assert!(!s.needs_validation(ts(1_000 + 300, 5)));
    assert!(s.needs_validation(ts(1_000 + 300, 6)));
    assert!(!s.needs_validation(ts(0, 0)));
    assert_eq!(instant_nanos(ts(-1, 999_999_999)), -1);
}

#[test]
fn sessions_expire_after_one_lifetime() {
    let s = Session::new("id".to_string(), "u".to_string(), "n".to_string(), "t".to_string(), ts(1_000, 5));
    assert!(!s.expired_at(ts(1_000, 5)));
    assert!(!s.expired_at(ts(1_000 + SESSION_LIFETIME_SECONDS, 4)));
    assert!(s.expired_at(ts(1_000 + SESSION_LIFETIME_SECONDS, 5)));
}

#[test]
fn created_session_is_fresh() {
    let now = ts(1_704_164_645, 123_456_789);
    let s = create_session("uid", "alice", "tok", 0x0190_0000_0000_7000_8000_0000_0000_0001, now).unwrap();
    assert_eq!(s.id, "01900000-0000-7000-8000-000000000001");
    assert_eq!(s.user_id, "uid");
    assert_eq!(s.username, "alice");
    assert_eq!(s.token, "tok");
    assert_eq!(s.last_validated, now);
    assert_eq!(s.expires_at, ts(1_704_164_645 + 86_400, 123_456_789));
    assert!(!s.needs_validation(now));
    // Sessions are created long after 2262, up to the last day chrono holds.
    let late = ts(LATEST_SECONDS - SESSION_LIFETIME_SECONDS, 999_999_999);
    assert!(create_session("uid", "alice", "tok", 1, ts(10_413_792_000, 0)).is_some());
    assert!(create_session("uid", "alice", "tok", 1, late).is_some());
    assert!(create_session("uid", "alice", "tok", 1, ts(LATEST_SECONDS - SESSION_LIFETIME_SECONDS + 1, 0)).is_none());
}

#[test]
fn sessions_read_from_stored_rows() {
    let s = session_from_row(
        "sid".to_string(),
        "uid".to_string(),
        "alice".to_string(),
        "tok".to_string(),
        "2024-01-02T03:04:05Z",
        "2024-01-02T03:04:05.5+01:00",
        ts(7, 0),
    );
    assert_eq!(s.id, "sid");
    assert_eq!(s.expires_at, ts(1_704_164_645, 0));
    assert_eq!(s.last_validated, ts(1_704_164_645 - 3_600, 500_000_000));
    let far = session_from_row(String::new(), String::new(), String::new(), String::new(), "2300-01-01T00:00:00Z", "1600-01-01T00:00:00Z", ts(7, 0));
    assert_eq!(far.expires_at, ts(10_413_792_000, 0));
    assert_eq!(far.last_validated, ts(-11_676_096_000, 0));
    let broken = session_from_row(String::new(), String::new(), String::new(), String::new(), "junk", "junk", ts(7, 0));
    assert_eq!((broken.expires_at, broken.last_validated), (ts(7, 0), ts(7, 0)));
}

#[test]
fn stored_timestamps_are_rfc3339() {
    assert_eq!(stored_timestamp(ts(1_704_164_645, 0)).unwrap(), "2024-01-02T03:04:05+00:00");
    assert_eq!(stored_timestamp(ts(1_704_164_645, 123_456_789)).unwrap(), "2024-01-02T03:04:05.123456789+00:00");
    assert_eq!(stored_timestamp(ts(10_413_792_000, 0)).unwrap(), "2300-01-01T00:00:00+00:00");
    for t in [ts(0, 0), ts(0, 1), ts(-1, 999_999_999), ts(10_413_792_000, 5), ts(-62_167_219_200, 0), ts(253_402_300_799, 999_999_999)] {
        let text = stored_timestamp(t).unwrap();
        let back = session_from_row(String::new(), String::new(), String::new(), String::new(), &text, &text, ts(7, 0));
        assert_eq!((back.expires_at, back.last_validated), (t, t));
    }
    assert!(stored_timestamp(ts(i64::MAX, 0)).is_none());
}

#[test]
fn session_cookie_attributes() {
    let c = create_session_cookie("abc", true);
    assert_eq!((c.name.as_str(), c.value.as_str(), c.path.as_str()), ("gateway_session", "abc", "/"));
    assert!(c.http_only && c.same_site_lax);
    assert_eq!(c.secure, Some(true));
    assert_eq!(c.max_age_seconds, COOKIE_MAX_AGE_SECONDS);

    let cleared = clear_session_cookie();
    assert_eq!(cleared.value, "");
    assert_eq!(cleared.max_age_seconds, 0);
    assert_eq!(cleared.secure, None);
    assert!(!cleared.same_site_lax);

    let t = user_token_cookie("tok", false);
    assert_eq!(t.name, "gateway_user_token");
    assert_eq!(t.secure, Some(false));
    assert!(t.http_only && t.same_site_lax);

    let ct = clear_user_token_cookie();
    assert_eq!(ct.name, "gateway_user_token");
    assert_eq!(ct.max_age_seconds, 0);
    assert!(ct.http_only && ct.same_site_lax);
}
