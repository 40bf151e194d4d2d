use gateway::access::{
    access_denied_details, admin_login_permitted, admin_login_username, api_guard, callback_reply, dashboard_gate,
    login_gate, proxy_access, proxy_session_outcome, route_created_details, route_miss, route_updated_details,
    session_created_details, session_page_gate, session_rejected_details, setup_gate, ApiRejection, PageGate,
    ProxyAccess, ProxySessionOutcome, RedirectTarget, SessionRequest, TokenCheck,
};
use gateway::auth::UserInfo;
use gateway::config::Route;
use gateway::error::GatewayError;
use gateway::templates::callback_page;

fn route(requires_auth: bool, allowed: &[&str]) -> Route {
    Route {
        id: 42,
        name: "r".to_string(),
        host: "app.example".to_string(),
        upstream_url: "http://backend".to_string(),
        requires_auth,
        enabled: true,
        allowed_users: allowed.iter().map(|s| s.to_string()).collect(),
    }
}

fn user(name: Option<&str>) -> UserInfo {
    UserInfo { id: "u1".to_string(), username: name.map(|s| s.to_string()) }
}

#[test]
fn open_routes_are_always_granted() {
    let r = route(false, &["bob"]);
    assert!(matches!(proxy_access(&r, &TokenCheck::Missing), ProxyAccess::Granted));
    assert!(matches!(proxy_access(&r, &TokenCheck::Rejected), ProxyAccess::Granted));
}

#[test]
fn protected_routes_require_a_whitelisted_user() {
    let r = route(true, &["bob"]);
    assert!(matches!(
        proxy_access(&r, &TokenCheck::Missing),
        ProxyAccess::LoginRequired { clear_stale_cookie: false }
    ));
    assert!(matches!(
        proxy_access(&r, &TokenCheck::Rejected),
        ProxyAccess::LoginRequired { clear_stale_cookie: true }
    ));
    assert!(matches!(
        proxy_access(&r, &TokenCheck::Accepted(user(Some("   ")))),
        ProxyAccess::LoginRequired { clear_stale_cookie: true }
    ));
    assert!(matches!(
        proxy_access(&r, &TokenCheck::Accepted(user(None))),
        ProxyAccess::LoginRequired { clear_stale_cookie: true }
    ));
    assert!(matches!(proxy_access(&r, &TokenCheck::Accepted(user(Some(" bob ")))), ProxyAccess::Granted));
    match proxy_access(&r, &TokenCheck::Accepted(user(Some("eve")))) {
        ProxyAccess::Denied { username } => assert_eq!(username, "eve"),
        _ => panic!("eve is not whitelisted"),
    }
}

#[test]
fn empty_whitelist_admits_any_user() {
    let r = route(true, &[]);
    assert!(matches!(proxy_access(&r, &TokenCheck::Accepted(user(Some("zoe")))), ProxyAccess::Granted));
}

#[test]
fn unrouted_hosts() {
    assert_eq!(route_miss(false, "x").ok(), Some("/_admin/setup"));
    match route_miss(true, "nowhere.example") {
        Err(GatewayError::RouteNotFound(h)) => assert_eq!(h, "nowhere.example"),
        _ => panic!("expected RouteNotFound"),
    }
}

#[test]
fn proxy_session_decisions() {
    let r = route(true, &["bob"]);
    let req = SessionRequest { token: "tok".to_string() };
    assert_eq!(req.token, "tok");
    assert!(matches!(proxy_session_outcome(&r, None), ProxySessionOutcome::Unauthorized { invalid_token: true }));
    assert!(matches!(
        proxy_session_outcome(&r, Some(&user(Some("")))),
        ProxySessionOutcome::Unauthorized { invalid_token: false }
    ));
    match proxy_session_outcome(&r, Some(&user(Some("eve")))) {
        ProxySessionOutcome::Forbidden { username } => assert_eq!(username, "eve"),
        _ => panic!("eve is not whitelisted"),
    }
    match proxy_session_outcome(&r, Some(&user(Some("bob")))) {
        ProxySessionOutcome::Created { username } => assert_eq!(username, "bob"),
        _ => panic!("bob is whitelisted"),
    }
}

#[test]
fn admin_page_gates() {
    assert!(matches!(dashboard_gate(false, true, true), PageGate::NotFound));
    assert!(matches!(dashboard_gate(true, false, true), PageGate::Redirect(RedirectTarget::Setup)));
    assert!(matches!(dashboard_gate(true, true, false), PageGate::Redirect(RedirectTarget::Login)));
    assert!(matches!(dashboard_gate(true, true, true), PageGate::Show));
    assert!(matches!(login_gate(false, true), PageGate::NotFound));
    assert!(matches!(login_gate(true, false), PageGate::Redirect(RedirectTarget::Setup)));
    assert!(matches!(login_gate(true, true), PageGate::Show));
    assert!(matches!(setup_gate(false, false), PageGate::Show));
    assert!(matches!(setup_gate(true, true), PageGate::Redirect(RedirectTarget::Admin)));
    assert!(matches!(setup_gate(true, false), PageGate::NotFound));
    assert!(matches!(session_page_gate(true, false), PageGate::Redirect(RedirectTarget::Login)));
    assert!(matches!(session_page_gate(false, true), PageGate::NotFound));
    assert!(matches!(session_page_gate(true, true), PageGate::Show));
    assert_eq!(RedirectTarget::Setup.location(), "/_admin/setup");
    assert_eq!(RedirectTarget::Login.location(), "/_admin/login");
    assert_eq!(RedirectTarget::Admin.location(), "/_admin");
}

#[test]
fn admin_api_guard_checks_host_first() {
    assert!(matches!(api_guard(false, false), Some(ApiRejection::NotFound)));
    assert!(matches!(api_guard(false, true), Some(ApiRejection::NotFound)));
    assert!(matches!(api_guard(true, false), Some(ApiRejection::Unauthorized)));
    assert!(api_guard(true, true).is_none());
}

#[test]
fn sign_in_callback_replies() {
    let e = callback_reply(None, "t").err().unwrap();
    assert_eq!((e.status, e.message), (400, "Bad Request"));
    let e = callback_reply(Some(&user(None)), "t").err().unwrap();
    assert_eq!((e.status, e.message), (400, "Missing username scope"));
    let page = callback_reply(Some(&user(Some("amy"))), "tok123").ok().unwrap();
    assert_eq!(page, callback_page("u1", "amy", "tok123"));
    assert!(page.contains("username: 'amy'"));
    assert!(page.contains("/_admin/callback-session?token=tok123"));
}

#[test]
fn admin_login_steps() {
    let e = admin_login_username(None).err().unwrap();
    assert_eq!((e.status, e.message), (400, "Invalid token"));
    let nameless = user(None);
    let e = admin_login_username(Some(&nameless)).err().unwrap();
    assert_eq!((e.status, e.message), (400, "Missing username"));
    let amy = user(Some("amy"));
    assert_eq!(admin_login_username(Some(&amy)).ok().unwrap(), "amy");
    assert!(admin_login_permitted(true).is_ok());
    let e = admin_login_permitted(false).err().unwrap();
    assert_eq!((e.status, e.message), (403, "Forbidden"));
}

#[test]
fn audit_details() {
    assert_eq!(access_denied_details("h.example", "/p"), "host=h.example path=/p");
    assert_eq!(session_rejected_details("h", true), "host=h reason=invalid_token");
    assert_eq!(session_rejected_details("h", false), "host=h reason=not_allowed");
    assert_eq!(session_created_details("h"), "host=h");
    let r = route(true, &[]);
    assert_eq!(route_created_details(&r), "host=app.example upstream=http://backend requires_auth=true");
    let mut off = route(false, &[]);
    off.enabled = false;
    assert_eq!(
        route_updated_details(&off),
        "host=app.example upstream=http://backend requires_auth=false enabled=false"
    );
}
