use gateway::admin::{
    apply_id_config_update, apply_route_update, config_updated_details, find_route_by_id, id_config_summary,
    new_route, route_deleted_details, setup_config, CreateRouteRequest, SetupForm,
    UpdateIdConfigRequest, UpdateRouteRequest,
};
use gateway::cli::Args;
use gateway::config::{IdConfig, Route};

fn create(requires_auth: Option<bool>) -> CreateRouteRequest {
    CreateRouteRequest {
        name: "App".to_string(),
        host: "app.example".to_string(),
        upstream_url: "http://127.0.0.1:3000".to_string(),
        requires_auth,
        allowed_users: None,
    }
}

#[test]
fn created_routes_default_to_authenticated() {
    let r = new_route(create(None), 5);
    assert_eq!(r.id, 5);
    assert!(r.requires_auth);
    assert!(r.enabled);
    assert!(r.allowed_users.is_empty());
    assert!(!new_route(create(Some(false)), 6).requires_auth);
    let given = new_route(create(Some(true)), 7);
    assert_eq!((given.id, given.host.as_str()), (7, "app.example"));
}

#[test]
fn route_updates_replace_given_fields_only() {
    let old = new_route(create(None), 9);
    let req = UpdateRouteRequest {
        name: None,
        host: Some("new.example".to_string()),
        upstream_url: None,
        requires_auth: None,
        enabled: Some(false),
        allowed_users: Some(vec!["bob".to_string()]),
    };
    let r = apply_route_update(old, req);
    assert_eq!(r.id, 9);
    assert_eq!(r.name, "App");
    assert_eq!(r.host, "new.example");
    assert_eq!(r.upstream_url, "http://127.0.0.1:3000");
    assert!(r.requires_auth);
    assert!(!r.enabled);
    assert_eq!(r.allowed_users, vec!["bob".to_string()]);

    let untouched = apply_route_update(
        new_route(create(Some(false)), 3),
        UpdateRouteRequest { name: None, host: None, upstream_url: None, requires_auth: None, enabled: None, allowed_users: None },
    );
    assert!(!untouched.requires_auth && untouched.enabled && untouched.id == 3);
}

#[test]
fn routes_found_by_id() {
    let routes: Vec<Route> = vec![new_route(create(None), 1), new_route(create(Some(false)), 2)];
    assert!(!find_route_by_id(&routes, 2).unwrap().requires_auth);
    assert!(find_route_by_id(&routes, 3).is_none());
}

fn cfg() -> IdConfig {
    IdConfig {
        server_url: "https://id.example".to_string(),
        app_id: "app".to_string(),
        api_key: "k".to_string(),
        admin_origin: "https://gate".to_string(),
    }
}

#[test]
fn id_config_updates_and_summary() {
    let updated = apply_id_config_update(
        cfg(),
        UpdateIdConfigRequest { server_url: None, app_id: Some("app2".to_string()), api_key: None, admin_origin: None },
    );
    assert_eq!(updated.app_id, "app2");
    assert_eq!(updated.api_key, "k");
    let s = id_config_summary(&updated);
    assert!(s.api_key_set);
    assert_eq!(s.app_id, "app2");
    assert_eq!(s.server_url, "https://id.example");
    let mut empty_key = cfg();
    empty_key.api_key = String::new();
    assert!(!id_config_summary(&empty_key).api_key_set);
    assert_eq!(config_updated_details(&updated), "server_url=https://id.example app_id=app2 admin_origin=https://gate");
}

#[test]
fn setup_form_configures_default_service() {
    let form = SetupForm {
        app_id: "a".to_string(),
        api_key: "b".to_string(),
        admin_origin: "https://gate".to_string(),
        admin_users: "x".to_string(),
    };
    let c = setup_config(&form);
    assert_eq!(c.server_url, "https://id.fabi-sc.de");
    assert_eq!((c.app_id.as_str(), c.api_key.as_str(), c.admin_origin.as_str()), ("a", "b", "https://gate"));
}

#[test]
fn deleted_route_details_use_hyphenated_uuid() {
    assert_eq!(
        route_deleted_details(0xa1a2a3a4b1b2c1c2d1d2d3d4d5d6d7d8),
        "id=a1a2a3a4-b1b2-c1c2-d1d2-d3d4d5d6d7d8"
    );
}

#[test]
fn command_line_addresses() {
    let mut args = Args {
        port: 8080,
        host: "0.0.0.0".to_string(),
        database: "gateway.db".to_string(),
        tls_cert: None,
        tls_key: None,
        log_level: "info".to_string(),
    };
    assert_eq!(args.bind_addr(), "0.0.0.0:8080");
    assert_eq!(args.tls_files(), Ok(None));
    args.tls_cert = Some("c.pem".to_string());
    assert_eq!(args.tls_files(), Err("Both --tls-cert and --tls-key must be provided for TLS".to_string()));
    args.tls_key = Some("k.pem".to_string());
    assert_eq!(args.tls_files(), Ok(Some(("c.pem".to_string(), "k.pem".to_string()))));
    args.port = 0;
    assert_eq!(args.bind_addr(), "0.0.0.0:0");
}
