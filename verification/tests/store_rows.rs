use gateway::config::Route;
use gateway::store::{
    admin_list_accepted, allowed_users_json, id_config_from_row, parse_admin_users, route_from_row, route_to_row,
    RouteRow,
};

fn sample() -> Route {
    Route {
        id: 0x0190_0000_0000_7000_8000_0000_0000_0001,
        name: "Wiki".to_string(),
        host: "wiki.example".to_string(),
        upstream_url: "http://10.0.0.2:80".to_string(),
        requires_auth: true,
        enabled: false,
        allowed_users: vec!["a\"b".to_string(), "ü".to_string()],
    }
}

#[test]
fn routes_survive_storage() {
    let r = sample();
    let row = route_to_row(&r);
    assert_eq!(row.id, "01900000-0000-7000-8000-000000000001");
    assert_eq!(row.allowed_users, r#"["a\"b","ü"]"#);
    let back = route_from_row(row, 99);
    assert_eq!(back.id, r.id);
    assert_eq!(back.name, r.name);
    assert_eq!(back.host, r.host);
    assert_eq!(back.upstream_url, r.upstream_url);
    assert_eq!(back.requires_auth, r.requires_auth);
    assert_eq!(back.enabled, r.enabled);
    assert_eq!(back.allowed_users, r.allowed_users);
}

#[test]
fn malformed_rows_get_defaults() {
    let row = RouteRow {
        id: "not-a-uuid".to_string(),
        name: "n".to_string(),
        host: "h".to_string(),
        upstream_url: "u".to_string(),
        requires_auth: false,
        enabled: true,
        allowed_users: "{oops".to_string(),
    };
    let r = route_from_row(row, 99);
    assert!(r.allowed_users.is_empty());
    assert_eq!(r.id, 99);
}

#[test]
fn whitelist_json() {
    assert_eq!(allowed_users_json(&Vec::new()), "[]");
    assert_eq!(allowed_users_json(&vec!["x".to_string()]), r#"["x"]"#);
}

#[test]
fn id_config_rows() {
    let c = id_config_from_row("https://id".to_string(), Some("app".to_string()), None, Some("o".to_string()));
    assert_eq!(c.server_url, "https://id");
    assert_eq!(c.app_id, "app");
    assert_eq!(c.api_key, "");
    assert_eq!(c.admin_origin, "o");
}

#[test]
fn admin_lists() {
    assert_eq!(parse_admin_users(" alice, ,bob ,, carol"), vec!["alice", "bob", "carol"]);
    assert!(parse_admin_users(" , ,").is_empty());
    assert!(parse_admin_users("").is_empty());
    assert!(admin_list_accepted(&vec![" ".to_string(), "x".to_string()]));
    assert!(!admin_list_accepted(&vec![" ".to_string(), "\t".to_string()]));
    assert!(!admin_list_accepted(&Vec::new()));
}
