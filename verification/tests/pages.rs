use gateway::error::GatewayError;
use gateway::templates::{dashboard, error_page, layout, login, login_required, nav, routes, settings, setup};

#[test]
fn layout_wraps_title_and_content() {
    let page = layout("T", "<p>x</p>");
    assert!(page.starts_with("<!DOCTYPE html>"));
    assert!(page.contains("<title>T - Gateway Admin</title>"));
    assert!(page.contains("    <p>x</p>\n    <script src=\"/_static/js/main.js?v=4\"></script>"));
}

#[test]
fn nav_marks_the_active_link() {
    let n = nav("routes");
    assert!(n.contains(r#"<a href="/_admin/routes" class="active">Routes</a>"#));
    assert!(n.contains(r#"<a href="/_admin" class="">Dashboard</a>"#));
    assert!(n.contains("Dashboard</a>\n            <a href=\"/_admin/routes\""));
    assert!(!nav("none").contains("class=\"active\""));
}

#[test]
fn pages_carry_their_values() {
    let d = dashboard("alice");
    assert!(d.contains("Welcome, alice"));
    assert!(d.contains("class=\"active\">Dashboard"));
    assert!(d.contains("routes => {\n"));
    assert!(login("https://id/consent").contains(r#"<a href="https://id/consent" class="btn btn-primary">"#));
    assert!(setup().contains("<title>Setup - Gateway Admin</title>"));
    assert!(routes().contains("class=\"active\">Routes"));
    assert!(settings().contains("class=\"active\">Settings"));
}

#[test]
fn error_pages() {
    let p = error_page(404, "Not Found");
    assert!(p.contains("<title>404 - Not Found</title>"));
    assert!(p.contains("<div class=\"error-code\">404</div>"));
    assert!(p.contains("<h1 class=\"error-title\">Not Found</h1>"));
    assert!(p.contains("* { margin: 0; padding: 0; box-sizing: border-box; }"));
    assert!(error_page(7, "x").contains("<title>7 - x</title>"));
    assert!(error_page(65535, "x").contains("<title>65535 - x</title>"));
}

#[test]
fn gateway_errors_map_to_statuses() {
    let cases = [
        (GatewayError::RouteNotFound("h".to_string()), 404, "Not Found", "Route not found: h"),
        (GatewayError::Upstream("u".to_string()), 502, "Bad Gateway", "Upstream error: u"),
        (GatewayError::Proxy("p".to_string()), 502, "Bad Gateway", "Proxy error: p"),
        (GatewayError::Database("d".to_string()), 500, "Internal Server Error", "Database error: d"),
        (GatewayError::Io("i".to_string()), 500, "Internal Server Error", "IO error: i"),
    ];
    for (e, status, title, message) in cases {
        assert_eq!(e.status(), status);
        assert_eq!(e.title(), title);
        assert_eq!(e.message(), message);
        assert_eq!(e.error_response(), error_page(status, title));
    }
}

#[test]
fn login_required_page_checks_origin() {
    let p = login_required("https://id/consent?x=1", "https://gate");
    assert!(p.contains("window.open('https://id/consent?x=1', 'login', 'width=500,height=600');"));
    assert!(p.contains("if (event.origin !== 'https://gate') return;"));
    assert!(p.contains("fetch('/_gateway/session', {"));
}
