//! HTML pages of the admin interface and of the login flow.
//!
//! Every page is its fixed text with the caller's values inserted, as the
//! specification functions below state.

use vstd::prelude::*;

use crate::text::{chars_of, decimal, decimal_chars, push_all, push_str, str_eq, to_string};

verus! {

/// Separator between navigation links.
pub const NAV_SEPARATOR: &'static str = "\n            ";

/// The base layout: `title` in the head, `content` in the body.
pub open spec fn layout_text(title: Seq<char>, content: Seq<char>) -> Seq<char> {
    LAYOUT_0@ + title + LAYOUT_1@ + content + LAYOUT_2@
}

/// Base HTML layout.
pub fn layout(title: &str, content: &str) -> (r: String)
    ensures
        r@ == layout_text(title@, content@),
{
    let mut v = chars_of(LAYOUT_0);
    push_str(&mut v, title);
    push_str(&mut v, LAYOUT_1);
    push_str(&mut v, content);
    push_str(&mut v, LAYOUT_2);
    to_string(&v)
}

/// One navigation link; it carries the class `active` exactly when its id is
/// the active one.
pub open spec fn nav_link_text(href: Seq<char>, label: Seq<char>, id: Seq<char>, active: Seq<char>) -> Seq<char> {
    NAV_LINK_0@ + href + NAV_LINK_1@ + (if id == active { "active"@ } else { Seq::<char>::empty() })
        + NAV_LINK_2@ + label + NAV_LINK_3@
}

/// The navigation sidebar with `active` marking the current page.
pub open spec fn nav_text(active: Seq<char>) -> Seq<char> {
    NAV_0@
        + nav_link_text("/_admin"@, "Dashboard"@, "dashboard"@, active) + NAV_SEPARATOR@
        + nav_link_text("/_admin/routes"@, "Routes"@, "routes"@, active) + NAV_SEPARATOR@
        + nav_link_text("/_admin/settings"@, "Settings"@, "settings"@, active)
        + NAV_1@
}

fn push_nav_link(v: &mut Vec<char>, href: &str, label: &str, id: &str, active: &str)
    ensures
        final(v)@ == old(v)@ + nav_link_text(href@, label@, id@, active@),
{
    push_str(v, NAV_LINK_0);
    push_str(v, href);
    push_str(v, NAV_LINK_1);
    if str_eq(id, active) {
        push_str(v, "active");
    } else {
        assert(old(v)@ + NAV_LINK_0@ + href@ + NAV_LINK_1@ =~= old(v)@ + NAV_LINK_0@ + href@ + NAV_LINK_1@ + Seq::<char>::empty());
    }
    push_str(v, NAV_LINK_2);
    push_str(v, label);
    push_str(v, NAV_LINK_3);
    assert(final(v)@ =~= old(v)@ + nav_link_text(href@, label@, id@, active@));
}

/// Navigation component.
pub fn nav(active: &str) -> (r: String)
    ensures
        r@ == nav_text(active@),
{
    let mut v = chars_of(NAV_0);
    push_nav_link(&mut v, "/_admin", "Dashboard", "dashboard", active);
    push_str(&mut v, NAV_SEPARATOR);
    push_nav_link(&mut v, "/_admin/routes", "Routes", "routes", active);
    push_str(&mut v, NAV_SEPARATOR);
    push_nav_link(&mut v, "/_admin/settings", "Settings", "settings", active);
    push_str(&mut v, NAV_1);
    assert(v@ =~= nav_text(active@));
    to_string(&v)
}

/// The dashboard greeting `username`.
pub open spec fn dashboard_text(username: Seq<char>) -> Seq<char> {
    layout_text("Dashboard"@, DASHBOARD_0@ + nav_text("dashboard"@) + DASHBOARD_1@ + username + DASHBOARD_2@)
}

/// Dashboard page.
pub fn dashboard(username: &str) -> (r: String)
    ensures
        r@ == dashboard_text(username@),
{
    let n = nav("dashboard");
    let mut v = chars_of(DASHBOARD_0);
    push_str(&mut v, n.as_str());
    push_str(&mut v, DASHBOARD_1);
    push_str(&mut v, username);
    push_str(&mut v, DASHBOARD_2);
    let content = to_string(&v);
    layout("Dashboard", content.as_str())
}

/// The login page linking to `consent_url`.
pub open spec fn login_text(consent_url: Seq<char>) -> Seq<char> {
    layout_text("Login"@, LOGIN_0@ + consent_url + LOGIN_1@)
}

/// Login page.
pub fn login(consent_url: &str) -> (r: String)
    ensures
        r@ == login_text(consent_url@),
{
    let mut v = chars_of(LOGIN_0);
    push_str(&mut v, consent_url);
    push_str(&mut v, LOGIN_1);
    let content = to_string(&v);
    layout("Login", content.as_str())
}

/// The first-run setup page.
pub open spec fn setup_text() -> Seq<char> {
    layout_text("Setup"@, SETUP_0@)
}

/// Setup page.
pub fn setup() -> (r: String)
    ensures
        r@ == setup_text(),
{
    layout("Setup", SETUP_0)
}

/// The routes management page.
pub open spec fn routes_text() -> Seq<char> {
    layout_text("Routes"@, ROUTES_0@ + nav_text("routes"@) + ROUTES_1@)
}

/// Routes management page.
pub fn routes() -> (r: String)
    ensures
        r@ == routes_text(),
{
    let n = nav("routes");
    let mut v = chars_of(ROUTES_0);
    push_str(&mut v, n.as_str());
    push_str(&mut v, ROUTES_1);
    let content = to_string(&v);
    layout("Routes", content.as_str())
}

/// The error page for `status` with heading `title`.
pub open spec fn error_page_text(status: u16, title: Seq<char>) -> Seq<char> {
    let s = decimal(status as nat);
    ERROR_PAGE_0@ + s + ERROR_PAGE_1@ + title + ERROR_PAGE_2@ + s + ERROR_PAGE_3@ + title + ERROR_PAGE_4@
}

/// Error page.
pub fn error_page(status: u16, title: &str) -> (r: String)
    ensures
        r@ == error_page_text(status, title@),
{
    let s = decimal_chars(status as u64);
    let mut v = chars_of(ERROR_PAGE_0);
    push_all(&mut v, &s);
    push_str(&mut v, ERROR_PAGE_1);
    push_str(&mut v, title);
    push_str(&mut v, ERROR_PAGE_2);
    push_all(&mut v, &s);
    push_str(&mut v, ERROR_PAGE_3);
    push_str(&mut v, title);
    push_str(&mut v, ERROR_PAGE_4);
    to_string(&v)
}

/// The settings page.
pub open spec fn settings_text() -> Seq<char> {
    layout_text("Settings"@, SETTINGS_0@ + nav_text("settings"@) + SETTINGS_1@)
}

/// Settings page.
pub fn settings() -> (r: String)
    ensures
        r@ == settings_text(),
{
    let n = nav("settings");
    let mut v = chars_of(SETTINGS_0);
    push_str(&mut v, n.as_str());
    push_str(&mut v, SETTINGS_1);
    let content = to_string(&v);
    layout("Settings", content.as_str())
}

/// The page shown on a protected host to a visitor who must sign in: a
/// button opening `consent_url`, and a listener that accepts the result only
/// from `admin_origin`.
pub open spec fn login_required_text(consent_url: Seq<char>, admin_origin: Seq<char>) -> Seq<char> {
    LOGIN_REQUIRED_0@ + consent_url + LOGIN_REQUIRED_1@ + admin_origin + LOGIN_REQUIRED_2@
}

/// Login-required page with the sign-in popup button.
pub fn login_required(consent_url: &str, admin_origin: &str) -> (r: String)
    ensures
        r@ == login_required_text(consent_url@, admin_origin@),
{
    let mut v = chars_of(LOGIN_REQUIRED_0);
    push_str(&mut v, consent_url);
    push_str(&mut v, LOGIN_REQUIRED_1);
    push_str(&mut v, admin_origin);
    push_str(&mut v, LOGIN_REQUIRED_2);
    to_string(&v)
}

/// The page answering the identity service's callback: in a popup it posts
/// the result to the opener, otherwise it continues to the session endpoint
/// with the token.
pub open spec fn callback_text(user_id: Seq<char>, username: Seq<char>, token: Seq<char>) -> Seq<char> {
    CALLBACK_0@ + user_id + CALLBACK_1@ + username + CALLBACK_2@ + token + CALLBACK_3@ + "*"@
        + CALLBACK_4@ + token + CALLBACK_5@
}

/// Callback page for a completed sign-in.
pub fn callback_page(user_id: &str, username: &str, token: &str) -> (r: String)
    ensures
        r@ == callback_text(user_id@, username@, token@),
{
    let mut v = chars_of(CALLBACK_0);
    push_str(&mut v, user_id);
    push_str(&mut v, CALLBACK_1);
    push_str(&mut v, username);
    push_str(&mut v, CALLBACK_2);
    push_str(&mut v, token);
    push_str(&mut v, CALLBACK_3);
    push_str(&mut v, "*");
    push_str(&mut v, CALLBACK_4);
    push_str(&mut v, token);
    push_str(&mut v, CALLBACK_5);
    to_string(&v)
}

pub const LAYOUT_0: &'static str = r#"<!DOCTYPE html>
<html lang="en">
<head>
    <meta charset="UTF-8">
    <meta name="viewport" content="width=device-width, initial-scale=1.0">
    <title>"#;

pub const LAYOUT_1: &'static str = r#" - Gateway Admin</title>
    <link rel="stylesheet" href="/_static/css/main.css?v=5">
</head>
<body>
    "#;

pub const LAYOUT_2: &'static str = r#"
    <script src="/_static/js/main.js?v=4"></script>
</body>
</html>"#;

pub const NAV_LINK_0: &'static str = r#"<a href=""#;

pub const NAV_LINK_1: &'static str = r#"" class=""#;

pub const NAV_LINK_2: &'static str = r#"">"#;

pub const NAV_LINK_3: &'static str = r#"</a>"#;

pub const NAV_0: &'static str = r#"<nav class="sidebar">
        <div class="logo">
            <h1>Gateway</h1>
        </div>
        <div class="nav-links">
            "#;

pub const NAV_1: &'static str = r#"
        </div>
        <div class="nav-footer">
            <form action="/_admin/logout" method="POST">
                <button type="submit" class="btn-logout">Logout</button>
            </form>
        </div>
    </nav>"#;

pub const DASHBOARD_0: &'static str = r#"<div class="admin-layout">
        "#;

pub const DASHBOARD_1: &'static str = r#"
        <main class="content">
            <header class="page-header">
                <h2>Dashboard</h2>
                <span class="user-info">Welcome, "#;

pub const DASHBOARD_2: &'static str = r#"</span>
            </header>
            <div class="dashboard-cards">
                <div class="card">
                    <h3>Routes</h3>
                    <p class="card-value" id="route-count">-</p>
                    <a href="/_admin/routes" class="card-link">Manage Routes</a>
                </div>
                <div class="card">
                    <h3>Status</h3>
                    <p class="card-value status-ok">Running</p>
                </div>
            </div>
        </main>
    </div>
    <script>
        fetch('/_admin/api/routes')
            .then(r => r.json())
            .then(routes => {
                document.getElementById('route-count').textContent = routes.length;
            });
    </script>"#;

pub const LOGIN_0: &'static str = r#"<div class="login-container">
        <div class="login-card">
            <h1>Gateway Admin</h1>
            <p>Sign in with your Fabi-SC ID account to continue.</p>
            <a href=""#;

pub const LOGIN_1: &'static str = r#"" class="btn btn-primary">
                Sign in with Fabi-SC ID
            </a>
        </div>
    </div>"#;

pub const SETUP_0: &'static str = r#"<div class="setup-container">
        <div class="setup-card">
            <h1>Gateway Setup</h1>
            <p>Configure your Fabi-SC ID integration to get started.</p>
            <div class="setup-info">
                <p>Create an application at <a href="https://id.fabi-sc.com/docs/developers/register-app.html" target="_blank">id.fabi-sc.com</a>.</p>
                <p>Required scopes: <code>openid</code>, <code>username</code></p>
                <p>Callback URL: <code>https://&lt;your-admin-origin&gt;/_admin/callback</code></p>
            </div>
            <form action="/_admin/setup" method="POST" class="setup-form">
                <div class="form-group">
                    <label for="app_id">Application ID</label>
                    <input type="text" id="app_id" name="app_id" required>
                </div>
                <div class="form-group">
                    <label for="api_key">API Key</label>
                    <input type="password" id="api_key" name="api_key" required>
                </div>
                <div class="form-group">
                    <label for="admin_origin">Gateway URL</label>
                    <input type="url" id="admin_origin" name="admin_origin" placeholder="https://gateway.example.com" required>
                    <small>The public URL of this gateway (used for login popups)</small>
                </div>
                <div class="form-group">
                    <label for="admin_users">Admin Users</label>
                    <input type="text" id="admin_users" name="admin_users" required>
                    <small>Comma-separated Fabi-SC ID usernames</small>
                </div>
                <button type="submit" class="btn btn-primary">Save & Continue</button>
            </form>
        </div>
    </div>"#;

pub const ROUTES_0: &'static str = r#"<div class="admin-layout">
        "#;

pub const ROUTES_1: &'static str = r#"
        <main class="content">
            <header class="page-header">
                <h2>Routes</h2>
                <button class="btn btn-primary" onclick="showAddModal()">Add Route</button>
            </header>
            <div class="routes-list" id="routes-list">
                <p class="loading">Loading routes...</p>
            </div>
        </main>
    </div>

    <div id="route-modal" class="modal-backdrop hidden">
        <div class="modal">
            <div class="modal-header">
                <h3 class="modal-title" id="modal-title">Add Route</h3>
                <button type="button" class="modal-close" onclick="hideModal()">&times;</button>
            </div>
            <form id="route-form">
                <input type="hidden" id="route-id">
                <div class="modal-body">
                    <div class="form-group">
                        <label class="form-label" for="route-name">Name</label>
                        <input type="text" class="form-input" id="route-name" required>
                    </div>
                    <div class="form-group">
                        <label class="form-label" for="route-host">Host</label>
                        <input type="text" class="form-input" id="route-host" placeholder="app.example.com" required>
                    </div>
                    <div class="form-group">
                        <label class="form-label" for="route-upstream">Upstream URL</label>
                        <input type="url" class="form-input" id="route-upstream" placeholder="http://localhost:3000" required>
                    </div>
                    <div class="form-group">
                        <label class="checkbox-label">
                            <input type="checkbox" class="form-checkbox" id="route-auth">
                            <span class="checkbox-text">Require Authentication</span>
                        </label>
                    </div>
                    <div class="form-group" id="allowed-users-group" style="display: none;">
                        <label class="form-label" for="route-allowed-users">Allowed Users</label>
                        <input type="text" class="form-input" id="route-allowed-users" placeholder="user1, user2, user3">
                        <span class="form-hint">Comma-separated Fabi-SC ID usernames (leave empty for all authenticated users)</span>
                    </div>
                </div>
                <div class="modal-footer">
                    <button type="button" class="btn btn-secondary" onclick="hideModal()">Cancel</button>
                    <button type="submit" class="btn btn-primary">Save</button>
                </div>
            </form>
        </div>
    </div>"#;

pub const ERROR_PAGE_0: &'static str = r#"<!DOCTYPE html>
<html lang="en">
<head>
    <meta charset="UTF-8">
    <meta name="viewport" content="width=device-width, initial-scale=1.0">
    <title>"#;

pub const ERROR_PAGE_1: &'static str = r#" - "#;

pub const ERROR_PAGE_2: &'static str = r#"</title>
    <style>
        * { margin: 0; padding: 0; box-sizing: border-box; }
        body {
            font-family: system-ui, -apple-system, BlinkMacSystemFont, 'Segoe UI', Roboto, sans-serif;
            background: #f5f7fa;
            min-height: 100vh;
            display: flex;
            align-items: center;
            justify-content: center;
        }
        .error-container {
            text-align: center;
            padding: 2rem;
        }
        .error-code {
            font-size: 6rem;
            font-weight: 700;
            color: #1a365d;
            line-height: 1;
        }
        .error-title {
            font-size: 1.5rem;
            color: #333;
            margin: 1rem 0;
        }
    </style>
</head>
<body>
    <div class="error-container">
        <div class="error-code">"#;

pub const ERROR_PAGE_3: &'static str = r#"</div>
        <h1 class="error-title">"#;

pub const ERROR_PAGE_4: &'static str = r#"</h1>
    </div>
</body>
</html>"#;

pub const SETTINGS_0: &'static str = r#"<div class="admin-layout">
        "#;

pub const SETTINGS_1: &'static str = r#"
        <main class="content">
            <header class="page-header">
                <h2>Settings</h2>
            </header>
            <div class="settings-section">
                <h3>Fabi-SC ID Configuration</h3>
                <form id="id-config-form" class="settings-form">
                    <div class="form-group">
                        <label class="form-label" for="server-url">Server URL</label>
                        <input type="url" class="form-input" id="server-url" required>
                    </div>
                    <div class="form-group">
                        <label class="form-label" for="app-id">Application ID</label>
                        <input type="text" class="form-input" id="app-id" required>
                    </div>
                    <div class="form-group">
                        <label class="form-label" for="api-key">API Key</label>
                        <input type="password" class="form-input" id="api-key" placeholder="(unchanged)">
                        <span class="form-hint">Leave empty to keep current key</span>
                    </div>
                    <div class="form-group">
                        <label class="form-label" for="admin-origin">Gateway URL</label>
                        <input type="url" class="form-input" id="admin-origin" placeholder="https://gateway.example.com" required>
                        <span class="form-hint">The public URL of this gateway (used for login popups)</span>
                    </div>
                    <button type="submit" class="btn btn-primary">Save Changes</button>
                </form>
            </div>
            <div class="settings-section">
                <h3>Actions</h3>
                <button class="btn" onclick="reloadRoutes()">Reload Routes</button>
            </div>
        </main>
    </div>"#;

pub const LOGIN_REQUIRED_0: &'static str = r#"<!DOCTYPE html>
<html lang="en">
<head>
    <meta charset="UTF-8">
    <meta name="viewport" content="width=device-width, initial-scale=1.0">
    <title>Login Required</title>
    <style>
        * { margin: 0; padding: 0; box-sizing: border-box; }
        body {
            font-family: system-ui, -apple-system, BlinkMacSystemFont, 'Segoe UI', Roboto, sans-serif;
            background: #f5f7fa;
            min-height: 100vh;
            display: flex;
            align-items: center;
            justify-content: center;
        }
        .login-container {
            text-align: center;
            padding: 2rem;
            background: white;
            border-radius: 8px;
            box-shadow: 0 2px 10px rgba(0,0,0,0.1);
            max-width: 400px;
        }
        h1 {
            color: #1a365d;
            margin-bottom: 1rem;
        }
        p {
            color: #666;
            margin-bottom: 1.5rem;
        }
        .btn {
            display: inline-block;
            padding: 0.75rem 1.5rem;
            background: #3182ce;
            color: white;
            border: none;
            border-radius: 4px;
            font-size: 1rem;
            cursor: pointer;
            text-decoration: none;
        }
        .btn:hover {
            background: #2c5282;
        }
    </style>
</head>
<body>
    <div class="login-container">
        <h1>Login Required</h1>
        <p>You need to sign in to access this resource.</p>
        <button class="btn" onclick="openLoginPopup()">Sign in with Fabi-SC ID</button>
    </div>
    <script>
        function openLoginPopup() {
            const popup = window.open('"#;

pub const LOGIN_REQUIRED_1: &'static str = r#"', 'login', 'width=500,height=600');
            window.addEventListener('message', function handler(event) {
                if (event.origin !== '"#;

pub const LOGIN_REQUIRED_2: &'static str = r#"') return;
                if (event.data && event.data.type === 'login_success') {
                    window.removeEventListener('message', handler);
                    // Hand the token to the gateway, which validates it and sets an
                    // HttpOnly cookie. The token is never stored by script.
                    fetch('/_gateway/session', {
                        method: 'POST',
                        headers: { 'Content-Type': 'application/json' },
                        credentials: 'same-origin',
                        body: JSON.stringify({ token: event.data.token })
                    }).then(function (res) {
                        if (res.ok) {
                            window.location.reload();
                        } else {
                            alert('Login failed: could not establish session.');
                        }
                    }).catch(function () {
                        alert('Login failed: could not reach the gateway.');
                    });
                } else if (event.data && event.data.type === 'login_error') {
                    alert('Login failed: ' + event.data.error);
                    window.removeEventListener('message', handler);
                }
            });
        }
    </script>
</body>
</html>"#;

pub const CALLBACK_0: &'static str = r#"<!DOCTYPE html>
<html>
<head><title>Login</title></head>
<body>
<script>
if (window.opener) {
    // Popup mode: send token to opener and close
    window.opener.postMessage({
        type: 'login_success',
        user_id: '"#;

pub const CALLBACK_1: &'static str = r#"',
        username: '"#;

pub const CALLBACK_2: &'static str = r#"',
        token: '"#;

pub const CALLBACK_3: &'static str = r#"'
    }, '"#;

pub const CALLBACK_4: &'static str = r#"');
    window.close();
} else {
    // Normal mode: redirect to create session
    window.location.href = '/_admin/callback-session?token="#;

pub const CALLBACK_5: &'static str = r#"';
}
</script>
<noscript>JavaScript is required.</noscript>
</body>
</html>"#;

} // verus!
