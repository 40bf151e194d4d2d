//! Access decisions: who is let through to a protected route, who is given
//! a proxy session, and which admin pages and API calls are served.
//!
//! The calls to the database and to the identity service are made by the
//! caller; each function here decides on their results.

use vstd::prelude::*;

use crate::auth::{authorized_username, usable_username, UserInfo};
use crate::config::{whitelist_admits, Route, RouteView};
use crate::error::GatewayError;
use crate::templates::{callback_page, callback_text};
use crate::text::{bool_chars, bool_text, chars_of, push_all, push_str, to_string};

verus! {

// ---------------------------------------------------------------------------
// Protected routes
// ---------------------------------------------------------------------------

/// What the identity service said about the visitor's token cookie.
pub enum TokenCheck {
    /// No token cookie was sent.
    Missing,
    /// The service did not accept the token.
    Rejected,
    /// The service returned the token's user.
    Accepted(UserInfo),
}

/// The answer to a request for a route.
pub enum ProxyAccess {
    /// The request is forwarded.
    Granted,
    /// The sign-in page is shown; a stale token cookie is cleared with it.
    LoginRequired { clear_stale_cookie: bool },
    /// The user is not on the route's whitelist.
    Denied { username: String },
}

/// The model of [`ProxyAccess`].
pub enum AccessVerdict {
    Granted,
    LoginRequired(bool),
    Denied(Seq<char>),
}

impl View for ProxyAccess {
    type V = AccessVerdict;

    open spec fn view(&self) -> AccessVerdict {
        match self {
            ProxyAccess::Granted => AccessVerdict::Granted,
            ProxyAccess::LoginRequired { clear_stale_cookie } => AccessVerdict::LoginRequired(*clear_stale_cookie),
            ProxyAccess::Denied { username } => AccessVerdict::Denied(username@),
        }
    }
}

/// The access rule. A route that does not require authentication is open.
/// Otherwise: no token shows the sign-in page; a rejected token, or a user
/// without a usable username, shows it and clears the cookie; a user off the
/// whitelist is denied; a whitelisted user is let through.
pub open spec fn access_verdict(route: RouteView, check: TokenCheck) -> AccessVerdict {
    if !route.requires_auth {
        AccessVerdict::Granted
    } else {
        match check {
            TokenCheck::Missing => AccessVerdict::LoginRequired(false),
            TokenCheck::Rejected => AccessVerdict::LoginRequired(true),
            TokenCheck::Accepted(u) => match usable_username(u) {
                None => AccessVerdict::LoginRequired(true),
                Some(n) => if whitelist_admits(route.allowed_users, n) {
                    AccessVerdict::Granted
                } else {
                    AccessVerdict::Denied(n)
                },
            },
        }
    }
}

/// Decides a request for `route` given the result of the token check.
pub fn proxy_access(route: &Route, check: &TokenCheck) -> (r: ProxyAccess)
    ensures
        r@ == access_verdict(route@, *check),
{
    if !route.requires_auth {
        return ProxyAccess::Granted;
    }
    match check {
        TokenCheck::Missing => ProxyAccess::LoginRequired { clear_stale_cookie: false },
        TokenCheck::Rejected => ProxyAccess::LoginRequired { clear_stale_cookie: true },
        TokenCheck::Accepted(u) => match authorized_username(u) {
            None => ProxyAccess::LoginRequired { clear_stale_cookie: true },
            Some(n) => {
                if route.allows_user(n.as_str()) {
                    ProxyAccess::Granted
                } else {
                    ProxyAccess::Denied { username: n }
                }
            },
        },
    }
}

/// A protected route is only ever forwarded for a user the identity service
/// vouched for, whose username is not blank and is admitted by the route's
/// whitelist.
pub proof fn granted_access_is_authorized(route: RouteView, check: TokenCheck)
    requires
        route.requires_auth,
        access_verdict(route, check) == AccessVerdict::Granted,
    ensures
        check is Accepted,
        usable_username(check->Accepted_0) is Some,
        whitelist_admits(route.allowed_users, usable_username(check->Accepted_0)->Some_0),
{
}

/// A route that does not require authentication is forwarded whatever the
/// token check says.
pub proof fn open_route_always_granted(route: RouteView, check: TokenCheck)
    requires
        !route.requires_auth,
    ensures
        access_verdict(route, check) == AccessVerdict::Granted,
{
}

/// With an empty whitelist every user with a usable username is let through
/// a protected route: the whitelist narrows access, it never blocks alone.
pub proof fn empty_whitelist_admits_every_user(route: RouteView, user: UserInfo)
    requires
        route.allowed_users.len() == 0,
        usable_username(user) is Some,
    ensures
        access_verdict(route, TokenCheck::Accepted(user)) == AccessVerdict::Granted,
{
}

/// The answer to a request for a host no route serves: the setup page while
/// the gateway is unconfigured, otherwise "route not found".
pub fn route_miss(is_configured: bool, host: &str) -> (r: Result<&'static str, GatewayError>)
    ensures
        !is_configured ==> (r matches Ok(loc) && loc@ == "/_admin/setup"@),
        is_configured ==> (r matches Err(GatewayError::RouteNotFound(h)) && h@ == host@),
{
    if !is_configured {
        Ok("/_admin/setup")
    } else {
        let h = chars_of(host);
        Err(GatewayError::RouteNotFound(to_string(&h)))
    }
}

// ---------------------------------------------------------------------------
// Proxy sessions
// ---------------------------------------------------------------------------

/// A request to turn a token from the sign-in popup into a session cookie.
pub struct SessionRequest {
    pub token: String,
}

/// The answer to a request to turn a sign-in token into a session cookie.
pub enum ProxySessionOutcome {
    /// 401: the token was rejected (`invalid_token`, recorded in the audit
    /// log) or carries no usable username.
    Unauthorized { invalid_token: bool },
    /// 403: the user is not on the route's whitelist.
    Forbidden { username: String },
    /// 204 with the token cookie.
    Created { username: String },
}

/// The model of [`ProxySessionOutcome`].
pub enum SessionVerdict {
    Unauthorized(bool),
    Forbidden(Seq<char>),
    Created(Seq<char>),
}

impl View for ProxySessionOutcome {
    type V = SessionVerdict;

    open spec fn view(&self) -> SessionVerdict {
        match self {
            ProxySessionOutcome::Unauthorized { invalid_token } => SessionVerdict::Unauthorized(*invalid_token),
            ProxySessionOutcome::Forbidden { username } => SessionVerdict::Forbidden(username@),
            ProxySessionOutcome::Created { username } => SessionVerdict::Created(username@),
        }
    }
}

/// The session rule: a rejected token or a missing username is
/// unauthorized, a user off the whitelist forbidden, any other user gets the
/// cookie.
pub open spec fn session_verdict(route: RouteView, user: Option<UserInfo>) -> SessionVerdict {
    match user {
        None => SessionVerdict::Unauthorized(true),
        Some(u) => match usable_username(u) {
            None => SessionVerdict::Unauthorized(false),
            Some(n) => if whitelist_admits(route.allowed_users, n) {
                SessionVerdict::Created(n)
            } else {
                SessionVerdict::Forbidden(n)
            },
        },
    }
}

/// Decides a proxy-session request for `route`; `user` is the token's user,
/// `None` when the identity service rejected the token.
pub fn proxy_session_outcome(route: &Route, user: Option<&UserInfo>) -> (r: ProxySessionOutcome)
    ensures
        r@ == session_verdict(
            route@,
            match user {
                Some(u) => Some(*u),
                None => None,
            },
        ),
{
    match user {
        None => ProxySessionOutcome::Unauthorized { invalid_token: true },
        Some(u) => match authorized_username(u) {
            None => ProxySessionOutcome::Unauthorized { invalid_token: false },
            Some(n) => {
                if route.allows_user(n.as_str()) {
                    ProxySessionOutcome::Created { username: n }
                } else {
                    ProxySessionOutcome::Forbidden { username: n }
                }
            },
        },
    }
}

/// A proxy session cookie is only issued to a vouched-for user with a usable
/// username that the route's whitelist admits.
pub proof fn session_created_only_for_admitted_users(route: RouteView, user: Option<UserInfo>, name: Seq<char>)
    requires
        session_verdict(route, user) == SessionVerdict::Created(name),
    ensures
        user is Some,
        usable_username(user->Some_0) == Some(name),
        whitelist_admits(route.allowed_users, name),
{
}

// ---------------------------------------------------------------------------
// Admin pages and API
// ---------------------------------------------------------------------------

/// Where an admin page redirects.
pub enum RedirectTarget {
    Setup,
    Login,
    Admin,
}

/// The location of a redirect target.
pub open spec fn redirect_location(t: RedirectTarget) -> Seq<char> {
    match t {
        RedirectTarget::Setup => "/_admin/setup"@,
        RedirectTarget::Login => "/_admin/login"@,
        RedirectTarget::Admin => "/_admin"@,
    }
}

impl RedirectTarget {
    /// The `Location` of the redirect.
    pub fn location(&self) -> (r: &'static str)
        ensures
            r@ == redirect_location(*self),
    {
        match self {
            RedirectTarget::Setup => "/_admin/setup",
            RedirectTarget::Login => "/_admin/login",
            RedirectTarget::Admin => "/_admin",
        }
    }
}

/// The answer to a request for an admin page, before the page is built.
pub enum PageGate {
    /// 404: the admin interface is not served on this host.
    NotFound,
    /// 302 to the target.
    Redirect(RedirectTarget),
    /// The page is served.
    Show,
}

/// The dashboard: only on the admin host; the setup page while the gateway
/// is unconfigured; the login page without a session.
pub fn dashboard_gate(on_admin_host: bool, configured: bool, has_session: bool) -> (r: PageGate)
    ensures
        !on_admin_host ==> r is NotFound,
        on_admin_host && !configured ==> r == PageGate::Redirect(RedirectTarget::Setup),
        on_admin_host && configured && !has_session ==> r == PageGate::Redirect(RedirectTarget::Login),
        on_admin_host && configured && has_session ==> r is Show,
{
    if !on_admin_host {
        PageGate::NotFound
    } else if !configured {
        PageGate::Redirect(RedirectTarget::Setup)
    } else if !has_session {
        PageGate::Redirect(RedirectTarget::Login)
    } else {
        PageGate::Show
    }
}

/// The login page: only on the admin host; the setup page while the gateway
/// is unconfigured.
pub fn login_gate(on_admin_host: bool, configured: bool) -> (r: PageGate)
    ensures
        !on_admin_host ==> r is NotFound,
        on_admin_host && !configured ==> r == PageGate::Redirect(RedirectTarget::Setup),
        on_admin_host && configured ==> r is Show,
{
    if !on_admin_host {
        PageGate::NotFound
    } else if !configured {
        PageGate::Redirect(RedirectTarget::Setup)
    } else {
        PageGate::Show
    }
}

/// First-run setup: served on any host, without authentication, while the
/// gateway is unconfigured, and never afterwards: a configured gateway sends
/// the admin host to the dashboard and answers 404 elsewhere. This gate
/// applies to showing the form and to submitting it.
pub fn setup_gate(configured: bool, on_admin_host: bool) -> (r: PageGate)
    ensures
        !configured ==> r is Show,
        configured && on_admin_host ==> r == PageGate::Redirect(RedirectTarget::Admin),
        configured && !on_admin_host ==> r is NotFound,
{
    if !configured {
        PageGate::Show
    } else if on_admin_host {
        PageGate::Redirect(RedirectTarget::Admin)
    } else {
        PageGate::NotFound
    }
}

/// The routes and settings pages: only on the admin host, only with a
/// session.
pub fn session_page_gate(on_admin_host: bool, has_session: bool) -> (r: PageGate)
    ensures
        !on_admin_host ==> r is NotFound,
        on_admin_host && !has_session ==> r == PageGate::Redirect(RedirectTarget::Login),
        on_admin_host && has_session ==> r is Show,
{
    if !on_admin_host {
        PageGate::NotFound
    } else if !has_session {
        PageGate::Redirect(RedirectTarget::Login)
    } else {
        PageGate::Show
    }
}

/// Why an admin API call is refused.
pub enum ApiRejection {
    /// 404: not the admin host.
    NotFound,
    /// 401: no valid admin session.
    Unauthorized,
}

/// The admin API is served only on the admin host and only with a session;
/// the host is checked first, so other hosts learn nothing of the API.
pub fn api_guard(on_admin_host: bool, authenticated: bool) -> (r: Option<ApiRejection>)
    ensures
        !on_admin_host ==> r == Some(ApiRejection::NotFound),
        on_admin_host && !authenticated ==> r == Some(ApiRejection::Unauthorized),
        on_admin_host && authenticated ==> r is None,
{
    if !on_admin_host {
        Some(ApiRejection::NotFound)
    } else if !authenticated {
        Some(ApiRejection::Unauthorized)
    } else {
        None
    }
}

// ---------------------------------------------------------------------------
// Admin sign-in
// ---------------------------------------------------------------------------

/// An error page answer: status and title.
pub struct ErrorReply {
    pub status: u16,
    pub message: &'static str,
}

/// The callback page for a completed sign-in, or the error for a token whose
/// user could not be fetched (400) or carries no username (400, missing
/// scope).
pub fn callback_reply(user: Option<&UserInfo>, token: &str) -> (r: Result<String, ErrorReply>)
    ensures
        user is None ==> (r matches Err(e) && e.status == 400 && e.message@ == "Bad Request"@),
        user is Some && user->Some_0.username is None ==> (r matches Err(e) && e.status == 400
            && e.message@ == "Missing username scope"@),
        user is Some && user->Some_0.username is Some ==> (r matches Ok(page) && page@ == callback_text(
            user->Some_0.id@,
            user->Some_0.username->Some_0@,
            token@,
        )),
{
    match user {
        None => Err(ErrorReply { status: 400, message: "Bad Request" }),
        Some(u) => match &u.username {
            None => Err(ErrorReply { status: 400, message: "Missing username scope" }),
            Some(n) => Ok(callback_page(u.id.as_str(), n.as_str(), token)),
        },
    }
}

/// The username an admin session is requested for, or the error for a token
/// the identity service rejected (400) or without username (400).
pub fn admin_login_username(user: Option<&UserInfo>) -> (r: Result<&String, ErrorReply>)
    ensures
        user is None ==> (r matches Err(e) && e.status == 400 && e.message@ == "Invalid token"@),
        user is Some && user->Some_0.username is None ==> (r matches Err(e) && e.status == 400
            && e.message@ == "Missing username"@),
        user is Some && user->Some_0.username is Some ==> (r matches Ok(n) && *n == user->Some_0.username->Some_0),
{
    match user {
        None => Err(ErrorReply { status: 400, message: "Invalid token" }),
        Some(u) => match &u.username {
            None => Err(ErrorReply { status: 400, message: "Missing username" }),
            Some(n) => Ok(n),
        },
    }
}

/// An admin session is only created for a user the admin list holds;
/// anyone else is answered 403.
pub fn admin_login_permitted(is_admin: bool) -> (r: Result<(), ErrorReply>)
    ensures
        is_admin ==> r is Ok,
        !is_admin ==> (r matches Err(e) && e.status == 403 && e.message@ == "Forbidden"@),
{
    if is_admin {
        Ok(())
    } else {
        Err(ErrorReply { status: 403, message: "Forbidden" })
    }
}

// ---------------------------------------------------------------------------
// Audit records
// ---------------------------------------------------------------------------

/// Details of a denied proxy access.
pub fn access_denied_details(host: &str, path: &str) -> (r: String)
    ensures
        r@ == "host="@ + host@ + " path="@ + path@,
{
    let mut v = chars_of("host=");
    push_str(&mut v, host);
    push_str(&mut v, " path=");
    push_str(&mut v, path);
    to_string(&v)
}

/// Details of a rejected proxy-session request.
pub fn session_rejected_details(host: &str, invalid_token: bool) -> (r: String)
    ensures
        r@ == "host="@ + host@ + (if invalid_token {
            " reason=invalid_token"@
        } else {
            " reason=not_allowed"@
        }),
{
    let mut v = chars_of("host=");
    push_str(&mut v, host);
    if invalid_token {
        push_str(&mut v, " reason=invalid_token");
    } else {
        push_str(&mut v, " reason=not_allowed");
    }
    to_string(&v)
}

/// Details of a created proxy session.
pub fn session_created_details(host: &str) -> (r: String)
    ensures
        r@ == "host="@ + host@,
{
    let mut v = chars_of("host=");
    push_str(&mut v, host);
    to_string(&v)
}

/// Details of a created route.
pub fn route_created_details(route: &Route) -> (r: String)
    ensures
        r@ == "host="@ + route.host@ + " upstream="@ + route.upstream_url@ + " requires_auth="@ + bool_text(
            route.requires_auth,
        ),
{
    let mut v = chars_of("host=");
    push_str(&mut v, route.host.as_str());
    push_str(&mut v, " upstream=");
    push_str(&mut v, route.upstream_url.as_str());
    push_str(&mut v, " requires_auth=");
    let b = bool_chars(route.requires_auth);
    push_all(&mut v, &b);
    to_string(&v)
}

/// Details of an updated route.
pub fn route_updated_details(route: &Route) -> (r: String)
    ensures
        r@ == "host="@ + route.host@ + " upstream="@ + route.upstream_url@ + " requires_auth="@ + bool_text(
            route.requires_auth,
        ) + " enabled="@ + bool_text(route.enabled),
{
    let mut v = chars_of("host=");
    push_str(&mut v, route.host.as_str());
    push_str(&mut v, " upstream=");
    push_str(&mut v, route.upstream_url.as_str());
    push_str(&mut v, " requires_auth=");
    let b = bool_chars(route.requires_auth);
    push_all(&mut v, &b);
    push_str(&mut v, " enabled=");
    let e = bool_chars(route.enabled);
    push_all(&mut v, &e);
    to_string(&v)
}

} // verus!
