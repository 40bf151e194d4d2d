//! Host-based routing and the header handling of the reverse proxy.

use vstd::prelude::*;

use crate::config::{Route, RouteView};
use crate::error::GatewayError;
use crate::text::{
    lemma_ascii_lower_idempotent, lemma_before_char, lemma_lower_before_colon, lemma_lower_keeps_absence,
    lemma_before_absent_char, lemma_lower_keeps_trimmed, lemma_no_scheme_separator, lemma_trim_bounds,
    lemma_trim_keeps_absence,
    after_last, after_last_char, ascii_lower, before_char, before_first, chars_eq, chars_eq_ignore_ascii_case,
    chars_eq_str, chars_of, opt_text, copy_range, eq_ignore_ascii_case, find, find_from, push_str, str_eq, strip_trailing,
    strip_trailing_chars, to_ascii_lower, to_string, trim, trim_chars,
};

verus! {

// ---------------------------------------------------------------------------
// Request headers
// ---------------------------------------------------------------------------

/// One header of an incoming request or of an upstream response. `value` is
/// `None` when the raw value is not visible ASCII text.
pub struct Header {
    pub name: String,
    pub value: Option<String>,
}

/// A header as it is sent on: name and text value.
pub struct HeaderPair {
    pub name: String,
    pub value: String,
}

/// The text of a header's value, if it has one.
pub open spec fn header_text(h: Header) -> Option<Seq<char>> {
    match h.value {
        Some(v) => Some(v@),
        None => None,
    }
}

/// The names and values of a list of header pairs.
pub open spec fn pairs_view(ps: Seq<HeaderPair>) -> Seq<(Seq<char>, Seq<char>)> {
    Seq::new(ps.len(), |i: int| (ps[i].name@, ps[i].value@))
}

/// The position of the first header at or after `i` whose name is `name` up
/// to ASCII case, or the number of headers.
pub open spec fn header_index_from(hs: Seq<Header>, name: Seq<char>, i: int) -> int
    decreases hs.len() - i,
{
    if i < 0 || i >= hs.len() {
        hs.len() as int
    } else if ascii_lower(hs[i].name@) == name {
        i
    } else {
        header_index_from(hs, name, i + 1)
    }
}

/// The value of the first header named `name` (given in lower case), as
/// `HeaderMap::get` followed by `to_str` yields it: `None` when there is no
/// such header or its value is not text.
pub open spec fn header_value(hs: Seq<Header>, name: Seq<char>) -> Option<Seq<char>> {
    let k = header_index_from(hs, name, 0);
    if k < hs.len() {
        header_text(hs[k])
    } else {
        None
    }
}

/// The position of the first header named `name` (up to ASCII case).
fn header_index(headers: &[Header], name: &[char]) -> (r: usize)
    ensures
        r == header_index_from(headers@, name@, 0),
        r <= headers@.len(),
{
    let mut i: usize = 0;
    while i < headers.len()
        invariant
            i <= headers@.len(),
            header_index_from(headers@, name@, 0) == header_index_from(headers@, name@, i as int),
        decreases headers.len() - i,
    {
        let n = chars_of(headers[i].name.as_str());
        let l = to_ascii_lower(&n);
        if chars_eq(&l, name) {
            return i;
        }
        i += 1;
    }
    i
}

/// The text value of the first header named `name` (given in lower case).
pub fn lookup_header(headers: &[Header], name: &str) -> (r: Option<Vec<char>>)
    ensures
        match r {
            Some(v) => header_value(headers@, name@) == Some(v@),
            None => header_value(headers@, name@) is None,
        },
{
    let nc = chars_of(name);
    let k = header_index(headers, &nc);
    if k < headers.len() {
        match &headers[k].value {
            Some(v) => Some(chars_of(v.as_str())),
            None => None,
        }
    } else {
        None
    }
}

/// The host a request was addressed to, from its `Host` header: the text
/// before the first `:`, trimmed and lower-cased; empty without a header.
pub open spec fn request_host_of(hs: Seq<Header>) -> Seq<char> {
    let raw = match header_value(hs, "host"@) {
        Some(v) => v,
        None => Seq::<char>::empty(),
    };
    ascii_lower(trim(before_char(raw, ':')))
}

/// Resolve the host a request was addressed to, from the real `Host` header.
///
/// Forwarding headers (`Forwarded`, `X-Forwarded-Host`) are never consulted:
/// a client could set them to impersonate any configured host.
pub fn request_host(headers: &[Header]) -> (r: String)
    ensures
        r@ == request_host_of(headers@),
{
    let raw = match lookup_header(headers, "host") {
        Some(v) => v,
        None => Vec::new(),
    };
    let b = before_first(&raw, ':');
    let t = trim_chars(&b);
    let l = to_ascii_lower(&t);
    to_string(&l)
}

/// The client address for audit logs: the last entry of `X-Forwarded-For`
/// (the one the front proxy appended), trimmed; else the peer address; else
/// `unknown`.
pub open spec fn client_ip_of(hs: Seq<Header>, peer: Option<Seq<char>>) -> Seq<char> {
    let forwarded = match header_value(hs, "x-forwarded-for"@) {
        Some(v) => trim(after_last_char(v, ',')),
        None => Seq::<char>::empty(),
    };
    if forwarded.len() > 0 {
        forwarded
    } else {
        match peer {
            Some(p) => p,
            None => "unknown"@,
        }
    }
}

/// Best-effort client IP for audit logging.
pub fn client_ip(headers: &[Header], peer: Option<&str>) -> (r: String)
    ensures
        r@ == client_ip_of(
            headers@,
            match peer {
                Some(p) => Some(p@),
                None => None,
            },
        ),
{
    let forwarded = match lookup_header(headers, "x-forwarded-for") {
        Some(v) => {
            let last = after_last(&v, ',');
            trim_chars(&last)
        },
        None => Vec::new(),
    };
    if forwarded.len() > 0 {
        to_string(&forwarded)
    } else {
        match peer {
            Some(p) => {
                let pc = chars_of(p);
                to_string(&pc)
            },
            None => {
                let u = chars_of("unknown");
                to_string(&u)
            },
        }
    }
}

/// Whether the request asks for a WebSocket upgrade.
pub open spec fn is_websocket_upgrade_of(hs: Seq<Header>) -> bool {
    match header_value(hs, "upgrade"@) {
        Some(v) => eq_ignore_ascii_case(v, "websocket"@),
        None => false,
    }
}

/// Check if a request is a WebSocket upgrade request.
pub fn is_websocket_upgrade(headers: &[Header]) -> (r: bool)
    ensures
        r == is_websocket_upgrade_of(headers@),
{
    match lookup_header(headers, "upgrade") {
        Some(v) => {
            let w = chars_of("websocket");
            chars_eq_ignore_ascii_case(&v, &w)
        },
        None => false,
    }
}

// ---------------------------------------------------------------------------
// Origins and routes
// ---------------------------------------------------------------------------

/// The text after the first `://`, or all of `s`.
pub open spec fn after_scheme(s: Seq<char>) -> Seq<char> {
    match find_from(s, "://"@, 0) {
        Some(i) => s.subrange(i + "://"@.len(), s.len() as int),
        None => s,
    }
}

/// The bare host of an origin or URL before lower-casing: no scheme, path or
/// port, trimmed.
pub open spec fn origin_host_raw(origin: Seq<char>) -> Seq<char> {
    trim(before_char(before_char(after_scheme(trim(origin)), '/'), ':'))
}

/// The lower-cased bare host of an origin, if it is not empty.
pub open spec fn host_of_origin(origin: Seq<char>) -> Option<Seq<char>> {
    if origin_host_raw(origin).len() > 0 {
        Some(ascii_lower(origin_host_raw(origin)))
    } else {
        None
    }
}

/// Extract the bare hostname from an origin or URL (no scheme, port, or path).
pub fn host_from_origin(origin: &str) -> (r: Option<String>)
    ensures
        match r {
            Some(h) => host_of_origin(origin@) == Some(h@),
            None => host_of_origin(origin@) is None,
        },
{
    let o = chars_of(origin);
    let t = trim_chars(&o);
    let sep = chars_of("://");
    let tl = t.len();
    let sl = sep.len();
    let found = find(&t, &sep);
    let rest = match found {
        Some(i) => {
            assert(find_from(t@, sep@, 0) == Some(i as int));
            assert(i + sl <= tl);
            copy_range(&t, i + sl, tl)
        },
        None => {
            assert(find_from(t@, sep@, 0) is None);
            assert(t@.subrange(0, tl as int) =~= t@);
            copy_range(&t, 0, tl)
        },
    };
    assert(rest@ == after_scheme(trim(origin@)));
    let before_path = before_first(&rest, '/');
    let before_port = before_first(&before_path, ':');
    let host = trim_chars(&before_port);
    if host.len() > 0 {
        let l = to_ascii_lower(&host);
        Some(to_string(&l))
    } else {
        None
    }
}

/// The position of the first enabled route at or after `i` whose host is `h`,
/// or the number of routes.
pub open spec fn route_index_from(rs: Seq<Route>, h: Seq<char>, i: int) -> int
    decreases rs.len() - i,
{
    if i < 0 || i >= rs.len() {
        rs.len() as int
    } else if rs[i].enabled && rs[i].host@ == h {
        i
    } else {
        route_index_from(rs, h, i + 1)
    }
}

/// The position of the route serving `host`: the first enabled route whose
/// host equals the text of `host` before any `:`.
pub open spec fn route_for_host(rs: Seq<Route>, host: Seq<char>) -> int {
    route_index_from(rs, before_char(host, ':'), 0)
}

/// Find a matching route for the given host.
pub fn find_route<'a>(routes: &'a [Route], host: &str) -> (r: Option<&'a Route>)
    ensures
        r is Some <==> route_for_host(routes@, host@) < routes@.len(),
        r matches Some(x) ==> *x == routes@[route_for_host(routes@, host@)],
{
    let hc = chars_of(host);
    let h = before_first(&hc, ':');
    let mut i: usize = 0;
    while i < routes.len()
        invariant
            i <= routes@.len(),
            route_for_host(routes@, host@) == route_index_from(routes@, h@, i as int),
        decreases routes.len() - i,
    {
        if routes[i].enabled && chars_eq_str(&h, routes[i].host.as_str()) {
            return Some(&routes[i]);
        }
        i += 1;
    }
    None
}

/// The upstream URL: the route's upstream without trailing slashes, then the
/// path, then `?` and the query if there is one.
pub open spec fn upstream_url_text(base: Seq<char>, path: Seq<char>, query: Option<Seq<char>>) -> Seq<char> {
    strip_trailing(base, '/') + path + match query {
        Some(q) => seq!['?'] + q,
        None => Seq::<char>::empty(),
    }
}

/// Build the upstream URL for a request.
pub fn build_upstream_url(route: &Route, path: &str, query: Option<&str>) -> (r: String)
    ensures
        r@ == upstream_url_text(
            route.upstream_url@,
            path@,
            match query {
                Some(q) => Some(q@),
                None => None,
            },
        ),
{
    let base = chars_of(route.upstream_url.as_str());
    let mut v = strip_trailing_chars(&base, '/');
    push_str(&mut v, path);
    match query {
        Some(q) => {
            let ghost before = v@;
            v.push('?');
            push_str(&mut v, q);
            assert(v@ =~= before + (seq!['?'] + q@));
        },
        None => {
            assert(v@ =~= v@ + Seq::<char>::empty());
        },
    }
    to_string(&v)
}

// ---------------------------------------------------------------------------
// Routing state
// ---------------------------------------------------------------------------

/// The admin host: from the explicit setting when it names a host, else from
/// the configured admin origin.
pub open spec fn admin_host_of(setting: Option<Seq<char>>, origin: Seq<char>) -> Option<Seq<char>> {
    match setting {
        Some(s) => match host_of_origin(s) {
            Some(h) => Some(h),
            None => host_of_origin(origin),
        },
        None => host_of_origin(origin),
    }
}

/// Resolve the admin host from the explicit setting, falling back to the host
/// of the configured admin origin.
pub fn resolve_admin_host(setting: Option<&str>, admin_origin: &str) -> (r: Option<String>)
    ensures
        opt_text(r) == admin_host_of(
            match setting {
                Some(s) => Some(s@),
                None => None,
            },
            admin_origin@,
        ),
{
    match setting {
        Some(s) => match host_from_origin(s) {
            Some(h) => Some(h),
            None => host_from_origin(admin_origin),
        },
        None => host_from_origin(admin_origin),
    }
}

/// Whether `host` (with any port) is the admin host, ignoring ASCII case.
/// Without an admin host no host is.
pub open spec fn admin_host_matches(admin_host: Option<Seq<char>>, host: Seq<char>) -> bool {
    match admin_host {
        Some(a) => eq_ignore_ascii_case(before_char(host, ':'), a),
        None => false,
    }
}

/// The routing state shared by all requests: the enabled routes and the
/// host the admin interface is served on.
pub struct ProxyState {
    pub routes: Vec<Route>,
    pub admin_host: Option<String>,
}

impl ProxyState {
    /// The state before the first load: no routes, no admin host.
    pub fn new() -> (r: Self)
        ensures
            r.routes@.len() == 0,
            r.admin_host is None,
    {
        ProxyState { routes: Vec::new(), admin_host: None }
    }

    /// Replace the routes with freshly loaded ones and resolve the admin host
    /// again. The admin host is assigned even when it resolves to nothing, so
    /// clearing the configuration also revokes admin access.
    pub fn reload_routes(&mut self, routes: Vec<Route>, admin_host_setting: Option<&str>, admin_origin: &str)
        ensures
            final(self).routes@ == routes@,
            opt_text(final(self).admin_host) == admin_host_of(
                match admin_host_setting {
                    Some(s) => Some(s@),
                    None => None,
                },
                admin_origin@,
            ),
    {
        self.routes = routes;
        self.admin_host = resolve_admin_host(admin_host_setting, admin_origin);
    }

    /// Check if the given host is the admin host.
    ///
    /// Fails closed: with no admin host configured the admin interface is not
    /// served on any hostname.
    pub fn is_admin_host(&self, host: &str) -> (r: bool)
        ensures
            r == admin_host_matches(opt_text(self.admin_host), host@),
    {
        match &self.admin_host {
            Some(a) => {
                let hc = chars_of(host);
                let h = before_first(&hc, ':');
                let ac = chars_of(a.as_str());
                chars_eq_ignore_ascii_case(&h, &ac)
            },
            None => false,
        }
    }

    /// The route serving `host`.
    pub fn find_route(&self, host: &str) -> (r: Option<&Route>)
        ensures
            r is Some <==> route_for_host(self.routes@, host@) < self.routes@.len(),
            r matches Some(x) ==> *x == self.routes@[route_for_host(self.routes@, host@)],
    {
        find_route(self.routes.as_slice(), host)
    }
}

// ---------------------------------------------------------------------------
// Header forwarding
// ---------------------------------------------------------------------------

/// Forwarding headers a client could use to misstate its identity.
pub open spec fn is_forwarding_name(n: Seq<char>) -> bool {
    ||| n == "forwarded"@
    ||| n == "x-forwarded-for"@
    ||| n == "x-forwarded-host"@
    ||| n == "x-forwarded-port"@
    ||| n == "x-forwarded-proto"@
    ||| n == "x-real-ip"@
}

/// Hop-by-hop headers, which concern one connection only.
pub open spec fn is_hop_by_hop_name(n: Seq<char>) -> bool {
    ||| n == "connection"@
    ||| n == "keep-alive"@
    ||| n == "proxy-authenticate"@
    ||| n == "proxy-authorization"@
    ||| n == "te"@
    ||| n == "trailers"@
    ||| n == "transfer-encoding"@
    ||| n == "upgrade"@
}

/// Check if a (lower-case) header name is a client-supplied forwarding
/// header. The gateway replaces these with its own values.
pub fn is_forwarding_header(name: &str) -> (r: bool)
    ensures
        r == is_forwarding_name(name@),
{
    str_eq(name, "forwarded") || str_eq(name, "x-forwarded-for") || str_eq(name, "x-forwarded-host")
        || str_eq(name, "x-forwarded-port") || str_eq(name, "x-forwarded-proto") || str_eq(
        name,
        "x-real-ip",
    )
}

/// Check if a (lower-case) header name is a hop-by-hop header that is not
/// forwarded.
pub fn is_hop_by_hop_header(name: &str) -> (r: bool)
    ensures
        r == is_hop_by_hop_name(name@),
{
    str_eq(name, "connection") || str_eq(name, "keep-alive") || str_eq(name, "proxy-authenticate")
        || str_eq(name, "proxy-authorization") || str_eq(name, "te") || str_eq(name, "trailers")
        || str_eq(name, "transfer-encoding") || str_eq(name, "upgrade")
}

/// Which headers a forwarding step drops.
pub enum HeaderPolicy {
    /// Client request to upstream: hop-by-hop and forwarding headers.
    Request,
    /// Upstream response to client: hop-by-hop headers.
    Response,
    /// Client handshake to upstream WebSocket: the headers the handshake
    /// sets itself and client-supplied forwarding headers.
    WebSocket,
    /// Upstream handshake answer to client: everything but `Set-Cookie`.
    SetCookie,
}

/// Headers the WebSocket handshake to the upstream sets itself.
pub open spec fn is_handshake_name(n: Seq<char>) -> bool {
    ||| n == "host"@
    ||| n == "connection"@
    ||| n == "upgrade"@
    ||| n == "sec-websocket-version"@
    ||| n == "sec-websocket-key"@
    ||| n == "sec-websocket-extensions"@
    ||| n == "sec-websocket-protocol"@
}

/// Check if a (lower-case) header name is one the WebSocket handshake sets.
pub fn is_handshake_header(name: &str) -> (r: bool)
    ensures
        r == is_handshake_name(name@),
{
    str_eq(name, "host") || str_eq(name, "connection") || str_eq(name, "upgrade") || str_eq(
        name,
        "sec-websocket-version",
    ) || str_eq(name, "sec-websocket-key") || str_eq(name, "sec-websocket-extensions") || str_eq(
        name,
        "sec-websocket-protocol",
    )
}

/// Whether a (lower-case) header name is dropped under a policy.
pub open spec fn name_dropped(n: Seq<char>, policy: HeaderPolicy) -> bool {
    match policy {
        HeaderPolicy::Request => is_hop_by_hop_name(n) || is_forwarding_name(n),
        HeaderPolicy::Response => is_hop_by_hop_name(n),
        HeaderPolicy::WebSocket => is_handshake_name(n) || is_forwarding_name(n),
        HeaderPolicy::SetCookie => n != "set-cookie"@,
    }
}

fn dropped(name: &str, policy: &HeaderPolicy) -> (r: bool)
    ensures
        r == name_dropped(name@, *policy),
{
    match policy {
        HeaderPolicy::Request => is_hop_by_hop_header(name) || is_forwarding_header(name),
        HeaderPolicy::Response => is_hop_by_hop_header(name),
        HeaderPolicy::WebSocket => is_handshake_header(name) || is_forwarding_header(name),
        HeaderPolicy::SetCookie => !str_eq(name, "set-cookie"),
    }
}

/// Whether a header is passed on: it has a text value and its lower-cased
/// name is not dropped.
pub open spec fn header_passes(h: Header, policy: HeaderPolicy) -> bool {
    &&& h.value is Some
    &&& !name_dropped(ascii_lower(h.name@), policy)
}

/// The headers that are passed on, in their order.
pub open spec fn passed_headers(hs: Seq<Header>, policy: HeaderPolicy) -> Seq<(Seq<char>, Seq<char>)>
    decreases hs.len(),
{
    if hs.len() == 0 {
        Seq::empty()
    } else {
        let rest = passed_headers(hs.drop_last(), policy);
        let h = hs.last();
        if header_passes(h, policy) {
            rest.push((h.name@, h.value->Some_0@))
        } else {
            rest
        }
    }
}

/// Keeps the headers that pass, in order.
pub fn filter_headers(headers: &[Header], policy: HeaderPolicy) -> (r: Vec<HeaderPair>)
    ensures
        pairs_view(r@) == passed_headers(headers@, policy),
{
    let mut out: Vec<HeaderPair> = Vec::new();
    let mut i: usize = 0;
    while i < headers.len()
        invariant
            i <= headers@.len(),
            pairs_view(out@) == passed_headers(headers@.take(i as int), policy),
        decreases headers.len() - i,
    {
        let h = &headers[i];
        let n = chars_of(h.name.as_str());
        let l = to_ascii_lower(&n);
        let ls = to_string(&l);
        let ghost prev = out@;
        assert(headers@.take(i + 1).drop_last() =~= headers@.take(i as int));
        assert(headers@.take(i + 1).last() == headers@[i as int]);
        match &h.value {
            Some(v) => {
                if !dropped(ls.as_str(), &policy) {
                    let name = to_string(&n);
                    let vc = chars_of(v.as_str());
                    let value = to_string(&vc);
                    out.push(HeaderPair { name, value });
                    assert(pairs_view(out@) =~= pairs_view(prev).push((h.name@, v@)));
                }
            },
            None => {},
        }
        i += 1;
    }
    assert(headers@.take(headers@.len() as int) =~= headers@);
    out
}

/// The headers sent upstream: the client's headers without hop-by-hop and
/// client-supplied forwarding headers, then the gateway's own
/// `X-Forwarded-For`, `X-Forwarded-Proto` and `X-Forwarded-Host`.
pub open spec fn upstream_headers_of(hs: Seq<Header>, ip: Seq<char>, scheme: Seq<char>, host: Seq<char>) -> Seq<(Seq<char>, Seq<char>)> {
    passed_headers(hs, HeaderPolicy::Request).push(("X-Forwarded-For"@, ip)).push(("X-Forwarded-Proto"@, scheme)).push(
        ("X-Forwarded-Host"@, host),
    )
}

fn pair(name: &str, value: &str) -> (r: HeaderPair)
    ensures
        r.name@ == name@,
        r.value@ == value@,
{
    let n = chars_of(name);
    let v = chars_of(value);
    HeaderPair { name: to_string(&n), value: to_string(&v) }
}

/// The headers of the upstream request.
pub fn upstream_request_headers(headers: &[Header], client_ip: &str, scheme: &str, host: &str) -> (r: Vec<HeaderPair>)
    ensures
        pairs_view(r@) == upstream_headers_of(headers@, client_ip@, scheme@, host@),
{
    let mut out = filter_headers(headers, HeaderPolicy::Request);
    let ghost p0 = pairs_view(out@);
    out.push(pair("X-Forwarded-For", client_ip));
    out.push(pair("X-Forwarded-Proto", scheme));
    out.push(pair("X-Forwarded-Host", host));
    assert(pairs_view(out@) =~= upstream_headers_of(headers@, client_ip@, scheme@, host@));
    out
}

/// The headers of the upstream response passed to the client: all with a
/// text value except hop-by-hop ones, every value of a repeated header
/// (such as `Set-Cookie`) kept.
pub fn downstream_response_headers(headers: &[Header]) -> (r: Vec<HeaderPair>)
    ensures
        pairs_view(r@) == passed_headers(headers@, HeaderPolicy::Response),
{
    filter_headers(headers, HeaderPolicy::Response)
}

/// The HTTP methods the proxy forwards.
pub enum UpstreamMethod {
    Get,
    Post,
    Put,
    Delete,
    Patch,
    Head,
    Options,
}

/// The upstream method for a request method, or the error for an
/// unsupported one.
pub open spec fn upstream_method_of(m: Seq<char>) -> Result<UpstreamMethod, Seq<char>> {
    if m == "GET"@ {
        Ok(UpstreamMethod::Get)
    } else if m == "POST"@ {
        Ok(UpstreamMethod::Post)
    } else if m == "PUT"@ {
        Ok(UpstreamMethod::Put)
    } else if m == "DELETE"@ {
        Ok(UpstreamMethod::Delete)
    } else if m == "PATCH"@ {
        Ok(UpstreamMethod::Patch)
    } else if m == "HEAD"@ {
        Ok(UpstreamMethod::Head)
    } else if m == "OPTIONS"@ {
        Ok(UpstreamMethod::Options)
    } else {
        Err("Unsupported method: "@ + m)
    }
}

/// Maps the request method to the upstream method.
pub fn upstream_method(method: &str) -> (r: Result<UpstreamMethod, GatewayError>)
    ensures
        match upstream_method_of(method@) {
            Ok(m) => r == Ok::<UpstreamMethod, GatewayError>(m),
            Err(msg) => r matches Err(GatewayError::Proxy(s)) && s@ == msg,
        },
{
    if str_eq(method, "GET") {
        Ok(UpstreamMethod::Get)
    } else if str_eq(method, "POST") {
        Ok(UpstreamMethod::Post)
    } else if str_eq(method, "PUT") {
        Ok(UpstreamMethod::Put)
    } else if str_eq(method, "DELETE") {
        Ok(UpstreamMethod::Delete)
    } else if str_eq(method, "PATCH") {
        Ok(UpstreamMethod::Patch)
    } else if str_eq(method, "HEAD") {
        Ok(UpstreamMethod::Head)
    } else if str_eq(method, "OPTIONS") {
        Ok(UpstreamMethod::Options)
    } else {
        let mut v = chars_of("Unsupported method: ");
        push_str(&mut v, method);
        Err(GatewayError::Proxy(to_string(&v)))
    }
}

// ---------------------------------------------------------------------------
// Properties
// ---------------------------------------------------------------------------

/// The host taken from an origin is a bare lower-case hostname: not empty,
/// with no scheme, port or path left in it.
pub proof fn origin_host_is_bare(origin: Seq<char>)
    requires
        host_of_origin(origin) is Some,
    ensures
        host_of_origin(origin)->Some_0.len() > 0,
        ascii_lower(host_of_origin(origin)->Some_0) == host_of_origin(origin)->Some_0,
        !host_of_origin(origin)->Some_0.contains(':'),
        !host_of_origin(origin)->Some_0.contains('/'),
{
    let x = after_scheme(trim(origin));
    let p = before_char(x, '/');
    let q = before_char(p, ':');
    let t = trim(q);
    lemma_before_char(x, '/');
    lemma_before_char(p, ':');
    if q.contains('/') {
        let k = choose|k: int| 0 <= k < q.len() && q[k] == '/';
        assert(p[k] == '/');
        assert(p.contains('/'));
    }
    lemma_trim_keeps_absence(q, '/');
    lemma_trim_keeps_absence(q, ':');
    lemma_lower_keeps_absence(t, '/');
    lemma_lower_keeps_absence(t, ':');
    lemma_ascii_lower_idempotent(t);
}

/// The host taken from an origin is trimmed, and taking the host of that
/// host gives it back unchanged.
pub proof fn origin_host_is_a_fixed_point(origin: Seq<char>)
    requires
        host_of_origin(origin) is Some,
    ensures
        trim(host_of_origin(origin)->Some_0) == host_of_origin(origin)->Some_0,
        host_of_origin(host_of_origin(origin)->Some_0) == host_of_origin(origin),
{
    origin_host_is_bare(origin);
    let x = after_scheme(trim(origin));
    let q = before_char(before_char(x, '/'), ':');
    let h = host_of_origin(origin)->Some_0;
    assert(h == ascii_lower(trim(q)));
    lemma_lower_keeps_trimmed(q);
    lemma_no_scheme_separator(h, 0);
    assert(after_scheme(trim(h)) == h);
    lemma_before_absent_char(h, '/');
    lemma_before_absent_char(h, ':');
    assert(origin_host_raw(h) == h);
    lemma_ascii_lower_idempotent(trim(q));
}

/// An origin yields no host exactly when nothing is left of it once the
/// scheme, the path and the port are cut off and the rest is trimmed.
pub proof fn origin_without_host(origin: Seq<char>)
    ensures
        host_of_origin(origin) is None <==> trim(
            before_char(before_char(after_scheme(trim(origin)), '/'), ':'),
        ).len() == 0,
{
}

proof fn lemma_header_index_shift(hs: Seq<Header>, h: Header, i: int, name: Seq<char>, m: int)
    requires
        0 <= i <= m <= hs.len(),
    ensures
        header_index_from(hs.insert(i, h), name, m + 1) == header_index_from(hs, name, m) + 1,
    decreases hs.len() - m,
{
    let hs2 = hs.insert(i, h);
    if m < hs.len() {
        assert(hs2[m + 1] == hs[m]);
        if ascii_lower(hs[m].name@) != name {
            lemma_header_index_shift(hs, h, i, name, m + 1);
        }
    }
}

proof fn lemma_header_index_prefix(hs: Seq<Header>, h: Header, i: int, name: Seq<char>, k: int)
    requires
        0 <= k <= i <= hs.len(),
        ascii_lower(h.name@) != name,
    ensures
        header_index_from(hs.insert(i, h), name, k) == if header_index_from(hs, name, k) < i {
            header_index_from(hs, name, k)
        } else {
            header_index_from(hs, name, k) + 1
        },
    decreases i - k,
{
    let hs2 = hs.insert(i, h);
    if k == i {
        assert(hs2[i] == h);
        lemma_header_index_shift(hs, h, i, name, i);
        lemma_header_index_bounds(hs, name, i);
    } else {
        assert(hs2[k] == hs[k]);
        if ascii_lower(hs[k].name@) != name {
            lemma_header_index_prefix(hs, h, i, name, k + 1);
        }
    }
}

/// Only the `Host` header decides the request host: inserting any other
/// header (`Forwarded`, `X-Forwarded-Host`, ...) anywhere in the request
/// leaves it unchanged.
pub proof fn request_host_ignores_other_headers(hs: Seq<Header>, i: int, h: Header)
    requires
        0 <= i <= hs.len(),
        ascii_lower(h.name@) != "host"@,
    ensures
        request_host_of(hs.insert(i, h)) == request_host_of(hs),
{
    let hs2 = hs.insert(i, h);
    let name = "host"@;
    lemma_header_index_prefix(hs, h, i, name, 0);
    lemma_header_index_bounds(hs, name, 0);
    let j = header_index_from(hs, name, 0);
    if j < i {
        assert(hs2[j] == hs[j]);
    } else if j < hs.len() {
        assert(hs2[j + 1] == hs[j]);
    }
    assert(header_value(hs2, name) == header_value(hs, name));
}

proof fn lemma_header_index_bounds(hs: Seq<Header>, name: Seq<char>, k: int)
    requires
        0 <= k <= hs.len(),
    ensures
        k <= header_index_from(hs, name, k) <= hs.len(),
    decreases hs.len() - k,
{
    if k < hs.len() && ascii_lower(hs[k].name@) != name {
        lemma_header_index_bounds(hs, name, k + 1);
    }
}

proof fn lemma_route_index(rs: Seq<Route>, h: Seq<char>, i: int)
    requires
        0 <= i <= rs.len(),
    ensures
        i <= route_index_from(rs, h, i) <= rs.len(),
        route_index_from(rs, h, i) < rs.len() ==> rs[route_index_from(rs, h, i)].enabled
            && rs[route_index_from(rs, h, i)].host@ == h,
        forall|k: int| i <= k < route_index_from(rs, h, i) ==> !(rs[k].enabled && rs[k].host@ == h),
    decreases rs.len() - i,
{
    if i < rs.len() && !(rs[i].enabled && rs[i].host@ == h) {
        lemma_route_index(rs, h, i + 1);
    }
}

/// The route found for a host is enabled, carries exactly that host (port
/// removed), and no earlier route does.
pub proof fn found_route_serves_host(rs: Seq<Route>, host: Seq<char>)
    requires
        route_for_host(rs, host) < rs.len(),
    ensures
        rs[route_for_host(rs, host)].enabled,
        rs[route_for_host(rs, host)].host@ == before_char(host, ':'),
        forall|k: int| 0 <= k < route_for_host(rs, host) ==> !(rs[k].enabled && rs[k].host@ == before_char(host, ':')),
{
    lemma_route_index(rs, before_char(host, ':'), 0);
}

/// A host that an enabled route carries is always served: the lookup
/// finds a route whenever one matches.
pub proof fn matching_route_is_found(rs: Seq<Route>, host: Seq<char>, k: int)
    requires
        0 <= k < rs.len(),
        rs[k].enabled,
        rs[k].host@ == before_char(host, ':'),
    ensures
        route_for_host(rs, host) <= k,
{
    lemma_route_index(rs, before_char(host, ':'), 0);
}

/// The upstream URL is the same prefix for every path and query, followed
/// by the path and, when a query is given, `?` and the query.
pub proof fn upstream_url_appends_path_and_query(base: Seq<char>, path: Seq<char>, query: Option<Seq<char>>)
    ensures
        upstream_url_text(base, path, None) == upstream_url_text(base, Seq::empty(), None) + path,
        query matches Some(q) ==> upstream_url_text(base, path, query) == upstream_url_text(base, path, None)
            + seq!['?'] + q,
{
    assert(upstream_url_text(base, path, None) =~= upstream_url_text(base, Seq::empty(), None) + path);
    if let Some(q) = query {
        assert(upstream_url_text(base, path, query) =~= upstream_url_text(base, path, None) + seq!['?'] + q);
    }
}

/// A disabled route never serves a request.
pub proof fn disabled_route_never_found(rs: Seq<Route>, host: Seq<char>, k: int)
    requires
        0 <= k < rs.len(),
        !rs[k].enabled,
    ensures
        route_for_host(rs, host) != k,
{
    lemma_route_index(rs, before_char(host, ':'), 0);
}

proof fn lemma_passed_headers(hs: Seq<Header>, policy: HeaderPolicy)
    ensures
        forall|k: int| 0 <= k < passed_headers(hs, policy).len() ==> !name_dropped(
            ascii_lower(#[trigger] passed_headers(hs, policy)[k].0),
            policy,
        ),
    decreases hs.len(),
{
    if hs.len() > 0 {
        let rest = passed_headers(hs.drop_last(), policy);
        lemma_passed_headers(hs.drop_last(), policy);
        let p = passed_headers(hs, policy);
        assert forall|k: int| 0 <= k < p.len() implies !name_dropped(ascii_lower(#[trigger] p[k].0), policy) by {
            if k < rest.len() {
                assert(p[k] == rest[k]);
            }
        }
    }
}

/// The upstream never sees a hop-by-hop header or a forwarding header the
/// client supplied: every header before the last three passed the filter,
/// and the last three are the gateway's own forwarding headers.
pub proof fn upstream_headers_are_sanitized(hs: Seq<Header>, ip: Seq<char>, scheme: Seq<char>, host: Seq<char>)
    ensures
        upstream_headers_of(hs, ip, scheme, host).len() == passed_headers(hs, HeaderPolicy::Request).len() + 3,
        forall|k: int| 0 <= k < upstream_headers_of(hs, ip, scheme, host).len() - 3 ==> {
            let n = ascii_lower(#[trigger] upstream_headers_of(hs, ip, scheme, host)[k].0);
            !is_hop_by_hop_name(n) && !is_forwarding_name(n)
        },
        upstream_headers_of(hs, ip, scheme, host).last() == ("X-Forwarded-Host"@, host),
{
    lemma_passed_headers(hs, HeaderPolicy::Request);
    let p = passed_headers(hs, HeaderPolicy::Request);
    let u = upstream_headers_of(hs, ip, scheme, host);
    assert forall|k: int| 0 <= k < u.len() - 3 implies {
        let n = ascii_lower(#[trigger] u[k].0);
        !is_hop_by_hop_name(n) && !is_forwarding_name(n)
    } by {
        assert(u[k] == p[k]);
    }
}

/// The names each policy drops, spelled out: the request to the upstream
/// loses exactly the hop-by-hop and forwarding headers, the response to the
/// client exactly the hop-by-hop ones, the WebSocket handshake exactly the
/// ones it sets itself and the forwarding ones, and the upgrade answer keeps
/// `Set-Cookie` alone.
pub proof fn dropped_names_are_exactly(n: Seq<char>)
    ensures
        name_dropped(n, HeaderPolicy::Request) <==> {
            ||| n == "connection"@
            ||| n == "keep-alive"@
            ||| n == "proxy-authenticate"@
            ||| n == "proxy-authorization"@
            ||| n == "te"@
            ||| n == "trailers"@
            ||| n == "transfer-encoding"@
            ||| n == "upgrade"@
            ||| n == "forwarded"@
            ||| n == "x-forwarded-for"@
            ||| n == "x-forwarded-host"@
            ||| n == "x-forwarded-port"@
            ||| n == "x-forwarded-proto"@
            ||| n == "x-real-ip"@
        },
        name_dropped(n, HeaderPolicy::Response) <==> {
            ||| n == "connection"@
            ||| n == "keep-alive"@
            ||| n == "proxy-authenticate"@
            ||| n == "proxy-authorization"@
            ||| n == "te"@
            ||| n == "trailers"@
            ||| n == "transfer-encoding"@
            ||| n == "upgrade"@
        },
        name_dropped(n, HeaderPolicy::WebSocket) <==> {
            ||| n == "host"@
            ||| n == "connection"@
            ||| n == "upgrade"@
            ||| n == "sec-websocket-version"@
            ||| n == "sec-websocket-key"@
            ||| n == "sec-websocket-extensions"@
            ||| n == "sec-websocket-protocol"@
            ||| n == "forwarded"@
            ||| n == "x-forwarded-for"@
            ||| n == "x-forwarded-host"@
            ||| n == "x-forwarded-port"@
            ||| n == "x-forwarded-proto"@
            ||| n == "x-real-ip"@
        },
        name_dropped(n, HeaderPolicy::SetCookie) <==> n != "set-cookie"@,
{
}

/// Every header with a text value whose lower-cased name the policy does
/// not drop is passed on, with its name and value unchanged.
pub proof fn passing_header_is_passed(hs: Seq<Header>, policy: HeaderPolicy, i: int)
    requires
        0 <= i < hs.len(),
        hs[i].value is Some,
        !name_dropped(ascii_lower(hs[i].name@), policy),
    ensures
        passed_headers(hs, policy).contains((hs[i].name@, hs[i].value->Some_0@)),
    decreases hs.len(),
{
    let p = passed_headers(hs, policy);
    let e = (hs[i].name@, hs[i].value->Some_0@);
    if i == hs.len() - 1 {
        assert(p.last() == e);
        assert(p[p.len() - 1] == e);
    } else {
        let rest = hs.drop_last();
        assert(rest[i] == hs[i]);
        passing_header_is_passed(rest, policy, i);
        let r = passed_headers(rest, policy);
        let k = choose|k: int| 0 <= k < r.len() && r[k] == e;
        assert(p[k] == e);
    }
}

/// Every entry that is passed on is a header of the input, with a text
/// value, whose name the policy does not drop.
pub proof fn passed_header_comes_from_input(hs: Seq<Header>, policy: HeaderPolicy, k: int)
    requires
        0 <= k < passed_headers(hs, policy).len(),
    ensures
        exists|i: int|
            0 <= i < hs.len() && #[trigger] hs[i].value is Some && !name_dropped(ascii_lower(hs[i].name@), policy)
                && passed_headers(hs, policy)[k] == (hs[i].name@, hs[i].value->Some_0@),
    decreases hs.len(),
{
    let rest = hs.drop_last();
    let r = passed_headers(rest, policy);
    if k < r.len() {
        passed_header_comes_from_input(rest, policy, k);
        let i = choose|i: int|
            0 <= i < rest.len() && #[trigger] rest[i].value is Some && !name_dropped(ascii_lower(rest[i].name@), policy)
                && r[k] == (rest[i].name@, rest[i].value->Some_0@);
        assert(hs[i] == rest[i]);
        assert(passed_headers(hs, policy)[k] == r[k]);
    } else {
        let i = hs.len() - 1;
        assert(hs[i] == hs.last());
    }
}

/// The upstream request carries every client header with a text value that
/// is neither hop-by-hop nor a forwarding header, unchanged.
pub proof fn upstream_request_keeps_client_headers(
    hs: Seq<Header>,
    ip: Seq<char>,
    scheme: Seq<char>,
    host: Seq<char>,
    i: int,
)
    requires
        0 <= i < hs.len(),
        hs[i].value is Some,
        !is_hop_by_hop_name(ascii_lower(hs[i].name@)),
        !is_forwarding_name(ascii_lower(hs[i].name@)),
    ensures
        upstream_headers_of(hs, ip, scheme, host).contains((hs[i].name@, hs[i].value->Some_0@)),
{
    passing_header_is_passed(hs, HeaderPolicy::Request, i);
    let p = passed_headers(hs, HeaderPolicy::Request);
    let e = (hs[i].name@, hs[i].value->Some_0@);
    let k = choose|k: int| 0 <= k < p.len() && p[k] == e;
    assert(upstream_headers_of(hs, ip, scheme, host)[k] == e);
}

/// A client cannot spoof its identity through a WebSocket upgrade: no
/// forwarding header it supplied, and no header the handshake sets itself,
/// reaches the upstream handshake.
pub proof fn handshake_headers_are_sanitized(hs: Seq<Header>)
    ensures
        forall|k: int| 0 <= k < passed_headers(hs, HeaderPolicy::WebSocket).len() ==> {
            let n = ascii_lower(#[trigger] passed_headers(hs, HeaderPolicy::WebSocket)[k].0);
            !is_forwarding_name(n) && !is_handshake_name(n)
        },
{
    lemma_passed_headers(hs, HeaderPolicy::WebSocket);
}

/// Only `Set-Cookie` headers of the upstream handshake answer are copied to
/// the client's upgrade response.
pub proof fn upgrade_cookies_are_set_cookie_only(hs: Seq<Header>)
    ensures
        forall|k: int| 0 <= k < passed_headers(hs, HeaderPolicy::SetCookie).len() ==> ascii_lower(
            #[trigger] passed_headers(hs, HeaderPolicy::SetCookie)[k].0,
        ) == "set-cookie"@,
{
    lemma_passed_headers(hs, HeaderPolicy::SetCookie);
}

/// Hop-by-hop headers of the upstream response never reach the client.
pub proof fn response_headers_drop_hop_by_hop(hs: Seq<Header>)
    ensures
        forall|k: int| 0 <= k < passed_headers(hs, HeaderPolicy::Response).len() ==> !is_hop_by_hop_name(
            ascii_lower(#[trigger] passed_headers(hs, HeaderPolicy::Response)[k].0),
        ),
{
    lemma_passed_headers(hs, HeaderPolicy::Response);
}

/// Fail closed: without an admin host the admin interface is served on no
/// host at all.
pub proof fn no_admin_host_serves_no_host(host: Seq<char>)
    ensures
        !admin_host_matches(None, host),
{
}

/// Clearing the configuration revokes admin access: when neither the setting
/// nor the admin origin names a host, no admin host remains.
pub proof fn cleared_configuration_revokes_admin_host(setting: Option<Seq<char>>, origin: Seq<char>)
    requires
        host_of_origin(origin) is None,
        setting is Some ==> host_of_origin(setting->Some_0) is None,
    ensures
        admin_host_matches(admin_host_of(setting, origin), "x"@) == false,
        admin_host_of(setting, origin) is None,
{
}

/// The admin-host check ignores the ASCII case of the requested host.
pub proof fn admin_host_ignores_case(admin_host: Option<Seq<char>>, host: Seq<char>)
    ensures
        admin_host_matches(admin_host, ascii_lower(host)) == admin_host_matches(admin_host, host),
{
    lemma_lower_before_colon(host);
    lemma_ascii_lower_idempotent(before_char(host, ':'));
}

} // verus!
