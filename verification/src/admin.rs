//! The admin API's requests and answers, and the first-run setup form.

use vstd::prelude::*;

use crate::config::{IdConfig, IdConfigView, Route, RouteView};
use crate::ext::{uuid_hyphenated, uuid_string};
use crate::text::{chars_of, opt_text, push_str, to_string};

verus! {

/// The identity service every setup configures.
pub const DEFAULT_SERVER_URL: &'static str = "https://id.fabi-sc.de";

/// A request to create a route.
pub struct CreateRouteRequest {
    pub name: String,
    pub host: String,
    pub upstream_url: String,
    pub requires_auth: Option<bool>,
    pub allowed_users: Option<Vec<String>>,
}

/// The whitelist a request gives, empty when it gives none.
pub open spec fn given_whitelist(w: Option<Vec<String>>) -> Seq<Seq<char>> {
    match w {
        Some(v) => v.deep_view(),
        None => Seq::empty(),
    }
}

/// The route a creation request describes, with the given id. It is enabled,
/// and it requires authentication unless the request says otherwise: a route
/// that omits `requires_auth` is never published unauthenticated.
pub open spec fn created_route(req: CreateRouteRequest, id: u128) -> RouteView {
    RouteView {
        id,
        name: req.name@,
        host: req.host@,
        upstream_url: req.upstream_url@,
        requires_auth: match req.requires_auth {
            Some(b) => b,
            None => true,
        },
        enabled: true,
        allowed_users: given_whitelist(req.allowed_users),
    }
}

/// The route a creation request describes, under the id `id`.
pub fn new_route(req: CreateRouteRequest, id: u128) -> (r: Route)
    ensures
        r@ == created_route(req, id),
{
    let allowed_users = match req.allowed_users {
        Some(v) => v,
        None => Vec::new(),
    };
    proof {
        if req.allowed_users is None {
            assert(allowed_users.deep_view() =~= Seq::<Seq<char>>::empty());
        }
    }
    Route {
        id,
        name: req.name,
        host: req.host,
        upstream_url: req.upstream_url,
        requires_auth: match req.requires_auth {
            Some(b) => b,
            None => true,
        },
        enabled: true,
        allowed_users,
    }
}

/// Default deny: a created route requires authentication unless the request
/// explicitly turns it off, and it starts enabled.
pub proof fn created_route_requires_auth_by_default(req: CreateRouteRequest, id: u128)
    ensures
        req.requires_auth != Some(false) ==> created_route(req, id).requires_auth,
        created_route(req, id).enabled,
{
}

/// A request to change some fields of a route.
pub struct UpdateRouteRequest {
    pub name: Option<String>,
    pub host: Option<String>,
    pub upstream_url: Option<String>,
    pub requires_auth: Option<bool>,
    pub enabled: Option<bool>,
    pub allowed_users: Option<Vec<String>>,
}

/// The route after an update: each field the request gives replaces the old
/// one; the id never changes.
pub open spec fn updated_route(old: RouteView, req: UpdateRouteRequest) -> RouteView {
    RouteView {
        id: old.id,
        name: match opt_text(req.name) {
            Some(v) => v,
            None => old.name,
        },
        host: match opt_text(req.host) {
            Some(v) => v,
            None => old.host,
        },
        upstream_url: match opt_text(req.upstream_url) {
            Some(v) => v,
            None => old.upstream_url,
        },
        requires_auth: match req.requires_auth {
            Some(b) => b,
            None => old.requires_auth,
        },
        enabled: match req.enabled {
            Some(b) => b,
            None => old.enabled,
        },
        allowed_users: match req.allowed_users {
            Some(v) => v.deep_view(),
            None => old.allowed_users,
        },
    }
}

fn pick(given: Option<String>, old: String) -> (r: String)
    ensures
        r@ == (match opt_text(given) {
            Some(v) => v,
            None => old@,
        }),
{
    match given {
        Some(v) => v,
        None => old,
    }
}

/// Applies an update request to an existing route.
pub fn apply_route_update(existing: Route, req: UpdateRouteRequest) -> (r: Route)
    ensures
        r@ == updated_route(existing@, req),
{
    let allowed_users = match req.allowed_users {
        Some(v) => v,
        None => existing.allowed_users,
    };
    Route {
        id: existing.id,
        name: pick(req.name, existing.name),
        host: pick(req.host, existing.host),
        upstream_url: pick(req.upstream_url, existing.upstream_url),
        requires_auth: match req.requires_auth {
            Some(b) => b,
            None => existing.requires_auth,
        },
        enabled: match req.enabled {
            Some(b) => b,
            None => existing.enabled,
        },
        allowed_users,
    }
}

/// An update that gives no field leaves the route as it was.
pub proof fn empty_update_changes_nothing(old: RouteView, req: UpdateRouteRequest)
    requires
        req.name is None,
        req.host is None,
        req.upstream_url is None,
        req.requires_auth is None,
        req.enabled is None,
        req.allowed_users is None,
    ensures
        updated_route(old, req) == old,
{
}

/// Each field the update request gives replaces the old value, and each
/// field it leaves out keeps it.
pub proof fn route_update_replaces_given_fields(old: RouteView, req: UpdateRouteRequest)
    ensures
        req.name matches Some(v) ==> updated_route(old, req).name == v@,
        req.name is None ==> updated_route(old, req).name == old.name,
        req.host matches Some(v) ==> updated_route(old, req).host == v@,
        req.host is None ==> updated_route(old, req).host == old.host,
        req.upstream_url matches Some(v) ==> updated_route(old, req).upstream_url == v@,
        req.upstream_url is None ==> updated_route(old, req).upstream_url == old.upstream_url,
        req.requires_auth matches Some(b) ==> updated_route(old, req).requires_auth == b,
        req.requires_auth is None ==> updated_route(old, req).requires_auth == old.requires_auth,
        req.enabled matches Some(b) ==> updated_route(old, req).enabled == b,
        req.enabled is None ==> updated_route(old, req).enabled == old.enabled,
        req.allowed_users matches Some(v) ==> updated_route(old, req).allowed_users == v.deep_view(),
        req.allowed_users is None ==> updated_route(old, req).allowed_users == old.allowed_users,
{
}

/// An update never moves a route to another id.
pub proof fn route_update_keeps_id(old: RouteView, req: UpdateRouteRequest)
    ensures
        updated_route(old, req).id == old.id,
{
}

/// Applying the same update twice gives what applying it once gives.
pub proof fn route_update_is_idempotent(old: RouteView, req: UpdateRouteRequest)
    ensures
        updated_route(updated_route(old, req), req) == updated_route(old, req),
{
}

/// The position of the first route with id `id`, or the number of routes.
pub open spec fn route_id_index_from(rs: Seq<Route>, id: u128, i: int) -> int
    decreases rs.len() - i,
{
    if i < 0 || i >= rs.len() {
        rs.len() as int
    } else if rs[i].id == id {
        i
    } else {
        route_id_index_from(rs, id, i + 1)
    }
}

/// The route with the given id.
pub fn find_route_by_id(routes: &[Route], id: u128) -> (r: Option<&Route>)
    ensures
        r is Some <==> route_id_index_from(routes@, id, 0) < routes@.len(),
        r matches Some(x) ==> *x == routes@[route_id_index_from(routes@, id, 0)],
{
    let mut i: usize = 0;
    while i < routes.len()
        invariant
            i <= routes@.len(),
            route_id_index_from(routes@, id, 0) == route_id_index_from(routes@, id, i as int),
        decreases routes.len() - i,
    {
        if routes[i].id == id {
            return Some(&routes[i]);
        }
        i += 1;
    }
    None
}

/// A request to change some identity-service settings.
pub struct UpdateIdConfigRequest {
    pub server_url: Option<String>,
    pub app_id: Option<String>,
    pub api_key: Option<String>,
    pub admin_origin: Option<String>,
}

/// The settings after an update: each value the request gives replaces the
/// old one.
pub open spec fn updated_id_config(old: IdConfigView, req: UpdateIdConfigRequest) -> IdConfigView {
    IdConfigView {
        server_url: match opt_text(req.server_url) {
            Some(v) => v,
            None => old.server_url,
        },
        app_id: match opt_text(req.app_id) {
            Some(v) => v,
            None => old.app_id,
        },
        api_key: match opt_text(req.api_key) {
            Some(v) => v,
            None => old.api_key,
        },
        admin_origin: match opt_text(req.admin_origin) {
            Some(v) => v,
            None => old.admin_origin,
        },
    }
}

/// Each setting the update request gives replaces the old value, and each
/// setting it leaves out keeps it.
pub proof fn id_config_update_replaces_given_fields(old: IdConfigView, req: UpdateIdConfigRequest)
    ensures
        req.server_url matches Some(v) ==> updated_id_config(old, req).server_url == v@,
        req.server_url is None ==> updated_id_config(old, req).server_url == old.server_url,
        req.app_id matches Some(v) ==> updated_id_config(old, req).app_id == v@,
        req.app_id is None ==> updated_id_config(old, req).app_id == old.app_id,
        req.api_key matches Some(v) ==> updated_id_config(old, req).api_key == v@,
        req.api_key is None ==> updated_id_config(old, req).api_key == old.api_key,
        req.admin_origin matches Some(v) ==> updated_id_config(old, req).admin_origin == v@,
        req.admin_origin is None ==> updated_id_config(old, req).admin_origin == old.admin_origin,
{
}

/// Applies an update request to the current settings.
pub fn apply_id_config_update(current: IdConfig, req: UpdateIdConfigRequest) -> (r: IdConfig)
    ensures
        r@ == updated_id_config(current@, req),
{
    IdConfig {
        server_url: pick(req.server_url, current.server_url),
        app_id: pick(req.app_id, current.app_id),
        api_key: pick(req.api_key, current.api_key),
        admin_origin: pick(req.admin_origin, current.admin_origin),
    }
}

/// What the admin API shows of the settings: everything but the API key, of
/// which only its presence is shown.
pub struct IdConfigSummary {
    pub server_url: String,
    pub app_id: String,
    pub api_key_set: bool,
    pub admin_origin: String,
}

/// The settings as the admin API shows them; the API key itself is never
/// exposed.
pub fn id_config_summary(config: &IdConfig) -> (r: IdConfigSummary)
    ensures
        r.server_url@ == config.server_url@,
        r.app_id@ == config.app_id@,
        r.api_key_set == (config.api_key@.len() > 0),
        r.admin_origin@ == config.admin_origin@,
{
    IdConfigSummary {
        server_url: config.server_url.clone(),
        app_id: config.app_id.clone(),
        api_key_set: !config.api_key.as_str().is_empty(),
        admin_origin: config.admin_origin.clone(),
    }
}

/// The first-run setup form.
pub struct SetupForm {
    pub app_id: String,
    pub api_key: String,
    pub admin_origin: String,
    pub admin_users: String,
}

/// The settings a setup form gives, against the default identity service.
pub fn setup_config(form: &SetupForm) -> (r: IdConfig)
    ensures
        r.server_url@ == DEFAULT_SERVER_URL@,
        r.app_id@ == form.app_id@,
        r.api_key@ == form.api_key@,
        r.admin_origin@ == form.admin_origin@,
{
    let s = chars_of(DEFAULT_SERVER_URL);
    IdConfig {
        server_url: to_string(&s),
        app_id: form.app_id.clone(),
        api_key: form.api_key.clone(),
        admin_origin: form.admin_origin.clone(),
    }
}

/// Details of a settings change for the audit log; the API key is left out.
pub fn config_updated_details(config: &IdConfig) -> (r: String)
    ensures
        r@ == "server_url="@ + config.server_url@ + " app_id="@ + config.app_id@ + " admin_origin="@
            + config.admin_origin@,
{
    let mut v = chars_of("server_url=");
    push_str(&mut v, config.server_url.as_str());
    push_str(&mut v, " app_id=");
    push_str(&mut v, config.app_id.as_str());
    push_str(&mut v, " admin_origin=");
    push_str(&mut v, config.admin_origin.as_str());
    to_string(&v)
}

/// Details of a deleted route for the audit log.
pub fn route_deleted_details(id: u128) -> (r: String)
    ensures
        r@ == "id="@ + uuid_hyphenated(id),
{
    let u = uuid_string(id);
    let mut v = chars_of("id=");
    push_str(&mut v, u.as_str());
    to_string(&v)
}

} // verus!
