//! Configuration types: the identity-service settings and the proxy routes.

use vstd::prelude::*;

use crate::text::str_eq;

verus! {

/// Settings for the identity service the gateway authenticates against.
#[derive(Clone, Debug)]
pub struct IdConfig {
    pub server_url: String,
    pub app_id: String,
    pub api_key: String,
    pub admin_origin: String,
}

/// The mathematical model of [`IdConfig`].
pub struct IdConfigView {
    pub server_url: Seq<char>,
    pub app_id: Seq<char>,
    pub api_key: Seq<char>,
    pub admin_origin: Seq<char>,
}

impl View for IdConfig {
    type V = IdConfigView;

    open spec fn view(&self) -> IdConfigView {
        IdConfigView {
            server_url: self.server_url@,
            app_id: self.app_id@,
            api_key: self.api_key@,
            admin_origin: self.admin_origin@,
        }
    }
}

/// The configuration is complete once both an application id and an API key
/// are set.
pub open spec fn id_config_complete(c: IdConfigView) -> bool {
    c.app_id.len() > 0 && c.api_key.len() > 0
}

/// Whether the identity-service configuration is complete.
pub fn is_id_configured(config: &IdConfig) -> (r: bool)
    ensures
        r == id_config_complete(config@),
{
    !config.app_id.as_str().is_empty() && !config.api_key.as_str().is_empty()
}

/// A proxy route: requests whose host is `host` go to `upstream_url`.
///
/// `id` holds the 128 bits of the route's UUID.
#[derive(Clone, Debug)]
pub struct Route {
    pub id: u128,
    pub name: String,
    pub host: String,
    pub upstream_url: String,
    pub requires_auth: bool,
    pub enabled: bool,
    pub allowed_users: Vec<String>,
}

/// The mathematical model of [`Route`].
pub struct RouteView {
    pub id: u128,
    pub name: Seq<char>,
    pub host: Seq<char>,
    pub upstream_url: Seq<char>,
    pub requires_auth: bool,
    pub enabled: bool,
    pub allowed_users: Seq<Seq<char>>,
}

impl View for Route {
    type V = RouteView;

    open spec fn view(&self) -> RouteView {
        RouteView {
            id: self.id,
            name: self.name@,
            host: self.host@,
            upstream_url: self.upstream_url@,
            requires_auth: self.requires_auth,
            enabled: self.enabled,
            allowed_users: self.allowed_users.deep_view(),
        }
    }
}

/// The whitelist rule: an empty list admits every user, a non-empty one only
/// the users it names.
pub open spec fn whitelist_admits(allowed: Seq<Seq<char>>, username: Seq<char>) -> bool {
    allowed.len() == 0 || allowed.contains(username)
}

/// An empty whitelist admits every user; a non-empty one admits a user
/// exactly when one of its names equals the username character for
/// character (no prefix, case or whitespace folding).
pub proof fn whitelist_admits_exact_names(allowed: Seq<Seq<char>>, username: Seq<char>)
    ensures
        allowed.len() == 0 ==> whitelist_admits(allowed, username),
        allowed.len() > 0 ==> (whitelist_admits(allowed, username) <==> exists|k: int|
            0 <= k < allowed.len() && #[trigger] allowed[k] == username),
{
    if allowed.len() > 0 && whitelist_admits(allowed, username) {
        let k = choose|k: int| 0 <= k < allowed.len() && allowed[k] == username;
        assert(allowed[k] == username);
    }
}

/// Adding a name to a whitelist admits that user, and keeps every user it
/// admitted before that a non-empty list named.
pub proof fn whitelist_admits_added_name(allowed: Seq<Seq<char>>, added: Seq<char>, username: Seq<char>)
    ensures
        whitelist_admits(allowed.push(added), added),
        allowed.len() > 0 && whitelist_admits(allowed, username) ==> whitelist_admits(allowed.push(added), username),
        whitelist_admits(allowed.push(added), username) && username != added && allowed.len() > 0 ==> whitelist_admits(
            allowed,
            username,
        ),
{
    let l = allowed.push(added);
    assert(l[allowed.len() as int] == added);
    if allowed.len() > 0 && whitelist_admits(allowed, username) {
        let k = choose|k: int| 0 <= k < allowed.len() && allowed[k] == username;
        assert(l[k] == username);
    }
    if whitelist_admits(l, username) && username != added && allowed.len() > 0 {
        let k = choose|k: int| 0 <= k < l.len() && l[k] == username;
        assert(k < allowed.len());
        assert(allowed[k] == username);
    }
}

impl Route {
    /// Whether `username` may access this route.
    ///
    /// An empty `allowed_users` list means "any authenticated user": the
    /// whitelist narrows access, it does not grant it.
    pub fn allows_user(&self, username: &str) -> (r: bool)
        ensures
            r == whitelist_admits(self@.allowed_users, username@),
    {
        let n = self.allowed_users.len();
        if n == 0 {
            return true;
        }
        let mut i: usize = 0;
        while i < n
            invariant
                n == self.allowed_users@.len(),
                i <= n,
                forall|k: int| 0 <= k < i ==> self.allowed_users@[k]@ != username@,
            decreases n - i,
        {
            if str_eq(self.allowed_users[i].as_str(), username) {
                assert(self@.allowed_users[i as int] == username@);
                return true;
            }
            i += 1;
        }
        assert(!self@.allowed_users.contains(username@)) by {
            if self@.allowed_users.contains(username@) {
                let k = choose|k: int|
                    0 <= k < self@.allowed_users.len() && self@.allowed_users[k] == username@;
                assert(self.allowed_users@[k]@ == username@);
            }
        }
        false
    }
}

} // verus!
