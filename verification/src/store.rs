//! The stored form of routes and settings, and the checks made before the
//! admin list is replaced.

use vstd::prelude::*;

use crate::config::{IdConfig, Route, RouteView};
use crate::ext::{
    encode_string_list, json_list_text, json_string_list, parse_string_list, parse_uuid, uuid_hyphenated,
    uuid_parse, uuid_string,
};
use crate::text::{chars_of, copy_range, index_from, index_of_from, lemma_index_from_bounds, lemma_trim_idempotent, to_string, trim, trim_chars};

verus! {

/// A route as stored: the UUID as text, the whitelist as a JSON array.
pub struct RouteRow {
    pub id: String,
    pub name: String,
    pub host: String,
    pub upstream_url: String,
    pub requires_auth: bool,
    pub enabled: bool,
    pub allowed_users: String,
}

/// The whitelist stored as `text`; text that is not a JSON array of strings
/// reads as the empty list.
pub open spec fn whitelist_of_text(text: Seq<char>) -> Seq<Seq<char>> {
    match json_string_list(text) {
        Some(v) => v,
        None => Seq::empty(),
    }
}

/// The route a stored row reads as; `fallback` is the id given to a row
/// whose id is not a UUID.
pub open spec fn route_of_row(row: RouteRow, fallback: u128) -> RouteView {
    RouteView {
        id: match uuid_parse(row.id@) {
            Some(v) => v,
            None => fallback,
        },
        name: row.name@,
        host: row.host@,
        upstream_url: row.upstream_url@,
        requires_auth: row.requires_auth,
        enabled: row.enabled,
        allowed_users: whitelist_of_text(row.allowed_users@),
    }
}

/// Reads a stored route. A row whose id is not a UUID gets `fallback_id`
/// (the caller passes a fresh one); a whitelist that is not a JSON array of
/// strings reads as empty.
pub fn route_from_row(row: RouteRow, fallback_id: u128) -> (r: Route)
    ensures
        r@ == route_of_row(row, fallback_id),
{
    let id = match parse_uuid(row.id.as_str()) {
        Some(v) => v,
        None => fallback_id,
    };
    let allowed_users = match parse_string_list(row.allowed_users.as_str()) {
        Some(v) => v,
        None => Vec::new(),
    };
    proof {
        if json_string_list(row.allowed_users@) is None {
            assert(allowed_users.deep_view() =~= Seq::<Seq<char>>::empty());
        }
    }
    Route {
        id,
        name: row.name,
        host: row.host,
        upstream_url: row.upstream_url,
        requires_auth: row.requires_auth,
        enabled: row.enabled,
        allowed_users,
    }
}

/// Copies a list of strings.
pub fn copy_strings(v: &Vec<String>) -> (r: Vec<String>)
    ensures
        r.deep_view() == v.deep_view(),
{
    let mut r: Vec<String> = Vec::new();
    let mut i: usize = 0;
    while i < v.len()
        invariant
            i <= v@.len(),
            r.deep_view() =~= v.deep_view().take(i as int),
        decreases v.len() - i,
    {
        let c = v[i].clone();
        assert(c@ == v.deep_view()[i as int]);
        let ghost old_r = r.deep_view();
        r.push(c);
        assert(r.deep_view() =~= old_r.push(c@));
        assert(v.deep_view().take(i + 1) =~= v.deep_view().take(i as int).push(v.deep_view()[i as int]));
        i += 1;
    }
    assert(v.deep_view().take(v@.len() as int) =~= v.deep_view());
    r
}

/// The stored text of a whitelist: its JSON array.
pub fn allowed_users_json(users: &Vec<String>) -> (r: String)
    ensures
        r@ == json_list_text(users.deep_view()),
        json_string_list(r@) == Some(users.deep_view()),
{
    match encode_string_list(users) {
        Some(s) => s,
        None => {
            let e = chars_of("[]");
            to_string(&e)
        },
    }
}

/// The stored form of a route. Reading the row back gives the route again,
/// whatever fallback id a read would use.
pub fn route_to_row(route: &Route) -> (r: RouteRow)
    ensures
        r.id@ == uuid_hyphenated(route.id),
        r.name@ == route.name@,
        r.host@ == route.host@,
        r.upstream_url@ == route.upstream_url@,
        r.requires_auth == route.requires_auth,
        r.enabled == route.enabled,
        r.allowed_users@ == json_list_text(route@.allowed_users),
        forall|fallback: u128| route_of_row(r, fallback) == route@,
{
    let r = RouteRow {
        id: uuid_string(route.id),
        name: route.name.clone(),
        host: route.host.clone(),
        upstream_url: route.upstream_url.clone(),
        requires_auth: route.requires_auth,
        enabled: route.enabled,
        allowed_users: allowed_users_json(&route.allowed_users),
    };
    assert forall|fallback: u128| route_of_row(r, fallback) == route@ by {
        assert(route_of_row(r, fallback).allowed_users == route@.allowed_users);
    }
    r
}

/// The identity-service settings from their stored row; unset values read as
/// empty.
pub fn id_config_from_row(
    server_url: String,
    app_id: Option<String>,
    api_key: Option<String>,
    admin_origin: Option<String>,
) -> (r: IdConfig)
    ensures
        r.server_url@ == server_url@,
        r.app_id@ == (match app_id {
            Some(s) => s@,
            None => Seq::<char>::empty(),
        }),
        r.api_key@ == (match api_key {
            Some(s) => s@,
            None => Seq::<char>::empty(),
        }),
        r.admin_origin@ == (match admin_origin {
            Some(s) => s@,
            None => Seq::<char>::empty(),
        }),
{
    IdConfig {
        server_url,
        app_id: or_empty(app_id),
        api_key: or_empty(api_key),
        admin_origin: or_empty(admin_origin),
    }
}

fn or_empty(s: Option<String>) -> (r: String)
    ensures
        r@ == (match s {
            Some(v) => v@,
            None => Seq::<char>::empty(),
        }),
{
    match s {
        Some(v) => v,
        None => String::new(),
    }
}

/// An admin list is accepted when it names at least one user that is not
/// blank: replacing the admins with nobody would lock everyone out.
pub open spec fn admin_list_ok(names: Seq<Seq<char>>) -> bool {
    exists|i: int| 0 <= i < names.len() && trim(#[trigger] names[i]).len() > 0
}

/// Whether an admin list may replace the current admins.
pub fn admin_list_accepted(usernames: &Vec<String>) -> (r: bool)
    ensures
        r == admin_list_ok(usernames.deep_view()),
{
    let mut i: usize = 0;
    while i < usernames.len()
        invariant
            i <= usernames@.len(),
            forall|k: int| 0 <= k < i ==> trim(#[trigger] usernames.deep_view()[k]).len() == 0,
        decreases usernames.len() - i,
    {
        let c = chars_of(usernames[i].as_str());
        let t = trim_chars(&c);
        if t.len() > 0 {
            assert(trim(usernames.deep_view()[i as int]).len() > 0);
            return true;
        }
        i += 1;
    }
    false
}

/// The names in a comma-separated list from position `i` on: each piece
/// trimmed, blank pieces left out.
pub open spec fn names_from(s: Seq<char>, i: int) -> Seq<Seq<char>>
    decreases s.len() + 1 - i,
{
    if i < 0 || i > s.len() {
        Seq::empty()
    } else {
        let j = index_from(s, ',', i);
        proof {
            lemma_index_from_bounds(s, ',', i);
        }
        let t = trim(s.subrange(i, j));
        let here = if t.len() > 0 {
            seq![t]
        } else {
            Seq::<Seq<char>>::empty()
        };
        if j < s.len() {
            here + names_from(s, j + 1)
        } else {
            here
        }
    }
}

/// The names of a comma-separated list, trimmed, blank ones left out.
pub open spec fn comma_names(s: Seq<char>) -> Seq<Seq<char>> {
    names_from(s, 0)
}

/// Splits a comma-separated list of usernames, trimming each and leaving out
/// blank ones.
pub fn parse_admin_users(list: &str) -> (r: Vec<String>)
    ensures
        r.deep_view() == comma_names(list@),
{
    let v = chars_of(list);
    let n = v.len();
    let mut out: Vec<String> = Vec::new();
    let mut i: usize = 0;
    loop
        invariant
            n == v@.len(),
            i <= n,
            out.deep_view() + names_from(v@, i as int) == comma_names(list@),
        decreases n + 1 - i,
    {
        let j = index_of_from(&v, ',', i);
        let piece = copy_range(&v, i, j);
        let t = trim_chars(&piece);
        let ghost before = out.deep_view();
        if t.len() > 0 {
            out.push(to_string(&t));
        }
        if j >= n {
            assert(out.deep_view() =~= comma_names(list@));
            return out;
        }
        assert(out.deep_view() + names_from(v@, j + 1) =~= before + names_from(v@, i as int));
        i = j + 1;
    }
}

proof fn lemma_names_from(s: Seq<char>, i: int)
    ensures
        forall|k: int| 0 <= k < names_from(s, i).len() ==> {
            &&& (#[trigger] names_from(s, i)[k]).len() > 0
            &&& trim(names_from(s, i)[k]) == names_from(s, i)[k]
        },
    decreases s.len() + 1 - i,
{
    if 0 <= i <= s.len() {
        let j = index_from(s, ',', i);
        lemma_index_from_bounds(s, ',', i);
        let t = trim(s.subrange(i, j));
        lemma_trim_idempotent(s.subrange(i, j));
        let here = if t.len() > 0 {
            seq![t]
        } else {
            Seq::<Seq<char>>::empty()
        };
        if j < s.len() {
            lemma_names_from(s, j + 1);
            let rest = names_from(s, j + 1);
            let all = names_from(s, i);
            assert(all == here + rest);
            assert forall|k: int| 0 <= k < all.len() implies {
                &&& (#[trigger] all[k]).len() > 0
                &&& trim(all[k]) == all[k]
            } by {
                if k >= here.len() {
                    assert(all[k] == rest[k - here.len()]);
                }
            }
        }
    }
}

/// The admin names parsed from the setup form are trimmed and never blank.
pub proof fn parsed_admin_names_are_trimmed(list: Seq<char>)
    ensures
        forall|k: int| 0 <= k < comma_names(list).len() ==> {
            &&& (#[trigger] comma_names(list)[k]).len() > 0
            &&& trim(comma_names(list)[k]) == comma_names(list)[k]
        },
{
    lemma_names_from(list, 0);
}

/// A parsed admin list is accepted exactly when it names somebody: the
/// setup form's rejection of an empty list and the refusal to replace the
/// admins with nobody agree.
pub proof fn parsed_admin_list_accepted_iff_nonempty(list: Seq<char>)
    ensures
        admin_list_ok(comma_names(list)) <==> comma_names(list).len() > 0,
{
    lemma_names_from(list, 0);
    let names = comma_names(list);
    if names.len() > 0 {
        assert(trim(names[0]).len() > 0);
    }
}

} // verus!
