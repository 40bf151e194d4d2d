//! Authentication: the identity-service client's requests and answers, admin
//! sessions and the cookies that carry them.

use vstd::prelude::*;

use crate::config::{IdConfig, IdConfigView};
use crate::ext::{
    format_rfc3339, four_digit_instant, parse_rfc3339, percent_encoded, rfc3339_instant, rfc3339_text, url_encode,
    uuid_hyphenated, uuid_string,
};
use crate::text::{
    chars_of, push_all, push_str, starts_with, starts_with_str, strip_trailing, strip_trailing_chars,
    to_string, trim, trim_chars,
};

verus! {

// ---------------------------------------------------------------------------
// Identity-service client
// ---------------------------------------------------------------------------

/// Client for the identity service, holding its configuration.
pub struct IdClient {
    pub config: IdConfig,
}

/// The admin origin with a scheme and without trailing slashes: `https://` is
/// put in front unless the origin already starts with `https://` or
/// `http://`.
pub open spec fn admin_origin_of(origin: Seq<char>) -> Seq<char> {
    let raw = strip_trailing(origin, '/');
    if starts_with(raw, "https://"@) || starts_with(raw, "http://"@) {
        raw
    } else {
        "https://"@ + raw
    }
}

/// The consent page of the application, with the callback URL
/// percent-encoded as `redirect_uri`.
pub open spec fn consent_url_of(c: IdConfigView, callback_url: Seq<char>) -> Seq<char> {
    c.server_url + "/consent/"@ + c.app_id + "?redirect_uri="@ + percent_encoded(
        vstd::utf8::encode_utf8(callback_url),
    )
}

impl IdClient {
    /// Creates a client for the given configuration.
    pub fn new(config: IdConfig) -> (r: Self)
        ensures
            r.config@ == config@,
    {
        IdClient { config }
    }

    /// Returns the admin origin with https:// prefix, trailing slash removed.
    pub fn admin_origin(&self) -> (r: String)
        ensures
            r@ == admin_origin_of(self.config.admin_origin@),
    {
        let o = chars_of(self.config.admin_origin.as_str());
        let raw = strip_trailing_chars(&o, '/');
        if starts_with_str(&raw, "https://") || starts_with_str(&raw, "http://") {
            to_string(&raw)
        } else {
            let mut v = chars_of("https://");
            push_all(&mut v, &raw);
            to_string(&v)
        }
    }

    /// The URL of the consent page that returns to `callback_url`.
    pub fn consent_url(&self, callback_url: &str) -> (r: String)
        ensures
            r@ == consent_url_of(self.config@, callback_url@),
    {
        let encoded = url_encode(callback_url);
        let mut v = chars_of(self.config.server_url.as_str());
        push_str(&mut v, "/consent/");
        push_str(&mut v, self.config.app_id.as_str());
        push_str(&mut v, "?redirect_uri=");
        push_str(&mut v, encoded.as_str());
        to_string(&v)
    }

    /// The endpoint that exchanges a sign-in code for a user token.
    pub fn exchange_endpoint(&self) -> (r: String)
        ensures
            r@ == self.config.server_url@ + "/api/v1/exchange"@,
    {
        let mut v = chars_of(self.config.server_url.as_str());
        push_str(&mut v, "/api/v1/exchange");
        to_string(&v)
    }

    /// The endpoint that returns the user behind a token.
    pub fn user_endpoint(&self) -> (r: String)
        ensures
            r@ == self.config.server_url@ + "/api/v1/user"@,
    {
        let mut v = chars_of(self.config.server_url.as_str());
        push_str(&mut v, "/api/v1/user");
        to_string(&v)
    }

    /// The endpoint that revokes a token.
    pub fn revoke_endpoint(&self) -> (r: String)
        ensures
            r@ == self.config.server_url@ + "/api/v1/revoke"@,
    {
        let mut v = chars_of(self.config.server_url.as_str());
        push_str(&mut v, "/api/v1/revoke");
        to_string(&v)
    }

    /// The `Authorization` header value sent with every request.
    pub fn authorization(&self) -> (r: String)
        ensures
            r@ == "Bearer "@ + self.config.api_key@,
    {
        let mut v = chars_of("Bearer ");
        push_str(&mut v, self.config.api_key.as_str());
        to_string(&v)
    }
}

/// The envelope of every identity-service answer.
pub struct ApiResponse<T> {
    pub success: bool,
    pub data: Option<T>,
    pub error: Option<String>,
}

/// A failed identity-service request, with its message.
pub struct ServiceError {
    pub message: String,
}

/// The message of a failed answer.
pub open spec fn service_error_message(success: bool, error: Option<String>) -> Seq<char> {
    if success {
        "No data in response"@
    } else {
        match error {
            Some(m) => m@,
            None => "Unknown error"@,
        }
    }
}

impl<T> ApiResponse<T> {
    /// The payload of a successful answer; otherwise the service's error
    /// message, `Unknown error` when it gave none, or `No data in response`
    /// for a success without payload.
    pub fn into_result(self) -> (r: Result<T, ServiceError>)
        ensures
            r is Ok <==> self.success && self.data is Some,
            r matches Ok(d) ==> self.data == Some(d),
            r matches Err(e) ==> e.message@ == service_error_message(self.success, self.error),
    {
        if self.success {
            match self.data {
                Some(d) => Ok(d),
                None => {
                    let m = chars_of("No data in response");
                    Err(ServiceError { message: to_string(&m) })
                },
            }
        } else {
            match self.error {
                Some(e) => Err(ServiceError { message: e }),
                None => {
                    let m = chars_of("Unknown error");
                    Err(ServiceError { message: to_string(&m) })
                },
            }
        }
    }
}

/// Answer to a code exchange.
pub struct ExchangeResponse {
    pub token: String,
}

/// The user behind a token.
pub struct UserInfo {
    pub id: String,
    pub username: Option<String>,
}

/// The username a user is authorized under: the trimmed username, when it is
/// not blank.
pub open spec fn usable_username(u: UserInfo) -> Option<Seq<char>> {
    match u.username {
        Some(n) => if trim(n@).len() > 0 {
            Some(trim(n@))
        } else {
            None
        },
        None => None,
    }
}

/// The trimmed username of a user, or `None` when there is none or it is
/// blank: such a user cannot be checked against a whitelist.
pub fn authorized_username(user: &UserInfo) -> (r: Option<String>)
    ensures
        match r {
            Some(n) => usable_username(*user) == Some(n@),
            None => usable_username(*user) is None,
        },
{
    match &user.username {
        Some(n) => {
            let c = chars_of(n.as_str());
            let t = trim_chars(&c);
            if t.len() > 0 {
                Some(to_string(&t))
            } else {
                None
            }
        },
        None => None,
    }
}

// ---------------------------------------------------------------------------
// Admin sessions
// ---------------------------------------------------------------------------

/// An instant as chrono's `DateTime<Utc>` counts it: whole seconds since the
/// Unix epoch and the nanoseconds past that second.
#[derive(Clone, Copy, Debug, PartialEq, Eq, Structural)]
pub struct Timestamp {
    pub seconds: i64,
    pub subsec_nanos: u32,
}

/// Nanoseconds since the Unix epoch.
pub open spec fn nanos_of(t: Timestamp) -> int {
    t.seconds * 1_000_000_000 + t.subsec_nanos
}

/// The instant in nanoseconds since the Unix epoch.
pub fn instant_nanos(t: Timestamp) -> (r: i128)
    ensures
        r == nanos_of(t),
{
    (t.seconds as i128) * 1_000_000_000 + (t.subsec_nanos as i128)
}

/// The last second chrono holds, 262142-12-31T23:59:59Z, in seconds since
/// the Unix epoch.
pub const LATEST_SECONDS: i64 = 8_210_266_876_799;

/// Interval between token validations at the identity service: a session's
/// token is checked again at most every five minutes. In nanoseconds.
pub const VALIDATION_INTERVAL_NANOS: i128 = 300_000_000_000;

/// Lifetime of an admin session: 24 hours, in seconds.
pub const SESSION_LIFETIME_SECONDS: i64 = 86_400;

/// An admin session.
pub struct Session {
    pub id: String,
    pub user_id: String,
    pub username: String,
    pub token: String,
    pub expires_at: Timestamp,
    pub last_validated: Timestamp,
}

/// A session is re-validated once more than the validation interval has
/// passed since it was last validated.
pub open spec fn validation_due(last_validated: Timestamp, now: Timestamp) -> bool {
    nanos_of(now) - nanos_of(last_validated) > VALIDATION_INTERVAL_NANOS
}

/// A session has expired once its expiry instant is no longer in the future.
pub open spec fn session_expired(expires_at: Timestamp, now: Timestamp) -> bool {
    nanos_of(expires_at) <= nanos_of(now)
}

/// The instant one session lifetime after `now`.
pub open spec fn lifetime_after(now: Timestamp) -> Timestamp {
    Timestamp { seconds: (now.seconds + SESSION_LIFETIME_SECONDS) as i64, subsec_nanos: now.subsec_nanos }
}

/// Once a session is due for validation it stays due as time goes on, until
/// it is validated again.
pub proof fn validation_due_is_monotonic(last_validated: Timestamp, t1: Timestamp, t2: Timestamp)
    requires
        validation_due(last_validated, t1),
        nanos_of(t1) <= nanos_of(t2),
    ensures
        validation_due(last_validated, t2),
{
}

/// A session validated at `now` is not due for validation at `now`.
pub proof fn fresh_session_not_due(now: Timestamp)
    ensures
        !validation_due(now, now),
{
}

/// A session created at `now` is alive for 24 hours, and from then on
/// expired.
pub proof fn session_lives_one_lifetime(now: Timestamp, t: Timestamp)
    requires
        now.seconds + SESSION_LIFETIME_SECONDS <= i64::MAX,
    ensures
        session_expired(lifetime_after(now), t) <==> nanos_of(t) >= nanos_of(now) + 86_400_000_000_000,
{
}

impl Session {
    /// A new session validated at `now` and expiring one lifetime later.
    pub fn new(id: String, user_id: String, username: String, token: String, now: Timestamp) -> (r: Session)
        requires
            now.seconds + SESSION_LIFETIME_SECONDS <= i64::MAX,
        ensures
            r.id@ == id@,
            r.user_id@ == user_id@,
            r.username@ == username@,
            r.token@ == token@,
            r.last_validated == now,
            r.expires_at == lifetime_after(now),
    {
        Session {
            id,
            user_id,
            username,
            token,
            expires_at: Timestamp { seconds: now.seconds + SESSION_LIFETIME_SECONDS, subsec_nanos: now.subsec_nanos },
            last_validated: now,
        }
    }

    /// Whether, at instant `now`, the token should be re-validated at the
    /// identity service: more than five minutes have passed since it was
    /// last validated.
    pub fn needs_validation(&self, now: Timestamp) -> (r: bool)
        ensures
            r == validation_due(self.last_validated, now),
    {
        instant_nanos(now) - instant_nanos(self.last_validated) > VALIDATION_INTERVAL_NANOS
    }

    /// Whether the session has expired at instant `now`.
    pub fn expired_at(&self, now: Timestamp) -> (r: bool)
        ensures
            r == session_expired(self.expires_at, now),
    {
        instant_nanos(self.expires_at) <= instant_nanos(now)
    }
}

/// Creates a session for a signed-in user with the UUID `id`, validated at
/// `now` and expiring 24 hours later; `None` when that expiry lies beyond
/// the last instant chrono holds.
pub fn create_session(user_id: &str, username: &str, token: &str, id: u128, now: Timestamp) -> (r: Option<
    Session,
>)
    ensures
        r is Some <==> now.seconds <= LATEST_SECONDS - SESSION_LIFETIME_SECONDS,
        r matches Some(s) ==> {
            &&& s.id@ == uuid_hyphenated(id)
            &&& s.user_id@ == user_id@
            &&& s.username@ == username@
            &&& s.token@ == token@
            &&& s.last_validated == now
            &&& s.expires_at == lifetime_after(now)
        },
{
    if now.seconds > LATEST_SECONDS - SESSION_LIFETIME_SECONDS {
        return None;
    }
    let sid = uuid_string(id);
    let u = chars_of(user_id);
    let n = chars_of(username);
    let t = chars_of(token);
    Some(Session::new(sid, to_string(&u), to_string(&n), to_string(&t), now))
}

/// The instant a stored timestamp denotes; a timestamp that does not parse
/// counts as `fallback`.
pub open spec fn stored_instant(text: Seq<char>, fallback: Timestamp) -> Timestamp {
    match rfc3339_instant(text) {
        Some((seconds, nanos)) => Timestamp { seconds, subsec_nanos: nanos },
        None => fallback,
    }
}

fn read_timestamp(text: &str, fallback: Timestamp) -> (r: Timestamp)
    ensures
        r == stored_instant(text@, fallback),
{
    match parse_rfc3339(text) {
        Some((seconds, nanos)) => Timestamp { seconds, subsec_nanos: nanos },
        None => fallback,
    }
}

/// Reads a session from its stored row, whose timestamps are RFC 3339 text.
/// A timestamp that does not parse counts as `now`, the current time.
pub fn session_from_row(
    id: String,
    user_id: String,
    username: String,
    token: String,
    expires_at: &str,
    last_validated: &str,
    now: Timestamp,
) -> (r: Session)
    ensures
        r.id@ == id@,
        r.user_id@ == user_id@,
        r.username@ == username@,
        r.token@ == token@,
        r.expires_at == stored_instant(expires_at@, now),
        r.last_validated == stored_instant(last_validated@, now),
{
    let e = read_timestamp(expires_at, now);
    let l = read_timestamp(last_validated, now);
    Session { id, user_id, username, token, expires_at: e, last_validated: l }
}

/// The RFC 3339 text under which an instant is stored, or `None` for an
/// instant chrono does not hold. An instant of a four-digit year is always
/// stored, and reading its text back gives the same instant.
pub fn stored_timestamp(t: Timestamp) -> (r: Option<String>)
    ensures
        match r {
            Some(s) => rfc3339_text(t.seconds, t.subsec_nanos) == Some(s@),
            None => rfc3339_text(t.seconds, t.subsec_nanos) is None,
        },
        four_digit_instant(t.seconds, t.subsec_nanos) ==> (r matches Some(s) && stored_instant(s@, t) == t),
{
    format_rfc3339(t.seconds, t.subsec_nanos)
}

// ---------------------------------------------------------------------------
// Cookies
// ---------------------------------------------------------------------------

/// Name of the admin session cookie.
pub const SESSION_COOKIE: &'static str = "gateway_session";

/// Name of the cookie carrying the proxied user's ID token.
pub const USER_TOKEN_COOKIE: &'static str = "gateway_user_token";

/// Cookie lifetime for sessions and tokens: 24 hours, in seconds.
pub const COOKIE_MAX_AGE_SECONDS: i64 = 86_400;

/// The attributes of a cookie the gateway sets. `secure` is `None` when the
/// attribute is left out; `same_site_lax` adds `SameSite=Lax`.
pub struct CookieSpec {
    pub name: String,
    pub value: String,
    pub path: String,
    pub http_only: bool,
    pub secure: Option<bool>,
    pub same_site_lax: bool,
    pub max_age_seconds: i64,
}

fn cookie(name: &str, value: &str, secure: Option<bool>, same_site_lax: bool, max_age_seconds: i64) -> (r: CookieSpec)
    ensures
        r.name@ == name@,
        r.value@ == value@,
        r.path@ == "/"@,
        r.http_only,
        r.secure == secure,
        r.same_site_lax == same_site_lax,
        r.max_age_seconds == max_age_seconds,
{
    let n = chars_of(name);
    let v = chars_of(value);
    let p = chars_of("/");
    CookieSpec {
        name: to_string(&n),
        value: to_string(&v),
        path: to_string(&p),
        http_only: true,
        secure,
        same_site_lax,
        max_age_seconds,
    }
}

/// Create a session cookie: HttpOnly, path `/`, SameSite=Lax, 24 hours.
pub fn create_session_cookie(session_id: &str, secure: bool) -> (r: CookieSpec)
    ensures
        r.name@ == SESSION_COOKIE@,
        r.value@ == session_id@,
        r.path@ == "/"@,
        r.http_only,
        r.secure == Some(secure),
        r.same_site_lax,
        r.max_age_seconds == COOKIE_MAX_AGE_SECONDS,
{
    cookie(SESSION_COOKIE, session_id, Some(secure), true, COOKIE_MAX_AGE_SECONDS)
}

/// Create a cookie that clears the session: empty, expiring at once.
pub fn clear_session_cookie() -> (r: CookieSpec)
    ensures
        r.name@ == SESSION_COOKIE@,
        r.value@ == Seq::<char>::empty(),
        r.path@ == "/"@,
        r.http_only,
        r.secure is None,
        !r.same_site_lax,
        r.max_age_seconds == 0,
{
    proof {
        reveal_strlit("");
    }
    cookie(SESSION_COOKIE, "", None, false, 0)
}

/// Build the proxy session cookie. Mirrors the admin session cookie: HttpOnly
/// so script can never read the bearer token, Secure as requested, and
/// SameSite=Lax.
pub fn user_token_cookie(token: &str, secure: bool) -> (r: CookieSpec)
    ensures
        r.name@ == USER_TOKEN_COOKIE@,
        r.value@ == token@,
        r.path@ == "/"@,
        r.http_only,
        r.secure == Some(secure),
        r.same_site_lax,
        r.max_age_seconds == COOKIE_MAX_AGE_SECONDS,
{
    cookie(USER_TOKEN_COOKIE, token, Some(secure), true, COOKIE_MAX_AGE_SECONDS)
}

/// The cookie that removes a stale user token, including one set by script
/// without HttpOnly: removal matches on name and path.
pub fn clear_user_token_cookie() -> (r: CookieSpec)
    ensures
        r.name@ == USER_TOKEN_COOKIE@,
        r.value@ == Seq::<char>::empty(),
        r.path@ == "/"@,
        r.http_only,
        r.secure is None,
        r.same_site_lax,
        r.max_age_seconds == 0,
{
    proof {
        reveal_strlit("");
    }
    cookie(USER_TOKEN_COOKIE, "", None, true, 0)
}

} // verus!
