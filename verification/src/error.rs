//! Errors of the gateway and the HTTP answer each one is given.

use vstd::prelude::*;

use crate::templates::{error_page, error_page_text};
use crate::text::{chars_of, push_str, to_string};

verus! {

/// Gateway errors. The underlying database and I/O errors are carried by
/// their message.
pub enum GatewayError {
    Database(String),
    Proxy(String),
    RouteNotFound(String),
    Upstream(String),
    Io(String),
}

/// The HTTP status that answers an error of the given kind.
pub open spec fn error_status(e: GatewayError) -> u16 {
    match e {
        GatewayError::RouteNotFound(_) => 404,
        GatewayError::Upstream(_) | GatewayError::Proxy(_) => 502,
        _ => 500,
    }
}

/// The page title that answers an error of the given kind.
pub open spec fn error_title(e: GatewayError) -> Seq<char> {
    match e {
        GatewayError::RouteNotFound(_) => "Not Found"@,
        GatewayError::Upstream(_) | GatewayError::Proxy(_) => "Bad Gateway"@,
        _ => "Internal Server Error"@,
    }
}

/// The human-readable message of an error.
pub open spec fn error_message(e: GatewayError) -> Seq<char> {
    match e {
        GatewayError::Database(m) => "Database error: "@ + m@,
        GatewayError::Proxy(m) => "Proxy error: "@ + m@,
        GatewayError::RouteNotFound(m) => "Route not found: "@ + m@,
        GatewayError::Upstream(m) => "Upstream error: "@ + m@,
        GatewayError::Io(m) => "IO error: "@ + m@,
    }
}

impl GatewayError {
    /// The HTTP status code of the response to this error.
    pub fn status(&self) -> (r: u16)
        ensures
            r == error_status(*self),
    {
        match self {
            GatewayError::RouteNotFound(_) => 404,
            GatewayError::Upstream(_) | GatewayError::Proxy(_) => 502,
            _ => 500,
        }
    }

    /// The title shown on the error page.
    pub fn title(&self) -> (r: &'static str)
        ensures
            r@ == error_title(*self),
    {
        match self {
            GatewayError::RouteNotFound(_) => "Not Found",
            GatewayError::Upstream(_) | GatewayError::Proxy(_) => "Bad Gateway",
            _ => "Internal Server Error",
        }
    }

    /// The human-readable message of this error.
    pub fn message(&self) -> (r: String)
        ensures
            r@ == error_message(*self),
    {
        let (prefix, m) = match self {
            GatewayError::Database(m) => ("Database error: ", m),
            GatewayError::Proxy(m) => ("Proxy error: ", m),
            GatewayError::RouteNotFound(m) => ("Route not found: ", m),
            GatewayError::Upstream(m) => ("Upstream error: ", m),
            GatewayError::Io(m) => ("IO error: ", m),
        };
        let mut v = chars_of(prefix);
        push_str(&mut v, m.as_str());
        to_string(&v)
    }

    /// The HTML body of the response to this error: the error page for its
    /// status and title.
    pub fn error_response(&self) -> (r: String)
        ensures
            r@ == error_page_text(error_status(*self), error_title(*self)),
    {
        error_page(self.status(), self.title())
    }
}

} // verus!
