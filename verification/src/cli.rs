//! The command line of the gateway.

use vstd::prelude::*;

use crate::text::{chars_of, decimal, decimal_chars, push_all, push_str, to_string};

verus! {

/// Command-line arguments. Paths are held as text.
pub struct Args {
    /// Port to listen on.
    pub port: u16,
    /// Host to bind to.
    pub host: String,
    /// Path to the SQLite database file.
    pub database: String,
    /// Path to the TLS certificate file (PEM).
    pub tls_cert: Option<String>,
    /// Path to the TLS private key file (PEM).
    pub tls_key: Option<String>,
    /// Log level.
    pub log_level: String,
}

/// The message for a TLS configuration that names only one of the two files.
pub const TLS_PAIR_REQUIRED: &'static str = "Both --tls-cert and --tls-key must be provided for TLS";

impl Args {
    /// The address to listen on: host, `:`, port.
    pub fn bind_addr(&self) -> (r: String)
        ensures
            r@ == self.host@ + seq![':'] + decimal(self.port as nat),
    {
        let mut v = chars_of(self.host.as_str());
        let ghost h = v@;
        v.push(':');
        let p = decimal_chars(self.port as u64);
        push_all(&mut v, &p);
        assert(v@ =~= h + seq![':'] + decimal(self.port as nat));
        to_string(&v)
    }

    /// The TLS files: both or neither must be given. With both, TLS is
    /// served with that certificate and key; with neither, plain HTTP.
    pub fn tls_files(&self) -> (r: Result<Option<(String, String)>, String>)
        ensures
            self.tls_cert is Some && self.tls_key is Some ==> (r matches Ok(Some((c, k))) && c@
                == self.tls_cert->Some_0@ && k@ == self.tls_key->Some_0@),
            self.tls_cert is None && self.tls_key is None ==> r matches Ok(None),
            self.tls_cert is Some != self.tls_key is Some ==> (r matches Err(m) && m@ == TLS_PAIR_REQUIRED@),
    {
        match (&self.tls_cert, &self.tls_key) {
            (Some(c), Some(k)) => Ok(Some((c.clone(), k.clone()))),
            (None, None) => Ok(None),
            _ => {
                let m = chars_of(TLS_PAIR_REQUIRED);
                Err(to_string(&m))
            },
        }
    }
}

} // verus!
