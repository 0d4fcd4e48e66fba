//! Host configuration: which ports to serve on and how certificates are
//! provided. Reading and writing the configuration file is the host's
//! concern; the default values and the per-mode decisions live here.

use vstd::prelude::*;

verus! {

/// How the host obtains its TLS certificate, or that it serves plain
/// HTTP.
#[derive(Clone, Copy, Debug, PartialEq, Eq, Structural)]
pub enum CertMode {
    /// A generated, self-signed certificate.
    SelfSigned,
    /// A certificate placed by the operator.
    Manual,
    /// No TLS: serve plain HTTP only.
    NoTls,
}

/// The host's configuration.
#[derive(Clone, Copy, Debug, PartialEq, Eq, Structural)]
pub struct SystemConfig {
    /// Plain-HTTP port.
    pub http: u16,
    /// TLS port.
    pub https: u16,
    /// How certificates are provided.
    pub cert_mode: CertMode,
}

impl Default for SystemConfig {
    /// The configuration written on first start, when no file exists
    /// yet.
    fn default() -> (r: Self)
        ensures
            r.http == 8080,
            r.https == 8443,
            r.cert_mode == CertMode::NoTls,
    {
        SystemConfig { http: 8080, https: 8443, cert_mode: CertMode::NoTls }
    }
}

impl SystemConfig {
    /// Whether this configuration serves over TLS (and redirects plain
    /// HTTP to it).
    pub fn uses_tls(&self) -> (r: bool)
        ensures
            r == !(self.cert_mode is NoTls),
    {
        !matches!(self.cert_mode, CertMode::NoTls)
    }
}

/// Where each certificate mode's PEM files live: certificate first, key
/// second; nothing for plain HTTP.
pub fn cert_paths(mode: &CertMode) -> (r: Option<(&'static str, &'static str)>)
    ensures
        match r {
            Some(p) => !(*mode is NoTls) && (*mode is SelfSigned ==> p.0@
                == "self_signed_certs/cert.pem"@ && p.1@ == "self_signed_certs/key.pem"@) && (*mode
                is Manual ==> p.0@ == "manual_certs/cert.pem"@ && p.1@ == "manual_certs/key.pem"@),
            None => *mode is NoTls,
        },
{
    match mode {
        CertMode::SelfSigned => Some(("self_signed_certs/cert.pem", "self_signed_certs/key.pem")),
        CertMode::Manual => Some(("manual_certs/cert.pem", "manual_certs/key.pem")),
        CertMode::NoTls => None,
    }
}

} // verus!
