//! Configuration values of the service, as plain data.
//!
//! Loading (a TOML file read from disk) and address parsing happen in the
//! surrounding program, which hands the parsed values over as strings; what
//! the core can check about them, it checks here.

use vstd::prelude::*;

verus! {

/// Webapp configuration.
pub struct AppConfig {
    /// Public base URL of the service; login links are built on it.
    pub url: String,
    /// Path of the credential database file.
    pub db: String,
}

/// Networking configuration.
pub struct NetConfig {
    /// HTTP bind address; requests there are redirected to HTTPS.
    pub http_addr: String,
    /// HTTPS bind address.
    pub https_addr: String,
}

/// ACME TLS certificate configuration.
pub struct AcmeConfig {
    /// Domain to request a certificate for.
    pub domain: String,
    /// Contact email.
    pub email: String,
    /// Directory to keep certificates and credentials in.
    pub dir: String,
    /// Whether to use the production or the staging ACME server.
    pub prod: bool,
}

/// Email configuration.
pub struct EmailConfig {
    /// SMTP address, expected to start with `smtp://`.
    pub smtp_addr: String,
    /// Mailbox to send email from.
    pub from: String,
}

/// The whole configuration of the service.
pub struct Config {
    pub app: AppConfig,
    pub net: NetConfig,
    pub acme: Option<AcmeConfig>,
    pub email: EmailConfig,
}

/// The scheme prefix an SMTP address must carry.
pub open spec fn smtp_scheme() -> Seq<char> {
    "smtp://"@
}

impl EmailConfig {
    /// Whether the SMTP address carries its required `smtp://` scheme.
    pub fn smtp_addr_has_scheme(&self) -> (r: bool)
        ensures
            r == (self.smtp_addr@.len() >= 7 && self.smtp_addr@.take(7) == smtp_scheme()),
    {
        let a = self.smtp_addr.as_str();
        if a.unicode_len() < 7 {
            return false;
        }
        let prefix = a.substring_char(0, 7).to_owned();
        let scheme = String::from_str("smtp://");
        let r = prefix == scheme;
        proof {
            assert(prefix@ == self.smtp_addr@.subrange(0, 7));
            assert(self.smtp_addr@.take(7) =~= self.smtp_addr@.subrange(0, 7));
        }
        r
    }
}

} // verus!
