//! Process configuration: signing secret, token lifetimes, listen port.
//!
//! The configuration is an explicit immutable value passed into every
//! component; nothing reads ambient globals. Reading the environment is the
//! caller's business — the defaulting rules live here, verified.

use vstd::prelude::*;

verus! {

/// Service configuration. The two lifetimes are in seconds: a short one for
/// access tokens and a long one for refresh tokens.
#[derive(Debug)]
pub struct Config {
    pub database_url: String,
    pub server_port: u16,
    pub jwt_secret: String,
    pub jwt_expires_in: i64,
    pub jwt_refresh_expires_in: i64,
}

impl Config {
    /// Sane bounds on the two token lifetimes: positive, and small enough
    /// that `now + lifetime` never overflows for any realistic instant.
    pub open spec fn wf(self) -> bool {
        &&& 0 < self.jwt_expires_in <= 0x1_0000_0000
        &&& 0 < self.jwt_refresh_expires_in <= 0x1_0000_0000
    }

    /// Runtime check of [`Config::wf`], for callers that assemble a
    /// configuration from untrusted input.
    pub fn is_wf(&self) -> (b: bool)
        ensures
            b == self.wf(),
    {
        0 < self.jwt_expires_in && self.jwt_expires_in <= 0x1_0000_0000
            && 0 < self.jwt_refresh_expires_in && self.jwt_refresh_expires_in <= 0x1_0000_0000
    }

    /// Assembles a configuration from optional raw values, applying the
    /// documented defaults: port 3000, secret `"default_secret_key"` (an
    /// insecure fallback — deployments must set their own), access-token
    /// lifetime 3600 s, refresh-token lifetime 2592000 s.
    pub fn from_values(
        database_url: String,
        server_port: Option<u16>,
        jwt_secret: Option<String>,
        jwt_expires_in: Option<i64>,
        jwt_refresh_expires_in: Option<i64>,
    ) -> (c: Config)
        ensures
            c.database_url == database_url,
            c.server_port == (match server_port {
                Some(p) => p,
                None => 3000u16,
            }),
            c.jwt_secret@ == (match jwt_secret {
                Some(s) => s@,
                None => "default_secret_key"@,
            }),
            c.jwt_expires_in == (match jwt_expires_in {
                Some(n) => n,
                None => 3600i64,
            }),
            c.jwt_refresh_expires_in == (match jwt_refresh_expires_in {
                Some(n) => n,
                None => 2592000i64,
            }),
    {
        Config {
            database_url,
            server_port: match server_port {
                Some(p) => p,
                None => 3000,
            },
            jwt_secret: match jwt_secret {
                Some(s) => s,
                None => "default_secret_key".to_owned(),
            },
            jwt_expires_in: match jwt_expires_in {
                Some(n) => n,
                None => 3600,
            },
            jwt_refresh_expires_in: match jwt_refresh_expires_in {
                Some(n) => n,
                None => 2592000,
            },
        }
    }
}

} // verus!
