//! Process configuration, as plain values.

use vstd::prelude::*;
use vstd::string::StringExecFns;
use crate::decimal::{spec_decimal, u16_to_decimal};

verus! {

/// The configuration the authentication core works under. The signing key is
/// carried as the raw secret; key objects are derived from it where the
/// signing calls are made.
#[derive(Debug)]
pub struct Config {
    pub service_port: u16,
    pub database_url: String,
    pub jwt_secret: String,
    pub jwt_exp_access_token_second: i64,
    pub jwt_validation_leeway_seconds: i64,
    pub jwt_enable_revoked_tokens: bool,
    pub redis_host: String,
    pub redis_port: u16,
}

impl Config {
    /// The URL of the configured cache: the `redis` scheme, the host, and
    /// the port in decimal.
    pub fn redis_url(&self) -> (r: String)
        ensures
            r@ == "redis://"@ + self.redis_host@ + ":"@ + spec_decimal(self.redis_port as int),
    {
        let mut url = "redis://".to_owned();
        url.append(self.redis_host.as_str());
        url.append(":");
        let port = u16_to_decimal(self.redis_port);
        url.append(port.as_str());
        proof {
            assert(url@ =~= "redis://"@ + self.redis_host@ + ":"@ + spec_decimal(
                self.redis_port as int,
            ));
        }
        url
    }
}

} // verus!
