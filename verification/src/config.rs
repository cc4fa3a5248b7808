//! Validated configuration values: master keys, key lifetimes, rate-limit
//! tiers, the cache and the database connection.
use crate::primitives::{base64_decode, spec_base64_decode};
use crate::text::{
    concat2, concat3, concat4, concat5, owned, spec_decimal, starts_with, u64_to_decimal,
};
use vstd::prelude::*;
use vstd::string::StringSliceAdditionalSpecFns;
use vstd::utf8::encode_utf8;

verus! {

/// A master key in standard Base64 that decodes to exactly 32 bytes.
pub struct MasterKeyB64(pub String);

/// A key lifetime in days, between 1 and 3650.
#[derive(Debug, Clone, Copy, PartialEq, Eq, Structural)]
pub struct KeyTtlDays(pub u64);

/// How long, in minutes, a rotated-out key stays usable.
#[derive(Debug, Clone, Copy, PartialEq, Eq, Structural)]
pub struct GracePeriodMinutes(pub i64);

/// The master-key configuration of the key store.
pub struct CryptoSettings {
    /// Each master key with its version.
    pub master_keys: Vec<(i32, MasterKeyB64)>,
    /// The version new keys are sealed under.
    pub current_master_key_version: i32,
    pub default_key_ttl_days: KeyTtlDays,
    pub grace_period_minutes: GracePeriodMinutes,
}

/// Why a configured master key is refused, if it is.
pub open spec fn spec_master_key_problem(s: Seq<char>) -> Option<Seq<char>> {
    match spec_base64_decode(encode_utf8(s)) {
        Err(_) => Some("master_key_b64 must be a valid Base64 string"@),
        Ok(bytes) => if bytes.len() != 32 {
            Some(
                "master_key_b64 after Base64 decoding must be exactly 32 bytes (256-bit key for AES-256-GCM)"@,
            )
        } else {
            None
        },
    }
}

impl MasterKeyB64 {
    /// Accepts `s` when it is Base64 for exactly 32 bytes; otherwise the reason.
    pub fn parse(s: String) -> (r: Result<MasterKeyB64, String>)
        ensures
            match r {
                Ok(k) => spec_master_key_problem(s@) is None && k.0@ == s@,
                Err(m) => spec_master_key_problem(s@) == Some(m@),
            },
    {
        match base64_decode(s.as_str()) {
            Err(_) => Err(owned("master_key_b64 must be a valid Base64 string")),
            Ok(decoded) => {
                if decoded.len() != 32 {
                    Err(
                        owned(
                            "master_key_b64 after Base64 decoding must be exactly 32 bytes (256-bit key for AES-256-GCM)",
                        ),
                    )
                } else {
                    Ok(MasterKeyB64(s))
                }
            },
        }
    }

    /// The Base64 text.
    pub fn as_str(&self) -> (r: &str)
        ensures
            r@ == self.0@,
    {
        self.0.as_str()
    }
}

impl KeyTtlDays {
    /// Accepts lifetimes from 1 to 3650 days.
    pub fn parse(val: u64) -> (r: Result<KeyTtlDays, String>)
        ensures
            match r {
                Ok(t) => 1 <= val <= 3650 && t.0 == val,
                Err(m) => !(1 <= val <= 3650) && m@ == "key_ttl_days must be between 1 and 3650 days"@,
            },
    {
        if !(1 <= val && val <= 3650) {
            return Err(owned("key_ttl_days must be between 1 and 3650 days"));
        }
        Ok(KeyTtlDays(val))
    }

    /// The lifetime in days.
    pub fn days(&self) -> (r: u64)
        ensures
            r == self.0,
    {
        self.0
    }
}

impl GracePeriodMinutes {
    /// The grace period in minutes.
    pub fn minutes(&self) -> (r: i64)
        ensures
            r == self.0,
    {
        self.0
    }
}

/// Request budgets per tier: a burst size and a refill rate per second.
#[derive(Debug, Clone, Copy)]
pub struct RateLimitConfig {
    pub global_per_second: u64,
    pub global_burst: u32,
    pub health_per_second: u64,
    pub health_burst: u32,
    pub auth_per_second: u64,
    pub auth_burst: u32,
}

/// The rate-limit category of a request path.
#[derive(Debug, Clone, Copy, PartialEq, Eq, Structural)]
pub enum RateLimitTier {
    Global,
    Auth,
    Health,
}

/// The tier of a path: `/auth…` paths, then `/health…` paths, then everything else.
pub open spec fn spec_tier_of(path: Seq<char>) -> RateLimitTier {
    if "/auth"@.is_prefix_of(path) {
        RateLimitTier::Auth
    } else if "/health"@.is_prefix_of(path) {
        RateLimitTier::Health
    } else {
        RateLimitTier::Global
    }
}

/// The (burst, per-second) budget of a tier.
pub open spec fn spec_tier_limits(tier: RateLimitTier, config: RateLimitConfig) -> (u64, u64) {
    match tier {
        RateLimitTier::Global => (config.global_burst as u64, config.global_per_second),
        RateLimitTier::Auth => (config.auth_burst as u64, config.auth_per_second),
        RateLimitTier::Health => (config.health_burst as u64, config.health_per_second),
    }
}

impl RateLimitTier {
    /// The tier a request path belongs to.
    pub fn from_path(path: &str) -> (r: RateLimitTier)
        ensures
            r == spec_tier_of(path@),
    {
        if starts_with(path, "/auth") {
            RateLimitTier::Auth
        } else if starts_with(path, "/health") {
            RateLimitTier::Health
        } else {
            RateLimitTier::Global
        }
    }

    /// The (burst, per-second) budget of this tier.
    pub fn get_limits(&self, config: &RateLimitConfig) -> (r: (u64, u64))
        ensures
            r == spec_tier_limits(*self, *config),
    {
        match self {
            RateLimitTier::Global => (config.global_burst as u64, config.global_per_second),
            RateLimitTier::Auth => (config.auth_burst as u64, config.auth_per_second),
            RateLimitTier::Health => (config.health_burst as u64, config.health_per_second),
        }
    }
}

/// The cache connection settings.
pub struct RedisConfig {
    pub host: String,
    pub port: u16,
    pub password: Option<String>,
    pub db: i32,
    pub enabled: bool,
}

/// Whether the cache is enabled when the configuration does not say.
pub fn default_enabled() -> (r: bool)
    ensures
        r,
{
    true
}

impl RedisConfig {
    /// The local default: 127.0.0.1:6379, no password, database 0, enabled.
    pub fn default() -> (r: RedisConfig)
        ensures
            r.host@ == "127.0.0.1"@,
            r.port == 6379,
            r.password is None,
            r.db == 0,
            r.enabled,
    {
        RedisConfig {
            host: owned("127.0.0.1"),
            port: 6379,
            password: None,
            db: 0,
            enabled: default_enabled(),
        }
    }
}

/// The database connection settings.
pub struct DatabaseConfig {
    /// The server's IP address, as text.
    pub host: String,
    pub port: u16,
    pub user: Option<String>,
    pub password: Option<String>,
    pub name: String,
    pub pool_size: u32,
    pub auth_source: Option<String>,
}

/// The `user:password@` part of the connection URI: present only when both
/// are given and non-empty.
pub open spec fn spec_credentials(user: Option<String>, password: Option<String>) -> Seq<char> {
    match (user, password) {
        (Some(u), Some(p)) => if u@.len() > 0 && p@.len() > 0 {
            u@ + ":"@ + p@ + "@"@
        } else {
            Seq::empty()
        },
        _ => Seq::empty(),
    }
}

/// `mongodb://{credentials}{host}:{port}/{name}?authSource={source}&directConnection=true`,
/// with `admin` as the default authentication source.
pub open spec fn spec_connection_uri(c: DatabaseConfig) -> Seq<char> {
    let source = match c.auth_source {
        Some(s) => s@,
        None => "admin"@,
    };
    "mongodb://"@ + spec_credentials(c.user, c.password) + c.host@ + ":"@ + spec_decimal(
        c.port as nat,
    ) + "/"@ + c.name@ + "?authSource="@ + source + "&directConnection=true"@
}

impl DatabaseConfig {
    /// The connection URI for these settings.
    pub fn connection_uri(&self) -> (r: String)
        ensures
            r@ == spec_connection_uri(*self),
    {
        let credentials = match (&self.user, &self.password) {
            (Some(u), Some(p)) => {
                if u.as_str().is_empty() || p.as_str().is_empty() {
                    String::new()
                } else {
                    concat4(u.as_str(), ":", p.as_str(), "@")
                }
            },
            _ => String::new(),
        };
        let source = match &self.auth_source {
            Some(s) => s.clone(),
            None => owned("admin"),
        };
        let port = u64_to_decimal(self.port as u64);
        let head = concat5("mongodb://", credentials.as_str(), self.host.as_str(), ":", port.as_str());
        let tail = concat5("/", self.name.as_str(), "?authSource=", source.as_str(), "&directConnection=true");
        let r = concat2(head.as_str(), tail.as_str());
        r
    }
}

} // verus!
