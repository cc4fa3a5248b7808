use kms_service::config::{default_enabled, DatabaseConfig, KeyTtlDays, MasterKeyB64, RateLimitConfig, RateLimitTier, RedisConfig};
use kms_service::rate_limiter::{status_from_counter, InMemoryRateLimiter, RateLimitStatus};

const SEC: u64 = 1_000_000_000;

#[test]
fn limiter_admits_up_to_the_limit_within_a_window() {
    let mut rl = InMemoryRateLimiter::new();
    assert_eq!(rl.check("k", 2, 10, 0), RateLimitStatus { allowed: true, current: 1 });
    assert_eq!(rl.check("k", 2, 10, SEC), RateLimitStatus { allowed: true, current: 2 });
    assert_eq!(rl.check("k", 2, 10, 2 * SEC), RateLimitStatus { allowed: false, current: 2 });
    // another key has its own window
    assert_eq!(rl.check("other", 2, 10, 2 * SEC), RateLimitStatus { allowed: true, current: 1 });
    // after the window the old admissions no longer count
    assert_eq!(rl.check("k", 2, 10, 10 * SEC + 1), RateLimitStatus { allowed: true, current: 2 });
}

#[test]
fn zero_window_counts_as_one_second_and_zero_limit_refuses() {
    let mut rl = InMemoryRateLimiter::new();
    assert!(rl.check("k", 1, 0, 0).allowed);
    assert!(!rl.check("k", 1, 0, SEC).allowed);
    assert!(rl.check("k", 1, 0, SEC + 1).allowed);
    assert_eq!(rl.check("z", 0, 5, 0), RateLimitStatus { allowed: false, current: 0 });
}

#[test]
fn shared_counter_is_compared_with_the_limit() {
    assert_eq!(status_from_counter(3, 3), RateLimitStatus { allowed: true, current: 3 });
    assert_eq!(status_from_counter(4, 3), RateLimitStatus { allowed: false, current: 4 });
    assert_eq!(status_from_counter(-1, 3), RateLimitStatus { allowed: false, current: u64::MAX });
}

#[test]
fn tiers_follow_the_path_prefix() {
    assert_eq!(RateLimitTier::from_path("/auth/login"), RateLimitTier::Auth);
    assert_eq!(RateLimitTier::from_path("/health"), RateLimitTier::Health);
    assert_eq!(RateLimitTier::from_path("/api/auth"), RateLimitTier::Global);
    let cfg = RateLimitConfig {
        global_per_second: 10,
        global_burst: 20,
        health_per_second: 1,
        health_burst: 2,
        auth_per_second: 3,
        auth_burst: 4,
    };
    assert_eq!(RateLimitTier::Global.get_limits(&cfg), (20, 10));
    assert_eq!(RateLimitTier::Auth.get_limits(&cfg), (4, 3));
    assert_eq!(RateLimitTier::Health.get_limits(&cfg), (2, 1));
}

#[test]
fn configuration_values_are_validated() {
    assert!(KeyTtlDays::parse(0).is_err());
    assert_eq!(KeyTtlDays::parse(3650).unwrap().days(), 3650);
    assert_eq!(KeyTtlDays::parse(3651).unwrap_err(), "key_ttl_days must be between 1 and 3650 days");
    assert_eq!(
        MasterKeyB64::parse("not base64!".to_string()).err().unwrap(),
        "master_key_b64 must be a valid Base64 string"
    );
    assert_eq!(
        MasterKeyB64::parse("AAAA".to_string()).err().unwrap(),
        "master_key_b64 after Base64 decoding must be exactly 32 bytes (256-bit key for AES-256-GCM)"
    );
    let ok = "AAAAAAAAAAAAAAAAAAAAAAAAAAAAAAAAAAAAAAAAAAA=".to_string();
    assert_eq!(MasterKeyB64::parse(ok.clone()).unwrap().as_str(), ok);
}

#[test]
fn defaults_and_connection_uri() {
    assert!(default_enabled());
    let r = RedisConfig::default();
    assert_eq!((r.host.as_str(), r.port, r.db, r.enabled), ("127.0.0.1", 6379, 0, true));
    assert!(r.password.is_none());
    let mut db = DatabaseConfig {
        host: "10.1.2.3".to_string(),
        port: 27017,
        user: Some("kms".to_string()),
        password: Some("pw".to_string()),
        name: "keys".to_string(),
        pool_size: 4,
        auth_source: None,
    };
    assert_eq!(db.connection_uri(), "mongodb://kms:pw@10.1.2.3:27017/keys?authSource=admin&directConnection=true");
    db.password = Some(String::new());
    db.auth_source = Some("kmsdb".to_string());
    assert_eq!(db.connection_uri(), "mongodb://10.1.2.3:27017/keys?authSource=kmsdb&directConnection=true");
}

#[test]
fn limiter_on_the_clock_admits_up_to_the_limit() {
    let mut rl = InMemoryRateLimiter::new();
    assert_eq!(rl.check_now("k", 2, 60), RateLimitStatus { allowed: true, current: 1 });
    assert_eq!(rl.check_now("k", 2, 60), RateLimitStatus { allowed: true, current: 2 });
    assert_eq!(rl.check_now("k", 2, 60), RateLimitStatus { allowed: false, current: 2 });
}

#[test]
fn refused_requests_are_not_counted_later() {
    let mut rl = InMemoryRateLimiter::new();
    assert_eq!(rl.check("k", 1, 10, 0), RateLimitStatus { allowed: true, current: 1 });
    assert_eq!(rl.check("k", 1, 10, 5 * SEC), RateLimitStatus { allowed: false, current: 1 });
    // only the admission at 0 counted, and it has left the window
    assert_eq!(rl.check("k", 1, 10, 10 * SEC + 1), RateLimitStatus { allowed: true, current: 1 });
    assert_eq!(rl.check("k", 1, 10, 15 * SEC), RateLimitStatus { allowed: false, current: 1 });
}

#[test]
fn each_request_is_judged_by_its_own_limit() {
    let mut rl = InMemoryRateLimiter::new();
    assert_eq!(rl.check("k", 1, 10, 0), RateLimitStatus { allowed: true, current: 1 });
    assert_eq!(rl.check("k", 1, 10, SEC), RateLimitStatus { allowed: false, current: 1 });
    assert_eq!(rl.check("k", 3, 10, 2 * SEC), RateLimitStatus { allowed: true, current: 2 });
    assert_eq!(rl.check("k", 2, 10, 3 * SEC), RateLimitStatus { allowed: false, current: 2 });
}
