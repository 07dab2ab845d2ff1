use fido::config::{Config, ConfigError, DEFAULT_CONCURRENCY};

#[test]
fn positive_values_make_settings() {
    let config = Config::new(10, 30, true).unwrap();
    assert_eq!(config.concurrency(), 10);
    assert_eq!(config.timeout_secs(), 30);
    assert!(config.has_header());
    let config = Config::new(1, 1, false).unwrap();
    assert_eq!((config.concurrency(), config.timeout_secs(), config.has_header()), (1, 1, false));
    let config = Config::new(usize::MAX, u64::MAX, false).unwrap();
    assert_eq!((config.concurrency(), config.timeout_secs()), (usize::MAX, u64::MAX));
}

#[test]
fn zero_concurrency_is_refused() {
    assert_eq!(Config::new(0, 30, true), Err(ConfigError::ZeroConcurrency));
    assert_eq!(Config::new(0, 0, false), Err(ConfigError::ZeroConcurrency));
}

#[test]
fn zero_timeout_is_refused() {
    assert_eq!(Config::new(10, 0, true), Err(ConfigError::ZeroTimeout));
}

#[test]
fn default_concurrency_is_ten() {
    assert_eq!(DEFAULT_CONCURRENCY, 10);
}
