use headprobe::config::{Config, ConfigError};
use headprobe::limit::{check, plan, Adjustment, LimitError};

#[test]
fn default_configuration() {
    let c = Config::default();
    assert_eq!(c.connections, 1000);
    assert_eq!(c.timeout, 10);
    assert!(!c.insecure);
    assert_eq!(c.validate(), Ok(c));
    assert_eq!(c.descriptors_needed(), 1010);
}

#[test]
fn invalid_configurations_are_rejected() {
    assert_eq!(Config::new(0, 10, false).validate(), Err(ConfigError::NoConnections));
    assert_eq!(Config::new(5, 0, true).validate(), Err(ConfigError::NoTimeout));
    assert_eq!(Config::new(0, 0, false).validate(), Err(ConfigError::NoConnections));
    assert_eq!(
        Config::new(u64::MAX - 9, 10, false).validate(),
        Err(ConfigError::TooManyConnections)
    );
    let edge = Config::new(u64::MAX - 10, 1, true);
    assert_eq!(edge.validate(), Ok(edge));
    assert_eq!(edge.descriptors_needed(), u64::MAX);
}

#[test]
fn hard_ceiling_too_low_is_fatal() {
    assert!(matches!(
        plan(1024, 4096, 5000),
        Err(LimitError::Insufficient { requested: 5000, allowed: 4096 })
    ));
}

#[test]
fn soft_ceiling_is_raised_when_hard_allows() {
    assert!(matches!(plan(256, 4096, 1010), Ok(Adjustment::Raised { from: 256, to: 1010 })));
    assert!(matches!(plan(256, 1010, 1010), Ok(Adjustment::Raised { from: 256, to: 1010 })));
}

#[test]
fn enough_descriptors_leave_ceilings_alone() {
    assert!(matches!(plan(1024, 4096, 1010), Ok(Adjustment::Unchanged)));
    assert!(matches!(plan(1010, 1010, 1010), Ok(Adjustment::Unchanged)));
}

#[test]
fn preflight_of_a_small_request_succeeds() {
    assert!(matches!(check(1), Ok(Adjustment::Unchanged)));
}
