use dock_badge::logging::{
    setup_logging, verbosity_variable, LogSettings, TimestampPrecision, Verbosity,
};

#[test]
fn test_setup_logging() {
    setup_logging(false);
    assert_eq!(1, 1, "NOT OK")
}

#[test]
fn default_verbosity_is_informational() {
    assert_eq!(
        setup_logging(false),
        LogSettings { verbosity: Verbosity::Info, timestamp: TimestampPrecision::Millis }
    );
}

#[test]
fn override_is_honoured() {
    assert_eq!(
        setup_logging(true),
        LogSettings { verbosity: Verbosity::FromEnvironment, timestamp: TimestampPrecision::Millis }
    );
}

#[test]
fn verbosity_override_is_read_from_rust_log() {
    assert_eq!(verbosity_variable(), "RUST_LOG");
}
