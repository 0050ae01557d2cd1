use ups_monitor::config::{parse_level, AppConfig, ConfigError, LogLevel, ShutdownTrigger};
use ups_monitor::time::Duration;

fn invalid_message(config: &AppConfig) -> String {
    match config.validate() {
        Err(ConfigError::Invalid(message)) => message,
        other => panic!("expected an invalid configuration, got {other:?}"),
    }
}

#[test]
fn rejects_impossible_low_battery_percent() {
    let mut config = AppConfig::default();
    config.monitor.low_battery_percent = 101;

    assert!(config.validate().is_err());
}

#[test]
fn default_configuration_is_valid() {
    let config = AppConfig::default();
    assert!(config.validate().is_ok());
    assert_eq!(config.snmp.address, "192.168.0.255");
    assert_eq!(config.snmp.port, 161);
    assert_eq!(config.snmp.username, "local3");
    assert_eq!(config.snmp.timeout, Duration::from_secs(3));
    assert_eq!(config.ups.adapter, "ups_mib");
    assert_eq!(config.monitor.trigger, ShutdownTrigger::Either);
    assert_eq!(config.monitor.low_battery_percent, 30);
    assert_eq!(config.monitor.poll_interval, Duration::from_secs(10));
    assert_eq!(config.monitor.max_on_battery, Duration::from_secs(60));
    assert!(config.shutdown.dry_run);
    assert_eq!(config.shutdown.command, vec!["/sbin/shutdown", "-h", "+0"]);
    assert_eq!(config.logging.level, "info");
    assert!(config.logging.file.is_none());
}

#[test]
fn blank_address_is_reported_first() {
    let mut config = AppConfig::default();
    config.snmp.address = " \t".to_string();
    config.snmp.username = String::new();
    assert_eq!(invalid_message(&config), "snmp.address must not be empty");
}

#[test]
fn blank_username_is_rejected() {
    let mut config = AppConfig::default();
    config.snmp.username = "\u{3000}".to_string();
    assert_eq!(invalid_message(&config), "snmp.username must not be empty");
}

#[test]
fn zero_poll_interval_is_rejected() {
    let mut config = AppConfig::default();
    config.monitor.poll_interval = Duration::from_secs(0);
    assert_eq!(
        invalid_message(&config),
        "monitor.poll_interval must be greater than zero"
    );
}

#[test]
fn low_battery_percent_of_one_hundred_is_accepted() {
    let mut config = AppConfig::default();
    config.monitor.low_battery_percent = 100;
    assert!(config.validate().is_ok());
    config.monitor.low_battery_percent = 101;
    assert_eq!(
        invalid_message(&config),
        "monitor.low_battery_percent must be between 0 and 100"
    );
}

#[test]
fn zero_duration_limit_matters_only_when_duration_is_checked() {
    let mut config = AppConfig::default();
    config.monitor.max_on_battery = Duration::from_secs(0);
    assert_eq!(
        invalid_message(&config),
        "monitor.max_on_battery must be greater than zero when duration trigger is enabled"
    );
    config.monitor.trigger = ShutdownTrigger::BatteryCapacity;
    assert!(config.validate().is_ok());
}

#[test]
fn empty_command_matters_only_without_dry_run() {
    let mut config = AppConfig::default();
    config.shutdown.command = Vec::new();
    assert!(config.validate().is_ok());
    config.shutdown.dry_run = false;
    assert_eq!(
        invalid_message(&config),
        "shutdown.command must not be empty when shutdown.dry_run is false"
    );
}

#[test]
fn trigger_modes_select_checks() {
    assert!(ShutdownTrigger::BatteryCapacity.checks_capacity());
    assert!(!ShutdownTrigger::BatteryCapacity.checks_duration());
    assert!(!ShutdownTrigger::OnBatteryDuration.checks_capacity());
    assert!(ShutdownTrigger::OnBatteryDuration.checks_duration());
    assert!(ShutdownTrigger::Either.checks_capacity());
    assert!(ShutdownTrigger::Either.checks_duration());
    assert_eq!(ShutdownTrigger::default(), ShutdownTrigger::Either);
}

#[test]
fn log_levels_are_read_loosely() {
    assert_eq!(parse_level("off"), LogLevel::Off);
    assert_eq!(parse_level(" ERROR "), LogLevel::Error);
    assert_eq!(parse_level("warn"), LogLevel::Warn);
    assert_eq!(parse_level("Warning"), LogLevel::Warn);
    assert_eq!(parse_level("info"), LogLevel::Info);
    assert_eq!(parse_level("debug"), LogLevel::Debug);
    assert_eq!(parse_level("\ttrace\n"), LogLevel::Trace);
    assert_eq!(parse_level("verbose"), LogLevel::Info);
    assert_eq!(parse_level(""), LogLevel::Info);
}
