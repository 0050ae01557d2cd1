use ups_monitor::config::{MonitorConfig, ShutdownTrigger};
use ups_monitor::monitor::{
    after_cycle, after_read_failure, LoopStep, MonitorError, MonitorEvent, MonitorState,
    ShutdownReason,
};
use ups_monitor::shutdown::ShutdownError;
use ups_monitor::time::Duration;
use ups_monitor::ups::{BatteryHealth, PowerSource, RawValues, UpsError, UpsSample};

fn sample(source: PowerSource, charge: Option<u8>, health: BatteryHealth) -> UpsSample {
    UpsSample {
        power_source: source,
        battery_charge_percent: charge,
        battery_health: health,
        seconds_on_battery: None,
        runtime_remaining_minutes: None,
        raw: RawValues::new(),
    }
}

fn config(trigger: ShutdownTrigger) -> MonitorConfig {
    MonitorConfig {
        poll_interval: Duration::from_secs(10),
        trigger,
        low_battery_percent: 30,
        max_on_battery: Duration::from_secs(60),
    }
}

#[test]
fn duration_trigger_waits_then_requests_shutdown() {
    let mut state = MonitorState::new();
    let config = config(ShutdownTrigger::OnBatteryDuration);

    let first = state.evaluate(
        &sample(PowerSource::Battery, Some(80), BatteryHealth::Normal),
        Duration::from_secs(0),
        &config,
    );
    assert!(first.shutdown.is_none());

    let second = state.evaluate(
        &sample(PowerSource::Battery, Some(80), BatteryHealth::Normal),
        Duration::from_secs(61),
        &config,
    );

    assert_eq!(
        second.shutdown.unwrap().reason,
        ShutdownReason::OnBatteryTooLong {
            elapsed: Duration::from_secs(61),
            limit: Duration::from_secs(60)
        }
    );
}

#[test]
fn utility_restore_cancels_duration_countdown() {
    let mut state = MonitorState::new();
    let config = config(ShutdownTrigger::OnBatteryDuration);

    state.evaluate(
        &sample(PowerSource::Battery, Some(80), BatteryHealth::Normal),
        Duration::from_secs(0),
        &config,
    );
    let restored = state.evaluate(
        &sample(PowerSource::Line, Some(80), BatteryHealth::Normal),
        Duration::from_secs(30),
        &config,
    );
    let later = state.evaluate(
        &sample(PowerSource::Battery, Some(80), BatteryHealth::Normal),
        Duration::from_secs(45),
        &config,
    );

    assert!(restored.events.contains(&MonitorEvent::OnBatteryCanceled));
    assert!(later.shutdown.is_none());
}

#[test]
fn capacity_trigger_requests_shutdown_immediately() {
    let mut state = MonitorState::new();
    let config = config(ShutdownTrigger::BatteryCapacity);

    let decision = state.evaluate(
        &sample(PowerSource::Battery, Some(29), BatteryHealth::Normal),
        Duration::from_secs(1),
        &config,
    );

    assert_eq!(
        decision.shutdown.unwrap().reason,
        ShutdownReason::LowBattery {
            percent: 29,
            threshold: 30
        }
    );
}

#[test]
fn line_power_never_triggers_shutdown_even_with_low_charge() {
    let mut state = MonitorState::new();
    let config = config(ShutdownTrigger::Either);

    let decision = state.evaluate(
        &sample(PowerSource::Line, Some(5), BatteryHealth::Low),
        Duration::from_secs(1),
        &config,
    );

    assert!(decision.shutdown.is_none());
}

#[test]
fn first_sample_reports_source_and_health_then_countdown() {
    let mut state = MonitorState::new();
    let decision = state.evaluate(
        &sample(PowerSource::Battery, Some(80), BatteryHealth::Normal),
        Duration::from_secs(5),
        &config(ShutdownTrigger::Either),
    );
    assert_eq!(
        decision.events,
        vec![
            MonitorEvent::PowerSourceChanged {
                from: None,
                to: PowerSource::Battery
            },
            MonitorEvent::BatteryHealthChanged {
                from: None,
                to: BatteryHealth::Normal
            },
            MonitorEvent::OnBatteryStarted,
        ]
    );
    assert!(decision.shutdown.is_none());
}

#[test]
fn repeated_sample_reports_nothing() {
    let mut state = MonitorState::new();
    let config = config(ShutdownTrigger::Either);
    let s = sample(PowerSource::Line, Some(90), BatteryHealth::Normal);
    state.evaluate(&s, Duration::from_secs(0), &config);
    let again = state.evaluate(&s, Duration::from_secs(10), &config);
    assert!(again.events.is_empty());
    assert!(again.shutdown.is_none());
}

#[test]
fn shutdown_is_requested_once_per_stretch_on_battery() {
    let mut state = MonitorState::new();
    let config = config(ShutdownTrigger::Either);
    let low = sample(PowerSource::Battery, Some(10), BatteryHealth::Normal);
    let first = state.evaluate(&low, Duration::from_secs(0), &config);
    assert!(first.shutdown.is_some());
    let second = state.evaluate(&low, Duration::from_secs(120), &config);
    assert!(second.shutdown.is_none());
    state.evaluate(
        &sample(PowerSource::Line, Some(10), BatteryHealth::Normal),
        Duration::from_secs(130),
        &config,
    );
    let third = state.evaluate(&low, Duration::from_secs(140), &config);
    assert_eq!(
        third.shutdown.unwrap().reason,
        ShutdownReason::LowBattery {
            percent: 10,
            threshold: 30
        }
    );
}

#[test]
fn reported_low_battery_triggers_capacity_shutdown() {
    let mut state = MonitorState::new();
    let decision = state.evaluate(
        &sample(PowerSource::Battery, None, BatteryHealth::Depleted),
        Duration::from_secs(0),
        &config(ShutdownTrigger::BatteryCapacity),
    );
    assert_eq!(
        decision.shutdown.unwrap().reason,
        ShutdownReason::UpsReportedLowBattery {
            health: BatteryHealth::Depleted
        }
    );
}

#[test]
fn capacity_mode_ignores_time_on_battery() {
    let mut state = MonitorState::new();
    let config = config(ShutdownTrigger::BatteryCapacity);
    let s = sample(PowerSource::Battery, Some(80), BatteryHealth::Normal);
    state.evaluate(&s, Duration::from_secs(0), &config);
    let late = state.evaluate(&s, Duration::from_secs(10_000), &config);
    assert!(late.shutdown.is_none());
}

#[test]
fn duration_mode_ignores_low_charge() {
    let mut state = MonitorState::new();
    let decision = state.evaluate(
        &sample(PowerSource::Battery, Some(1), BatteryHealth::Low),
        Duration::from_secs(0),
        &config(ShutdownTrigger::OnBatteryDuration),
    );
    assert!(decision.shutdown.is_none());
}

#[test]
fn duration_limit_is_inclusive() {
    let mut state = MonitorState::new();
    let config = config(ShutdownTrigger::Either);
    let s = sample(PowerSource::Battery, Some(80), BatteryHealth::Normal);
    state.evaluate(&s, Duration::from_secs(100), &config);
    let early = state.evaluate(&s, Duration::new(159, 999_999_999), &config);
    assert!(early.shutdown.is_none());
    let at_limit = state.evaluate(&s, Duration::from_secs(160), &config);
    assert_eq!(
        at_limit.shutdown.unwrap().reason,
        ShutdownReason::OnBatteryTooLong {
            elapsed: Duration::from_secs(60),
            limit: Duration::from_secs(60)
        }
    );
}

#[test]
fn unknown_source_keeps_countdown() {
    let mut state = MonitorState::new();
    let config = config(ShutdownTrigger::OnBatteryDuration);
    let battery = sample(PowerSource::Battery, Some(80), BatteryHealth::Normal);
    state.evaluate(&battery, Duration::from_secs(0), &config);
    let unknown = state.evaluate(
        &sample(PowerSource::Unknown, Some(80), BatteryHealth::Normal),
        Duration::from_secs(30),
        &config,
    );
    assert!(unknown.shutdown.is_none());
    assert!(!unknown.events.contains(&MonitorEvent::OnBatteryCanceled));
    let back = state.evaluate(&battery, Duration::from_secs(60), &config);
    assert!(!back.events.contains(&MonitorEvent::OnBatteryStarted));
    assert!(back.shutdown.is_some());
}

#[test]
fn messages_explain_each_reason() {
    assert_eq!(
        ShutdownReason::LowBattery {
            percent: 29,
            threshold: 30
        }
        .message(),
        "battery charge 29% <= configured threshold 30%"
    );
    assert_eq!(
        ShutdownReason::UpsReportedLowBattery {
            health: BatteryHealth::Depleted
        }
        .message(),
        "UPS reported battery health Depleted"
    );
    assert_eq!(
        ShutdownReason::OnBatteryTooLong {
            elapsed: Duration::new(61, 500_000_000),
            limit: Duration::from_secs(60)
        }
        .message(),
        "on battery for 61s >= configured limit 60s"
    );
}

#[test]
fn loop_steps_follow_once_and_failures() {
    match after_read_failure(true, UpsError::MissingValue("1.2".to_string())) {
        LoopStep::Finish(Err(MonitorError::Ups(UpsError::MissingValue(oid)))) => {
            assert_eq!(oid, "1.2")
        }
        other => panic!("unexpected step {other:?}"),
    }
    match after_read_failure(false, UpsError::MissingValue("1.3".to_string())) {
        LoopStep::Retry(MonitorError::Ups(UpsError::MissingValue(oid))) => assert_eq!(oid, "1.3"),
        other => panic!("unexpected step {other:?}"),
    }
    match after_cycle(
        false,
        Some(Err(ShutdownError::Failed {
            status: "exit status: 1".to_string(),
            stderr: "denied".to_string(),
        })),
    ) {
        LoopStep::Finish(Err(MonitorError::Shutdown(ShutdownError::Failed { status, stderr }))) => {
            assert_eq!(status, "exit status: 1");
            assert_eq!(stderr, "denied");
        }
        other => panic!("unexpected step {other:?}"),
    }
    assert!(matches!(
        after_cycle(true, Some(Err(ShutdownError::EmptyCommand))),
        LoopStep::Finish(Err(MonitorError::Shutdown(ShutdownError::EmptyCommand)))
    ));
    assert!(matches!(after_cycle(true, Some(Ok(()))), LoopStep::Finish(Ok(()))));
    assert!(matches!(after_cycle(true, None), LoopStep::Finish(Ok(()))));
    assert!(matches!(after_cycle(false, None), LoopStep::Wait));
}
