use ups_monitor::config::{UpsConfig, UpsMapping, UpsOids};
use ups_monitor::snmp::{SnmpClient, SnmpError};
use ups_monitor::ups::{
    build_adapter, matches_any, BatteryHealth, PowerSource, RawValues, UpsAdapter, UpsError, UpsMibAdapter,
};

struct FakeSnmp {
    values: Vec<String>,
}

impl SnmpClient for FakeSnmp {
    fn get_many(&self, _oids: &[String]) -> Result<Vec<String>, SnmpError> {
        Ok(self.values.clone())
    }
}

struct FailingSnmp;

impl SnmpClient for FailingSnmp {
    fn get_many(&self, _oids: &[String]) -> Result<Vec<String>, SnmpError> {
        Err(SnmpError::Protocol("timeout".to_string()))
    }
}

#[test]
fn parses_standard_ups_mib_battery_sample() {
    let adapter = UpsMibAdapter::new(UpsOids::default(), UpsMapping::default());
    let sample = adapter
        .read_sample(&FakeSnmp {
            values: vec![
                "battery(5)".into(),
                "25".into(),
                "batteryLow(3)".into(),
                "70".into(),
                "7".into(),
            ],
        })
        .unwrap();

    assert_eq!(sample.power_source, PowerSource::Battery);
    assert_eq!(sample.battery_charge_percent, Some(25));
    assert_eq!(sample.battery_health, BatteryHealth::Low);
    assert_eq!(sample.seconds_on_battery, Some(70));
    assert_eq!(sample.runtime_remaining_minutes, Some(7));
}

#[test]
fn parses_standard_ups_mib_line_sample() {
    let adapter = UpsMibAdapter::new(UpsOids::default(), UpsMapping::default());
    let sample = adapter
        .read_sample(&FakeSnmp {
            values: vec![
                "3".into(),
                "98".into(),
                "2".into(),
                "0".into(),
                "120".into(),
            ],
        })
        .unwrap();

    assert_eq!(sample.power_source, PowerSource::Line);
    assert_eq!(sample.battery_charge_percent, Some(98));
    assert_eq!(sample.battery_health, BatteryHealth::Normal);
}

#[test]
fn raw_values_are_kept_by_oid() {
    let adapter = UpsMibAdapter::new(UpsOids::default(), UpsMapping::default());
    let sample = adapter
        .sample_from_values(&vec![
            "3".into(),
            "98".into(),
            "2".into(),
            "0".into(),
            "120".into(),
        ])
        .unwrap();
    assert_eq!(
        sample.raw.get("1.3.6.1.2.1.33.1.2.3.0").map(|v| v.as_str()),
        Some("120")
    );
    assert_eq!(sample.raw.get("1.3.6.1.2.1.33.1.4.1.0").map(|v| v.as_str()), Some("3"));
    assert!(sample.raw.get("1.2.3").is_none());
}

#[test]
fn short_response_reports_missing_status() {
    let adapter = UpsMibAdapter::new(UpsOids::default(), UpsMapping::default());
    let result = adapter.sample_from_values(&vec!["3".into(), "98".into()]);
    match result {
        Err(UpsError::MissingValue(oid)) => assert_eq!(oid, "1.3.6.1.2.1.33.1.2.1.0"),
        other => panic!("expected a missing value, got {other:?}"),
    }
    let nothing = adapter.sample_from_values(&Vec::new());
    match nothing {
        Err(UpsError::MissingValue(oid)) => assert_eq!(oid, "1.3.6.1.2.1.33.1.4.1.0"),
        other => panic!("expected a missing value, got {other:?}"),
    }
}

#[test]
fn optional_values_may_be_missing() {
    let adapter = UpsMibAdapter::new(UpsOids::default(), UpsMapping::default());
    let sample = adapter
        .sample_from_values(&vec!["\"normal\"".into(), "101x".into(), "batteryNormal".into()])
        .unwrap();
    assert_eq!(sample.power_source, PowerSource::Line);
    assert_eq!(sample.battery_charge_percent, None);
    assert_eq!(sample.battery_health, BatteryHealth::Normal);
    assert_eq!(sample.seconds_on_battery, None);
    assert_eq!(sample.runtime_remaining_minutes, None);
}

#[test]
fn unrecognised_values_are_unknown() {
    let adapter = UpsMibAdapter::new(UpsOids::default(), UpsMapping::default());
    let sample = adapter
        .sample_from_values(&vec!["other(1)".into(), "300".into(), "unknown(1)".into()])
        .unwrap();
    assert_eq!(sample.power_source, PowerSource::Unknown);
    assert_eq!(sample.battery_charge_percent, None);
    assert_eq!(sample.battery_health, BatteryHealth::Unknown);
}

#[test]
fn depleted_is_tried_before_low() {
    let adapter = UpsMibAdapter::new(UpsOids::default(), UpsMapping::default());
    let sample = adapter
        .sample_from_values(&vec![" Battery ".into(), "4".into(), "batteryDepleted(4)".into()])
        .unwrap();
    assert_eq!(sample.power_source, PowerSource::Battery);
    assert_eq!(sample.battery_charge_percent, Some(4));
    assert_eq!(sample.battery_health, BatteryHealth::Depleted);
}

#[test]
fn lists_oids_in_poll_order() {
    let adapter = UpsMibAdapter::new(UpsOids::default(), UpsMapping::default());
    assert_eq!(
        adapter.oid_list(),
        vec![
            "1.3.6.1.2.1.33.1.4.1.0",
            "1.3.6.1.2.1.33.1.2.4.0",
            "1.3.6.1.2.1.33.1.2.1.0",
            "1.3.6.1.2.1.33.1.2.2.0",
            "1.3.6.1.2.1.33.1.2.3.0",
        ]
    );
}

#[test]
fn failed_poll_is_reported() {
    let adapter = UpsMibAdapter::new(UpsOids::default(), UpsMapping::default());
    assert!(matches!(
        adapter.read_sample(&FailingSnmp),
        Err(UpsError::Snmp(SnmpError::Protocol(_)))
    ));
}

#[test]
fn adapters_are_chosen_by_name() {
    assert!(build_adapter(UpsConfig::default()).is_ok());
    let santak = UpsConfig {
        adapter: "santak_ups_mib".into(),
        ..UpsConfig::default()
    };
    let adapter = build_adapter(santak).unwrap();
    let sample = adapter
        .read_sample(&FakeSnmp {
            values: vec!["5".into(), "50".into(), "2".into()],
        })
        .unwrap();
    assert_eq!(sample.power_source, PowerSource::Battery);
    let other = UpsConfig {
        adapter: "apc".into(),
        ..UpsConfig::default()
    };
    match build_adapter(other) {
        Err(UpsError::UnsupportedAdapter(name)) => assert_eq!(name, "apc"),
        Err(other) => panic!("unexpected error {other:?}"),
        Ok(_) => panic!("unexpected adapter"),
    }
}

#[test]
fn raw_values_replace_earlier_entries() {
    let mut raw = RawValues::new();
    raw.insert("1.2".into(), "a".into());
    raw.insert("1.3".into(), "b".into());
    raw.insert("1.2".into(), "c".into());
    assert_eq!(raw.get("1.2").map(|v| v.as_str()), Some("c"));
    assert_eq!(raw.get("1.3").map(|v| v.as_str()), Some("b"));
}

#[test]
fn built_adapter_uses_configured_oids_and_mapping() {
    let config = UpsConfig {
        adapter: "ups_mib".into(),
        oids: UpsOids {
            output_source: "9.1".into(),
            battery_charge_percent: "9.2".into(),
            battery_status: "9.3".into(),
            seconds_on_battery: None,
            runtime_remaining_minutes: None,
        },
        mapping: UpsMapping {
            on_battery_values: vec!["mains-off".into()],
            line_values: vec!["mains-on".into()],
            low_battery_values: vec!["weak".into()],
            depleted_battery_values: vec!["empty".into()],
        },
    };
    let adapter = build_adapter(config).unwrap();
    let sample = adapter
        .read_sample(&FakeSnmp {
            values: vec!["Mains-Off".into(), "40".into(), "weak".into()],
        })
        .unwrap();
    assert_eq!(sample.power_source, PowerSource::Battery);
    assert_eq!(sample.battery_health, BatteryHealth::Low);
    assert_eq!(sample.battery_charge_percent, Some(40));
    assert_eq!(sample.raw.get("9.1").map(|v| v.as_str()), Some("Mains-Off"));
    assert_eq!(sample.raw.get("1.3.6.1.2.1.33.1.4.1.0"), None);
}

#[test]
fn values_match_candidates_by_text_or_number() {
    let candidates: Vec<String> = vec!["batteryLow".into(), "3".into()];
    assert!(matches_any("\"battery_low\"", &candidates));
    assert!(matches_any("low(3)", &candidates));
    assert!(!matches_any("normal(2)", &candidates));
    assert!(!matches_any("batteryLow", &Vec::new()));
}

#[test]
fn client_answer_is_read_or_passed_on() {
    let adapter = UpsMibAdapter::new(UpsOids::default(), UpsMapping::default());
    match adapter.sample_from_reply(Err(SnmpError::Protocol("timeout".to_string()))) {
        Err(UpsError::Snmp(SnmpError::Protocol(message))) => assert_eq!(message, "timeout"),
        Err(other) => panic!("unexpected error {other:?}"),
        Ok(_) => panic!("unexpected sample"),
    }
    let sample = adapter
        .sample_from_reply(Ok(vec!["3".into(), "99".into(), "2".into()]))
        .unwrap();
    assert_eq!(sample.power_source, PowerSource::Line);
    assert_eq!(sample.battery_charge_percent, Some(99));
    assert_eq!(sample.battery_health, BatteryHealth::Normal);
}
