use ups_monitor::config::SnmpConfig;
use ups_monitor::snmp::{
    build_v3_auth, bytes_to_hex, check_value_count, parse_oids, value_to_string, RustSnmpClient,
    SnmpError, SnmpValue,
};

#[test]
fn parses_oid_strings() {
    let oids = parse_oids(&["1.3.6.1.2.1.1.1.0".into()]).unwrap();

    assert_eq!(oids[0].to_string(), "1.3.6.1.2.1.1.1.0");
}

#[test]
fn reports_first_unparsable_oid() {
    let result = parse_oids(&["1.3.6".into(), "1..2".into(), "x".into()]);
    match result {
        Err(SnmpError::InvalidOid { oid, .. }) => assert_eq!(oid, "1..2"),
        other => panic!("expected an invalid OID, got {other:?}"),
    }
}

#[test]
fn builds_no_auth_no_priv_security() {
    let config = SnmpConfig::default();

    build_v3_auth(&config).unwrap();
}

#[test]
fn rejects_missing_auth_password_for_auth_no_priv() {
    let mut config = SnmpConfig {
        security_level: "authNoPriv".into(),
        ..SnmpConfig::default()
    };
    config.auth_password = None;

    assert!(build_v3_auth(&config).is_err());
}

#[test]
fn security_errors_name_the_problem() {
    let config = SnmpConfig {
        security_level: "authPriv".into(),
        auth_password: Some("authpassword".into()),
        privacy_password: Some(String::new()),
        ..SnmpConfig::default()
    };
    match build_v3_auth(&config) {
        Err(SnmpError::MissingSecurityField {
            field,
            security_level,
        }) => {
            assert_eq!(field, "privacy_password");
            assert_eq!(security_level, "authPriv");
        }
        other => panic!("unexpected {other:?}"),
    }
    let config = SnmpConfig {
        security_level: "authNoPriv".into(),
        auth_password: Some("authpassword".into()),
        auth_protocol: Some(" SHA3 ".into()),
        ..SnmpConfig::default()
    };
    match build_v3_auth(&config) {
        Err(SnmpError::UnsupportedAuthProtocol(name)) => assert_eq!(name, "sha3"),
        other => panic!("unexpected {other:?}"),
    }
    let config = SnmpConfig {
        security_level: "authPriv".into(),
        auth_password: Some("authpassword".into()),
        privacy_password: Some("privpassword".into()),
        privacy_protocol: Some("blowfish".into()),
        ..SnmpConfig::default()
    };
    match build_v3_auth(&config) {
        Err(SnmpError::UnsupportedPrivacyProtocol(name)) => assert_eq!(name, "blowfish"),
        other => panic!("unexpected {other:?}"),
    }
    let config = SnmpConfig {
        security_level: " Paranoid ".into(),
        ..SnmpConfig::default()
    };
    match build_v3_auth(&config) {
        Err(SnmpError::UnsupportedSecurityLevel(level)) => assert_eq!(level, "paranoid"),
        other => panic!("unexpected {other:?}"),
    }
}

#[test]
fn full_security_builds() {
    let config = SnmpConfig {
        security_level: "AUTHPRIV".into(),
        auth_password: Some("authpassword".into()),
        auth_protocol: Some("sha256".into()),
        privacy_password: Some("privpassword".into()),
        privacy_protocol: Some("aes256".into()),
        ..SnmpConfig::default()
    };
    assert!(build_v3_auth(&config).is_ok());
}

#[test]
fn versions_select_credentials() {
    for version in ["1", " 2 ", "2c", "3"] {
        let client = RustSnmpClient::new(SnmpConfig {
            version: version.into(),
            ..SnmpConfig::default()
        });
        assert!(client.build_auth().is_ok(), "version {version}");
    }
    let client = RustSnmpClient::new(SnmpConfig {
        version: " 4 ".into(),
        ..SnmpConfig::default()
    });
    match client.build_auth() {
        Err(SnmpError::UnsupportedVersion(v)) => assert_eq!(v, "4"),
        other => panic!("unexpected {other:?}"),
    }
}

#[test]
fn values_render_as_text() {
    assert_eq!(value_to_string(SnmpValue::Integer(-42)), "-42");
    assert_eq!(value_to_string(SnmpValue::Integer(i32::MIN)), "-2147483648");
    assert_eq!(value_to_string(SnmpValue::OctetString(b"battery(5)".to_vec())), "battery(5)");
    assert_eq!(value_to_string(SnmpValue::OctetString(vec![0xff, 0x00])), "ff:00");
    assert_eq!(value_to_string(SnmpValue::Null), "null");
    assert_eq!(
        value_to_string(SnmpValue::ObjectIdentifier(vec![1, 3, 6, 1])),
        "1.3.6.1"
    );
    assert_eq!(value_to_string(SnmpValue::IpAddress([192, 168, 0, 255])), "192.168.0.255");
    assert_eq!(value_to_string(SnmpValue::Gauge32(98)), "98");
    assert_eq!(value_to_string(SnmpValue::Counter64(u64::MAX)), "18446744073709551615");
    assert_eq!(value_to_string(SnmpValue::Opaque(vec![1, 0xab])), "01:ab");
    assert_eq!(value_to_string(SnmpValue::Nsap(vec![1, 0xab])), "0x01ab");
    assert_eq!(value_to_string(SnmpValue::NoSuchObject), "no_such_object");
    assert_eq!(value_to_string(SnmpValue::NoSuchInstance), "no_such_instance");
    assert_eq!(value_to_string(SnmpValue::EndOfMibView), "end_of_mib_view");
    assert_eq!(
        value_to_string(SnmpValue::Unknown {
            tag: 0x4a,
            data: vec![7]
        }),
        "unknown(tag=0x4a, data=07)"
    );
}

#[test]
fn hex_is_colon_separated() {
    assert_eq!(bytes_to_hex(&[]), "");
    assert_eq!(bytes_to_hex(&[0x0a, 0xff, 0x10]), "0a:ff:10");
}

#[test]
fn value_count_must_match_request() {
    assert!(check_value_count(2, vec!["a".into(), "b".into()]).is_ok());
    match check_value_count(3, vec!["a".into()]) {
        Err(SnmpError::WrongValueCount { expected, actual }) => {
            assert_eq!(expected, 3);
            assert_eq!(actual, 1);
        }
        other => panic!("unexpected {other:?}"),
    }
}
