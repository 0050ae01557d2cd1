use ups_monitor::install::{
    init_report_lines, render_systemd_service, systemctl_outcome, systemd_arg, InitAction, InitError, InitEvent, InitOptions, InitReport,
    InitRun,
};

#[test]
fn renders_service_with_config_path() {
    let service = render_systemd_service("/usr/local/bin/ups-monitor", "/etc/ups-monitor.yaml");

    assert!(service
        .contains("ExecStart=/usr/local/bin/ups-monitor --config /etc/ups-monitor.yaml run"));
    assert!(service.contains("WantedBy=multi-user.target"));
}

#[test]
fn quotes_systemd_arguments_with_spaces() {
    let arg = systemd_arg("/opt/UPS Monitor/bin/ups-monitor");

    assert_eq!(arg, "\"/opt/UPS Monitor/bin/ups-monitor\"");
}

#[test]
fn escapes_quotes_and_backslashes() {
    assert_eq!(systemd_arg("/opt/a\"b\\c"), "\"/opt/a\\\"b\\\\c\"");
    assert_eq!(systemd_arg("/usr/bin/plain"), "/usr/bin/plain");
}

#[test]
fn renders_whole_unit() {
    let service = render_systemd_service("/bin/x", "/etc/y");
    assert_eq!(
        service,
        "[Unit]\nDescription=SNMP UPS Monitor\nAfter=network-online.target\nWants=network-online.target\n\n[Service]\nType=simple\nExecStart=/bin/x --config /etc/y run\nRestart=always\nRestartSec=10\n\n[Install]\nWantedBy=multi-user.target\n"
    );
}

fn finish(action: InitAction) -> Result<InitReport, InitError> {
    match action {
        InitAction::Finish(result) => result,
        other => panic!("expected the end of the installation, got {other:?}"),
    }
}

#[test]
fn full_installation_runs_every_step() {
    let options = InitOptions {
        enable: true,
        start: true,
        ..InitOptions::default()
    };
    let mut run = InitRun::new();
    match run.advance(&options, InitEvent::Begin { on_linux: true }) {
        InitAction::InstallBinary { path } => assert_eq!(path, "/usr/local/bin/ups-monitor"),
        other => panic!("unexpected {other:?}"),
    }
    match run.advance(&options, InitEvent::Done) {
        InitAction::CheckConfig { path } => assert_eq!(path, "/etc/ups-monitor.yaml"),
        other => panic!("unexpected {other:?}"),
    }
    match run.advance(&options, InitEvent::Exists(false)) {
        InitAction::WriteConfig { path } => assert_eq!(path, "/etc/ups-monitor.yaml"),
        other => panic!("unexpected {other:?}"),
    }
    match run.advance(&options, InitEvent::Done) {
        InitAction::CheckService { path } => {
            assert_eq!(path, "/etc/systemd/system/ups-monitor.service")
        }
        other => panic!("unexpected {other:?}"),
    }
    match run.advance(&options, InitEvent::Exists(false)) {
        InitAction::WriteService { path, contents } => {
            assert_eq!(path, "/etc/systemd/system/ups-monitor.service");
            assert!(contents.contains(
                "ExecStart=/usr/local/bin/ups-monitor --config /etc/ups-monitor.yaml run"
            ));
        }
        other => panic!("unexpected {other:?}"),
    }
    match run.advance(&options, InitEvent::Done) {
        InitAction::Systemctl { action, args } => {
            assert_eq!(action, "daemon-reload");
            assert_eq!(args, vec!["daemon-reload"]);
        }
        other => panic!("unexpected {other:?}"),
    }
    match run.advance(&options, InitEvent::Done) {
        InitAction::Systemctl { action, args } => {
            assert_eq!(action, "enable ups-monitor.service");
            assert_eq!(args, vec!["enable", "ups-monitor.service"]);
        }
        other => panic!("unexpected {other:?}"),
    }
    match run.advance(&options, InitEvent::Done) {
        InitAction::Systemctl { action, args } => {
            assert_eq!(action, "start ups-monitor.service");
            assert_eq!(args, vec!["start", "ups-monitor.service"]);
        }
        other => panic!("unexpected {other:?}"),
    }
    let report = finish(run.advance(&options, InitEvent::Done)).unwrap();
    assert_eq!(
        report,
        InitReport {
            binary_installed: true,
            config_written: true,
            service_written: true,
            daemon_reloaded: true,
            enabled: true,
            started: true,
        }
    );
}

#[test]
fn existing_files_are_kept_without_force() {
    let options = InitOptions {
        skip_binary_install: true,
        ..InitOptions::default()
    };
    let mut run = InitRun::new();
    assert!(matches!(
        run.advance(&options, InitEvent::Begin { on_linux: true }),
        InitAction::CheckConfig { .. }
    ));
    assert!(matches!(
        run.advance(&options, InitEvent::Exists(true)),
        InitAction::CheckService { .. }
    ));
    assert!(matches!(
        run.advance(&options, InitEvent::Exists(true)),
        InitAction::Systemctl { .. }
    ));
    let report = finish(run.advance(&options, InitEvent::Done)).unwrap();
    assert_eq!(
        report,
        InitReport {
            binary_installed: false,
            config_written: false,
            service_written: false,
            daemon_reloaded: true,
            enabled: false,
            started: false,
        }
    );
}

#[test]
fn force_overwrites_existing_files() {
    let options = InitOptions {
        force: true,
        skip_binary_install: true,
        ..InitOptions::default()
    };
    let mut run = InitRun::new();
    run.advance(&options, InitEvent::Begin { on_linux: true });
    assert!(matches!(
        run.advance(&options, InitEvent::Exists(true)),
        InitAction::WriteConfig { .. }
    ));
}

#[test]
fn init_outside_linux_is_refused() {
    let mut run = InitRun::new();
    let result = finish(run.advance(&InitOptions::default(), InitEvent::Begin { on_linux: false }));
    assert!(matches!(result, Err(InitError::UnsupportedPlatform)));
}

#[test]
fn failed_step_ends_installation() {
    let options = InitOptions::default();
    let mut run = InitRun::new();
    run.advance(&options, InitEvent::Begin { on_linux: true });
    let result = finish(run.advance(
        &options,
        InitEvent::Failed(InitError::CurrentExe("gone".to_string())),
    ));
    assert!(matches!(result, Err(InitError::CurrentExe(message)) if message == "gone"));
}

#[test]
fn systemctl_failure_keeps_trimmed_stderr() {
    assert!(systemctl_outcome("daemon-reload", true, "exit status: 0".into(), "noise").is_ok());
    match systemctl_outcome("daemon-reload", false, "exit status: 1".into(), "  bad unit \n") {
        Err(InitError::Systemctl {
            action,
            status,
            stderr,
        }) => {
            assert_eq!(action, "daemon-reload");
            assert_eq!(status, "exit status: 1");
            assert_eq!(stderr, "bad unit");
        }
        other => panic!("unexpected outcome {other:?}"),
    }
}

#[test]
fn report_lines_tell_what_was_done() {
    let options = InitOptions::default();
    let report = InitReport {
        binary_installed: true,
        config_written: false,
        service_written: true,
        daemon_reloaded: true,
        enabled: false,
        started: false,
    };
    assert_eq!(
        init_report_lines(&options, &report),
        vec![
            "installed binary: /usr/local/bin/ups-monitor".to_string(),
            "kept existing config: /etc/ups-monitor.yaml (use --force to overwrite)".to_string(),
            "wrote systemd service: /etc/systemd/system/ups-monitor.service".to_string(),
            "reloaded systemd manager configuration".to_string(),
            "edit /etc/ups-monitor.yaml, then run: sudo systemctl enable --now ups-monitor.service"
                .to_string(),
        ]
    );
    let skipped = InitOptions {
        skip_binary_install: true,
        enable: true,
        start: true,
        ..InitOptions::default()
    };
    let done = InitReport {
        binary_installed: false,
        config_written: true,
        service_written: false,
        daemon_reloaded: true,
        enabled: true,
        started: true,
    };
    assert_eq!(
        init_report_lines(&skipped, &done),
        vec![
            "skipped binary install".to_string(),
            "wrote sample config: /etc/ups-monitor.yaml".to_string(),
            "kept existing systemd service: /etc/systemd/system/ups-monitor.service (use --force to overwrite)"
                .to_string(),
            "reloaded systemd manager configuration".to_string(),
            "enabled ups-monitor.service".to_string(),
            "started ups-monitor.service".to_string(),
        ]
    );
}
