//! Installation as a systemd service: the unit file, and the order of the
//! installation steps with the decisions between them. The steps
//! themselves (copying, writing, running `systemctl`) are carried out by
//! the caller, which reports each outcome back.
use vstd::prelude::*;
use vstd::string::*;
use crate::config::strings_view;
use crate::text::{chars_of, is_whitespace, is_whitespace_char, string_of_range, trim, trim_bounds};

verus! {

pub const DEFAULT_BINARY_PATH: &'static str = "/usr/local/bin/ups-monitor";

pub const DEFAULT_CONFIG_PATH: &'static str = "/etc/ups-monitor.yaml";

pub const DEFAULT_SERVICE_PATH: &'static str = "/etc/systemd/system/ups-monitor.service";

/// What `init` is asked to do.
#[derive(Debug, Clone)]
pub struct InitOptions {
    pub binary_path: String,
    pub config_path: String,
    pub service_path: String,
    /// Overwrite an existing configuration and service file.
    pub force: bool,
    pub skip_binary_install: bool,
    pub enable: bool,
    pub start: bool,
}

impl Default for InitOptions {
    fn default() -> (r: InitOptions)
        ensures
            r.binary_path@ == DEFAULT_BINARY_PATH@,
            r.config_path@ == DEFAULT_CONFIG_PATH@,
            r.service_path@ == DEFAULT_SERVICE_PATH@,
            !r.force && !r.skip_binary_install && !r.enable && !r.start,
    {
        InitOptions {
            binary_path: String::from_str(DEFAULT_BINARY_PATH),
            config_path: String::from_str(DEFAULT_CONFIG_PATH),
            service_path: String::from_str(DEFAULT_SERVICE_PATH),
            force: false,
            skip_binary_install: false,
            enable: false,
            start: false,
        }
    }
}

/// What `init` did.
#[derive(Debug, Clone, Copy, PartialEq, Eq, Structural)]
pub struct InitReport {
    pub binary_installed: bool,
    pub config_written: bool,
    pub service_written: bool,
    pub daemon_reloaded: bool,
    pub enabled: bool,
    pub started: bool,
}

pub open spec fn empty_report() -> InitReport {
    InitReport {
        binary_installed: false,
        config_written: false,
        service_written: false,
        daemon_reloaded: false,
        enabled: false,
        started: false,
    }
}

impl Default for InitReport {
    fn default() -> (r: InitReport)
        ensures
            r == empty_report(),
    {
        InitReport {
            binary_installed: false,
            config_written: false,
            service_written: false,
            daemon_reloaded: false,
            enabled: false,
            started: false,
        }
    }
}

/// Why `init` failed.
#[derive(Debug)]
pub enum InitError {
    UnsupportedPlatform,
    CurrentExe(String),
    CreateDir { path: String, message: String },
    CopyBinary { from: String, to: String, message: String },
    Permissions { path: String, message: String },
    Write { kind: String, path: String, message: String },
    Systemctl { action: String, status: String, stderr: String },
    ExecuteSystemctl { action: String, message: String },
}

/// A character that a unit file argument cannot hold unquoted.
pub open spec fn needs_quoting(c: char) -> bool {
    is_whitespace(c) || c == '"' || c == '\\'
}

/// A character as it stands between quotes: backslashes and quotes are
/// escaped with a backslash.
pub open spec fn escape_char(c: char) -> Seq<char> {
    if c == '\\' || c == '"' {
        seq!['\\', c]
    } else {
        seq![c]
    }
}

pub open spec fn escape(s: Seq<char>) -> Seq<char>
    decreases s.len(),
{
    if s.len() == 0 {
        s
    } else {
        escape_char(s[0]) + escape(s.drop_first())
    }
}

/// A path as an argument of `ExecStart`: as it is when it holds no
/// whitespace, quote or backslash, and otherwise escaped between quotes.
pub open spec fn systemd_arg_text(p: Seq<char>) -> Seq<char> {
    if forall|i: int| 0 <= i < p.len() ==> !needs_quoting(#[trigger] p[i]) {
        p
    } else {
        seq!['"'] + escape(p) + seq!['"']
    }
}

/// How systemd reads an escaped text back: a backslash keeps the next
/// character as it is.
pub open spec fn unescape(s: Seq<char>) -> Seq<char>
    decreases s.len(),
{
    if s.len() == 0 {
        s
    } else if s[0] == '\\' && s.len() >= 2 {
        seq![s[1]] + unescape(s.subrange(2, s.len() as int))
    } else {
        seq![s[0]] + unescape(s.drop_first())
    }
}

/// How systemd reads an argument back: a quoted argument is unquoted and
/// unescaped, another is taken as it is.
pub open spec fn read_systemd_arg(a: Seq<char>) -> Seq<char> {
    if a.len() >= 2 && a[0] == '"' && a.last() == '"' {
        unescape(a.subrange(1, a.len() - 1))
    } else {
        a
    }
}

proof fn lemma_escape_append(s: Seq<char>, c: char)
    ensures
        escape(s.push(c)) == escape(s) + escape_char(c),
    decreases s.len(),
{
    if s.len() == 0 {
        assert(s.push(c).drop_first() =~= Seq::<char>::empty());
        assert(s.push(c)[0] == c);
        assert(escape(Seq::<char>::empty()) == Seq::<char>::empty());
        assert(escape(s) == s);
        assert(escape(s.push(c)) =~= escape_char(c));
    } else {
        lemma_escape_append(s.drop_first(), c);
        assert(s.push(c).drop_first() =~= s.drop_first().push(c));
        assert(s.push(c)[0] == s[0]);
        assert(escape(s.push(c)) =~= escape(s) + escape_char(c));
    }
}

proof fn lemma_unescape_escape(s: Seq<char>)
    ensures
        unescape(escape(s)) == s,
    decreases s.len(),
{
    if s.len() > 0 {
        lemma_unescape_escape(s.drop_first());
        let e = escape(s);
        let rest = escape(s.drop_first());
        if s[0] == '\\' || s[0] == '"' {
            assert(e.subrange(2, e.len() as int) =~= rest);
        } else {
            assert(e.drop_first() =~= rest);
        }
        assert(unescape(e) =~= s);
    }
}

/// systemd reads every path back from its `ExecStart` argument unchanged.
pub proof fn lemma_systemd_arg_reads_back(p: Seq<char>)
    ensures
        read_systemd_arg(systemd_arg_text(p)) == p,
{
    if forall|i: int| 0 <= i < p.len() ==> !needs_quoting(#[trigger] p[i]) {
        if p.len() >= 2 && p[0] == '"' {
            assert(needs_quoting(p[0]));
        }
    } else {
        let a = systemd_arg_text(p);
        assert(a.subrange(1, a.len() - 1) =~= escape(p));
        lemma_unescape_escape(p);
    }
}

/// A path as an argument of `ExecStart` (see [`systemd_arg_text`]).
pub fn systemd_arg(path: &str) -> (r: String)
    ensures
        r@ == systemd_arg_text(path@),
{
    let v = chars_of(path);
    let mut plain = true;
    let mut i: usize = 0;
    while i < v.len()
        invariant
            i <= v@.len(),
            v@ == path@,
            plain == forall|j: int| 0 <= j < i ==> !needs_quoting(#[trigger] v@[j]),
        decreases v@.len() - i,
    {
        let c = v[i];
        if is_whitespace_char(c) || c == '"' || c == '\\' {
            plain = false;
        }
        i = i + 1;
    }
    if plain {
        return String::from_str(path);
    }
    let mut s = String::new();
    s.push('"');
    let mut k: usize = 0;
    while k < v.len()
        invariant
            k <= v@.len(),
            v@ == path@,
            s@ == seq!['"'] + escape(v@.subrange(0, k as int)),
        decreases v@.len() - k,
    {
        let c = v[k];
        if c == '\\' || c == '"' {
            s.push('\\');
        }
        s.push(c);
        proof {
            assert(v@.subrange(0, k + 1) =~= v@.subrange(0, k as int).push(c));
            lemma_escape_append(v@.subrange(0, k as int), c);
        }
        k = k + 1;
    }
    s.push('"');
    proof {
        assert(v@.subrange(0, v@.len() as int) =~= v@);
    }
    s
}

/// The systemd unit for the monitor, running the binary with the
/// configuration.
pub open spec fn service_text(binary_path: Seq<char>, config_path: Seq<char>) -> Seq<char> {
    "[Unit]\nDescription=SNMP UPS Monitor\nAfter=network-online.target\nWants=network-online.target\n\n[Service]\nType=simple\nExecStart="@
        + systemd_arg_text(binary_path) + " --config "@ + systemd_arg_text(config_path)
        + " run\nRestart=always\nRestartSec=10\n\n[Install]\nWantedBy=multi-user.target\n"@
}

/// The systemd unit for the monitor (see [`service_text`]).
pub fn render_systemd_service(binary_path: &str, config_path: &str) -> (r: String)
    ensures
        r@ == service_text(binary_path@, config_path@),
{
    let mut s = String::from_str(
        "[Unit]\nDescription=SNMP UPS Monitor\nAfter=network-online.target\nWants=network-online.target\n\n[Service]\nType=simple\nExecStart=",
    );
    let binary = systemd_arg(binary_path);
    s.append(binary.as_str());
    s.append(" --config ");
    let config = systemd_arg(config_path);
    s.append(config.as_str());
    s.append(" run\nRestart=always\nRestartSec=10\n\n[Install]\nWantedBy=multi-user.target\n");
    s
}


/// Where an installation stands.
#[derive(Debug, Clone, Copy, PartialEq, Eq, Structural)]
pub enum InitStage {
    /// Nothing done yet.
    Start,
    InstallingBinary,
    /// Waiting to learn whether the configuration file exists.
    CheckingConfig,
    WritingConfig,
    /// Waiting to learn whether the service file exists.
    CheckingService,
    WritingService,
    Reloading,
    Enabling,
    Starting,
    Finished,
    Failed,
}

/// What the caller reports back after carrying out a step.
#[derive(Debug)]
pub enum InitEvent {
    /// The installation begins, on Linux or elsewhere.
    Begin { on_linux: bool },
    /// The step succeeded.
    Done,
    /// Whether the file asked about exists.
    Exists(bool),
    /// The step failed.
    Failed(InitError),
}

/// The next step of an installation, for the caller to carry out.
#[derive(Debug)]
pub enum InitAction {
    /// Copy the running executable to the path (unless it is already
    /// there) and make it executable.
    InstallBinary { path: String },
    /// Report whether the configuration file exists.
    CheckConfig { path: String },
    /// Write the sample configuration to the path.
    WriteConfig { path: String },
    /// Report whether the service file exists.
    CheckService { path: String },
    /// Write the unit to the path.
    WriteService { path: String, contents: String },
    /// Run `systemctl` with the arguments.
    Systemctl { action: String, args: Vec<String> },
    /// The installation is over.
    Finish(Result<InitReport, InitError>),
}

/// An installation in progress.
#[derive(Debug)]
pub struct InitRun {
    stage: InitStage,
    report: InitReport,
}

/// The contents of an [`InitRun`].
pub struct InitRunView {
    pub stage: InitStage,
    pub report: InitReport,
}

impl View for InitRun {
    type V = InitRunView;

    closed spec fn view(&self) -> InitRunView {
        InitRunView { stage: self.stage, report: self.report }
    }
}

/// The events that a stage waits for: a beginning at the start, an answer
/// while checking whether a file exists, and otherwise the outcome of the
/// step; any step may fail.
pub open spec fn accepts(stage: InitStage, e: InitEvent) -> bool {
    match stage {
        InitStage::Start => e is Begin,
        InitStage::CheckingConfig | InitStage::CheckingService => e is Exists || e is Failed,
        InitStage::Finished | InitStage::Failed => false,
        _ => e is Done || e is Failed,
    }
}

/// The stage after systemd's configuration is reloaded.
pub open spec fn after_reload(o: InitOptions) -> InitStage {
    if o.enable {
        InitStage::Enabling
    } else if o.start {
        InitStage::Starting
    } else {
        InitStage::Finished
    }
}

/// The stage after the service is enabled.
pub open spec fn after_enable(o: InitOptions) -> InitStage {
    if o.start {
        InitStage::Starting
    } else {
        InitStage::Finished
    }
}

/// The order of an installation: outside Linux nothing is done; the binary
/// is installed unless that is skipped; the configuration and then the
/// service file are written unless they exist and `force` is off; systemd
/// reloads its configuration; the service is enabled and started as asked.
/// A failed step ends the installation.
pub open spec fn init_transition(run: InitRunView, o: InitOptions, e: InitEvent) -> InitRunView {
    let r = run.report;
    match e {
        InitEvent::Failed(_) => InitRunView { stage: InitStage::Failed, report: r },
        InitEvent::Begin { on_linux } => if !on_linux {
            InitRunView { stage: InitStage::Failed, report: r }
        } else if o.skip_binary_install {
            InitRunView { stage: InitStage::CheckingConfig, report: r }
        } else {
            InitRunView { stage: InitStage::InstallingBinary, report: r }
        },
        InitEvent::Exists(exists) => if run.stage is CheckingConfig {
            if exists && !o.force {
                InitRunView { stage: InitStage::CheckingService, report: r }
            } else {
                InitRunView { stage: InitStage::WritingConfig, report: r }
            }
        } else if exists && !o.force {
            InitRunView { stage: InitStage::Reloading, report: r }
        } else {
            InitRunView { stage: InitStage::WritingService, report: r }
        },
        InitEvent::Done => match run.stage {
            InitStage::InstallingBinary => InitRunView {
                stage: InitStage::CheckingConfig,
                report: InitReport { binary_installed: true, ..r },
            },
            InitStage::WritingConfig => InitRunView {
                stage: InitStage::CheckingService,
                report: InitReport { config_written: true, ..r },
            },
            InitStage::WritingService => InitRunView {
                stage: InitStage::Reloading,
                report: InitReport { service_written: true, ..r },
            },
            InitStage::Reloading => InitRunView {
                stage: after_reload(o),
                report: InitReport { daemon_reloaded: true, ..r },
            },
            InitStage::Enabling => InitRunView {
                stage: after_enable(o),
                report: InitReport { enabled: true, ..r },
            },
            _ => InitRunView { stage: InitStage::Finished, report: InitReport { started: true, ..r } },
        },
    }
}

/// The step that each stage asks for.
pub open spec fn action_for(
    run: InitRunView,
    o: InitOptions,
    e: InitEvent,
    a: InitAction,
) -> bool {
    match run.stage {
        InitStage::InstallingBinary => a matches InitAction::InstallBinary { path } && path@
            == o.binary_path@,
        InitStage::CheckingConfig => a matches InitAction::CheckConfig { path } && path@
            == o.config_path@,
        InitStage::WritingConfig => a matches InitAction::WriteConfig { path } && path@
            == o.config_path@,
        InitStage::CheckingService => a matches InitAction::CheckService { path } && path@
            == o.service_path@,
        InitStage::WritingService => a matches InitAction::WriteService { path, contents } && path@
            == o.service_path@ && contents@ == service_text(o.binary_path@, o.config_path@),
        InitStage::Reloading => a matches InitAction::Systemctl { action, args } && action@
            == "daemon-reload"@ && args@.len() == 1 && args@[0]@ == "daemon-reload"@,
        InitStage::Enabling => a matches InitAction::Systemctl { action, args } && action@
            == "enable ups-monitor.service"@ && args@.len() == 2 && args@[0]@ == "enable"@
            && args@[1]@ == "ups-monitor.service"@,
        InitStage::Starting => a matches InitAction::Systemctl { action, args } && action@
            == "start ups-monitor.service"@ && args@.len() == 2 && args@[0]@ == "start"@
            && args@[1]@ == "ups-monitor.service"@,
        InitStage::Finished => a == InitAction::Finish(Ok(run.report)),
        _ => match e {
            InitEvent::Failed(err) => a == InitAction::Finish(Err(err)),
            _ => a matches InitAction::Finish(Err(InitError::UnsupportedPlatform)),
        },
    }
}

fn systemctl_action(action: &str, first: &str, second: Option<&str>) -> (r: InitAction)
    ensures
        r matches InitAction::Systemctl { action: a, args } && a@ == action@ && match second {
            None => args@.len() == 1 && args@[0]@ == first@,
            Some(s) => args@.len() == 2 && args@[0]@ == first@ && args@[1]@ == s@,
        },
{
    let mut args = vec![String::from_str(first)];
    match second {
        Some(s) => args.push(String::from_str(s)),
        None => {},
    }
    InitAction::Systemctl { action: String::from_str(action), args }
}

impl InitRun {
    pub fn new() -> (r: InitRun)
        ensures
            r@.stage == InitStage::Start,
            r@.report == empty_report(),
    {
        InitRun { stage: InitStage::Start, report: InitReport::default() }
    }

    /// Takes in the outcome of the last step and gives the next one (see
    /// [`init_transition`] and [`action_for`]).
    pub fn advance(&mut self, options: &InitOptions, event: InitEvent) -> (a: InitAction)
        requires
            accepts(old(self)@.stage, event),
        ensures
            final(self)@ == init_transition(old(self)@, *options, event),
            action_for(final(self)@, *options, event, a),
    {
        let ghost e = event;
        match event {
            InitEvent::Failed(err) => {
                self.stage = InitStage::Failed;
                return InitAction::Finish(Err(err));
            },
            InitEvent::Begin { on_linux } => {
                if !on_linux {
                    self.stage = InitStage::Failed;
                    return InitAction::Finish(Err(InitError::UnsupportedPlatform));
                }
                if options.skip_binary_install {
                    self.stage = InitStage::CheckingConfig;
                } else {
                    self.stage = InitStage::InstallingBinary;
                }
            },
            InitEvent::Exists(exists) => {
                let keep = exists && !options.force;
                if self.stage == InitStage::CheckingConfig {
                    self.stage = if keep {
                        InitStage::CheckingService
                    } else {
                        InitStage::WritingConfig
                    };
                } else {
                    self.stage = if keep {
                        InitStage::Reloading
                    } else {
                        InitStage::WritingService
                    };
                }
            },
            InitEvent::Done => {
                match self.stage {
                    InitStage::InstallingBinary => {
                        self.report.binary_installed = true;
                        self.stage = InitStage::CheckingConfig;
                    },
                    InitStage::WritingConfig => {
                        self.report.config_written = true;
                        self.stage = InitStage::CheckingService;
                    },
                    InitStage::WritingService => {
                        self.report.service_written = true;
                        self.stage = InitStage::Reloading;
                    },
                    InitStage::Reloading => {
                        self.report.daemon_reloaded = true;
                        self.stage = if options.enable {
                            InitStage::Enabling
                        } else if options.start {
                            InitStage::Starting
                        } else {
                            InitStage::Finished
                        };
                    },
                    InitStage::Enabling => {
                        self.report.enabled = true;
                        self.stage = if options.start {
                            InitStage::Starting
                        } else {
                            InitStage::Finished
                        };
                    },
                    _ => {
                        self.report.started = true;
                        self.stage = InitStage::Finished;
                    },
                }
            },
        }
        match self.stage {
            InitStage::InstallingBinary => InitAction::InstallBinary {
                path: options.binary_path.clone(),
            },
            InitStage::CheckingConfig => InitAction::CheckConfig { path: options.config_path.clone() },
            InitStage::WritingConfig => InitAction::WriteConfig { path: options.config_path.clone() },
            InitStage::CheckingService => InitAction::CheckService {
                path: options.service_path.clone(),
            },
            InitStage::WritingService => InitAction::WriteService {
                path: options.service_path.clone(),
                contents: render_systemd_service(
                    options.binary_path.as_str(),
                    options.config_path.as_str(),
                ),
            },
            InitStage::Reloading => systemctl_action("daemon-reload", "daemon-reload", None),
            InitStage::Enabling => systemctl_action(
                "enable ups-monitor.service",
                "enable",
                Some("ups-monitor.service"),
            ),
            InitStage::Starting => systemctl_action(
                "start ups-monitor.service",
                "start",
                Some("ups-monitor.service"),
            ),
            _ => InitAction::Finish(Ok(self.report)),
        }
    }
}

/// Judges how a `systemctl` step exited: success, or the failure with
/// the step, its status and its standard error without surrounding
/// whitespace.
pub fn systemctl_outcome(action: &str, success: bool, status: String, stderr: &str) -> (r: Result<
    (),
    InitError,
>)
    ensures
        success ==> r == Ok::<(), InitError>(()),
        !success ==> (r matches Err(InitError::Systemctl { action: a, status: s, stderr: e })
            && a@ == action@ && s == status && e@ == trim(stderr@)),
{
    if success {
        return Ok(());
    }
    let v = chars_of(stderr);
    let (a, b) = trim_bounds(v.as_slice());
    Err(
        InitError::Systemctl {
            action: String::from_str(action),
            status,
            stderr: string_of_range(v.as_slice(), a, b),
        },
    )
}

/// The lines that tell what `init` did: the binary, the configuration and
/// the unit file, each done or kept; the systemd steps taken; and, unless
/// the service was started, what to do next.
pub open spec fn report_lines(o: InitOptions, r: InitReport) -> Seq<Seq<char>> {
    let config = o.config_path@;
    let service = o.service_path@;
    (if r.binary_installed {
        seq!["installed binary: "@ + o.binary_path@]
    } else if o.skip_binary_install {
        seq!["skipped binary install"@]
    } else {
        Seq::empty()
    }) + seq![
        if r.config_written {
            "wrote sample config: "@ + config
        } else {
            "kept existing config: "@ + config + " (use --force to overwrite)"@
        },
        if r.service_written {
            "wrote systemd service: "@ + service
        } else {
            "kept existing systemd service: "@ + service + " (use --force to overwrite)"@
        },
    ] + (if r.daemon_reloaded {
        seq!["reloaded systemd manager configuration"@]
    } else {
        Seq::empty()
    }) + (if r.enabled {
        seq!["enabled ups-monitor.service"@]
    } else {
        Seq::empty()
    }) + (if r.started {
        seq!["started ups-monitor.service"@]
    } else {
        Seq::empty()
    }) + (if !r.started {
        seq!["edit "@ + config + ", then run: sudo systemctl enable --now ups-monitor.service"@]
    } else {
        Seq::empty()
    })
}

fn joined(first: &str, middle: &str, last: &str) -> (r: String)
    ensures
        r@ == first@ + middle@ + last@,
{
    let mut s = String::from_str(first);
    s.append(middle);
    s.append(last);
    s
}

/// The lines that tell what `init` did (see [`report_lines`]).
#[verifier::spinoff_prover]
pub fn init_report_lines(options: &InitOptions, report: &InitReport) -> (r: Vec<String>)
    ensures
        strings_view(r@) == report_lines(*options, *report),
{
    let config = options.config_path.as_str();
    let service = options.service_path.as_str();
    let mut lines: Vec<String> = Vec::new();
    if report.binary_installed {
        lines.push(joined("installed binary: ", options.binary_path.as_str(), ""));
    } else if options.skip_binary_install {
        lines.push(String::from_str("skipped binary install"));
    }
    if report.config_written {
        lines.push(joined("wrote sample config: ", config, ""));
    } else {
        lines.push(joined("kept existing config: ", config, " (use --force to overwrite)"));
    }
    if report.service_written {
        lines.push(joined("wrote systemd service: ", service, ""));
    } else {
        lines.push(
            joined("kept existing systemd service: ", service, " (use --force to overwrite)"),
        );
    }
    if report.daemon_reloaded {
        lines.push(String::from_str("reloaded systemd manager configuration"));
    }
    if report.enabled {
        lines.push(String::from_str("enabled ups-monitor.service"));
    }
    if report.started {
        lines.push(String::from_str("started ups-monitor.service"));
    }
    if !report.started {
        lines.push(
            joined(
                "edit ",
                config,
                ", then run: sudo systemctl enable --now ups-monitor.service",
            ),
        );
    }
    proof {
        reveal_strlit("");
        assert(strings_view(lines@) =~= report_lines(*options, *report));
    }
    lines
}

/// What the report says at each stage, for an installation with the given
/// options: each flag records a step that was done.
pub open spec fn report_consistent(run: InitRunView, o: InitOptions) -> bool {
    let r = run.report;
    match run.stage {
        InitStage::Start => r == empty_report(),
        InitStage::InstallingBinary => r == empty_report() && !o.skip_binary_install,
        InitStage::CheckingConfig | InitStage::WritingConfig => r == InitReport {
            binary_installed: !o.skip_binary_install,
            ..empty_report()
        },
        InitStage::CheckingService | InitStage::WritingService => r.binary_installed
            == !o.skip_binary_install && !r.service_written && !r.daemon_reloaded && !r.enabled
            && !r.started,
        InitStage::Reloading => r.binary_installed == !o.skip_binary_install && !r.daemon_reloaded
            && !r.enabled && !r.started,
        InitStage::Enabling => r.binary_installed == !o.skip_binary_install && r.daemon_reloaded
            && o.enable && !r.enabled && !r.started,
        InitStage::Starting => r.binary_installed == !o.skip_binary_install && r.daemon_reloaded
            && r.enabled == o.enable && o.start && !r.started,
        InitStage::Finished => r.binary_installed == !o.skip_binary_install && r.daemon_reloaded
            && r.enabled == o.enable && r.started == o.start,
        InitStage::Failed => true,
    }
}

/// Every step keeps the report true to what was done; so an installation
/// that finishes has installed the binary unless that was skipped,
/// reloaded systemd, and enabled and started the service exactly as asked.
pub proof fn lemma_report_stays_consistent(run: InitRunView, o: InitOptions, e: InitEvent)
    requires
        report_consistent(run, o),
        accepts(run.stage, e),
    ensures
        report_consistent(init_transition(run, o, e), o),
{
}

/// Where an installation stands after a series of events.
pub open spec fn run_through(run: InitRunView, o: InitOptions, events: Seq<InitEvent>) -> InitRunView
    decreases events.len(),
{
    if events.len() == 0 {
        run
    } else {
        run_through(init_transition(run, o, events[0]), o, events.drop_first())
    }
}

/// Each event of the series is one that the stage it meets waits for.
pub open spec fn all_accepted(run: InitRunView, o: InitOptions, events: Seq<InitEvent>) -> bool
    decreases events.len(),
{
    events.len() == 0 || (accepts(run.stage, events[0]) && all_accepted(
        init_transition(run, o, events[0]),
        o,
        events.drop_first(),
    ))
}

proof fn lemma_run_stays_consistent(run: InitRunView, o: InitOptions, events: Seq<InitEvent>)
    requires
        report_consistent(run, o),
        all_accepted(run, o, events),
    ensures
        report_consistent(run_through(run, o, events), o),
    decreases events.len(),
{
    if events.len() > 0 {
        lemma_report_stays_consistent(run, o, events[0]);
        lemma_run_stays_consistent(init_transition(run, o, events[0]), o, events.drop_first());
    }
}

/// A whole installation that finishes, from its start through any series
/// of answered steps, has installed the binary unless that was skipped,
/// reloaded systemd, and enabled and started the service exactly as asked.
pub proof fn lemma_finished_run_did_what_was_asked(o: InitOptions, events: Seq<InitEvent>)
    requires
        all_accepted(InitRunView { stage: InitStage::Start, report: empty_report() }, o, events),
        run_through(InitRunView { stage: InitStage::Start, report: empty_report() }, o, events).stage
            is Finished,
    ensures
        ({
            let r = run_through(
                InitRunView { stage: InitStage::Start, report: empty_report() },
                o,
                events,
            ).report;
            &&& r.binary_installed == !o.skip_binary_install
            &&& r.daemon_reloaded
            &&& r.enabled == o.enable
            &&& r.started == o.start
        }),
{
    lemma_run_stays_consistent(
        InitRunView { stage: InitStage::Start, report: empty_report() },
        o,
        events,
    );
}

/// Files that exist are kept unless `force` is given: the answer that a
/// file exists leads past its writing, and the report says it was not
/// written. A file that is missing, or any file under `force`, is written.
pub proof fn lemma_existing_files_kept(run: InitRunView, o: InitOptions, exists: bool)
    requires
        run.stage is CheckingConfig || run.stage is CheckingService,
        report_consistent(run, o),
    ensures
        ({
            let next = init_transition(run, o, InitEvent::Exists(exists));
            &&& run.stage is CheckingConfig ==> if exists && !o.force {
                next.stage is CheckingService && !next.report.config_written
            } else {
                next.stage is WritingConfig
            }
            &&& run.stage is CheckingService ==> if exists && !o.force {
                next.stage is Reloading && !next.report.service_written
            } else {
                next.stage is WritingService
            }
        }),
{
}

} // verus!
