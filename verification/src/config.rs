//! The monitor's configuration, its defaults, and the checks that a loaded
//! configuration must pass.
use vstd::prelude::*;
use vstd::string::*;
use crate::text::{
    chars_eq, chars_of, is_blank, is_blank_str, to_ascii_lowercase, trim, trim_lowercase,
};
use crate::time::Duration;

verus! {

/// The characters of each string of a sequence.
pub open spec fn strings_view(v: Seq<String>) -> Seq<Seq<char>> {
    v.map_values(|s: String| s@)
}

/// Why a configuration could not be loaded.
#[derive(Debug)]
pub enum ConfigError {
    /// The file could not be read.
    Read { path: String, message: String },
    /// The file is not a YAML document of the expected shape.
    Parse { path: String, message: String },
    /// The configuration breaks one of the rules of [`AppConfig::validate`].
    Invalid(String),
}

/// The whole configuration.
#[derive(Debug, Clone)]
pub struct AppConfig {
    pub snmp: SnmpConfig,
    pub ups: UpsConfig,
    pub monitor: MonitorConfig,
    pub shutdown: ShutdownConfig,
    pub logging: LoggingConfig,
}

/// The first rule that a configuration breaks, as the message that reports
/// it, or `None` when it breaks none.
pub open spec fn validation_failure(c: AppConfig) -> Option<Seq<char>> {
    if is_blank(c.snmp.address@) {
        Some("snmp.address must not be empty"@)
    } else if is_blank(c.snmp.username@) {
        Some("snmp.username must not be empty"@)
    } else if c.monitor.poll_interval@ == 0 {
        Some("monitor.poll_interval must be greater than zero"@)
    } else if c.monitor.low_battery_percent > 100 {
        Some("monitor.low_battery_percent must be between 0 and 100"@)
    } else if (c.monitor.trigger is OnBatteryDuration || c.monitor.trigger is Either)
        && c.monitor.max_on_battery@ == 0 {
        Some(
            "monitor.max_on_battery must be greater than zero when duration trigger is enabled"@,
        )
    } else if !c.shutdown.dry_run && c.shutdown.command@.len() == 0 {
        Some("shutdown.command must not be empty when shutdown.dry_run is false"@)
    } else {
        None
    }
}

impl AppConfig {
    /// Checks the rules that a configuration must meet before it is used;
    /// the first rule broken is reported.
    pub fn validate(&self) -> (r: Result<(), ConfigError>)
        ensures
            match validation_failure(*self) {
                None => r is Ok,
                Some(message) => r matches Err(ConfigError::Invalid(m)) && m@ == message,
            },
    {
        if is_blank_str(self.snmp.address.as_str()) {
            return Err(ConfigError::Invalid(String::from_str("snmp.address must not be empty")));
        }
        if is_blank_str(self.snmp.username.as_str()) {
            return Err(ConfigError::Invalid(String::from_str("snmp.username must not be empty")));
        }
        if self.monitor.poll_interval.is_zero() {
            return Err(
                ConfigError::Invalid(
                    String::from_str("monitor.poll_interval must be greater than zero"),
                ),
            );
        }
        if self.monitor.low_battery_percent > 100 {
            return Err(
                ConfigError::Invalid(
                    String::from_str("monitor.low_battery_percent must be between 0 and 100"),
                ),
            );
        }
        if self.monitor.trigger.checks_duration() && self.monitor.max_on_battery.is_zero() {
            return Err(
                ConfigError::Invalid(
                    String::from_str(
                        "monitor.max_on_battery must be greater than zero when duration trigger is enabled",
                    ),
                ),
            );
        }
        if !self.shutdown.dry_run && self.shutdown.command.len() == 0 {
            return Err(
                ConfigError::Invalid(
                    String::from_str(
                        "shutdown.command must not be empty when shutdown.dry_run is false",
                    ),
                ),
            );
        }
        Ok(())
    }
}

impl AppConfig {
    /// Every section at its defaults.
    pub open spec fn is_default(self) -> bool {
        &&& self.snmp.is_default()
        &&& self.ups.is_default()
        &&& self.monitor.is_default()
        &&& self.shutdown.is_default()
        &&& self.logging.is_default()
    }
}

impl Default for AppConfig {
    fn default() -> (r: AppConfig)
        ensures
            r.is_default(),
    {
        AppConfig {
            snmp: SnmpConfig::default(),
            ups: UpsConfig::default(),
            monitor: MonitorConfig::default(),
            shutdown: ShutdownConfig::default(),
            logging: LoggingConfig::default(),
        }
    }
}

/// How to reach the UPS's network management card.
#[derive(Debug, Clone)]
pub struct SnmpConfig {
    pub address: String,
    pub port: u16,
    pub version: String,
    pub security_level: String,
    /// The SNMPv3 user, or the community for SNMP v1 and v2c.
    pub username: String,
    pub auth_protocol: Option<String>,
    pub auth_password: Option<String>,
    pub privacy_protocol: Option<String>,
    pub privacy_password: Option<String>,
    pub timeout: Duration,
    pub retries: u8,
}

impl SnmpConfig {
    pub open spec fn is_default(self) -> bool {
        &&& self.address@ == "192.168.0.255"@
        &&& self.port == 161
        &&& self.version@ == "3"@
        &&& self.security_level@ == "noAuthNoPriv"@
        &&& self.username@ == "local3"@
        &&& self.auth_protocol is None
        &&& self.auth_password is None
        &&& self.privacy_protocol is None
        &&& self.privacy_password is None
        &&& self.timeout@ == 3_000_000_000
        &&& self.retries == 1
    }
}

impl Default for SnmpConfig {
    fn default() -> (r: SnmpConfig)
        ensures
            r.is_default(),
    {
        SnmpConfig {
            address: String::from_str("192.168.0.255"),
            port: default_snmp_port(),
            version: default_snmp_version(),
            security_level: default_security_level(),
            username: String::from_str("local3"),
            auth_protocol: None,
            auth_password: None,
            privacy_protocol: None,
            privacy_password: None,
            timeout: default_snmp_timeout(),
            retries: default_snmp_retries(),
        }
    }
}

/// Which adapter reads the UPS, and what it reads.
#[derive(Debug, Clone)]
pub struct UpsConfig {
    pub adapter: String,
    pub oids: UpsOids,
    pub mapping: UpsMapping,
}

impl UpsConfig {
    pub open spec fn is_default(self) -> bool {
        &&& self.adapter@ == "ups_mib"@
        &&& self.oids.is_default()
        &&& self.mapping.is_default()
    }
}

impl Default for UpsConfig {
    fn default() -> (r: UpsConfig)
        ensures
            r.is_default(),
    {
        UpsConfig { adapter: default_adapter(), oids: UpsOids::default(), mapping: UpsMapping::default() }
    }
}

/// The OIDs polled for each reading.
#[derive(Debug, Clone)]
pub struct UpsOids {
    pub output_source: String,
    pub battery_charge_percent: String,
    pub battery_status: String,
    pub seconds_on_battery: Option<String>,
    pub runtime_remaining_minutes: Option<String>,
}

impl UpsOids {
    /// The standard UPS-MIB objects.
    pub open spec fn is_default(self) -> bool {
        &&& self.output_source@ == "1.3.6.1.2.1.33.1.4.1.0"@
        &&& self.battery_charge_percent@ == "1.3.6.1.2.1.33.1.2.4.0"@
        &&& self.battery_status@ == "1.3.6.1.2.1.33.1.2.1.0"@
        &&& self.seconds_on_battery matches Some(o) && o@ == "1.3.6.1.2.1.33.1.2.2.0"@
        &&& self.runtime_remaining_minutes matches Some(o) && o@ == "1.3.6.1.2.1.33.1.2.3.0"@
    }
}

impl Default for UpsOids {
    fn default() -> (r: UpsOids)
        ensures
            r.is_default(),
    {
        UpsOids {
            output_source: String::from_str("1.3.6.1.2.1.33.1.4.1.0"),
            battery_charge_percent: String::from_str("1.3.6.1.2.1.33.1.2.4.0"),
            battery_status: String::from_str("1.3.6.1.2.1.33.1.2.1.0"),
            seconds_on_battery: Some(String::from_str("1.3.6.1.2.1.33.1.2.2.0")),
            runtime_remaining_minutes: Some(String::from_str("1.3.6.1.2.1.33.1.2.3.0")),
        }
    }
}

/// The values that the card reports for each state of interest; a value
/// matches a candidate when they agree after normalisation or as numbers.
#[derive(Debug, Clone)]
pub struct UpsMapping {
    pub on_battery_values: Vec<String>,
    pub line_values: Vec<String>,
    pub low_battery_values: Vec<String>,
    pub depleted_battery_values: Vec<String>,
}

impl UpsMapping {
    pub open spec fn is_default(self) -> bool {
        &&& strings_view(self.on_battery_values@) == default_on_battery_values_spec()
        &&& strings_view(self.line_values@) == default_line_values_spec()
        &&& strings_view(self.low_battery_values@) == default_low_battery_values_spec()
        &&& strings_view(self.depleted_battery_values@) == default_depleted_battery_values_spec()
    }
}

impl Default for UpsMapping {
    fn default() -> (r: UpsMapping)
        ensures
            r.is_default(),
    {
        UpsMapping {
            on_battery_values: default_on_battery_values(),
            line_values: default_line_values(),
            low_battery_values: default_low_battery_values(),
            depleted_battery_values: default_depleted_battery_values(),
        }
    }
}

/// How often to poll, and when to shut down.
#[derive(Debug, Clone)]
pub struct MonitorConfig {
    pub poll_interval: Duration,
    pub trigger: ShutdownTrigger,
    pub low_battery_percent: u8,
    pub max_on_battery: Duration,
}

impl MonitorConfig {
    pub open spec fn is_default(self) -> bool {
        &&& self.poll_interval@ == 10_000_000_000
        &&& self.trigger is Either
        &&& self.low_battery_percent == 30
        &&& self.max_on_battery@ == 60_000_000_000
    }
}

impl Default for MonitorConfig {
    fn default() -> (r: MonitorConfig)
        ensures
            r.is_default(),
    {
        MonitorConfig {
            poll_interval: default_poll_interval(),
            trigger: ShutdownTrigger::Either,
            low_battery_percent: default_low_battery_percent(),
            max_on_battery: default_max_on_battery(),
        }
    }
}

/// Which conditions may cause a shutdown while the UPS runs on battery.
#[derive(Debug, Clone, Copy, PartialEq, Eq, Structural)]
pub enum ShutdownTrigger {
    /// Only a low battery charge.
    BatteryCapacity,
    /// Only the time spent on battery.
    OnBatteryDuration,
    /// Whichever of the two comes first.
    Either,
}

impl Default for ShutdownTrigger {
    fn default() -> (r: ShutdownTrigger)
        ensures
            r is Either,
    {
        ShutdownTrigger::Either
    }
}

impl ShutdownTrigger {
    pub open spec fn checks_capacity_spec(self) -> bool {
        self is BatteryCapacity || self is Either
    }

    pub open spec fn checks_duration_spec(self) -> bool {
        self is OnBatteryDuration || self is Either
    }

    /// Whether the battery charge and health are checked.
    pub fn checks_capacity(self) -> (r: bool)
        ensures
            r == self.checks_capacity_spec(),
    {
        match self {
            ShutdownTrigger::BatteryCapacity | ShutdownTrigger::Either => true,
            ShutdownTrigger::OnBatteryDuration => false,
        }
    }

    /// Whether the time on battery is checked.
    pub fn checks_duration(self) -> (r: bool)
        ensures
            r == self.checks_duration_spec(),
    {
        match self {
            ShutdownTrigger::OnBatteryDuration | ShutdownTrigger::Either => true,
            ShutdownTrigger::BatteryCapacity => false,
        }
    }
}

/// What a shutdown does.
#[derive(Debug, Clone)]
pub struct ShutdownConfig {
    /// Only report the shutdown that would be made.
    pub dry_run: bool,
    /// The program and its arguments.
    pub command: Vec<String>,
}

impl ShutdownConfig {
    pub open spec fn is_default(self) -> bool {
        &&& self.dry_run
        &&& strings_view(self.command@) == default_shutdown_command_spec()
    }
}

impl Default for ShutdownConfig {
    fn default() -> (r: ShutdownConfig)
        ensures
            r.is_default(),
    {
        ShutdownConfig { dry_run: default_dry_run(), command: default_shutdown_command() }
    }
}

/// Where log lines go.
#[derive(Debug, Clone)]
pub struct LoggingConfig {
    pub level: String,
    /// A file to which log lines are also written.
    pub file: Option<String>,
}

impl LoggingConfig {
    pub open spec fn is_default(self) -> bool {
        &&& self.level@ == "info"@
        &&& self.file is None
    }
}

impl Default for LoggingConfig {
    fn default() -> (r: LoggingConfig)
        ensures
            r.is_default(),
    {
        LoggingConfig { level: default_log_level(), file: None }
    }
}

/// How much is logged.
#[derive(Debug, Clone, Copy, PartialEq, Eq, Structural)]
pub enum LogLevel {
    Off,
    Error,
    Warn,
    Info,
    Debug,
    Trace,
}

/// The level that a configured name selects, ignoring case and
/// surrounding whitespace; an unknown name selects `info`.
pub open spec fn log_level_named(name: Seq<char>) -> LogLevel {
    let n = to_ascii_lowercase(trim(name));
    if n == "off"@ {
        LogLevel::Off
    } else if n == "error"@ {
        LogLevel::Error
    } else if n == "warn"@ || n == "warning"@ {
        LogLevel::Warn
    } else if n == "debug"@ {
        LogLevel::Debug
    } else if n == "trace"@ {
        LogLevel::Trace
    } else {
        LogLevel::Info
    }
}

/// The level that a configured name selects (see [`log_level_named`]).
pub fn parse_level(level: &str) -> (r: LogLevel)
    ensures
        r == log_level_named(level@),
{
    let n = trim_lowercase(level);
    let is = |word: &str| -> (b: bool)
        ensures
            b == (n@ == word@),
        { chars_eq(n.as_slice(), chars_of(word).as_slice()) };
    if is("off") {
        LogLevel::Off
    } else if is("error") {
        LogLevel::Error
    } else if is("warn") || is("warning") {
        LogLevel::Warn
    } else if is("debug") {
        LogLevel::Debug
    } else if is("trace") {
        LogLevel::Trace
    } else {
        LogLevel::Info
    }
}

fn default_snmp_port() -> (r: u16)
    ensures
        r == 161,
{
    161
}

fn default_snmp_version() -> (r: String)
    ensures
        r@ == "3"@,
{
    String::from_str("3")
}

fn default_security_level() -> (r: String)
    ensures
        r@ == "noAuthNoPriv"@,
{
    String::from_str("noAuthNoPriv")
}

fn default_snmp_timeout() -> (r: Duration)
    ensures
        r@ == 3_000_000_000,
{
    Duration::from_secs(3)
}

fn default_snmp_retries() -> (r: u8)
    ensures
        r == 1,
{
    1
}

fn default_adapter() -> (r: String)
    ensures
        r@ == "ups_mib"@,
{
    String::from_str("ups_mib")
}

pub open spec fn default_on_battery_values_spec() -> Seq<Seq<char>> {
    seq!["5"@, "battery"@, "battery(5)"@]
}

pub open spec fn default_line_values_spec() -> Seq<Seq<char>> {
    seq!["3"@, "normal"@, "normal(3)"@]
}

pub open spec fn default_low_battery_values_spec() -> Seq<Seq<char>> {
    seq!["3"@, "batteryLow"@, "battery_low"@, "batteryLow(3)"@]
}

pub open spec fn default_depleted_battery_values_spec() -> Seq<Seq<char>> {
    seq!["4"@, "batteryDepleted"@, "battery_depleted"@, "batteryDepleted(4)"@]
}

pub open spec fn default_shutdown_command_spec() -> Seq<Seq<char>> {
    seq!["/sbin/shutdown"@, "-h"@, "+0"@]
}

fn default_on_battery_values() -> (r: Vec<String>)
    ensures
        strings_view(r@) == default_on_battery_values_spec(),
{
    let r = vec![String::from_str("5"), String::from_str("battery"), String::from_str("battery(5)")];
    proof {
        assert(strings_view(r@) =~= default_on_battery_values_spec());
    }
    r
}

fn default_line_values() -> (r: Vec<String>)
    ensures
        strings_view(r@) == default_line_values_spec(),
{
    let r = vec![String::from_str("3"), String::from_str("normal"), String::from_str("normal(3)")];
    proof {
        assert(strings_view(r@) =~= default_line_values_spec());
    }
    r
}

fn default_low_battery_values() -> (r: Vec<String>)
    ensures
        strings_view(r@) == default_low_battery_values_spec(),
{
    let r = vec![
        String::from_str("3"),
        String::from_str("batteryLow"),
        String::from_str("battery_low"),
        String::from_str("batteryLow(3)"),
    ];
    proof {
        assert(strings_view(r@) =~= default_low_battery_values_spec());
    }
    r
}

fn default_depleted_battery_values() -> (r: Vec<String>)
    ensures
        strings_view(r@) == default_depleted_battery_values_spec(),
{
    let r = vec![
        String::from_str("4"),
        String::from_str("batteryDepleted"),
        String::from_str("battery_depleted"),
        String::from_str("batteryDepleted(4)"),
    ];
    proof {
        assert(strings_view(r@) =~= default_depleted_battery_values_spec());
    }
    r
}

fn default_poll_interval() -> (r: Duration)
    ensures
        r@ == 10_000_000_000,
{
    Duration::from_secs(10)
}

fn default_low_battery_percent() -> (r: u8)
    ensures
        r == 30,
{
    30
}

fn default_max_on_battery() -> (r: Duration)
    ensures
        r@ == 60_000_000_000,
{
    Duration::from_secs(60)
}

fn default_dry_run() -> (r: bool)
    ensures
        r,
{
    true
}

fn default_shutdown_command() -> (r: Vec<String>)
    ensures
        strings_view(r@) == default_shutdown_command_spec(),
{
    let r = vec![String::from_str("/sbin/shutdown"), String::from_str("-h"), String::from_str("+0")];
    proof {
        assert(strings_view(r@) =~= default_shutdown_command_spec());
    }
    r
}

fn default_log_level() -> (r: String)
    ensures
        r@ == "info"@,
{
    String::from_str("info")
}

/// The rules of a configuration: a configuration is accepted exactly when
/// the SNMP address and user are given, the poll interval is not zero, the
/// low-battery percentage is at most 100, a trigger that watches the time
/// on battery has a limit above zero, and a real shutdown has a command.
pub proof fn lemma_validation_rules(c: AppConfig)
    ensures
        validation_failure(c) is None <==> {
            &&& !is_blank(c.snmp.address@)
            &&& !is_blank(c.snmp.username@)
            &&& c.monitor.poll_interval@ > 0
            &&& c.monitor.low_battery_percent <= 100
            &&& (c.monitor.trigger is BatteryCapacity || c.monitor.max_on_battery@ > 0)
            &&& (c.shutdown.dry_run || c.shutdown.command@.len() > 0)
        },
        c.monitor.trigger.checks_duration_spec() && c.monitor.max_on_battery@ == 0
            ==> validation_failure(c) is Some,
{
}

/// Each trigger mode watches what its name says: `battery_capacity` only
/// the battery, `on_battery_duration` only the time on battery, `either`
/// both.
pub proof fn lemma_trigger_modes(t: ShutdownTrigger)
    ensures
        t.checks_capacity_spec() <==> !(t is OnBatteryDuration),
        t.checks_duration_spec() <==> !(t is BatteryCapacity),
{
}

} // verus!
