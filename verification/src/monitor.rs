//! The monitor's decisions: from each sample, which changes to report and
//! whether to shut the host down.
use vstd::prelude::*;
use vstd::string::*;
use crate::config::{MonitorConfig, ShutdownTrigger};
use crate::shutdown::ShutdownError;
use crate::text::{decimal, push_decimal};
use crate::time::{Duration, MAX_NANOS};
use crate::ups::{BatteryHealth, PowerSource, UpsError, UpsSample};

verus! {

/// Why the monitoring loop stopped.
#[derive(Debug)]
pub enum MonitorError {
    Ups(UpsError),
    Shutdown(ShutdownError),
}

/// What the monitor remembers between samples.
#[derive(Debug, Clone)]
pub struct MonitorState {
    on_battery_since: Option<Duration>,
    last_power_source: Option<PowerSource>,
    last_battery_health: Option<BatteryHealth>,
    shutdown_requested: bool,
}

/// The contents of a [`MonitorState`].
pub struct MonitorView {
    /// When the current stretch on battery began.
    pub on_battery_since: Option<Duration>,
    pub last_power_source: Option<PowerSource>,
    pub last_battery_health: Option<BatteryHealth>,
    /// Whether a shutdown was already requested in this stretch on battery.
    pub shutdown_requested: bool,
}

impl View for MonitorState {
    type V = MonitorView;

    closed spec fn view(&self) -> MonitorView {
        MonitorView {
            on_battery_since: self.on_battery_since,
            last_power_source: self.last_power_source,
            last_battery_health: self.last_battery_health,
            shutdown_requested: self.shutdown_requested,
        }
    }
}

/// What one sample leads to.
#[derive(Debug, Clone, PartialEq, Eq)]
pub struct MonitorDecision {
    /// Changes to report, in order.
    pub events: Vec<MonitorEvent>,
    pub shutdown: Option<ShutdownRequest>,
}

/// A change worth reporting.
#[allow(inconsistent_fields)]
#[derive(Debug, Clone, Copy, PartialEq, Eq, Structural)]
pub enum MonitorEvent {
    PowerSourceChanged { from: Option<PowerSource>, to: PowerSource },
    BatteryHealthChanged { from: Option<BatteryHealth>, to: BatteryHealth },
    /// The UPS went on battery: the countdown starts.
    OnBatteryStarted,
    /// Line power came back while on battery: the countdown is canceled.
    OnBatteryCanceled,
}

/// A request to shut the host down.
#[derive(Debug, Clone, Copy, PartialEq, Eq, Structural)]
pub struct ShutdownRequest {
    pub reason: ShutdownReason,
}

/// Why the host is to be shut down.
#[derive(Debug, Clone, Copy, PartialEq, Eq, Structural)]
pub enum ShutdownReason {
    LowBattery { percent: u8, threshold: u8 },
    UpsReportedLowBattery { health: BatteryHealth },
    OnBatteryTooLong { elapsed: Duration, limit: Duration },
}

/// The time since `started`, or zero if `now` is earlier.
pub open spec fn elapsed_nanos(now: Duration, started: Duration) -> nat {
    if now@ >= started@ {
        (now@ - started@) as nat
    } else {
        0
    }
}

/// Why a sample taken on battery calls for a shutdown, if it does: none
/// once one was requested in this stretch on battery; otherwise, when the
/// trigger checks capacity, a charge at or below the threshold and then a
/// battery that the UPS reports low or depleted; and, when the trigger
/// checks duration, a stretch on battery at least as long as the limit.
pub open spec fn battery_reason(
    already_requested: bool,
    sample: UpsSample,
    started: Duration,
    now: Duration,
    c: MonitorConfig,
) -> Option<ShutdownReason> {
    if already_requested {
        None
    } else if c.trigger.checks_capacity_spec() && (sample.battery_charge_percent matches Some(p)
        && p <= c.low_battery_percent) {
        Some(
            ShutdownReason::LowBattery {
                percent: sample.battery_charge_percent->0,
                threshold: c.low_battery_percent,
            },
        )
    } else if c.trigger.checks_capacity_spec() && (sample.battery_health is Low
        || sample.battery_health is Depleted) {
        Some(ShutdownReason::UpsReportedLowBattery { health: sample.battery_health })
    } else if c.trigger.checks_duration_spec() && elapsed_nanos(now, started)
        >= c.max_on_battery@ {
        Some(
            ShutdownReason::OnBatteryTooLong {
                elapsed: now.saturating_sub_spec(started),
                limit: c.max_on_battery,
            },
        )
    } else {
        None
    }
}

/// The change events that a sample's power source and battery health give.
pub open spec fn change_events(m: MonitorView, sample: UpsSample) -> Seq<MonitorEvent> {
    (if m.last_power_source != Some(sample.power_source) {
        seq![
            MonitorEvent::PowerSourceChanged {
                from: m.last_power_source,
                to: sample.power_source,
            },
        ]
    } else {
        Seq::empty()
    }) + (if m.last_battery_health != Some(sample.battery_health) {
        seq![
            MonitorEvent::BatteryHealthChanged {
                from: m.last_battery_health,
                to: sample.battery_health,
            },
        ]
    } else {
        Seq::empty()
    })
}

/// What one sample does: the state after it, the events to report, and
/// the reason for a shutdown, if one is requested.
pub open spec fn step(m: MonitorView, sample: UpsSample, now: Duration, c: MonitorConfig) -> (
    MonitorView,
    Seq<MonitorEvent>,
    Option<ShutdownReason>,
) {
    let events = change_events(m, sample);
    match sample.power_source {
        PowerSource::Battery => {
            let started = match m.on_battery_since {
                Some(t) => t,
                None => now,
            };
            let reason = battery_reason(m.shutdown_requested, sample, started, now, c);
            (
                MonitorView {
                    on_battery_since: Some(started),
                    last_power_source: Some(sample.power_source),
                    last_battery_health: Some(sample.battery_health),
                    shutdown_requested: m.shutdown_requested || reason is Some,
                },
                if m.on_battery_since is None {
                    events.push(MonitorEvent::OnBatteryStarted)
                } else {
                    events
                },
                reason,
            )
        },
        PowerSource::Line => (
            MonitorView {
                on_battery_since: None,
                last_power_source: Some(sample.power_source),
                last_battery_health: Some(sample.battery_health),
                shutdown_requested: false,
            },
            if m.on_battery_since is Some {
                events.push(MonitorEvent::OnBatteryCanceled)
            } else {
                events
            },
            None,
        ),
        PowerSource::Unknown => (
            MonitorView {
                on_battery_since: m.on_battery_since,
                last_power_source: Some(sample.power_source),
                last_battery_health: Some(sample.battery_health),
                shutdown_requested: m.shutdown_requested,
            },
            events,
            None,
        ),
    }
}

pub open spec fn request_for(reason: Option<ShutdownReason>) -> Option<ShutdownRequest> {
    match reason {
        Some(r) => Some(ShutdownRequest { reason: r }),
        None => None,
    }
}

/// A state that has seen nothing yet.
pub open spec fn initial_view() -> MonitorView {
    MonitorView {
        on_battery_since: None,
        last_power_source: None,
        last_battery_health: None,
        shutdown_requested: false,
    }
}

impl MonitorState {
    pub fn new() -> (r: MonitorState)
        ensures
            r@ == initial_view(),
    {
        MonitorState {
            on_battery_since: None,
            last_power_source: None,
            last_battery_health: None,
            shutdown_requested: false,
        }
    }

    /// Takes in a sample taken at `now` (time since monitoring began) and
    /// decides what it leads to (see [`step`]).
    pub fn evaluate(&mut self, sample: &UpsSample, now: Duration, config: &MonitorConfig) -> (d:
        MonitorDecision)
        ensures
            final(self)@ == step(old(self)@, *sample, now, *config).0,
            d.events@ == step(old(self)@, *sample, now, *config).1,
            d.shutdown == request_for(step(old(self)@, *sample, now, *config).2),
    {
        let ghost m = self@;
        let mut events: Vec<MonitorEvent> = Vec::new();
        if self.last_power_source != Some(sample.power_source) {
            events.push(
                MonitorEvent::PowerSourceChanged {
                    from: self.last_power_source,
                    to: sample.power_source,
                },
            );
            self.last_power_source = Some(sample.power_source);
        }
        if self.last_battery_health != Some(sample.battery_health) {
            events.push(
                MonitorEvent::BatteryHealthChanged {
                    from: self.last_battery_health,
                    to: sample.battery_health,
                },
            );
            self.last_battery_health = Some(sample.battery_health);
        }
        proof {
            assert(events@ =~= change_events(m, *sample));
        }
        match sample.power_source {
            PowerSource::Battery => {
                let started_at = match self.on_battery_since {
                    Some(t) => t,
                    None => {
                        events.push(MonitorEvent::OnBatteryStarted);
                        self.on_battery_since = Some(now);
                        now
                    },
                };
                if self.shutdown_requested {
                    return MonitorDecision { events, shutdown: None };
                }
                if config.trigger.checks_capacity() {
                    match sample.battery_charge_percent {
                        Some(percent) => {
                            if percent <= config.low_battery_percent {
                                self.shutdown_requested = true;
                                return MonitorDecision {
                                    events,
                                    shutdown: Some(
                                        ShutdownRequest {
                                            reason: ShutdownReason::LowBattery {
                                                percent,
                                                threshold: config.low_battery_percent,
                                            },
                                        },
                                    ),
                                };
                            }
                        },
                        None => {},
                    }
                    match sample.battery_health {
                        BatteryHealth::Low | BatteryHealth::Depleted => {
                            self.shutdown_requested = true;
                            return MonitorDecision {
                                events,
                                shutdown: Some(
                                    ShutdownRequest {
                                        reason: ShutdownReason::UpsReportedLowBattery {
                                            health: sample.battery_health,
                                        },
                                    },
                                ),
                            };
                        },
                        _ => {},
                    }
                }
                if config.trigger.checks_duration() {
                    let elapsed = now.saturating_sub(started_at);
                    if elapsed.at_least(&config.max_on_battery) {
                        self.shutdown_requested = true;
                        return MonitorDecision {
                            events,
                            shutdown: Some(
                                ShutdownRequest {
                                    reason: ShutdownReason::OnBatteryTooLong {
                                        elapsed,
                                        limit: config.max_on_battery,
                                    },
                                },
                            ),
                        };
                    }
                }
            },
            PowerSource::Line => {
                if self.on_battery_since.is_some() {
                    events.push(MonitorEvent::OnBatteryCanceled);
                }
                self.on_battery_since = None;
                self.shutdown_requested = false;
            },
            PowerSource::Unknown => {},
        }
        MonitorDecision { events, shutdown: None }
    }
}

impl Default for MonitorState {
    fn default() -> (r: MonitorState)
        ensures
            r@ == initial_view(),
    {
        MonitorState::new()
    }
}

/// The name of a battery health, as `Debug` prints it.
pub open spec fn health_name(h: BatteryHealth) -> Seq<char> {
    match h {
        BatteryHealth::Normal => "Normal"@,
        BatteryHealth::Low => "Low"@,
        BatteryHealth::Depleted => "Depleted"@,
        BatteryHealth::Unknown => "Unknown"@,
    }
}

/// The sentence that explains a shutdown.
pub open spec fn message_text(r: ShutdownReason) -> Seq<char> {
    match r {
        ShutdownReason::LowBattery { percent, threshold } => "battery charge "@ + decimal(
            percent as nat,
        ) + "% <= configured threshold "@ + decimal(threshold as nat) + "%"@,
        ShutdownReason::UpsReportedLowBattery { health } => "UPS reported battery health "@
            + health_name(health),
        ShutdownReason::OnBatteryTooLong { elapsed, limit } => "on battery for "@ + decimal(
            elapsed@ / 1_000_000_000,
        ) + "s >= configured limit "@ + decimal(limit@ / 1_000_000_000) + "s"@,
    }
}

fn health_name_str(h: BatteryHealth) -> (r: &'static str)
    ensures
        r@ == health_name(h),
{
    match h {
        BatteryHealth::Normal => "Normal",
        BatteryHealth::Low => "Low",
        BatteryHealth::Depleted => "Depleted",
        BatteryHealth::Unknown => "Unknown",
    }
}

impl ShutdownReason {
    /// The sentence that explains the shutdown.
    pub fn message(&self) -> (r: String)
        ensures
            r@ == message_text(*self),
    {
        match self {
            ShutdownReason::LowBattery { percent, threshold } => {
                let mut s = String::from_str("battery charge ");
                push_decimal(&mut s, *percent as u64);
                s.append("% <= configured threshold ");
                push_decimal(&mut s, *threshold as u64);
                s.append("%");
                s
            },
            ShutdownReason::UpsReportedLowBattery { health } => {
                let mut s = String::from_str("UPS reported battery health ");
                s.append(health_name_str(*health));
                s
            },
            ShutdownReason::OnBatteryTooLong { elapsed, limit } => {
                let mut s = String::from_str("on battery for ");
                push_decimal(&mut s, elapsed.as_secs());
                s.append("s >= configured limit ");
                push_decimal(&mut s, limit.as_secs());
                s.append("s");
                s
            },
        }
    }
}

/// What the polling loop does next.
#[derive(Debug)]
pub enum LoopStep {
    /// Stop, with this outcome.
    Finish(Result<(), MonitorError>),
    /// Report the failure, wait a poll interval, and poll again.
    Retry(MonitorError),
    /// Wait a poll interval and poll again.
    Wait,
}

/// After a sample could not be read: a single poll fails with the error;
/// a continuing loop reports it and polls again.
pub fn after_read_failure(once: bool, error: UpsError) -> (r: LoopStep)
    ensures
        once ==> r == LoopStep::Finish(Err(MonitorError::Ups(error))),
        !once ==> r == LoopStep::Retry(MonitorError::Ups(error)),
{
    if once {
        LoopStep::Finish(Err(MonitorError::Ups(error)))
    } else {
        LoopStep::Retry(MonitorError::Ups(error))
    }
}

/// After a sample was handled, with the outcome of the shutdown if one was
/// made: a failed shutdown stops the loop with its error; otherwise a
/// single poll ends, and a continuing loop waits and polls again.
pub fn after_cycle(once: bool, shutdown: Option<Result<(), ShutdownError>>) -> (r: LoopStep)
    ensures
        shutdown matches Some(Err(e)) ==> r == LoopStep::Finish(Err(MonitorError::Shutdown(e))),
        !(shutdown matches Some(Err(_))) && once ==> r matches LoopStep::Finish(Ok(())),
        !(shutdown matches Some(Err(_))) && !once ==> r is Wait,
{
    match shutdown {
        Some(Err(e)) => LoopStep::Finish(Err(MonitorError::Shutdown(e))),
        _ => if once {
            LoopStep::Finish(Ok(()))
        } else {
            LoopStep::Wait
        },
    }
}


/// The charge is at or below the threshold, or the UPS reports its battery
/// low or depleted.
pub open spec fn capacity_low(sample: UpsSample, c: MonitorConfig) -> bool {
    ||| (sample.battery_charge_percent matches Some(p) && p <= c.low_battery_percent)
    ||| sample.battery_health is Low
    ||| sample.battery_health is Depleted
}

/// When the stretch on battery that a sample continues began.
pub open spec fn stretch_start(m: MonitorView, now: Duration) -> Duration {
    match m.on_battery_since {
        Some(t) => t,
        None => now,
    }
}

/// Only a sample taken on battery can request a shutdown: on line power or
/// an unknown source, none is requested, whatever the charge and health.
pub proof fn lemma_only_battery_requests_shutdown(
    m: MonitorView,
    sample: UpsSample,
    now: Duration,
    c: MonitorConfig,
)
    requires
        !(sample.power_source is Battery),
    ensures
        step(m, sample, now, c).2 is None,
{
}

/// Line power ends the stretch on battery: the countdown is dropped, a
/// cancellation is reported if one was running, and a later stretch may
/// request a shutdown again.
pub proof fn lemma_line_power_resets(m: MonitorView, sample: UpsSample, now: Duration, c: MonitorConfig)
    requires
        sample.power_source is Line,
    ensures
        step(m, sample, now, c).0.on_battery_since is None,
        !step(m, sample, now, c).0.shutdown_requested,
        step(m, sample, now, c).1.contains(MonitorEvent::OnBatteryCanceled) <==> m.on_battery_since
            is Some,
{
    let events = step(m, sample, now, c).1;
    let changes = change_events(m, sample);
    assert forall|i: int| 0 <= i < changes.len() implies changes[i] != MonitorEvent::OnBatteryCanceled by {
    }
    if m.on_battery_since is Some {
        assert(events[events.len() - 1] == MonitorEvent::OnBatteryCanceled);
    } else {
        assert(events == changes);
    }
}

/// A shutdown is requested at most once per stretch on battery: once one
/// was, no later sample requests another until line power returns, and
/// the request stays on record.
pub proof fn lemma_at_most_one_request_per_stretch(
    m: MonitorView,
    sample: UpsSample,
    now: Duration,
    c: MonitorConfig,
)
    requires
        m.shutdown_requested,
        !(sample.power_source is Line),
    ensures
        step(m, sample, now, c).2 is None,
        step(m, sample, now, c).0.shutdown_requested,
{
}

/// A requested shutdown is remembered.
pub proof fn lemma_request_is_recorded(m: MonitorView, sample: UpsSample, now: Duration, c: MonitorConfig)
    requires
        step(m, sample, now, c).2 is Some,
    ensures
        step(m, sample, now, c).0.shutdown_requested,
        sample.power_source is Battery,
        !m.shutdown_requested,
{
}

/// The countdown runs from the first sample of a stretch on battery: that
/// sample starts it and reports so; later samples of the stretch keep it.
pub proof fn lemma_countdown_starts_once(m: MonitorView, sample: UpsSample, now: Duration, c: MonitorConfig)
    requires
        sample.power_source is Battery,
    ensures
        step(m, sample, now, c).0.on_battery_since == Some(stretch_start(m, now)),
        step(m, sample, now, c).1.contains(MonitorEvent::OnBatteryStarted) <==> m.on_battery_since
            is None,
{
    let events = step(m, sample, now, c).1;
    let changes = change_events(m, sample);
    assert forall|i: int| 0 <= i < changes.len() implies changes[i] != MonitorEvent::OnBatteryStarted by {
    }
    if m.on_battery_since is None {
        assert(events[events.len() - 1] == MonitorEvent::OnBatteryStarted);
    } else {
        assert(events == changes);
    }
}

/// On battery, before any request in the stretch, each trigger mode shuts
/// down exactly on its conditions: `battery_capacity` on a low battery,
/// `on_battery_duration` on a long enough stretch, and `either` on
/// whichever comes first.
pub proof fn lemma_trigger_conditions(m: MonitorView, sample: UpsSample, now: Duration, c: MonitorConfig)
    requires
        sample.power_source is Battery,
        !m.shutdown_requested,
    ensures
        step(m, sample, now, c).2 is Some <==> (c.trigger.checks_capacity_spec() && capacity_low(
            sample,
            c,
        )) || (c.trigger.checks_duration_spec() && elapsed_nanos(now, stretch_start(m, now))
            >= c.max_on_battery@),
        c.trigger is BatteryCapacity ==> !(step(m, sample, now, c).2 matches Some(
            ShutdownReason::OnBatteryTooLong { .. },
        )),
        c.trigger is OnBatteryDuration ==> (step(m, sample, now, c).2 is Some ==> step(
            m,
            sample,
            now,
            c,
        ).2 matches Some(ShutdownReason::OnBatteryTooLong { .. })),
{
}

/// A charge at or below the threshold is reported as such, with the
/// charge and the threshold, when capacity is checked.
pub proof fn lemma_low_charge_reason(m: MonitorView, sample: UpsSample, now: Duration, c: MonitorConfig)
    requires
        sample.power_source is Battery,
        !m.shutdown_requested,
        c.trigger.checks_capacity_spec(),
        sample.battery_charge_percent matches Some(p) && p <= c.low_battery_percent,
    ensures
        step(m, sample, now, c).2 == Some(
            ShutdownReason::LowBattery {
                percent: sample.battery_charge_percent->0,
                threshold: c.low_battery_percent,
            },
        ),
{
}

/// A stretch that has lasted too long is reported with its length and the
/// limit.
pub proof fn lemma_too_long_reason(m: MonitorView, sample: UpsSample, now: Duration, c: MonitorConfig)
    requires
        now@ <= MAX_NANOS,
        step(m, sample, now, c).2 matches Some(ShutdownReason::OnBatteryTooLong { .. }),
    ensures
        step(m, sample, now, c).2 matches Some(ShutdownReason::OnBatteryTooLong { elapsed, limit })
            && elapsed@ == elapsed_nanos(now, stretch_start(m, now)) && limit == c.max_on_battery
            && elapsed@ >= limit@,
{
    let started = stretch_start(m, now);
    if now@ >= started@ {
        Duration::lemma_of_nanos((now@ - started@) as nat);
    } else {
        Duration::lemma_of_nanos(0);
    }
}

/// Changes are reported once: the same sample again reports nothing.
pub proof fn lemma_repeated_sample_is_quiet(
    m: MonitorView,
    sample: UpsSample,
    first: Duration,
    second: Duration,
    c: MonitorConfig,
)
    ensures
        step(step(m, sample, first, c).0, sample, second, c).1.len() == 0,
{
}

/// A change is reported from what the previous sample showed: after one
/// sample, a next sample with another power source reports the change
/// from the first sample's source to its own, and likewise for the battery
/// health.
pub proof fn lemma_changes_report_previous_sample(
    m: MonitorView,
    first: UpsSample,
    second: UpsSample,
    t1: Duration,
    t2: Duration,
    c: MonitorConfig,
)
    ensures
        ({
            let events = step(step(m, first, t1, c).0, second, t2, c).1;
            &&& first.power_source != second.power_source ==> events.contains(
                MonitorEvent::PowerSourceChanged {
                    from: Some(first.power_source),
                    to: second.power_source,
                },
            )
            &&& first.battery_health != second.battery_health ==> events.contains(
                MonitorEvent::BatteryHealthChanged {
                    from: Some(first.battery_health),
                    to: second.battery_health,
                },
            )
            &&& forall|i: int|
                0 <= i < events.len() ==> (#[trigger] events[i] matches MonitorEvent::PowerSourceChanged {
                    from,
                    to,
                } ==> from == Some(first.power_source) && to == second.power_source)
            &&& forall|i: int|
                0 <= i < events.len() ==> (#[trigger] events[i] matches MonitorEvent::BatteryHealthChanged {
                    from,
                    to,
                } ==> from == Some(first.battery_health) && to == second.battery_health)
        }),
{
    let m1 = step(m, first, t1, c).0;
    let events = step(m1, second, t2, c).1;
    let changes = change_events(m1, second);
    assert(m1.last_power_source == Some(first.power_source));
    assert(m1.last_battery_health == Some(first.battery_health));
    assert(forall|i: int| 0 <= i < changes.len() ==> events[i] == changes[i]);
    if first.power_source != second.power_source {
        assert(events[0] == MonitorEvent::PowerSourceChanged {
            from: Some(first.power_source),
            to: second.power_source,
        });
    }
    if first.battery_health != second.battery_health {
        let k: int = if first.power_source != second.power_source { 1 } else { 0 };
        assert(events[k] == MonitorEvent::BatteryHealthChanged {
            from: Some(first.battery_health),
            to: second.battery_health,
        });
    }
}

/// Under `battery_capacity`, a battery that is neither at or below the
/// threshold nor reported low or depleted never causes a shutdown, however
/// long the UPS has been on battery; under `on_battery_duration`, only the
/// time on battery counts: a stretch shorter than the limit never causes
/// one, whatever the charge and health.
pub proof fn lemma_modes_ignore_the_other_condition(
    m: MonitorView,
    sample: UpsSample,
    now: Duration,
    c: MonitorConfig,
)
    ensures
        c.trigger is BatteryCapacity && !(sample.battery_charge_percent matches Some(p) && p
            <= c.low_battery_percent) && sample.battery_health != BatteryHealth::Low
            && sample.battery_health != BatteryHealth::Depleted ==> step(m, sample, now, c).2 is None,
        c.trigger is OnBatteryDuration && elapsed_nanos(now, stretch_start(m, now))
            < c.max_on_battery@ ==> step(m, sample, now, c).2 is None,
{
}

} // verus!
