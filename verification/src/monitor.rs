//! The watchlist monitor: event kinds and their names, argument checks of the
//! `monitor` commands, the configuration changes, the systemd service steps
//! and the labels of monitor notifications.
use vstd::prelude::*;
use crate::commands::monitor::{MonitorConfigCommands, MonitorServiceCommands};
use crate::error::QuantixError;
use crate::text::{ascii_lower_text, dec_text, push_u64, str_eq, to_ascii_lower, trim_str, trim_text};

verus! {

/// Whether a price alert fires above or below its target.
#[derive(Clone, Copy, Debug, PartialEq, Eq)]
pub enum PriceAlertKind {
    Above,
    Below,
}

/// The kinds of monitor events.
#[derive(Clone, Copy, Debug, PartialEq, Eq)]
pub enum MonitorEventType {
    PriceAlert,
    StopLoss,
    StopProfit,
    TrailingStop,
}

/// Whether the monitor runs in the foreground or as a daemon.
#[derive(Clone, Copy, Debug, PartialEq, Eq)]
pub enum MonitorRunMode {
    Foreground,
    Daemon,
}

/// Severity of a notification.
#[derive(Clone, Copy, Debug, PartialEq, Eq)]
pub enum AlertLevel {
    Info,
    Warning,
    Error,
    Critical,
}

/// The monitor configuration.
#[derive(Clone, Debug, PartialEq, Eq)]
pub struct MonitorConfig {
    pub interval_seconds: u64,
    pub watchlist_group: Option<String>,
    pub persist_events: bool,
    pub max_event_history: usize,
    pub notify_enabled: bool,
}

impl MonitorConfig {
    /// The configuration a new store starts with: every 30 seconds, the whole
    /// watchlist, events kept (at most 1000), notifications off.
    pub fn default_config() -> (r: MonitorConfig)
        ensures
            r.interval_seconds == 30,
            r.watchlist_group is None,
            r.persist_events,
            r.max_event_history == 1000,
            !r.notify_enabled,
    {
        MonitorConfig {
            interval_seconds: 30,
            watchlist_group: None,
            persist_events: true,
            max_event_history: 1000,
            notify_enabled: false,
        }
    }
}

/// The name of an alert kind.
pub open spec fn alert_kind_text(kind: PriceAlertKind) -> Seq<char> {
    match kind {
        PriceAlertKind::Above => "above"@,
        PriceAlertKind::Below => "below"@,
    }
}

/// The name of an alert kind: `above` or `below`.
pub fn format_monitor_alert_kind(kind: PriceAlertKind) -> (r: &'static str)
    ensures
        r@ == alert_kind_text(kind),
{
    match kind {
        PriceAlertKind::Above => "above",
        PriceAlertKind::Below => "below",
    }
}

/// The name of an event kind, as typed on the command line.
pub open spec fn event_type_text(event_type: MonitorEventType) -> Seq<char> {
    match event_type {
        MonitorEventType::PriceAlert => "price-alert"@,
        MonitorEventType::StopLoss => "stop-loss"@,
        MonitorEventType::StopProfit => "stop-profit"@,
        MonitorEventType::TrailingStop => "trailing-stop"@,
    }
}

/// The name of an event kind.
pub fn format_monitor_event_type(event_type: MonitorEventType) -> (r: &'static str)
    ensures
        r@ == event_type_text(event_type),
{
    match event_type {
        MonitorEventType::PriceAlert => "price-alert",
        MonitorEventType::StopLoss => "stop-loss",
        MonitorEventType::StopProfit => "stop-profit",
        MonitorEventType::TrailingStop => "trailing-stop",
    }
}

/// The name of a run mode.
pub open spec fn run_mode_text(run_mode: MonitorRunMode) -> Seq<char> {
    match run_mode {
        MonitorRunMode::Foreground => "foreground"@,
        MonitorRunMode::Daemon => "daemon"@,
    }
}

/// The name of a run mode: `foreground` or `daemon`.
pub fn format_monitor_run_mode(run_mode: MonitorRunMode) -> (r: &'static str)
    ensures
        r@ == run_mode_text(run_mode),
{
    match run_mode {
        MonitorRunMode::Foreground => "foreground",
        MonitorRunMode::Daemon => "daemon",
    }
}

/// The message refusing an event kind name.
pub open spec fn event_type_message(other: Seq<char>) -> Seq<char> {
    "monitor event list 不支持的事件类型: "@ + other
}

/// The event kind a command line name denotes, if any.
pub open spec fn event_type_named(value: Seq<char>) -> Option<MonitorEventType> {
    if value == "price-alert"@ {
        Some(MonitorEventType::PriceAlert)
    } else if value == "stop-loss"@ {
        Some(MonitorEventType::StopLoss)
    } else if value == "stop-profit"@ {
        Some(MonitorEventType::StopProfit)
    } else if value == "trailing-stop"@ {
        Some(MonitorEventType::TrailingStop)
    } else {
        None
    }
}

/// The event kind named on the command line: `price-alert`, `stop-loss`,
/// `stop-profit` or `trailing-stop`.
pub fn parse_monitor_event_type(value: &str) -> (r: Result<MonitorEventType, QuantixError>)
    ensures
        match event_type_named(value@) {
            Some(t) => r == Ok::<MonitorEventType, QuantixError>(t),
            None => r matches Err(QuantixError::Unsupported(m)) && m@ == event_type_message(value@),
        },
{
    if str_eq(value, "price-alert") {
        Ok(MonitorEventType::PriceAlert)
    } else if str_eq(value, "stop-loss") {
        Ok(MonitorEventType::StopLoss)
    } else if str_eq(value, "stop-profit") {
        Ok(MonitorEventType::StopProfit)
    } else if str_eq(value, "trailing-stop") {
        Ok(MonitorEventType::TrailingStop)
    } else {
        let mut m = "monitor event list 不支持的事件类型: ".to_string();
        m.append(value);
        Err(QuantixError::Unsupported(m))
    }
}

/// The name of every event kind denotes that kind again.
pub proof fn lemma_event_type_names_round_trip(t: MonitorEventType)
    ensures
        event_type_named(event_type_text(t)) == Some(t),
{
    reveal_strlit("price-alert");
    reveal_strlit("stop-loss");
    reveal_strlit("stop-profit");
    reveal_strlit("trailing-stop");
    assert("stop-loss"@ != "price-alert"@) by {
        assert("stop-loss"@.len() != "price-alert"@.len());
    }
    assert("stop-profit"@ != "price-alert"@) by {
        assert("stop-profit"@[0] != "price-alert"@[0]);
    }
    assert("stop-profit"@ != "stop-loss"@) by {
        assert("stop-profit"@.len() != "stop-loss"@.len());
    }
    assert("trailing-stop"@ != "price-alert"@) by {
        assert("trailing-stop"@.len() != "price-alert"@.len());
    }
    assert("trailing-stop"@ != "stop-loss"@) by {
        assert("trailing-stop"@.len() != "stop-loss"@.len());
    }
    assert("trailing-stop"@ != "stop-profit"@) by {
        assert("trailing-stop"@.len() != "stop-profit"@.len());
    }
}

/// The message when `monitor watchlist` gets neither or both modes.
pub open spec fn watchlist_mode_message() -> Seq<char> {
    "monitor watchlist 必须且只能指定 --once 或 --repeat 之一"@
}

/// `monitor watchlist` takes exactly one of `--once` and `--repeat`.
pub fn validate_monitor_watchlist_command(once: bool, repeat: bool) -> (r: Result<(), QuantixError>)
    ensures
        (once != repeat) ==> r is Ok,
        (once == repeat) ==> (r matches Err(QuantixError::Other(m)) && m@ == watchlist_mode_message()),
{
    if once ^ repeat {
        Ok(())
    } else {
        Err(QuantixError::Other("monitor watchlist 必须且只能指定 --once 或 --repeat 之一".to_string()))
    }
}

/// The message of an alert id beyond the stored range.
pub open spec fn alert_id_message(id: u64) -> Seq<char> {
    "告警 ID 超出支持范围: "@ + dec_text(id as nat)
}

/// The alert id as stored (a signed 64-bit integer).
pub fn monitor_alert_id_to_i64(id: u64) -> (r: Result<i64, QuantixError>)
    ensures
        id <= i64::MAX ==> r == Ok::<i64, QuantixError>(id as i64),
        id > i64::MAX ==> (r matches Err(QuantixError::Other(m)) && m@ == alert_id_message(id)),
{
    if id <= 9223372036854775807u64 {
        Ok(id as i64)
    } else {
        let mut m = "告警 ID 超出支持范围: ".to_string();
        push_u64(&mut m, id);
        Err(QuantixError::Other(m))
    }
}

/// A monitor configuration after a `monitor config` command, and whether it
/// is to be saved.
#[derive(Clone, Debug, PartialEq, Eq)]
pub struct MonitorConfigChange {
    pub config: MonitorConfig,
    pub save: bool,
}

/// What a `monitor config` command makes of the loaded configuration.
/// `Show` keeps it and saves nothing. `Change` sets each given value (the
/// interval at least one second) and saves. `ClearGroup` drops the group and
/// saves.
pub open spec fn config_after_command(cmd: MonitorConfigCommands, config: MonitorConfig) -> MonitorConfigChange {
    match cmd {
        MonitorConfigCommands::Show => MonitorConfigChange { config, save: false },
        MonitorConfigCommands::Change { interval_seconds, group, persist_events } => {
            MonitorConfigChange {
                config: MonitorConfig {
                    interval_seconds: match interval_seconds {
                        Some(v) => if v < 1 {
                            1
                        } else {
                            v
                        },
                        None => config.interval_seconds,
                    },
                    watchlist_group: match group {
                        Some(g) => Some(g),
                        None => config.watchlist_group,
                    },
                    persist_events: match persist_events {
                        Some(p) => p,
                        None => config.persist_events,
                    },
                    ..config
                },
                save: true,
            }
        },
        MonitorConfigCommands::ClearGroup => MonitorConfigChange {
            config: MonitorConfig { watchlist_group: None, ..config },
            save: true,
        },
    }
}

/// Applies a `monitor config` command to the loaded configuration.
pub fn execute_monitor_config_command(cmd: MonitorConfigCommands, config: MonitorConfig) -> (r:
    MonitorConfigChange)
    ensures
        r == config_after_command(cmd, config),
{
    let mut config = config;
    match cmd {
        MonitorConfigCommands::Show => MonitorConfigChange { config, save: false },
        MonitorConfigCommands::Change { interval_seconds, group, persist_events } => {
            match interval_seconds {
                Some(v) => {
                    config.interval_seconds = if v < 1 {
                        1
                    } else {
                        v
                    };
                },
                None => {},
            }
            match group {
                Some(g) => {
                    config.watchlist_group = Some(g);
                },
                None => {},
            }
            match persist_events {
                Some(p) => {
                    config.persist_events = p;
                },
                None => {},
            }
            MonitorConfigChange { config, save: true }
        },
        MonitorConfigCommands::ClearGroup => {
            config.watchlist_group = None;
            MonitorConfigChange { config, save: true }
        },
    }
}

/// What a `monitor service` command asks of the service installer.
#[derive(Clone, Copy, Debug, PartialEq, Eq)]
pub enum MonitorServiceAction {
    Install,
    Uninstall,
    Start,
    Stop,
    Enable,
    Disable,
    ReadStatus,
}

/// The installer step of a `monitor service` command, and the message shown
/// when it succeeds (none for the status, whose summary is shown instead).
#[derive(Clone, Debug, PartialEq, Eq)]
pub struct MonitorServicePlan {
    pub action: MonitorServiceAction,
    pub success_message: Option<String>,
}

/// The installer step of each `monitor service` command.
pub open spec fn service_action(cmd: MonitorServiceCommands) -> MonitorServiceAction {
    match cmd {
        MonitorServiceCommands::Install => MonitorServiceAction::Install,
        MonitorServiceCommands::Uninstall => MonitorServiceAction::Uninstall,
        MonitorServiceCommands::Start => MonitorServiceAction::Start,
        MonitorServiceCommands::Stop => MonitorServiceAction::Stop,
        MonitorServiceCommands::Status => MonitorServiceAction::ReadStatus,
        MonitorServiceCommands::Enable => MonitorServiceAction::Enable,
        MonitorServiceCommands::Disable => MonitorServiceAction::Disable,
    }
}

/// The message after a successful step.
pub open spec fn service_message(cmd: MonitorServiceCommands) -> Option<Seq<char>> {
    match cmd {
        MonitorServiceCommands::Install => Some("monitor service installed"@),
        MonitorServiceCommands::Uninstall => Some("monitor service uninstalled"@),
        MonitorServiceCommands::Start => Some("monitor service started"@),
        MonitorServiceCommands::Stop => Some("monitor service stopped"@),
        MonitorServiceCommands::Status => None,
        MonitorServiceCommands::Enable => Some("monitor service enabled"@),
        MonitorServiceCommands::Disable => Some("monitor service disabled"@),
    }
}

/// The installer step of a `monitor service` command and its success message.
pub fn execute_monitor_service_command_with_installer(cmd: MonitorServiceCommands) -> (r: MonitorServicePlan)
    ensures
        r.action == service_action(cmd),
        match service_message(cmd) {
            Some(m) => r.success_message matches Some(x) && x@ == m,
            None => r.success_message is None,
        },
{
    let (action, message) = match cmd {
        MonitorServiceCommands::Install => (MonitorServiceAction::Install, Some("monitor service installed")),
        MonitorServiceCommands::Uninstall => (MonitorServiceAction::Uninstall, Some("monitor service uninstalled")),
        MonitorServiceCommands::Start => (MonitorServiceAction::Start, Some("monitor service started")),
        MonitorServiceCommands::Stop => (MonitorServiceAction::Stop, Some("monitor service stopped")),
        MonitorServiceCommands::Status => (MonitorServiceAction::ReadStatus, None),
        MonitorServiceCommands::Enable => (MonitorServiceAction::Enable, Some("monitor service enabled")),
        MonitorServiceCommands::Disable => (MonitorServiceAction::Disable, Some("monitor service disabled")),
    };
    let success_message = match message {
        Some(m) => Some(m.to_string()),
        None => None,
    };
    MonitorServicePlan { action, success_message }
}

/// The state of the systemd user service.
#[derive(Clone, Debug, PartialEq, Eq)]
pub struct MonitorServiceStatusSummary {
    pub installed: bool,
    pub enabled: bool,
    pub active: String,
    pub unit_path: String,
    pub wrapper_path: String,
    pub quantix_bin_path: String,
    pub raw_status: Option<String>,
}

/// The status shown while no service configuration exists.
pub fn build_unconfigured_monitor_service_status_summary() -> (r: MonitorServiceStatusSummary)
    ensures
        is_unconfigured_summary(r),
{
    MonitorServiceStatusSummary {
        installed: false,
        enabled: false,
        active: "unconfigured".to_string(),
        unit_path: "~/.config/systemd/user/quantix-monitor.service".to_string(),
        wrapper_path: "~/.local/bin/quantix-monitor-run".to_string(),
        quantix_bin_path: "<unconfigured>".to_string(),
        raw_status: None,
    }
}

/// When no service configuration can be loaded, `monitor service status`
/// still answers, with the unconfigured status; every other service command
/// fails with the loading error.
pub fn execute_monitor_service_command(cmd: MonitorServiceCommands, config_error: QuantixError) -> (r: Result<
    MonitorServiceStatusSummary,
    QuantixError,
>)
    ensures
        (cmd == MonitorServiceCommands::Status && config_error is Config) ==> (r matches Ok(s)
            && is_unconfigured_summary(s)),
        !(cmd == MonitorServiceCommands::Status && config_error is Config) ==> r == Err::<
            MonitorServiceStatusSummary,
            QuantixError,
        >(config_error),
{
    let is_status = match cmd {
        MonitorServiceCommands::Status => true,
        _ => false,
    };
    let is_config = match &config_error {
        QuantixError::Config(_) => true,
        _ => false,
    };
    if is_status && is_config {
        Ok(build_unconfigured_monitor_service_status_summary())
    } else {
        Err(config_error)
    }
}

/// The status shown while no service configuration exists: not installed,
/// not enabled, `unconfigured`, with the default unit and wrapper paths.
pub open spec fn is_unconfigured_summary(s: MonitorServiceStatusSummary) -> bool {
    &&& !s.installed
    &&& !s.enabled
    &&& s.active@ == "unconfigured"@
    &&& s.unit_path@ == "~/.config/systemd/user/quantix-monitor.service"@
    &&& s.wrapper_path@ == "~/.local/bin/quantix-monitor-run"@
    &&& s.quantix_bin_path@ == "<unconfigured>"@
    &&& s.raw_status is None
}

/// The notification severity of an event kind.
pub open spec fn notification_level(event_type: MonitorEventType) -> AlertLevel {
    match event_type {
        MonitorEventType::PriceAlert => AlertLevel::Warning,
        MonitorEventType::StopLoss => AlertLevel::Critical,
        MonitorEventType::StopProfit => AlertLevel::Warning,
        MonitorEventType::TrailingStop => AlertLevel::Error,
    }
}

/// The notification severity of an event kind: stop losses are critical,
/// trailing stops errors, the others warnings.
pub fn monitor_notification_level(event_type: MonitorEventType) -> (r: AlertLevel)
    ensures
        r == notification_level(event_type),
{
    match event_type {
        MonitorEventType::PriceAlert => AlertLevel::Warning,
        MonitorEventType::StopLoss => AlertLevel::Critical,
        MonitorEventType::StopProfit => AlertLevel::Warning,
        MonitorEventType::TrailingStop => AlertLevel::Error,
    }
}

/// The words that name an event kind in notifications.
pub open spec fn event_label_text(event_type: MonitorEventType) -> Seq<char> {
    match event_type {
        MonitorEventType::PriceAlert => "price alert"@,
        MonitorEventType::StopLoss => "stop loss"@,
        MonitorEventType::StopProfit => "stop profit"@,
        MonitorEventType::TrailingStop => "trailing stop"@,
    }
}

/// The words that name an event kind in notifications.
pub fn monitor_notification_event_label(event_type: MonitorEventType) -> (r: &'static str)
    ensures
        r@ == event_label_text(event_type),
{
    match event_type {
        MonitorEventType::PriceAlert => "price alert",
        MonitorEventType::StopLoss => "stop loss",
        MonitorEventType::StopProfit => "stop profit",
        MonitorEventType::TrailingStop => "trailing stop",
    }
}

/// The key of an event kind in notifications.
pub fn monitor_notification_event_key(event_type: MonitorEventType) -> (r: &'static str)
    ensures
        r@ == event_type_text(event_type),
{
    match event_type {
        MonitorEventType::PriceAlert => "price-alert",
        MonitorEventType::StopLoss => "stop-loss",
        MonitorEventType::StopProfit => "stop-profit",
        MonitorEventType::TrailingStop => "trailing-stop",
    }
}

/// The name of a run mode in notifications.
pub fn monitor_notification_run_mode_label(run_mode: MonitorRunMode) -> (r: &'static str)
    ensures
        r@ == run_mode_text(run_mode),
{
    match run_mode {
        MonitorRunMode::Foreground => "foreground",
        MonitorRunMode::Daemon => "daemon",
    }
}

/// The message of a code outside the watchlist.
pub open spec fn not_in_watchlist_message(code: Seq<char>) -> Seq<char> {
    "股票不在自选池: "@ + code
}

/// The code is on the watchlist, whose codes are `watchlist_codes`.
pub fn ensure_watchlist_contains_code(watchlist_codes: &Vec<String>, code: &str) -> (r: Result<
    (),
    QuantixError,
>)
    ensures
        (exists|i: int| 0 <= i < watchlist_codes@.len() && (#[trigger] watchlist_codes@[i])@ == code@)
            ==> r is Ok,
        !(exists|i: int| 0 <= i < watchlist_codes@.len() && (#[trigger] watchlist_codes@[i])@ == code@)
            ==> (r matches Err(QuantixError::Other(m)) && m@ == not_in_watchlist_message(code@)),
{
    let mut i: usize = 0;
    while i < watchlist_codes.len()
        invariant
            i <= watchlist_codes@.len(),
            forall|k: int| 0 <= k < i ==> (#[trigger] watchlist_codes@[k])@ != code@,
        decreases watchlist_codes.len() - i,
    {
        if str_eq(watchlist_codes[i].as_str(), code) {
            return Ok(());
        }
        i = i + 1;
    }
    let mut m = "股票不在自选池: ".to_string();
    m.append(code);
    Err(QuantixError::Other(m))
}

/// The message when `monitor alert add` gets neither or both thresholds.
pub open spec fn alert_threshold_message() -> Seq<char> {
    "monitor alert add 必须且只能指定 --above 或 --below 之一"@
}

/// The kind of alert that `monitor alert add` asks for: `--above` alone
/// gives an alert above the target, `--below` alone one below it.
pub fn monitor_alert_kind_for(above_given: bool, below_given: bool) -> (r: Result<
    PriceAlertKind,
    QuantixError,
>)
    ensures
        above_given && !below_given ==> r == Ok::<PriceAlertKind, QuantixError>(
            PriceAlertKind::Above,
        ),
        !above_given && below_given ==> r == Ok::<PriceAlertKind, QuantixError>(
            PriceAlertKind::Below,
        ),
        above_given == below_given ==> (r matches Err(QuantixError::Other(m)) && m@
            == alert_threshold_message()),
{
    if above_given && !below_given {
        Ok(PriceAlertKind::Above)
    } else if !above_given && below_given {
        Ok(PriceAlertKind::Below)
    } else {
        Err(QuantixError::Other("monitor alert add 必须且只能指定 --above 或 --below 之一".to_string()))
    }
}

/// `QUANTIX_MONITOR_NOTIFY` switches notifications on: `1`, `true`, `yes`
/// or `on`, trimmed, in any ASCII letter case.
pub open spec fn notify_switch_on(raw: Option<Seq<char>>) -> bool {
    match raw {
        Some(v) => {
            let l = ascii_lower_text(trim_text(v));
            l == "1"@ || l == "true"@ || l == "yes"@ || l == "on"@
        },
        None => false,
    }
}

/// Notifications are on: by the configuration, or by the raw value of
/// `QUANTIX_MONITOR_NOTIFY`.
pub fn monitor_notifications_enabled(config: &MonitorConfig, notify_env: &Option<String>) -> (r:
    bool)
    ensures
        r == (config.notify_enabled || notify_switch_on(
            match notify_env {
                Some(v) => Some(v@),
                None => None,
            },
        )),
{
    if config.notify_enabled {
        return true;
    }
    match notify_env {
        Some(v) => {
            let l = to_ascii_lower(trim_str(v.as_str()));
            str_eq(l.as_str(), "1") || str_eq(l.as_str(), "true") || str_eq(l.as_str(), "yes")
                || str_eq(l.as_str(), "on")
        },
        None => false,
    }
}

/// Where the monitor service finds the quantix binary.
#[derive(Clone, Debug, PartialEq, Eq)]
pub struct MonitorServiceConfig {
    pub quantix_bin_path: String,
}

/// What `monitor service-config show` prints: the configuration, or a message.
#[derive(Clone, Debug, PartialEq, Eq)]
pub enum MonitorServiceConfigOutput {
    Config(MonitorServiceConfig),
    Message(String),
}

/// The message when the monitor service has no configuration yet.
pub open spec fn service_unconfigured_message() -> Seq<char> {
    "monitor service 未配置，请先运行 monitor service-config set --quantix-bin /abs/path/to/quantix"@
}

/// What `monitor service-config show` answers, given what loading the
/// configuration gave: the configuration; a hint to configure it when
/// loading failed for want of configuration; any other failure as it is.
pub fn monitor_service_config_show(loaded: Result<MonitorServiceConfig, QuantixError>) -> (r:
    Result<MonitorServiceConfigOutput, QuantixError>)
    ensures
        loaded matches Ok(c) ==> r == Ok::<MonitorServiceConfigOutput, QuantixError>(
            MonitorServiceConfigOutput::Config(c),
        ),
        loaded matches Err(QuantixError::Config(_)) ==> (r matches Ok(
            MonitorServiceConfigOutput::Message(m),
        ) && m@ == service_unconfigured_message()),
        loaded matches Err(e) ==> (!(e is Config) ==> r == Err::<
            MonitorServiceConfigOutput,
            QuantixError,
        >(e)),
{
    match loaded {
        Ok(c) => Ok(MonitorServiceConfigOutput::Config(c)),
        Err(QuantixError::Config(_)) => Ok(
            MonitorServiceConfigOutput::Message(
                "monitor service 未配置，请先运行 monitor service-config set --quantix-bin /abs/path/to/quantix".to_string(),
            ),
        ),
        Err(other) => Err(other),
    }
}

/// A polling interval set by `monitor config set` is at least one second,
/// and a change is always saved.
pub proof fn lemma_set_interval_at_least_one(cmd: MonitorConfigCommands, config: MonitorConfig)
    requires
        cmd matches MonitorConfigCommands::Change { interval_seconds, .. } && interval_seconds is Some,
    ensures
        config_after_command(cmd, config).config.interval_seconds >= 1,
        config_after_command(cmd, config).save,
{
}

/// `monitor config show` changes nothing and saves nothing.
pub proof fn lemma_show_keeps_config(config: MonitorConfig)
    ensures
        config_after_command(MonitorConfigCommands::Show, config) == (MonitorConfigChange {
            config,
            save: false,
        }),
{
}

/// The rank of a severity: info, warning, error, critical in rising order.
pub open spec fn alert_rank(level: AlertLevel) -> int {
    match level {
        AlertLevel::Info => 0,
        AlertLevel::Warning => 1,
        AlertLevel::Error => 2,
        AlertLevel::Critical => 3,
    }
}

/// Price alerts and stop profits are warnings of the same weight, a stop
/// loss is critical, and a trailing stop weighs more than a price alert and
/// less than a stop loss.
pub proof fn lemma_notification_severity_order()
    ensures
        notification_level(MonitorEventType::PriceAlert) == AlertLevel::Warning,
        notification_level(MonitorEventType::StopProfit) == notification_level(
            MonitorEventType::PriceAlert,
        ),
        notification_level(MonitorEventType::StopLoss) == AlertLevel::Critical,
        alert_rank(notification_level(MonitorEventType::PriceAlert)) < alert_rank(
            notification_level(MonitorEventType::TrailingStop),
        ),
        alert_rank(notification_level(MonitorEventType::TrailingStop)) < alert_rank(
            notification_level(MonitorEventType::StopLoss),
        ),
{
}

} // verus!
