//! QMT execution bridge: the promotion checklist, the live preflight decision
//! and its report, symbol normalisation, audit lookups, account label
//! redaction and the classification of cases that need an operator.
use vstd::prelude::*;
use crate::commands::trade::{
    ExecutionBridgeCommands, ExecutionCommands, ExecutionConfigCommands, ExecutionDaemonCommands,
    ExecutionQmtCommands,
};
use crate::error::QuantixError;
use crate::text::{
    ascii_lower_text, contains_text, int_text, is_white_space, join_text, line, lower_contains, occurs_at, opt_str_text,
    pad_right, push_char, push_i64, push_line, push_padded, push_repeat, repeat_text, str_contains, str_eq,
    str_starts_with, trim_end_text, trim_start_text, trim_str, trim_text,
};

verus! {

/// What the bridge reports of its QMT side.
#[derive(Clone, Debug, PartialEq, Eq)]
pub struct QmtBridgeCapability {
    pub enabled: bool,
    pub mode: String,
    pub supports: Vec<String>,
}

/// What the qmt_live execution adapter declares, each property by its
/// printed name. Live trading needs the `qmt_live` channel and the `broker`
/// as source of statuses, fills and cancels.
#[derive(Clone, Debug, PartialEq, Eq)]
pub struct ExecutionCapabilities {
    pub channel: String,
    pub status_source: String,
    pub fill_source: String,
    pub cancel_semantics: String,
}

impl ExecutionCapabilities {
    /// The channel is the QMT live channel.
    pub open spec fn channel_is_qmt_live(self) -> bool {
        self.channel@ == "qmt_live"@
    }

    /// Order statuses come from the broker.
    pub open spec fn status_source_is_broker(self) -> bool {
        self.status_source@ == "broker"@
    }

    /// Fills come from the broker.
    pub open spec fn fill_source_is_broker(self) -> bool {
        self.fill_source@ == "broker"@
    }

    /// Cancels are carried out by the broker.
    pub open spec fn cancel_semantics_is_broker(self) -> bool {
        self.cancel_semantics@ == "broker"@
    }

    /// Whether the channel is the QMT live channel.
    pub fn has_qmt_live_channel(&self) -> (r: bool)
        ensures
            r == self.channel_is_qmt_live(),
    {
        str_eq(self.channel.as_str(), "qmt_live")
    }

    /// Whether order statuses come from the broker.
    pub fn has_broker_status_source(&self) -> (r: bool)
        ensures
            r == self.status_source_is_broker(),
    {
        str_eq(self.status_source.as_str(), "broker")
    }

    /// Whether fills come from the broker.
    pub fn has_broker_fill_source(&self) -> (r: bool)
        ensures
            r == self.fill_source_is_broker(),
    {
        str_eq(self.fill_source.as_str(), "broker")
    }

    /// Whether cancels are carried out by the broker.
    pub fn has_broker_cancel_semantics(&self) -> (r: bool)
        ensures
            r == self.cancel_semantics_is_broker(),
    {
        str_eq(self.cancel_semantics.as_str(), "broker")
    }
}

/// The persisted kill switch.
#[derive(Clone, Debug, PartialEq, Eq)]
pub struct KillSwitchState {
    pub enabled: bool,
    pub reason: Option<String>,
}

/// Why a live preflight is not ready.
#[derive(Clone, Copy, Debug, PartialEq, Eq)]
pub enum QmtLivePreflightFailureCategory {
    BridgeUnreachable,
    QmtCapabilityMissing,
    QmtDisabled,
    QmtModeNotLive,
    QmtOrderSubmitMissing,
    QmtLiveCapabilityMismatch,
    KillSwitchEnabled,
}

impl QmtLivePreflightFailureCategory {
    /// The name of the category.
    pub open spec fn name_text(self) -> Seq<char> {
        match self {
            QmtLivePreflightFailureCategory::BridgeUnreachable => "bridge_unreachable"@,
            QmtLivePreflightFailureCategory::QmtCapabilityMissing => "qmt_capability_missing"@,
            QmtLivePreflightFailureCategory::QmtDisabled => "qmt_disabled"@,
            QmtLivePreflightFailureCategory::QmtModeNotLive => "qmt_mode_not_live"@,
            QmtLivePreflightFailureCategory::QmtOrderSubmitMissing => "qmt_order_submit_missing"@,
            QmtLivePreflightFailureCategory::QmtLiveCapabilityMismatch => "qmt_live_capability_mismatch"@,
            QmtLivePreflightFailureCategory::KillSwitchEnabled => "kill_switch_enabled"@,
        }
    }

    /// The name of the category, as reports print it.
    pub fn as_str(self) -> (r: &'static str)
        ensures
            r@ == self.name_text(),
    {
        match self {
            QmtLivePreflightFailureCategory::BridgeUnreachable => "bridge_unreachable",
            QmtLivePreflightFailureCategory::QmtCapabilityMissing => "qmt_capability_missing",
            QmtLivePreflightFailureCategory::QmtDisabled => "qmt_disabled",
            QmtLivePreflightFailureCategory::QmtModeNotLive => "qmt_mode_not_live",
            QmtLivePreflightFailureCategory::QmtOrderSubmitMissing => "qmt_order_submit_missing",
            QmtLivePreflightFailureCategory::QmtLiveCapabilityMismatch => "qmt_live_capability_mismatch",
            QmtLivePreflightFailureCategory::KillSwitchEnabled => "kill_switch_enabled",
        }
    }
}

/// The outcome of a live preflight.
#[derive(Clone, Debug, PartialEq, Eq)]
pub struct QmtLivePreflightReport {
    pub ready: bool,
    pub failure_category: Option<QmtLivePreflightFailureCategory>,
    pub bridge_reachable: bool,
    pub bridge_error: Option<String>,
    pub bridge_contract_version: String,
    pub capability_source: String,
    pub qmt_enabled: Option<bool>,
    pub qmt_mode: Option<String>,
    pub order_submit_supported: Option<bool>,
    pub qmt_live_channel: bool,
    pub broker_status_source: bool,
    pub broker_fill_source: bool,
    pub broker_cancel_semantics: bool,
    pub kill_switch_enabled: bool,
    pub kill_switch_reason: Option<String>,
}

/// The bridge lists `order_submit` among what QMT supports.
pub open spec fn supports_order_submit(cap: QmtBridgeCapability) -> bool {
    exists|i: int| 0 <= i < cap.supports@.len() && (#[trigger] cap.supports@[i])@ == "order_submit"@
}

/// Whether the bridge lists `order_submit` among what QMT supports.
pub fn order_submit_supported(cap: &QmtBridgeCapability) -> (r: bool)
    ensures
        r == supports_order_submit(*cap),
{
    let mut i: usize = 0;
    while i < cap.supports.len()
        invariant
            i <= cap.supports@.len(),
            forall|k: int| 0 <= k < i ==> (#[trigger] cap.supports@[k])@ != "order_submit"@,
        decreases cap.supports.len() - i,
    {
        if str_eq(cap.supports[i].as_str(), "order_submit") {
            return true;
        }
        i = i + 1;
    }
    false
}

/// All four adapter properties are those of live trading.
pub open spec fn live_capabilities_match(c: ExecutionCapabilities) -> bool {
    c.channel_is_qmt_live() && c.status_source_is_broker() && c.fill_source_is_broker()
        && c.cancel_semantics_is_broker()
}

/// The first reason, in this order, why a live submission would not be
/// ready: the bridge failed, it sent no capabilities, QMT is disabled, QMT is
/// not in live mode, order submission is missing, the adapter is not a live
/// broker adapter, the kill switch is on.
pub open spec fn preflight_failure(
    capabilities: Option<QmtBridgeCapability>,
    bridge_error_given: bool,
    live: ExecutionCapabilities,
    kill_switch_enabled: bool,
) -> Option<QmtLivePreflightFailureCategory> {
    if bridge_error_given {
        Some(QmtLivePreflightFailureCategory::BridgeUnreachable)
    } else {
        match capabilities {
            None => Some(QmtLivePreflightFailureCategory::QmtCapabilityMissing),
            Some(cap) => if !cap.enabled {
                Some(QmtLivePreflightFailureCategory::QmtDisabled)
            } else if cap.mode@ != "live"@ {
                Some(QmtLivePreflightFailureCategory::QmtModeNotLive)
            } else if !supports_order_submit(cap) {
                Some(QmtLivePreflightFailureCategory::QmtOrderSubmitMissing)
            } else if !live_capabilities_match(live) {
                Some(QmtLivePreflightFailureCategory::QmtLiveCapabilityMismatch)
            } else if kill_switch_enabled {
                Some(QmtLivePreflightFailureCategory::KillSwitchEnabled)
            } else {
                None
            },
        }
    }
}

/// The kill switch is known and on.
pub open spec fn kill_switch_on(state: Option<KillSwitchState>) -> bool {
    state matches Some(s) && s.enabled
}

/// Decides whether a live submission may go ahead and reports every input
/// that the decision read.
pub fn build_qmt_live_preflight_report(
    capabilities: Option<&QmtBridgeCapability>,
    bridge_error: Option<&str>,
    qmt_live_capabilities: &ExecutionCapabilities,
    kill_switch_state: Option<&KillSwitchState>,
) -> (r: QmtLivePreflightReport)
    ensures
        r.failure_category == preflight_failure(
            match capabilities {
                Some(c) => Some(*c),
                None => None,
            },
            bridge_error is Some,
            *qmt_live_capabilities,
            kill_switch_on(
                match kill_switch_state {
                    Some(k) => Some(*k),
                    None => None,
                },
            ),
        ),
        r.ready == (r.failure_category is None),
        r.bridge_reachable == (bridge_error is None && capabilities is Some),
        match bridge_error {
            Some(e) => r.bridge_error matches Some(x) && x@ == e@,
            None => r.bridge_error is None,
        },
        r.bridge_contract_version@ == "unknown"@,
        r.capability_source@ == "bridge:/api/v1/capabilities"@,
        match capabilities {
            Some(c) => {
                &&& r.qmt_enabled == Some(c.enabled)
                &&& r.qmt_mode matches Some(m) && m@ == c.mode@
                &&& r.order_submit_supported == Some(supports_order_submit(*c))
            },
            None => r.qmt_enabled is None && r.qmt_mode is None && r.order_submit_supported is None,
        },
        r.qmt_live_channel == qmt_live_capabilities.channel_is_qmt_live(),
        r.broker_status_source == qmt_live_capabilities.status_source_is_broker(),
        r.broker_fill_source == qmt_live_capabilities.fill_source_is_broker(),
        r.broker_cancel_semantics == qmt_live_capabilities.cancel_semantics_is_broker(),
        r.kill_switch_enabled == kill_switch_on(
            match kill_switch_state {
                Some(k) => Some(*k),
                None => None,
            },
        ),
        r.kill_switch_reason == match kill_switch_state {
            Some(k) => k.reason,
            None => None,
        },
{
    let qmt_live_channel = qmt_live_capabilities.has_qmt_live_channel();
    let broker_status_source = qmt_live_capabilities.has_broker_status_source();
    let broker_fill_source = qmt_live_capabilities.has_broker_fill_source();
    let broker_cancel_semantics = qmt_live_capabilities.has_broker_cancel_semantics();
    let kill_switch_enabled = match kill_switch_state {
        Some(state) => state.enabled,
        None => false,
    };
    let (qmt_enabled, qmt_mode, order_submit) = match capabilities {
        Some(c) => (Some(c.enabled), Some(c.mode.clone()), Some(order_submit_supported(c))),
        None => (None, None, None),
    };
    let failure_category = if bridge_error.is_some() {
        Some(QmtLivePreflightFailureCategory::BridgeUnreachable)
    } else {
        match capabilities {
            None => Some(QmtLivePreflightFailureCategory::QmtCapabilityMissing),
            Some(c) => {
                if !c.enabled {
                    Some(QmtLivePreflightFailureCategory::QmtDisabled)
                } else if !str_eq(c.mode.as_str(), "live") {
                    Some(QmtLivePreflightFailureCategory::QmtModeNotLive)
                } else if !order_submit_supported(c) {
                    Some(QmtLivePreflightFailureCategory::QmtOrderSubmitMissing)
                } else if !(qmt_live_channel && broker_status_source && broker_fill_source
                    && broker_cancel_semantics) {
                    Some(QmtLivePreflightFailureCategory::QmtLiveCapabilityMismatch)
                } else if kill_switch_enabled {
                    Some(QmtLivePreflightFailureCategory::KillSwitchEnabled)
                } else {
                    None
                }
            },
        }
    };
    let bridge_error_text = match bridge_error {
        Some(e) => Some(e.to_string()),
        None => None,
    };
    let kill_switch_reason = match kill_switch_state {
        Some(state) => state.reason.clone(),
        None => None,
    };
    QmtLivePreflightReport {
        ready: failure_category.is_none(),
        failure_category,
        bridge_reachable: bridge_error.is_none() && capabilities.is_some(),
        bridge_error: bridge_error_text,
        bridge_contract_version: "unknown".to_string(),
        capability_source: "bridge:/api/v1/capabilities".to_string(),
        qmt_enabled,
        qmt_mode,
        order_submit_supported: order_submit,
        qmt_live_channel,
        broker_status_source,
        broker_fill_source,
        broker_cancel_semantics,
        kill_switch_enabled,
        kill_switch_reason,
    }
}

/// `[ok]` for a satisfied check, `[x]` for a failed one.
pub open spec fn status_mark(ok: bool) -> Seq<char> {
    if ok {
        "[ok]"@
    } else {
        "[x]"@
    }
}

/// A registered name, or `unregistered`.
pub open spec fn registered_text(value: Option<Seq<char>>) -> Seq<char> {
    match value {
        Some(v) => v,
        None => "unregistered"@,
    }
}

/// The lines of the QMT promotion checklist: the bridge checks, the adapter
/// checks with the adapter's values, the risk notice and storage namespace of
/// the qmt_live channel, and the manual steps.
pub open spec fn promotion_checklist_lines(
    cap: QmtBridgeCapability,
    live: ExecutionCapabilities,
    risk_notice: Option<Seq<char>>,
    storage_namespace: Option<Seq<char>>,
) -> Seq<Seq<char>> {
    seq![
        "QMT promotion checklist"@,
        status_mark(cap.enabled) + " bridge qmt.enabled=true"@,
        status_mark(cap.mode@ == "live"@) + " bridge qmt.mode=live"@,
        status_mark(supports_order_submit(cap)) + " bridge qmt.supports 包含 order_submit"@,
        status_mark(live.channel_is_qmt_live()) + " qmt_live adapter channel="@ + live.channel@,
        status_mark(live.status_source_is_broker()) + " qmt_live status_source="@ + live.status_source@,
        status_mark(live.fill_source_is_broker()) + " qmt_live fill_source="@ + live.fill_source@,
        status_mark(live.cancel_semantics_is_broker()) + " qmt_live cancel_semantics="@
            + live.cancel_semantics@,
        status_mark(risk_notice is Some) + " qmt_live risk_notice="@ + registered_text(risk_notice),
        status_mark(storage_namespace is Some) + " qmt_live storage_namespace="@ + registered_text(
            storage_namespace,
        ),
        "[ ] request target_mode=qmt_live"@,
        "[ ] 先在 paper 路径验证策略与风控"@,
        "[ ] 再在 mock_live 路径验证非终态与收敛"@,
        "[ ] 预览提交 payload: quantix execution qmt preview --request-id <ID>"@,
        "[ ] 真实提交订单: quantix execution qmt live --request-id <ID> [--yes]"@,
        "[ ] 查看 request 与收敛状态: quantix strategy request show <ID> --verbose"@,
    ]
}

fn mark(ok: bool) -> (r: &'static str)
    ensures
        r@ == status_mark(ok),
{
    if ok {
        "[ok]"
    } else {
        "[x]"
    }
}

fn registered(value: Option<&str>) -> (r: &str)
    ensures
        r@ == registered_text(opt_str_text(value)),
{
    match value {
        Some(v) => v,
        None => "unregistered",
    }
}

fn mark_line(ok: bool, text: &str, value: &str) -> (r: String)
    ensures
        r@ == status_mark(ok) + text@ + value@,
{
    let mut line = mark(ok).to_string();
    line.append(text);
    line.append(value);
    line
}

/// The QMT promotion checklist, one check per line. `risk_notice` and
/// `storage_namespace` are those registered for the qmt_live channel.
pub fn format_qmt_promotion_checklist(
    capabilities: &QmtBridgeCapability,
    qmt_live_capabilities: &ExecutionCapabilities,
    risk_notice: Option<&str>,
    storage_namespace: Option<&str>,
) -> (r: String)
    ensures
        r@ == join_text(
            promotion_checklist_lines(
                *capabilities,
                *qmt_live_capabilities,
                opt_str_text(risk_notice),
                opt_str_text(storage_namespace),
            ),
            "\n"@,
        ),
{
    let live = qmt_live_capabilities;
    let mut lines: Vec<String> = Vec::new();
    lines.push("QMT promotion checklist".to_string());
    lines.push(mark_line(capabilities.enabled, " bridge qmt.enabled=true", ""));
    lines.push(mark_line(str_eq(capabilities.mode.as_str(), "live"), " bridge qmt.mode=live", ""));
    lines.push(
        mark_line(order_submit_supported(capabilities), " bridge qmt.supports 包含 order_submit", ""),
    );
    lines.push(mark_line(live.has_qmt_live_channel(), " qmt_live adapter channel=", live.channel.as_str()));
    lines.push(
        mark_line(live.has_broker_status_source(), " qmt_live status_source=", live.status_source.as_str()),
    );
    lines.push(mark_line(live.has_broker_fill_source(), " qmt_live fill_source=", live.fill_source.as_str()));
    lines.push(
        mark_line(
            live.has_broker_cancel_semantics(),
            " qmt_live cancel_semantics=",
            live.cancel_semantics.as_str(),
        ),
    );
    lines.push(mark_line(risk_notice.is_some(), " qmt_live risk_notice=", registered(risk_notice)));
    lines.push(
        mark_line(
            storage_namespace.is_some(),
            " qmt_live storage_namespace=",
            registered(storage_namespace),
        ),
    );
    lines.push("[ ] request target_mode=qmt_live".to_string());
    lines.push("[ ] 先在 paper 路径验证策略与风控".to_string());
    lines.push("[ ] 再在 mock_live 路径验证非终态与收敛".to_string());
    lines.push("[ ] 预览提交 payload: quantix execution qmt preview --request-id <ID>".to_string());
    lines.push("[ ] 真实提交订单: quantix execution qmt live --request-id <ID> [--yes]".to_string());
    lines.push("[ ] 查看 request 与收敛状态: quantix strategy request show <ID> --verbose".to_string());
    proof {
        reveal_strlit("");
        assert(""@ =~= Seq::<char>::empty());
        let expected = promotion_checklist_lines(
            *capabilities,
            *qmt_live_capabilities,
            opt_str_text(risk_notice),
            opt_str_text(storage_namespace),
        );
        assert(lines@.map_values(|v: String| v@) =~= expected);
    }
    join_strings_nl(&lines)
}

fn join_strings_nl(lines: &Vec<String>) -> (r: String)
    ensures
        r@ == join_text(lines@.map_values(|v: String| v@), "\n"@),
{
    crate::text::join_strings(lines, "\n")
}

/// The lines of the live preflight report.
pub open spec fn preflight_report_lines(
    report: QmtLivePreflightReport,
    risk_notice: Option<Seq<char>>,
    storage_namespace: Option<Seq<char>>,
) -> Seq<Seq<char>> {
    seq![
        "QMT live preflight"@,
        "readiness="@ + (if report.ready { "ready"@ } else { "not_ready"@ }),
        "failure_category="@ + match report.failure_category {
            Some(c) => c.name_text(),
            None => "none"@,
        },
        "bridge_reachable="@ + bool_text(report.bridge_reachable),
        "bridge_contract_version="@ + report.bridge_contract_version@,
        "capability_source="@ + report.capability_source@,
        "risk_notice="@ + registered_text(risk_notice),
        "storage_namespace="@ + registered_text(storage_namespace),
        "kill_switch="@ + (if report.kill_switch_enabled { "enabled"@ } else { "disabled"@ }),
    ]
}

/// `true` or `false`.
pub open spec fn bool_text(b: bool) -> Seq<char> {
    if b {
        "true"@
    } else {
        "false"@
    }
}

/// The live preflight report, one `key=value` per line. `risk_notice` and
/// `storage_namespace` are those registered for the qmt_live channel.
pub fn format_qmt_live_preflight_report(
    report: &QmtLivePreflightReport,
    risk_notice: Option<&str>,
    storage_namespace: Option<&str>,
) -> (r: String)
    ensures
        r@ == join_text(
            preflight_report_lines(*report, opt_str_text(risk_notice), opt_str_text(storage_namespace)),
            "\n"@,
        ),
{
    let readiness = if report.ready {
        "ready"
    } else {
        "not_ready"
    };
    let failure_category = match report.failure_category {
        Some(c) => c.as_str(),
        None => "none",
    };
    let kill_switch = if report.kill_switch_enabled {
        "enabled"
    } else {
        "disabled"
    };
    let reachable = if report.bridge_reachable {
        "true"
    } else {
        "false"
    };
    let mut lines: Vec<String> = Vec::new();
    lines.push("QMT live preflight".to_string());
    lines.push(concat2("readiness=", readiness));
    lines.push(concat2("failure_category=", failure_category));
    lines.push(concat2("bridge_reachable=", reachable));
    lines.push(concat2("bridge_contract_version=", report.bridge_contract_version.as_str()));
    lines.push(concat2("capability_source=", report.capability_source.as_str()));
    lines.push(concat2("risk_notice=", registered(risk_notice)));
    lines.push(concat2("storage_namespace=", registered(storage_namespace)));
    lines.push(concat2("kill_switch=", kill_switch));
    proof {
        let expected = preflight_report_lines(*report, opt_str_text(risk_notice), opt_str_text(storage_namespace));
        assert(lines@.map_values(|v: String| v@) =~= expected);
    }
    join_strings_nl(&lines)
}

/// `a` followed by `b`.
pub fn concat2(a: &str, b: &str) -> (r: String)
    ensures
        r@ == a@ + b@,
{
    let mut s = a.to_string();
    s.append(b);
    s
}

/// A symbol as the bridge expects it: unchanged when it already names its
/// exchange (holds a `.`), else with `.SH` for codes starting with 6 and
/// `.SZ` for the others.
pub open spec fn bridge_symbol(symbol: Seq<char>) -> Seq<char> {
    if contains_text(symbol, "."@) {
        symbol
    } else if symbol.len() > 0 && symbol[0] == '6' {
        symbol + ".SH"@
    } else {
        symbol + ".SZ"@
    }
}

/// The symbol with its exchange suffix (see `bridge_symbol`).
pub fn normalize_symbol_for_bridge(symbol: &str) -> (r: String)
    ensures
        r@ == bridge_symbol(symbol@),
{
    proof {
        reveal_strlit("6");
    }
    if str_contains(symbol, ".") {
        return symbol.to_string();
    }
    let six = str_starts_with(symbol, "6");
    proof {
        if symbol@.len() > 0 {
            assert(occurs_at(symbol@, "6"@, 0) == (symbol@[0] == '6')) by {
                if symbol@[0] == '6' {
                    assert(symbol@.subrange(0, 1) =~= "6"@);
                } else {
                    assert(symbol@.subrange(0, 1)[0] != "6"@[0]);
                }
            }
        }
    }
    let mut s = symbol.to_string();
    if six {
        s.append(".SH");
    } else {
        s.append(".SZ");
    }
    s
}

/// Errors of the bridge HTTP client.
#[derive(Clone, Debug, PartialEq, Eq)]
pub enum BridgeError {
    /// The HTTP exchange failed.
    Http(String),
    /// The bridge does not offer the method.
    UnsupportedMethod(String),
    /// Any other failure reported by the bridge.
    Other(String),
}

/// A task result lookup that failed on HTTP or on a missing method falls back
/// to the legacy order query.
pub fn should_fallback_from_task_result_lookup(error: &BridgeError) -> (r: bool)
    ensures
        r == (error is Http || error is UnsupportedMethod),
{
    match error {
        BridgeError::Http(_) => true,
        BridgeError::UnsupportedMethod(_) => true,
        BridgeError::Other(_) => false,
    }
}

/// How a QMT audit record is looked up, with the trimmed value.
#[derive(Clone, Debug, PartialEq, Eq)]
pub enum QmtAuditLookup {
    Request(String),
    Task(String),
    LocalSubmission(String),
}

/// An option value with white space trimmed; blank values count as absent.
pub open spec fn normalized_lookup_value(value: Option<String>) -> Option<Seq<char>> {
    match value {
        Some(v) => if trim_text(v@).len() == 0 {
            None
        } else {
            Some(trim_text(v@))
        },
        None => None,
    }
}

/// The trimmed value, or nothing when it is absent or blank.
pub fn normalize_qmt_audit_lookup_value(value: Option<String>) -> (r: Option<String>)
    ensures
        match normalized_lookup_value(value) {
            Some(v) => r matches Some(x) && x@ == v,
            None => r is None,
        },
{
    match value {
        Some(v) => {
            let trimmed = trim_str(v.as_str());
            if trimmed.is_empty() {
                None
            } else {
                Some(trimmed.to_string())
            }
        },
        None => None,
    }
}

/// The message when not exactly one lookup option is given.
pub open spec fn audit_lookup_message() -> Seq<char> {
    "execution qmt audit requires exactly one of --request-id, --task-id, or --local-submission-id"@
}

impl QmtAuditLookup {
    /// The kind of the lookup, as reports print it.
    pub open spec fn lookup_type_text(self) -> Seq<char> {
        match self {
            QmtAuditLookup::Request(_) => "request_id"@,
            QmtAuditLookup::Task(_) => "task_id"@,
            QmtAuditLookup::LocalSubmission(_) => "local_submission_id"@,
        }
    }

    /// The looked up value.
    pub open spec fn value_text(self) -> Seq<char> {
        match self {
            QmtAuditLookup::Request(v) => v@,
            QmtAuditLookup::Task(v) => v@,
            QmtAuditLookup::LocalSubmission(v) => v@,
        }
    }

    /// The lookup from the three command line options, each trimmed and
    /// blank ones dropped; exactly one must remain.
    pub fn from_cli(
        request_id: Option<String>,
        task_id: Option<String>,
        local_submission_id: Option<String>,
    ) -> (r: Result<QmtAuditLookup, QuantixError>)
        ensures
            match (
                normalized_lookup_value(request_id),
                normalized_lookup_value(task_id),
                normalized_lookup_value(local_submission_id),
            ) {
                (Some(v), None, None) => r matches Ok(QmtAuditLookup::Request(x)) && x@ == v,
                (None, Some(v), None) => r matches Ok(QmtAuditLookup::Task(x)) && x@ == v,
                (None, None, Some(v)) => r matches Ok(QmtAuditLookup::LocalSubmission(x)) && x@
                    == v,
                _ => r matches Err(QuantixError::Other(m)) && m@ == audit_lookup_message(),
            },
    {
        let request_id = normalize_qmt_audit_lookup_value(request_id);
        let task_id = normalize_qmt_audit_lookup_value(task_id);
        let local_submission_id = normalize_qmt_audit_lookup_value(local_submission_id);
        match (request_id, task_id, local_submission_id) {
            (Some(v), None, None) => Ok(QmtAuditLookup::Request(v)),
            (None, Some(v), None) => Ok(QmtAuditLookup::Task(v)),
            (None, None, Some(v)) => Ok(QmtAuditLookup::LocalSubmission(v)),
            _ => Err(
                QuantixError::Other(
                    "execution qmt audit requires exactly one of --request-id, --task-id, or --local-submission-id".to_string(),
                ),
            ),
        }
    }

    /// The kind of the lookup: `request_id`, `task_id` or `local_submission_id`.
    pub fn lookup_type(&self) -> (r: &'static str)
        ensures
            r@ == self.lookup_type_text(),
    {
        match self {
            QmtAuditLookup::Request(_) => "request_id",
            QmtAuditLookup::Task(_) => "task_id",
            QmtAuditLookup::LocalSubmission(_) => "local_submission_id",
        }
    }

    /// The looked up value.
    pub fn value(&self) -> (r: &str)
        ensures
            r@ == self.value_text(),
    {
        match self {
            QmtAuditLookup::Request(v) => v.as_str(),
            QmtAuditLookup::Task(v) => v.as_str(),
            QmtAuditLookup::LocalSubmission(v) => v.as_str(),
        }
    }
}

/// Every character is an ASCII digit.
pub open spec fn all_ascii_digits(s: Seq<char>) -> bool {
    forall|i: int| 0 <= i < s.len() ==> '0' <= #[trigger] s[i] && s[i] <= '9'
}

/// An account label for reports: trimmed; when it looks like a raw account
/// number (at least eight ASCII digits) all but the last four digits become
/// `*`, at most fourteen of them.
pub open spec fn redacted_account_label(value: Seq<char>) -> Seq<char> {
    let t = trim_text(value);
    if t.len() >= 8 && all_ascii_digits(t) {
        let start = t.len() - 4;
        repeat_text("*"@, if start < 14 { start as nat } else { 14 }) + t.subrange(start, t.len() as int)
    } else {
        t
    }
}

/// The account label with a raw account number masked (see `redacted_account_label`).
pub fn redact_account_label(value: &str) -> (r: String)
    ensures
        r@ == redacted_account_label(value@),
{
    let trimmed = trim_str(value);
    let chars = crate::text::chars_of(trimmed);
    let count = chars.len();
    let mut all_digits = true;
    let mut i: usize = 0;
    while i < count
        invariant
            i <= count,
            count == chars@.len(),
            all_digits == (forall|k: int| 0 <= k < i ==> '0' <= #[trigger] chars@[k] && chars@[k] <= '9'),
        decreases count - i,
    {
        if !('0' <= chars[i] && chars[i] <= '9') {
            all_digits = false;
        }
        i = i + 1;
    }
    if !(count >= 8 && all_digits) {
        return trimmed.to_string();
    }
    let tail_start = count - 4;
    let mask_len = if tail_start < 14 {
        tail_start
    } else {
        14
    };
    let mut out = String::new();
    crate::text::push_repeat(&mut out, "*", mask_len);
    let mut j: usize = tail_start;
    let ghost head = out@;
    while j < count
        invariant
            tail_start <= j <= count,
            count == chars@.len(),
            out@ == head + chars@.subrange(tail_start as int, j as int),
        decreases count - j,
    {
        push_char(&mut out, chars[j]);
        j = j + 1;
        assert(out@ =~= head + chars@.subrange(tail_start as int, j as int));
    }
    out
}

/// A sequence whose first and last characters are not white space trims to itself.
pub proof fn lemma_trim_fixed(s: Seq<char>)
    requires
        s.len() == 0 || (!is_white_space(s[0]) && !is_white_space(s.last())),
    ensures
        trim_text(s) == s,
{
    assert(trim_start_text(s) == s);
    assert(trim_end_text(s) == s);
}

proof fn lemma_trim_start_head(s: Seq<char>)
    ensures
        trim_start_text(s).len() > 0 ==> !is_white_space(trim_start_text(s)[0]),
    decreases s.len(),
{
    if s.len() > 0 && is_white_space(s[0]) {
        lemma_trim_start_head(s.drop_first());
    }
}

proof fn lemma_trim_end_shape(s: Seq<char>)
    ensures
        trim_end_text(s).len() <= s.len(),
        trim_end_text(s) == s.subrange(0, trim_end_text(s).len() as int),
        trim_end_text(s).len() > 0 ==> !is_white_space(trim_end_text(s).last()),
    decreases s.len(),
{
    if s.len() > 0 && is_white_space(s.last()) {
        lemma_trim_end_shape(s.drop_last());
        assert(s.drop_last().subrange(0, trim_end_text(s).len() as int) =~= s.subrange(
            0,
            trim_end_text(s).len() as int,
        ));
    } else {
        assert(s.subrange(0, s.len() as int) =~= s);
    }
}

/// Trimming twice is trimming once.
pub proof fn lemma_trim_idempotent(s: Seq<char>)
    ensures
        trim_text(trim_text(s)) == trim_text(s),
{
    let a = trim_start_text(s);
    let t = trim_end_text(a);
    lemma_trim_start_head(s);
    lemma_trim_end_shape(a);
    if t.len() > 0 {
        assert(t[0] == a[0]);
    }
    lemma_trim_fixed(t);
}

/// Redacting a label that was already redacted changes nothing.
pub proof fn lemma_redaction_idempotent(value: Seq<char>)
    ensures
        redacted_account_label(redacted_account_label(value)) == redacted_account_label(value),
{
    let t = trim_text(value);
    lemma_trim_idempotent(value);
    if t.len() >= 8 && all_ascii_digits(t) {
        let start = t.len() - 4;
        let n: nat = if start < 14 { start as nat } else { 14 };
        let r = repeat_text("*"@, n) + t.subrange(start, t.len() as int);
        lemma_repeat_star(n);
        assert(r[0] == '*');
        assert(r.last() == t.last());
        lemma_trim_fixed(r);
        assert(!all_ascii_digits(r));
    }
}

proof fn lemma_repeat_star(n: nat)
    ensures
        repeat_text("*"@, n).len() == n,
        forall|i: int| 0 <= i < n ==> #[trigger] repeat_text("*"@, n)[i] == '*',
    decreases n,
{
    reveal_strlit("*");
    if n > 0 {
        lemma_repeat_star((n - 1) as nat);
        assert forall|i: int| 0 <= i < n implies #[trigger] repeat_text("*"@, n)[i] == '*' by {
            if i < n - 1 {
                assert(repeat_text("*"@, n)[i] == repeat_text("*"@, (n - 1) as nat)[i]);
            }
        }
    }
}

/// An option text equals the literal.
pub open spec fn opt_is(value: Option<Seq<char>>, lit: Seq<char>) -> bool {
    value matches Some(v) && v == lit
}

/// Which operator case, if any, a qmt_live request is. Requests neither
/// targeting qmt_live nor with a qmt_live order are none. Then, in this
/// order: a broker unknown state; a bridge failure (also when the
/// reconciliation error mentions it, in any ASCII case); a reconciliation that
/// preserved the local state; a bridge task without an external order id when
/// manual intervention was asked for or the error mentions `external_order_id`;
/// an identity mismatch.
pub open spec fn manual_intervention_category(
    target_mode: Seq<char>,
    order_adapter: Option<Seq<char>>,
    failure_category: Option<Seq<char>>,
    reconciliation_action: Option<Seq<char>>,
    reconciliation_error: Option<Seq<char>>,
    task_id_known: bool,
    external_order_id_known: bool,
) -> Option<Seq<char>> {
    let err = ascii_lower_text(
        match reconciliation_error {
            Some(e) => e,
            None => Seq::empty(),
        },
    );
    if target_mode != "qmt_live"@ && !opt_is(order_adapter, "qmt_live"@) {
        None
    } else if opt_is(failure_category, "broker_unknown_state"@) {
        Some("broker_unknown_state"@)
    } else if opt_is(failure_category, "bridge_failure"@) || contains_text(err, "bridge failure"@) {
        Some("bridge_failure_requires_operator_review"@)
    } else if opt_is(reconciliation_action, "preserved_local_state"@) || contains_text(
        err,
        "preserved local"@,
    ) {
        Some("reconciliation_preserved_local_state"@)
    } else if task_id_known && !external_order_id_known && (opt_is(
        failure_category,
        "manual_intervention_required"@,
    ) || opt_is(reconciliation_action, "manual_intervention"@) || contains_text(
        err,
        "external_order_id"@,
    )) {
        Some("missing_external_order_id_after_bridge_task_completion"@)
    } else if opt_is(failure_category, "manual_intervention_required"@) && contains_text(
        err,
        "identity"@,
    ) {
        Some("identity_mismatch"@)
    } else {
        None
    }
}

fn opt_eq(value: Option<&str>, lit: &str) -> (r: bool)
    ensures
        r == opt_is(opt_str_text(value), lit@),
{
    match value {
        Some(v) => str_eq(v, lit),
        None => false,
    }
}

/// The operator case of a qmt_live request (see `manual_intervention_category`),
/// from the request's target mode, the adapter of its order when there is
/// one, its recorded failure category, the order's last reconciliation action
/// and error, and whether a task id and an external order id are known.
pub fn qmt_manual_intervention_category(
    target_mode: &str,
    order_adapter: Option<&str>,
    failure_category: Option<&str>,
    reconciliation_action: Option<&str>,
    reconciliation_error: Option<&str>,
    task_id_known: bool,
    external_order_id_known: bool,
) -> (r: Option<&'static str>)
    ensures
        match manual_intervention_category(
            target_mode@,
            opt_str_text(order_adapter),
            opt_str_text(failure_category),
            opt_str_text(reconciliation_action),
            opt_str_text(reconciliation_error),
            task_id_known,
            external_order_id_known,
        ) {
            Some(c) => r matches Some(x) && x@ == c,
            None => r is None,
        },
{
    proof {
        reveal_strlit("");
    }
    if !str_eq(target_mode, "qmt_live") && !opt_eq(order_adapter, "qmt_live") {
        return None;
    }
    let err: &str = match reconciliation_error {
        Some(e) => e,
        None => "",
    };
    assert(err@ == match opt_str_text(reconciliation_error) {
        Some(e) => e,
        None => Seq::<char>::empty(),
    });
    if opt_eq(failure_category, "broker_unknown_state") {
        return Some("broker_unknown_state");
    }
    if opt_eq(failure_category, "bridge_failure") || lower_contains(err, "bridge failure") {
        return Some("bridge_failure_requires_operator_review");
    }
    if opt_eq(reconciliation_action, "preserved_local_state") || lower_contains(err, "preserved local") {
        return Some("reconciliation_preserved_local_state");
    }
    if task_id_known && !external_order_id_known && (opt_eq(
        failure_category,
        "manual_intervention_required",
    ) || opt_eq(reconciliation_action, "manual_intervention") || lower_contains(
        err,
        "external_order_id",
    )) {
        return Some("missing_external_order_id_after_bridge_task_completion");
    }
    if opt_eq(failure_category, "manual_intervention_required") && lower_contains(err, "identity") {
        return Some("identity_mismatch");
    }
    None
}

/// Normalising a symbol for the bridge twice is normalising it once: a
/// normalised symbol already carries its exchange suffix.
pub proof fn lemma_bridge_symbol_idempotent(symbol: Seq<char>)
    ensures
        bridge_symbol(bridge_symbol(symbol)) == bridge_symbol(symbol),
{
    reveal_strlit(".");
    reveal_strlit(".SH");
    reveal_strlit(".SZ");
    if !contains_text(symbol, "."@) {
        let n = symbol.len() as int;
        let out = bridge_symbol(symbol);
        assert(out.subrange(n, n + 1) =~= "."@);
        assert(occurs_at(out, "."@, n));
        assert(contains_text(out, "."@));
    }
}

/// A live submission is ready exactly when the bridge answered with QMT
/// enabled, in live mode and offering order submission, the adapter is a
/// live broker adapter, and no kill switch is on; so a kill switch that is
/// on always blocks.
pub proof fn lemma_preflight_ready_iff_all_checks(
    capabilities: Option<QmtBridgeCapability>,
    bridge_error_given: bool,
    live: ExecutionCapabilities,
    kill_switch_enabled: bool,
)
    ensures
        (preflight_failure(capabilities, bridge_error_given, live, kill_switch_enabled) is None) == (
        !bridge_error_given && (capabilities matches Some(c) && c.enabled && c.mode@ == "live"@
            && supports_order_submit(c)) && live_capabilities_match(live) && !kill_switch_enabled),
        kill_switch_enabled ==> preflight_failure(
            capabilities,
            bridge_error_given,
            live,
            kill_switch_enabled,
        ) is Some,
{
}

/// A lookup value that survives normalisation is non-empty and already
/// trimmed.
pub proof fn lemma_lookup_value_trimmed(value: Option<String>)
    ensures
        normalized_lookup_value(value) matches Some(v) ==> v.len() > 0 && trim_text(v) == v,
{
    if let Some(v) = value {
        lemma_trim_idempotent(v@);
    }
}

/// What an `execution` command does, with the bridge and qmt spellings of
/// the same command brought together.
#[derive(Clone, Debug, PartialEq, Eq)]
pub enum ExecutionAction {
    ConfigInit,
    ConfigShow,
    DaemonRun { once: bool },
    BridgeStatus { checklist: bool },
    QmtPreview { request_id: String },
    QmtLive { request_id: String, yes: bool },
    QmtQuery { order_id: String },
    QmtAudit(QmtAuditLookup),
    /// The manual-intervention action and lookup options, read once the
    /// runtime store is open.
    QmtManualInterventions {
        action: String,
        request_id: Option<String>,
        task_id: Option<String>,
        local_submission_id: Option<String>,
    },
    QmtCancel { order_id: String },
    QmtAccount,
    QmtPositions,
    QmtAsset,
}

/// The outcome of an audit command: the one lookup its options give, or
/// the refusal of `from_cli`.
pub open spec fn audit_action_spec(
    request_id: Option<String>,
    task_id: Option<String>,
    local_submission_id: Option<String>,
    r: Result<ExecutionAction, QuantixError>,
) -> bool {
    match (
        normalized_lookup_value(request_id),
        normalized_lookup_value(task_id),
        normalized_lookup_value(local_submission_id),
    ) {
        (Some(v), None, None) => r matches Ok(ExecutionAction::QmtAudit(QmtAuditLookup::Request(x)))
            && x@ == v,
        (None, Some(v), None) => r matches Ok(ExecutionAction::QmtAudit(QmtAuditLookup::Task(x)))
            && x@ == v,
        (None, None, Some(v)) => r matches Ok(
            ExecutionAction::QmtAudit(QmtAuditLookup::LocalSubmission(x)),
        ) && x@ == v,
        _ => r matches Err(QuantixError::Other(m)) && m@ == audit_lookup_message(),
    }
}

/// The action of an `execution bridge` command.
pub open spec fn bridge_action_spec(cmd: ExecutionBridgeCommands, r: Result<ExecutionAction, QuantixError>) -> bool {
    match cmd {
        ExecutionBridgeCommands::Status { checklist } => r == Ok::<ExecutionAction, QuantixError>(
            ExecutionAction::BridgeStatus { checklist },
        ),
        ExecutionBridgeCommands::QmtPreview { request_id } => r == Ok::<ExecutionAction, QuantixError>(
            ExecutionAction::QmtPreview { request_id },
        ),
        ExecutionBridgeCommands::QmtLive { request_id, yes } => r == Ok::<ExecutionAction, QuantixError>(
            ExecutionAction::QmtLive { request_id, yes },
        ),
        ExecutionBridgeCommands::QmtQuery { order_id } => r == Ok::<ExecutionAction, QuantixError>(
            ExecutionAction::QmtQuery { order_id },
        ),
        ExecutionBridgeCommands::QmtAudit { request_id, task_id, local_submission_id } => audit_action_spec(
            request_id,
            task_id,
            local_submission_id,
            r,
        ),
        ExecutionBridgeCommands::QmtCancel { order_id } => r == Ok::<ExecutionAction, QuantixError>(
            ExecutionAction::QmtCancel { order_id },
        ),
        ExecutionBridgeCommands::QmtAccount => r == Ok::<ExecutionAction, QuantixError>(ExecutionAction::QmtAccount),
        ExecutionBridgeCommands::QmtPositions => r == Ok::<ExecutionAction, QuantixError>(
            ExecutionAction::QmtPositions,
        ),
        ExecutionBridgeCommands::QmtAsset => r == Ok::<ExecutionAction, QuantixError>(ExecutionAction::QmtAsset),
    }
}

/// The action of an `execution qmt` command: that of the bridge command of
/// the same name, and the manual-intervention command, which has no bridge
/// spelling.
pub open spec fn qmt_action_spec(cmd: ExecutionQmtCommands, r: Result<ExecutionAction, QuantixError>) -> bool {
    match cmd {
        ExecutionQmtCommands::Status { checklist } => bridge_action_spec(
            ExecutionBridgeCommands::Status { checklist },
            r,
        ),
        ExecutionQmtCommands::Preview { request_id } => bridge_action_spec(
            ExecutionBridgeCommands::QmtPreview { request_id },
            r,
        ),
        ExecutionQmtCommands::Live { request_id, yes } => bridge_action_spec(
            ExecutionBridgeCommands::QmtLive { request_id, yes },
            r,
        ),
        ExecutionQmtCommands::Query { order_id } => bridge_action_spec(
            ExecutionBridgeCommands::QmtQuery { order_id },
            r,
        ),
        ExecutionQmtCommands::Audit { request_id, task_id, local_submission_id } => bridge_action_spec(
            ExecutionBridgeCommands::QmtAudit { request_id, task_id, local_submission_id },
            r,
        ),
        ExecutionQmtCommands::ManualInterventions { action, request_id, task_id, local_submission_id } => r
            == Ok::<ExecutionAction, QuantixError>(
            ExecutionAction::QmtManualInterventions { action, request_id, task_id, local_submission_id },
        ),
        ExecutionQmtCommands::Cancel { order_id } => bridge_action_spec(
            ExecutionBridgeCommands::QmtCancel { order_id },
            r,
        ),
        ExecutionQmtCommands::Account => bridge_action_spec(ExecutionBridgeCommands::QmtAccount, r),
        ExecutionQmtCommands::Positions => bridge_action_spec(ExecutionBridgeCommands::QmtPositions, r),
        ExecutionQmtCommands::Asset => bridge_action_spec(ExecutionBridgeCommands::QmtAsset, r),
    }
}

/// The action of an `execution` command.
pub open spec fn execution_action_spec(cmd: ExecutionCommands, r: Result<ExecutionAction, QuantixError>) -> bool {
    match cmd {
        ExecutionCommands::Config(ExecutionConfigCommands::Init) => r == Ok::<ExecutionAction, QuantixError>(
            ExecutionAction::ConfigInit,
        ),
        ExecutionCommands::Config(ExecutionConfigCommands::Show) => r == Ok::<ExecutionAction, QuantixError>(
            ExecutionAction::ConfigShow,
        ),
        ExecutionCommands::Daemon(ExecutionDaemonCommands::Run { once }) => r == Ok::<
            ExecutionAction,
            QuantixError,
        >(ExecutionAction::DaemonRun { once }),
        ExecutionCommands::Bridge(b) => bridge_action_spec(b, r),
        ExecutionCommands::Qmt(q) => qmt_action_spec(q, r),
    }
}

fn audit_action(
    request_id: Option<String>,
    task_id: Option<String>,
    local_submission_id: Option<String>,
) -> (r: Result<ExecutionAction, QuantixError>)
    ensures
        audit_action_spec(request_id, task_id, local_submission_id, r),
{
    match QmtAuditLookup::from_cli(request_id, task_id, local_submission_id) {
        Ok(lookup) => Ok(ExecutionAction::QmtAudit(lookup)),
        Err(e) => Err(e),
    }
}

/// What an `execution` command does; the audit commands read their lookup
/// here, before anything is opened.
pub fn execution_action(cmd: ExecutionCommands) -> (r: Result<ExecutionAction, QuantixError>)
    ensures
        execution_action_spec(cmd, r),
{
    match cmd {
        ExecutionCommands::Config(ExecutionConfigCommands::Init) => Ok(ExecutionAction::ConfigInit),
        ExecutionCommands::Config(ExecutionConfigCommands::Show) => Ok(ExecutionAction::ConfigShow),
        ExecutionCommands::Daemon(ExecutionDaemonCommands::Run { once }) => Ok(ExecutionAction::DaemonRun { once }),
        ExecutionCommands::Bridge(b) => match b {
            ExecutionBridgeCommands::Status { checklist } => Ok(ExecutionAction::BridgeStatus { checklist }),
            ExecutionBridgeCommands::QmtPreview { request_id } => Ok(ExecutionAction::QmtPreview { request_id }),
            ExecutionBridgeCommands::QmtLive { request_id, yes } => Ok(ExecutionAction::QmtLive { request_id, yes }),
            ExecutionBridgeCommands::QmtQuery { order_id } => Ok(ExecutionAction::QmtQuery { order_id }),
            ExecutionBridgeCommands::QmtAudit { request_id, task_id, local_submission_id } => audit_action(
                request_id,
                task_id,
                local_submission_id,
            ),
            ExecutionBridgeCommands::QmtCancel { order_id } => Ok(ExecutionAction::QmtCancel { order_id }),
            ExecutionBridgeCommands::QmtAccount => Ok(ExecutionAction::QmtAccount),
            ExecutionBridgeCommands::QmtPositions => Ok(ExecutionAction::QmtPositions),
            ExecutionBridgeCommands::QmtAsset => Ok(ExecutionAction::QmtAsset),
        },
        ExecutionCommands::Qmt(q) => match q {
            ExecutionQmtCommands::Status { checklist } => Ok(ExecutionAction::BridgeStatus { checklist }),
            ExecutionQmtCommands::Preview { request_id } => Ok(ExecutionAction::QmtPreview { request_id }),
            ExecutionQmtCommands::Live { request_id, yes } => Ok(ExecutionAction::QmtLive { request_id, yes }),
            ExecutionQmtCommands::Query { order_id } => Ok(ExecutionAction::QmtQuery { order_id }),
            ExecutionQmtCommands::Audit { request_id, task_id, local_submission_id } => audit_action(
                request_id,
                task_id,
                local_submission_id,
            ),
            ExecutionQmtCommands::ManualInterventions { action, request_id, task_id, local_submission_id } => Ok(
                ExecutionAction::QmtManualInterventions { action, request_id, task_id, local_submission_id },
            ),
            ExecutionQmtCommands::Cancel { order_id } => Ok(ExecutionAction::QmtCancel { order_id }),
            ExecutionQmtCommands::Account => Ok(ExecutionAction::QmtAccount),
            ExecutionQmtCommands::Positions => Ok(ExecutionAction::QmtPositions),
            ExecutionQmtCommands::Asset => Ok(ExecutionAction::QmtAsset),
        },
    }
}


/// The order `qmt cancel` withdraws, and whether it came from the task
/// result: the broker order id the task result names, else the id given;
/// `None` when the lookup failed in a way that does not fall back, which is
/// then reported.
pub open spec fn cancel_target_spec(order_id: Seq<char>, lookup: Result<Option<String>, BridgeError>) -> Option<
    (Seq<char>, bool),
> {
    match lookup {
        Ok(Some(external)) => Some((external@, true)),
        Ok(None) => Some((order_id, false)),
        Err(e) => if e is Http || e is UnsupportedMethod {
            Some((order_id, false))
        } else {
            None
        },
    }
}

/// The order to cancel, given what the task result lookup answered.
pub fn qmt_cancel_target(order_id: &str, lookup: &Result<Option<String>, BridgeError>) -> (r: Option<
    (String, bool),
>)
    ensures
        match cancel_target_spec(order_id@, *lookup) {
            Some((id, from_task)) => r matches Some((x, b)) && x@ == id && b == from_task,
            None => r is None,
        },
{
    match lookup {
        Ok(Some(external)) => Some((external.clone(), true)),
        Ok(None) => Some((order_id.to_string(), false)),
        Err(e) => {
            if should_fallback_from_task_result_lookup(e) {
                Some((order_id.to_string(), false))
            } else {
                None
            }
        },
    }
}

/// The question `qmt cancel` asks before anything is sent.
pub open spec fn cancel_prompt_text(order_id: Seq<char>) -> Seq<char> {
    "⚠️  确认撤销订单: "@ + order_id + "\n    输入 'YES' 确认撤单，其他任意键取消:\n"@
}

/// The confirmation question of `qmt cancel`.
pub fn render_qmt_cancel_prompt(order_id: &str) -> (r: String)
    ensures
        r@ == cancel_prompt_text(order_id@),
{
    let mut s = "⚠️  确认撤销订单: ".to_string();
    s.append(order_id);
    s.append("\n    输入 'YES' 确认撤单，其他任意键取消:\n");
    s
}

/// The operator confirms a cancel by answering `YES` (surrounding white
/// space ignored).
pub fn qmt_cancel_confirmed(answer: &str) -> (r: bool)
    ensures
        r == (trim_text(answer@) == "YES"@),
{
    str_eq(trim_str(answer), "YES")
}

/// What the bridge answered to a cancel.
#[derive(Clone, Debug, PartialEq, Eq)]
pub struct QmtCancelResponse {
    pub success: bool,
    pub order_id: String,
    pub error_message: Option<String>,
}

/// The outcome line of `qmt cancel`: success, naming the task id when the
/// order came from a task result under another id, or the failure reason
/// (`未知错误` when the bridge gave none).
pub open spec fn cancel_result_text(
    requested_order_id: Seq<char>,
    cancel_order_id: Seq<char>,
    resolved_from_task_result: bool,
    response: QmtCancelResponse,
) -> Seq<char> {
    if response.success {
        if resolved_from_task_result && cancel_order_id != requested_order_id {
            "✓ 撤单成功: "@ + response.order_id@ + " (from task_id "@ + requested_order_id + ")\n"@
        } else {
            "✓ 撤单成功: "@ + response.order_id@ + "\n"@
        }
    } else {
        "✗ 撤单失败: "@ + match response.error_message {
            Some(m) => m@,
            None => "未知错误"@,
        } + "\n"@
    }
}

/// The line `qmt cancel` prints for the bridge's answer.
pub fn render_qmt_cancel_result(
    requested_order_id: &str,
    cancel_order_id: &str,
    resolved_from_task_result: bool,
    response: &QmtCancelResponse,
) -> (r: String)
    ensures
        r@ == cancel_result_text(requested_order_id@, cancel_order_id@, resolved_from_task_result, *response),
{
    if response.success {
        let mut s = "✓ 撤单成功: ".to_string();
        s.append(response.order_id.as_str());
        if resolved_from_task_result && !str_eq(cancel_order_id, requested_order_id) {
            s.append(" (from task_id ");
            s.append(requested_order_id);
            s.append(")\n");
        } else {
            s.append("\n");
        }
        s
    } else {
        let mut s = "✗ 撤单失败: ".to_string();
        match &response.error_message {
            Some(m) => s.append(m.as_str()),
            None => s.append("未知错误"),
        }
        s.append("\n");
        s
    }
}

/// The QMT account status the bridge reports.
#[derive(Clone, Debug, PartialEq, Eq)]
pub struct QmtAccountStatus {
    pub adapter: String,
    pub mode: String,
    pub sdk_available: bool,
    pub connected: bool,
    pub account_masked: Option<String>,
}

/// `qmt account`: adapter, mode, SDK availability, connection, and the
/// masked account when known.
pub open spec fn account_status_text(a: QmtAccountStatus) -> Seq<char> {
    "账户状态\n─────────────────────────────────────\n  适配器:      "@ + a.adapter@ + "\n  模式:        "@ + a.mode@
        + "\n  SDK 可用:   "@ + bool_text(a.sdk_available) + "\n  连接状态:    "@ + (if a.connected {
        "已连接"@
    } else {
        "未连接"@
    }) + "\n"@ + match a.account_masked {
        Some(m) => "  账户:        "@ + m@ + "\n"@,
        None => Seq::empty(),
    }
}

/// The text `qmt account` prints.
pub fn render_qmt_account_status(a: &QmtAccountStatus) -> (r: String)
    ensures
        r@ == account_status_text(*a),
{
    let mut s = "账户状态\n─────────────────────────────────────\n  适配器:      ".to_string();
    s.append(a.adapter.as_str());
    s.append("\n  模式:        ");
    s.append(a.mode.as_str());
    s.append("\n  SDK 可用:   ");
    if a.sdk_available {
        s.append("true");
    } else {
        s.append("false");
    }
    s.append("\n  连接状态:    ");
    if a.connected {
        s.append("已连接");
    } else {
        s.append("未连接");
    }
    s.append("\n");
    match &a.account_masked {
        Some(m) => {
            s.append("  账户:        ");
            s.append(m.as_str());
            s.append("\n");
        },
        None => {},
    }
    assert(s@ =~= account_status_text(*a));
    s
}

/// The QMT asset figures the bridge reports, as it prints them.
#[derive(Clone, Debug, PartialEq, Eq)]
pub struct QmtAssetView {
    pub total_asset: String,
    pub cash: String,
    pub market_value: String,
    pub account_id: String,
}

/// `qmt asset`: total assets, cash, position value and account id.
pub open spec fn asset_text(a: QmtAssetView) -> Seq<char> {
    "资产信息\n─────────────────────────────────────\n  总资产:      "@ + a.total_asset@ + "\n  可用现金:    "@ + a.cash@
        + "\n  持仓市值:    "@ + a.market_value@ + "\n  账户 ID:    "@ + a.account_id@ + "\n"@
}

/// The text `qmt asset` prints.
pub fn render_qmt_asset(a: &QmtAssetView) -> (r: String)
    ensures
        r@ == asset_text(*a),
{
    let mut s = "资产信息\n─────────────────────────────────────\n  总资产:      ".to_string();
    s.append(a.total_asset.as_str());
    s.append("\n  可用现金:    ");
    s.append(a.cash.as_str());
    s.append("\n  持仓市值:    ");
    s.append(a.market_value.as_str());
    s.append("\n  账户 ID:    ");
    s.append(a.account_id.as_str());
    s.append("\n");
    assert(s@ =~= asset_text(*a));
    s
}


/// A QMT position as the bridge reports it; prices as the bridge prints them.
#[derive(Clone, Debug, PartialEq, Eq)]
pub struct QmtPositionView {
    pub symbol: String,
    pub volume: i64,
    pub available: i64,
    pub cost_price: Option<String>,
    pub market_value: Option<String>,
}

/// An optional text, or `-`.
pub open spec fn text_or_dash(o: Option<String>) -> Seq<char> {
    match o {
        Some(s) => s@,
        None => "-"@,
    }
}

/// One line of the QMT positions.
pub open spec fn qmt_position_line(p: QmtPositionView) -> Seq<char> {
    line(pad_right(p.symbol@, 12) + " "@ + pad_right(int_text(p.volume as int), 10) + " "@ + pad_right(
        int_text(p.available as int),
        12,
    ) + " "@ + pad_right(text_or_dash(p.cost_price), 12) + " "@ + pad_right(text_or_dash(p.market_value), 12))
}

/// The lines of the positions, in order.
pub open spec fn qmt_position_lines(ps: Seq<QmtPositionView>) -> Seq<char>
    decreases ps.len(),
{
    if ps.len() == 0 {
        Seq::empty()
    } else {
        qmt_position_lines(ps.drop_last()) + qmt_position_line(ps.last())
    }
}

/// The header of `qmt positions`.
pub open spec fn qmt_positions_header() -> Seq<char> {
    line("持仓列表"@) + line("─────────────────────────────────────────────────────────────────────────────────"@)
        + line(pad_right("股票代码"@, 12) + " "@ + pad_right("持仓"@, 10) + " "@ + pad_right("可用"@, 12) + " "@
        + pad_right("成本价"@, 12) + " "@ + pad_right("市值"@, 12)) + line(repeat_text("-"@, 76))
}

/// `qmt positions`: a notice without positions, else a title, a header and
/// one line per position.
pub open spec fn qmt_positions_text(ps: Seq<QmtPositionView>) -> Seq<char> {
    if ps.len() == 0 {
        line("当前无持仓"@)
    } else {
        qmt_positions_header() + qmt_position_lines(ps)
    }
}

fn qmt_position_line_text(p: &QmtPositionView) -> (r: String)
    ensures
        line(r@) == qmt_position_line(*p),
{
    let mut s = String::new();
    push_padded(&mut s, p.symbol.as_str(), 12);
    s.append(" ");
    let mut v = String::new();
    push_i64(&mut v, p.volume);
    push_padded(&mut s, v.as_str(), 10);
    s.append(" ");
    let mut a = String::new();
    push_i64(&mut a, p.available);
    push_padded(&mut s, a.as_str(), 12);
    s.append(" ");
    match &p.cost_price {
        Some(c) => push_padded(&mut s, c.as_str(), 12),
        None => push_padded(&mut s, "-", 12),
    }
    s.append(" ");
    match &p.market_value {
        Some(m) => push_padded(&mut s, m.as_str(), 12),
        None => push_padded(&mut s, "-", 12),
    }
    assert(line(s@) =~= qmt_position_line(*p));
    s
}

fn push_qmt_positions_header(out: &mut String)
    ensures
        final(out)@ == old(out)@ + qmt_positions_header(),
{
    push_line(out, "持仓列表");
    push_line(out, "─────────────────────────────────────────────────────────────────────────────────");
    let mut h = String::new();
    push_padded(&mut h, "股票代码", 12);
    h.append(" ");
    push_padded(&mut h, "持仓", 10);
    h.append(" ");
    push_padded(&mut h, "可用", 12);
    h.append(" ");
    push_padded(&mut h, "成本价", 12);
    h.append(" ");
    push_padded(&mut h, "市值", 12);
    push_line(out, h.as_str());
    let mut dashes = String::new();
    push_repeat(&mut dashes, "-", 76);
    push_line(out, dashes.as_str());
    assert(out@ =~= old(out)@ + qmt_positions_header());
}

/// The text `qmt positions` prints.
pub fn render_qmt_positions(ps: &Vec<QmtPositionView>) -> (r: String)
    ensures
        r@ == qmt_positions_text(ps@),
{
    let mut out = String::new();
    if ps.len() == 0 {
        push_line(&mut out, "当前无持仓");
        return out;
    }
    push_qmt_positions_header(&mut out);
    let ghost head = out@;
    let mut i: usize = 0;
    while i < ps.len()
        invariant
            i <= ps.len(),
            out@ == head + qmt_position_lines(ps@.take(i as int)),
            head == qmt_positions_header(),
        decreases ps.len() - i,
    {
        assert(ps@.take(i + 1).drop_last() =~= ps@.take(i as int));
        let l = qmt_position_line_text(&ps[i]);
        push_line(&mut out, l.as_str());
        assert(out@ =~= head + qmt_position_lines(ps@.take(i + 1)));
        i = i + 1;
    }
    assert(ps@.take(i as int) =~= ps@);
    out
}

/// A bare code (no `.`) goes to the Shanghai exchange exactly when it
/// starts with 6, and to Shenzhen otherwise: the bridge symbol is the code
/// followed by `.SH` or `.SZ`.
pub proof fn lemma_bare_code_exchange(symbol: Seq<char>)
    requires
        forall|i: int| 0 <= i < symbol.len() ==> symbol[i] != '.',
    ensures
        bridge_symbol(symbol).len() == symbol.len() + 3,
        bridge_symbol(symbol).subrange(0, symbol.len() as int) == symbol,
        bridge_symbol(symbol)[symbol.len() as int] == '.',
        bridge_symbol(symbol)[symbol.len() as int + 1] == 'S',
        bridge_symbol(symbol)[symbol.len() as int + 2] == (if symbol.len() > 0 && symbol[0] == '6' {
            'H'
        } else {
            'Z'
        }),
{
    reveal_strlit(".");
    reveal_strlit(".SH");
    reveal_strlit(".SZ");
    assert(!contains_text(symbol, "."@)) by {
        if contains_text(symbol, "."@) {
            let i = choose|i: int| occurs_at(symbol, "."@, i);
            assert(symbol.subrange(i, i + 1)[0] == symbol[i]);
        }
    }
    assert(bridge_symbol(symbol).subrange(0, symbol.len() as int) =~= symbol);
}

/// The missing-external-id case is given only when a bridge task id is known
/// and no external order id is; with a known external order id, a request
/// that asked for manual intervention over an identity error (and nothing
/// that an earlier case looks for) is an identity mismatch.
pub proof fn lemma_missing_external_id_needs_unknown_id(
    target_mode: Seq<char>,
    order_adapter: Option<Seq<char>>,
    failure_category: Option<Seq<char>>,
    reconciliation_action: Option<Seq<char>>,
    reconciliation_error: Option<Seq<char>>,
    task_id_known: bool,
    external_order_id_known: bool,
)
    ensures
        manual_intervention_category(
            target_mode,
            order_adapter,
            failure_category,
            reconciliation_action,
            reconciliation_error,
            task_id_known,
            external_order_id_known,
        ) == Some("missing_external_order_id_after_bridge_task_completion"@) ==> task_id_known
            && !external_order_id_known,
        ({
            let err = ascii_lower_text(
                match reconciliation_error {
                    Some(e) => e,
                    None => Seq::empty(),
                },
            );
            &&& external_order_id_known
            &&& target_mode == "qmt_live"@
            &&& failure_category == Some("manual_intervention_required"@)
            &&& reconciliation_action is None
            &&& contains_text(err, "identity"@)
            &&& !contains_text(err, "bridge failure"@)
            &&& !contains_text(err, "preserved local"@)
        }) ==> manual_intervention_category(
            target_mode,
            order_adapter,
            failure_category,
            reconciliation_action,
            reconciliation_error,
            task_id_known,
            external_order_id_known,
        ) == Some("identity_mismatch"@),
{
    reveal_strlit("missing_external_order_id_after_bridge_task_completion");
    reveal_strlit("broker_unknown_state");
    reveal_strlit("bridge_failure_requires_operator_review");
    reveal_strlit("reconciliation_preserved_local_state");
    reveal_strlit("identity_mismatch");
    reveal_strlit("manual_intervention_required");
    reveal_strlit("bridge_failure");
    reveal_strlit("preserved_local_state");
    let missing = "missing_external_order_id_after_bridge_task_completion"@;
    assert("broker_unknown_state"@ != missing) by {
        assert("broker_unknown_state"@.len() != missing.len());
    }
    assert("bridge_failure_requires_operator_review"@ != missing) by {
        assert("bridge_failure_requires_operator_review"@.len() != missing.len());
    }
    assert("reconciliation_preserved_local_state"@ != missing) by {
        assert("reconciliation_preserved_local_state"@.len() != missing.len());
    }
    assert("identity_mismatch"@ != missing) by {
        assert("identity_mismatch"@.len() != missing.len());
    }
    assert("manual_intervention_required"@ != "broker_unknown_state"@) by {
        assert("manual_intervention_required"@.len() != "broker_unknown_state"@.len());
    }
    assert("manual_intervention_required"@ != "bridge_failure"@) by {
        assert("manual_intervention_required"@.len() != "bridge_failure"@.len());
    }
}

/// A symbol that already names its exchange (holds a `.`) is sent as it is.
pub proof fn lemma_named_exchange_kept(symbol: Seq<char>, k: int)
    requires
        0 <= k < symbol.len(),
        symbol[k] == '.',
    ensures
        bridge_symbol(symbol) == symbol,
{
    reveal_strlit(".");
    assert(symbol.subrange(k, k + 1) =~= "."@);
    assert(occurs_at(symbol, "."@, k));
}

} // verus!
