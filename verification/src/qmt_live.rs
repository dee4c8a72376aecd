//! Submitting a qmt_live execution request to the broker. The store, the
//! bridge and the operator are outside; this module decides, from the state
//! of a submission and what the last outside step answered, the next step:
//! every check is made before the order leaves.
use vstd::prelude::*;
use crate::decimal::{decimal_parse, decimal_parts, parse_decimal_text, DecimalValue};
use crate::error::QuantixError;
use crate::json_doc::{
    document_view, opt_text_scalar, text_or_null, text_scalar, JsonDocument, JsonMember, JsonScalar, MemberSpec,
    ScalarSpec,
};
use crate::execution::{bridge_symbol, normalize_symbol_for_bridge, KillSwitchState};
use crate::text::{int_text, line, push_i64, push_line, push_repeat, repeat_text, str_eq, trim_str, trim_text};

verus! {

/// What the submission reads of an execution request. Texts taken from the
/// payload's `execution_snapshot` and its `order_intent` are `None` when the
/// path is missing or not a string (the quantity when not an integer).
#[derive(Clone, Debug, PartialEq, Eq)]
pub struct QmtLiveRequest {
    pub request_id: String,
    pub signal_id: String,
    /// The request is still pending.
    pub pending: bool,
    pub target_mode: String,
    /// The payload has `execution_snapshot`.
    pub has_snapshot: bool,
    /// The snapshot has `order_intent`.
    pub has_order_intent: bool,
    pub symbol: Option<String>,
    pub side: Option<String>,
    pub quantity: Option<i64>,
    pub price: Option<String>,
    pub strategy_name: Option<String>,
    pub order_type: Option<String>,
}

/// What the bridge answered for an accepted submission.
#[derive(Clone, Debug, PartialEq, Eq)]
pub struct QmtLiveReceipt {
    pub task_id: String,
    pub local_submission_id: Option<String>,
    pub bridge_contract_version: Option<String>,
    pub source_name: Option<String>,
}

/// Why the bridge is not ready for live orders.
#[derive(Clone, Debug, PartialEq, Eq)]
pub enum QmtGateFailure {
    CapabilityCheckFailed,
    CapabilityDisabled,
    ModeNotLive(String),
    MissingOrderSubmitSupport,
}

/// Which diagnostics a recorded failure carries.
#[derive(Clone, Debug, PartialEq, Eq)]
pub enum QmtFailureDiagnostics {
    Gate(QmtGateFailure),
    Unclassified,
    /// A kill switch blocked the mode named.
    KillSwitchBlocked(String),
}

/// A kill switch that blocks the target mode: its persisted state and the
/// message that its block reports.
#[derive(Clone, Debug, PartialEq, Eq)]
pub struct KillSwitchBlock {
    pub state: KillSwitchState,
    pub message: String,
}

/// The step a submission waits on.
#[derive(Clone, Copy, Debug, PartialEq, Eq)]
pub enum QmtLiveStage {
    LoadRequest,
    CheckKillSwitch,
    RecordKillSwitchBlock,
    Confirm,
    ParseOrder,
    LoadSignal,
    Claim,
    CheckGate,
    RecordGateFailure,
    Submit,
    RecordSubmitFailure,
    RecordOrder,
    Complete,
    Finished,
}

/// A submission in progress.
#[derive(Clone, Debug, PartialEq, Eq)]
pub struct QmtLiveState {
    pub stage: QmtLiveStage,
    /// The request id asked for.
    pub request_id: String,
    pub skip_confirm: bool,
    /// The request, once loaded and accepted.
    pub request: Option<QmtLiveRequest>,
    /// No kill switch blocks qmt_live.
    pub kill_switch_clear: bool,
    /// The operator confirmed (or confirmation was skipped).
    pub confirmed: bool,
    /// The run id of the request's signal, once loaded.
    pub signal_run_id: Option<String>,
    /// The requested price, once read.
    pub price: Option<DecimalValue>,
    /// The request was moved from pending to started.
    pub claimed: bool,
    /// The bridge runs in live mode with order submission.
    pub gate_passed: bool,
    /// The error to report once its failure is recorded.
    pub failure: Option<QuantixError>,
    /// The bridge's answer, once the order is accepted.
    pub receipt: Option<QmtLiveReceipt>,
}

/// What the outside answered to the last step.
#[derive(Debug, PartialEq, Eq)]
pub enum QmtLiveEvent {
    /// The request with the id, if the store has one.
    RequestLoaded(Option<QmtLiveRequest>),
    /// The kill switch that blocks the mode, if one does.
    KillSwitchChecked(Option<KillSwitchBlock>),
    /// Whether the store recorded the failure (the request was still as read).
    FailureRecorded(bool),
    /// The operator's answer, when asked.
    Confirmation(Option<String>),
    /// The operator's answer could not be read.
    AnswerUnread(QuantixError),
    /// Whether the side and the order type are known names.
    OrderParsed { side_valid: bool, order_type_valid: bool },
    /// The run id of the request's signal, if the signal exists.
    SignalLoaded(Option<String>),
    /// Whether the request could be claimed (it was still pending).
    Claimed(bool),
    /// Why the bridge is not ready for live orders, and the error, if it is not.
    GateChecked(Option<(QmtGateFailure, QuantixError)>),
    /// The bridge's answer to the order, or its error text.
    Submitted(Result<QmtLiveReceipt, String>),
    /// The order id whose metadata could not be updated, if that happened.
    OrderRecorded(Option<String>),
    /// Whether the store completed the request.
    Completed(bool),
}

/// The order handed to the bridge.
#[derive(Clone, Debug, PartialEq, Eq)]
pub struct QmtAdapterOrder {
    pub client_order_id: String,
    pub symbol: String,
    pub side: String,
    pub quantity: i64,
    pub price: DecimalValue,
}

/// How a submission ended well.
#[derive(Clone, Debug, PartialEq, Eq)]
pub enum QmtLiveOutcome {
    /// The operator did not confirm.
    Cancelled,
    /// The bridge accepted the order.
    Accepted { request_id: String, receipt: QmtLiveReceipt },
}

/// The next outside step.
#[derive(Debug, PartialEq, Eq)]
pub enum QmtLiveAction {
    /// Load the execution request with the id.
    LoadRequest(String),
    /// Check the kill switches for the target mode.
    CheckKillSwitch(String),
    /// Fail the pending request, recording the error of the adapter (the
    /// target mode), the kill switch state and the block diagnostics.
    RecordKillSwitchBlock {
        request_id: String,
        adapter: String,
        message: String,
        kill_switch: KillSwitchState,
        diagnostics: QmtFailureDiagnostics,
    },
    /// Print the order summary; when `ask`, read the operator's answer.
    Confirm { summary: String, ask: bool },
    /// Check the side and order type names.
    ParseOrder { side: String, order_type: String },
    /// Load the request's signal.
    LoadSignal(String),
    /// Move the request from pending to started.
    Claim(String),
    /// Check that the bridge runs qmt_live with order submission.
    CheckGate,
    /// Fail the started request, recording the error and its diagnostics.
    RecordFailure { request_id: String, message: String, diagnostics: QmtFailureDiagnostics },
    /// Send the order to the bridge.
    Submit(QmtAdapterOrder),
    /// Record the order under the signal's run (or update the qmt_live
    /// metadata of the order already recorded) with the bridge's task id and
    /// local submission id.
    RecordOrder {
        client_order_id: String,
        run_id: String,
        symbol: String,
        side: String,
        order_type: String,
        quantity: i64,
        price: DecimalValue,
        task_id: String,
        local_submission_id: Option<String>,
    },
    /// Complete the request with the task id.
    Complete { request_id: String, task_id: String },
    /// The submission is over.
    Finish(Result<QmtLiveOutcome, QuantixError>),
}

/// An optional text, or a default.
pub open spec fn text_or(o: Option<String>, default: Seq<char>) -> Seq<char> {
    match o {
        Some(s) => s@,
        None => default,
    }
}

fn string_or(o: &Option<String>, default: &str) -> (r: String)
    ensures
        r@ == text_or(*o, default@),
{
    match o {
        Some(s) => s.clone(),
        None => default.to_string(),
    }
}

/// The banner line of the confirmation.
pub open spec fn banner_text() -> Seq<char> {
    repeat_text("═"@, 67)
}

/// The order summary printed before submission: symbol, side, quantity,
/// price and strategy (`unknown`, `0` and `0` stand in for missing values).
pub open spec fn order_summary_text(q: QmtLiveRequest) -> Seq<char> {
    line(banner_text()) + line("⚠️  实盘下单确认"@) + line(banner_text()) + line(Seq::empty())
        + line("  股票代码:    "@ + text_or(q.symbol, "unknown"@)) + line(
        "  买卖方向:    "@ + text_or(q.side, "unknown"@),
    ) + line(
        "  数量:        "@ + int_text(
            match q.quantity {
                Some(n) => n as int,
                None => 0,
            },
        ) + " 股"@,
    ) + line("  价格:        "@ + text_or(q.price, "0"@)) + line(
        "  策略名称:    "@ + text_or(q.strategy_name, "unknown"@),
    ) + line(Seq::empty())
}

/// The question that follows the summary when the operator must confirm.
pub open spec fn confirm_prompt_text() -> Seq<char> {
    line("⚠️  警告: 这将提交真实订单到券商账户!"@) + line("    输入 'YES' 确认下单，其他任意键取消:"@)
}

/// The summary with, when asked, the question.
pub open spec fn confirm_text(q: QmtLiveRequest, ask: bool) -> Seq<char> {
    order_summary_text(q) + if ask {
        confirm_prompt_text()
    } else {
        Seq::empty()
    }
}

/// The confirmation text of the request (see `confirm_text`).
pub fn render_qmt_live_confirmation(q: &QmtLiveRequest, ask: bool) -> (r: String)
    ensures
        r@ == confirm_text(*q, ask),
{
    let mut banner = String::new();
    push_repeat(&mut banner, "═", 67);
    let mut out = String::new();
    push_line(&mut out, banner.as_str());
    push_line(&mut out, "⚠️  实盘下单确认");
    push_line(&mut out, banner.as_str());
    push_line(&mut out, "");
    let mut l = "  股票代码:    ".to_string();
    let symbol = string_or(&q.symbol, "unknown");
    l.append(symbol.as_str());
    push_line(&mut out, l.as_str());
    let mut l = "  买卖方向:    ".to_string();
    let side = string_or(&q.side, "unknown");
    l.append(side.as_str());
    push_line(&mut out, l.as_str());
    let mut l = "  数量:        ".to_string();
    let quantity: i64 = match q.quantity {
        Some(n) => n,
        None => 0,
    };
    push_i64(&mut l, quantity);
    l.append(" 股");
    push_line(&mut out, l.as_str());
    let mut l = "  价格:        ".to_string();
    let price = string_or(&q.price, "0");
    l.append(price.as_str());
    push_line(&mut out, l.as_str());
    let mut l = "  策略名称:    ".to_string();
    let strategy = string_or(&q.strategy_name, "unknown");
    l.append(strategy.as_str());
    push_line(&mut out, l.as_str());
    push_line(&mut out, "");
    let ghost summary = out@;
    proof {
        reveal_strlit("");
    }
    assert(summary =~= order_summary_text(*q));
    if ask {
        push_line(&mut out, "⚠️  警告: 这将提交真实订单到券商账户!");
        push_line(&mut out, "    输入 'YES' 确认下单，其他任意键取消:");
        assert(out@ =~= confirm_text(*q, ask));
    } else {
        assert(out@ =~= confirm_text(*q, ask));
    }
    out
}

/// The position of a stage in the submission, failure records beside the
/// step they follow.
pub open spec fn stage_rank(st: QmtLiveStage) -> int {
    match st {
        QmtLiveStage::LoadRequest => 0,
        QmtLiveStage::CheckKillSwitch => 1,
        QmtLiveStage::RecordKillSwitchBlock => 2,
        QmtLiveStage::Confirm => 3,
        QmtLiveStage::ParseOrder => 4,
        QmtLiveStage::LoadSignal => 5,
        QmtLiveStage::Claim => 6,
        QmtLiveStage::CheckGate => 7,
        QmtLiveStage::RecordGateFailure => 8,
        QmtLiveStage::Submit => 9,
        QmtLiveStage::RecordSubmitFailure => 10,
        QmtLiveStage::RecordOrder => 11,
        QmtLiveStage::Complete => 12,
        QmtLiveStage::Finished => 13,
    }
}

/// What every submission state keeps: past the load, a pending qmt_live
/// request; from the confirmation on, no kill switch block and an order in
/// the request; past it, the operator's consent; from the signal on, the
/// price; from the claim on, the signal's run id; from the bridge check on,
/// the claim; from the submission on, a ready bridge; once accepted, the
/// bridge's receipt; while a failure is recorded, its error.
pub open spec fn qmt_live_inv(s: QmtLiveState) -> bool {
    let k = stage_rank(s.stage);
    &&& (1 <= k <= 12 ==> (s.request matches Some(q) && q.pending && q.target_mode@ == "qmt_live"@))
    &&& (3 <= k <= 12 ==> (s.kill_switch_clear && (s.request matches Some(q) && q.has_snapshot
        && q.has_order_intent)))
    &&& (4 <= k <= 12 ==> s.confirmed)
    &&& (5 <= k <= 12 ==> s.price is Some)
    &&& (6 <= k <= 12 ==> s.signal_run_id is Some)
    &&& (7 <= k <= 12 ==> s.claimed)
    &&& (9 <= k <= 12 ==> s.gate_passed)
    &&& (11 <= k <= 12 ==> s.receipt is Some)
    &&& (k == 2 || k == 8 || k == 10 ==> s.failure is Some)
}

/// The event answers the step the state waits on.
pub open spec fn qmt_live_expects(s: QmtLiveState, e: QmtLiveEvent) -> bool {
    match s.stage {
        QmtLiveStage::LoadRequest => e is RequestLoaded,
        QmtLiveStage::CheckKillSwitch => e is KillSwitchChecked,
        QmtLiveStage::RecordKillSwitchBlock => e is FailureRecorded,
        QmtLiveStage::Confirm => e is Confirmation || (e is AnswerUnread && !s.skip_confirm),
        QmtLiveStage::ParseOrder => e is OrderParsed,
        QmtLiveStage::LoadSignal => e is SignalLoaded,
        QmtLiveStage::Claim => e is Claimed,
        QmtLiveStage::CheckGate => e is GateChecked,
        QmtLiveStage::RecordGateFailure => e is FailureRecorded,
        QmtLiveStage::Submit => e is Submitted,
        QmtLiveStage::RecordSubmitFailure => e is FailureRecorded,
        QmtLiveStage::RecordOrder => e is OrderRecorded,
        QmtLiveStage::Complete => e is Completed,
        QmtLiveStage::Finished => false,
    }
}

/// The submission is over with a refusal carrying `msg`; nothing else of
/// the state changes.
pub open spec fn finished_with(s: QmtLiveState, s2: QmtLiveState, a: QmtLiveAction, msg: Seq<char>) -> bool {
    &&& s2 == (QmtLiveState { stage: QmtLiveStage::Finished, ..s })
    &&& a matches QmtLiveAction::Finish(Err(QuantixError::Other(m))) && m@ == msg
}

/// The message when the store saw the request change under the submission.
pub open spec fn changed_message(request_id: Seq<char>) -> Seq<char> {
    "request 状态已变化: "@ + request_id
}

/// A new submission of the request, which first loads it.
pub fn qmt_live_start(request_id: String, skip_confirm: bool) -> (r: (QmtLiveState, QmtLiveAction))
    ensures
        r.0.stage == QmtLiveStage::LoadRequest,
        r.0.request_id == request_id,
        r.0.skip_confirm == skip_confirm,
        r.0.request is None && !r.0.kill_switch_clear && !r.0.confirmed && r.0.signal_run_id is None
            && r.0.price is None
            && !r.0.claimed && !r.0.gate_passed && r.0.failure is None && r.0.receipt is None,
        r.1 == QmtLiveAction::LoadRequest(request_id),
        qmt_live_inv(r.0),
{
    let id = request_id.clone();
    (
        QmtLiveState {
            stage: QmtLiveStage::LoadRequest,
            request_id,
            skip_confirm,
            request: None,
            kill_switch_clear: false,
            confirmed: false,
            signal_run_id: None,
            price: None,
            claimed: false,
            gate_passed: false,
            failure: None,
            receipt: None,
        },
        QmtLiveAction::LoadRequest(id),
    )
}

fn finish_error(s: QmtLiveState, m: String) -> (r: (QmtLiveState, QmtLiveAction))
    ensures
        r.0 == (QmtLiveState { stage: QmtLiveStage::Finished, ..s }),
        r.1 == QmtLiveAction::Finish(Err(QuantixError::Other(m))),
{
    (QmtLiveState { stage: QmtLiveStage::Finished, ..s }, QmtLiveAction::Finish(Err(QuantixError::Other(m))))
}

/// After the load: refused when missing, not pending or not for qmt_live;
/// else kept, and the kill switches of its mode are checked.
pub open spec fn after_request_loaded(
    s: QmtLiveState,
    loaded: Option<QmtLiveRequest>,
    s2: QmtLiveState,
    a: QmtLiveAction,
) -> bool {
    match loaded {
        None => finished_with(s, s2, a, "request 不存在: "@ + s.request_id@),
        Some(q) => if !q.pending {
            finished_with(s, s2, a, "request 不是 pending: "@ + s.request_id@)
        } else if q.target_mode@ != "qmt_live"@ {
            finished_with(s, s2, a, "request target_mode 不是 qmt_live: "@ + q.target_mode@)
        } else {
            &&& s2 == (QmtLiveState {
                stage: QmtLiveStage::CheckKillSwitch,
                request: Some(q),
                ..s
            })
            &&& a == QmtLiveAction::CheckKillSwitch(q.target_mode)
        },
    }
}

fn on_request_loaded(s: QmtLiveState, loaded: Option<QmtLiveRequest>) -> (r: (
    QmtLiveState,
    QmtLiveAction,
))
    ensures
        after_request_loaded(s, loaded, r.0, r.1),
{
    match loaded {
        None => {
            let mut m = "request 不存在: ".to_string();
            m.append(s.request_id.as_str());
            finish_error(s, m)
        },
        Some(q) => {
            if !q.pending {
                let mut m = "request 不是 pending: ".to_string();
                m.append(s.request_id.as_str());
                finish_error(s, m)
            } else if !str_eq(q.target_mode.as_str(), "qmt_live") {
                let mut m = "request target_mode 不是 qmt_live: ".to_string();
                m.append(q.target_mode.as_str());
                finish_error(s, m)
            } else {
                let mode = q.target_mode.clone();
                (
                    QmtLiveState { stage: QmtLiveStage::CheckKillSwitch, request: Some(q), ..s },
                    QmtLiveAction::CheckKillSwitch(mode),
                )
            }
        },
    }
}

/// After the kill switch check: a block is recorded on the request (its
/// message as the error of the target mode, the kill switch state, and the
/// block diagnostics of the mode) before it is reported; else the request must hold an order (snapshot and
/// intent), which is shown to the operator, who is asked unless
/// confirmation is skipped.
pub open spec fn after_kill_switch(
    s: QmtLiveState,
    block: Option<KillSwitchBlock>,
    s2: QmtLiveState,
    a: QmtLiveAction,
) -> bool {
    let q = s.request->0;
    match block {
        Some(b) => {
            &&& s2 == (QmtLiveState {
                stage: QmtLiveStage::RecordKillSwitchBlock,
                failure: Some(QuantixError::Other(b.message)),
                ..s
            })
            &&& a matches QmtLiveAction::RecordKillSwitchBlock {
                request_id,
                adapter,
                message,
                kill_switch,
                diagnostics,
            } && request_id == q.request_id && adapter == q.target_mode && message == b.message
                && kill_switch == b.state && diagnostics == QmtFailureDiagnostics::KillSwitchBlocked(
                q.target_mode,
            )
        },
        None => if !q.has_snapshot {
            finished_with(s, s2, a, "request 缺少 execution_snapshot"@)
        } else if !q.has_order_intent {
            finished_with(s, s2, a, "request 缺少 order_intent"@)
        } else {
            &&& s2 == (QmtLiveState {
                stage: QmtLiveStage::Confirm,
                kill_switch_clear: true,
                ..s
            })
            &&& a matches QmtLiveAction::Confirm { summary, ask } && ask == !s.skip_confirm
                && summary@ == confirm_text(q, !s.skip_confirm)
        },
    }
}

fn on_kill_switch(s: QmtLiveState, block: Option<KillSwitchBlock>) -> (r: (QmtLiveState, QmtLiveAction))
    requires
        s.request is Some,
    ensures
        after_kill_switch(s, block, r.0, r.1),
{
    match block {
        Some(b) => {
            let KillSwitchBlock { state, message } = b;
            let (request_id, adapter, mode) = match &s.request {
                Some(q) => (q.request_id.clone(), q.target_mode.clone(), q.target_mode.clone()),
                None => (String::new(), String::new(), String::new()),
            };
            let failure = QuantixError::Other(message.clone());
            (
                QmtLiveState { stage: QmtLiveStage::RecordKillSwitchBlock, failure: Some(failure), ..s },
                QmtLiveAction::RecordKillSwitchBlock {
                    request_id,
                    adapter,
                    message,
                    kill_switch: state,
                    diagnostics: QmtFailureDiagnostics::KillSwitchBlocked(mode),
                },
            )
        },
        None => {
            let (has_snapshot, has_order_intent) = match &s.request {
                Some(q) => (q.has_snapshot, q.has_order_intent),
                None => (false, false),
            };
            if !has_snapshot {
                return finish_error(s, "request 缺少 execution_snapshot".to_string());
            }
            if !has_order_intent {
                return finish_error(s, "request 缺少 order_intent".to_string());
            }
            let ask = !s.skip_confirm;
            let summary = match &s.request {
                Some(q) => render_qmt_live_confirmation(q, ask),
                None => String::new(),
            };
            (
                QmtLiveState { stage: QmtLiveStage::Confirm, kill_switch_clear: true, ..s },
                QmtLiveAction::Confirm { summary, ask },
            )
        },
    }
}

/// After a failure is recorded: the recorded error is reported as it is;
/// if the store no longer saw the request as read, that change is reported.
pub open spec fn after_failure_recorded(
    s: QmtLiveState,
    recorded: bool,
    s2: QmtLiveState,
    a: QmtLiveAction,
) -> bool {
    if recorded {
        &&& s2 == (QmtLiveState { stage: QmtLiveStage::Finished, ..s })
        &&& a == QmtLiveAction::Finish(Err(s.failure->0))
    } else {
        finished_with(s, s2, a, changed_message(s.request->0.request_id@))
    }
}

fn on_failure_recorded(s: QmtLiveState, recorded: bool) -> (r: (QmtLiveState, QmtLiveAction))
    requires
        s.request is Some,
        s.failure is Some,
    ensures
        after_failure_recorded(s, recorded, r.0, r.1),
{
    if recorded {
        let err = match &s.failure {
            Some(f) => f.duplicate(),
            None => QuantixError::Other(String::new()),
        };
        (QmtLiveState { stage: QmtLiveStage::Finished, ..s }, QmtLiveAction::Finish(Err(err)))
    } else {
        let mut m = "request 状态已变化: ".to_string();
        match &s.request {
            Some(q) => m.append(q.request_id.as_str()),
            None => {},
        }
        finish_error(s, m)
    }
}

/// The operator consents: confirmation is skipped, or the answer is `YES`
/// (surrounding white space ignored).
pub open spec fn consents(skip_confirm: bool, answer: Option<String>) -> bool {
    skip_confirm || (answer matches Some(x) && trim_text(x@) == "YES"@)
}

/// After the confirmation: without consent the submission is cancelled;
/// with it, the side (else `unknown`) and order type (else `limit`) are
/// checked.
pub open spec fn after_confirmation(
    s: QmtLiveState,
    answer: Option<String>,
    s2: QmtLiveState,
    a: QmtLiveAction,
) -> bool {
    let q = s.request->0;
    if !consents(s.skip_confirm, answer) {
        &&& s2 == (QmtLiveState { stage: QmtLiveStage::Finished, ..s })
        &&& a == QmtLiveAction::Finish(Ok(QmtLiveOutcome::Cancelled))
    } else {
        &&& s2 == (QmtLiveState { stage: QmtLiveStage::ParseOrder, confirmed: true, ..s })
        &&& a matches QmtLiveAction::ParseOrder { side, order_type } && side@ == text_or(
            q.side,
            "unknown"@,
        ) && order_type@ == text_or(q.order_type, "limit"@)
    }
}

/// When the operator's answer cannot be read, the submission ends with that
/// error; nothing has been recorded yet.
pub open spec fn after_answer_unread(s: QmtLiveState, err: QuantixError, s2: QmtLiveState, a: QmtLiveAction) -> bool {
    &&& s2 == (QmtLiveState { stage: QmtLiveStage::Finished, ..s })
    &&& a == QmtLiveAction::Finish(Err(err))
}

fn on_answer_unread(s: QmtLiveState, err: QuantixError) -> (r: (QmtLiveState, QmtLiveAction))
    ensures
        after_answer_unread(s, err, r.0, r.1),
{
    (QmtLiveState { stage: QmtLiveStage::Finished, ..s }, QmtLiveAction::Finish(Err(err)))
}

fn on_confirmation(s: QmtLiveState, answer: Option<String>) -> (r: (QmtLiveState, QmtLiveAction))
    requires
        s.request is Some,
    ensures
        after_confirmation(s, answer, r.0, r.1),
{
    let consent = if s.skip_confirm {
        true
    } else {
        match &answer {
            Some(x) => str_eq(trim_str(x.as_str()), "YES"),
            None => false,
        }
    };
    if !consent {
        return (
            QmtLiveState { stage: QmtLiveStage::Finished, ..s },
            QmtLiveAction::Finish(Ok(QmtLiveOutcome::Cancelled)),
        );
    }
    let (side, order_type) = match &s.request {
        Some(q) => (string_or(&q.side, "unknown"), string_or(&q.order_type, "limit")),
        None => (String::new(), String::new()),
    };
    (
        QmtLiveState { stage: QmtLiveStage::ParseOrder, confirmed: true, ..s },
        QmtLiveAction::ParseOrder { side, order_type },
    )
}

/// After the side and order type checks: an unknown side or order type is
/// refused, then a price (else `0`) that is not a decimal; else the price
/// is kept and the signal is loaded.
pub open spec fn after_order_parsed(
    s: QmtLiveState,
    side_valid: bool,
    order_type_valid: bool,
    s2: QmtLiveState,
    a: QmtLiveAction,
) -> bool {
    let q = s.request->0;
    let price = text_or(q.price, "0"@);
    if !side_valid {
        finished_with(s, s2, a, "request 包含无效 side: "@ + text_or(q.side, "unknown"@))
    } else if !order_type_valid {
        finished_with(s, s2, a, "request 包含无效 order_type: "@ + text_or(q.order_type, "limit"@))
    } else {
        match decimal_parse(price) {
            Err(e) => finished_with(s, s2, a, "request 包含无效 requested_price: "@ + price + ", "@ + e),
            Ok(p) => {
                &&& s2.stage == QmtLiveStage::LoadSignal
                &&& s2.price matches Some(d) && decimal_parts(d) == p && d.wf()
                &&& s2 == (QmtLiveState { stage: QmtLiveStage::LoadSignal, price: s2.price, ..s })
                &&& a == QmtLiveAction::LoadSignal(q.signal_id)
            },
        }
    }
}

fn on_order_parsed(s: QmtLiveState, side_valid: bool, order_type_valid: bool) -> (r: (
    QmtLiveState,
    QmtLiveAction,
))
    requires
        s.request is Some,
    ensures
        after_order_parsed(s, side_valid, order_type_valid, r.0, r.1),
{
    let (side, order_type, price, signal_id) = match &s.request {
        Some(q) => (
            string_or(&q.side, "unknown"),
            string_or(&q.order_type, "limit"),
            string_or(&q.price, "0"),
            q.signal_id.clone(),
        ),
        None => (String::new(), String::new(), String::new(), String::new()),
    };
    if !side_valid {
        let mut m = "request 包含无效 side: ".to_string();
        m.append(side.as_str());
        return finish_error(s, m);
    }
    if !order_type_valid {
        let mut m = "request 包含无效 order_type: ".to_string();
        m.append(order_type.as_str());
        return finish_error(s, m);
    }
    match parse_decimal_text(price.as_str()) {
        Err(e) => {
            let mut m = "request 包含无效 requested_price: ".to_string();
            m.append(price.as_str());
            m.append(", ");
            m.append(e.as_str());
            finish_error(s, m)
        },
        Ok(d) => (
            QmtLiveState { stage: QmtLiveStage::LoadSignal, price: Some(d), ..s },
            QmtLiveAction::LoadSignal(signal_id),
        ),
    }
}

/// After the signal load: a missing signal is refused; else its run id is
/// kept and the request is claimed.
pub open spec fn after_signal_loaded(
    s: QmtLiveState,
    run_id: Option<String>,
    s2: QmtLiveState,
    a: QmtLiveAction,
) -> bool {
    let q = s.request->0;
    match run_id {
        None => finished_with(s, s2, a, "signal 不存在: "@ + q.signal_id@),
        Some(run) => {
            &&& s2 == (QmtLiveState { stage: QmtLiveStage::Claim, signal_run_id: Some(run), ..s })
            &&& a == QmtLiveAction::Claim(q.request_id)
        },
    }
}

fn on_signal_loaded(s: QmtLiveState, run_id: Option<String>) -> (r: (QmtLiveState, QmtLiveAction))
    requires
        s.request is Some,
    ensures
        after_signal_loaded(s, run_id, r.0, r.1),
{
    let (signal_id, request_id) = match &s.request {
        Some(q) => (q.signal_id.clone(), q.request_id.clone()),
        None => (String::new(), String::new()),
    };
    match run_id {
        None => {
            let mut m = "signal 不存在: ".to_string();
            m.append(signal_id.as_str());
            finish_error(s, m)
        },
        Some(run) => (
            QmtLiveState { stage: QmtLiveStage::Claim, signal_run_id: Some(run), ..s },
            QmtLiveAction::Claim(request_id),
        ),
    }
}

/// After the claim: a request that changed meanwhile is refused; else the
/// bridge is checked.
pub open spec fn after_claim(s: QmtLiveState, claimed: bool, s2: QmtLiveState, a: QmtLiveAction) -> bool {
    if !claimed {
        finished_with(s, s2, a, changed_message(s.request->0.request_id@))
    } else {
        &&& s2 == (QmtLiveState { stage: QmtLiveStage::CheckGate, claimed: true, ..s })
        &&& a == QmtLiveAction::CheckGate
    }
}

fn on_claim(s: QmtLiveState, claimed: bool) -> (r: (QmtLiveState, QmtLiveAction))
    requires
        s.request is Some,
    ensures
        after_claim(s, claimed, r.0, r.1),
{
    if !claimed {
        let mut m = "request 状态已变化: ".to_string();
        match &s.request {
            Some(q) => m.append(q.request_id.as_str()),
            None => {},
        }
        return finish_error(s, m);
    }
    (QmtLiveState { stage: QmtLiveStage::CheckGate, claimed: true, ..s }, QmtLiveAction::CheckGate)
}

/// The order sent to the bridge: the request id as client order id, the
/// symbol (else `unknown`) with its exchange suffix, the side (else
/// `unknown`), the quantity (else 0) and the price read.
pub open spec fn adapter_order_matches(o: QmtAdapterOrder, s: QmtLiveState) -> bool {
    let q = s.request->0;
    &&& o.client_order_id == q.request_id
    &&& o.symbol@ == bridge_symbol(text_or(q.symbol, "unknown"@))
    &&& o.side@ == text_or(q.side, "unknown"@)
    &&& o.quantity == (match q.quantity {
        Some(n) => n,
        None => 0,
    })
    &&& s.price == Some(o.price)
}

/// After the bridge readiness check: a bridge that is not ready has its
/// error recorded on the request with the matching diagnostics; else the
/// order is sent.
pub open spec fn after_gate(
    s: QmtLiveState,
    gate: Option<(QmtGateFailure, QuantixError)>,
    s2: QmtLiveState,
    a: QmtLiveAction,
) -> bool {
    let q = s.request->0;
    match gate {
        Some((kind, err)) => {
            &&& s2 == (QmtLiveState {
                stage: QmtLiveStage::RecordGateFailure,
                failure: Some(err),
                ..s
            })
            &&& a matches QmtLiveAction::RecordFailure { request_id, message, diagnostics }
                && request_id == q.request_id && message@ == err.message_text() && diagnostics
                == QmtFailureDiagnostics::Gate(kind)
        },
        None => {
            &&& s2 == (QmtLiveState { stage: QmtLiveStage::Submit, gate_passed: true, ..s })
            &&& a matches QmtLiveAction::Submit(o) && adapter_order_matches(o, s2)
        },
    }
}

fn on_gate(s: QmtLiveState, gate: Option<(QmtGateFailure, QuantixError)>) -> (r: (
    QmtLiveState,
    QmtLiveAction,
))
    requires
        s.request is Some,
        s.price is Some,
    ensures
        after_gate(s, gate, r.0, r.1),
{
    let request_id = match &s.request {
        Some(q) => q.request_id.clone(),
        None => String::new(),
    };
    match gate {
        Some((kind, err)) => {
            let message = err.message();
            (
                QmtLiveState { stage: QmtLiveStage::RecordGateFailure, failure: Some(err), ..s },
                QmtLiveAction::RecordFailure {
                    request_id,
                    message,
                    diagnostics: QmtFailureDiagnostics::Gate(kind),
                },
            )
        },
        None => {
            let (symbol, side, quantity) = match &s.request {
                Some(q) => (
                    string_or(&q.symbol, "unknown"),
                    string_or(&q.side, "unknown"),
                    match q.quantity {
                        Some(n) => n,
                        None => 0,
                    },
                ),
                None => (String::new(), String::new(), 0),
            };
            let price = match s.price {
                Some(d) => d,
                None => DecimalValue { mantissa: 0, scale: 0, negative: false },
            };
            let order = QmtAdapterOrder {
                client_order_id: request_id,
                symbol: normalize_symbol_for_bridge(symbol.as_str()),
                side,
                quantity,
                price,
            };
            (
                QmtLiveState { stage: QmtLiveStage::Submit, gate_passed: true, ..s },
                QmtLiveAction::Submit(order),
            )
        },
    }
}

/// After the submission: a refusal by the bridge has its text recorded on
/// the request without classification; an accepted order is recorded under
/// the signal's run with the bridge's task and local submission ids (symbol
/// as requested, else `unknown`; order type else `limit`).
pub open spec fn after_submitted(
    s: QmtLiveState,
    answer: Result<QmtLiveReceipt, String>,
    s2: QmtLiveState,
    a: QmtLiveAction,
) -> bool {
    let q = s.request->0;
    match answer {
        Err(text) => {
            &&& s2 == (QmtLiveState {
                stage: QmtLiveStage::RecordSubmitFailure,
                failure: Some(QuantixError::Other(text)),
                ..s
            })
            &&& a matches QmtLiveAction::RecordFailure { request_id, message, diagnostics }
                && request_id == q.request_id && message == text && diagnostics
                == QmtFailureDiagnostics::Unclassified
        },
        Ok(receipt) => {
            &&& s2 == (QmtLiveState {
                stage: QmtLiveStage::RecordOrder,
                receipt: Some(receipt),
                ..s
            })
            &&& a matches QmtLiveAction::RecordOrder {
                client_order_id,
                run_id,
                symbol,
                side,
                order_type,
                quantity,
                price,
                task_id,
                local_submission_id,
            } && client_order_id == q.request_id && s.signal_run_id == Some(run_id) && symbol@
                == text_or(q.symbol, "unknown"@) && side@ == text_or(q.side, "unknown"@) && order_type@
                == text_or(q.order_type, "limit"@) && quantity == (match q.quantity {
                Some(n) => n,
                None => 0,
            }) && s.price == Some(price) && task_id == receipt.task_id && local_submission_id
                == receipt.local_submission_id
        },
    }
}

fn on_submitted(s: QmtLiveState, answer: Result<QmtLiveReceipt, String>) -> (r: (
    QmtLiveState,
    QmtLiveAction,
))
    requires
        s.request is Some,
        s.price is Some,
        s.signal_run_id is Some,
    ensures
        after_submitted(s, answer, r.0, r.1),
{
    let request_id = match &s.request {
        Some(q) => q.request_id.clone(),
        None => String::new(),
    };
    match answer {
        Err(text) => {
            let message = text.clone();
            (
                QmtLiveState {
                    stage: QmtLiveStage::RecordSubmitFailure,
                    failure: Some(QuantixError::Other(text)),
                    ..s
                },
                QmtLiveAction::RecordFailure {
                    request_id,
                    message,
                    diagnostics: QmtFailureDiagnostics::Unclassified,
                },
            )
        },
        Ok(receipt) => {
            let (symbol, side, order_type, quantity) = match &s.request {
                Some(q) => (
                    string_or(&q.symbol, "unknown"),
                    string_or(&q.side, "unknown"),
                    string_or(&q.order_type, "limit"),
                    match q.quantity {
                        Some(n) => n,
                        None => 0,
                    },
                ),
                None => (String::new(), String::new(), String::new(), 0),
            };
            let price = match s.price {
                Some(d) => d,
                None => DecimalValue { mantissa: 0, scale: 0, negative: false },
            };
            let run_id = match &s.signal_run_id {
                Some(run) => run.clone(),
                None => String::new(),
            };
            let task_id = receipt.task_id.clone();
            let local_submission_id = copy_text(&receipt.local_submission_id);
            (
                QmtLiveState { stage: QmtLiveStage::RecordOrder, receipt: Some(receipt), ..s },
                QmtLiveAction::RecordOrder {
                    client_order_id: request_id,
                    run_id,
                    symbol,
                    side,
                    order_type,
                    quantity,
                    price,
                    task_id,
                    local_submission_id,
                },
            )
        },
    }
}

/// After the order is recorded: a failed metadata update of the existing
/// order is refused; else the request is completed with the task id.
pub open spec fn after_order_recorded(
    s: QmtLiveState,
    update_failed: Option<String>,
    s2: QmtLiveState,
    a: QmtLiveAction,
) -> bool {
    match update_failed {
        Some(order_id) => finished_with(
            s,
            s2,
            a,
            "related order qmt_live metadata 更新失败: "@ + order_id@,
        ),
        None => {
            &&& s2 == (QmtLiveState { stage: QmtLiveStage::Complete, ..s })
            &&& a matches QmtLiveAction::Complete { request_id, task_id } && request_id
                == s.request->0.request_id && task_id == s.receipt->0.task_id
        },
    }
}

fn on_order_recorded(s: QmtLiveState, update_failed: Option<String>) -> (r: (
    QmtLiveState,
    QmtLiveAction,
))
    requires
        s.request is Some,
        s.receipt is Some,
    ensures
        after_order_recorded(s, update_failed, r.0, r.1),
{
    match update_failed {
        Some(order_id) => {
            let mut m = "related order qmt_live metadata 更新失败: ".to_string();
            m.append(order_id.as_str());
            finish_error(s, m)
        },
        None => {
            let request_id = match &s.request {
                Some(q) => q.request_id.clone(),
                None => String::new(),
            };
            let task_id = match &s.receipt {
                Some(rc) => rc.task_id.clone(),
                None => String::new(),
            };
            (
                QmtLiveState { stage: QmtLiveStage::Complete, ..s },
                QmtLiveAction::Complete { request_id, task_id },
            )
        },
    }
}

/// After completion: a request that changed meanwhile is refused; else the
/// submission ends accepted, with the request id asked for and the receipt.
pub open spec fn after_completed(s: QmtLiveState, completed: bool, s2: QmtLiveState, a: QmtLiveAction) -> bool {
    if !completed {
        finished_with(s, s2, a, changed_message(s.request->0.request_id@))
    } else {
        &&& s2 == (QmtLiveState { stage: QmtLiveStage::Finished, ..s })
        &&& a matches QmtLiveAction::Finish(Ok(QmtLiveOutcome::Accepted { request_id, receipt }))
            && request_id == s.request_id && receipt == s.receipt->0
    }
}

fn copy_text(o: &Option<String>) -> (r: Option<String>)
    ensures
        r == *o,
{
    match o {
        Some(s) => Some(s.clone()),
        None => None,
    }
}

fn copy_receipt(rc: &QmtLiveReceipt) -> (r: QmtLiveReceipt)
    ensures
        r == *rc,
{
    QmtLiveReceipt {
        task_id: rc.task_id.clone(),
        local_submission_id: copy_text(&rc.local_submission_id),
        bridge_contract_version: copy_text(&rc.bridge_contract_version),
        source_name: copy_text(&rc.source_name),
    }
}

fn on_completed(s: QmtLiveState, completed: bool) -> (r: (QmtLiveState, QmtLiveAction))
    requires
        s.request is Some,
        s.receipt is Some,
    ensures
        after_completed(s, completed, r.0, r.1),
{
    if !completed {
        let mut m = "request 状态已变化: ".to_string();
        match &s.request {
            Some(q) => m.append(q.request_id.as_str()),
            None => {},
        }
        return finish_error(s, m);
    }
    let request_id = s.request_id.clone();
    let receipt = match &s.receipt {
        Some(rc) => copy_receipt(rc),
        None => QmtLiveReceipt {
            task_id: String::new(),
            local_submission_id: None,
            bridge_contract_version: None,
            source_name: None,
        },
    };
    (
        QmtLiveState { stage: QmtLiveStage::Finished, ..s },
        QmtLiveAction::Finish(Ok(QmtLiveOutcome::Accepted { request_id, receipt })),
    )
}

/// The step that follows the event in the state (see the `after_*`
/// functions, one per waiting step).
pub open spec fn qmt_live_next(s: QmtLiveState, e: QmtLiveEvent, s2: QmtLiveState, a: QmtLiveAction) -> bool {
    match e {
        QmtLiveEvent::RequestLoaded(loaded) => after_request_loaded(s, loaded, s2, a),
        QmtLiveEvent::KillSwitchChecked(block) => after_kill_switch(s, block, s2, a),
        QmtLiveEvent::FailureRecorded(recorded) => after_failure_recorded(s, recorded, s2, a),
        QmtLiveEvent::Confirmation(answer) => after_confirmation(s, answer, s2, a),
        QmtLiveEvent::AnswerUnread(err) => after_answer_unread(s, err, s2, a),
        QmtLiveEvent::OrderParsed { side_valid, order_type_valid } => after_order_parsed(
            s,
            side_valid,
            order_type_valid,
            s2,
            a,
        ),
        QmtLiveEvent::SignalLoaded(run_id) => after_signal_loaded(s, run_id, s2, a),
        QmtLiveEvent::Claimed(claimed) => after_claim(s, claimed, s2, a),
        QmtLiveEvent::GateChecked(gate) => after_gate(s, gate, s2, a),
        QmtLiveEvent::Submitted(answer) => after_submitted(s, answer, s2, a),
        QmtLiveEvent::OrderRecorded(update_failed) => after_order_recorded(s, update_failed, s2, a),
        QmtLiveEvent::Completed(completed) => after_completed(s, completed, s2, a),
    }
}

/// An order may leave only for a loaded, pending qmt_live request that no
/// kill switch blocks, that holds an order, that the operator confirmed,
/// that was claimed from pending, through a bridge ready for live orders,
/// and as the request asks (see `adapter_order_matches`).
pub open spec fn submission_allowed(s: QmtLiveState, o: QmtAdapterOrder) -> bool {
    &&& s.request matches Some(q) && q.pending && q.target_mode@ == "qmt_live"@ && q.has_snapshot
        && q.has_order_intent
    &&& s.kill_switch_clear
    &&& s.confirmed
    &&& s.claimed
    &&& s.gate_passed
    &&& adapter_order_matches(o, s)
}

/// The next step of a qmt_live submission, from its state and what the
/// outside answered to the step it waited on. Every state it gives keeps
/// `qmt_live_inv`, and an order is sent only when `submission_allowed`.
pub fn qmt_live_step(s: QmtLiveState, e: QmtLiveEvent) -> (r: (QmtLiveState, QmtLiveAction))
    requires
        qmt_live_inv(s),
        qmt_live_expects(s, e),
    ensures
        qmt_live_next(s, e, r.0, r.1),
        qmt_live_inv(r.0),
        r.1 matches QmtLiveAction::Submit(o) ==> submission_allowed(r.0, o),
{
    match e {
        QmtLiveEvent::RequestLoaded(loaded) => on_request_loaded(s, loaded),
        QmtLiveEvent::KillSwitchChecked(block) => on_kill_switch(s, block),
        QmtLiveEvent::FailureRecorded(recorded) => on_failure_recorded(s, recorded),
        QmtLiveEvent::Confirmation(answer) => on_confirmation(s, answer),
        QmtLiveEvent::AnswerUnread(err) => on_answer_unread(s, err),
        QmtLiveEvent::OrderParsed { side_valid, order_type_valid } => on_order_parsed(s, side_valid, order_type_valid),
        QmtLiveEvent::SignalLoaded(run_id) => on_signal_loaded(s, run_id),
        QmtLiveEvent::Claimed(claimed) => on_claim(s, claimed),
        QmtLiveEvent::GateChecked(gate) => on_gate(s, gate),
        QmtLiveEvent::Submitted(answer) => on_submitted(s, answer),
        QmtLiveEvent::OrderRecorded(update_failed) => on_order_recorded(s, update_failed),
        QmtLiveEvent::Completed(completed) => on_completed(s, completed),
    }
}

/// The record printed for an accepted submission: the request id asked
/// for, the bridge's task id as adapter order id, the order's first status
/// (`pending_submit`), and the bridge's local submission id, contract
/// version and source.
pub open spec fn accepted_document_spec(request_id: Seq<char>, rc: QmtLiveReceipt) -> Seq<
    (Seq<char>, MemberSpec),
> {
    seq![
        ("request_id"@, MemberSpec::Scalar(ScalarSpec::Text(request_id))),
        ("adapter_order_id"@, MemberSpec::Scalar(ScalarSpec::Text(rc.task_id@))),
        ("latest_status"@, MemberSpec::Scalar(ScalarSpec::Text("pending_submit"@))),
        ("local_submission_id"@, MemberSpec::Scalar(opt_text_scalar(rc.local_submission_id))),
        ("bridge_contract_version"@, MemberSpec::Scalar(opt_text_scalar(rc.bridge_contract_version))),
        ("source_name"@, MemberSpec::Scalar(opt_text_scalar(rc.source_name))),
    ]
}

fn scalar_member(key: &str, value: JsonScalar) -> (r: (String, JsonMember))
    ensures
        r.0@ == key@,
        r.1 == JsonMember::Scalar(value),
{
    (key.to_string(), JsonMember::Scalar(value))
}

/// The record of an accepted submission (see `accepted_document_spec`).
pub fn qmt_live_accepted_document(request_id: &str, rc: &QmtLiveReceipt) -> (r: JsonDocument)
    ensures
        document_view(r) == accepted_document_spec(request_id@, *rc),
{
    let mut members: Vec<(String, JsonMember)> = Vec::new();
    members.push(scalar_member("request_id", text_scalar(request_id)));
    members.push(scalar_member("adapter_order_id", text_scalar(rc.task_id.as_str())));
    members.push(scalar_member("latest_status", text_scalar("pending_submit")));
    members.push(scalar_member("local_submission_id", text_or_null(&rc.local_submission_id)));
    members.push(scalar_member("bridge_contract_version", text_or_null(&rc.bridge_contract_version)));
    members.push(scalar_member("source_name", text_or_null(&rc.source_name)));
    let r = JsonDocument { members };
    assert(document_view(r) =~= accepted_document_spec(request_id@, *rc));
    r
}

/// The acknowledgement printed before the record of an accepted submission.
pub open spec fn accepted_heading_text() -> Seq<char> {
    "\n✓ 订单提交任务已受理\n"@
}

/// The acknowledgement of an accepted submission.
pub fn render_qmt_live_accepted_heading() -> (r: String)
    ensures
        r@ == accepted_heading_text(),
{
    "\n✓ 订单提交任务已受理\n".to_string()
}

/// The reminder printed after the record: a completed request does not mean
/// a final order state, and where to follow the request.
pub open spec fn accepted_hint_text(request_id: Seq<char>) -> Seq<char> {
    "\n提示: request 可能会显示为 completed。\n      这只表示执行层已完成提交，不代表订单已经终态。\n      订单初始状态通常仍为 pending_submit，请继续跟踪后续收敛。\n\n查看 request 与后续收敛状态: quantix strategy request show "@
        + request_id + " --verbose\n"@
}

/// The reminder printed after the record of an accepted submission.
pub fn render_qmt_live_accepted_hint(request_id: &str) -> (r: String)
    ensures
        r@ == accepted_hint_text(request_id@),
{
    let mut out = "\n提示: request 可能会显示为 completed。\n      这只表示执行层已完成提交，不代表订单已经终态。\n      订单初始状态通常仍为 pending_submit，请继续跟踪后续收敛。\n\n查看 request 与后续收敛状态: quantix strategy request show ".to_string();
    out.append(request_id);
    out.append(" --verbose\n");
    out
}

/// The message when the preview is asked for a request of another mode.
pub open spec fn preview_mode_message(target_mode: Seq<char>) -> Seq<char> {
    "execution bridge qmt-preview 只支持 target_mode=qmt_live 的 request；当前 request target_mode="@
        + target_mode + "。如需预览 QMT 提交流程，请先创建 qmt_live request；通用 target_mode=live 仍未实现"@
}

/// `execution bridge qmt-preview` previews only existing qmt_live requests;
/// `target_mode` is the mode of the request found, if one was.
pub fn check_qmt_preview_request(request_id: &str, target_mode: Option<&str>) -> (r: Result<
    (),
    QuantixError,
>)
    ensures
        target_mode is None ==> (r matches Err(QuantixError::Other(m)) && m@ == "request 不存在: "@
            + request_id@),
        target_mode matches Some(mode) ==> if mode@ == "qmt_live"@ {
            r is Ok
        } else {
            r matches Err(QuantixError::Unsupported(m)) && m@ == preview_mode_message(mode@)
        },
{
    match target_mode {
        None => {
            let mut m = "request 不存在: ".to_string();
            m.append(request_id);
            Err(QuantixError::Other(m))
        },
        Some(mode) => {
            if str_eq(mode, "qmt_live") {
                Ok(())
            } else {
                let mut m = "execution bridge qmt-preview 只支持 target_mode=qmt_live 的 request；当前 request target_mode=".to_string();
                m.append(mode);
                m.append("。如需预览 QMT 提交流程，请先创建 qmt_live request；通用 target_mode=live 仍未实现");
                Err(QuantixError::Unsupported(m))
            }
        },
    }
}

/// The message when the bridge status cannot be read.
pub open spec fn bridge_status_message(err: Seq<char>) -> Seq<char> {
    "bridge status 查询失败: "@ + err
}

/// What `execution bridge status` does when the bridge's capabilities
/// cannot be read (`err`): with `--checklist` it still prints the preflight
/// report (`Ok`), else it fails.
pub fn bridge_status_failure(checklist: bool, err: &str) -> (r: Result<(), QuantixError>)
    ensures
        checklist ==> r is Ok,
        !checklist ==> (r matches Err(QuantixError::Other(m)) && m@ == bridge_status_message(err@)),
{
    if checklist {
        Ok(())
    } else {
        let mut m = "bridge status 查询失败: ".to_string();
        m.append(err);
        Err(QuantixError::Other(m))
    }
}

} // verus!
