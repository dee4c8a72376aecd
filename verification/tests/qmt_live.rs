use quantix::decimal::DecimalValue;
use quantix::error::QuantixError;
use quantix::execution::KillSwitchState;
use quantix::json_doc::{JsonMember, JsonScalar};
use quantix::qmt_live::{
    bridge_status_failure, check_qmt_preview_request, qmt_live_start, qmt_live_step,
    qmt_live_accepted_document, render_qmt_live_accepted_heading, render_qmt_live_accepted_hint,
    render_qmt_live_confirmation, KillSwitchBlock, QmtFailureDiagnostics, QmtGateFailure, QmtLiveAction, QmtLiveEvent,
    QmtLiveOutcome, QmtLiveReceipt, QmtLiveRequest, QmtLiveStage,
};

fn live_request() -> QmtLiveRequest {
    QmtLiveRequest {
        request_id: "req-1".to_string(),
        signal_id: "sig-1".to_string(),
        pending: true,
        target_mode: "qmt_live".to_string(),
        has_snapshot: true,
        has_order_intent: true,
        symbol: Some("600519".to_string()),
        side: Some("buy".to_string()),
        quantity: Some(100),
        price: Some("1500.50".to_string()),
        strategy_name: Some("ma_cross".to_string()),
        order_type: None,
    }
}

fn receipt() -> QmtLiveReceipt {
    QmtLiveReceipt {
        task_id: "task-9".to_string(),
        local_submission_id: Some("local-9".to_string()),
        bridge_contract_version: None,
        source_name: None,
    }
}

fn finish_message(action: QmtLiveAction) -> String {
    match action {
        QmtLiveAction::Finish(Err(e)) => e.message(),
        other => panic!("unexpected action: {:?}", other),
    }
}

#[test]
fn accepted_submission_walks_every_step() {
    let (s, a) = qmt_live_start("req-1".to_string(), false);
    assert_eq!(a, QmtLiveAction::LoadRequest("req-1".to_string()));
    let (s, a) = qmt_live_step(s, QmtLiveEvent::RequestLoaded(Some(live_request())));
    assert_eq!(a, QmtLiveAction::CheckKillSwitch("qmt_live".to_string()));
    let (s, a) = qmt_live_step(s, QmtLiveEvent::KillSwitchChecked(None));
    match &a {
        QmtLiveAction::Confirm { summary, ask } => {
            assert!(*ask);
            assert!(summary.contains("  股票代码:    600519\n"));
            assert!(summary.contains("  数量:        100 股\n"));
            assert!(summary.contains("输入 'YES' 确认下单"));
        }
        other => panic!("unexpected action: {:?}", other),
    }
    let (s, a) = qmt_live_step(s, QmtLiveEvent::Confirmation(Some(" YES\n".to_string())));
    assert_eq!(a, QmtLiveAction::ParseOrder { side: "buy".to_string(), order_type: "limit".to_string() });
    let (s, a) = qmt_live_step(s, QmtLiveEvent::OrderParsed { side_valid: true, order_type_valid: true });
    assert_eq!(a, QmtLiveAction::LoadSignal("sig-1".to_string()));
    let (s, a) = qmt_live_step(s, QmtLiveEvent::SignalLoaded(Some("run-7".to_string())));
    assert_eq!(a, QmtLiveAction::Claim("req-1".to_string()));
    let (s, a) = qmt_live_step(s, QmtLiveEvent::Claimed(true));
    assert_eq!(a, QmtLiveAction::CheckGate);
    let (s, a) = qmt_live_step(s, QmtLiveEvent::GateChecked(None));
    match &a {
        QmtLiveAction::Submit(order) => {
            assert_eq!(order.client_order_id, "req-1");
            assert_eq!(order.symbol, "600519.SH");
            assert_eq!(order.quantity, 100);
            assert_eq!(order.price, DecimalValue { mantissa: 150050, scale: 2, negative: false });
        }
        other => panic!("unexpected action: {:?}", other),
    }
    let (s, a) = qmt_live_step(s, QmtLiveEvent::Submitted(Ok(receipt())));
    match &a {
        QmtLiveAction::RecordOrder { task_id, symbol, run_id, order_type, local_submission_id, client_order_id, .. } => {
            assert_eq!(task_id, "task-9");
            assert_eq!(symbol, "600519");
            assert_eq!(run_id, "run-7");
            assert_eq!(order_type, "limit");
            assert_eq!(local_submission_id, &Some("local-9".to_string()));
            assert_eq!(client_order_id, "req-1");
        }
        other => panic!("unexpected action: {:?}", other),
    }
    let (s, a) = qmt_live_step(s, QmtLiveEvent::OrderRecorded(None));
    assert_eq!(a, QmtLiveAction::Complete { request_id: "req-1".to_string(), task_id: "task-9".to_string() });
    let (s, a) = qmt_live_step(s, QmtLiveEvent::Completed(true));
    assert_eq!(s.stage, QmtLiveStage::Finished);
    assert_eq!(
        a,
        QmtLiveAction::Finish(Ok(QmtLiveOutcome::Accepted { request_id: "req-1".to_string(), receipt: receipt() }))
    );
}

#[test]
fn request_checks_refuse_before_anything_is_sent() {
    let (s, _) = qmt_live_start("req-x".to_string(), true);
    let (_, a) = qmt_live_step(s, QmtLiveEvent::RequestLoaded(None));
    assert_eq!(finish_message(a), "request 不存在: req-x");

    let mut done = live_request();
    done.pending = false;
    let (s, _) = qmt_live_start("req-1".to_string(), true);
    let (_, a) = qmt_live_step(s, QmtLiveEvent::RequestLoaded(Some(done)));
    assert_eq!(finish_message(a), "request 不是 pending: req-1");

    let mut paper = live_request();
    paper.target_mode = "paper".to_string();
    let (s, _) = qmt_live_start("req-1".to_string(), true);
    let (_, a) = qmt_live_step(s, QmtLiveEvent::RequestLoaded(Some(paper)));
    assert_eq!(finish_message(a), "request target_mode 不是 qmt_live: paper");
}

#[test]
fn kill_switch_block_is_recorded_then_reported() {
    let (s, _) = qmt_live_start("req-1".to_string(), true);
    let (s, _) = qmt_live_step(s, QmtLiveEvent::RequestLoaded(Some(live_request())));
    let state = KillSwitchState { enabled: true, reason: Some("maintenance".to_string()) };
    let block = KillSwitchBlock { state: state.clone(), message: "kill switch on".to_string() };
    let (s, a) = qmt_live_step(s, QmtLiveEvent::KillSwitchChecked(Some(block)));
    assert_eq!(
        a,
        QmtLiveAction::RecordKillSwitchBlock {
            request_id: "req-1".to_string(),
            adapter: "qmt_live".to_string(),
            message: "kill switch on".to_string(),
            kill_switch: state,
            diagnostics: QmtFailureDiagnostics::KillSwitchBlocked("qmt_live".to_string()),
        }
    );
    assert!(!s.confirmed && !s.claimed);
    let (_, a) = qmt_live_step(s, QmtLiveEvent::FailureRecorded(true));
    assert_eq!(finish_message(a), "kill switch on");
}

#[test]
fn other_answers_cancel_and_skip_confirm_does_not_ask() {
    let (s, _) = qmt_live_start("req-1".to_string(), false);
    let (s, _) = qmt_live_step(s, QmtLiveEvent::RequestLoaded(Some(live_request())));
    let (s, _) = qmt_live_step(s, QmtLiveEvent::KillSwitchChecked(None));
    let (s, a) = qmt_live_step(s, QmtLiveEvent::Confirmation(Some("yes".to_string())));
    assert_eq!(a, QmtLiveAction::Finish(Ok(QmtLiveOutcome::Cancelled)));
    assert!(!s.claimed);

    let (s, _) = qmt_live_start("req-1".to_string(), true);
    let (s, _) = qmt_live_step(s, QmtLiveEvent::RequestLoaded(Some(live_request())));
    let (s, a) = qmt_live_step(s, QmtLiveEvent::KillSwitchChecked(None));
    assert!(matches!(a, QmtLiveAction::Confirm { ask: false, .. }));
    let (_, a) = qmt_live_step(s, QmtLiveEvent::Confirmation(None));
    assert!(matches!(a, QmtLiveAction::ParseOrder { .. }));
}

#[test]
fn gate_failure_is_recorded_with_its_diagnostics() {
    let (s, _) = qmt_live_start("req-1".to_string(), true);
    let (s, _) = qmt_live_step(s, QmtLiveEvent::RequestLoaded(Some(live_request())));
    let (s, _) = qmt_live_step(s, QmtLiveEvent::KillSwitchChecked(None));
    let (s, _) = qmt_live_step(s, QmtLiveEvent::Confirmation(None));
    let (s, _) = qmt_live_step(s, QmtLiveEvent::OrderParsed { side_valid: true, order_type_valid: true });
    let (s, _) = qmt_live_step(s, QmtLiveEvent::SignalLoaded(Some("run-7".to_string())));
    let (s, _) = qmt_live_step(s, QmtLiveEvent::Claimed(true));
    let (s, a) = qmt_live_step(
        s,
        QmtLiveEvent::GateChecked(Some((QmtGateFailure::CapabilityDisabled, QuantixError::Other("qmt disabled".to_string())))),
    );
    assert_eq!(
        a,
        QmtLiveAction::RecordFailure {
            request_id: "req-1".to_string(),
            message: "qmt disabled".to_string(),
            diagnostics: QmtFailureDiagnostics::Gate(QmtGateFailure::CapabilityDisabled),
        }
    );
    let (_, a) = qmt_live_step(s, QmtLiveEvent::FailureRecorded(false));
    assert_eq!(finish_message(a), "request 状态已变化: req-1");
}

#[test]
fn invalid_order_fields_are_refused() {
    let start = || {
        let (s, _) = qmt_live_start("req-1".to_string(), true);
        let (s, _) = qmt_live_step(s, QmtLiveEvent::RequestLoaded(Some(live_request())));
        let (s, _) = qmt_live_step(s, QmtLiveEvent::KillSwitchChecked(None));
        let (s, _) = qmt_live_step(s, QmtLiveEvent::Confirmation(None));
        s
    };
    let (_, a) = qmt_live_step(start(), QmtLiveEvent::OrderParsed { side_valid: false, order_type_valid: true });
    assert_eq!(finish_message(a), "request 包含无效 side: buy");
    let (_, a) = qmt_live_step(start(), QmtLiveEvent::OrderParsed { side_valid: true, order_type_valid: false });
    assert_eq!(finish_message(a), "request 包含无效 order_type: limit");
}

#[test]
fn confirmation_text_without_question() {
    let text = render_qmt_live_confirmation(&live_request(), false);
    assert!(text.starts_with(&format!("{}\n⚠️  实盘下单确认\n", "═".repeat(67))));
    assert!(text.ends_with("  策略名称:    ma_cross\n\n"));
}

#[test]
fn preview_and_status_checks() {
    assert!(check_qmt_preview_request("r", Some("qmt_live")).is_ok());
    assert_eq!(check_qmt_preview_request("r", None).unwrap_err().message(), "request 不存在: r");
    assert!(matches!(check_qmt_preview_request("r", Some("live")), Err(QuantixError::Unsupported(_))));
    assert!(bridge_status_failure(true, "timeout").is_ok());
    assert_eq!(bridge_status_failure(false, "timeout").unwrap_err().message(), "bridge status 查询失败: timeout");
}

#[test]
fn missing_signal_is_refused_before_the_claim() {
    let (s, _) = qmt_live_start("req-1".to_string(), true);
    let (s, _) = qmt_live_step(s, QmtLiveEvent::RequestLoaded(Some(live_request())));
    let (s, _) = qmt_live_step(s, QmtLiveEvent::KillSwitchChecked(None));
    let (s, _) = qmt_live_step(s, QmtLiveEvent::Confirmation(None));
    let (s, _) = qmt_live_step(s, QmtLiveEvent::OrderParsed { side_valid: true, order_type_valid: true });
    let (s, a) = qmt_live_step(s, QmtLiveEvent::SignalLoaded(None));
    assert_eq!(finish_message(a), "signal 不存在: sig-1");
    assert_eq!(s.stage, QmtLiveStage::Finished);
    assert!(!s.claimed);
}

#[test]
fn unreadable_answer_ends_the_submission_with_its_error() {
    let (s, _) = qmt_live_start("req-1".to_string(), false);
    let (s, _) = qmt_live_step(s, QmtLiveEvent::RequestLoaded(Some(live_request())));
    let (s, _) = qmt_live_step(s, QmtLiveEvent::KillSwitchChecked(None));
    let err = QuantixError::Other("stdin closed".to_string());
    let (s, a) = qmt_live_step(s, QmtLiveEvent::AnswerUnread(err.clone()));
    assert_eq!(a, QmtLiveAction::Finish(Err(err)));
    assert_eq!(s.stage, QmtLiveStage::Finished);
    assert!(!s.confirmed && !s.claimed);
}

#[test]
fn accepted_submission_text() {
    let doc = qmt_live_accepted_document("req-1", &receipt());
    let mut map = serde_json::Map::new();
    for (key, member) in &doc.members {
        let value = match member {
            JsonMember::Scalar(JsonScalar::Null) => serde_json::Value::Null,
            JsonMember::Scalar(JsonScalar::Text(t)) => serde_json::Value::String(t.clone()),
            other => panic!("unexpected member: {:?}", other),
        };
        map.insert(key.clone(), value);
    }
    let text = format!(
        "{}{}\n{}",
        render_qmt_live_accepted_heading(),
        serde_json::to_string_pretty(&serde_json::Value::Object(map)).unwrap(),
        render_qmt_live_accepted_hint("req-1")
    );
    assert_eq!(
        text,
        "\n✓ 订单提交任务已受理\n{\n  \"adapter_order_id\": \"task-9\",\n  \"bridge_contract_version\": null,\n  \"latest_status\": \"pending_submit\",\n  \"local_submission_id\": \"local-9\",\n  \"request_id\": \"req-1\",\n  \"source_name\": null\n}\n\n提示: request 可能会显示为 completed。\n      这只表示执行层已完成提交，不代表订单已经终态。\n      订单初始状态通常仍为 pending_submit，请继续跟踪后续收敛。\n\n查看 request 与后续收敛状态: quantix strategy request show req-1 --verbose\n"
    );
}

#[test]
fn recorded_gate_failure_reports_the_gate_error_as_it_is() {
    let (s, _) = qmt_live_start("req-1".to_string(), true);
    let (s, _) = qmt_live_step(s, QmtLiveEvent::RequestLoaded(Some(live_request())));
    let (s, _) = qmt_live_step(s, QmtLiveEvent::KillSwitchChecked(None));
    let (s, _) = qmt_live_step(s, QmtLiveEvent::Confirmation(None));
    let (s, _) = qmt_live_step(s, QmtLiveEvent::OrderParsed { side_valid: true, order_type_valid: true });
    let (s, _) = qmt_live_step(s, QmtLiveEvent::SignalLoaded(Some("run-7".to_string())));
    let (s, _) = qmt_live_step(s, QmtLiveEvent::Claimed(true));
    let err = QuantixError::Unsupported("bridge qmt mode is mock".to_string());
    let (s, a) = qmt_live_step(
        s,
        QmtLiveEvent::GateChecked(Some((QmtGateFailure::ModeNotLive("mock".to_string()), err.clone()))),
    );
    assert_eq!(
        a,
        QmtLiveAction::RecordFailure {
            request_id: "req-1".to_string(),
            message: "bridge qmt mode is mock".to_string(),
            diagnostics: QmtFailureDiagnostics::Gate(QmtGateFailure::ModeNotLive("mock".to_string())),
        }
    );
    let (s, a) = qmt_live_step(s, QmtLiveEvent::FailureRecorded(true));
    assert_eq!(a, QmtLiveAction::Finish(Err(err)));
    assert_eq!(s.stage, QmtLiveStage::Finished);
}

#[test]
fn refused_submission_is_recorded_unclassified() {
    let (s, _) = qmt_live_start("req-1".to_string(), true);
    let (s, _) = qmt_live_step(s, QmtLiveEvent::RequestLoaded(Some(live_request())));
    let (s, _) = qmt_live_step(s, QmtLiveEvent::KillSwitchChecked(None));
    let (s, _) = qmt_live_step(s, QmtLiveEvent::Confirmation(None));
    let (s, _) = qmt_live_step(s, QmtLiveEvent::OrderParsed { side_valid: true, order_type_valid: true });
    let (s, _) = qmt_live_step(s, QmtLiveEvent::SignalLoaded(Some("run-7".to_string())));
    let (s, _) = qmt_live_step(s, QmtLiveEvent::Claimed(true));
    let (s, _) = qmt_live_step(s, QmtLiveEvent::GateChecked(None));
    let (s, a) = qmt_live_step(s, QmtLiveEvent::Submitted(Err("bridge timeout".to_string())));
    assert_eq!(
        a,
        QmtLiveAction::RecordFailure {
            request_id: "req-1".to_string(),
            message: "bridge timeout".to_string(),
            diagnostics: QmtFailureDiagnostics::Unclassified,
        }
    );
    let (_, a) = qmt_live_step(s, QmtLiveEvent::FailureRecorded(true));
    assert_eq!(a, QmtLiveAction::Finish(Err(QuantixError::Other("bridge timeout".to_string()))));
}
