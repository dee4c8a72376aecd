use quantix::commands::trade::{
    ExecutionBridgeCommands, ExecutionCommands, ExecutionConfigCommands, ExecutionQmtCommands,
};
use quantix::execution::{
    build_qmt_live_preflight_report, execution_action, qmt_cancel_confirmed, qmt_cancel_target,
    render_qmt_account_status, render_qmt_asset, render_qmt_cancel_prompt, render_qmt_cancel_result,
    render_qmt_positions, ExecutionAction, QmtAccountStatus, QmtAssetView, QmtCancelResponse, QmtPositionView, format_qmt_live_preflight_report, format_qmt_promotion_checklist,
    normalize_qmt_audit_lookup_value, normalize_symbol_for_bridge, order_submit_supported,
    qmt_manual_intervention_category, redact_account_label, should_fallback_from_task_result_lookup,
    BridgeError, ExecutionCapabilities, KillSwitchState, QmtAuditLookup, QmtBridgeCapability,
    QmtLivePreflightFailureCategory,
};

fn live_caps() -> ExecutionCapabilities {
    ExecutionCapabilities {
        channel: "qmt_live".to_string(),
        status_source: "broker".to_string(),
        fill_source: "broker".to_string(),
        cancel_semantics: "broker".to_string(),
    }
}

fn bridge(mode: &str, supports: &[&str]) -> QmtBridgeCapability {
    QmtBridgeCapability { enabled: true, mode: mode.to_string(), supports: supports.iter().map(|s| s.to_string()).collect() }
}

#[test]
fn preflight_is_ready_only_when_every_check_passes() {
    let cap = bridge("live", &["order_query", "order_submit"]);
    assert!(order_submit_supported(&cap));
    let report = build_qmt_live_preflight_report(Some(&cap), None, &live_caps(), None);
    assert!(report.ready);
    assert_eq!(report.failure_category, None);
    assert!(report.bridge_reachable);

    let killed = KillSwitchState { enabled: true, reason: Some("drill".to_string()) };
    let report = build_qmt_live_preflight_report(Some(&cap), None, &live_caps(), Some(&killed));
    assert!(!report.ready);
    assert_eq!(report.failure_category, Some(QmtLivePreflightFailureCategory::KillSwitchEnabled));
    assert_eq!(report.kill_switch_reason.as_deref(), Some("drill"));

    let report = build_qmt_live_preflight_report(Some(&bridge("mock", &["order_submit"])), None, &live_caps(), None);
    assert_eq!(report.failure_category, Some(QmtLivePreflightFailureCategory::QmtModeNotLive));
    let report = build_qmt_live_preflight_report(None, Some("refused"), &live_caps(), None);
    assert_eq!(report.failure_category, Some(QmtLivePreflightFailureCategory::BridgeUnreachable));
    assert!(!report.bridge_reachable);
    assert_eq!(report.bridge_error.as_deref(), Some("refused"));
}

#[test]
fn preflight_report_text() {
    let report = build_qmt_live_preflight_report(None, None, &live_caps(), None);
    let text = format_qmt_live_preflight_report(&report, Some("notice-v1"), None);
    assert_eq!(
        text,
        "QMT live preflight\nreadiness=not_ready\nfailure_category=qmt_capability_missing\nbridge_reachable=false\nbridge_contract_version=unknown\ncapability_source=bridge:/api/v1/capabilities\nrisk_notice=notice-v1\nstorage_namespace=unregistered\nkill_switch=disabled"
    );
}

#[test]
fn promotion_checklist_marks_each_check() {
    let text = format_qmt_promotion_checklist(&bridge("live", &[]), &live_caps(), None, Some("qmt"));
    let lines: Vec<&str> = text.lines().collect();
    assert_eq!(lines.len(), 16);
    assert_eq!(lines[0], "QMT promotion checklist");
    assert_eq!(lines[1], "[ok] bridge qmt.enabled=true");
    assert_eq!(lines[3], "[x] bridge qmt.supports 包含 order_submit");
    assert_eq!(lines[8], "[x] qmt_live risk_notice=unregistered");
    assert_eq!(lines[9], "[ok] qmt_live storage_namespace=qmt");
}

#[test]
fn adapter_properties_are_judged_by_their_names() {
    let mut caps = live_caps();
    caps.fill_source = "local".to_string();
    let cap = bridge("live", &["order_submit"]);
    let report = build_qmt_live_preflight_report(Some(&cap), None, &caps, None);
    assert!(!report.broker_fill_source);
    assert!(report.qmt_live_channel && report.broker_status_source && report.broker_cancel_semantics);
    assert_eq!(report.failure_category, Some(QmtLivePreflightFailureCategory::QmtLiveCapabilityMismatch));
    let text = format_qmt_promotion_checklist(&cap, &caps, None, None);
    let lines: Vec<&str> = text.lines().collect();
    assert_eq!(lines[4], "[ok] qmt_live adapter channel=qmt_live");
    assert_eq!(lines[6], "[x] qmt_live fill_source=local");
    caps.channel = "paper".to_string();
    assert!(!build_qmt_live_preflight_report(Some(&cap), None, &caps, None).qmt_live_channel);
}

#[test]
fn symbols_get_exchange_suffix_once() {
    assert_eq!(normalize_symbol_for_bridge("600519"), "600519.SH");
    assert_eq!(normalize_symbol_for_bridge("000001"), "000001.SZ");
    assert_eq!(normalize_symbol_for_bridge("600519.SH"), "600519.SH");
    assert_eq!(normalize_symbol_for_bridge(&normalize_symbol_for_bridge("300750")), "300750.SZ");
}

#[test]
fn task_lookup_fallback_errors() {
    assert!(should_fallback_from_task_result_lookup(&BridgeError::Http("502".to_string())));
    assert!(should_fallback_from_task_result_lookup(&BridgeError::UnsupportedMethod("x".to_string())));
    assert!(!should_fallback_from_task_result_lookup(&BridgeError::Other("x".to_string())));
}

#[test]
fn audit_lookups_need_exactly_one_value() {
    assert_eq!(normalize_qmt_audit_lookup_value(Some("  r1 ".to_string())), Some("r1".to_string()));
    assert_eq!(normalize_qmt_audit_lookup_value(Some("   ".to_string())), None);
    let lookup = QmtAuditLookup::from_cli(None, Some(" t1 ".to_string()), Some(" ".to_string())).unwrap();
    assert_eq!(lookup, QmtAuditLookup::Task("t1".to_string()));
    assert_eq!(lookup.lookup_type(), "task_id");
    assert_eq!(lookup.value(), "t1");
    let err = QmtAuditLookup::from_cli(Some("r".to_string()), Some("t".to_string()), None).unwrap_err();
    assert_eq!(
        err.message(),
        "execution qmt audit requires exactly one of --request-id, --task-id, or --local-submission-id"
    );
}

#[test]
fn account_labels_are_redacted() {
    assert_eq!(redact_account_label(" 12345678 "), "****5678");
    assert_eq!(redact_account_label("12345678901234567890"), "**************7890");
    assert_eq!(redact_account_label("paper-acc"), "paper-acc");
    assert_eq!(redact_account_label("1234567"), "1234567");
    assert_eq!(redact_account_label(&redact_account_label("998877665544")), "********5544");
}

#[test]
fn manual_intervention_categories() {
    assert_eq!(qmt_manual_intervention_category("paper", None, Some("broker_unknown_state"), None, None, false, false), None);
    assert_eq!(
        qmt_manual_intervention_category("qmt_live", None, None, None, Some("Bridge Failure at 10:00"), false, false),
        Some("bridge_failure_requires_operator_review")
    );
    assert_eq!(
        qmt_manual_intervention_category("paper", Some("qmt_live"), None, Some("preserved_local_state"), None, false, false),
        Some("reconciliation_preserved_local_state")
    );
    assert_eq!(
        qmt_manual_intervention_category("qmt_live", None, Some("manual_intervention_required"), None, Some("identity mismatch"), false, false),
        Some("identity_mismatch")
    );
}

#[test]
fn bridge_and_qmt_spellings_do_the_same() {
    let bridge = execution_action(ExecutionCommands::Bridge(ExecutionBridgeCommands::QmtLive {
        request_id: "req-1".to_string(),
        yes: true,
    }));
    let qmt = execution_action(ExecutionCommands::Qmt(ExecutionQmtCommands::Live {
        request_id: "req-1".to_string(),
        yes: true,
    }));
    assert_eq!(bridge, qmt);
    assert_eq!(bridge.unwrap(), ExecutionAction::QmtLive { request_id: "req-1".to_string(), yes: true });
    assert_eq!(
        execution_action(ExecutionCommands::Config(ExecutionConfigCommands::Show)).unwrap(),
        ExecutionAction::ConfigShow
    );
}

#[test]
fn audit_commands_read_one_lookup() {
    let audit = execution_action(ExecutionCommands::Qmt(ExecutionQmtCommands::Audit {
        request_id: None,
        task_id: Some("  task-9 ".to_string()),
        local_submission_id: Some("   ".to_string()),
    }));
    assert_eq!(audit.unwrap(), ExecutionAction::QmtAudit(QmtAuditLookup::Task("task-9".to_string())));
    let refused = execution_action(ExecutionCommands::Bridge(ExecutionBridgeCommands::QmtAudit {
        request_id: Some("a".to_string()),
        task_id: Some("b".to_string()),
        local_submission_id: None,
    }));
    assert!(refused.is_err());
    let manual = execution_action(ExecutionCommands::Qmt(ExecutionQmtCommands::ManualInterventions {
        action: "bogus".to_string(),
        request_id: None,
        task_id: None,
        local_submission_id: None,
    }));
    assert!(matches!(manual, Ok(ExecutionAction::QmtManualInterventions { .. })));
}

#[test]
fn cancel_target_follows_task_result() {
    assert_eq!(qmt_cancel_target("task-1", &Ok(Some("ext-9".to_string()))), Some(("ext-9".to_string(), true)));
    assert_eq!(qmt_cancel_target("task-1", &Ok(None)), Some(("task-1".to_string(), false)));
    assert_eq!(
        qmt_cancel_target("task-1", &Err(BridgeError::Http("503".to_string()))),
        Some(("task-1".to_string(), false))
    );
    assert_eq!(qmt_cancel_target("task-1", &Err(BridgeError::Other("bad".to_string()))), None);
}

#[test]
fn cancel_prompt_and_result() {
    assert_eq!(
        render_qmt_cancel_prompt("o-1"),
        "⚠️  确认撤销订单: o-1\n    输入 'YES' 确认撤单，其他任意键取消:\n"
    );
    assert!(qmt_cancel_confirmed(" YES\n"));
    assert!(!qmt_cancel_confirmed("yes"));
    let ok = QmtCancelResponse { success: true, order_id: "ext-9".to_string(), error_message: None };
    assert_eq!(render_qmt_cancel_result("task-1", "ext-9", true, &ok), "✓ 撤单成功: ext-9 (from task_id task-1)\n");
    assert_eq!(render_qmt_cancel_result("ext-9", "ext-9", false, &ok), "✓ 撤单成功: ext-9\n");
    let failed = QmtCancelResponse { success: false, order_id: String::new(), error_message: None };
    assert_eq!(render_qmt_cancel_result("o", "o", false, &failed), "✗ 撤单失败: 未知错误\n");
}

#[test]
fn qmt_account_asset_and_positions() {
    let status = QmtAccountStatus {
        adapter: "xtquant".to_string(),
        mode: "live".to_string(),
        sdk_available: true,
        connected: false,
        account_masked: Some("12****89".to_string()),
    };
    assert_eq!(
        render_qmt_account_status(&status),
        "账户状态\n─────────────────────────────────────\n  适配器:      xtquant\n  模式:        live\n  SDK 可用:   true\n  连接状态:    未连接\n  账户:        12****89\n"
    );
    let asset = QmtAssetView {
        total_asset: "1000.00".to_string(),
        cash: "400.00".to_string(),
        market_value: "600.00".to_string(),
        account_id: "A1".to_string(),
    };
    assert_eq!(
        render_qmt_asset(&asset),
        "资产信息\n─────────────────────────────────────\n  总资产:      1000.00\n  可用现金:    400.00\n  持仓市值:    600.00\n  账户 ID:    A1\n"
    );
    assert_eq!(render_qmt_positions(&Vec::new()), "当前无持仓\n");
    let ps = vec![QmtPositionView {
        symbol: "600519.SH".to_string(),
        volume: 200,
        available: 100,
        cost_price: Some("1500.00".to_string()),
        market_value: None,
    }];
    assert_eq!(
        render_qmt_positions(&ps),
        format!(
            "持仓列表\n{}\n{:<12} {:<10} {:<12} {:<12} {:<12}\n{}\n{:<12} {:<10} {:<12} {:<12} {:<12}\n",
            "─────────────────────────────────────────────────────────────────────────────────",
            "股票代码", "持仓", "可用", "成本价", "市值", "-".repeat(76),
            "600519.SH", 200, 100, "1500.00", "-"
        )
    );
}
