use quantix::audit_json::qmt_audit_document;
use quantix::json_doc::{JsonDocument, JsonMember, JsonScalar};
use quantix::execution::QmtAuditLookup;
use quantix::qmt_audit::{
    build_execution_bridge_qmt_audit_output, build_execution_bridge_qmt_manual_intervention_show_output,
    build_execution_bridge_qmt_manual_interventions_list_output, build_qmt_manual_intervention_case,
    i64_path, parse_manual_intervention_action, qmt_manual_intervention_operator_guidance,
    resolve_qmt_audit_record, string_path, value_as_audit_string, JsonLeaf, QmtManualInterventionAction,
    QmtOrderRecord, QmtRequestPayload, QmtRequestRecord,
};

fn scalar_value(s: &JsonScalar) -> serde_json::Value {
    match s {
        JsonScalar::Null => serde_json::Value::Null,
        JsonScalar::Bool(b) => serde_json::Value::Bool(*b),
        JsonScalar::Int(n) => serde_json::Value::from(*n),
        JsonScalar::Text(t) => serde_json::Value::String(t.clone()),
    }
}

fn document_value(doc: &JsonDocument) -> serde_json::Value {
    let mut map = serde_json::Map::new();
    for (key, member) in &doc.members {
        let value = match member {
            JsonMember::Scalar(s) => scalar_value(s),
            JsonMember::Object(fields) => {
                let mut inner = serde_json::Map::new();
                for (k, v) in fields {
                    inner.insert(k.clone(), scalar_value(v));
                }
                serde_json::Value::Object(inner)
            }
        };
        map.insert(key.clone(), value);
    }
    serde_json::Value::Object(map)
}

fn render_qmt_audit_json(out: &quantix::qmt_audit::QmtAuditOutput) -> String {
    serde_json::to_string_pretty(&document_value(&qmt_audit_document(out))).unwrap()
}

fn text(s: &str) -> Option<JsonLeaf> {
    Some(JsonLeaf::Text(s.to_string()))
}

fn payload() -> QmtRequestPayload {
    QmtRequestPayload {
        snapshot_symbol: text("600519"),
        intent_side: text("buy"),
        intent_quantity: Some(JsonLeaf::Number { text: "100".to_string(), as_i64: Some(100) }),
        intent_order_type: text("limit"),
        intent_price: text("1500.00"),
        result_client_order_id: None,
        result_adapter_order_id: None,
        result_external_order_id: None,
        result_local_submission_id: None,
        result_bridge_contract_version: None,
        failure_category: None,
    }
}

fn request(id: &str, mode: &str) -> QmtRequestRecord {
    QmtRequestRecord {
        request_id: id.to_string(),
        target_mode: mode.to_string(),
        target_account: " 1234567890 ".to_string(),
        payload: payload(),
    }
}

fn order(client: &str, task: Option<&str>, action: Option<&str>) -> QmtOrderRecord {
    QmtOrderRecord {
        client_order_id: client.to_string(),
        symbol: "600519".to_string(),
        side: "buy".to_string(),
        requested_quantity: 200,
        order_type: "limit".to_string(),
        requested_price: "1500".to_string(),
        adapter: "qmt_live".to_string(),
        task_id: task.and_then(text),
        local_submission_id: text(&format!("local-{client}")),
        external_order_id: None,
        bridge_contract_version: Some(JsonLeaf::Number { text: "2".to_string(), as_i64: Some(2) }),
        reconciliation_last_action: action.and_then(text),
        reconciliation_last_error: None,
    }
}

#[test]
fn audit_values_render_scalars() {
    assert_eq!(value_as_audit_string(&JsonLeaf::Text("a".to_string())), Some("a".to_string()));
    assert_eq!(value_as_audit_string(&JsonLeaf::Text(String::new())), None);
    assert_eq!(value_as_audit_string(&JsonLeaf::Bool(true)), Some("true".to_string()));
    assert_eq!(value_as_audit_string(&JsonLeaf::Null), None);
    assert_eq!(string_path(&None), None);
    assert_eq!(i64_path(&Some(JsonLeaf::Number { text: "1.5".to_string(), as_i64: None })), None);
    assert_eq!(i64_path(&Some(JsonLeaf::Text("7".to_string()))), None);
}

#[test]
fn audit_by_request_prefers_order_facts() {
    let requests = vec![request("r1", "qmt_live")];
    let orders = vec![order("r1", Some("t1"), Some("manual_intervention"))];
    let lookup = QmtAuditLookup::Request("r1".to_string());
    assert_eq!(resolve_qmt_audit_record(&requests, &orders, &lookup).unwrap(), (0, Some(0)));
    let out = build_execution_bridge_qmt_audit_output(&requests, &orders, &lookup).unwrap();
    assert_eq!(out.lookup_type, "request_id");
    assert_eq!(out.redacted_account_label, "******7890");
    assert_eq!(out.quantity, Some(200));
    assert_eq!(out.task_id.as_deref(), Some("t1"));
    assert_eq!(out.local_submission_id.as_deref(), Some("local-r1"));
    assert_eq!(out.bridge_contract_version.as_deref(), Some("2"));
    assert!(out.manual_intervention_marker);
}

#[test]
fn audit_without_order_falls_back_to_request_payload() {
    let requests = vec![request("r2", "qmt_live")];
    let out = build_execution_bridge_qmt_audit_output(&requests, &vec![], &QmtAuditLookup::Request("r2".to_string())).unwrap();
    assert_eq!(out.symbol.as_deref(), Some("600519"));
    assert_eq!(out.quantity, Some(100));
    assert_eq!(out.price_intent.as_deref(), Some("1500.00"));
    assert_eq!(out.local_submission_id, None);
    assert!(!out.manual_intervention_marker);
}

#[test]
fn audit_lookup_refusals() {
    let requests = vec![request("r1", "qmt_live")];
    let orders = vec![order("r9", Some("t9"), None)];
    let missing = resolve_qmt_audit_record(&requests, &orders, &QmtAuditLookup::Request("nope".to_string())).unwrap_err();
    assert_eq!(missing.message(), "request 不存在: nope");
    let orphan = resolve_qmt_audit_record(&requests, &orders, &QmtAuditLookup::Task("t9".to_string())).unwrap_err();
    assert_eq!(orphan.message(), "qmt_live task_id=t9 对应 request 不存在: r9");
    let unknown = resolve_qmt_audit_record(&requests, &orders, &QmtAuditLookup::Task("t0".to_string())).unwrap_err();
    assert_eq!(unknown.message(), "qmt_live task_id 不存在: t0");
    let sub = resolve_qmt_audit_record(&requests, &orders, &QmtAuditLookup::LocalSubmission("x".to_string())).unwrap_err();
    assert_eq!(sub.message(), "qmt_live local_submission_id 不存在: x");
}

#[test]
fn task_lookup_falls_back_to_request_result() {
    let mut r = request("r3", "qmt_live");
    r.payload.result_adapter_order_id = text("t3");
    let requests = vec![request("r1", "qmt_live"), r];
    assert_eq!(
        resolve_qmt_audit_record(&requests, &vec![], &QmtAuditLookup::Task("t3".to_string())).unwrap(),
        (1, None)
    );
}

#[test]
fn manual_intervention_cases_are_listed_by_category_then_request() {
    let mut broker = request("r-b", "qmt_live");
    broker.payload.failure_category = text("broker_unknown_state");
    let mut bridge = request("r-a", "qmt_live");
    bridge.payload.failure_category = text("bridge_failure");
    let mut bridge2 = request("r-0", "qmt_live");
    bridge2.payload.failure_category = text("bridge_failure");
    let quiet = request("r-q", "qmt_live");
    let paper = request("r-p", "paper");
    let requests = vec![broker, bridge, quiet, bridge2, paper];
    let cases = build_execution_bridge_qmt_manual_interventions_list_output(&requests, &vec![]);
    let keys: Vec<(&str, &str)> = cases.iter().map(|c| (c.category.as_str(), c.request_id.as_str())).collect();
    assert_eq!(
        keys,
        vec![
            ("bridge_failure_requires_operator_review", "r-0"),
            ("bridge_failure_requires_operator_review", "r-a"),
            ("broker_unknown_state", "r-b"),
        ]
    );
    assert_eq!(cases[0].redacted_account_label, "******7890");
}

#[test]
fn case_of_missing_external_order_id() {
    let r = request("r5", "qmt_live");
    let o = order("r5", Some("t5"), Some("manual_intervention"));
    let case = build_qmt_manual_intervention_case(&r, Some(&o)).unwrap();
    assert_eq!(case.category, "missing_external_order_id_after_bridge_task_completion");
    assert_eq!(case.task_id.as_deref(), Some("t5"));
    assert_eq!(case.reconciliation_decision.as_deref(), Some("manual_intervention"));
    assert!(build_qmt_manual_intervention_case(&request("r6", "qmt_live"), None).is_none());
    assert_eq!(qmt_manual_intervention_operator_guidance().len(), 3);
}

#[test]
fn show_finds_case_and_audit() {
    let r = request("r5", "qmt_live");
    let o = order("r5", Some("t5"), Some("manual_intervention"));
    let show = build_execution_bridge_qmt_manual_intervention_show_output(
        &vec![r],
        &vec![o],
        &QmtAuditLookup::Task("t5".to_string()),
    )
    .unwrap();
    assert_eq!(show.manual_intervention.request_id, "r5");
    assert_eq!(show.audit.lookup_type, "task_id");
    let err = build_execution_bridge_qmt_manual_intervention_show_output(
        &vec![request("r7", "qmt_live")],
        &vec![],
        &QmtAuditLookup::Request("r7".to_string()),
    )
    .unwrap_err();
    assert_eq!(err.message(), "qmt_live manual intervention 不存在: request_id=r7");
}

#[test]
fn manual_intervention_actions() {
    assert_eq!(
        parse_manual_intervention_action(" list ", None, None, None).unwrap(),
        QmtManualInterventionAction::List
    );
    assert_eq!(
        parse_manual_intervention_action("list", Some("r".to_string()), None, None).unwrap_err().message(),
        "execution qmt manual-interventions list does not accept lookup flags"
    );
    assert_eq!(
        parse_manual_intervention_action("show", None, Some(" t1 ".to_string()), None).unwrap(),
        QmtManualInterventionAction::Show(QmtAuditLookup::Task("t1".to_string()))
    );
    assert_eq!(
        parse_manual_intervention_action("purge", None, None, None).unwrap_err().message(),
        "unsupported qmt_live manual-interventions action: purge; expected list or show"
    );
}

#[test]
fn audit_document_is_pretty_json_with_sorted_members() {
    let requests = vec![request("r2", "qmt_live")];
    let out = build_execution_bridge_qmt_audit_output(&requests, &vec![], &QmtAuditLookup::Request("r2".to_string())).unwrap();
    let expected = "{\n  \"lookup\": {\n    \"type\": \"request_id\",\n    \"value\": \"r2\"\n  },\n  \"order\": {\n    \"order_type\": \"limit\",\n    \"price_intent\": \"1500.00\",\n    \"quantity\": 100,\n    \"side\": \"buy\",\n    \"symbol\": \"600519\"\n  },\n  \"qmt_live\": {\n    \"bridge_contract_version\": null,\n    \"client_order_id\": null,\n    \"external_order_id\": null,\n    \"local_submission_id\": null,\n    \"manual_intervention_marker\": false,\n    \"qmt_live_error_category\": null,\n    \"reconciliation_decision\": null,\n    \"task_id\": null\n  },\n  \"request\": {\n    \"redacted_account_label\": \"******7890\",\n    \"request_id\": \"r2\",\n    \"target_account_raw\": null,\n    \"target_mode\": \"qmt_live\"\n  }\n}";
    assert_eq!(render_qmt_audit_json(&out), expected);
}

#[test]
fn audit_document_escapes_strings() {
    let requests = vec![request("r\"1\\\n", "qmt_live")];
    let orders = vec![order("r\"1\\\n", Some("t\u{1}"), Some("manual_intervention"))];
    let out = build_execution_bridge_qmt_audit_output(&requests, &orders, &QmtAuditLookup::Request("r\"1\\\n".to_string())).unwrap();
    let text = render_qmt_audit_json(&out);
    assert!(text.contains("    \"request_id\": \"r\\\"1\\\\\\n\",\n"));
    assert!(text.contains("    \"task_id\": \"t\\u0001\"\n"));
    assert!(text.contains("    \"manual_intervention_marker\": true,\n"));
    assert!(text.contains("    \"quantity\": 200,\n"));
}

fn opt_str(v: &Option<String>) -> serde_json::Value {
    match v {
        Some(s) => serde_json::Value::String(s.clone()),
        None => serde_json::Value::Null,
    }
}

fn object(members: Vec<(&str, serde_json::Value)>) -> serde_json::Value {
    let mut map = serde_json::Map::new();
    for (k, v) in members {
        map.insert(k.to_string(), v);
    }
    serde_json::Value::Object(map)
}

#[test]
fn audit_document_holds_the_audit_members() {
    let requests = vec![request("r\"1\\\t", "qmt_live")];
    let orders = vec![order("r\"1\\\t", Some("t\u{1f}é"), Some("manual_intervention"))];
    let out = build_execution_bridge_qmt_audit_output(&requests, &orders, &QmtAuditLookup::Request("r\"1\\\t".to_string())).unwrap();
    let value = object(vec![
        ("lookup", object(vec![
            ("type", serde_json::Value::String(out.lookup_type.clone())),
            ("value", serde_json::Value::String(out.lookup_value.clone())),
        ])),
        ("request", object(vec![
            ("request_id", serde_json::Value::String(out.request_id.clone())),
            ("target_mode", serde_json::Value::String(out.target_mode.clone())),
            ("redacted_account_label", serde_json::Value::String(out.redacted_account_label.clone())),
            ("target_account_raw", serde_json::Value::Null),
        ])),
        ("order", object(vec![
            ("symbol", opt_str(&out.symbol)),
            ("side", opt_str(&out.side)),
            ("quantity", match out.quantity { Some(n) => serde_json::Value::from(n), None => serde_json::Value::Null }),
            ("order_type", opt_str(&out.order_type)),
            ("price_intent", opt_str(&out.price_intent)),
        ])),
        ("qmt_live", object(vec![
            ("local_submission_id", opt_str(&out.local_submission_id)),
            ("client_order_id", opt_str(&out.client_order_id)),
            ("task_id", opt_str(&out.task_id)),
            ("external_order_id", opt_str(&out.external_order_id)),
            ("bridge_contract_version", opt_str(&out.bridge_contract_version)),
            ("qmt_live_error_category", opt_str(&out.qmt_live_error_category)),
            ("reconciliation_decision", opt_str(&out.reconciliation_decision)),
            ("manual_intervention_marker", serde_json::Value::Bool(out.manual_intervention_marker)),
        ])),
    ]);
    assert_eq!(document_value(&qmt_audit_document(&out)), value);
}
