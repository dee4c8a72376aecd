//! Audit of qmt_live executions: the fields an audit reads from execution
//! requests and orders, the audit report of one request, and the cases that
//! need an operator (manual interventions).
use vstd::prelude::*;
use crate::error::QuantixError;
use crate::execution::{
    manual_intervention_category, qmt_manual_intervention_category,
    redact_account_label, redacted_account_label, QmtAuditLookup,
};
use crate::market::{lemma_lex_antisym, lemma_lex_range, lemma_lex_trans, lex_order, text_order};
use crate::text::{opt_as_str, opt_str_text, opt_text, str_eq};

verus! {

/// The JSON value found at one path of a record's payload, as far as the
/// audit reads it.
#[derive(Clone, Debug, PartialEq, Eq)]
pub enum JsonLeaf {
    Null,
    Bool(bool),
    /// A number: its JSON text, and its value when it is an integer that fits `i64`.
    Number { text: String, as_i64: Option<i64> },
    Text(String),
    /// An array or an object.
    Composite,
}

/// A leaf as audit text: a non-empty string, a number's text, `true` or
/// `false`; nothing for a missing path, null, an empty string or a composite.
pub open spec fn leaf_audit_text(found: Option<JsonLeaf>) -> Option<Seq<char>> {
    match found {
        Some(JsonLeaf::Text(s)) => if s@.len() > 0 {
            Some(s@)
        } else {
            None
        },
        Some(JsonLeaf::Number { text, .. }) => Some(text@),
        Some(JsonLeaf::Bool(b)) => Some(
            if b {
                "true"@
            } else {
                "false"@
            },
        ),
        _ => None,
    }
}

/// A leaf as an integer: a number that fits `i64`.
pub open spec fn leaf_i64(found: Option<JsonLeaf>) -> Option<i64> {
    match found {
        Some(JsonLeaf::Number { as_i64, .. }) => as_i64,
        _ => None,
    }
}

/// A leaf as an identity: a non-empty string only.
pub open spec fn leaf_identity(found: Option<JsonLeaf>) -> Option<Seq<char>> {
    match found {
        Some(JsonLeaf::Text(s)) => if s@.len() > 0 {
            Some(s@)
        } else {
            None
        },
        _ => None,
    }
}

/// The audit text of a JSON value: a non-empty string, a number or a boolean.
pub fn value_as_audit_string(value: &JsonLeaf) -> (r: Option<String>)
    ensures
        opt_text(r) == leaf_audit_text(Some(*value)),
{
    match value {
        JsonLeaf::Text(s) => {
            if s.as_str().unicode_len() > 0 {
                Some(s.clone())
            } else {
                None
            }
        },
        JsonLeaf::Number { text, .. } => Some(text.clone()),
        JsonLeaf::Bool(b) => {
            if *b {
                Some("true".to_string())
            } else {
                Some("false".to_string())
            }
        },
        _ => None,
    }
}

/// The audit text found at a path, if any.
pub fn string_path(found: &Option<JsonLeaf>) -> (r: Option<String>)
    ensures
        opt_text(r) == leaf_audit_text(*found),
{
    match found {
        Some(v) => value_as_audit_string(v),
        None => None,
    }
}

/// The integer found at a path, if any.
pub fn i64_path(found: &Option<JsonLeaf>) -> (r: Option<i64>)
    ensures
        r == leaf_i64(*found),
{
    match found {
        Some(JsonLeaf::Number { as_i64, .. }) => *as_i64,
        _ => None,
    }
}

/// The non-empty string found at a path, if any.
pub fn identity_path(found: &Option<JsonLeaf>) -> (r: Option<String>)
    ensures
        opt_text(r) == leaf_identity(*found),
{
    match found {
        Some(JsonLeaf::Text(s)) => {
            if s.as_str().unicode_len() > 0 {
                Some(s.clone())
            } else {
                None
            }
        },
        _ => None,
    }
}

/// What the audit reads of an execution request's payload, path by path.
#[derive(Clone, Debug, PartialEq, Eq)]
pub struct QmtRequestPayload {
    /// `execution_snapshot.symbol`
    pub snapshot_symbol: Option<JsonLeaf>,
    /// `execution_snapshot.order_intent.side`
    pub intent_side: Option<JsonLeaf>,
    /// `execution_snapshot.order_intent.requested_quantity`
    pub intent_quantity: Option<JsonLeaf>,
    /// `execution_snapshot.order_intent.order_type`
    pub intent_order_type: Option<JsonLeaf>,
    /// `execution_snapshot.order_intent.requested_price`
    pub intent_price: Option<JsonLeaf>,
    /// `execution_result.client_order_id`
    pub result_client_order_id: Option<JsonLeaf>,
    /// `execution_result.adapter_order_id`
    pub result_adapter_order_id: Option<JsonLeaf>,
    /// `execution_result.external_order_id`
    pub result_external_order_id: Option<JsonLeaf>,
    /// `execution_result.local_submission_id`
    pub result_local_submission_id: Option<JsonLeaf>,
    /// `execution_result.bridge_contract_version`
    pub result_bridge_contract_version: Option<JsonLeaf>,
    /// `execution_diagnostics.qmt_live_failure_category`
    pub failure_category: Option<JsonLeaf>,
}

/// An execution request as the audit reads it.
#[derive(Clone, Debug, PartialEq, Eq)]
pub struct QmtRequestRecord {
    pub request_id: String,
    pub target_mode: String,
    pub target_account: String,
    pub payload: QmtRequestPayload,
}

/// An order as the audit reads it, with its `qmt_live` metadata.
#[derive(Clone, Debug, PartialEq, Eq)]
pub struct QmtOrderRecord {
    pub client_order_id: String,
    pub symbol: String,
    /// The side's name.
    pub side: String,
    pub requested_quantity: i64,
    /// The order type's name.
    pub order_type: String,
    /// The requested price as text.
    pub requested_price: String,
    pub adapter: String,
    /// `qmt_live.task_identity.task_id`
    pub task_id: Option<JsonLeaf>,
    /// `qmt_live.task_identity.local_submission_id`
    pub local_submission_id: Option<JsonLeaf>,
    /// `qmt_live.task_identity.external_order_id`
    pub external_order_id: Option<JsonLeaf>,
    /// `qmt_live.bridge_contract_version`
    pub bridge_contract_version: Option<JsonLeaf>,
    /// `qmt_live.reconciliation.last_action`
    pub reconciliation_last_action: Option<JsonLeaf>,
    /// `qmt_live.reconciliation.last_error`
    pub reconciliation_last_error: Option<JsonLeaf>,
}

/// The identity fields of an order's `qmt_live.task_identity`.
#[derive(Clone, Copy, Debug, PartialEq, Eq)]
pub enum QmtIdentityField {
    TaskId,
    LocalSubmissionId,
    ExternalOrderId,
}

/// The fields of a request's `execution_result`.
#[derive(Clone, Copy, Debug, PartialEq, Eq)]
pub enum QmtResultField {
    ClientOrderId,
    AdapterOrderId,
    ExternalOrderId,
    LocalSubmissionId,
    BridgeContractVersion,
}

/// The fields of an order's `qmt_live.reconciliation`.
#[derive(Clone, Copy, Debug, PartialEq, Eq)]
pub enum QmtReconciliationField {
    LastAction,
    LastError,
}

/// The leaf of an identity field of an order.
pub open spec fn identity_leaf(order: QmtOrderRecord, field: QmtIdentityField) -> Option<JsonLeaf> {
    match field {
        QmtIdentityField::TaskId => order.task_id,
        QmtIdentityField::LocalSubmissionId => order.local_submission_id,
        QmtIdentityField::ExternalOrderId => order.external_order_id,
    }
}

/// The leaf of a result field of a request.
pub open spec fn result_leaf(request: QmtRequestRecord, field: QmtResultField) -> Option<JsonLeaf> {
    match field {
        QmtResultField::ClientOrderId => request.payload.result_client_order_id,
        QmtResultField::AdapterOrderId => request.payload.result_adapter_order_id,
        QmtResultField::ExternalOrderId => request.payload.result_external_order_id,
        QmtResultField::LocalSubmissionId => request.payload.result_local_submission_id,
        QmtResultField::BridgeContractVersion => request.payload.result_bridge_contract_version,
    }
}

/// The leaf of a reconciliation field of an order.
pub open spec fn reconciliation_leaf(order: QmtOrderRecord, field: QmtReconciliationField) -> Option<
    JsonLeaf,
> {
    match field {
        QmtReconciliationField::LastAction => order.reconciliation_last_action,
        QmtReconciliationField::LastError => order.reconciliation_last_error,
    }
}

/// The identity value of an order: a non-empty string.
pub fn qmt_order_identity_field(order: &QmtOrderRecord, field: QmtIdentityField) -> (r: Option<
    String,
>)
    ensures
        opt_text(r) == leaf_identity(identity_leaf(*order, field)),
{
    match field {
        QmtIdentityField::TaskId => identity_path(&order.task_id),
        QmtIdentityField::LocalSubmissionId => identity_path(&order.local_submission_id),
        QmtIdentityField::ExternalOrderId => identity_path(&order.external_order_id),
    }
}

/// The bridge contract version of an order's `qmt_live` metadata.
pub fn qmt_order_metadata_field(order: &QmtOrderRecord) -> (r: Option<String>)
    ensures
        opt_text(r) == leaf_audit_text(order.bridge_contract_version),
{
    string_path(&order.bridge_contract_version)
}

/// A field of a request's `execution_result`.
pub fn qmt_request_result_field(request: &QmtRequestRecord, field: QmtResultField) -> (r: Option<
    String,
>)
    ensures
        opt_text(r) == leaf_audit_text(result_leaf(*request, field)),
{
    match field {
        QmtResultField::ClientOrderId => string_path(&request.payload.result_client_order_id),
        QmtResultField::AdapterOrderId => string_path(&request.payload.result_adapter_order_id),
        QmtResultField::ExternalOrderId => string_path(&request.payload.result_external_order_id),
        QmtResultField::LocalSubmissionId => string_path(
            &request.payload.result_local_submission_id,
        ),
        QmtResultField::BridgeContractVersion => string_path(
            &request.payload.result_bridge_contract_version,
        ),
    }
}

/// The qmt_live failure category recorded in a request's diagnostics.
pub fn qmt_request_failure_category(request: &QmtRequestRecord) -> (r: Option<String>)
    ensures
        opt_text(r) == leaf_audit_text(request.payload.failure_category),
{
    string_path(&request.payload.failure_category)
}

/// An identity of the execution: the order's identity when it has one,
/// else the request's result field.
pub open spec fn identity_value(
    request: QmtRequestRecord,
    order: Option<QmtOrderRecord>,
    identity_field: QmtIdentityField,
    result_field: QmtResultField,
) -> Option<Seq<char>> {
    match order {
        Some(o) => match leaf_identity(identity_leaf(o, identity_field)) {
            Some(v) => Some(v),
            None => leaf_audit_text(result_leaf(request, result_field)),
        },
        None => leaf_audit_text(result_leaf(request, result_field)),
    }
}

/// An identity of the execution (see `identity_value`).
pub fn qmt_identity_value(
    request: &QmtRequestRecord,
    order: Option<&QmtOrderRecord>,
    identity_field: QmtIdentityField,
    result_field: QmtResultField,
) -> (r: Option<String>)
    ensures
        opt_text(r) == identity_value(
            *request,
            match order {
                Some(o) => Some(*o),
                None => None,
            },
            identity_field,
            result_field,
        ),
{
    match order {
        Some(o) => match qmt_order_identity_field(o, identity_field) {
            Some(v) => Some(v),
            None => qmt_request_result_field(request, result_field),
        },
        None => qmt_request_result_field(request, result_field),
    }
}

/// A field of the order's reconciliation metadata, when there is an order.
pub open spec fn reconciliation_value(order: Option<QmtOrderRecord>, field: QmtReconciliationField) -> Option<
    Seq<char>,
> {
    match order {
        Some(o) => leaf_audit_text(reconciliation_leaf(o, field)),
        None => None,
    }
}

/// A field of the order's reconciliation metadata (see `reconciliation_value`).
pub fn qmt_reconciliation_field(order: Option<&QmtOrderRecord>, field: QmtReconciliationField) -> (r:
    Option<String>)
    ensures
        opt_text(r) == reconciliation_value(
            match order {
                Some(o) => Some(*o),
                None => None,
            },
            field,
        ),
{
    match order {
        Some(o) => match field {
            QmtReconciliationField::LastAction => string_path(&o.reconciliation_last_action),
            QmtReconciliationField::LastError => string_path(&o.reconciliation_last_error),
        },
        None => None,
    }
}

/// An optional order as a spec value.
pub open spec fn opt_order(order: Option<&QmtOrderRecord>) -> Option<QmtOrderRecord> {
    match order {
        Some(o) => Some(*o),
        None => None,
    }
}

/// The operator case of a request and its order (see
/// `manual_intervention_category`), read from their records.
pub open spec fn record_category(request: QmtRequestRecord, order: Option<QmtOrderRecord>) -> Option<
    Seq<char>,
> {
    manual_intervention_category(
        request.target_mode@,
        match order {
            Some(o) => Some(o.adapter@),
            None => None,
        },
        leaf_audit_text(request.payload.failure_category),
        reconciliation_value(order, QmtReconciliationField::LastAction),
        reconciliation_value(order, QmtReconciliationField::LastError),
        identity_value(request, order, QmtIdentityField::TaskId, QmtResultField::AdapterOrderId)
            is Some,
        identity_value(
            request,
            order,
            QmtIdentityField::ExternalOrderId,
            QmtResultField::ExternalOrderId,
        ) is Some,
    )
}

/// The operator case of a request and its order, from their records.
pub fn manual_intervention_category_for(
    request: &QmtRequestRecord,
    order: Option<&QmtOrderRecord>,
) -> (r: Option<&'static str>)
    ensures
        opt_str_text(r) == record_category(*request, opt_order(order)),
{
    let failure_category = qmt_request_failure_category(request);
    let action = qmt_reconciliation_field(order, QmtReconciliationField::LastAction);
    let error = qmt_reconciliation_field(order, QmtReconciliationField::LastError);
    let task_id = qmt_identity_value(
        request,
        order,
        QmtIdentityField::TaskId,
        QmtResultField::AdapterOrderId,
    );
    let external_order_id = qmt_identity_value(
        request,
        order,
        QmtIdentityField::ExternalOrderId,
        QmtResultField::ExternalOrderId,
    );
    let adapter: Option<&str> = match order {
        Some(o) => Some(o.adapter.as_str()),
        None => None,
    };
    qmt_manual_intervention_category(
        request.target_mode.as_str(),
        adapter,
        opt_as_str(&failure_category),
        opt_as_str(&action),
        opt_as_str(&error),
        task_id.is_some(),
        external_order_id.is_some(),
    )
}

/// The symbol: the order's, else the request snapshot's.
pub open spec fn symbol_of(request: QmtRequestRecord, order: Option<QmtOrderRecord>) -> Option<Seq<char>> {
    match order {
        Some(o) => Some(o.symbol@),
        None => leaf_audit_text(request.payload.snapshot_symbol),
    }
}

/// The side: the order's, else the request's order intent's.
pub open spec fn side_of(request: QmtRequestRecord, order: Option<QmtOrderRecord>) -> Option<Seq<char>> {
    match order {
        Some(o) => Some(o.side@),
        None => leaf_audit_text(request.payload.intent_side),
    }
}

/// The quantity: the order's, else the request's order intent's.
pub open spec fn quantity_of(request: QmtRequestRecord, order: Option<QmtOrderRecord>) -> Option<i64> {
    match order {
        Some(o) => Some(o.requested_quantity),
        None => leaf_i64(request.payload.intent_quantity),
    }
}

/// The client order id: the order's, else the request result's.
pub open spec fn client_order_id_of(request: QmtRequestRecord, order: Option<QmtOrderRecord>) -> Option<
    Seq<char>,
> {
    match order {
        Some(o) => Some(o.client_order_id@),
        None => leaf_audit_text(request.payload.result_client_order_id),
    }
}

fn symbol_for(request: &QmtRequestRecord, order: Option<&QmtOrderRecord>) -> (r: Option<String>)
    ensures
        opt_text(r) == symbol_of(*request, opt_order(order)),
{
    match order {
        Some(o) => Some(o.symbol.clone()),
        None => string_path(&request.payload.snapshot_symbol),
    }
}

fn side_for(request: &QmtRequestRecord, order: Option<&QmtOrderRecord>) -> (r: Option<String>)
    ensures
        opt_text(r) == side_of(*request, opt_order(order)),
{
    match order {
        Some(o) => Some(o.side.clone()),
        None => string_path(&request.payload.intent_side),
    }
}

fn quantity_for(request: &QmtRequestRecord, order: Option<&QmtOrderRecord>) -> (r: Option<i64>)
    ensures
        r == quantity_of(*request, opt_order(order)),
{
    match order {
        Some(o) => Some(o.requested_quantity),
        None => i64_path(&request.payload.intent_quantity),
    }
}

fn client_order_id_for(request: &QmtRequestRecord, order: Option<&QmtOrderRecord>) -> (r: Option<
    String,
>)
    ensures
        opt_text(r) == client_order_id_of(*request, opt_order(order)),
{
    match order {
        Some(o) => Some(o.client_order_id.clone()),
        None => qmt_request_result_field(request, QmtResultField::ClientOrderId),
    }
}

/// A qmt_live execution that needs an operator.
#[derive(Clone, Debug, PartialEq, Eq)]
pub struct QmtManualInterventionCase {
    pub category: String,
    pub request_id: String,
    pub target_mode: String,
    pub redacted_account_label: String,
    pub symbol: Option<String>,
    pub side: Option<String>,
    pub quantity: Option<i64>,
    pub task_id: Option<String>,
    pub client_order_id: Option<String>,
    pub local_submission_id: Option<String>,
    pub external_order_id: Option<String>,
    pub qmt_live_error_category: Option<String>,
    pub reconciliation_decision: Option<String>,
    pub reconciliation_error: Option<String>,
}

/// The case is the one of the request and its order: its category, the
/// request's id, mode and redacted account, and the order facts and
/// identities, each from the order first and the request second.
pub open spec fn case_matches(
    c: QmtManualInterventionCase,
    request: QmtRequestRecord,
    order: Option<QmtOrderRecord>,
) -> bool {
    &&& record_category(request, order) == Some(c.category@)
    &&& c.request_id == request.request_id
    &&& c.target_mode == request.target_mode
    &&& c.redacted_account_label@ == redacted_account_label(request.target_account@)
    &&& opt_text(c.symbol) == symbol_of(request, order)
    &&& opt_text(c.side) == side_of(request, order)
    &&& c.quantity == quantity_of(request, order)
    &&& opt_text(c.task_id) == identity_value(
        request,
        order,
        QmtIdentityField::TaskId,
        QmtResultField::AdapterOrderId,
    )
    &&& opt_text(c.client_order_id) == client_order_id_of(request, order)
    &&& opt_text(c.local_submission_id) == identity_value(
        request,
        order,
        QmtIdentityField::LocalSubmissionId,
        QmtResultField::LocalSubmissionId,
    )
    &&& opt_text(c.external_order_id) == identity_value(
        request,
        order,
        QmtIdentityField::ExternalOrderId,
        QmtResultField::ExternalOrderId,
    )
    &&& opt_text(c.qmt_live_error_category) == leaf_audit_text(request.payload.failure_category)
    &&& opt_text(c.reconciliation_decision) == reconciliation_value(
        order,
        QmtReconciliationField::LastAction,
    )
    &&& opt_text(c.reconciliation_error) == reconciliation_value(
        order,
        QmtReconciliationField::LastError,
    )
}

/// The operator case of a request and its order, if it is one.
pub fn build_qmt_manual_intervention_case(
    request: &QmtRequestRecord,
    order: Option<&QmtOrderRecord>,
) -> (r: Option<QmtManualInterventionCase>)
    ensures
        record_category(*request, opt_order(order)) is None ==> r is None,
        record_category(*request, opt_order(order)) is Some ==> (r matches Some(c) && case_matches(
            c,
            *request,
            opt_order(order),
        )),
{
    let category = match manual_intervention_category_for(request, order) {
        Some(c) => c,
        None => {
            return None;
        },
    };
    Some(
        QmtManualInterventionCase {
            category: category.to_string(),
            request_id: request.request_id.clone(),
            target_mode: request.target_mode.clone(),
            redacted_account_label: redact_account_label(request.target_account.as_str()),
            symbol: symbol_for(request, order),
            side: side_for(request, order),
            quantity: quantity_for(request, order),
            task_id: qmt_identity_value(
                request,
                order,
                QmtIdentityField::TaskId,
                QmtResultField::AdapterOrderId,
            ),
            client_order_id: client_order_id_for(request, order),
            local_submission_id: qmt_identity_value(
                request,
                order,
                QmtIdentityField::LocalSubmissionId,
                QmtResultField::LocalSubmissionId,
            ),
            external_order_id: qmt_identity_value(
                request,
                order,
                QmtIdentityField::ExternalOrderId,
                QmtResultField::ExternalOrderId,
            ),
            qmt_live_error_category: qmt_request_failure_category(request),
            reconciliation_decision: qmt_reconciliation_field(
                order,
                QmtReconciliationField::LastAction,
            ),
            reconciliation_error: qmt_reconciliation_field(
                order,
                QmtReconciliationField::LastError,
            ),
        },
    )
}

/// The guidance every manual intervention case carries, in order.
pub open spec fn operator_guidance_lines() -> Seq<Seq<char>> {
    seq![
        "Inspect miniQMT same-day orders before taking action."@,
        "Compare task ID, client order ID, local submission ID, and external order ID."@,
        "avoid resubmission until the ambiguous state is resolved."@,
    ]
}

/// The guidance every manual intervention case carries.
pub fn qmt_manual_intervention_operator_guidance() -> (r: Vec<&'static str>)
    ensures
        r@.map_values(|l: &'static str| l@) == operator_guidance_lines(),
{
    let r = vec![
        "Inspect miniQMT same-day orders before taking action.",
        "Compare task ID, client order ID, local submission ID, and external order ID.",
        "avoid resubmission until the ambiguous state is resolved.",
    ];
    assert(r@.map_values(|l: &'static str| l@) =~= operator_guidance_lines());
    r
}

/// The audit report of one qmt_live execution.
#[derive(Clone, Debug, PartialEq, Eq)]
pub struct QmtAuditOutput {
    pub lookup_type: String,
    pub lookup_value: String,
    pub request_id: String,
    pub target_mode: String,
    pub redacted_account_label: String,
    pub symbol: Option<String>,
    pub side: Option<String>,
    pub quantity: Option<i64>,
    pub order_type: Option<String>,
    pub price_intent: Option<String>,
    pub local_submission_id: Option<String>,
    pub client_order_id: Option<String>,
    pub task_id: Option<String>,
    pub external_order_id: Option<String>,
    pub bridge_contract_version: Option<String>,
    pub qmt_live_error_category: Option<String>,
    pub reconciliation_decision: Option<String>,
    pub manual_intervention_marker: bool,
}

/// The order type: the order's, else the request's order intent's.
pub open spec fn order_type_of(request: QmtRequestRecord, order: Option<QmtOrderRecord>) -> Option<
    Seq<char>,
> {
    match order {
        Some(o) => Some(o.order_type@),
        None => leaf_audit_text(request.payload.intent_order_type),
    }
}

/// The price intent: the order's requested price, else the request's.
pub open spec fn price_intent_of(request: QmtRequestRecord, order: Option<QmtOrderRecord>) -> Option<
    Seq<char>,
> {
    match order {
        Some(o) => Some(o.requested_price@),
        None => leaf_audit_text(request.payload.intent_price),
    }
}

/// The bridge contract version: the order metadata's, else the request result's.
pub open spec fn bridge_version_of(request: QmtRequestRecord, order: Option<QmtOrderRecord>) -> Option<
    Seq<char>,
> {
    match order {
        Some(o) => match leaf_audit_text(o.bridge_contract_version) {
            Some(v) => Some(v),
            None => leaf_audit_text(request.payload.result_bridge_contract_version),
        },
        None => leaf_audit_text(request.payload.result_bridge_contract_version),
    }
}

/// The report is the audit of the request and its order under the lookup:
/// the lookup, the request's id, mode and redacted account, the order facts
/// (order first, request second), the qmt_live identities (the local
/// submission id from the order only), the failure category, the last
/// reconciliation action, and whether that action asked for an operator.
pub open spec fn audit_output_matches(
    out: QmtAuditOutput,
    request: QmtRequestRecord,
    order: Option<QmtOrderRecord>,
    lookup: QmtAuditLookup,
) -> bool {
    &&& out.lookup_type@ == lookup.lookup_type_text()
    &&& out.lookup_value@ == lookup.value_text()
    &&& out.request_id == request.request_id
    &&& out.target_mode == request.target_mode
    &&& out.redacted_account_label@ == redacted_account_label(request.target_account@)
    &&& opt_text(out.symbol) == symbol_of(request, order)
    &&& opt_text(out.side) == side_of(request, order)
    &&& out.quantity == quantity_of(request, order)
    &&& opt_text(out.order_type) == order_type_of(request, order)
    &&& opt_text(out.price_intent) == price_intent_of(request, order)
    &&& opt_text(out.local_submission_id) == match order {
        Some(o) => leaf_identity(o.local_submission_id),
        None => None,
    }
    &&& opt_text(out.client_order_id) == client_order_id_of(request, order)
    &&& opt_text(out.task_id) == identity_value(
        request,
        order,
        QmtIdentityField::TaskId,
        QmtResultField::AdapterOrderId,
    )
    &&& opt_text(out.external_order_id) == identity_value(
        request,
        order,
        QmtIdentityField::ExternalOrderId,
        QmtResultField::ExternalOrderId,
    )
    &&& opt_text(out.bridge_contract_version) == bridge_version_of(request, order)
    &&& opt_text(out.qmt_live_error_category) == leaf_audit_text(request.payload.failure_category)
    &&& opt_text(out.reconciliation_decision) == reconciliation_value(
        order,
        QmtReconciliationField::LastAction,
    )
    &&& out.manual_intervention_marker == (reconciliation_value(
        order,
        QmtReconciliationField::LastAction,
    ) == Some("manual_intervention"@))
}

/// The audit report of a request and its order, found by `lookup`.
pub fn build_qmt_audit_output(
    request: &QmtRequestRecord,
    order: Option<&QmtOrderRecord>,
    lookup: &QmtAuditLookup,
) -> (r: QmtAuditOutput)
    ensures
        audit_output_matches(r, *request, opt_order(order), *lookup),
{
    let order_type = match order {
        Some(o) => Some(o.order_type.clone()),
        None => string_path(&request.payload.intent_order_type),
    };
    let price_intent = match order {
        Some(o) => Some(o.requested_price.clone()),
        None => string_path(&request.payload.intent_price),
    };
    let local_submission_id = match order {
        Some(o) => qmt_order_identity_field(o, QmtIdentityField::LocalSubmissionId),
        None => None,
    };
    let bridge_contract_version = match order {
        Some(o) => match qmt_order_metadata_field(o) {
            Some(v) => Some(v),
            None => qmt_request_result_field(request, QmtResultField::BridgeContractVersion),
        },
        None => qmt_request_result_field(request, QmtResultField::BridgeContractVersion),
    };
    let reconciliation_decision = qmt_reconciliation_field(
        order,
        QmtReconciliationField::LastAction,
    );
    let marker = match &reconciliation_decision {
        Some(d) => str_eq(d.as_str(), "manual_intervention"),
        None => false,
    };
    QmtAuditOutput {
        lookup_type: lookup.lookup_type().to_string(),
        lookup_value: lookup.value().to_string(),
        request_id: request.request_id.clone(),
        target_mode: request.target_mode.clone(),
        redacted_account_label: redact_account_label(request.target_account.as_str()),
        symbol: symbol_for(request, order),
        side: side_for(request, order),
        quantity: quantity_for(request, order),
        order_type,
        price_intent,
        local_submission_id,
        client_order_id: client_order_id_for(request, order),
        task_id: qmt_identity_value(
            request,
            order,
            QmtIdentityField::TaskId,
            QmtResultField::AdapterOrderId,
        ),
        external_order_id: qmt_identity_value(
            request,
            order,
            QmtIdentityField::ExternalOrderId,
            QmtResultField::ExternalOrderId,
        ),
        bridge_contract_version,
        qmt_live_error_category: qmt_request_failure_category(request),
        reconciliation_decision,
        manual_intervention_marker: marker,
    }
}

/// `i` is the first request that satisfies `p`.
pub open spec fn first_request_where(
    requests: Seq<QmtRequestRecord>,
    i: int,
    p: spec_fn(QmtRequestRecord) -> bool,
) -> bool {
    &&& 0 <= i < requests.len()
    &&& p(requests[i])
    &&& forall|j: int| 0 <= j < i ==> !p(#[trigger] requests[j])
}

/// No request satisfies `p`.
pub open spec fn no_request_where(requests: Seq<QmtRequestRecord>, p: spec_fn(QmtRequestRecord) -> bool) -> bool {
    forall|j: int| 0 <= j < requests.len() ==> !p(#[trigger] requests[j])
}

/// `i` is the first order that satisfies `p`.
pub open spec fn first_order_where(
    orders: Seq<QmtOrderRecord>,
    i: int,
    p: spec_fn(QmtOrderRecord) -> bool,
) -> bool {
    &&& 0 <= i < orders.len()
    &&& p(orders[i])
    &&& forall|j: int| 0 <= j < i ==> !p(#[trigger] orders[j])
}

/// No order satisfies `p`.
pub open spec fn no_order_where(orders: Seq<QmtOrderRecord>, p: spec_fn(QmtOrderRecord) -> bool) -> bool {
    forall|j: int| 0 <= j < orders.len() ==> !p(#[trigger] orders[j])
}

/// The request has the id.
pub open spec fn request_has_id(id: Seq<char>) -> spec_fn(QmtRequestRecord) -> bool {
    |r: QmtRequestRecord| r.request_id@ == id
}

/// The request's result names the task as its adapter order id.
pub open spec fn request_has_task(task_id: Seq<char>) -> spec_fn(QmtRequestRecord) -> bool {
    |r: QmtRequestRecord| leaf_audit_text(r.payload.result_adapter_order_id) == Some(task_id)
}

/// The order's client order id is `id`.
pub open spec fn order_for_client(id: Seq<char>) -> spec_fn(QmtOrderRecord) -> bool {
    |o: QmtOrderRecord| o.client_order_id@ == id
}

/// The order's identity field is `value`.
pub open spec fn order_has_identity(field: QmtIdentityField, value: Seq<char>) -> spec_fn(
    QmtOrderRecord,
) -> bool {
    |o: QmtOrderRecord| leaf_identity(identity_leaf(o, field)) == Some(value)
}

/// The first request with the id.
pub fn find_request_by_id(requests: &Vec<QmtRequestRecord>, id: &str) -> (r: Option<usize>)
    ensures
        match r {
            Some(i) => first_request_where(requests@, i as int, request_has_id(id@)),
            None => no_request_where(requests@, request_has_id(id@)),
        },
{
    let mut i: usize = 0;
    while i < requests.len()
        invariant
            i <= requests@.len(),
            forall|j: int| 0 <= j < i ==> !request_has_id(id@)(#[trigger] requests@[j]),
        decreases requests.len() - i,
    {
        if str_eq(requests[i].request_id.as_str(), id) {
            return Some(i);
        }
        i = i + 1;
    }
    None
}

/// The first request whose result names the task.
pub fn find_request_by_task(requests: &Vec<QmtRequestRecord>, task_id: &str) -> (r: Option<usize>)
    ensures
        match r {
            Some(i) => first_request_where(requests@, i as int, request_has_task(task_id@)),
            None => no_request_where(requests@, request_has_task(task_id@)),
        },
{
    let mut i: usize = 0;
    while i < requests.len()
        invariant
            i <= requests@.len(),
            forall|j: int| 0 <= j < i ==> !request_has_task(task_id@)(#[trigger] requests@[j]),
        decreases requests.len() - i,
    {
        let found = qmt_request_result_field(&requests[i], QmtResultField::AdapterOrderId);
        let hit = match &found {
            Some(v) => str_eq(v.as_str(), task_id),
            None => false,
        };
        if hit {
            return Some(i);
        }
        i = i + 1;
    }
    None
}

/// The first order of the client order id.
pub fn find_order_by_client_id(orders: &Vec<QmtOrderRecord>, id: &str) -> (r: Option<usize>)
    ensures
        match r {
            Some(i) => first_order_where(orders@, i as int, order_for_client(id@)),
            None => no_order_where(orders@, order_for_client(id@)),
        },
{
    let mut i: usize = 0;
    while i < orders.len()
        invariant
            i <= orders@.len(),
            forall|j: int| 0 <= j < i ==> !order_for_client(id@)(#[trigger] orders@[j]),
        decreases orders.len() - i,
    {
        if str_eq(orders[i].client_order_id.as_str(), id) {
            return Some(i);
        }
        i = i + 1;
    }
    None
}

/// The first order whose identity field is `value`.
pub fn find_order_by_identity(
    orders: &Vec<QmtOrderRecord>,
    field: QmtIdentityField,
    value: &str,
) -> (r: Option<usize>)
    ensures
        match r {
            Some(i) => first_order_where(orders@, i as int, order_has_identity(field, value@)),
            None => no_order_where(orders@, order_has_identity(field, value@)),
        },
{
    let mut i: usize = 0;
    while i < orders.len()
        invariant
            i <= orders@.len(),
            forall|j: int|
                0 <= j < i ==> !order_has_identity(field, value@)(#[trigger] orders@[j]),
        decreases orders.len() - i,
    {
        let found = qmt_order_identity_field(&orders[i], field);
        let hit = match &found {
            Some(v) => str_eq(v.as_str(), value),
            None => false,
        };
        if hit {
            return Some(i);
        }
        i = i + 1;
    }
    None
}

/// The order of a request: the first with its id as client order id.
pub open spec fn order_of_request(orders: Seq<QmtOrderRecord>, oi: Option<usize>, request_id: Seq<char>) -> bool {
    match oi {
        Some(k) => first_order_where(orders, k as int, order_for_client(request_id)),
        None => no_order_where(orders, order_for_client(request_id)),
    }
}

/// The message of an unknown request id.
pub open spec fn request_missing_message(id: Seq<char>) -> Seq<char> {
    "request 不存在: "@ + id
}

/// The message of a task whose order's request is missing.
pub open spec fn task_request_missing_message(task_id: Seq<char>, client_order_id: Seq<char>) -> Seq<char> {
    "qmt_live task_id="@ + task_id + " 对应 request 不存在: "@ + client_order_id
}

/// The message of an unknown task.
pub open spec fn task_missing_message(task_id: Seq<char>) -> Seq<char> {
    "qmt_live task_id 不存在: "@ + task_id
}

/// The message of an unknown local submission id.
pub open spec fn submission_missing_message(id: Seq<char>) -> Seq<char> {
    "qmt_live local_submission_id 不存在: "@ + id
}

/// The message of a local submission whose order's request is missing.
pub open spec fn submission_request_missing_message(id: Seq<char>, client_order_id: Seq<char>) -> Seq<
    char,
> {
    "qmt_live local_submission_id="@ + id + " 对应 request 不存在: "@ + client_order_id
}

/// The request (and its order) that an audit looks up, as positions in the
/// lists of requests and orders:
/// - by request id: that request, and the first order with its id as
///   client order id;
/// - by task id: the first order whose task identity is the task, with the
///   request of its client order id; else the first request whose result
///   names the task as adapter order id, with its order;
/// - by local submission id: the first order with that identity, with the
///   request of its client order id.
/// Requests are found by id as the first with that id.
pub open spec fn resolution_matches(
    requests: Seq<QmtRequestRecord>,
    orders: Seq<QmtOrderRecord>,
    lookup: QmtAuditLookup,
    r: Result<(usize, Option<usize>), QuantixError>,
) -> bool {
    match lookup {
        QmtAuditLookup::Request(id) => if no_request_where(requests, request_has_id(id@)) {
            r matches Err(QuantixError::Other(m)) && m@ == request_missing_message(id@)
        } else {
            r matches Ok((ri, oi)) && first_request_where(requests, ri as int, request_has_id(id@))
                && order_of_request(orders, oi, requests[ri as int].request_id@)
        },
        QmtAuditLookup::Task(t) => if no_order_where(
            orders,
            order_has_identity(QmtIdentityField::TaskId, t@),
        ) {
            if no_request_where(requests, request_has_task(t@)) {
                r matches Err(QuantixError::Other(m)) && m@ == task_missing_message(t@)
            } else {
                r matches Ok((ri, oi)) && first_request_where(
                    requests,
                    ri as int,
                    request_has_task(t@),
                ) && order_of_request(orders, oi, requests[ri as int].request_id@)
            }
        } else {
            forall|k: int|
                #![trigger orders[k]]
                first_order_where(orders, k, order_has_identity(QmtIdentityField::TaskId, t@))
                    ==> if no_request_where(requests, request_has_id(orders[k].client_order_id@)) {
                    r matches Err(QuantixError::Other(m)) && m@ == task_request_missing_message(
                        t@,
                        orders[k].client_order_id@,
                    )
                } else {
                    r matches Ok((ri, oi)) && oi == Some(k as usize) && first_request_where(
                        requests,
                        ri as int,
                        request_has_id(orders[k].client_order_id@),
                    )
                }
        },
        QmtAuditLookup::LocalSubmission(l) => if no_order_where(
            orders,
            order_has_identity(QmtIdentityField::LocalSubmissionId, l@),
        ) {
            r matches Err(QuantixError::Other(m)) && m@ == submission_missing_message(l@)
        } else {
            forall|k: int|
                #![trigger orders[k]]
                first_order_where(
                    orders,
                    k,
                    order_has_identity(QmtIdentityField::LocalSubmissionId, l@),
                ) ==> if no_request_where(
                    requests,
                    request_has_id(orders[k].client_order_id@),
                ) {
                    r matches Err(QuantixError::Other(m)) && m@
                        == submission_request_missing_message(l@, orders[k].client_order_id@)
                } else {
                    r matches Ok((ri, oi)) && oi == Some(k as usize) && first_request_where(
                        requests,
                        ri as int,
                        request_has_id(orders[k].client_order_id@),
                    )
                }
        },
    }
}

proof fn lemma_first_order_unique(orders: Seq<QmtOrderRecord>, a: int, b: int, p: spec_fn(QmtOrderRecord) -> bool)
    requires
        first_order_where(orders, a, p),
        first_order_where(orders, b, p),
    ensures
        a == b,
{
    if a < b {
        assert(!p(orders[a]));
    } else if b < a {
        assert(!p(orders[b]));
    }
}

/// The request and order that the audit lookup finds, as positions in the
/// lists (see `resolution_matches`).
pub fn resolve_qmt_audit_record(
    requests: &Vec<QmtRequestRecord>,
    orders: &Vec<QmtOrderRecord>,
    lookup: &QmtAuditLookup,
) -> (r: Result<(usize, Option<usize>), QuantixError>)
    ensures
        resolution_matches(requests@, orders@, *lookup, r),
{
    match lookup {
        QmtAuditLookup::Request(id) => {
            match find_request_by_id(requests, id.as_str()) {
                None => {
                    let mut m = "request 不存在: ".to_string();
                    m.append(id.as_str());
                    Err(QuantixError::Other(m))
                },
                Some(ri) => {
                    let oi = find_order_by_client_id(orders, requests[ri].request_id.as_str());
                    Ok((ri, oi))
                },
            }
        },
        QmtAuditLookup::Task(t) => {
            match find_order_by_identity(orders, QmtIdentityField::TaskId, t.as_str()) {
                Some(k) => {
                    match find_request_by_id(requests, orders[k].client_order_id.as_str()) {
                        None => {
                            let mut m = "qmt_live task_id=".to_string();
                            m.append(t.as_str());
                            m.append(" 对应 request 不存在: ");
                            m.append(orders[k].client_order_id.as_str());
                            proof {
                                assert forall|k2: int|
                                    #![trigger orders@[k2]]
                                    first_order_where(
                                        orders@,
                                        k2,
                                        order_has_identity(QmtIdentityField::TaskId, t@),
                                    ) implies k2 == k by {
                                    lemma_first_order_unique(
                                        orders@,
                                        k2,
                                        k as int,
                                        order_has_identity(QmtIdentityField::TaskId, t@),
                                    );
                                }
                            }
                            Err(QuantixError::Other(m))
                        },
                        Some(ri) => {
                            proof {
                                assert forall|k2: int|
                                    #![trigger orders@[k2]]
                                    first_order_where(
                                        orders@,
                                        k2,
                                        order_has_identity(QmtIdentityField::TaskId, t@),
                                    ) implies k2 == k by {
                                    lemma_first_order_unique(
                                        orders@,
                                        k2,
                                        k as int,
                                        order_has_identity(QmtIdentityField::TaskId, t@),
                                    );
                                }
                            }
                            Ok((ri, Some(k)))
                        },
                    }
                },
                None => {
                    match find_request_by_task(requests, t.as_str()) {
                        None => {
                            let mut m = "qmt_live task_id 不存在: ".to_string();
                            m.append(t.as_str());
                            Err(QuantixError::Other(m))
                        },
                        Some(ri) => {
                            let oi = find_order_by_client_id(
                                orders,
                                requests[ri].request_id.as_str(),
                            );
                            Ok((ri, oi))
                        },
                    }
                },
            }
        },
        QmtAuditLookup::LocalSubmission(l) => {
            match find_order_by_identity(orders, QmtIdentityField::LocalSubmissionId, l.as_str()) {
                None => {
                    let mut m = "qmt_live local_submission_id 不存在: ".to_string();
                    m.append(l.as_str());
                    Err(QuantixError::Other(m))
                },
                Some(k) => {
                    proof {
                        assert forall|k2: int|
                            #![trigger orders@[k2]]
                            first_order_where(
                                orders@,
                                k2,
                                order_has_identity(QmtIdentityField::LocalSubmissionId, l@),
                            ) implies k2 == k by {
                            lemma_first_order_unique(
                                orders@,
                                k2,
                                k as int,
                                order_has_identity(QmtIdentityField::LocalSubmissionId, l@),
                            );
                        }
                    }
                    match find_request_by_id(requests, orders[k].client_order_id.as_str()) {
                        None => {
                            let mut m = "qmt_live local_submission_id=".to_string();
                            m.append(l.as_str());
                            m.append(" 对应 request 不存在: ");
                            m.append(orders[k].client_order_id.as_str());
                            Err(QuantixError::Other(m))
                        },
                        Some(ri) => Ok((ri, Some(k))),
                    }
                },
            }
        },
    }
}

/// The audit report that a lookup finds (see `resolution_matches` and
/// `audit_output_matches`), or why there is none.
pub fn build_execution_bridge_qmt_audit_output(
    requests: &Vec<QmtRequestRecord>,
    orders: &Vec<QmtOrderRecord>,
    lookup: &QmtAuditLookup,
) -> (r: Result<QmtAuditOutput, QuantixError>)
    ensures
        match r {
            Ok(out) => exists|ri: usize, oi: Option<usize>|
                resolution_matches(requests@, orders@, *lookup, Ok((ri, oi))) && audit_output_matches(
                    out,
                    requests@[ri as int],
                    match oi {
                        Some(k) => Some(orders@[k as int]),
                        None => None,
                    },
                    *lookup,
                ),
            Err(e) => resolution_matches(requests@, orders@, *lookup, Err(e)),
        },
{
    match resolve_qmt_audit_record(requests, orders, lookup) {
        Err(e) => Err(e),
        Ok((ri, oi)) => {
            proof {
                if lookup is Request {
                    assert(ri < requests@.len());
                }
            }
            let order: Option<&QmtOrderRecord> = match oi {
                Some(k) => {
                    proof {
                        lemma_resolved_order_in_range(requests@, orders@, *lookup, ri, k);
                    }
                    Some(&orders[k])
                },
                None => None,
            };
            proof {
                lemma_resolved_request_in_range(requests@, orders@, *lookup, ri, oi);
            }
            let out = build_qmt_audit_output(&requests[ri], order, lookup);
            Ok(out)
        },
    }
}

proof fn lemma_resolved_request_in_range(
    requests: Seq<QmtRequestRecord>,
    orders: Seq<QmtOrderRecord>,
    lookup: QmtAuditLookup,
    ri: usize,
    oi: Option<usize>,
)
    requires
        resolution_matches(requests, orders, lookup, Ok((ri, oi))),
    ensures
        ri < requests.len(),
{
    match lookup {
        QmtAuditLookup::Request(id) => {},
        QmtAuditLookup::Task(t) => {
            if !no_order_where(orders, order_has_identity(QmtIdentityField::TaskId, t@)) {
                let k = choose|k: int|
                    0 <= k < orders.len() && order_has_identity(QmtIdentityField::TaskId, t@)(
                        #[trigger] orders[k],
                    );
                lemma_first_exists(orders, k, order_has_identity(QmtIdentityField::TaskId, t@));
            }
        },
        QmtAuditLookup::LocalSubmission(l) => {
            let k = choose|k: int|
                0 <= k < orders.len() && order_has_identity(
                    QmtIdentityField::LocalSubmissionId,
                    l@,
                )(#[trigger] orders[k]);
            lemma_first_exists(
                orders,
                k,
                order_has_identity(QmtIdentityField::LocalSubmissionId, l@),
            );
        },
    }
}

proof fn lemma_resolved_order_in_range(
    requests: Seq<QmtRequestRecord>,
    orders: Seq<QmtOrderRecord>,
    lookup: QmtAuditLookup,
    ri: usize,
    k: usize,
)
    requires
        resolution_matches(requests, orders, lookup, Ok((ri, Some(k)))),
    ensures
        k < orders.len(),
{
    match lookup {
        QmtAuditLookup::Request(id) => {},
        QmtAuditLookup::Task(t) => {
            if !no_order_where(orders, order_has_identity(QmtIdentityField::TaskId, t@)) {
                let k0 = choose|k0: int|
                    0 <= k0 < orders.len() && order_has_identity(QmtIdentityField::TaskId, t@)(
                        #[trigger] orders[k0],
                    );
                lemma_first_exists(orders, k0, order_has_identity(QmtIdentityField::TaskId, t@));
            }
        },
        QmtAuditLookup::LocalSubmission(l) => {
            let k0 = choose|k0: int|
                0 <= k0 < orders.len() && order_has_identity(
                    QmtIdentityField::LocalSubmissionId,
                    l@,
                )(#[trigger] orders[k0]);
            lemma_first_exists(
                orders,
                k0,
                order_has_identity(QmtIdentityField::LocalSubmissionId, l@),
            );
        },
    }
}

/// When some order satisfies `p`, a first one does.
proof fn lemma_first_exists(orders: Seq<QmtOrderRecord>, k: int, p: spec_fn(QmtOrderRecord) -> bool)
    requires
        0 <= k < orders.len(),
        p(orders[k]),
    ensures
        exists|f: int| #![trigger orders[f]] first_order_where(orders, f, p),
    decreases k,
{
    if forall|j: int| 0 <= j < k ==> !p(#[trigger] orders[j]) {
        assert(first_order_where(orders, k, p));
    } else {
        let j = choose|j: int| 0 <= j < k && p(#[trigger] orders[j]);
        lemma_first_exists(orders, j, p);
    }
}

/// The last order with the client order id, if any.
pub open spec fn last_order_of(orders: Seq<QmtOrderRecord>, id: Seq<char>) -> Option<QmtOrderRecord>
    decreases orders.len(),
{
    if orders.len() == 0 {
        None
    } else if orders.last().client_order_id@ == id {
        Some(orders.last())
    } else {
        last_order_of(orders.drop_last(), id)
    }
}

/// The position of the last order with the client order id.
pub fn last_order_index(orders: &Vec<QmtOrderRecord>, id: &str) -> (r: Option<usize>)
    ensures
        match r {
            Some(k) => k < orders@.len() && last_order_of(orders@, id@) == Some(orders@[k as int]),
            None => last_order_of(orders@, id@) is None,
        },
{
    let mut best: Option<usize> = None;
    let mut i: usize = 0;
    while i < orders.len()
        invariant
            i <= orders@.len(),
            match best {
                Some(k) => k < i && last_order_of(orders@.take(i as int), id@) == Some(
                    orders@[k as int],
                ),
                None => last_order_of(orders@.take(i as int), id@) is None,
            },
        decreases orders.len() - i,
    {
        proof {
            assert(orders@.take(i + 1).drop_last() =~= orders@.take(i as int));
            assert(orders@.take(i + 1).last() == orders@[i as int]);
        }
        if str_eq(orders[i].client_order_id.as_str(), id) {
            best = Some(i);
        }
        i = i + 1;
    }
    proof {
        assert(orders@.take(orders@.len() as int) =~= orders@);
    }
    best
}

/// The requests that are operator cases, each with its order (the last
/// order with its id as client order id), in request order.
pub open spec fn pending_cases(requests: Seq<QmtRequestRecord>, orders: Seq<QmtOrderRecord>) -> Seq<
    (QmtRequestRecord, Option<QmtOrderRecord>),
>
    decreases requests.len(),
{
    if requests.len() == 0 {
        Seq::empty()
    } else {
        let rest = pending_cases(requests.drop_last(), orders);
        let r = requests.last();
        let o = last_order_of(orders, r.request_id@);
        if record_category(r, o) is Some {
            rest.push((r, o))
        } else {
            rest
        }
    }
}

/// The listing order of cases: by category, then by request id (-1, 0, 1).
pub open spec fn case_order(a: QmtManualInterventionCase, b: QmtManualInterventionCase) -> int {
    let c = lex_order(a.category@, b.category@);
    if c != 0 {
        c
    } else {
        lex_order(a.request_id@, b.request_id@)
    }
}

proof fn lemma_case_antisym(a: QmtManualInterventionCase, b: QmtManualInterventionCase)
    ensures
        case_order(a, b) == -case_order(b, a),
        -1 <= case_order(a, b) <= 1,
{
    lemma_lex_antisym(a.category@, b.category@);
    lemma_lex_antisym(a.request_id@, b.request_id@);
    lemma_lex_range(a.category@, b.category@);
    lemma_lex_range(a.request_id@, b.request_id@);
}

proof fn lemma_case_trans(
    a: QmtManualInterventionCase,
    b: QmtManualInterventionCase,
    c: QmtManualInterventionCase,
)
    requires
        case_order(a, b) <= 0,
        case_order(b, c) <= 0,
    ensures
        case_order(a, c) <= 0,
{
    lemma_lex_antisym(a.category@, b.category@);
    lemma_lex_antisym(b.category@, c.category@);
    lemma_lex_antisym(a.category@, c.category@);
    lemma_lex_range(a.category@, b.category@);
    lemma_lex_range(b.category@, c.category@);
    lemma_lex_trans(a.category@, b.category@, c.category@);
    if lex_order(a.category@, b.category@) == 0 && lex_order(b.category@, c.category@) == 0 {
        lemma_lex_trans(a.request_id@, b.request_id@, c.request_id@);
    }
    if lex_order(a.category@, c.category@) == 0 {
        // a and c share a category, so b does too
        if lex_order(a.category@, b.category@) < 0 {
            lemma_lex_trans(c.category@, a.category@, b.category@);
        }
    }
}

proof fn lemma_case_trans_strict(
    a: QmtManualInterventionCase,
    b: QmtManualInterventionCase,
    c: QmtManualInterventionCase,
)
    requires
        case_order(a, b) < 0,
        case_order(b, c) <= 0,
    ensures
        case_order(a, c) < 0,
{
    lemma_case_antisym(a, b);
    lemma_case_antisym(a, c);
    lemma_case_antisym(b, c);
    if case_order(a, c) >= 0 {
        lemma_case_trans(b, c, a);
    }
}

/// The listing order of two cases: -1, 0 or 1.
pub fn compare_cases(a: &QmtManualInterventionCase, b: &QmtManualInterventionCase) -> (r: i8)
    ensures
        r == case_order(*a, *b),
{
    let c = text_order(a.category.as_str(), b.category.as_str());
    if c != 0 {
        c
    } else {
        text_order(a.request_id.as_str(), b.request_id.as_str())
    }
}

/// Some entry of `p` is `k`.
pub open spec fn covers(p: Seq<int>, k: int) -> bool {
    exists|i: int| 0 <= i < p.len() && p[i] == k
}

/// `out` is `src` sorted by the listing order, stably, each case once: `p` tells where each
/// case of `out` stands in `src`.
pub open spec fn case_sort_witness(
    out: Seq<QmtManualInterventionCase>,
    src: Seq<QmtManualInterventionCase>,
    p: Seq<int>,
) -> bool {
    &&& p.len() == out.len()
    &&& out.len() == src.len()
    &&& forall|i: int| 0 <= i < out.len() ==> 0 <= #[trigger] p[i] < src.len() && out[i] == src[p[i]]
    &&& forall|i: int, j: int| 0 <= i < j < out.len() ==> #[trigger] p[i] != #[trigger] p[j]
    &&& forall|k: int| 0 <= k < src.len() ==> #[trigger] covers(p, k)
    &&& forall|i: int, j: int|
        0 <= i < j < out.len() ==> case_order(#[trigger] out[i], #[trigger] out[j]) <= 0
    &&& forall|i: int, j: int|
        0 <= i < j < out.len() && case_order(#[trigger] out[i], #[trigger] out[j]) == 0 ==> p[i]
            < p[j]
}

fn copy_text(o: &Option<String>) -> (r: Option<String>)
    ensures
        r == *o,
{
    match o {
        Some(s) => Some(s.clone()),
        None => None,
    }
}

impl QmtManualInterventionCase {
    /// A copy of the case.
    pub fn duplicate(&self) -> (r: Self)
        ensures
            r == *self,
    {
        QmtManualInterventionCase {
            category: self.category.clone(),
            request_id: self.request_id.clone(),
            target_mode: self.target_mode.clone(),
            redacted_account_label: self.redacted_account_label.clone(),
            symbol: copy_text(&self.symbol),
            side: copy_text(&self.side),
            quantity: self.quantity,
            task_id: copy_text(&self.task_id),
            client_order_id: copy_text(&self.client_order_id),
            local_submission_id: copy_text(&self.local_submission_id),
            external_order_id: copy_text(&self.external_order_id),
            qmt_live_error_category: copy_text(&self.qmt_live_error_category),
            reconciliation_decision: copy_text(&self.reconciliation_decision),
            reconciliation_error: copy_text(&self.reconciliation_error),
        }
    }
}

/// The cases sorted by category, then request id; ties keep their order.
pub fn sort_cases(cases: Vec<QmtManualInterventionCase>) -> (r: Vec<QmtManualInterventionCase>)
    ensures
        exists|p: Seq<int>| case_sort_witness(r@, cases@, p),
{
    let mut out: Vec<QmtManualInterventionCase> = Vec::new();
    let ghost mut p: Seq<int> = Seq::empty();
    let mut k: usize = 0;
    while k < cases.len()
        invariant
            k <= cases@.len(),
            p.len() == out@.len(),
            out@.len() == k,
            forall|i: int| 0 <= i < out@.len() ==> 0 <= #[trigger] p[i] < k && out@[i] == cases@[p[i]],
            forall|i: int, j: int| 0 <= i < j < out@.len() ==> #[trigger] p[i] != #[trigger] p[j],
            forall|kk: int| 0 <= kk < k ==> #[trigger] covers(p, kk),
            forall|i: int, j: int|
                0 <= i < j < out@.len() ==> case_order(#[trigger] out@[i], #[trigger] out@[j]) <= 0,
            forall|i: int, j: int|
                0 <= i < j < out@.len() && case_order(#[trigger] out@[i], #[trigger] out@[j]) == 0
                    ==> p[i] < p[j],
        decreases cases.len() - k,
    {
        let x = cases[k].duplicate();
        let mut pos: usize = 0;
        while pos < out.len() && compare_cases(&out[pos], &x) <= 0
            invariant
                pos <= out@.len(),
                x == cases@[k as int],
                forall|i: int| 0 <= i < out@.len() ==> 0 <= #[trigger] p[i] < k && out@[i] == cases@[p[i]],
                forall|i: int| 0 <= i < pos ==> case_order(#[trigger] out@[i], x) <= 0,
            decreases out@.len() - pos,
        {
            pos = pos + 1;
        }
        let ghost old_out = out@;
        let ghost old_p = p;
        out.insert(pos, x);
        proof {
            p = old_p.insert(pos as int, k as int);
            assert forall|i: int| 0 <= i < out@.len() implies 0 <= #[trigger] p[i] < k + 1 && out@[i]
                == cases@[p[i]] by {
                if i > pos {
                    assert(out@[i] == old_out[i - 1]);
                    assert(p[i] == old_p[i - 1]);
                }
            }
            assert forall|i: int, j: int| 0 <= i < j < out@.len() implies #[trigger] p[i]
                != #[trigger] p[j] by {
                if i < pos && j > pos {
                    assert(p[j] == old_p[j - 1]);
                } else if i == pos && j > pos {
                    assert(p[j] == old_p[j - 1]);
                } else if i > pos {
                    assert(p[i] == old_p[i - 1]);
                    assert(p[j] == old_p[j - 1]);
                }
            }
            assert forall|kk: int| 0 <= kk < k + 1 implies #[trigger] covers(p, kk) by {
                if kk == k {
                    assert(p[pos as int] == kk);
                } else {
                    assert(covers(old_p, kk));
                    let i0 = choose|i: int| 0 <= i < old_p.len() && #[trigger] old_p[i] == kk;
                    if i0 < pos {
                        assert(p[i0] == kk);
                    } else {
                        assert(p[i0 + 1] == kk);
                    }
                }
            }
            assert forall|i: int, j: int| 0 <= i < j < out@.len() implies case_order(
                #[trigger] out@[i],
                #[trigger] out@[j],
            ) <= 0 && (case_order(out@[i], out@[j]) == 0 ==> p[i] < p[j]) by {
                if j < pos {
                } else if j == pos {
                    assert(out@[i] == old_out[i]);
                    assert(out@[j] == x);
                } else if i == pos {
                    assert(out@[j] == old_out[j - 1]);
                    lemma_case_antisym(old_out[pos as int], x);
                    if j - 1 > pos {
                        lemma_case_trans_strict(x, old_out[pos as int], old_out[j - 1]);
                    }
                } else if i < pos {
                    assert(out@[i] == old_out[i]);
                    assert(out@[j] == old_out[j - 1]);
                    assert(p[j] == old_p[j - 1]);
                } else {
                    assert(out@[i] == old_out[i - 1]);
                    assert(out@[j] == old_out[j - 1]);
                    assert(p[i] == old_p[i - 1]);
                    assert(p[j] == old_p[j - 1]);
                }
            }
        }
        k = k + 1;
    }
    assert(case_sort_witness(out@, cases@, p));
    out
}

/// `out` lists the pending cases, each built from its request and order
/// (`case_matches`) and each exactly once, sorted by category then request
/// id, cases that tie keeping the request order; `p` tells which pending case
/// each entry is.
pub open spec fn listing_witness(
    out: Seq<QmtManualInterventionCase>,
    pending: Seq<(QmtRequestRecord, Option<QmtOrderRecord>)>,
    p: Seq<int>,
) -> bool {
    &&& p.len() == out.len()
    &&& out.len() == pending.len()
    &&& forall|i: int|
        0 <= i < out.len() ==> 0 <= #[trigger] p[i] < pending.len() && case_matches(
            out[i],
            pending[p[i]].0,
            pending[p[i]].1,
        )
    &&& forall|i: int, j: int| 0 <= i < j < out.len() ==> #[trigger] p[i] != #[trigger] p[j]
    &&& forall|k: int| 0 <= k < pending.len() ==> #[trigger] covers(p, k)
    &&& forall|i: int, j: int|
        0 <= i < j < out.len() ==> case_order(#[trigger] out[i], #[trigger] out[j]) <= 0
    &&& forall|i: int, j: int|
        0 <= i < j < out.len() && case_order(#[trigger] out[i], #[trigger] out[j]) == 0 ==> p[i]
            < p[j]
}

/// Every request that is an operator case (see `pending_cases`) as a case,
/// sorted by category then request id; cases that tie keep the request order.
pub fn build_execution_bridge_qmt_manual_interventions_list_output(
    requests: &Vec<QmtRequestRecord>,
    orders: &Vec<QmtOrderRecord>,
) -> (r: Vec<QmtManualInterventionCase>)
    ensures
        exists|p: Seq<int>| listing_witness(r@, pending_cases(requests@, orders@), p),
{
    let mut cases: Vec<QmtManualInterventionCase> = Vec::new();
    let mut i: usize = 0;
    while i < requests.len()
        invariant
            i <= requests@.len(),
            cases@.len() == pending_cases(requests@.take(i as int), orders@).len(),
            forall|k: int|
                0 <= k < cases@.len() ==> case_matches(
                    #[trigger] cases@[k],
                    pending_cases(requests@.take(i as int), orders@)[k].0,
                    pending_cases(requests@.take(i as int), orders@)[k].1,
                ),
        decreases requests.len() - i,
    {
        let ghost before = pending_cases(requests@.take(i as int), orders@);
        proof {
            assert(requests@.take(i + 1).drop_last() =~= requests@.take(i as int));
            assert(requests@.take(i + 1).last() == requests@[i as int]);
        }
        let request = &requests[i];
        let oi = last_order_index(orders, request.request_id.as_str());
        let order: Option<&QmtOrderRecord> = match oi {
            Some(k) => Some(&orders[k]),
            None => None,
        };
        assert(opt_order(order) == last_order_of(orders@, request.request_id@));
        let built = build_qmt_manual_intervention_case(request, order);
        match built {
            Some(c) => {
                cases.push(c);
                proof {
                    let after = pending_cases(requests@.take(i + 1), orders@);
                    assert(after == before.push((requests@[i as int], opt_order(order))));
                    assert forall|k: int| 0 <= k < cases@.len() implies case_matches(
                        #[trigger] cases@[k],
                        after[k].0,
                        after[k].1,
                    ) by {
                        if k < before.len() {
                            assert(after[k] == before[k]);
                        }
                    }
                }
            },
            None => {
                proof {
                    let after = pending_cases(requests@.take(i + 1), orders@);
                    assert(after == before);
                }
            },
        }
        i = i + 1;
    }
    proof {
        assert(requests@.take(requests@.len() as int) =~= requests@);
    }
    let ghost pending = pending_cases(requests@, orders@);
    let ghost unsorted = cases@;
    let sorted = sort_cases(cases);
    proof {
        let p = choose|p: Seq<int>| case_sort_witness(sorted@, unsorted, p);
        assert forall|x: int| 0 <= x < sorted@.len() implies 0 <= #[trigger] p[x] < pending.len()
            && case_matches(sorted@[x], pending[p[x]].0, pending[p[x]].1) by {
            assert(sorted@[x] == unsorted[p[x]]);
        }
        assert(listing_witness(sorted@, pending, p));
    }
    sorted
}

/// The case is the one the lookup names: by request id, task id or local
/// submission id.
pub open spec fn case_matches_lookup(c: QmtManualInterventionCase, lookup: QmtAuditLookup) -> bool {
    match lookup {
        QmtAuditLookup::Request(id) => c.request_id@ == id@,
        QmtAuditLookup::Task(t) => opt_text(c.task_id) == Some(t@),
        QmtAuditLookup::LocalSubmission(l) => opt_text(c.local_submission_id) == Some(l@),
    }
}

/// Whether the case is the one the lookup names.
pub fn qmt_manual_intervention_case_matches_lookup(
    c: &QmtManualInterventionCase,
    lookup: &QmtAuditLookup,
) -> (r: bool)
    ensures
        r == case_matches_lookup(*c, *lookup),
{
    match lookup {
        QmtAuditLookup::Request(id) => str_eq(c.request_id.as_str(), id.as_str()),
        QmtAuditLookup::Task(t) => match &c.task_id {
            Some(v) => str_eq(v.as_str(), t.as_str()),
            None => false,
        },
        QmtAuditLookup::LocalSubmission(l) => match &c.local_submission_id {
            Some(v) => str_eq(v.as_str(), l.as_str()),
            None => false,
        },
    }
}

/// The message when no listed case matches the lookup.
pub open spec fn intervention_missing_message(lookup: QmtAuditLookup) -> Seq<char> {
    "qmt_live manual intervention 不存在: "@ + lookup.lookup_type_text() + "="@ + lookup.value_text()
}

/// The first listed case that the lookup names, or why there is none.
pub fn find_manual_intervention(cases: &Vec<QmtManualInterventionCase>, lookup: &QmtAuditLookup) -> (r:
    Result<QmtManualInterventionCase, QuantixError>)
    ensures
        match r {
            Ok(c) => exists|i: int|
                0 <= i < cases@.len() && c == cases@[i] && case_matches_lookup(c, *lookup) && forall|
                    j: int,
                | 0 <= j < i ==> !case_matches_lookup(#[trigger] cases@[j], *lookup),
            Err(e) => (forall|j: int|
                0 <= j < cases@.len() ==> !case_matches_lookup(#[trigger] cases@[j], *lookup)) && (
            e matches QuantixError::Other(m) && m@ == intervention_missing_message(*lookup)),
        },
{
    let mut i: usize = 0;
    while i < cases.len()
        invariant
            i <= cases@.len(),
            forall|j: int| 0 <= j < i ==> !case_matches_lookup(#[trigger] cases@[j], *lookup),
        decreases cases.len() - i,
    {
        if qmt_manual_intervention_case_matches_lookup(&cases[i], lookup) {
            return Ok(cases[i].duplicate());
        }
        i = i + 1;
    }
    let mut m = "qmt_live manual intervention 不存在: ".to_string();
    m.append(lookup.lookup_type());
    m.append("=");
    m.append(lookup.value());
    Err(QuantixError::Other(m))
}

/// What `execution qmt manual-interventions show` reports: the case and the
/// audit of its execution.
#[derive(Clone, Debug, PartialEq, Eq)]
pub struct QmtManualInterventionShow {
    pub manual_intervention: QmtManualInterventionCase,
    pub audit: QmtAuditOutput,
}

/// The lookup names the case of this request and order: its request id, or
/// the task or local submission identity of its execution.
pub open spec fn lookup_names_execution(
    request: QmtRequestRecord,
    order: Option<QmtOrderRecord>,
    lookup: QmtAuditLookup,
) -> bool {
    match lookup {
        QmtAuditLookup::Request(id) => request.request_id@ == id@,
        QmtAuditLookup::Task(t) => identity_value(
            request,
            order,
            QmtIdentityField::TaskId,
            QmtResultField::AdapterOrderId,
        ) == Some(t@),
        QmtAuditLookup::LocalSubmission(l) => identity_value(
            request,
            order,
            QmtIdentityField::LocalSubmissionId,
            QmtResultField::LocalSubmissionId,
        ) == Some(l@),
    }
}

/// Some operator case (see `pending_cases`) is named by the lookup.
pub open spec fn pending_case_named(
    pending: Seq<(QmtRequestRecord, Option<QmtOrderRecord>)>,
    lookup: QmtAuditLookup,
) -> bool {
    exists|k: int| 0 <= k < pending.len() && lookup_names_execution(#[trigger] pending[k].0, pending[k].1, lookup)
}

/// `c` is the first case of `cases` that the lookup names.
pub open spec fn first_case_named(
    cases: Seq<QmtManualInterventionCase>,
    lookup: QmtAuditLookup,
    c: QmtManualInterventionCase,
) -> bool {
    exists|i: int|
        0 <= i < cases.len() && cases[i] == c && case_matches_lookup(c, lookup) && forall|j: int|
            0 <= j < i ==> !case_matches_lookup(#[trigger] cases[j], lookup)
}

/// A case built from a request and its order is named by a lookup exactly
/// when the lookup names that execution.
proof fn lemma_case_named_iff(
    c: QmtManualInterventionCase,
    request: QmtRequestRecord,
    order: Option<QmtOrderRecord>,
    lookup: QmtAuditLookup,
)
    requires
        case_matches(c, request, order),
    ensures
        case_matches_lookup(c, lookup) == lookup_names_execution(request, order, lookup),
{
}

/// The case that the lookup names: the first, in listing order, of the
/// operator cases (see `build_execution_bridge_qmt_manual_interventions_list_output`),
/// with the audit that the same lookup finds. Refused with the missing-case
/// message when no operator case is named by the lookup, else with the
/// audit's refusal when the audit finds nothing.
pub fn build_execution_bridge_qmt_manual_intervention_show_output(
    requests: &Vec<QmtRequestRecord>,
    orders: &Vec<QmtOrderRecord>,
    lookup: &QmtAuditLookup,
) -> (r: Result<QmtManualInterventionShow, QuantixError>)
    ensures
        match r {
            Ok(show) => {
                &&& pending_case_named(pending_cases(requests@, orders@), *lookup)
                &&& exists|cases: Seq<QmtManualInterventionCase>, p: Seq<int>|
                    listing_witness(cases, pending_cases(requests@, orders@), p) && first_case_named(
                        cases,
                        *lookup,
                        show.manual_intervention,
                    )
                &&& exists|ri: usize, oi: Option<usize>|
                    resolution_matches(requests@, orders@, *lookup, Ok((ri, oi))) && audit_output_matches(
                        show.audit,
                        requests@[ri as int],
                        match oi {
                            Some(k) => Some(orders@[k as int]),
                            None => None,
                        },
                        *lookup,
                    )
            },
            Err(e) => if pending_case_named(pending_cases(requests@, orders@), *lookup) {
                resolution_matches(requests@, orders@, *lookup, Err(e))
            } else {
                e matches QuantixError::Other(m) && m@ == intervention_missing_message(*lookup)
            },
        },
{
    let cases = build_execution_bridge_qmt_manual_interventions_list_output(requests, orders);
    let ghost pending = pending_cases(requests@, orders@);
    let ghost p = choose|p: Seq<int>| listing_witness(cases@, pending, p);
    let manual_intervention = match find_manual_intervention(&cases, lookup) {
        Ok(c) => c,
        Err(e) => {
            proof {
                assert forall|k: int| 0 <= k < pending.len() implies !lookup_names_execution(
                    #[trigger] pending[k].0,
                    pending[k].1,
                    *lookup,
                ) by {
                    assert(covers(p, k));
                    let i = choose|i: int| 0 <= i < p.len() && p[i] == k;
                    lemma_case_named_iff(cases@[i], pending[k].0, pending[k].1, *lookup);
                }
            }
            return Err(e);
        },
    };
    proof {
        let i = choose|i: int|
            0 <= i < cases@.len() && manual_intervention == cases@[i] && case_matches_lookup(
                manual_intervention,
                *lookup,
            ) && forall|j: int| 0 <= j < i ==> !case_matches_lookup(#[trigger] cases@[j], *lookup);
        lemma_case_named_iff(cases@[i], pending[p[i]].0, pending[p[i]].1, *lookup);
        assert(lookup_names_execution(pending[p[i]].0, pending[p[i]].1, *lookup));
        assert(first_case_named(cases@, *lookup, manual_intervention));
    }
    let audit = build_execution_bridge_qmt_audit_output(requests, orders, lookup)?;
    Ok(QmtManualInterventionShow { manual_intervention, audit })
}

/// The actions of `execution qmt manual-interventions`.
#[derive(Clone, Debug, PartialEq, Eq)]
pub enum QmtManualInterventionAction {
    /// List every case.
    List,
    /// Show the case of one lookup.
    Show(QmtAuditLookup),
}

/// The message when `list` gets lookup options.
pub open spec fn list_flags_message() -> Seq<char> {
    "execution qmt manual-interventions list does not accept lookup flags"@
}

/// The message of an unknown action.
pub open spec fn action_message(other: Seq<char>) -> Seq<char> {
    "unsupported qmt_live manual-interventions action: "@ + other + "; expected list or show"@
}

/// The action named on the command line (trimmed): `list`, which takes no
/// lookup options, or `show`, which takes exactly one.
pub fn parse_manual_intervention_action(
    action: &str,
    request_id: Option<String>,
    task_id: Option<String>,
    local_submission_id: Option<String>,
) -> (r: Result<QmtManualInterventionAction, QuantixError>)
    ensures
        crate::text::trim_text(action@) == "list"@ ==> if request_id is Some || task_id is Some
            || local_submission_id is Some {
            r matches Err(QuantixError::Other(m)) && m@ == list_flags_message()
        } else {
            r == Ok::<QmtManualInterventionAction, QuantixError>(QmtManualInterventionAction::List)
        },
        crate::text::trim_text(action@) == "show"@ ==> match (
            crate::execution::normalized_lookup_value(request_id),
            crate::execution::normalized_lookup_value(task_id),
            crate::execution::normalized_lookup_value(local_submission_id),
        ) {
            (Some(v), None, None) => r matches Ok(
                QmtManualInterventionAction::Show(QmtAuditLookup::Request(x)),
            ) && x@ == v,
            (None, Some(v), None) => r matches Ok(
                QmtManualInterventionAction::Show(QmtAuditLookup::Task(x)),
            ) && x@ == v,
            (None, None, Some(v)) => r matches Ok(
                QmtManualInterventionAction::Show(QmtAuditLookup::LocalSubmission(x)),
            ) && x@ == v,
            _ => r matches Err(QuantixError::Other(m)) && m@
                == crate::execution::audit_lookup_message(),
        },
        !(crate::text::trim_text(action@) == "list"@ || crate::text::trim_text(action@)
            == "show"@) ==> (r matches Err(QuantixError::Other(m)) && m@ == action_message(
            crate::text::trim_text(action@),
        )),
{
    let trimmed = crate::text::trim_str(action);
    proof {
        reveal_strlit("list");
        reveal_strlit("show");
        assert("list"@ != "show"@) by {
            assert("list"@[0] != "show"@[0]);
        }
    }
    if str_eq(trimmed, "list") {
        if request_id.is_some() || task_id.is_some() || local_submission_id.is_some() {
            return Err(
                QuantixError::Other(
                    "execution qmt manual-interventions list does not accept lookup flags".to_string(),
                ),
            );
        }
        Ok(QmtManualInterventionAction::List)
    } else if str_eq(trimmed, "show") {
        let lookup = QmtAuditLookup::from_cli(request_id, task_id, local_submission_id)?;
        Ok(QmtManualInterventionAction::Show(lookup))
    } else {
        let mut m = "unsupported qmt_live manual-interventions action: ".to_string();
        m.append(trimmed);
        m.append("; expected list or show");
        Err(QuantixError::Other(m))
    }
}

} // verus!
