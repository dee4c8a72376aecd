//! The audit document of a qmt_live execution, as `execution qmt audit`
//! prints it: the lookup, the request (its raw account always `null`), the
//! order facts and the qmt_live identities.
use vstd::prelude::*;
use crate::json_doc::{
    document_view, fields_view, int_or_null, opt_int_scalar, opt_text_scalar, text_or_null, text_scalar,
    JsonDocument, JsonMember, JsonScalar, MemberSpec, ScalarSpec,
};
use crate::qmt_audit::QmtAuditOutput;

verus! {

/// The `lookup` member: the lookup's type and value.
pub open spec fn audit_lookup_fields(out: QmtAuditOutput) -> Seq<(Seq<char>, ScalarSpec)> {
    seq![("type"@, ScalarSpec::Text(out.lookup_type@)), ("value"@, ScalarSpec::Text(out.lookup_value@))]
}

/// The `request` member: id, mode, redacted account, and the raw account
/// as `null`.
pub open spec fn audit_request_fields(out: QmtAuditOutput) -> Seq<(Seq<char>, ScalarSpec)> {
    seq![
        ("request_id"@, ScalarSpec::Text(out.request_id@)),
        ("target_mode"@, ScalarSpec::Text(out.target_mode@)),
        ("redacted_account_label"@, ScalarSpec::Text(out.redacted_account_label@)),
        ("target_account_raw"@, ScalarSpec::Null),
    ]
}

/// The `order` member: symbol, side, quantity, order type and price.
pub open spec fn audit_order_fields(out: QmtAuditOutput) -> Seq<(Seq<char>, ScalarSpec)> {
    seq![
        ("symbol"@, opt_text_scalar(out.symbol)),
        ("side"@, opt_text_scalar(out.side)),
        ("quantity"@, opt_int_scalar(out.quantity)),
        ("order_type"@, opt_text_scalar(out.order_type)),
        ("price_intent"@, opt_text_scalar(out.price_intent)),
    ]
}

/// The `qmt_live` member: the identities, the failure category, the last
/// reconciliation decision and the operator marker.
pub open spec fn audit_qmt_live_fields(out: QmtAuditOutput) -> Seq<(Seq<char>, ScalarSpec)> {
    seq![
        ("local_submission_id"@, opt_text_scalar(out.local_submission_id)),
        ("client_order_id"@, opt_text_scalar(out.client_order_id)),
        ("task_id"@, opt_text_scalar(out.task_id)),
        ("external_order_id"@, opt_text_scalar(out.external_order_id)),
        ("bridge_contract_version"@, opt_text_scalar(out.bridge_contract_version)),
        ("qmt_live_error_category"@, opt_text_scalar(out.qmt_live_error_category)),
        ("reconciliation_decision"@, opt_text_scalar(out.reconciliation_decision)),
        ("manual_intervention_marker"@, ScalarSpec::Bool(out.manual_intervention_marker)),
    ]
}

/// The audit document of the report.
pub open spec fn audit_document_spec(out: QmtAuditOutput) -> Seq<(Seq<char>, MemberSpec)> {
    seq![
        ("lookup"@, MemberSpec::Object(audit_lookup_fields(out))),
        ("request"@, MemberSpec::Object(audit_request_fields(out))),
        ("order"@, MemberSpec::Object(audit_order_fields(out))),
        ("qmt_live"@, MemberSpec::Object(audit_qmt_live_fields(out))),
    ]
}

fn field(key: &str, value: JsonScalar) -> (r: (String, JsonScalar))
    ensures
        r.0@ == key@,
        r.1 == value,
{
    (key.to_string(), value)
}

fn lookup_fields(out: &QmtAuditOutput) -> (r: Vec<(String, JsonScalar)>)
    ensures
        fields_view(r@) == audit_lookup_fields(*out),
{
    let mut v: Vec<(String, JsonScalar)> = Vec::new();
    v.push(field("type", text_scalar(out.lookup_type.as_str())));
    v.push(field("value", text_scalar(out.lookup_value.as_str())));
    assert(fields_view(v@) =~= audit_lookup_fields(*out));
    v
}

fn request_fields(out: &QmtAuditOutput) -> (r: Vec<(String, JsonScalar)>)
    ensures
        fields_view(r@) == audit_request_fields(*out),
{
    let mut v: Vec<(String, JsonScalar)> = Vec::new();
    v.push(field("request_id", text_scalar(out.request_id.as_str())));
    v.push(field("target_mode", text_scalar(out.target_mode.as_str())));
    v.push(field("redacted_account_label", text_scalar(out.redacted_account_label.as_str())));
    v.push(field("target_account_raw", JsonScalar::Null));
    assert(fields_view(v@) =~= audit_request_fields(*out));
    v
}

fn order_fields(out: &QmtAuditOutput) -> (r: Vec<(String, JsonScalar)>)
    ensures
        fields_view(r@) == audit_order_fields(*out),
{
    let mut v: Vec<(String, JsonScalar)> = Vec::new();
    v.push(field("symbol", text_or_null(&out.symbol)));
    v.push(field("side", text_or_null(&out.side)));
    v.push(field("quantity", int_or_null(out.quantity)));
    v.push(field("order_type", text_or_null(&out.order_type)));
    v.push(field("price_intent", text_or_null(&out.price_intent)));
    assert(fields_view(v@) =~= audit_order_fields(*out));
    v
}

fn qmt_live_fields(out: &QmtAuditOutput) -> (r: Vec<(String, JsonScalar)>)
    ensures
        fields_view(r@) == audit_qmt_live_fields(*out),
{
    let mut v: Vec<(String, JsonScalar)> = Vec::new();
    v.push(field("local_submission_id", text_or_null(&out.local_submission_id)));
    v.push(field("client_order_id", text_or_null(&out.client_order_id)));
    v.push(field("task_id", text_or_null(&out.task_id)));
    v.push(field("external_order_id", text_or_null(&out.external_order_id)));
    v.push(field("bridge_contract_version", text_or_null(&out.bridge_contract_version)));
    v.push(field("qmt_live_error_category", text_or_null(&out.qmt_live_error_category)));
    v.push(field("reconciliation_decision", text_or_null(&out.reconciliation_decision)));
    v.push(field("manual_intervention_marker", JsonScalar::Bool(out.manual_intervention_marker)));
    assert(fields_view(v@) =~= audit_qmt_live_fields(*out));
    v
}

fn object_member(key: &str, fields: Vec<(String, JsonScalar)>) -> (r: (String, JsonMember))
    ensures
        r.0@ == key@,
        r.1 == JsonMember::Object(fields),
{
    (key.to_string(), JsonMember::Object(fields))
}

/// The audit document that `execution qmt audit` prints (see
/// `audit_document_spec`).
pub fn qmt_audit_document(out: &QmtAuditOutput) -> (r: JsonDocument)
    ensures
        document_view(r) == audit_document_spec(*out),
{
    let mut members: Vec<(String, JsonMember)> = Vec::new();
    members.push(object_member("lookup", lookup_fields(out)));
    members.push(object_member("request", request_fields(out)));
    members.push(object_member("order", order_fields(out)));
    members.push(object_member("qmt_live", qmt_live_fields(out)));
    let r = JsonDocument { members };
    assert(document_view(r) =~= audit_document_spec(*out));
    r
}

} // verus!
