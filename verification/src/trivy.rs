//! Trivy Operator reports: which report types the service accepts, the
//! columns it extracts from each, the insertion that stores a report (or
//! updates the stored one with the same uid), and the reply to the sender.

use vstd::prelude::*;
use crate::handlers::{ErrorBody, error_body, is_error_body, webhook_args_of};
use crate::json::{JsonNumber, JsonValue, str_equal, string_opt_view};
use crate::models::TrivyWebhookPayload;
use crate::store::{InsertPlan, SqlArg, SqlArgView, StoreOutcome, args_view, reported_id, stored_id};

verus! {

/// Stores a vulnerability report, or updates the stored one with the same uid, and
/// returns its id.
pub const VULNERABILITY_REPORT_INSERT: &'static str = r#"
        INSERT INTO trivy_vulnerability_reports 
        (report_uid, name, namespace, scanner_name, scanner_version, 
         image_repository, image_tag, image_digest,
         critical_count, high_count, medium_count, low_count, unknown_count,
         full_report, source_ip, headers)
        VALUES ($1, $2, $3, $4, $5, $6, $7, $8, $9, $10, $11, $12, $13, $14, $15, $16)
        ON CONFLICT (report_uid) DO UPDATE SET
            critical_count = EXCLUDED.critical_count,
            high_count = EXCLUDED.high_count,
            medium_count = EXCLUDED.medium_count,
            low_count = EXCLUDED.low_count,
            unknown_count = EXCLUDED.unknown_count,
            full_report = EXCLUDED.full_report,
            received_at = NOW()
        RETURNING id
        "#;

/// Stores a configuration audit report, or updates the stored one with the same uid, and
/// returns its id.
pub const CONFIGAUDIT_REPORT_INSERT: &'static str = r#"
        INSERT INTO trivy_configaudit_reports 
        (report_uid, name, namespace, scanner_name, scanner_version,
         critical_count, high_count, medium_count, low_count,
         full_report, source_ip, headers)
        VALUES ($1, $2, $3, $4, $5, $6, $7, $8, $9, $10, $11, $12)
        ON CONFLICT (report_uid) DO UPDATE SET
            critical_count = EXCLUDED.critical_count,
            high_count = EXCLUDED.high_count,
            medium_count = EXCLUDED.medium_count,
            low_count = EXCLUDED.low_count,
            full_report = EXCLUDED.full_report,
            received_at = NOW()
        RETURNING id
        "#;

/// Stores an RBAC assessment report, or updates the stored one with the same uid, and
/// returns its id.
pub const RBAC_REPORT_INSERT: &'static str = r#"
        INSERT INTO trivy_rbac_reports 
        (report_uid, name, namespace, scanner_name, scanner_version,
         critical_count, high_count, medium_count, low_count,
         full_report, source_ip, headers)
        VALUES ($1, $2, $3, $4, $5, $6, $7, $8, $9, $10, $11, $12)
        ON CONFLICT (report_uid) DO UPDATE SET
            critical_count = EXCLUDED.critical_count,
            high_count = EXCLUDED.high_count,
            medium_count = EXCLUDED.medium_count,
            low_count = EXCLUDED.low_count,
            full_report = EXCLUDED.full_report,
            received_at = NOW()
        RETURNING id
        "#;

/// Stores an exposed secret report, or updates the stored one with the same uid, and
/// returns its id.
pub const SECRET_REPORT_INSERT: &'static str = r#"
        INSERT INTO trivy_secret_reports 
        (report_uid, name, namespace, scanner_name, scanner_version,
         critical_count, high_count, medium_count, low_count,
         full_report, source_ip, headers)
        VALUES ($1, $2, $3, $4, $5, $6, $7, $8, $9, $10, $11, $12)
        ON CONFLICT (report_uid) DO UPDATE SET
            critical_count = EXCLUDED.critical_count,
            high_count = EXCLUDED.high_count,
            medium_count = EXCLUDED.medium_count,
            low_count = EXCLUDED.low_count,
            full_report = EXCLUDED.full_report,
            received_at = NOW()
        RETURNING id
        "#;

/// Stores a cluster compliance report, or updates the stored one with the same uid, and
/// returns its id.
pub const COMPLIANCE_REPORT_INSERT: &'static str = r#"
        INSERT INTO trivy_compliance_reports 
        (report_uid, name, compliance_title, pass_count, fail_count,
         full_report, source_ip, headers)
        VALUES ($1, $2, $3, $4, $5, $6, $7, $8)
        ON CONFLICT (report_uid) DO UPDATE SET
            pass_count = EXCLUDED.pass_count,
            fail_count = EXCLUDED.fail_count,
            full_report = EXCLUDED.full_report,
            received_at = NOW()
        RETURNING id
        "#;

/// The kinds of Trivy report the service stores.
#[derive(Debug, Clone, Copy, PartialEq, Eq)]
pub enum ReportKind {
    Vulnerability,
    ConfigAudit,
    RbacAssessment,
    ExposedSecret,
    ClusterCompliance,
}

/// The kind of report a report type names, if the service stores it.
pub open spec fn report_kind_of(report_type: Seq<char>) -> Option<ReportKind> {
    if report_type == "VulnerabilityReport"@ {
        Some(ReportKind::Vulnerability)
    } else if report_type == "ConfigAuditReport"@ {
        Some(ReportKind::ConfigAudit)
    } else if report_type == "RbacAssessmentReport"@ {
        Some(ReportKind::RbacAssessment)
    } else if report_type == "ExposedSecretReport"@ {
        Some(ReportKind::ExposedSecret)
    } else if report_type == "ClusterComplianceReport"@ {
        Some(ReportKind::ClusterCompliance)
    } else {
        None
    }
}

/// Returns the kind of report a report type names.
pub fn parse_report_kind(report_type: &str) -> (r: Option<ReportKind>)
    ensures
        r == report_kind_of(report_type@),
{
    if str_equal(report_type, "VulnerabilityReport") {
        Some(ReportKind::Vulnerability)
    } else if str_equal(report_type, "ConfigAuditReport") {
        Some(ReportKind::ConfigAudit)
    } else if str_equal(report_type, "RbacAssessmentReport") {
        Some(ReportKind::RbacAssessment)
    } else if str_equal(report_type, "ExposedSecretReport") {
        Some(ReportKind::ExposedSecret)
    } else if str_equal(report_type, "ClusterComplianceReport") {
        Some(ReportKind::ClusterCompliance)
    } else {
        None
    }
}

impl ReportKind {
    /// The statement that stores a report of this kind.
    pub open spec fn insert_sql_of(self) -> &'static str {
        match self {
            ReportKind::Vulnerability => VULNERABILITY_REPORT_INSERT,
            ReportKind::ConfigAudit => CONFIGAUDIT_REPORT_INSERT,
            ReportKind::RbacAssessment => RBAC_REPORT_INSERT,
            ReportKind::ExposedSecret => SECRET_REPORT_INSERT,
            ReportKind::ClusterCompliance => COMPLIANCE_REPORT_INSERT,
        }
    }

    /// Returns the statement that stores a report of this kind.
    pub fn insert_sql(&self) -> (r: &'static str)
        ensures
            r == self.insert_sql_of(),
    {
        match self {
            ReportKind::Vulnerability => VULNERABILITY_REPORT_INSERT,
            ReportKind::ConfigAudit => CONFIGAUDIT_REPORT_INSERT,
            ReportKind::RbacAssessment => RBAC_REPORT_INSERT,
            ReportKind::ExposedSecret => SECRET_REPORT_INSERT,
            ReportKind::ClusterCompliance => COMPLIANCE_REPORT_INSERT,
        }
    }
}

/// The text of a string value, or `default` for any other value.
pub open spec fn text_or(v: JsonValue, default: Seq<char>) -> Seq<char> {
    match v.text() {
        Some(t) => t,
        None => default,
    }
}

/// A count of the report's `summary`: the low 32 bits of the integer stored
/// under `key`, read as a signed number, or `0` where there is no integer
/// that fits in an `i64`.
pub open spec fn summary_count(report: JsonValue, key: Seq<char>) -> i32 {
    match report.field("summary"@).field(key).integer() {
        Some(n) => n as i32,
        None => 0,
    }
}

/// The name of the scanner that produced the report, `unknown` by default.
pub open spec fn scanner_name_of(report: JsonValue) -> Seq<char> {
    text_or(report.field("scanner"@).field("name"@), "unknown"@)
}

/// The version of the scanner that produced the report, `unknown` by default.
pub open spec fn scanner_version_of(report: JsonValue) -> Seq<char> {
    text_or(report.field("scanner"@).field("version"@), "unknown"@)
}

/// The arguments that store a vulnerability report: uid, name, namespace,
/// scanner name and version, image repository (empty by default), tag and
/// digest, the critical, high, medium, low and unknown counts, the report,
/// the sender's address and the headers.
pub open spec fn vulnerability_args_of(
    payload: TrivyWebhookPayload,
    source_ip: Option<String>,
    headers: JsonValue,
) -> Seq<SqlArgView> {
    let report = payload.report;
    let artifact = report.field("artifact"@);
    seq![
        SqlArgView::Text(payload.uid@),
        SqlArgView::Text(payload.name@),
        SqlArgView::OptionalText(string_opt_view(payload.namespace)),
        SqlArgView::Text(scanner_name_of(report)),
        SqlArgView::Text(scanner_version_of(report)),
        SqlArgView::Text(text_or(artifact.field("repository"@), ""@)),
        SqlArgView::OptionalText(artifact.field("tag"@).text()),
        SqlArgView::OptionalText(artifact.field("digest"@).text()),
        SqlArgView::Integer(summary_count(report, "criticalCount"@)),
        SqlArgView::Integer(summary_count(report, "highCount"@)),
        SqlArgView::Integer(summary_count(report, "mediumCount"@)),
        SqlArgView::Integer(summary_count(report, "lowCount"@)),
        SqlArgView::Integer(summary_count(report, "unknownCount"@)),
        SqlArgView::Json(report),
        SqlArgView::OptionalText(string_opt_view(source_ip)),
        SqlArgView::Json(headers),
    ]
}

/// The arguments that store a configuration audit, RBAC assessment or
/// exposed secret report: uid, name, namespace, scanner name and version,
/// the critical, high, medium and low counts, the report, the sender's
/// address and the headers.
pub open spec fn audit_args_of(
    payload: TrivyWebhookPayload,
    source_ip: Option<String>,
    headers: JsonValue,
) -> Seq<SqlArgView> {
    let report = payload.report;
    seq![
        SqlArgView::Text(payload.uid@),
        SqlArgView::Text(payload.name@),
        SqlArgView::OptionalText(string_opt_view(payload.namespace)),
        SqlArgView::Text(scanner_name_of(report)),
        SqlArgView::Text(scanner_version_of(report)),
        SqlArgView::Integer(summary_count(report, "criticalCount"@)),
        SqlArgView::Integer(summary_count(report, "highCount"@)),
        SqlArgView::Integer(summary_count(report, "mediumCount"@)),
        SqlArgView::Integer(summary_count(report, "lowCount"@)),
        SqlArgView::Json(report),
        SqlArgView::OptionalText(string_opt_view(source_ip)),
        SqlArgView::Json(headers),
    ]
}

/// The arguments that store a cluster compliance report: uid, name, the
/// compliance title (empty by default), the pass and fail counts, the
/// report, the sender's address and the headers.
pub open spec fn compliance_args_of(
    payload: TrivyWebhookPayload,
    source_ip: Option<String>,
    headers: JsonValue,
) -> Seq<SqlArgView> {
    let report = payload.report;
    seq![
        SqlArgView::Text(payload.uid@),
        SqlArgView::Text(payload.name@),
        SqlArgView::Text(text_or(report.field("title"@), Seq::empty())),
        SqlArgView::Integer(summary_count(report, "passCount"@)),
        SqlArgView::Integer(summary_count(report, "failCount"@)),
        SqlArgView::Json(report),
        SqlArgView::OptionalText(string_opt_view(source_ip)),
        SqlArgView::Json(headers),
    ]
}

/// The arguments that store a report of the given kind.
pub open spec fn report_args_of(
    kind: ReportKind,
    payload: TrivyWebhookPayload,
    source_ip: Option<String>,
    headers: JsonValue,
) -> Seq<SqlArgView> {
    match kind {
        ReportKind::Vulnerability => vulnerability_args_of(payload, source_ip, headers),
        ReportKind::ClusterCompliance => compliance_args_of(payload, source_ip, headers),
        _ => audit_args_of(payload, source_ip, headers),
    }
}

/// Returns the text of `v[outer][inner]`, or `default` where it is not a string.
pub fn nested_text(v: &JsonValue, outer: &str, inner: &str, default: &str) -> (r: String)
    ensures
        r@ == text_or(v.field(outer@).field(inner@), default@),
{
    match v.get_field(outer).get_field(inner).as_str() {
        Some(s) => String::from_str(s),
        None => String::from_str(default),
    }
}

/// Returns the text of `v[outer][inner]` where it is a string.
pub fn nested_optional_text(v: &JsonValue, outer: &str, inner: &str) -> (r: Option<String>)
    ensures
        string_opt_view(r) == v.field(outer@).field(inner@).text(),
{
    match v.get_field(outer).get_field(inner).as_str() {
        Some(s) => Some(String::from_str(s)),
        None => None,
    }
}

/// Returns the count stored under `key` in the report's summary.
pub fn summary_count_of(report: &JsonValue, key: &str) -> (r: i32)
    ensures
        r == summary_count(*report, key@),
{
    match report.get_field("summary").get_field(key).as_i64() {
        Some(n) => n as i32,
        None => 0,
    }
}

/// Returns the insertion that stores a report of the given kind.
pub fn report_insert(
    kind: ReportKind,
    payload: TrivyWebhookPayload,
    source_ip: Option<String>,
    headers: JsonValue,
) -> (plan: InsertPlan)
    ensures
        plan.sql == kind.insert_sql_of(),
        args_view(plan.args@) == report_args_of(kind, payload, source_ip, headers),
{
    let ghost p = payload;
    let ghost ip = source_ip;
    let ghost h = headers;
    let TrivyWebhookPayload { report_type: _, name, namespace, uid, report } = payload;
    let args = match kind {
        ReportKind::Vulnerability => {
            let scanner_name = nested_text(&report, "scanner", "name", "unknown");
            let scanner_version = nested_text(&report, "scanner", "version", "unknown");
            let repository = nested_text(&report, "artifact", "repository", "");
            let tag = nested_optional_text(&report, "artifact", "tag");
            let digest = nested_optional_text(&report, "artifact", "digest");
            let critical = summary_count_of(&report, "criticalCount");
            let high = summary_count_of(&report, "highCount");
            let medium = summary_count_of(&report, "mediumCount");
            let low = summary_count_of(&report, "lowCount");
            let unknown = summary_count_of(&report, "unknownCount");
            let args = vec![
                SqlArg::Text(uid),
                SqlArg::Text(name),
                SqlArg::OptionalText(namespace),
                SqlArg::Text(scanner_name),
                SqlArg::Text(scanner_version),
                SqlArg::Text(repository),
                SqlArg::OptionalText(tag),
                SqlArg::OptionalText(digest),
                SqlArg::Integer(critical),
                SqlArg::Integer(high),
                SqlArg::Integer(medium),
                SqlArg::Integer(low),
                SqlArg::Integer(unknown),
                SqlArg::Json(report),
                SqlArg::OptionalText(source_ip),
                SqlArg::Json(headers),
            ];
            assert(args_view(args@) =~= vulnerability_args_of(p, ip, h));
            args
        },
        ReportKind::ClusterCompliance => {
            let title = nested_title(&report);
            let pass = summary_count_of(&report, "passCount");
            let fail = summary_count_of(&report, "failCount");
            let args = vec![
                SqlArg::Text(uid),
                SqlArg::Text(name),
                SqlArg::Text(title),
                SqlArg::Integer(pass),
                SqlArg::Integer(fail),
                SqlArg::Json(report),
                SqlArg::OptionalText(source_ip),
                SqlArg::Json(headers),
            ];
            assert(args_view(args@) =~= compliance_args_of(p, ip, h));
            args
        },
        _ => {
            let scanner_name = nested_text(&report, "scanner", "name", "unknown");
            let scanner_version = nested_text(&report, "scanner", "version", "unknown");
            let critical = summary_count_of(&report, "criticalCount");
            let high = summary_count_of(&report, "highCount");
            let medium = summary_count_of(&report, "mediumCount");
            let low = summary_count_of(&report, "lowCount");
            let args = vec![
                SqlArg::Text(uid),
                SqlArg::Text(name),
                SqlArg::OptionalText(namespace),
                SqlArg::Text(scanner_name),
                SqlArg::Text(scanner_version),
                SqlArg::Integer(critical),
                SqlArg::Integer(high),
                SqlArg::Integer(medium),
                SqlArg::Integer(low),
                SqlArg::Json(report),
                SqlArg::OptionalText(source_ip),
                SqlArg::Json(headers),
            ];
            assert(args_view(args@) =~= audit_args_of(p, ip, h));
            args
        },
    };
    InsertPlan { sql: kind.insert_sql(), args }
}

/// Returns the compliance title of a report, empty where it has none.
pub fn nested_title(report: &JsonValue) -> (r: String)
    ensures
        r@ == text_or(report.field("title"@), Seq::empty()),
{
    match report.get_field("title").as_str() {
        Some(s) => String::from_str(s),
        None => String::new(),
    }
}

/// The body of the reply to a stored Trivy report.
#[derive(Debug, Clone, PartialEq, Eq)]
pub struct TrivyStoredBody {
    pub status: String,
    pub id: i32,
    pub report_type: String,
    pub message: String,
}

/// The reply of the Trivy webhook endpoint.
#[derive(Debug, Clone, PartialEq, Eq)]
pub enum TrivyReply {
    /// `200 OK`: the report was stored.
    Stored(TrivyStoredBody),
    /// `400 Bad Request`: the report type is not one the service stores.
    BadRequest(ErrorBody),
    /// `500 Internal Server Error`: the report could not be stored.
    ServerError(ErrorBody),
}

impl TrivyReply {
    pub open spec fn status_code_of(self) -> u16 {
        match self {
            TrivyReply::Stored(_) => 200,
            TrivyReply::BadRequest(_) => 400,
            TrivyReply::ServerError(_) => 500,
        }
    }

    /// Returns the HTTP status code of the reply.
    pub fn status_code(&self) -> (r: u16)
        ensures
            r == self.status_code_of(),
    {
        match self {
            TrivyReply::Stored(_) => 200,
            TrivyReply::BadRequest(_) => 400,
            TrivyReply::ServerError(_) => 500,
        }
    }
}

/// `reply` refuses a report of an unknown type, naming the type.
pub open spec fn is_unknown_type_reply(reply: TrivyReply, report_type: Seq<char>) -> bool {
    match reply {
        TrivyReply::BadRequest(body) => is_error_body(body, "Unknown report type: "@ + report_type),
        _ => false,
    }
}

/// `reply` answers a report of type `report_type` whose insertion had
/// `outcome`: the stored row's id and the report type with status
/// `success`, or a server error.
pub open spec fn is_stored_reply(
    reply: TrivyReply,
    report_type: Seq<char>,
    outcome: StoreOutcome,
) -> bool {
    match outcome {
        StoreOutcome::Stored(id) => match reply {
            TrivyReply::Stored(body) => {
                &&& body.status@ == "success"@
                &&& body.id == reported_id(id)
                &&& body.report_type@ == report_type
                &&& body.message@ == "Trivy report received and stored"@
            },
            _ => false,
        },
        StoreOutcome::Failed => match reply {
            TrivyReply::ServerError(body) => is_error_body(body, "Failed to store Trivy report"@),
            _ => false,
        },
    }
}

/// Returns the reply that refuses a report of an unknown type.
pub fn unknown_type_reply(report_type: &str) -> (r: TrivyReply)
    ensures
        is_unknown_type_reply(r, report_type@),
{
    let message = String::from_str("Unknown report type: ").concat(report_type);
    TrivyReply::BadRequest(ErrorBody { status: String::from_str("error"), message })
}

/// Returns the reply to a report of type `report_type` whose insertion had
/// `outcome`.
pub fn stored_reply(report_type: &str, outcome: StoreOutcome) -> (r: TrivyReply)
    ensures
        is_stored_reply(r, report_type@, outcome),
{
    match outcome {
        StoreOutcome::Stored(id) => TrivyReply::Stored(
            TrivyStoredBody {
                status: String::from_str("success"),
                id: stored_id(id),
                report_type: String::from_str(report_type),
                message: String::from_str("Trivy report received and stored"),
            },
        ),
        StoreOutcome::Failed => TrivyReply::ServerError(error_body("Failed to store Trivy report")),
    }
}

/// Decides what to do with a delivered Trivy report: the insertion that
/// stores it when its type is one the service stores, and otherwise the
/// reply that refuses it, in which case nothing is stored.
pub fn plan_report(payload: TrivyWebhookPayload, source_ip: Option<String>, headers: JsonValue) -> (r:
    Result<InsertPlan, TrivyReply>)
    ensures
        match report_kind_of(payload.report_type@) {
            Some(kind) => match r {
                Ok(plan) => plan.sql == kind.insert_sql_of() && args_view(plan.args@)
                    == report_args_of(kind, payload, source_ip, headers),
                Err(_) => false,
            },
            None => match r {
                Ok(_) => false,
                Err(reply) => is_unknown_type_reply(reply, payload.report_type@),
            },
        },
{
    match parse_report_kind(payload.report_type.as_str()) {
        Some(kind) => Ok(report_insert(kind, payload, source_ip, headers)),
        None => Err(unknown_type_reply(payload.report_type.as_str())),
    }
}

/// Exactly one report type names each kind: two report types that name the
/// same kind are the same type.
pub proof fn lemma_report_kind_names(a: Seq<char>, b: Seq<char>)
    requires
        report_kind_of(a) is Some,
        report_kind_of(a) == report_kind_of(b),
    ensures
        a == b,
{
}

/// Every row a report is stored in ends with the report itself, the
/// sender's address and the request headers, as the row of a generic
/// webhook event ends with the event, the address and the headers.
pub proof fn lemma_received_context_stored(
    kind: ReportKind,
    payload: TrivyWebhookPayload,
    source_ip: Option<String>,
    headers: JsonValue,
)
    ensures
        ({
            let args = report_args_of(kind, payload, source_ip, headers);
            args.len() >= 3 && args.skip(args.len() - 3) =~= webhook_args_of(payload.report, source_ip, headers)
        }),
{
}

/// The status of the reply to a Trivy report: `400` for a type the service
/// does not store, and for one it stores `200` when the insertion succeeded
/// and `500` when it failed.
pub proof fn lemma_trivy_reply_status(report_type: Seq<char>, reply: TrivyReply, outcome: StoreOutcome)
    ensures
        is_unknown_type_reply(reply, report_type) ==> reply.status_code_of() == 400,
        is_stored_reply(reply, report_type, outcome) ==> reply.status_code_of() == if outcome
            is Failed {
            500u16
        } else {
            200u16
        },
{
}

/// The column a string member of the report fills: the member's text when it
/// is a string, and `default` otherwise.
proof fn lemma_text_column(v: JsonValue, default: Seq<char>)
    ensures
        v.text() matches Some(t) ==> text_or(v, default) == t,
        v.text() is None ==> text_or(v, default) == default,
{
}

/// The storage of a vulnerability report, column by column: `report_uid`,
/// `name` and `namespace` come from the delivery; `scanner_name` and
/// `scanner_version` are the report's `scanner.name` and `scanner.version`
/// where they are strings (`unknown` otherwise); `image_repository` is
/// `artifact.repository` where it is a string (empty otherwise);
/// `image_tag` and `image_digest` are `artifact.tag` and `artifact.digest`
/// where they are strings (NULL otherwise); the five counts are the
/// `summary` integers `criticalCount`, `highCount`, `mediumCount`,
/// `lowCount` and `unknownCount` cut to 32 bits (0 where there is no such
/// integer); `full_report` is the report itself.
pub proof fn lemma_vulnerability_columns(
    payload: TrivyWebhookPayload,
    source_ip: Option<String>,
    headers: JsonValue,
)
    ensures
        ({
            let a = report_args_of(ReportKind::Vulnerability, payload, source_ip, headers);
            let report = payload.report;
            let scanner = report.field("scanner"@);
            let artifact = report.field("artifact"@);
            let summary = report.field("summary"@);
            &&& a.len() == 16
            &&& a[0] == SqlArgView::Text(payload.uid@)
            &&& a[1] == SqlArgView::Text(payload.name@)
            &&& a[2] == SqlArgView::OptionalText(string_opt_view(payload.namespace))
            &&& (scanner.field("name"@).text() matches Some(t) ==> a[3] == SqlArgView::Text(t))
            &&& (scanner.field("name"@).text() is None ==> a[3] == SqlArgView::Text("unknown"@))
            &&& (scanner.field("version"@).text() matches Some(t) ==> a[4] == SqlArgView::Text(t))
            &&& (scanner.field("version"@).text() is None ==> a[4] == SqlArgView::Text("unknown"@))
            &&& (artifact.field("repository"@).text() matches Some(t) ==> a[5] == SqlArgView::Text(t))
            &&& (artifact.field("repository"@).text() is None ==> a[5] == SqlArgView::Text(""@))
            &&& a[6] == SqlArgView::OptionalText(artifact.field("tag"@).text())
            &&& a[7] == SqlArgView::OptionalText(artifact.field("digest"@).text())
            &&& a[8] == SqlArgView::Integer(count_column(summary.field("criticalCount"@)))
            &&& a[9] == SqlArgView::Integer(count_column(summary.field("highCount"@)))
            &&& a[10] == SqlArgView::Integer(count_column(summary.field("mediumCount"@)))
            &&& a[11] == SqlArgView::Integer(count_column(summary.field("lowCount"@)))
            &&& a[12] == SqlArgView::Integer(count_column(summary.field("unknownCount"@)))
            &&& a[13] == SqlArgView::Json(report)
        }),
{
    let report = payload.report;
    lemma_text_column(report.field("scanner"@).field("name"@), "unknown"@);
    lemma_text_column(report.field("scanner"@).field("version"@), "unknown"@);
    lemma_text_column(report.field("artifact"@).field("repository"@), ""@);
}

/// The value a count column holds for a summary member: the integer cut to
/// its low 32 bits, read as signed; 0 where the member is not an integer
/// that fits in an `i64`.
pub open spec fn count_column(member: JsonValue) -> i32 {
    match member {
        JsonValue::Number(JsonNumber::PosInt(n)) => if n <= 9223372036854775807u64 {
            n as i32
        } else {
            0
        },
        JsonValue::Number(JsonNumber::NegInt(n)) => n as i32,
        _ => 0,
    }
}

/// The storage of a configuration audit, RBAC assessment or exposed secret
/// report, column by column: `report_uid`, `name` and `namespace` come from
/// the delivery; `scanner_name` and `scanner_version` are the report's
/// `scanner.name` and `scanner.version` where they are strings (`unknown`
/// otherwise); the four counts are the `summary` integers `criticalCount`,
/// `highCount`, `mediumCount` and `lowCount` cut to 32 bits (0 where there
/// is no such integer); `full_report` is the report itself.
pub proof fn lemma_audit_columns(
    kind: ReportKind,
    payload: TrivyWebhookPayload,
    source_ip: Option<String>,
    headers: JsonValue,
)
    requires
        kind == ReportKind::ConfigAudit || kind == ReportKind::RbacAssessment || kind
            == ReportKind::ExposedSecret,
    ensures
        ({
            let a = report_args_of(kind, payload, source_ip, headers);
            let report = payload.report;
            let scanner = report.field("scanner"@);
            let summary = report.field("summary"@);
            &&& a.len() == 12
            &&& a[0] == SqlArgView::Text(payload.uid@)
            &&& a[1] == SqlArgView::Text(payload.name@)
            &&& a[2] == SqlArgView::OptionalText(string_opt_view(payload.namespace))
            &&& (scanner.field("name"@).text() matches Some(t) ==> a[3] == SqlArgView::Text(t))
            &&& (scanner.field("name"@).text() is None ==> a[3] == SqlArgView::Text("unknown"@))
            &&& (scanner.field("version"@).text() matches Some(t) ==> a[4] == SqlArgView::Text(t))
            &&& (scanner.field("version"@).text() is None ==> a[4] == SqlArgView::Text("unknown"@))
            &&& a[5] == SqlArgView::Integer(count_column(summary.field("criticalCount"@)))
            &&& a[6] == SqlArgView::Integer(count_column(summary.field("highCount"@)))
            &&& a[7] == SqlArgView::Integer(count_column(summary.field("mediumCount"@)))
            &&& a[8] == SqlArgView::Integer(count_column(summary.field("lowCount"@)))
            &&& a[9] == SqlArgView::Json(report)
        }),
{
    let report = payload.report;
    lemma_text_column(report.field("scanner"@).field("name"@), "unknown"@);
    lemma_text_column(report.field("scanner"@).field("version"@), "unknown"@);
}

/// The storage of a cluster compliance report, column by column:
/// `report_uid` and `name` come from the delivery; `compliance_title` is the
/// report's `title` where it is a string (empty otherwise); `pass_count` and
/// `fail_count` are the `summary` integers `passCount` and `failCount` cut
/// to 32 bits (0 where there is no such integer); `full_report` is the
/// report itself.
pub proof fn lemma_compliance_columns(
    payload: TrivyWebhookPayload,
    source_ip: Option<String>,
    headers: JsonValue,
)
    ensures
        ({
            let a = report_args_of(ReportKind::ClusterCompliance, payload, source_ip, headers);
            let report = payload.report;
            let summary = report.field("summary"@);
            &&& a.len() == 8
            &&& a[0] == SqlArgView::Text(payload.uid@)
            &&& a[1] == SqlArgView::Text(payload.name@)
            &&& (report.field("title"@).text() matches Some(t) ==> a[2] == SqlArgView::Text(t))
            &&& (report.field("title"@).text() is None ==> a[2] == SqlArgView::Text(Seq::empty()))
            &&& a[3] == SqlArgView::Integer(count_column(summary.field("passCount"@)))
            &&& a[4] == SqlArgView::Integer(count_column(summary.field("failCount"@)))
            &&& a[5] == SqlArgView::Json(report)
        }),
{
    lemma_text_column(payload.report.field("title"@), Seq::empty());
}

/// Every kind of report whose table has a `namespace` column (all but the
/// cluster compliance report) stores the delivery's namespace there, as the
/// third argument.
pub proof fn lemma_namespace_column(
    kind: ReportKind,
    payload: TrivyWebhookPayload,
    source_ip: Option<String>,
    headers: JsonValue,
)
    requires
        kind != ReportKind::ClusterCompliance,
    ensures
        report_args_of(kind, payload, source_ip, headers)[2] == SqlArgView::OptionalText(
            string_opt_view(payload.namespace),
        ),
{
}

/// The report type each kind of report is delivered under.
pub open spec fn delivered_type(kind: ReportKind) -> Seq<char> {
    match kind {
        ReportKind::Vulnerability => "VulnerabilityReport"@,
        ReportKind::ConfigAudit => "ConfigAuditReport"@,
        ReportKind::RbacAssessment => "RbacAssessmentReport"@,
        ReportKind::ExposedSecret => "ExposedSecretReport"@,
        ReportKind::ClusterCompliance => "ClusterComplianceReport"@,
    }
}

/// A report type is accepted exactly when it is the delivered type of some
/// kind, and it then names that kind.
pub proof fn lemma_accepted_report_types(report_type: Seq<char>, kind: ReportKind)
    ensures
        report_kind_of(report_type) == Some(kind) <==> report_type == delivered_type(kind),
{
    reveal_strlit("VulnerabilityReport");
    reveal_strlit("ConfigAuditReport");
    reveal_strlit("RbacAssessmentReport");
    reveal_strlit("ExposedSecretReport");
    reveal_strlit("ClusterComplianceReport");
    assert("VulnerabilityReport"@.len() == 19);
    assert("ConfigAuditReport"@.len() == 17);
    assert("RbacAssessmentReport"@.len() == 20);
    assert("ExposedSecretReport"@.len() == 19);
    assert("ClusterComplianceReport"@.len() == 23);
    assert("VulnerabilityReport"@[0] != "ExposedSecretReport"@[0]);
    assert("VulnerabilityReport"@ != "ExposedSecretReport"@);
}

/// Different kinds of report are stored by different statements, each into
/// its own table.
pub proof fn lemma_insert_statements_distinct(a: ReportKind, b: ReportKind)
    requires
        a != b,
    ensures
        a.insert_sql_of() != b.insert_sql_of(),
{
}

/// The reply to a Trivy report: a stored report is answered with the id
/// read back from its row (0 when it could not be read) and its report
/// type; a failed insertion with `Failed to store Trivy report`; a refused
/// type with `Unknown report type: ` followed by the type.
pub proof fn lemma_trivy_reply_fields(report_type: Seq<char>, reply: TrivyReply, outcome: StoreOutcome)
    ensures
        is_stored_reply(reply, report_type, outcome) ==> {
            &&& outcome matches StoreOutcome::Stored(Some(id)) ==> (reply matches TrivyReply::Stored(
                body,
            ) && body.id == id && body.report_type@ == report_type && body.status@ == "success"@)
            &&& outcome matches StoreOutcome::Stored(None) ==> (reply matches TrivyReply::Stored(body)
                && body.id == 0 && body.report_type@ == report_type)
            &&& outcome is Failed ==> (reply matches TrivyReply::ServerError(body) && body.status@
                == "error"@ && body.message@ == "Failed to store Trivy report"@)
        },
        is_unknown_type_reply(reply, report_type) ==> (reply matches TrivyReply::BadRequest(body)
            && body.status@ == "error"@ && body.message@ == "Unknown report type: "@ + report_type),
{
}

/// The statement each kind of report is stored with.
pub proof fn lemma_insert_statement_of_kind()
    ensures
        ReportKind::Vulnerability.insert_sql_of() == VULNERABILITY_REPORT_INSERT,
        ReportKind::ConfigAudit.insert_sql_of() == CONFIGAUDIT_REPORT_INSERT,
        ReportKind::RbacAssessment.insert_sql_of() == RBAC_REPORT_INSERT,
        ReportKind::ExposedSecret.insert_sql_of() == SECRET_REPORT_INSERT,
        ReportKind::ClusterCompliance.insert_sql_of() == COMPLIANCE_REPORT_INSERT,
{
}

} // verus!
