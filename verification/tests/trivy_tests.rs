use wh2pg::handlers::ErrorBody;
use wh2pg::json::{JsonNumber, JsonValue};
use wh2pg::models::TrivyWebhookPayload;
use wh2pg::store::{SqlArg, StoreOutcome};
use wh2pg::trivy::{
    parse_report_kind, plan_report, stored_reply, summary_count_of, unknown_type_reply, ReportKind,
    TrivyReply, TrivyStoredBody, COMPLIANCE_REPORT_INSERT, CONFIGAUDIT_REPORT_INSERT,
    RBAC_REPORT_INSERT, SECRET_REPORT_INSERT, VULNERABILITY_REPORT_INSERT,
};

fn s(t: &str) -> JsonValue {
    JsonValue::String(t.to_string())
}

fn num(n: i64) -> JsonValue {
    if n >= 0 {
        JsonValue::Number(JsonNumber::PosInt(n as u64))
    } else {
        JsonValue::Number(JsonNumber::NegInt(n))
    }
}

fn obj(members: Vec<(&str, JsonValue)>) -> JsonValue {
    JsonValue::Object(members.into_iter().map(|(k, v)| (k.to_string(), v)).collect())
}

fn text(t: &str) -> SqlArg {
    SqlArg::Text(t.to_string())
}

fn opt(t: Option<&str>) -> SqlArg {
    SqlArg::OptionalText(t.map(|x| x.to_string()))
}

fn headers() -> JsonValue {
    obj(vec![("content-type", s("application/json"))])
}

fn payload(report_type: &str, report: JsonValue) -> TrivyWebhookPayload {
    TrivyWebhookPayload {
        report_type: report_type.to_string(),
        name: "replicaset-nginx".to_string(),
        namespace: Some("default".to_string()),
        uid: "uid-1".to_string(),
        report,
    }
}

fn vulnerability_report() -> JsonValue {
    obj(vec![
        ("scanner", obj(vec![("name", s("Trivy")), ("vendor", s("Aqua")), ("version", s("0.50.0"))])),
        ("artifact", obj(vec![("repository", s("library/nginx")), ("tag", s("1.25"))])),
        (
            "summary",
            obj(vec![
                ("criticalCount", num(2)),
                ("highCount", num(5)),
                ("mediumCount", num(7)),
                ("lowCount", num(1)),
                ("unknownCount", num(0)),
            ]),
        ),
    ])
}

#[test]
fn report_kinds() {
    assert_eq!(parse_report_kind("VulnerabilityReport"), Some(ReportKind::Vulnerability));
    assert_eq!(parse_report_kind("ConfigAuditReport"), Some(ReportKind::ConfigAudit));
    assert_eq!(parse_report_kind("RbacAssessmentReport"), Some(ReportKind::RbacAssessment));
    assert_eq!(parse_report_kind("ExposedSecretReport"), Some(ReportKind::ExposedSecret));
    assert_eq!(parse_report_kind("ClusterComplianceReport"), Some(ReportKind::ClusterCompliance));
    assert_eq!(parse_report_kind("vulnerabilityreport"), None);
    assert_eq!(parse_report_kind("SbomReport"), None);
    assert_eq!(parse_report_kind(""), None);
}

#[test]
fn insert_statements_by_kind() {
    assert_eq!(ReportKind::Vulnerability.insert_sql(), VULNERABILITY_REPORT_INSERT);
    assert_eq!(ReportKind::ConfigAudit.insert_sql(), CONFIGAUDIT_REPORT_INSERT);
    assert_eq!(ReportKind::RbacAssessment.insert_sql(), RBAC_REPORT_INSERT);
    assert_eq!(ReportKind::ExposedSecret.insert_sql(), SECRET_REPORT_INSERT);
    assert_eq!(ReportKind::ClusterCompliance.insert_sql(), COMPLIANCE_REPORT_INSERT);
    assert!(VULNERABILITY_REPORT_INSERT.contains("INSERT INTO trivy_vulnerability_reports"));
    assert!(CONFIGAUDIT_REPORT_INSERT.contains("INSERT INTO trivy_configaudit_reports"));
    assert!(RBAC_REPORT_INSERT.contains("INSERT INTO trivy_rbac_reports"));
    assert!(SECRET_REPORT_INSERT.contains("INSERT INTO trivy_secret_reports"));
    assert!(COMPLIANCE_REPORT_INSERT.contains("INSERT INTO trivy_compliance_reports"));
    assert!(VULNERABILITY_REPORT_INSERT.contains("ON CONFLICT (report_uid) DO UPDATE"));
}

#[test]
fn vulnerability_report_plan() {
    let p = payload("VulnerabilityReport", vulnerability_report());
    let plan = plan_report(p, Some("10.1.2.3:4000".to_string()), headers()).unwrap();
    assert_eq!(plan.sql, VULNERABILITY_REPORT_INSERT);
    assert_eq!(
        plan.args,
        vec![
            text("uid-1"),
            text("replicaset-nginx"),
            opt(Some("default")),
            text("Trivy"),
            text("0.50.0"),
            text("library/nginx"),
            opt(Some("1.25")),
            opt(None),
            SqlArg::Integer(2),
            SqlArg::Integer(5),
            SqlArg::Integer(7),
            SqlArg::Integer(1),
            SqlArg::Integer(0),
            SqlArg::Json(vulnerability_report()),
            opt(Some("10.1.2.3:4000")),
            SqlArg::Json(headers()),
        ]
    );
}

#[test]
fn vulnerability_report_defaults_for_empty_report() {
    let p = payload("VulnerabilityReport", obj(vec![]));
    let plan = plan_report(p, None, headers()).unwrap();
    assert_eq!(
        plan.args,
        vec![
            text("uid-1"),
            text("replicaset-nginx"),
            opt(Some("default")),
            text("unknown"),
            text("unknown"),
            text(""),
            opt(None),
            opt(None),
            SqlArg::Integer(0),
            SqlArg::Integer(0),
            SqlArg::Integer(0),
            SqlArg::Integer(0),
            SqlArg::Integer(0),
            SqlArg::Json(obj(vec![])),
            opt(None),
            SqlArg::Json(headers()),
        ]
    );
}

#[test]
fn scanner_name_must_be_a_string() {
    let report = obj(vec![("scanner", obj(vec![("name", num(3)), ("version", JsonValue::Null)]))]);
    let plan = plan_report(payload("ConfigAuditReport", report), None, headers()).unwrap();
    assert_eq!(plan.args[3], text("unknown"));
    assert_eq!(plan.args[4], text("unknown"));
}

#[test]
fn counts_keep_low_32_bits() {
    let summary = |v: JsonValue| obj(vec![("summary", obj(vec![("criticalCount", v)]))]);
    assert_eq!(summary_count_of(&summary(num(4294967297)), "criticalCount"), 1);
    assert_eq!(summary_count_of(&summary(num(2147483648)), "criticalCount"), -2147483648);
    assert_eq!(summary_count_of(&summary(num(-5)), "criticalCount"), -5);
    assert_eq!(
        summary_count_of(&summary(JsonValue::Number(JsonNumber::Float("3.5".to_string()))), "criticalCount"),
        0
    );
    assert_eq!(
        summary_count_of(&summary(JsonValue::Number(JsonNumber::PosInt(u64::MAX))), "criticalCount"),
        0
    );
    assert_eq!(summary_count_of(&summary(s("3")), "criticalCount"), 0);
    assert_eq!(summary_count_of(&summary(num(9)), "highCount"), 0);
}

fn audit_report() -> JsonValue {
    obj(vec![
        ("scanner", obj(vec![("name", s("Trivy")), ("version", s("0.1"))])),
        (
            "summary",
            obj(vec![("criticalCount", num(1)), ("highCount", num(2)), ("mediumCount", num(3)), ("lowCount", num(4))]),
        ),
    ])
}

#[test]
fn audit_reports_plan() {
    for (t, sql) in [
        ("ConfigAuditReport", CONFIGAUDIT_REPORT_INSERT),
        ("RbacAssessmentReport", RBAC_REPORT_INSERT),
        ("ExposedSecretReport", SECRET_REPORT_INSERT),
    ] {
        let mut p = payload(t, audit_report());
        p.namespace = None;
        let plan = plan_report(p, None, headers()).unwrap();
        assert_eq!(plan.sql, sql);
        assert_eq!(
            plan.args,
            vec![
                text("uid-1"),
                text("replicaset-nginx"),
                opt(None),
                text("Trivy"),
                text("0.1"),
                SqlArg::Integer(1),
                SqlArg::Integer(2),
                SqlArg::Integer(3),
                SqlArg::Integer(4),
                SqlArg::Json(audit_report()),
                opt(None),
                SqlArg::Json(headers()),
            ]
        );
    }
}

fn compliance_report() -> JsonValue {
    obj(vec![
        ("title", s("CIS Kubernetes Benchmarks")),
        ("summary", obj(vec![("passCount", num(90)), ("failCount", num(12))])),
    ])
}

#[test]
fn compliance_report_plan() {
    let plan = plan_report(payload("ClusterComplianceReport", compliance_report()), Some("ip".to_string()), headers()).unwrap();
    assert_eq!(plan.sql, COMPLIANCE_REPORT_INSERT);
    assert_eq!(
        plan.args,
        vec![
            text("uid-1"),
            text("replicaset-nginx"),
            text("CIS Kubernetes Benchmarks"),
            SqlArg::Integer(90),
            SqlArg::Integer(12),
            SqlArg::Json(compliance_report()),
            opt(Some("ip")),
            SqlArg::Json(headers()),
        ]
    );
}

#[test]
fn compliance_report_without_title() {
    let plan = plan_report(payload("ClusterComplianceReport", JsonValue::Null), None, headers()).unwrap();
    assert_eq!(plan.args[2], text(""));
    assert_eq!(plan.args[3], SqlArg::Integer(0));
}

#[test]
fn unknown_report_type_refused() {
    let r = plan_report(payload("SbomReport", vulnerability_report()), None, headers());
    let reply = r.unwrap_err();
    assert_eq!(reply.status_code(), 400);
    assert_eq!(
        reply,
        TrivyReply::BadRequest(ErrorBody {
            status: "error".to_string(),
            message: "Unknown report type: SbomReport".to_string(),
        })
    );
    assert_eq!(unknown_type_reply(""), TrivyReply::BadRequest(ErrorBody {
        status: "error".to_string(),
        message: "Unknown report type: ".to_string(),
    }));
}

#[test]
fn stored_report_reply() {
    let r = stored_reply("VulnerabilityReport", StoreOutcome::Stored(Some(17)));
    assert_eq!(r.status_code(), 200);
    assert_eq!(
        r,
        TrivyReply::Stored(TrivyStoredBody {
            status: "success".to_string(),
            id: 17,
            report_type: "VulnerabilityReport".to_string(),
            message: "Trivy report received and stored".to_string(),
        })
    );
    match stored_reply("ConfigAuditReport", StoreOutcome::Stored(None)) {
        TrivyReply::Stored(body) => assert_eq!(body.id, 0),
        _ => panic!("expected a stored reply"),
    }
}

#[test]
fn failed_report_reply() {
    let r = stored_reply("VulnerabilityReport", StoreOutcome::Failed);
    assert_eq!(r.status_code(), 500);
    assert_eq!(
        r,
        TrivyReply::ServerError(ErrorBody {
            status: "error".to_string(),
            message: "Failed to store Trivy report".to_string(),
        })
    );
}

#[test]
fn arguments_match_placeholders() {
    for t in [
        "VulnerabilityReport",
        "ConfigAuditReport",
        "RbacAssessmentReport",
        "ExposedSecretReport",
        "ClusterComplianceReport",
    ] {
        let plan = plan_report(payload(t, vulnerability_report()), None, headers()).unwrap();
        let placeholders = plan.sql.matches('$').count();
        assert_eq!(placeholders, plan.args.len(), "{}", t);
        let n = plan.args.len();
        assert_eq!(plan.args[n - 3], SqlArg::Json(vulnerability_report()));
        assert_eq!(plan.args[n - 2], opt(None));
        assert_eq!(plan.args[n - 1], SqlArg::Json(headers()));
    }
    let webhook = wh2pg::handlers::webhook_insert(obj(vec![]), None, headers());
    assert_eq!(webhook.sql.matches('$').count(), webhook.args.len());
}
