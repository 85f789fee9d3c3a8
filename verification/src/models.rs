//! The data the service receives and answers with.

use vstd::prelude::*;
use crate::json::JsonValue;

verus! {

/// The body of the reply to a health check.
#[derive(Debug, Clone, PartialEq, Eq)]
pub struct HealthResponse {
    pub status: String,
    pub database: String,
    pub uptime_seconds: u64,
}

/// The body of the reply to a stored generic webhook.
#[derive(Debug, Clone, PartialEq, Eq)]
pub struct WebhookResponse {
    pub status: String,
    pub id: i32,
    pub message: String,
}

/// A Trivy Operator report as delivered to the Trivy webhook: its type
/// (`VulnerabilityReport`, `ConfigAuditReport`, `RbacAssessmentReport`,
/// `ExposedSecretReport` or `ClusterComplianceReport`), the name, namespace
/// and unique id of the report resource, and the report itself.
#[derive(Debug, PartialEq)]
pub struct TrivyWebhookPayload {
    pub report_type: String,
    pub name: String,
    pub namespace: Option<String>,
    pub uid: String,
    pub report: JsonValue,
}

/// The scanner that produced a report.
#[derive(Debug, Clone, PartialEq, Eq)]
pub struct Scanner {
    pub name: String,
    pub vendor: String,
    pub version: String,
}

/// The container registry of a scanned image.
#[derive(Debug, Clone, PartialEq, Eq)]
pub struct Registry {
    pub server: String,
}

/// A scanned container image.
#[derive(Debug, Clone, PartialEq, Eq)]
pub struct Artifact {
    pub repository: String,
    pub tag: Option<String>,
    pub digest: Option<String>,
}

/// The vulnerability counts of a vulnerability report, by severity.
#[derive(Debug, Clone, PartialEq, Eq)]
pub struct Summary {
    pub critical_count: i32,
    pub high_count: i32,
    pub medium_count: i32,
    pub low_count: i32,
    pub unknown_count: i32,
    pub none_count: i32,
}

/// A configuration audit report.
#[derive(Debug, Clone, PartialEq, Eq)]
pub struct ConfigAuditReport {
    pub scanner: Scanner,
    pub summary: ConfigAuditSummary,
    pub checks: Vec<ConfigCheck>,
}

/// The failed-check counts of an audit report, by severity.
#[derive(Debug, Clone, PartialEq, Eq)]
pub struct ConfigAuditSummary {
    pub critical_count: i32,
    pub high_count: i32,
    pub medium_count: i32,
    pub low_count: i32,
}

/// One check of an audit report.
#[derive(Debug, Clone, PartialEq, Eq)]
pub struct ConfigCheck {
    pub check_id: String,
    pub title: String,
    pub severity: String,
    pub category: String,
    pub messages: Vec<String>,
    pub success: bool,
}

/// An RBAC assessment report.
#[derive(Debug, Clone, PartialEq, Eq)]
pub struct RbacAssessmentReport {
    pub scanner: Scanner,
    pub summary: ConfigAuditSummary,
    pub checks: Vec<ConfigCheck>,
}

/// An exposed secret report.
#[derive(Debug, Clone, PartialEq, Eq)]
pub struct ExposedSecretReport {
    pub scanner: Scanner,
    pub summary: SecretSummary,
    pub secrets: Vec<ExposedSecret>,
}

/// The exposed-secret counts of a secret report, by severity.
#[derive(Debug, Clone, PartialEq, Eq)]
pub struct SecretSummary {
    pub critical_count: i32,
    pub high_count: i32,
    pub medium_count: i32,
    pub low_count: i32,
}

/// One exposed secret; `matched` is the text that matched the rule.
#[derive(Debug, Clone, PartialEq, Eq)]
pub struct ExposedSecret {
    pub target: String,
    pub rule_id: String,
    pub title: String,
    pub severity: String,
    pub category: String,
    pub matched: String,
}

/// A cluster compliance report.
#[derive(Debug, Clone, PartialEq, Eq)]
pub struct ClusterComplianceReport {
    pub name: String,
    pub title: String,
    pub summary: ComplianceSummary,
    pub control_checks: Vec<ControlCheck>,
}

/// The passed and failed control counts of a compliance report.
#[derive(Debug, Clone, PartialEq, Eq)]
pub struct ComplianceSummary {
    pub pass_count: i32,
    pub fail_count: i32,
}

/// One control of a compliance report.
#[derive(Debug, Clone, PartialEq, Eq)]
pub struct ControlCheck {
    pub id: String,
    pub name: String,
    pub severity: String,
    pub total_fail: Option<i32>,
}

} // verus!
