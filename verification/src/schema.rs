//! The SQL statements that create the database schema, and the order in
//! which the service runs them at start-up.

use vstd::prelude::*;

verus! {

/// Creates the table of generic webhook events.
pub const WEBHOOK_EVENTS_TABLE: &'static str = r#"
        CREATE TABLE IF NOT EXISTS webhook_events (
            id SERIAL PRIMARY KEY,
            payload JSONB NOT NULL,
            received_at TIMESTAMP WITH TIME ZONE DEFAULT NOW(),
            source_ip VARCHAR(45),
            headers JSONB
        );
        "#;

/// Indexes webhook events by reception time.
pub const WEBHOOK_RECEIVED_INDEX: &'static str = "CREATE INDEX IF NOT EXISTS idx_received_at ON webhook_events(received_at);";

/// Indexes webhook event payloads for JSON queries.
pub const WEBHOOK_PAYLOAD_INDEX: &'static str = "CREATE INDEX IF NOT EXISTS idx_payload ON webhook_events USING GIN(payload);";

/// Creates the table of Trivy vulnerability reports.
pub const TRIVY_VULNERABILITY_TABLE: &'static str = r#"
        CREATE TABLE IF NOT EXISTS trivy_vulnerability_reports (
            id SERIAL PRIMARY KEY,
            report_uid VARCHAR(255) UNIQUE NOT NULL,
            name VARCHAR(255) NOT NULL,
            namespace VARCHAR(255),
            scanner_name VARCHAR(100),
            scanner_version VARCHAR(50),
            image_repository VARCHAR(500),
            image_tag VARCHAR(255),
            image_digest VARCHAR(255),
            critical_count INTEGER DEFAULT 0,
            high_count INTEGER DEFAULT 0,
            medium_count INTEGER DEFAULT 0,
            low_count INTEGER DEFAULT 0,
            unknown_count INTEGER DEFAULT 0,
            full_report JSONB NOT NULL,
            received_at TIMESTAMP WITH TIME ZONE DEFAULT NOW(),
            source_ip VARCHAR(45),
            headers JSONB
        );
        "#;

/// Creates the table of Trivy configuration audit reports.
pub const TRIVY_CONFIGAUDIT_TABLE: &'static str = r#"
        CREATE TABLE IF NOT EXISTS trivy_configaudit_reports (
            id SERIAL PRIMARY KEY,
            report_uid VARCHAR(255) UNIQUE NOT NULL,
            name VARCHAR(255) NOT NULL,
            namespace VARCHAR(255),
            scanner_name VARCHAR(100),
            scanner_version VARCHAR(50),
            critical_count INTEGER DEFAULT 0,
            high_count INTEGER DEFAULT 0,
            medium_count INTEGER DEFAULT 0,
            low_count INTEGER DEFAULT 0,
            full_report JSONB NOT NULL,
            received_at TIMESTAMP WITH TIME ZONE DEFAULT NOW(),
            source_ip VARCHAR(45),
            headers JSONB
        );
        "#;

/// Creates the table of Trivy RBAC assessment reports.
pub const TRIVY_RBAC_TABLE: &'static str = r#"
        CREATE TABLE IF NOT EXISTS trivy_rbac_reports (
            id SERIAL PRIMARY KEY,
            report_uid VARCHAR(255) UNIQUE NOT NULL,
            name VARCHAR(255) NOT NULL,
            namespace VARCHAR(255),
            scanner_name VARCHAR(100),
            scanner_version VARCHAR(50),
            critical_count INTEGER DEFAULT 0,
            high_count INTEGER DEFAULT 0,
            medium_count INTEGER DEFAULT 0,
            low_count INTEGER DEFAULT 0,
            full_report JSONB NOT NULL,
            received_at TIMESTAMP WITH TIME ZONE DEFAULT NOW(),
            source_ip VARCHAR(45),
            headers JSONB
        );
        "#;

/// Creates the table of Trivy exposed secret reports.
pub const TRIVY_SECRET_TABLE: &'static str = r#"
        CREATE TABLE IF NOT EXISTS trivy_secret_reports (
            id SERIAL PRIMARY KEY,
            report_uid VARCHAR(255) UNIQUE NOT NULL,
            name VARCHAR(255) NOT NULL,
            namespace VARCHAR(255),
            scanner_name VARCHAR(100),
            scanner_version VARCHAR(50),
            critical_count INTEGER DEFAULT 0,
            high_count INTEGER DEFAULT 0,
            medium_count INTEGER DEFAULT 0,
            low_count INTEGER DEFAULT 0,
            full_report JSONB NOT NULL,
            received_at TIMESTAMP WITH TIME ZONE DEFAULT NOW(),
            source_ip VARCHAR(45),
            headers JSONB
        );
        "#;

/// Creates the table of Trivy cluster compliance reports.
pub const TRIVY_COMPLIANCE_TABLE: &'static str = r#"
        CREATE TABLE IF NOT EXISTS trivy_compliance_reports (
            id SERIAL PRIMARY KEY,
            report_uid VARCHAR(255) UNIQUE NOT NULL,
            name VARCHAR(255) NOT NULL,
            compliance_title VARCHAR(255),
            pass_count INTEGER DEFAULT 0,
            fail_count INTEGER DEFAULT 0,
            full_report JSONB NOT NULL,
            received_at TIMESTAMP WITH TIME ZONE DEFAULT NOW(),
            source_ip VARCHAR(45),
            headers JSONB
        );
        "#;

/// Indexes vulnerability reports by namespace.
pub const TRIVY_VULN_NAMESPACE_INDEX: &'static str = "CREATE INDEX IF NOT EXISTS idx_vuln_namespace ON trivy_vulnerability_reports(namespace);";

/// Indexes vulnerability reports by reception time.
pub const TRIVY_VULN_RECEIVED_INDEX: &'static str = "CREATE INDEX IF NOT EXISTS idx_vuln_received ON trivy_vulnerability_reports(received_at);";

/// Indexes vulnerability reports by critical and high counts.
pub const TRIVY_VULN_SEVERITY_INDEX: &'static str = "CREATE INDEX IF NOT EXISTS idx_vuln_severity ON trivy_vulnerability_reports(critical_count, high_count);";

/// Indexes configuration audit reports by namespace.
pub const TRIVY_CONFIG_NAMESPACE_INDEX: &'static str = "CREATE INDEX IF NOT EXISTS idx_config_namespace ON trivy_configaudit_reports(namespace);";

/// Indexes configuration audit reports by reception time.
pub const TRIVY_CONFIG_RECEIVED_INDEX: &'static str = "CREATE INDEX IF NOT EXISTS idx_config_received ON trivy_configaudit_reports(received_at);";

/// Indexes RBAC assessment reports by namespace.
pub const TRIVY_RBAC_NAMESPACE_INDEX: &'static str = "CREATE INDEX IF NOT EXISTS idx_rbac_namespace ON trivy_rbac_reports(namespace);";

/// Indexes RBAC assessment reports by reception time.
pub const TRIVY_RBAC_RECEIVED_INDEX: &'static str = "CREATE INDEX IF NOT EXISTS idx_rbac_received ON trivy_rbac_reports(received_at);";

/// Indexes exposed secret reports by namespace.
pub const TRIVY_SECRET_NAMESPACE_INDEX: &'static str = "CREATE INDEX IF NOT EXISTS idx_secret_namespace ON trivy_secret_reports(namespace);";

/// Indexes exposed secret reports by reception time.
pub const TRIVY_SECRET_RECEIVED_INDEX: &'static str = "CREATE INDEX IF NOT EXISTS idx_secret_received ON trivy_secret_reports(received_at);";

/// Indexes cluster compliance reports by reception time.
pub const TRIVY_COMPLIANCE_RECEIVED_INDEX: &'static str = "CREATE INDEX IF NOT EXISTS idx_compliance_received ON trivy_compliance_reports(received_at);";

/// Indexes the full vulnerability reports for JSON queries.
pub const TRIVY_VULN_REPORT_INDEX: &'static str = "CREATE INDEX IF NOT EXISTS idx_vuln_report ON trivy_vulnerability_reports USING GIN(full_report);";

/// Indexes the full configuration audit reports for JSON queries.
pub const TRIVY_CONFIG_REPORT_INDEX: &'static str = "CREATE INDEX IF NOT EXISTS idx_config_report ON trivy_configaudit_reports USING GIN(full_report);";

/// Indexes the full RBAC assessment reports for JSON queries.
pub const TRIVY_RBAC_REPORT_INDEX: &'static str = "CREATE INDEX IF NOT EXISTS idx_rbac_report ON trivy_rbac_reports USING GIN(full_report);";

/// Indexes the full exposed secret reports for JSON queries.
pub const TRIVY_SECRET_REPORT_INDEX: &'static str = "CREATE INDEX IF NOT EXISTS idx_secret_report ON trivy_secret_reports USING GIN(full_report);";

/// Indexes the full cluster compliance reports for JSON queries.
pub const TRIVY_COMPLIANCE_REPORT_INDEX: &'static str = "CREATE INDEX IF NOT EXISTS idx_compliance_report ON trivy_compliance_reports USING GIN(full_report);";

/// The statements that create the generic webhook schema, in the order they run.
pub open spec fn webhook_schema_spec() -> Seq<&'static str> {
    seq![WEBHOOK_EVENTS_TABLE, WEBHOOK_RECEIVED_INDEX, WEBHOOK_PAYLOAD_INDEX]
}

/// The statements that create the Trivy report schema, in the order they
/// run: the five tables, then their indexes, ending with an index on the
/// full report of each table.
pub open spec fn trivy_schema_spec() -> Seq<&'static str> {
    seq![
        TRIVY_VULNERABILITY_TABLE,
        TRIVY_CONFIGAUDIT_TABLE,
        TRIVY_RBAC_TABLE,
        TRIVY_SECRET_TABLE,
        TRIVY_COMPLIANCE_TABLE,
        TRIVY_VULN_NAMESPACE_INDEX,
        TRIVY_VULN_RECEIVED_INDEX,
        TRIVY_VULN_SEVERITY_INDEX,
        TRIVY_CONFIG_NAMESPACE_INDEX,
        TRIVY_CONFIG_RECEIVED_INDEX,
        TRIVY_RBAC_NAMESPACE_INDEX,
        TRIVY_RBAC_RECEIVED_INDEX,
        TRIVY_SECRET_NAMESPACE_INDEX,
        TRIVY_SECRET_RECEIVED_INDEX,
        TRIVY_COMPLIANCE_RECEIVED_INDEX,
        TRIVY_VULN_REPORT_INDEX,
        TRIVY_CONFIG_REPORT_INDEX,
        TRIVY_RBAC_REPORT_INDEX,
        TRIVY_SECRET_REPORT_INDEX,
        TRIVY_COMPLIANCE_REPORT_INDEX,
    ]
}

/// Returns the statements that create the generic webhook schema.
pub fn webhook_schema() -> (r: Vec<&'static str>)
    ensures
        r@ == webhook_schema_spec(),
{
    vec![WEBHOOK_EVENTS_TABLE, WEBHOOK_RECEIVED_INDEX, WEBHOOK_PAYLOAD_INDEX]
}

/// Returns the statements that create the Trivy report schema.
pub fn trivy_schema() -> (r: Vec<&'static str>)
    ensures
        r@ == trivy_schema_spec(),
{
    vec![
        TRIVY_VULNERABILITY_TABLE,
        TRIVY_CONFIGAUDIT_TABLE,
        TRIVY_RBAC_TABLE,
        TRIVY_SECRET_TABLE,
        TRIVY_COMPLIANCE_TABLE,
        TRIVY_VULN_NAMESPACE_INDEX,
        TRIVY_VULN_RECEIVED_INDEX,
        TRIVY_VULN_SEVERITY_INDEX,
        TRIVY_CONFIG_NAMESPACE_INDEX,
        TRIVY_CONFIG_RECEIVED_INDEX,
        TRIVY_RBAC_NAMESPACE_INDEX,
        TRIVY_RBAC_RECEIVED_INDEX,
        TRIVY_SECRET_NAMESPACE_INDEX,
        TRIVY_SECRET_RECEIVED_INDEX,
        TRIVY_COMPLIANCE_RECEIVED_INDEX,
        TRIVY_VULN_REPORT_INDEX,
        TRIVY_CONFIG_REPORT_INDEX,
        TRIVY_RBAC_REPORT_INDEX,
        TRIVY_SECRET_REPORT_INDEX,
        TRIVY_COMPLIANCE_REPORT_INDEX,
    ]
}

/// What the schema initialisation does next.
#[derive(Debug, Clone, Copy, PartialEq, Eq)]
pub enum SchemaStep {
    /// Run the statement with this index.
    Execute(usize),
    /// Every statement ran and succeeded.
    Complete,
    /// A statement failed; nothing more runs.
    Failed,
}

/// The progress of running a list of schema statements one after the other,
/// stopping at the first that fails.
pub struct SchemaRun {
    next: usize,
    total: usize,
    failed: bool,
}

/// The abstract state of a schema run.
pub struct SchemaRunView {
    pub next: nat,
    pub total: nat,
    pub failed: bool,
}

impl View for SchemaRun {
    type V = SchemaRunView;

    closed spec fn view(&self) -> SchemaRunView {
        SchemaRunView { next: self.next as nat, total: self.total as nat, failed: self.failed }
    }
}

impl SchemaRunView {
    /// A run never moves past its last statement.
    pub open spec fn well_formed(self) -> bool {
        self.next <= self.total
    }
}

/// The state of a run that has not started.
pub open spec fn fresh_run(total: nat) -> SchemaRunView {
    SchemaRunView { next: 0, total, failed: false }
}

/// The step a run in state `v` takes next.
pub open spec fn step_of(v: SchemaRunView) -> SchemaStep {
    if v.failed {
        SchemaStep::Failed
    } else if v.next < v.total {
        SchemaStep::Execute(v.next as usize)
    } else {
        SchemaStep::Complete
    }
}

/// The state after the statement `v.next` ran, successfully or not.
pub open spec fn after_statement(v: SchemaRunView, succeeded: bool) -> SchemaRunView {
    if succeeded {
        SchemaRunView { next: v.next + 1, ..v }
    } else {
        SchemaRunView { failed: true, ..v }
    }
}

/// The state reached from `v` when the statements that run have the given
/// outcomes, in order; outcomes beyond the point where the run stops are
/// never consulted.
pub open spec fn replay(v: SchemaRunView, outcomes: Seq<bool>) -> SchemaRunView
    decreases outcomes.len(),
{
    if outcomes.len() == 0 {
        v
    } else {
        match step_of(v) {
            SchemaStep::Execute(_) => replay(after_statement(v, outcomes[0]), outcomes.drop_first()),
            _ => v,
        }
    }
}

/// The index of the first failed outcome among the first `n`, if any.
pub open spec fn first_failure(outcomes: Seq<bool>, n: nat) -> Option<nat>
    decreases n,
{
    if n == 0 || outcomes.len() == 0 {
        None
    } else if !outcomes[0] {
        Some(0)
    } else {
        match first_failure(outcomes.drop_first(), (n - 1) as nat) {
            Some(i) => Some(i + 1),
            None => None,
        }
    }
}

impl SchemaRun {
    /// Starts a run of `total` statements.
    pub fn new(total: usize) -> (r: SchemaRun)
        ensures
            r@ == fresh_run(total as nat),
            r@.well_formed(),
    {
        SchemaRun { next: 0, total, failed: false }
    }

    /// Returns the step to take next.
    pub fn step(&self) -> (s: SchemaStep)
        ensures
            s == step_of(self@),
    {
        if self.failed {
            SchemaStep::Failed
        } else if self.next < self.total {
            SchemaStep::Execute(self.next)
        } else {
            SchemaStep::Complete
        }
    }

    /// Records the outcome of the statement that `step` asked to run.
    pub fn record(&mut self, succeeded: bool)
        requires
            step_of(old(self)@) is Execute,
        ensures
            final(self)@ == after_statement(old(self)@, succeeded),
            final(self)@.well_formed(),
    {
        if succeeded {
            self.next = self.next + 1;
        } else {
            self.failed = true;
        }
    }
}

/// Running statements one after the other from the start: when the first
/// `k` statements succeeded and the `k+1`-th failed, the run stops there
/// having run exactly those `k + 1` statements; when no statement failed, it
/// has run as many as outcomes were given, and it is complete once all
/// `total` statements succeeded.
pub proof fn lemma_schema_run(total: nat, outcomes: Seq<bool>)
    requires
        outcomes.len() <= total,
    ensures
        first_failure(outcomes, total) matches Some(k) ==> replay(fresh_run(total), outcomes)
            == (SchemaRunView { next: k, total, failed: true }),
        first_failure(outcomes, total) is None ==> replay(fresh_run(total), outcomes)
            == (SchemaRunView { next: outcomes.len(), total, failed: false }),
        step_of(replay(fresh_run(total), outcomes)) == SchemaStep::Complete <==> (
        outcomes.len() == total && first_failure(outcomes, total) is None),
{
    lemma_replay_from(0, total, outcomes);
}

proof fn lemma_replay_from(k: nat, total: nat, outcomes: Seq<bool>)
    requires
        k + outcomes.len() <= total,
    ensures
        first_failure(outcomes, (total - k) as nat) matches Some(f) ==> replay(
            SchemaRunView { next: k, total, failed: false },
            outcomes,
        ) == (SchemaRunView { next: k + f, total, failed: true }),
        first_failure(outcomes, (total - k) as nat) is None ==> replay(
            SchemaRunView { next: k, total, failed: false },
            outcomes,
        ) == (SchemaRunView { next: k + outcomes.len(), total, failed: false }),
    decreases outcomes.len(),
{
    if outcomes.len() > 0 {
        let v = SchemaRunView { next: k, total, failed: false };
        let rest = outcomes.drop_first();
        lemma_replay_from(k + 1, total, rest);
        assert(step_of(v) == SchemaStep::Execute(k as usize));
        if !outcomes[0] {
            let w = after_statement(v, false);
            assert(step_of(w) == SchemaStep::Failed);
            assert(replay(w, rest) == w);
            assert(first_failure(outcomes, (total - k) as nat) == Some(0nat));
        } else {
            assert(((total - k) as nat - 1) as nat == (total - (k + 1)) as nat);
        }
    }
}

/// The generic webhook schema creates the events table, then its two
/// indexes, each exactly once.
pub proof fn lemma_webhook_schema_contents()
    ensures
        webhook_schema_spec().len() == 3,
        webhook_schema_spec()[0] == WEBHOOK_EVENTS_TABLE,
        forall|i: int, j: int|
            0 <= i < j < webhook_schema_spec().len() ==> webhook_schema_spec()[i]
                != webhook_schema_spec()[j],
        webhook_schema_spec().contains(WEBHOOK_RECEIVED_INDEX),
        webhook_schema_spec().contains(WEBHOOK_PAYLOAD_INDEX),
{
    assert(webhook_schema_spec()[1] == WEBHOOK_RECEIVED_INDEX);
    assert(webhook_schema_spec()[2] == WEBHOOK_PAYLOAD_INDEX);
}

/// The Trivy schema runs twenty distinct statements: the five statements
/// that create the report tables come first, in some order, and every one
/// of the fifteen index statements follows them.
pub proof fn lemma_trivy_schema_contents()
    ensures
        ({
            let s = trivy_schema_spec();
            let tables = s.subrange(0, 5);
            let indexes = s.subrange(5, 20);
            &&& s.len() == 20
            &&& forall|i: int, j: int| 0 <= i < j < s.len() ==> s[i] != s[j]
            &&& tables.contains(TRIVY_VULNERABILITY_TABLE)
            &&& tables.contains(TRIVY_CONFIGAUDIT_TABLE)
            &&& tables.contains(TRIVY_RBAC_TABLE)
            &&& tables.contains(TRIVY_SECRET_TABLE)
            &&& tables.contains(TRIVY_COMPLIANCE_TABLE)
            &&& indexes.contains(TRIVY_VULN_NAMESPACE_INDEX)
            &&& indexes.contains(TRIVY_VULN_RECEIVED_INDEX)
            &&& indexes.contains(TRIVY_VULN_SEVERITY_INDEX)
            &&& indexes.contains(TRIVY_CONFIG_NAMESPACE_INDEX)
            &&& indexes.contains(TRIVY_CONFIG_RECEIVED_INDEX)
            &&& indexes.contains(TRIVY_RBAC_NAMESPACE_INDEX)
            &&& indexes.contains(TRIVY_RBAC_RECEIVED_INDEX)
            &&& indexes.contains(TRIVY_SECRET_NAMESPACE_INDEX)
            &&& indexes.contains(TRIVY_SECRET_RECEIVED_INDEX)
            &&& indexes.contains(TRIVY_COMPLIANCE_RECEIVED_INDEX)
            &&& indexes.contains(TRIVY_VULN_REPORT_INDEX)
            &&& indexes.contains(TRIVY_CONFIG_REPORT_INDEX)
            &&& indexes.contains(TRIVY_RBAC_REPORT_INDEX)
            &&& indexes.contains(TRIVY_SECRET_REPORT_INDEX)
            &&& indexes.contains(TRIVY_COMPLIANCE_REPORT_INDEX)
        }),
{
    let s = trivy_schema_spec();
    let tables = s.subrange(0, 5);
    let indexes = s.subrange(5, 20);
    assert(tables[0] == TRIVY_VULNERABILITY_TABLE);
    assert(tables[1] == TRIVY_CONFIGAUDIT_TABLE);
    assert(tables[2] == TRIVY_RBAC_TABLE);
    assert(tables[3] == TRIVY_SECRET_TABLE);
    assert(tables[4] == TRIVY_COMPLIANCE_TABLE);
    assert(indexes[0] == TRIVY_VULN_NAMESPACE_INDEX);
    assert(indexes[1] == TRIVY_VULN_RECEIVED_INDEX);
    assert(indexes[2] == TRIVY_VULN_SEVERITY_INDEX);
    assert(indexes[3] == TRIVY_CONFIG_NAMESPACE_INDEX);
    assert(indexes[4] == TRIVY_CONFIG_RECEIVED_INDEX);
    assert(indexes[5] == TRIVY_RBAC_NAMESPACE_INDEX);
    assert(indexes[6] == TRIVY_RBAC_RECEIVED_INDEX);
    assert(indexes[7] == TRIVY_SECRET_NAMESPACE_INDEX);
    assert(indexes[8] == TRIVY_SECRET_RECEIVED_INDEX);
    assert(indexes[9] == TRIVY_COMPLIANCE_RECEIVED_INDEX);
    assert(indexes[10] == TRIVY_VULN_REPORT_INDEX);
    assert(indexes[11] == TRIVY_CONFIG_REPORT_INDEX);
    assert(indexes[12] == TRIVY_RBAC_REPORT_INDEX);
    assert(indexes[13] == TRIVY_SECRET_REPORT_INDEX);
    assert(indexes[14] == TRIVY_COMPLIANCE_REPORT_INDEX);
}

} // verus!
