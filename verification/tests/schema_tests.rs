use wh2pg::schema::{trivy_schema, webhook_schema, SchemaRun, SchemaStep, TRIVY_COMPLIANCE_RECEIVED_INDEX,
    TRIVY_COMPLIANCE_REPORT_INDEX, TRIVY_VULNERABILITY_TABLE, WEBHOOK_EVENTS_TABLE, WEBHOOK_PAYLOAD_INDEX};

#[test]
fn webhook_schema_order() {
    let s = webhook_schema();
    assert_eq!(s.len(), 3);
    assert_eq!(s[0], WEBHOOK_EVENTS_TABLE);
    assert_eq!(s[2], WEBHOOK_PAYLOAD_INDEX);
    assert!(s[0].contains("CREATE TABLE IF NOT EXISTS webhook_events"));
    assert!(s[1].starts_with("CREATE INDEX"));
}

#[test]
fn trivy_schema_tables_before_indexes() {
    let s = trivy_schema();
    assert_eq!(s.len(), 20);
    assert_eq!(s[0], TRIVY_VULNERABILITY_TABLE);
    assert_eq!(s[14], TRIVY_COMPLIANCE_RECEIVED_INDEX);
    assert_eq!(s[19], TRIVY_COMPLIANCE_REPORT_INDEX);
    for stmt in &s[..5] {
        assert!(stmt.contains("CREATE TABLE IF NOT EXISTS trivy_"));
    }
    for stmt in &s[5..] {
        assert!(stmt.starts_with("CREATE INDEX IF NOT EXISTS"));
    }
}

fn run(total: usize, outcomes: &[bool]) -> (Vec<usize>, SchemaStep) {
    let mut r = SchemaRun::new(total);
    let mut executed = Vec::new();
    let mut k = 0;
    loop {
        match r.step() {
            SchemaStep::Execute(i) => {
                executed.push(i);
                r.record(outcomes[k]);
                k += 1;
            }
            other => return (executed, other),
        }
    }
}

#[test]
fn all_statements_succeed() {
    assert_eq!(run(3, &[true, true, true]), (vec![0, 1, 2], SchemaStep::Complete));
}

#[test]
fn run_stops_at_first_failure() {
    assert_eq!(run(15, &[true, true, false]), (vec![0, 1, 2], SchemaStep::Failed));
    assert_eq!(run(3, &[false]), (vec![0], SchemaStep::Failed));
}

#[test]
fn empty_run_is_complete() {
    assert_eq!(run(0, &[]), (vec![], SchemaStep::Complete));
}

#[test]
fn trivy_schema_indexes_each_full_report() {
    let s = trivy_schema();
    for table in [
        "trivy_vulnerability_reports",
        "trivy_configaudit_reports",
        "trivy_rbac_reports",
        "trivy_secret_reports",
        "trivy_compliance_reports",
    ] {
        let wanted = format!("ON {} USING GIN(full_report);", table);
        assert_eq!(s.iter().filter(|stmt| stmt.ends_with(&wanted)).count(), 1, "{}", table);
    }
}
