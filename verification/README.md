# wh2pg

A webhook receiver that stores generic webhook events and Trivy Operator
security reports in PostgreSQL.

- `src/` is the verified library (Verus): configuration from environment
  variables (`config`, with decimal parsing in `decimal`), the schema
  statements and the run that executes them in order (`schema`), a model of
  JSON documents and the request-headers document (`json`), the insertions
  and their arguments (`store`), the Trivy report types, the columns
  extracted from each report and the replies (`trivy`), and the replies of
  the generic webhook, health and metrics endpoints (`handlers`).
- `app/` is the HTTP service around it: actix-web handlers, the sqlx pool
  and queries, telemetry and Prometheus metrics.
- `tests/` exercises the library on concrete values.
