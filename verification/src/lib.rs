//! Verified core of a webhook receiver that stores generic webhooks and
//! Trivy Operator security reports in PostgreSQL.
//!
//! The library holds every decision the service makes: which configuration
//! it derives from the environment, which SQL statements initialise the
//! schema and in which order, how a Trivy report is classified and which
//! columns are extracted from it, and which HTTP reply answers each outcome.
//! The I/O around it (HTTP server, database pool, telemetry) lives in `app/`.

pub mod config;
pub mod decimal;
pub mod handlers;
pub mod json;
pub mod models;
pub mod schema;
pub mod store;
pub mod trivy;
