use wh2pg::handlers::{
    health_reply, metrics_reply, webhook_insert, webhook_reply, ErrorBody, MetricsReply,
    WebhookReply, WEBHOOK_EVENT_INSERT,
};
use wh2pg::json::JsonValue;
use wh2pg::models::{HealthResponse, WebhookResponse};
use wh2pg::store::{stored_id, SqlArg, StoreOutcome};

#[test]
fn webhook_insert_arguments() {
    let event = || JsonValue::Object(vec![("event".to_string(), JsonValue::String("push".to_string()))]);
    let plan = webhook_insert(event(), Some("10.0.0.1:5555".to_string()), JsonValue::Object(Vec::new()));
    assert_eq!(plan.sql, WEBHOOK_EVENT_INSERT);
    assert!(plan.sql.contains("INSERT INTO webhook_events (payload, source_ip, headers)"));
    assert_eq!(
        plan.args,
        vec![
            SqlArg::Json(event()),
            SqlArg::OptionalText(Some("10.0.0.1:5555".to_string())),
            SqlArg::Json(JsonValue::Object(Vec::new())),
        ]
    );
}

#[test]
fn webhook_stored_reply() {
    let r = webhook_reply(StoreOutcome::Stored(Some(42)));
    assert_eq!(r.status_code(), 200);
    assert_eq!(
        r,
        WebhookReply::Stored(WebhookResponse {
            status: "success".to_string(),
            id: 42,
            message: "Webhook received and stored".to_string(),
        })
    );
}

#[test]
fn webhook_stored_without_readable_id() {
    match webhook_reply(StoreOutcome::Stored(None)) {
        WebhookReply::Stored(body) => assert_eq!(body.id, 0),
        _ => panic!("expected a stored reply"),
    }
    assert_eq!(stored_id(None), 0);
    assert_eq!(stored_id(Some(-3)), -3);
}

#[test]
fn webhook_failed_reply() {
    let r = webhook_reply(StoreOutcome::Failed);
    assert_eq!(r.status_code(), 500);
    assert_eq!(
        r,
        WebhookReply::ServerError(ErrorBody {
            status: "error".to_string(),
            message: "Failed to store webhook".to_string(),
        })
    );
}

#[test]
fn health_reply_connected() {
    assert_eq!(
        health_reply(true, Some(3600)),
        HealthResponse { status: "healthy".to_string(), database: "connected".to_string(), uptime_seconds: 3600 }
    );
}

#[test]
fn health_reply_status_is_ok_even_when_database_is_down() {
    assert_eq!(health_reply(false, Some(5)).status_code(), 200);
    assert_eq!(health_reply(true, Some(5)).status_code(), 200);
}

#[test]
fn health_reply_disconnected_and_clock_behind() {
    assert_eq!(
        health_reply(false, None),
        HealthResponse { status: "healthy".to_string(), database: "disconnected".to_string(), uptime_seconds: 0 }
    );
}

#[test]
fn metrics_replies() {
    let ok = metrics_reply(Some(b"up 1\n".to_vec()));
    assert_eq!(ok.status_code(), 200);
    assert_eq!(ok, MetricsReply::Encoded(b"up 1\n".to_vec()));
    let failed = metrics_reply(None);
    assert_eq!(failed.status_code(), 500);
    assert_eq!(failed, MetricsReply::ServerError("Failed to encode metrics".to_string()));
}
