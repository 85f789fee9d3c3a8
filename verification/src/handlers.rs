//! The replies of the generic webhook, health and metrics endpoints, and the
//! insertion that stores a generic webhook.

use vstd::prelude::*;
use crate::json::JsonValue;
use crate::models::{HealthResponse, WebhookResponse};
use crate::store::{InsertPlan, SqlArg, SqlArgView, StoreOutcome, args_view, reported_id, stored_id};
use crate::json::string_opt_view;

verus! {

/// Stores a generic webhook event and returns its id.
pub const WEBHOOK_EVENT_INSERT: &'static str = r#"
        INSERT INTO webhook_events (payload, source_ip, headers)
        VALUES ($1, $2, $3)
        RETURNING id
        "#;

/// The body of an error reply.
#[derive(Debug, Clone, PartialEq, Eq)]
pub struct ErrorBody {
    pub status: String,
    pub message: String,
}

/// `body` reports an error with the given message.
pub open spec fn is_error_body(body: ErrorBody, message: Seq<char>) -> bool {
    body.status@ == "error"@ && body.message@ == message
}

/// Returns the body of an error reply with the given message.
pub fn error_body(message: &str) -> (r: ErrorBody)
    ensures
        is_error_body(r, message@),
{
    ErrorBody { status: String::from_str("error"), message: String::from_str(message) }
}

/// The reply of the generic webhook endpoint.
#[derive(Debug, Clone, PartialEq, Eq)]
pub enum WebhookReply {
    /// `200 OK`: the event was stored.
    Stored(WebhookResponse),
    /// `500 Internal Server Error`: the event could not be stored.
    ServerError(ErrorBody),
}

impl WebhookReply {
    pub open spec fn status_code_of(self) -> u16 {
        match self {
            WebhookReply::Stored(_) => 200,
            WebhookReply::ServerError(_) => 500,
        }
    }

    /// Returns the HTTP status code of the reply.
    pub fn status_code(&self) -> (r: u16)
        ensures
            r == self.status_code_of(),
    {
        match self {
            WebhookReply::Stored(_) => 200,
            WebhookReply::ServerError(_) => 500,
        }
    }
}

/// The arguments of the insertion of a generic webhook event: the received
/// document, the address of the sender, and the request headers.
pub open spec fn webhook_args_of(
    document: JsonValue,
    source_ip: Option<String>,
    headers: JsonValue,
) -> Seq<SqlArgView> {
    seq![
        SqlArgView::Json(document),
        SqlArgView::OptionalText(string_opt_view(source_ip)),
        SqlArgView::Json(headers),
    ]
}

/// Returns the insertion that stores a generic webhook event, given the
/// event as a JSON document, the address of the sender where it is known
/// and the headers document.
pub fn webhook_insert(document: JsonValue, source_ip: Option<String>, headers: JsonValue) -> (plan:
    InsertPlan)
    ensures
        plan.sql == WEBHOOK_EVENT_INSERT,
        args_view(plan.args@) == webhook_args_of(document, source_ip, headers),
{
    let ghost d = document;
    let ghost h = headers;
    let ghost ip = source_ip;
    let args = vec![SqlArg::Json(document), SqlArg::OptionalText(source_ip), SqlArg::Json(headers)];
    assert(args_view(args@) =~= webhook_args_of(d, ip, h));
    InsertPlan { sql: WEBHOOK_EVENT_INSERT, args }
}

/// `reply` answers a generic webhook whose insertion had `outcome`: the
/// stored event's id with status `success`, or a server error.
pub open spec fn is_webhook_reply(reply: WebhookReply, outcome: StoreOutcome) -> bool {
    match outcome {
        StoreOutcome::Stored(id) => match reply {
            WebhookReply::Stored(body) => {
                &&& body.status@ == "success"@
                &&& body.id == reported_id(id)
                &&& body.message@ == "Webhook received and stored"@
            },
            _ => false,
        },
        StoreOutcome::Failed => match reply {
            WebhookReply::ServerError(body) => is_error_body(body, "Failed to store webhook"@),
            _ => false,
        },
    }
}

/// Returns the reply to a generic webhook.
pub fn webhook_reply(outcome: StoreOutcome) -> (r: WebhookReply)
    ensures
        is_webhook_reply(r, outcome),
{
    match outcome {
        StoreOutcome::Stored(id) => WebhookReply::Stored(
            WebhookResponse {
                status: String::from_str("success"),
                id: stored_id(id),
                message: String::from_str("Webhook received and stored"),
            },
        ),
        StoreOutcome::Failed => WebhookReply::ServerError(error_body("Failed to store webhook")),
    }
}

/// `reply` answers a health check: the service is `healthy`, the database
/// is `connected` or `disconnected`, and the uptime is the number of whole
/// seconds since start-up, `0` when the clock reads earlier than the start.
pub open spec fn is_health_reply(
    reply: HealthResponse,
    database_reachable: bool,
    elapsed_seconds: Option<u64>,
) -> bool {
    &&& reply.status@ == "healthy"@
    &&& reply.database@ == if database_reachable {
        "connected"@
    } else {
        "disconnected"@
    }
    &&& reply.uptime_seconds == match elapsed_seconds {
        Some(s) => s,
        None => 0,
    }
}

impl HealthResponse {
    /// Returns the HTTP status code of the reply to a health check: `200 OK`
    /// for every health reply, whether or not the database answered.
    pub fn status_code(&self) -> (r: u16)
        ensures
            r == 200,
    {
        200
    }
}

/// Returns the reply to a health check, given whether the database answered
/// and the seconds elapsed since start-up (`None` when the clock reads
/// earlier than the start).
pub fn health_reply(database_reachable: bool, elapsed_seconds: Option<u64>) -> (r: HealthResponse)
    ensures
        is_health_reply(r, database_reachable, elapsed_seconds),
{
    let database = if database_reachable {
        String::from_str("connected")
    } else {
        String::from_str("disconnected")
    };
    let uptime_seconds = match elapsed_seconds {
        Some(s) => s,
        None => 0,
    };
    HealthResponse { status: String::from_str("healthy"), database, uptime_seconds }
}

/// The reply of the metrics endpoint.
#[derive(Debug, Clone, PartialEq, Eq)]
pub enum MetricsReply {
    /// `200 OK` with the metrics in the text exposition format.
    Encoded(Vec<u8>),
    /// `500 Internal Server Error` with a plain-text message.
    ServerError(String),
}

impl MetricsReply {
    pub open spec fn status_code_of(self) -> u16 {
        match self {
            MetricsReply::Encoded(_) => 200,
            MetricsReply::ServerError(_) => 500,
        }
    }

    /// Returns the HTTP status code of the reply.
    pub fn status_code(&self) -> (r: u16)
        ensures
            r == self.status_code_of(),
    {
        match self {
            MetricsReply::Encoded(_) => 200,
            MetricsReply::ServerError(_) => 500,
        }
    }
}

/// Returns the reply of the metrics endpoint, given the encoded metrics, or
/// `None` when encoding failed.
pub fn metrics_reply(encoded: Option<Vec<u8>>) -> (r: MetricsReply)
    ensures
        encoded matches Some(bytes) ==> r == MetricsReply::Encoded(bytes),
        encoded is None ==> (r matches MetricsReply::ServerError(m) && m@
            == "Failed to encode metrics"@),
{
    match encoded {
        Some(bytes) => MetricsReply::Encoded(bytes),
        None => MetricsReply::ServerError(String::from_str("Failed to encode metrics")),
    }
}

/// A health reply always says `healthy`; it names the database `connected`
/// exactly when the database answered; and its uptime is the elapsed whole
/// seconds (0 when the clock reads earlier than the start), whether or not
/// the database answered.
pub proof fn lemma_health_reply_fields(
    reply: HealthResponse,
    database_reachable: bool,
    elapsed_seconds: Option<u64>,
)
    requires
        is_health_reply(reply, database_reachable, elapsed_seconds),
    ensures
        reply.status@ == "healthy"@,
        database_reachable ==> reply.database@ == "connected"@,
        !database_reachable ==> reply.database@ == "disconnected"@,
        elapsed_seconds matches Some(s) ==> reply.uptime_seconds == s,
        elapsed_seconds is None ==> reply.uptime_seconds == 0,
{
}

/// Two health replies given at the same moment report the same uptime and
/// status, whatever each found of the database.
pub proof fn lemma_health_uptime_independent_of_database(
    a: HealthResponse,
    b: HealthResponse,
    a_reachable: bool,
    b_reachable: bool,
    elapsed_seconds: Option<u64>,
)
    requires
        is_health_reply(a, a_reachable, elapsed_seconds),
        is_health_reply(b, b_reachable, elapsed_seconds),
    ensures
        a.uptime_seconds == b.uptime_seconds,
        a.status@ == b.status@,
{
}

/// The reply to a generic webhook: a stored event is answered with the id
/// read back from its row (0 when it could not be read), and a failed
/// insertion with the error `Failed to store webhook`.
pub proof fn lemma_webhook_reply_fields(reply: WebhookReply, outcome: StoreOutcome)
    requires
        is_webhook_reply(reply, outcome),
    ensures
        outcome matches StoreOutcome::Stored(Some(id)) ==> (reply matches WebhookReply::Stored(body)
            && body.id == id && body.status@ == "success"@),
        outcome matches StoreOutcome::Stored(None) ==> (reply matches WebhookReply::Stored(body)
            && body.id == 0),
        outcome is Failed ==> (reply matches WebhookReply::ServerError(body) && body.status@
            == "error"@ && body.message@ == "Failed to store webhook"@),
        reply.status_code_of() == if outcome is Failed {
            500u16
        } else {
            200u16
        },
{
}

/// The stored generic webhook event keeps the event document, the sender's
/// address and the request headers, in that order.
pub proof fn lemma_webhook_columns(document: JsonValue, source_ip: Option<String>, headers: JsonValue)
    ensures
        ({
            let a = webhook_args_of(document, source_ip, headers);
            &&& a.len() == 3
            &&& a[0] == SqlArgView::Json(document)
            &&& a[1] == SqlArgView::OptionalText(string_opt_view(source_ip))
            &&& a[2] == SqlArgView::Json(headers)
        }),
{
}

} // verus!
