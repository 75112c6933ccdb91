//! The ingester: how it answers a webhook, and what it publishes.
use vstd::prelude::*;
use vstd::utf8::{decode_utf8, valid_utf8};

use crate::headers::{collected, lines_view, Headers};
use crate::json::{Json, JsonView};
use crate::text::{from_utf8, opt_text};
use crate::webhook::{
    bitbucket_outcome, has_unreadable_id, jira_outcome, lemma_task_event_flat, pubsub_jira_outcome,
    outcome_view, TaskEvent, WebhookRequest, WebhookRequestView,
};
use crate::wire::{
    json_from_text, member_keys, member_trees, object_value, parse_json, print_object, printed_json,
    push_bool, push_text, reads_as, value_tree,
};

verus! {

/// What a task to be published is.
pub struct PublicationView {
    pub routing_key: Seq<char>,
    pub task_event: JsonView,
}

/// A task to be published.
#[derive(Debug)]
pub struct Publication {
    pub routing_key: String,
    pub task_event: TaskEvent,
}

impl View for Publication {
    type V = PublicationView;

    open spec fn view(&self) -> PublicationView {
        PublicationView { routing_key: self.routing_key@, task_event: self.task_event@ }
    }
}

/// A message for the task topic.
#[derive(Debug)]
pub struct OutgoingMessage {
    pub payload: Vec<u8>,
    pub partition_key: Option<String>,
}

/// A message carries a task: its payload is JSON text that reads back as the task, and its
/// partition key is the routing key of the task.
pub open spec fn carries(message: OutgoingMessage, task: PublicationView) -> bool {
    &&& opt_text(message.partition_key) == Some(task.routing_key)
    &&& valid_utf8(message.payload@)
    &&& reads_as(decode_utf8(message.payload@), task.task_event)
}

/// The message that carries a task.
pub fn pulsar_message(routing_key: String, task_event: &TaskEvent) -> (r: OutgoingMessage)
    ensures
        r.payload@ == printed_json(task_event@),
        carries(r, PublicationView { routing_key: routing_key@, task_event: task_event@ }),
{
    proof {
        lemma_task_event_flat(*task_event);
    }
    let value = task_event.to_value();
    OutgoingMessage { payload: print_object(&value), partition_key: Some(routing_key) }
}

/// The body of an answer to a request.
#[derive(Debug)]
pub enum Reply {
    /// The service is up; whether it is connected to the message broker.
    Healthy { pulsar_connected: bool },
    /// The request became a task.
    Accepted { routing_key: String },
    /// The request was validated and yet is not.
    Unexpected,
    /// The request became no task.
    Ignored { reason: String },
}

/// The JSON object of a health report.
pub open spec fn health_json(pulsar_connected: bool) -> JsonView {
    JsonView::Object(
        map![
            "status"@ => JsonView::Text("healthy"@),
            "pulsar_connected"@ => JsonView::Bool(pulsar_connected),
        ],
    )
}

/// The JSON object that answers a request which became a task.
pub open spec fn accepted_json(routing_key: Seq<char>) -> JsonView {
    JsonView::Object(
        map![
            "status"@ => JsonView::Text("accepted"@),
            "routing_key"@ => JsonView::Text(routing_key),
        ],
    )
}

/// The JSON object that answers a request which was validated and yet is not.
pub open spec fn unexpected_json() -> JsonView {
    JsonView::Object(
        map![
            "status"@ => JsonView::Text("error"@),
            "reason"@ => JsonView::Text("unexpected state"@),
        ],
    )
}

/// The JSON object that answers a request which became no task.
pub open spec fn ignored_json(reason: Seq<char>) -> JsonView {
    JsonView::Object(
        map!["status"@ => JsonView::Text("ignored"@), "reason"@ => JsonView::Text(reason)],
    )
}

impl View for Reply {
    type V = JsonView;

    /// The JSON object of the answer.
    open spec fn view(&self) -> JsonView {
        match self {
            Reply::Healthy { pulsar_connected } => health_json(*pulsar_connected),
            Reply::Accepted { routing_key } => accepted_json(routing_key@),
            Reply::Unexpected => unexpected_json(),
            Reply::Ignored { reason } => ignored_json(reason@),
        }
    }
}

impl Reply {
    /// The JSON object of the answer.
    pub fn to_value(&self) -> (r: serde_json::Value)
        ensures
            value_tree(r) == self@,
    {
        let mut members: Vec<(String, serde_json::Value)> = Vec::new();
        assert(member_trees(members@) =~= Seq::empty());
        assert(member_keys(members@) =~= Seq::empty());
        match self {
            Reply::Healthy { pulsar_connected } => {
                push_text(&mut members, "status", "healthy");
                push_bool(&mut members, "pulsar_connected", *pulsar_connected);
            },
            Reply::Accepted { routing_key } => {
                push_text(&mut members, "status", "accepted");
                push_text(&mut members, "routing_key", routing_key.as_str());
            },
            Reply::Unexpected => {
                push_text(&mut members, "status", "error");
                push_text(&mut members, "reason", "unexpected state");
            },
            Reply::Ignored { reason } => {
                push_text(&mut members, "status", "ignored");
                push_text(&mut members, "reason", reason.as_str());
            },
        }
        proof {
            reveal_strlit("status");
            reveal_strlit("pulsar_connected");
            reveal_strlit("routing_key");
            reveal_strlit("reason");
            assert("status"@.len() == 6 && "pulsar_connected"@.len() == 16);
            assert("routing_key"@.len() == 11 && "reason"@.len() == 6);
            assert("status"@[0] != "reason"@[0]);
        }
        object_value(members)
    }
}

/// The health report: the service is up, and is connected to the broker or not.
pub fn health_check(pulsar_connected: bool) -> (r: Reply)
    ensures
        r@ == health_json(pulsar_connected),
{
    Reply::Healthy { pulsar_connected }
}

/// What the reaction to a webhook is.
pub struct AnswerView {
    pub reply: JsonView,
    pub publication: Option<PublicationView>,
}

/// The reaction to a webhook: what is replied, and what is published.
#[derive(Debug)]
pub struct Answer {
    pub reply: Reply,
    pub publication: Option<Publication>,
}

impl View for Answer {
    type V = AnswerView;

    open spec fn view(&self) -> AnswerView {
        AnswerView {
            reply: self.reply@,
            publication: match self.publication {
                Some(publication) => Some(publication@),
                None => None,
            },
        }
    }
}

/// The reaction to an outcome: a validated request is accepted and its task published, and a
/// refused one is ignored with the reason.
pub open spec fn answer_to(outcome: Result<WebhookRequestView, Seq<char>>) -> AnswerView {
    match outcome {
        Ok(WebhookRequestView::Validated { routing_key, task_event }) => AnswerView {
            reply: accepted_json(routing_key),
            publication: Some(PublicationView { routing_key, task_event }),
        },
        Ok(WebhookRequestView::Unvalidated { .. }) => AnswerView {
            reply: unexpected_json(),
            publication: None,
        },
        Err(reason) => AnswerView { reply: ignored_json(reason), publication: None },
    }
}

/// The reaction to an outcome.
pub fn answer(outcome: Result<WebhookRequest, String>) -> (r: Answer)
    ensures
        r@ == answer_to(outcome_view(outcome)),
{
    match outcome {
        Ok(WebhookRequest::Validated { routing_key, task_event }) => Answer {
            reply: Reply::Accepted { routing_key: routing_key.clone() },
            publication: Some(Publication { routing_key, task_event }),
        },
        Ok(WebhookRequest::Unvalidated { .. }) => Answer {
            reply: Reply::Unexpected,
            publication: None,
        },
        Err(reason) => Answer { reply: Reply::Ignored { reason }, publication: None },
    }
}

/// The request that a webhook of `source` brings.
pub open spec fn webhook_request(
    source: Seq<char>,
    lines: Seq<(Seq<char>, Seq<u8>)>,
    payload: JsonView,
) -> WebhookRequestView {
    WebhookRequestView::Unvalidated { source, payload, headers: collected(lines) }
}

/// The reaction to a Bitbucket webhook. There is none to a comment on a pull request whose
/// identifier is a number that no 64-bit signed integer holds.
pub fn bitbucket_webhook(lines: Vec<(String, Vec<u8>)>, payload: Json) -> (r: Option<Answer>)
    ensures
        ({
            let request = webhook_request("bitbucket"@, lines_view(lines@), payload@);
            match r {
                Some(answer) => {
                    &&& !has_unreadable_id(request)
                    &&& answer@ == answer_to(bitbucket_outcome(request))
                },
                None => has_unreadable_id(request),
            }
        }),
{
    let request = WebhookRequest::new("bitbucket", payload, Headers::collect(lines));
    if request.has_unreadable_id() {
        None
    } else {
        Some(answer(request.validate_bitbucket()))
    }
}

/// The reaction to a Jira webhook.
pub fn jira_webhook(lines: Vec<(String, Vec<u8>)>, payload: Json) -> (r: Answer)
    ensures
        r@ == answer_to(jira_outcome(webhook_request("jira"@, lines_view(lines@), payload@))),
{
    let request = WebhookRequest::new("jira", payload, Headers::collect(lines));
    answer(request.validate_jira())
}

/// What becomes of a Pub/Sub message.
pub enum BridgedView {
    NotText,
    NotJson,
    Publish(PublicationView),
    Unexpected,
    Ignored { reason: Seq<char> },
}

/// What becomes of a Pub/Sub message. Each message is acknowledged whatever becomes of it.
#[derive(Debug)]
pub enum Bridged {
    /// The message is no text.
    NotText,
    /// The message is text, but no JSON.
    NotJson,
    /// The message became a task.
    Publish(Publication),
    /// The message was validated and yet is not.
    Unexpected,
    /// The message became no task.
    Ignored { reason: String },
}

impl View for Bridged {
    type V = BridgedView;

    open spec fn view(&self) -> BridgedView {
        match self {
            Bridged::NotText => BridgedView::NotText,
            Bridged::NotJson => BridgedView::NotJson,
            Bridged::Publish(publication) => BridgedView::Publish(publication@),
            Bridged::Unexpected => BridgedView::Unexpected,
            Bridged::Ignored { reason } => BridgedView::Ignored { reason: reason@ },
        }
    }
}

/// The request that a Pub/Sub message brings.
pub open spec fn pubsub_request(payload: JsonView) -> WebhookRequestView {
    WebhookRequestView::Unvalidated {
        source: "pubsub_jira"@,
        payload,
        headers: Map::empty(),
    }
}

/// What becomes of a Pub/Sub message with a given payload.
pub open spec fn bridged_payload(payload: JsonView) -> BridgedView {
    match pubsub_jira_outcome(pubsub_request(payload)) {
        Ok(WebhookRequestView::Validated { routing_key, task_event }) => BridgedView::Publish(
            PublicationView { routing_key, task_event },
        ),
        Ok(WebhookRequestView::Unvalidated { .. }) => BridgedView::Unexpected,
        Err(reason) => BridgedView::Ignored { reason },
    }
}

/// What becomes of a Pub/Sub message with given data.
pub open spec fn bridged(data: Seq<u8>) -> BridgedView {
    if !valid_utf8(data) {
        BridgedView::NotText
    } else {
        match json_from_text(decode_utf8(data)) {
            Ok(payload) => bridged_payload(payload),
            Err(_) => BridgedView::NotJson,
        }
    }
}

/// What becomes of a Pub/Sub message with a given payload.
pub fn bridge_payload(payload: Json) -> (r: Bridged)
    ensures
        r@ == bridged_payload(payload@),
{
    let request = WebhookRequest::new("pubsub_jira", payload, Headers::new());
    match request.validate_pubsub_jira() {
        Ok(WebhookRequest::Validated { routing_key, task_event }) => Bridged::Publish(
            Publication { routing_key, task_event },
        ),
        Ok(WebhookRequest::Unvalidated { .. }) => Bridged::Unexpected,
        Err(reason) => Bridged::Ignored { reason },
    }
}

/// What becomes of a Pub/Sub message with given data.
pub fn bridge_message(data: Vec<u8>) -> (r: Bridged)
    ensures
        r@ == bridged(data@),
{
    match from_utf8(data) {
        Some(text) => match parse_json(text.as_str()) {
            Ok(payload) => bridge_payload(payload),
            Err(_) => Bridged::NotJson,
        },
        None => Bridged::NotText,
    }
}

} // verus!
