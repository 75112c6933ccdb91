use agent_tasks::headers::{header_text, Headers};
use agent_tasks::ingest::{
    bitbucket_webhook, bridge_message, bridge_payload, health_check, jira_webhook, pulsar_message,
    Bridged,
};
use agent_tasks::json::Json;
use agent_tasks::webhook::TaskEvent;
use agent_tasks::wire::parse_json;

fn json(text: &str) -> Json {
    parse_json(text).unwrap()
}

fn line(name: &str, value: &[u8]) -> (String, Vec<u8>) {
    (name.to_string(), value.to_vec())
}

fn comment_lines() -> Vec<(String, Vec<u8>)> {
    vec![line("X-Event-Key", b"pullrequest:comment_created")]
}

fn comment() -> Json {
    json(
        r#"{"actor": {"name": "Ada"}, "comment": {"text": "fix \"it\" \u00fc"},
            "pullrequest": {"id": 42, "source": {"branch": {"name": "b"}}},
            "repository": {"slug": "repo", "project": {"key": "PRJ"}}}"#,
    )
}

#[test]
fn header_names_are_put_in_lower_case() {
    let headers = Headers::collect(vec![
        line("X-Event-Key", b"first"),
        line("Content-Type", b"caf\xe9"),
        line("x-EVENT-key", b"second"),
        line("X-Event-Key", "zwölf".as_bytes()),
        line("ÄB", b"third"),
    ]);
    assert_eq!(headers.get("x-event-key"), Some("second"));
    assert_eq!(headers.get("X-Event-Key"), None);
    assert_eq!(headers.get("content-type"), None);
    assert_eq!(headers.get("äb"), Some("third"));
}

#[test]
fn header_values_are_visible_ascii() {
    assert_eq!(header_text(b"a b\t~".to_vec()), Some("a b\t~".to_string()));
    assert_eq!(header_text(Vec::new()), Some(String::new()));
    for byte in 0..=255u8 {
        let is_text = byte == 9 || (32..=126).contains(&byte);
        assert_eq!(header_text(vec![b'x', byte]).is_some(), is_text);
        if let Ok(value) = axum::http::HeaderValue::from_bytes(&[b'x', byte]) {
            let outside = value.to_str().ok().map(|v| v.to_string());
            assert_eq!(header_text(vec![b'x', byte]), outside);
        }
    }
}

#[test]
fn an_accepted_comment_is_answered_and_published() {
    let answer = bitbucket_webhook(comment_lines(), comment()).unwrap();
    assert_eq!(
        answer.reply.to_value().to_string(),
        r#"{"routing_key":"PRJ-repo-pr-42","status":"accepted"}"#
    );
    let publication = answer.publication.unwrap();
    assert_eq!(publication.routing_key, "PRJ-repo-pr-42");
    assert_eq!(
        publication.task_event.to_value().to_string(),
        "{\"author\":\"Ada\",\"branch_name\":\"b\",\"comment_text\":\"fix \\\"it\\\" ü\",\
         \"event_type\":\"pr_comment\",\"pr_id\":\"42\",\"project_key\":\"PRJ\",\
         \"repository_slug\":\"repo\",\"source\":\"bitbucket\"}"
    );
}

#[test]
fn a_refused_comment_is_answered_with_the_reason() {
    let answer = bitbucket_webhook(Vec::new(), comment()).unwrap();
    assert_eq!(
        answer.reply.to_value().to_string(),
        r#"{"reason":"unhandled_event_type: unknown","status":"ignored"}"#
    );
    assert!(answer.publication.is_none());
    let own = json(r#"{"actor": {"name": "Opencode Agent"}}"#);
    let answer = bitbucket_webhook(comment_lines(), own).unwrap();
    assert_eq!(
        answer.reply.to_value().to_string(),
        r#"{"reason":"anti_loop","status":"ignored"}"#
    );
    assert!(answer.publication.is_none());
}

#[test]
fn there_is_no_answer_to_an_unreadable_identifier() {
    let payload = json(r#"{"pullrequest": {"id": 0.5}}"#);
    assert!(bitbucket_webhook(comment_lines(), payload).is_none());
}

#[test]
fn jira_webhooks_are_answered() {
    let created = json(r#"{"webhookEvent": "jira:issue_created", "issue": {"key": "K-1"}}"#);
    let answer = jira_webhook(Vec::new(), created);
    assert_eq!(
        answer.reply.to_value().to_string(),
        r#"{"routing_key":"jira-K-1","status":"accepted"}"#
    );
    assert_eq!(
        answer.publication.unwrap().task_event.to_value().to_string(),
        "{\"description\":\"\",\"event_type\":\"issue_created\",\"issue_key\":\"K-1\",\
         \"source\":\"jira\",\"status\":\"\",\"summary\":\"\"}"
    );
    let answer = jira_webhook(Vec::new(), json("{}"));
    assert_eq!(
        answer.reply.to_value().to_string(),
        r#"{"reason":"unhandled_event_type: unknown","status":"ignored"}"#
    );
    assert!(answer.publication.is_none());
}

#[test]
fn an_unvalidated_outcome_is_unexpected() {
    let request = agent_tasks::webhook::WebhookRequest::new("x", Json::Null, Headers::new());
    let answer = agent_tasks::ingest::answer(Ok(request));
    assert_eq!(
        answer.reply.to_value().to_string(),
        r#"{"reason":"unexpected state","status":"error"}"#
    );
    assert!(answer.publication.is_none());
}

#[test]
fn health_is_reported() {
    assert_eq!(
        health_check(true).to_value().to_string(),
        r#"{"pulsar_connected":true,"status":"healthy"}"#
    );
    assert_eq!(
        health_check(false).to_value().to_string(),
        r#"{"pulsar_connected":false,"status":"healthy"}"#
    );
}

#[test]
fn a_message_carries_its_task() {
    let event = TaskEvent::JiraIssue {
        event_type: "issue_updated".to_string(),
        issue_key: "K-9".to_string(),
        summary: "a \"b\"\n".to_string(),
        description: "ü".to_string(),
        status: "".to_string(),
    };
    let message = pulsar_message("jira-K-9".to_string(), &event);
    assert_eq!(message.partition_key, Some("jira-K-9".to_string()));
    assert_eq!(
        String::from_utf8(message.payload).unwrap(),
        "{\"description\":\"ü\",\"event_type\":\"issue_updated\",\"issue_key\":\"K-9\",\
         \"source\":\"jira\",\"status\":\"\",\"summary\":\"a \\\"b\\\"\\n\"}"
    );
}

#[test]
fn pubsub_messages_are_bridged() {
    let ready = r#"{"issue": {"key": "K-1", "fields": {"labels": ["ready_for_development"]}}}"#;
    match bridge_message(ready.as_bytes().to_vec()) {
        Bridged::Publish(publication) => assert_eq!(publication.routing_key, "jira-K-1"),
        _ => panic!("not published"),
    }
    match bridge_message(b"{}".to_vec()) {
        Bridged::Ignored { reason } => assert_eq!(reason, "missing_issue_object"),
        _ => panic!("not ignored"),
    }
    assert!(matches!(bridge_message(b"{".to_vec()), Bridged::NotJson));
    assert!(matches!(bridge_message(vec![0x22, 0xff, 0x22]), Bridged::NotText));
}

#[test]
fn pubsub_payloads_are_bridged() {
    match bridge_payload(Json::Null) {
        Bridged::Ignored { reason } => assert_eq!(reason, "missing_issue_object"),
        _ => panic!("not ignored"),
    }
}
