use agent_tasks::headers::Headers;
use agent_tasks::json::Json;
use agent_tasks::webhook::{TaskEvent, WebhookRequest};
use agent_tasks::wire::parse_json;

fn json(text: &str) -> Json {
    parse_json(text).unwrap()
}

fn comment_headers() -> Headers {
    let mut headers = Headers::new();
    headers.insert("x-event-key".to_string(), "pullrequest:comment_created".to_string());
    headers
}

fn comment(payload: &str) -> WebhookRequest {
    WebhookRequest::new("bitbucket", json(payload), comment_headers())
}

fn reason(outcome: Result<WebhookRequest, String>) -> String {
    match outcome {
        Ok(_) => panic!("the request was not refused"),
        Err(reason) => reason,
    }
}

fn task(outcome: Result<WebhookRequest, String>) -> (String, TaskEvent) {
    match outcome {
        Ok(WebhookRequest::Validated { routing_key, task_event }) => (routing_key, task_event),
        Ok(WebhookRequest::Unvalidated { .. }) => panic!("the request is not validated"),
        Err(reason) => panic!("the request was refused: {}", reason),
    }
}

const COMMENT: &str = r#"{
    "actor": {"name": "Ada"},
    "comment": {"text": "please fix"},
    "pullrequest": {"id": 42, "source": {"branch": {"name": "feature/x"}}},
    "repository": {"slug": "repo", "project": {"key": "PRJ"}}
}"#;

#[test]
fn new_requests_are_unvalidated() {
    match WebhookRequest::new("jira", Json::Text("p".to_string()), comment_headers()) {
        WebhookRequest::Unvalidated { source, payload, headers } => {
            assert_eq!(source, "jira");
            assert_eq!(payload.as_str(), Some("p"));
            assert_eq!(headers.get("x-event-key"), Some("pullrequest:comment_created"));
        }
        WebhookRequest::Validated { .. } => panic!("validated"),
    }
}

#[test]
fn a_comment_becomes_a_task() {
    let (routing_key, event) = task(comment(COMMENT).validate_bitbucket());
    assert_eq!(routing_key, "PRJ-repo-pr-42");
    match event {
        TaskEvent::PullRequestComment {
            project_key,
            repository_slug,
            pr_id,
            branch_name,
            comment_text,
            author,
        } => {
            assert_eq!(project_key, "PRJ");
            assert_eq!(repository_slug, "repo");
            assert_eq!(pr_id, "42");
            assert_eq!(branch_name, "feature/x");
            assert_eq!(comment_text, "please fix");
            assert_eq!(author, "Ada");
        }
        TaskEvent::JiraIssue { .. } => panic!("a Jira issue"),
    }
}

#[test]
fn a_textual_identifier_is_taken_as_it_is() {
    let payload = r#"{"pullrequest": {"id": "007"},
        "repository": {"slug": "r", "project": {"key": "P"}}}"#;
    let (routing_key, event) = task(comment(payload).validate_bitbucket());
    assert_eq!(routing_key, "P-r-pr-007");
    match event {
        TaskEvent::PullRequestComment { branch_name, comment_text, author, .. } => {
            assert_eq!(branch_name, "");
            assert_eq!(comment_text, "");
            assert_eq!(author, "");
        }
        TaskEvent::JiraIssue { .. } => panic!("a Jira issue"),
    }
}

#[test]
fn numeric_identifiers_are_written_in_decimal() {
    for (id, text) in [
        ("0", "0"),
        ("-7", "-7"),
        ("1234567890", "1234567890"),
        ("9223372036854775807", "9223372036854775807"),
        ("-9223372036854775808", "-9223372036854775808"),
    ] {
        let payload = format!(
            r#"{{"pullrequest": {{"id": {}}}, "repository": {{"slug": "r", "project": {{"key": "P"}}}}}}"#,
            id
        );
        let (routing_key, _) = task(comment(&payload).validate_bitbucket());
        assert_eq!(routing_key, format!("P-r-pr-{}", text));
    }
}

#[test]
fn the_agent_does_not_answer_itself() {
    let by_agent = r#"{"actor": {"name": "Opencode Agent"}, "comment": {"text": "done"}}"#;
    assert_eq!(reason(comment(by_agent).validate_bitbucket()), "anti_loop");
    let marked = r#"{"actor": {"name": "Ada"}, "comment": {"text": "hi <<OPENCODE>> there"}}"#;
    assert_eq!(reason(comment(marked).validate_bitbucket()), "anti_loop");
    let nearly = r#"{"actor": {"name": "Opencode"}, "comment": {"text": "<OPENCODE>>"}}"#;
    assert_eq!(reason(comment(nearly).validate_bitbucket()), "missing_fields");
}

#[test]
fn a_comment_needs_its_pull_request() {
    for payload in [
        "null",
        r#"{"pullrequest": {"id": 1}, "repository": {"slug": "r"}}"#,
        r#"{"pullrequest": {"id": 1}, "repository": {"project": {"key": "P"}}}"#,
        r#"{"repository": {"slug": "r", "project": {"key": "P"}}}"#,
        r#"{"pullrequest": {"id": true}, "repository": {"slug": "r", "project": {"key": "P"}}}"#,
        r#"{"pullrequest": [1], "repository": {"slug": "r", "project": {"key": "P"}}}"#,
    ] {
        assert_eq!(reason(comment(payload).validate_bitbucket()), "missing_fields");
    }
}

#[test]
fn other_bitbucket_events_are_unhandled() {
    let mut headers = Headers::new();
    headers.insert("x-event-key".to_string(), "repo:push".to_string());
    let push = WebhookRequest::new("bitbucket", json(COMMENT), headers);
    assert_eq!(reason(push.validate_bitbucket()), "unhandled_event_type: repo:push");
    let bare = WebhookRequest::new("bitbucket", json(COMMENT), Headers::new());
    assert_eq!(reason(bare.validate_bitbucket()), "unhandled_event_type: unknown");
}

#[test]
fn unreadable_identifiers_are_told_apart() {
    let fraction = r#"{"pullrequest": {"id": 1.5}}"#;
    let large = r#"{"pullrequest": {"id": 9223372036854775808}}"#;
    assert!(comment(fraction).has_unreadable_id());
    assert!(comment(large).has_unreadable_id());
    assert!(!comment(COMMENT).has_unreadable_id());
    let own = r#"{"actor": {"name": "Opencode Agent"}, "pullrequest": {"id": 1.5}}"#;
    assert!(!comment(own).has_unreadable_id());
    let push = WebhookRequest::new("bitbucket", json(fraction), Headers::new());
    assert!(!push.has_unreadable_id());
}

const ISSUE: &str = r#"{
    "webhookEvent": "jira:issue_created",
    "issue": {"key": "K-1", "fields": {
        "summary": "S", "description": "D", "status": {"name": "Open"},
        "labels": ["other", 7, "ready_for_development"]}}
}"#;

fn jira(payload: &str) -> WebhookRequest {
    WebhookRequest::new("jira", json(payload), Headers::new())
}

fn assert_issue(event: TaskEvent, expected: [&str; 5]) {
    match event {
        TaskEvent::JiraIssue { event_type, issue_key, summary, description, status } => {
            assert_eq!([event_type, issue_key, summary, description, status], expected);
        }
        TaskEvent::PullRequestComment { .. } => panic!("a comment"),
    }
}

#[test]
fn an_issue_becomes_a_task() {
    let (routing_key, event) = task(jira(ISSUE).validate_jira());
    assert_eq!(routing_key, "jira-K-1");
    assert_issue(event, ["issue_created", "K-1", "S", "D", "Open"]);
    let update = r#"{"webhookEvent": "jira:issue_updated", "issue": {"key": "K-2"}}"#;
    let (routing_key, event) = task(jira(update).validate_jira());
    assert_eq!(routing_key, "jira-K-2");
    assert_issue(event, ["issue_updated", "K-2", "", "", ""]);
}

#[test]
fn other_jira_requests_are_refused() {
    assert_eq!(
        reason(jira(r#"{"webhookEvent": "jira:issue_deleted"}"#).validate_jira()),
        "unhandled_event_type: jira:issue_deleted"
    );
    assert_eq!(reason(jira("[]").validate_jira()), "unhandled_event_type: unknown");
    assert_eq!(
        reason(jira(r#"{"webhookEvent": "jira:issue_created", "issue": {}}"#).validate_jira()),
        "no_issue_key"
    );
}

#[test]
fn a_labelled_issue_over_pubsub_becomes_a_task() {
    let (routing_key, event) = task(jira(ISSUE).validate_pubsub_jira());
    assert_eq!(routing_key, "jira-K-1");
    assert_issue(event, ["issue_updated", "K-1", "S", "D", "Open"]);
}

#[test]
fn other_pubsub_requests_are_refused() {
    for (payload, expected) in [
        ("{}", "missing_issue_object"),
        (r#"{"issue": "K-1"}"#, "missing_issue_object"),
        (r#"{"issue": {"fields": {}}}"#, "missing_issue_key"),
        (r#"{"issue": {"key": ""}}"#, "missing_issue_key"),
        (r#"{"issue": {"key": "K-1"}}"#, "missing_fields_object"),
        (r#"{"issue": {"key": "K-1", "fields": []}}"#, "missing_fields_object"),
        (r#"{"issue": {"key": "K-1", "fields": {}}}"#, "missing_ready_for_development_label"),
        (
            r#"{"issue": {"key": "K-1", "fields": {"labels": ["ready", null]}}}"#,
            "missing_ready_for_development_label",
        ),
        (
            r#"{"issue": {"key": "K-1", "fields": {"labels": "ready_for_development"}}}"#,
            "missing_ready_for_development_label",
        ),
    ] {
        assert_eq!(reason(jira(payload).validate_pubsub_jira()), expected);
    }
}

#[test]
fn validated_requests_are_not_validated_again() {
    let refusal = "Invalid state transition: Request is already validated.";
    let again = |request: Result<WebhookRequest, String>| request.ok().unwrap();
    assert_eq!(reason(again(jira(ISSUE).validate_jira()).validate_jira()), refusal);
    assert_eq!(reason(again(jira(ISSUE).validate_jira()).validate_pubsub_jira()), refusal);
    assert_eq!(reason(again(jira(ISSUE).validate_jira()).validate_bitbucket()), refusal);
}

#[test]
fn one_issue_has_one_routing_key() {
    let (webhook, _) = task(jira(ISSUE).validate_jira());
    let (pubsub, _) = task(jira(ISSUE).validate_pubsub_jira());
    assert_eq!(webhook, pubsub);
}

#[test]
fn two_pull_requests_have_two_routing_keys() {
    let (first, _) = task(comment(COMMENT).validate_bitbucket());
    let (second, _) = task(comment(&COMMENT.replace("42", "43")).validate_bitbucket());
    assert_eq!(second, "PRJ-repo-pr-43");
    assert_ne!(first, second);
}

#[test]
fn two_issues_have_two_routing_keys() {
    let (first, _) = task(jira(ISSUE).validate_jira());
    let (second, _) = task(jira(&ISSUE.replace("K-1", "K-2")).validate_jira());
    assert_eq!((first.as_str(), second.as_str()), ("jira-K-1", "jira-K-2"));
}

#[test]
fn one_pull_request_has_one_routing_key() {
    let (first, _) = task(comment(COMMENT).validate_bitbucket());
    let other = COMMENT.replace("please fix", "and this").replace("Ada", "Bob");
    let (second, _) = task(comment(&other).validate_bitbucket());
    assert_eq!(first, second);
}
