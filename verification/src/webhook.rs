//! Webhook requests: which of them become tasks for the agent, and what those tasks say.
use vstd::prelude::*;
use vstd::string::StrSliceExecFns;
use vstd::string::StringExecFns;

use crate::headers::Headers;
use crate::json::{
    child, child_of, is_object, lemma_items_view, opt_tree, text_of_or, text_or, Json, JsonView,
};
use crate::text::{contains, decimal, decimal_text, occurs_in, same};
use crate::wire::{flat_object, member_keys, member_trees, object_value, push_text, value_tree};

verus! {

broadcast use vstd::string::group_string_axioms;

/// A task for the agent.
#[derive(Debug)]
pub enum TaskEvent {
    /// A comment on a Bitbucket pull request.
    PullRequestComment {
        project_key: String,
        repository_slug: String,
        pr_id: String,
        branch_name: String,
        comment_text: String,
        author: String,
    },
    /// A Jira issue that was created or changed.
    JiraIssue {
        event_type: String,
        issue_key: String,
        summary: String,
        description: String,
        status: String,
    },
}

/// The JSON object that stands for a comment on a pull request.
pub open spec fn comment_json(
    project_key: Seq<char>,
    repository_slug: Seq<char>,
    pr_id: Seq<char>,
    branch_name: Seq<char>,
    comment_text: Seq<char>,
    author: Seq<char>,
) -> JsonView {
    JsonView::Object(
        map![
            "source"@ => JsonView::Text("bitbucket"@),
            "event_type"@ => JsonView::Text("pr_comment"@),
            "project_key"@ => JsonView::Text(project_key),
            "repository_slug"@ => JsonView::Text(repository_slug),
            "pr_id"@ => JsonView::Text(pr_id),
            "branch_name"@ => JsonView::Text(branch_name),
            "comment_text"@ => JsonView::Text(comment_text),
            "author"@ => JsonView::Text(author),
        ],
    )
}

/// The JSON object that stands for a Jira issue.
pub open spec fn issue_json(
    event_type: Seq<char>,
    issue_key: Seq<char>,
    summary: Seq<char>,
    description: Seq<char>,
    status: Seq<char>,
) -> JsonView {
    JsonView::Object(
        map![
            "source"@ => JsonView::Text("jira"@),
            "event_type"@ => JsonView::Text(event_type),
            "issue_key"@ => JsonView::Text(issue_key),
            "summary"@ => JsonView::Text(summary),
            "description"@ => JsonView::Text(description),
            "status"@ => JsonView::Text(status),
        ],
    )
}

impl View for TaskEvent {
    type V = JsonView;

    /// The JSON object that stands for the task.
    open spec fn view(&self) -> JsonView {
        match self {
            TaskEvent::PullRequestComment {
                project_key,
                repository_slug,
                pr_id,
                branch_name,
                comment_text,
                author,
            } => comment_json(
                project_key@,
                repository_slug@,
                pr_id@,
                branch_name@,
                comment_text@,
                author@,
            ),
            TaskEvent::JiraIssue { event_type, issue_key, summary, description, status } =>
            issue_json(event_type@, issue_key@, summary@, description@, status@),
        }
    }
}

/// The JSON object that stands for a task holds texts only, under keys without a dollar sign.
pub(crate) proof fn lemma_task_event_flat(event: TaskEvent)
    ensures
        flat_object(event@),
{
    reveal_strlit("source");
    reveal_strlit("event_type");
    reveal_strlit("project_key");
    reveal_strlit("repository_slug");
    reveal_strlit("pr_id");
    reveal_strlit("branch_name");
    reveal_strlit("comment_text");
    reveal_strlit("author");
    reveal_strlit("issue_key");
    reveal_strlit("summary");
    reveal_strlit("description");
    reveal_strlit("status");
}

/// The keys of the object that stands for a comment on a pull request.
pub open spec fn comment_keys() -> Seq<Seq<char>> {
    seq![
        "source"@,
        "event_type"@,
        "project_key"@,
        "repository_slug"@,
        "pr_id"@,
        "branch_name"@,
        "comment_text"@,
        "author"@,
    ]
}

/// The keys of the object that stands for a comment are different.
pub(crate) proof fn lemma_comment_keys()
    ensures
        comment_keys().no_duplicates(),
        comment_keys()[0] == "source"@,
        comment_keys()[1] == "event_type"@,
        comment_keys()[2] == "project_key"@,
        comment_keys()[3] == "repository_slug"@,
        comment_keys()[4] == "pr_id"@,
        comment_keys()[5] == "branch_name"@,
        comment_keys()[6] == "comment_text"@,
        comment_keys()[7] == "author"@,
{
    reveal_strlit("source");
    reveal_strlit("event_type");
    reveal_strlit("project_key");
    reveal_strlit("repository_slug");
    reveal_strlit("pr_id");
    reveal_strlit("branch_name");
    reveal_strlit("comment_text");
    reveal_strlit("author");
    assert("source"@.len() == 6 && "event_type"@.len() == 10 && "project_key"@.len() == 11);
    assert("repository_slug"@.len() == 15 && "pr_id"@.len() == 5 && "branch_name"@.len() == 11);
    assert("comment_text"@.len() == 12 && "author"@.len() == 6);
    assert("source"@[0] != "author"@[0]);
    assert("project_key"@[0] != "branch_name"@[0]);
}

/// The keys of the object that stands for a Jira issue.
pub open spec fn issue_keys() -> Seq<Seq<char>> {
    seq![
        "source"@,
        "event_type"@,
        "issue_key"@,
        "summary"@,
        "description"@,
        "status"@,
    ]
}

/// The keys of the object that stands for a Jira issue are different.
pub(crate) proof fn lemma_issue_keys()
    ensures
        issue_keys().no_duplicates(),
        issue_keys()[0] == "source"@,
        issue_keys()[1] == "event_type"@,
        issue_keys()[2] == "issue_key"@,
        issue_keys()[3] == "summary"@,
        issue_keys()[4] == "description"@,
        issue_keys()[5] == "status"@,
{
    reveal_strlit("source");
    reveal_strlit("event_type");
    reveal_strlit("issue_key");
    reveal_strlit("summary");
    reveal_strlit("description");
    reveal_strlit("status");
    assert("source"@.len() == 6 && "event_type"@.len() == 10 && "issue_key"@.len() == 9);
    assert("summary"@.len() == 7 && "description"@.len() == 11 && "status"@.len() == 6);
    assert("source"@[1] != "status"@[1]);
}

impl TaskEvent {
    /// The JSON object that stands for the task.
    pub fn to_value(&self) -> (r: serde_json::Value)
        ensures
            value_tree(r) == self@,
    {
        let mut members: Vec<(String, serde_json::Value)> = Vec::new();
        assert(member_trees(members@) =~= Seq::empty());
        assert(member_keys(members@) =~= Seq::empty());
        match self {
            TaskEvent::PullRequestComment {
                project_key,
                repository_slug,
                pr_id,
                branch_name,
                comment_text,
                author,
            } => {
                push_text(&mut members, "source", "bitbucket");
                push_text(&mut members, "event_type", "pr_comment");
                push_text(&mut members, "project_key", project_key.as_str());
                push_text(&mut members, "repository_slug", repository_slug.as_str());
                push_text(&mut members, "pr_id", pr_id.as_str());
                push_text(&mut members, "branch_name", branch_name.as_str());
                push_text(&mut members, "comment_text", comment_text.as_str());
                push_text(&mut members, "author", author.as_str());
                proof {
                    lemma_comment_keys();
                    assert(member_keys(members@) =~= comment_keys());
                }
            },
            TaskEvent::JiraIssue { event_type, issue_key, summary, description, status } => {
                push_text(&mut members, "source", "jira");
                push_text(&mut members, "event_type", event_type.as_str());
                push_text(&mut members, "issue_key", issue_key.as_str());
                push_text(&mut members, "summary", summary.as_str());
                push_text(&mut members, "description", description.as_str());
                push_text(&mut members, "status", status.as_str());
                proof {
                    lemma_issue_keys();
                    assert(member_keys(members@) =~= issue_keys());
                }
            },
        }
        object_value(members)
    }
}

/// What a webhook request is.
pub enum WebhookRequestView {
    Unvalidated { source: Seq<char>, payload: JsonView, headers: Map<Seq<char>, Seq<char>> },
    Validated { routing_key: Seq<char>, task_event: JsonView },
}

/// A webhook request, before and after its validation.
pub enum WebhookRequest {
    Unvalidated { source: String, payload: Json, headers: Headers },
    Validated { routing_key: String, task_event: TaskEvent },
}

impl View for WebhookRequest {
    type V = WebhookRequestView;

    open spec fn view(&self) -> WebhookRequestView {
        match self {
            WebhookRequest::Unvalidated {
                source,
                payload,
                headers,
            } => WebhookRequestView::Unvalidated {
                source: source@,
                payload: payload@,
                headers: headers@,
            },
            WebhookRequest::Validated { routing_key, task_event } => WebhookRequestView::Validated {
                routing_key: routing_key@,
                task_event: task_event@,
            },
        }
    }
}

/// What the outcome of a validation is: the validated request, or the reason why there is none.
pub open spec fn outcome_view(r: Result<WebhookRequest, String>) -> Result<
    WebhookRequestView,
    Seq<char>,
> {
    match r {
        Ok(request) => Ok(request@),
        Err(reason) => Err(reason@),
    }
}

/// The event that a Bitbucket request announces.
pub open spec fn event_key(headers: Map<Seq<char>, Seq<char>>) -> Seq<char> {
    if headers.dom().contains("x-event-key"@) {
        headers["x-event-key"@]
    } else {
        "unknown"@
    }
}

/// The text of the comment in a Bitbucket payload.
pub open spec fn comment_text(payload: JsonView) -> Seq<char> {
    text_or(child(child(Some(payload), "comment"@), "text"@), ""@)
}

/// The author of the comment in a Bitbucket payload.
pub open spec fn author_name(payload: JsonView) -> Seq<char> {
    text_or(child(child(Some(payload), "actor"@), "name"@), ""@)
}

/// The identifier of the pull request in a Bitbucket payload, as it stands there.
pub open spec fn pr_id_value(payload: JsonView) -> Option<JsonView> {
    child(child(Some(payload), "pullrequest"@), "id"@)
}

/// The identifier of the pull request in a Bitbucket payload, as text.
pub open spec fn pr_id(payload: JsonView) -> Seq<char> {
    match pr_id_value(payload) {
        Some(JsonView::Number(Some(n))) => decimal(n as int),
        id => text_or(id, ""@),
    }
}

/// The repository in a Bitbucket payload.
pub open spec fn repo_slug(payload: JsonView) -> Seq<char> {
    text_or(child(child(Some(payload), "repository"@), "slug"@), ""@)
}

/// The project in a Bitbucket payload.
pub open spec fn project_key(payload: JsonView) -> Seq<char> {
    text_or(child(child(child(Some(payload), "repository"@), "project"@), "key"@), ""@)
}

/// The branch that a pull request of a Bitbucket payload comes from.
pub open spec fn branch_name(payload: JsonView) -> Seq<char> {
    text_or(
        child(
            child(child(child(Some(payload), "pullrequest"@), "source"@), "branch"@),
            "name"@,
        ),
        ""@,
    )
}

/// The agent wrote the comment of a Bitbucket payload itself.
pub open spec fn is_own_comment(payload: JsonView) -> bool {
    ||| author_name(payload) == "Opencode Agent"@
    ||| occurs_in(comment_text(payload), "<<OPENCODE>>"@)
}

/// The routing key of the tasks for one pull request.
pub open spec fn pull_request_key(
    project_key: Seq<char>,
    repo_slug: Seq<char>,
    pr_id: Seq<char>,
) -> Seq<char> {
    project_key + "-"@ + repo_slug + "-pr-"@ + pr_id
}

/// The routing key of the tasks for one Jira issue.
pub open spec fn issue_routing_key(issue_key: Seq<char>) -> Seq<char> {
    "jira-"@ + issue_key
}

/// The reason that a request which is already validated is refused with.
pub open spec fn already_validated() -> Seq<char> {
    "Invalid state transition: Request is already validated."@
}

/// A Bitbucket request is about a new comment that the agent did not write, on a pull request
/// whose identifier is a number that no 64-bit signed integer holds.
pub open spec fn has_unreadable_id(request: WebhookRequestView) -> bool {
    match request {
        WebhookRequestView::Unvalidated { source, payload, headers } => {
            &&& event_key(headers) == "pullrequest:comment_created"@
            &&& !is_own_comment(payload)
            &&& pr_id_value(payload) == Some(JsonView::Number(None))
        },
        WebhookRequestView::Validated { .. } => false,
    }
}

/// The outcome for a Bitbucket request.
pub open spec fn bitbucket_outcome(request: WebhookRequestView) -> Result<
    WebhookRequestView,
    Seq<char>,
> {
    match request {
        WebhookRequestView::Unvalidated { source, payload, headers } => if event_key(headers)
            != "pullrequest:comment_created"@ {
            Err("unhandled_event_type: "@ + event_key(headers))
        } else if is_own_comment(payload) {
            Err("anti_loop"@)
        } else if pr_id(payload).len() == 0 || repo_slug(payload).len() == 0 || project_key(
            payload,
        ).len() == 0 {
            Err("missing_fields"@)
        } else {
            Ok(
                WebhookRequestView::Validated {
                    routing_key: pull_request_key(
                        project_key(payload),
                        repo_slug(payload),
                        pr_id(payload),
                    ),
                    task_event: comment_json(
                        project_key(payload),
                        repo_slug(payload),
                        pr_id(payload),
                        branch_name(payload),
                        comment_text(payload),
                        author_name(payload),
                    ),
                },
            )
        },
        WebhookRequestView::Validated { .. } => Err(already_validated()),
    }
}

/// The event that a Jira request announces.
pub open spec fn webhook_event(payload: JsonView) -> Seq<char> {
    text_or(child(Some(payload), "webhookEvent"@), "unknown"@)
}

/// What a Jira event is called in a task: its name without the prefix `jira:`.
pub open spec fn jira_event_type(webhook_event: Seq<char>) -> Seq<char> {
    webhook_event.skip("jira:"@.len() as int)
}

/// The issue in a Jira payload.
pub open spec fn issue(payload: JsonView) -> Option<JsonView> {
    child(Some(payload), "issue"@)
}

/// The key of the issue in a Jira payload.
pub open spec fn issue_key(payload: JsonView) -> Seq<char> {
    text_or(child(issue(payload), "key"@), ""@)
}

/// The fields of the issue in a Jira payload.
pub open spec fn issue_fields(payload: JsonView) -> Option<JsonView> {
    child(issue(payload), "fields"@)
}

/// The summary of the issue in a Jira payload.
pub open spec fn issue_summary(payload: JsonView) -> Seq<char> {
    text_or(child(issue_fields(payload), "summary"@), ""@)
}

/// The description of the issue in a Jira payload.
pub open spec fn issue_description(payload: JsonView) -> Seq<char> {
    text_or(child(issue_fields(payload), "description"@), ""@)
}

/// The status of the issue in a Jira payload.
pub open spec fn issue_status(payload: JsonView) -> Seq<char> {
    text_or(child(child(issue_fields(payload), "status"@), "name"@), ""@)
}

/// A list holds the text `label`.
pub open spec fn has_label(labels: Option<JsonView>, label: Seq<char>) -> bool {
    match labels {
        Some(JsonView::Array(items)) => items.contains(JsonView::Text(label)),
        _ => false,
    }
}

/// A request that is validated for the issue of a Jira payload.
pub open spec fn validated_issue(payload: JsonView, event_type: Seq<char>) -> WebhookRequestView {
    WebhookRequestView::Validated {
        routing_key: issue_routing_key(issue_key(payload)),
        task_event: issue_json(
            event_type,
            issue_key(payload),
            issue_summary(payload),
            issue_description(payload),
            issue_status(payload),
        ),
    }
}

/// The outcome for a request of a Jira webhook.
pub open spec fn jira_outcome(request: WebhookRequestView) -> Result<
    WebhookRequestView,
    Seq<char>,
> {
    match request {
        WebhookRequestView::Unvalidated { source, payload, headers } => if webhook_event(payload)
            != "jira:issue_created"@ && webhook_event(payload) != "jira:issue_updated"@ {
            Err("unhandled_event_type: "@ + webhook_event(payload))
        } else if issue_key(payload).len() == 0 {
            Err("no_issue_key"@)
        } else {
            Ok(validated_issue(payload, jira_event_type(webhook_event(payload))))
        },
        WebhookRequestView::Validated { .. } => Err(already_validated()),
    }
}

/// The outcome for a request that came over Pub/Sub from Jira.
pub open spec fn pubsub_jira_outcome(request: WebhookRequestView) -> Result<
    WebhookRequestView,
    Seq<char>,
> {
    match request {
        WebhookRequestView::Unvalidated { source, payload, headers } => if !(issue(payload)
            matches Some(JsonView::Object(_))) {
            Err("missing_issue_object"@)
        } else if issue_key(payload).len() == 0 {
            Err("missing_issue_key"@)
        } else if !(issue_fields(payload) matches Some(JsonView::Object(_))) {
            Err("missing_fields_object"@)
        } else if !has_label(child(issue_fields(payload), "labels"@), "ready_for_development"@) {
            Err("missing_ready_for_development_label"@)
        } else {
            Ok(validated_issue(payload, "issue_updated"@))
        },
        WebhookRequestView::Validated { .. } => Err(already_validated()),
    }
}

/// The identifier of the pull request in a Bitbucket payload, as text.
fn read_pr_id(payload: &Json) -> (r: String)
    ensures
        r@ == pr_id(payload@),
{
    let id = child_of(child_of(Some(payload), "pullrequest"), "id");
    match id {
        Some(Json::Number(Some(n))) => decimal_text(*n),
        _ => text_of_or(id, ""),
    }
}

/// Whether a list holds the text `label`.
fn lists_label(labels: Option<&Json>, label: &str) -> (r: bool)
    ensures
        r == has_label(opt_tree(labels), label@),
{
    match labels {
        Some(Json::Array(items)) => {
            proof {
                lemma_items_view(items@);
            }
            let ghost trees = Json::items_view(items@);
            let mut i: usize = 0;
            while i < items.len()
                invariant
                    i <= items@.len(),
                    trees.len() == items@.len(),
                    forall|j: int|
                        0 <= j < items@.len() ==> #[trigger] trees[j] == items@[j].tree(),
                    forall|j: int| 0 <= j < i ==> #[trigger] trees[j] != JsonView::Text(label@),
                    has_label(opt_tree(labels), label@) == trees.contains(JsonView::Text(label@)),
                decreases items@.len() - i,
            {
                assert(trees[i as int] == items@[i as int].tree());
                if let Some(text) = items[i].as_str() {
                    if same(text, label) {
                        return true;
                    }
                }
                i += 1;
            }
            false
        },
        _ => false,
    }
}

impl WebhookRequest {
    /// A request that is yet to be validated.
    pub fn new(source: &str, payload: Json, headers: Headers) -> (r: WebhookRequest)
        ensures
            r@ == (WebhookRequestView::Unvalidated {
                source: source@,
                payload: payload@,
                headers: headers@,
            }),
    {
        WebhookRequest::Unvalidated { source: source.to_owned(), payload, headers }
    }

    /// Whether a Bitbucket request is about a new comment that the agent did not write, on a pull
    /// request whose identifier is a number that no 64-bit signed integer holds.
    pub fn has_unreadable_id(&self) -> (r: bool)
        ensures
            r == has_unreadable_id(self@),
    {
        match self {
            WebhookRequest::Unvalidated { payload, headers, .. } => {
                let event_key = read_event_key(headers);
                if !same(event_key.as_str(), "pullrequest:comment_created") {
                    return false;
                }
                if reads_own_comment(payload) {
                    return false;
                }
                match child_of(child_of(Some(payload), "pullrequest"), "id") {
                    Some(Json::Number(None)) => true,
                    _ => false,
                }
            },
            WebhookRequest::Validated { .. } => false,
        }
    }

    /// Validates a Bitbucket request: only a new comment on a pull request that the agent did not
    /// write itself becomes a task.
    pub fn validate_bitbucket(self) -> (r: Result<WebhookRequest, String>)
        requires
            !has_unreadable_id(self@),
        ensures
            outcome_view(r) == bitbucket_outcome(self@),
    {
        match self {
            WebhookRequest::Unvalidated { payload, headers, .. } => {
                let event_key = read_event_key(&headers);
                if !same(event_key.as_str(), "pullrequest:comment_created") {
                    return Err("unhandled_event_type: ".to_owned().concat(event_key.as_str()));
                }
                if reads_own_comment(&payload) {
                    return Err("anti_loop".to_owned());
                }
                let comment_text = text_of_or(
                    child_of(child_of(Some(&payload), "comment"), "text"),
                    "",
                );
                let author = text_of_or(child_of(child_of(Some(&payload), "actor"), "name"), "");
                let pr_id = read_pr_id(&payload);
                let repository = child_of(Some(&payload), "repository");
                let repository_slug = text_of_or(child_of(repository, "slug"), "");
                let project_key = text_of_or(child_of(child_of(repository, "project"), "key"), "");
                let branch = child_of(
                    child_of(child_of(Some(&payload), "pullrequest"), "source"),
                    "branch",
                );
                let branch_name = text_of_or(child_of(branch, "name"), "");
                if pr_id.as_str().is_empty() || repository_slug.as_str().is_empty()
                    || project_key.as_str().is_empty() {
                    return Err("missing_fields".to_owned());
                }
                let routing_key = project_key.clone().concat("-").concat(
                    repository_slug.as_str(),
                ).concat("-pr-").concat(pr_id.as_str());
                Ok(
                    WebhookRequest::Validated {
                        routing_key,
                        task_event: TaskEvent::PullRequestComment {
                            project_key,
                            repository_slug,
                            pr_id,
                            branch_name,
                            comment_text,
                            author,
                        },
                    },
                )
            },
            WebhookRequest::Validated { .. } => Err(
                "Invalid state transition: Request is already validated.".to_owned(),
            ),
        }
    }

    /// Validates a request of a Jira webhook: an issue that was created or changed becomes a task.
    pub fn validate_jira(self) -> (r: Result<WebhookRequest, String>)
        ensures
            outcome_view(r) == jira_outcome(self@),
    {
        match self {
            WebhookRequest::Unvalidated { payload, .. } => {
                let event = text_of_or(child_of(Some(&payload), "webhookEvent"), "unknown");
                if !same(event.as_str(), "jira:issue_created") && !same(
                    event.as_str(),
                    "jira:issue_updated",
                ) {
                    return Err("unhandled_event_type: ".to_owned().concat(event.as_str()));
                }
                let issue = child_of(Some(&payload), "issue");
                let issue_key = text_of_or(child_of(issue, "key"), "");
                if issue_key.as_str().is_empty() {
                    return Err("no_issue_key".to_owned());
                }
                proof {
                    reveal_strlit("jira:");
                    reveal_strlit("jira:issue_created");
                    reveal_strlit("jira:issue_updated");
                }
                let event_type = event.as_str().substring_char(
                    "jira:".unicode_len(),
                    event.as_str().unicode_len(),
                );
                Ok(read_issue(&payload, event_type.to_owned(), issue_key))
            },
            WebhookRequest::Validated { .. } => Err(
                "Invalid state transition: Request is already validated.".to_owned(),
            ),
        }
    }

    /// Validates a request that came over Pub/Sub from Jira: an issue that is labelled as ready
    /// for development becomes a task.
    pub fn validate_pubsub_jira(self) -> (r: Result<WebhookRequest, String>)
        ensures
            outcome_view(r) == pubsub_jira_outcome(self@),
    {
        match self {
            WebhookRequest::Unvalidated { payload, .. } => {
                let issue = child_of(Some(&payload), "issue");
                if !is_object(issue) {
                    return Err("missing_issue_object".to_owned());
                }
                let issue_key = text_of_or(child_of(issue, "key"), "");
                if issue_key.as_str().is_empty() {
                    return Err("missing_issue_key".to_owned());
                }
                let fields = child_of(issue, "fields");
                if !is_object(fields) {
                    return Err("missing_fields_object".to_owned());
                }
                if !lists_label(child_of(fields, "labels"), "ready_for_development") {
                    return Err("missing_ready_for_development_label".to_owned());
                }
                Ok(read_issue(&payload, "issue_updated".to_owned(), issue_key))
            },
            WebhookRequest::Validated { .. } => Err(
                "Invalid state transition: Request is already validated.".to_owned(),
            ),
        }
    }
}

/// The event that a Bitbucket request announces.
fn read_event_key(headers: &Headers) -> (r: String)
    ensures
        r@ == event_key(headers@),
{
    match headers.get("x-event-key") {
        Some(value) => value.to_owned(),
        None => "unknown".to_owned(),
    }
}

/// Whether the agent wrote the comment of a Bitbucket payload itself.
fn reads_own_comment(payload: &Json) -> (r: bool)
    ensures
        r == is_own_comment(payload@),
{
    let text = text_of_or(child_of(child_of(Some(payload), "comment"), "text"), "");
    let author = text_of_or(child_of(child_of(Some(payload), "actor"), "name"), "");
    same(author.as_str(), "Opencode Agent") || contains(text.as_str(), "<<OPENCODE>>")
}

/// The request that is validated for the issue of a Jira payload.
fn read_issue(payload: &Json, event_type: String, key: String) -> (r: WebhookRequest)
    requires
        key@ == issue_key(payload@),
    ensures
        r@ == validated_issue(payload@, event_type@),
{
    let fields = child_of(child_of(Some(payload), "issue"), "fields");
    let summary = text_of_or(child_of(fields, "summary"), "");
    let description = text_of_or(child_of(fields, "description"), "");
    let status = text_of_or(child_of(child_of(fields, "status"), "name"), "");
    WebhookRequest::Validated {
        routing_key: "jira-".to_owned().concat(key.as_str()),
        task_event: TaskEvent::JiraIssue {
            event_type,
            issue_key: key,
            summary,
            description,
            status,
        },
    }
}

} // verus!
