//! What holds of webhooks: which of them become tasks, what the tasks say, and how the webhooks
//! are answered.
use vstd::prelude::*;
use vstd::utf8::{encode_utf8, encode_utf8_decode_utf8, encode_utf8_valid_utf8, valid_utf8};

use crate::headers::collected;
use crate::ingest::{
    answer_to, bridged, carries, health_json, pubsub_request, webhook_request, Answer, Bridged,
    OutgoingMessage, PublicationView, Reply,
};
use crate::json::JsonView;
use crate::laws::data::{
    at, has_only, law_found_parts_are_there, law_parts_are_found, lemma_at_four, lemma_at_one,
    lemma_at_three, lemma_at_two, tells, text_at, told,
};
use crate::text::{decimal, occurs_in};
use crate::webhook::{
    author_name, bitbucket_outcome, branch_name, comment_keys, comment_text, has_unreadable_id,
    is_own_comment, issue_description, issue_fields, issue_key, issue_keys, issue_status,
    issue_summary, jira_outcome, lemma_comment_keys, lemma_issue_keys, outcome_view, pr_id,
    pr_id_value, project_key, pubsub_jira_outcome, repo_slug, TaskEvent, WebhookRequest,
    WebhookRequestView,
};
use crate::wire::{json_from_text, reads_as};

verus! {

broadcast use vstd::string::group_string_axioms;

/// A comment bears the mark of the agent, wherever it stands.
pub open spec fn bears_mark(text: Seq<char>) -> bool {
    exists|prefix: Seq<char>, suffix: Seq<char>|
        text == #[trigger] (prefix + "<<OPENCODE>>"@ + suffix)
}

/// The request is about a new comment on a pull request.
pub open spec fn announces_comment(headers: Map<Seq<char>, Seq<char>>) -> bool {
    headers.dom().contains("x-event-key"@) && headers["x-event-key"@]
        == "pullrequest:comment_created"@
}

/// The agent neither wrote nor marked the comment.
pub open spec fn is_foreign(payload: JsonView) -> bool {
    &&& text_at(payload, seq!["actor"@, "name"@]) != "Opencode Agent"@
    &&& !bears_mark(text_at(payload, seq!["comment"@, "text"@]))
}

/// The pull request of a payload goes by the name `id`: a text, or an integer in decimal.
pub open spec fn goes_by(payload: JsonView, id: Seq<char>) -> bool {
    match at(payload, seq!["pullrequest"@, "id"@]) {
        Some(JsonView::Text(text)) => id == text,
        Some(JsonView::Number(Some(n))) => id == decimal(n as int),
        _ => false,
    }
}

proof fn lemma_texts(payload: JsonView)
    ensures
        comment_text(payload) == text_at(payload, seq!["comment"@, "text"@]),
        author_name(payload) == text_at(payload, seq!["actor"@, "name"@]),
        pr_id_value(payload) == at(payload, seq!["pullrequest"@, "id"@]),
        repo_slug(payload) == text_at(payload, seq!["repository"@, "slug"@]),
        project_key(payload) == text_at(payload, seq!["repository"@, "project"@, "key"@]),
        branch_name(payload) == text_at(
            payload,
            seq!["pullrequest"@, "source"@, "branch"@, "name"@],
        ),
        is_own_comment(payload) == !is_foreign(payload),
        pr_id(payload).len() > 0 ==> goes_by(payload, pr_id(payload)),
        forall|id: Seq<char>| goes_by(payload, id) ==> id == pr_id(payload),
{
    reveal_strlit("");
    assert(""@ =~= Seq::empty());
    lemma_at_two(payload, "comment"@, "text"@);
    lemma_at_two(payload, "actor"@, "name"@);
    lemma_at_two(payload, "pullrequest"@, "id"@);
    lemma_at_two(payload, "repository"@, "slug"@);
    lemma_at_three(payload, "repository"@, "project"@, "key"@);
    lemma_at_four(payload, "pullrequest"@, "source"@, "branch"@, "name"@);
    let text = text_at(payload, seq!["comment"@, "text"@]);
    if occurs_in(text, "<<OPENCODE>>"@) {
        law_found_parts_are_there(text, "<<OPENCODE>>"@);
    }
    if bears_mark(text) {
        let (prefix, suffix) = choose|prefix: Seq<char>, suffix: Seq<char>|
            text == #[trigger] (prefix + "<<OPENCODE>>"@ + suffix);
        law_parts_are_found(prefix, "<<OPENCODE>>"@, suffix);
    }
}

/// A comment that bears the mark of the agent becomes no task, wherever in the comment the mark
/// stands and whatever else the request says.
pub proof fn law_marked_comments_are_refused(
    source: Seq<char>,
    payload: JsonView,
    headers: Map<Seq<char>, Seq<char>>,
    prefix: Seq<char>,
    suffix: Seq<char>,
)
    requires
        announces_comment(headers),
        at(payload, seq!["comment"@, "text"@]) == Some(
            JsonView::Text(prefix + "<<OPENCODE>>"@ + suffix),
        ),
    ensures
        ({
            let outcome = bitbucket_outcome(
                WebhookRequestView::Unvalidated { source, payload, headers },
            );
            &&& outcome == Err::<WebhookRequestView, Seq<char>>("anti_loop"@)
            &&& answer_to(outcome).publication is None
        }),
{
    lemma_texts(payload);
    law_parts_are_found(prefix, "<<OPENCODE>>"@, suffix);
}

/// A comment of the agent becomes no task, whatever it says.
pub proof fn law_comments_of_the_agent_are_refused(
    source: Seq<char>,
    payload: JsonView,
    headers: Map<Seq<char>, Seq<char>>,
)
    requires
        announces_comment(headers),
        at(payload, seq!["actor"@, "name"@]) == Some(JsonView::Text("Opencode Agent"@)),
    ensures
        ({
            let outcome = bitbucket_outcome(
                WebhookRequestView::Unvalidated { source, payload, headers },
            );
            &&& outcome == Err::<WebhookRequestView, Seq<char>>("anti_loop"@)
            &&& answer_to(outcome).publication is None
        }),
{
    lemma_texts(payload);
}

/// A Bitbucket event that is no new comment is refused by its name, and one without a name as
/// unknown.
pub proof fn law_other_bitbucket_events_are_refused(
    source: Seq<char>,
    payload: JsonView,
    headers: Map<Seq<char>, Seq<char>>,
)
    requires
        !announces_comment(headers),
    ensures
        bitbucket_outcome(WebhookRequestView::Unvalidated { source, payload, headers }) == Err::<
            WebhookRequestView,
            Seq<char>,
        >(
            "unhandled_event_type: "@ + if headers.dom().contains("x-event-key"@) {
                headers["x-event-key"@]
            } else {
                "unknown"@
            },
        ),
{
    reveal_strlit("unknown");
    reveal_strlit("pullrequest:comment_created");
    assert("unknown"@.len() == 7 && "pullrequest:comment_created"@.len() == 27);
}

/// A comment of anybody else, on a pull request that the payload names together with its project
/// and repository, becomes a task, whatever else the payload holds. The task tells all of it, and
/// goes under a routing key made of project, repository and pull request.
pub proof fn law_comments_become_tasks(
    source: Seq<char>,
    payload: JsonView,
    headers: Map<Seq<char>, Seq<char>>,
    id: Seq<char>,
)
    requires
        announces_comment(headers),
        is_foreign(payload),
        goes_by(payload, id),
        id.len() > 0,
        text_at(payload, seq!["repository"@, "slug"@]).len() > 0,
        text_at(payload, seq!["repository"@, "project"@, "key"@]).len() > 0,
    ensures
        ({
            let outcome = bitbucket_outcome(
                WebhookRequestView::Unvalidated { source, payload, headers },
            );
            let project = text_at(payload, seq!["repository"@, "project"@, "key"@]);
            let slug = text_at(payload, seq!["repository"@, "slug"@]);
            let branch = text_at(payload, seq!["pullrequest"@, "source"@, "branch"@, "name"@]);
            &&& outcome is Ok
            &&& outcome->Ok_0 is Validated
            &&& outcome->Ok_0->routing_key == project + "-"@ + slug + "-pr-"@ + id
            &&& tells(outcome->Ok_0->task_event, "source"@, "bitbucket"@)
            &&& tells(outcome->Ok_0->task_event, "event_type"@, "pr_comment"@)
            &&& tells(outcome->Ok_0->task_event, "project_key"@, project)
            &&& tells(outcome->Ok_0->task_event, "repository_slug"@, slug)
            &&& tells(outcome->Ok_0->task_event, "pr_id"@, id)
            &&& tells(outcome->Ok_0->task_event, "branch_name"@, branch)
            &&& tells(
                outcome->Ok_0->task_event,
                "comment_text"@,
                text_at(payload, seq!["comment"@, "text"@]),
            )
            &&& tells(
                outcome->Ok_0->task_event,
                "author"@,
                text_at(payload, seq!["actor"@, "name"@]),
            )
        }),
{
    lemma_texts(payload);
    lemma_comment_keys();
    let outcome = bitbucket_outcome(WebhookRequestView::Unvalidated { source, payload, headers });
    let task = outcome->Ok_0->task_event;
    lemma_at_one(task, "source"@);
    lemma_at_one(task, "event_type"@);
    lemma_at_one(task, "project_key"@);
    lemma_at_one(task, "repository_slug"@);
    lemma_at_one(task, "pr_id"@);
    lemma_at_one(task, "branch_name"@);
    lemma_at_one(task, "comment_text"@);
    lemma_at_one(task, "author"@);
}

/// A comment of anybody else is refused where its pull request, its repository or its project has
/// no name, or an empty one.
pub proof fn law_comments_need_their_pull_request(
    source: Seq<char>,
    payload: JsonView,
    headers: Map<Seq<char>, Seq<char>>,
)
    requires
        announces_comment(headers),
        is_foreign(payload),
        (forall|id: Seq<char>| #[trigger] goes_by(payload, id) ==> id.len() == 0) || text_at(
            payload,
            seq!["repository"@, "slug"@],
        ).len() == 0 || text_at(payload, seq!["repository"@, "project"@, "key"@]).len() == 0,
    ensures
        bitbucket_outcome(WebhookRequestView::Unvalidated { source, payload, headers }) == Err::<
            WebhookRequestView,
            Seq<char>,
        >("missing_fields"@),
{
    lemma_texts(payload);
}

/// The one request that gets no answer is about a comment of somebody else whose pull request is
/// numbered by no 64-bit integer.
pub proof fn law_unreadable_identifiers(
    source: Seq<char>,
    payload: JsonView,
    headers: Map<Seq<char>, Seq<char>>,
    routing_key: Seq<char>,
    task_event: JsonView,
)
    ensures
        has_unreadable_id(WebhookRequestView::Unvalidated { source, payload, headers }) <==> {
            &&& announces_comment(headers)
            &&& is_foreign(payload)
            &&& at(payload, seq!["pullrequest"@, "id"@]) == Some(JsonView::Number(None))
        },
        !has_unreadable_id(WebhookRequestView::Validated { routing_key, task_event }),
{
    lemma_texts(payload);
    reveal_strlit("unknown");
    reveal_strlit("pullrequest:comment_created");
    assert("unknown"@.len() == 7 && "pullrequest:comment_created"@.len() == 27);
}

/// A task is the task of the issue of a payload, under the event type `event`, and goes under the
/// routing key of the issue.
pub open spec fn is_issue_task(
    request: WebhookRequestView,
    payload: JsonView,
    event: Seq<char>,
) -> bool {
    &&& request is Validated
    &&& request->routing_key == "jira-"@ + text_at(payload, seq!["issue"@, "key"@])
    &&& tells(request->task_event, "source"@, "jira"@)
    &&& tells(request->task_event, "event_type"@, event)
    &&& tells(request->task_event, "issue_key"@, text_at(payload, seq!["issue"@, "key"@]))
    &&& tells(
        request->task_event,
        "summary"@,
        text_at(payload, seq!["issue"@, "fields"@, "summary"@]),
    )
    &&& tells(
        request->task_event,
        "description"@,
        text_at(payload, seq!["issue"@, "fields"@, "description"@]),
    )
    &&& tells(
        request->task_event,
        "status"@,
        text_at(payload, seq!["issue"@, "fields"@, "status"@, "name"@]),
    )
}

proof fn lemma_issue_texts(payload: JsonView)
    ensures
        issue_key(payload) == text_at(payload, seq!["issue"@, "key"@]),
        issue_summary(payload) == text_at(payload, seq!["issue"@, "fields"@, "summary"@]),
        issue_description(payload) == text_at(payload, seq!["issue"@, "fields"@, "description"@]),
        issue_status(payload) == text_at(
            payload,
            seq!["issue"@, "fields"@, "status"@, "name"@],
        ),
        crate::webhook::issue(payload) == at(payload, seq!["issue"@]),
        issue_fields(payload) == at(payload, seq!["issue"@, "fields"@]),
        crate::json::child(issue_fields(payload), "labels"@) == at(
            payload,
            seq!["issue"@, "fields"@, "labels"@],
        ),
{
    reveal_strlit("");
    assert(""@ =~= Seq::empty());
    lemma_at_one(payload, "issue"@);
    lemma_at_two(payload, "issue"@, "key"@);
    lemma_at_two(payload, "issue"@, "fields"@);
    lemma_at_three(payload, "issue"@, "fields"@, "summary"@);
    lemma_at_three(payload, "issue"@, "fields"@, "description"@);
    lemma_at_three(payload, "issue"@, "fields"@, "labels"@);
    lemma_at_four(payload, "issue"@, "fields"@, "status"@, "name"@);
}

proof fn lemma_is_issue_task(payload: JsonView, event: Seq<char>)
    ensures
        is_issue_task(crate::webhook::validated_issue(payload, event), payload, event),
{
    lemma_issue_texts(payload);
    lemma_issue_keys();
    let task = crate::webhook::validated_issue(payload, event)->task_event;
    lemma_at_one(task, "source"@);
    lemma_at_one(task, "event_type"@);
    lemma_at_one(task, "issue_key"@);
    lemma_at_one(task, "summary"@);
    lemma_at_one(task, "description"@);
    lemma_at_one(task, "status"@);
}

proof fn lemma_jira_events()
    ensures
        "jira:"@ + "issue_created"@ == "jira:issue_created"@,
        "jira:"@ + "issue_updated"@ == "jira:issue_updated"@,
        "unknown"@ != "jira:issue_created"@,
        "unknown"@ != "jira:issue_updated"@,
        crate::webhook::jira_event_type("jira:issue_created"@) == "issue_created"@,
        crate::webhook::jira_event_type("jira:issue_updated"@) == "issue_updated"@,
{
    reveal_strlit("jira:");
    reveal_strlit("issue_created");
    reveal_strlit("issue_updated");
    reveal_strlit("jira:issue_created");
    reveal_strlit("jira:issue_updated");
    reveal_strlit("unknown");
    assert("jira:"@ + "issue_created"@ =~= "jira:issue_created"@);
    assert("jira:"@ + "issue_updated"@ =~= "jira:issue_updated"@);
    assert("unknown"@.len() == 7 && "jira:issue_created"@.len() == 18);
    assert("jira:issue_updated"@.len() == 18);
    assert("jira:issue_created"@.skip(5) =~= "issue_created"@);
    assert("jira:issue_updated"@.skip(5) =~= "issue_updated"@);
}

/// An issue that a Jira webhook reports as created or updated becomes a task as soon as it has a
/// key, whatever else the payload holds.
pub proof fn law_jira_issues_become_tasks(
    source: Seq<char>,
    payload: JsonView,
    headers: Map<Seq<char>, Seq<char>>,
    event: Seq<char>,
)
    requires
        event == "issue_created"@ || event == "issue_updated"@,
        at(payload, seq!["webhookEvent"@]) == Some(JsonView::Text("jira:"@ + event)),
        text_at(payload, seq!["issue"@, "key"@]).len() > 0,
    ensures
        ({
            let outcome = jira_outcome(
                WebhookRequestView::Unvalidated { source, payload, headers },
            );
            outcome is Ok && is_issue_task(outcome->Ok_0, payload, event)
        }),
{
    lemma_jira_events();
    lemma_issue_texts(payload);
    lemma_at_one(payload, "webhookEvent"@);
    lemma_is_issue_task(payload, event);
}

/// Any other Jira webhook is refused: by the name of its event, as unknown where that has no name,
/// or for want of a key.
pub proof fn law_other_jira_requests_are_refused(
    source: Seq<char>,
    payload: JsonView,
    headers: Map<Seq<char>, Seq<char>>,
)
    ensures
        ({
            let outcome = jira_outcome(
                WebhookRequestView::Unvalidated { source, payload, headers },
            );
            match told(payload, seq!["webhookEvent"@]) {
                Some(event) => if event != "jira:issue_created"@ && event
                    != "jira:issue_updated"@ {
                    outcome == Err::<WebhookRequestView, Seq<char>>(
                        "unhandled_event_type: "@ + event,
                    )
                } else {
                    text_at(payload, seq!["issue"@, "key"@]).len() == 0 ==> outcome == Err::<
                        WebhookRequestView,
                        Seq<char>,
                    >("no_issue_key"@)
                },
                None => outcome == Err::<WebhookRequestView, Seq<char>>(
                    "unhandled_event_type: "@ + "unknown"@,
                ),
            }
        }),
{
    lemma_jira_events();
    lemma_issue_texts(payload);
    lemma_at_one(payload, "webhookEvent"@);
}

/// An issue that comes over Pub/Sub becomes a task where the label stands anywhere in its list of
/// labels, whatever else stands there.
pub proof fn law_ready_issues_become_tasks(
    source: Seq<char>,
    payload: JsonView,
    headers: Map<Seq<char>, Seq<char>>,
    labels: Seq<JsonView>,
    i: int,
)
    requires
        text_at(payload, seq!["issue"@, "key"@]).len() > 0,
        at(payload, seq!["issue"@, "fields"@, "labels"@]) == Some(JsonView::Array(labels)),
        0 <= i < labels.len(),
        labels[i] == JsonView::Text("ready_for_development"@),
    ensures
        ({
            let outcome = pubsub_jira_outcome(
                WebhookRequestView::Unvalidated { source, payload, headers },
            );
            outcome is Ok && is_issue_task(outcome->Ok_0, payload, "issue_updated"@)
        }),
{
    lemma_issue_texts(payload);
    lemma_is_issue_task(payload, "issue_updated"@);
    assert(labels.contains(JsonView::Text("ready_for_development"@)));
}

/// An issue that comes over Pub/Sub is refused where there is no issue, where it has no key, where
/// it has no fields, and where no label of its list is the one that is looked for, in this order.
pub proof fn law_other_pubsub_requests_are_refused(
    source: Seq<char>,
    payload: JsonView,
    headers: Map<Seq<char>, Seq<char>>,
)
    ensures
        ({
            let outcome = pubsub_jira_outcome(
                WebhookRequestView::Unvalidated { source, payload, headers },
            );
            if !(at(payload, seq!["issue"@]) matches Some(JsonView::Object(_))) {
                outcome == Err::<WebhookRequestView, Seq<char>>("missing_issue_object"@)
            } else if text_at(payload, seq!["issue"@, "key"@]).len() == 0 {
                outcome == Err::<WebhookRequestView, Seq<char>>("missing_issue_key"@)
            } else if !(at(payload, seq!["issue"@, "fields"@]) matches Some(
                JsonView::Object(_),
            )) {
                outcome == Err::<WebhookRequestView, Seq<char>>("missing_fields_object"@)
            } else {
                let refused = outcome == Err::<WebhookRequestView, Seq<char>>(
                    "missing_ready_for_development_label"@,
                );
                match at(payload, seq!["issue"@, "fields"@, "labels"@]) {
                    Some(JsonView::Array(labels)) => (forall|i: int|
                        0 <= i < labels.len() ==> #[trigger] labels[i] != JsonView::Text(
                            "ready_for_development"@,
                        )) ==> refused,
                    _ => refused,
                }
            }
        }),
{
    lemma_issue_texts(payload);
}

/// A request that is validated already is refused as such.
pub proof fn law_validated_requests_are_refused(routing_key: Seq<char>, task_event: JsonView)
    ensures
        ({
            let request = WebhookRequestView::Validated { routing_key, task_event };
            let refusal = Err::<WebhookRequestView, Seq<char>>(
                "Invalid state transition: Request is already validated."@,
            );
            &&& bitbucket_outcome(request) == refusal
            &&& jira_outcome(request) == refusal
            &&& pubsub_jira_outcome(request) == refusal
        }),
{
}

/// The object that is published for a comment holds each part of it under its own key, and
/// nothing else.
pub proof fn law_comments_are_published_in_full(event: TaskEvent)
    requires
        event is PullRequestComment,
    ensures
        tells(event@, "source"@, "bitbucket"@),
        tells(event@, "event_type"@, "pr_comment"@),
        tells(event@, "project_key"@, event->project_key@),
        tells(event@, "repository_slug"@, event->repository_slug@),
        tells(event@, "pr_id"@, event->pr_id@),
        tells(event@, "branch_name"@, event->branch_name@),
        tells(event@, "comment_text"@, event->comment_text@),
        tells(event@, "author"@, event->author@),
        has_only(
            event@,
            seq![
                "source"@,
                "event_type"@,
                "project_key"@,
                "repository_slug"@,
                "pr_id"@,
                "branch_name"@,
                "comment_text"@,
                "author"@,
            ],
        ),
{
    lemma_comment_keys();
    lemma_at_one(event@, "source"@);
    lemma_at_one(event@, "event_type"@);
    lemma_at_one(event@, "project_key"@);
    lemma_at_one(event@, "repository_slug"@);
    lemma_at_one(event@, "pr_id"@);
    lemma_at_one(event@, "branch_name"@);
    lemma_at_one(event@, "comment_text"@);
    lemma_at_one(event@, "author"@);
    assert(comment_keys().contains("source"@) && comment_keys().contains("event_type"@));
    assert(comment_keys().contains("project_key"@) && comment_keys().contains("repository_slug"@));
    assert(comment_keys().contains("pr_id"@) && comment_keys().contains("branch_name"@));
    assert(comment_keys().contains("comment_text"@) && comment_keys().contains("author"@));
}

/// The object that is published for an issue holds each part of it under its own key, and nothing
/// else.
pub proof fn law_issues_are_published_in_full(event: TaskEvent)
    requires
        event is JiraIssue,
    ensures
        tells(event@, "source"@, "jira"@),
        tells(event@, "event_type"@, event->event_type@),
        tells(event@, "issue_key"@, event->issue_key@),
        tells(event@, "summary"@, event->summary@),
        tells(event@, "description"@, event->description@),
        tells(event@, "status"@, event->status@),
        has_only(
            event@,
            seq![
                "source"@,
                "event_type"@,
                "issue_key"@,
                "summary"@,
                "description"@,
                "status"@,
            ],
        ),
{
    lemma_issue_keys();
    lemma_at_one(event@, "source"@);
    lemma_at_one(event@, "event_type"@);
    lemma_at_one(event@, "issue_key"@);
    lemma_at_one(event@, "summary"@);
    lemma_at_one(event@, "description"@);
    lemma_at_one(event@, "status"@);
    assert(issue_keys().contains("source"@) && issue_keys().contains("event_type"@));
    assert(issue_keys().contains("issue_key"@) && issue_keys().contains("summary"@));
    assert(issue_keys().contains("description"@) && issue_keys().contains("status"@));
}

/// What is known of the outcome of a validation is what it is: a request with its parts, or a
/// reason.
pub proof fn law_outcomes_are_seen_in_full(r: Result<WebhookRequest, String>)
    ensures
        match r {
            Ok(WebhookRequest::Unvalidated { source, payload, headers }) => outcome_view(r) == Ok::<
                WebhookRequestView,
                Seq<char>,
            >(
                WebhookRequestView::Unvalidated {
                    source: source@,
                    payload: payload@,
                    headers: headers@,
                },
            ),
            Ok(WebhookRequest::Validated { routing_key, task_event }) => outcome_view(r) == Ok::<
                WebhookRequestView,
                Seq<char>,
            >(
                WebhookRequestView::Validated {
                    routing_key: routing_key@,
                    task_event: task_event@,
                },
            ),
            Err(reason) => outcome_view(r) == Err::<WebhookRequestView, Seq<char>>(reason@),
        },
{
}

proof fn lemma_reply_keys()
    ensures
        "status"@ != "reason"@,
        "status"@ != "routing_key"@,
        "status"@ != "pulsar_connected"@,
{
    reveal_strlit("status");
    reveal_strlit("reason");
    reveal_strlit("routing_key");
    reveal_strlit("pulsar_connected");
    assert("status"@.len() == 6 && "reason"@.len() == 6 && "routing_key"@.len() == 11);
    assert("pulsar_connected"@.len() == 16);
    assert("status"@[0] != "reason"@[0]);
}

/// A reply says how the request fared, and with what: the state of the connection, the routing key
/// or the reason.
pub proof fn law_replies_say_how_the_request_fared(reply: Reply)
    ensures
        match reply {
            Reply::Healthy { pulsar_connected } => {
                &&& tells(reply@, "status"@, "healthy"@)
                &&& at(reply@, seq!["pulsar_connected"@]) == Some(JsonView::Bool(pulsar_connected))
                &&& has_only(reply@, seq!["status"@, "pulsar_connected"@])
            },
            Reply::Accepted { routing_key } => {
                &&& tells(reply@, "status"@, "accepted"@)
                &&& tells(reply@, "routing_key"@, routing_key@)
                &&& has_only(reply@, seq!["status"@, "routing_key"@])
            },
            Reply::Unexpected => {
                &&& tells(reply@, "status"@, "error"@)
                &&& tells(reply@, "reason"@, "unexpected state"@)
                &&& has_only(reply@, seq!["status"@, "reason"@])
            },
            Reply::Ignored { reason } => {
                &&& tells(reply@, "status"@, "ignored"@)
                &&& tells(reply@, "reason"@, reason@)
                &&& has_only(reply@, seq!["status"@, "reason"@])
            },
        },
{
    lemma_reply_keys();
    lemma_at_one(reply@, "status"@);
    lemma_at_one(reply@, "pulsar_connected"@);
    lemma_at_one(reply@, "routing_key"@);
    lemma_at_one(reply@, "reason"@);
    let connected = seq!["status"@, "pulsar_connected"@];
    assert(connected[0] == "status"@ && connected[1] == "pulsar_connected"@);
    let routed = seq!["status"@, "routing_key"@];
    assert(routed[0] == "status"@ && routed[1] == "routing_key"@);
    let reasoned = seq!["status"@, "reason"@];
    assert(reasoned[0] == "status"@ && reasoned[1] == "reason"@);
}

/// The health report says that the service is up, and whether it is connected.
pub proof fn law_health_is_reported(connected: bool)
    ensures
        tells(health_json(connected), "status"@, "healthy"@),
        at(health_json(connected), seq!["pulsar_connected"@]) == Some(JsonView::Bool(connected)),
        has_only(health_json(connected), seq!["status"@, "pulsar_connected"@]),
{
    lemma_reply_keys();
    lemma_at_one(health_json(connected), "status"@);
    lemma_at_one(health_json(connected), "pulsar_connected"@);
    let keys = seq!["status"@, "pulsar_connected"@];
    assert(keys[0] == "status"@ && keys[1] == "pulsar_connected"@);
}

/// A validated request is answered with its routing key, under which its own task is published; a
/// refused one is answered with its reason, and nothing is published for it.
pub proof fn law_requests_are_answered(outcome: Result<WebhookRequest, String>, answer: Answer)
    requires
        answer@ == answer_to(outcome_view(outcome)),
    ensures
        match outcome {
            Ok(WebhookRequest::Validated { routing_key, task_event }) => {
                &&& tells(answer.reply@, "status"@, "accepted"@)
                &&& tells(answer.reply@, "routing_key"@, routing_key@)
                &&& answer.publication is Some
                &&& answer.publication->0.routing_key@ == routing_key@
                &&& answer.publication->0.task_event@ == task_event@
            },
            Ok(WebhookRequest::Unvalidated { .. }) => {
                &&& tells(answer.reply@, "status"@, "error"@)
                &&& tells(answer.reply@, "reason"@, "unexpected state"@)
                &&& answer.publication is None
            },
            Err(reason) => {
                &&& tells(answer.reply@, "status"@, "ignored"@)
                &&& tells(answer.reply@, "reason"@, reason@)
                &&& answer.publication is None
            },
        },
{
    lemma_reply_keys();
    lemma_at_one(answer.reply@, "status"@);
    lemma_at_one(answer.reply@, "routing_key"@);
    lemma_at_one(answer.reply@, "reason"@);
    if answer.publication is Some {
        assert(answer@.publication == Some(answer.publication->0@));
    }
}

/// A webhook is judged by its own payload and the headers that came with it, and a Pub/Sub message
/// by its own payload.
pub proof fn law_requests_are_judged_by_what_came(
    source: Seq<char>,
    lines: Seq<(Seq<char>, Seq<u8>)>,
    payload: JsonView,
)
    ensures
        webhook_request(source, lines, payload) is Unvalidated,
        webhook_request(source, lines, payload)->source == source,
        webhook_request(source, lines, payload)->payload == payload,
        webhook_request(source, lines, payload)->headers == collected(lines),
        pubsub_request(payload) is Unvalidated,
        pubsub_request(payload)->source == "pubsub_jira"@,
        pubsub_request(payload)->payload == payload,
        pubsub_request(payload)->headers.dom() =~= Set::empty(),
{
}

/// A message that carries a task bears its routing key as partition key, and a payload that reads
/// back as the task.
pub proof fn law_messages_carry_their_task(message: OutgoingMessage, task: PublicationView)
    requires
        carries(message, task),
    ensures
        message.partition_key is Some,
        message.partition_key->0@ == task.routing_key,
        valid_utf8(message.payload@),
        reads_as(vstd::utf8::decode_utf8(message.payload@), task.task_event),
        json_from_text(vstd::utf8::decode_utf8(message.payload@)) is Ok,
        json_from_text(vstd::utf8::decode_utf8(message.payload@))->Ok_0 == task.task_event,
{
}

/// A Pub/Sub message that is UTF-8 and JSON is published or ignored as its payload is validated or
/// refused; one that is no JSON, or no text, is told apart.
pub proof fn law_pubsub_messages_are_bridged(text: Seq<char>, data: Seq<u8>, end: Bridged)
    requires
        end@ == bridged(data),
    ensures
        !valid_utf8(data) ==> end is NotText,
        data == encode_utf8(text) ==> match json_from_text(text) {
            Err(_) => end is NotJson,
            Ok(payload) => {
                let request = WebhookRequestView::Unvalidated {
                    source: "pubsub_jira"@,
                    payload,
                    headers: Map::empty(),
                };
                match pubsub_jira_outcome(request) {
                    Ok(r) => {
                        &&& end is Publish
                        &&& end->Publish_0.routing_key@ == r->routing_key
                        &&& end->Publish_0.task_event@ == r->task_event
                    },
                    Err(reason) => end is Ignored && end->reason@ == reason,
                }
            },
        },
{
    encode_utf8_valid_utf8(text);
    encode_utf8_decode_utf8(text);
}

} // verus!
