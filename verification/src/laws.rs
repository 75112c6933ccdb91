//! What holds of the service as a whole.
pub mod data;
pub mod jobs;
pub mod states;
pub mod webhooks;

use vstd::prelude::*;
use vstd::utf8::is_ascii_chars;

use crate::headers::{collected, value_text};
use crate::ingest::{
    accepted_json, answer_to, bridged, carries, ignored_json, AnswerView, OutgoingMessage,
    PublicationView,
};
use crate::job::{event_source, event_text, job_view, plain_var, ContainerView, JobView};
use crate::json::JsonView;
use crate::orchestrator::{
    after_parsing, after_scheduling, received, settlement, MessageView, OrchestratorStateView,
    SettlementView,
};
use crate::text::{ascii_lower, decimal, digit, digits, lower_case, occurs_at};
use crate::webhook::{
    bitbucket_outcome, comment_json, is_own_comment, issue_json, issue_key, issue_routing_key,
    jira_event_type, jira_outcome, lemma_comment_keys, lemma_issue_keys, pr_id, project_key,
    pubsub_jira_outcome, pull_request_key, repo_slug, WebhookRequestView,
};

verus! {

broadcast use vstd::string::group_string_axioms;

/// The agent never works on its own comments: whatever else a Bitbucket request says, one whose
/// comment the agent wrote, or that bears the mark of the agent, becomes no task.
pub proof fn law_own_comments_are_refused(
    source: Seq<char>,
    payload: JsonView,
    headers: Map<Seq<char>, Seq<char>>,
)
    requires
        is_own_comment(payload),
    ensures
        bitbucket_outcome(WebhookRequestView::Unvalidated { source, payload, headers }) is Err,
        answer_to(
            bitbucket_outcome(WebhookRequestView::Unvalidated { source, payload, headers }),
        ).publication is None,
{
}

/// A request that is validated once is not validated again.
pub proof fn law_no_request_is_validated_twice(request: WebhookRequestView)
    requires
        request is Validated,
    ensures
        bitbucket_outcome(request) is Err,
        jira_outcome(request) is Err,
        pubsub_jira_outcome(request) is Err,
{
}

/// A request that is not refused is validated, so no webhook is answered with an unexpected state.
pub proof fn law_unrefused_requests_are_validated(request: WebhookRequestView)
    ensures
        bitbucket_outcome(request) matches Ok(r) ==> r is Validated,
        jira_outcome(request) matches Ok(r) ==> r is Validated,
        pubsub_jira_outcome(request) matches Ok(r) ==> r is Validated,
{
}

/// No Pub/Sub message is left in an unexpected state.
pub proof fn law_no_pubsub_message_is_unexpected(data: Seq<u8>)
    ensures
        !(bridged(data) is Unexpected),
{
}

/// A refused webhook is answered with the reason, and publishes nothing.
pub proof fn law_refused_requests_are_answered_with_the_reason(
    outcome: Result<WebhookRequestView, Seq<char>>,
)
    requires
        outcome is Err,
    ensures
        answer_to(outcome) == (AnswerView {
            reply: ignored_json(outcome->Err_0),
            publication: None,
        }),
{
}

/// A validated webhook is answered with the routing key under which its task is published.
pub proof fn law_validated_requests_are_published_as_answered(
    routing_key: Seq<char>,
    task_event: JsonView,
)
    ensures
        answer_to(Ok(WebhookRequestView::Validated { routing_key, task_event })) == (AnswerView {
            reply: accepted_json(routing_key),
            publication: Some(PublicationView { routing_key, task_event }),
        }),
{
}

/// What the ingester publishes is what the orchestrator reads: a message that carries a task, once
/// received and parsed, is in the state of that task.
pub proof fn law_published_tasks_are_read_back(message: OutgoingMessage, task: PublicationView)
    requires
        carries(message, task),
    ensures
        ({
            let msg = MessageView {
                payload: message.payload@,
                partition_key: crate::text::opt_text(message.partition_key),
            };
            &&& received(msg)->routing_key == Some(task.routing_key)
            &&& after_parsing(received(msg)) == (OrchestratorStateView::Parsed {
                task_event: task.task_event,
                msg,
            })
        }),
{
}

/// The agent that works on a comment is told everything about it: each part of the task stands in
/// its own variable of the container.
pub proof fn law_comments_reach_the_agent(
    project_key: Seq<char>,
    repository_slug: Seq<char>,
    pr_id: Seq<char>,
    branch_name: Seq<char>,
    comment_text: Seq<char>,
    author: Seq<char>,
    job_id: Seq<char>,
    namespace: Seq<char>,
    agent_image: Seq<char>,
    secret_name: Seq<char>,
    gcs_root: Seq<char>,
)
    ensures
        ({
            let task_event = comment_json(
                project_key,
                repository_slug,
                pr_id,
                branch_name,
                comment_text,
                author,
            );
            let job = job_view(task_event, job_id, namespace, agent_image, secret_name, gcs_root);
            &&& job.name == "opencode-worker-"@ + "bitbucket"@ + "-"@ + job_id
            &&& job.containers[0].env.contains(plain_var("EVENT_SOURCE"@, Some("bitbucket"@)))
            &&& job.containers[0].env.contains(plain_var("EVENT_TYPE"@, Some("pr_comment"@)))
            &&& job.containers[0].env.contains(plain_var("PROJECT_KEY"@, Some(project_key)))
            &&& job.containers[0].env.contains(plain_var("REPO_SLUG"@, Some(repository_slug)))
            &&& job.containers[0].env.contains(plain_var("PR_ID"@, Some(pr_id)))
            &&& job.containers[0].env.contains(plain_var("BRANCH_NAME"@, Some(branch_name)))
            &&& job.containers[0].env.contains(plain_var("COMMENT_TEXT"@, Some(comment_text)))
        }),
{
    lemma_comment_keys();
    let task_event = comment_json(
        project_key,
        repository_slug,
        pr_id,
        branch_name,
        comment_text,
        author,
    );
    let job = job_view(task_event, job_id, namespace, agent_image, secret_name, gcs_root);
    let env = job.containers[0].env;
    assert(event_source(task_event) == "bitbucket"@);
    assert(env[0] == plain_var("EVENT_SOURCE"@, Some("bitbucket"@)));
    assert(event_text(task_event, "event_type"@) == Some("pr_comment"@));
    assert(event_text(task_event, "project_key"@) == Some(project_key));
    assert(event_text(task_event, "repository_slug"@) == Some(repository_slug));
    assert(event_text(task_event, "pr_id"@) == Some(pr_id));
    assert(event_text(task_event, "branch_name"@) == Some(branch_name));
    assert(event_text(task_event, "comment_text"@) == Some(comment_text));
    assert(env[1] == plain_var("EVENT_TYPE"@, Some("pr_comment"@)));
    assert(env[9] == plain_var("PROJECT_KEY"@, Some(project_key)));
    assert(env[10] == plain_var("REPO_SLUG"@, Some(repository_slug)));
    assert(env[11] == plain_var("PR_ID"@, Some(pr_id)));
    assert(env[12] == plain_var("BRANCH_NAME"@, Some(branch_name)));
    assert(env[13] == plain_var("COMMENT_TEXT"@, Some(comment_text)));
}

/// The agent that works on a Jira issue is told what it is about: its event, key, summary and
/// description stand in variables of the container.
pub proof fn law_issues_reach_the_agent(
    event_type: Seq<char>,
    issue_key: Seq<char>,
    summary: Seq<char>,
    description: Seq<char>,
    status: Seq<char>,
    job_id: Seq<char>,
    namespace: Seq<char>,
    agent_image: Seq<char>,
    secret_name: Seq<char>,
    gcs_root: Seq<char>,
)
    ensures
        ({
            let task_event = issue_json(event_type, issue_key, summary, description, status);
            let job = job_view(task_event, job_id, namespace, agent_image, secret_name, gcs_root);
            &&& job.name == "opencode-worker-"@ + "jira"@ + "-"@ + job_id
            &&& job.containers[0].env.contains(plain_var("EVENT_SOURCE"@, Some("jira"@)))
            &&& job.containers[0].env.contains(plain_var("EVENT_TYPE"@, Some(event_type)))
            &&& job.containers[0].env.contains(plain_var("ISSUE_KEY"@, Some(issue_key)))
            &&& job.containers[0].env.contains(plain_var("SUMMARY"@, Some(summary)))
            &&& job.containers[0].env.contains(plain_var("DESCRIPTION"@, Some(description)))
        }),
{
    lemma_issue_keys();
    reveal_strlit("jira");
    reveal_strlit("bitbucket");
    assert("jira"@.len() == 4 && "bitbucket"@.len() == 9);
    let task_event = issue_json(event_type, issue_key, summary, description, status);
    let job = job_view(task_event, job_id, namespace, agent_image, secret_name, gcs_root);
    let env = job.containers[0].env;
    assert(event_source(task_event) == "jira"@);
    assert(env[0] == plain_var("EVENT_SOURCE"@, Some("jira"@)));
    assert(event_text(task_event, "event_type"@) == Some(event_type));
    assert(event_text(task_event, "issue_key"@) == Some(issue_key));
    assert(event_text(task_event, "summary"@) == Some(summary));
    assert(event_text(task_event, "description"@) == Some(description));
    assert(env[1] == plain_var("EVENT_TYPE"@, Some(event_type)));
    assert(env[9] == plain_var("ISSUE_KEY"@, Some(issue_key)));
    assert(env[10] == plain_var("SUMMARY"@, Some(summary)));
    assert(env[11] == plain_var("DESCRIPTION"@, Some(description)));
}

/// The tasks for one Jira issue have one routing key, whichever way the issue came in.
pub proof fn law_one_issue_one_routing_key(a: WebhookRequestView, b: WebhookRequestView)
    requires
        a is Unvalidated,
        b is Unvalidated,
        issue_key(a->payload) == issue_key(b->payload),
    ensures
        ({
            let key = issue_routing_key(issue_key(a->payload));
            &&& jira_outcome(a) matches Ok(r) ==> r->routing_key == key
            &&& pubsub_jira_outcome(b) matches Ok(r) ==> r->routing_key == key
        }),
{
}

/// Two Jira issues have two routing keys.
pub proof fn law_two_issues_two_routing_keys(a: Seq<char>, b: Seq<char>)
    requires
        a != b,
    ensures
        issue_routing_key(a) != issue_routing_key(b),
{
    let prefix = "jira-"@;
    if prefix + a == prefix + b {
        assert((prefix + a).skip(prefix.len() as int) =~= a);
        assert((prefix + b).skip(prefix.len() as int) =~= b);
    }
}

/// The tasks for one pull request have one routing key: that of its project, its repository and
/// its identifier.
pub proof fn law_one_pull_request_one_routing_key(request: WebhookRequestView)
    requires
        request is Unvalidated,
    ensures
        bitbucket_outcome(request) matches Ok(r) ==> r->routing_key == pull_request_key(
            project_key(request->payload),
            repo_slug(request->payload),
            pr_id(request->payload),
        ),
{
}

/// A task names its project, repository and pull request, or its issue: none of these is empty.
pub proof fn law_tasks_name_their_subject(request: WebhookRequestView)
    requires
        request is Unvalidated,
    ensures
        bitbucket_outcome(request) is Ok ==> {
            &&& project_key(request->payload).len() > 0
            &&& repo_slug(request->payload).len() > 0
            &&& pr_id(request->payload).len() > 0
        },
        jira_outcome(request) is Ok ==> issue_key(request->payload).len() > 0,
        pubsub_jira_outcome(request) is Ok ==> issue_key(request->payload).len() > 0,
{
}

proof fn lemma_digits_injective(a: nat, b: nat)
    requires
        digits(a) == digits(b),
    ensures
        a == b,
    decreases a,
{
    lemma_digits_nonempty(a / 10);
    lemma_digits_nonempty(b / 10);
    assert(digits(a).last() == digit(a % 10)) by {
        if a < 10 {
            assert(a % 10 == a);
        }
    }
    assert(digits(b).last() == digit(b % 10)) by {
        if b < 10 {
            assert(b % 10 == b);
        }
    }
    assert(digit(a % 10) as int == 48 + a % 10);
    assert(digit(b % 10) as int == 48 + b % 10);
    if a >= 10 && b >= 10 {
        assert(digits(a).drop_last() =~= digits(a / 10));
        assert(digits(b).drop_last() =~= digits(b / 10));
        lemma_digits_injective(a / 10, b / 10);
    } else if a >= 10 {
        assert(digits(a).len() == digits(a / 10).len() + 1);
        assert(digits(b).len() == 1);
    } else if b >= 10 {
        assert(digits(b).len() == digits(b / 10).len() + 1);
        assert(digits(a).len() == 1);
    }
}

proof fn lemma_digits_nonempty(n: nat)
    ensures
        digits(n).len() > 0,
        '0' <= digits(n)[0] && digits(n)[0] <= '9',
    decreases n,
{
    if n >= 10 {
        lemma_digits_nonempty(n / 10);
    }
}

/// Two pull requests of one repository that are numbered differently have two routing keys.
pub proof fn law_two_pull_requests_two_routing_keys(
    project_key: Seq<char>,
    repo_slug: Seq<char>,
    a: int,
    b: int,
)
    requires
        a != b,
    ensures
        pull_request_key(project_key, repo_slug, decimal(a)) != pull_request_key(
            project_key,
            repo_slug,
            decimal(b),
        ),
{
    let prefix = project_key + "-"@ + repo_slug + "-pr-"@;
    if prefix + decimal(a) == prefix + decimal(b) {
        assert((prefix + decimal(a)).skip(prefix.len() as int) =~= decimal(a));
        assert((prefix + decimal(b)).skip(prefix.len() as int) =~= decimal(b));
        lemma_digits_nonempty(if a < 0 { (-a) as nat } else { a as nat });
        lemma_digits_nonempty(if b < 0 { (-b) as nat } else { b as nat });
        if a < 0 && b < 0 {
            assert(decimal(a).skip(1) =~= digits((-a) as nat));
            assert(decimal(b).skip(1) =~= digits((-b) as nat));
            lemma_digits_injective((-a) as nat, (-b) as nat);
        } else if a >= 0 && b >= 0 {
            lemma_digits_injective(a as nat, b as nat);
        } else {
            assert(decimal(a)[0] != decimal(b)[0]);
        }
    }
}

/// What a Jira webhook calls its event is `jira:` and what the task calls it.
pub proof fn law_jira_event_types(webhook_event: Seq<char>)
    requires
        webhook_event == "jira:issue_created"@ || webhook_event == "jira:issue_updated"@,
    ensures
        webhook_event == "jira:"@ + jira_event_type(webhook_event),
{
    reveal_strlit("jira:");
    reveal_strlit("jira:issue_created");
    reveal_strlit("jira:issue_updated");
    assert(webhook_event =~= "jira:"@ + jira_event_type(webhook_event));
}

/// A header whose value is text is found whatever the case of the letters in which its name was
/// sent, unless a later line puts another text under the same name.
pub proof fn law_header_names_ignore_case(
    before: Seq<(Seq<char>, Seq<u8>)>,
    name: Seq<char>,
    value: Seq<u8>,
    after: Seq<(Seq<char>, Seq<u8>)>,
)
    requires
        is_ascii_chars(name),
        value_text(value) is Some,
        forall|i: int|
            0 <= i < after.len() ==> value_text((#[trigger] after[i]).1) is None || lower_case(
                after[i].0,
            ) != lower_case(name),
    ensures
        ({
            let headers = collected(before.push((name, value)) + after);
            let key = name.map_values(|c: char| ascii_lower(c));
            headers.dom().contains(key) && Some(headers[key]) == value_text(value)
        }),
    decreases after.len(),
{
    let here = before.push((name, value));
    if after.len() == 0 {
        assert(here + after =~= here);
        assert(here.drop_last() =~= before);
    } else {
        assert forall|i: int| 0 <= i < after.drop_last().len() implies value_text(
            (#[trigger] after.drop_last()[i]).1,
        ) is None || lower_case(after.drop_last()[i].0) != lower_case(name) by {
            assert(after.drop_last()[i] == after[i]);
        }
        law_header_names_ignore_case(before, name, value, after.drop_last());
        assert((here + after).drop_last() =~= here + after.drop_last());
        assert((here + after).last() == after[after.len() - 1]);
    }
}

/// No step changes the message that it works on: it is that message which is settled.
pub proof fn law_messages_stay_what_they_are(msg: MessageView, scheduled: bool)
    ensures
        received(msg)->Received_msg == msg,
        ({
            let parsed = after_parsing(received(msg));
            let done = after_scheduling(parsed, scheduled);
            match settlement(done) {
                SettlementView::Complete { msg: m } => m == msg,
                SettlementView::Retry { error, msg: m } => m == msg,
                SettlementView::Discard { error, msg: m } => m == msg,
                SettlementView::Unexpected => false,
            }
        }),
{
}

/// A step acts on its own state alone: parsed messages are not parsed again, and a message that
/// has its job or has failed stays as it is.
pub proof fn law_steps_do_not_repeat(state: OrchestratorStateView, scheduled: bool, again: bool)
    ensures
        after_parsing(after_parsing(state)) == after_parsing(state),
        after_scheduling(after_scheduling(state, scheduled), again) == after_scheduling(
            state,
            scheduled,
        ),
        state is JobCreated || state is Failed ==> after_parsing(state) == state
            && after_scheduling(state, scheduled) == state,
{
}

/// A message that is JSON is completed where its job was scheduled, and comes again where it was
/// not.
pub proof fn law_parsed_messages_are_settled_by_scheduling(
    task_event: JsonView,
    msg: MessageView,
    scheduled: bool,
)
    ensures
        ({
            let state = OrchestratorStateView::Parsed { task_event, msg };
            let end = settlement(after_scheduling(state, scheduled));
            if scheduled {
                end == (SettlementView::Complete { msg })
            } else {
                end == (SettlementView::Retry { error: "Failed to schedule job"@, msg })
            }
        }),
{
    let marker = "Failed to schedule job"@;
    assert(marker.subrange(0, marker.len() as int) =~= marker);
    assert(occurs_at(marker, marker, 0));
}

/// A container mounts volumes of the pod only.
pub open spec fn mounts_are_declared(container: ContainerView, job: JobView) -> bool {
    forall|i: int|
        0 <= i < container.volume_mounts.len() ==> exists|j: int|
            0 <= j < job.volumes.len() && #[trigger] job.volumes[j].name
                == #[trigger] container.volume_mounts[i].name
}

/// Every volume that a container of a job mounts is a volume of that job.
pub proof fn law_mounted_volumes_exist(
    task_event: JsonView,
    job_id: Seq<char>,
    namespace: Seq<char>,
    agent_image: Seq<char>,
    secret_name: Seq<char>,
    gcs_root: Seq<char>,
)
    ensures
        ({
            let job = job_view(task_event, job_id, namespace, agent_image, secret_name, gcs_root);
            forall|c: int|
                0 <= c < job.containers.len() ==> mounts_are_declared(
                    #[trigger] job.containers[c],
                    job,
                )
        }),
{
    let job = job_view(task_event, job_id, namespace, agent_image, secret_name, gcs_root);
    assert(job.volumes[0].name == "custom-tools-volume"@);
    assert(job.volumes[1].name == "gcp-sa-volume"@);
    assert(job.volumes[2].name == "workspace-volume"@);
    assert(job.volumes[3].name == "dind-socket-volume"@);
    assert(job.containers[0].volume_mounts[0].name == job.volumes[0].name);
    assert(job.containers[0].volume_mounts[1].name == job.volumes[1].name);
    assert(job.containers[0].volume_mounts[2].name == job.volumes[2].name);
    assert(job.containers[0].volume_mounts[3].name == job.volumes[3].name);
    assert(job.containers[1].volume_mounts[0].name == job.volumes[2].name);
    assert(job.containers[1].volume_mounts[1].name == job.volumes[3].name);
}

/// A variable whose value stands in a secret does not show the value in the job.
pub proof fn law_secrets_stay_out_of_the_job(
    task_event: JsonView,
    job_id: Seq<char>,
    namespace: Seq<char>,
    agent_image: Seq<char>,
    secret_name: Seq<char>,
    gcs_root: Seq<char>,
)
    ensures
        ({
            let job = job_view(task_event, job_id, namespace, agent_image, secret_name, gcs_root);
            forall|c: int, e: int|
                #![trigger job.containers[c].env[e]]
                0 <= c < job.containers.len() && 0 <= e < job.containers[c].env.len()
                    && job.containers[c].env[e].secret is Some ==> {
                    &&& job.containers[c].env[e].value is None
                    &&& job.containers[c].env[e].secret->0.name == secret_name
                }
        }),
{
}

/// No two variables of the agent have the same name.
pub proof fn law_variables_have_different_names(
    task_event: JsonView,
    job_id: Seq<char>,
    namespace: Seq<char>,
    agent_image: Seq<char>,
    secret_name: Seq<char>,
    gcs_root: Seq<char>,
)
    ensures
        ({
            let env = job_view(
                task_event,
                job_id,
                namespace,
                agent_image,
                secret_name,
                gcs_root,
            ).containers[0].env;
            forall|i: int, j: int|
                0 <= i < j < env.len() ==> #[trigger] env[i].name != #[trigger] env[j].name
        }),
{
    reveal_strlit("EVENT_SOURCE");
    reveal_strlit("EVENT_TYPE");
    reveal_strlit("GCS_DEDEV_ROOT");
    reveal_strlit("BITBUCKET_TOKEN");
    reveal_strlit("JIRA_TOKEN");
    reveal_strlit("JIRA_EMAIL");
    reveal_strlit("GEMINI_API_KEY");
    reveal_strlit("TEAMS_WEBHOOK_URL");
    reveal_strlit("GOOGLE_APPLICATION_CREDENTIALS");
    reveal_strlit("PROJECT_KEY");
    reveal_strlit("REPO_SLUG");
    reveal_strlit("PR_ID");
    reveal_strlit("BRANCH_NAME");
    reveal_strlit("COMMENT_TEXT");
    reveal_strlit("ISSUE_KEY");
    reveal_strlit("SUMMARY");
    reveal_strlit("DESCRIPTION");
    assert("EVENT_SOURCE"@.len() == 12 && "EVENT_TYPE"@.len() == 10);
    assert("GCS_DEDEV_ROOT"@.len() == 14 && "BITBUCKET_TOKEN"@.len() == 15);
    assert("JIRA_TOKEN"@.len() == 10 && "JIRA_EMAIL"@.len() == 10);
    assert("GEMINI_API_KEY"@.len() == 14 && "TEAMS_WEBHOOK_URL"@.len() == 17);
    assert("GOOGLE_APPLICATION_CREDENTIALS"@.len() == 30 && "PROJECT_KEY"@.len() == 11);
    assert("REPO_SLUG"@.len() == 9 && "PR_ID"@.len() == 5 && "BRANCH_NAME"@.len() == 11);
    assert("COMMENT_TEXT"@.len() == 12 && "ISSUE_KEY"@.len() == 9);
    assert("SUMMARY"@.len() == 7 && "DESCRIPTION"@.len() == 11);
    assert("EVENT_SOURCE"@[0] != "COMMENT_TEXT"@[0]);
    assert("EVENT_TYPE"@[0] != "JIRA_TOKEN"@[0] && "EVENT_TYPE"@[0] != "JIRA_EMAIL"@[0]);
    assert("JIRA_TOKEN"@[5] != "JIRA_EMAIL"@[5]);
    assert("GCS_DEDEV_ROOT"@[1] != "GEMINI_API_KEY"@[1]);
    assert("PROJECT_KEY"@[0] != "BRANCH_NAME"@[0]);
}

/// Jobs with different identifiers, for tasks from one source, have different names.
pub proof fn law_job_names_tell_identifiers_apart(
    a: JsonView,
    b: JsonView,
    a_id: Seq<char>,
    b_id: Seq<char>,
    namespace: Seq<char>,
    agent_image: Seq<char>,
    secret_name: Seq<char>,
    gcs_root: Seq<char>,
)
    requires
        event_source(a) == event_source(b),
        a_id != b_id,
    ensures
        job_view(a, a_id, namespace, agent_image, secret_name, gcs_root).name != job_view(
            b,
            b_id,
            namespace,
            agent_image,
            secret_name,
            gcs_root,
        ).name,
{
    let prefix = "opencode-worker-"@ + event_source(a) + "-"@;
    if prefix + a_id == prefix + b_id {
        assert((prefix + a_id).skip(prefix.len() as int) =~= a_id);
        assert((prefix + b_id).skip(prefix.len() as int) =~= b_id);
    }
}

} // verus!
