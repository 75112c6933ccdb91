//! What holds of every job: what it is called, what runs in it, and what its agent is told.
use vstd::prelude::*;

use crate::job::{
    containers_view, env_view, event_source, event_text, is_job_id, is_uuid_v4, job_id_of, job_view,
    labels_view, mounts_view, volumes_view, Container, EnvVar, Job, VolumeMount, VolumeSource,
};
use crate::json::{child, text_or, JsonView};
use crate::laws::data::{lemma_at_one, text_at, told};
use crate::text::leading;

verus! {

broadcast use vstd::string::group_string_axioms;

/// A variable whose value, if it has one, stands in the job.
pub open spec fn shows(var: EnvVar, name: Seq<char>, value: Option<Seq<char>>) -> bool {
    &&& var.name@ == name
    &&& var.secret is None
    &&& match value {
        Some(text) => var.value is Some && var.value->0@ == text,
        None => var.value is None,
    }
}

/// A variable whose value stands under a key of a secret.
pub open spec fn points_to(var: EnvVar, name: Seq<char>, secret: Seq<char>, key: Seq<char>) -> bool {
    &&& var.name@ == name
    &&& var.value is None
    &&& var.secret is Some
    &&& var.secret->0.name@ == secret
    &&& var.secret->0.key@ == key
}

/// A container mounts a volume at a path.
pub open spec fn mounts(
    mount: VolumeMount,
    name: Seq<char>,
    path: Seq<char>,
    read_only: Option<bool>,
) -> bool {
    mount.name@ == name && mount.mount_path@ == path && mount.read_only == read_only
}

/// The source that a task names, or `unknown`.
pub open spec fn source_of(task_event: JsonView) -> Seq<char> {
    match told(task_event, seq!["source"@]) {
        Some(source) => source,
        None => "unknown"@,
    }
}

proof fn lemma_source(task_event: JsonView)
    ensures
        event_source(task_event) == source_of(task_event),
{
    lemma_at_one(task_event, "source"@);
}

proof fn lemma_told(task_event: JsonView, key: Seq<char>)
    ensures
        event_text(task_event, key) == told(task_event, seq![key]),
        text_or(child(Some(task_event), key), ""@) == text_at(task_event, seq![key]),
{
    reveal_strlit("");
    assert(""@ =~= Seq::empty());
    lemma_at_one(task_event, key);
}

proof fn lemma_containers(job: Job)
    ensures
        job@.containers.len() == job.containers@.len(),
        forall|i: int|
            0 <= i < job.containers@.len() ==> #[trigger] job@.containers[i]
                == job.containers@[i]@,
{
    assert(job@.containers =~= containers_view(job.containers@));
}

proof fn lemma_env(container: Container)
    ensures
        container@.env.len() == container.env@.len(),
        forall|i: int|
            0 <= i < container.env@.len() ==> #[trigger] container@.env[i] == container.env@[i]@,
{
    assert(container@.env =~= env_view(container.env@));
}

proof fn lemma_mounts(container: Container)
    ensures
        container@.volume_mounts.len() == container.volume_mounts@.len(),
        forall|i: int|
            0 <= i < container.volume_mounts@.len() ==> #[trigger] container@.volume_mounts[i]
                == container.volume_mounts@[i]@,
{
    assert(container@.volume_mounts =~= mounts_view(container.volume_mounts@));
}

/// A job is called after the source of its task and its identifier, is labelled with the
/// identifier, and runs in the namespace that was given, once, for half an hour at most.
pub proof fn law_jobs_are_named_and_limited(
    job: Job,
    task_event: JsonView,
    job_id: Seq<char>,
    namespace: Seq<char>,
    agent_image: Seq<char>,
    secret_name: Seq<char>,
    gcs_root: Seq<char>,
)
    requires
        job@ == job_view(task_event, job_id, namespace, agent_image, secret_name, gcs_root),
    ensures
        job.name@ == "opencode-worker-"@ + source_of(task_event) + "-"@ + job_id,
        job.namespace@ == namespace,
        job.labels@.len() == 2,
        job.labels@[0].0@ == "app"@,
        job.labels@[0].1@ == "opencode-worker"@,
        job.labels@[1].0@ == "job_id"@,
        job.labels@[1].1@ == job_id,
        job_id_of(job@) == job_id,
        job.restart_policy@ == "Never"@,
        job.backoff_limit == 0,
        job.active_deadline_seconds == 30 * 60,
        job.ttl_seconds_after_finished == 60 * 60,
{
    lemma_source(task_event);
    let labels = labels_view(job.labels@);
    assert(job@.labels == labels);
    assert(labels.len() == 2);
    assert(labels[0] == (job.labels@[0].0@, job.labels@[0].1@));
    assert(labels[1] == (job.labels@[1].0@, job.labels@[1].1@));
}

/// A job runs two containers: the agent, from the image that was given, and its Docker daemon,
/// which alone is privileged. Both share the workspace and the socket; the agent has its tools
/// and its credentials besides, which it cannot change.
pub proof fn law_jobs_run_the_agent_and_its_daemon(
    job: Job,
    task_event: JsonView,
    job_id: Seq<char>,
    namespace: Seq<char>,
    agent_image: Seq<char>,
    secret_name: Seq<char>,
    gcs_root: Seq<char>,
)
    requires
        job@ == job_view(task_event, job_id, namespace, agent_image, secret_name, gcs_root),
    ensures
        job.containers@.len() == 2,
        ({
            let agent = job.containers@[0];
            &&& agent.name@ == "opencode-agent"@
            &&& agent.image@ == agent_image
            &&& agent.image_pull_policy is Some
            &&& agent.image_pull_policy->0@ == "IfNotPresent"@
            &&& agent.privileged is None
            &&& agent.volume_mounts@.len() == 4
            &&& mounts(
                agent.volume_mounts@[0],
                "custom-tools-volume"@,
                "/root/.config/opencode/tools"@,
                Some(true),
            )
            &&& mounts(
                agent.volume_mounts@[1],
                "gcp-sa-volume"@,
                "/var/secrets/google"@,
                Some(true),
            )
            &&& mounts(agent.volume_mounts@[2], "workspace-volume"@, "/workspace"@, None)
            &&& mounts(agent.volume_mounts@[3], "dind-socket-volume"@, "/var/run"@, None)
        }),
        ({
            let daemon = job.containers@[1];
            &&& daemon.name@ == "dind-daemon"@
            &&& daemon.image@ == "docker:dind"@
            &&& daemon.image_pull_policy is None
            &&& daemon.privileged == Some(true)
            &&& daemon.env@.len() == 1
            &&& shows(daemon.env@[0], "DOCKER_HOST"@, Some("unix:///var/run/docker.sock"@))
            &&& daemon.volume_mounts@.len() == 2
            &&& mounts(daemon.volume_mounts@[0], "workspace-volume"@, "/workspace"@, None)
            &&& mounts(daemon.volume_mounts@[1], "dind-socket-volume"@, "/var/run"@, None)
        }),
{
    lemma_containers(job);
    assert(job@.containers.len() == 2);
    let agent = job.containers@[0];
    let daemon = job.containers@[1];
    assert(job@.containers[0] == agent@ && job@.containers[1] == daemon@);
    lemma_mounts(agent);
    lemma_mounts(daemon);
    lemma_env(daemon);
    assert(agent@.volume_mounts.len() == 4 && daemon@.volume_mounts.len() == 2);
    assert(agent@.volume_mounts[0] == agent.volume_mounts@[0]@);
    assert(agent@.volume_mounts[1] == agent.volume_mounts@[1]@);
    assert(agent@.volume_mounts[2] == agent.volume_mounts@[2]@);
    assert(agent@.volume_mounts[3] == agent.volume_mounts@[3]@);
    assert(daemon@.volume_mounts[0] == daemon.volume_mounts@[0]@);
    assert(daemon@.volume_mounts[1] == daemon.volume_mounts@[1]@);
    assert(daemon@.env[0] == daemon.env@[0]@);
}

/// The volumes of a job are the tools and the credentials of the agent, and two empty directories.
pub proof fn law_jobs_have_four_volumes(
    job: Job,
    task_event: JsonView,
    job_id: Seq<char>,
    namespace: Seq<char>,
    agent_image: Seq<char>,
    secret_name: Seq<char>,
    gcs_root: Seq<char>,
)
    requires
        job@ == job_view(task_event, job_id, namespace, agent_image, secret_name, gcs_root),
    ensures
        job.volumes@.len() == 4,
        job.volumes@[0].name@ == "custom-tools-volume"@,
        match job.volumes@[0].source {
            VolumeSource::ConfigMap { name, default_mode } => name@ == "opencode-custom-tools"@
                && default_mode == 7 * 64 + 5 * 8 + 5,
            _ => false,
        },
        job.volumes@[1].name@ == "gcp-sa-volume"@,
        match job.volumes@[1].source {
            VolumeSource::Secret { secret_name } => secret_name@ == "agent-worker-gcp-sa"@,
            _ => false,
        },
        job.volumes@[2].name@ == "workspace-volume"@,
        job.volumes@[2].source is EmptyDir,
        job.volumes@[3].name@ == "dind-socket-volume"@,
        job.volumes@[3].source is EmptyDir,
{
    let volumes = volumes_view(job.volumes@);
    assert(job@.volumes == volumes);
    assert(volumes.len() == 4);
    assert(volumes[0] == job.volumes@[0]@);
    assert(volumes[1] == job.volumes@[1]@);
    assert(volumes[2] == job.volumes@[2]@);
    assert(volumes[3] == job.volumes@[3]@);
}

proof fn lemma_agent_env(
    job: Job,
    task_event: JsonView,
    job_id: Seq<char>,
    namespace: Seq<char>,
    agent_image: Seq<char>,
    secret_name: Seq<char>,
    gcs_root: Seq<char>,
)
    requires
        job@ == job_view(task_event, job_id, namespace, agent_image, secret_name, gcs_root),
    ensures
        job.containers@.len() == 2,
        env_view(job.containers@[0].env@) == crate::job::common_env(
            task_event,
            secret_name,
            gcs_root,
        ) + crate::job::source_env(task_event),
{
    lemma_containers(job);
    assert(job@.containers.len() == 2);
    assert(job@.containers[0] == job.containers@[0]@);
}

/// Every agent is told the source and the type of its event, where its data is and where its
/// credentials are; and it gets its five secrets out of the secret that was given.
pub proof fn law_every_agent_is_told(
    job: Job,
    task_event: JsonView,
    job_id: Seq<char>,
    namespace: Seq<char>,
    agent_image: Seq<char>,
    secret_name: Seq<char>,
    gcs_root: Seq<char>,
)
    requires
        job@ == job_view(task_event, job_id, namespace, agent_image, secret_name, gcs_root),
    ensures
        ({
            let env = job.containers@[0].env@;
            &&& env.len() >= 9
            &&& shows(env[0], "EVENT_SOURCE"@, Some(source_of(task_event)))
            &&& shows(env[1], "EVENT_TYPE"@, told(task_event, seq!["event_type"@]))
            &&& shows(env[2], "GCS_DEDEV_ROOT"@, Some(gcs_root))
            &&& points_to(env[3], "BITBUCKET_TOKEN"@, secret_name, "bitbucket-token"@)
            &&& points_to(env[4], "JIRA_TOKEN"@, secret_name, "jira-token"@)
            &&& points_to(env[5], "JIRA_EMAIL"@, secret_name, "jira-email"@)
            &&& points_to(env[6], "GEMINI_API_KEY"@, secret_name, "gemini-api-key"@)
            &&& points_to(env[7], "TEAMS_WEBHOOK_URL"@, secret_name, "teams-webhook"@)
            &&& shows(
                env[8],
                "GOOGLE_APPLICATION_CREDENTIALS"@,
                Some("/var/secrets/google/credentials.json"@),
            )
        }),
{
    lemma_agent_env(job, task_event, job_id, namespace, agent_image, secret_name, gcs_root);
    lemma_source(task_event);
    lemma_told(task_event, "event_type"@);
    let env = job.containers@[0].env@;
    let seen = env_view(env);
    assert(seen.len() >= 9);
    assert(seen[0] == env[0]@ && seen[1] == env[1]@ && seen[2] == env[2]@);
    assert(seen[3] == env[3]@ && seen[4] == env[4]@ && seen[5] == env[5]@);
    assert(seen[6] == env[6]@ && seen[7] == env[7]@ && seen[8] == env[8]@);
}

/// The agent of a task from Bitbucket is told the project, the repository, the pull request and
/// the branch, each as far as the task tells it, and the comment; and nothing else besides what
/// every agent is told.
pub proof fn law_bitbucket_agents_are_told(
    job: Job,
    task_event: JsonView,
    job_id: Seq<char>,
    namespace: Seq<char>,
    agent_image: Seq<char>,
    secret_name: Seq<char>,
    gcs_root: Seq<char>,
)
    requires
        job@ == job_view(task_event, job_id, namespace, agent_image, secret_name, gcs_root),
        source_of(task_event) == "bitbucket"@,
    ensures
        ({
            let env = job.containers@[0].env@;
            &&& env.len() == 14
            &&& shows(env[9], "PROJECT_KEY"@, told(task_event, seq!["project_key"@]))
            &&& shows(env[10], "REPO_SLUG"@, told(task_event, seq!["repository_slug"@]))
            &&& shows(env[11], "PR_ID"@, told(task_event, seq!["pr_id"@]))
            &&& shows(env[12], "BRANCH_NAME"@, told(task_event, seq!["branch_name"@]))
            &&& shows(
                env[13],
                "COMMENT_TEXT"@,
                Some(text_at(task_event, seq!["comment_text"@])),
            )
        }),
{
    lemma_agent_env(job, task_event, job_id, namespace, agent_image, secret_name, gcs_root);
    lemma_source(task_event);
    lemma_told(task_event, "project_key"@);
    lemma_told(task_event, "repository_slug"@);
    lemma_told(task_event, "pr_id"@);
    lemma_told(task_event, "branch_name"@);
    lemma_told(task_event, "comment_text"@);
    let env = job.containers@[0].env@;
    let seen = env_view(env);
    assert(seen.len() == 14);
    assert(seen[9] == env[9]@ && seen[10] == env[10]@ && seen[11] == env[11]@);
    assert(seen[12] == env[12]@ && seen[13] == env[13]@);
}

/// The agent of a task from Jira is told the issue and its summary, each as far as the task tells
/// it, and the description; and nothing else besides what every agent is told.
pub proof fn law_jira_agents_are_told(
    job: Job,
    task_event: JsonView,
    job_id: Seq<char>,
    namespace: Seq<char>,
    agent_image: Seq<char>,
    secret_name: Seq<char>,
    gcs_root: Seq<char>,
)
    requires
        job@ == job_view(task_event, job_id, namespace, agent_image, secret_name, gcs_root),
        source_of(task_event) == "jira"@,
    ensures
        ({
            let env = job.containers@[0].env@;
            &&& env.len() == 12
            &&& shows(env[9], "ISSUE_KEY"@, told(task_event, seq!["issue_key"@]))
            &&& shows(env[10], "SUMMARY"@, told(task_event, seq!["summary"@]))
            &&& shows(
                env[11],
                "DESCRIPTION"@,
                Some(text_at(task_event, seq!["description"@])),
            )
        }),
{
    lemma_agent_env(job, task_event, job_id, namespace, agent_image, secret_name, gcs_root);
    lemma_source(task_event);
    lemma_told(task_event, "issue_key"@);
    lemma_told(task_event, "summary"@);
    lemma_told(task_event, "description"@);
    reveal_strlit("jira");
    reveal_strlit("bitbucket");
    assert("jira"@.len() == 4 && "bitbucket"@.len() == 9);
    let env = job.containers@[0].env@;
    let seen = env_view(env);
    assert(seen.len() == 12);
    assert(seen[9] == env[9]@ && seen[10] == env[10]@ && seen[11] == env[11]@);
}

/// The agent of any other task is told nothing besides what every agent is told.
pub proof fn law_other_agents_are_told_no_more(
    job: Job,
    task_event: JsonView,
    job_id: Seq<char>,
    namespace: Seq<char>,
    agent_image: Seq<char>,
    secret_name: Seq<char>,
    gcs_root: Seq<char>,
)
    requires
        job@ == job_view(task_event, job_id, namespace, agent_image, secret_name, gcs_root),
        source_of(task_event) != "bitbucket"@,
        source_of(task_event) != "jira"@,
    ensures
        job.containers@[0].env@.len() == 9,
{
    lemma_agent_env(job, task_event, job_id, namespace, agent_image, secret_name, gcs_root);
    lemma_source(task_event);
    assert(env_view(job.containers@[0].env@).len() == 9);
}

/// A job identifier is eight characters long, each a digit or a small letter up to `f`; the
/// beginning of a random universally unique identifier is one.
pub proof fn law_job_identifiers(id: Seq<char>, uuid: Seq<char>)
    ensures
        is_job_id(id) <==> id.len() == 8 && forall|i: int|
            0 <= i < 8 ==> ('0' <= #[trigger] id[i] <= '9' || 'a' <= id[i] <= 'f'),
        is_uuid_v4(uuid) ==> is_job_id(leading(uuid, 8)),
{
    if is_job_id(id) {
        assert forall|i: int| 0 <= i < 8 implies ('0' <= #[trigger] id[i] <= '9' || 'a' <= id[i]
            <= 'f') by {
            assert(crate::job::is_hex(id[i]));
        }
    }
    if is_uuid_v4(uuid) {
        assert forall|i: int| 0 <= i < 8 implies crate::job::is_hex(
            #[trigger] leading(uuid, 8)[i],
        ) by {
            assert(leading(uuid, 8)[i] == uuid[i]);
        }
    }
}

} // verus!
