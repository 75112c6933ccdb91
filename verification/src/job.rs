//! The Kubernetes job that works on a task.
use vstd::prelude::*;
use vstd::string::StringExecFns;

use crate::json::{child, child_of, text_in, text_of, text_of_or, text_or, Json, JsonView};
use crate::text::{leading, leading_text, opt_text, same};

verus! {

broadcast use vstd::string::group_string_axioms;

/// What a key of a secret is.
pub struct SecretKeyView {
    pub name: Seq<char>,
    pub key: Seq<char>,
}

/// A key of a secret.
#[derive(Debug)]
pub struct SecretKey {
    pub name: String,
    pub key: String,
}

/// What an environment variable of a container is.
pub struct EnvVarView {
    pub name: Seq<char>,
    pub value: Option<Seq<char>>,
    pub secret: Option<SecretKeyView>,
}

/// An environment variable of a container: its value stands in the job, or in a secret.
#[derive(Debug)]
pub struct EnvVar {
    pub name: String,
    pub value: Option<String>,
    pub secret: Option<SecretKey>,
}

impl View for EnvVar {
    type V = EnvVarView;

    open spec fn view(&self) -> EnvVarView {
        EnvVarView {
            name: self.name@,
            value: opt_text(self.value),
            secret: match self.secret {
                Some(secret) => Some(SecretKeyView { name: secret.name@, key: secret.key@ }),
                None => None,
            },
        }
    }
}

/// What a mounted volume is.
pub struct VolumeMountView {
    pub name: Seq<char>,
    pub mount_path: Seq<char>,
    pub read_only: Option<bool>,
}

/// A volume that a container mounts.
#[derive(Debug)]
pub struct VolumeMount {
    pub name: String,
    pub mount_path: String,
    pub read_only: Option<bool>,
}

impl View for VolumeMount {
    type V = VolumeMountView;

    open spec fn view(&self) -> VolumeMountView {
        VolumeMountView {
            name: self.name@,
            mount_path: self.mount_path@,
            read_only: self.read_only,
        }
    }
}

/// What a container is.
pub struct ContainerView {
    pub name: Seq<char>,
    pub image: Seq<char>,
    pub image_pull_policy: Option<Seq<char>>,
    pub privileged: Option<bool>,
    pub env: Seq<EnvVarView>,
    pub volume_mounts: Seq<VolumeMountView>,
}

/// A container of the pod.
#[derive(Debug)]
pub struct Container {
    pub name: String,
    pub image: String,
    pub image_pull_policy: Option<String>,
    pub privileged: Option<bool>,
    pub env: Vec<EnvVar>,
    pub volume_mounts: Vec<VolumeMount>,
}

/// What a list of environment variables is.
pub open spec fn env_view(env: Seq<EnvVar>) -> Seq<EnvVarView> {
    env.map_values(|e: EnvVar| e@)
}

/// What a list of mounted volumes is.
pub open spec fn mounts_view(mounts: Seq<VolumeMount>) -> Seq<VolumeMountView> {
    mounts.map_values(|m: VolumeMount| m@)
}

impl View for Container {
    type V = ContainerView;

    open spec fn view(&self) -> ContainerView {
        ContainerView {
            name: self.name@,
            image: self.image@,
            image_pull_policy: opt_text(self.image_pull_policy),
            privileged: self.privileged,
            env: env_view(self.env@),
            volume_mounts: mounts_view(self.volume_mounts@),
        }
    }
}

/// What the contents of a volume are.
pub enum VolumeSourceView {
    ConfigMap { name: Seq<char>, default_mode: i32 },
    Secret { secret_name: Seq<char> },
    EmptyDir,
}

/// Where the contents of a volume come from.
#[derive(Debug)]
pub enum VolumeSource {
    ConfigMap { name: String, default_mode: i32 },
    Secret { secret_name: String },
    EmptyDir,
}

/// What a volume is.
pub struct VolumeView {
    pub name: Seq<char>,
    pub source: VolumeSourceView,
}

/// A volume of the pod.
#[derive(Debug)]
pub struct Volume {
    pub name: String,
    pub source: VolumeSource,
}

impl View for Volume {
    type V = VolumeView;

    open spec fn view(&self) -> VolumeView {
        VolumeView {
            name: self.name@,
            source: match self.source {
                VolumeSource::ConfigMap { name, default_mode } => VolumeSourceView::ConfigMap {
                    name: name@,
                    default_mode,
                },
                VolumeSource::Secret { secret_name } => VolumeSourceView::Secret {
                    secret_name: secret_name@,
                },
                VolumeSource::EmptyDir => VolumeSourceView::EmptyDir,
            },
        }
    }
}

/// What a job is.
pub struct JobView {
    pub name: Seq<char>,
    pub namespace: Seq<char>,
    pub labels: Seq<(Seq<char>, Seq<char>)>,
    pub restart_policy: Seq<char>,
    pub containers: Seq<ContainerView>,
    pub volumes: Seq<VolumeView>,
    pub backoff_limit: i32,
    pub active_deadline_seconds: i64,
    pub ttl_seconds_after_finished: i32,
}

/// A job. Labels, restart policy, containers and volumes are those of its one pod.
#[derive(Debug)]
pub struct Job {
    pub name: String,
    pub namespace: String,
    pub labels: Vec<(String, String)>,
    pub restart_policy: String,
    pub containers: Vec<Container>,
    pub volumes: Vec<Volume>,
    pub backoff_limit: i32,
    pub active_deadline_seconds: i64,
    pub ttl_seconds_after_finished: i32,
}

/// What a list of labels is.
pub open spec fn labels_view(labels: Seq<(String, String)>) -> Seq<(Seq<char>, Seq<char>)> {
    labels.map_values(|l: (String, String)| (l.0@, l.1@))
}

/// What a list of containers is.
pub open spec fn containers_view(containers: Seq<Container>) -> Seq<ContainerView> {
    containers.map_values(|c: Container| c@)
}

/// What a list of volumes is.
pub open spec fn volumes_view(volumes: Seq<Volume>) -> Seq<VolumeView> {
    volumes.map_values(|v: Volume| v@)
}

impl View for Job {
    type V = JobView;

    open spec fn view(&self) -> JobView {
        JobView {
            name: self.name@,
            namespace: self.namespace@,
            labels: labels_view(self.labels@),
            restart_policy: self.restart_policy@,
            containers: containers_view(self.containers@),
            volumes: volumes_view(self.volumes@),
            backoff_limit: self.backoff_limit,
            active_deadline_seconds: self.active_deadline_seconds,
            ttl_seconds_after_finished: self.ttl_seconds_after_finished,
        }
    }
}

/// The source that a task names.
pub open spec fn event_source(task_event: JsonView) -> Seq<char> {
    text_or(child(Some(task_event), "source"@), "unknown"@)
}

/// The text under `key` in a task.
pub open spec fn event_text(task_event: JsonView, key: Seq<char>) -> Option<Seq<char>> {
    text_in(child(Some(task_event), key))
}

/// A variable whose value stands in the job.
pub open spec fn plain_var(name: Seq<char>, value: Option<Seq<char>>) -> EnvVarView {
    EnvVarView { name, value, secret: None }
}

/// A variable whose value stands in a secret.
pub open spec fn secret_var(name: Seq<char>, secret: Seq<char>, key: Seq<char>) -> EnvVarView {
    EnvVarView { name, value: None, secret: Some(SecretKeyView { name: secret, key }) }
}

/// The variables that every agent gets.
pub open spec fn common_env(
    task_event: JsonView,
    secret_name: Seq<char>,
    gcs_root: Seq<char>,
) -> Seq<EnvVarView> {
    seq![
        plain_var("EVENT_SOURCE"@, Some(event_source(task_event))),
        plain_var("EVENT_TYPE"@, event_text(task_event, "event_type"@)),
        plain_var("GCS_DEDEV_ROOT"@, Some(gcs_root)),
        secret_var("BITBUCKET_TOKEN"@, secret_name, "bitbucket-token"@),
        secret_var("JIRA_TOKEN"@, secret_name, "jira-token"@),
        secret_var("JIRA_EMAIL"@, secret_name, "jira-email"@),
        secret_var("GEMINI_API_KEY"@, secret_name, "gemini-api-key"@),
        secret_var("TEAMS_WEBHOOK_URL"@, secret_name, "teams-webhook"@),
        plain_var(
            "GOOGLE_APPLICATION_CREDENTIALS"@,
            Some("/var/secrets/google/credentials.json"@),
        ),
    ]
}

/// The variables that an agent gets on account of where its task comes from.
pub open spec fn source_env(task_event: JsonView) -> Seq<EnvVarView> {
    if event_source(task_event) == "bitbucket"@ {
        seq![
            plain_var("PROJECT_KEY"@, event_text(task_event, "project_key"@)),
            plain_var("REPO_SLUG"@, event_text(task_event, "repository_slug"@)),
            plain_var("PR_ID"@, event_text(task_event, "pr_id"@)),
            plain_var("BRANCH_NAME"@, event_text(task_event, "branch_name"@)),
            plain_var(
                "COMMENT_TEXT"@,
                Some(text_or(child(Some(task_event), "comment_text"@), ""@)),
            ),
        ]
    } else if event_source(task_event) == "jira"@ {
        seq![
            plain_var("ISSUE_KEY"@, event_text(task_event, "issue_key"@)),
            plain_var("SUMMARY"@, event_text(task_event, "summary"@)),
            plain_var(
                "DESCRIPTION"@,
                Some(text_or(child(Some(task_event), "description"@), ""@)),
            ),
        ]
    } else {
        Seq::empty()
    }
}

/// The container in which the agent works.
pub open spec fn agent_container_view(
    task_event: JsonView,
    agent_image: Seq<char>,
    secret_name: Seq<char>,
    gcs_root: Seq<char>,
) -> ContainerView {
    ContainerView {
        name: "opencode-agent"@,
        image: agent_image,
        image_pull_policy: Some("IfNotPresent"@),
        privileged: None,
        env: common_env(task_event, secret_name, gcs_root) + source_env(task_event),
        volume_mounts: seq![
            VolumeMountView {
                name: "custom-tools-volume"@,
                mount_path: "/root/.config/opencode/tools"@,
                read_only: Some(true),
            },
            VolumeMountView {
                name: "gcp-sa-volume"@,
                mount_path: "/var/secrets/google"@,
                read_only: Some(true),
            },
            VolumeMountView {
                name: "workspace-volume"@,
                mount_path: "/workspace"@,
                read_only: None,
            },
            VolumeMountView {
                name: "dind-socket-volume"@,
                mount_path: "/var/run"@,
                read_only: None,
            },
        ],
    }
}

/// The container that runs the Docker daemon of the agent.
pub open spec fn dind_container_view() -> ContainerView {
    ContainerView {
        name: "dind-daemon"@,
        image: "docker:dind"@,
        image_pull_policy: None,
        privileged: Some(true),
        env: seq![plain_var("DOCKER_HOST"@, Some("unix:///var/run/docker.sock"@))],
        volume_mounts: seq![
            VolumeMountView {
                name: "workspace-volume"@,
                mount_path: "/workspace"@,
                read_only: None,
            },
            VolumeMountView {
                name: "dind-socket-volume"@,
                mount_path: "/var/run"@,
                read_only: None,
            },
        ],
    }
}

/// The volumes of the pod.
pub open spec fn job_volumes_view() -> Seq<VolumeView> {
    seq![
        VolumeView {
            name: "custom-tools-volume"@,
            source: VolumeSourceView::ConfigMap {
                name: "opencode-custom-tools"@,
                default_mode: 0o755,
            },
        },
        VolumeView {
            name: "gcp-sa-volume"@,
            source: VolumeSourceView::Secret { secret_name: "agent-worker-gcp-sa"@ },
        },
        VolumeView { name: "workspace-volume"@, source: VolumeSourceView::EmptyDir },
        VolumeView { name: "dind-socket-volume"@, source: VolumeSourceView::EmptyDir },
    ]
}

/// The job with a given identifier that works on a task.
pub open spec fn job_view(
    task_event: JsonView,
    job_id: Seq<char>,
    namespace: Seq<char>,
    agent_image: Seq<char>,
    secret_name: Seq<char>,
    gcs_root: Seq<char>,
) -> JobView {
    JobView {
        name: "opencode-worker-"@ + event_source(task_event) + "-"@ + job_id,
        namespace,
        labels: seq![("app"@, "opencode-worker"@), ("job_id"@, job_id)],
        restart_policy: "Never"@,
        containers: seq![
            agent_container_view(task_event, agent_image, secret_name, gcs_root),
            dind_container_view(),
        ],
        volumes: job_volumes_view(),
        backoff_limit: 0,
        active_deadline_seconds: 1800,
        ttl_seconds_after_finished: 3600,
    }
}

/// Adds a variable whose value stands in the job.
fn push_plain(env: &mut Vec<EnvVar>, name: &str, value: Option<String>)
    ensures
        env_view(final(env)@) == env_view(old(env)@).push(plain_var(name@, opt_text(value))),
{
    env.push(EnvVar { name: name.to_owned(), value, secret: None });
    assert(env_view(env@) =~= env_view(old(env)@).push(plain_var(name@, opt_text(value))));
}

/// Adds a variable whose value stands in a secret.
fn push_secret(env: &mut Vec<EnvVar>, name: &str, secret: &str, key: &str)
    ensures
        env_view(final(env)@) == env_view(old(env)@).push(secret_var(name@, secret@, key@)),
{
    env.push(
        EnvVar {
            name: name.to_owned(),
            value: None,
            secret: Some(SecretKey { name: secret.to_owned(), key: key.to_owned() }),
        },
    );
    assert(env_view(env@) =~= env_view(old(env)@).push(secret_var(name@, secret@, key@)));
}

/// Adds a volume that a container mounts.
fn push_mount(mounts: &mut Vec<VolumeMount>, name: &str, mount_path: &str, read_only: Option<bool>)
    ensures
        mounts_view(final(mounts)@) == mounts_view(old(mounts)@).push(
            VolumeMountView { name: name@, mount_path: mount_path@, read_only },
        ),
{
    mounts.push(
        VolumeMount { name: name.to_owned(), mount_path: mount_path.to_owned(), read_only },
    );
    assert(mounts_view(mounts@) =~= mounts_view(old(mounts)@).push(
        VolumeMountView { name: name@, mount_path: mount_path@, read_only },
    ));
}

/// The text under `key` in a task.
fn read_text(task_event: &Json, key: &str) -> (r: Option<String>)
    ensures
        opt_text(r) == event_text(task_event@, key@),
{
    text_of(child_of(Some(task_event), key))
}

/// The variables of the agent.
fn agent_env(task_event: &Json, secret_name: &str, gcs_root: &str) -> (r: Vec<EnvVar>)
    ensures
        env_view(r@) == common_env(task_event@, secret_name@, gcs_root@) + source_env(task_event@),
{
    let source = text_of_or(child_of(Some(task_event), "source"), "unknown");
    let mut env: Vec<EnvVar> = Vec::new();
    assert(env_view(env@) =~= Seq::empty());
    push_plain(&mut env, "EVENT_SOURCE", Some(source.clone()));
    push_plain(&mut env, "EVENT_TYPE", read_text(task_event, "event_type"));
    push_plain(&mut env, "GCS_DEDEV_ROOT", Some(gcs_root.to_owned()));
    push_secret(&mut env, "BITBUCKET_TOKEN", secret_name, "bitbucket-token");
    push_secret(&mut env, "JIRA_TOKEN", secret_name, "jira-token");
    push_secret(&mut env, "JIRA_EMAIL", secret_name, "jira-email");
    push_secret(&mut env, "GEMINI_API_KEY", secret_name, "gemini-api-key");
    push_secret(&mut env, "TEAMS_WEBHOOK_URL", secret_name, "teams-webhook");
    push_plain(
        &mut env,
        "GOOGLE_APPLICATION_CREDENTIALS",
        Some("/var/secrets/google/credentials.json".to_owned()),
    );
    if same(source.as_str(), "bitbucket") {
        push_plain(&mut env, "PROJECT_KEY", read_text(task_event, "project_key"));
        push_plain(&mut env, "REPO_SLUG", read_text(task_event, "repository_slug"));
        push_plain(&mut env, "PR_ID", read_text(task_event, "pr_id"));
        push_plain(&mut env, "BRANCH_NAME", read_text(task_event, "branch_name"));
        let comment = text_of_or(child_of(Some(task_event), "comment_text"), "");
        push_plain(&mut env, "COMMENT_TEXT", Some(comment));
    } else if same(source.as_str(), "jira") {
        push_plain(&mut env, "ISSUE_KEY", read_text(task_event, "issue_key"));
        push_plain(&mut env, "SUMMARY", read_text(task_event, "summary"));
        let description = text_of_or(child_of(Some(task_event), "description"), "");
        push_plain(&mut env, "DESCRIPTION", Some(description));
    }
    assert(env_view(env@) =~= common_env(task_event@, secret_name@, gcs_root@) + source_env(
        task_event@,
    ));
    env
}

/// The container in which the agent works.
fn agent_container(task_event: &Json, agent_image: &str, secret_name: &str, gcs_root: &str) -> (r:
    Container)
    ensures
        r@ == agent_container_view(task_event@, agent_image@, secret_name@, gcs_root@),
{
    let mut mounts: Vec<VolumeMount> = Vec::new();
    assert(mounts_view(mounts@) =~= Seq::empty());
    push_mount(&mut mounts, "custom-tools-volume", "/root/.config/opencode/tools", Some(true));
    push_mount(&mut mounts, "gcp-sa-volume", "/var/secrets/google", Some(true));
    push_mount(&mut mounts, "workspace-volume", "/workspace", None);
    push_mount(&mut mounts, "dind-socket-volume", "/var/run", None);
    assert(mounts_view(mounts@) =~= agent_container_view(
        task_event@,
        agent_image@,
        secret_name@,
        gcs_root@,
    ).volume_mounts);
    Container {
        name: "opencode-agent".to_owned(),
        image: agent_image.to_owned(),
        image_pull_policy: Some("IfNotPresent".to_owned()),
        privileged: None,
        env: agent_env(task_event, secret_name, gcs_root),
        volume_mounts: mounts,
    }
}

/// The container that runs the Docker daemon of the agent.
fn dind_container() -> (r: Container)
    ensures
        r@ == dind_container_view(),
{
    let mut env: Vec<EnvVar> = Vec::new();
    assert(env_view(env@) =~= Seq::empty());
    push_plain(&mut env, "DOCKER_HOST", Some("unix:///var/run/docker.sock".to_owned()));
    let mut mounts: Vec<VolumeMount> = Vec::new();
    assert(mounts_view(mounts@) =~= Seq::empty());
    push_mount(&mut mounts, "workspace-volume", "/workspace", None);
    push_mount(&mut mounts, "dind-socket-volume", "/var/run", None);
    assert(env_view(env@) =~= dind_container_view().env);
    assert(mounts_view(mounts@) =~= dind_container_view().volume_mounts);
    Container {
        name: "dind-daemon".to_owned(),
        image: "docker:dind".to_owned(),
        image_pull_policy: None,
        privileged: Some(true),
        env,
        volume_mounts: mounts,
    }
}

/// The volumes of the pod.
fn job_volumes() -> (r: Vec<Volume>)
    ensures
        volumes_view(r@) == job_volumes_view(),
{
    let mut volumes: Vec<Volume> = Vec::new();
    volumes.push(
        Volume {
            name: "custom-tools-volume".to_owned(),
            source: VolumeSource::ConfigMap {
                name: "opencode-custom-tools".to_owned(),
                default_mode: 0o755,
            },
        },
    );
    volumes.push(
        Volume {
            name: "gcp-sa-volume".to_owned(),
            source: VolumeSource::Secret { secret_name: "agent-worker-gcp-sa".to_owned() },
        },
    );
    volumes.push(
        Volume { name: "workspace-volume".to_owned(), source: VolumeSource::EmptyDir },
    );
    volumes.push(
        Volume { name: "dind-socket-volume".to_owned(), source: VolumeSource::EmptyDir },
    );
    assert(volumes_view(volumes@) =~= job_volumes_view());
    volumes
}

/// The job that works on a task, identified by the first characters of a universally unique
/// identifier.
pub fn job_for(
    task_event: &Json,
    uuid: &str,
    namespace: &str,
    agent_image: &str,
    secret_name: &str,
    gcs_root: &str,
) -> (r: Job)
    ensures
        r@ == job_view(
            task_event@,
            leading(uuid@, 8),
            namespace@,
            agent_image@,
            secret_name@,
            gcs_root@,
        ),
{
    let job_id = leading_text(uuid, 8);
    let source = text_of_or(child_of(Some(task_event), "source"), "unknown");
    let name = "opencode-worker-".to_owned().concat(source.as_str()).concat("-").concat(
        job_id.as_str(),
    );
    let mut labels: Vec<(String, String)> = Vec::new();
    labels.push(("app".to_owned(), "opencode-worker".to_owned()));
    labels.push(("job_id".to_owned(), job_id));
    assert(labels_view(labels@) =~= seq![
        ("app"@, "opencode-worker"@),
        ("job_id"@, leading(uuid@, 8)),
    ]);
    let mut containers: Vec<Container> = Vec::new();
    containers.push(agent_container(task_event, agent_image, secret_name, gcs_root));
    containers.push(dind_container());
    assert(containers_view(containers@) =~= seq![
        agent_container_view(task_event@, agent_image@, secret_name@, gcs_root@),
        dind_container_view(),
    ]);
    Job {
        name,
        namespace: namespace.to_owned(),
        labels,
        restart_policy: "Never".to_owned(),
        containers,
        volumes: job_volumes(),
        backoff_limit: 0,
        active_deadline_seconds: 1800,
        ttl_seconds_after_finished: 3600,
    }
}

/// A lower-case hexadecimal digit.
pub open spec fn is_hex(c: char) -> bool {
    ('0' <= c && c <= '9') || ('a' <= c && c <= 'f')
}

/// The text of a random universally unique identifier: groups of eight, four, four, four and
/// twelve hexadecimal digits, the third of which begins with the version and the fourth with the
/// variant.
pub open spec fn is_uuid_v4(text: Seq<char>) -> bool {
    &&& text.len() == 36
    &&& forall|i: int|
        0 <= i < 36 ==> if i == 8 || i == 13 || i == 18 || i == 23 {
            #[trigger] text[i] == '-'
        } else {
            is_hex(text[i])
        }
    &&& text[14] == '4'
    &&& text[19] == '8' || text[19] == '9' || text[19] == 'a' || text[19] == 'b'
}

/// The identifier of a job: eight hexadecimal digits.
pub open spec fn is_job_id(id: Seq<char>) -> bool {
    &&& id.len() == 8
    &&& forall|i: int| 0 <= i < 8 ==> is_hex(#[trigger] id[i])
}

/// The identifier that a job is labelled with.
pub open spec fn job_id_of(job: JobView) -> Seq<char> {
    job.labels[1].1
}

/// A random universally unique identifier.
///
/// Trusted: calls `uuid::Uuid::new_v4` and prints its result. Which identifier comes is left to
/// chance; what is claimed is the form that every one has.
#[verifier::external_body]
fn random_uuid() -> (r: String)
    ensures
        is_uuid_v4(r@),
{
    uuid::Uuid::new_v4().to_string()
}

/// The job that works on a task, under a random identifier.
pub fn create_k8s_job(
    task_event: &Json,
    namespace: &str,
    agent_image: &str,
    secret_name: &str,
    gcs_root: &str,
) -> (r: Job)
    ensures
        is_job_id(job_id_of(r@)),
        r@ == job_view(
            task_event@,
            job_id_of(r@),
            namespace@,
            agent_image@,
            secret_name@,
            gcs_root@,
        ),
{
    let uuid = random_uuid();
    job_for(task_event, uuid.as_str(), namespace, agent_image, secret_name, gcs_root)
}

} // verus!
