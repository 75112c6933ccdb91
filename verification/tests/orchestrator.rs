use agent_tasks::config::{
    orchestrator_subscription, pubsub_subscription, BrokerConfig, JobConfig,
};
use agent_tasks::ingest::pulsar_message;
use agent_tasks::job::{create_k8s_job, job_for, EnvVar, Job, VolumeSource};
use agent_tasks::json::Json;
use agent_tasks::orchestrator::{Message, OrchestratorState, Settlement};
use agent_tasks::webhook::TaskEvent;
use agent_tasks::wire::parse_json;

fn message(payload: &[u8]) -> Message {
    Message { payload: payload.to_vec(), partition_key: Some("key".to_string()) }
}

fn json(text: &str) -> Json {
    parse_json(text).unwrap()
}

fn job(task: &str) -> Job {
    let uuid = "0123abcd-4567-4abc-8def-0123456789ab";
    job_for(&json(task), uuid, "ns", "img:1", "vault", "bucket/root")
}

fn var<'a>(job: &'a Job, name: &str) -> &'a EnvVar {
    job.containers[0].env.iter().find(|e| e.name == name).unwrap()
}

#[test]
fn a_message_is_received_as_text() {
    match OrchestratorState::new(message("ü".as_bytes())) {
        OrchestratorState::Received { payload_str, routing_key, msg } => {
            assert_eq!(payload_str, "ü");
            assert_eq!(routing_key, Some("key".to_string()));
            assert_eq!(msg.payload, "ü".as_bytes());
        }
        _ => panic!("not received"),
    }
    match OrchestratorState::new(Message { payload: vec![0x61, 0xff], partition_key: None }) {
        OrchestratorState::Received { payload_str, routing_key, .. } => {
            assert_eq!(payload_str, "a\u{fffd}");
            assert_eq!(routing_key, None);
        }
        _ => panic!("not received"),
    }
}

#[test]
fn a_json_message_is_parsed() {
    match OrchestratorState::new(message(b"{\"source\": \"jira\"}")).parse() {
        OrchestratorState::Parsed { task_event, msg } => {
            assert_eq!(task_event.get("source").unwrap().as_str(), Some("jira"));
            assert_eq!(msg.partition_key, Some("key".to_string()));
        }
        _ => panic!("not parsed"),
    }
}

#[test]
fn another_message_fails() {
    match OrchestratorState::new(message(b"{")).parse() {
        OrchestratorState::Failed { error, msg } => {
            assert_eq!(
                error,
                "Failed to parse JSON: EOF while parsing an object at line 1 column 1"
            );
            assert_eq!(msg.payload, b"{");
        }
        _ => panic!("not failed"),
    }
}

#[test]
fn a_scheduled_job_completes_its_message() {
    let state = OrchestratorState::new(message(b"1")).parse().process_job(true);
    assert!(matches!(state, OrchestratorState::JobCreated { .. }));
    match state.finalize() {
        Settlement::Complete { msg } => assert_eq!(msg.payload, b"1"),
        _ => panic!("not complete"),
    }
}

#[test]
fn a_job_that_is_not_scheduled_is_tried_again() {
    match OrchestratorState::new(message(b"1")).parse().process_job(false).finalize() {
        Settlement::Retry { error, msg } => {
            assert_eq!(error, "Failed to schedule job");
            assert_eq!(msg.payload, b"1");
        }
        _ => panic!("not tried again"),
    }
}

#[test]
fn a_message_that_is_no_json_is_discarded() {
    for scheduled in [true, false] {
        let text = b"Failed to schedule job";
        match OrchestratorState::new(message(text)).parse().process_job(scheduled).finalize() {
            Settlement::Discard { error, msg } => {
                assert_eq!(error, "Failed to parse JSON: expected value at line 1 column 1");
                assert_eq!(msg.payload, text);
            }
            _ => panic!("not discarded"),
        }
    }
}

#[test]
fn an_unfinished_message_is_unexpected() {
    let received = OrchestratorState::new(message(b"1"));
    assert!(matches!(received.finalize(), Settlement::Unexpected));
    let parsed = OrchestratorState::new(message(b"1")).parse();
    assert!(matches!(parsed.finalize(), Settlement::Unexpected));
}

#[test]
fn steps_leave_other_states_alone() {
    let state = OrchestratorState::JobCreated { msg: message(b"x") };
    assert!(matches!(state.parse().process_job(false), OrchestratorState::JobCreated { .. }));
    let state = OrchestratorState::new(message(b"x")).process_job(true);
    assert!(matches!(state, OrchestratorState::Received { .. }));
}

#[test]
fn only_parsed_messages_have_a_job() {
    let parsed = OrchestratorState::new(message(b"{\"source\":\"jira\"}")).parse();
    let job = parsed.job_to_schedule("ns", "img", "vault", "root").unwrap();
    assert!(job.name.starts_with("opencode-worker-jira-"));
    let received = OrchestratorState::new(message(b"{}"));
    assert!(received.job_to_schedule("ns", "img", "vault", "root").is_none());
}

#[test]
fn published_tasks_are_read_back() {
    let event = TaskEvent::PullRequestComment {
        project_key: "PRJ".to_string(),
        repository_slug: "repo".to_string(),
        pr_id: "42".to_string(),
        branch_name: "b\\\u{1}".to_string(),
        comment_text: "ü \"x\"".to_string(),
        author: "Ada".to_string(),
    };
    let sent = pulsar_message("PRJ-repo-pr-42".to_string(), &event);
    let received = Message { payload: sent.payload, partition_key: sent.partition_key };
    let state = OrchestratorState::new(received).parse();
    let job = state.job_to_schedule("ns", "img", "vault", "root").unwrap();
    for (name, value) in [
        ("EVENT_SOURCE", "bitbucket"),
        ("EVENT_TYPE", "pr_comment"),
        ("PROJECT_KEY", "PRJ"),
        ("REPO_SLUG", "repo"),
        ("PR_ID", "42"),
        ("BRANCH_NAME", "b\\\u{1}"),
        ("COMMENT_TEXT", "ü \"x\""),
    ] {
        assert_eq!(var(&job, name).value, Some(value.to_string()));
    }
}

#[test]
fn a_job_is_spelled_out() {
    let job = job(r#"{"source": "jira", "event_type": "issue_created", "issue_key": "K-1"}"#);
    assert_eq!(job.name, "opencode-worker-jira-0123abcd");
    assert_eq!(job.namespace, "ns");
    assert_eq!(
        job.labels,
        vec![
            ("app".to_string(), "opencode-worker".to_string()),
            ("job_id".to_string(), "0123abcd".to_string()),
        ]
    );
    assert_eq!(job.restart_policy, "Never");
    assert_eq!(job.backoff_limit, 0);
    assert_eq!(job.active_deadline_seconds, 1800);
    assert_eq!(job.ttl_seconds_after_finished, 3600);
    let names: Vec<&str> = job.containers[0].env.iter().map(|e| e.name.as_str()).collect();
    assert_eq!(
        names,
        vec![
            "EVENT_SOURCE",
            "EVENT_TYPE",
            "GCS_DEDEV_ROOT",
            "BITBUCKET_TOKEN",
            "JIRA_TOKEN",
            "JIRA_EMAIL",
            "GEMINI_API_KEY",
            "TEAMS_WEBHOOK_URL",
            "GOOGLE_APPLICATION_CREDENTIALS",
            "ISSUE_KEY",
            "SUMMARY",
            "DESCRIPTION",
        ]
    );
    assert_eq!(var(&job, "EVENT_TYPE").value, Some("issue_created".to_string()));
    assert_eq!(var(&job, "GCS_DEDEV_ROOT").value, Some("bucket/root".to_string()));
    assert_eq!(var(&job, "ISSUE_KEY").value, Some("K-1".to_string()));
    assert_eq!(var(&job, "SUMMARY").value, None);
    assert_eq!(var(&job, "DESCRIPTION").value, Some("".to_string()));
    assert_eq!(
        var(&job, "GOOGLE_APPLICATION_CREDENTIALS").value,
        Some("/var/secrets/google/credentials.json".to_string())
    );
}

#[test]
fn secrets_are_named_and_not_shown() {
    let job = job("{}");
    for (name, key) in [
        ("BITBUCKET_TOKEN", "bitbucket-token"),
        ("JIRA_TOKEN", "jira-token"),
        ("JIRA_EMAIL", "jira-email"),
        ("GEMINI_API_KEY", "gemini-api-key"),
        ("TEAMS_WEBHOOK_URL", "teams-webhook"),
    ] {
        let found = var(&job, name);
        assert_eq!(found.value, None);
        let secret = found.secret.as_ref().unwrap();
        assert_eq!(secret.name, "vault");
        assert_eq!(secret.key, key);
    }
}

#[test]
fn a_task_without_a_source_is_unknown() {
    let job = job(r#"{"source": 1, "project_key": "P"}"#);
    assert_eq!(job.name, "opencode-worker-unknown-0123abcd");
    assert_eq!(job.containers[0].env.len(), 9);
    assert_eq!(var(&job, "EVENT_SOURCE").value, Some("unknown".to_string()));
    assert_eq!(var(&job, "EVENT_TYPE").value, None);
}

#[test]
fn containers_and_volumes_are_spelled_out() {
    let job = job("null");
    assert_eq!(job.containers.len(), 2);
    let agent = &job.containers[0];
    assert_eq!(agent.name, "opencode-agent");
    assert_eq!(agent.image, "img:1");
    assert_eq!(agent.image_pull_policy, Some("IfNotPresent".to_string()));
    assert_eq!(agent.privileged, None);
    let mounts: Vec<(&str, &str, Option<bool>)> = agent
        .volume_mounts
        .iter()
        .map(|m| (m.name.as_str(), m.mount_path.as_str(), m.read_only))
        .collect();
    assert_eq!(
        mounts,
        vec![
            ("custom-tools-volume", "/root/.config/opencode/tools", Some(true)),
            ("gcp-sa-volume", "/var/secrets/google", Some(true)),
            ("workspace-volume", "/workspace", None),
            ("dind-socket-volume", "/var/run", None),
        ]
    );
    let dind = &job.containers[1];
    assert_eq!(dind.name, "dind-daemon");
    assert_eq!(dind.image, "docker:dind");
    assert_eq!(dind.image_pull_policy, None);
    assert_eq!(dind.privileged, Some(true));
    assert_eq!(dind.env.len(), 1);
    assert_eq!(dind.env[0].name, "DOCKER_HOST");
    assert_eq!(dind.env[0].value, Some("unix:///var/run/docker.sock".to_string()));
    assert_eq!(dind.volume_mounts.len(), 2);
    assert_eq!(dind.volume_mounts[0].mount_path, "/workspace");
    assert_eq!(dind.volume_mounts[1].mount_path, "/var/run");
    for container in &job.containers {
        for mount in &container.volume_mounts {
            assert!(job.volumes.iter().any(|v| v.name == mount.name));
        }
    }
    assert_eq!(job.volumes.len(), 4);
    match &job.volumes[0].source {
        VolumeSource::ConfigMap { name, default_mode } => {
            assert_eq!(name, "opencode-custom-tools");
            assert_eq!(*default_mode, 493);
        }
        _ => panic!("no config map"),
    }
    match &job.volumes[1].source {
        VolumeSource::Secret { secret_name } => assert_eq!(secret_name, "agent-worker-gcp-sa"),
        _ => panic!("no secret"),
    }
    assert!(matches!(job.volumes[2].source, VolumeSource::EmptyDir));
    assert!(matches!(job.volumes[3].source, VolumeSource::EmptyDir));
}

#[test]
fn a_short_identifier_is_taken_whole() {
    let job = job_for(&Json::Null, "abc", "ns", "img", "vault", "root");
    assert_eq!(job.name, "opencode-worker-unknown-abc");
}

#[test]
fn random_identifiers_are_eight_hexadecimal_digits() {
    let first = create_k8s_job(&Json::Null, "ns", "img", "vault", "root");
    let second = create_k8s_job(&Json::Null, "ns", "img", "vault", "root");
    for job in [&first, &second] {
        let id = &job.labels[1].1;
        assert_eq!(id.len(), 8);
        assert!(id.chars().all(|c| c.is_ascii_digit() || ('a'..='f').contains(&c)));
        assert_eq!(job.name, format!("opencode-worker-unknown-{}", id));
    }
    assert_ne!(first.name, second.name);
}

#[test]
fn settings_have_defaults() {
    let broker = BrokerConfig::new(None, None, None);
    assert_eq!(broker.service_url, "pulsar://localhost:6650");
    assert_eq!(broker.topic, "persistent://public/default/agent-tasks");
    assert_eq!(broker.auth_token, None);
    let broker = BrokerConfig::new(
        Some("pulsar://b".to_string()),
        Some("t".to_string()),
        Some("secret".to_string()),
    );
    assert_eq!(broker.service_url, "pulsar://b");
    assert_eq!(broker.topic, "t");
    assert_eq!(broker.auth_token, Some("secret".to_string()));
    let jobs = JobConfig::new(None, None, None, None);
    assert_eq!(jobs.namespace, "dedev");
    assert_eq!(jobs.agent_image, "your-registry.com/dedev/opencode-worker:latest");
    assert_eq!(jobs.secret_name, "opencode-agent-secrets");
    assert_eq!(jobs.gcs_root, "my-dedev-gcs-bucket/embeddings");
    assert_eq!(JobConfig::new(Some("x".to_string()), None, None, None).namespace, "x");
    assert_eq!(orchestrator_subscription(None), "agent-orchestrator-sub");
    assert_eq!(pubsub_subscription(None), "test-jira-sub");
    assert_eq!(pubsub_subscription(Some("s".to_string())), "s");
}

#[test]
fn variables_have_different_names() {
    for source in ["bitbucket", "jira", "other"] {
        let job = job(&format!("{{\"source\": \"{}\"}}", source));
        let env = &job.containers[0].env;
        for (i, a) in env.iter().enumerate() {
            assert!(env.iter().skip(i + 1).all(|b| a.name != b.name));
        }
    }
}
