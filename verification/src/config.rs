//! Settings, and what holds where one is not given.
use vstd::prelude::*;

use crate::text::opt_text;

verus! {

/// A setting: what is given, or else its default.
pub open spec fn setting(given: Option<Seq<char>>, default: Seq<char>) -> Seq<char> {
    match given {
        Some(value) => value,
        None => default,
    }
}

/// A setting: what is given, or else its default.
fn setting_or(given: Option<String>, default: &str) -> (r: String)
    ensures
        r@ == setting(opt_text(given), default@),
{
    match given {
        Some(value) => value,
        None => default.to_owned(),
    }
}

/// Where the task topic is, and how to be let in.
#[derive(Debug)]
pub struct BrokerConfig {
    pub service_url: String,
    pub topic: String,
    pub auth_token: Option<String>,
}

impl BrokerConfig {
    /// The settings of the broker, with defaults for the service and the topic.
    pub fn new(
        service_url: Option<String>,
        topic: Option<String>,
        auth_token: Option<String>,
    ) -> (r: BrokerConfig)
        ensures
            r.service_url@ == setting(opt_text(service_url), "pulsar://localhost:6650"@),
            r.topic@ == setting(opt_text(topic), "persistent://public/default/agent-tasks"@),
            r.auth_token == auth_token,
    {
        BrokerConfig {
            service_url: setting_or(service_url, "pulsar://localhost:6650"),
            topic: setting_or(topic, "persistent://public/default/agent-tasks"),
            auth_token,
        }
    }
}

/// The subscription that the orchestrator takes its messages from.
pub fn orchestrator_subscription(given: Option<String>) -> (r: String)
    ensures
        r@ == setting(opt_text(given), "agent-orchestrator-sub"@),
{
    setting_or(given, "agent-orchestrator-sub")
}

/// The Pub/Sub subscription that the ingester listens to.
pub fn pubsub_subscription(given: Option<String>) -> (r: String)
    ensures
        r@ == setting(opt_text(given), "test-jira-sub"@),
{
    setting_or(given, "test-jira-sub")
}

/// What every job has in common.
#[derive(Debug)]
pub struct JobConfig {
    pub namespace: String,
    pub agent_image: String,
    pub secret_name: String,
    pub gcs_root: String,
}

impl JobConfig {
    /// The settings of the jobs, each with its default.
    pub fn new(
        namespace: Option<String>,
        agent_image: Option<String>,
        secret_name: Option<String>,
        gcs_root: Option<String>,
    ) -> (r: JobConfig)
        ensures
            r.namespace@ == setting(opt_text(namespace), "dedev"@),
            r.agent_image@ == setting(
                opt_text(agent_image),
                "your-registry.com/dedev/opencode-worker:latest"@,
            ),
            r.secret_name@ == setting(opt_text(secret_name), "opencode-agent-secrets"@),
            r.gcs_root@ == setting(opt_text(gcs_root), "my-dedev-gcs-bucket/embeddings"@),
    {
        JobConfig {
            namespace: setting_or(namespace, "dedev"),
            agent_image: setting_or(agent_image, "your-registry.com/dedev/opencode-worker:latest"),
            secret_name: setting_or(secret_name, "opencode-agent-secrets"),
            gcs_root: setting_or(gcs_root, "my-dedev-gcs-bucket/embeddings"),
        }
    }
}

} // verus!
