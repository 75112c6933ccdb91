//! The orchestrator: the states that a task message goes through, from its receipt to its
//! settlement.
use vstd::prelude::*;
use vstd::string::StringExecFns;

use crate::job::{create_k8s_job, is_job_id, job_id_of, job_view, Job};
use crate::json::{Json, JsonView};
use crate::text::{contains, from_utf8_lossy, message_text, occurs_at, occurs_in, opt_text};
use crate::wire::{json_from_text, parse_json, parsed};

verus! {

broadcast use vstd::string::group_string_axioms;

/// What a received message is.
pub struct MessageView {
    pub payload: Seq<u8>,
    pub partition_key: Option<Seq<char>>,
}

/// A received message.
#[derive(Debug)]
pub struct Message {
    pub payload: Vec<u8>,
    pub partition_key: Option<String>,
}

impl View for Message {
    type V = MessageView;

    open spec fn view(&self) -> MessageView {
        MessageView { payload: self.payload@, partition_key: opt_text(self.partition_key) }
    }
}

/// What the state of a message is.
pub enum OrchestratorStateView {
    Received { payload_str: Seq<char>, routing_key: Option<Seq<char>>, msg: MessageView },
    Parsed { task_event: JsonView, msg: MessageView },
    JobCreated { msg: MessageView },
    Failed { error: Seq<char>, msg: MessageView },
}

/// The state of a message.
#[derive(Debug)]
pub enum OrchestratorState {
    /// The message came in.
    Received { payload_str: String, routing_key: Option<String>, msg: Message },
    /// The message is JSON.
    Parsed { task_event: Json, msg: Message },
    /// A job works on the task.
    JobCreated { msg: Message },
    /// The message is no JSON, or no job could be scheduled.
    Failed { error: String, msg: Message },
}

impl View for OrchestratorState {
    type V = OrchestratorStateView;

    open spec fn view(&self) -> OrchestratorStateView {
        match self {
            OrchestratorState::Received {
                payload_str,
                routing_key,
                msg,
            } => OrchestratorStateView::Received {
                payload_str: payload_str@,
                routing_key: opt_text(*routing_key),
                msg: msg@,
            },
            OrchestratorState::Parsed { task_event, msg } => OrchestratorStateView::Parsed {
                task_event: task_event@,
                msg: msg@,
            },
            OrchestratorState::JobCreated { msg } => OrchestratorStateView::JobCreated {
                msg: msg@,
            },
            OrchestratorState::Failed { error, msg } => OrchestratorStateView::Failed {
                error: error@,
                msg: msg@,
            },
        }
    }
}

/// What becomes of a message in the end.
pub enum SettlementView {
    Complete { msg: MessageView },
    Retry { error: Seq<char>, msg: MessageView },
    Discard { error: Seq<char>, msg: MessageView },
    Unexpected,
}

/// What becomes of a message in the end.
#[derive(Debug)]
pub enum Settlement {
    /// A job works on the task: the message is acknowledged.
    Complete { msg: Message },
    /// No job could be scheduled: the message is negatively acknowledged, and comes again.
    Retry { error: String, msg: Message },
    /// The message will never become a job: it is acknowledged, and does not come again.
    Discard { error: String, msg: Message },
    /// The message is not done with: nothing is told to the broker.
    Unexpected,
}

impl View for Settlement {
    type V = SettlementView;

    open spec fn view(&self) -> SettlementView {
        match self {
            Settlement::Complete { msg } => SettlementView::Complete { msg: msg@ },
            Settlement::Retry { error, msg } => SettlementView::Retry { error: error@, msg: msg@ },
            Settlement::Discard { error, msg } => SettlementView::Discard {
                error: error@,
                msg: msg@,
            },
            Settlement::Unexpected => SettlementView::Unexpected,
        }
    }
}

/// The state of a message that came in.
pub open spec fn received(msg: MessageView) -> OrchestratorStateView {
    OrchestratorStateView::Received {
        payload_str: message_text(msg.payload),
        routing_key: msg.partition_key,
        msg,
    }
}

/// The state of a message whose text was read as `reading`.
pub open spec fn after_reading(
    reading: Result<JsonView, Seq<char>>,
    msg: MessageView,
) -> OrchestratorStateView {
    match reading {
        Ok(task_event) => OrchestratorStateView::Parsed { task_event, msg },
        Err(message) => OrchestratorStateView::Failed {
            error: "Failed to parse JSON: "@ + message,
            msg,
        },
    }
}

/// The state after parsing: a received message is read as JSON, and any other state stays.
pub open spec fn after_parsing(state: OrchestratorStateView) -> OrchestratorStateView {
    match state {
        OrchestratorStateView::Received { payload_str, routing_key, msg } => after_reading(
            json_from_text(payload_str),
            msg,
        ),
        _ => state,
    }
}

/// The state after an attempt to schedule a job: a parsed message has its job or failed, and any
/// other state stays.
pub open spec fn after_scheduling(
    state: OrchestratorStateView,
    scheduled: bool,
) -> OrchestratorStateView {
    match state {
        OrchestratorStateView::Parsed { task_event, msg } => if scheduled {
            OrchestratorStateView::JobCreated { msg }
        } else {
            OrchestratorStateView::Failed { error: "Failed to schedule job"@, msg }
        },
        _ => state,
    }
}

/// The settlement of a state.
pub open spec fn settlement(state: OrchestratorStateView) -> SettlementView {
    match state {
        OrchestratorStateView::JobCreated { msg } => SettlementView::Complete { msg },
        OrchestratorStateView::Failed { error, msg } => if occurs_in(
            error,
            "Failed to schedule job"@,
        ) {
            SettlementView::Retry { error, msg }
        } else {
            SettlementView::Discard { error, msg }
        },
        _ => SettlementView::Unexpected,
    }
}

/// The report that a message is no JSON does not read as a failure to schedule its job.
pub(crate) proof fn lemma_parse_failure_is_no_scheduling_failure(message: Seq<char>)
    requires
        !occurs_in(message, "Failed"@),
    ensures
        !occurs_in("Failed to parse JSON: "@ + message, "Failed to schedule job"@),
{
    reveal_strlit("Failed");
    reveal_strlit("Failed to parse JSON: ");
    reveal_strlit("Failed to schedule job");
    let prefix = "Failed to parse JSON: "@;
    let marker = "Failed to schedule job"@;
    let whole = prefix + message;
    assert forall|at: int| !#[trigger] occurs_at(whole, marker, at) by {
        if occurs_at(whole, marker, at) {
            let found = whole.subrange(at, at + marker.len());
            assert(found[0] == 'F' && found[1] == 'a' && found[10] == 's');
            assert(whole[at] == 'F' && whole[at + 1] == 'a' && whole[at + 10] == 's');
            if at >= prefix.len() {
                let start = at - prefix.len();
                assert(message.subrange(start, start + 6) =~= "Failed"@) by {
                    assert forall|i: int| 0 <= i < 6 implies message.subrange(start, start + 6)[i]
                        == "Failed"@[i] by {
                        assert(found[i] == marker[i]);
                    }
                }
                assert(occurs_at(message, "Failed"@, start));
            } else {
                assert(whole[at] == prefix[at]);
                assert(at == 0);
                assert(whole[10] == prefix[10]);
            }
        }
    }
}

/// The state of a message whose text was read as `reading`.
pub fn read_message(reading: Result<Json, String>, msg: Message) -> (r: OrchestratorState)
    ensures
        r@ == after_reading(parsed(reading), msg@),
{
    match reading {
        Ok(task_event) => OrchestratorState::Parsed { task_event, msg },
        Err(message) => OrchestratorState::Failed {
            error: "Failed to parse JSON: ".to_owned().concat(message.as_str()),
            msg,
        },
    }
}

impl OrchestratorState {
    /// The state of a message that came in.
    pub fn new(msg: Message) -> (r: OrchestratorState)
        ensures
            r@ == received(msg@),
    {
        let payload_str = from_utf8_lossy(msg.payload.as_slice());
        let routing_key = msg.partition_key.clone();
        OrchestratorState::Received { payload_str, routing_key, msg }
    }

    /// Reads a received message as JSON; any other state stays. A message that is no JSON is
    /// going to be discarded, so that it does not come again and again.
    pub fn parse(self) -> (r: OrchestratorState)
        ensures
            r@ == after_parsing(self@),
            self@ is Received && r@ is Failed ==> settlement(r@) is Discard,
    {
        match self {
            OrchestratorState::Received { payload_str, msg, .. } => {
                let reading = parse_json(payload_str.as_str());
                proof {
                    if reading is Err {
                        lemma_parse_failure_is_no_scheduling_failure(reading->Err_0@);
                    }
                }
                read_message(reading, msg)
            },
            other => other,
        }
    }

    /// The job that is to be scheduled for a parsed message; in any other state there is none.
    pub fn job_to_schedule(
        &self,
        namespace: &str,
        agent_image: &str,
        secret_name: &str,
        gcs_root: &str,
    ) -> (r: Option<Job>)
        ensures
            match self@ {
                OrchestratorStateView::Parsed { task_event, msg } => match r {
                    Some(job) => {
                        &&& is_job_id(job_id_of(job@))
                        &&& job@ == job_view(
                            task_event,
                            job_id_of(job@),
                            namespace@,
                            agent_image@,
                            secret_name@,
                            gcs_root@,
                        )
                    },
                    None => false,
                },
                _ => r is None,
            },
    {
        match self {
            OrchestratorState::Parsed { task_event, .. } => Some(
                create_k8s_job(task_event, namespace, agent_image, secret_name, gcs_root),
            ),
            _ => None,
        }
    }

    /// Takes note of whether the job of a parsed message was scheduled; any other state stays.
    pub fn process_job(self, scheduled: bool) -> (r: OrchestratorState)
        ensures
            r@ == after_scheduling(self@, scheduled),
    {
        match self {
            OrchestratorState::Parsed { msg, .. } => if scheduled {
                OrchestratorState::JobCreated { msg }
            } else {
                OrchestratorState::Failed { error: "Failed to schedule job".to_owned(), msg }
            },
            other => other,
        }
    }

    /// Settles a message.
    pub fn finalize(self) -> (r: Settlement)
        ensures
            r@ == settlement(self@),
    {
        match self {
            OrchestratorState::JobCreated { msg } => Settlement::Complete { msg },
            OrchestratorState::Failed { error, msg } => if contains(
                error.as_str(),
                "Failed to schedule job",
            ) {
                Settlement::Retry { error, msg }
            } else {
                Settlement::Discard { error, msg }
            },
            _ => Settlement::Unexpected,
        }
    }
}

} // verus!
