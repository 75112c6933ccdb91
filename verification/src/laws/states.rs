//! What holds of the states of a message, step by step.
use vstd::prelude::*;
use vstd::utf8::{decode_utf8, valid_utf8};

use crate::laws::data::{law_found_parts_are_there, law_parts_are_found};
use crate::orchestrator::{
    after_parsing, after_reading, after_scheduling, received, settlement, Message, MessageView,
    OrchestratorState, Settlement,
};
use crate::text::{lossy_text, occurs_in};
use crate::wire::{json_from_text, parsed};

verus! {

broadcast use vstd::string::group_string_axioms;

/// Two texts that may be absent are the same.
pub open spec fn same_option(a: Option<String>, b: Option<String>) -> bool {
    match (a, b) {
        (Some(s), Some(t)) => s@ == t@,
        (None, None) => true,
        _ => false,
    }
}

/// Two messages are the same: they have the same bytes and the same key.
pub open spec fn same_message(a: Message, b: Message) -> bool {
    a.payload@ == b.payload@ && same_option(a.partition_key, b.partition_key)
}

proof fn lemma_same_message(a: Message, b: Message)
    requires
        a@ == b@,
    ensures
        same_message(a, b),
{
    assert(a@.partition_key == b@.partition_key);
}

/// A message that comes in keeps its bytes and its key. Its text is what its bytes encode where
/// they are UTF-8, and is repaired where they are not.
pub proof fn law_messages_are_received(msg: Message, state: OrchestratorState)
    requires
        state@ == received(msg@),
    ensures
        match state {
            OrchestratorState::Received { payload_str, routing_key, msg: kept } => {
                &&& same_message(kept, msg)
                &&& same_option(routing_key, msg.partition_key)
                &&& valid_utf8(msg.payload@) ==> payload_str@ == decode_utf8(msg.payload@)
                &&& !valid_utf8(msg.payload@) ==> payload_str@ == lossy_text(msg.payload@)
            },
            _ => false,
        },
{
    if let OrchestratorState::Received { payload_str, routing_key, msg: kept } = state {
        lemma_same_message(kept, msg);
        assert(state@->routing_key == msg@.partition_key);
    }
}

/// A received message is parsed where its text is JSON, and holds that JSON; where it is not, it
/// fails with the message of the parser. The message itself is kept.
pub proof fn law_received_messages_are_parsed(
    payload_str: String,
    routing_key: Option<String>,
    msg: Message,
    next: OrchestratorState,
)
    requires
        next@ == after_parsing(OrchestratorState::Received { payload_str, routing_key, msg }@),
    ensures
        match json_from_text(payload_str@) {
            Ok(tree) => match next {
                OrchestratorState::Parsed { task_event, msg: kept } => task_event@ == tree
                    && same_message(kept, msg),
                _ => false,
            },
            Err(message) => match next {
                OrchestratorState::Failed { error, msg: kept } => error@
                    == "Failed to parse JSON: "@ + message && same_message(kept, msg),
                _ => false,
            },
        },
{
    match next {
        OrchestratorState::Parsed { task_event, msg: kept } => lemma_same_message(kept, msg),
        OrchestratorState::Failed { error, msg: kept } => lemma_same_message(kept, msg),
        _ => {},
    }
}

/// What was read as JSON is taken as the task, and what was not is reported.
pub proof fn law_readings_are_taken(
    reading: Result<crate::json::Json, String>,
    msg: Message,
    next: OrchestratorState,
)
    requires
        next@ == after_reading(parsed(reading), msg@),
    ensures
        match (reading, next) {
            (Ok(json), OrchestratorState::Parsed { task_event, msg: kept }) => task_event@ == json@
                && same_message(kept, msg),
            (Err(message), OrchestratorState::Failed { error, msg: kept }) => error@
                == "Failed to parse JSON: "@ + message@ && same_message(kept, msg),
            _ => false,
        },
{
    match next {
        OrchestratorState::Parsed { task_event, msg: kept } => lemma_same_message(kept, msg),
        OrchestratorState::Failed { error, msg: kept } => lemma_same_message(kept, msg),
        _ => {},
    }
}

/// A parsed message has its job where that was scheduled, and fails where it was not. The message
/// itself is kept.
pub proof fn law_parsed_messages_are_scheduled(
    task_event: crate::json::Json,
    msg: Message,
    scheduled: bool,
    next: OrchestratorState,
)
    requires
        next@ == after_scheduling(OrchestratorState::Parsed { task_event, msg }@, scheduled),
    ensures
        match next {
            OrchestratorState::JobCreated { msg: kept } => scheduled && same_message(kept, msg),
            OrchestratorState::Failed { error, msg: kept } => !scheduled && error@
                == "Failed to schedule job"@ && same_message(kept, msg),
            _ => false,
        },
{
    match next {
        OrchestratorState::JobCreated { msg: kept } => lemma_same_message(kept, msg),
        OrchestratorState::Failed { error, msg: kept } => lemma_same_message(kept, msg),
        _ => {},
    }
}

/// A step leaves every state alone but the one that it is for.
pub proof fn law_steps_leave_other_states_alone(state: OrchestratorState, scheduled: bool)
    ensures
        !(state is Received) ==> after_parsing(state@) == state@,
        !(state is Parsed) ==> after_scheduling(state@, scheduled) == state@,
{
}

/// Two states that look the same are the same: of one kind, with the same contents and the same
/// message.
pub proof fn law_states_are_seen_in_full(a: OrchestratorState, b: OrchestratorState)
    requires
        a@ == b@,
    ensures
        match (a, b) {
            (
                OrchestratorState::Received { payload_str: s, routing_key: k, msg: m },
                OrchestratorState::Received { payload_str: t, routing_key: l, msg: n },
            ) => s@ == t@ && same_option(k, l) && same_message(m, n),
            (
                OrchestratorState::Parsed { task_event: s, msg: m },
                OrchestratorState::Parsed { task_event: t, msg: n },
            ) => s@ == t@ && same_message(m, n),
            (
                OrchestratorState::JobCreated { msg: m },
                OrchestratorState::JobCreated { msg: n },
            ) => same_message(m, n),
            (
                OrchestratorState::Failed { error: s, msg: m },
                OrchestratorState::Failed { error: t, msg: n },
            ) => s@ == t@ && same_message(m, n),
            _ => false,
        },
{
    match (a, b) {
        (
            OrchestratorState::Received { payload_str: s, routing_key: k, msg: m },
            OrchestratorState::Received { payload_str: t, routing_key: l, msg: n },
        ) => {
            lemma_same_message(m, n);
            assert(a@->routing_key == b@->routing_key);
        },
        (
            OrchestratorState::Parsed { task_event: s, msg: m },
            OrchestratorState::Parsed { task_event: t, msg: n },
        ) => lemma_same_message(m, n),
        (
            OrchestratorState::JobCreated { msg: m },
            OrchestratorState::JobCreated { msg: n },
        ) => lemma_same_message(m, n),
        (
            OrchestratorState::Failed { error: s, msg: m },
            OrchestratorState::Failed { error: t, msg: n },
        ) => lemma_same_message(m, n),
        _ => {},
    }
}

/// A message that has its job is completed.
pub proof fn law_messages_with_a_job_are_completed(msg: Message, end: Settlement)
    requires
        end@ == settlement(OrchestratorState::JobCreated { msg }@),
    ensures
        end is Complete,
        same_message(end->Complete_msg, msg),
{
    if let Settlement::Complete { msg: kept } = end {
        lemma_same_message(kept, msg);
    }
}

/// A message whose job was not scheduled comes again, wherever in its error that is said.
pub proof fn law_unscheduled_messages_come_again(
    error: String,
    msg: Message,
    end: Settlement,
    prefix: Seq<char>,
    suffix: Seq<char>,
)
    requires
        error@ == prefix + "Failed to schedule job"@ + suffix,
        end@ == settlement(OrchestratorState::Failed { error, msg }@),
    ensures
        end is Retry,
        end->Retry_error@ == error@,
        same_message(end->Retry_msg, msg),
{
    law_parts_are_found(prefix, "Failed to schedule job"@, suffix);
    if let Settlement::Retry { error: e, msg: kept } = end {
        lemma_same_message(kept, msg);
    }
}

/// A message that failed for any other reason does not come again.
pub proof fn law_other_failures_are_discarded(error: String, msg: Message, end: Settlement)
    requires
        forall|prefix: Seq<char>, suffix: Seq<char>|
            error@ != #[trigger] (prefix + "Failed to schedule job"@ + suffix),
        end@ == settlement(OrchestratorState::Failed { error, msg }@),
    ensures
        end is Discard,
        end->Discard_error@ == error@,
        same_message(end->Discard_msg, msg),
{
    if occurs_in(error@, "Failed to schedule job"@) {
        law_found_parts_are_there(error@, "Failed to schedule job"@);
    }
    if let Settlement::Discard { error: e, msg: kept } = end {
        lemma_same_message(kept, msg);
    }
}

/// Of a message that is not done with, the broker is told nothing.
pub proof fn law_unfinished_messages_are_not_settled(state: OrchestratorState, end: Settlement)
    requires
        state is Received || state is Parsed,
        end@ == settlement(state@),
    ensures
        end is Unexpected,
{
}

/// A message whose text is no JSON does not come again, as long as the parser does not speak of
/// failure itself, and whatever becomes of scheduling.
pub proof fn law_messages_that_are_no_json_are_discarded(
    msg: MessageView,
    message: Seq<char>,
    scheduled: bool,
)
    requires
        !occurs_in(message, "Failed"@),
    ensures
        ({
            let state = after_reading(Err(message), msg);
            let end = settlement(after_scheduling(state, scheduled));
            &&& end is Discard
            &&& end->Discard_error == "Failed to parse JSON: "@ + message
            &&& end->Discard_msg == msg
        }),
{
    crate::orchestrator::lemma_parse_failure_is_no_scheduling_failure(message);
}

} // verus!
