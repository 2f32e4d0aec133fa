//! The probes: alive, started, and ready. Alive and started answer at once;
//! ready asks the store for a sign of life first.

use crate::consts::health::{MSG_REDIS_CONNECTIVITY_ERROR, MSG_UNEXPECTED_PING_RESPONSE};
use crate::consts::messages::{OK, READY, STARTED};
use crate::consts::redis::PONG_CMD;
use crate::error_utils::{
    is_correlation_id, log_and_response, spec_error_response, ErrorResponse, ErrorResponseModel,
};
use crate::status::Status;
use crate::store::{CommandModel, ReplyModel, Step, StepModel, StoreCommand, StoreReply};
use vstd::prelude::*;
use vstd::string::StringExecFns;

verus! {

/// The body of the liveness probe's answer.
pub fn healthz() -> (body: &'static str)
    ensures
        body@ == OK@,
{
    OK
}

/// The body of the startup probe's answer.
pub fn startz() -> (body: &'static str)
    ensures
        body@ == STARTED@,
{
    STARTED
}

/// Where a readiness probe stands.
#[derive(Clone, Copy, Debug, PartialEq, Eq, Structural)]
pub enum ReadyState {
    /// The ping was sent.
    Pinging,
}

impl View for ReadyState {
    type V = ReadyState;

    open spec fn view(&self) -> ReadyState {
        *self
    }
}

/// How a readiness probe ended.
#[derive(Debug, PartialEq, Eq)]
pub enum ReadyOutcome {
    /// The store answered the ping as it should.
    Ready,
    /// The store did not answer, or answered something else.
    Failed(ErrorResponse),
}

/// What a [`ReadyOutcome`] holds.
pub enum ReadyOutcomeModel {
    Ready,
    Failed(ErrorResponseModel),
}

impl View for ReadyOutcome {
    type V = ReadyOutcomeModel;

    open spec fn view(&self) -> ReadyOutcomeModel {
        match *self {
            ReadyOutcome::Ready => ReadyOutcomeModel::Ready,
            ReadyOutcome::Failed(response) => ReadyOutcomeModel::Failed(response@),
        }
    }
}

impl ReadyOutcomeModel {
    /// The status the outcome is answered with.
    pub open spec fn status(self) -> Status {
        match self {
            ReadyOutcomeModel::Ready => Status::Success,
            ReadyOutcomeModel::Failed(response) => response.status,
        }
    }

    /// The body the outcome is answered with.
    pub open spec fn body(self) -> Seq<char> {
        match self {
            ReadyOutcomeModel::Ready => READY@,
            ReadyOutcomeModel::Failed(response) => response.body,
        }
    }
}

impl ReadyOutcome {
    /// The status the outcome is answered with.
    pub fn status(&self) -> (status: Status)
        ensures
            status == self@.status(),
    {
        match self {
            ReadyOutcome::Ready => Status::Success,
            ReadyOutcome::Failed(response) => response.status,
        }
    }

    /// The body the outcome is answered with.
    pub fn body(&self) -> (body: &str)
        ensures
            body@ == self@.body(),
    {
        match self {
            ReadyOutcome::Ready => READY,
            ReadyOutcome::Failed(response) => response.body.as_str(),
        }
    }
}

/// What is wrong with a ping's reply, for the log: nothing (`None`) where
/// the reply is the expected word; the unexpected word; or no word at all.
pub open spec fn spec_ping_fault(reply: ReplyModel) -> Option<Seq<char>> {
    match reply {
        ReplyModel::Text(word) => if word == PONG_CMD@ {
            None
        } else {
            Some(MSG_UNEXPECTED_PING_RESPONSE@ + word)
        },
        _ => Some(Seq::empty()),
    }
}

/// What is wrong with a ping's reply, if anything.
pub fn check_connectivity(reply: &StoreReply) -> (fault: Option<String>)
    ensures
        match spec_ping_fault(reply@) {
            Some(text) => fault matches Some(found) && found@ == text,
            None => fault is None,
        },
{
    match reply {
        StoreReply::Text(word) => {
            let expected = String::from_str(PONG_CMD);
            if *word == expected {
                None
            } else {
                Some(String::from_str(MSG_UNEXPECTED_PING_RESPONSE).concat(word.as_str()))
            }
        },
        _ => Some(String::new()),
    }
}

/// The first step of the readiness probe: ping the store.
pub open spec fn spec_readyz() -> StepModel<ReadyState, ReadyOutcomeModel> {
    StepModel::Call { command: CommandModel::Ping, state: ReadyState::Pinging }
}

/// The end of the readiness probe: ready where the ping's reply is without
/// fault, failed under the given correlation id where it is not.
pub open spec fn spec_readyz_resume(state: ReadyState, reply: ReplyModel, correlation_id: Seq<char>)
    -> StepModel<ReadyState, ReadyOutcomeModel> {
    match spec_ping_fault(reply) {
        None => StepModel::Finish(ReadyOutcomeModel::Ready),
        Some(fault) => StepModel::Finish(
            ReadyOutcomeModel::Failed(
                spec_error_response(MSG_REDIS_CONNECTIVITY_ERROR@, fault, correlation_id),
            ),
        ),
    }
}

/// Starts the readiness probe.
pub fn readyz() -> (step: Step<ReadyState, ReadyOutcome>)
    ensures
        step@ == spec_readyz(),
{
    Step::Call { command: StoreCommand::Ping, state: ReadyState::Pinging }
}

/// Ends the readiness probe when the ping's reply is in.
pub fn readyz_resume(state: ReadyState, reply: StoreReply) -> (step: Step<ReadyState, ReadyOutcome>)
    ensures
        match step@ {
            StepModel::Finish(ReadyOutcomeModel::Ready) => step@ == spec_readyz_resume(
                state,
                reply@,
                Seq::empty(),
            ),
            StepModel::Finish(ReadyOutcomeModel::Failed(response)) => step@ == spec_readyz_resume(
                state,
                reply@,
                response.correlation_id,
            ) && is_correlation_id(response.correlation_id),
            _ => false,
        },
{
    match check_connectivity(&reply) {
        None => Step::Finish(ReadyOutcome::Ready),
        Some(fault) => Step::Finish(
            ReadyOutcome::Failed(log_and_response(MSG_REDIS_CONNECTIVITY_ERROR, fault.as_str())),
        ),
    }
}

} // verus!
