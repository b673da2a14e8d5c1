//! One run of the program, as a sequence of decisions: ask for a token, then
//! for the devices, then show what came of it.
//!
//! The caller owns the network. It sends each request that a [`Step`] asks
//! for and hands the reply to [`proceed`], until a step is `Done`.

use crate::model::{DeviceModel, Devices};
use crate::request::{
    devices_reading, devices_request, devices_request_model, read_devices, read_token,
    token_reading, token_request, token_request_model, FetchError, Reply, Request, RequestModel,
};
use vstd::prelude::*;

verus! {

/// The request whose reply is awaited.
#[derive(Debug, Clone, Copy, PartialEq, Eq)]
pub enum Pending {
    Token,
    Devices,
}

/// How a run ends.
#[derive(Debug, PartialEq, Eq)]
pub enum Outcome {
    /// The devices were listed.
    Listed(Devices),
    /// One of the two calls failed.
    Failed(FetchError),
}

/// What to do next.
#[derive(Debug, PartialEq, Eq)]
pub enum Step {
    /// Send the request and come back with its reply.
    Ask(Pending, Request),
    /// Show the outcome; the run is over.
    Done(Outcome),
}

/// An [`Outcome`] as a mathematical value.
pub enum OutcomeModel {
    Listed(Seq<DeviceModel>),
    Failed(FetchError),
}

/// A [`Step`] as a mathematical value.
pub enum StepModel {
    Ask(Pending, RequestModel),
    Done(OutcomeModel),
}

impl View for Outcome {
    type V = OutcomeModel;

    open spec fn view(&self) -> OutcomeModel {
        match *self {
            Outcome::Listed(list) => OutcomeModel::Listed(list@),
            Outcome::Failed(e) => OutcomeModel::Failed(e),
        }
    }
}

impl View for Step {
    type V = StepModel;

    open spec fn view(&self) -> StepModel {
        match *self {
            Step::Ask(pending, request) => StepModel::Ask(pending, request@),
            Step::Done(outcome) => StepModel::Done(outcome@),
        }
    }
}

/// The first step of a run with the given credentials.
pub open spec fn first_step(client_id: Seq<char>, client_secret: Seq<char>) -> StepModel {
    StepModel::Ask(Pending::Token, token_request_model(client_id, client_secret))
}

/// The step that follows when `reply` answers the request `pending`.
pub open spec fn next_step(pending: Pending, reply: Reply) -> StepModel {
    match pending {
        Pending::Token => match token_reading(reply) {
            Ok(token) => StepModel::Ask(
                Pending::Devices,
                devices_request_model(token.access_token),
            ),
            Err(e) => StepModel::Done(OutcomeModel::Failed(e)),
        },
        Pending::Devices => match devices_reading(reply) {
            Ok(devices) => StepModel::Done(OutcomeModel::Listed(devices)),
            Err(e) => StepModel::Done(OutcomeModel::Failed(e)),
        },
    }
}

/// Starts a run: asks for an access token with the given credentials.
pub fn begin(client_id: &str, client_secret: &str) -> (step: Step)
    ensures
        step@ == first_step(client_id@, client_secret@),
{
    Step::Ask(Pending::Token, token_request(client_id, client_secret))
}

/// Decides what follows the reply to the request `pending`.
///
/// A token that was granted leads to the devices request, authorized by that
/// token. A device list that was read ends the run with the list. A reply
/// that cannot be read ends the run with the error, at either stage.
pub fn proceed(pending: Pending, reply: Reply) -> (step: Step)
    ensures
        step@ == next_step(pending, reply),
{
    match pending {
        Pending::Token => match read_token(reply) {
            Ok(token) => Step::Ask(Pending::Devices, devices_request(token.access_token.as_str())),
            Err(e) => Step::Done(Outcome::Failed(e)),
        },
        Pending::Devices => match read_devices(reply) {
            Ok(list) => Step::Done(Outcome::Listed(list)),
            Err(e) => Step::Done(Outcome::Failed(e)),
        },
    }
}

/// A run sends at most two requests: the reply to the token request leads
/// to the devices request or to the end, and the reply to the devices
/// request always to the end.
pub proof fn run_is_two_requests_long(pending: Pending, reply: Reply)
    ensures
        next_step(pending, reply) matches StepModel::Ask(after, _) ==> pending == Pending::Token
            && after == Pending::Devices,
{
}

/// A run whose two requests are both answered well ends with the devices of
/// the second answer, and its devices request is authorized by the access
/// token of the first.
pub proof fn run_lists_what_was_answered(first: Reply, second: Reply)
    requires
        token_reading(first) is Ok,
        devices_reading(second) is Ok,
    ensures
        next_step(Pending::Token, first) == StepModel::Ask(
            Pending::Devices,
            devices_request_model(token_reading(first)->Ok_0.access_token),
        ),
        next_step(Pending::Devices, second) == StepModel::Done(
            OutcomeModel::Listed(devices_reading(second)->Ok_0),
        ),
{
}

/// When the token request fails, the devices are never asked for: the run
/// ends at once, with the error of the token request.
pub proof fn failed_token_ends_the_run(reply: Reply, e: FetchError)
    requires
        token_reading(reply) matches Err(error) && error == e,
    ensures
        next_step(Pending::Token, reply) == StepModel::Done(OutcomeModel::Failed(e)),
{
}

} // verus!
