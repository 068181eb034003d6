//! The decisions of the reply handler. The handler sends a
//! `GenerationBackendRequest`, and reports what came of it in two steps:
//! `after_send` says whether to go on and read the body, and `after_body`
//! gives the response. Whatever goes wrong on the way ends in the same
//! `UpstreamFailure`.

use vstd::prelude::*;
use vstd::string::*;
use crate::backend::GenerationBackendResponse;
use crate::reply::{
    lemma_reason_of_generated, response_for, GenerateResponse, GenerateResponseView,
    NON_RECRUITER_OR_UNCLEAR, SKIP_AUTOREPLY,
};
use crate::whitespace::trimmed;

verus! {

/// The path that requests for a reply are posted to.
pub const ROUTE: &'static str = "/generate_reply";

/// The port that the handler listens on, on the loopback address.
pub const PORT: u16 = 8000;

/// The status of the answer to a request that the generation service has
/// failed: 502, "bad gateway".
pub const BAD_GATEWAY: u16 = 502;

/// The generation service could not be reached, did not answer with
/// success, or answered what cannot be read. It is one value: the three
/// cannot be told apart.
#[derive(Clone, Copy, Debug, PartialEq, Eq)]
pub struct UpstreamFailure {}

impl UpstreamFailure {
    /// The status to answer with, which is `BAD_GATEWAY`.
    pub fn status(&self) -> (code: u16)
        ensures
            code == BAD_GATEWAY,
    {
        BAD_GATEWAY
    }

    /// The body to answer with, which is empty.
    pub fn body(&self) -> (text: &'static str)
        ensures
            text@ == Seq::<char>::empty(),
    {
        proof {
            reveal_strlit("");
        }
        ""
    }
}

/// Whether a status is one of success: 200 to 299.
pub open spec fn is_success(status: u16) -> bool {
    200 <= status < 300
}

/// What came of sending the request.
#[derive(Debug, PartialEq, Eq)]
pub enum SendOutcome {
    /// No answer came: the service could not be reached, or the
    /// connection failed or timed out.
    Failed,
    /// An answer came, with this status.
    Status(u16),
}

/// What the handler does once the request is sent.
#[derive(Debug, PartialEq, Eq)]
pub enum AfterSend {
    /// Read the body of the answer, and go on with `after_body`.
    ReadBody,
    /// Give up.
    Fail(UpstreamFailure),
}

/// What to do after `outcome`: read the body of an answer with a status of
/// success, and fail otherwise.
pub open spec fn next_after_send(outcome: SendOutcome) -> AfterSend {
    match outcome {
        SendOutcome::Status(status) if is_success(status) => AfterSend::ReadBody,
        _ => AfterSend::Fail(UpstreamFailure {  }),
    }
}

/// Decides what to do once the request is sent.
pub fn after_send(outcome: SendOutcome) -> (next: AfterSend)
    ensures
        next == next_after_send(outcome),
        next is ReadBody <==> (outcome matches SendOutcome::Status(status) && is_success(status)),
{
    match outcome {
        SendOutcome::Status(status) => {
            if 200 <= status && status < 300 {
                AfterSend::ReadBody
            } else {
                AfterSend::Fail(UpstreamFailure {  })
            }
        },
        SendOutcome::Failed => AfterSend::Fail(UpstreamFailure {  }),
    }
}

/// What came of reading the body of the answer.
#[derive(Debug, PartialEq, Eq)]
pub enum BodyOutcome {
    /// The body is not what the generation service is to answer.
    Malformed,
    /// The body, read.
    Parsed(GenerationBackendResponse),
}

/// Gives the handler's answer once the body is read: the response for
/// the text of a body that could be read, and the failure for a body that
/// could not.
pub fn after_body(outcome: BodyOutcome) -> (answer: Result<GenerateResponse, UpstreamFailure>)
    ensures
        match outcome {
            BodyOutcome::Parsed(body) => answer matches Ok(response) && response@ == response_for(
                body.response@,
            ),
            BodyOutcome::Malformed => answer is Err,
        },
{
    match outcome {
        BodyOutcome::Parsed(body) => Ok(GenerateResponse::from_generated(body.response.as_str())),
        BodyOutcome::Malformed => Err(UpstreamFailure {  }),
    }
}

/// What the handler answers in the end, for what came of sending the
/// request and, where the body was read, of reading it.
pub open spec fn answer_for(sent: SendOutcome, body: BodyOutcome) -> Result<
    GenerateResponseView,
    UpstreamFailure,
> {
    match next_after_send(sent) {
        AfterSend::Fail(failure) => Err(failure),
        AfterSend::ReadBody => match body {
            BodyOutcome::Parsed(body) => Ok(response_for(body.response@)),
            BodyOutcome::Malformed => Err(UpstreamFailure {  }),
        },
    }
}

/// The handler answers with a response if and only if the generation
/// service answered with a status of success and a body that could be read.
/// The response is then the one for the text in that body.
pub proof fn lemma_answer_needs_success(sent: SendOutcome, body: BodyOutcome)
    ensures
        answer_for(sent, body) is Ok <==> (sent matches SendOutcome::Status(status) && is_success(
            status,
        )) && body is Parsed,
        answer_for(sent, body) matches Ok(response) ==> body matches BodyOutcome::Parsed(read)
            && response == response_for(read.response@),
{
}

/// A status other than one of success is answered as a service that could
/// not be reached is: with the one failure and without a reply, whatever
/// the body holds.
pub proof fn lemma_failures_are_alike(status: u16, body: BodyOutcome)
    requires
        !is_success(status),
    ensures
        next_after_send(SendOutcome::Status(status)) == next_after_send(SendOutcome::Failed),
        next_after_send(SendOutcome::Failed) == AfterSend::Fail(UpstreamFailure {  }),
        answer_for(SendOutcome::Status(status), body) == answer_for(SendOutcome::Failed, body),
        answer_for(SendOutcome::Failed, body) == Err::<GenerateResponseView, UpstreamFailure>(
            UpstreamFailure {  },
        ),
{
}

/// In every response that the handler answers with, the reason is
/// `NON_RECRUITER_OR_UNCLEAR` if and only if the reply, trimmed, is
/// `SKIP_AUTOREPLY`.
pub proof fn lemma_answer_reason_tells_skip(sent: SendOutcome, body: BodyOutcome)
    ensures
        answer_for(sent, body) matches Ok(response) ==> (response.reason
            == NON_RECRUITER_OR_UNCLEAR@ <==> trimmed(response.reply) == SKIP_AUTOREPLY@),
{
    if let BodyOutcome::Parsed(read) = body {
        lemma_reason_of_generated(read.response@);
    }
}

} // verus!
