//! The relay's decisions: which operation a request asks for, and what each
//! operation answers to whatever its surroundings report.
//!
//! Nothing here reads or sends. The caller reads the request, forwards the
//! envelope once, and reports back what happened; each report is answered by
//! exactly one reply, and the first failure ends the exchange.

use crate::envelope::{
    law_payload_round_trip, unwrapped, DecodeError, DecodeFault, Envelope, EnvelopeResult,
    GIORequest, GIOResponse,
};
use crate::reply::{Reply, ReplyView, BAD_REQUEST, NOT_FOUND, OK};
use crate::text::{lossy_text, same};
use vstd::prelude::*;
use vstd::string::*;

verus! {

/// Where the host is looked for when nothing else is configured.
pub const DEFAULT_UPSTREAM: &'static str = "http://127.0.0.1:8080";

/// The path under which the host takes envelopes.
pub const ENVELOPE_PATH: &'static str = "/gio";

/// The operations of the relay.
#[derive(Debug, Clone, Copy, PartialEq, Eq, Structural)]
pub enum Route {
    /// `POST /v1/chat/completions`: wrap the body, forward it, unwrap the answer.
    Completion,
    /// `POST /gio`: accept an envelope.
    Gio,
    /// `GET /health`: liveness.
    Health,
    /// Anything else.
    Unmatched,
}

/// The operation that a method and a path ask for. Both are compared as they
/// stand, letter for letter.
pub open spec fn route_of(method: Seq<char>, path: Seq<char>) -> Route {
    if method == "POST"@ && path == "/v1/chat/completions"@ {
        Route::Completion
    } else if method == "POST"@ && path == "/gio"@ {
        Route::Gio
    } else if method == "GET"@ && path == "/health"@ {
        Route::Health
    } else {
        Route::Unmatched
    }
}

/// Picks the operation for a request.
pub fn route(method: &str, path: &str) -> (route: Route)
    ensures
        route == route_of(method@, path@),
{
    if same(method, "POST") && same(path, "/v1/chat/completions") {
        Route::Completion
    } else if same(method, "POST") && same(path, "/gio") {
        Route::Gio
    } else if same(method, "GET") && same(path, "/health") {
        Route::Health
    } else {
        Route::Unmatched
    }
}

/// The address to which envelopes are posted: the configured base, or the default
/// one, followed by the envelope path.
pub open spec fn upstream_url_of(configured: Option<Seq<char>>) -> Seq<char> {
    match configured {
        Some(base) => base + ENVELOPE_PATH@,
        None => DEFAULT_UPSTREAM@ + ENVELOPE_PATH@,
    }
}

/// Builds the address to which envelopes are posted.
pub fn upstream_url(configured: Option<&str>) -> (url: String)
    ensures
        url@ == upstream_url_of(
            match configured {
                Some(base) => Some(base@),
                None => None,
            },
        ),
{
    let mut url = match configured {
        Some(base) => String::from_str(base),
        None => String::from_str(DEFAULT_UPSTREAM),
    };
    url.append(ENVELOPE_PATH);
    url
}

/// What came of reading the body of a completion request.
#[derive(Debug, Clone, PartialEq, Eq)]
pub enum Inbound {
    /// The body could not be read.
    Unreadable,
    /// The body, whatever bytes it holds.
    Body(Vec<u8>),
}

/// What the caller does next for a completion request.
#[derive(Debug, Clone, PartialEq, Eq)]
pub enum Step {
    /// Answer at once; nothing is forwarded.
    Respond(Reply),
    /// Post this envelope to the host, once.
    Forward(GIORequest),
}

/// What came of forwarding an envelope.
#[derive(Debug, Clone, PartialEq, Eq)]
pub enum Upstream {
    /// The host could not be reached, or the transport failed.
    Unreachable,
    /// The host answered, but its body could not be read.
    Unreadable,
    /// The body is no envelope result; the parser's message says why.
    Malformed(String),
    /// The envelope result that the body holds.
    Answered(GIOResponse),
}

/// What came of reading an envelope that was submitted directly.
#[derive(Debug, Clone, PartialEq, Eq)]
pub enum Submission {
    /// The body could not be read.
    Unreadable,
    /// The body is no envelope.
    Malformed,
    /// The envelope that the body holds.
    Accepted(GIORequest),
}

/// What an `Inbound` stands for.
pub enum InboundView {
    Unreadable,
    Body(Seq<u8>),
}

/// What a `Step` stands for.
pub enum StepView {
    Respond(ReplyView),
    Forward(Envelope),
}

/// What an `Upstream` stands for.
pub enum UpstreamView {
    Unreachable,
    Unreadable,
    Malformed(Seq<char>),
    Answered(EnvelopeResult),
}

/// What a `Submission` stands for.
pub enum SubmissionView {
    Unreadable,
    Malformed,
    Accepted(Envelope),
}

impl View for Inbound {
    type V = InboundView;

    open spec fn view(&self) -> InboundView {
        match self {
            Inbound::Unreadable => InboundView::Unreadable,
            Inbound::Body(body) => InboundView::Body(body@),
        }
    }
}

impl View for Step {
    type V = StepView;

    open spec fn view(&self) -> StepView {
        match self {
            Step::Respond(reply) => StepView::Respond(reply@),
            Step::Forward(request) => StepView::Forward(request@),
        }
    }
}

impl View for Upstream {
    type V = UpstreamView;

    open spec fn view(&self) -> UpstreamView {
        match self {
            Upstream::Unreachable => UpstreamView::Unreachable,
            Upstream::Unreadable => UpstreamView::Unreadable,
            Upstream::Malformed(message) => UpstreamView::Malformed(message@),
            Upstream::Answered(result) => UpstreamView::Answered(result@),
        }
    }
}

impl View for Submission {
    type V = SubmissionView;

    open spec fn view(&self) -> SubmissionView {
        match self {
            Submission::Unreadable => SubmissionView::Unreadable,
            Submission::Malformed => SubmissionView::Malformed,
            Submission::Accepted(request) => SubmissionView::Accepted(request@),
        }
    }
}

/// The first step of a completion: a body that was read is wrapped and
/// forwarded; one that was not is answered with plain text.
pub open spec fn completion_step(inbound: InboundView) -> StepView {
    match inbound {
        InboundView::Unreadable => StepView::Respond(
            ReplyView::plain(BAD_REQUEST, "Could not read request body"@),
        ),
        InboundView::Body(body) => StepView::Forward(Envelope::carrying(body)),
    }
}

/// The answer to a payload that was read, or to the reason why it was not.
pub open spec fn payload_reply(outcome: Result<Seq<char>, DecodeFault>) -> ReplyView {
    match outcome {
        Ok(text) => ReplyView::plain(OK, text),
        Err(DecodeFault::Hex(details)) => ReplyView::detailed_failure(
            "Invalid hex data in response"@,
            details,
        ),
        Err(DecodeFault::Utf8(details)) => ReplyView::detailed_failure(
            "Invalid UTF-8 data in response"@,
            details,
        ),
    }
}

/// The answer to a completion request, given what came of forwarding it. The
/// status code inside an envelope result plays no part.
pub open spec fn completion_reply(upstream: UpstreamView) -> ReplyView {
    match upstream {
        UpstreamView::Unreachable => ReplyView::plain(BAD_REQUEST, "Could not forward request"@),
        UpstreamView::Unreadable => ReplyView::failure(true, "Could not read GIO response body"@),
        UpstreamView::Malformed(details) => ReplyView::detailed_failure(
            "Invalid GIOResponse format"@,
            details,
        ),
        UpstreamView::Answered(result) => payload_reply(unwrapped(result.response)),
    }
}

/// The answer to an envelope that was submitted directly. The envelope itself is
/// only acknowledged.
pub open spec fn submission_reply(submission: SubmissionView) -> ReplyView {
    match submission {
        SubmissionView::Unreadable => ReplyView::failure(false, "Could not read request body"@),
        SubmissionView::Malformed => ReplyView::failure(false, "Invalid JSON"@),
        SubmissionView::Accepted(_) => ReplyView::acknowledgement(),
    }
}

/// The answer to a liveness probe.
pub open spec fn liveness_reply() -> ReplyView {
    ReplyView::plain(OK, "OK"@)
}

/// The answer to a request that asks for no operation of the relay.
pub open spec fn not_found_reply() -> ReplyView {
    ReplyView::plain(NOT_FOUND, "Not Found"@)
}

/// Starts a completion: wraps the body for the host, or answers that it could
/// not be read.
pub fn begin_completion(inbound: Inbound) -> (step: Step)
    ensures
        step@ == completion_step(inbound@),
{
    match inbound {
        Inbound::Unreadable => Step::Respond(
            Reply::plain(BAD_REQUEST, String::from_str("Could not read request body")),
        ),
        Inbound::Body(body) => Step::Forward(GIORequest::wrap(body.as_slice())),
    }
}

/// Answers with a payload that was read, or reports why it was not.
pub fn reply_for_payload(outcome: Result<String, DecodeError>) -> (reply: Reply)
    ensures
        reply@ == payload_reply(
            match outcome {
                Ok(text) => Ok(text@),
                Err(fault) => Err(fault@),
            },
        ),
{
    match outcome {
        Ok(text) => Reply::plain(OK, text),
        Err(DecodeError::Hex(details)) => Reply::detailed_failure(
            "Invalid hex data in response",
            details.as_str(),
        ),
        Err(DecodeError::Utf8(details)) => Reply::detailed_failure(
            "Invalid UTF-8 data in response",
            details.as_str(),
        ),
    }
}

/// Ends a completion: answers with the text that the host sent back, or reports
/// the first thing that went wrong on the way.
pub fn finish_completion(upstream: Upstream) -> (reply: Reply)
    ensures
        reply@ == completion_reply(upstream@),
{
    match upstream {
        Upstream::Unreachable => Reply::plain(
            BAD_REQUEST,
            String::from_str("Could not forward request"),
        ),
        Upstream::Unreadable => Reply::failure(true, "Could not read GIO response body"),
        Upstream::Malformed(details) => Reply::detailed_failure(
            "Invalid GIOResponse format",
            details.as_str(),
        ),
        Upstream::Answered(result) => reply_for_payload(result.payload()),
    }
}

/// Acknowledges an envelope that was submitted directly, or reports why none was
/// read.
pub fn accept_envelope(submission: Submission) -> (reply: Reply)
    ensures
        reply@ == submission_reply(submission@),
{
    match submission {
        Submission::Unreadable => Reply::failure(false, "Could not read request body"),
        Submission::Malformed => Reply::failure(false, "Invalid JSON"),
        Submission::Accepted(_) => Reply::acknowledgement(),
    }
}

/// Answers a liveness probe.
pub fn liveness() -> (reply: Reply)
    ensures
        reply@ == liveness_reply(),
{
    Reply::plain(OK, String::from_str("OK"))
}

/// Answers a request that asks for no operation of the relay.
pub fn not_found() -> (reply: Reply)
    ensures
        reply@ == not_found_reply(),
{
    Reply::plain(NOT_FOUND, String::from_str("Not Found"))
}

/// A liveness probe always reaches the liveness operation, and the answer to it
/// is fixed: it depends on nothing that went before.
pub proof fn law_liveness_is_fixed()
    ensures
        route_of("GET"@, "/health"@) == Route::Health,
        liveness_reply() == ReplyView::plain(OK, "OK"@),
{
    reveal_strlit("GET");
    reveal_strlit("POST");
    assert("GET"@.len() != "POST"@.len());
}

/// Every method and path but the three known pairs is unmatched, and the answer
/// to an unmatched request is fixed.
pub proof fn law_unknown_is_unmatched(method: Seq<char>, path: Seq<char>)
    requires
        !(method == "POST"@ && path == "/v1/chat/completions"@),
        !(method == "POST"@ && path == "/gio"@),
        !(method == "GET"@ && path == "/health"@),
    ensures
        route_of(method, path) == Route::Unmatched,
        not_found_reply() == ReplyView::plain(NOT_FOUND, "Not Found"@),
{
}

/// A completion ends well exactly when the host answered with a response that
/// unwraps to text, and then the reply is that text; every other end is a bad
/// request.
pub proof fn law_completion_outcomes(upstream: UpstreamView)
    ensures
        completion_reply(upstream).status == OK || completion_reply(upstream).status
            == BAD_REQUEST,
        completion_reply(upstream).status == OK <==> (upstream matches UpstreamView::Answered(
            result,
        ) && unwrapped(result.response) is Ok),
        forall|result: EnvelopeResult, text: Seq<char>|
            upstream == UpstreamView::Answered(result) && unwrapped(result.response) == Ok::<
                Seq<char>,
                DecodeFault,
            >(text) ==> completion_reply(upstream) == ReplyView::plain(OK, text),
{
}

/// A host that sends an envelope's `id` back as its response, under whatever
/// status code, makes the relay answer with the body that the envelope was made
/// for, read as text.
pub proof fn law_echo(body: Seq<u8>, response_code: u16)
    ensures
        completion_reply(
            UpstreamView::Answered(
                EnvelopeResult { response_code, response: Envelope::carrying(body).id },
            ),
        ) == ReplyView::plain(OK, lossy_text(body)),
{
    law_payload_round_trip(lossy_text(body));
}

} // verus!
